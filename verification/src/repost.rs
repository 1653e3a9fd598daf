//! Reposting of forum posts to announcement channels, and the votes on reposted posts.
use vstd::prelude::*;
use std::collections::HashMap;
use crate::custom_id::slice_range;
use crate::discord::{channel_mention, channel_mention_spec, MessageReference};
use crate::error::BidibipError;
use crate::options::{find_option, option_index, ChannelKind, CommandOption, OptionValue};
use crate::text::{
    chars_of, contains_chars, contains_seq, decimal, parse_u64, parse_u64_spec, split_whitespace,
    string_from_chars, strings_view, truncate_str, truncated, truncation_defined, u64_to_string, vecs_view,
    words,
};
use crate::username::Username;

verus! {

/// Name of the repost module, used in its buttons' custom ids.
pub fn module_name() -> (r: &'static str)
    ensures
        r@ == "repost"@,
{
    "repost"
}

/// Description of the repost module.
pub fn module_description() -> (r: &'static str)
    ensures
        r@ == "Permet de lier un salon à un forum"@,
{
    "Permet de lier un salon à un forum"
}

/// The words of a text that hold `http`, last word first.
pub open spec fn urls_rev(ws: Seq<Seq<char>>) -> Seq<Seq<char>>
    decreases ws.len(),
{
    if ws.len() == 0 {
        Seq::empty()
    } else {
        let rest = urls_rev(ws.drop_first());
        if contains_seq(ws[0], "http"@) {
            rest.push(ws[0])
        } else {
            rest
        }
    }
}

/// The links that a post's text holds: its words that contain `http`, last one first.
pub open spec fn find_urls_spec(text: Seq<char>) -> Seq<Seq<char>> {
    urls_rev(words(text))
}

/// Collects the links of a post's text, last one first.
pub fn find_urls(initial_text: &str) -> (r: Vec<String>)
    ensures
        strings_view(r@) == find_urls_spec(initial_text@),
{
    let chars = chars_of(initial_text);
    let ws = split_whitespace(chars.as_slice());
    let http = chars_of("http");
    proof {
        reveal_strlit("http");
    }
    let mut r: Vec<String> = Vec::new();
    let mut j: usize = ws.len();
    let ghost wsv = vecs_view(ws@);
    assert(wsv.subrange(j as int, wsv.len() as int) =~= Seq::<Seq<char>>::empty());
    while j > 0
        invariant
            j <= ws@.len(),
            wsv == vecs_view(ws@),
            http@ == "http"@,
            strings_view(r@) == urls_rev(wsv.subrange(j as int, wsv.len() as int)),
        decreases j,
    {
        j = j - 1;
        let ghost before = r@;
        let ghost sub = wsv.subrange(j as int, wsv.len() as int);
        assert(sub.drop_first() =~= wsv.subrange(j + 1, wsv.len() as int));
        assert(sub[0] == ws@[j as int]@);
        if contains_chars(ws[j].as_slice(), http.as_slice()) {
            let url = string_from_chars(ws[j].as_slice());
            r.push(url);
            assert(strings_view(r@) =~= strings_view(before).push(url@));
        }
    }
    assert(wsv.subrange(0, wsv.len() as int) =~= wsv);
    r
}

/// The text that a link must hold for the announcement to show it as the post's picture.
pub open spec fn image_marker() -> Seq<char> {
    ".(jpg|jpeg|png|webp|avif|gif)$"@
}

/// The position of the first link that holds the picture marker.
pub open spec fn first_image(urls: Seq<Seq<char>>) -> Option<int>
    decreases urls.len(),
{
    if urls.len() == 0 {
        None
    } else if contains_seq(urls[0], image_marker()) {
        Some(0)
    } else {
        match first_image(urls.drop_first()) {
            Some(i) => Some(i + 1),
            None => None,
        }
    }
}

proof fn lemma_first_image_bounds(urls: Seq<Seq<char>>)
    ensures
        first_image(urls) matches Some(i) ==> 0 <= i < urls.len(),
    decreases urls.len(),
{
    if urls.len() > 0 && !contains_seq(urls[0], image_marker()) {
        lemma_first_image_bounds(urls.drop_first());
    }
}

/// What the announcement of a post shows besides its text: a picture, a link on the author's name,
/// and the links posted one per message after it.
pub struct RepostPlan {
    pub image: Option<String>,
    pub author_url: Option<String>,
    pub extra_urls: Vec<String>,
}

/// The links an announcement is built from: those of the text (last first) followed by the attachments.
pub open spec fn repost_links(content: Seq<char>, attachments: Seq<Seq<char>>) -> Seq<Seq<char>> {
    find_urls_spec(content) + attachments
}

/// The links left once the picture is taken out.
pub open spec fn links_without_image(links: Seq<Seq<char>>) -> Seq<Seq<char>> {
    match first_image(links) {
        Some(i) => links.remove(i),
        None => links,
    }
}

/// Plans the announcement of a post from its text and its attachments' links: the first link that
/// holds the picture marker becomes the picture; the first remaining link goes on the author's name;
/// each remaining link is posted on its own.
pub fn plan_repost(content: &str, attachment_urls: Vec<String>) -> (r: RepostPlan)
    ensures
        ({
            let links = repost_links(content@, strings_view(attachment_urls@));
            let rest = links_without_image(links);
            &&& (match first_image(links) {
                Some(i) => r.image matches Some(u) && u@ == links[i],
                None => r.image is None,
            })
            &&& strings_view(r.extra_urls@) == rest
            &&& (if rest.len() > 0 {
                r.author_url matches Some(u) && u@ == rest[0]
            } else {
                r.author_url is None
            })
        }),
{
    let mut urls = find_urls(content);
    let mut k: usize = 0;
    let ghost text_links = strings_view(urls@);
    while k < attachment_urls.len()
        invariant
            k <= attachment_urls@.len(),
            strings_view(urls@) == text_links + strings_view(attachment_urls@).take(k as int),
        decreases attachment_urls@.len() - k,
    {
        let ghost before = urls@;
        let a = attachment_urls[k].clone();
        assert(a@ == strings_view(attachment_urls@)[k as int]);
        urls.push(a);
        assert(strings_view(urls@) =~= strings_view(before).push(a@));
        assert(strings_view(attachment_urls@).take(k + 1) =~= strings_view(attachment_urls@).take(k as int).push(a@));
        k = k + 1;
    }
    assert(strings_view(attachment_urls@).take(k as int) =~= strings_view(attachment_urls@));
    let ghost links = strings_view(urls@);
    let marker = chars_of(".(jpg|jpeg|png|webp|avif|gif)$");
    proof {
        reveal_strlit(".(jpg|jpeg|png|webp|avif|gif)$");
        lemma_first_image_bounds(links);
    }
    let mut found: Option<usize> = None;
    let mut i: usize = 0;
    assert(links.skip(0) =~= links);
    while i < urls.len()
        invariant_except_break
            i <= urls@.len(),
            found is None,
            first_image(links) == (match first_image(links.skip(i as int)) {
                Some(x) => Some(x + i),
                None => None,
            }),
        invariant
            links == strings_view(urls@),
            marker@ == image_marker(),
        ensures
            found matches Some(idx) ==> first_image(links) == Some(idx as int) && idx < urls@.len(),
            found is None ==> first_image(links) is None,
        decreases urls@.len() - i,
    {
        let ghost rest = links.skip(i as int);
        assert(rest[0] == urls@[i as int]@);
        assert(rest.drop_first() =~= links.skip(i + 1));
        let u = chars_of(urls[i].as_str());
        if contains_chars(u.as_slice(), marker.as_slice()) {
            found = Some(i);
            break;
        }
        i = i + 1;
        proof {
            if i == urls@.len() {
                assert(links.skip(i as int) =~= Seq::<Seq<char>>::empty());
            }
        }
    }
    let image = match found {
        Some(idx) => {
            assert(first_image(links) == Some(idx as int));
            let img = urls.remove(idx);
            assert(strings_view(urls@) =~= links.remove(idx as int));
            Some(img)
        },
        None => None,
    };
    let author_url = if urls.len() > 0 { Some(urls[0].clone()) } else { None };
    RepostPlan { image, author_url, extra_urls: urls }
}

/// The first message of an announcement: `Nouveau post dans {forum} : {link}`.
pub open spec fn announcement_spec(forum_name: Seq<char>, link: Seq<char>) -> Seq<char> {
    "Nouveau post dans "@ + forum_name + " : "@ + link
}

/// The first message of an announcement.
pub fn announcement_text(forum_name: &str, link: &str) -> (r: String)
    ensures
        r@ == announcement_spec(forum_name@, link@),
{
    let mut r = String::new();
    r.append("Nouveau post dans ");
    r.append(forum_name);
    r.append(" : ");
    r.append(link);
    assert(r@ =~= announcement_spec(forum_name@, link@));
    r
}

/// The description of an announcement: the post's text cut to 4096 bytes.
pub fn announcement_description(content: &str) -> (r: String)
    requires
        truncation_defined(content@, 4096),
    ensures
        r@ == truncated(content@, 4096),
{
    truncate_str(content, 4096)
}

/// The id of the message to repost, from a message id or a link whose last `/`-separated part is the id.
pub open spec fn last_segment(s: Seq<char>) -> Seq<char>
    decreases s.len(),
{
    if s.len() == 0 {
        s
    } else if s.last() == '/' {
        Seq::empty()
    } else {
        last_segment(s.drop_last()).push(s.last())
    }
}

/// Reads the message id out of the text given to the repost command.
pub fn message_id_from_link(text: &str) -> (r: Option<u64>)
    ensures
        r == parse_u64_spec(last_segment(text@)),
{
    let chars = chars_of(text);
    let mut start: usize = chars.len();
    assert(text@.take(start as int) =~= text@);
    assert(text@.subrange(start as int, text@.len() as int) =~= Seq::<char>::empty());
    assert(last_segment(text@) =~= last_segment(text@.take(start as int)) + text@.subrange(start as int, text@.len() as int));
    while start > 0 && chars[start - 1] != '/'
        invariant
            start <= chars@.len(),
            chars@ == text@,
            last_segment(text@) == last_segment(text@.take(start as int)) + text@.subrange(start as int, text@.len() as int),
        decreases start,
    {
        let ghost pre = text@.take(start as int);
        assert(pre.drop_last() =~= text@.take(start - 1));
        assert(text@.subrange(start - 1, text@.len() as int) =~= seq![pre.last()] + text@.subrange(start as int, text@.len() as int));
        assert(last_segment(pre) == last_segment(pre.drop_last()).push(pre.last()));
        assert(last_segment(pre.drop_last()).push(pre.last()) + text@.subrange(start as int, text@.len() as int)
            =~= last_segment(pre.drop_last()) + text@.subrange(start - 1, text@.len() as int));
        start = start - 1;
    }
    proof {
        let pre = text@.take(start as int);
        if start > 0 {
            assert(pre.last() == '/');
        }
        assert(last_segment(pre) =~= Seq::<char>::empty());
        assert(last_segment(text@) =~= text@.subrange(start as int, text@.len() as int));
    }
    let id_chars = slice_range(chars.as_slice(), start, chars.len());
    parse_u64(id_chars.as_slice())
}

/// Everyone's votes on a reposted post.
pub struct VoteConfig {
    pub thread_name: String,
    pub source_message_url: String,
    pub source_thread: u64,
    pub reposted_message: Vec<MessageReference>,
    pub vote_message: MessageReference,
    pub yes: HashMap<u64, Username>,
    pub no: HashMap<u64, Username>,
}

/// The vote maps after a user's click: voting for a side withdraws a vote for the other side, and
/// voting again for the side already chosen withdraws the vote.
pub open spec fn vote_step(yes: Map<u64, Username>, no: Map<u64, Username>, user: Username, is_yes: bool) -> (
    Map<u64, Username>,
    Map<u64, Username>,
) {
    if is_yes {
        let no2 = no.remove(user.id);
        let yes2 = if yes.contains_key(user.id) { yes.remove(user.id) } else { yes.insert(user.id, user) };
        (yes2, no2)
    } else {
        let yes2 = yes.remove(user.id);
        let no2 = if no.contains_key(user.id) { no.remove(user.id) } else { no.insert(user.id, user) };
        (yes2, no2)
    }
}

impl VoteConfig {
    /// Records a user's click on the vote buttons.
    pub fn user_vote(&mut self, user: Username, is_yes: bool)
        ensures
            (final(self).yes@, final(self).no@) == vote_step(old(self).yes@, old(self).no@, user, is_yes),
            final(self).thread_name == old(self).thread_name,
            final(self).source_thread == old(self).source_thread,
            final(self).reposted_message == old(self).reposted_message,
            final(self).vote_message == old(self).vote_message,
    {
        broadcast use vstd::std_specs::hash::group_hash_axioms;
        let id = user.id;
        if is_yes {
            self.no.remove(&id);
            if self.yes.contains_key(&id) {
                self.yes.remove(&id);
            } else {
                self.yes.insert(id, user);
            }
        } else {
            self.yes.remove(&id);
            if self.no.contains_key(&id) {
                self.no.remove(&id);
            } else {
                self.no.insert(id, user);
            }
        }
    }

    /// Remembers a message that reposts the post (each message once).
    pub fn add_reposted_message(&mut self, msg: MessageReference)
        ensures
            old(self).reposted_message@.contains(msg) ==> final(self).reposted_message@ == old(self).reposted_message@,
            !old(self).reposted_message@.contains(msg) ==> final(self).reposted_message@ == old(self).reposted_message@.push(msg),
            final(self).yes@ == old(self).yes@,
            final(self).no@ == old(self).no@,
            final(self).thread_name == old(self).thread_name,
            final(self).source_message_url == old(self).source_message_url,
            final(self).source_thread == old(self).source_thread,
            final(self).vote_message == old(self).vote_message,
    {
        let mut i: usize = 0;
        while i < self.reposted_message.len()
            invariant
                i <= self.reposted_message@.len(),
                forall|j: int| 0 <= j < i ==> self.reposted_message@[j] != msg,
            decreases self.reposted_message@.len() - i,
        {
            if self.reposted_message[i] == msg {
                assert(self.reposted_message@[i as int] == msg);
                return;
            }
            i = i + 1;
        }
        self.reposted_message.push(msg);
    }
}

/// No user is counted on both sides: a click keeps the two sides apart.
pub proof fn lemma_vote_sides_disjoint(yes: Map<u64, Username>, no: Map<u64, Username>, user: Username, is_yes: bool)
    requires
        forall|id: u64| !(yes.contains_key(id) && no.contains_key(id)),
    ensures
        ({
            let (y, n) = vote_step(yes, no, user, is_yes);
            forall|id: u64| !(#[trigger] y.contains_key(id) && n.contains_key(id))
        }),
{
}

/// Clicking the same side twice leaves no vote of that user.
pub proof fn lemma_vote_twice_withdraws(yes: Map<u64, Username>, no: Map<u64, Username>, user: Username, is_yes: bool)
    requires
        !(if is_yes { yes } else { no }).contains_key(user.id),
    ensures
        ({
            let (y1, n1) = vote_step(yes, no, user, is_yes);
            let (y2, n2) = vote_step(y1, n1, user, is_yes);
            &&& !y2.contains_key(user.id)
            &&& !n2.contains_key(user.id)
            &&& y2 == yes.remove(user.id)
            &&& n2 == no.remove(user.id)
        }),
{
    let (y1, n1) = vote_step(yes, no, user, is_yes);
    let (y2, n2) = vote_step(y1, n1, user, is_yes);
    if is_yes {
        assert(y2 =~= yes.remove(user.id));
        assert(n2 =~= no.remove(user.id));
    } else {
        assert(y2 =~= yes.remove(user.id));
        assert(n2 =~= no.remove(user.id));
    }
}

/// The name of a voted thread: `[✅yes-no] name`, with ❌ when the yes do not outnumber the no.
pub open spec fn vote_thread_name_spec(yes: nat, no: nat, name: Seq<char>) -> Seq<char> {
    "["@ + (if yes > no { "✅"@ } else { "❌"@ }) + decimal(yes) + "-"@ + decimal(no) + "] "@ + name
}

/// The name a voted thread gets.
pub fn vote_thread_name(yes: usize, no: usize, name: &str) -> (r: String)
    ensures
        r@ == vote_thread_name_spec(yes as nat, no as nat, name@),
{
    let mut r = String::new();
    r.append("[");
    if yes > no {
        r.append("✅");
    } else {
        r.append("❌");
    }
    r.append(u64_to_string(yes as u64).as_str());
    r.append("-");
    r.append(u64_to_string(no as u64).as_str());
    r.append("] ");
    r.append(name);
    assert(r@ =~= vote_thread_name_spec(yes as nat, no as nat, name@));
    r
}

/// The labels of the vote buttons: `Pour ✅ {yes}` and `Contre ❌ {no}`.
pub fn vote_button_labels(yes: usize, no: usize) -> (r: (String, String))
    ensures
        r.0@ == "Pour ✅ "@ + decimal(yes as nat),
        r.1@ == "Contre ❌ "@ + decimal(no as nat),
{
    let mut a = String::new();
    a.append("Pour ✅ ");
    a.append(u64_to_string(yes as u64).as_str());
    let mut b = String::new();
    b.append("Contre ❌ ");
    b.append(u64_to_string(no as u64).as_str());
    assert(a@ =~= "Pour ✅ "@ + decimal(yes as nat));
    assert(b@ =~= "Contre ❌ "@ + decimal(no as nat));
    (a, b)
}

/// One line per voter, `full name` then a line break, in the order given.
pub open spec fn voter_lines(voters: Seq<Username>) -> Seq<char>
    decreases voters.len(),
{
    if voters.len() == 0 {
        Seq::empty()
    } else {
        voter_lines(voters.drop_last()) + crate::username::full_spec(
            voters.last().id,
            voters.last().handle@,
            voters.last().server_name@,
        ) + "\n"@
    }
}

/// The list of voters shown by the "see votes" button.
pub fn voter_list(voters: &Vec<Username>) -> (r: String)
    ensures
        r@ == voter_lines(voters@),
{
    let mut r = String::new();
    let mut i: usize = 0;
    while i < voters.len()
        invariant
            i <= voters@.len(),
            r@ == voter_lines(voters@.take(i as int)),
        decreases voters@.len() - i,
    {
        assert(voters@.take(i + 1).drop_last() =~= voters@.take(i as int));
        r.append(voters[i].full().as_str());
        r.append("\n");
        i = i + 1;
        assert(r@ =~= voter_lines(voters@.take(i as int)));
    }
    assert(voters@.take(i as int) =~= voters@);
    r
}

/// The vote count line: `Nombre de votes : {yes + no}`.
pub fn vote_count_text(yes: usize, no: usize) -> (r: String)
    ensures
        r@ == "Nombre de votes : "@ + decimal((yes + no) as nat),
{
    let mut r = String::new();
    r.append("Nombre de votes : ");
    let total: u128 = yes as u128 + no as u128;
    r.append(crate::text::u128_to_string(total).as_str());
    assert(r@ =~= "Nombre de votes : "@ + decimal((yes + no) as nat));
    r
}

/// Where a forum's posts are reposted, and whether they are voted on.
pub struct RepostChannelConfig {
    pub repost_channel: Vec<u64>,
    pub vote_enabled: bool,
}

/// The repost module's saved state: forum links, keyed by forum, and votes, keyed by thread.
pub struct RepostConfig {
    pub forums: HashMap<u64, RepostChannelConfig>,
    pub votes: HashMap<u64, VoteConfig>,
}

impl RepostConfig {
    /// Links a repost channel to a forum (setting whether posts are voted on), or, when `enabled` is
    /// false, drops every link of the forum.
    pub fn set_forum_link(&mut self, forum: u64, channel: u64, vote: bool, enabled: bool)
        ensures
            enabled ==> final(self).forums@.contains_key(forum)
                && final(self).forums@[forum].vote_enabled == vote
                && (forall|c: u64| #[trigger] final(self).forums@[forum].repost_channel@.contains(c) <==> (c == channel || (
                old(self).forums@.contains_key(forum) && old(self).forums@[forum].repost_channel@.contains(c))))
                && final(self).forums@.remove(forum) == old(self).forums@.remove(forum),
            !enabled ==> final(self).forums@ == old(self).forums@.remove(forum),
            final(self).votes@ == old(self).votes@,
    {
        broadcast use vstd::std_specs::hash::group_hash_axioms;
        if enabled {
            let mut data = match self.forums.remove(&forum) {
                Some(d) => d,
                None => RepostChannelConfig { repost_channel: Vec::new(), vote_enabled: false },
            };
            let mut present = false;
            let mut i: usize = 0;
            while i < data.repost_channel.len()
                invariant
                    i <= data.repost_channel@.len(),
                    present ==> data.repost_channel@.contains(channel),
                    !present ==> forall|j: int| 0 <= j < i ==> data.repost_channel@[j] != channel,
                decreases data.repost_channel@.len() - i,
            {
                if data.repost_channel[i] == channel {
                    present = true;
                    assert(data.repost_channel@[i as int] == channel);
                }
                i = i + 1;
            }
            let ghost before = data.repost_channel@;
            if !present {
                data.repost_channel.push(channel);
                assert(data.repost_channel@[before.len() as int] == channel);
            }
            assert forall|c: u64| before.contains(c) implies #[trigger] data.repost_channel@.contains(c) by {
                let k = choose|k: int| 0 <= k < before.len() && before[k] == c;
                assert(data.repost_channel@[k] == c);
            }
            data.vote_enabled = vote;
            self.forums.insert(forum, data);
        } else {
            self.forums.remove(&forum);
        }
    }

    /// Forgets a deleted forum's links.
    pub fn forget_forum(&mut self, forum: u64)
        ensures
            final(self).forums@ == old(self).forums@.remove(forum),
            final(self).votes@ == old(self).votes@,
    {
        broadcast use vstd::std_specs::hash::group_hash_axioms;
        self.forums.remove(&forum);
    }

    /// What a new thread of a forum asks of the module: nothing when it is not a public thread, has
    /// no parent, or is already voted on; an error when its parent is not a linked forum; else the
    /// repost channels of that forum and whether its posts are voted on.
    pub fn thread_plan(&self, is_public_thread: bool, thread: u64, parent: Option<u64>) -> (r: Result<
        Option<(Vec<u64>, bool)>,
        BidibipError,
    >)
        ensures
            (r matches Ok(None)) <==> (!is_public_thread || parent is None || self.votes@.contains_key(thread)),
            r is Err <==> (is_public_thread && parent is Some && !self.votes@.contains_key(thread) && !self.forums@.contains_key(
                parent->0,
            )),
            r matches Err(e) ==> e.msg@ == "Failed to get repost config"@,
            r matches Ok(Some((channels, vote))) ==> self.forums@.contains_key(parent->0) && channels@
                == self.forums@[parent->0].repost_channel@ && vote == self.forums@[parent->0].vote_enabled,
    {
        broadcast use vstd::std_specs::hash::group_hash_axioms;
        if !is_public_thread {
            return Ok(None);
        }
        let p = match parent {
            Some(p) => p,
            None => {
                return Ok(None);
            },
        };
        if self.votes.contains_key(&thread) {
            return Ok(None);
        }
        match self.forums.get(&p) {
            None => Err(BidibipError::msg("Failed to get repost config")),
            Some(links) => {
                let mut channels: Vec<u64> = Vec::new();
                let mut i: usize = 0;
                while i < links.repost_channel.len()
                    invariant
                        i <= links.repost_channel@.len(),
                        channels@ == links.repost_channel@.take(i as int),
                    decreases links.repost_channel@.len() - i,
                {
                    channels.push(links.repost_channel[i]);
                    i = i + 1;
                    assert(channels@ =~= links.repost_channel@.take(i as int));
                }
                assert(links.repost_channel@.take(i as int) =~= links.repost_channel@);
                Ok(Some((channels, links.vote_enabled)))
            },
        }
    }

    /// Opens the vote on a thread.
    pub fn open_vote(&mut self, thread: u64, vote: VoteConfig)
        ensures
            final(self).votes@ == old(self).votes@.insert(thread, vote),
            final(self).forums@ == old(self).forums@,
    {
        broadcast use vstd::std_specs::hash::group_hash_axioms;
        self.votes.insert(thread, vote);
    }

    /// Remembers the last message that reposts a voted thread; an error when the thread is not
    /// voted on (nothing changes then).
    pub fn record_repost(&mut self, thread: u64, msg: MessageReference) -> (r: Result<(), BidibipError>)
        ensures
            r is Ok <==> old(self).votes@.contains_key(thread),
            r matches Err(e) ==> e.msg@ == "Failed to register last reposted message"@ && final(self).votes@ == old(self).votes@,
            r is Ok ==> final(self).votes@.contains_key(thread) && final(self).votes@.remove(thread) == old(self).votes@.remove(thread)
                && ({
                let (a, b) = (old(self).votes@[thread], final(self).votes@[thread]);
                &&& b.reposted_message@ == (if a.reposted_message@.contains(msg) {
                    a.reposted_message@
                } else {
                    a.reposted_message@.push(msg)
                })
                &&& b.yes@ == a.yes@ && b.no@ == a.no@
                &&& b.thread_name == a.thread_name && b.source_message_url == a.source_message_url
                &&& b.source_thread == a.source_thread && b.vote_message == a.vote_message
            }),
            final(self).forums@ == old(self).forums@,
    {
        broadcast use vstd::std_specs::hash::group_hash_axioms;
        match self.votes.remove(&thread) {
            None => Err(BidibipError::msg("Failed to register last reposted message")),
            Some(mut v) => {
                v.add_reposted_message(msg);
                self.votes.insert(thread, v);
                assert(self.votes@.remove(thread) =~= old(self).votes@.remove(thread));
                Ok(())
            },
        }
    }

    /// Forgets a deleted thread's votes.
    pub fn forget_thread(&mut self, thread: u64)
        ensures
            final(self).votes@ == old(self).votes@.remove(thread),
            final(self).forums@ == old(self).forums@,
    {
        broadcast use vstd::std_specs::hash::group_hash_axioms;
        self.votes.remove(&thread);
    }
}

/// What the forum-link command asks for: the forum, the repost channel, whether to vote, whether to link.
pub struct ForumLinkRequest {
    pub forum: u64,
    pub channel: u64,
    pub vote: bool,
    pub enabled: bool,
}

/// The forum-link request the options describe, or the message of the first problem found.
pub open spec fn forum_link_request_spec(options: Seq<CommandOption>) -> Result<(u64, u64, bool, bool), Seq<char>> {
    match option_index(options, "forum"@) {
        None => Err("missing forum parameter"@),
        Some(fi) => match options[fi].value {
            OptionValue::Channel { id: forum, kind: fkind, .. } => if fkind != ChannelKind::Forum {
                Err("Not a forum"@)
            } else {
                match option_index(options, "repost-channel"@) {
                    None => Err("missing repost-channel parameter"@),
                    Some(ci) => match options[ci].value {
                        OptionValue::Channel { id: channel, kind: ckind, .. } => if ckind != ChannelKind::Text {
                            Err("Not a regular channel"@)
                        } else {
                            let vote = match option_index(options, "vote"@) {
                                None => Ok(false),
                                Some(vi) => match options[vi].value {
                                    OptionValue::Boolean(b) => Ok(b),
                                    _ => Err("vote option is not a boolean"@),
                                },
                            };
                            let enabled = match option_index(options, "enabled"@) {
                                None => Ok(true),
                                Some(ei) => match options[ei].value {
                                    OptionValue::Boolean(b) => Ok(b),
                                    _ => Err("Enable option is not a boolean"@),
                                },
                            };
                            match vote {
                                Err(e) => Err(e),
                                Ok(v) => match enabled {
                                    Err(e) => Err(e),
                                    Ok(en) => Ok((forum, channel, v, en)),
                                },
                            }
                        },
                        _ => Err("repost-channel parameter is not a channel"@),
                    },
                }
            },
            _ => Err("forum parameter is not a channel"@),
        },
    }
}

/// Reads the forum-link command's options.
pub fn forum_link_request(options: &Vec<CommandOption>) -> (r: Result<ForumLinkRequest, BidibipError>)
    ensures
        match forum_link_request_spec(options@) {
            Ok((f, c, v, e)) => r matches Ok(req) && req.forum == f && req.channel == c && req.vote == v && req.enabled == e,
            Err(m) => r matches Err(err) && err.msg@ == m,
        },
{
    proof {
        reveal_strlit("forum");
        reveal_strlit("repost-channel");
        reveal_strlit("vote");
        reveal_strlit("enabled");
    }
    let forum = match find_option(options, "forum") {
        None => return Err(BidibipError::msg("missing forum parameter")),
        Some(OptionValue::Channel { id, kind, .. }) => {
            if *kind != ChannelKind::Forum {
                return Err(BidibipError::msg("Not a forum"));
            }
            *id
        },
        Some(_) => return Err(BidibipError::msg("forum parameter is not a channel")),
    };
    let channel = match find_option(options, "repost-channel") {
        None => return Err(BidibipError::msg("missing repost-channel parameter")),
        Some(OptionValue::Channel { id, kind, .. }) => {
            if *kind != ChannelKind::Text {
                return Err(BidibipError::msg("Not a regular channel"));
            }
            *id
        },
        Some(_) => return Err(BidibipError::msg("repost-channel parameter is not a channel")),
    };
    let vote = match find_option(options, "vote") {
        None => false,
        Some(OptionValue::Boolean(b)) => *b,
        Some(_) => return Err(BidibipError::msg("vote option is not a boolean")),
    };
    let enabled = match find_option(options, "enabled") {
        None => true,
        Some(OptionValue::Boolean(b)) => *b,
        Some(_) => return Err(BidibipError::msg("Enable option is not a boolean")),
    };
    Ok(ForumLinkRequest { forum, channel, vote, enabled })
}

/// The confirmation of a forum-link command: `Forum <#forum> connecté du channel <#channel> !`, or
/// `déconnecté au` when the link is dropped.
pub fn forum_link_confirmation(forum: u64, channel: u64, enabled: bool) -> (r: String)
    ensures
        r@ == "Forum "@ + channel_mention_spec(forum) + (if enabled { " connecté du channel "@ } else {
            " déconnecté au channel "@
        }) + channel_mention_spec(channel) + " !"@,
{
    let mut r = String::new();
    r.append("Forum ");
    r.append(channel_mention(forum).as_str());
    if enabled {
        r.append(" connecté du channel ");
    } else {
        r.append(" déconnecté au channel ");
    }
    r.append(channel_mention(channel).as_str());
    r.append(" !");
    assert(r@ =~= "Forum "@ + channel_mention_spec(forum) + (if enabled { " connecté du channel "@ } else {
            " déconnecté au channel "@
        }) + channel_mention_spec(channel) + " !"@);
    r
}

} // verus!
