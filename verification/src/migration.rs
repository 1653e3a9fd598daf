//! Conversion of the saved state of the bot's earlier layout into the current one: the sanctions,
//! the moderation threads, and the forum links and votes of the repost module.
use vstd::prelude::*;
use crate::ad_form::opt_view;
use crate::custom_id::slice_range;
use crate::discord::MessageReference;
use crate::modo::ModoConfig;
use crate::repost::{RepostChannelConfig, RepostConfig, VoteConfig};
use crate::text::{chars_of, parse_u64, parse_u64_spec, string_from_chars};
use crate::username::Username;
use std::collections::HashMap;
use crate::warn::{UserWarn, WarnBook};

verus! {

/// A sanction as the earlier layout saved it: its date, its link, and its message.
pub struct OldWarnItem {
    pub date: u64,
    pub link: String,
    pub message: String,
}

/// Whether `w` is the sanction converted from `item`: its date, the stand-in name for both users,
/// the link, the message as reason, and nothing else.
pub open spec fn migrated_warn(item: OldWarnItem, stand_in: Username, w: UserWarn) -> bool {
    &&& w.date == item.date
    &&& w.from == stand_in
    &&& w.to == stand_in
    &&& opt_view(w.link) == Some(item.link@)
    &&& w.reason@ == item.message@
    &&& w.details is None
    &&& w.action@ == Seq::<char>::empty()
    &&& w.full_message_link@ == Seq::<char>::empty()
}

/// Converts a sanction of the earlier layout; `stand_in` stands for the two users, whose names the
/// earlier layout did not keep.
pub fn migrate_warn_item(item: &OldWarnItem, stand_in: &Username) -> (r: UserWarn)
    ensures
        migrated_warn(*item, *stand_in, r),
{
    UserWarn {
        date: item.date,
        from: stand_in.clone(),
        to: stand_in.clone(),
        link: Some(item.link.clone()),
        reason: item.message.clone(),
        details: None,
        action: String::new(),
        full_message_link: String::new(),
    }
}

/// Whether the keys of a list of (key, value) pairs are all different, as those of a map.
pub open spec fn distinct_keys<V>(entries: Seq<(u64, V)>) -> bool {
    forall|i: int, j: int| 0 <= i < j < entries.len() ==> entries[i].0 != entries[j].0
}

/// Converts the sanctions of the earlier layout, user by user (each user once): each sanction of
/// each user is converted, in order.
pub fn migrate_warns(old: &Vec<(u64, Vec<OldWarnItem>)>, stand_in: &Username) -> (r: WarnBook)
    requires
        distinct_keys(old@),
    ensures
        forall|u: u64| r.users@.contains_key(u) <==> exists|i: int| 0 <= i < old@.len() && (#[trigger] old@[i]).0 == u,
        forall|i: int| 0 <= i < old@.len() ==> (#[trigger] r.users@[old@[i].0])@.len() == old@[i].1@.len(),
        forall|i: int, j: int|
            0 <= i < old@.len() && 0 <= j < old@[i].1@.len() ==> migrated_warn(old@[i].1@[j], *stand_in, #[trigger] r.users@[old@[i].0]@[j]),
{
    broadcast use vstd::std_specs::hash::group_hash_axioms;
    let mut users: HashMap<u64, Vec<UserWarn>> = HashMap::new();
    let mut i: usize = 0;
    while i < old.len()
        invariant
            i <= old@.len(),
            distinct_keys(old@),
            forall|u: u64| users@.contains_key(u) <==> exists|k: int| 0 <= k < i && (#[trigger] old@[k]).0 == u,
            forall|k: int| 0 <= k < i ==> (#[trigger] users@[old@[k].0])@.len() == old@[k].1@.len(),
            forall|k: int, j: int|
                0 <= k < i && 0 <= j < old@[k].1@.len() ==> migrated_warn(old@[k].1@[j], *stand_in, #[trigger] users@[old@[k].0]@[j]),
        decreases old@.len() - i,
    {
        let items = &old[i].1;
        let mut list: Vec<UserWarn> = Vec::new();
        let mut j: usize = 0;
        while j < items.len()
            invariant
                j <= items@.len(),
                list@.len() == j,
                forall|m: int| 0 <= m < j ==> migrated_warn(items@[m], *stand_in, #[trigger] list@[m]),
            decreases items@.len() - j,
        {
            let w = migrate_warn_item(&items[j], stand_in);
            list.push(w);
            j = j + 1;
        }
        let ghost before = users@;
        users.insert(old[i].0, list);
        proof {
            assert forall|u: u64| users@.contains_key(u) <==> exists|k: int| 0 <= k < i + 1 && (#[trigger] old@[k]).0 == u by {
                if u == old@[i as int].0 {
                    assert(old@[i as int].0 == u);
                } else if users@.contains_key(u) {
                    assert(before.contains_key(u));
                }
            }
            assert forall|k: int| 0 <= k < i + 1 implies (#[trigger] users@[old@[k].0])@.len() == old@[k].1@.len() by {
                if k < i {
                    assert(old@[k].0 != old@[i as int].0);
                }
            }
            assert forall|k: int, m: int|
                0 <= k < i + 1 && 0 <= m < old@[k].1@.len() implies migrated_warn(old@[k].1@[m], *stand_in, #[trigger] users@[old@[k].0]@[m]) by {
                if k < i {
                    assert(old@[k].0 != old@[i as int].0);
                }
            }
        }
        i = i + 1;
    }
    WarnBook { users }
}

/// The map that inserting each (key, value) pair, in order, gives.
pub open spec fn pairs_map(pairs: Seq<(u64, u64)>) -> Map<u64, u64>
    decreases pairs.len(),
{
    if pairs.len() == 0 {
        Map::empty()
    } else {
        pairs_map(pairs.drop_last()).insert(pairs.last().0, pairs.last().1)
    }
}

/// Converts the moderation threads of the earlier layout (member, thread); the moderation channel
/// is not set yet.
pub fn migrate_tickets(old: &Vec<(u64, u64)>) -> (r: ModoConfig)
    ensures
        r.modo_channel == 0,
        r.tickets@ == pairs_map(old@),
{
    broadcast use vstd::std_specs::hash::group_hash_axioms;
    let mut tickets: HashMap<u64, u64> = HashMap::new();
    let mut i: usize = 0;
    while i < old.len()
        invariant
            i <= old@.len(),
            tickets@ == pairs_map(old@.take(i as int)),
        decreases old@.len() - i,
    {
        tickets.insert(old[i].0, old[i].1);
        proof {
            assert(old@.take(i + 1).drop_last() =~= old@.take(i as int));
        }
        i = i + 1;
    }
    assert(old@.take(i as int) =~= old@);
    ModoConfig { modo_channel: 0, tickets }
}

/// Where the character `c` next occurs at or after position `i`.
pub open spec fn char_from(s: Seq<char>, c: char, i: int) -> Option<int>
    decreases s.len() - i,
{
    if i < 0 || i >= s.len() {
        None
    } else if s[i] == c {
        Some(i)
    } else {
        char_from(s, c, i + 1)
    }
}

proof fn lemma_char_from_bounds(s: Seq<char>, c: char, i: int)
    ensures
        char_from(s, c, i) matches Some(j) ==> i <= j < s.len() && s[j] == c,
    decreases s.len() - i,
{
    if i < 0 || i >= s.len() {
    } else if s[i] == c {
    } else {
        lemma_char_from_bounds(s, c, i + 1);
    }
}

fn find_char(s: &[char], c: char, from: usize) -> (r: Option<usize>)
    requires
        from <= s@.len(),
    ensures
        r matches Some(j) ==> char_from(s@, c, from as int) == Some(j as int) && from <= j < s@.len(),
        r is None ==> char_from(s@, c, from as int) is None,
{
    let mut k: usize = from;
    while k < s.len()
        invariant
            from <= k <= s@.len(),
            char_from(s@, c, from as int) == char_from(s@, c, k as int),
        decreases s@.len() - k,
    {
        if s[k] == c {
            return Some(k);
        }
        k = k + 1;
    }
    None
}

/// The first two `/`-separated pieces of a text, as `split("/")` yields them; `None` when the
/// text holds no `/` (there is no second piece then).
pub open spec fn slash_pair(s: Seq<char>) -> Option<(Seq<char>, Seq<char>)> {
    match char_from(s, '/', 0) {
        None => None,
        Some(i) => {
            let end = match char_from(s, '/', i + 1) {
                Some(k) => k,
                None => s.len() as int,
            };
            Some((s.subrange(0, i), s.subrange(i + 1, end)))
        },
    }
}

fn read_slash_pair(s: &str) -> (r: Option<(Vec<char>, Vec<char>)>)
    ensures
        r is None <==> slash_pair(s@) is None,
        r matches Some((a, b)) ==> slash_pair(s@) == Some((a@, b@)),
{
    let chars = chars_of(s);
    proof {
        lemma_char_from_bounds(s@, '/', 0);
    }
    match find_char(chars.as_slice(), '/', 0) {
        None => None,
        Some(i) => {
            let n = chars.len();
            assert(i < n);
            proof {
                lemma_char_from_bounds(s@, '/', i + 1);
            }
            let end = match find_char(chars.as_slice(), '/', i + 1) {
                Some(k) => k,
                None => chars.len(),
            };
            Some((slice_range(chars.as_slice(), 0, i), slice_range(chars.as_slice(), i + 1, end)))
        },
    }
}

/// The message a text `channel/message` designates, when both are numbers.
pub open spec fn reference_of_text(s: Seq<char>) -> Option<MessageReference> {
    match slash_pair(s) {
        Some((a, b)) => match (parse_u64_spec(a), parse_u64_spec(b)) {
            (Some(channel), Some(id)) => Some(MessageReference { id, channel }),
            _ => None,
        },
        None => None,
    }
}

/// Reads a message written `channel/message`.
pub fn read_reference(s: &str) -> (r: Option<MessageReference>)
    ensures
        r == reference_of_text(s@),
{
    match read_slash_pair(s) {
        None => None,
        Some((a, b)) => match (parse_u64(a.as_slice()), parse_u64(b.as_slice())) {
            (Some(channel), Some(id)) => Some(MessageReference { id, channel }),
            _ => None,
        },
    }
}

/// A forum link as the earlier layout saved it: its repost channels and whether posts are voted on.
pub struct OldRepostChannels {
    pub bound_channels: Vec<u64>,
    pub vote: bool,
}

/// The votes on a post as the earlier layout saved them: the users on each side (found by their
/// ids), the reposted messages (`channel/message`, the first being the post), and the title.
pub struct OldRepostVotes {
    pub vote_yes: Vec<Username>,
    pub vote_no: Vec<Username>,
    pub bound_messages: Vec<String>,
    pub channel_title: String,
}

/// Converts a forum link: its repost channels, each once, and whether posts are voted on.
pub fn migrate_forum(old: &OldRepostChannels) -> (r: RepostChannelConfig)
    ensures
        r.vote_enabled == old.vote,
        r.repost_channel@.no_duplicates(),
        forall|c: u64| r.repost_channel@.contains(c) <==> old.bound_channels@.contains(c),
{
    let mut channels: Vec<u64> = Vec::new();
    let mut i: usize = 0;
    while i < old.bound_channels.len()
        invariant
            i <= old.bound_channels@.len(),
            channels@.no_duplicates(),
            forall|c: u64| channels@.contains(c) <==> old.bound_channels@.take(i as int).contains(c),
        decreases old.bound_channels@.len() - i,
    {
        let c = old.bound_channels[i];
        let ghost before = channels@;
        let mut present = false;
        let mut k: usize = 0;
        while k < channels.len()
            invariant
                k <= channels@.len(),
                present <==> exists|m: int| 0 <= m < k && channels@[m] == c,
            decreases channels@.len() - k,
        {
            if channels[k] == c {
                present = true;
            }
            k = k + 1;
        }
        if !present {
            channels.push(c);
        }
        proof {
            let t = old.bound_channels@.take(i as int);
            let t2 = old.bound_channels@.take(i + 1);
            assert(t2 =~= t.push(c));
            assert forall|x: u64| channels@.contains(x) <==> t2.contains(x) by {
                if channels@.contains(x) {
                    let m = choose|m: int| 0 <= m < channels@.len() && channels@[m] == x;
                    if m < before.len() {
                        assert(before.contains(x));
                        let n = choose|n: int| 0 <= n < t.len() && t[n] == x;
                        assert(t2[n] == x);
                    } else {
                        assert(t2[i as int] == x);
                    }
                }
                if t2.contains(x) {
                    let n = choose|n: int| 0 <= n < t2.len() && t2[n] == x;
                    if n < i {
                        assert(t[n] == x);
                        assert(before.contains(x));
                        let m = choose|m: int| 0 <= m < before.len() && before[m] == x;
                        assert(channels@[m] == x);
                    } else if present {
                        let m = choose|m: int| 0 <= m < before.len() && before[m] == c;
                        assert(channels@[m] == x);
                    } else {
                        assert(channels@[before.len() as int] == x);
                    }
                }
            }
            if !present {
                assert forall|a: int, b: int| 0 <= a < b < channels@.len() implies channels@[a] != channels@[b] by {
                    if b == before.len() {
                        assert(channels@[a] == before[a]);
                    }
                }
            }
        }
        i = i + 1;
    }
    assert(old.bound_channels@.take(i as int) =~= old.bound_channels@);
    RepostChannelConfig { repost_channel: channels, vote_enabled: old.vote }
}

/// The map of users that inserting each user under their id, in order, gives.
pub open spec fn users_map(users: Seq<Username>) -> Map<u64, Username>
    decreases users.len(),
{
    if users.len() == 0 {
        Map::empty()
    } else {
        users_map(users.drop_last()).insert(users.last().id, users.last())
    }
}

/// The messages designated by texts `channel/message`.
pub open spec fn references_of(texts: Seq<String>) -> Seq<MessageReference> {
    texts.map_values(|t: String| reference_of_text(t@)->0)
}

/// The messages of a list, each kept once, in the order of their first occurrence.
pub open spec fn once_each(refs: Seq<MessageReference>) -> Seq<MessageReference>
    decreases refs.len(),
{
    if refs.len() == 0 {
        Seq::empty()
    } else {
        let p = once_each(refs.drop_last());
        if p.contains(refs.last()) {
            p
        } else {
            p.push(refs.last())
        }
    }
}

/// The link of the post of a vote, from its first reposted message `channel/message`.
pub open spec fn source_url(first: Seq<char>) -> Seq<char> {
    "https://discord.com/channels/293047579288272897/"@ + (slash_pair(first)->0).0 + "/"@ + (slash_pair(first)->0).1
}

/// Whether every text designates a message `channel/message`.
pub open spec fn all_references(texts: Seq<String>) -> bool {
    forall|i: int| 0 <= i < texts.len() ==> (#[trigger] reference_of_text(texts[i]@)) is Some
}

/// Whether `v` is the vote converted from `old` for a thread, but for its vote message: the title,
/// the post's link, the thread, the reposted messages each once, and the users of each side.
pub open spec fn migrated_vote(thread: u64, old: OldRepostVotes, v: VoteConfig) -> bool {
    &&& v.thread_name@ == old.channel_title@
    &&& v.source_message_url@ == source_url(old.bound_messages@[0]@)
    &&& v.source_thread == thread
    &&& v.reposted_message@ == once_each(references_of(old.bound_messages@))
    &&& v.yes@ == users_map(old.vote_yes@)
    &&& v.no@ == users_map(old.vote_no@)
}

fn users_to_map(users: &Vec<Username>) -> (r: HashMap<u64, Username>)
    ensures
        r@ == users_map(users@),
{
    broadcast use vstd::std_specs::hash::group_hash_axioms;
    let mut m: HashMap<u64, Username> = HashMap::new();
    let mut i: usize = 0;
    while i < users.len()
        invariant
            i <= users@.len(),
            m@ == users_map(users@.take(i as int)),
        decreases users@.len() - i,
    {
        let u = users[i].clone();
        m.insert(u.id, u);
        proof {
            assert(users@.take(i + 1).drop_last() =~= users@.take(i as int));
        }
        i = i + 1;
    }
    assert(users@.take(i as int) =~= users@);
    m
}

/// Converts the votes on a post of the earlier layout; its vote message is not known yet.
pub fn migrate_vote(thread: u64, old: &OldRepostVotes) -> (r: VoteConfig)
    requires
        old.bound_messages@.len() > 0,
        all_references(old.bound_messages@),
    ensures
        migrated_vote(thread, *old, r),
        r.vote_message == (MessageReference { id: 0, channel: 0 }),
{
    let mut reposted: Vec<MessageReference> = Vec::new();
    let mut i: usize = 0;
    while i < old.bound_messages.len()
        invariant
            i <= old.bound_messages@.len(),
            all_references(old.bound_messages@),
            reposted@ == once_each(references_of(old.bound_messages@.take(i as int))),
        decreases old.bound_messages@.len() - i,
    {
        let ghost t = old.bound_messages@[i as int]@;
        assert(reference_of_text(t) is Some);
        let m = match read_reference(old.bound_messages[i].as_str()) {
            Some(m) => m,
            None => MessageReference { id: 0, channel: 0 },
        };
        let mut k: usize = 0;
        let mut present = false;
        while k < reposted.len()
            invariant
                k <= reposted@.len(),
                present <==> exists|n: int| 0 <= n < k && reposted@[n] == m,
            decreases reposted@.len() - k,
        {
            if reposted[k] == m {
                present = true;
            }
            k = k + 1;
        }
        proof {
            let a = references_of(old.bound_messages@.take(i as int));
            let b = references_of(old.bound_messages@.take(i + 1));
            assert(b.drop_last() =~= a);
            assert(b.last() == m);
        }
        if !present {
            reposted.push(m);
        }
        i = i + 1;
    }
    assert(old.bound_messages@.take(i as int) =~= old.bound_messages@);
    let (a, b) = match read_slash_pair(old.bound_messages[0].as_str()) {
        Some(p) => p,
        None => (Vec::new(), Vec::new()),
    };
    assert(reference_of_text(old.bound_messages@[0]@) is Some);
    let mut url = String::new();
    url.append("https://discord.com/channels/293047579288272897/");
    let a_text = string_from_chars(a.as_slice());
    url.append(a_text.as_str());
    url.append("/");
    let b_text = string_from_chars(b.as_slice());
    url.append(b_text.as_str());
    proof {
        reveal_strlit("https://discord.com/channels/293047579288272897/");
        reveal_strlit("/");
    }
    VoteConfig {
        thread_name: old.channel_title.clone(),
        source_message_url: url,
        source_thread: thread,
        reposted_message: reposted,
        vote_message: MessageReference { id: 0, channel: 0 },
        yes: users_to_map(&old.vote_yes),
        no: users_to_map(&old.vote_no),
    }
}

/// The vote message that the earlier layout gave to a thread: the last entry for it, if any.
pub open spec fn last_vote_message(entries: Seq<(String, u64)>, thread: u64) -> Option<MessageReference>
    decreases entries.len(),
{
    if entries.len() == 0 {
        None
    } else if entries.last().1 == thread {
        reference_of_text(entries.last().0@)
    } else {
        last_vote_message(entries.drop_last(), thread)
    }
}

/// Whether every vote message of the earlier layout is written `channel/message`.
pub open spec fn all_vote_messages(entries: Seq<(String, u64)>) -> bool {
    forall|i: int| 0 <= i < entries.len() ==> (#[trigger] reference_of_text(entries[i].0@)) is Some
}

/// Whether `c` is the forum link converted from `old`.
pub open spec fn migrated_forum(old: OldRepostChannels, c: RepostChannelConfig) -> bool {
    &&& c.vote_enabled == old.vote
    &&& c.repost_channel@.no_duplicates()
    &&& forall|x: u64| c.repost_channel@.contains(x) <==> old.bound_channels@.contains(x)
}

/// Converts the repost module's state of the earlier layout: the forum links (each forum once), the
/// votes (each thread once, each with at least one reposted message), and the vote messages, given
/// as (`channel/message`, thread); a vote message whose thread has no vote is dropped, and the last
/// one of a thread is kept.
pub fn migrate_repost(
    forums: &Vec<(u64, OldRepostChannels)>,
    votes: &Vec<(u64, OldRepostVotes)>,
    vote_messages: &Vec<(String, u64)>,
) -> (r: RepostConfig)
    requires
        distinct_keys(forums@),
        distinct_keys(votes@),
        forall|i: int| 0 <= i < votes@.len() ==> (#[trigger] votes@[i]).1.bound_messages@.len() > 0 && all_references(
            votes@[i].1.bound_messages@,
        ),
        all_vote_messages(vote_messages@),
    ensures
        forall|f: u64| r.forums@.contains_key(f) <==> exists|i: int| 0 <= i < forums@.len() && (#[trigger] forums@[i]).0 == f,
        forall|i: int| 0 <= i < forums@.len() ==> migrated_forum((#[trigger] forums@[i]).1, r.forums@[forums@[i].0]),
        forall|t: u64| r.votes@.contains_key(t) <==> exists|i: int| 0 <= i < votes@.len() && (#[trigger] votes@[i]).0 == t,
        forall|i: int|
            0 <= i < votes@.len() ==> migrated_vote((#[trigger] votes@[i]).0, votes@[i].1, r.votes@[votes@[i].0]) && r.votes@[votes@[i].0].vote_message
                == (match last_vote_message(vote_messages@, votes@[i].0) {
                Some(m) => m,
                None => MessageReference { id: 0, channel: 0 },
            }),
{
    broadcast use vstd::std_specs::hash::group_hash_axioms;
    let mut fmap: HashMap<u64, RepostChannelConfig> = HashMap::new();
    let mut i: usize = 0;
    while i < forums.len()
        invariant
            i <= forums@.len(),
            distinct_keys(forums@),
            forall|f: u64| fmap@.contains_key(f) <==> exists|k: int| 0 <= k < i && (#[trigger] forums@[k]).0 == f,
            forall|k: int| 0 <= k < i ==> migrated_forum((#[trigger] forums@[k]).1, fmap@[forums@[k].0]),
        decreases forums@.len() - i,
    {
        let c = migrate_forum(&forums[i].1);
        let ghost before = fmap@;
        fmap.insert(forums[i].0, c);
        proof {
            assert forall|f: u64| fmap@.contains_key(f) <==> exists|k: int| 0 <= k < i + 1 && (#[trigger] forums@[k]).0 == f by {
                if f == forums@[i as int].0 {
                    assert(forums@[i as int].0 == f);
                } else if fmap@.contains_key(f) {
                    assert(before.contains_key(f));
                }
            }
            assert forall|k: int| 0 <= k < i + 1 implies migrated_forum((#[trigger] forums@[k]).1, fmap@[forums@[k].0]) by {
                if k < i {
                    assert(forums@[k].0 != forums@[i as int].0);
                }
            }
        }
        i = i + 1;
    }
    let mut vmap: HashMap<u64, VoteConfig> = HashMap::new();
    let mut j: usize = 0;
    while j < votes.len()
        invariant
            j <= votes@.len(),
            distinct_keys(votes@),
            forall|i: int| 0 <= i < votes@.len() ==> (#[trigger] votes@[i]).1.bound_messages@.len() > 0 && all_references(
                votes@[i].1.bound_messages@,
            ),
            forall|t: u64| vmap@.contains_key(t) <==> exists|k: int| 0 <= k < j && (#[trigger] votes@[k]).0 == t,
            forall|k: int|
                0 <= k < j ==> migrated_vote((#[trigger] votes@[k]).0, votes@[k].1, vmap@[votes@[k].0])
                    && vmap@[votes@[k].0].vote_message == (MessageReference { id: 0, channel: 0 }),
        decreases votes@.len() - j,
    {
        assert(votes@[j as int].1.bound_messages@.len() > 0);
        let v = migrate_vote(votes[j].0, &votes[j].1);
        let ghost before = vmap@;
        vmap.insert(votes[j].0, v);
        proof {
            assert forall|t: u64| vmap@.contains_key(t) <==> exists|k: int| 0 <= k < j + 1 && (#[trigger] votes@[k]).0 == t by {
                if t == votes@[j as int].0 {
                    assert(votes@[j as int].0 == t);
                } else if vmap@.contains_key(t) {
                    assert(before.contains_key(t));
                }
            }
            assert forall|k: int| 0 <= k < j + 1 implies migrated_vote((#[trigger] votes@[k]).0, votes@[k].1, vmap@[votes@[k].0])
                && vmap@[votes@[k].0].vote_message == (MessageReference { id: 0, channel: 0 }) by {
                if k < j {
                    assert(votes@[k].0 != votes@[j as int].0);
                }
            }
        }
        j = j + 1;
    }
    let ghost voted = vmap@;
    let mut m: usize = 0;
    while m < vote_messages.len()
        invariant
            m <= vote_messages@.len(),
            all_vote_messages(vote_messages@),
            vmap@.dom() == voted.dom(),
            forall|t: u64| voted.contains_key(t) <==> exists|k: int| 0 <= k < votes@.len() && (#[trigger] votes@[k]).0 == t,
            forall|k: int|
                0 <= k < votes@.len() ==> migrated_vote((#[trigger] votes@[k]).0, votes@[k].1, voted[votes@[k].0])
                    && voted[votes@[k].0].vote_message == (MessageReference { id: 0, channel: 0 }),
            forall|t: u64| #[trigger] vmap@.contains_key(t) ==> ({
                let (a, b) = (voted[t], vmap@[t]);
                &&& b.thread_name == a.thread_name && b.source_message_url == a.source_message_url
                &&& b.source_thread == a.source_thread && b.reposted_message == a.reposted_message
                &&& b.yes == a.yes && b.no == a.no
                &&& b.vote_message == match last_vote_message(vote_messages@.take(m as int), t) {
                    Some(r) => r,
                    None => a.vote_message,
                }
            }),
        decreases vote_messages@.len() - m,
    {
        let thread = vote_messages[m].1;
        assert(reference_of_text(vote_messages@[m as int].0@) is Some);
        let r = match read_reference(vote_messages[m].0.as_str()) {
            Some(r) => r,
            None => MessageReference { id: 0, channel: 0 },
        };
        let ghost before = vmap@;
        match vmap.remove(&thread) {
            Some(mut v) => {
                v.vote_message = r;
                vmap.insert(thread, v);
            },
            None => {},
        }
        proof {
            assert(vote_messages@.take(m + 1).drop_last() =~= vote_messages@.take(m as int));
            assert(vmap@.dom() =~= voted.dom());
            assert forall|t: u64| #[trigger] vmap@.contains_key(t) implies ({
                let (a, b) = (voted[t], vmap@[t]);
                &&& b.thread_name == a.thread_name && b.source_message_url == a.source_message_url
                &&& b.source_thread == a.source_thread && b.reposted_message == a.reposted_message
                &&& b.yes == a.yes && b.no == a.no
                &&& b.vote_message == match last_vote_message(vote_messages@.take(m + 1), t) {
                    Some(r) => r,
                    None => a.vote_message,
                }
            }) by {
                assert(before.contains_key(t));
            }
        }
        m = m + 1;
    }
    assert(vote_messages@.take(m as int) =~= vote_messages@);
    assert forall|k: int| 0 <= k < votes@.len() implies migrated_vote((#[trigger] votes@[k]).0, votes@[k].1, vmap@[votes@[k].0])
        && vmap@[votes@[k].0].vote_message == (match last_vote_message(vote_messages@, votes@[k].0) {
        Some(m) => m,
        None => MessageReference { id: 0, channel: 0 },
    }) by {
        assert(voted.contains_key(votes@[k].0));
        assert(vmap@.contains_key(votes@[k].0));
    }
    RepostConfig { forums: fmap, votes: vmap }
}

} // verus!
