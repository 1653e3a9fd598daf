//! Sanctions: what the moderators' commands ask for, what the bot tells everyone, and the warn book.
use vstd::prelude::*;
use crate::custom_id::chars_equal;
use crate::discord::{role_mention, role_mention_spec};
use crate::options::{find_option, option_index, CommandOption, OptionValue};
use crate::text::{chars_of, decimal, u64_to_string};
use crate::time::{day_month_year_text, format_day_month_year};
use crate::username::{full_spec, safe_full_spec, Username};
use std::collections::HashMap;
use vstd::std_specs::hash::spec_hash_map_iter;
use vstd::std_specs::iter::IteratorSpec;

verus! {

/// Name of the warn module.
pub fn module_name() -> (r: &'static str)
    ensures
        r@ == "warn"@,
{
    "warn"
}

/// Description of the warn module.
pub fn module_description() -> (r: &'static str)
    ensures
        r@ == "Sanctions & historique des remarques"@,
{
    "Sanctions & historique des remarques"
}

/// The sanctions a moderator can give.
#[derive(PartialEq, Eq, Structural, Clone, Copy, Debug)]
pub enum ActionType {
    Warn,
    BanVocal,
    ExcludeOneHour,
    ExcludeOneDay,
    ExcludeOneWeek,
    Kick,
    Ban,
}

/// How a sanction is named in messages.
pub open spec fn action_label_spec(a: ActionType) -> Seq<char> {
    match a {
        ActionType::Warn => "warn"@,
        ActionType::BanVocal => "exclusion du vocal"@,
        ActionType::ExcludeOneHour => "exclusion du serveur (1h)"@,
        ActionType::ExcludeOneDay => "exclusion du serveur (1 jour)"@,
        ActionType::ExcludeOneWeek => "exclusion du serveur (une semaine)"@,
        ActionType::Kick => "kick"@,
        ActionType::Ban => "ban"@,
    }
}

impl ActionType {
    /// The name of the sanction, as it displays.
    pub fn label(&self) -> (r: &'static str)
        ensures
            r@ == action_label_spec(*self),
    {
        match self {
            ActionType::Warn => "warn",
            ActionType::BanVocal => "exclusion du vocal",
            ActionType::ExcludeOneHour => "exclusion du serveur (1h)",
            ActionType::ExcludeOneDay => "exclusion du serveur (1 jour)",
            ActionType::ExcludeOneWeek => "exclusion du serveur (une semaine)",
            ActionType::Kick => "kick",
            ActionType::Ban => "ban",
        }
    }
}

/// The sanction a value of the `action` option names (`ban` asks for a voice ban, as the bot reads it).
pub open spec fn sanction_option_action(value: Seq<char>) -> Option<ActionType> {
    if value == "warn"@ {
        Some(ActionType::Warn)
    } else if value == "banvoc"@ {
        Some(ActionType::BanVocal)
    } else if value == "exclusion 1h"@ {
        Some(ActionType::ExcludeOneHour)
    } else if value == "exclusion 1 jour"@ {
        Some(ActionType::ExcludeOneDay)
    } else if value == "exclusion une semaine"@ {
        Some(ActionType::ExcludeOneWeek)
    } else if value == "kick"@ {
        Some(ActionType::Kick)
    } else if value == "ban"@ {
        Some(ActionType::BanVocal)
    } else {
        None
    }
}

/// The sanction a user context-menu command names (`ban` asks for a voice ban, as the bot reads it).
pub open spec fn context_command_action(name: Seq<char>) -> Option<ActionType> {
    if name == "warn"@ {
        Some(ActionType::Warn)
    } else if name == "ban du vocal"@ {
        Some(ActionType::BanVocal)
    } else if name == "exclusion 1h"@ {
        Some(ActionType::ExcludeOneHour)
    } else if name == "exclusion 1 jour"@ {
        Some(ActionType::ExcludeOneDay)
    } else if name == "exclusion une semaine"@ {
        Some(ActionType::ExcludeOneWeek)
    } else if name == "kick"@ {
        Some(ActionType::Kick)
    } else if name == "ban"@ {
        Some(ActionType::BanVocal)
    } else {
        None
    }
}

fn text_is(a: &Vec<char>, lit: &str) -> (r: bool)
    ensures
        r == (a@ == lit@),
{
    let b = chars_of(lit);
    chars_equal(a, &b)
}

/// Reads the `action` option of the sanction command.
pub fn parse_sanction_option(value: &str) -> (r: Option<ActionType>)
    ensures
        r == sanction_option_action(value@),
{
    let v = chars_of(value);
    if text_is(&v, "warn") {
        Some(ActionType::Warn)
    } else if text_is(&v, "banvoc") {
        Some(ActionType::BanVocal)
    } else if text_is(&v, "exclusion 1h") {
        Some(ActionType::ExcludeOneHour)
    } else if text_is(&v, "exclusion 1 jour") {
        Some(ActionType::ExcludeOneDay)
    } else if text_is(&v, "exclusion une semaine") {
        Some(ActionType::ExcludeOneWeek)
    } else if text_is(&v, "kick") {
        Some(ActionType::Kick)
    } else if text_is(&v, "ban") {
        Some(ActionType::BanVocal)
    } else {
        None
    }
}

/// Reads the name of a user context-menu command.
pub fn parse_context_command(name: &str) -> (r: Option<ActionType>)
    ensures
        r == context_command_action(name@),
{
    let v = chars_of(name);
    if text_is(&v, "warn") {
        Some(ActionType::Warn)
    } else if text_is(&v, "ban du vocal") {
        Some(ActionType::BanVocal)
    } else if text_is(&v, "exclusion 1h") {
        Some(ActionType::ExcludeOneHour)
    } else if text_is(&v, "exclusion 1 jour") {
        Some(ActionType::ExcludeOneDay)
    } else if text_is(&v, "exclusion une semaine") {
        Some(ActionType::ExcludeOneWeek)
    } else if text_is(&v, "kick") {
        Some(ActionType::Kick)
    } else if text_is(&v, "ban") {
        Some(ActionType::BanVocal)
    } else {
        None
    }
}

/// The sanction and target a command asks for: the `sanction` command names them in its `action`
/// and `cible` options; a context-menu command names the sanction and targets the user it was used on.
pub open spec fn sanction_request_spec(name: Seq<char>, options: Seq<CommandOption>, target: Option<u64>) -> Option<(ActionType, u64)> {
    if name == "sanction"@ {
        match option_index(options, "action"@) {
            None => None,
            Some(ai) => match options[ai].value {
                OptionValue::Text(action) => match option_index(options, "cible"@) {
                    None => None,
                    Some(ci) => match options[ci].value {
                        OptionValue::User(user) => match sanction_option_action(action@) {
                            Some(a) => Some((a, user.id)),
                            None => None,
                        },
                        _ => None,
                    },
                },
                _ => None,
            },
        }
    } else {
        match target {
            Some(t) => match context_command_action(name) {
                Some(a) => Some((a, t)),
                None => None,
            },
            None => None,
        }
    }
}

/// Reads what a sanction command asks for; none when the command is malformed.
pub fn sanction_request(name: &str, options: &Vec<CommandOption>, target: Option<u64>) -> (r: Option<(ActionType, u64)>)
    ensures
        r == sanction_request_spec(name@, options@, target),
{
    proof {
        reveal_strlit("action");
        reveal_strlit("cible");
    }
    let n = chars_of(name);
    if text_is(&n, "sanction") {
        match find_option(options, "action") {
            None => None,
            Some(OptionValue::Text(action)) => match find_option(options, "cible") {
                None => None,
                Some(OptionValue::User(user)) => match parse_sanction_option(action.as_str()) {
                    Some(a) => Some((a, user.id)),
                    None => None,
                },
                Some(_) => None,
            },
            Some(_) => None,
        }
    } else {
        match target {
            Some(t) => match parse_context_command(name) {
                Some(a) => Some((a, t)),
                None => None,
            },
            None => None,
        }
    }
}

/// The custom id of the modal opened for the `id`-th pending sanction: `WarnModalId{id}`.
pub open spec fn warn_modal_key_spec(id: nat) -> Seq<char> {
    "WarnModalId"@ + decimal(id)
}

/// A sanction waiting for the moderator to fill its modal.
pub struct PendingWarn {
    pub target: Username,
    pub action: ActionType,
}

/// The sanctions waiting for their modal, each under the modal's custom id.
pub struct PendingWarns {
    pub entries: Vec<(String, PendingWarn)>,
}

/// The modal ids in use.
pub open spec fn pending_keys(entries: Seq<(String, PendingWarn)>) -> Seq<Seq<char>> {
    entries.map_values(|e: (String, PendingWarn)| e.0@)
}

proof fn lemma_decimal_injective(a: nat, b: nat)
    requires
        decimal(a) == decimal(b),
    ensures
        a == b,
{
    crate::text::lemma_decimal_digits(a);
    crate::text::lemma_decimal_digits(b);
}

proof fn lemma_modal_keys_pigeonhole(keys: Seq<Seq<char>>, n: nat)
    requires
        forall|k: nat| k < n ==> keys.contains(#[trigger] warn_modal_key_spec(k)),
    ensures
        n <= keys.len(),
{
    broadcast use vstd::set::group_set_axioms;
    let f = |k: int| warn_modal_key_spec(k as nat);
    let x = vstd::set_lib::set_int_range(0, n as int);
    vstd::set_lib::lemma_int_range(0, n as int);
    let y = x.map(f);
    assert forall|a: int, b: int| x.contains(a) && x.contains(b) && #[trigger] f(a) == #[trigger] f(b) implies a == b by {
        let pre = "WarnModalId"@;
        assert(f(a).subrange(pre.len() as int, f(a).len() as int) =~= decimal(a as nat));
        assert(f(b).subrange(pre.len() as int, f(b).len() as int) =~= decimal(b as nat));
        lemma_decimal_injective(a as nat, b as nat);
    }
    vstd::set_lib::lemma_map_size(x, y, f);
    assert forall|s: Seq<char>| y.contains(s) implies keys.to_set().contains(s) by {
        let k = choose|k: int| x.contains(k) && f(k) == s;
        assert(keys.contains(warn_modal_key_spec(k as nat)));
    }
    keys.lemma_cardinality_of_set();
    vstd::set_lib::lemma_len_subset(y, keys.to_set());
}

impl PendingWarns {
    /// No sanction is waiting.
    pub fn new() -> (r: PendingWarns)
        ensures
            r.entries@.len() == 0,
    {
        PendingWarns { entries: Vec::new() }
    }

    fn key_index(&self, key: &Vec<char>) -> (r: Option<usize>)
        ensures
            r matches Some(i) ==> i < self.entries@.len() && self.entries@[i as int].0@ == key@,
            r is None ==> !pending_keys(self.entries@).contains(key@),
    {
        let mut i: usize = 0;
        while i < self.entries.len()
            invariant
                i <= self.entries@.len(),
                forall|j: int| 0 <= j < i ==> self.entries@[j].0@ != key@,
            decreases self.entries@.len() - i,
        {
            let candidate = chars_of(self.entries[i].0.as_str());
            if chars_equal(&candidate, key) {
                return Some(i);
            }
            i = i + 1;
        }
        proof {
            if pending_keys(self.entries@).contains(key@) {
                let j = choose|j: int| 0 <= j < pending_keys(self.entries@).len() && pending_keys(self.entries@)[j] == key@;
                assert(self.entries@[j].0@ == key@);
            }
        }
        None
    }

    /// Waits for the modal of a new sanction, under the first id `WarnModalId{n}` not in use; gives
    /// that id back.
    pub fn open(&mut self, target: Username, action: ActionType) -> (key: String)
        ensures
            exists|n: nat| {
                &&& key@ == warn_modal_key_spec(n)
                &&& !pending_keys(old(self).entries@).contains(warn_modal_key_spec(n))
                &&& forall|m: nat| m < n ==> pending_keys(old(self).entries@).contains(#[trigger] warn_modal_key_spec(m))
            },
            final(self).entries@.len() == old(self).entries@.len() + 1,
            final(self).entries@.drop_last() == old(self).entries@,
            final(self).entries@.last().0 == key,
            final(self).entries@.last().1.target == target,
            final(self).entries@.last().1.action == action,
    {
        let mut id: u64 = 0;
        let n_entries: usize = self.entries.len();
        loop
            invariant
                n_entries == self.entries@.len(),
                id <= self.entries@.len(),
                self.entries@ == old(self).entries@,
                forall|m: nat| m < id ==> pending_keys(self.entries@).contains(#[trigger] warn_modal_key_spec(m)),
            decreases self.entries@.len() - id,
        {
            let mut key = String::new();
            key.append("WarnModalId");
            key.append(u64_to_string(id).as_str());
            assert(key@ =~= warn_modal_key_spec(id as nat));
            let key_chars = chars_of(key.as_str());
            match self.key_index(&key_chars) {
                None => {
                    self.entries.push((key.clone(), PendingWarn { target, action }));
                    assert(self.entries@.drop_last() =~= old(self).entries@);
                    return key;
                },
                Some(_) => {
                    proof {
                        assert(pending_keys(self.entries@).contains(warn_modal_key_spec(id as nat))) by {
                            let i = choose|i: int| 0 <= i < self.entries@.len() && self.entries@[i].0@ == key@;
                            assert(pending_keys(self.entries@)[i] == key@);
                        }
                        assert forall|m: nat| m < id + 1 implies pending_keys(self.entries@).contains(#[trigger] warn_modal_key_spec(m)) by {
                        }
                        lemma_modal_keys_pigeonhole(pending_keys(self.entries@), (id + 1) as nat);
                        assert(pending_keys(self.entries@).len() == self.entries@.len());
                        assert(n_entries <= usize::MAX);
                    }
                    id = id + 1;
                },
            }
        }
    }

    /// The sanction waiting for the modal with the given custom id.
    pub fn get(&self, custom_id: &str) -> (r: Option<&PendingWarn>)
        ensures
            r matches Some(p) ==> exists|i: int| 0 <= i < self.entries@.len() && self.entries@[i].0@ == custom_id@ && self.entries@[i].1 == *p,
            r is None ==> !pending_keys(self.entries@).contains(custom_id@),
    {
        let key = chars_of(custom_id);
        match self.key_index(&key) {
            Some(i) => Some(&self.entries[i].1),
            None => None,
        }
    }

    /// Stops waiting for the modal with the given custom id.
    pub fn remove(&mut self, custom_id: &str)
        ensures
            !pending_keys(old(self).entries@).contains(custom_id@) ==> final(self).entries@ == old(self).entries@,
            pending_keys(old(self).entries@).contains(custom_id@) ==> exists|i: int|
                0 <= i < old(self).entries@.len() && old(self).entries@[i].0@ == custom_id@
                    && final(self).entries@ == old(self).entries@.remove(i),
    {
        let key = chars_of(custom_id);
        match self.key_index(&key) {
            Some(i) => {
                assert(pending_keys(self.entries@)[i as int] == custom_id@);
                self.entries.remove(i);
            },
            None => {},
        }
    }
}

/// The title of the sanction modal: `{sanction} de {user name}`.
pub fn warn_modal_title(action: ActionType, user_name: &str) -> (r: String)
    ensures
        r@ == action_label_spec(action) + " de "@ + user_name@,
{
    let mut r = String::new();
    r.append(action.label());
    r.append(" de ");
    r.append(user_name);
    assert(r@ =~= action_label_spec(action) + " de "@ + user_name@);
    r
}

/// What a moderator wrote in the sanction modal.
pub struct WarnModalInput {
    pub reason: String,
    pub details: Option<String>,
    pub url: Option<String>,
}

/// What the modal's fields give, read in order: `reason` sets the reason (empty when left out);
/// `other` and `url` set the details and the link when filled in; other fields are ignored.
pub open spec fn modal_input_spec(fields: Seq<(String, Option<String>)>) -> (Seq<char>, Option<Seq<char>>, Option<Seq<char>>)
    decreases fields.len(),
{
    if fields.len() == 0 {
        (Seq::empty(), None, None)
    } else {
        let (reason, details, url) = modal_input_spec(fields.drop_last());
        let (id, value) = fields.last();
        if id@ == "reason"@ {
            (match value {
                Some(v) => v@,
                None => Seq::empty(),
            }, details, url)
        } else if id@ == "other"@ {
            (reason, match value {
                Some(v) => if v@.len() > 0 { Some(v@) } else { details },
                None => details,
            }, url)
        } else if id@ == "url"@ {
            (reason, details, match value {
                Some(v) => if v@.len() > 0 { Some(v@) } else { url },
                None => url,
            })
        } else {
            (reason, details, url)
        }
    }
}

/// Reads the sanction modal's text fields, each given as its custom id and value.
pub fn read_warn_modal(fields: &Vec<(String, Option<String>)>) -> (r: WarnModalInput)
    ensures
        ({
            let (reason, details, url) = modal_input_spec(fields@);
            &&& r.reason@ == reason
            &&& (match r.details {
                Some(d) => details == Some(d@),
                None => details is None,
            })
            &&& (match r.url {
                Some(u) => url == Some(u@),
                None => url is None,
            })
        }),
{
    let mut reason = String::new();
    let mut details: Option<String> = None;
    let mut url: Option<String> = None;
    let mut i: usize = 0;
    while i < fields.len()
        invariant
            i <= fields@.len(),
            ({
                let (sr, sd, su) = modal_input_spec(fields@.take(i as int));
                &&& reason@ == sr
                &&& (match details {
                    Some(d) => sd == Some(d@),
                    None => sd is None,
                })
                &&& (match url {
                    Some(u) => su == Some(u@),
                    None => su is None,
                })
            }),
        decreases fields@.len() - i,
    {
        assert(fields@.take(i + 1).drop_last() =~= fields@.take(i as int));
        assert(fields@.take(i + 1).last() == fields@[i as int]);
        let id = chars_of(fields[i].0.as_str());
        if text_is(&id, "reason") {
            reason = match &fields[i].1 {
                Some(v) => v.clone(),
                None => String::new(),
            };
        } else if text_is(&id, "other") {
            match &fields[i].1 {
                Some(v) => {
                    if v.as_str().unicode_len() > 0 {
                        details = Some(v.clone());
                    }
                },
                None => {},
            }
        } else if text_is(&id, "url") {
            match &fields[i].1 {
                Some(v) => {
                    if v.as_str().unicode_len() > 0 {
                        url = Some(v.clone());
                    }
                },
                None => {},
            }
        }
        i = i + 1;
    }
    assert(fields@.take(i as int) =~= fields@);
    WarnModalInput { reason, details, url }
}

/// One sanction in a user's history.
#[derive(Clone)]
pub struct UserWarn {
    pub date: u64,
    pub from: Username,
    pub to: Username,
    pub link: Option<String>,
    pub reason: String,
    pub details: Option<String>,
    pub action: String,
    pub full_message_link: String,
}

/// The sanctions of each user, keyed by user.
pub struct WarnBook {
    pub users: HashMap<u64, Vec<UserWarn>>,
}

/// The sanctions of a user, as a sequence (empty for a user with none).
pub open spec fn warns_of(users: Map<u64, Vec<UserWarn>>, user: u64) -> Seq<UserWarn> {
    if users.contains_key(user) {
        users[user]@
    } else {
        Seq::empty()
    }
}

impl WarnBook {
    /// A book with no sanction.
    pub fn new() -> (r: WarnBook)
        ensures
            r.users@ == Map::<u64, Vec<UserWarn>>::empty(),
    {
        WarnBook { users: HashMap::new() }
    }

    /// The number of sanctions of a user.
    pub fn count(&self, user: u64) -> (r: usize)
        ensures
            r == warns_of(self.users@, user).len(),
    {
        broadcast use vstd::std_specs::hash::group_hash_axioms;
        match self.users.get(&user) {
            Some(list) => list.len(),
            None => 0,
        }
    }

    /// Adds a sanction to its target's history.
    pub fn store(&mut self, warn: UserWarn)
        ensures
            final(self).users@.dom() == old(self).users@.dom().insert(warn.to.id),
            warns_of(final(self).users@, warn.to.id) == warns_of(old(self).users@, warn.to.id).push(warn),
            forall|u: u64| u != warn.to.id ==> #[trigger] final(self).users@.contains_key(u) ==> final(self).users@[u] == old(
                self,
            ).users@[u],
    {
        broadcast use vstd::std_specs::hash::group_hash_axioms;
        let user = warn.to.id;
        let mut list = match self.users.remove(&user) {
            Some(l) => l,
            None => Vec::new(),
        };
        list.push(warn);
        self.users.insert(user, list);
        assert(self.users@.dom() =~= old(self).users@.dom().insert(user));
    }
}

impl WarnBook {
    /// The sanctions of a user, if the book has any entry for them.
    pub fn warns(&self, user: u64) -> (r: Option<&Vec<UserWarn>>)
        ensures
            r is Some <==> self.users@.contains_key(user),
            r matches Some(v) ==> *v == self.users@[user],
    {
        broadcast use vstd::std_specs::hash::group_hash_axioms;
        self.users.get(&user)
    }

    /// The sanctions of a user one of whose sanctions was announced at the given message link (the
    /// first such user met in the map), if there is one.
    pub fn warns_with_link(&self, link: &str) -> (r: Option<&Vec<UserWarn>>)
        ensures
            r matches Some(v) ==> exists|u: u64| #[trigger] self.users@.contains_key(u) && self.users@[u] == *v && has_link(v@, link@),
            r is None ==> forall|u: u64| #[trigger] self.users@.contains_key(u) ==> !has_link(self.users@[u]@, link@),
    {
        broadcast use vstd::std_specs::hash::group_hash_axioms;
        broadcast use vstd::std_specs::hash::axiom_spec_hash_map_iter;
        let wanted = chars_of(link);
        let ghost pairs = spec_hash_map_iter(&self.users).remaining();
        for entry in it: self.users.iter()
            invariant
                pairs == it.seq(),
                wanted@ == link@,
                forall|i: int|
                    0 <= i < pairs.len() ==> self.users@.contains_key(*pairs[i].0) && self.users@[*pairs[i].0] == *pairs[i].1,
                forall|k: u64| #[trigger] self.users@.contains_key(k) ==> pairs.contains((&k, &self.users@[k])),
                forall|j: int| 0 <= j < it.index() ==> !has_link((*pairs[j].1)@, link@),
        {
            let ghost idx = it.index();
            assert(entry == pairs[idx]);
            let (u, list) = entry;
            assert(self.users@.contains_key(*u) && self.users@[*u] == *list);
            let mut k: usize = 0;
            while k < list.len()
                invariant
                    k <= list@.len(),
                    wanted@ == link@,
                    self.users@.contains_key(*u) && self.users@[*u] == *list,
                    forall|m: int| 0 <= m < k ==> (#[trigger] list@[m]).full_message_link@ != link@,
                decreases list@.len() - k,
            {
                let candidate = chars_of(list[k].full_message_link.as_str());
                if chars_equal(&candidate, &wanted) {
                    proof {
                        assert(has_link(list@, link@));
                        assert(self.users@.contains_key(*u) && self.users@[*u] == *list);
                    }
                    return Some(list);
                }
                k = k + 1;
            }
        }
        proof {
            assert forall|u: u64| #[trigger] self.users@.contains_key(u) implies !has_link(self.users@[u]@, link@) by {
                let i = choose|i: int| 0 <= i < pairs.len() && pairs[i] == (&u, &self.users@[u]);
            }
        }
        None
    }
}

/// Whether one of the sanctions was announced at the given link.
pub open spec fn has_link(warns: Seq<UserWarn>, link: Seq<char>) -> bool {
    exists|m: int| 0 <= m < warns.len() && (#[trigger] warns[m]).full_message_link@ == link
}

/// The link of the latest sanction (strictly latest date, the first one on ties; sanctions dated 0
/// never count), or empty.
pub open spec fn latest_warn_link(warns: Seq<UserWarn>) -> (u64, Seq<char>)
    decreases warns.len(),
{
    if warns.len() == 0 {
        (0, Seq::empty())
    } else {
        let (d, l) = latest_warn_link(warns.drop_last());
        if warns.last().date > d {
            (warns.last().date, warns.last().full_message_link@)
        } else {
            (d, l)
        }
    }
}

impl WarnBook {
    /// The alert for the staff when a user joins: only for a user with at least one sanction (see
    /// `returning_user_alert`).
    pub fn join_alert(&self, user: u64, user_full: &str) -> (r: Option<String>)
        ensures
            r is Some <==> warns_of(self.users@, user).len() > 0,
            r matches Some(t) ==> t@ == user_full@ + " vient de rejoindre le serveur avec "@ + decimal(warns_of(self.users@, user).len())
                + " warn(s) à son actif ! "@ + latest_warn_link(warns_of(self.users@, user)).1,
    {
        match self.warns(user) {
            Some(warns) => {
                if warns.len() > 0 {
                    Some(returning_user_alert(user_full, warns))
                } else {
                    None
                }
            },
            None => None,
        }
    }
}

/// The alert sent to the staff when a sanctioned user joins: `{user} vient de rejoindre le serveur
/// avec {n} warn(s) à son actif ! {link of the latest sanction}`.
pub fn returning_user_alert(user_full: &str, warns: &Vec<UserWarn>) -> (r: String)
    ensures
        r@ == user_full@ + " vient de rejoindre le serveur avec "@ + decimal(warns@.len()) + " warn(s) à son actif ! "@
            + latest_warn_link(warns@).1,
{
    let mut last = String::new();
    let mut last_date: u64 = 0;
    let mut i: usize = 0;
    while i < warns.len()
        invariant
            i <= warns@.len(),
            (last_date, last@) == latest_warn_link(warns@.take(i as int)),
        decreases warns@.len() - i,
    {
        assert(warns@.take(i + 1).drop_last() =~= warns@.take(i as int));
        if warns[i].date > last_date {
            last_date = warns[i].date;
            last = warns[i].full_message_link.clone();
        }
        i = i + 1;
    }
    assert(warns@.take(i as int) =~= warns@);
    let mut r = user_full.to_owned();
    r.append(" vient de rejoindre le serveur avec ");
    r.append(u64_to_string(warns.len() as u64).as_str());
    r.append(" warn(s) à son actif ! ");
    r.append(last.as_str());
    assert(r@ =~= user_full@ + " vient de rejoindre le serveur avec "@ + decimal(warns@.len()) + " warn(s) à son actif ! "@
            + latest_warn_link(warns@).1);
    r
}

/// The content of the moderators' message: `Sanction de {to} par {from} <@&admin>`.
pub fn moderation_content(to: &Username, from: &Username, admin_role: u64) -> (r: String)
    ensures
        r@ == "Sanction de "@ + full_spec(to.id, to.handle@, to.server_name@) + " par "@ + full_spec(
            from.id,
            from.handle@,
            from.server_name@,
        ) + " "@ + role_mention_spec(admin_role),
{
    let mut r = String::new();
    r.append("Sanction de ");
    r.append(to.full().as_str());
    r.append(" par ");
    r.append(from.full().as_str());
    r.append(" ");
    r.append(role_mention(admin_role).as_str());
    assert(r@ =~= "Sanction de "@ + full_spec(to.id, to.handle@, to.server_name@) + " par "@ + full_spec(
            from.id,
            from.handle@,
            from.server_name@,
        ) + " "@ + role_mention_spec(admin_role));
    r
}

/// A field of an embed: name, value, and whether it stands inline.
pub struct EmbedField {
    pub name: String,
    pub value: String,
    pub inline: bool,
}

/// The fields of the moderators' message: the details, the link, and how many sanctions the user had.
pub fn moderation_fields(details: &Option<String>, link: &Option<String>, previous: usize) -> (r: Vec<EmbedField>)
    ensures
        r@.len() == (if details is Some { 1int } else { 0int }) + (if link is Some { 1int } else { 0int }) + (if previous > 0 { 1int } else { 0int }),
        details matches Some(d) ==> r@[0].name@ == "Details"@ && r@[0].value@ == d@ && !r@[0].inline,
        link matches Some(l) ==> ({
            let k = if details is Some { 1int } else { 0int };
            r@[k].name@ == "Url"@ && r@[k].value@ == l@ && r@[k].inline
        }),
        previous > 0 ==> ({
            let k = r@.len() - 1;
            r@[k].name@ == "Encore lui !"@ && r@[k].value@ == "Déjà "@ + decimal(previous as nat) + " warn(s)"@ && r@[k].inline
        }),
{
    let mut r: Vec<EmbedField> = Vec::new();
    match details {
        Some(d) => r.push(EmbedField { name: "Details".to_owned(), value: d.clone(), inline: false }),
        None => {},
    }
    match link {
        Some(l) => r.push(EmbedField { name: "Url".to_owned(), value: l.clone(), inline: true }),
        None => {},
    }
    if previous > 0 {
        let mut v = String::new();
        v.append("Déjà ");
        v.append(u64_to_string(previous as u64).as_str());
        v.append(" warn(s)");
        assert(v@ =~= "Déjà "@ + decimal(previous as nat) + " warn(s)"@);
        r.push(EmbedField { name: "Encore lui !".to_owned(), value: v, inline: true });
    }
    r
}

/// The public announcement of a sanction: its title and, for exclusions, the duration field; a
/// simple warn is not announced.
pub open spec fn public_announcement_spec(action: ActionType, to: Seq<char>, from: Seq<char>) -> Option<(Seq<char>, Option<Seq<char>>)> {
    match action {
        ActionType::Warn => None,
        ActionType::Ban => Some((to + " a été banni par "@ + from, None)),
        ActionType::Kick => Some((to + " a été kick par "@ + from, None)),
        ActionType::BanVocal => Some((to + " a été exclu du vocal par "@ + from, None)),
        ActionType::ExcludeOneHour => Some((to + " a été exclu par "@ + from, Some("une heure"@))),
        ActionType::ExcludeOneDay => Some((to + " a été exclu par "@ + from, Some("une journée"@))),
        ActionType::ExcludeOneWeek => Some((to + " a été exclu par "@ + from, Some("une semaine"@))),
    }
}

/// The public announcement of a sanction, from the names (`safe_full`) of the sanctioned user and of
/// the moderator.
pub fn public_announcement(action: ActionType, to: &str, from: &str) -> (r: Option<(String, Option<&'static str>)>)
    ensures
        match public_announcement_spec(action, to@, from@) {
            None => r is None,
            Some((title, duration)) => r matches Some(p) && p.0@ == title && (match duration {
                Some(d) => p.1 matches Some(x) && x@ == d,
                None => p.1 is None,
            }),
        },
{
    let verb: &str = match action {
        ActionType::Warn => return None,
        ActionType::Ban => " a été banni par ",
        ActionType::Kick => " a été kick par ",
        ActionType::BanVocal => " a été exclu du vocal par ",
        _ => " a été exclu par ",
    };
    let mut title = to.to_owned();
    title.append(verb);
    title.append(from);
    let duration: Option<&'static str> = match action {
        ActionType::ExcludeOneHour => Some("une heure"),
        ActionType::ExcludeOneDay => Some("une journée"),
        ActionType::ExcludeOneWeek => Some("une semaine"),
        _ => None,
    };
    assert(title@ =~= to@ + verb@ + from@);
    Some((title, duration))
}

/// The private message sent to a sanctioned user, naming the server and quoting the reason.
pub open spec fn private_message_spec(action: ActionType, server: Seq<char>, reason: Seq<char>) -> Seq<char> {
    let reminder = ".\nJe tiens à te rappeler que certains comportements ne sont pas tolérés sur notre communauté, à savoir :\n\n> `"@;
    let closing = "`\n\nMerci de prendre cet avertissement en considération. :point_up:"@;
    match action {
        ActionType::Ban => "## Hello :wave:\nTu as été banni de **"@ + server + "** pour raison :\n\n> `"@ + reason
            + "`\n\nBonne continuation à toi ! :wave:"@,
        ActionType::Kick => "## Hello :wave:\nTu as été exclu de **"@ + server + "** pour raison :\n\n> `"@ + reason
            + "`\n\nNous tolérerons ton retour à la seule condition que tu sois en mesure de respecter notre communauté. :point_up:\nBien à toi."@,
        ActionType::Warn => "## Hello :wave:\nJe suis le robot de **"@ + server + "**"@ + reminder + reason + closing,
        ActionType::BanVocal => "## Hello :wave:\nTu as été banni des salons vocaux de **"@ + server + "**"@ + reminder + reason + closing,
        ActionType::ExcludeOneHour => "## Hello :wave:\nTu as été exclu de **"@ + server + "** pour une heure"@ + reminder + reason + closing,
        ActionType::ExcludeOneDay => "## Hello :wave:\nTu as été exclu de **"@ + server + "** pour un jour"@ + reminder + reason + closing,
        ActionType::ExcludeOneWeek => "## Hello :wave:\nTu as été exclu de **"@ + server + "** pour une semaine"@ + reminder + reason + closing,
    }
}

/// The private message sent to a sanctioned user.
pub fn private_message(action: ActionType, server: &str, reason: &str) -> (r: String)
    ensures
        r@ == private_message_spec(action, server@, reason@),
{
    let reminder = ".\nJe tiens à te rappeler que certains comportements ne sont pas tolérés sur notre communauté, à savoir :\n\n> `";
    let closing = "`\n\nMerci de prendre cet avertissement en considération. :point_up:";
    let mut r = String::new();
    match action {
        ActionType::Ban => {
            r.append("## Hello :wave:\nTu as été banni de **");
            r.append(server);
            r.append("** pour raison :\n\n> `");
            r.append(reason);
            r.append("`\n\nBonne continuation à toi ! :wave:");
        },
        ActionType::Kick => {
            r.append("## Hello :wave:\nTu as été exclu de **");
            r.append(server);
            r.append("** pour raison :\n\n> `");
            r.append(reason);
            r.append("`\n\nNous tolérerons ton retour à la seule condition que tu sois en mesure de respecter notre communauté. :point_up:\nBien à toi.");
        },
        _ => {
            let (intro, after): (&str, &str) = match action {
                ActionType::Warn => ("## Hello :wave:\nJe suis le robot de **", "**"),
                ActionType::BanVocal => ("## Hello :wave:\nTu as été banni des salons vocaux de **", "**"),
                ActionType::ExcludeOneHour => ("## Hello :wave:\nTu as été exclu de **", "** pour une heure"),
                ActionType::ExcludeOneDay => ("## Hello :wave:\nTu as été exclu de **", "** pour un jour"),
                _ => ("## Hello :wave:\nTu as été exclu de **", "** pour une semaine"),
            };
            r.append(intro);
            r.append(server);
            r.append(after);
            r.append(reminder);
            r.append(reason);
            r.append(closing);
        },
    }
    assert(r@ =~= private_message_spec(action, server@, reason@));
    r
}

/// What the bot does to the sanctioned member.
#[derive(PartialEq, Eq, Structural, Clone, Copy, Debug)]
pub enum MemberSanction {
    Nothing,
    Ban,
    /// Disconnect from voice, then kick.
    Kick,
    AddRole(u64),
    /// Mute until this many seconds from now.
    Timeout(u64),
}

/// What a sanction does to the member: bans and kicks, the voice-ban role, or a time-out of one
/// hour, day or week.
pub open spec fn member_sanction_spec(action: ActionType, ban_vocal_role: u64) -> MemberSanction {
    match action {
        ActionType::Warn => MemberSanction::Nothing,
        ActionType::Ban => MemberSanction::Ban,
        ActionType::Kick => MemberSanction::Kick,
        ActionType::BanVocal => MemberSanction::AddRole(ban_vocal_role),
        ActionType::ExcludeOneHour => MemberSanction::Timeout(3600),
        ActionType::ExcludeOneDay => MemberSanction::Timeout(86400),
        ActionType::ExcludeOneWeek => MemberSanction::Timeout(604800),
    }
}

/// The time-outs last what their names say: an hour is 3600 seconds, a day 24 hours, a week 7
/// days, whatever the voice-ban role.
pub proof fn lemma_exclusion_lengths(ban_vocal_role: u64)
    ensures
        match (
            member_sanction_spec(ActionType::ExcludeOneHour, ban_vocal_role),
            member_sanction_spec(ActionType::ExcludeOneDay, ban_vocal_role),
            member_sanction_spec(ActionType::ExcludeOneWeek, ban_vocal_role),
        ) {
            (MemberSanction::Timeout(h), MemberSanction::Timeout(d), MemberSanction::Timeout(w)) => h == 60 * 60 && d == 24 * h && w
                == 7 * d,
            _ => false,
        },
{
}

/// What a sanction does to the member.
pub fn member_sanction(action: ActionType, ban_vocal_role: u64) -> (r: MemberSanction)
    ensures
        r == member_sanction_spec(action, ban_vocal_role),
{
    match action {
        ActionType::Warn => MemberSanction::Nothing,
        ActionType::Ban => MemberSanction::Ban,
        ActionType::Kick => MemberSanction::Kick,
        ActionType::BanVocal => MemberSanction::AddRole(ban_vocal_role),
        ActionType::ExcludeOneHour => MemberSanction::Timeout(3600),
        ActionType::ExcludeOneDay => MemberSanction::Timeout(86400),
        ActionType::ExcludeOneWeek => MemberSanction::Timeout(604800),
    }
}

/// The member actions that the audit log reports and that the bot records.
#[derive(PartialEq, Eq, Structural, Clone, Copy, Debug)]
pub enum AuditMemberAction {
    Kick,
    Update,
    BanAdd,
    Other,
}

/// The sanction a moderator gave by hand, as the audit log tells: a kick, a time-out (a member update
/// that leaves the member muted) or a ban; with the details recorded. Entries made by the bot itself
/// are skipped.
pub open spec fn manual_sanction_spec(action: AuditMemberAction, by_bot: bool, muted: bool) -> Option<(ActionType, Seq<char>)> {
    if by_bot {
        None
    } else {
        match action {
            AuditMemberAction::Kick => Some((ActionType::Kick, "Kick manuel"@)),
            AuditMemberAction::Update => if muted { Some((ActionType::ExcludeOneHour, "Exclusion manuelle"@)) } else { None },
            AuditMemberAction::BanAdd => Some((ActionType::Ban, "Ban manuel"@)),
            AuditMemberAction::Other => None,
        }
    }
}

/// The sanction to record for a member action found in the audit log.
pub fn manual_sanction(action: AuditMemberAction, by_bot: bool, muted: bool) -> (r: Option<(ActionType, &'static str)>)
    ensures
        match manual_sanction_spec(action, by_bot, muted) {
            None => r is None,
            Some((a, d)) => r matches Some(x) && x.0 == a && x.1@ == d,
        },
{
    if by_bot {
        return None;
    }
    match action {
        AuditMemberAction::Kick => Some((ActionType::Kick, "Kick manuel")),
        AuditMemberAction::Update => if muted { Some((ActionType::ExcludeOneHour, "Exclusion manuelle")) } else { None },
        AuditMemberAction::BanAdd => Some((ActionType::Ban, "Ban manuel")),
        AuditMemberAction::Other => None,
    }
}

/// The fields of a user's sanction history, one per sanction: `{sanction} ({date})` and
/// `{reason}\n{link}`; none when a date cannot be written.
pub open spec fn history_fields_spec(warns: Seq<UserWarn>) -> Option<Seq<(Seq<char>, Seq<char>)>>
    decreases warns.len(),
{
    if warns.len() == 0 {
        Some(Seq::empty())
    } else {
        match history_fields_spec(warns.drop_last()) {
            None => None,
            Some(fields) => {
                let w = warns.last();
                match day_month_year_text(w.date as i64) {
                    None => None,
                    Some(date) => Some(fields.push((w.action@ + " ("@ + date + ")"@, w.reason@ + "\n"@ + w.full_message_link@))),
                }
            },
        }
    }
}

/// The fields of a user's sanction history.
pub fn history_fields(warns: &Vec<UserWarn>) -> (r: Option<Vec<(String, String)>>)
    ensures
        match history_fields_spec(warns@) {
            None => r is None,
            Some(f) => r matches Some(v) && v@.len() == f.len() && forall|i: int| 0 <= i < f.len() ==> (#[trigger] v@[i]).0@ == f[i].0 && v@[i].1@ == f[i].1,
        },
{
    let mut out: Vec<(String, String)> = Vec::new();
    let mut i: usize = 0;
    while i < warns.len()
        invariant
            i <= warns@.len(),
            history_fields_spec(warns@.take(i as int)) matches Some(f) && out@.len() == f.len()
                && forall|k: int| 0 <= k < f.len() ==> (#[trigger] out@[k]).0@ == f[k].0 && out@[k].1@ == f[k].1,
        decreases warns@.len() - i,
    {
        assert(warns@.take(i + 1).drop_last() =~= warns@.take(i as int));
        let w = &warns[i];
        match format_day_month_year(w.date as i64) {
            None => {
                proof {
                    lemma_history_fields_none(warns@, (i + 1) as int);
                }
                return None;
            },
            Some(date) => {
                let mut name = w.action.clone();
                name.append(" (");
                name.append(date.as_str());
                name.append(")");
                let mut value = w.reason.clone();
                value.append("\n");
                value.append(w.full_message_link.as_str());
                out.push((name, value));
            },
        }
        i = i + 1;
    }
    assert(warns@.take(i as int) =~= warns@);
    Some(out)
}

proof fn lemma_history_fields_none(warns: Seq<UserWarn>, k: int)
    requires
        0 < k <= warns.len(),
        history_fields_spec(warns.take(k)) is None,
    ensures
        history_fields_spec(warns) is None,
    decreases warns.len() - k,
{
    if k < warns.len() {
        assert(warns.take(k + 1).drop_last() =~= warns.take(k));
        lemma_history_fields_none(warns, k + 1);
    } else {
        assert(warns.take(k) =~= warns);
    }
}

/// The channels and role of the sanction module.
pub struct WarnChannels {
    pub public_warn_channel: u64,
    pub moderation_warn_channel: u64,
    pub ban_vocal: u64,
}

impl WarnChannels {
    /// Checks the configuration when the module loads: the moderation channel, then the voice-ban
    /// role, must be set.
    pub fn check(&self) -> (r: Result<(), crate::error::BidibipError>)
        ensures
            self.moderation_warn_channel == 0 ==> (r matches Err(e) && e.msg@ == "Invalid warn channel id"@),
            self.moderation_warn_channel != 0 && self.ban_vocal == 0 ==> (r matches Err(e) && e.msg@ == "Invalid ban-vocal role id"@),
            self.moderation_warn_channel != 0 && self.ban_vocal != 0 ==> r is Ok,
    {
        if self.moderation_warn_channel == 0 {
            return Err(crate::error::BidibipError::msg("Invalid warn channel id"));
        }
        if self.ban_vocal == 0 {
            return Err(crate::error::BidibipError::msg("Invalid ban-vocal role id"));
        }
        Ok(())
    }
}

} // verus!
