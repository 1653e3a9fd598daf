//! Private threads between a member and the moderators.
use vstd::prelude::*;
use crate::discord::{channel_mention, channel_mention_spec, role_mention, role_mention_spec, user_mention, user_mention_spec};
use crate::error::BidibipError;
use std::collections::HashMap;
use vstd::std_specs::hash::spec_hash_map_iter;
use vstd::std_specs::iter::IteratorSpec;

verus! {

/// Name of the moderation module.
pub fn module_name() -> (r: &'static str)
    ensures
        r@ == "modo"@,
{
    "modo"
}

/// Description of the moderation module.
pub fn module_description() -> (r: &'static str)
    ensures
        r@ == "Ouvre un canal directe avec la modération"@,
{
    "Ouvre un canal directe avec la modération"
}

/// The custom id of the button that closes a discussion.
pub fn close_button_id() -> (r: &'static str)
    ensures
        r@ == "modo_close_thread"@,
{
    "modo_close_thread"
}

/// The moderation channel, and the thread of each member who opened one, keyed by member.
pub struct ModoConfig {
    pub modo_channel: u64,
    pub tickets: HashMap<u64, u64>,
}

/// Whether a member's thread is the given one.
pub open spec fn has_ticket(t: Map<u64, u64>, user: u64, thread: u64) -> bool {
    t.contains_key(user) && t[user] == thread
}

impl ModoConfig {
    /// Checks the configuration when the module loads: a moderation channel must be set.
    pub fn check(&self) -> (r: Result<(), BidibipError>)
        ensures
            self.modo_channel == 0 <==> r is Err,
            r matches Err(e) ==> e.msg@ == "Invalid modo channel id"@,
    {
        if self.modo_channel == 0 {
            Err(BidibipError::msg("Invalid modo channel id"))
        } else {
            Ok(())
        }
    }

    /// The thread of a member, if the member opened one.
    pub fn ticket(&self, user: u64) -> (r: Option<u64>)
        ensures
            r is None <==> !self.tickets@.contains_key(user),
            r matches Some(th) ==> th == self.tickets@[user],
    {
        broadcast use vstd::std_specs::hash::group_hash_axioms;
        match self.tickets.get(&user) {
            Some(t) => Some(*t),
            None => None,
        }
    }

    /// Forgets the thread of a member (it could not be reached).
    pub fn forget_ticket(&mut self, user: u64)
        ensures
            final(self).tickets@ == old(self).tickets@.remove(user),
            final(self).modo_channel == old(self).modo_channel,
    {
        broadcast use vstd::std_specs::hash::group_hash_axioms;
        self.tickets.remove(&user);
    }

    /// Records the thread of a member; a thread recorded before for that member is replaced.
    pub fn open_ticket(&mut self, user: u64, thread: u64)
        ensures
            final(self).tickets@ == old(self).tickets@.insert(user, thread),
            final(self).modo_channel == old(self).modo_channel,
    {
        broadcast use vstd::std_specs::hash::group_hash_axioms;
        self.tickets.insert(user, thread);
    }

    /// The members whose thread is the given one (a closed thread is left by each), each once.
    pub fn users_of_thread(&self, thread: u64) -> (r: Vec<u64>)
        ensures
            r@.no_duplicates(),
            forall|u: u64| r@.contains(u) <==> has_ticket(self.tickets@, u, thread),
    {
        broadcast use vstd::std_specs::hash::group_hash_axioms;
        broadcast use vstd::std_specs::hash::axiom_spec_hash_map_iter;
        let mut r: Vec<u64> = Vec::new();
        let ghost pairs = spec_hash_map_iter(&self.tickets).remaining();
        for entry in it: self.tickets.iter()
            invariant
                pairs == it.seq(),
                pairs.no_duplicates(),
                pairs.len() == self.tickets@.dom().len(),
                forall|i: int|
                    0 <= i < pairs.len() ==> self.tickets@.contains_key(*pairs[i].0) && self.tickets@[*pairs[i].0] == *pairs[i].1,
                forall|k: u64| #[trigger] self.tickets@.contains_key(k) ==> pairs.contains((&k, &self.tickets@[k])),
                r@.no_duplicates(),
                forall|u: u64| r@.contains(u) <==> exists|i: int| 0 <= i < it.index() && *pairs[i].0 == u && *pairs[i].1 == thread,
        {
            let ghost idx = it.index();
            let ghost before = r@;
            assert(entry == pairs[idx]);
            let (u, t) = entry;
            if *t == thread {
                proof {
                    if before.contains(*u) {
                        let i = choose|i: int| 0 <= i < idx && *pairs[i].0 == *u && *pairs[i].1 == thread;
                        assert(pairs[i] == pairs[idx]);
                    }
                }
                r.push(*u);
            }
            proof {
                assert forall|x: u64| r@.contains(x) <==> exists|i: int| 0 <= i < idx + 1 && *pairs[i].0 == x && *pairs[i].1 == thread by {
                    if r@.contains(x) {
                        let k = choose|k: int| 0 <= k < r@.len() && r@[k] == x;
                        if k < before.len() {
                            assert(before.contains(x));
                        } else {
                            assert(*pairs[idx].0 == x && *pairs[idx].1 == thread);
                        }
                    }
                    if exists|i: int| 0 <= i < idx + 1 && *pairs[i].0 == x && *pairs[i].1 == thread {
                        let i = choose|i: int| 0 <= i < idx + 1 && *pairs[i].0 == x && *pairs[i].1 == thread;
                        if i < idx {
                            assert(before.contains(x));
                            let k = choose|k: int| 0 <= k < before.len() && before[k] == x;
                            assert(r@[k] == x);
                        } else {
                            assert(r@[before.len() as int] == x);
                        }
                    }
                }
            }
        }
        proof {
            assert forall|u: u64| r@.contains(u) <==> has_ticket(self.tickets@, u, thread) by {
                if has_ticket(self.tickets@, u, thread) {
                    let i = choose|i: int| 0 <= i < pairs.len() && pairs[i] == (&u, &self.tickets@[u]);
                }
            }
        }
        r
    }
}

/// The field of the first message of a discussion.
pub open spec fn opening_field_spec(admin_role: u64) -> Seq<char> {
    "Tu es maintenant en communication directe avec les "@ + role_mention_spec(admin_role)
        + ".\nA toi de nous dire ce qui ne va pas."@
}

/// The field of the first message of a discussion.
pub fn opening_field(admin_role: u64) -> (r: String)
    ensures
        r@ == opening_field_spec(admin_role),
{
    let mut r = String::new();
    r.append("Tu es maintenant en communication directe avec les ");
    let m = role_mention(admin_role);
    r.append(m.as_str());
    r.append(".\nA toi de nous dire ce qui ne va pas.");
    proof {
        reveal_strlit("Tu es maintenant en communication directe avec les ");
        reveal_strlit(".\nA toi de nous dire ce qui ne va pas.");
    }
    r
}

/// The call for help that heads the first message.
pub open spec fn help_call_spec(name: Seq<char>) -> Seq<char> {
    name + " < A l'aide ! 🖐"@
}

/// The call for help that heads the first message.
pub fn help_call(name: &str) -> (r: String)
    ensures
        r@ == help_call_spec(name@),
{
    let mut r = String::new();
    r.append(name);
    r.append(" < A l'aide ! 🖐");
    proof {
        reveal_strlit(" < A l'aide ! 🖐");
    }
    r
}

/// The text of the first message: the member's mention and the administrators'.
pub open spec fn opening_content_spec(user: u64, admin_role: u64) -> Seq<char> {
    user_mention_spec(user) + " "@ + role_mention_spec(admin_role)
}

/// The text of the first message.
pub fn opening_content(user: u64, admin_role: u64) -> (r: String)
    ensures
        r@ == opening_content_spec(user, admin_role),
{
    let mut r = user_mention(user);
    r.append(" ");
    let m = role_mention(admin_role);
    r.append(m.as_str());
    proof {
        reveal_strlit(" ");
    }
    r
}

/// The answer that points the member to the thread.
pub open spec fn redirection_spec(thread: u64) -> Seq<char> {
    "Parle avec la modération ici : "@ + channel_mention_spec(thread)
}

/// The answer that points the member to the thread.
pub fn redirection(thread: u64) -> (r: String)
    ensures
        r@ == redirection_spec(thread),
{
    let mut r = String::new();
    r.append("Parle avec la modération ici : ");
    let m = channel_mention(thread);
    r.append(m.as_str());
    proof {
        reveal_strlit("Parle avec la modération ici : ");
    }
    r
}

} // verus!
