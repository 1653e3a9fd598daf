//! The member count shown in the bot's status.
use vstd::prelude::*;
use crate::text::{decimal, u64_to_string};

verus! {

/// Name of the member count module.
pub fn module_name() -> (r: &'static str)
    ensures
        r@ == "member-count"@,
{
    "member-count"
}

/// Description of the member count module.
pub fn module_description() -> (r: &'static str)
    ensures
        r@ == "Compte le nombre de membres et l'affiche dans l'activité de Bidibip"@,
{
    "Compte le nombre de membres et l'affiche dans l'activité de Bidibip"
}

/// The number of members of the server, as the module counts them.
pub struct UserCount {
    pub user_count: usize,
}

impl UserCount {
    /// Nobody counted yet.
    pub fn new() -> (r: UserCount)
        ensures
            r.user_count == 0,
    {
        UserCount { user_count: 0 }
    }

    /// A member arrived: one more, wrapping around at the top of the range.
    pub fn member_joined(&mut self)
        ensures
            final(self).user_count == (if old(self).user_count == usize::MAX {
                0
            } else {
                old(self).user_count + 1
            }),
    {
        self.user_count = self.user_count.wrapping_add(1);
    }

    /// A member left: one less, wrapping around below zero.
    pub fn member_left(&mut self)
        ensures
            final(self).user_count == (if old(self).user_count == 0 {
                usize::MAX as int
            } else {
                old(self).user_count - 1
            }),
    {
        self.user_count = self.user_count.wrapping_sub(1);
    }

    /// The count, once all the members were listed.
    pub fn set(&mut self, count: usize)
        ensures
            final(self).user_count == count,
    {
        self.user_count = count;
    }

    /// The status that shows the count.
    pub fn status_text(&self) -> (r: String)
        ensures
            r@ == "Nous sommes "@ + decimal(self.user_count as nat) + " membres"@,
    {
        let mut r = String::new();
        r.append("Nous sommes ");
        let n = u64_to_string(self.user_count as u64);
        r.append(n.as_str());
        r.append(" membres");
        proof {
            reveal_strlit("Nous sommes ");
            reveal_strlit(" membres");
        }
        r
    }
}

/// A member who arrives and then leaves leaves the count as it was.
pub proof fn lemma_join_then_leave(before: usize, middle: usize, after: usize)
    requires
        middle == (if before == usize::MAX {
            0
        } else {
            before + 1
        }),
        after == (if middle == 0 {
            usize::MAX as int
        } else {
            middle - 1
        }),
    ensures
        after == before,
{
}

} // verus!
