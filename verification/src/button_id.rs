//! Allocation of the numeric ids that the bot's buttons carry.
use vstd::prelude::*;
use crate::custom_id::{custom_id_spec, make_custom_id, no_colon};
use crate::text::{decimal, digit_char, u64_to_string};

verus! {

/// The allocator's state: the greatest id handed out so far and the ids given back since.
pub struct ButtonIds {
    pub max: u64,
    pub free: Vec<u64>,
}

/// Whether an allocator state is consistent: every id given back is nonzero, was handed out
/// (is at most `max`) and is given back only once.
pub open spec fn button_ids_wf(ids: ButtonIds) -> bool {
    &&& forall|i: int| 0 <= i < ids.free@.len() ==> 0 < #[trigger] ids.free@[i] <= ids.max
    &&& ids.free@.no_duplicates()
}

/// Whether a new id can be handed out without overflowing the counter.
pub open spec fn can_allocate(ids: ButtonIds) -> bool {
    ids.free@.len() > 0 || ids.max < u64::MAX
}

impl ButtonIds {
    /// An allocator that has handed out nothing yet.
    pub fn new() -> (r: ButtonIds)
        ensures
            r.max == 0,
            r.free@ == Seq::<u64>::empty(),
            button_ids_wf(r),
    {
        ButtonIds { max: 0, free: Vec::new() }
    }
}

/// Whether a stored button id is the unset id 0 (such ids are left out when saved).
pub fn is_id_zero(v: &u64) -> (r: bool)
    ensures
        r == (*v == 0),
{
    *v == 0
}

/// A button id; 0 means that the button holds no id.
#[derive(Clone, Copy, PartialEq, Eq, Structural, Debug, Default)]
pub struct ButtonId {
    pub id: u64,
}

impl ButtonId {
    /// Wraps a raw id.
    pub fn from_raw(value: u64) -> (r: ButtonId)
        ensures
            r.id == value,
    {
        ButtonId { id: value }
    }

    /// Hands out an id: the id given back last, else one more than the greatest id so far.
    pub fn new(ids: &mut ButtonIds) -> (r: ButtonId)
        requires
            can_allocate(*old(ids)),
        ensures
            old(ids).free@.len() > 0 ==> r.id == old(ids).free@.last() && final(ids).free@ == old(
                ids,
            ).free@.drop_last() && final(ids).max == old(ids).max,
            old(ids).free@.len() == 0 ==> r.id == old(ids).max + 1 && final(ids).max == r.id
                && final(ids).free@ == old(ids).free@,
    {
        match ids.free.pop() {
            Some(old_id) => ButtonId { id: old_id },
            None => {
                ids.max = ids.max + 1;
                ButtonId { id: ids.max }
            },
        }
    }

    /// The raw id.
    pub fn raw(&self) -> (r: u64)
        ensures
            r == self.id,
    {
        self.id
    }

    /// Gives the id back to the allocator and clears it.
    pub fn free(&mut self, ids: &mut ButtonIds)
        ensures
            final(ids).free@ == old(ids).free@.push(old(self).id),
            final(ids).max == old(ids).max,
            final(self).id == 0,
    {
        ids.free.push(self.id);
        self.id = 0;
    }

    /// The custom id of a button that carries this id for the given module: `module::<id>::`.
    pub fn custom_id(&self, module: &str) -> (r: String)
        ensures
            r@ == custom_id_spec(module@, decimal(self.id as nat), Seq::<char>::empty()),
    {
        let id_text = u64_to_string(self.id);
        let r = make_custom_id(module, id_text.as_str(), "");
        proof {
            reveal_strlit("");
        }
        r
    }
}

/// Handing out an id from a consistent allocator gives a nonzero id that is not free any more,
/// and leaves the allocator consistent.
pub proof fn lemma_allocation_fresh(before: ButtonIds, after: ButtonIds, id: u64)
    requires
        button_ids_wf(before),
        can_allocate(before),
        before.free@.len() > 0 ==> id == before.free@.last() && after.free@ == before.free@.drop_last()
            && after.max == before.max,
        before.free@.len() == 0 ==> id == before.max + 1 && after.max == id && after.free@ == before.free@,
    ensures
        id != 0,
        id <= after.max,
        !after.free@.contains(id),
        button_ids_wf(after),
{
    if before.free@.len() > 0 {
        let n = before.free@.len() - 1;
        assert(before.free@[n] == id);
        assert forall|i: int| 0 <= i < after.free@.len() implies after.free@[i] != id by {
            assert(after.free@[i] == before.free@[i]);
        }
        assert forall|i: int| 0 <= i < after.free@.len() implies 0 < #[trigger] after.free@[i] <= after.max by {
            assert(after.free@[i] == before.free@[i]);
        }
        assert forall|i: int, j: int| 0 <= i < after.free@.len() && 0 <= j < after.free@.len() && i != j
            implies after.free@[i] != after.free@[j] by {
            assert(after.free@[i] == before.free@[i]);
            assert(after.free@[j] == before.free@[j]);
        }
    }
}

/// Giving an id back and then asking for one gives that same id and the allocator as it was.
pub proof fn lemma_free_then_new(before: ButtonIds, middle: ButtonIds, after: ButtonIds, freed: u64, id: u64)
    requires
        middle.free@ == before.free@.push(freed),
        middle.max == before.max,
        middle.free@.len() > 0 ==> id == middle.free@.last() && after.free@ == middle.free@.drop_last()
            && after.max == middle.max,
        middle.free@.len() == 0 ==> id == middle.max + 1 && after.max == id && after.free@ == middle.free@,
    ensures
        id == freed,
        after.free@ == before.free@,
        after.max == before.max,
{
    assert(middle.free@.drop_last() =~= before.free@);
}

/// Decimal digits are never colons.
pub proof fn lemma_decimal_no_colon(n: nat)
    ensures
        no_colon(decimal(n)),
    decreases n,
{
    if n >= 10 {
        lemma_decimal_no_colon(n / 10);
        assert forall|i: int| 0 <= i < decimal(n).len() implies decimal(n)[i] != ':' by {
            if i < decimal(n).len() - 1 {
                assert(decimal(n)[i] == decimal(n / 10)[i]);
            } else {
                assert(decimal(n)[i] == digit_char(n % 10));
            }
        }
    } else {
        assert(decimal(n)[0] == digit_char(n));
    }
}

} // verus!
