//! Component custom ids of the form `module::action::payload`, as the bot writes and reads them.
use vstd::prelude::*;
use crate::text::{chars_of, string_from_chars};

verus! {

/// Where the next `::` separator starts at or after position `i`, scanning left to right.
pub open spec fn find_sep_from(s: Seq<char>, i: int) -> Option<int>
    decreases s.len() - i,
{
    if i < 0 || i + 2 > s.len() {
        None
    } else if s[i] == ':' && s[i + 1] == ':' {
        Some(i)
    } else {
        find_sep_from(s, i + 1)
    }
}

/// The pieces that `str::split("::")` yields from position `i` on.
pub open spec fn pieces_from(s: Seq<char>, i: int) -> Seq<Seq<char>>
    decreases s.len() - i, 1int,
{
    if i < 0 || i > s.len() {
        seq![]
    } else {
        match find_sep_from(s, i) {
            None => seq![s.subrange(i, s.len() as int)],
            Some(j) => if i <= j && j + 2 <= s.len() {
                seq![s.subrange(i, j)] + pieces_from(s, j + 2)
            } else {
                seq![]
            },
        }
    }
}

/// The pieces of a custom id split on `::`.
pub open spec fn pieces(s: Seq<char>) -> Seq<Seq<char>> {
    pieces_from(s, 0)
}

/// The custom id that `make_custom_id` writes.
pub open spec fn custom_id_spec(module: Seq<char>, action: Seq<char>, payload: Seq<char>) -> Seq<char> {
    module + seq![':', ':'] + action + seq![':', ':'] + payload
}

/// The payload that a custom id carries for the given module and action, if it is addressed to them.
pub open spec fn custom_id_data_spec(custom_id: Seq<char>, module: Seq<char>, action: Seq<char>) -> Option<Seq<char>> {
    let p = pieces(custom_id);
    if p.len() >= 2 && p[0] == module && p[1] == action {
        Some(if p.len() >= 3 { p[2] } else { Seq::<char>::empty() })
    } else {
        None
    }
}

/// The action and payload that a custom id carries for the given module, if it is addressed to it.
pub open spec fn custom_id_action_spec(custom_id: Seq<char>, module: Seq<char>) -> Option<(Seq<char>, Seq<char>)> {
    let p = pieces(custom_id);
    if p.len() >= 2 && p[0] == module {
        Some((p[1], if p.len() >= 3 { p[2] } else { Seq::<char>::empty() }))
    } else {
        None
    }
}

proof fn lemma_find_sep_bounds(s: Seq<char>, i: int)
    ensures
        find_sep_from(s, i) matches Some(j) ==> i <= j && j + 2 <= s.len() && s[j] == ':' && s[j + 1] == ':',
    decreases s.len() - i,
{
    if i < 0 || i + 2 > s.len() {
    } else if s[i] == ':' && s[i + 1] == ':' {
    } else {
        lemma_find_sep_bounds(s, i + 1);
    }
}

proof fn lemma_pieces_unfold(s: Seq<char>, i: int)
    requires
        0 <= i <= s.len(),
    ensures
        pieces_from(s, i).len() >= 1,
        find_sep_from(s, i) is None ==> pieces_from(s, i) == seq![s.subrange(i, s.len() as int)],
        find_sep_from(s, i) matches Some(j) ==> pieces_from(s, i) == seq![s.subrange(i, j)] + pieces_from(s, j + 2)
            && i <= j && j + 2 <= s.len(),
{
    lemma_find_sep_bounds(s, i);
    match find_sep_from(s, i) {
        None => {},
        Some(j) => {
            if j + 2 <= s.len() {
                lemma_pieces_unfold_len(s, j + 2);
            }
        },
    }
}

proof fn lemma_pieces_unfold_len(s: Seq<char>, i: int)
    requires
        0 <= i <= s.len(),
    ensures
        pieces_from(s, i).len() >= 1,
    decreases s.len() - i,
{
    lemma_find_sep_bounds(s, i);
    match find_sep_from(s, i) {
        None => {},
        Some(j) => {
            lemma_pieces_unfold_len(s, j + 2);
        },
    }
}

/// Where the next `::` separator starts at or after position `i` (executable form).
fn find_sep(s: &[char], i: usize) -> (r: Option<usize>)
    requires
        i <= s@.len(),
    ensures
        r matches Some(j) ==> find_sep_from(s@, i as int) == Some(j as int) && j + 2 <= s.len(),
        r is None ==> find_sep_from(s@, i as int) is None,
{
    let mut k: usize = i;
    proof {
        lemma_find_sep_bounds(s@, i as int);
    }
    while k < s.len() && s.len() - k >= 2
        invariant
            i <= k <= s.len(),
            find_sep_from(s@, i as int) == find_sep_from(s@, k as int),
        decreases s@.len() - k,
    {
        if s[k] == ':' && s[k + 1] == ':' {
            return Some(k);
        }
        k = k + 1;
    }
    None
}

/// Writes the custom id `module::action::payload`.
pub fn make_custom_id(module: &str, action: &str, payload: &str) -> (r: String)
    ensures
        r@ == custom_id_spec(module@, action@, payload@),
{
    let mut out = module.to_owned();
    out.append("::");
    out.append(action);
    out.append("::");
    out.append(payload);
    proof {
        reveal_strlit("::");
    }
    assert(out@ =~= custom_id_spec(module@, action@, payload@));
    out
}

/// The first three pieces of a custom id: the first, and the next two when present.
fn first_pieces(s: &[char]) -> (r: (Vec<char>, Option<(Vec<char>, Vec<char>)>))
    ensures
        r.0@ == pieces(s@)[0],
        r.1 is Some <==> pieces(s@).len() >= 2,
        r.1 matches Some(rest) ==> rest.0@ == pieces(s@)[1] && rest.1@ == (if pieces(s@).len() >= 3 {
            pieces(s@)[2]
        } else {
            Seq::<char>::empty()
        }),
{
    proof {
        lemma_pieces_unfold(s@, 0);
    }
    match find_sep(s, 0) {
        None => {
            assert(s@.subrange(0, s@.len() as int) =~= s@);
            (slice_range(s, 0, s.len()), None)
        },
        Some(j1) => {
            let first = slice_range(s, 0, j1);
            proof {
                lemma_pieces_unfold(s@, j1 + 2);
            }
            match find_sep(s, j1 + 2) {
                None => {
                    let second = slice_range(s, j1 + 2, s.len());
                    (first, Some((second, Vec::new())))
                },
                Some(j2) => {
                    let second = slice_range(s, j1 + 2, j2);
                    proof {
                        lemma_pieces_unfold(s@, j2 + 2);
                    }
                    let third_end = match find_sep(s, j2 + 2) {
                        None => s.len(),
                        Some(j3) => j3,
                    };
                    proof {
                        lemma_find_sep_bounds(s@, j2 + 2);
                    }
                    let third = slice_range(s, j2 + 2, third_end);
                    (first, Some((second, third)))
                },
            }
        },
    }
}

/// The characters of `s` from `from` up to `to`.
pub fn slice_range(s: &[char], from: usize, to: usize) -> (r: Vec<char>)
    requires
        from <= to <= s@.len(),
    ensures
        r@ == s@.subrange(from as int, to as int),
{
    let mut r: Vec<char> = Vec::new();
    let mut k: usize = from;
    while k < to
        invariant
            from <= k <= to <= s@.len(),
            r@ == s@.subrange(from as int, k as int),
        decreases to - k,
    {
        r.push(s[k]);
        k = k + 1;
        assert(r@ =~= s@.subrange(from as int, k as int));
    }
    r
}

/// The payload of a custom id addressed to `module` and `action`.
pub fn get_custom_id_data(custom_id: &str, module: &str, action: &str) -> (r: Option<String>)
    ensures
        r matches Some(p) ==> custom_id_data_spec(custom_id@, module@, action@) == Some(p@),
        r is None ==> custom_id_data_spec(custom_id@, module@, action@) is None,
{
    let chars = chars_of(custom_id);
    let (first, rest) = first_pieces(chars.as_slice());
    let module_chars = chars_of(module);
    if !chars_equal(&first, &module_chars) {
        return None;
    }
    match rest {
        None => None,
        Some((second, third)) => {
            let action_chars = chars_of(action);
            if !chars_equal(&second, &action_chars) {
                return None;
            }
            Some(string_from_chars(third.as_slice()))
        },
    }
}

/// The action and payload of a custom id addressed to `module`.
pub fn get_custom_id_action(custom_id: &str, module: &str) -> (r: Option<(String, String)>)
    ensures
        r matches Some(p) ==> custom_id_action_spec(custom_id@, module@) == Some((p.0@, p.1@)),
        r is None ==> custom_id_action_spec(custom_id@, module@) is None,
{
    let chars = chars_of(custom_id);
    let (first, rest) = first_pieces(chars.as_slice());
    let module_chars = chars_of(module);
    if !chars_equal(&first, &module_chars) {
        return None;
    }
    match rest {
        None => None,
        Some((second, third)) => Some((string_from_chars(second.as_slice()), string_from_chars(third.as_slice()))),
    }
}

/// Whether two character vectors hold the same characters.
pub fn chars_equal(a: &Vec<char>, b: &Vec<char>) -> (r: bool)
    ensures
        r == (a@ == b@),
{
    if a.len() != b.len() {
        return false;
    }
    let mut i: usize = 0;
    while i < a.len()
        invariant
            a@.len() == b@.len(),
            i <= a@.len(),
            a@.take(i as int) == b@.take(i as int),
        decreases a@.len() - i,
    {
        if a[i] != b[i] {
            assert(a@[i as int] != b@[i as int]);
            return false;
        }
        i = i + 1;
        assert(a@.take(i as int) =~= b@.take(i as int));
    }
    assert(a@ =~= a@.take(i as int));
    assert(b@ =~= b@.take(i as int));
    true
}

} // verus!

verus! {

/// Whether a text holds no `:` character.
pub open spec fn no_colon(s: Seq<char>) -> bool {
    forall|i: int| 0 <= i < s.len() ==> s[i] != ':'
}

/// Whether a text holds no `::` separator.
pub open spec fn sep_free(s: Seq<char>) -> bool {
    forall|i: int| 0 <= i && i + 1 < s.len() ==> !(#[trigger] s[i] == ':' && s[i + 1] == ':')
}

/// Whether a text can stand before a `::` separator and be read back whole: it holds no `::` and
/// does not end with `:`.
pub open spec fn leading_piece(s: Seq<char>) -> bool {
    sep_free(s) && (s.len() == 0 || s.last() != ':')
}

/// A colon-free text can stand anywhere in a custom id.
pub proof fn lemma_no_colon_piece(s: Seq<char>)
    requires
        no_colon(s),
    ensures
        sep_free(s),
        leading_piece(s),
{
}

proof fn lemma_find_sep_reaches(s: Seq<char>, i: int, j: int)
    requires
        0 <= i <= j,
        j + 2 <= s.len(),
        s[j] == ':',
        s[j + 1] == ':',
        forall|k: int| i <= k < j ==> !(#[trigger] s[k] == ':' && s[k + 1] == ':'),
    ensures
        find_sep_from(s, i) == Some(j),
    decreases j - i,
{
    if i < j {
        assert(!(s[i] == ':' && s[i + 1] == ':'));
        lemma_find_sep_reaches(s, i + 1, j);
    }
}

proof fn lemma_find_sep_none(s: Seq<char>, i: int)
    requires
        0 <= i,
        forall|k: int| i <= k && k + 1 < s.len() ==> !(#[trigger] s[k] == ':' && s[k + 1] == ':'),
    ensures
        find_sep_from(s, i) is None,
    decreases s.len() - i,
{
    if i + 2 <= s.len() {
        assert(!(s[i] == ':' && s[i + 1] == ':'));
        lemma_find_sep_none(s, i + 1);
    }
}

/// Splitting a custom id gives back the module, the action and the payload it was written from,
/// when neither the module nor the action holds `::` or ends with `:`, and the payload holds no `::`.
pub proof fn lemma_custom_id_pieces(module: Seq<char>, action: Seq<char>, payload: Seq<char>)
    requires
        leading_piece(module),
        leading_piece(action),
        sep_free(payload),
    ensures
        pieces(custom_id_spec(module, action, payload)) == seq![module, action, payload],
{
    let s = custom_id_spec(module, action, payload);
    let m = module.len() as int;
    let a = action.len() as int;
    assert forall|k: int| 0 <= k < m implies !(#[trigger] s[k] == ':' && s[k + 1] == ':') by {
        assert(s[k] == module[k]);
        if k + 1 < m {
            assert(s[k + 1] == module[k + 1]);
        } else {
            assert(module.last() == module[k]);
        }
    }
    lemma_find_sep_reaches(s, 0, m);
    assert forall|k: int| m + 2 <= k < m + 2 + a implies !(#[trigger] s[k] == ':' && s[k + 1] == ':') by {
        assert(s[k] == action[k - m - 2]);
        if k + 1 < m + 2 + a {
            assert(s[k + 1] == action[k + 1 - m - 2]);
        } else {
            assert(action.last() == action[k - m - 2]);
        }
    }
    lemma_find_sep_reaches(s, m + 2, m + 2 + a);
    assert forall|k: int| m + a + 4 <= k && k + 1 < s.len() implies !(#[trigger] s[k] == ':' && s[k + 1] == ':') by {
        assert(s[k] == payload[k - m - a - 4]);
        assert(s[k + 1] == payload[k + 1 - m - a - 4]);
    }
    lemma_find_sep_none(s, m + a + 4);
    assert(s.subrange(0, m) =~= module);
    assert(s.subrange(m + 2, m + 2 + a) =~= action);
    assert(s.subrange(m + a + 4, s.len() as int) =~= payload);
    assert(pieces_from(s, m + a + 4) == seq![payload]);
    assert(pieces_from(s, m + 2) == seq![action] + seq![payload]);
    assert(pieces(s) =~= seq![module, action, payload]);
}

/// A custom id written for a module and action is read back, by that module and action, as its
/// payload; read for another action or by another module it gives nothing; the action reader gives
/// back the action and the payload. This holds when neither the module nor the action holds `::` or
/// ends with `:`, and the payload holds no `::`.
pub proof fn lemma_custom_id_roundtrip(module: Seq<char>, action: Seq<char>, payload: Seq<char>)
    requires
        leading_piece(module),
        leading_piece(action),
        sep_free(payload),
    ensures
        custom_id_data_spec(custom_id_spec(module, action, payload), module, action) == Some(payload),
        forall|other: Seq<char>| other != action ==> custom_id_data_spec(custom_id_spec(module, action, payload), module, other) is None,
        forall|other: Seq<char>, a: Seq<char>| other != module ==> custom_id_data_spec(custom_id_spec(module, action, payload), other, a) is None,
        custom_id_action_spec(custom_id_spec(module, action, payload), module) == Some((action, payload)),
        forall|other: Seq<char>| other != module ==> custom_id_action_spec(custom_id_spec(module, action, payload), other) is None,
{
    lemma_custom_id_pieces(module, action, payload);
}

} // verus!
