//! Character-level text helpers shared by the bot's modules.
use vstd::prelude::*;
use vstd::std_specs::iter::IteratorSpec;
use vstd::string::StringSliceAdditionalSpecFns;

verus! {

pub assume_specification[ String::push ](s: &mut String, ch: char)
    ensures
        final(s)@ == old(s)@.push(ch),
;

/// The characters of a string slice, in order.
pub fn chars_of(s: &str) -> (v: Vec<char>)
    ensures
        v@ == s@,
{
    let n = s.unicode_len();
    let mut v: Vec<char> = Vec::new();
    let mut it = s.chars();
    let ghost full = s@;
    let mut i: usize = 0;
    while i < n
        invariant
            n == s@.len(),
            i <= n,
            v@ == s@.take(i as int),
            it.remaining() == s@.skip(i as int),
            it.obeys_prophetic_iter_laws(),
        decreases n - i,
    {
        let c = it.next();
        match c {
            Some(ch) => {
                v.push(ch);
            },
            None => {
                assert(false);
            },
        }
        i = i + 1;
        assert(v@ =~= s@.take(i as int));
        assert(it.remaining() =~= s@.skip(i as int));
    }
    assert(v@ =~= s@);
    v
}

} // verus!

verus! {

/// Builds a string holding exactly the given characters.
pub fn string_from_chars(v: &[char]) -> (s: String)
    ensures
        s@ == v@,
{
    let mut s = String::new();
    let mut i: usize = 0;
    while i < v.len()
        invariant
            i <= v@.len(),
            s@ == v@.take(i as int),
        decreases v@.len() - i,
    {
        s.push(v[i]);
        i = i + 1;
        assert(s@ =~= v@.take(i as int));
    }
    assert(v@.take(i as int) =~= v@);
    s
}

/// The character of a decimal digit.
pub open spec fn digit_char(d: nat) -> char {
    ((48 + d) as u32) as char
}

/// Whether a character is an ASCII decimal digit.
pub open spec fn is_digit(c: char) -> bool {
    '0' <= c && c <= '9'
}

/// The value of an ASCII decimal digit character.
pub open spec fn digit_value(c: char) -> nat {
    ((c as u32) - 48) as nat
}

/// Decimal representation of a natural number, without sign or leading zeros.
pub open spec fn decimal(n: nat) -> Seq<char>
    decreases n,
{
    if n < 10 {
        seq![digit_char(n)]
    } else {
        decimal(n / 10).push(digit_char(n % 10))
    }
}

/// Whether every character of the sequence is a decimal digit.
pub open spec fn all_digits(s: Seq<char>) -> bool {
    forall|i: int| 0 <= i < s.len() ==> is_digit(#[trigger] s[i])
}

/// The number that a sequence of decimal digits denotes.
pub open spec fn digits_value(s: Seq<char>) -> nat
    decreases s.len(),
{
    if s.len() == 0 {
        0
    } else {
        digits_value(s.drop_last()) * 10 + digit_value(s.last())
    }
}

/// What `u64::from_str` gives back: an optional `+` sign followed by at least one digit, in range.
pub open spec fn parse_u64_spec(s: Seq<char>) -> Option<u64> {
    let body = if s.len() > 0 && s[0] == '+' { s.drop_first() } else { s };
    if body.len() > 0 && all_digits(body) && digits_value(body) <= u64::MAX {
        Some(digits_value(body) as u64)
    } else {
        None
    }
}

/// The decimal text of a number is a nonempty run of digits that denotes the number.
pub proof fn lemma_decimal_digits(n: nat)
    ensures
        decimal(n).len() > 0,
        all_digits(decimal(n)),
        digits_value(decimal(n)) == n,
        decimal(n)[0] != '+',
    decreases n,
{
    if n < 10 {
        assert(digit_value(digit_char(n)) == n);
        assert(digits_value(decimal(n)) == digits_value(decimal(n).drop_last()) * 10 + digit_value(decimal(n).last()));
        assert(decimal(n).drop_last() =~= Seq::<char>::empty());
    } else {
        lemma_decimal_digits(n / 10);
        let d = decimal(n);
        assert(d.drop_last() =~= decimal(n / 10));
        assert(digit_value(digit_char(n % 10)) == n % 10);
        assert forall|i: int| 0 <= i < d.len() implies is_digit(#[trigger] d[i]) by {
            if i < d.len() - 1 {
                assert(d[i] == decimal(n / 10)[i]);
            }
        }
    }
}

/// Reading back the decimal text of a number gives the number.
pub proof fn lemma_parse_decimal(n: u64)
    ensures
        parse_u64_spec(decimal(n as nat)) == Some(n),
{
    lemma_decimal_digits(n as nat);
}

/// Decimal text of an unsigned integer, as `u64::to_string` writes it.
pub fn u64_to_string(n: u64) -> (s: String)
    ensures
        s@ == decimal(n as nat),
{
    let mut digits: Vec<char> = Vec::new();
    let mut m: u64 = n;
    // digits are collected least significant first
    loop
        invariant_except_break
            decimal(n as nat) == decimal(m as nat) + digits@.reverse(),
        ensures
            decimal(n as nat) == digits@.reverse(),
        decreases m,
    {
        let d: u64 = m % 10;
        let c: char = ((48u8 + (d as u8)) as char);
        assert(c == digit_char(d as nat));
        let ghost old_digits = digits@;
        digits.push(c);
        assert(digits@.reverse() =~= seq![c] + old_digits.reverse());
        if m < 10 {
            assert(decimal(m as nat) == seq![c]);
            assert(decimal(n as nat) =~= digits@.reverse());
            break;
        }
        assert(decimal(m as nat) == decimal((m / 10) as nat).push(c));
        m = m / 10;
        assert(decimal(n as nat) =~= decimal(m as nat) + digits@.reverse());
    }
    let mut s = String::new();
    let mut i: usize = digits.len();
    while i > 0
        invariant
            i <= digits@.len(),
            s@ == digits@.subrange(i as int, digits@.len() as int).reverse(),
        decreases i,
    {
        i = i - 1;
        s.push(digits[i]);
        assert(s@ =~= digits@.subrange(i as int, digits@.len() as int).reverse());
    }
    assert(digits@.subrange(0, digits@.len() as int) =~= digits@);
    s
}

} // verus!

verus! {

proof fn lemma_digits_value_prefix(s: Seq<char>, k: int)
    requires
        0 <= k <= s.len(),
    ensures
        digits_value(s) >= digits_value(s.take(k)),
    decreases s.len(),
{
    if k < s.len() {
        lemma_digits_value_prefix(s.drop_last(), k);
        assert(s.drop_last().take(k) =~= s.take(k));
    } else {
        assert(s.take(k) =~= s);
    }
}

/// Whether a character is an ASCII decimal digit (executable form).
pub fn char_is_digit(c: char) -> (b: bool)
    ensures
        b == is_digit(c),
{
    '0' <= c && c <= '9'
}

/// Reads an unsigned integer the way `u64::from_str` does.
pub fn parse_u64(s: &[char]) -> (r: Option<u64>)
    ensures
        r == parse_u64_spec(s@),
{
    let start: usize = if s.len() > 0 && s[0] == '+' { 1 } else { 0 };
    let ghost body = if s@.len() > 0 && s@[0] == '+' { s@.drop_first() } else { s@ };
    assert(body =~= s@.skip(start as int));
    if start >= s.len() {
        return None;
    }
    let mut acc: u128 = 0;
    let mut i: usize = start;
    while i < s.len()
        invariant
            start <= i <= s@.len(),
            body == s@.skip(start as int),
            body == (if s@.len() > 0 && s@[0] == '+' { s@.drop_first() } else { s@ }),
            acc == digits_value(body.take(i - start)),
            acc <= u64::MAX,
            all_digits(body.take(i - start)),
        decreases s@.len() - i,
    {
        let c = s[i];
        let k: usize = i - start;
        assert(body.take(k + 1).drop_last() =~= body.take(k as int));
        assert(body[k as int] == c);
        if !char_is_digit(c) {
            assert(!is_digit(body[k as int]));
            return None;
        }
        let d: u128 = ((c as u32) - 48) as u128;
        acc = acc * 10 + d;
        if acc > u64::MAX as u128 {
            proof {
                assert(digits_value(body.take(k + 1)) == digits_value(body.take(k as int)) * 10 + digit_value(c));
                lemma_digits_value_prefix(body, k + 1);
            }
            return None;
        }
        i = i + 1;
        assert forall|j: int| 0 <= j < body.take(i - start).len() implies is_digit(#[trigger] body.take(i - start)[j]) by {
            if j < k {
                assert(body.take(i - start)[j] == body.take(k as int)[j]);
            }
        }
    }
    assert(body.take(i - start) =~= body);
    Some(acc as u64)
}

/// Whether `needle` occurs in `hay` at position `at`.
pub open spec fn occurs_at(hay: Seq<char>, needle: Seq<char>, at: int) -> bool {
    0 <= at && at + needle.len() <= hay.len() && hay.subrange(at, at + needle.len()) == needle
}

/// Whether `needle` occurs somewhere in `hay`, as `str::contains` tells.
pub open spec fn contains_seq(hay: Seq<char>, needle: Seq<char>) -> bool {
    exists|at: int| occurs_at(hay, needle, at)
}

/// Whether `needle` occurs in `hay` at position `at` (executable form).
pub fn matches_at(hay: &[char], needle: &[char], at: usize) -> (b: bool)
    ensures
        b == occurs_at(hay@, needle@, at as int),
{
    if at > hay.len() || needle.len() > hay.len() - at {
        return false;
    }
    let mut j: usize = 0;
    while j < needle.len()
        invariant
            at + needle.len() <= hay.len(),
            j <= needle.len(),
            hay@.subrange(at as int, at + j) == needle@.take(j as int),
        decreases needle@.len() - j,
    {
        assert(at + j < hay@.len());
        if hay[at + j] != needle[j] {
            assert(hay@.subrange(at as int, at + needle@.len())[j as int] != needle@[j as int]);
            return false;
        }
        j = j + 1;
        assert(hay@.subrange(at as int, at + j) =~= needle@.take(j as int));
    }
    assert(needle@.take(j as int) =~= needle@);
    true
}

/// Whether `needle` occurs somewhere in `hay` (executable form).
pub fn contains_chars(hay: &[char], needle: &[char]) -> (b: bool)
    ensures
        b == contains_seq(hay@, needle@),
{
    if needle.len() > hay.len() {
        return false;
    }
    let limit: usize = hay.len() - needle.len();
    let mut at: usize = 0;
    loop
        invariant_except_break
            limit == hay@.len() - needle@.len(),
            at <= limit,
            forall|k: int| 0 <= k < at ==> !occurs_at(hay@, needle@, k),
        ensures
            limit == hay@.len() - needle@.len(),
            forall|k: int| 0 <= k <= limit ==> !occurs_at(hay@, needle@, k),
        decreases limit - at,
    {
        if matches_at(hay, needle, at) {
            return true;
        }
        if at == limit {
            break;
        }
        at = at + 1;
    }
    assert forall|k: int| !occurs_at(hay@, needle@, k) by {
        if 0 <= k <= limit {
        }
    }
    false
}

} // verus!

verus! {

/// The UTF-8 byte length of a text.
pub open spec fn byte_len(s: Seq<char>) -> nat {
    vstd::utf8::encode_utf8(s).len()
}

/// The inputs on which truncating a text to `max` bytes does not panic: the text already fits,
/// or the cut `max - 2` bytes in falls on a character boundary.
pub open spec fn truncation_defined(s: Seq<char>, max: nat) -> bool {
    byte_len(s) > max ==> (max >= 2 && vstd::utf8::is_char_boundary(
        vstd::utf8::encode_utf8(s),
        max - 2,
    ))
}

/// A text cut down to at most `max` UTF-8 bytes: unchanged when it fits, else its first `max - 2`
/// bytes followed by `..`.
pub open spec fn truncated(s: Seq<char>, max: nat) -> Seq<char> {
    if byte_len(s) <= max {
        s
    } else {
        vstd::utf8::decode_utf8(vstd::utf8::encode_utf8(s).subrange(0, max - 2)) + seq!['.', '.']
    }
}

/// Shortens a text so that it holds at most `max` bytes, marking a cut with `..`.
pub fn truncate_str(s: &str, max: usize) -> (r: String)
    requires
        truncation_defined(s@, max as nat),
    ensures
        r@ == truncated(s@, max as nat),
{
    let byte_count: usize = s.as_bytes().len();
    assert(byte_count == byte_len(s@));
    if byte_count <= max {
        return s.to_owned();
    }
    let (head, _rest) = s.split_at(max - 2);
    proof {
        broadcast use vstd::utf8::group_utf8_lib;
        let bytes = vstd::utf8::encode_utf8(s@);
        assert(head.spec_bytes() == vstd::utf8::encode_utf8(head@));
        assert(vstd::utf8::decode_utf8(vstd::utf8::encode_utf8(head@)) == head@);
        assert(head@ == vstd::utf8::decode_utf8(bytes.subrange(0, max - 2)));
    }
    let mut out = head.to_owned();
    out.append("..");
    proof {
        reveal_strlit("..");
    }
    assert(out@ =~= head@ + seq!['.', '.']);
    out
}

/// Whether truncating a text to `max` bytes is defined (see `truncation_defined`).
pub fn truncation_is_defined(s: &str, max: usize) -> (r: bool)
    ensures
        r == truncation_defined(s@, max as nat),
{
    let byte_count: usize = s.as_bytes().len();
    assert(byte_count == byte_len(s@));
    if byte_count <= max {
        true
    } else if max < 2 {
        false
    } else {
        let r = s.is_char_boundary(max - 2);
        assert(s.spec_bytes() == vstd::utf8::encode_utf8(s@)) by {
            broadcast use vstd::utf8::group_utf8_lib;
        }
        r
    }
}

/// Text that can be shortened to a number of bytes, a cut being marked with `..`.
pub trait TruncateText {
    /// The text to shorten.
    spec fn text_of(&self) -> Seq<char>;

    /// The text, cut down to at most `max` bytes.
    fn truncate_text(&self, max: usize) -> (r: String)
        requires
            truncation_defined(self.text_of(), max as nat),
        ensures
            r@ == truncated(self.text_of(), max as nat),
    ;
}

impl TruncateText for str {
    open spec fn text_of(&self) -> Seq<char> {
        self@
    }

    fn truncate_text(&self, max: usize) -> (r: String) {
        truncate_str(self, max)
    }
}

impl TruncateText for String {
    open spec fn text_of(&self) -> Seq<char> {
        self@
    }

    fn truncate_text(&self, max: usize) -> (r: String) {
        truncate_str(self.as_str(), max)
    }
}

/// A truncated text never holds more than the requested number of bytes.
pub proof fn lemma_truncated_fits(s: Seq<char>, max: nat)
    requires
        truncation_defined(s, max),
    ensures
        byte_len(truncated(s, max)) <= max,
{
    broadcast use vstd::utf8::group_utf8_lib;
    if byte_len(s) > max {
        let bytes = vstd::utf8::encode_utf8(s);
        let head_bytes = bytes.subrange(0, max - 2);
        let head = vstd::utf8::decode_utf8(head_bytes);
        assert(vstd::utf8::valid_utf8(head_bytes));
        assert(vstd::utf8::encode_utf8(head) == head_bytes);
        lemma_encode_concat(head, seq!['.', '.']);
        lemma_encode_ascii_dots();
    }
}

proof fn lemma_encode_ascii_dots()
    ensures
        vstd::utf8::encode_utf8(seq!['.', '.']).len() == 2,
{
    reveal_with_fuel(vstd::utf8::encode_utf8, 3);
    assert(seq!['.', '.'].drop_first() =~= seq!['.']);
    assert(seq!['.'].drop_first() =~= Seq::<char>::empty());
}

/// The encoding of a concatenation is the concatenation of the encodings.
pub proof fn lemma_encode_concat(a: Seq<char>, b: Seq<char>)
    ensures
        vstd::utf8::encode_utf8(a + b) == vstd::utf8::encode_utf8(a) + vstd::utf8::encode_utf8(b),
    decreases a.len(),
{
    if a.len() == 0 {
        assert(a + b =~= b);
        assert(vstd::utf8::encode_utf8(a) =~= Seq::<u8>::empty());
    } else {
        lemma_encode_concat(a.drop_first(), b);
        assert((a + b).drop_first() =~= a.drop_first() + b);
    }
}

} // verus!

verus! {

/// Unicode `White_Space` characters, as `char::is_whitespace` knows them.
pub open spec fn is_whitespace(c: char) -> bool {
    let v = c as u32;
    (9 <= v <= 13) || v == 32 || v == 0x85 || v == 0xA0 || v == 0x1680 || (0x2000 <= v <= 0x200A)
        || v == 0x2028 || v == 0x2029 || v == 0x202F || v == 0x205F || v == 0x3000
}

/// Whether a character is Unicode white space (executable form).
pub fn char_is_whitespace(c: char) -> (r: bool)
    ensures
        r == is_whitespace(c),
{
    let v = c as u32;
    (9 <= v && v <= 13) || v == 32 || v == 0x85 || v == 0xA0 || v == 0x1680 || (0x2000 <= v && v <= 0x200A)
        || v == 0x2028 || v == 0x2029 || v == 0x202F || v == 0x205F || v == 0x3000
}

/// Closes the word being read, if it holds anything.
pub open spec fn flush_word(done: Seq<Seq<char>>, cur: Seq<char>) -> Seq<Seq<char>> {
    if cur.len() > 0 {
        done.push(cur)
    } else {
        done
    }
}

/// Reads the rest `s` of a text into words, given the words read so far and the word being read.
pub open spec fn words_from(s: Seq<char>, done: Seq<Seq<char>>, cur: Seq<char>) -> Seq<Seq<char>>
    decreases s.len(),
{
    if s.len() == 0 {
        flush_word(done, cur)
    } else if is_whitespace(s[0]) {
        words_from(s.drop_first(), flush_word(done, cur), Seq::empty())
    } else {
        words_from(s.drop_first(), done, cur.push(s[0]))
    }
}

/// The words of a text, as `str::split_whitespace` yields them: the maximal runs of characters
/// that are not white space.
pub open spec fn words(s: Seq<char>) -> Seq<Seq<char>> {
    words_from(s, Seq::empty(), Seq::empty())
}

/// The texts held by a sequence of character vectors.
pub open spec fn vecs_view(v: Seq<Vec<char>>) -> Seq<Seq<char>> {
    v.map_values(|w: Vec<char>| w@)
}

/// The texts held by a sequence of strings.
pub open spec fn strings_view(v: Seq<String>) -> Seq<Seq<char>> {
    v.map_values(|w: String| w@)
}

/// Splits a text into its words.
pub fn split_whitespace(s: &[char]) -> (r: Vec<Vec<char>>)
    ensures
        vecs_view(r@) == words(s@),
{
    let mut done: Vec<Vec<char>> = Vec::new();
    let mut cur: Vec<char> = Vec::new();
    let mut i: usize = 0;
    assert(s@.skip(0) =~= s@);
    assert(vecs_view(done@) =~= Seq::<Seq<char>>::empty());
    assert(cur@ =~= Seq::<char>::empty());
    while i < s.len()
        invariant
            i <= s@.len(),
            words(s@) == words_from(s@.skip(i as int), vecs_view(done@), cur@),
        decreases s@.len() - i,
    {
        let c = s[i];
        let ghost rest = s@.skip(i as int);
        let ghost done0 = vecs_view(done@);
        let ghost cur0 = cur@;
        assert(rest[0] == c);
        assert(rest.drop_first() =~= s@.skip(i + 1));
        assert(words_from(rest, done0, cur0) == (if is_whitespace(c) {
            words_from(s@.skip(i + 1), flush_word(done0, cur0), Seq::empty())
        } else {
            words_from(s@.skip(i + 1), done0, cur0.push(c))
        }));
        if char_is_whitespace(c) {
            if cur.len() > 0 {
                let ghost before = done@;
                let w = cur;
                done.push(w);
                cur = Vec::new();
                assert(vecs_view(done@) =~= vecs_view(before).push(w@));
            }
            assert(cur@ =~= Seq::<char>::empty());
        } else {
            cur.push(c);
        }
        i = i + 1;
    }
    if cur.len() > 0 {
        let ghost before = done@;
        let w = cur;
        done.push(w);
        assert(vecs_view(done@) =~= vecs_view(before).push(w@));
    }
    assert(s@.skip(i as int) =~= Seq::<char>::empty());
    assert(vecs_view(done@) =~= words(s@));
    done
}

} // verus!

verus! {

/// Decimal text of a 128-bit unsigned integer.
pub fn u128_to_string(n: u128) -> (s: String)
    ensures
        s@ == decimal(n as nat),
{
    let mut digits: Vec<char> = Vec::new();
    let mut m: u128 = n;
    loop
        invariant_except_break
            decimal(n as nat) == decimal(m as nat) + digits@.reverse(),
        ensures
            decimal(n as nat) == digits@.reverse(),
        decreases m,
    {
        let d: u128 = m % 10;
        let c: char = ((48u8 + (d as u8)) as char);
        assert(c == digit_char(d as nat));
        let ghost old_digits = digits@;
        digits.push(c);
        assert(digits@.reverse() =~= seq![c] + old_digits.reverse());
        if m < 10 {
            assert(decimal(m as nat) == seq![c]);
            assert(decimal(n as nat) =~= digits@.reverse());
            break;
        }
        assert(decimal(m as nat) == decimal((m / 10) as nat).push(c));
        m = m / 10;
        assert(decimal(n as nat) =~= decimal(m as nat) + digits@.reverse());
    }
    let mut s = String::new();
    let mut i: usize = digits.len();
    while i > 0
        invariant
            i <= digits@.len(),
            s@ == digits@.subrange(i as int, digits@.len() as int).reverse(),
        decreases i,
    {
        i = i - 1;
        s.push(digits[i]);
        assert(s@ =~= digits@.subrange(i as int, digits@.len() as int).reverse());
    }
    assert(digits@.subrange(0, digits@.len() as int) =~= digits@);
    s
}

/// A text with every occurrence of `pat` replaced by `rep`, scanning from the left and never
/// looking back into a replacement, as `str::replace` does.
pub open spec fn replace_all(s: Seq<char>, pat: Seq<char>, rep: Seq<char>) -> Seq<char>
    decreases s.len(),
{
    if pat.len() == 0 || s.len() < pat.len() {
        s
    } else if s.take(pat.len() as int) == pat {
        rep + replace_all(s.skip(pat.len() as int), pat, rep)
    } else {
        seq![s[0]] + replace_all(s.drop_first(), pat, rep)
    }
}

/// Replaces every occurrence of a nonempty pattern, as `str::replace` does.
pub fn replace_str(s: &str, pat: &str, rep: &str) -> (r: String)
    requires
        pat@.len() > 0,
    ensures
        r@ == replace_all(s@, pat@, rep@),
{
    let chars = chars_of(s);
    let p = chars_of(pat);
    let n = chars.len();
    let plen = p.len();
    let mut out = String::new();
    let mut i: usize = 0;
    assert(s@.skip(0) =~= s@);
    assert(out@ + replace_all(s@.skip(0), pat@, rep@) =~= replace_all(s@, pat@, rep@));
    while i < n
        invariant
            n == chars@.len(),
            plen == p@.len(),
            chars@ == s@,
            p@ == pat@,
            plen > 0,
            i <= n,
            out@ + replace_all(s@.skip(i as int), pat@, rep@) == replace_all(s@, pat@, rep@),
        decreases n - i,
    {
        let ghost rest = s@.skip(i as int);
        if plen <= n - i && matches_at(chars.as_slice(), p.as_slice(), i) {
            assert(rest.take(plen as int) =~= s@.subrange(i as int, i + plen));
            assert(rest.skip(plen as int) =~= s@.skip(i + plen));
            out.append(rep);
            i = i + plen;
            assert(out@ + replace_all(s@.skip(i as int), pat@, rep@) =~= replace_all(s@, pat@, rep@));
        } else {
            proof {
                if plen <= n - i {
                    assert(rest.take(plen as int) =~= s@.subrange(i as int, i + plen));
                }
                assert(rest.drop_first() =~= s@.skip(i + 1));
                if rest.len() < pat@.len() {
                    assert(replace_all(rest.drop_first(), pat@, rep@) == rest.drop_first());
                    assert(seq![rest[0]] + rest.drop_first() =~= rest);
                }
            }
            out.push(chars[i]);
            i = i + 1;
            assert(out@ + replace_all(s@.skip(i as int), pat@, rep@) =~= replace_all(s@, pat@, rep@));
        }
    }
    assert(s@.skip(i as int) =~= Seq::<char>::empty());
    out
}

} // verus!
