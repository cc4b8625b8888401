//! Character-level toolkit the extraction grammar is built on: character
//! classes, maximal runs, literal matching, and conversions between strings
//! and character vectors.

use vstd::prelude::*;
use vstd::string::StrSliceExecFns;

verus! {

/// A decimal digit.
pub open spec fn is_digit_char(c: char) -> bool {
    '0' <= c && c <= '9'
}

/// An ASCII letter.
pub open spec fn is_letter_char(c: char) -> bool {
    ('a' <= c && c <= 'z') || ('A' <= c && c <= 'Z')
}

/// A letter or digit.
pub open spec fn is_alnum_char(c: char) -> bool {
    is_digit_char(c) || is_letter_char(c)
}

/// A character the site allows in the name segment of a detail path.
pub open spec fn is_name_char(c: char) -> bool {
    is_alnum_char(c) || c == '-' || c == '_' || c == '+' || c == '!' || c == '@' || c == '#'
        || c == '$' || c == '%' || c == '^' || c == '&' || c == '*' || c == '(' || c == ')'
}

/// A hexadecimal digit, as used in torrent info hashes.
pub open spec fn is_hex_char(c: char) -> bool {
    is_digit_char(c) || ('a' <= c && c <= 'f') || ('A' <= c && c <= 'F')
}

/// A character of the base32 alphabet (any letter, or a digit 2 through 7).
pub open spec fn is_base32_char(c: char) -> bool {
    is_letter_char(c) || ('2' <= c && c <= '7')
}

/// A character a magnet URI's tracker/parameter section may contain.
pub open spec fn is_param_char(c: char) -> bool {
    is_alnum_char(c) || c == '!' || c == '@' || c == '#' || c == '$' || c == '%' || c == '^'
        || c == '&' || c == '*' || c == '=' || c == '+' || c == '.' || c == '-' || c == '_'
        || c == '(' || c == ')'
}

/// The character classes the grammar scans runs of.
#[derive(Clone, Copy, Debug)]
pub enum CharClass {
    /// Decimal digits.
    Digit,
    /// Letters and digits.
    Alnum,
    /// Characters allowed in a detail-path name segment.
    Name,
    /// Hexadecimal digits.
    Hex,
    /// The base32 alphabet.
    Base32,
    /// Characters of a magnet URI's parameter section.
    Param,
}

/// Membership of a character in one of the grammar's classes.
pub open spec fn in_class(cls: CharClass, c: char) -> bool {
    match cls {
        CharClass::Digit => is_digit_char(c),
        CharClass::Alnum => is_alnum_char(c),
        CharClass::Name => is_name_char(c),
        CharClass::Hex => is_hex_char(c),
        CharClass::Base32 => is_base32_char(c),
        CharClass::Param => is_param_char(c),
    }
}

/// Class membership, decided in executable code.
pub fn char_in_class(cls: CharClass, c: char) -> (b: bool)
    ensures
        b == in_class(cls, c),
{
    match cls {
        CharClass::Digit => '0' <= c && c <= '9',
        CharClass::Alnum => ('0' <= c && c <= '9') || ('a' <= c && c <= 'z') || ('A' <= c && c
            <= 'Z'),
        CharClass::Name => ('0' <= c && c <= '9') || ('a' <= c && c <= 'z') || ('A' <= c && c
            <= 'Z') || c == '-' || c == '_' || c == '+'
            || c == '!' || c == '@' || c == '#' || c == '$' || c == '%' || c == '^' || c == '&'
            || c == '*' || c == '(' || c == ')',
        CharClass::Hex => ('0' <= c && c <= '9') || ('a' <= c && c <= 'f') || ('A' <= c && c
            <= 'F'),
        CharClass::Base32 => ('a' <= c && c <= 'z') || ('A' <= c && c <= 'Z') || ('2' <= c && c
            <= '7'),
        CharClass::Param => ('0' <= c && c <= '9') || ('a' <= c && c <= 'z') || ('A' <= c && c
            <= 'Z') || c == '!' || c == '@' || c == '#'
            || c == '$' || c == '%' || c == '^' || c == '&' || c == '*' || c == '=' || c == '+'
            || c == '.' || c == '-' || c == '_' || c == '(' || c == ')',
    }
}

/// Where the maximal run of class `cls` characters starting at `i` ends:
/// the first position at or after `i` holding no such character.
pub open spec fn run_end(s: Seq<char>, cls: CharClass, i: int) -> int
    decreases s.len() - i
    when 0 <= i <= s.len()
{
    if i < s.len() && in_class(cls, s[i]) {
        run_end(s, cls, i + 1)
    } else {
        i
    }
}

/// The maximal run lies within the text, consists of class characters only,
/// and is followed by none.
pub proof fn lemma_run_end(s: Seq<char>, cls: CharClass, i: int)
    requires
        0 <= i <= s.len(),
    ensures
        i <= run_end(s, cls, i) <= s.len(),
        forall|k: int| i <= k < run_end(s, cls, i) ==> in_class(cls, s[k]),
        run_end(s, cls, i) < s.len() ==> !in_class(cls, s[run_end(s, cls, i)]),
    decreases s.len() - i,
{
    if i < s.len() && in_class(cls, s[i]) {
        lemma_run_end(s, cls, i + 1);
    }
}

/// Computes `run_end` on a character vector.
pub fn class_run_end(v: &Vec<char>, cls: CharClass, i: usize) -> (e: usize)
    requires
        i <= v@.len(),
    ensures
        e == run_end(v@, cls, i as int),
        i <= e <= v@.len(),
{
    let mut j = i;
    while j < v.len() && char_in_class(cls, v[j])
        invariant
            i <= j <= v@.len(),
            run_end(v@, cls, i as int) == run_end(v@, cls, j as int),
        decreases v@.len() - j,
    {
        j = j + 1;
    }
    proof {
        lemma_run_end(v@, cls, i as int);
    }
    j
}

/// The literal `lit` occurs in `s` at position `i`.
pub open spec fn lit_match(s: Seq<char>, i: int, lit: Seq<char>) -> bool {
    &&& 0 <= i
    &&& i + lit.len() <= s.len()
    &&& forall|k: int| 0 <= k < lit.len() ==> s[i + k] == lit[k]
}

/// Decides `lit_match` on character vectors.
pub fn lit_at(v: &Vec<char>, i: usize, lit: &Vec<char>) -> (b: bool)
    ensures
        b == lit_match(v@, i as int, lit@),
{
    if lit.len() > v.len() || i > v.len() - lit.len() {
        return false;
    }
    let mut k: usize = 0;
    while k < lit.len()
        invariant
            k <= lit@.len(),
            i + lit@.len() <= v@.len(),
            v@.len() <= usize::MAX,
            forall|t: int| 0 <= t < k ==> v@[i + t] == lit@[t],
        decreases lit@.len() - k,
    {
        if v[i + k] != lit[k] {
            return false;
        }
        k = k + 1;
    }
    true
}

/// The characters of `s`, in order, as a vector.
pub fn to_chars(s: &str) -> (v: Vec<char>)
    ensures
        v@ == s@,
{
    let n = s.unicode_len();
    let mut v: Vec<char> = Vec::new();
    let mut i: usize = 0;
    while i < n
        invariant
            n == s@.len(),
            i <= n,
            v@ == s@.subrange(0, i as int),
        decreases n - i,
    {
        let c = s.get_char(i);
        v.push(c);
        proof {
            assert(v@ =~= s@.subrange(0, i + 1 as int));
        }
        i = i + 1;
    }
    proof {
        assert(v@ =~= s@);
    }
    v
}

/// Relies on `String::push`: appends exactly the given character.
#[verifier::external_body]
pub(crate) fn push_char(s: &mut String, c: char)
    ensures
        final(s)@ == old(s)@.push(c),
{
    s.push(c);
}

/// A `String` holding exactly the characters of `v`, in order.
pub fn chars_to_string(v: &Vec<char>) -> (s: String)
    ensures
        s@ == v@,
{
    let mut s = String::new();
    let mut i: usize = 0;
    while i < v.len()
        invariant
            i <= v@.len(),
            s@ == v@.subrange(0, i as int),
        decreases v@.len() - i,
    {
        push_char(&mut s, v[i]);
        proof {
            assert(s@ =~= v@.subrange(0, i + 1 as int));
        }
        i = i + 1;
    }
    proof {
        assert(s@ =~= v@);
    }
    s
}

/// The characters of `v` from `a` (inclusive) to `b` (exclusive), as a
/// fresh vector.
pub fn copy_range(v: &Vec<char>, a: usize, b: usize) -> (o: Vec<char>)
    requires
        a <= b <= v@.len(),
    ensures
        o@ == v@.subrange(a as int, b as int),
{
    let mut o: Vec<char> = Vec::new();
    let mut i = a;
    while i < b
        invariant
            a <= i <= b <= v@.len(),
            o@ == v@.subrange(a as int, i as int),
        decreases b - i,
    {
        o.push(v[i]);
        proof {
            assert(o@ =~= v@.subrange(a as int, i + 1 as int));
        }
        i = i + 1;
    }
    o
}

/// Numeric value of a decimal digit character.
pub open spec fn digit_value(c: char) -> int {
    c as int - '0' as int
}

/// Computes the value of a decimal digit.
pub fn digit_to_usize(c: char) -> (n: usize)
    requires
        is_digit_char(c),
    ensures
        n == digit_value(c),
        n <= 9,
{
    (c as u32 - '0' as u32) as usize
}

/// Value of the decimal numeral written at `s[from..to]`, most significant
/// digit first.
pub open spec fn digits_value(s: Seq<char>, from: int, to: int) -> int
    decreases to - from,
{
    if to <= from {
        0
    } else {
        digits_value(s, from, to - 1) * 10 + digit_value(s[to - 1])
    }
}

/// A numeral's value is non-negative.
pub proof fn lemma_digits_value_nonneg(s: Seq<char>, from: int, to: int)
    requires
        forall|k: int| from <= k < to ==> is_digit_char(s[k]),
    ensures
        digits_value(s, from, to) >= 0,
    decreases to - from,
{
    if to > from {
        lemma_digits_value_nonneg(s, from, to - 1);
    }
}

/// A numeral's value only grows as digits are appended on the right.
pub proof fn lemma_digits_value_grows(s: Seq<char>, from: int, mid: int, to: int)
    requires
        from <= mid <= to,
        forall|k: int| from <= k < to ==> is_digit_char(s[k]),
    ensures
        digits_value(s, from, mid) <= digits_value(s, from, to),
    decreases to - mid,
{
    if mid < to {
        lemma_digits_value_grows(s, from, mid, to - 1);
        lemma_digits_value_nonneg(s, from, to - 1);
    }
}

/// Parses the decimal numeral at `v[from..to]` as a `usize`; a value the
/// machine word cannot hold is `None`.
pub fn digits_to_usize(v: &Vec<char>, from: usize, to: usize) -> (r: Option<usize>)
    requires
        from <= to <= v@.len(),
        forall|k: int| from <= k < to ==> is_digit_char(v@[k]),
    ensures
        digits_value(v@, from as int, to as int) <= usize::MAX ==> (r matches Some(n) && n
            == digits_value(v@, from as int, to as int)),
        digits_value(v@, from as int, to as int) > usize::MAX ==> r is None,
{
    let mut acc: usize = 0;
    let mut k = from;
    while k < to
        invariant
            from <= k <= to <= v@.len(),
            forall|t: int| from <= t < to ==> is_digit_char(v@[t]),
            acc == digits_value(v@, from as int, k as int),
        decreases to - k,
    {
        let d = digit_to_usize(v[k]);
        let next = match acc.checked_mul(10) {
            Some(p) => p.checked_add(d),
            None => None,
        };
        match next {
            Some(x) => {
                acc = x;
            },
            None => {
                proof {
                    lemma_digits_value_grows(v@, from as int, k + 1 as int, to as int);
                }
                return None;
            },
        }
        k = k + 1;
    }
    Some(acc)
}

} // verus!
