//! Character classes and case-insensitive matching used by the
//! title normalizer, the content normalizer and the query sanitizer.

use vstd::prelude::*;

verus! {

/// An ASCII decimal digit.
pub open spec fn is_digit_char(c: char) -> bool {
    48 <= c as u32 <= 57
}

/// A character retained by query sanitization: ASCII alphanumeric or space.
pub open spec fn is_query_char(c: char) -> bool {
    ||| is_digit_char(c)
    ||| 65 <= c as u32 <= 90
    ||| 97 <= c as u32 <= 122
    ||| c == ' '
}

/// A whitespace character in the sense of `str::trim` (the Unicode
/// `White_Space` property).
pub open spec fn is_ws_char(c: char) -> bool {
    let u = c as u32;
    ||| 0x9 <= u <= 0xD
    ||| u == 0x20
    ||| u == 0x85
    ||| u == 0xA0
    ||| u == 0x1680
    ||| 0x2000 <= u <= 0x200A
    ||| u == 0x2028
    ||| u == 0x2029
    ||| u == 0x202F
    ||| u == 0x205F
    ||| u == 0x3000
}

/// `c` maps to `l` under ASCII lowercasing, where `l` is itself not an
/// ASCII upper-case letter.
pub open spec fn lowers_to(c: char, l: char) -> bool {
    ||| c == l
    ||| (97 <= l as u32 <= 122 && c as u32 + 32 == l as u32)
}

/// `s` equals `t` after ASCII lowercasing of `s`; `t` is expected to hold
/// no ASCII upper-case letter.
pub open spec fn matches_ci(s: Seq<char>, t: Seq<char>) -> bool {
    s.len() == t.len() && forall|i: int| 0 <= i < s.len() ==> lowers_to(s[i], #[trigger] t[i])
}

/// `s` begins with `t` after ASCII lowercasing of `s`.
pub open spec fn starts_with_ci(s: Seq<char>, t: Seq<char>) -> bool {
    s.len() >= t.len() && matches_ci(s.subrange(0, t.len() as int), t)
}

pub fn check_digit(c: char) -> (b: bool)
    ensures
        b == is_digit_char(c),
{
    let u = c as u32;
    48 <= u && u <= 57
}

pub fn check_query_char(c: char) -> (b: bool)
    ensures
        b == is_query_char(c),
{
    let u = c as u32;
    (48 <= u && u <= 57) || (65 <= u && u <= 90) || (97 <= u && u <= 122) || u == 32
}

pub fn check_ws(c: char) -> (b: bool)
    ensures
        b == is_ws_char(c),
{
    let u = c as u32;
    (0x9 <= u && u <= 0xD) || u == 0x20 || u == 0x85 || u == 0xA0 || u == 0x1680 || (0x2000 <= u
        && u <= 0x200A) || u == 0x2028 || u == 0x2029 || u == 0x202F || u == 0x205F || u == 0x3000
}

pub fn check_lowers_to(c: char, l: char) -> (b: bool)
    ensures
        b == lowers_to(c, l),
{
    let cu = c as u32;
    let lu = l as u32;
    cu == lu || (97 <= lu && lu <= 122 && lu - 32 == cu)
}

/// `s` equals the expected label `t` up to ASCII case of `s`.
pub fn eq_ignore_case(s: &str, t: &str) -> (b: bool)
    ensures
        b == matches_ci(s@, t@),
{
    let n = s.unicode_len();
    if n != t.unicode_len() {
        return false;
    }
    let mut i: usize = 0;
    while i < n
        invariant
            i <= n,
            n == s@.len(),
            n == t@.len(),
            forall|j: int| 0 <= j < i ==> lowers_to(s@[j], #[trigger] t@[j]),
        decreases n - i,
    {
        if !check_lowers_to(s.get_char(i), t.get_char(i)) {
            assert(!lowers_to(s@[i as int], t@[i as int]));
            return false;
        }
        i += 1;
    }
    true
}

/// `s` begins with the expected label `t` up to ASCII case of `s`.
pub fn starts_with_ignore_case(s: &str, t: &str) -> (b: bool)
    ensures
        b == starts_with_ci(s@, t@),
{
    let n = s.unicode_len();
    let m = t.unicode_len();
    if n < m {
        return false;
    }
    let mut i: usize = 0;
    while i < m
        invariant
            i <= m,
            m <= n,
            n == s@.len(),
            m == t@.len(),
            forall|j: int| 0 <= j < i ==> lowers_to(s@[j], #[trigger] t@[j]),
        decreases m - i,
    {
        if !check_lowers_to(s.get_char(i), t.get_char(i)) {
            assert(!lowers_to(s@.subrange(0, t@.len() as int)[i as int], t@[i as int]));
            return false;
        }
        i += 1;
    }
    assert(forall|j: int| 0 <= j < t@.len() ==> lowers_to(
        s@.subrange(0, t@.len() as int)[j],
        #[trigger] t@[j],
    ));
    true
}

/// Relies on `String::push`: appends one character at the end.
#[verifier::external_body]
pub fn push_char(s: &mut String, c: char)
    ensures
        final(s)@ == old(s)@.push(c),
{
    s.push(c);
}

} // verus!
