//! Character-level text helpers shared by the lexer and the token tables.

use vstd::prelude::*;

verus! {

/// Whether `c` is an ASCII letter. Identifiers and the alphabetic operator
/// spellings are built exclusively from these.
pub open spec fn spec_is_alpha(c: char) -> bool {
    (97 <= c as u32 && c as u32 <= 122) || (65 <= c as u32 && c as u32 <= 90)
}

/// Whether `c` is an ASCII digit.
pub open spec fn spec_is_digit(c: char) -> bool {
    48 <= c as u32 && c as u32 <= 57
}

/// Whether the pattern `w` occurs in `s` starting at position `i`.
pub open spec fn matches_at(s: Seq<char>, i: int, w: Seq<char>) -> bool {
    0 <= i && i + w.len() <= s.len() && s.subrange(i, i + w.len()) == w
}

/// Executable form of [`spec_is_alpha`].
pub fn is_alpha(c: char) -> (r: bool)
    ensures
        r == spec_is_alpha(c),
{
    let u = c as u32;
    (97 <= u && u <= 122) || (65 <= u && u <= 90)
}

/// Executable form of [`spec_is_digit`].
pub fn is_digit(c: char) -> (r: bool)
    ensures
        r == spec_is_digit(c),
{
    let u = c as u32;
    48 <= u && u <= 57
}

/// Whether two string slices hold the same characters.
pub fn str_eq(a: &str, b: &str) -> (r: bool)
    ensures
        r == (a@ == b@),
{
    let a_len = a.unicode_len();
    let b_len = b.unicode_len();
    if a_len != b_len {
        return false;
    }
    let mut j: usize = 0;
    while j < a_len
        invariant
            a_len == a@.len(),
            b_len == b@.len(),
            a_len == b_len,
            0 <= j <= a_len,
            forall|k: int| 0 <= k < j ==> a@[k] == b@[k],
        decreases a_len - j,
    {
        if a.get_char(j) != b.get_char(j) {
            return false;
        }
        j += 1;
    }
    proof {
        assert(a@ =~= b@);
    }
    true
}

/// Whether the pattern `pat` occurs in `line` starting at character `i`.
pub fn match_at(line: &str, i: usize, pat: &str) -> (r: bool)
    ensures
        r == matches_at(line@, i as int, pat@),
{
    let line_len = line.unicode_len();
    let pat_len = pat.unicode_len();
    if i > line_len || pat_len > line_len - i {
        return false;
    }
    let mut j: usize = 0;
    while j < pat_len
        invariant
            line_len == line@.len(),
            pat_len == pat@.len(),
            i + pat_len <= line_len,
            0 <= j <= pat_len,
            forall|k: int| 0 <= k < j ==> line@[i + k] == pat@[k],
        decreases pat_len - j,
    {
        if line.get_char(i + j) != pat.get_char(j) {
            return false;
        }
        j += 1;
    }
    proof {
        assert(line@.subrange(i as int, i + pat@.len()) =~= pat@);
    }
    true
}

} // verus!
