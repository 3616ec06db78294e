//! Character classification and sequence matching, case-sensitive and
//! ASCII-case-insensitive, used by the name extractor and the validator.

use vstd::prelude::*;
use vstd::string::StrSliceExecFns;

verus! {

/// A character the extracted project name may keep: ASCII letters,
/// digits, `-` and `_`. Every other character is replaced by `_`.
pub open spec fn name_char(c: char) -> bool {
    (('a' as u32) <= (c as u32) && (c as u32) <= ('z' as u32)) || (('A' as u32) <= (c as u32)
        && (c as u32) <= ('Z' as u32)) || (('0' as u32) <= (c as u32) && (c as u32) <= ('9'
        as u32)) || c == '-' || c == '_'
}

/// `a` is the ASCII uppercase form of `b`.
pub open spec fn upper_of(a: char, b: char) -> bool {
    ('A' as u32) <= (a as u32) && (a as u32) <= ('Z' as u32) && (a as u32) + 32 == (b as u32)
}

/// ASCII-case-insensitive character equality.
pub open spec fn ci_eq(a: char, b: char) -> bool {
    a == b || upper_of(a, b) || upper_of(b, a)
}

/// `s` starts with `p` (case-sensitive).
pub open spec fn has_prefix(s: Seq<char>, p: Seq<char>) -> bool {
    p.len() <= s.len() && s.subrange(0, p.len() as int) == p
}

/// `p` occurs in `s` at offset `i`, compared ASCII-case-insensitively.
pub open spec fn ci_match_at(s: Seq<char>, p: Seq<char>, i: int) -> bool {
    0 <= i && i + p.len() <= s.len() && (forall|j: int|
        0 <= j < p.len() ==> ci_eq(s[i + j], p[j]))
}

/// `s` starts with `p`, compared ASCII-case-insensitively.
pub open spec fn ci_has_prefix(s: Seq<char>, p: Seq<char>) -> bool {
    ci_match_at(s, p, 0)
}

/// `s` ends with `p`, compared ASCII-case-insensitively.
pub open spec fn ci_has_suffix(s: Seq<char>, p: Seq<char>) -> bool {
    p.len() <= s.len() && ci_match_at(s, p, s.len() - p.len())
}

/// `p` occurs somewhere in `s`, compared ASCII-case-insensitively.
pub open spec fn ci_has_substring(s: Seq<char>, p: Seq<char>) -> bool {
    exists|i: int| ci_match_at(s, p, i)
}

/// The characters of `s`, in order, as a vector.
pub fn str_chars(s: &str) -> (r: Vec<char>)
    ensures
        r@ == s@,
{
    let n = s.unicode_len();
    let mut r: Vec<char> = Vec::new();
    let mut i: usize = 0;
    while i < n
        invariant
            i <= n,
            n == s@.len(),
            r@ == s@.subrange(0, i as int),
        decreases n - i,
    {
        r.push(s.get_char(i));
        proof {
            assert(r@ =~= s@.subrange(0, i + 1));
        }
        i += 1;
    }
    proof {
        assert(r@ =~= s@);
    }
    r
}

/// Relies on `String::push`: appends exactly the given character.
#[verifier::external_body]
pub(crate) fn push_char(s: &mut String, c: char)
    ensures
        final(s)@ == old(s)@.push(c),
{
    s.push(c);
}

pub fn is_name_char(c: char) -> (r: bool)
    ensures
        r == name_char(c),
{
    let u = c as u32;
    (97 <= u && u <= 122) || (65 <= u && u <= 90) || (48 <= u && u <= 57) || u == 45 || u == 95
}

fn ci_eq_chars(a: char, b: char) -> (r: bool)
    ensures
        r == ci_eq(a, b),
{
    let ua = a as u32;
    let ub = b as u32;
    ua == ub || (65 <= ua && ua <= 90 && ua + 32 == ub) || (65 <= ub && ub <= 90 && ub + 32 == ua)
}

pub fn chars_have_prefix(s: &Vec<char>, p: &str) -> (r: bool)
    ensures
        r == has_prefix(s@, p@),
{
    let n = p.unicode_len();
    if s.len() < n {
        return false;
    }
    let mut j: usize = 0;
    while j < n
        invariant
            j <= n,
            n == p@.len(),
            n <= s@.len(),
            forall|k: int| 0 <= k < j ==> s@[k] == p@[k],
        decreases n - j,
    {
        if s[j] != p.get_char(j) {
            proof {
                if has_prefix(s@, p@) {
                    assert(s@.subrange(0, p@.len() as int)[j as int] == p@[j as int]);
                }
            }
            return false;
        }
        j += 1;
    }
    proof {
        assert(s@.subrange(0, p@.len() as int) =~= p@);
    }
    true
}

fn ci_match_here(s: &Vec<char>, p: &str, i: usize) -> (r: bool)
    requires
        i + p@.len() <= s@.len(),
    ensures
        r == ci_match_at(s@, p@, i as int),
{
    let n = p.unicode_len();
    let slen = s.len();
    let mut j: usize = 0;
    while j < n
        invariant
            j <= n,
            n == p@.len(),
            i + n <= s@.len(),
            s@.len() == slen,
            forall|k: int| 0 <= k < j ==> ci_eq(s@[i + k], p@[k]),
        decreases n - j,
    {
        if !ci_eq_chars(s[i + j], p.get_char(j)) {
            return false;
        }
        j += 1;
    }
    true
}

pub fn chars_have_ci_prefix(s: &Vec<char>, p: &str) -> (r: bool)
    ensures
        r == ci_has_prefix(s@, p@),
{
    let n = p.unicode_len();
    if s.len() < n {
        return false;
    }
    ci_match_here(s, p, 0)
}

pub fn chars_have_ci_suffix(s: &Vec<char>, p: &str) -> (r: bool)
    ensures
        r == ci_has_suffix(s@, p@),
{
    let n = p.unicode_len();
    if s.len() < n {
        return false;
    }
    ci_match_here(s, p, s.len() - n)
}

pub fn chars_have_ci_substring(s: &Vec<char>, p: &str) -> (r: bool)
    ensures
        r == ci_has_substring(s@, p@),
{
    let n = p.unicode_len();
    if s.len() < n {
        proof {
            assert(forall|i: int| !ci_match_at(s@, p@, i));
        }
        return false;
    }
    if n == 0 {
        proof {
            assert(ci_match_at(s@, p@, 0));
        }
        return true;
    }
    let last = s.len() - n;
    let mut i: usize = 0;
    while i <= last
        invariant
            i <= last + 1,
            last + n == s@.len(),
            s@.len() <= usize::MAX,
            n == p@.len(),
            1 <= n,
            forall|k: int| 0 <= k < i ==> !ci_match_at(s@, p@, k),
        decreases last + 1 - i,
    {
        if ci_match_here(s, p, i) {
            proof {
                assert(ci_match_at(s@, p@, i as int));
            }
            return true;
        }
        i += 1;
    }
    proof {
        assert forall|k: int| !ci_match_at(s@, p@, k) by {
            if 0 <= k < i {
                assert(!ci_match_at(s@, p@, k));
            }
        }
    }
    false
}

} // verus!
