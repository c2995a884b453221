//! Small verified string utilities: exact comparison and ASCII
//! case-insensitive matching against lowercase keywords, used to decode
//! query-string selectors into enum values.

use vstd::prelude::*;
use vstd::string::StrSliceExecFns;

verus! {

/// Code point of `c` with ASCII upper-case letters folded to lower case.
pub open spec fn lower_code(c: char) -> int {
    if 65 <= c as u32 <= 90 {
        c as u32 + 32
    } else {
        c as u32 as int
    }
}

/// `s` equals the (lowercase ASCII) keyword `kw` up to ASCII case.
pub open spec fn matches_keyword(s: Seq<char>, kw: Seq<char>) -> bool {
    s.len() == kw.len() && forall|i: int| 0 <= i < s.len() ==> lower_code(s[i]) == kw[i] as u32
}

/// ASCII case-insensitive comparison of `s` against a lowercase keyword.
pub fn eq_ignore_ascii_case(s: &str, kw: &str) -> (r: bool)
    ensures
        r == matches_keyword(s@, kw@),
{
    let s_len = s.unicode_len();
    let kw_len = kw.unicode_len();
    if s_len != kw_len {
        return false;
    }
    let mut i: usize = 0;
    while i < s_len
        invariant
            i <= s_len,
            s_len == s@.len(),
            s_len == kw@.len(),
            forall|j: int| 0 <= j < i ==> lower_code(s@[j]) == kw@[j] as u32,
        decreases s_len - i,
    {
        let c = s.get_char(i);
        let k = kw.get_char(i);
        let code: u32 = c as u32;
        let folded: u32 = if 65 <= code && code <= 90 {
            code + 32
        } else {
            code
        };
        if folded != k as u32 {
            return false;
        }
        i += 1;
    }
    true
}

/// Exact character-for-character string equality.
pub fn str_eq(s: &str, t: &str) -> (r: bool)
    ensures
        r == (s@ == t@),
{
    let s_len = s.unicode_len();
    let t_len = t.unicode_len();
    if s_len != t_len {
        return false;
    }
    let mut i: usize = 0;
    while i < s_len
        invariant
            i <= s_len,
            s_len == s@.len(),
            s_len == t@.len(),
            forall|j: int| 0 <= j < i ==> s@[j] == t@[j],
        decreases s_len - i,
    {
        if s.get_char(i) != t.get_char(i) {
            return false;
        }
        i += 1;
    }
    proof {
        assert(s@ =~= t@);
    }
    true
}

} // verus!
