use vstd::prelude::*;
use vstd::string::StrSliceExecFns;
use vstd::string::StringExecFns;

verus! {

/// Concatenation of two string slices.
pub fn concat2(a: &str, b: &str) -> (r: String)
    ensures
        r@ == a@ + b@,
{
    let mut s = a.to_owned();
    s.append(b);
    s
}

/// Concatenation of three string slices.
pub fn concat3(a: &str, b: &str, c: &str) -> (r: String)
    ensures
        r@ == a@ + b@ + c@,
{
    let mut s = a.to_owned();
    s.append(b);
    s.append(c);
    s
}

/// Exact equality of two string slices, decided at the level of views.
pub fn str_eq(a: &str, b: &str) -> (r: bool)
    ensures
        r == (a@ == b@),
{
    let a2 = a.to_owned();
    let b2 = b.to_owned();
    a2 == b2
}

/// ASCII lower-casing of a single character, expressed on its code point.
pub open spec fn lower_u32(c: u32) -> u32 {
    if 65 <= c && c <= 90 {
        (c + 32) as u32
    } else {
        c
    }
}

/// Case-insensitive match of `s` against the (lower-case ASCII) keyword `kw`:
/// the two agree position by position once ASCII letters in `s` are lowered.
pub open spec fn keyword_matches(s: Seq<char>, kw: Seq<char>) -> bool {
    s.len() == kw.len() && (forall|i: int|
        0 <= i < s.len() ==> lower_u32(#[trigger] s[i] as u32) == kw[i] as u32)
}

/// Decides `keyword_matches` for a string against a keyword.
pub fn matches_keyword(s: &str, kw: &str) -> (r: bool)
    ensures
        r == keyword_matches(s@, kw@),
{
    let n = s.unicode_len();
    let m = kw.unicode_len();
    if n != m {
        return false;
    }
    let mut i: usize = 0;
    while i < n
        invariant
            i <= n,
            n == s@.len(),
            n == kw@.len(),
            forall|j: int| 0 <= j < i ==> lower_u32(#[trigger] s@[j] as u32) == kw@[j] as u32,
        decreases n - i,
    {
        let c = s.get_char(i) as u32;
        let k = kw.get_char(i) as u32;
        let lowered: u32 = if 65 <= c && c <= 90 {
            c + 32
        } else {
            c
        };
        if lowered != k {
            return false;
        }
        i = i + 1;
    }
    true
}

} // verus!
