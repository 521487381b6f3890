//! Small verified helpers on character sequences.
use vstd::prelude::*;
use vstd::string::StrSliceExecFns;

verus! {

/// Compares two string slices by their characters.
pub fn str_eq(a: &str, b: &str) -> (r: bool)
    ensures
        r == (a@ == b@),
{
    let x = String::from_str(a);
    let y = String::from_str(b);
    x == y
}

/// Builds an owned copy of a string slice.
pub fn owned(a: &str) -> (r: String)
    ensures
        r@ == a@,
{
    String::from_str(a)
}

} // verus!

verus! {

/// Bounds a diagnostic text: once it is longer than `max_bytes` bytes of
/// UTF-8, only its last `keep` characters remain.
pub open spec fn bounded_tail(s: Seq<char>, max_bytes: nat, keep: nat) -> Seq<char> {
    if vstd::utf8::encode_utf8(s).len() > max_bytes {
        let k = if keep < s.len() {
            keep
        } else {
            s.len()
        };
        s.subrange(s.len() - k, s.len() as int)
    } else {
        s
    }
}

/// Appends `text` to `s` and bounds the result as [`bounded_tail`] says.
pub fn append_bounded(s: String, text: &str, max_bytes: usize, keep: usize) -> (r: String)
    ensures
        r@ == bounded_tail(s@ + text@, max_bytes as nat, keep as nat),
{
    let mut s = s;
    s.append(text);
    let bytes = s.as_str().as_bytes().len();
    if bytes > max_bytes {
        let n = s.as_str().unicode_len();
        let k = if keep < n {
            keep
        } else {
            n
        };
        String::from_str(s.as_str().substring_char(n - k, n))
    } else {
        s
    }
}

} // verus!
