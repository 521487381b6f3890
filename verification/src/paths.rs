//! Lexical rules for artifact paths below the session's artifact directory.
use vstd::prelude::*;

verus! {

/// Byte of `/`.
pub open spec fn slash() -> u8 {
    47
}

/// Whether a `/`-separated segment starts at byte `i`.
pub open spec fn segment_start(b: Seq<u8>, i: int) -> bool {
    i == 0 || b[i - 1] == slash()
}

/// Whether a segment ends just before byte `j`.
pub open spec fn segment_end(b: Seq<u8>, j: int) -> bool {
    j == b.len() || b[j] == slash()
}

/// Whether the segment starting at `i` is empty, `.` or `..`.
pub open spec fn bad_segment_at(b: Seq<u8>, i: int) -> bool {
    &&& segment_start(b, i)
    &&& {
        ||| segment_end(b, i)
        ||| (i < b.len() && b[i] == 46 && segment_end(b, i + 1))
        ||| (i + 1 < b.len() && b[i] == 46 && b[i + 1] == 46 && segment_end(b, i + 2))
    }
}

/// Whether `b` ends with `ext`.
pub open spec fn ends_with(b: Seq<u8>, ext: Seq<u8>) -> bool {
    b.len() >= ext.len() && b.subrange(b.len() - ext.len(), b.len() as int) == ext
}

/// A non-empty relative path with the given extension, without backslashes or NUL
/// bytes, without a drive prefix such as `C:`, and whose `/`-separated segments
/// are neither empty nor `.` nor `..`.
pub open spec fn normalized_relative(b: Seq<u8>, ext: Seq<u8>) -> bool {
    &&& b.len() > 0
    &&& ends_with(b, ext)
    &&& forall|i: int| 0 <= i < b.len() ==> b[i] != 92 && b[i] != 0
    &&& !(b.len() > 1 && b[1] == 58)
    &&& forall|i: int| 0 <= i <= b.len() ==> !#[trigger] bad_segment_at(b, i)
}

fn bad_segment(b: &[u8], i: usize) -> (r: bool)
    requires
        i <= b@.len(),
    ensures
        r == bad_segment_at(b@, i as int),
{
    let n = b.len();
    let start = i == 0 || b[i - 1] == 47;
    if !start {
        return false;
    }
    let empty = i == n || b[i] == 47;
    let dot = i < n && b[i] == 46 && (i + 1 == n || b[i + 1] == 47);
    let dots = i < n && i + 1 < n && b[i] == 46 && b[i + 1] == 46 && (i + 2 == n || b[i + 2] == 47);
    empty || dot || dots
}

/// Whether a path, as bytes, is a normalized relative path with extension `ext`.
pub fn is_normalized_relative(b: &[u8], ext: &[u8]) -> (r: bool)
    ensures
        r == normalized_relative(b@, ext@),
{
    let n = b.len();
    if n == 0 {
        return false;
    }
    let m = ext.len();
    if n < m {
        return false;
    }
    let mut k: usize = 0;
    while k < m
        invariant
            n == b@.len(),
            m == ext@.len(),
            m <= n,
            k <= m,
            forall|j: int| 0 <= j < k ==> b@[n - m + j] == ext@[j],
        decreases m - k,
    {
        if b[n - m + k] != ext[k] {
            assert(b@.subrange(n - m, n as int)[k as int] != ext@[k as int]);
            return false;
        }
        k = k + 1;
    }
    assert(b@.subrange(n - m, n as int) =~= ext@);
    let mut i: usize = 0;
    while i < n
        invariant
            n == b@.len(),
            i <= n,
            forall|j: int| 0 <= j < i ==> b@[j] != 92 && b@[j] != 0,
        decreases n - i,
    {
        if b[i] == 92 || b[i] == 0 {
            return false;
        }
        i = i + 1;
    }
    if n > 1 && b[1] == 58 {
        return false;
    }
    let mut s: usize = 0;
    while s < n
        invariant
            n == b@.len(),
            s <= n,
            forall|j: int| 0 <= j < s ==> !#[trigger] bad_segment_at(b@, j),
        decreases n - s,
    {
        if bad_segment(b, s) {
            return false;
        }
        s = s + 1;
    }
    !bad_segment(b, n)
}

} // verus!
