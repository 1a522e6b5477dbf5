//! Diff extraction: the ordered list of differing-byte records produced once
//! from two byte buffers and consumed by every other component.

use vstd::prelude::*;
use vstd::math::{max, min};

verus! {

/// The byte values of a diff list, in diff-list order.
pub open spec fn diff_bytes(ds: Seq<(usize, u8)>) -> Seq<u8> {
    ds.map(|_i, p: (usize, u8)| p.1)
}

/// The diff entries produced by the first `n` positions: inside the
/// overlapping range a position contributes `(i, a[i])` exactly when the
/// buffers disagree there; past the shorter buffer, the longer one's byte is
/// always contributed.
pub open spec fn diff_upto(a: Seq<u8>, b: Seq<u8>, n: int) -> Seq<(usize, u8)>
    decreases n,
{
    if n <= 0 {
        Seq::empty()
    } else {
        let i = n - 1;
        let prefix = diff_upto(a, b, i);
        if i < min(a.len() as int, b.len() as int) {
            if a[i] != b[i] {
                prefix.push((i as usize, a[i]))
            } else {
                prefix
            }
        } else if i < a.len() {
            prefix.push((i as usize, a[i]))
        } else if i < b.len() {
            prefix.push((i as usize, b[i]))
        } else {
            prefix
        }
    }
}

/// The whole diff of two byte buffers.
pub open spec fn spec_diff(a: Seq<u8>, b: Seq<u8>) -> Seq<(usize, u8)> {
    diff_upto(a, b, max(a.len() as int, b.len() as int))
}

/// The entries the longer buffer contributes past the end of the shorter one.
pub open spec fn tail_entries(a: Seq<u8>, b: Seq<u8>) -> Seq<(usize, u8)> {
    if a.len() >= b.len() {
        Seq::new((a.len() - b.len()) as nat, |k: int| ((b.len() + k) as usize, a[b.len() + k]))
    } else {
        Seq::new((b.len() - a.len()) as nat, |k: int| ((a.len() + k) as usize, b[a.len() + k]))
    }
}

/// Compare two byte buffers and return the diff list: for each position in
/// the overlapping range where the buffers disagree, the index and the first
/// buffer's byte; followed by every excess byte of the longer buffer at its
/// own index.
pub fn diff_files(file1: &[u8], file2: &[u8]) -> (r: Vec<(usize, u8)>)
    ensures
        r@ == spec_diff(file1@, file2@),
{
    let mut out: Vec<(usize, u8)> = Vec::new();
    let lo = if file1.len() <= file2.len() {
        file1.len()
    } else {
        file2.len()
    };
    let mut i: usize = 0;
    while i < lo
        invariant
            lo == min(file1@.len() as int, file2@.len() as int),
            i <= lo,
            out@ == diff_upto(file1@, file2@, i as int),
        decreases lo - i,
    {
        if file1[i] != file2[i] {
            out.push((i, file1[i]));
        }
        assert(out@ == diff_upto(file1@, file2@, i + 1 as int));
        i = i + 1;
    }
    while i < file1.len()
        invariant
            lo == min(file1@.len() as int, file2@.len() as int),
            lo <= i,
            i <= file1@.len() || i == lo,
            out@ == diff_upto(file1@, file2@, i as int),
        decreases file1@.len() - i,
    {
        out.push((i, file1[i]));
        assert(out@ == diff_upto(file1@, file2@, i + 1 as int));
        i = i + 1;
    }
    proof {
        assert(i == file1@.len());
    }
    while i < file2.len()
        invariant
            lo == min(file1@.len() as int, file2@.len() as int),
            file1@.len() <= i,
            i <= file2@.len() || i == file1@.len(),
            out@ == diff_upto(file1@, file2@, i as int),
        decreases file2@.len() - i,
    {
        out.push((i, file2[i]));
        assert(out@ == diff_upto(file1@, file2@, i + 1 as int));
        i = i + 1;
    }
    proof {
        assert(i == max(file1@.len() as int, file2@.len() as int));
    }
    out
}

/// A buffer diffed against itself produces no entries.
pub proof fn lemma_diff_self(a: Seq<u8>)
    ensures
        spec_diff(a, a) == Seq::<(usize, u8)>::empty(),
{
    lemma_diff_upto_self(a, a.len() as int);
}

proof fn lemma_diff_upto_self(a: Seq<u8>, n: int)
    requires
        n <= a.len(),
    ensures
        diff_upto(a, a, n) == Seq::<(usize, u8)>::empty(),
    decreases n,
{
    if n > 0 {
        lemma_diff_upto_self(a, n - 1);
    }
}

/// When the buffers differ in length, the diff is the overlapping-range
/// mismatches followed by exactly `|a.len() - b.len()|` tail entries, one for
/// each excess byte of the longer buffer.
pub proof fn lemma_diff_tail(a: Seq<u8>, b: Seq<u8>)
    ensures
        spec_diff(a, b) == diff_upto(a, b, min(a.len() as int, b.len() as int)) + tail_entries(
            a,
            b,
        ),
        tail_entries(a, b).len() == if a.len() >= b.len() {
            a.len() - b.len()
        } else {
            b.len() - a.len()
        },
{
    let lo = min(a.len() as int, b.len() as int);
    let hi = max(a.len() as int, b.len() as int);
    lemma_diff_past_overlap(a, b, hi);
    assert(tail_entries(a, b) =~= Seq::new((hi - lo) as nat, |k: int| if lo + k < a.len() {
        ((lo + k) as usize, a[lo + k])
    } else {
        ((lo + k) as usize, b[lo + k])
    }));
}

proof fn lemma_diff_past_overlap(a: Seq<u8>, b: Seq<u8>, n: int)
    requires
        min(a.len() as int, b.len() as int) <= n <= max(a.len() as int, b.len() as int),
    ensures
        diff_upto(a, b, n) == diff_upto(a, b, min(a.len() as int, b.len() as int)) + Seq::new(
            (n - min(a.len() as int, b.len() as int)) as nat,
            |k: int| if min(a.len() as int, b.len() as int) + k < a.len() {
                ((min(a.len() as int, b.len() as int) + k) as usize, a[min(
                    a.len() as int,
                    b.len() as int,
                ) + k])
            } else {
                ((min(a.len() as int, b.len() as int) + k) as usize, b[min(
                    a.len() as int,
                    b.len() as int,
                ) + k])
            },
        ),
    decreases n,
{
    let lo = min(a.len() as int, b.len() as int);
    let f = |k: int| if lo + k < a.len() {
        ((lo + k) as usize, a[lo + k])
    } else {
        ((lo + k) as usize, b[lo + k])
    };
    if n == lo {
        assert(diff_upto(a, b, n) =~= diff_upto(a, b, lo) + Seq::new(0, f));
    } else {
        lemma_diff_past_overlap(a, b, n - 1);
        assert(diff_upto(a, b, n) =~= diff_upto(a, b, lo) + Seq::new((n - lo) as nat, f));
    }
}

} // verus!
