//! The bounded fetcher's plan: work items are taken in consecutive chunks
//! of at most the concurrency cap, one chunk in flight at a time.
use vstd::prelude::*;

verus! {

/// The most detail pages fetched at the same time.
pub const MAX_CONCURRENT_REQUESTS: usize = 5;

/// Chunk `i` ends where chunk `i + 1` starts.
pub open spec fn chains(r: Seq<(usize, usize)>, i: int) -> bool {
    r[i].1 == r[i + 1].0
}

/// The chunks cover `0..n` in order, each non-empty and of at most `k` items.
pub open spec fn is_chunk_plan(r: Seq<(usize, usize)>, n: nat, k: nat) -> bool {
    &&& forall|i: int| 0 <= i < r.len() ==> (#[trigger] r[i]).0 < r[i].1 && r[i].1 - r[i].0 <= k
    &&& forall|i: int| 0 <= i < r.len() - 1 ==> #[trigger] chains(r, i)
    &&& (r.len() == 0 <==> n == 0)
    &&& r.len() > 0 ==> r[0].0 == 0 && r[r.len() - 1].1 == n
}

/// Splits `n` work items into the index ranges of consecutive chunks of at
/// most `k` items; every chunk but the last has exactly `k`.
pub fn chunk_ranges(n: usize, k: usize) -> (r: Vec<(usize, usize)>)
    requires
        k > 0,
    ensures
        is_chunk_plan(r@, n as nat, k as nat),
        forall|i: int| 0 <= i < r@.len() - 1 ==> (#[trigger] r@[i]).1 - r@[i].0 == k,
{
    let mut out: Vec<(usize, usize)> = Vec::new();
    let mut start: usize = 0;
    while start < n
        invariant
            start <= n,
            k > 0,
            forall|i: int| 0 <= i < out@.len() ==> (#[trigger] out@[i]).0 < out@[i].1 && out@[i].1 - out@[i].0 <= k,
            forall|i: int| 0 <= i < out@.len() - 1 ==> #[trigger] chains(out@, i),
            forall|i: int| 0 <= i < out@.len() ==> (#[trigger] out@[i]).1 - out@[i].0 == k || out@[i].1 == n,
            forall|i: int| 0 <= i < out@.len() ==> (#[trigger] out@[i]).1 <= start,
            out@.len() == 0 <==> start == 0,
            out@.len() > 0 ==> out@[0].0 == 0 && out@[out@.len() - 1].1 == start,
        decreases n - start,
    {
        let end: usize = if n - start > k { start + k } else { n };
        let ghost prev = out@;
        out.push((start, end));
        assert(out@ == prev.push((start, end)));
        assert forall|i: int| 0 <= i < out@.len() - 1 implies #[trigger] chains(out@, i) by {
            if i < prev.len() - 1 {
                assert(chains(prev, i));
                assert(out@[i] == prev[i] && out@[i + 1] == prev[i + 1]);
            } else {
                assert(out@[i] == prev[prev.len() - 1]);
            }
        }
        start = end;
    }
    assert forall|i: int| 0 <= i < out@.len() - 1 implies (#[trigger] out@[i]).1 - out@[i].0 == k by {
        assert(chains(out@, i));
    }
    out
}

} // verus!
