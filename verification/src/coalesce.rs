//! Resize signal coalescer: batches terminal-resize notifications so that at
//! most one size update per closed batch reaches the remote session.
//!
//! A batch closes as soon as it holds `BATCH_MAX` notifications or spans the
//! full `WINDOW_MILLIS` wait, whichever bound is reached first; every closed
//! batch triggers exactly one size re-sample and one update send.

use vstd::prelude::*;

verus! {

/// Most notifications a single batch may hold.
pub const BATCH_MAX: u64 = 50;

/// Longest time, in milliseconds, a batch stays open.
pub const WINDOW_MILLIS: u64 = 1000;

/// Notification timestamps arrive in delivery order, so never decrease.
pub open spec fn nondecreasing(times: Seq<u64>) -> bool {
    forall|a: int, b: int| 0 <= a <= b < times.len() ==> times[a] <= times[b]
}

/// Index just past the first batch of a notification sequence whose first
/// element opened the batch: scanning from `i`, the batch ends at the first
/// index that would be its 51st member or that lies a full window after the
/// batch's opening timestamp.
pub open spec fn first_batch_end(s: Seq<u64>, i: int) -> int
    decreases s.len() - i,
{
    if i >= s.len() || i >= BATCH_MAX || s[i] - s[0] >= WINDOW_MILLIS {
        i
    } else {
        first_batch_end(s, i + 1)
    }
}

/// The sizes of the successive batches that a notification sequence closes.
pub open spec fn spec_batch_sizes(s: Seq<u64>) -> Seq<int>
    decreases s.len(),
    via spec_batch_sizes_dec
{
    if s.len() == 0 {
        Seq::empty()
    } else {
        seq![first_batch_end(s, 1)] + spec_batch_sizes(s.skip(first_batch_end(s, 1)))
    }
}

#[via_fn]
proof fn spec_batch_sizes_dec(s: Seq<u64>) {
    if s.len() != 0 {
        lemma_first_batch_end_props(s, 1);
    }
}

/// Scanning from a position already inside the batch stays within the
/// sequence and the size bound, and every index it passes lies inside
/// the window.
proof fn lemma_first_batch_end_props(s: Seq<u64>, i: int)
    requires
        1 <= i <= s.len(),
        i <= BATCH_MAX,
    ensures
        i <= first_batch_end(s, i) <= s.len(),
        first_batch_end(s, i) <= BATCH_MAX,
        forall|m: int| i <= m < first_batch_end(s, i) ==> (#[trigger] s[m]) - s[0]
            < WINDOW_MILLIS,
    decreases s.len() - i,
{
    if i >= s.len() || i >= BATCH_MAX || s[i] - s[0] >= WINDOW_MILLIS {
    } else {
        lemma_first_batch_end_props(s, i + 1);
    }
}

/// The scan stops exactly where the loop in `coalesce_batches` stops: at a
/// position within the window run that is the sequence's end, the size
/// bound, or the first timestamp a full window after the opening one.
proof fn lemma_first_batch_end_run(s: Seq<u64>, i: int, k: int)
    requires
        1 <= i <= k <= s.len(),
        k <= BATCH_MAX,
        forall|m: int| i <= m < k ==> (#[trigger] s[m]) - s[0] < WINDOW_MILLIS,
        k < s.len() ==> (k == BATCH_MAX || s[k] - s[0] >= WINDOW_MILLIS),
    ensures
        first_batch_end(s, i) == k,
    decreases k - i,
{
    if i == k {
    } else {
        assert(s[i] - s[0] < WINDOW_MILLIS);
        lemma_first_batch_end_run(s, i + 1, k);
    }
}

/// Splits a nondecreasing notification sequence into the batches the
/// coalescer closes, returning each batch's size in order.
pub fn coalesce_batches(times: &Vec<u64>) -> (sizes: Vec<usize>)
    requires
        nondecreasing(times@),
    ensures
        sizes@.map_values(|s: usize| s as int) == spec_batch_sizes(times@),
{
    let n = times.len();
    let mut sizes: Vec<usize> = Vec::new();
    let mut i: usize = 0;
    proof {
        assert(times@.skip(0) =~= times@);
        assert(sizes@.map_values(|s: usize| s as int) =~= Seq::<int>::empty());
    }
    while i < n
        invariant
            i <= n,
            n == times@.len(),
            nondecreasing(times@),
            sizes@.map_values(|s: usize| s as int) + spec_batch_sizes(times@.skip(i as int))
                =~= spec_batch_sizes(times@),
        decreases n - i,
    {
        let start = i;
        let mut j = i + 1;
        while j < n && j - start < 50 && times[j] - times[start] < 1000
            invariant
                start < n,
                n == times@.len(),
                nondecreasing(times@),
                start + 1 <= j <= n,
                j - start <= 50,
                forall|m: int| start < m < j ==> (#[trigger] times@[m]) - times@[start as int] < WINDOW_MILLIS,
            decreases n - j,
        {
            j = j + 1;
        }
        proof {
            let s = times@.skip(start as int);
            let k = (j - start) as int;
            assert(forall|m: int| 0 <= m < s.len() ==> #[trigger] s[m] == times@[start as int + m]);
            lemma_first_batch_end_run(s, 1, k);
            assert(s.skip(k) =~= times@.skip(j as int));
            assert(spec_batch_sizes(s) == seq![k] + spec_batch_sizes(times@.skip(j as int)));
            assert(sizes@.push((j - start) as usize).map_values(|s: usize| s as int)
                =~= sizes@.map_values(|s: usize| s as int).push(k));
            assert(sizes@.map_values(|s: usize| s as int).push(k)
                + spec_batch_sizes(times@.skip(j as int))
                =~= sizes@.map_values(|s: usize| s as int) + spec_batch_sizes(
                times@.skip(start as int),
            ));
        }
        sizes.push(j - start);
        i = j;
    }
    proof {
        assert(times@.skip(i as int) =~= Seq::<u64>::empty());
        assert(spec_batch_sizes(times@.skip(i as int)) =~= Seq::<int>::empty());
        assert(sizes@.map_values(|s: usize| s as int) =~= spec_batch_sizes(times@));
    }
    sizes
}

/// How many size updates a notification sequence causes: one per closed
/// batch, no more.
pub fn updates_for_notifications(times: &Vec<u64>) -> (n: usize)
    requires
        nondecreasing(times@),
    ensures
        n == spec_batch_sizes(times@).len(),
{
    let sizes = coalesce_batches(times);
    proof {
        assert(sizes@.map_values(|s: usize| s as int).len() == sizes@.len());
    }
    sizes.len()
}

/// The total of a size list.
pub open spec fn sum_seq(s: Seq<int>) -> int
    decreases s.len(),
{
    if s.len() == 0 {
        0
    } else {
        s[0] + sum_seq(s.skip(1))
    }
}

/// No batch is empty and none exceeds the size bound.
pub proof fn lemma_batch_sizes_bounded(times: Seq<u64>)
    ensures
        forall|b: int| 0 <= b < spec_batch_sizes(times).len() ==> 1 <= #[trigger] spec_batch_sizes(
            times,
        )[b] <= BATCH_MAX,
    decreases times.len(),
{
    if times.len() != 0 {
        lemma_first_batch_end_props(times, 1);
        let k = first_batch_end(times, 1);
        lemma_batch_sizes_bounded(times.skip(k));
        assert forall|b: int| 0 <= b < spec_batch_sizes(times).len() implies 1
            <= #[trigger] spec_batch_sizes(times)[b] <= BATCH_MAX by {
            if b > 0 {
                assert(spec_batch_sizes(times)[b] == spec_batch_sizes(times.skip(k))[b - 1]);
            }
        }
    }
}

/// Every notification lands in exactly one batch: the batch sizes add up
/// to the whole sequence.
pub proof fn lemma_batches_cover_all_notifications(times: Seq<u64>)
    ensures
        sum_seq(spec_batch_sizes(times)) == times.len(),
    decreases times.len(),
{
    if times.len() != 0 {
        lemma_first_batch_end_props(times, 1);
        let k = first_batch_end(times, 1);
        lemma_batches_cover_all_notifications(times.skip(k));
        let sizes = spec_batch_sizes(times);
        assert(sizes[0] == k);
        assert(sizes.skip(1) =~= spec_batch_sizes(times.skip(k)));
        assert(times.skip(k).len() == times.len() - k);
    }
}

/// Up to `BATCH_MAX` notifications falling inside one coalescing window
/// close as a single batch, so cause exactly one size update.
pub proof fn lemma_burst_within_window_single_update(times: Seq<u64>)
    requires
        nondecreasing(times),
        1 <= times.len() <= BATCH_MAX,
        times.last() - times.first() < WINDOW_MILLIS,
    ensures
        spec_batch_sizes(times).len() == 1,
{
    assert(forall|m: int| 1 <= m < times.len() ==> (#[trigger] times[m]) - times[0] < WINDOW_MILLIS);
    lemma_first_batch_end_run(times, 1, times.len() as int);
    assert(times.skip(times.len() as int) =~= Seq::<u64>::empty());
    assert(spec_batch_sizes(times) == seq![times.len() as int] + spec_batch_sizes(
        Seq::<u64>::empty(),
    ));
}

/// A notification sequence that spans a full window or overflows the size
/// bound closes more than one batch, each of which causes its own single
/// update.
pub proof fn lemma_long_burst_multiple_updates(times: Seq<u64>)
    requires
        nondecreasing(times),
        times.len() >= 1,
        times.len() > BATCH_MAX || times.last() - times.first() >= WINDOW_MILLIS,
    ensures
        spec_batch_sizes(times).len() >= 2,
{
    lemma_first_batch_end_props(times, 1);
    let k = first_batch_end(times, 1);
    if times.len() > BATCH_MAX {
        assert(k < times.len());
    } else {
        assert(times.last() - times.first() >= WINDOW_MILLIS);
        assert(times.len() >= 2);
        if k == times.len() {
            assert(times[times.len() - 1] - times[0] < WINDOW_MILLIS);
            assert(false);
        }
    }
    let rest = times.skip(k);
    assert(rest.len() >= 1);
    assert(spec_batch_sizes(rest).len() >= 1);
    assert(spec_batch_sizes(times) == seq![k] + spec_batch_sizes(rest));
}

} // verus!
