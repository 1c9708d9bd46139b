//! Counting over index ranges, and sums of cell sizes.
//!
//! The layout arithmetic is all about "how many slots have this property" and
//! "how many cells do these slots add up to", so both live here with the
//! handful of facts the proofs lean on.

use vstd::prelude::*;

verus! {

/// How many indices in `0..n` satisfy `p`.
pub open spec fn tally(n: int, p: spec_fn(int) -> bool) -> nat
    decreases n,
{
    if n <= 0 {
        0
    } else {
        tally(n - 1, p) + if p(n - 1) {
            1nat
        } else {
            0nat
        }
    }
}

/// The number of cells a sequence of sizes adds up to.
pub open spec fn cells(sizes: Seq<u16>) -> int
    decreases sizes.len(),
{
    if sizes.len() == 0 {
        0
    } else {
        cells(sizes.drop_last()) + sizes.last()
    }
}

/// A count over `0..n` is at most `n`.
pub proof fn lemma_tally_bounds(n: int, p: spec_fn(int) -> bool)
    requires
        n >= 0,
    ensures
        tally(n, p) <= n,
    decreases n,
{
    if n > 0 {
        lemma_tally_bounds(n - 1, p);
    }
}

/// A count never shrinks as the range grows.
pub proof fn lemma_tally_prefix(k: int, n: int, p: spec_fn(int) -> bool)
    requires
        0 <= k <= n,
    ensures
        tally(k, p) <= tally(n, p),
    decreases n - k,
{
    if k < n {
        lemma_tally_prefix(k, n - 1, p);
    }
}

/// An index that satisfies `p` is counted before the end of any range that
/// contains it.
pub proof fn lemma_tally_counts_member(i: int, n: int, p: spec_fn(int) -> bool)
    requires
        0 <= i < n,
        p(i),
    ensures
        tally(i, p) < tally(n, p),
{
    lemma_tally_prefix(i + 1, n, p);
}

/// A weaker predicate counts at least as much.
pub proof fn lemma_tally_mono(n: int, p: spec_fn(int) -> bool, q: spec_fn(int) -> bool)
    requires
        forall|j: int| 0 <= j < n && #[trigger] p(j) ==> q(j),
    ensures
        tally(n, p) <= tally(n, q),
    decreases n,
{
    if n > 0 {
        lemma_tally_mono(n - 1, p, q);
    }
}

/// A weaker predicate that also holds somewhere the stronger one does not
/// counts strictly more.
pub proof fn lemma_tally_strict(n: int, p: spec_fn(int) -> bool, q: spec_fn(int) -> bool, w: int)
    requires
        forall|j: int| 0 <= j < n && #[trigger] p(j) ==> q(j),
        0 <= w < n,
        q(w),
        !p(w),
    ensures
        tally(n, p) + 1 <= tally(n, q),
    decreases n,
{
    if w == n - 1 {
        lemma_tally_mono(n - 1, p, q);
    } else {
        lemma_tally_strict(n - 1, p, q, w);
    }
}

/// Everything in range is counted exactly when the count is the whole range.
pub proof fn lemma_tally_full(n: int, p: spec_fn(int) -> bool, w: int)
    requires
        0 <= w < n,
        !p(w),
    ensures
        tally(n, p) < n,
    decreases n,
{
    lemma_tally_bounds(n - 1, p);
    if w < n - 1 {
        lemma_tally_full(n - 1, p, w);
    }
}

/// Counting the same predicate with one member taken out.
pub proof fn lemma_tally_without(n: int, p: spec_fn(int) -> bool, q: spec_fn(int) -> bool, w: int)
    requires
        0 <= w < n,
        p(w),
        forall|j: int| 0 <= j < n ==> #[trigger] q(j) == (p(j) && j != w),
    ensures
        tally(n, q) + 1 == tally(n, p),
    decreases n,
{
    if w == n - 1 {
        lemma_tally_same(n - 1, p, q);
    } else {
        lemma_tally_without(n - 1, p, q, w);
    }
}

/// Predicates that agree on the range count the same.
pub proof fn lemma_tally_same(n: int, p: spec_fn(int) -> bool, q: spec_fn(int) -> bool)
    requires
        forall|j: int| 0 <= j < n ==> #[trigger] p(j) == q(j),
    ensures
        tally(n, p) == tally(n, q),
    decreases n,
{
    if n > 0 {
        lemma_tally_same(n - 1, p, q);
    }
}

/// The total of a prefix grows by the next slot.
pub proof fn lemma_cells_take_step(s: Seq<u16>, k: int)
    requires
        0 <= k < s.len(),
    ensures
        cells(s.take(k + 1)) == cells(s.take(k)) + s[k],
{
    assert(s.take(k + 1).drop_last() =~= s.take(k));
}

/// The prefix of full length is the whole.
pub proof fn lemma_cells_take_all(s: Seq<u16>)
    ensures
        cells(s.take(s.len() as int)) == cells(s),
{
    assert(s.take(s.len() as int) =~= s);
}

/// A total of sizes is never negative.
pub proof fn lemma_cells_nonneg(s: Seq<u16>)
    ensures
        cells(s) >= 0,
    decreases s.len(),
{
    if s.len() > 0 {
        lemma_cells_nonneg(s.drop_last());
    }
}

/// A single slot is no larger than the total of all slots.
pub proof fn lemma_cells_bounds_each(s: Seq<u16>, i: int)
    requires
        0 <= i < s.len(),
    ensures
        s[i] <= cells(s),
    decreases s.len(),
{
    lemma_cells_nonneg(s.drop_last());
    if i < s.len() - 1 {
        lemma_cells_bounds_each(s.drop_last(), i);
    }
}

/// Changing one slot changes the total by the difference.
pub proof fn lemma_cells_update(s: Seq<u16>, i: int, v: u16)
    requires
        0 <= i < s.len(),
    ensures
        cells(s.update(i, v)) == cells(s) - s[i] + v,
    decreases s.len(),
{
    if i == s.len() - 1 {
        assert(s.update(i, v).drop_last() =~= s.drop_last());
    } else {
        assert(s.update(i, v).drop_last() =~= s.drop_last().update(i, v));
        lemma_cells_update(s.drop_last(), i, v);
    }
}

/// Slot-by-slot comparison carries over to the totals.
pub proof fn lemma_cells_le(a: Seq<u16>, b: Seq<u16>)
    requires
        a.len() == b.len(),
        forall|i: int| 0 <= i < a.len() ==> a[i] <= b[i],
    ensures
        cells(a) <= cells(b),
    decreases a.len(),
{
    if a.len() > 0 {
        lemma_cells_le(a.drop_last(), b.drop_last());
    }
}

} // verus!
