//! How the dashboard shares its cells between panels.
//!
//! Rows share the height and the panels of a row share its width, each in
//! proportion to a weight. A panel may declare the size past which more space
//! does nothing for it, and what it declines goes to the panels that can still
//! use it.

use vstd::prelude::*;
use crate::count::{
    cells, lemma_cells_bounds_each, lemma_cells_le, lemma_cells_nonneg, lemma_cells_take_all,
    lemma_cells_take_step, lemma_cells_update, lemma_tally_bounds, lemma_tally_counts_member,
    lemma_tally_mono, lemma_tally_prefix, lemma_tally_same, lemma_tally_strict,
    lemma_tally_without, tally,
};

verus! {

/// A weight as the layout uses it: zero counts as one, so nobody divides by
/// zero and nobody is squeezed out of existence by a typo.
pub open spec fn unit_weight(w: u16) -> int {
    if w == 0 {
        1
    } else {
        w as int
    }
}

/// The sum of the unit weights.
pub open spec fn weight_total(ws: Seq<u16>) -> int
    decreases ws.len(),
{
    if ws.len() == 0 {
        0
    } else {
        weight_total(ws.drop_last()) + unit_weight(ws.last())
    }
}

/// The whole cells slot `i` is owed out of `total`.
pub open spec fn share_of(total: int, ws: Seq<u16>, i: int) -> int {
    total * unit_weight(ws[i]) / weight_total(ws)
}

/// What slot `i` is owed beyond its whole cells, in units of the weight total.
pub open spec fn remainder_of(total: int, ws: Seq<u16>, i: int) -> int {
    total * unit_weight(ws[i]) % weight_total(ws)
}

/// Whether slot `j` is first in line for a leftover cell ahead of slot `i`:
/// the larger remainder goes first, and the earlier slot breaks a tie.
pub open spec fn ahead_of(total: int, ws: Seq<u16>, j: int, i: int) -> bool {
    remainder_of(total, ws, j) > remainder_of(total, ws, i) || (remainder_of(total, ws, j)
        == remainder_of(total, ws, i) && j < i)
}

pub open spec fn ahead_pred(total: int, ws: Seq<u16>, i: int) -> spec_fn(int) -> bool {
    |j: int| ahead_of(total, ws, j, i)
}

/// How many slots are in line ahead of slot `i`.
pub open spec fn rank_of(total: int, ws: Seq<u16>, i: int) -> nat {
    tally(ws.len() as int, ahead_pred(total, ws, i))
}

/// The whole cells owed to the first `k` slots.
pub open spec fn shares_total(total: int, ws: Seq<u16>, k: int) -> int
    decreases k,
{
    if k <= 0 {
        0
    } else {
        shares_total(total, ws, k - 1) + share_of(total, ws, k - 1)
    }
}

/// The remainders of the first `k` slots.
pub open spec fn remainders_total(total: int, ws: Seq<u16>, k: int) -> int
    decreases k,
{
    if k <= 0 {
        0
    } else {
        remainders_total(total, ws, k - 1) + remainder_of(total, ws, k - 1)
    }
}

/// The cells that whole shares leave over.
pub open spec fn leftover_of(total: int, ws: Seq<u16>) -> int {
    total - shares_total(total, ws, ws.len() as int)
}

/// Slot `i`'s part of `total`: its whole share, plus one of the leftover cells
/// if it is among the first in line for them.
pub open spec fn proportional_cell(total: int, ws: Seq<u16>, i: int) -> int {
    share_of(total, ws, i) + if rank_of(total, ws, i) < leftover_of(total, ws) {
        1int
    } else {
        0int
    }
}

/// `total` split in proportion to `ws` by largest remainder.
pub open spec fn proportional_spec(total: u16, ws: Seq<u16>) -> Seq<u16> {
    Seq::new(ws.len(), |i: int| proportional_cell(total as int, ws, i) as u16)
}

proof fn lemma_weight_total_take(ws: Seq<u16>, k: int)
    requires
        0 <= k < ws.len(),
    ensures
        weight_total(ws.take(k + 1)) == weight_total(ws.take(k)) + unit_weight(ws[k]),
{
    assert(ws.take(k + 1).drop_last() =~= ws.take(k));
}

proof fn lemma_weight_total_prefix(ws: Seq<u16>, k: int)
    requires
        0 <= k <= ws.len(),
    ensures
        k <= weight_total(ws.take(k)) <= weight_total(ws),
    decreases ws.len() - k,
{
    lemma_weight_total_lower(ws.take(k));
    if k == ws.len() {
        assert(ws.take(k) =~= ws);
    } else {
        lemma_weight_total_prefix(ws, k + 1);
        lemma_weight_total_take(ws, k);
    }
}

proof fn lemma_weight_total_lower(ws: Seq<u16>)
    ensures
        weight_total(ws) >= ws.len(),
    decreases ws.len(),
{
    if ws.len() > 0 {
        lemma_weight_total_lower(ws.drop_last());
    }
}

proof fn lemma_div_mod(x: int, d: int)
    requires
        d > 0,
        x >= 0,
    ensures
        (x / d) * d + x % d == x,
        0 <= x % d < d,
        x / d >= 0,
{
    vstd::arithmetic::div_mod::lemma_fundamental_div_mod(x, d);
    vstd::arithmetic::div_mod::lemma_mod_pos_bound(x, d);
    vstd::arithmetic::div_mod::lemma_div_pos_is_pos(x, d);
    assert(d * (x / d) == (x / d) * d) by (nonlinear_arith);
}

proof fn lemma_share_bound(total: int, w: int, s: int)
    by (nonlinear_arith)
    requires
        0 <= total,
        1 <= w <= s,
    ensures
        total * w / s <= total,
        0 <= total * w,
{
    assert(total * w <= total * s);
}

/// Whole shares and remainders together account for every cell times the
/// weight total.
proof fn lemma_shares_and_remainders(total: int, ws: Seq<u16>, k: int)
    requires
        0 <= k <= ws.len(),
        total >= 0,
        ws.len() > 0,
    ensures
        shares_total(total, ws, k) * weight_total(ws) + remainders_total(total, ws, k) == total
            * weight_total(ws.take(k)),
        0 <= remainders_total(total, ws, k) <= k * (weight_total(ws) - 1),
        shares_total(total, ws, k) >= 0,
    decreases k,
{
    lemma_weight_total_lower(ws);
    let s = weight_total(ws);
    if k == 0 {
        assert(ws.take(0) =~= Seq::<u16>::empty());
    } else {
        lemma_shares_and_remainders(total, ws, k - 1);
        lemma_weight_total_take(ws, k - 1);
        let uw = unit_weight(ws[k - 1]);
        let x = total * uw;
        assert(x >= 0) by (nonlinear_arith)
            requires
                total >= 0,
                uw >= 1,
                x == total * uw,
        ;
        lemma_div_mod(x, s);
        let a = shares_total(total, ws, k - 1);
        let b = share_of(total, ws, k - 1);
        let w0 = weight_total(ws.take(k - 1));
        let w1 = unit_weight(ws[k - 1]);
        assert((a + b) * s == a * s + b * s) by (nonlinear_arith);
        assert(total * (w0 + w1) == total * w0 + total * w1) by (nonlinear_arith);
        assert(k * (s - 1) == (k - 1) * (s - 1) + (s - 1)) by (nonlinear_arith);
    }
}

/// The whole shares never exceed the total, and leave over fewer cells than
/// there are slots.
proof fn lemma_leftover_bounds(total: int, ws: Seq<u16>)
    requires
        total >= 0,
        ws.len() > 0,
    ensures
        0 <= leftover_of(total, ws) < ws.len(),
        shares_total(total, ws, ws.len() as int) >= 0,
{
    let n = ws.len() as int;
    lemma_shares_and_remainders(total, ws, n);
    assert(ws.take(n) =~= ws);
    lemma_weight_total_lower(ws);
    let s = weight_total(ws);
    let used = shares_total(total, ws, n);
    let r = remainders_total(total, ws, n);
    assert(used <= total) by (nonlinear_arith)
        requires
            used * s + r == total * s,
            r >= 0,
            s > 0,
    ;
    assert(total - used < n) by (nonlinear_arith)
        requires
            used * s + r == total * s,
            r <= n * (s - 1),
            s > 0,
            n > 0,
    ;
}

/// Exactly one of two different slots is ahead of the other.
proof fn lemma_ahead_total_order(total: int, ws: Seq<u16>, a: int, b: int)
    ensures
        !(ahead_of(total, ws, a, b) && ahead_of(total, ws, b, a)),
        a != b ==> (ahead_of(total, ws, a, b) || ahead_of(total, ws, b, a)),
        !ahead_of(total, ws, a, a),
{
}

pub open spec fn chosen_pred(chosen: Seq<bool>) -> spec_fn(int) -> bool {
    |j: int| chosen[j]
}

/// Whoever is chosen is ahead of whoever is not, and `count` are chosen: then
/// the chosen ones are exactly those with fewer than `count` slots ahead.
proof fn lemma_chosen_are_ranked(total: int, ws: Seq<u16>, chosen: Seq<bool>, count: int, i: int)
    requires
        chosen.len() == ws.len(),
        0 <= i < ws.len(),
        tally(ws.len() as int, chosen_pred(chosen)) == count,
        forall|a: int, b: int|
            0 <= a < ws.len() && 0 <= b < ws.len() && #[trigger] chosen[a] && !#[trigger] chosen[b]
                ==> ahead_of(total, ws, a, b),
    ensures
        chosen[i] <==> rank_of(total, ws, i) < count,
{
    let n = ws.len() as int;
    let ahead = ahead_pred(total, ws, i);
    let picked = chosen_pred(chosen);
    if chosen[i] {
        let others = |j: int| chosen[j] && j != i;
        assert forall|j: int| 0 <= j < n && #[trigger] ahead(j) implies others(j) by {
            lemma_ahead_total_order(total, ws, i, j);
            if !chosen[j] {
                assert(ahead_of(total, ws, i, j));
            }
        }
        lemma_tally_mono(n, ahead, others);
        assert forall|j: int| 0 <= j < n implies #[trigger] others(j) == (picked(j) && j != i) by {}
        lemma_tally_without(n, picked, others, i);
    } else {
        assert forall|j: int| 0 <= j < n && #[trigger] picked(j) implies ahead(j) by {
            assert(chosen[j] && !chosen[i]);
        }
        lemma_tally_mono(n, picked, ahead);
    }
}

/// Split `total` in proportion to `weights`, losing no cells to rounding.
///
/// Largest remainder rather than plain division: dividing and truncating
/// leaves up to one cell per slot unallocated, which shows up as a ragged
/// right edge. The leftover cells go to the largest remainders, ties by
/// position so the result is stable frame to frame.
pub fn proportional(total: u16, weights: &Vec<u16>) -> (sizes: Vec<u16>)
    requires
        weight_total(weights@) <= u32::MAX,
    ensures
        sizes@ == proportional_spec(total, weights@),
        weights.len() > 0 ==> cells(sizes@) == total,
{
    let count = weights.len();
    if count == 0 {
        let empty: Vec<u16> = Vec::new();
        assert(empty@ =~= proportional_spec(total, weights@));
        return empty;
    }
    let ghost ws = weights@;
    let ghost t = total as int;

    let mut sum: u32 = 0;
    let mut i: usize = 0;
    while i < count
        invariant
            ws == weights@,
            count == ws.len(),
            i <= count,
            weight_total(ws) <= u32::MAX,
            sum == weight_total(ws.take(i as int)),
        decreases count - i,
    {
        proof {
            lemma_weight_total_take(ws, i as int);
            lemma_weight_total_prefix(ws, i as int + 1);
        }
        let w = weights[i];
        let unit: u32 = if w == 0 { 1 } else { w as u32 };
        sum = sum + unit;
        i = i + 1;
    }
    proof {
        assert(ws.take(count as int) =~= ws);
        lemma_weight_total_lower(ws);
    }

    let mut shares: Vec<u16> = Vec::new();
    let mut remainders: Vec<u32> = Vec::new();
    let mut used: u32 = 0;
    let mut i: usize = 0;
    while i < count
        invariant
            ws == weights@,
            count == ws.len(),
            count > 0,
            i <= count,
            sum == weight_total(ws),
            sum >= count,
            shares.len() == i,
            remainders.len() == i,
            forall|k: int| 0 <= k < i ==> #[trigger] shares[k] == share_of(t, ws, k),
            forall|k: int| 0 <= k < i ==> #[trigger] remainders[k] == remainder_of(t, ws, k),
            used == shares_total(t, ws, i as int),
            t == total,
        decreases count - i,
    {
        let w = weights[i];
        let unit: u32 = if w == 0 { 1 } else { w as u32 };
        proof {
            lemma_weight_total_take(ws, i as int);
            lemma_weight_total_prefix(ws, i as int + 1);
            lemma_weight_total_prefix(ws, i as int);
            lemma_share_bound(t, unit as int, sum as int);
            assert(total as int * unit as int <= 65535 * 65535) by (nonlinear_arith)
                requires
                    total <= 65535,
                    unit <= 65535,
            ;
            lemma_shares_and_remainders(t, ws, i as int + 1);
            lemma_leftover_partial(t, ws, i as int + 1);
        }
        let exact: u32 = total as u32 * unit;
        let whole: u32 = exact / sum;
        remainders.push(exact % sum);
        shares.push(whole as u16);
        used = used + whole;
        i = i + 1;
    }
    proof {
        lemma_leftover_bounds(t, ws);
    }

    // Hand the leftover cells out one at a time, each to the slot first in
    // line among those that have not had one yet.
    let leftover: u32 = total as u32 - used;
    let mut chosen: Vec<bool> = Vec::new();
    let mut i: usize = 0;
    while i < count
        invariant
            chosen.len() == i,
            i <= count,
            forall|k: int| 0 <= k < i ==> !#[trigger] chosen[k],
        decreases count - i,
    {
        chosen.push(false);
        i = i + 1;
    }
    proof {
        assert forall|j: int| 0 <= j <= count implies tally(j, chosen_pred(chosen@)) == 0 by {
            lemma_tally_zero(j, chosen_pred(chosen@));
        }
    }

    let mut step: u32 = 0;
    while step < leftover
        invariant
            ws == weights@,
            count == ws.len(),
            count > 0,
            t == total,
            leftover == leftover_of(t, ws),
            leftover < count,
            step <= leftover,
            chosen.len() == count,
            remainders.len() == count,
            forall|k: int| 0 <= k < count ==> #[trigger] remainders[k] == remainder_of(t, ws, k),
            tally(count as int, chosen_pred(chosen@)) == step,
            forall|a: int, b: int|
                0 <= a < count && 0 <= b < count && #[trigger] chosen[a] && !#[trigger] chosen[b]
                    ==> ahead_of(t, ws, a, b),
        decreases leftover - step,
    {
        let mut best: usize = 0;
        let mut found = false;
        let mut j: usize = 0;
        while j < count
            invariant
                ws == weights@,
                count == ws.len(),
                t == total,
                j <= count,
                chosen.len() == count,
                remainders.len() == count,
                forall|k: int| 0 <= k < count ==> #[trigger] remainders[k] == remainder_of(t, ws, k),
                found ==> best < j && !chosen[best as int],
                found ==> forall|k: int|
                    0 <= k < j && k != best && !#[trigger] chosen[k] ==> ahead_of(t, ws, best as int, k),
                !found ==> forall|k: int| 0 <= k < j ==> #[trigger] chosen[k],
            decreases count - j,
        {
            if !chosen[j] {
                if !found || remainders[j] > remainders[best] {
                    best = j;
                    found = true;
                }
            }
            j = j + 1;
        }
        if !found {
            proof {
                lemma_tally_same(count as int, chosen_pred(chosen@), |k: int| true);
                lemma_tally_all(count as int);
            }
            assert(false);
        }
        let ghost before = chosen@;
        chosen.set(best, true);
        proof {
            let p = chosen_pred(before);
            let q = chosen_pred(chosen@);
            assert forall|k: int| 0 <= k < count implies #[trigger] p(k) == (q(k) && k != best) by {}
            lemma_tally_without(count as int, q, p, best as int);
            assert forall|a: int, b: int|
                0 <= a < count && 0 <= b < count && #[trigger] chosen[a] && !#[trigger] chosen[b]
                    implies ahead_of(t, ws, a, b) by {
                if a != best {
                    assert(before[a] && !before[b]);
                }
            }
        }
        step = step + 1;
    }

    let mut sizes: Vec<u16> = Vec::new();
    let mut i: usize = 0;
    while i < count
        invariant
            ws == weights@,
            count == ws.len(),
            count > 0,
            t == total,
            leftover == leftover_of(t, ws),
            i <= count,
            chosen.len() == count,
            shares.len() == count,
            forall|k: int| 0 <= k < count ==> #[trigger] shares[k] == share_of(t, ws, k),
            tally(count as int, chosen_pred(chosen@)) == leftover,
            forall|a: int, b: int|
                0 <= a < count && 0 <= b < count && #[trigger] chosen[a] && !#[trigger] chosen[b]
                    ==> ahead_of(t, ws, a, b),
            sizes.len() == i,
            forall|k: int| 0 <= k < i ==> #[trigger] sizes[k] == proportional_cell(t, ws, k),
            forall|k: int| 0 <= k < i ==> proportional_cell(t, ws, k) <= total,
            cells(sizes@) == shares_total(t, ws, i as int) + tally(i as int, chosen_pred(chosen@)),
        decreases count - i,
    {
        proof {
            lemma_chosen_are_ranked(t, ws, chosen@, leftover as int, i as int);
            lemma_leftover_partial(t, ws, i as int + 1);
            lemma_tally_prefix(i as int + 1, count as int, chosen_pred(chosen@));
            lemma_shares_and_remainders(t, ws, count as int);
            lemma_leftover_bounds(t, ws);
            lemma_share_cap(t, ws, i as int);
        }
        let extra: u16 = if chosen[i] { 1 } else { 0 };
        let ghost before = sizes@;
        sizes.push(shares[i] + extra);
        proof {
            assert(sizes@.drop_last() =~= before);
        }
        i = i + 1;
    }
    proof {
        assert(sizes@ =~= proportional_spec(total, ws));
    }
    sizes
}

proof fn lemma_tally_zero(n: int, p: spec_fn(int) -> bool)
    requires
        forall|j: int| 0 <= j < n ==> !#[trigger] p(j),
    ensures
        tally(n, p) == 0,
    decreases n,
{
    if n > 0 {
        lemma_tally_zero(n - 1, p);
    }
}

proof fn lemma_tally_all(n: int)
    requires
        n >= 0,
    ensures
        tally(n, |k: int| true) == n,
    decreases n,
{
    if n > 0 {
        lemma_tally_all(n - 1);
    }
}

/// A prefix of the whole shares is no more than the total.
proof fn lemma_leftover_partial(total: int, ws: Seq<u16>, k: int)
    requires
        total >= 0,
        ws.len() > 0,
        0 <= k <= ws.len(),
    ensures
        0 <= shares_total(total, ws, k) <= total,
{
    lemma_shares_and_remainders(total, ws, k);
    lemma_weight_total_prefix(ws, k);
    let s = weight_total(ws);
    let used = shares_total(total, ws, k);
    let r = remainders_total(total, ws, k);
    let wk = weight_total(ws.take(k));
    lemma_weight_total_lower(ws);
    assert(s > 0);
    assert(used <= total) by (nonlinear_arith)
        requires
            used * s + r == total * wk,
            r >= 0,
            wk <= s,
            total >= 0,
            s > 0,
    ;
}

/// One slot's share plus its leftover cell never exceeds the total.
proof fn lemma_share_cap(total: int, ws: Seq<u16>, i: int)
    requires
        total >= 0,
        0 <= i < ws.len(),
    ensures
        share_of(total, ws, i) + (if rank_of(total, ws, i) < leftover_of(total, ws) {
            1int
        } else {
            0int
        }) <= total,
        share_of(total, ws, i) >= 0,
{
    lemma_leftover_bounds(total, ws);
    lemma_shares_single(total, ws, i, ws.len() as int);
}

/// One slot's whole share is part of the shares of any prefix containing it.
proof fn lemma_shares_single(total: int, ws: Seq<u16>, i: int, k: int)
    requires
        total >= 0,
        0 <= i < k <= ws.len(),
    ensures
        share_of(total, ws, i) <= shares_total(total, ws, k),
        share_of(total, ws, i) >= 0,
    decreases k,
{
    lemma_weight_total_lower(ws);
    lemma_shares_nonneg(total, ws, k);
    let uw = unit_weight(ws[i]);
    let x = total * uw;
    assert(x >= 0) by (nonlinear_arith)
        requires
            total >= 0,
            uw >= 1,
            x == total * uw,
    ;
    lemma_div_mod(x, weight_total(ws));
    if i < k - 1 {
        lemma_shares_single(total, ws, i, k - 1);
        lemma_div_mod(total * unit_weight(ws[k - 1]), weight_total(ws));
    } else {
        lemma_shares_nonneg(total, ws, k - 1);
    }
}

proof fn lemma_shares_nonneg(total: int, ws: Seq<u16>, k: int)
    requires
        total >= 0,
        0 <= k <= ws.len(),
    ensures
        shares_total(total, ws, k) >= 0,
    decreases k,
{
    lemma_weight_total_lower(ws);
    if k > 0 {
        lemma_shares_nonneg(total, ws, k - 1);
        let uw = unit_weight(ws[k - 1]);
        let x = total * uw;
        assert(x >= 0) by (nonlinear_arith)
            requires
                total >= 0,
                uw >= 1,
                x == total * uw,
        ;
        if ws.len() > 0 {
            lemma_div_mod(x, weight_total(ws));
        }
    }
}


/// The size past which a slot can use no more space, if it declared one.
pub open spec fn bounded(m: Option<u16>) -> bool {
    m is Some
}

pub open spec fn limit(m: Option<u16>) -> u16 {
    match m {
        Some(v) => v,
        None => 0,
    }
}

/// Slot `i` holds more than it can use.
pub open spec fn is_over(s: Seq<u16>, mx: Seq<Option<u16>>, i: int) -> bool {
    bounded(mx[i]) && s[i] > limit(mx[i])
}

/// Slot `i` has reached (or passed) its declared limit.
pub open spec fn is_full(s: Seq<u16>, mx: Seq<Option<u16>>, i: int) -> bool {
    bounded(mx[i]) && s[i] >= limit(mx[i])
}

/// Slot `i` could still use more space.
pub open spec fn is_taker(s: Seq<u16>, mx: Seq<Option<u16>>, i: int) -> bool {
    !bounded(mx[i]) || s[i] < limit(mx[i])
}

pub open spec fn full_pred(s: Seq<u16>, mx: Seq<Option<u16>>) -> spec_fn(int) -> bool {
    |i: int| is_full(s, mx, i)
}

pub open spec fn taker_pred(s: Seq<u16>, mx: Seq<Option<u16>>) -> spec_fn(int) -> bool {
    |i: int| is_taker(s, mx, i)
}

/// Every slot cut back to its limit.
pub open spec fn capped(s: Seq<u16>, mx: Seq<Option<u16>>) -> Seq<u16> {
    Seq::new(s.len(), |i: int| if is_over(s, mx, i) { limit(mx[i]) } else { s[i] })
}

/// What cutting every slot back to its limit frees.
pub open spec fn surplus_of(s: Seq<u16>, mx: Seq<Option<u16>>) -> int {
    cells(s) - cells(capped(s, mx))
}

/// A weight of at least one, as handed to the slots that take a surplus.
pub open spec fn at_least_one(w: u16) -> u16 {
    if w == 0 {
        1
    } else {
        w
    }
}

/// The weights of the takers among the first `k` slots, in slot order.
pub open spec fn taker_weights(ws: Seq<u16>, s: Seq<u16>, mx: Seq<Option<u16>>, k: int) -> Seq<u16>
    decreases k,
{
    if k <= 0 {
        Seq::empty()
    } else if is_taker(s, mx, k - 1) {
        taker_weights(ws, s, mx, k - 1).push(at_least_one(ws[k - 1]))
    } else {
        taker_weights(ws, s, mx, k - 1)
    }
}

pub open spec fn sat_add(a: u16, b: u16) -> u16 {
    if a + b > u16::MAX {
        u16::MAX
    } else {
        (a + b) as u16
    }
}

/// Hand `extra[k]` to the `k`th taker.
pub open spec fn spread(c: Seq<u16>, mx: Seq<Option<u16>>, extra: Seq<u16>) -> Seq<u16> {
    Seq::new(
        c.len(),
        |i: int|
            if is_taker(c, mx, i) {
                sat_add(c[i], extra[tally(i, taker_pred(c, mx)) as int])
            } else {
                c[i]
            },
    )
}

/// Hand `extra[i]` to every slot `i`.
pub open spec fn add_each(c: Seq<u16>, extra: Seq<u16>) -> Seq<u16> {
    Seq::new(c.len(), |i: int| sat_add(c[i], extra[i]))
}

/// Passes of capping and re-sharing, at most `fuel` of them. Each pass cuts
/// back whoever is over its limit and shares what they gave up among the
/// slots that can still grow; when none can, the surplus is spread back over
/// every slot in proportion, so no cell is left unallocated.
pub open spec fn settle(s: Seq<u16>, ws: Seq<u16>, mx: Seq<Option<u16>>, fuel: nat) -> Seq<u16>
    decreases fuel,
{
    if fuel == 0 {
        s
    } else {
        let c = capped(s, mx);
        let surplus = surplus_of(s, mx);
        if surplus == 0 {
            c
        } else if tally(s.len() as int, taker_pred(c, mx)) == 0 {
            add_each(c, proportional_spec(surplus as u16, ws))
        } else {
            settle(
                spread(c, mx, proportional_spec(surplus as u16, taker_weights(ws, c, mx, s.len() as int))),
                ws,
                mx,
                (fuel - 1) as nat,
            )
        }
    }
}

/// `total` cells shared across slots weighted `ws`, none given more than its
/// limit in `mx` while another can still use the space.
pub open spec fn distribute_spec(total: u16, ws: Seq<u16>, mx: Seq<Option<u16>>) -> Seq<u16> {
    if ws.len() == 0 || total == 0 {
        Seq::new(ws.len(), |i: int| 0u16)
    } else {
        settle(proportional_spec(total, ws), ws, mx, ws.len())
    }
}

/// Every one of the first `n` slots declared a limit.
pub open spec fn all_bounded(mx: Seq<Option<u16>>, n: int) -> bool {
    forall|i: int| 0 <= i < n ==> bounded(#[trigger] mx[i])
}

/// The limits of the first `n` slots, as sizes.
pub open spec fn limits(mx: Seq<Option<u16>>, n: int) -> Seq<u16> {
    Seq::new(n as nat, |i: int| limit(mx[i]))
}

proof fn lemma_weight_total_push(s: Seq<u16>, w: u16)
    ensures
        weight_total(s.push(w)) == weight_total(s) + unit_weight(w),
{
    assert(s.push(w).drop_last() =~= s);
}

proof fn lemma_taker_weights(ws: Seq<u16>, s: Seq<u16>, mx: Seq<Option<u16>>, k: int)
    requires
        0 <= k <= ws.len(),
    ensures
        taker_weights(ws, s, mx, k).len() == tally(k, taker_pred(s, mx)),
        weight_total(taker_weights(ws, s, mx, k)) <= weight_total(ws.take(k)),
    decreases k,
{
    if k > 0 {
        lemma_taker_weights(ws, s, mx, k - 1);
        lemma_weight_total_take(ws, k - 1);
        if is_taker(s, mx, k - 1) {
            lemma_weight_total_push(taker_weights(ws, s, mx, k - 1), at_least_one(ws[k - 1]));
        }
    }
}

/// Nothing is over its limit: the passes change nothing.
proof fn lemma_settle_quiet(s: Seq<u16>, ws: Seq<u16>, mx: Seq<Option<u16>>, fuel: nat)
    requires
        forall|i: int| 0 <= i < s.len() ==> !#[trigger] is_over(s, mx, i),
    ensures
        settle(s, ws, mx, fuel) == s,
{
    if fuel > 0 {
        assert(capped(s, mx) =~= s);
    }
}

/// Split `total` cells across `weights`, giving no slot more than its maximum
/// and handing what it declines to the slots that can still use it.
///
/// When every slot is bounded there is nobody left who can use the surplus,
/// and it is spread back across the whole row rather than left unallocated:
/// panels draw their own frames, so a gap would show as a hole in the middle
/// of the dashboard. Better every panel slightly over its maximum than a seam.
pub fn distribute(total: u16, weights: &Vec<u16>, maxima: &Vec<Option<u16>>) -> (sizes: Vec<u16>)
    requires
        maxima.len() >= weights.len(),
        weight_total(weights@) <= u32::MAX,
    ensures
        sizes@ == distribute_spec(total, weights@, maxima@),
        sizes.len() == weights.len(),
        // Every cell is allocated, however the weights divide.
        weights.len() > 0 && total > 0 ==> cells(sizes@) == total,
        // Nobody passes its limit while the limits can hold the total.
        !(all_bounded(maxima@, weights.len() as int) && total > cells(
            limits(maxima@, weights.len() as int),
        )) ==> forall|i: int| 0 <= i < weights.len() ==> !#[trigger] is_over(sizes@, maxima@, i),
        // When they cannot, everybody is at its limit and the overshoot is
        // shared in proportion to the weights.
        weights.len() > 0 && all_bounded(maxima@, weights.len() as int) && total > cells(
            limits(maxima@, weights.len() as int),
        ) ==> sizes@ == add_each(
            limits(maxima@, weights.len() as int),
            proportional_spec(
                (total - cells(limits(maxima@, weights.len() as int))) as u16,
                weights@,
            ),
        ),
        // ... each slot exactly its limit plus its part of the overshoot:
        // nothing is cut off at the top.
        weights.len() > 0 && all_bounded(maxima@, weights.len() as int) && total > cells(
            limits(maxima@, weights.len() as int),
        ) ==> forall|i: int|
            0 <= i < weights.len() ==> #[trigger] sizes@[i] == limits(maxima@, weights.len() as int)[i]
                + proportional_spec(
                (total - cells(limits(maxima@, weights.len() as int))) as u16,
                weights@,
            )[i],
        // A limit nobody reaches changes nothing.
        weights.len() > 0 && total > 0 && (forall|i: int|
            0 <= i < weights.len() ==> !#[trigger] is_over(
                proportional_spec(total, weights@),
                maxima@,
                i,
            )) ==> sizes@ == proportional_spec(total, weights@),
{
    let count = weights.len();
    let ghost ws = weights@;
    let ghost mx = maxima@;
    if count == 0 || total == 0 {
        let zeros: Vec<u16> = vec![0; count];
        assert(zeros@ =~= distribute_spec(total, ws, mx));
        proof {
            lemma_cells_nonneg(limits(mx, count as int));
        }
        return zeros;
    }
    let mut sizes = proportional(total, weights);
    proof {
        lemma_distribute_start(total, ws, mx);
        lemma_tally_bounds(count as int, full_pred(sizes@, mx));
        if exists|i: int| 0 <= i < count && #[trigger] is_over(sizes@, mx, i) {
            let i = choose|i: int| 0 <= i < count && #[trigger] is_over(sizes@, mx, i);
            lemma_tally_counts_member(i, count as int, full_pred(sizes@, mx));
        }
    }
    let mut pass: usize = 0;
    while pass < count
        invariant_except_break
            pass <= count,
            distribute_spec(total, ws, mx) == settle(sizes@, ws, mx, (count - pass) as nat),
            (exists|i: int| 0 <= i < count && #[trigger] is_over(sizes@, mx, i)) ==> tally(
                count as int,
                full_pred(sizes@, mx),
            ) >= pass + 1,
            tally(count as int, full_pred(sizes@, mx)) <= count,
        invariant
            ws == weights@,
            mx == maxima@,
            count == ws.len(),
            count > 0,
            total > 0,
            mx.len() >= count,
            weight_total(ws) <= u32::MAX,
            sizes.len() == count,
            cells(sizes@) == total,
        ensures
            sizes@ == distribute_spec(total, ws, mx),
            (forall|i: int| 0 <= i < count ==> !#[trigger] is_over(sizes@, mx, i)) || (
            all_bounded(mx, count as int) && total > cells(limits(mx, count as int)) && sizes@
                == add_each(
                limits(mx, count as int),
                proportional_spec((total - cells(limits(mx, count as int))) as u16, ws),
            )),
        decreases count - pass,
    {
        let ghost start = sizes@;
        // Cap whoever is over.
        let mut surplus: u32 = 0;
        let mut i: usize = 0;
        while i < count
            invariant
                mx == maxima@,
                count == start.len(),
                mx.len() >= count,
                i <= count,
                sizes.len() == count,
                forall|k: int|
                    0 <= k < count ==> #[trigger] sizes@[k] == if k < i && is_over(start, mx, k) {
                        limit(mx[k])
                    } else {
                        start[k]
                    },
                surplus == cells(start) - cells(sizes@),
                cells(start) == total,
            decreases count - i,
        {
            proof {
                lemma_cells_nonneg(sizes@);
            }
            if let Some(max) = maxima[i] {
                if sizes[i] > max {
                    let ghost before = sizes@;
                    let over = sizes[i] - max;
                    sizes.set(i, max);
                    proof {
                        lemma_cells_update(before, i as int, max);
                        lemma_cells_nonneg(sizes@);
                    }
                    surplus = surplus + over as u32;
                }
            }
            i = i + 1;
        }
        proof {
            assert(sizes@ =~= capped(start, mx));
            lemma_cells_nonneg(sizes@);
            lemma_capped_facts(start, mx);
        }
        let ghost c = sizes@;
        if surplus == 0 {
            proof {
                lemma_no_surplus(start, mx);
            }
            break;
        }
        let surplus16: u16 = surplus as u16;

        // Who can still grow, and their weights.
        let mut takers: Vec<usize> = Vec::new();
        let mut taker_ws: Vec<u16> = Vec::new();
        let mut i: usize = 0;
        while i < count
            invariant
                ws == weights@,
                mx == maxima@,
                c == sizes@,
                count == ws.len(),
                mx.len() >= count,
                sizes.len() == count,
                i <= count,
                takers.len() == tally(i as int, taker_pred(c, mx)),
                taker_ws@ == taker_weights(ws, c, mx, i as int),
                forall|k: int|
                    0 <= k < takers.len() ==> {
                        let slot = #[trigger] takers[k] as int;
                        &&& 0 <= slot < i
                        &&& is_taker(c, mx, slot)
                        &&& tally(slot, taker_pred(c, mx)) == k
                    },
            decreases count - i,
        {
            let taker = match maxima[i] {
                None => true,
                Some(max) => sizes[i] < max,
            };
            if taker {
                takers.push(i);
                let w = weights[i];
                taker_ws.push(if w == 0 { 1 } else { w });
            }
            i = i + 1;
        }
        proof {
            lemma_taker_weights(ws, c, mx, count as int);
            lemma_weight_total_prefix(ws, count as int);
            assert(ws.take(count as int) =~= ws);
        }

        if takers.len() == 0 {
            // Every slot is at its declared maximum and there are still cells
            // to place. Spread them across the row in proportion, so the
            // overshoot is shared rather than landing on one slot.
            let extra = proportional(surplus16, weights);
            proof {
                lemma_everyone_full(c, mx, count as int);
            }
            let mut i: usize = 0;
            while i < count
                invariant
                    count == c.len(),
                    extra.len() == count,
                    sizes.len() == count,
                    i <= count,
                    forall|k: int|
                        0 <= k < count ==> #[trigger] sizes@[k] == if k < i {
                            sat_add(c[k], extra[k])
                        } else {
                            c[k]
                        },
                    cells(sizes@) == cells(c) + cells(extra@.take(i as int)),
                    cells(c) + cells(extra@) == total,
                decreases count - i,
            {
                proof {
                    lemma_cells_take_step(extra@, i as int);
                    lemma_cells_prefix_le(extra@, i as int + 1);
                    lemma_cells_bounds_each(sizes@, i as int);
                    lemma_cells_nonneg(extra@.take(i as int));
                }
                let ghost before = sizes@;
                let grown = sizes[i].saturating_add(extra[i]);
                sizes.set(i, grown);
                proof {
                    lemma_cells_update(before, i as int, grown);
                }
                i = i + 1;
            }
            proof {
                lemma_cells_take_all(extra@);
                assert(sizes@ =~= add_each(c, extra@));
                assert(c =~= limits(mx, count as int));
            }
            break;
        }

        let extra = proportional(surplus16, &taker_ws);
        let ghost tp = taker_pred(c, mx);
        let mut k: usize = 0;
        while k < takers.len()
            invariant
                count == c.len(),
                mx.len() >= count,
                tp == taker_pred(c, mx),
                takers.len() == tally(count as int, tp),
                takers.len() > 0,
                extra.len() == takers.len(),
                sizes.len() == count,
                k <= takers.len(),
                forall|j: int|
                    0 <= j < takers.len() ==> {
                        let slot = #[trigger] takers[j] as int;
                        &&& 0 <= slot < count
                        &&& is_taker(c, mx, slot)
                        &&& tally(slot, tp) == j
                    },
                forall|j: int|
                    0 <= j < count ==> #[trigger] sizes@[j] == if is_taker(c, mx, j) && tally(j, tp)
                        < k {
                        sat_add(c[j], extra[tally(j, tp) as int])
                    } else {
                        c[j]
                    },
                cells(sizes@) == cells(c) + cells(extra@.take(k as int)),
                cells(c) + cells(extra@) == total,
            decreases takers.len() - k,
        {
            let slot = takers[k];
            proof {
                lemma_cells_take_step(extra@, k as int);
                lemma_cells_prefix_le(extra@, k as int + 1);
                lemma_cells_bounds_each(sizes@, slot as int);
                lemma_cells_nonneg(extra@.take(k as int));
                assert forall|j: int|
                    0 <= j < count && j != slot && is_taker(c, mx, j) implies tally(j, tp) != k by {
                    if j < slot {
                        lemma_tally_counts_member(j, slot as int, tp);
                    } else {
                        lemma_tally_counts_member(slot as int, j, tp);
                    }
                }
            }
            let ghost before = sizes@;
            let grown = sizes[slot].saturating_add(extra[k]);
            sizes.set(slot, grown);
            proof {
                lemma_cells_update(before, slot as int, grown);
            }
            k = k + 1;
        }
        proof {
            lemma_cells_take_all(extra@);
            assert forall|j: int| 0 <= j < count && is_taker(c, mx, j) implies tally(j, tp) < k by {
                lemma_tally_counts_member(j, count as int, tp);
            }
            assert(sizes@ =~= spread(c, mx, extra@));
            lemma_pass_progress(start, c, sizes@, mx, count as int, pass as int);
            lemma_tally_bounds(count as int, full_pred(sizes@, mx));
        }
        pass = pass + 1;
    }
    proof {
        lemma_distribute_laws(total, ws, mx, sizes@);
        if all_bounded(mx, count as int) && total > cells(limits(mx, count as int)) {
            lemma_overshoot_unsaturated(total, ws, mx);
        }
    }
    sizes
}

proof fn lemma_cells_prefix_le(s: Seq<u16>, k: int)
    requires
        0 <= k <= s.len(),
    ensures
        cells(s.take(k)) <= cells(s),
        cells(s.take(k)) >= 0,
    decreases s.len() - k,
{
    lemma_cells_nonneg(s.take(k));
    if k < s.len() {
        lemma_cells_prefix_le(s, k + 1);
        lemma_cells_take_step(s, k);
    } else {
        assert(s.take(k) =~= s);
    }
}

/// The first passes start from the proportional split, which covers the
/// total exactly.
proof fn lemma_distribute_start(total: u16, ws: Seq<u16>, mx: Seq<Option<u16>>)
    requires
        ws.len() > 0,
        total > 0,
    ensures
        distribute_spec(total, ws, mx) == settle(proportional_spec(total, ws), ws, mx, ws.len()),
{
}

/// Capping frees exactly what was over, keeps the full slots full, and
/// leaves nobody over.
proof fn lemma_capped_facts(s: Seq<u16>, mx: Seq<Option<u16>>)
    requires
        mx.len() >= s.len(),
    ensures
        forall|i: int| 0 <= i < s.len() ==> !#[trigger] is_over(capped(s, mx), mx, i),
        forall|i: int| 0 <= i < s.len() ==> #[trigger] is_full(capped(s, mx), mx, i) == is_full(s, mx, i),
        cells(capped(s, mx)) <= cells(s),
{
    lemma_cells_le(capped(s, mx), s);
}

/// Nothing over means nothing to cap.
proof fn lemma_no_surplus(s: Seq<u16>, mx: Seq<Option<u16>>)
    requires
        mx.len() >= s.len(),
        cells(s) == cells(capped(s, mx)),
    ensures
        forall|i: int| 0 <= i < s.len() ==> !#[trigger] is_over(s, mx, i),
        capped(s, mx) == s,
{
    assert forall|i: int| 0 <= i < s.len() implies !#[trigger] is_over(s, mx, i) by {
        if is_over(s, mx, i) {
            let c = capped(s, mx);
            assert forall|j: int| 0 <= j < c.len() implies c[j] <= s[j] by {}
            lemma_cells_strict(c, s, i);
        }
    }
    assert(capped(s, mx) =~= s);
}

/// Slot-by-slot no larger, and smaller somewhere, totals strictly smaller.
proof fn lemma_cells_strict(a: Seq<u16>, b: Seq<u16>, w: int)
    requires
        a.len() == b.len(),
        forall|i: int| 0 <= i < a.len() ==> a[i] <= b[i],
        0 <= w < a.len(),
        a[w] < b[w],
    ensures
        cells(a) < cells(b),
    decreases a.len(),
{
    if w == a.len() - 1 {
        lemma_cells_le(a.drop_last(), b.drop_last());
    } else {
        lemma_cells_strict(a.drop_last(), b.drop_last(), w);
    }
}

/// No taker left means every slot is bounded and sitting at its limit.
proof fn lemma_everyone_full(c: Seq<u16>, mx: Seq<Option<u16>>, n: int)
    requires
        n == c.len(),
        mx.len() >= n,
        tally(n, taker_pred(c, mx)) == 0,
        forall|i: int| 0 <= i < n ==> !#[trigger] is_over(c, mx, i),
    ensures
        all_bounded(mx, n),
        c == limits(mx, n),
{
    assert forall|i: int| 0 <= i < n implies !#[trigger] is_taker(c, mx, i) by {
        if is_taker(c, mx, i) {
            lemma_tally_counts_member(i, n, taker_pred(c, mx));
        }
    }
    assert forall|i: int| 0 <= i < n implies bounded(#[trigger] mx[i]) by {
        assert(!is_taker(c, mx, i));
    }
    assert forall|i: int| 0 <= i < n implies #[trigger] c[i] == limit(mx[i]) by {
        assert(!is_taker(c, mx, i));
        assert(!is_over(c, mx, i));
    }
    assert(c =~= limits(mx, n));
}

/// A pass that re-shares a surplus fills at least one more slot, whenever
/// something is left over afterwards.
proof fn lemma_pass_progress(
    start: Seq<u16>,
    c: Seq<u16>,
    next: Seq<u16>,
    mx: Seq<Option<u16>>,
    n: int,
    pass: int,
)
    requires
        n == start.len(),
        n == c.len(),
        n == next.len(),
        mx.len() >= n,
        c == capped(start, mx),
        (exists|i: int| 0 <= i < n && #[trigger] is_over(start, mx, i)) ==> tally(
            n,
            full_pred(start, mx),
        ) >= pass + 1,
        cells(c) < cells(start),
        forall|j: int| 0 <= j < n && !is_taker(c, mx, j) ==> #[trigger] next[j] == c[j],
        forall|j: int| 0 <= j < n ==> c[j] <= #[trigger] next[j],
    ensures
        (exists|i: int| 0 <= i < n && #[trigger] is_over(next, mx, i)) ==> tally(
            n,
            full_pred(next, mx),
        ) >= pass + 2,
{
    // Something was over, so something was full.
    if !(exists|i: int| 0 <= i < n && c[i] < start[i]) {
        assert forall|i: int| 0 <= i < n implies c[i] >= start[i] by {}
        lemma_cells_le(start, c);
    }
    let w0 = choose|i: int| 0 <= i < n && c[i] < start[i];
    assert(is_over(start, mx, w0));
    lemma_capped_facts(start, mx);
    let cf = full_pred(c, mx);
    let nf = full_pred(next, mx);
    lemma_tally_same(n, full_pred(start, mx), cf);
    assert forall|j: int| 0 <= j < n && #[trigger] cf(j) implies nf(j) by {}
    if exists|i: int| 0 <= i < n && #[trigger] is_over(next, mx, i) {
        let w = choose|i: int| 0 <= i < n && #[trigger] is_over(next, mx, i);
        assert(!cf(w));
        lemma_tally_strict(n, cf, nf, w);
    }
}

proof fn lemma_tally_zero_of_none(n: int, p: spec_fn(int) -> bool)
    requires
        forall|i: int| 0 <= i < n ==> !#[trigger] p(i),
    ensures
        tally(n, p) == 0,
    decreases n,
{
    if n > 0 {
        lemma_tally_zero_of_none(n - 1, p);
    }
}

/// The laws of `distribute`, from how its passes ended.
proof fn lemma_distribute_laws(total: u16, ws: Seq<u16>, mx: Seq<Option<u16>>, sizes: Seq<u16>)
    requires
        ws.len() > 0,
        total > 0,
        mx.len() >= ws.len(),
        sizes.len() == ws.len(),
        cells(sizes) == total,
        sizes == distribute_spec(total, ws, mx),
        (forall|i: int| 0 <= i < ws.len() ==> !#[trigger] is_over(sizes, mx, i)) || (all_bounded(
            mx,
            ws.len() as int,
        ) && total > cells(limits(mx, ws.len() as int)) && sizes == add_each(
            limits(mx, ws.len() as int),
            proportional_spec((total - cells(limits(mx, ws.len() as int))) as u16, ws),
        )),
    ensures
        !(all_bounded(mx, ws.len() as int) && total > cells(limits(mx, ws.len() as int)))
            ==> forall|i: int| 0 <= i < ws.len() ==> !#[trigger] is_over(sizes, mx, i),
        all_bounded(mx, ws.len() as int) && total > cells(limits(mx, ws.len() as int)) ==> sizes
            == add_each(
            limits(mx, ws.len() as int),
            proportional_spec((total - cells(limits(mx, ws.len() as int))) as u16, ws),
        ),
        (forall|i: int|
            0 <= i < ws.len() ==> !#[trigger] is_over(proportional_spec(total, ws), mx, i))
            ==> sizes == proportional_spec(total, ws),
{
    let n = ws.len() as int;
    let lim = limits(mx, n);
    if all_bounded(mx, n) && total > cells(lim) {
        if forall|i: int| 0 <= i < n ==> !#[trigger] is_over(sizes, mx, i) {
            assert forall|i: int| 0 <= i < n implies sizes[i] <= lim[i] by {
                assert(!is_over(sizes, mx, i));
                assert(bounded(mx[i]));
            }
            lemma_cells_le(sizes, lim);
        }
    }
    if forall|i: int|
        0 <= i < n ==> !#[trigger] is_over(proportional_spec(total, ws), mx, i) {
        lemma_settle_quiet(proportional_spec(total, ws), ws, mx, ws.len());
    }
}

/// When every slot is at its limit and cells are left over, adding each
/// slot's part of the overshoot to its limit never passes the top: a limit
/// is part of the limits' total, a part of the overshoot is part of the
/// overshoot, and together they make at most `total`.
proof fn lemma_overshoot_unsaturated(total: u16, ws: Seq<u16>, mx: Seq<Option<u16>>)
    requires
        ws.len() > 0,
        mx.len() >= ws.len(),
        total > cells(limits(mx, ws.len() as int)),
    ensures
        forall|i: int|
            0 <= i < ws.len() ==> #[trigger] add_each(
                limits(mx, ws.len() as int),
                proportional_spec((total - cells(limits(mx, ws.len() as int))) as u16, ws),
            )[i] == limits(mx, ws.len() as int)[i] + proportional_spec(
                (total - cells(limits(mx, ws.len() as int))) as u16,
                ws,
            )[i],
{
    let n = ws.len() as int;
    let lim = limits(mx, n);
    let rest = (total - cells(lim)) as u16;
    assert forall|i: int| 0 <= i < n implies #[trigger] add_each(lim, proportional_spec(rest, ws))[i]
        == lim[i] + proportional_spec(rest, ws)[i] by {
        lemma_share_cap(rest as int, ws, i);
        lemma_cells_bounds_each(lim, i);
        assert(proportional_cell(rest as int, ws, i) <= rest);
        assert(proportional_spec(rest, ws)[i] == proportional_cell(rest as int, ws, i));
    }
}

/// Largest remainder: a slot that gets one of the leftover cells is ahead in
/// line of every slot that does not, by a larger remainder or, on a tie, by
/// coming first.
pub proof fn leftover_cells_go_to_the_largest_remainders(total: u16, ws: Seq<u16>, i: int, j: int)
    requires
        0 <= i < ws.len(),
        0 <= j < ws.len(),
        proportional_cell(total as int, ws, i) == share_of(total as int, ws, i) + 1,
        proportional_cell(total as int, ws, j) == share_of(total as int, ws, j),
    ensures
        (total as int) * unit_weight(ws[i]) % weight_total(ws) > (total as int) * unit_weight(ws[j])
            % weight_total(ws) || ((total as int) * unit_weight(ws[i]) % weight_total(ws) == (
        total as int) * unit_weight(ws[j]) % weight_total(ws) && i < j),
        proportional_cell(total as int, ws, i) == (total as int) * unit_weight(ws[i]) / weight_total(
            ws,
        ) + 1,
{
    let t = total as int;
    let n = ws.len() as int;
    lemma_ahead_total_order(t, ws, i, j);
    if !ahead_of(t, ws, i, j) {
        assert(i != j);
        assert(ahead_of(t, ws, j, i));
        assert forall|k: int| 0 <= k < n && #[trigger] ahead_pred(t, ws, j)(k) implies ahead_pred(
            t,
            ws,
            i,
        )(k) by {}
        lemma_tally_strict(n, ahead_pred(t, ws, j), ahead_pred(t, ws, i), j);
        lemma_ahead_total_order(t, ws, j, j);
    }
}

/// With no slot declaring a limit, space is split by weight alone.
pub proof fn unlimited_slots_are_split_by_weight(total: u16, ws: Seq<u16>, mx: Seq<Option<u16>>)
    requires
        mx.len() >= ws.len(),
        forall|i: int| 0 <= i < ws.len() ==> #[trigger] mx[i] is None,
    ensures
        distribute_spec(total, ws, mx) == proportional_spec(total, ws),
{
    let n = ws.len() as int;
    if n == 0 {
        assert(distribute_spec(total, ws, mx) =~= proportional_spec(total, ws));
    } else if total == 0 {
        lemma_leftover_partial(0, ws, n);
        lemma_weight_total_lower(ws);
        let wt = weight_total(ws);
        assert(0int / wt == 0) by (nonlinear_arith)
            requires
                wt > 0,
        ;
        assert forall|i: int| 0 <= i < n implies #[trigger] proportional_cell(0, ws, i) == 0 by {
            assert(0 * unit_weight(ws[i]) == 0);
            assert(share_of(0, ws, i) == 0);
            assert(leftover_of(0, ws) == 0);
        }
        assert(distribute_spec(total, ws, mx) =~= proportional_spec(total, ws));
    } else {
        lemma_settle_quiet(proportional_spec(total, ws), ws, mx, ws.len());
    }
}

} // verus!
