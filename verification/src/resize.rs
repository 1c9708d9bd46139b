//! Resizing from the keyboard: weight moves between neighbours, the way tmux
//! does it. Widening one panel narrows its neighbour and nothing else on
//! screen moves, because the total stays fixed.

use vstd::prelude::*;

verus! {

/// Smallest weight a panel or row may be squeezed to.
pub const MIN_WEIGHT: u16 = 1;

/// The sum of the weights.
pub open spec fn weight_sum(ws: Seq<u16>) -> int
    decreases ws.len(),
{
    if ws.len() == 0 {
        0
    } else {
        weight_sum(ws.drop_last()) + ws.last()
    }
}

/// The step a transfer moves: a fiftieth of the total, at least one, so that
/// `width = 60` and `width = 3` are both usable ways to write a layout. A
/// fiftieth too large for a weight counts as one.
pub open spec fn step_of(total: int) -> u16 {
    let q = total / 50;
    if q > u16::MAX || q == 0 {
        1
    } else {
        q as u16
    }
}

/// `a + b`, stopping at the top.
pub open spec fn plus(a: u16, b: u16) -> u16 {
    if a + b > u16::MAX {
        u16::MAX
    } else {
        (a + b) as u16
    }
}

/// How far `w` can shrink before it reaches [`MIN_WEIGHT`].
pub open spec fn room(w: u16) -> u16 {
    if w >= MIN_WEIGHT {
        (w - MIN_WEIGHT) as u16
    } else {
        0
    }
}

/// The step actually moved from `donor`: the usual step, limited so the
/// donor keeps at least [`MIN_WEIGHT`].
pub open spec fn moved_step(ws: Seq<u16>, donor: int) -> u16 {
    let s = step_of(weight_sum(ws));
    if s <= room(ws[donor]) {
        s
    } else {
        room(ws[donor])
    }
}

/// What moving weight from `donor` to `taker` does: nothing when either is
/// missing or the donor is already at the minimum, and otherwise the taker
/// grows by the step and the donor shrinks by it.
pub open spec fn transferred(before: Seq<u16>, taker: int, donor: int, after: Seq<u16>, moved: bool) -> bool {
    if !(0 <= taker < before.len() && 0 <= donor < before.len()) {
        !moved && after == before
    } else {
        let step = moved_step(before, donor);
        if step == 0 {
            !moved && after == before
        } else {
            moved && after == before.update(taker, plus(before[taker], step)).update(
                donor,
                (before[donor] - step) as u16,
            )
        }
    }
}

/// The neighbour to trade space with: the next one along, or the previous
/// one when `index` is last. `None` when there is nobody to trade with.
pub open spec fn neighbour_spec(index: int, len: int) -> Option<int> {
    if len < 2 {
        None
    } else if index + 1 < len {
        Some(index + 1)
    } else if index >= 1 {
        Some(index - 1)
    } else {
        None
    }
}

/// What growing (or shrinking) entry `index` against its neighbour does.
pub open spec fn resized(before: Seq<u16>, index: int, grow: bool, after: Seq<u16>, moved: bool) -> bool {
    match neighbour_spec(index, before.len() as int) {
        None => !moved && after == before,
        Some(n) => if grow {
            transferred(before, index, n, after, moved)
        } else {
            transferred(before, n, index, after, moved)
        },
    }
}

/// The index to trade space with: the next one along, or the previous one
/// when `index` is last. `None` when there is nobody to trade with.
pub fn neighbour_of(index: usize, len: usize) -> (r: Option<usize>)
    ensures
        match neighbour_spec(index as int, len as int) {
            Some(n) => r == Some(n as usize),
            None => r is None,
        },
{
    if len < 2 {
        return None;
    }
    if index < len - 1 {
        Some(index + 1)
    } else if index >= 1 {
        Some(index - 1)
    } else {
        None
    }
}

proof fn lemma_weight_sum_update(ws: Seq<u16>, i: int, v: u16)
    requires
        0 <= i < ws.len(),
    ensures
        weight_sum(ws.update(i, v)) == weight_sum(ws) - ws[i] + v,
    decreases ws.len(),
{
    let u = ws.update(i, v);
    if i == ws.len() - 1 {
        assert(u.drop_last() =~= ws.drop_last());
    } else {
        assert(u.drop_last() =~= ws.drop_last().update(i, v));
        lemma_weight_sum_update(ws.drop_last(), i, v);
    }
}

proof fn lemma_weight_sum_nonneg(ws: Seq<u16>)
    ensures
        weight_sum(ws) >= 0,
    decreases ws.len(),
{
    if ws.len() > 0 {
        lemma_weight_sum_nonneg(ws.drop_last());
    }
}

/// Move a step of weight from `donor` to `taker`, keeping the total, and
/// report whether anything moved. A donor at the minimum gives nothing: a
/// panel squeezed out of existence could not be focused, and so could not
/// be given its space back.
pub fn transfer(weights: &mut Vec<u16>, taker: usize, donor: usize) -> (moved: bool)
    requires
        weight_sum(old(weights)@) <= u32::MAX,
    ensures
        transferred(old(weights)@, taker as int, donor as int, final(weights)@, moved),
{
    let mut total: u32 = 0;
    let mut i: usize = 0;
    while i < weights.len()
        invariant
            i <= weights.len(),
            total == weight_sum(weights@.take(i as int)),
            weight_sum(weights@) <= u32::MAX,
            weights@ == old(weights)@,
        decreases weights.len() - i,
    {
        proof {
            assert(weights@.take(i as int + 1).drop_last() =~= weights@.take(i as int));
            lemma_weight_sum_update(weights@.take(i as int + 1), 0, 0);
            let rest = weights@.skip(i as int + 1);
            assert(weights@ =~= weights@.take(i as int + 1) + rest);
            lemma_weight_sum_concat(weights@.take(i as int + 1), rest);
            lemma_weight_sum_nonneg(rest);
        }
        total = total + weights[i] as u32;
        i = i + 1;
    }
    assert(weights@.take(i as int) =~= weights@);
    let quotient = total / 50;
    let step: u16 = if quotient > 65535 || quotient == 0 {
        1
    } else {
        quotient as u16
    };
    if taker >= weights.len() || donor >= weights.len() {
        return false;
    }
    let grows = weights[taker];
    let shrinks = weights[donor];
    let spare: u16 = if shrinks >= MIN_WEIGHT {
        shrinks - MIN_WEIGHT
    } else {
        0
    };
    let step = if step <= spare {
        step
    } else {
        spare
    };
    if step == 0 {
        return false;
    }
    let grown: u16 = if grows as u32 + step as u32 > 65535 {
        65535
    } else {
        grows + step
    };
    weights.set(taker, grown);
    weights.set(donor, shrinks - step);
    true
}

proof fn lemma_weight_sum_concat(a: Seq<u16>, b: Seq<u16>)
    ensures
        weight_sum(a + b) == weight_sum(a) + weight_sum(b),
    decreases b.len(),
{
    if b.len() == 0 {
        assert(a + b =~= a);
    } else {
        assert((a + b).drop_last() =~= a + b.drop_last());
        lemma_weight_sum_concat(a, b.drop_last());
    }
}

/// Grow (or with `grow` false, shrink) entry `index` against its neighbour,
/// and report whether anything moved. An entry alone has nobody to trade
/// with.
pub fn resize(weights: &mut Vec<u16>, index: usize, grow: bool) -> (moved: bool)
    requires
        weight_sum(old(weights)@) <= u32::MAX,
    ensures
        resized(old(weights)@, index as int, grow, final(weights)@, moved),
{
    let neighbour = match neighbour_of(index, weights.len()) {
        Some(n) => n,
        None => {
            return false;
        },
    };
    if grow {
        transfer(weights, index, neighbour)
    } else {
        transfer(weights, neighbour, index)
    }
}

/// A transfer that does not push the taker past the top keeps the total.
pub proof fn a_transfer_holds_the_total(
    before: Seq<u16>,
    taker: int,
    donor: int,
    after: Seq<u16>,
    moved: bool,
)
    requires
        transferred(before, taker, donor, after, moved),
        taker != donor,
        0 <= taker < before.len() ==> before[taker] + step_of(weight_sum(before)) <= u16::MAX,
    ensures
        weight_sum(after) == weight_sum(before),
{
    if moved {
        let step = moved_step(before, donor);
        let mid = before.update(taker, plus(before[taker], step));
        lemma_weight_sum_update(before, taker, plus(before[taker], step));
        lemma_weight_sum_update(mid, donor, (before[donor] - step) as u16);
    }
}

/// No transfer squeezes a weight below [`MIN_WEIGHT`] that was not already
/// there, and a donor that gave something keeps at least that much.
pub proof fn a_panel_is_never_squeezed_out(
    before: Seq<u16>,
    taker: int,
    donor: int,
    after: Seq<u16>,
    moved: bool,
)
    requires
        transferred(before, taker, donor, after, moved),
    ensures
        after.len() == before.len(),
        forall|i: int| 0 <= i < before.len() && before[i] >= MIN_WEIGHT ==> after[i] >= MIN_WEIGHT,
        moved ==> after[donor] >= MIN_WEIGHT,
{
}

/// An entry alone in its row (or a single row) cannot be resized.
pub proof fn an_entry_alone_cannot_be_resized(before: Seq<u16>, index: int, grow: bool, after: Seq<u16>, moved: bool)
    requires
        resized(before, index, grow, after, moved),
        before.len() < 2,
    ensures
        !moved,
        after == before,
{
}

/// Narrowing is the exact inverse of widening: growing an entry and then
/// shrinking it puts every weight back, as long as the entry had at least
/// [`MIN_WEIGHT`], its neighbour had room to give a whole step, and nothing
/// hit the top.
pub proof fn narrowing_undoes_widening(
    before: Seq<u16>,
    index: int,
    middle: Seq<u16>,
    after: Seq<u16>,
    moved: bool,
)
    requires
        resized(before, index, true, middle, true),
        resized(middle, index, false, after, moved),
        0 <= index < before.len(),
        before[index] >= MIN_WEIGHT,
        before[index] + step_of(weight_sum(before)) <= u16::MAX,
        neighbour_spec(index, before.len() as int) matches Some(n) && step_of(weight_sum(before))
            <= room(before[n]),
    ensures
        moved,
        after == before,
{
    let n = neighbour_spec(index, before.len() as int)->0;
    a_transfer_holds_the_total(before, index, n, middle, true);
    let step = moved_step(before, n);
    assert(middle[index] == before[index] + step);
    assert(middle[n] == before[n] - step);
    assert(moved_step(middle, index) == step);
    assert(after =~= before);
}

/// Growing an entry widens it and narrows its neighbour; shrinking it does
/// the opposite. The neighbour is the next entry, or the one before for the
/// last; nothing else changes, and a resize that moves nothing changes
/// nothing at all.
pub proof fn growing_widens_and_shrinking_narrows(
    before: Seq<u16>,
    index: int,
    grow: bool,
    after: Seq<u16>,
    moved: bool,
)
    requires
        resized(before, index, grow, after, moved),
        0 <= index < before.len(),
    ensures
        !moved ==> after == before,
        moved ==> after.len() == before.len(),
        moved ==> ({
            let n = if index + 1 < before.len() {
                index + 1
            } else {
                index - 1
            };
            &&& 0 <= n < before.len()
            &&& n != index
            &&& grow ==> after[index] >= before[index] && (before[index] < u16::MAX ==> after[index]
                > before[index]) && after[n] < before[n]
            &&& !grow ==> after[index] < before[index] && after[n] >= before[n] && (before[n]
                < u16::MAX ==> after[n] > before[n])
            &&& forall|j: int| 0 <= j < before.len() && j != index && j != n ==> after[j] == before[j]
        }),
{
}

} // verus!
