//! Carrying panels across a layout change.
//!
//! A running timer is not a cache that can be refilled; it is the user's
//! state. So when the layout changes, every panel that is still placed is
//! carried across rather than rebuilt, matched by widget name. Nothing stops
//! a config placing the same widget twice, so the panels are consumed in
//! order: the second entry naming a widget takes the second panel of that
//! name, and builds a new one if there is none.

use vstd::prelude::*;
use crate::plugin::names::names_view;
use crate::text::{owned, same_text};

verus! {

broadcast use vstd::string::group_string_axioms;

/// How many of the first `upto` names are `w`.
pub open spec fn count_in(s: Seq<Seq<char>>, upto: int, w: Seq<char>) -> nat
    decreases upto,
{
    if upto <= 0 {
        0
    } else {
        count_in(s, upto - 1, w) + if s[upto - 1] == w {
            1nat
        } else {
            0nat
        }
    }
}

/// `i` is the current panel entry `k` of the new layout carries across: the
/// same name, and as many of that name before it as before the entry.
pub open spec fn carries(current: Seq<Seq<char>>, desired: Seq<Seq<char>>, k: int, i: int) -> bool {
    &&& 0 <= i < current.len()
    &&& current[i] == desired[k]
    &&& count_in(current, i, desired[k]) == count_in(desired, k, desired[k])
}

/// Entry `k` finds no panel of its name left, so a new one is built.
pub open spec fn builds(current: Seq<Seq<char>>, desired: Seq<Seq<char>>, k: int) -> bool {
    count_in(desired, k, desired[k]) >= count_in(current, current.len() as int, desired[k])
}

/// Current panel `i` is still placed: fewer of its name come before it than
/// the new layout places.
pub open spec fn stays(current: Seq<Seq<char>>, desired: Seq<Seq<char>>, i: int) -> bool {
    count_in(current, i, current[i]) < count_in(desired, desired.len() as int, current[i])
}

proof fn lemma_count_step(s: Seq<Seq<char>>, a: int, b: int, w: Seq<char>)
    requires
        0 <= a < b <= s.len(),
    ensures
        count_in(s, b, w) >= count_in(s, a, w) + if s[a] == w {
            1nat
        } else {
            0nat
        },
    decreases b - a,
{
    if b > a + 1 {
        lemma_count_step(s, a, b - 1, w);
    }
}

fn count_before(names: &Vec<String>, upto: usize, w: &str) -> (r: usize)
    requires
        upto <= names.len(),
    ensures
        r == count_in(names_view(names@), upto as int, w@),
{
    let ghost s = names_view(names@);
    let mut c: usize = 0;
    let mut i: usize = 0;
    while i < upto
        invariant
            i <= upto <= names.len(),
            s == names_view(names@),
            c == count_in(s, i as int, w@),
            c <= i,
        decreases upto - i,
    {
        if same_text(names[i].as_str(), w) {
            c = c + 1;
        }
        i = i + 1;
    }
    c
}

/// For each entry of the new layout, the current panel it carries across,
/// or `None` when it needs a new panel.
pub fn carried(current: &Vec<String>, desired: &Vec<String>) -> (r: Vec<Option<usize>>)
    ensures
        r@.len() == desired@.len(),
        forall|k: int|
            0 <= k < desired@.len() ==> match #[trigger] r@[k] {
                Some(i) => carries(names_view(current@), names_view(desired@), k, i as int),
                None => builds(names_view(current@), names_view(desired@), k),
            },
{
    let ghost cur = names_view(current@);
    let ghost want = names_view(desired@);
    let mut r: Vec<Option<usize>> = Vec::new();
    let mut k: usize = 0;
    while k < desired.len()
        invariant
            k <= desired.len(),
            cur == names_view(current@),
            want == names_view(desired@),
            r@.len() == k,
            forall|j: int|
                0 <= j < k ==> match #[trigger] r@[j] {
                    Some(i) => carries(cur, want, j, i as int),
                    None => builds(cur, want, j),
                },
        decreases desired.len() - k,
    {
        let w = desired[k].as_str();
        let rank = count_before(desired, k, w);
        let mut seen: usize = 0;
        let mut found: Option<usize> = None;
        let mut i: usize = 0;
        while i < current.len()
            invariant_except_break
                i <= current.len(),
                seen == count_in(cur, i as int, want[k as int]),
                seen <= rank,
                found is None,
            invariant
                cur == names_view(current@),
                want == names_view(desired@),
                k < desired.len(),
                w@ == want[k as int],
                rank == count_in(want, k as int, want[k as int]),
            ensures
                match found {
                    Some(i) => carries(cur, want, k as int, i as int),
                    None => builds(cur, want, k as int),
                },
            decreases current.len() - i,
        {
            if same_text(current[i].as_str(), w) {
                if seen == rank {
                    found = Some(i);
                    break;
                }
                seen = seen + 1;
            }
            i = i + 1;
        }
        let ghost before = r@;
        r.push(found);
        proof {
            assert forall|j: int| 0 <= j < k + 1 implies match #[trigger] r@[j] {
                Some(i) => carries(cur, want, j, i as int),
                None => builds(cur, want, j),
            } by {
                if j < k {
                    assert(r@[j] == before[j]);
                }
            }
        }
        k = k + 1;
    }
    r
}

/// Which current panels are still placed; the rest are shut down.
pub fn staying(current: &Vec<String>, desired: &Vec<String>) -> (r: Vec<bool>)
    ensures
        r@.len() == current@.len(),
        forall|i: int|
            0 <= i < current@.len() ==> #[trigger] r@[i] == stays(
                names_view(current@),
                names_view(desired@),
                i,
            ),
{
    let ghost cur = names_view(current@);
    let ghost want = names_view(desired@);
    let mut r: Vec<bool> = Vec::new();
    let mut i: usize = 0;
    while i < current.len()
        invariant
            i <= current.len(),
            cur == names_view(current@),
            want == names_view(desired@),
            r@.len() == i,
            forall|j: int| 0 <= j < i ==> #[trigger] r@[j] == stays(cur, want, j),
        decreases current.len() - i,
    {
        let w = current[i].as_str();
        let before = count_before(current, i, w);
        let placed = count_before(desired, desired.len(), w);
        r.push(before < placed);
        i = i + 1;
    }
    r
}

/// No current panel is carried into two places: a widget placed twice gets
/// two panels.
pub proof fn no_panel_is_carried_twice(
    current: Seq<Seq<char>>,
    desired: Seq<Seq<char>>,
    k1: int,
    k2: int,
    i: int,
)
    requires
        0 <= k1 < desired.len(),
        0 <= k2 < desired.len(),
        carries(current, desired, k1, i),
        carries(current, desired, k2, i),
    ensures
        k1 == k2,
{
    if k1 < k2 {
        lemma_count_step(desired, k1, k2, desired[k1]);
    } else if k2 < k1 {
        lemma_count_step(desired, k2, k1, desired[k2]);
    }
}

/// A carried panel is one that stays, and one that stays is carried by the
/// entry of its rank.
pub proof fn what_is_carried_stays(current: Seq<Seq<char>>, desired: Seq<Seq<char>>, k: int, i: int)
    requires
        0 <= k < desired.len(),
        carries(current, desired, k, i),
    ensures
        stays(current, desired, i),
{
    lemma_count_step(desired, k, desired.len() as int, desired[k]);
}

/// Where the focus goes after a rebuild: to the panel it was on, wherever it
/// now is; else to the same place, or the last panel if that is gone.
pub open spec fn followed(focus: int, old: Seq<Seq<char>>, new: Seq<Seq<char>>, r: int) -> bool {
    if 0 <= focus < old.len() && exists|j: int| 0 <= j < new.len() && new[j] == old[focus] {
        &&& 0 <= r < new.len()
        &&& new[r] == old[focus]
        &&& forall|j: int| 0 <= j < r ==> new[j] != old[focus]
    } else {
        r == if new.len() == 0 {
            0
        } else if focus < new.len() {
            focus
        } else {
            new.len() - 1
        }
    }
}

/// Follow the focused panel to wherever it ended up, rather than leaving the
/// highlight on whatever now occupies its old index.
pub fn follow_focus(focus: usize, old: &Vec<String>, new: &Vec<String>) -> (r: usize)
    ensures
        followed(focus as int, names_view(old@), names_view(new@), r as int),
{
    let ghost o = names_view(old@);
    let ghost n = names_view(new@);
    if focus < old.len() {
        let w = old[focus].as_str();
        let mut j: usize = 0;
        while j < new.len()
            invariant
                j <= new.len(),
                focus < old.len(),
                o == names_view(old@),
                n == names_view(new@),
                w@ == o[focus as int],
                forall|m: int| 0 <= m < j ==> n[m] != o[focus as int],
            decreases new.len() - j,
        {
            if same_text(new[j].as_str(), w) {
                assert(n[j as int] == o[focus as int]);
                return j;
            }
            j = j + 1;
        }
    }
    if new.len() == 0 {
        0
    } else if focus < new.len() {
        focus
    } else {
        new.len() - 1
    }
}

/// The widget names of a layout's placements, in order.
pub open spec fn placement_names(d: Seq<(usize, usize, String)>) -> Seq<Seq<char>> {
    d.map_values(|e: (usize, usize, String)| e.2@)
}

/// Entry `k` ends up with a panel: it carries one across, or the panel
/// built for it came out.
pub open spec fn keeps(current: Seq<Seq<char>>, desired: Seq<Seq<char>>, built: Seq<bool>, k: int) -> bool {
    !builds(current, desired, k) || built[k]
}

/// For each entry, whether it ends up with a panel.
pub open spec fn kept(current: Seq<Seq<char>>, desired: Seq<Seq<char>>, built: Seq<bool>) -> Seq<bool> {
    Seq::new(desired.len(), |k: int| keeps(current, desired, built, k))
}

/// The indices that hold `true`, in order.
pub open spec fn chosen(keep: Seq<bool>) -> Seq<int>
    decreases keep.len(),
{
    if keep.len() == 0 {
        Seq::empty()
    } else {
        chosen(keep.drop_last()) + if keep.last() {
            seq![keep.len() - 1]
        } else {
            Seq::empty()
        }
    }
}

/// Where a slot of the rebuilt dashboard comes from.
#[derive(Debug, Clone, Copy, PartialEq, Eq)]
pub enum SlotSource {
    /// The current panel at this index, carried across.
    Carried(usize),
    /// The panel built for the layout entry at this index.
    Fresh(usize),
}

/// The dashboard after a layout change, before anything is taken apart.
#[derive(Debug, Clone, PartialEq, Eq)]
pub struct RebuildPlan {
    /// Where each new slot's panel comes from, in layout order.
    pub sources: Vec<SlotSource>,
    /// Each new slot's row and column in the layout.
    pub positions: Vec<(usize, usize)>,
    /// For each current panel, whether it leaves and is shut down.
    pub leaving: Vec<bool>,
    /// The new focus.
    pub focus: usize,
}

/// Why a layout was refused.
#[derive(Debug, Clone, Copy, PartialEq, Eq)]
pub enum RebuildError {
    /// No entry of the layout would show a panel.
    NothingPlaced,
}

impl RebuildError {
    /// The error as a sentence.
    pub fn message(&self) -> (r: String)
        ensures
            r@ == "no panels were built; check the `[layout]` table in your config"@,
    {
        owned("no panels were built; check the `[layout]` table in your config")
    }
}

/// Slot `j` of a plan is the entry `k` it was chosen for: at that entry's
/// place, with the panel that entry carries, or the one built for it.
pub open spec fn slot_for(
    current: Seq<Seq<char>>,
    desired: Seq<(usize, usize, String)>,
    source: SlotSource,
    position: (usize, usize),
    k: int,
) -> bool {
    let want = placement_names(desired);
    &&& 0 <= k < desired.len()
    &&& position == (desired[k].0, desired[k].1)
    &&& if builds(current, want, k) {
        source == SlotSource::Fresh(k as usize)
    } else {
        source matches SlotSource::Carried(i) && carries(current, want, k, i as int)
    }
}

/// The rebuilt dashboard is what the plan says: one slot per entry that ends
/// up with a panel, in layout order; the panels no longer placed leave; the
/// focus follows its panel.
pub open spec fn planned(
    current: Seq<Seq<char>>,
    desired: Seq<(usize, usize, String)>,
    built: Seq<bool>,
    focus: int,
    p: RebuildPlan,
) -> bool {
    let want = placement_names(desired);
    let ch = chosen(kept(current, want, built));
    &&& p.sources@.len() == ch.len()
    &&& p.positions@.len() == ch.len()
    &&& forall|j: int|
        0 <= j < ch.len() ==> #[trigger] slot_for(current, desired, p.sources@[j], p.positions@[j], ch[j])
    &&& p.leaving@.len() == current.len()
    &&& forall|i: int| 0 <= i < current.len() ==> #[trigger] p.leaving@[i] == !stays(current, want, i)
    &&& followed(focus, current, ch.map_values(|k: int| want[k]), p.focus as int)
}

proof fn lemma_chosen_step(s: Seq<bool>, k: int)
    requires
        0 <= k < s.len(),
    ensures
        chosen(s.take(k + 1)) == chosen(s.take(k)) + if s[k] {
            seq![k]
        } else {
            Seq::<int>::empty()
        },
{
    assert(s.take(k + 1).drop_last() =~= s.take(k));
}

/// Plan a rebuild for a changed layout. `current` names the live panels in
/// slot order, `desired` lists the layout's placements in layout order, and
/// `built` says, for each entry that carries nothing across, whether building
/// its panel gave one.
///
/// A layout on which no entry would show a panel is refused, and the
/// dashboard is left exactly as it was: nothing is returned that would take
/// it apart. Otherwise the new slots are the entries that end up with a
/// panel, in layout order; the panels no longer placed are shut down; and
/// the focus follows its panel.
pub fn plan_rebuild(
    current: &Vec<String>,
    desired: &Vec<(usize, usize, String)>,
    built: &Vec<bool>,
    focus: usize,
) -> (r: Result<RebuildPlan, RebuildError>)
    requires
        built@.len() == desired@.len(),
    ensures
        r is Err <==> chosen(kept(names_view(current@), placement_names(desired@), built@)).len()
            == 0,
        r matches Ok(p) ==> p.sources@.len() > 0 && planned(
            names_view(current@),
            desired@,
            built@,
            focus as int,
            p,
        ),
{
    let ghost cur = names_view(current@);
    let ghost want = placement_names(desired@);
    let ghost ks = kept(cur, want, built@);

    let mut names: Vec<String> = Vec::new();
    let mut k: usize = 0;
    while k < desired.len()
        invariant
            k <= desired.len(),
            want == placement_names(desired@),
            names@.len() == k,
            forall|j: int| 0 <= j < k ==> #[trigger] names@[j]@ == want[j],
        decreases desired.len() - k,
    {
        names.push(desired[k].2.clone());
        k = k + 1;
    }
    assert(names_view(names@) =~= want);
    let carry = carried(current, &names);

    let mut sources: Vec<SlotSource> = Vec::new();
    let mut positions: Vec<(usize, usize)> = Vec::new();
    let mut new_names: Vec<String> = Vec::new();
    let mut k: usize = 0;
    assert(ks.take(0) =~= Seq::<bool>::empty());
    while k < desired.len()
        invariant
            k <= desired.len(),
            built@.len() == desired@.len(),
            cur == names_view(current@),
            want == placement_names(desired@),
            ks == kept(cur, want, built@),
            ks.len() == desired@.len(),
            carry@.len() == desired@.len(),
            forall|j: int|
                0 <= j < desired@.len() ==> match #[trigger] carry@[j] {
                    Some(i) => carries(cur, want, j, i as int),
                    None => builds(cur, want, j),
                },
            sources@.len() == chosen(ks.take(k as int)).len(),
            positions@.len() == chosen(ks.take(k as int)).len(),
            forall|j: int|
                0 <= j < sources@.len() ==> #[trigger] slot_for(
                    cur,
                    desired@,
                    sources@[j],
                    positions@[j],
                    chosen(ks.take(k as int))[j],
                ),
            names_view(new_names@) == chosen(ks.take(k as int)).map_values(|m: int| want[m]),
        decreases desired.len() - k,
    {
        let ghost before = chosen(ks.take(k as int));
        proof {
            lemma_chosen_step(ks, k as int);
        }
        let ghost after = chosen(ks.take(k as int + 1));
        let source: Option<SlotSource> = match carry[k] {
            Some(i) => Some(SlotSource::Carried(i)),
            None => if built[k] {
                Some(SlotSource::Fresh(k))
            } else {
                None
            },
        };
        proof {
            match carry@[k as int] {
                Some(i) => {
                    lemma_carried_is_not_built(cur, want, k as int, i as int);
                },
                None => {},
            }
        }
        match source {
            Some(src) => {
                assert(ks[k as int]);
                assert(after =~= before.push(k as int));
                let ghost old_sources = sources@;
                let ghost old_positions = positions@;
                let ghost old_names = names_view(new_names@);
                sources.push(src);
                positions.push((desired[k].0, desired[k].1));
                new_names.push(desired[k].2.clone());
                assert(slot_for(cur, desired@, src, (desired@[k as int].0, desired@[k as int].1), k as int));
                assert forall|j: int| 0 <= j < sources@.len() implies #[trigger] slot_for(
                    cur,
                    desired@,
                    sources@[j],
                    positions@[j],
                    after[j],
                ) by {
                    if j < old_sources.len() {
                        assert(sources@[j] == old_sources[j]);
                        assert(positions@[j] == old_positions[j]);
                        assert(after[j] == before[j]);
                    }
                }
                assert(names_view(new_names@) =~= old_names.push(want[k as int]));
                assert(names_view(new_names@) =~= after.map_values(|m: int| want[m]));
            },
            None => {
                assert(!ks[k as int]);
                assert(after =~= before);
            },
        }
        k = k + 1;
    }
    assert(ks.take(desired.len() as int) =~= ks);
    if sources.len() == 0 {
        return Err(RebuildError::NothingPlaced);
    }
    let stay = staying(current, &names);
    let mut leaving: Vec<bool> = Vec::new();
    let mut i: usize = 0;
    while i < stay.len()
        invariant
            i <= stay.len(),
            stay@.len() == current@.len(),
            cur == names_view(current@),
            want == names_view(names@),
            forall|m: int| 0 <= m < current@.len() ==> #[trigger] stay@[m] == stays(cur, want, m),
            leaving@.len() == i,
            forall|m: int| 0 <= m < i ==> #[trigger] leaving@[m] == !stays(cur, want, m),
        decreases stay.len() - i,
    {
        leaving.push(!stay[i]);
        i = i + 1;
    }
    let f = follow_focus(focus, current, &new_names);
    Ok(RebuildPlan { sources, positions, leaving, focus: f })
}

/// An entry that carries a panel across needs nothing built.
proof fn lemma_carried_is_not_built(current: Seq<Seq<char>>, desired: Seq<Seq<char>>, k: int, i: int)
    requires
        carries(current, desired, k, i),
    ensures
        !builds(current, desired, k),
{
    lemma_count_step(current, i, current.len() as int, desired[k]);
}

/// The chosen indices are the entries that hold `true`, each once, in
/// order: a rebuilt dashboard keeps the layout's order.
pub proof fn chosen_keeps_the_order(keep: Seq<bool>)
    ensures
        forall|j: int|
            0 <= j < chosen(keep).len() ==> 0 <= #[trigger] chosen(keep)[j] < keep.len() && keep[chosen(
                keep,
            )[j]],
        forall|j1: int, j2: int|
            0 <= j1 < j2 < chosen(keep).len() ==> #[trigger] chosen(keep)[j1] < #[trigger] chosen(
                keep,
            )[j2],
        forall|k: int|
            0 <= k < keep.len() && #[trigger] keep[k] ==> exists|j: int|
                0 <= j < chosen(keep).len() && #[trigger] chosen(keep)[j] == k,
    decreases keep.len(),
{
    if keep.len() > 0 {
        let rest = keep.drop_last();
        chosen_keeps_the_order(rest);
        let ch = chosen(keep);
        let before = chosen(rest);
        assert(ch == before + if keep.last() {
            seq![keep.len() - 1]
        } else {
            Seq::<int>::empty()
        });
        assert forall|j: int| 0 <= j < ch.len() implies 0 <= #[trigger] ch[j] < keep.len() && keep[ch[j]] by {
            if j < before.len() {
                assert(ch[j] == before[j]);
                assert(rest[before[j]] == keep[before[j]]);
            }
        }
        assert forall|j1: int, j2: int| 0 <= j1 < j2 < ch.len() implies #[trigger] ch[j1] < #[trigger] ch[j2] by {
            assert(ch[j1] == before[j1]);
            if j2 < before.len() {
                assert(ch[j2] == before[j2]);
            } else {
                assert(before[j1] < rest.len());
            }
        }
        assert forall|k: int| 0 <= k < keep.len() && #[trigger] keep[k] implies exists|j: int|
            0 <= j < ch.len() && #[trigger] ch[j] == k by {
            if k < keep.len() - 1 {
                assert(rest[k] == keep[k]);
                let j = choose|j: int| 0 <= j < before.len() && #[trigger] before[j] == k;
                assert(ch[j] == before[j]);
            } else {
                assert(ch[before.len() as int] == k);
            }
        }
    }
}

proof fn lemma_count_hits(s: Seq<Seq<char>>, n: int, w: Seq<char>, v: nat)
    requires
        0 <= n <= s.len(),
        count_in(s, n, w) > v,
    ensures
        exists|k: int| 0 <= k < n && s[k] == w && #[trigger] count_in(s, k, w) == v,
    decreases n,
{
    if count_in(s, n - 1, w) > v {
        lemma_count_hits(s, n - 1, w, v);
    } else {
        assert(s[n - 1] == w && count_in(s, n - 1, w) == v);
    }
}

proof fn lemma_carries_one(current: Seq<Seq<char>>, desired: Seq<Seq<char>>, k: int, i1: int, i2: int)
    requires
        carries(current, desired, k, i1),
        carries(current, desired, k, i2),
    ensures
        i1 == i2,
{
    if i1 < i2 {
        lemma_count_step(current, i1, i2, desired[k]);
    } else if i2 < i1 {
        lemma_count_step(current, i2, i1, desired[k]);
    }
}

/// Shutdown runs on exactly the panels that left: a current panel leaves
/// when, and only when, no slot of the rebuilt dashboard carries it.
pub proof fn a_panel_leaves_exactly_when_no_slot_carries_it(
    current: Seq<Seq<char>>,
    desired: Seq<(usize, usize, String)>,
    built: Seq<bool>,
    focus: int,
    p: RebuildPlan,
    i: usize,
)
    requires
        built.len() == desired.len(),
        planned(current, desired, built, focus, p),
        0 <= i < current.len(),
    ensures
        p.leaving@[i as int] <==> !exists|j: int|
            0 <= j < p.sources@.len() && #[trigger] p.sources@[j] == SlotSource::Carried(i),
{
    let want = placement_names(desired);
    let ks = kept(current, want, built);
    let ch = chosen(ks);
    chosen_keeps_the_order(ks);
    if p.leaving@[i as int] {
        assert forall|j: int| 0 <= j < p.sources@.len() implies #[trigger] p.sources@[j]
            != SlotSource::Carried(i) by {
            assert(slot_for(current, desired, p.sources@[j], p.positions@[j], ch[j]));
            if p.sources@[j] == SlotSource::Carried(i) {
                what_is_carried_stays(current, want, ch[j], i as int);
            }
        }
    } else {
        assert(stays(current, want, i as int));
        let w = current[i as int];
        lemma_count_hits(want, want.len() as int, w, count_in(current, i as int, w));
        let k = choose|k: int| 0 <= k < want.len() && want[k] == w && #[trigger] count_in(want, k, w)
            == count_in(current, i as int, w);
        assert(carries(current, want, k, i as int));
        lemma_carried_is_not_built(current, want, k, i as int);
        assert(ks[k]);
        let j = choose|j: int| 0 <= j < ch.len() && #[trigger] ch[j] == k;
        assert(slot_for(current, desired, p.sources@[j], p.positions@[j], ch[j]));
        let i2 = p.sources@[j]->Carried_0 as int;
        lemma_carries_one(current, want, k, i as int, i2);
        assert(p.sources@[j] == SlotSource::Carried(i));
    }
}

/// The entries of row `r`, left to right, with their places.
pub open spec fn row_entries(r: int, row: Seq<Seq<char>>) -> Seq<(int, int, Seq<char>)> {
    Seq::new(row.len(), |c: int| (r, c, row[c]))
}

/// A layout's entries in row-major order: the first row left to right, then
/// the next.
pub open spec fn layout_order(rows: Seq<Seq<Seq<char>>>) -> Seq<(int, int, Seq<char>)>
    decreases rows.len(),
{
    if rows.len() == 0 {
        Seq::empty()
    } else {
        layout_order(rows.drop_last()) + row_entries(rows.len() - 1, rows.last())
    }
}

/// Placements as values.
pub open spec fn placement_view(d: Seq<(usize, usize, String)>) -> Seq<(int, int, Seq<char>)> {
    d.map_values(|e: (usize, usize, String)| (e.0 as int, e.1 as int, e.2@))
}

/// A layout's rows of widget names as values.
pub open spec fn rows_view(rows: Seq<Vec<String>>) -> Seq<Seq<Seq<char>>> {
    rows.map_values(|row: Vec<String>| names_view(row@))
}

/// Every entry of a layout, given as rows of widget names, with its row and
/// column, in row-major order.
pub fn placements(rows: &Vec<Vec<String>>) -> (r: Vec<(usize, usize, String)>)
    ensures
        placement_view(r@) == layout_order(rows_view(rows@)),
{
    let ghost rv = rows_view(rows@);
    let mut out: Vec<(usize, usize, String)> = Vec::new();
    let mut r: usize = 0;
    assert(rv.take(0) =~= Seq::<Seq<Seq<char>>>::empty());
    assert(placement_view(out@) =~= layout_order(rv.take(0)));
    while r < rows.len()
        invariant
            r <= rows.len(),
            rv == rows_view(rows@),
            placement_view(out@) == layout_order(rv.take(r as int)),
        decreases rows.len() - r,
    {
        let row = &rows[r];
        let ghost base = placement_view(out@);
        let ghost entries = row_entries(r as int, rv[r as int]);
        let mut c: usize = 0;
        assert(base + entries.take(0) =~= base);
        while c < row.len()
            invariant
                r < rows.len(),
                c <= row.len(),
                *row == rows@[r as int],
                rv == rows_view(rows@),
                entries == row_entries(r as int, rv[r as int]),
                entries.len() == row@.len(),
                placement_view(out@) == base + entries.take(c as int),
            decreases row.len() - c,
        {
            let ghost before = placement_view(out@);
            out.push((r, c, row[c].clone()));
            assert(entries[c as int] == (r as int, c as int, row@[c as int]@));
            assert(placement_view(out@) =~= before.push(entries[c as int]));
            assert(base + entries.take(c as int + 1) =~= (base + entries.take(c as int)).push(
                entries[c as int],
            ));
            c = c + 1;
        }
        assert(entries.take(c as int) =~= entries);
        assert(rv.take(r as int + 1).drop_last() =~= rv.take(r as int));
        assert(rv.take(r as int + 1).last() == rv[r as int]);
        r = r + 1;
    }
    assert(rv.take(rows.len() as int) =~= rv);
    out
}

} // verus!
