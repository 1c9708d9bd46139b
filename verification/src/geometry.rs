//! Where every panel of a layout is drawn.
//!
//! Two passes of [`distribute`]: heights down the rows, then widths across
//! each row. Both honour the panels' declared maxima, so a panel that cannot
//! use more space passes it to one that can.

use vstd::prelude::*;
use crate::keys::Area;
use crate::layout::{distribute, distribute_spec, unit_weight, weight_total};

verus! {

/// One entry of a layout row: its width weight, and the size past which
/// more space does nothing for its panel. An entry that built no panel has
/// no limits.
#[derive(Debug, Clone, Copy, PartialEq, Eq)]
pub struct PanelSpec {
    pub width: u16,
    pub max_width: Option<u16>,
    pub max_height: Option<u16>,
}

/// One layout row: its height weight and its entries.
#[derive(Debug, Clone, PartialEq, Eq)]
pub struct RowSpec {
    pub height: u16,
    pub panels: Vec<PanelSpec>,
}

/// A weight of at least one.
pub open spec fn at_least_one(w: u16) -> u16 {
    if w == 0 {
        1
    } else {
        w
    }
}

/// The tallest height limit of a row's entries, or `None` as soon as one
/// of them has none: they share the height, so one unbounded panel keeps
/// the whole row unbounded.
pub open spec fn tallest(ps: Seq<PanelSpec>) -> Option<u16>
    decreases ps.len(),
{
    if ps.len() == 0 {
        Some(0u16)
    } else {
        match (tallest(ps.drop_last()), ps.last().max_height) {
            (Some(t), Some(m)) => Some(if t >= m { t } else { m }),
            _ => None,
        }
    }
}

/// A row's height limit: its tallest entry's, when every entry has one and
/// it is more than nothing.
pub open spec fn row_limit(ps: Seq<PanelSpec>) -> Option<u16> {
    match tallest(ps) {
        Some(t) => if t > 0 {
            Some(t)
        } else {
            None
        },
        None => None,
    }
}

/// Every entry of a row declares a maximum height.
pub open spec fn declares_height(ps: Seq<PanelSpec>) -> bool {
    forall|i: int| 0 <= i < ps.len() ==> #[trigger] ps[i].max_height is Some
}

/// A row is bounded by its tallest panel: when every entry declares a
/// maximum height, the row's limit is the largest of them (so no panel is
/// cut short of the rows it asked for); when any entry declares none, or
/// the largest is zero, the row has no limit.
pub proof fn a_row_is_bounded_by_its_tallest_panel(ps: Seq<PanelSpec>)
    ensures
        declares_height(ps) ==> (tallest(ps) matches Some(t) && (forall|i: int|
            0 <= i < ps.len() ==> #[trigger] ps[i].max_height->0 <= t) && (ps.len() > 0 ==> exists|
            i: int,
        | 0 <= i < ps.len() && #[trigger] ps[i].max_height->0 == t) && (ps.len() == 0 ==> t == 0)),
        !declares_height(ps) ==> tallest(ps) is None,
        row_limit(ps) == match tallest(ps) {
            Some(t) => if t > 0 {
                Some(t)
            } else {
                None
            },
            None => None,
        },
    decreases ps.len(),
{
    if ps.len() > 0 {
        let rest = ps.drop_last();
        a_row_is_bounded_by_its_tallest_panel(rest);
        if declares_height(ps) {
            assert(declares_height(rest)) by {
                assert forall|i: int| 0 <= i < rest.len() implies #[trigger] rest[i].max_height is Some by {
                    assert(rest[i] == ps[i]);
                }
            }
            let t = tallest(rest)->0;
            let m = ps.last().max_height->0;
            assert(ps[ps.len() - 1].max_height is Some);
            assert forall|i: int| 0 <= i < ps.len() implies #[trigger] ps[i].max_height->0 <= tallest(ps)->0 by {
                if i < ps.len() - 1 {
                    assert(rest[i] == ps[i]);
                }
            }
            if rest.len() > 0 && t >= m {
                let i = choose|i: int| 0 <= i < rest.len() && #[trigger] rest[i].max_height->0 == t;
                assert(ps[i] == rest[i]);
            } else {
                assert(ps[ps.len() - 1].max_height->0 == tallest(ps)->0);
            }
        } else {
            let j = choose|j: int| 0 <= j < ps.len() && !(#[trigger] ps[j].max_height is Some);
            if j < ps.len() - 1 {
                assert(rest[j] == ps[j]);
                assert(!declares_height(rest));
            }
        }
    }
}

pub open spec fn row_weights(rows: Seq<RowSpec>) -> Seq<u16> {
    rows.map_values(|r: RowSpec| at_least_one(r.height))
}

pub open spec fn row_limits(rows: Seq<RowSpec>) -> Seq<Option<u16>> {
    rows.map_values(|r: RowSpec| row_limit(r.panels@))
}

pub open spec fn column_weights(ps: Seq<PanelSpec>) -> Seq<u16> {
    ps.map_values(|p: PanelSpec| at_least_one(p.width))
}

pub open spec fn column_limits(ps: Seq<PanelSpec>) -> Seq<Option<u16>> {
    ps.map_values(|p: PanelSpec| p.max_width)
}

/// `start` moved past the first `k` sizes, stopping at the last cell.
pub open spec fn offset(start: u16, sizes: Seq<u16>, k: int) -> u16
    decreases k,
{
    if k <= 0 {
        start
    } else {
        let before = offset(start, sizes, k - 1);
        if before + sizes[k - 1] > u16::MAX {
            u16::MAX
        } else {
            (before + sizes[k - 1]) as u16
        }
    }
}

/// The rows' heights in `area`.
pub open spec fn heights_in(area: Area, rows: Seq<RowSpec>) -> Seq<u16> {
    distribute_spec(area.height, row_weights(rows), row_limits(rows))
}

/// The widths of a row's entries in `area`.
pub open spec fn widths_in(area: Area, row: RowSpec) -> Seq<u16> {
    distribute_spec(area.width, column_weights(row.panels@), column_limits(row.panels@))
}

/// Entry `c` of row `r`, placed in `area`.
pub open spec fn placed(area: Area, rows: Seq<RowSpec>, r: int, c: int) -> Area {
    let heights = heights_in(area, rows);
    let widths = widths_in(area, rows[r]);
    Area {
        x: offset(area.x, widths, c),
        y: offset(area.y, heights, r),
        width: widths[c],
        height: heights[r],
    }
}

proof fn lemma_weight_total_bound(ws: Seq<u16>)
    ensures
        weight_total(ws) <= ws.len() * 65535,
    decreases ws.len(),
{
    if ws.len() > 0 {
        lemma_weight_total_bound(ws.drop_last());
    }
}

fn tallest_of(ps: &Vec<PanelSpec>) -> (r: Option<u16>)
    ensures
        r == row_limit(ps@),
{
    let mut t: Option<u16> = Some(0);
    let mut i: usize = 0;
    while i < ps.len()
        invariant
            i <= ps.len(),
            t == tallest(ps@.take(i as int)),
        decreases ps.len() - i,
    {
        assert(ps@.take(i as int + 1).drop_last() =~= ps@.take(i as int));
        t = match (t, ps[i].max_height) {
            (Some(a), Some(m)) => Some(if a >= m {
                a
            } else {
                m
            }),
            _ => None,
        };
        i = i + 1;
    }
    assert(ps@.take(i as int) =~= ps@);
    match t {
        Some(a) => if a > 0 {
            Some(a)
        } else {
            None
        },
        None => None,
    }
}

/// Lay the rows out in `area`: one rectangle per entry, row by row.
pub fn geometry(area: &Area, rows: &Vec<RowSpec>) -> (r: Vec<Vec<Area>>)
    requires
        rows@.len() <= 65536,
        forall|i: int| 0 <= i < rows@.len() ==> (#[trigger] rows@[i]).panels@.len() <= 65536,
    ensures
        r@.len() == rows@.len(),
        forall|i: int|
            0 <= i < rows@.len() ==> (#[trigger] r@[i])@.len() == rows@[i].panels@.len(),
        forall|i: int, c: int|
            0 <= i < rows@.len() && 0 <= c < rows@[i].panels@.len() ==> (#[trigger] r@[i]@[c])
                == placed(*area, rows@, i, c),
{
    let mut weights: Vec<u16> = Vec::new();
    let mut limits: Vec<Option<u16>> = Vec::new();
    let mut i: usize = 0;
    while i < rows.len()
        invariant
            i <= rows.len(),
            weights@ == row_weights(rows@.take(i as int)),
            limits@ == row_limits(rows@.take(i as int)),
        decreases rows.len() - i,
    {
        let row = &rows[i];
        let w: u16 = if row.height == 0 {
            1
        } else {
            row.height
        };
        weights.push(w);
        limits.push(tallest_of(&row.panels));
        assert(row_weights(rows@.take(i as int + 1)) =~= row_weights(rows@.take(i as int)).push(w));
        assert(row_limits(rows@.take(i as int + 1)) =~= row_limits(rows@.take(i as int)).push(
            row_limit(rows@[i as int].panels@),
        ));
        i = i + 1;
    }
    assert(rows@.take(i as int) =~= rows@);
    proof {
        lemma_weight_total_bound(weights@);
    }
    let heights = distribute(area.height, &weights, &limits);
    let ghost hs = heights_in(*area, rows@);
    assert(heights@ == hs);

    let mut out: Vec<Vec<Area>> = Vec::new();
    let mut y = area.y;
    let mut r: usize = 0;
    while r < rows.len()
        invariant
            r <= rows.len(),
            rows@.len() <= 65536,
            forall|i: int| 0 <= i < rows@.len() ==> (#[trigger] rows@[i]).panels@.len() <= 65536,
            heights@ == hs,
            hs == heights_in(*area, rows@),
            heights@.len() == rows@.len(),
            y == offset(area.y, hs, r as int),
            out@.len() == r,
            forall|i: int| 0 <= i < r ==> (#[trigger] out@[i])@.len() == rows@[i].panels@.len(),
            forall|i: int, c: int|
                0 <= i < r && 0 <= c < rows@[i].panels@.len() ==> (#[trigger] out@[i]@[c])
                    == placed(*area, rows@, i, c),
        decreases rows.len() - r,
    {
        let row = &rows[r];
        let mut ws: Vec<u16> = Vec::new();
        let mut ms: Vec<Option<u16>> = Vec::new();
        let mut c: usize = 0;
        while c < row.panels.len()
            invariant
                c <= row.panels.len(),
                ws@ == column_weights(row.panels@.take(c as int)),
                ms@ == column_limits(row.panels@.take(c as int)),
            decreases row.panels.len() - c,
        {
            let p = row.panels[c];
            let w: u16 = if p.width == 0 {
                1
            } else {
                p.width
            };
            ws.push(w);
            ms.push(p.max_width);
            assert(column_weights(row.panels@.take(c as int + 1)) =~= column_weights(
                row.panels@.take(c as int),
            ).push(w));
            assert(column_limits(row.panels@.take(c as int + 1)) =~= column_limits(
                row.panels@.take(c as int),
            ).push(p.max_width));
            c = c + 1;
        }
        assert(row.panels@.take(c as int) =~= row.panels@);
        proof {
            lemma_weight_total_bound(ws@);
        }
        let widths = distribute(area.width, &ws, &ms);
        let ghost wsz = widths_in(*area, rows@[r as int]);
        assert(widths@ == wsz);
        let height = heights[r];
        let mut placed_row: Vec<Area> = Vec::new();
        let mut x = area.x;
        let mut c: usize = 0;
        while c < widths.len()
            invariant
                c <= widths.len(),
                widths@ == wsz,
                wsz == widths_in(*area, rows@[r as int]),
                widths@.len() == rows@[r as int].panels@.len(),
                r < rows@.len(),
                hs == heights_in(*area, rows@),
                height == hs[r as int],
                y == offset(area.y, hs, r as int),
                x == offset(area.x, wsz, c as int),
                placed_row@.len() == c,
                forall|k: int| 0 <= k < c ==> #[trigger] placed_row@[k] == placed(*area, rows@, r as int, k),
            decreases widths.len() - c,
        {
            let width = widths[c];
            placed_row.push(Area { x, y, width, height });
            x = x.saturating_add(width);
            c = c + 1;
        }
        let ghost before = out@;
        out.push(placed_row);
        proof {
            assert forall|i: int, c: int|
                0 <= i < r + 1 && 0 <= c < rows@[i].panels@.len() implies (#[trigger] out@[i]@[c])
                == placed(*area, rows@, i, c) by {
                if i < r {
                    assert(out@[i] == before[i]);
                }
            }
            assert forall|i: int| 0 <= i < r + 1 implies (#[trigger] out@[i])@.len()
                == rows@[i].panels@.len() by {
                if i < r {
                    assert(out@[i] == before[i]);
                }
            }
        }
        y = y.saturating_add(height);
        r = r + 1;
    }
    out
}

/// Panels tile the area: the first row starts at the area's top and the
/// first panel of a row at its left edge; the panels of a row share its top
/// and height; each panel starts where the one before it in the row ends,
/// and each row where the row above ends (held at the last cell).
pub proof fn panels_tile_the_area(area: Area, rows: Seq<RowSpec>, r: int, c: int)
    requires
        0 <= r,
        0 <= c,
    ensures
        placed(area, rows, r, 0).x == area.x,
        placed(area, rows, 0, c).y == area.y,
        placed(area, rows, r, c).y == placed(area, rows, r, 0).y,
        placed(area, rows, r, c).height == placed(area, rows, r, 0).height,
        placed(area, rows, r, c + 1).x as int == if placed(area, rows, r, c).x + placed(
            area,
            rows,
            r,
            c,
        ).width > u16::MAX {
            u16::MAX as int
        } else {
            placed(area, rows, r, c).x + placed(area, rows, r, c).width
        },
        placed(area, rows, r + 1, 0).y as int == if placed(area, rows, r, c).y + placed(
            area,
            rows,
            r,
            c,
        ).height > u16::MAX {
            u16::MAX as int
        } else {
            placed(area, rows, r, c).y + placed(area, rows, r, c).height
        },
{
}

} // verus!
