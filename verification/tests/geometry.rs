use mirador::geometry::{geometry, PanelSpec, RowSpec};
use mirador::keys::Area;

fn panel(width: u16) -> PanelSpec {
    PanelSpec { width, max_width: None, max_height: None }
}

fn area(width: u16, height: u16) -> Area {
    Area { x: 0, y: 0, width, height }
}

fn flat(rects: Vec<Vec<Area>>) -> Vec<Area> {
    rects.into_iter().flatten().collect()
}

#[test]
fn a_bounded_row_gives_its_leftover_height_to_the_row_below() {
    let bound = 9u16;
    let rows = vec![
        RowSpec {
            height: 50,
            panels: vec![PanelSpec { width: 100, max_width: None, max_height: Some(bound) }],
        },
        RowSpec { height: 50, panels: vec![panel(100)] },
    ];
    let rects = flat(geometry(&area(120, bound * 3), &rows));
    assert_eq!(rects.len(), 2);
    assert_eq!(rects[0].height, bound, "the clock takes only what it uses");
    assert_eq!(
        rects[0].height + rects[1].height,
        bound * 3,
        "and the height it gave up must be used, not lost"
    );
    assert_eq!(rects[1].y, rects[0].height, "the rows stay flush");
}

#[test]
fn a_calendar_keeps_its_height_because_it_stacks_more_months_into_it() {
    let rows = vec![
        RowSpec {
            height: 50,
            panels: vec![PanelSpec { width: 100, max_width: Some(70), max_height: None }],
        },
        RowSpec { height: 50, panels: vec![panel(100)] },
    ];
    let rects = flat(geometry(&area(120, 60), &rows));
    assert_eq!(
        rects[0].height, 30,
        "extra height becomes another row of months, so none is handed back"
    );
}

#[test]
fn a_bounded_panel_gives_its_leftover_width_to_its_neighbour() {
    let rows = vec![RowSpec {
        height: 100,
        panels: vec![
            PanelSpec { width: 50, max_width: Some(70), max_height: None },
            panel(50),
        ],
    }];
    let rects = flat(geometry(&area(200, 40), &rows));
    assert!(rects[0].width < 100, "the calendar is bounded: {:?}", rects[0]);
    assert_eq!(rects[0].width + rects[1].width, 200, "and the columns still cover the terminal");
    assert_eq!(rects[1].x, rects[0].width, "the panels stay flush");
}

#[test]
fn geometry_returns_one_rect_per_panel_and_fills_the_area() {
    let rows = vec![
        RowSpec { height: 50, panels: vec![panel(50), panel(50)] },
        RowSpec { height: 50, panels: vec![panel(100)] },
    ];
    let whole = area(80, 24);
    let rects = flat(geometry(&whole, &rows));

    assert_eq!(rects.len(), 3);
    assert_eq!(rects[2].width, 80);
    assert_eq!(rects[0].width + rects[1].width, 80);
    assert_eq!(rects[0].x, 0);
    assert_eq!(rects[1].x, rects[0].width);
    for rect in &rects {
        assert!(rect.x + rect.width <= whole.x + whole.width);
        assert!(rect.y + rect.height <= whole.y + whole.height);
    }
}

#[test]
fn a_layout_entry_that_builds_no_panel_does_not_shift_the_rest() {
    let rows = vec![RowSpec { height: 1, panels: vec![panel(25), panel(25), panel(50)] }];
    let rects = geometry(&area(80, 24), &rows);
    let row = &rects[0];
    assert_eq!(row[1].x, 20, "the second entry keeps its own rectangle");
    assert_eq!(row[2].x, row[1].x + row[1].width);
    assert_eq!(row[1].width + row[2].width, 60);
}

#[test]
fn geometry_survives_a_terminal_too_small_to_draw() {
    let rows = vec![RowSpec { height: 1, panels: vec![panel(1), panel(1)] }];
    for (w, h) in [(0, 0), (1, 1), (3, 2)] {
        let rects = flat(geometry(&area(w, h), &rows));
        assert_eq!(rects.len(), 2, "must still return one rect per panel");
    }
}

#[test]
fn zero_weights_are_treated_as_one_rather_than_dividing_by_zero() {
    let rows = vec![RowSpec { height: 0, panels: vec![panel(0)] }];
    let rects = flat(geometry(&area(80, 24), &rows));
    assert_eq!(rects.len(), 1);
    assert!(rects[0].width > 0);
}

#[test]
fn a_row_is_bounded_only_when_every_panel_in_it_is() {
    let rows = vec![
        RowSpec {
            height: 50,
            panels: vec![
                PanelSpec { width: 50, max_width: None, max_height: Some(5) },
                panel(50),
            ],
        },
        RowSpec { height: 50, panels: vec![panel(100)] },
    ];
    let rects = geometry(&area(80, 40), &rows);
    assert_eq!(rects[0][0].height, 20, "one unbounded panel keeps the row unbounded");
    let offset = geometry(&Area { x: 3, y: 4, width: 10, height: 10 }, &rows);
    assert_eq!((offset[1][0].x, offset[1][0].y), (3, 9));
}
