use mirador::rebuild::{
    carried, follow_focus, placements, plan_rebuild, staying, RebuildError, SlotSource,
};

fn names(list: &[&str]) -> Vec<String> {
    list.iter().map(|s| (*s).to_string()).collect()
}

#[test]
fn toggling_one_panel_leaves_the_others_untouched() {
    let current = names(&["clocks", "pomodoro", "cpu"]);
    let desired = names(&["clocks", "pomodoro", "cpu", "network"]);
    assert_eq!(carried(&current, &desired), vec![Some(0), Some(1), Some(2), None]);
    assert_eq!(staying(&current, &desired), vec![true, true, true]);

    let smaller = names(&["clocks", "cpu"]);
    assert_eq!(carried(&current, &smaller), vec![Some(0), Some(2)]);
    assert_eq!(staying(&current, &smaller), vec![true, false, true]);
}

#[test]
fn a_widget_placed_twice_gets_two_panels() {
    let current = names(&["clocks"]);
    let desired = names(&["clocks", "clocks"]);
    assert_eq!(carried(&current, &desired), vec![Some(0), None]);
    let current = names(&["clocks", "cpu", "clocks"]);
    let desired = names(&["clocks", "clocks", "clocks"]);
    assert_eq!(carried(&current, &desired), vec![Some(0), Some(2), None]);
    assert_eq!(staying(&current, &desired), vec![true, false, true]);
}

#[test]
fn focus_follows_the_panel_rather_than_the_index() {
    let old = names(&["clocks", "cpu", "network"]);
    let new = names(&["network", "clocks", "cpu"]);
    assert_eq!(follow_focus(1, &old, &new), 2);
    assert_eq!(follow_focus(2, &old, &new), 0);
    let fewer = names(&["clocks"]);
    assert_eq!(follow_focus(2, &old, &fewer), 0, "a panel that left sends focus to the last");
    assert_eq!(follow_focus(0, &old, &Vec::new()), 0);
}

fn rows(list: &[&[&str]]) -> Vec<Vec<String>> {
    list.iter().map(|row| names(row)).collect()
}

#[test]
fn placements_come_in_row_major_order() {
    let layout = rows(&[&["clocks", "pomodoro"], &[], &["cpu"]]);
    assert_eq!(
        placements(&layout),
        vec![
            (0, 0, "clocks".to_string()),
            (0, 1, "pomodoro".to_string()),
            (2, 0, "cpu".to_string()),
        ]
    );
    assert!(placements(&Vec::new()).is_empty());
}

#[test]
fn a_rebuild_carries_what_stays_and_builds_the_rest() {
    let current = names(&["clocks", "pomodoro", "cpu"]);
    let desired = placements(&rows(&[&["pomodoro", "clocks"], &["network", "cpu"]]));
    let plan = plan_rebuild(&current, &desired, &[true, true, true, true].to_vec(), 1)
        .expect("the layout places panels");
    assert_eq!(
        plan.sources,
        vec![
            SlotSource::Carried(1),
            SlotSource::Carried(0),
            SlotSource::Fresh(2),
            SlotSource::Carried(2),
        ]
    );
    assert_eq!(plan.positions, vec![(0, 0), (0, 1), (1, 0), (1, 1)]);
    assert_eq!(plan.leaving, vec![false, false, false]);
    assert_eq!(plan.focus, 0, "focus follows the pomodoro to the front");
}

#[test]
fn a_rebuild_shuts_down_only_what_left_and_skips_what_did_not_build() {
    let current = names(&["clocks", "cpu"]);
    let desired = placements(&rows(&[&["weather", "cpu"]]));
    let plan = plan_rebuild(&current, &desired, &vec![false, true], 0).expect("cpu stays");
    assert_eq!(plan.sources, vec![SlotSource::Carried(1)]);
    assert_eq!(plan.positions, vec![(0, 1)]);
    assert_eq!(plan.leaving, vec![true, false]);
    assert_eq!(plan.focus, 0);
}

#[test]
fn a_layout_that_places_nothing_is_refused() {
    let current = names(&["clocks"]);
    assert_eq!(
        plan_rebuild(&current, &Vec::new(), &Vec::new(), 0),
        Err(RebuildError::NothingPlaced)
    );
    let desired = placements(&rows(&[&["weather"]]));
    assert_eq!(
        plan_rebuild(&current, &desired, &vec![false], 0),
        Err(RebuildError::NothingPlaced)
    );
    assert_eq!(
        RebuildError::NothingPlaced.message(),
        "no panels were built; check the `[layout]` table in your config"
    );
}
