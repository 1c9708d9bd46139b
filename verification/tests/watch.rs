use mirador::watch::{Event, WatchLog, CAPACITY, EARLIEST_NANOS, LATEST_NANOS};

const MINUTE: i128 = 60_000_000_000;

fn at(log: &WatchLog, minutes: i64) -> Event {
    Event {
        at: log.since() + i128::from(minutes) * MINUTE,
        source: "test".into(),
        text: format!("thing {minutes}"),
    }
}

#[test]
fn the_newest_entry_comes_first() {
    let mut log = WatchLog::default();
    log.push(at(&log, 1));
    log.push(at(&log, 2));

    let texts: Vec<&str> = log.entries().iter().map(|e| e.text.as_str()).collect();
    assert_eq!(texts, ["thing 2", "thing 1"]);
}

#[test]
fn the_oldest_entries_fall_off_rather_than_growing_without_bound() {
    let mut log = WatchLog::default();
    for minute in 0..i64::try_from(CAPACITY + 20).expect("fits") {
        log.push(at(&log, minute));
    }
    assert_eq!(log.entries().len(), CAPACITY);
    assert_eq!(
        log.entries().front().unwrap().text,
        format!("thing {}", CAPACITY + 19)
    );
}

#[test]
fn no_rule_line_is_offered_when_it_would_sit_at_either_end() {
    let mut log = WatchLog::default();
    assert_eq!(log.unseen(), None, "nothing says when they were last here");

    log.mark_seen();
    log.push(at(&log, 10));
    assert_eq!(log.unseen(), None, "everything is new; the line would top it");

    let mut log = WatchLog::default();
    log.push(at(&log, 1));
    log.push(at(&log, 2));
    let five = log.since() + 5 * MINUTE;
    log.mark_seen_at(five);
    assert_eq!(log.unseen(), None, "nothing is new; the line would foot it");
}

#[test]
fn the_line_falls_between_what_arrived_before_and_after() {
    let mut log = WatchLog::default();
    log.push(at(&log, 1));
    log.push(at(&log, 2));
    let three = log.since() + 3 * MINUTE;
    log.mark_seen_at(three);
    log.push(at(&log, 4));
    log.push(at(&log, 5));

    assert_eq!(log.unseen(), Some(2), "the two that arrived after");
}

#[test]
fn coming_back_leaves_the_rule_line_where_it_was() {
    let mut log = WatchLog::default();
    log.push(at(&log, 1));
    let two = log.since() + 2 * MINUTE;
    log.mark_seen_at(two);

    log.push(at(&log, 3));
    log.push(at(&log, 4));

    assert_eq!(log.unseen(), Some(2), "both entries that arrived while away are unseen");
    assert_eq!(
        log.unseen(),
        Some(2),
        "returning must not erase the line it exists to show"
    );
}

#[test]
fn a_log_knows_when_it_started() {
    let log = WatchLog::starting_at(42);
    assert_eq!(log.since(), 42);
    assert!(log.entries().is_empty());
}

#[test]
fn an_event_made_now_carries_a_representable_time() {
    let event = Event::new("clock".into(), "tick".into()).expect("the clock is readable");
    assert_eq!(event.source, "clock");
    assert_eq!(event.text, "tick");
    assert!(EARLIEST_NANOS <= event.at && event.at <= LATEST_NANOS);
    let log = WatchLog::new();
    assert!(EARLIEST_NANOS <= log.since() && log.since() <= LATEST_NANOS);
}

#[test]
fn an_event_made_at_a_time_keeps_it() {
    let event = Event::at(7, "clock".into(), "tick".into());
    assert_eq!(event, Event { at: 7, source: "clock".into(), text: "tick".into() });
}

#[test]
fn marking_seen_records_a_reading_of_the_clock() {
    let mut log = WatchLog::starting_at(0);
    assert!(log.mark_seen());
    log.push(Event::at(-1, "test".into(), "before".into()));
    log.push(Event::at(LATEST_NANOS, "test".into(), "after".into()));
    assert_eq!(log.unseen(), Some(1));
}
