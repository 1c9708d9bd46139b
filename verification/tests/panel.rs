use mirador::panel::{describe_age, most_pressing, Alert, Binding, Severity};

#[test]
fn ages_are_said_the_way_a_person_would() {
    assert_eq!(describe_age(0), "0m old");
    assert_eq!(describe_age(59 * 60 + 59), "59m old");
    assert_eq!(describe_age(60 * 60), "1h old");
    assert_eq!(describe_age(5 * 3600 + 120), "5h old");
    assert_eq!(describe_age(24 * 3600), "1d old");
    assert_eq!(describe_age(3 * 86400 + 10), "3d old");
}

#[test]
fn the_most_severe_and_newest_alert_wins() {
    assert_eq!(most_pressing(&Vec::new()), None);
    let alerts = vec![
        Alert::soon("meeting in 5 minutes".into()),
        Alert::failing("save failed".into()),
        Alert::soon("meeting in 2 minutes".into()),
        Alert::failing("layout not saved".into()),
    ];
    let winner = most_pressing(&alerts).unwrap();
    assert_eq!(winner.severity, Severity::Failing);
    assert_eq!(winner.text, "layout not saved");
    let soon_only = vec![Alert::soon("a".into()), Alert::soon("b".into())];
    assert_eq!(most_pressing(&soon_only).unwrap().text, "b");
}

#[test]
fn bindings_say_whether_they_are_primary() {
    let b = Binding::primary("r", "refresh");
    assert!(b.primary && b.key == "r" && b.action == "refresh");
    assert!(!Binding::extra("x", "y").primary);
}
