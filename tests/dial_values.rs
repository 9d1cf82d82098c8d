use vupdaters::api::{ErrorKind, Status};
use vupdaters::dial::{same_text, Backlight, Channel, Id, Percent, PercentParseError};
use vupdaters::dialctl::{DialSelection, Selector, SetValues};

#[test]
fn percent_round_trips_in_range_and_rejects_above() {
    for v in 0u8..=255 {
        match Percent::new(v) {
            Ok(p) => {
                assert!(v <= 100);
                assert_eq!(p.get(), v);
            }
            Err(e) => {
                assert!(v > 100);
                assert_eq!(e.0, v);
            }
        }
    }
}

#[test]
fn percent_edges() {
    assert_eq!(Percent::new(0).unwrap().get(), 0);
    assert_eq!(Percent::new(100).unwrap().get(), 100);
    assert!(Percent::new(101).is_err());
}

#[test]
fn backlight_accepts_valid_channels() {
    let b = Backlight::new(10, 20, 30).unwrap();
    assert_eq!((b.red.get(), b.green.get(), b.blue.get()), (10, 20, 30));
}

#[test]
fn backlight_reports_first_bad_channel() {
    let e = Backlight::new(101, 200, 0).unwrap_err();
    assert_eq!(e.field, Channel::Red);
    assert_eq!(e.value.0, 101);
    let e = Backlight::new(0, 150, 120).unwrap_err();
    assert_eq!(e.field, Channel::Green);
    assert_eq!(e.value.0, 150);
    let e = Backlight::new(0, 0, 255).unwrap_err();
    assert_eq!(e.field, Channel::Blue);
    assert_eq!(e.value.0, 255);
}

#[test]
fn backlight_channel_overrides() {
    let b = Backlight::new(50, 50, 50).unwrap();
    let c = b.with_channels(Some(Percent::new(1).unwrap()), None, Some(Percent::new(3).unwrap()));
    assert_eq!((c.red.get(), c.green.get(), c.blue.get()), (1, 50, 3));
}

#[test]
fn set_values_merge_backlight() {
    let values = SetValues {
        value: None,
        image: None,
        red: None,
        green: Some(Percent::new(70).unwrap()),
        blue: None,
    };
    assert!(values.changes_backlight());
    let current = Backlight::new(5, 6, 7).unwrap();
    let b = values.backlight_from(&current);
    assert_eq!((b.red.get(), b.green.get(), b.blue.get()), (5, 70, 7));
    let none = SetValues { value: Some(Percent::new(3).unwrap()), image: None, red: None, green: None, blue: None };
    assert!(!none.changes_backlight());
}

#[test]
fn id_keeps_its_text() {
    assert_eq!(Id::new("ABC123".to_string()).as_str(), "ABC123");
}

#[test]
fn text_comparison() {
    assert!(same_text("CPU Load", "CPU Load"));
    assert!(!same_text("CPU Load", "CPU load"));
    assert!(!same_text("CPU", "CPU Load"));
    assert!(same_text("", ""));
}

#[test]
fn status_parses_any_case_and_trims() {
    assert_eq!(Status::parse("ok"), Ok(Status::Success));
    assert_eq!(Status::parse("  OK \n"), Ok(Status::Success));
    assert_eq!(Status::parse("Fail"), Ok(Status::Fail));
    assert_eq!(Status::parse("\tFAIL"), Ok(Status::Fail));
    assert!(Status::parse("okay").is_err());
    assert!(Status::parse("").is_err());
    assert_eq!(Status::parse_word("oK"), Ok(Status::Success));
    assert!(Status::parse_word(" ok").is_err());
}

#[test]
fn error_kinds_are_distinct() {
    assert_ne!(ErrorKind::BuildUrl, ErrorKind::Request);
}

#[test]
fn selection_by_uid_wins() {
    let sel = DialSelection { uid: Some(Id::new("X1".to_string())), index: Some(3), name: None };
    match sel.selector() {
        Some(Selector::ByUid(id)) => assert_eq!(id.as_str(), "X1"),
        _ => panic!("expected a UID selector"),
    }
}

#[test]
fn selection_by_index_or_name() {
    let by_index = DialSelection { uid: None, index: Some(2), name: None }.selector().unwrap();
    assert!(by_index.matches(2, "anything"));
    assert!(!by_index.matches(1, "anything"));
    let by_name = DialSelection { uid: None, index: None, name: Some("CPU Load".to_string()) }
        .selector()
        .unwrap();
    assert!(by_name.matches(7, "CPU Load"));
    assert!(!by_name.matches(7, "Memory Usage"));
    assert!(DialSelection { uid: None, index: Some(1), name: Some("x".to_string()) }.selector().is_none());
    assert!(DialSelection { uid: None, index: None, name: None }.selector().is_none());
}

#[test]
fn percent_parses_from_text() {
    assert_eq!(Percent::parse("42").unwrap().get(), 42);
    assert_eq!(Percent::parse(" 42% ").unwrap().get(), 42);
    assert_eq!(Percent::parse("7%%").unwrap().get(), 7);
    assert_eq!(Percent::parse("+100").unwrap().get(), 100);
    assert_eq!(Percent::parse("007").unwrap().get(), 7);
    assert_eq!(Percent::parse("101"), Err(PercentParseError::InvalidPercent(vupdaters::dial::PercentError(101))));
    assert_eq!(Percent::parse("255%"), Err(PercentParseError::InvalidPercent(vupdaters::dial::PercentError(255))));
    assert_eq!(Percent::parse("256"), Err(PercentParseError::NotAU8));
    assert_eq!(Percent::parse("99999999999"), Err(PercentParseError::NotAU8));
    assert_eq!(Percent::parse(""), Err(PercentParseError::NotAU8));
    assert_eq!(Percent::parse("%"), Err(PercentParseError::NotAU8));
    assert_eq!(Percent::parse("-1"), Err(PercentParseError::NotAU8));
    assert_eq!(Percent::parse("4 2"), Err(PercentParseError::NotAU8));
    assert_eq!(Percent::parse_trimmed(" 4"), Err(PercentParseError::NotAU8));
    let p: Percent = "55%".parse().unwrap();
    assert_eq!(p.get(), 55);
    let st: Status = " fail ".parse().unwrap();
    assert_eq!(st, Status::Fail);
}
