use river_status::aggregate::{Aggregate, Layout, OutputEvent, ProjectError, SeatEvent};
use river_status::session::{Action, Config, ConfigError, Event, Session, DEFAULT_TAGS};

fn complete_aggregate() -> Aggregate {
    let mut a = Aggregate::new();
    a.apply_seat(SeatEvent::FocusedView { title: "term".to_string() });
    a.apply_seat(SeatEvent::Mode { name: "normal".to_string() });
    a.apply_output(OutputEvent::FocusedTags { tags: 0b10 });
    a.apply_output(OutputEvent::UrgentTags { tags: 0 });
    a
}

#[test]
fn focused_tag_zero_on_nine_tags() {
    let mut a = complete_aggregate();
    a.apply_output(OutputEvent::FocusedTags { tags: 1 });
    let s = a.to_snapshot(9).unwrap();
    assert_eq!(s.focused, vec![true, false, false, false, false, false, false, false, false]);
}

#[test]
fn tag_words_expand_least_significant_bit_first() {
    let mut a = complete_aggregate();
    a.apply_output(OutputEvent::UrgentTags { tags: 0b1010_0101 });
    a.apply_output(OutputEvent::FocusedTags { tags: 0x8000_0000 });
    let s = a.to_snapshot(32).unwrap();
    assert_eq!(&s.urgent[..9], &[true, false, true, false, false, true, false, true, false]);
    assert!(s.urgent[9..].iter().all(|b| !b));
    assert!(s.focused[..31].iter().all(|b| !b));
    assert!(s.focused[31]);
}

#[test]
fn cleared_layout_is_absent_like_no_layout() {
    let untouched = complete_aggregate().to_snapshot(9).unwrap();
    let mut a = complete_aggregate();
    a.apply_output(OutputEvent::LayoutName { name: "rivertile".to_string() });
    assert_eq!(a.to_snapshot(9).unwrap().layout, Some("rivertile".to_string()));
    a.apply_output(OutputEvent::LayoutNameClear);
    assert!(matches!(a.layout, Layout::Cleared));
    let s = a.to_snapshot(9).unwrap();
    assert_eq!(s.layout, None);
    assert_eq!(untouched.layout, None);
}

#[test]
fn empty_title_is_a_title() {
    let mut a = complete_aggregate();
    a.apply_seat(SeatEvent::FocusedView { title: String::new() });
    assert_eq!(a.to_snapshot(9).unwrap().title, "");
}

#[test]
fn each_missing_field_is_reported() {
    let mut a = Aggregate::new();
    assert_eq!(a.to_snapshot(9).unwrap_err(), ProjectError::MissingTitle);
    a.apply_seat(SeatEvent::FocusedView { title: "t".to_string() });
    assert_eq!(a.to_snapshot(9).unwrap_err(), ProjectError::MissingMode);
    a.apply_seat(SeatEvent::Mode { name: "m".to_string() });
    assert_eq!(a.to_snapshot(9).unwrap_err(), ProjectError::MissingUrgent);
    a.apply_output(OutputEvent::UrgentTags { tags: 0 });
    assert_eq!(a.to_snapshot(9).unwrap_err(), ProjectError::MissingFocused);
    assert!(!a.is_complete());
    a.apply_output(OutputEvent::FocusedTags { tags: 0 });
    assert!(a.is_complete());
    assert!(a.to_snapshot(9).is_ok());
}

#[test]
fn every_event_marks_the_aggregate_dirty() {
    let mut a = complete_aggregate();
    a.dirty = false;
    assert!(!a.is_ready());
    a.apply_seat(SeatEvent::Mode { name: "normal".to_string() });
    assert!(a.dirty);
    assert!(a.is_ready());
}

fn status_events(session: &mut Session) {
    session.handle(Event::Seat(SeatEvent::FocusedView { title: "term".to_string() }));
    session.handle(Event::Seat(SeatEvent::Mode { name: "normal".to_string() }));
    session.handle(Event::Output(OutputEvent::FocusedTags { tags: 1 }));
    session.handle(Event::Output(OutputEvent::UrgentTags { tags: 0 }));
}

#[test]
fn session_waits_until_complete_then_emits() {
    let mut s = Session::new(Config::new(false, 9).unwrap());
    assert!(matches!(s.next_action(), Action::Dispatch));
    s.handle(Event::Seat(SeatEvent::FocusedView { title: "term".to_string() }));
    s.handle(Event::Seat(SeatEvent::Mode { name: "normal".to_string() }));
    s.handle(Event::Output(OutputEvent::FocusedTags { tags: 1 }));
    assert!(matches!(s.next_action(), Action::Dispatch));
    s.handle(Event::Output(OutputEvent::UrgentTags { tags: 0 }));
    match s.next_action() {
        Action::Emit(snap) => {
            assert_eq!(snap.title, "term");
            assert_eq!(snap.mode, "normal");
            assert_eq!(snap.layout, None);
            assert_eq!(snap.focused.len(), 9);
            assert_eq!(snap.urgent, vec![false; 9]);
        }
        other => panic!("expected a publication, got {:?}", other),
    }
}

#[test]
fn single_run_emits_once_and_finishes() {
    let mut s = Session::new(Config::new(false, 9).unwrap());
    status_events(&mut s);
    assert!(matches!(s.next_action(), Action::Emit(_)));
    assert!(matches!(s.next_action(), Action::Finish));
    s.handle(Event::Seat(SeatEvent::Mode { name: "other".to_string() }));
    assert!(matches!(s.next_action(), Action::Finish));
}

#[test]
fn watch_emits_once_per_event_even_when_unchanged() {
    let mut s = Session::new(Config::new(true, 9).unwrap());
    status_events(&mut s);
    assert!(matches!(s.next_action(), Action::Emit(_)));
    assert!(matches!(s.next_action(), Action::Dispatch));
    for _ in 0..3 {
        s.handle(Event::Seat(SeatEvent::Mode { name: "normal".to_string() }));
        assert!(matches!(s.next_action(), Action::Emit(_)));
        assert!(matches!(s.next_action(), Action::Dispatch));
    }
    s.handle(Event::Output(OutputEvent::FocusedTags { tags: 2 }));
    match s.next_action() {
        Action::Emit(snap) => assert_eq!(snap.focused[..2], [false, true]),
        other => panic!("expected a publication, got {:?}", other),
    }
}

#[test]
fn session_routes_globals_to_the_binder() {
    let mut s = Session::new(Config::new(true, 9).unwrap());
    let reqs = s.handle(Event::Global {
        name: 4,
        interface: "wl_seat".to_string(),
        version: 8,
    });
    assert_eq!(reqs.len(), 1);
    assert_eq!(s.bindings.seat, Some(4));
    assert!(!s.aggregate.is_complete());
}

#[test]
fn tag_count_must_be_between_one_and_thirty_two() {
    assert_eq!(Config::new(false, 0), Err(ConfigError::TagsOutOfRange));
    assert_eq!(Config::new(false, 33), Err(ConfigError::TagsOutOfRange));
    assert_eq!(Config::new(false, 255), Err(ConfigError::TagsOutOfRange));
    assert_eq!(Config::new(true, 1), Ok(Config { watch: true, tags: 1 }));
    assert_eq!(Config::new(false, 32), Ok(Config { watch: false, tags: 32 }));
    assert_eq!(DEFAULT_TAGS, 9);
}
