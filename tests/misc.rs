use spotify_tui::cli::{Flag, JumpDirection, Type};
use spotify_tui::events::{Event, EventConfig};
use spotify_tui::model::{next_repeat_state, PageItem, RepeatState, ResultPage};

#[test]
fn flags_follow_option_order() {
    assert_eq!(Flag::from_options(true, true, true, true), vec![Flag::Like(true), Flag::Shuffle, Flag::Repeat]);
    assert_eq!(Flag::from_options(false, true, false, true), vec![Flag::Like(false), Flag::Repeat]);
    assert!(Flag::from_options(false, false, false, false).is_empty());
    assert_ne!(Type::Album, Type::Track);
    assert_ne!(JumpDirection::Next, JumpDirection::Previous);
}

#[test]
fn event_config_defaults() {
    let c = EventConfig::default();
    assert_eq!(c.exit_key, 'c');
    assert_eq!(c.tick_rate_ms, 250);
    assert_eq!(EventConfig::with_tick_rate(100).tick_rate_ms, 100);
    let e: Event<char> = Event::Input('q');
    assert_ne!(e, Event::Tick);
}

#[test]
fn repeat_modes_cycle() {
    assert_eq!(next_repeat_state(RepeatState::Off), RepeatState::Context);
    assert_eq!(next_repeat_state(RepeatState::Context), RepeatState::Track);
    assert_eq!(next_repeat_state(RepeatState::Track), RepeatState::Off);
}

#[test]
fn page_ids_skip_missing_and_offsets_overflow_to_none() {
    let p = ResultPage {
        items: vec![
            PageItem { id: Some("a".to_string()), name: "A".to_string(), owner_id: None, is_public: None },
            PageItem { id: None, name: "local".to_string(), owner_id: None, is_public: None },
            PageItem { id: Some("b".to_string()), name: "B".to_string(), owner_id: None, is_public: Some(true) },
        ],
        offset: 40,
        limit: 20,
        total: 70,
    };
    assert_eq!(p.ids(), vec!["a".to_string(), "b".to_string()]);
    assert_eq!(p.next_offset(), Some(60));
    let q = ResultPage { items: vec![], offset: u32::MAX, limit: 1, total: 0 };
    assert_eq!(q.next_offset(), None);
}
