use input_engine::engine::Engine;
use input_engine::errors::{EngineError, SendError};
use input_engine::stub::StubAdapter;
use input_engine::translate::translate;
use input_engine::vocabulary::{Axis, Button, Coordinate, Direction, Key};

fn fresh_engine(delay_ms: u32) -> Engine<StubAdapter> {
    Engine::new(StubAdapter::new(1920, 1080), delay_ms)
}

#[test]
fn press_then_release_leaves_key_not_held() {
    let mut e = fresh_engine(0);
    e.key(Key::Unicode('a'), Direction::Press).unwrap();
    assert!(e.held().contains(&Key::Unicode('a')));
    e.key(Key::Unicode('a'), Direction::Release).unwrap();
    assert!(!e.held().contains(&Key::Unicode('a')));
    assert!(e.held().is_empty());
}

#[test]
fn press_alone_holds_exactly_that_key_plus_earlier_ones() {
    let mut e = fresh_engine(0);
    e.key(Key::Shift, Direction::Press).unwrap();
    e.key(Key::Unicode('q'), Direction::Press).unwrap();
    let held = e.held();
    assert_eq!(held.len(), 2);
    assert!(held.contains(&Key::Shift));
    assert!(held.contains(&Key::Unicode('q')));
}

#[test]
fn click_leaves_held_set_unchanged() {
    let mut e = fresh_engine(0);
    e.key(Key::Control, Direction::Press).unwrap();
    e.key(Key::Unicode('c'), Direction::Click).unwrap();
    let held = e.held();
    assert!(!held.contains(&Key::Unicode('c')));
    assert!(held.contains(&Key::Control));
    assert_eq!(held.len(), 1);
}

#[test]
fn click_with_failed_release_leg_keeps_key_held() {
    let mut stub = StubAdapter::new(1920, 1080);
    // The press leg is the first dispatch, the release leg the second.
    stub.arm_failure(1);
    let mut e = Engine::new(stub, 0);
    let r = e.key(Key::Unicode('z'), Direction::Click);
    assert_eq!(r, Err(EngineError::Input));
    assert!(e.held().contains(&Key::Unicode('z')));
}

#[test]
fn failed_press_leaves_held_set_unchanged() {
    let mut stub = StubAdapter::new(1920, 1080);
    stub.arm_failure(0);
    let mut e = Engine::new(stub, 0);
    let r = e.key(Key::Unicode('z'), Direction::Press);
    assert_eq!(r, Err(EngineError::Input));
    assert!(e.held().is_empty());
}

#[test]
fn buttons_are_tracked_like_keys() {
    let mut e = fresh_engine(0);
    e.button(Button::Left, Direction::Press).unwrap();
    assert!(e.held_buttons().contains(&Button::Left));
    e.button(Button::Left, Direction::Release).unwrap();
    assert!(e.held_buttons().is_empty());
    e.button(Button::Right, Direction::Click).unwrap();
    assert!(e.held_buttons().is_empty());
    assert!(e.held().is_empty());
}

#[test]
fn raw_keycodes_are_tracked_as_raw_keys() {
    let mut e = fresh_engine(0);
    e.raw(13, Direction::Press).unwrap();
    assert!(e.held().contains(&Key::Raw(13)));
    e.raw(13, Direction::Release).unwrap();
    assert!(e.held().is_empty());
}

#[test]
fn absolute_move_is_read_back_by_location() {
    let mut e = fresh_engine(0);
    e.move_mouse(100, 100, Coordinate::Absolute).unwrap();
    assert_eq!(e.location(), Ok((100, 100)));
}

#[test]
fn relative_move_adds_to_current_position() {
    let mut e = fresh_engine(0);
    e.move_mouse(100, 200, Coordinate::Absolute).unwrap();
    e.move_mouse(-40, 25, Coordinate::Relative).unwrap();
    assert_eq!(e.location(), Ok((60, 225)));
}

#[test]
fn move_off_the_display_is_out_of_range() {
    let mut e = fresh_engine(0);
    e.move_mouse(10, 10, Coordinate::Absolute).unwrap();
    let r = e.move_mouse(-11, 0, Coordinate::Relative);
    assert_eq!(r, Err(EngineError::OutOfRange));
    assert_eq!(e.location(), Ok((10, 10)));
    assert_eq!(e.move_mouse(5000, 5000, Coordinate::Absolute), Err(EngineError::OutOfRange));
}

#[test]
fn main_display_reports_the_stub_size() {
    let e = fresh_engine(0);
    assert_eq!(e.main_display(), Ok((1920, 1080)));
}

#[test]
fn unsupported_queries_report_unsupported() {
    let mut stub = StubAdapter::new(640, 480);
    stub.set_display_query(false);
    stub.set_location_query(false);
    let e = Engine::new(stub, 0);
    assert_eq!(e.main_display(), Err(EngineError::Unsupported));
    assert_eq!(e.location(), Err(EngineError::Unsupported));
}

#[test]
fn unsupported_horizontal_scroll_fails_without_mutating_held() {
    let mut stub = StubAdapter::new(1920, 1080);
    stub.set_scroll_supported(Axis::Horizontal, false);
    let mut e = Engine::new(stub, 0);
    let r = e.scroll(10, Axis::Horizontal);
    assert_eq!(r, Err(EngineError::Unsupported));
    assert!(e.held().is_empty());
    assert!(e.held_buttons().is_empty());
    assert_eq!(e.adapter_ref().last_scroll(), None);
}

#[test]
fn scroll_length_overflow_is_out_of_range() {
    let mut e = fresh_engine(10);
    let r = e.scroll(i32::MIN, Axis::Vertical);
    assert_eq!(r, Err(EngineError::OutOfRange));
    assert_eq!(e.adapter_ref().last_scroll(), None);
    // Rejected before the platform was touched: no pause was requested.
    assert_eq!(e.adapter_ref().waited_ms(), 0);
    assert!(e.held().is_empty());
    // The neighbouring length is within bounds.
    assert_eq!(e.scroll(i32::MIN + 1, Axis::Vertical), Ok(()));
    assert_eq!(e.adapter_ref().last_scroll(), Some((i32::MIN + 1, Axis::Vertical)));
}

#[test]
fn supported_scroll_reaches_the_platform() {
    let mut e = fresh_engine(0);
    e.scroll(10, Axis::Vertical).unwrap();
    assert_eq!(e.adapter_ref().last_scroll(), Some((10, Axis::Vertical)));
    e.scroll(-3, Axis::Horizontal).unwrap();
    assert_eq!(e.adapter_ref().last_scroll(), Some((-3, Axis::Horizontal)));
}

#[test]
fn three_clicks_at_fifty_ms_pause_at_least_150_ms() {
    let mut e = fresh_engine(0);
    e.set_delay(50);
    e.key(Key::Unicode('a'), Direction::Click).unwrap();
    e.key(Key::Unicode('b'), Direction::Click).unwrap();
    e.key(Key::Unicode('c'), Direction::Click).unwrap();
    // Each click is two paused legs, so the platform was asked to pause
    // for 300 ms in all, beyond the 150 ms lower bound.
    assert!(e.adapter_ref().waited_ms() >= 150);
    assert_eq!(e.adapter_ref().waited_ms(), 300);
}

#[test]
fn zero_delay_asks_for_no_pause() {
    let mut e = fresh_engine(0);
    e.key(Key::Unicode('a'), Direction::Click).unwrap();
    assert_eq!(e.adapter_ref().waited_ms(), 0);
}

#[test]
fn set_delay_twice_is_idempotent() {
    let mut e = fresh_engine(0);
    e.set_delay(50);
    assert_eq!(e.delay_ms(), 50);
    e.set_delay(50);
    assert_eq!(e.delay_ms(), 50);
    assert!(e.held().is_empty());
    assert!(e.held_buttons().is_empty());
    assert_eq!(e.adapter_ref().waited_ms(), 0);
}

#[test]
fn delay_change_takes_effect_on_the_next_event() {
    let mut e = fresh_engine(10);
    e.key(Key::Unicode('a'), Direction::Press).unwrap();
    assert_eq!(e.adapter_ref().waited_ms(), 10);
    e.set_delay(30);
    e.key(Key::Unicode('a'), Direction::Release).unwrap();
    assert_eq!(e.adapter_ref().waited_ms(), 40);
}

#[test]
fn translate_brackets_uppercase_with_shift() {
    let mut tr = translate("Ab");
    let mut events = Vec::new();
    while let Some(ev) = tr.next_event() {
        events.push(ev);
    }
    assert_eq!(
        events,
        vec![
            (0, Key::Shift, Direction::Press),
            (0, Key::Unicode('A'), Direction::Press),
            (0, Key::Unicode('A'), Direction::Release),
            (0, Key::Shift, Direction::Release),
            (1, Key::Unicode('b'), Direction::Press),
            (1, Key::Unicode('b'), Direction::Release),
        ]
    );
}

#[test]
fn translate_of_empty_text_yields_nothing() {
    let mut tr = translate("");
    assert_eq!(tr.next_event(), None);
    assert_eq!(tr.next_event(), None);
}

#[test]
fn translate_keeps_code_point_order_and_positions() {
    let mut tr = translate("hi");
    let mut events = Vec::new();
    while let Some(ev) = tr.next_event() {
        events.push(ev);
    }
    assert_eq!(
        events,
        vec![
            (0, Key::Unicode('h'), Direction::Press),
            (0, Key::Unicode('h'), Direction::Release),
            (1, Key::Unicode('i'), Direction::Press),
            (1, Key::Unicode('i'), Direction::Release),
        ]
    );
}

#[test]
fn text_types_every_character_and_holds_nothing() {
    let mut e = fresh_engine(0);
    e.text("Ab c").unwrap();
    assert!(e.held().is_empty());
}

#[test]
fn text_counts_each_event_pause() {
    let mut e = fresh_engine(5);
    // "Ab" is six events: four for the shifted 'A', two for 'b'.
    e.text("Ab").unwrap();
    assert_eq!(e.adapter_ref().waited_ms(), 30);
}

#[test]
fn text_failure_reports_the_failing_character() {
    let mut stub = StubAdapter::new(1920, 1080);
    // Events of "Ab": shift press, 'A' press, 'A' release, shift release,
    // 'b' press, 'b' release. The third dispatch is made to fail.
    stub.arm_failure(2);
    let mut e = Engine::new(stub, 0);
    let r = e.text("Ab");
    assert_eq!(
        r,
        Err(EngineError::TextInjection { position: 0, cause: SendError::Input })
    );
    let held = e.held();
    assert!(held.contains(&Key::Shift));
    assert!(held.contains(&Key::Unicode('A')));
    assert_eq!(held.len(), 2);
}

#[test]
fn text_failure_in_a_later_character_reports_its_index() {
    let mut stub = StubAdapter::new(1920, 1080);
    // Events of "ab": 'a' press, 'a' release, 'b' press, 'b' release.
    stub.arm_failure(2);
    let mut e = Engine::new(stub, 0);
    let r = e.text("ab");
    assert_eq!(
        r,
        Err(EngineError::TextInjection { position: 1, cause: SendError::Input })
    );
    assert!(e.held().is_empty());
}

#[test]
fn empty_text_always_succeeds() {
    let mut stub = StubAdapter::new(1920, 1080);
    stub.arm_failure(0);
    let mut e = Engine::new(stub, 0);
    assert_eq!(e.text(""), Ok(()));
}

#[test]
fn held_returns_a_snapshot_not_a_live_view() {
    let mut e = fresh_engine(0);
    e.key(Key::Shift, Direction::Press).unwrap();
    let before = e.held();
    e.key(Key::Shift, Direction::Release).unwrap();
    assert!(before.contains(&Key::Shift));
    assert!(e.held().is_empty());
}

#[test]
fn engines_track_their_own_state_only() {
    let mut a = fresh_engine(0);
    let mut b = fresh_engine(0);
    a.key(Key::Alt, Direction::Press).unwrap();
    assert!(a.held().contains(&Key::Alt));
    assert!(b.held().is_empty());
    b.key(Key::Tab, Direction::Press).unwrap();
    assert!(!a.held().contains(&Key::Tab));
}
