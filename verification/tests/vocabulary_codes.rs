use input_engine::errors::EngineError;
use input_engine::vocabulary::{
    axis_code, button_code, coordinate_code, direction_code, get_axis, get_button,
    get_coordinate, get_direction, get_key, key_code, Axis, Button, Coordinate, Direction, Key,
};

#[test]
fn button_codes_round_trip() {
    let buttons = [
        Button::Left,
        Button::Middle,
        Button::Right,
        Button::ScrollUp,
        Button::ScrollDown,
        Button::ScrollLeft,
        Button::ScrollRight,
    ];
    for b in buttons {
        assert_eq!(get_button(button_code(b)), Ok(b));
    }
    for code in 0..=6 {
        let b = get_button(code).expect("a valid code decodes");
        assert_eq!(button_code(b), code);
    }
}

#[test]
fn button_code_examples() {
    assert_eq!(get_button(0), Ok(Button::Left));
    assert_eq!(get_button(1), Ok(Button::Middle));
    assert_eq!(get_button(2), Ok(Button::Right));
    assert_eq!(get_button(6), Ok(Button::ScrollRight));
}

#[test]
fn direction_codes_round_trip() {
    for d in [Direction::Press, Direction::Release, Direction::Click] {
        assert_eq!(get_direction(direction_code(d)), Ok(d));
    }
    assert_eq!(get_direction(0), Ok(Direction::Press));
    assert_eq!(get_direction(1), Ok(Direction::Release));
    assert_eq!(get_direction(2), Ok(Direction::Click));
}

#[test]
fn coordinate_codes_round_trip() {
    for c in [Coordinate::Absolute, Coordinate::Relative] {
        assert_eq!(get_coordinate(coordinate_code(c)), Ok(c));
    }
    assert_eq!(get_coordinate(0), Ok(Coordinate::Absolute));
    assert_eq!(get_coordinate(1), Ok(Coordinate::Relative));
}

#[test]
fn axis_codes_round_trip() {
    for a in [Axis::Horizontal, Axis::Vertical] {
        assert_eq!(get_axis(axis_code(a)), Ok(a));
    }
    assert_eq!(get_axis(0), Ok(Axis::Horizontal));
    assert_eq!(get_axis(1), Ok(Axis::Vertical));
}

#[test]
fn named_key_codes_round_trip() {
    let keys = [
        Key::Alt,
        Key::Backspace,
        Key::CapsLock,
        Key::Control,
        Key::Escape,
        Key::Meta,
        Key::Return,
        Key::Shift,
        Key::Space,
        Key::Tab,
    ];
    for k in keys {
        let code = key_code(k).expect("a named key has a code");
        assert_eq!(get_key(code), Ok(k));
    }
    for code in 0..=9 {
        let k = get_key(code).expect("a valid code decodes");
        assert_eq!(key_code(k), Some(code));
    }
}

#[test]
fn payload_keys_have_no_code() {
    assert_eq!(key_code(Key::Unicode('x')), None);
    assert_eq!(key_code(Key::Raw(42)), None);
}

#[test]
fn invalid_codes_are_rejected_not_defaulted() {
    for code in [-1, 7, 100, i32::MIN, i32::MAX] {
        assert_eq!(get_button(code), Err(EngineError::InvalidEnumValue));
    }
    for code in [-1, 3, 50, i32::MIN, i32::MAX] {
        assert_eq!(get_direction(code), Err(EngineError::InvalidEnumValue));
    }
    for code in [-1, 2, 9, i32::MIN, i32::MAX] {
        assert_eq!(get_coordinate(code), Err(EngineError::InvalidEnumValue));
        assert_eq!(get_axis(code), Err(EngineError::InvalidEnumValue));
    }
    for code in [-1, 10, 1000, i32::MIN, i32::MAX] {
        assert_eq!(get_key(code), Err(EngineError::InvalidEnumValue));
    }
}
