//! Command vocabulary: the enumerated values the engine is commanded with,
//! and total, side-effect-free conversions between each variant and the
//! integral code used at the boundary.
//!
//! Decoding an integral code with no matching variant fails with
//! `InvalidEnumValue`; no code is ever silently mapped to a default variant.

use vstd::prelude::*;
use crate::errors::EngineError;

verus! {

/// A mouse button.
#[derive(Clone, Copy, Debug, PartialEq, Eq, Structural)]
pub enum Button {
    Left,
    Middle,
    Right,
    ScrollUp,
    ScrollDown,
    ScrollLeft,
    ScrollRight,
}

/// A key: named modifier and control keys, an arbitrary Unicode scalar
/// entered through a layout-independent path, or a raw platform keycode.
#[derive(Clone, Copy, Debug, PartialEq, Eq, Structural)]
pub enum Key {
    Alt,
    Backspace,
    CapsLock,
    Control,
    Escape,
    Meta,
    Return,
    Shift,
    Space,
    Tab,
    /// A Unicode scalar value, injected independently of the keyboard layout.
    Unicode(char),
    /// A raw platform keycode, which may or may not be mapped on the layout.
    Raw(u16),
}

/// The direction of a key or button event. `Click` is sugar for a press
/// immediately followed by a release.
#[derive(Clone, Copy, Debug, PartialEq, Eq, Structural)]
pub enum Direction {
    Press,
    Release,
    Click,
}

/// Whether a movement's (x, y) is meant against the display origin or
/// against the current pointer position.
#[derive(Clone, Copy, Debug, PartialEq, Eq, Structural)]
pub enum Coordinate {
    Absolute,
    Relative,
}

/// The axis of a scroll.
#[derive(Clone, Copy, Debug, PartialEq, Eq, Structural)]
pub enum Axis {
    Horizontal,
    Vertical,
}

/// The variant a boundary code decodes to, if any.
pub open spec fn button_of_code(code: int) -> Option<Button> {
    if code == 0 {
        Some(Button::Left)
    } else if code == 1 {
        Some(Button::Middle)
    } else if code == 2 {
        Some(Button::Right)
    } else if code == 3 {
        Some(Button::ScrollUp)
    } else if code == 4 {
        Some(Button::ScrollDown)
    } else if code == 5 {
        Some(Button::ScrollLeft)
    } else if code == 6 {
        Some(Button::ScrollRight)
    } else {
        None
    }
}

/// The boundary code of a button.
pub open spec fn code_of_button(b: Button) -> int {
    match b {
        Button::Left => 0,
        Button::Middle => 1,
        Button::Right => 2,
        Button::ScrollUp => 3,
        Button::ScrollDown => 4,
        Button::ScrollLeft => 5,
        Button::ScrollRight => 6,
    }
}

/// Decode a boundary code into a button.
pub fn get_button(code: i32) -> (r: Result<Button, EngineError>)
    ensures
        (match button_of_code(code as int) {
            Some(b) => r == Ok::<Button, EngineError>(b),
            None => r == Err::<Button, EngineError>(EngineError::InvalidEnumValue),
        }),
{
    match code {
        0 => Ok(Button::Left),
        1 => Ok(Button::Middle),
        2 => Ok(Button::Right),
        3 => Ok(Button::ScrollUp),
        4 => Ok(Button::ScrollDown),
        5 => Ok(Button::ScrollLeft),
        6 => Ok(Button::ScrollRight),
        _ => Err(EngineError::InvalidEnumValue),
    }
}

/// Encode a button as its boundary code.
pub fn button_code(b: Button) -> (r: i32)
    ensures
        r as int == code_of_button(b),
{
    match b {
        Button::Left => 0,
        Button::Middle => 1,
        Button::Right => 2,
        Button::ScrollUp => 3,
        Button::ScrollDown => 4,
        Button::ScrollLeft => 5,
        Button::ScrollRight => 6,
    }
}

/// Law: decoding the code of a button yields that button back.
pub proof fn lemma_button_round_trip(b: Button)
    ensures
        button_of_code(code_of_button(b)) == Some(b),
{
}

/// Law: encoding the button a valid code decodes to yields that code back.
pub proof fn lemma_button_code_round_trip(code: int, b: Button)
    requires
        button_of_code(code) == Some(b),
    ensures
        code_of_button(b) == code,
{
}

/// Law: exactly the codes 0 through 6 decode to a button.
pub proof fn lemma_button_code_range(code: int)
    ensures
        button_of_code(code) is Some <==> 0 <= code <= 6,
{
}

/// The variant a boundary code decodes to, if any.
pub open spec fn direction_of_code(code: int) -> Option<Direction> {
    if code == 0 {
        Some(Direction::Press)
    } else if code == 1 {
        Some(Direction::Release)
    } else if code == 2 {
        Some(Direction::Click)
    } else {
        None
    }
}

/// The boundary code of a direction.
pub open spec fn code_of_direction(d: Direction) -> int {
    match d {
        Direction::Press => 0,
        Direction::Release => 1,
        Direction::Click => 2,
    }
}

/// Decode a boundary code into a direction.
pub fn get_direction(code: i32) -> (r: Result<Direction, EngineError>)
    ensures
        (match direction_of_code(code as int) {
            Some(d) => r == Ok::<Direction, EngineError>(d),
            None => r == Err::<Direction, EngineError>(EngineError::InvalidEnumValue),
        }),
{
    match code {
        0 => Ok(Direction::Press),
        1 => Ok(Direction::Release),
        2 => Ok(Direction::Click),
        _ => Err(EngineError::InvalidEnumValue),
    }
}

/// Encode a direction as its boundary code.
pub fn direction_code(d: Direction) -> (r: i32)
    ensures
        r as int == code_of_direction(d),
{
    match d {
        Direction::Press => 0,
        Direction::Release => 1,
        Direction::Click => 2,
    }
}

/// Law: decoding the code of a direction yields that direction back.
pub proof fn lemma_direction_round_trip(d: Direction)
    ensures
        direction_of_code(code_of_direction(d)) == Some(d),
{
}

/// Law: encoding the direction a valid code decodes to yields that code back.
pub proof fn lemma_direction_code_round_trip(code: int, d: Direction)
    requires
        direction_of_code(code) == Some(d),
    ensures
        code_of_direction(d) == code,
{
}

/// Law: exactly the codes 0 through 2 decode to a direction.
pub proof fn lemma_direction_code_range(code: int)
    ensures
        direction_of_code(code) is Some <==> 0 <= code <= 2,
{
}

/// The variant a boundary code decodes to, if any.
pub open spec fn coordinate_of_code(code: int) -> Option<Coordinate> {
    if code == 0 {
        Some(Coordinate::Absolute)
    } else if code == 1 {
        Some(Coordinate::Relative)
    } else {
        None
    }
}

/// The boundary code of a coordinate convention.
pub open spec fn code_of_coordinate(c: Coordinate) -> int {
    match c {
        Coordinate::Absolute => 0,
        Coordinate::Relative => 1,
    }
}

/// Decode a boundary code into a coordinate convention.
pub fn get_coordinate(code: i32) -> (r: Result<Coordinate, EngineError>)
    ensures
        (match coordinate_of_code(code as int) {
            Some(c) => r == Ok::<Coordinate, EngineError>(c),
            None => r == Err::<Coordinate, EngineError>(EngineError::InvalidEnumValue),
        }),
{
    match code {
        0 => Ok(Coordinate::Absolute),
        1 => Ok(Coordinate::Relative),
        _ => Err(EngineError::InvalidEnumValue),
    }
}

/// Encode a coordinate convention as its boundary code.
pub fn coordinate_code(c: Coordinate) -> (r: i32)
    ensures
        r as int == code_of_coordinate(c),
{
    match c {
        Coordinate::Absolute => 0,
        Coordinate::Relative => 1,
    }
}

/// Law: decoding the code of a coordinate convention yields it back.
pub proof fn lemma_coordinate_round_trip(c: Coordinate)
    ensures
        coordinate_of_code(code_of_coordinate(c)) == Some(c),
{
}

/// Law: encoding the convention a valid code decodes to yields that code back.
pub proof fn lemma_coordinate_code_round_trip(code: int, c: Coordinate)
    requires
        coordinate_of_code(code) == Some(c),
    ensures
        code_of_coordinate(c) == code,
{
}

/// Law: exactly the codes 0 and 1 decode to a coordinate convention.
pub proof fn lemma_coordinate_code_range(code: int)
    ensures
        coordinate_of_code(code) is Some <==> 0 <= code <= 1,
{
}

/// The variant a boundary code decodes to, if any.
pub open spec fn axis_of_code(code: int) -> Option<Axis> {
    if code == 0 {
        Some(Axis::Horizontal)
    } else if code == 1 {
        Some(Axis::Vertical)
    } else {
        None
    }
}

/// The boundary code of an axis.
pub open spec fn code_of_axis(a: Axis) -> int {
    match a {
        Axis::Horizontal => 0,
        Axis::Vertical => 1,
    }
}

/// Decode a boundary code into an axis.
pub fn get_axis(code: i32) -> (r: Result<Axis, EngineError>)
    ensures
        (match axis_of_code(code as int) {
            Some(a) => r == Ok::<Axis, EngineError>(a),
            None => r == Err::<Axis, EngineError>(EngineError::InvalidEnumValue),
        }),
{
    match code {
        0 => Ok(Axis::Horizontal),
        1 => Ok(Axis::Vertical),
        _ => Err(EngineError::InvalidEnumValue),
    }
}

/// Encode an axis as its boundary code.
pub fn axis_code(a: Axis) -> (r: i32)
    ensures
        r as int == code_of_axis(a),
{
    match a {
        Axis::Horizontal => 0,
        Axis::Vertical => 1,
    }
}

/// Law: decoding the code of an axis yields that axis back.
pub proof fn lemma_axis_round_trip(a: Axis)
    ensures
        axis_of_code(code_of_axis(a)) == Some(a),
{
}

/// Law: encoding the axis a valid code decodes to yields that code back.
pub proof fn lemma_axis_code_round_trip(code: int, a: Axis)
    requires
        axis_of_code(code) == Some(a),
    ensures
        code_of_axis(a) == code,
{
}

/// Law: exactly the codes 0 and 1 decode to an axis.
pub proof fn lemma_axis_code_range(code: int)
    ensures
        axis_of_code(code) is Some <==> 0 <= code <= 1,
{
}

/// The named key a boundary code decodes to, if any. The `Unicode` and
/// `Raw` variants carry their payload across the boundary directly and
/// have no integral code.
pub open spec fn key_of_code(code: int) -> Option<Key> {
    if code == 0 {
        Some(Key::Alt)
    } else if code == 1 {
        Some(Key::Backspace)
    } else if code == 2 {
        Some(Key::CapsLock)
    } else if code == 3 {
        Some(Key::Control)
    } else if code == 4 {
        Some(Key::Escape)
    } else if code == 5 {
        Some(Key::Meta)
    } else if code == 6 {
        Some(Key::Return)
    } else if code == 7 {
        Some(Key::Shift)
    } else if code == 8 {
        Some(Key::Space)
    } else if code == 9 {
        Some(Key::Tab)
    } else {
        None
    }
}

/// The boundary code of a named key; the payload-carrying variants have none.
pub open spec fn code_of_key(k: Key) -> Option<int> {
    match k {
        Key::Alt => Some(0int),
        Key::Backspace => Some(1int),
        Key::CapsLock => Some(2int),
        Key::Control => Some(3int),
        Key::Escape => Some(4int),
        Key::Meta => Some(5int),
        Key::Return => Some(6int),
        Key::Shift => Some(7int),
        Key::Space => Some(8int),
        Key::Tab => Some(9int),
        Key::Unicode(_) => None,
        Key::Raw(_) => None,
    }
}

/// Decode a boundary code into a named key.
pub fn get_key(code: i32) -> (r: Result<Key, EngineError>)
    ensures
        (match key_of_code(code as int) {
            Some(k) => r == Ok::<Key, EngineError>(k),
            None => r == Err::<Key, EngineError>(EngineError::InvalidEnumValue),
        }),
{
    match code {
        0 => Ok(Key::Alt),
        1 => Ok(Key::Backspace),
        2 => Ok(Key::CapsLock),
        3 => Ok(Key::Control),
        4 => Ok(Key::Escape),
        5 => Ok(Key::Meta),
        6 => Ok(Key::Return),
        7 => Ok(Key::Shift),
        8 => Ok(Key::Space),
        9 => Ok(Key::Tab),
        _ => Err(EngineError::InvalidEnumValue),
    }
}

/// Encode a named key as its boundary code; the payload-carrying variants
/// have none.
pub fn key_code(k: Key) -> (r: Option<i32>)
    ensures
        (match code_of_key(k) {
            Some(code) => r matches Some(c) && c as int == code,
            None => r is None,
        }),
{
    match k {
        Key::Alt => Some(0),
        Key::Backspace => Some(1),
        Key::CapsLock => Some(2),
        Key::Control => Some(3),
        Key::Escape => Some(4),
        Key::Meta => Some(5),
        Key::Return => Some(6),
        Key::Shift => Some(7),
        Key::Space => Some(8),
        Key::Tab => Some(9),
        Key::Unicode(_) => None,
        Key::Raw(_) => None,
    }
}

/// Law: decoding the code of a named key yields that key back.
pub proof fn lemma_key_round_trip(k: Key, code: int)
    requires
        code_of_key(k) == Some(code),
    ensures
        key_of_code(code) == Some(k),
{
}

/// Law: encoding the key a valid code decodes to yields that code back.
pub proof fn lemma_key_code_round_trip(code: int, k: Key)
    requires
        key_of_code(code) == Some(k),
    ensures
        code_of_key(k) == Some(code),
{
}

/// Law: exactly the codes 0 through 9 decode to a named key.
pub proof fn lemma_key_code_range(code: int)
    ensures
        key_of_code(code) is Some <==> 0 <= code <= 9,
{
}

} // verus!
