//! The enigo-backed platform adapter: the one adapter implementation that
//! injects real events, by handing each dispatch to the enigo crate's
//! platform connection. Every call into enigo stands behind a trusted
//! wrapper; nothing is promised of a dispatch beyond the shape of its
//! error, since whether the operating system accepts an event depends on
//! the outside world.

use vstd::prelude::*;
use crate::adapter::PlatformAdapter;
use crate::engine::Engine;
use crate::errors::{EngineError, SendError};
use crate::vocabulary::{Axis, Button, Coordinate, Direction, Key};

verus! {

#[verifier::external_type_specification]
#[verifier::external_body]
pub struct ExEnigo(enigo::Enigo);

#[verifier::external_type_specification]
#[verifier::external_body]
pub struct ExSettings(enigo::Settings);

/// Relies on enigo::Settings::default: the out-of-the-box connection
/// settings.
#[verifier::external_body]
fn enigo_default_settings() -> enigo::Settings {
    enigo::Settings::default()
}

/// Relies on enigo::Enigo::new: establishes the platform connection, or
/// fails when no display server or input protocol can be reached.
#[verifier::external_body]
fn enigo_connect(settings: &enigo::Settings) -> (r: Result<enigo::Enigo, EngineError>)
    ensures
        r matches Err(e) ==> e == EngineError::Initialization,
{
    enigo::Enigo::new(settings).map_err(|_| EngineError::Initialization)
}

/// Relies on enigo::Enigo::set_delay: stores the per-event delay that the
/// platform connection applies to the events it subsequently injects.
#[verifier::external_body]
fn enigo_set_delay(e: &mut enigo::Enigo, ms: u32) {
    e.set_delay(ms);
}

/// Relies on enigo::Mouse::button: injects one mouse-button event.
#[verifier::external_body]
fn enigo_button(e: &mut enigo::Enigo, b: Button, press: bool) -> (r: Result<(), SendError>)
    ensures
        r matches Err(x) ==> x == SendError::Input,
{
    let eb = match b {
        Button::Left => enigo::Button::Left,
        Button::Middle => enigo::Button::Middle,
        Button::Right => enigo::Button::Right,
        Button::ScrollUp => enigo::Button::ScrollUp,
        Button::ScrollDown => enigo::Button::ScrollDown,
        Button::ScrollLeft => enigo::Button::ScrollLeft,
        Button::ScrollRight => enigo::Button::ScrollRight,
    };
    let ed = if press { enigo::Direction::Press } else { enigo::Direction::Release };
    enigo::Mouse::button(e, eb, ed).map_err(|_| SendError::Input)
}

/// Relies on enigo::Mouse::move_mouse: moves the pointer, absolutely or
/// relative to its current position. Coordinates the platform cannot
/// represent come back as enigo's invalid-input error, reported here as
/// the out-of-range case.
#[verifier::external_body]
fn enigo_move(e: &mut enigo::Enigo, x: i32, y: i32, absolute: bool) -> (r: Result<(), SendError>)
    ensures
        r matches Err(x) ==> (x == SendError::Input || x == SendError::OutOfRange),
{
    let c = if absolute { enigo::Coordinate::Abs } else { enigo::Coordinate::Rel };
    enigo::Mouse::move_mouse(e, x, y, c).map_err(|er| match er {
        enigo::InputError::InvalidInput(_) => SendError::OutOfRange,
        enigo::InputError::Mapping(_) => SendError::Input,
        enigo::InputError::Unmapping(_) => SendError::Input,
        enigo::InputError::NoEmptyKeycodes => SendError::Input,
        enigo::InputError::Simulate(_) => SendError::Input,
    })
}

/// Relies on enigo::Mouse::scroll: injects one scroll event. The length
/// whose magnitude overflows the signed range is excluded: enigo takes
/// the absolute value of the length, which that one length does not
/// have.
#[verifier::external_body]
fn enigo_scroll(e: &mut enigo::Enigo, length: i32, horizontal: bool) -> (r: Result<
    (),
    SendError,
>)
    requires
        length != i32::MIN,
    ensures
        r matches Err(x) ==> x == SendError::Input,
{
    let a = if horizontal { enigo::Axis::Horizontal } else { enigo::Axis::Vertical };
    enigo::Mouse::scroll(e, length, a).map_err(|_| SendError::Input)
}

/// Relies on enigo::Keyboard::key: injects one key event, entering the
/// keysym of the given key.
#[verifier::external_body]
fn enigo_key(e: &mut enigo::Enigo, k: Key, press: bool) -> (r: Result<(), SendError>)
    requires
        !(k matches Key::Raw(_)),
    ensures
        r matches Err(x) ==> x == SendError::Input,
{
    let ek = match k {
        Key::Alt => enigo::Key::Alt, Key::Backspace => enigo::Key::Backspace,
        Key::CapsLock => enigo::Key::CapsLock, Key::Control => enigo::Key::Control,
        Key::Escape => enigo::Key::Escape, Key::Meta => enigo::Key::Meta,
        Key::Return => enigo::Key::Return, Key::Shift => enigo::Key::Shift,
        Key::Space => enigo::Key::Space, Key::Tab => enigo::Key::Tab,
        Key::Unicode(c) => enigo::Key::Unicode(c),
        Key::Raw(_) => return Err(SendError::Input),
    };
    let ed = if press { enigo::Direction::Press } else { enigo::Direction::Release };
    enigo::Keyboard::key(e, ek, ed).map_err(|_| SendError::Input)
}

/// Relies on enigo::Keyboard::raw: injects one event for a raw platform
/// keycode.
#[verifier::external_body]
fn enigo_raw(e: &mut enigo::Enigo, code: u16, press: bool) -> (r: Result<(), SendError>)
    ensures
        r matches Err(x) ==> x == SendError::Input,
{
    let ed = if press { enigo::Direction::Press } else { enigo::Direction::Release };
    enigo::Keyboard::raw(e, code, ed).map_err(|_| SendError::Input)
}

/// Relies on enigo::Mouse::main_display: the (width, height) of the main
/// display in pixels. A display server that reports no display modes at
/// all would make enigo itself panic; no condition on the arguments can
/// exclude that environmental state.
#[verifier::external_body]
fn enigo_main_display(e: &enigo::Enigo) -> (r: Result<(i32, i32), SendError>)
    ensures
        r matches Err(x) ==> x == SendError::Input,
{
    enigo::Mouse::main_display(e).map_err(|_| SendError::Input)
}

/// Relies on enigo::Mouse::location: the pointer location in pixels.
#[verifier::external_body]
fn enigo_location(e: &enigo::Enigo) -> (r: Result<(i32, i32), SendError>)
    ensures
        r matches Err(x) ==> x == SendError::Input,
{
    enigo::Mouse::location(e).map_err(|_| SendError::Input)
}

/// The adapter that injects events through the enigo platform connection.
pub struct EnigoAdapter {
    inner: enigo::Enigo,
}

impl EnigoAdapter {
    /// Connect to the platform with enigo's default settings. Fails
    /// exactly when the platform connection cannot be established.
    pub fn new() -> (r: Result<EnigoAdapter, EngineError>)
        ensures
            r matches Err(e) ==> e == EngineError::Initialization,
    {
        let settings = enigo_default_settings();
        match enigo_connect(&settings) {
            Ok(inner) => Ok(EnigoAdapter { inner }),
            Err(e) => Err(e),
        }
    }
}

impl PlatformAdapter for EnigoAdapter {
    /// Forward the pause length as the connection's per-event delay,
    /// which the platform applies to the events it injects; wall-clock
    /// sleeping on the calling thread belongs to the embedder.
    fn pause(&mut self, ms: u32) {
        enigo_set_delay(&mut self.inner, ms);
    }

    fn move_pointer(&mut self, x: i32, y: i32, coordinate: Coordinate) -> (r: Result<
        (),
        SendError,
    >) {
        let absolute = match coordinate {
            Coordinate::Absolute => true,
            Coordinate::Relative => false,
        };
        enigo_move(&mut self.inner, x, y, absolute)
    }

    fn click_button(&mut self, button: Button, direction: Direction) -> (r: Result<
        (),
        SendError,
    >) {
        let press = match direction {
            Direction::Press => true,
            _ => false,
        };
        enigo_button(&mut self.inner, button, press)
    }

    fn scroll(&mut self, amount: i32, axis: Axis) -> (r: Result<(), SendError>) {
        let horizontal = match axis {
            Axis::Horizontal => true,
            Axis::Vertical => false,
        };
        enigo_scroll(&mut self.inner, amount, horizontal)
    }

    fn send_key(&mut self, key: Key, direction: Direction) -> (r: Result<(), SendError>) {
        let press = match direction {
            Direction::Press => true,
            _ => false,
        };
        enigo_key(&mut self.inner, key, press)
    }

    fn send_raw_keycode(&mut self, code: u16, direction: Direction) -> (r: Result<
        (),
        SendError,
    >) {
        let press = match direction {
            Direction::Press => true,
            _ => false,
        };
        enigo_raw(&mut self.inner, code, press)
    }

    fn main_display_size(&self) -> (r: Result<(i32, i32), SendError>) {
        enigo_main_display(&self.inner)
    }

    fn pointer_location(&self) -> (r: Result<(i32, i32), SendError>) {
        enigo_location(&self.inner)
    }
}

/// Connect a full engine to the real platform: an enigo-backed adapter
/// with nothing held and the given initial per-event delay. Fails exactly
/// when the platform connection cannot be established.
pub fn connect(delay_ms: u32) -> (r: Result<Engine<EnigoAdapter>, EngineError>)
    ensures
        r matches Ok(e) ==> e.held_key_set() == Set::<Key>::empty() && e.held_button_set()
            == Set::<Button>::empty() && e.delay() == delay_ms,
        r matches Err(e) ==> e == EngineError::Initialization,
{
    match EnigoAdapter::new() {
        Ok(a) => Ok(Engine::new(a, delay_ms)),
        Err(e) => Err(e),
    }
}

} // verus!
