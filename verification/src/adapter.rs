//! Platform capability adapter: the one polymorphic interface behind which
//! all platform-specific event injection stands. One implementation is
//! chosen when an engine is constructed and never switched at runtime.
//!
//! The engine facade expands `Click` into a press leg and a release leg
//! before dispatching, so an adapter only ever receives `Press` or
//! `Release`, and raw keycodes reach an adapter only through
//! `send_raw_keycode`.

use vstd::prelude::*;
use crate::errors::SendError;
use crate::vocabulary::{Axis, Button, Coordinate, Direction, Key};

verus! {

/// The capability set one platform backend offers. Nothing is promised of
/// a dispatch in general: whether the platform accepts an event depends on
/// the outside world, and every caller in the engine states what holds of
/// its own bookkeeping whatever a dispatch returned.
pub trait PlatformAdapter: Sized {
    /// Perform the pre-event pause of the given length in the platform's
    /// own way; a length of zero asks for no pause.
    fn pause(&mut self, ms: u32);

    /// Move the pointer to (x, y), read against the display origin or the
    /// current pointer position.
    fn move_pointer(&mut self, x: i32, y: i32, coordinate: Coordinate) -> Result<(), SendError>;

    /// Inject one leg of a mouse-button event.
    fn click_button(&mut self, button: Button, direction: Direction) -> Result<(), SendError>
        requires
            direction != Direction::Click,
    ;

    /// Inject a scroll of the given length along the given axis. The
    /// facade rejects the one length whose magnitude overflows the
    /// signed range before dispatching, so no backend meets it.
    fn scroll(&mut self, amount: i32, axis: Axis) -> Result<(), SendError>
        requires
            amount != i32::MIN,
    ;

    /// Inject one leg of a key event for a named or Unicode key.
    fn send_key(&mut self, key: Key, direction: Direction) -> Result<(), SendError>
        requires
            direction != Direction::Click,
            !(key matches Key::Raw(_)),
    ;

    /// Inject one leg of a key event for a raw platform keycode.
    fn send_raw_keycode(&mut self, code: u16, direction: Direction) -> Result<(), SendError>
        requires
            direction != Direction::Click,
    ;

    /// The (width, height) of the main display in pixels, or `Unsupported`
    /// where the platform cannot answer.
    fn main_display_size(&self) -> Result<(i32, i32), SendError>;

    /// The pointer location in pixels, or `Unsupported` where the platform
    /// cannot answer.
    fn pointer_location(&self) -> Result<(i32, i32), SendError>;
}

} // verus!
