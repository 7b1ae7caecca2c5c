//! A model platform: an adapter implementation with fully specified
//! behaviour. It injects nothing into any operating system; it keeps the
//! pointer, the main-display size, the summed pause time and the last
//! scroll as plain state, and can be configured to refuse an axis, a
//! query, or the n-th upcoming event, so that callers can exercise every
//! failure path of the engine.

use vstd::prelude::*;
use crate::adapter::PlatformAdapter;
use crate::errors::SendError;
use crate::vocabulary::{Axis, Button, Coordinate, Direction, Key};

verus! {

/// What a failure countdown becomes once one more event was dispatched.
pub open spec fn ticked(a: Option<u32>) -> Option<u32> {
    match a {
        Some(n) => if n == 0 {
            None
        } else {
            Some((n - 1) as u32)
        },
        None => None,
    }
}

/// Whether a failure countdown makes the very next event fail.
pub open spec fn trips(a: Option<u32>) -> bool {
    a == Some(0u32)
}

/// Where a movement command points, read under its coordinate convention.
pub open spec fn move_target(p: (int, int), x: int, y: int, c: Coordinate) -> (int, int) {
    match c {
        Coordinate::Absolute => (x, y),
        Coordinate::Relative => (p.0 + x, p.1 + y),
    }
}

/// Whether a position lies on a display of the given size.
pub open spec fn in_display(dims: (int, int), p: (int, int)) -> bool {
    0 <= p.0 < dims.0 && 0 <= p.1 < dims.1
}

/// The model platform.
pub struct StubAdapter {
    width: i32,
    height: i32,
    x: i32,
    y: i32,
    waited_ms: u64,
    horizontal_scroll: bool,
    vertical_scroll: bool,
    display_query: bool,
    location_query: bool,
    last_scroll: Option<(i32, Axis)>,
    armed: Option<u32>,
}

impl StubAdapter {
    #[verifier::type_invariant]
    spec fn inv(self) -> bool {
        &&& 0 < self.width
        &&& 0 < self.height
        &&& 0 <= self.x < self.width
        &&& 0 <= self.y < self.height
    }

    /// The main-display size.
    pub closed spec fn dims(self) -> (int, int) {
        (self.width as int, self.height as int)
    }

    /// The pointer position.
    pub closed spec fn pointer(self) -> (int, int) {
        (self.x as int, self.y as int)
    }

    /// The summed length of all pauses performed so far, saturating.
    pub closed spec fn waited(self) -> int {
        self.waited_ms as int
    }

    /// Whether scrolling along the given axis is supported.
    pub closed spec fn scroll_supported(self, a: Axis) -> bool {
        match a {
            Axis::Horizontal => self.horizontal_scroll,
            Axis::Vertical => self.vertical_scroll,
        }
    }

    /// Whether the display-size query is supported.
    pub closed spec fn display_query_enabled(self) -> bool {
        self.display_query
    }

    /// Whether the pointer-location query is supported.
    pub closed spec fn location_query_enabled(self) -> bool {
        self.location_query
    }

    /// The last accepted scroll, as (length, axis).
    pub closed spec fn scrolled(self) -> Option<(i32, Axis)> {
        self.last_scroll
    }

    /// The failure countdown: `Some(n)` makes the n-th upcoming event
    /// dispatch fail, counting the next one as the zeroth.
    pub closed spec fn armed(self) -> Option<u32> {
        self.armed
    }

    /// A fresh model platform of the given display size: pointer at the
    /// origin, nothing waited, everything supported, no failure armed.
    pub fn new(width: i32, height: i32) -> (s: Self)
        requires
            0 < width,
            0 < height,
        ensures
            s.dims() == (width as int, height as int),
            s.pointer() == (0int, 0int),
            s.waited() == 0,
            s.armed() is None,
            s.scrolled() is None,
            s.scroll_supported(Axis::Horizontal),
            s.scroll_supported(Axis::Vertical),
            s.display_query_enabled(),
            s.location_query_enabled(),
    {
        StubAdapter {
            width,
            height,
            x: 0,
            y: 0,
            waited_ms: 0,
            horizontal_scroll: true,
            vertical_scroll: true,
            display_query: true,
            location_query: true,
            last_scroll: None,
            armed: None,
        }
    }

    /// Switch support for one scroll axis on or off.
    pub fn set_scroll_supported(&mut self, a: Axis, on: bool)
        ensures
            final(self).scroll_supported(a) == on,
            (forall|b: Axis| b != a ==> final(self).scroll_supported(b) == old(
                self,
            ).scroll_supported(b)),
            final(self).dims() == old(self).dims(),
            final(self).pointer() == old(self).pointer(),
            final(self).waited() == old(self).waited(),
            final(self).armed() == old(self).armed(),
            final(self).scrolled() == old(self).scrolled(),
            final(self).display_query_enabled() == old(self).display_query_enabled(),
            final(self).location_query_enabled() == old(self).location_query_enabled(),
    {
        proof {
            use_type_invariant(&*self);
        }
        match a {
            Axis::Horizontal => self.horizontal_scroll = on,
            Axis::Vertical => self.vertical_scroll = on,
        }
    }

    /// Switch the display-size query on or off.
    pub fn set_display_query(&mut self, on: bool)
        ensures
            final(self).display_query_enabled() == on,
            final(self).dims() == old(self).dims(),
            final(self).pointer() == old(self).pointer(),
            final(self).waited() == old(self).waited(),
            final(self).armed() == old(self).armed(),
            final(self).scrolled() == old(self).scrolled(),
            (forall|b: Axis| final(self).scroll_supported(b) == old(self).scroll_supported(b)),
            final(self).location_query_enabled() == old(self).location_query_enabled(),
    {
        proof {
            use_type_invariant(&*self);
        }
        self.display_query = on;
    }

    /// Switch the pointer-location query on or off.
    pub fn set_location_query(&mut self, on: bool)
        ensures
            final(self).location_query_enabled() == on,
            final(self).dims() == old(self).dims(),
            final(self).pointer() == old(self).pointer(),
            final(self).waited() == old(self).waited(),
            final(self).armed() == old(self).armed(),
            final(self).scrolled() == old(self).scrolled(),
            (forall|b: Axis| final(self).scroll_supported(b) == old(self).scroll_supported(b)),
            final(self).display_query_enabled() == old(self).display_query_enabled(),
    {
        proof {
            use_type_invariant(&*self);
        }
        self.location_query = on;
    }

    /// Arm the failure countdown: the n-th upcoming event dispatch fails,
    /// counting the next one as the zeroth.
    pub fn arm_failure(&mut self, n: u32)
        ensures
            final(self).armed() == Some(n),
            final(self).dims() == old(self).dims(),
            final(self).pointer() == old(self).pointer(),
            final(self).waited() == old(self).waited(),
            final(self).scrolled() == old(self).scrolled(),
            (forall|b: Axis| final(self).scroll_supported(b) == old(self).scroll_supported(b)),
            final(self).display_query_enabled() == old(self).display_query_enabled(),
            final(self).location_query_enabled() == old(self).location_query_enabled(),
    {
        proof {
            use_type_invariant(&*self);
        }
        self.armed = Some(n);
    }

    /// The summed length of all pauses performed so far.
    pub fn waited_ms(&self) -> (r: u64)
        ensures
            r as int == self.waited(),
    {
        self.waited_ms
    }

    /// The last accepted scroll, as (length, axis).
    pub fn last_scroll(&self) -> (r: Option<(i32, Axis)>)
        ensures
            r == self.scrolled(),
    {
        self.last_scroll
    }

    /// Advance the failure countdown by one dispatched event and report
    /// whether this very event is the one made to fail.
    fn tick(&mut self) -> (fail: bool)
        ensures
            final(self).armed() == ticked(old(self).armed()),
            fail == trips(old(self).armed()),
            final(self).dims() == old(self).dims(),
            final(self).pointer() == old(self).pointer(),
            final(self).waited() == old(self).waited(),
            final(self).scrolled() == old(self).scrolled(),
            (forall|b: Axis| final(self).scroll_supported(b) == old(self).scroll_supported(b)),
            final(self).display_query_enabled() == old(self).display_query_enabled(),
            final(self).location_query_enabled() == old(self).location_query_enabled(),
    {
        proof {
            use_type_invariant(&*self);
        }
        match self.armed {
            Some(n) => {
                if n == 0 {
                    self.armed = None;
                    true
                } else {
                    self.armed = Some(n - 1);
                    false
                }
            },
            None => false,
        }
    }
}

impl PlatformAdapter for StubAdapter {
    /// Record the pause instead of performing one: the summed pause time
    /// grows by the requested length, saturating at the largest count.
    fn pause(&mut self, ms: u32)
        ensures
            final(self).waited() == if old(self).waited() + ms <= u64::MAX {
                old(self).waited() + ms
            } else {
                u64::MAX as int
            },
            final(self).dims() == old(self).dims(),
            final(self).pointer() == old(self).pointer(),
            final(self).armed() == old(self).armed(),
            final(self).scrolled() == old(self).scrolled(),
            (forall|b: Axis| final(self).scroll_supported(b) == old(self).scroll_supported(b)),
            final(self).display_query_enabled() == old(self).display_query_enabled(),
            final(self).location_query_enabled() == old(self).location_query_enabled(),
    {
        proof {
            use_type_invariant(&*self);
        }
        let add = ms as u64;
        if self.waited_ms <= u64::MAX - add {
            self.waited_ms = self.waited_ms + add;
        } else {
            self.waited_ms = u64::MAX;
        }
    }

    /// Move the model pointer. An absolute target is taken as given, a
    /// relative one against the current position; a target off the display
    /// is refused with `OutOfRange` and moves nothing.
    fn move_pointer(&mut self, x: i32, y: i32, coordinate: Coordinate) -> (r: Result<
        (),
        SendError,
    >)
        ensures
            final(self).dims() == old(self).dims(),
            final(self).waited() == old(self).waited(),
            final(self).armed() == ticked(old(self).armed()),
            final(self).scrolled() == old(self).scrolled(),
            (forall|b: Axis| final(self).scroll_supported(b) == old(self).scroll_supported(b)),
            final(self).display_query_enabled() == old(self).display_query_enabled(),
            final(self).location_query_enabled() == old(self).location_query_enabled(),
            trips(old(self).armed()) ==> r == Err::<(), SendError>(SendError::Input) && final(self).pointer() == old(self).pointer(),
            !trips(old(self).armed()) ==> ({
                let t = move_target(old(self).pointer(), x as int, y as int, coordinate);
                if in_display(old(self).dims(), t) {
                    r == Ok::<(), SendError>(()) && final(self).pointer() == t
                } else {
                    r == Err::<(), SendError>(SendError::OutOfRange) && final(self).pointer()
                        == old(self).pointer()
                }
            }),
    {
        proof {
            use_type_invariant(&*self);
        }
        if self.tick() {
            return Err(SendError::Input);
        }
        let (tx, ty): (i64, i64) = match coordinate {
            Coordinate::Absolute => (x as i64, y as i64),
            Coordinate::Relative => (self.x as i64 + x as i64, self.y as i64 + y as i64),
        };
        if 0 <= tx && tx < self.width as i64 && 0 <= ty && ty < self.height as i64 {
            self.x = tx as i32;
            self.y = ty as i32;
            Ok(())
        } else {
            Err(SendError::OutOfRange)
        }
    }

    /// Accept any button leg; only an armed failure refuses one.
    fn click_button(&mut self, button: Button, direction: Direction) -> (r: Result<
        (),
        SendError,
    >)
        ensures
            final(self).dims() == old(self).dims(),
            final(self).pointer() == old(self).pointer(),
            final(self).waited() == old(self).waited(),
            final(self).armed() == ticked(old(self).armed()),
            final(self).scrolled() == old(self).scrolled(),
            (forall|b: Axis| final(self).scroll_supported(b) == old(self).scroll_supported(b)),
            final(self).display_query_enabled() == old(self).display_query_enabled(),
            final(self).location_query_enabled() == old(self).location_query_enabled(),
            r == if trips(old(self).armed()) {
                Err::<(), SendError>(SendError::Input)
            } else {
                Ok::<(), SendError>(())
            },
    {
        proof {
            use_type_invariant(&*self);
        }
        if self.tick() {
            return Err(SendError::Input);
        }
        Ok(())
    }

    /// Accept a scroll along a supported axis and remember it; an
    /// unsupported axis is refused with `Unsupported` and remembers
    /// nothing.
    fn scroll(&mut self, amount: i32, axis: Axis) -> (r: Result<(), SendError>)
        ensures
            final(self).dims() == old(self).dims(),
            final(self).pointer() == old(self).pointer(),
            final(self).waited() == old(self).waited(),
            final(self).armed() == ticked(old(self).armed()),
            (forall|b: Axis| final(self).scroll_supported(b) == old(self).scroll_supported(b)),
            final(self).display_query_enabled() == old(self).display_query_enabled(),
            final(self).location_query_enabled() == old(self).location_query_enabled(),
            trips(old(self).armed()) ==> r == Err::<(), SendError>(SendError::Input) && final(self).scrolled() == old(self).scrolled(),
            !trips(old(self).armed()) ==> (if old(self).scroll_supported(axis) {
                r == Ok::<(), SendError>(()) && final(self).scrolled() == Some((amount, axis))
            } else {
                r == Err::<(), SendError>(SendError::Unsupported) && final(self).scrolled()
                    == old(self).scrolled()
            }),
    {
        proof {
            use_type_invariant(&*self);
        }
        if self.tick() {
            return Err(SendError::Input);
        }
        let supported = match axis {
            Axis::Horizontal => self.horizontal_scroll,
            Axis::Vertical => self.vertical_scroll,
        };
        if supported {
            self.last_scroll = Some((amount, axis));
            Ok(())
        } else {
            Err(SendError::Unsupported)
        }
    }

    /// Accept any named or Unicode key leg; only an armed failure refuses
    /// one.
    fn send_key(&mut self, key: Key, direction: Direction) -> (r: Result<(), SendError>)
        ensures
            final(self).dims() == old(self).dims(),
            final(self).pointer() == old(self).pointer(),
            final(self).waited() == old(self).waited(),
            final(self).armed() == ticked(old(self).armed()),
            final(self).scrolled() == old(self).scrolled(),
            (forall|b: Axis| final(self).scroll_supported(b) == old(self).scroll_supported(b)),
            final(self).display_query_enabled() == old(self).display_query_enabled(),
            final(self).location_query_enabled() == old(self).location_query_enabled(),
            r == if trips(old(self).armed()) {
                Err::<(), SendError>(SendError::Input)
            } else {
                Ok::<(), SendError>(())
            },
    {
        proof {
            use_type_invariant(&*self);
        }
        if self.tick() {
            return Err(SendError::Input);
        }
        Ok(())
    }

    /// Accept any raw-keycode leg; only an armed failure refuses one.
    fn send_raw_keycode(&mut self, code: u16, direction: Direction) -> (r: Result<(), SendError>)
        ensures
            final(self).dims() == old(self).dims(),
            final(self).pointer() == old(self).pointer(),
            final(self).waited() == old(self).waited(),
            final(self).armed() == ticked(old(self).armed()),
            final(self).scrolled() == old(self).scrolled(),
            (forall|b: Axis| final(self).scroll_supported(b) == old(self).scroll_supported(b)),
            final(self).display_query_enabled() == old(self).display_query_enabled(),
            final(self).location_query_enabled() == old(self).location_query_enabled(),
            r == if trips(old(self).armed()) {
                Err::<(), SendError>(SendError::Input)
            } else {
                Ok::<(), SendError>(())
            },
    {
        proof {
            use_type_invariant(&*self);
        }
        if self.tick() {
            return Err(SendError::Input);
        }
        Ok(())
    }

    /// Answer the display-size query from the model, or refuse it where
    /// switched off.
    fn main_display_size(&self) -> (r: Result<(i32, i32), SendError>)
        ensures
            self.display_query_enabled() ==> (r matches Ok(d) && d.0 as int == self.dims().0
                && d.1 as int == self.dims().1),
            !self.display_query_enabled() ==> r == Err::<(i32, i32), SendError>(
                SendError::Unsupported,
            ),
    {
        if self.display_query {
            Ok((self.width, self.height))
        } else {
            Err(SendError::Unsupported)
        }
    }

    /// Answer the pointer-location query from the model, or refuse it
    /// where switched off.
    fn pointer_location(&self) -> (r: Result<(i32, i32), SendError>)
        ensures
            self.location_query_enabled() ==> (r matches Ok(p) && p.0 as int == self.pointer().0
                && p.1 as int == self.pointer().1),
            !self.location_query_enabled() ==> r == Err::<(i32, i32), SendError>(
                SendError::Unsupported,
            ),
    {
        if self.location_query {
            Ok((self.x, self.y))
        } else {
            Err(SendError::Unsupported)
        }
    }
}

} // verus!
