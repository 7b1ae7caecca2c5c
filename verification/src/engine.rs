//! Engine facade: the object a caller holds. It owns one platform
//! capability adapter, one timing controller and one state tracker, and
//! every operation follows one template: pause for the configured delay,
//! dispatch to the adapter, and on success record the event in the
//! held-set. A click is expanded here into a press leg and a release leg,
//! each independently paused, dispatched and recorded, so the held-set
//! stays exact even when a click fails between its legs.

use vstd::prelude::*;
use crate::adapter::PlatformAdapter;
use crate::errors::{lift_send_error, EngineError, SendError};
use crate::timing::TimingController;
use crate::tracker::StateTracker;
use crate::translate::{
    apply_event, apply_events, lemma_apply_events_push, lemma_text_events_wf, lift_ev,
    text_events,
};
use crate::vocabulary::{Axis, Button, Coordinate, Direction, Key};

verus! {

/// One virtual input device: adapter, held-set bookkeeping and timing.
pub struct Engine<A: PlatformAdapter> {
    adapter: A,
    tracker: StateTracker,
    timing: TimingController,
}

impl<A: PlatformAdapter> Engine<A> {
    /// The keys this engine believes are currently pressed.
    pub closed spec fn held_key_set(self) -> Set<Key> {
        self.tracker.keys()
    }

    /// The buttons this engine believes are currently pressed.
    pub closed spec fn held_button_set(self) -> Set<Button> {
        self.tracker.buttons()
    }

    /// The configured per-event delay in milliseconds.
    pub closed spec fn delay(self) -> u32 {
        self.timing.delay()
    }

    /// The adapter this engine owns.
    pub closed spec fn adapter_model(self) -> A {
        self.adapter
    }

    /// What holds after `set_delay(ms)`: the delay is `ms` and nothing
    /// else of the engine changed.
    pub closed spec fn set_delay_post(self, pre: Self, ms: u32) -> bool {
        &&& self.adapter == pre.adapter
        &&& self.tracker == pre.tracker
        &&& self.timing.set_delay_post(ms)
    }

    /// An engine over the given adapter: nothing held, the given delay.
    pub fn new(adapter: A, delay_ms: u32) -> (e: Self)
        ensures
            e.held_key_set() == Set::<Key>::empty(),
            e.held_button_set() == Set::<Button>::empty(),
            e.delay() == delay_ms,
            e.adapter_model() == adapter,
    {
        Engine { adapter, tracker: StateTracker::new(), timing: TimingController::new(delay_ms) }
    }

    /// The adapter, for callers that inspect platform state.
    pub fn adapter_ref(&self) -> (r: &A)
        ensures
            *r == self.adapter_model(),
    {
        &self.adapter
    }

    /// The configured per-event delay in milliseconds.
    pub fn delay_ms(&self) -> (r: u32)
        ensures
            r == self.delay(),
    {
        self.timing.delay_ms()
    }

    /// Change the per-event delay. It affects every subsequent event until
    /// changed again and nothing else: the held-sets and the adapter stay
    /// as they were.
    pub fn set_delay(&mut self, ms: u32)
        ensures
            final(self).delay() == ms,
            final(self).set_delay_post(*old(self), ms),
            final(self).held_key_set() == old(self).held_key_set(),
            final(self).held_button_set() == old(self).held_button_set(),
            final(self).adapter_model() == old(self).adapter_model(),
    {
        self.timing.set_delay(ms);
    }

    /// A snapshot, not a live view, of the currently held keys.
    pub fn held(&self) -> (r: Vec<Key>)
        ensures
            forall|j: Key| r@.contains(j) <==> self.held_key_set().contains(j),
    {
        self.tracker.held_keys_snapshot()
    }

    /// A snapshot, not a live view, of the currently held buttons.
    pub fn held_buttons(&self) -> (r: Vec<Button>)
        ensures
            forall|j: Button| r@.contains(j) <==> self.held_button_set().contains(j),
    {
        self.tracker.held_buttons_snapshot()
    }

    /// One leg of a key event: pause, dispatch, and record on success.
    fn key_leg(&mut self, key: Key, direction: Direction) -> (r: Result<(), SendError>)
        requires
            direction == Direction::Press || direction == Direction::Release,
        ensures
            final(self).delay() == old(self).delay(),
            final(self).held_button_set() == old(self).held_button_set(),
            r is Ok && direction == Direction::Press ==> final(self).held_key_set() == old(
                self,
            ).held_key_set().insert(key),
            r is Ok && direction == Direction::Release ==> final(self).held_key_set() == old(
                self,
            ).held_key_set().remove(key),
            r is Err ==> final(self).held_key_set() == old(self).held_key_set(),
    {
        let del = self.timing.delay_ms();
        self.adapter.pause(del);
        let res = match key {
            Key::Raw(code) => self.adapter.send_raw_keycode(code, direction),
            _ => self.adapter.send_key(key, direction),
        };
        match res {
            Ok(()) => {
                self.tracker.record_key(key, direction);
                Ok(())
            },
            Err(e) => Err(e),
        }
    }

    /// One leg of a button event: pause, dispatch, and record on success.
    fn button_leg(&mut self, button: Button, direction: Direction) -> (r: Result<(), SendError>)
        requires
            direction == Direction::Press || direction == Direction::Release,
        ensures
            final(self).delay() == old(self).delay(),
            final(self).held_key_set() == old(self).held_key_set(),
            r is Ok && direction == Direction::Press ==> final(self).held_button_set() == old(
                self,
            ).held_button_set().insert(button),
            r is Ok && direction == Direction::Release ==> final(self).held_button_set() == old(
                self,
            ).held_button_set().remove(button),
            r is Err ==> final(self).held_button_set() == old(self).held_button_set(),
    {
        let del = self.timing.delay_ms();
        self.adapter.pause(del);
        match self.adapter.click_button(button, direction) {
            Ok(()) => {
                self.tracker.record_button(button, direction);
                Ok(())
            },
            Err(e) => Err(e),
        }
    }

    /// Send an individual key event. A press inserts the key into the
    /// held-set and a release removes it, exactly when the platform
    /// accepted the event; a click is a press leg then a release leg, so
    /// on success a key not held beforehand is not held afterwards, and
    /// if only the release leg fails the key stays recorded as held.
    pub fn key(&mut self, key: Key, direction: Direction) -> (r: Result<(), EngineError>)
        ensures
            final(self).delay() == old(self).delay(),
            final(self).held_button_set() == old(self).held_button_set(),
            (match direction {
                Direction::Press => {
                    &&& r is Ok ==> final(self).held_key_set() == old(
                        self,
                    ).held_key_set().insert(key)
                    &&& r is Err ==> final(self).held_key_set() == old(self).held_key_set()
                },
                Direction::Release => {
                    &&& r is Ok ==> final(self).held_key_set() == old(
                        self,
                    ).held_key_set().remove(key)
                    &&& r is Err ==> final(self).held_key_set() == old(self).held_key_set()
                },
                Direction::Click => {
                    &&& r is Ok ==> final(self).held_key_set() == old(
                        self,
                    ).held_key_set().remove(key)
                    &&& (r is Ok && !old(self).held_key_set().contains(key)) ==> final(self).held_key_set() == old(self).held_key_set()
                    &&& r is Err ==> (final(self).held_key_set() == old(self).held_key_set()
                        || final(self).held_key_set() == old(self).held_key_set().insert(key))
                },
            }),
            r matches Err(e) ==> (e == EngineError::Unsupported || e == EngineError::OutOfRange
                || e == EngineError::Input),
    {
        match direction {
            Direction::Press => {
                match self.key_leg(key, Direction::Press) {
                    Ok(()) => Ok(()),
                    Err(e) => Err(lift_send_error(e)),
                }
            },
            Direction::Release => {
                match self.key_leg(key, Direction::Release) {
                    Ok(()) => Ok(()),
                    Err(e) => Err(lift_send_error(e)),
                }
            },
            Direction::Click => {
                match self.key_leg(key, Direction::Press) {
                    Ok(()) => {},
                    Err(e) => {
                        return Err(lift_send_error(e));
                    },
                }
                match self.key_leg(key, Direction::Release) {
                    Ok(()) => {
                        proof {
                            assert(old(self).held_key_set().insert(key).remove(key) =~= old(
                                self,
                            ).held_key_set().remove(key));
                            if !old(self).held_key_set().contains(key) {
                                assert(old(self).held_key_set().remove(key) =~= old(
                                    self,
                                ).held_key_set());
                            }
                        }
                        Ok(())
                    },
                    Err(e) => Err(lift_send_error(e)),
                }
            },
        }
    }

    /// Send an individual raw-keycode event; the held-set records it as
    /// `Key::Raw` of the keycode, under the same rules as `key`.
    pub fn raw(&mut self, keycode: u16, direction: Direction) -> (r: Result<(), EngineError>)
        ensures
            final(self).delay() == old(self).delay(),
            final(self).held_button_set() == old(self).held_button_set(),
            (match direction {
                Direction::Press => {
                    &&& r is Ok ==> final(self).held_key_set() == old(
                        self,
                    ).held_key_set().insert(Key::Raw(keycode))
                    &&& r is Err ==> final(self).held_key_set() == old(self).held_key_set()
                },
                Direction::Release => {
                    &&& r is Ok ==> final(self).held_key_set() == old(
                        self,
                    ).held_key_set().remove(Key::Raw(keycode))
                    &&& r is Err ==> final(self).held_key_set() == old(self).held_key_set()
                },
                Direction::Click => {
                    &&& r is Ok ==> final(self).held_key_set() == old(
                        self,
                    ).held_key_set().remove(Key::Raw(keycode))
                    &&& (r is Ok && !old(self).held_key_set().contains(Key::Raw(keycode)))
                        ==> final(self).held_key_set() == old(self).held_key_set()
                    &&& r is Err ==> (final(self).held_key_set() == old(self).held_key_set()
                        || final(self).held_key_set() == old(self).held_key_set().insert(
                        Key::Raw(keycode),
                    ))
                },
            }),
            r matches Err(e) ==> (e == EngineError::Unsupported || e == EngineError::OutOfRange
                || e == EngineError::Input),
    {
        self.key(Key::Raw(keycode), direction)
    }

    /// Send an individual mouse-button event, under the same rules as
    /// `key` with the button held-set in place of the key held-set.
    pub fn button(&mut self, button: Button, direction: Direction) -> (r: Result<
        (),
        EngineError,
    >)
        ensures
            final(self).delay() == old(self).delay(),
            final(self).held_key_set() == old(self).held_key_set(),
            (match direction {
                Direction::Press => {
                    &&& r is Ok ==> final(self).held_button_set() == old(
                        self,
                    ).held_button_set().insert(button)
                    &&& r is Err ==> final(self).held_button_set() == old(self).held_button_set()
                },
                Direction::Release => {
                    &&& r is Ok ==> final(self).held_button_set() == old(
                        self,
                    ).held_button_set().remove(button)
                    &&& r is Err ==> final(self).held_button_set() == old(self).held_button_set()
                },
                Direction::Click => {
                    &&& r is Ok ==> final(self).held_button_set() == old(
                        self,
                    ).held_button_set().remove(button)
                    &&& (r is Ok && !old(self).held_button_set().contains(button)) ==> final(self).held_button_set() == old(self).held_button_set()
                    &&& r is Err ==> (final(self).held_button_set() == old(
                        self,
                    ).held_button_set() || final(self).held_button_set() == old(
                        self,
                    ).held_button_set().insert(button))
                },
            }),
            r matches Err(e) ==> (e == EngineError::Unsupported || e == EngineError::OutOfRange
                || e == EngineError::Input),
    {
        match direction {
            Direction::Press => {
                match self.button_leg(button, Direction::Press) {
                    Ok(()) => Ok(()),
                    Err(e) => Err(lift_send_error(e)),
                }
            },
            Direction::Release => {
                match self.button_leg(button, Direction::Release) {
                    Ok(()) => Ok(()),
                    Err(e) => Err(lift_send_error(e)),
                }
            },
            Direction::Click => {
                match self.button_leg(button, Direction::Press) {
                    Ok(()) => {},
                    Err(e) => {
                        return Err(lift_send_error(e));
                    },
                }
                match self.button_leg(button, Direction::Release) {
                    Ok(()) => {
                        proof {
                            assert(old(self).held_button_set().insert(button).remove(button)
                                =~= old(self).held_button_set().remove(button));
                            if !old(self).held_button_set().contains(button) {
                                assert(old(self).held_button_set().remove(button) =~= old(
                                    self,
                                ).held_button_set());
                            }
                        }
                        Ok(())
                    },
                    Err(e) => Err(lift_send_error(e)),
                }
            },
        }
    }

    /// Move the pointer, absolutely or relative to its current position.
    /// No key or button event is involved, so the held-sets never change.
    pub fn move_mouse(&mut self, x: i32, y: i32, coordinate: Coordinate) -> (r: Result<
        (),
        EngineError,
    >)
        ensures
            final(self).delay() == old(self).delay(),
            final(self).held_key_set() == old(self).held_key_set(),
            final(self).held_button_set() == old(self).held_button_set(),
            r matches Err(e) ==> (e == EngineError::Unsupported || e == EngineError::OutOfRange
                || e == EngineError::Input),
    {
        let del = self.timing.delay_ms();
        self.adapter.pause(del);
        match self.adapter.move_pointer(x, y, coordinate) {
            Ok(()) => Ok(()),
            Err(e) => Err(lift_send_error(e)),
        }
    }

    /// Send a scroll event. The one length whose magnitude overflows the
    /// signed range is a platform-bound violation and is rejected as out
    /// of range before anything reaches the platform. No key or button
    /// event is involved, so the held-sets never change, also when the
    /// platform refuses the axis.
    pub fn scroll(&mut self, length: i32, axis: Axis) -> (r: Result<(), EngineError>)
        ensures
            final(self).delay() == old(self).delay(),
            final(self).held_key_set() == old(self).held_key_set(),
            final(self).held_button_set() == old(self).held_button_set(),
            length == i32::MIN ==> r == Err::<(), EngineError>(EngineError::OutOfRange)
                && final(self).adapter_model() == old(self).adapter_model(),
            r matches Err(e) ==> (e == EngineError::Unsupported || e == EngineError::OutOfRange
                || e == EngineError::Input),
    {
        if length == i32::MIN {
            return Err(EngineError::OutOfRange);
        }
        let del = self.timing.delay_ms();
        self.adapter.pause(del);
        match self.adapter.scroll(length, axis) {
            Ok(()) => Ok(()),
            Err(e) => Err(lift_send_error(e)),
        }
    }

    /// The (width, height) of the main display in pixels. A query: no
    /// pause, no state change.
    pub fn main_display(&self) -> (r: Result<(i32, i32), EngineError>)
        ensures
            r matches Err(e) ==> (e == EngineError::Unsupported || e == EngineError::OutOfRange
                || e == EngineError::Input),
    {
        match self.adapter.main_display_size() {
            Ok(d) => Ok(d),
            Err(e) => Err(lift_send_error(e)),
        }
    }

    /// The pointer location in pixels. A query: no pause, no state change.
    pub fn location(&self) -> (r: Result<(i32, i32), EngineError>)
        ensures
            r matches Err(e) ==> (e == EngineError::Unsupported || e == EngineError::OutOfRange
                || e == EngineError::Input),
    {
        match self.adapter.pointer_location() {
            Ok(p) => Ok(p),
            Err(e) => Err(lift_send_error(e)),
        }
    }

    /// Type a text: replay its translated events through the same paused,
    /// dispatched and recorded path as discrete key events. The held-set
    /// afterwards is exactly the translated events applied up to the first
    /// failure; if one event's injection fails, typing stops there, the
    /// first unapplied event belongs to the character whose index the
    /// error carries, and nothing past it was attempted.
    pub fn text(&mut self, text: &str) -> (r: Result<(), EngineError>)
        ensures
            final(self).delay() == old(self).delay(),
            final(self).held_button_set() == old(self).held_button_set(),
            r is Ok ==> final(self).held_key_set() == apply_events(
                old(self).held_key_set(),
                text_events(text@),
            ),
            r matches Err(e) ==> (e matches EngineError::TextInjection { position, cause }
                && (position as int) < text@.len() && exists|n: int|
                0 <= n < text_events(text@).len() && final(self).held_key_set() == apply_events(
                    old(self).held_key_set(),
                    #[trigger] text_events(text@).take(n),
                ) && text_events(text@)[n].0 == position as int),
            text@.len() == 0 ==> r is Ok,
    {
        let mut tr = crate::translate::translate(text);
        let ghost evs = text_events(text@);
        let ghost held0 = old(self).held_key_set();
        let ghost mut n: int = 0;
        proof {
            lemma_text_events_wf(text@, 0);
            assert(evs.take(0) =~= Seq::<(int, Key, Direction)>::empty());
            assert(evs.skip(0) =~= evs);
        }
        loop
            invariant
                tr.wf(),
                0 <= n <= evs.len(),
                evs == text_events(text@),
                held0 == old(self).held_key_set(),
                tr.remaining() == evs.skip(n),
                self.held_key_set() == apply_events(held0, evs.take(n)),
                self.held_button_set() == old(self).held_button_set(),
                self.delay() == old(self).delay(),
                forall|i: int|
                    0 <= i < evs.len() ==> ({
                        let ev = #[trigger] evs[i];
                        0 <= ev.0 < text@.len() && ev.2 != Direction::Click && !(ev.1
                            matches Key::Raw(_))
                    }),
            decreases evs.len() - n,
        {
            match tr.next_event() {
                None => {
                    proof {
                        assert(evs.skip(n).len() == 0);
                        assert(n == evs.len());
                        assert(evs.take(n) =~= evs);
                    }
                    return Ok(());
                },
                Some(ev) => {
                    let (p, k, d) = ev;
                    proof {
                        assert(lift_ev(ev) == evs.skip(n)[0]);
                        assert(evs.skip(n)[0] == evs[n]);
                    }
                    match self.key_leg(k, d) {
                        Ok(()) => {
                            proof {
                                lemma_apply_events_push(held0, evs.take(n), evs[n]);
                                assert(evs.take(n).push(evs[n]) =~= evs.take(n + 1));
                                assert(self.held_key_set() == apply_event(
                                    apply_events(held0, evs.take(n)),
                                    evs[n],
                                ));
                                assert(evs.skip(n).skip(1) =~= evs.skip(n + 1));
                                n = n + 1;
                            }
                        },
                        Err(e) => {
                            proof {
                                assert(0 <= n < text_events(text@).len());
                                assert(self.held_key_set() == apply_events(
                                    old(self).held_key_set(),
                                    text_events(text@).take(n),
                                ));
                                assert(text_events(text@)[n].0 == p as int);
                            }
                            return Err(EngineError::TextInjection { position: p, cause: e });
                        },
                    }
                },
            }
        }
    }
}

/// Law: setting the delay is idempotent and side-effect-free. If one call
/// of `set_delay(n)` turned `e0` into `e1` and a second turned `e1` into
/// `e2`, the second call changed nothing at all and the delay reads back
/// as `n`.
pub proof fn lemma_engine_set_delay_idempotent<A: PlatformAdapter>(
    e0: Engine<A>,
    e1: Engine<A>,
    e2: Engine<A>,
    n: u32,
)
    requires
        e1.set_delay_post(e0, n),
        e2.set_delay_post(e1, n),
    ensures
        e2 == e1,
        e1.delay() == n,
{
    crate::timing::lemma_set_delay_idempotent(e0.timing, e1.timing, e2.timing, n);
}

} // verus!
