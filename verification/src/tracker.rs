//! Key/button state tracker: the process-local record of what this engine
//! instance believes is currently pressed, updated on every injected press
//! or release. It knows nothing of input produced by other processes or
//! other engine instances.

use vstd::prelude::*;
use crate::vocabulary::{Button, Direction, Key};

verus! {

/// The held-set bookkeeping of one engine instance.
pub struct StateTracker {
    held_keys: Vec<Key>,
    held_buttons: Vec<Button>,
}

/// Whether a sequence holds a given key.
fn vec_contains_key(v: &Vec<Key>, k: Key) -> (r: bool)
    ensures
        r == v@.contains(k),
{
    let mut i: usize = 0;
    while i < v.len()
        invariant
            i <= v@.len(),
            forall|j: int| 0 <= j < i ==> v@[j] != k,
        decreases v@.len() - i,
    {
        if v[i] == k {
            return true;
        }
        i = i + 1;
    }
    false
}

/// Whether a sequence holds a given button.
fn vec_contains_button(v: &Vec<Button>, b: Button) -> (r: bool)
    ensures
        r == v@.contains(b),
{
    let mut i: usize = 0;
    while i < v.len()
        invariant
            i <= v@.len(),
            forall|j: int| 0 <= j < i ==> v@[j] != b,
        decreases v@.len() - i,
    {
        if v[i] == b {
            return true;
        }
        i = i + 1;
    }
    false
}

impl StateTracker {
    /// The set of keys this instance believes are currently pressed.
    pub closed spec fn keys(self) -> Set<Key> {
        Set::new(|k: Key| self.held_keys@.contains(k))
    }

    /// The set of buttons this instance believes are currently pressed.
    pub closed spec fn buttons(self) -> Set<Button> {
        Set::new(|b: Button| self.held_buttons@.contains(b))
    }

    /// A fresh tracker: nothing is held.
    pub fn new() -> (t: Self)
        ensures
            t.keys() == Set::<Key>::empty(),
            t.buttons() == Set::<Button>::empty(),
    {
        let t = StateTracker { held_keys: Vec::new(), held_buttons: Vec::new() };
        proof {
            assert(t.keys() =~= Set::<Key>::empty());
            assert(t.buttons() =~= Set::<Button>::empty());
        }
        t
    }

    /// Record an injected key event: a press inserts the key into the
    /// held-set, a release removes it, and a click, being a press
    /// immediately followed by a release, leaves no key behind.
    pub fn record_key(&mut self, k: Key, d: Direction)
        ensures
            (match d {
                Direction::Press => final(self).keys() == old(self).keys().insert(k),
                Direction::Release | Direction::Click => final(self).keys() == old(
                    self,
                ).keys().remove(k),
            }),
            final(self).buttons() == old(self).buttons(),
    {
        match d {
            Direction::Press => self.insert_key(k),
            Direction::Release => self.remove_key(k),
            Direction::Click => self.remove_key(k),
        }
    }

    /// Record an injected button event, in the same way as a key event.
    pub fn record_button(&mut self, b: Button, d: Direction)
        ensures
            (match d {
                Direction::Press => final(self).buttons() == old(self).buttons().insert(b),
                Direction::Release | Direction::Click => final(self).buttons() == old(
                    self,
                ).buttons().remove(b),
            }),
            final(self).keys() == old(self).keys(),
    {
        match d {
            Direction::Press => self.insert_button(b),
            Direction::Release => self.remove_button(b),
            Direction::Click => self.remove_button(b),
        }
    }

    /// A snapshot, not a live view, of the currently held keys.
    pub fn held_keys_snapshot(&self) -> (r: Vec<Key>)
        ensures
            forall|j: Key| r@.contains(j) <==> self.keys().contains(j),
    {
        let mut r: Vec<Key> = Vec::new();
        let mut i: usize = 0;
        while i < self.held_keys.len()
            invariant
                i <= self.held_keys@.len(),
                r@ == self.held_keys@.take(i as int),
            decreases self.held_keys@.len() - i,
        {
            r.push(self.held_keys[i]);
            proof {
                assert(r@ =~= self.held_keys@.take(i + 1 as int));
            }
            i = i + 1;
        }
        proof {
            assert(r@ =~= self.held_keys@);
        }
        r
    }

    /// A snapshot, not a live view, of the currently held buttons.
    pub fn held_buttons_snapshot(&self) -> (r: Vec<Button>)
        ensures
            forall|j: Button| r@.contains(j) <==> self.buttons().contains(j),
    {
        let mut r: Vec<Button> = Vec::new();
        let mut i: usize = 0;
        while i < self.held_buttons.len()
            invariant
                i <= self.held_buttons@.len(),
                r@ == self.held_buttons@.take(i as int),
            decreases self.held_buttons@.len() - i,
        {
            r.push(self.held_buttons[i]);
            proof {
                assert(r@ =~= self.held_buttons@.take(i + 1 as int));
            }
            i = i + 1;
        }
        proof {
            assert(r@ =~= self.held_buttons@);
        }
        r
    }

    fn insert_key(&mut self, k: Key)
        ensures
            final(self).keys() == old(self).keys().insert(k),
            final(self).buttons() == old(self).buttons(),
    {
        if !vec_contains_key(&self.held_keys, k) {
            let ghost s_old = self.held_keys@;
            self.held_keys.push(k);
            proof {
                assert forall|j: Key| self.held_keys@.contains(j) implies (s_old.contains(j) || j
                    == k) by {
                    let i = choose|i: int|
                        0 <= i < self.held_keys@.len() && self.held_keys@[i] == j;
                    if i < s_old.len() {
                        assert(s_old[i] == j);
                    }
                }
                assert forall|j: Key| s_old.contains(j) || j == k implies
                    self.held_keys@.contains(j) by {
                    if s_old.contains(j) {
                        let i = choose|i: int| 0 <= i < s_old.len() && s_old[i] == j;
                        assert(self.held_keys@[i] == j);
                    } else {
                        assert(self.held_keys@[s_old.len() as int] == j);
                    }
                }
                assert(self.keys() =~= old(self).keys().insert(k));
            }
        } else {
            proof {
                assert(self.keys() =~= old(self).keys().insert(k));
            }
        }
    }

    fn remove_key(&mut self, k: Key)
        ensures
            final(self).keys() == old(self).keys().remove(k),
            final(self).buttons() == old(self).buttons(),
    {
        let ghost s = self.held_keys@;
        let mut out: Vec<Key> = Vec::new();
        let mut i: usize = 0;
        while i < self.held_keys.len()
            invariant
                i <= s.len(),
                self.held_keys@ == s,
                forall|idx: int|
                    0 <= idx < out@.len() ==> #[trigger] out@[idx] != k && s.contains(out@[idx]),
                forall|idx: int| 0 <= idx < i && s[idx] != k ==> out@.contains(#[trigger] s[idx]),
            decreases s.len() - i,
        {
            let x = self.held_keys[i];
            if x != k {
                let ghost out_old = out@;
                out.push(x);
                proof {
                    assert(out@ == out_old.push(x));
                    assert(s[i as int] == x);
                    assert(s.contains(x));
                    assert forall|idx: int| 0 <= idx < i + 1 && s[idx] != k implies out@.contains(
                        #[trigger] s[idx],
                    ) by {
                        if idx < i {
                            let w = choose|w: int|
                                0 <= w < out_old.len() && out_old[w] == s[idx];
                            assert(out@[w] == s[idx]);
                        } else {
                            assert(out@[out_old.len() as int] == s[idx]);
                        }
                    }
                }
            }
            i = i + 1;
        }
        self.held_keys = out;
        proof {
            assert forall|j: Key| self.held_keys@.contains(j) implies (s.contains(j) && j
                != k) by {
                let idx = choose|idx: int|
                    0 <= idx < self.held_keys@.len() && self.held_keys@[idx] == j;
            }
            assert forall|j: Key| s.contains(j) && j != k implies self.held_keys@.contains(j) by {
                let idx = choose|idx: int| 0 <= idx < s.len() && s[idx] == j;
            }
            assert(self.keys() =~= old(self).keys().remove(k));
        }
    }

    fn insert_button(&mut self, b: Button)
        ensures
            final(self).buttons() == old(self).buttons().insert(b),
            final(self).keys() == old(self).keys(),
    {
        if !vec_contains_button(&self.held_buttons, b) {
            let ghost s_old = self.held_buttons@;
            self.held_buttons.push(b);
            proof {
                assert forall|j: Button| self.held_buttons@.contains(j) implies (s_old.contains(j)
                    || j == b) by {
                    let i = choose|i: int|
                        0 <= i < self.held_buttons@.len() && self.held_buttons@[i] == j;
                    if i < s_old.len() {
                        assert(s_old[i] == j);
                    }
                }
                assert forall|j: Button| s_old.contains(j) || j == b implies
                    self.held_buttons@.contains(j) by {
                    if s_old.contains(j) {
                        let i = choose|i: int| 0 <= i < s_old.len() && s_old[i] == j;
                        assert(self.held_buttons@[i] == j);
                    } else {
                        assert(self.held_buttons@[s_old.len() as int] == j);
                    }
                }
                assert(self.buttons() =~= old(self).buttons().insert(b));
            }
        } else {
            proof {
                assert(self.buttons() =~= old(self).buttons().insert(b));
            }
        }
    }

    fn remove_button(&mut self, b: Button)
        ensures
            final(self).buttons() == old(self).buttons().remove(b),
            final(self).keys() == old(self).keys(),
    {
        let ghost s = self.held_buttons@;
        let mut out: Vec<Button> = Vec::new();
        let mut i: usize = 0;
        while i < self.held_buttons.len()
            invariant
                i <= s.len(),
                self.held_buttons@ == s,
                forall|idx: int|
                    0 <= idx < out@.len() ==> #[trigger] out@[idx] != b && s.contains(out@[idx]),
                forall|idx: int| 0 <= idx < i && s[idx] != b ==> out@.contains(#[trigger] s[idx]),
            decreases s.len() - i,
        {
            let x = self.held_buttons[i];
            if x != b {
                let ghost out_old = out@;
                out.push(x);
                proof {
                    assert(out@ == out_old.push(x));
                    assert(s[i as int] == x);
                    assert(s.contains(x));
                    assert forall|idx: int| 0 <= idx < i + 1 && s[idx] != b implies out@.contains(
                        #[trigger] s[idx],
                    ) by {
                        if idx < i {
                            let w = choose|w: int|
                                0 <= w < out_old.len() && out_old[w] == s[idx];
                            assert(out@[w] == s[idx]);
                        } else {
                            assert(out@[out_old.len() as int] == s[idx]);
                        }
                    }
                }
            }
            i = i + 1;
        }
        self.held_buttons = out;
        proof {
            assert forall|j: Button| self.held_buttons@.contains(j) implies (s.contains(j) && j
                != b) by {
                let idx = choose|idx: int|
                    0 <= idx < self.held_buttons@.len() && self.held_buttons@[idx] == j;
            }
            assert forall|j: Button| s.contains(j) && j != b implies self.held_buttons@.contains(j) by {
                let idx = choose|idx: int| 0 <= idx < s.len() && s[idx] == j;
            }
            assert(self.buttons() =~= old(self).buttons().remove(b));
        }
    }
}

/// Law: after a press of a key followed by its release, the key is not
/// held; after the press alone it is held, together with exactly the keys
/// that were held before and not released in between.
pub proof fn lemma_press_then_release(held: Set<Key>, k: Key)
    ensures
        held.insert(k).contains(k),
        !held.insert(k).remove(k).contains(k),
        forall|j: Key| j != k ==> held.insert(k).contains(j) == held.contains(j),
        forall|j: Key| j != k ==> held.insert(k).remove(k).contains(j) == held.contains(j),
{
}

/// Law: a click, whose legs are a press and a release, leaves a key that
/// was not held beforehand exactly as it found the whole held-set.
pub proof fn lemma_click_leaves_held_unchanged(held: Set<Key>, k: Key)
    requires
        !held.contains(k),
    ensures
        held.insert(k).remove(k) == held,
        !held.insert(k).remove(k).contains(k),
{
    assert(held.insert(k).remove(k) =~= held);
}

} // verus!
