//! Text translator: turns a string into the finite sequence of key events
//! that types it, one character at a time and in code-point order. An
//! ASCII uppercase letter is bracketed by a shift press and release; every
//! character is otherwise entered through the layout-independent
//! `Key::Unicode` path, pressed and immediately released. The translator
//! is consumed event by event and is not restartable.

use vstd::prelude::*;
use vstd::std_specs::iter::IteratorSpec;
use crate::vocabulary::{Direction, Key};

verus! {

/// An event of a translated text: the index of the character it belongs
/// to, the key, and the leg.
pub open spec fn lift_ev(e: (usize, Key, Direction)) -> (int, Key, Direction) {
    (e.0 as int, e.1, e.2)
}

/// The events of a pending buffer, with mathematical positions.
pub open spec fn lift_evs(q: Seq<(usize, Key, Direction)>) -> Seq<(int, Key, Direction)> {
    q.map_values(|e: (usize, Key, Direction)| lift_ev(e))
}

/// Whether typing this character takes a shift bracket.
pub open spec fn needs_shift(c: char) -> bool {
    65 <= c as int <= 90
}

/// The events that type one character standing at index `i` of its text.
pub open spec fn char_events(c: char, i: int) -> Seq<(int, Key, Direction)> {
    if needs_shift(c) {
        seq![
            (i, Key::Shift, Direction::Press),
            (i, Key::Unicode(c), Direction::Press),
            (i, Key::Unicode(c), Direction::Release),
            (i, Key::Shift, Direction::Release),
        ]
    } else {
        seq![(i, Key::Unicode(c), Direction::Press), (i, Key::Unicode(c), Direction::Release)]
    }
}

/// The events that type a text whose first character stands at index
/// `base` of the whole input.
pub open spec fn text_events_from(s: Seq<char>, base: int) -> Seq<(int, Key, Direction)>
    decreases s.len(),
{
    if s.len() == 0 {
        Seq::empty()
    } else {
        char_events(s[0], base) + text_events_from(s.skip(1), base + 1)
    }
}

/// The events that type a whole text.
pub open spec fn text_events(s: Seq<char>) -> Seq<(int, Key, Direction)> {
    text_events_from(s, 0)
}

/// What one dispatched event does to a held-set: a press inserts its key,
/// a release removes it.
pub open spec fn apply_event(held: Set<Key>, ev: (int, Key, Direction)) -> Set<Key> {
    match ev.2 {
        Direction::Press => held.insert(ev.1),
        Direction::Release | Direction::Click => held.remove(ev.1),
    }
}

/// What a sequence of dispatched events does to a held-set, first first.
pub open spec fn apply_events(held: Set<Key>, evs: Seq<(int, Key, Direction)>) -> Set<Key>
    decreases evs.len(),
{
    if evs.len() == 0 {
        held
    } else {
        apply_events(apply_event(held, evs[0]), evs.skip(1))
    }
}

/// Law: applying one more event after a sequence is applying the extended
/// sequence.
pub proof fn lemma_apply_events_push(
    held: Set<Key>,
    q: Seq<(int, Key, Direction)>,
    e: (int, Key, Direction),
)
    ensures
        apply_events(held, q.push(e)) == apply_event(apply_events(held, q), e),
    decreases q.len(),
{
    if q.len() == 0 {
        assert(q.push(e)[0] == e);
        assert(q.push(e).skip(1) =~= Seq::<(int, Key, Direction)>::empty());
        assert(apply_events(held, q.push(e)) == apply_events(
            apply_event(held, e),
            q.push(e).skip(1),
        ));
        assert(apply_events(apply_event(held, e), q.push(e).skip(1)) == apply_event(held, e));
        assert(apply_events(held, q) == held);
    } else {
        assert(q.push(e)[0] == q[0]);
        assert(q.push(e).skip(1) =~= q.skip(1).push(e));
        lemma_apply_events_push(apply_event(held, q[0]), q.skip(1), e);
        assert(apply_events(held, q.push(e)) == apply_events(
            apply_event(held, q[0]),
            q.skip(1).push(e),
        ));
        assert(apply_events(held, q) == apply_events(apply_event(held, q[0]), q.skip(1)));
    }
}

/// Law: every event of one translated character carries that character's
/// index and is a press or a release of a non-raw key.
pub proof fn lemma_char_events_wf(c: char, p: int)
    ensures
        forall|i: int|
            0 <= i < char_events(c, p).len() ==> {
                let ev = #[trigger] char_events(c, p)[i];
                ev.0 == p && ev.2 != Direction::Click && !(ev.1 matches Key::Raw(_))
            },
{
    let q = char_events(c, p);
    if needs_shift(c) {
        assert(q.len() == 4);
        assert(q[0] == (p, Key::Shift, Direction::Press));
        assert(q[1] == (p, Key::Unicode(c), Direction::Press));
        assert(q[2] == (p, Key::Unicode(c), Direction::Release));
        assert(q[3] == (p, Key::Shift, Direction::Release));
    } else {
        assert(q.len() == 2);
        assert(q[0] == (p, Key::Unicode(c), Direction::Press));
        assert(q[1] == (p, Key::Unicode(c), Direction::Release));
    }
}

/// Law: every event of a translated text points into that text and is a
/// press or a release, never a click.
pub proof fn lemma_text_events_wf(s: Seq<char>, base: int)
    ensures
        forall|i: int|
            0 <= i < text_events_from(s, base).len() ==> {
                let ev = #[trigger] text_events_from(s, base)[i];
                base <= ev.0 < base + s.len() && ev.2 != Direction::Click && !(ev.1 matches Key::Raw(_))
            },
    decreases s.len(),
{
    if s.len() > 0 {
        lemma_text_events_wf(s.skip(1), base + 1);
        lemma_char_events_wf(s[0], base);
        let head = char_events(s[0], base);
        let tail = text_events_from(s.skip(1), base + 1);
        assert(text_events_from(s, base) == head + tail);
        assert(s.skip(1).len() == s.len() - 1);
        assert forall|i: int| 0 <= i < text_events_from(s, base).len() implies {
            let ev = #[trigger] text_events_from(s, base)[i];
            base <= ev.0 < base + s.len() && ev.2 != Direction::Click && !(ev.1 matches Key::Raw(_))
        } by {
            if i < head.len() {
                assert(text_events_from(s, base)[i] == char_events(s[0], base)[i]);
            } else {
                assert(text_events_from(s, base)[i] == text_events_from(s.skip(1), base + 1)[i
                    - head.len()]);
            }
        }
    }
}

/// Law: applying a concatenation of event sequences is applying the
/// first and then the second.
pub proof fn lemma_apply_events_concat(
    held: Set<Key>,
    a: Seq<(int, Key, Direction)>,
    b: Seq<(int, Key, Direction)>,
)
    ensures
        apply_events(held, a + b) == apply_events(apply_events(held, a), b),
    decreases a.len(),
{
    if a.len() == 0 {
        assert(a + b =~= b);
        assert(apply_events(held, a) == held);
    } else {
        assert((a + b)[0] == a[0]);
        assert((a + b).len() > 0);
        assert((a + b).skip(1) =~= a.skip(1) + b);
        lemma_apply_events_concat(apply_event(held, a[0]), a.skip(1), b);
        assert(apply_events(held, a + b) == apply_events(apply_event(held, a[0]), (a + b).skip(1)));
        assert(apply_events(held, a) == apply_events(apply_event(held, a[0]), a.skip(1)));
    }
}

/// Law: one translated character presses only keys it releases again: it
/// leaves the held-set with that character's own keys removed and
/// nothing added.
pub proof fn lemma_apply_char_events(held: Set<Key>, c: char, i: int)
    ensures
        apply_events(held, char_events(c, i)) == if needs_shift(c) {
            held.remove(Key::Unicode(c)).remove(Key::Shift)
        } else {
            held.remove(Key::Unicode(c))
        },
        forall|k: Key|
            !held.contains(k) ==> !(#[trigger] apply_events(held, char_events(c, i)).contains(
                k,
            )),
{
    let q = char_events(c, i);
    if needs_shift(c) {
        assert(q.len() == 4);
        let h1 = apply_event(held, q[0]);
        let h2 = apply_event(h1, q[1]);
        let h3 = apply_event(h2, q[2]);
        let h4 = apply_event(h3, q[3]);
        assert(q.skip(1).skip(1) =~= q.skip(2));
        assert(q.skip(2).skip(1) =~= q.skip(3));
        assert(q.skip(3).skip(1) =~= Seq::<(int, Key, Direction)>::empty());
        assert(q.skip(1)[0] == q[1] && q.skip(2)[0] == q[2] && q.skip(3)[0] == q[3]);
        assert(apply_events(held, q) == apply_events(h1, q.skip(1)));
        assert(apply_events(h1, q.skip(1)) == apply_events(h2, q.skip(1).skip(1)));
        assert(apply_events(h2, q.skip(2)) == apply_events(h3, q.skip(2).skip(1)));
        assert(apply_events(h3, q.skip(3)) == apply_events(h4, q.skip(3).skip(1)));
        assert(apply_events(held, q) == h4);
        assert(h4 =~= held.remove(Key::Unicode(c)).remove(Key::Shift));
    } else {
        assert(q.len() == 2);
        let h1 = apply_event(held, q[0]);
        let h2 = apply_event(h1, q[1]);
        assert(q.skip(1).skip(1) =~= Seq::<(int, Key, Direction)>::empty());
        assert(q.skip(1)[0] == q[1]);
        assert(apply_events(held, q) == apply_events(h1, q.skip(1)));
        assert(apply_events(h1, q.skip(1)) == apply_events(h2, q.skip(1).skip(1)));
        assert(apply_events(held, q) == h2);
        assert(h2 =~= held.remove(Key::Unicode(c)));
    }
}

/// Law: typing a text never leaves behind a key that was not already
/// held before it: every press a translated text makes is released
/// within the same character.
pub proof fn lemma_text_leaves_no_new_keys(held: Set<Key>, s: Seq<char>, base: int)
    ensures
        forall|k: Key|
            !held.contains(k) ==> !apply_events(held, text_events_from(s, base)).contains(k),
    decreases s.len(),
{
    if s.len() == 0 {
        assert(apply_events(held, text_events_from(s, base)) == held);
    } else {
        let head = char_events(s[0], base);
        let tail = text_events_from(s.skip(1), base + 1);
        assert(text_events_from(s, base) == head + tail);
        lemma_apply_events_concat(held, head, tail);
        lemma_apply_char_events(held, s[0], base);
        let h1 = apply_events(held, head);
        lemma_text_leaves_no_new_keys(h1, s.skip(1), base + 1);
        assert forall|k: Key|
            !held.contains(k) implies !apply_events(held, text_events_from(s, base)).contains(
            k,
        ) by {
            assert(apply_events(held, text_events_from(s, base)) == apply_events(h1, tail));
            assert(!apply_events(held, char_events(s[0], base)).contains(k));
            assert(!h1.contains(k));
            assert(!apply_events(h1, tail).contains(k));
        }
    }
}

/// The events that type one character, with their character index.
fn events_for_char(c: char, i: usize) -> (v: Vec<(usize, Key, Direction)>)
    ensures
        lift_evs(v@) == char_events(c, i as int),
        v@.len() >= 1,
{
    let mut v: Vec<(usize, Key, Direction)> = Vec::new();
    let cv = c as u32;
    if cv >= 65 && cv <= 90 {
        v.push((i, Key::Shift, Direction::Press));
        v.push((i, Key::Unicode(c), Direction::Press));
        v.push((i, Key::Unicode(c), Direction::Release));
        v.push((i, Key::Shift, Direction::Release));
    } else {
        v.push((i, Key::Unicode(c), Direction::Press));
        v.push((i, Key::Unicode(c), Direction::Release));
    }
    proof {
        assert(lift_evs(v@) =~= char_events(c, i as int));
    }
    v
}

/// The characters of a string, in code-point order.
fn chars_of(s: &str) -> (v: Vec<char>)
    ensures
        v@ == s@,
{
    let mut it = s.chars();
    let mut v: Vec<char> = Vec::new();
    loop
        invariant
            v@ + it.remaining() == s@,
            v@.len() <= s@.len(),
        ensures
            v@ == s@,
        decreases s@.len() - v@.len(),
    {
        match it.next() {
            Some(c) => {
                v.push(c);
                proof {
                    assert(v@ + it.remaining() =~= s@);
                }
            },
            None => {
                proof {
                    assert(v@ =~= s@);
                }
                break ;
            },
        }
    }
    v
}

/// A translated text, consumed event by event.
pub struct TextTranslator {
    chars: Vec<char>,
    pos: usize,
    pending: Vec<(usize, Key, Direction)>,
    pending_idx: usize,
}

impl TextTranslator {
    /// Internal consistency: the cursors point into their buffers.
    pub closed spec fn wf(self) -> bool {
        self.pending_idx <= self.pending@.len() && self.pos <= self.chars@.len()
    }

    /// The events not yet handed out, in order.
    pub closed spec fn remaining(self) -> Seq<(int, Key, Direction)> {
        lift_evs(self.pending@.skip(self.pending_idx as int)) + text_events_from(
            self.chars@.skip(self.pos as int),
            self.pos as int,
        )
    }

    /// Translate a text: the events handed out will be exactly the events
    /// that type it.
    pub fn new(text: &str) -> (t: Self)
        ensures
            t.wf(),
            t.remaining() == text_events(text@),
    {
        let chars = chars_of(text);
        let t = TextTranslator { chars, pos: 0, pending: Vec::new(), pending_idx: 0 };
        proof {
            assert(t.pending@.skip(0) =~= Seq::<(usize, Key, Direction)>::empty());
            assert(lift_evs(Seq::<(usize, Key, Direction)>::empty()) =~= Seq::<
                (int, Key, Direction),
            >::empty());
            assert(t.chars@.skip(0) =~= text@);
            assert(t.remaining() =~= text_events(text@));
        }
        t
    }

    /// Hand out the next event, or nothing once the text is exhausted.
    pub fn next_event(&mut self) -> (r: Option<(usize, Key, Direction)>)
        requires
            old(self).wf(),
        ensures
            final(self).wf(),
            old(self).remaining().len() == 0 ==> r is None && final(self).remaining() == old(
                self,
            ).remaining(),
            old(self).remaining().len() > 0 ==> (r matches Some(ev) && lift_ev(ev) == old(
                self,
            ).remaining()[0] && final(self).remaining() == old(self).remaining().skip(1)),
    {
        if self.pending_idx < self.pending.len() {
            let ev = self.pending[self.pending_idx];
            self.pending_idx = self.pending_idx + 1;
            proof {
                let pend_old = old(self).pending@.skip(old(self).pending_idx as int);
                assert(lift_evs(pend_old)[0] == lift_ev(ev));
                assert(lift_evs(self.pending@.skip(self.pending_idx as int)) =~= lift_evs(
                    pend_old,
                ).skip(1));
                assert(self.remaining() =~= old(self).remaining().skip(1));
            }
            Some(ev)
        } else if self.pos < self.chars.len() {
            let c = self.chars[self.pos];
            let evs = events_for_char(c, self.pos);
            let ev = evs[0];
            self.pending_idx = 0;
            self.pending = evs;
            self.pending_idx = 1;
            let ghost p = old(self).pos as int;
            self.pos = self.pos + 1;
            proof {
                let s = old(self).chars@;
                assert(lift_evs(old(self).pending@.skip(old(self).pending_idx as int)) =~= Seq::<
                    (int, Key, Direction),
                >::empty());
                assert(old(self).remaining() =~= text_events_from(s.skip(p), p));
                assert(s.skip(p)[0] == s[p]);
                assert(s.skip(p).skip(1) =~= s.skip(p + 1));
                assert(text_events_from(s.skip(p), p) == char_events(s[p], p)
                    + text_events_from(s.skip(p + 1), p + 1));
                assert(lift_evs(self.pending@)[0] == lift_ev(ev));
                assert(char_events(s[p], p)[0] == lift_ev(ev));
                assert(old(self).remaining()[0] == lift_ev(ev));
                assert(lift_evs(self.pending@.skip(1)) =~= lift_evs(self.pending@).skip(1));
                assert(self.remaining() =~= old(self).remaining().skip(1));
            }
            Some(ev)
        } else {
            proof {
                assert(old(self).remaining().len() == 0);
            }
            None
        }
    }
}

/// Translate a text into its event sequence, to be consumed event by
/// event.
pub fn translate(text: &str) -> (t: TextTranslator)
    ensures
        t.wf(),
        t.remaining() == text_events(text@),
{
    TextTranslator::new(text)
}

} // verus!
