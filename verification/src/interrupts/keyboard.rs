//! The keyboard input pipeline: the ring of pressed keys that the interrupt
//! handler fills, and the readers that drain it.
//!
//! The handler is the only writer. It never waits for a reader: when the ring
//! is full the next key overwrites the oldest one. A reader that falls behind
//! by more than the ring's capacity loses keys without notice.

pub mod ps2;

use super::pic8259::{eoi_writes, send_eoi, PortWrite};
use super::KEYBOARD_VECTOR;
use ps2::{decode, decode_scancode, KeyCode, KeyEvent, ScanCode, State};
use vstd::prelude::*;

verus! {

/// Number of slots in the ring.
pub const CAPACITY: usize = 256;

/// The slot the next key goes to, after `count` keys were written.
pub open spec fn cursor_after(count: nat) -> nat {
    count % (CAPACITY as nat)
}

/// Number of keys the ring holds after `count` keys were written.
pub open spec fn live_after(count: nat) -> nat {
    if count < CAPACITY {
        count
    } else {
        CAPACITY as nat
    }
}

/// Of the first `count` keys written, the number of the last one that went to
/// `slot`, counting from 0; `None` while nothing was written there.
pub open spec fn last_write(count: nat, slot: nat) -> Option<nat> {
    if slot < CAPACITY && slot < count {
        Some((((count - 1 - slot) / (CAPACITY as int)) * CAPACITY + slot) as nat)
    } else {
        None
    }
}

/// What `slot` holds after the keys of `history` were written in order: the
/// last key that went there, `Unknown` while nothing was written there.
pub open spec fn slot_value(history: Seq<KeyCode>, slot: nat) -> KeyCode {
    match last_write(history.len(), slot) {
        Some(n) => history[n as int],
        None => KeyCode::Unknown,
    }
}

/// One more write changes the slot under the cursor and no other.
pub proof fn lemma_last_write_step(count: nat, slot: nat)
    requires
        slot < CAPACITY,
    ensures
        last_write(count + 1, slot) == if slot == cursor_after(count) {
            Some(count)
        } else {
            last_write(count, slot)
        },
{
    if slot <= count {
        let d = (count - slot) as int;
        if slot == cursor_after(count) {
            assert(d % 256 == 0);
            assert((d / 256) * 256 == d);
        } else {
            assert(d % 256 != 0);
            assert(d >= 1);
            assert((d - 1) / 256 == d / 256);
        }
    }
}

/// The ring of pressed keys. Its view is the sequence of all keys ever
/// written to it, oldest first.
pub struct KeyBuffer {
    buffer: [KeyCode; 256],
    len: usize,
    wrapped: bool,
    history: Ghost<Seq<KeyCode>>,
}

impl View for KeyBuffer {
    type V = Seq<KeyCode>;

    closed spec fn view(&self) -> Seq<KeyCode> {
        self.history@
    }
}

impl KeyBuffer {
    #[verifier::type_invariant]
    spec fn well_formed(self) -> bool {
        &&& self.len == cursor_after(self.history@.len())
        &&& self.wrapped == (self.history@.len() >= CAPACITY)
        &&& forall|slot: int|
            0 <= slot < CAPACITY ==> #[trigger] self.buffer[slot] == slot_value(
                self.history@,
                slot as nat,
            )
    }

    /// The empty ring.
    pub fn new() -> (ring: KeyBuffer)
        ensures
            ring@ == Seq::<KeyCode>::empty(),
    {
        KeyBuffer {
            buffer: [KeyCode::Unknown;256],
            len: 0,
            wrapped: false,
            history: Ghost(Seq::empty()),
        }
    }

    /// Number of slots.
    pub fn capacity(&self) -> (slots: usize)
        ensures
            slots == CAPACITY,
    {
        CAPACITY
    }

    /// Number of keys the ring holds: every key written so far, up to the
    /// capacity.
    pub fn len(&self) -> (live: usize)
        ensures
            live == live_after(self@.len()),
            live <= CAPACITY,
    {
        proof {
            use_type_invariant(self);
        }
        if self.wrapped {
            CAPACITY
        } else {
            self.len
        }
    }

    /// The slot the next key goes to.
    pub fn cursor(&self) -> (slot: usize)
        ensures
            slot == cursor_after(self@.len()),
            slot < CAPACITY,
    {
        proof {
            use_type_invariant(self);
        }
        self.len
    }

    /// Appends `key` at the cursor and advances the cursor, back to slot 0
    /// after the last slot. A full ring loses its oldest key.
    pub fn write(&mut self, key: KeyCode)
        ensures
            final(self)@ == old(self)@.push(key),
    {
        proof {
            use_type_invariant(&*self);
        }
        let ghost before = self.history@;
        let ghost after = before.push(key);
        let at = self.len;
        let mut buffer = self.buffer;
        buffer[at] = key;
        let next = if at + 1 >= CAPACITY {
            0
        } else {
            at + 1
        };
        let wrapped = self.wrapped || at + 1 >= CAPACITY;
        proof {
            assert forall|slot: int| 0 <= slot < CAPACITY implies #[trigger] buffer[slot]
                == slot_value(after, slot as nat) by {
                lemma_last_write_step(before.len(), slot as nat);
                assert(self.buffer[slot] == slot_value(before, slot as nat));
            }
        }
        *self = KeyBuffer { buffer, len: next, wrapped, history: Ghost(after) };
    }
}

/// A consumer's cursor into the ring. Each reader has its own and sees every
/// key at most once.
pub struct KeyReader {
    index: usize,
}

impl KeyReader {
    #[verifier::type_invariant]
    spec fn well_formed(self) -> bool {
        self.index < CAPACITY
    }

    /// The slot this reader takes its next key from.
    pub closed spec fn position(self) -> nat {
        self.index as nat
    }

    /// A reader at slot 0.
    pub fn new() -> (reader: KeyReader)
        ensures
            reader.position() == 0,
    {
        KeyReader { index: 0 }
    }

    /// The slot this reader takes its next key from.
    pub fn index(&self) -> (slot: usize)
        ensures
            slot == self.position(),
            slot < CAPACITY,
    {
        proof {
            use_type_invariant(self);
        }
        self.index
    }

    /// Takes the next key without waiting.
    ///
    /// While the reader stands at the writer's cursor there is nothing to
    /// take. Otherwise the reader takes what its slot holds and moves to the
    /// next slot, back to slot 0 after the last one.
    pub fn try_key(&mut self, ring: &KeyBuffer) -> (key: Option<KeyCode>)
        ensures
            old(self).position() == cursor_after(ring@.len()) ==> {
                &&& key is None
                &&& final(self).position() == old(self).position()
            },
            old(self).position() != cursor_after(ring@.len()) ==> {
                &&& key == Some(slot_value(ring@, old(self).position()))
                &&& final(self).position() == (old(self).position() + 1) % (CAPACITY as nat)
            },
    {
        proof {
            use_type_invariant(&*self);
            use_type_invariant(ring);
        }
        let at = self.index;
        if ring.len != at {
            let key = ring.buffer[at];
            self.index = if at + 1 >= CAPACITY {
                0
            } else {
                at + 1
            };
            Some(key)
        } else {
            None
        }
    }
}

/// What the keyboard interrupt handler did with one scancode.
pub struct Handled {
    /// The decoded event.
    pub event: KeyEvent,
    /// Whether the key was appended to the ring.
    pub buffered: bool,
    /// The port writes that acknowledge the interrupt, in order.
    pub eoi: Vec<PortWrite>,
}

/// Whether an event goes into the ring: only the press of a known key does.
pub open spec fn is_buffered(event: KeyEvent) -> bool {
    event.state == State::Press && event.key != KeyCode::Unknown
}

/// The keyboard interrupt handler, for the one byte read from the keyboard's
/// data port.
///
/// Decodes the byte and appends the key to the ring if it is the press of a
/// known key. Whatever the byte was, the interrupt is acknowledged.
pub fn handler(ring: &mut KeyBuffer, scancode: ScanCode) -> (done: Handled)
    ensures
        done.event == decode(scancode),
        done.buffered == is_buffered(decode(scancode)),
        final(ring)@ == if is_buffered(decode(scancode)) {
            old(ring)@.push(decode(scancode).key)
        } else {
            old(ring)@
        },
        done.eoi@ == eoi_writes(KEYBOARD_VECTOR),
{
    let event = decode_scancode(scancode).unwrap();
    let buffered = event.state == State::Press && event.key != KeyCode::Unknown;
    if buffered {
        ring.write(event.key);
    }
    Handled { event, buffered, eoi: send_eoi(KEYBOARD_VECTOR) }
}

/// The ring holds the last `CAPACITY` keys written and no older one: key
/// number `n` is still what its slot holds exactly when fewer than
/// `CAPACITY` keys were written after it. So a ring never holds more than
/// `CAPACITY` keys, and once `CAPACITY + 1` keys were written the first of
/// them is gone while `CAPACITY` keys are still there.
pub proof fn lemma_ring_keeps_latest(history: Seq<KeyCode>, n: nat)
    requires
        n < history.len(),
    ensures
        live_after(history.len()) <= CAPACITY,
        last_write(history.len(), n % (CAPACITY as nat)) == Some(n) <==> history.len() - n
            <= CAPACITY,
        history.len() - n <= CAPACITY ==> slot_value(history, n % (CAPACITY as nat)) == history[n as int],
        n + live_after(history.len()) >= history.len() <==> history.len() - n <= CAPACITY,
{
    let count = history.len();
    let slot = n % 256;
    let d = (count - 1 - slot) as int;
    assert(slot <= n);
    assert((n - slot) % 256 == 0);
    let k = (n - slot) / 256;
    assert(n == k * 256 + slot);
    if count - n <= 256 {
        assert(d / 256 == k);
    } else {
        assert(d / 256 > k);
    }
}

/// A reader takes the keys in the order they were written and takes none
/// twice.
///
/// Take a reader at slot `position` that has not run ahead of the writer,
/// and two calls of `try_key` that both give a key: the first when
/// `history` was written, the second, from the next slot, when `more` was
/// written after it. Then each call gives a key that was written, and the
/// second key was written later than the first. The reader has still not run
/// ahead of the writer afterwards.
pub proof fn lemma_reader_takes_in_order(history: Seq<KeyCode>, more: Seq<KeyCode>, position: nat)
    requires
        position < CAPACITY,
        position <= history.len(),
        position != cursor_after(history.len()),
        (position + 1) % (CAPACITY as nat) != cursor_after((history + more).len()),
    ensures
        ({
            let next = (position + 1) % (CAPACITY as nat);
            let all = history + more;
            &&& next <= history.len()
            &&& last_write(history.len(), position) matches Some(first)
            &&& last_write(all.len(), next) matches Some(second)
            &&& first < second < all.len()
            &&& slot_value(history, position) == all[first as int]
            &&& slot_value(all, next) == all[second as int]
        }),
{
    let count1 = history.len();
    let count2 = (history + more).len();
    assert(count2 == count1 + more.len());
    assert(position < count1);
    let d1 = (count1 - 1 - position) as int;
    if position + 1 < 256 {
        let next = position + 1;
        assert((position + 1) % 256 == next);
        let d2 = (count2 - 1 - next) as int;
        if count2 == count1 {
            assert(d1 % 256 != 0);
            assert((d1 - 1) / 256 == d1 / 256);
        } else {
            assert(d2 >= d1);
            assert(d2 / 256 >= d1 / 256);
        }
    } else {
        assert((position + 1) % 256 == 0);
        let d2 = (count2 - 1) as int;
        assert(count1 >= 256);
        if count2 == count1 {
            assert(count1 % 256 != 0);
            assert((count1 - 1) / 256 == count1 / 256);
        }
        assert(d2 / 256 >= count1 / 256);
        assert(d1 / 256 == count1 / 256 - 1);
    }
}

} // verus!
