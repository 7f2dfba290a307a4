use runix::interrupts::keyboard::ps2::{decode_scancode, KeyCode, KeyEvent, State};
use runix::interrupts::keyboard::{handler, KeyBuffer, KeyReader, CAPACITY};
use runix::interrupts::pic8259::PortWrite;

const ACK_PRIMARY: PortWrite = PortWrite { port: 0x20, value: 0x20 };

/// The key with make code `n % 83 + 1`, which is always an assigned code.
fn key(n: usize) -> KeyCode {
    KeyCode::from_code((n % 83 + 1) as u8).unwrap()
}

#[test]
fn decode_press_of_a() {
    assert_eq!(
        decode_scancode(0x1E),
        Some(KeyEvent { state: State::Press, key: KeyCode::A })
    );
}

#[test]
fn decode_release_of_a() {
    assert_eq!(
        decode_scancode(0x9E),
        Some(KeyEvent { state: State::Release, key: KeyCode::A })
    );
}

#[test]
fn decode_unassigned_byte_is_unknown() {
    assert_eq!(
        decode_scancode(0xFF),
        Some(KeyEvent { state: State::Release, key: KeyCode::Unknown })
    );
    assert_eq!(
        decode_scancode(0x00),
        Some(KeyEvent { state: State::Press, key: KeyCode::Unknown })
    );
    assert_eq!(
        decode_scancode(0x54),
        Some(KeyEvent { state: State::Press, key: KeyCode::Unknown })
    );
}

#[test]
fn decode_is_the_same_every_time() {
    for byte in 0..=255u8 {
        assert_eq!(decode_scancode(byte), decode_scancode(byte));
    }
}

#[test]
fn decode_every_byte_by_its_two_parts() {
    for byte in 0..=255u8 {
        let event = decode_scancode(byte).unwrap();
        let state = if byte >= 0x80 { State::Release } else { State::Press };
        assert_eq!(event.state, state);
        assert_eq!(event.key, KeyCode::from_code(byte & 0x7f).unwrap_or(KeyCode::Unknown));
    }
}

#[test]
fn state_comes_from_bit_seven() {
    assert_eq!(State::from(0x00), State::Press);
    assert_eq!(State::from(0x7f), State::Press);
    assert_eq!(State::from(0x80), State::Release);
    assert_eq!(State::from(0xff), State::Release);
}

#[test]
fn make_codes_of_the_table() {
    assert_eq!(KeyCode::from_code(0x01), Some(KeyCode::Escape));
    assert_eq!(KeyCode::from_code(0x1c), Some(KeyCode::Enter));
    assert_eq!(KeyCode::from_code(0x39), Some(KeyCode::Space));
    assert_eq!(KeyCode::from_code(0x53), Some(KeyCode::NumPadPeriod));
    assert_eq!(KeyCode::from_code(0x57), Some(KeyCode::F11));
    assert_eq!(KeyCode::from_code(0x58), Some(KeyCode::F12));
    assert_eq!(KeyCode::from_code(0x59), Some(KeyCode::Unknown));
    assert_eq!(KeyCode::from_code(0x00), None);
    assert_eq!(KeyCode::from_code(0x54), None);
    assert_eq!(KeyCode::from_code(0x56), None);
    assert_eq!(KeyCode::from_code(0x5a), None);
    assert_eq!(KeyCode::from_code(0xff), None);
}

#[test]
fn make_codes_name_different_keys() {
    let mut seen: Vec<KeyCode> = Vec::new();
    for code in 0..=255u8 {
        if let Some(key) = KeyCode::from_code(code) {
            assert!(!seen.contains(&key));
            seen.push(key);
        }
    }
    assert_eq!(seen.len(), 86);
}

#[test]
fn characters_of_keys() {
    assert_eq!(char::try_from(KeyCode::A), Ok('a'));
    assert_eq!(char::try_from(KeyCode::One), Ok('1'));
    assert_eq!(char::try_from(KeyCode::NumPad1), Ok('1'));
    assert_eq!(char::try_from(KeyCode::Enter), Ok('\n'));
    assert_eq!(char::try_from(KeyCode::Space), Ok(' '));
    assert_eq!(char::try_from(KeyCode::BackSlash), Ok('\\'));
    assert_eq!(char::try_from(KeyCode::Apostrophe), Ok('\''));
    assert_eq!(char::try_from(KeyCode::NumPadPlus), Ok('+'));
    assert_eq!(char::try_from(KeyCode::Escape), Err(()));
    assert_eq!(char::try_from(KeyCode::Tab), Err(()));
    assert_eq!(char::try_from(KeyCode::Backspace), Err(()));
    assert_eq!(char::try_from(KeyCode::LeftShift), Err(()));
    assert_eq!(char::try_from(KeyCode::F1), Err(()));
    assert_eq!(char::try_from(KeyCode::Unknown), Err(()));
}

#[test]
fn press_and_release_buffer_one_key() {
    let mut ring = KeyBuffer::new();
    let mut reader = KeyReader::new();
    let down = handler(&mut ring, 0x1E);
    let up = handler(&mut ring, 0x9E);
    assert_eq!(down.event, KeyEvent { state: State::Press, key: KeyCode::A });
    assert_eq!(up.event, KeyEvent { state: State::Release, key: KeyCode::A });
    assert!(down.buffered);
    assert!(!up.buffered);
    assert_eq!(down.eoi, vec![ACK_PRIMARY]);
    assert_eq!(up.eoi, vec![ACK_PRIMARY]);
    assert_eq!(ring.len(), 1);
    assert_eq!(reader.try_key(&ring), Some(KeyCode::A));
    assert_eq!(reader.try_key(&ring), None);
    assert_eq!(reader.try_key(&ring), None);
}

#[test]
fn unknown_press_is_acknowledged_and_not_buffered() {
    let mut ring = KeyBuffer::new();
    let done = handler(&mut ring, 0x00);
    assert_eq!(done.event, KeyEvent { state: State::Press, key: KeyCode::Unknown });
    assert!(!done.buffered);
    assert_eq!(done.eoi, vec![ACK_PRIMARY]);
    assert_eq!(ring.len(), 0);
    assert_eq!(ring.cursor(), 0);
    let done = handler(&mut ring, 0x59);
    assert!(!done.buffered);
    assert_eq!(ring.len(), 0);
}

#[test]
fn empty_ring_gives_no_key() {
    let ring = KeyBuffer::new();
    let mut reader = KeyReader::new();
    assert_eq!(ring.len(), 0);
    assert_eq!(ring.cursor(), 0);
    assert_eq!(ring.capacity(), 256);
    assert_eq!(CAPACITY, 256);
    assert_eq!(reader.try_key(&ring), None);
    assert_eq!(reader.index(), 0);
}

#[test]
fn length_never_exceeds_capacity() {
    let mut ring = KeyBuffer::new();
    for n in 0..1000 {
        assert_eq!(ring.len(), n.min(256));
        assert_eq!(ring.cursor(), n % 256);
        ring.write(key(n));
        assert!(ring.len() <= ring.capacity());
    }
}

#[test]
fn one_write_past_capacity_drops_the_oldest() {
    let mut ring = KeyBuffer::new();
    for n in 0..257 {
        ring.write(key(n));
    }
    assert_eq!(ring.len(), 256);
    assert_eq!(ring.cursor(), 1);
    let mut reader = KeyReader::new();
    assert_eq!(reader.try_key(&ring), Some(key(256)));
    assert_ne!(key(256), key(0));
    assert_eq!(reader.try_key(&ring), None);
}

#[test]
fn reader_takes_keys_in_order_and_once() {
    let mut ring = KeyBuffer::new();
    let mut reader = KeyReader::new();
    let mut taken = Vec::new();
    for n in 0..600 {
        ring.write(key(n));
        if n % 3 == 0 {
            while let Some(k) = reader.try_key(&ring) {
                taken.push(k);
            }
        }
    }
    while let Some(k) = reader.try_key(&ring) {
        taken.push(k);
    }
    let written: Vec<KeyCode> = (0..600).map(key).collect();
    assert_eq!(taken, written);
    assert_eq!(reader.try_key(&ring), None);
}

#[test]
fn reader_wraps_after_the_last_slot() {
    let mut ring = KeyBuffer::new();
    let mut reader = KeyReader::new();
    for n in 0..255 {
        ring.write(key(n));
        assert_eq!(reader.try_key(&ring), Some(key(n)));
    }
    assert_eq!(reader.index(), 255);
    ring.write(key(255));
    ring.write(key(256));
    assert_eq!(ring.cursor(), 1);
    assert_eq!(reader.try_key(&ring), Some(key(255)));
    assert_eq!(reader.index(), 0);
    assert_eq!(reader.try_key(&ring), Some(key(256)));
    assert_eq!(reader.index(), 1);
    assert_eq!(reader.try_key(&ring), None);
}

#[test]
fn readers_are_independent() {
    let mut ring = KeyBuffer::new();
    let mut early = KeyReader::new();
    for n in 0..3 {
        ring.write(key(n));
    }
    assert_eq!(early.try_key(&ring), Some(key(0)));
    assert_eq!(early.try_key(&ring), Some(key(1)));
    let mut late = KeyReader::new();
    assert_eq!(late.try_key(&ring), Some(key(0)));
    assert_eq!(early.try_key(&ring), Some(key(2)));
    assert_eq!(early.try_key(&ring), None);
    assert_eq!(late.try_key(&ring), Some(key(1)));
    assert_eq!(late.try_key(&ring), Some(key(2)));
    assert_eq!(late.try_key(&ring), None);
}

#[test]
fn lapped_reader_loses_keys_but_repeats_none() {
    let mut ring = KeyBuffer::new();
    let mut reader = KeyReader::new();
    for n in 0..5 {
        ring.write(key(n));
    }
    assert_eq!(reader.try_key(&ring), Some(key(0)));
    for n in 5..(256 + 3) {
        ring.write(key(n));
    }
    // The writer stands at slot 3 and the reader at slot 1: slots 1 and 2
    // hold the keys 257 and 258 by now.
    assert_eq!(reader.try_key(&ring), Some(key(257)));
    assert_eq!(reader.try_key(&ring), Some(key(258)));
    assert_eq!(reader.try_key(&ring), None);
}
