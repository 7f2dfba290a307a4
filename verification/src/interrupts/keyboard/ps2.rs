//! Scancode set 1 of the PS/2 keyboard: key identities, press and release,
//! and the printable character of a key.

use bit_field::BitField;
use vstd::prelude::*;

verus! {

/// A raw byte read from the keyboard's data port.
pub type ScanCode = u8;

/// Whether a key went down or came up.
#[derive(Clone, Copy, Debug, PartialEq, Eq, Structural)]
pub enum State {
    Press,
    Release,
}

/// A key of scancode set 1. `Unknown` stands for every code the set does not
/// assign.
#[derive(Clone, Copy, Debug, PartialEq, Eq, Structural)]
pub enum KeyCode {
    Escape,
    One,
    Two,
    Three,
    Four,
    Five,
    Six,
    Seven,
    Eight,
    Nine,
    Zero,
    Minus,
    Equals,
    Backspace,
    Tab,
    Q,
    W,
    E,
    R,
    T,
    Y,
    U,
    I,
    O,
    P,
    LeftBracket,
    RightBracket,
    Enter,
    LeftControl,
    A,
    S,
    D,
    F,
    G,
    H,
    J,
    K,
    L,
    Semicolon,
    Apostrophe,
    BackTick,
    LeftShift,
    BackSlash,
    Z,
    X,
    C,
    V,
    B,
    N,
    M,
    Comma,
    Period,
    ForwardSlash,
    RightShift,
    NumPadStar,
    LeftAlt,
    Space,
    CapsLock,
    F1,
    F2,
    F3,
    F4,
    F5,
    F6,
    F7,
    F8,
    F9,
    F10,
    NumLock,
    ScrollLock,
    NumPad7,
    NumPad8,
    NumPad9,
    NumPadMinus,
    NumPad4,
    NumPad5,
    NumPad6,
    NumPadPlus,
    NumPad1,
    NumPad2,
    NumPad3,
    NumPad0,
    NumPadPeriod,
    F11,
    F12,
    Unknown,
}

/// One decoded keyboard event.
#[derive(Clone, Copy, Debug, PartialEq, Eq, Structural)]
pub struct KeyEvent {
    pub state: State,
    pub key: KeyCode,
}

/// The number that follows the last assigned make code; it stands for
/// `KeyCode::Unknown`.
pub const UNKNOWN_CODE: u8 = 0x59;

impl KeyCode {
    /// The make code of a key: the byte the keyboard sends when the key goes
    /// down.
    pub open spec fn code(self) -> u8 {
        match self {
            KeyCode::Escape => 0x1,
            KeyCode::One => 0x2,
            KeyCode::Two => 0x3,
            KeyCode::Three => 0x4,
            KeyCode::Four => 0x5,
            KeyCode::Five => 0x6,
            KeyCode::Six => 0x7,
            KeyCode::Seven => 0x8,
            KeyCode::Eight => 0x9,
            KeyCode::Nine => 0xa,
            KeyCode::Zero => 0xb,
            KeyCode::Minus => 0xc,
            KeyCode::Equals => 0xd,
            KeyCode::Backspace => 0xe,
            KeyCode::Tab => 0xf,
            KeyCode::Q => 0x10,
            KeyCode::W => 0x11,
            KeyCode::E => 0x12,
            KeyCode::R => 0x13,
            KeyCode::T => 0x14,
            KeyCode::Y => 0x15,
            KeyCode::U => 0x16,
            KeyCode::I => 0x17,
            KeyCode::O => 0x18,
            KeyCode::P => 0x19,
            KeyCode::LeftBracket => 0x1a,
            KeyCode::RightBracket => 0x1b,
            KeyCode::Enter => 0x1c,
            KeyCode::LeftControl => 0x1d,
            KeyCode::A => 0x1e,
            KeyCode::S => 0x1f,
            KeyCode::D => 0x20,
            KeyCode::F => 0x21,
            KeyCode::G => 0x22,
            KeyCode::H => 0x23,
            KeyCode::J => 0x24,
            KeyCode::K => 0x25,
            KeyCode::L => 0x26,
            KeyCode::Semicolon => 0x27,
            KeyCode::Apostrophe => 0x28,
            KeyCode::BackTick => 0x29,
            KeyCode::LeftShift => 0x2a,
            KeyCode::BackSlash => 0x2b,
            KeyCode::Z => 0x2c,
            KeyCode::X => 0x2d,
            KeyCode::C => 0x2e,
            KeyCode::V => 0x2f,
            KeyCode::B => 0x30,
            KeyCode::N => 0x31,
            KeyCode::M => 0x32,
            KeyCode::Comma => 0x33,
            KeyCode::Period => 0x34,
            KeyCode::ForwardSlash => 0x35,
            KeyCode::RightShift => 0x36,
            KeyCode::NumPadStar => 0x37,
            KeyCode::LeftAlt => 0x38,
            KeyCode::Space => 0x39,
            KeyCode::CapsLock => 0x3a,
            KeyCode::F1 => 0x3b,
            KeyCode::F2 => 0x3c,
            KeyCode::F3 => 0x3d,
            KeyCode::F4 => 0x3e,
            KeyCode::F5 => 0x3f,
            KeyCode::F6 => 0x40,
            KeyCode::F7 => 0x41,
            KeyCode::F8 => 0x42,
            KeyCode::F9 => 0x43,
            KeyCode::F10 => 0x44,
            KeyCode::NumLock => 0x45,
            KeyCode::ScrollLock => 0x46,
            KeyCode::NumPad7 => 0x47,
            KeyCode::NumPad8 => 0x48,
            KeyCode::NumPad9 => 0x49,
            KeyCode::NumPadMinus => 0x4a,
            KeyCode::NumPad4 => 0x4b,
            KeyCode::NumPad5 => 0x4c,
            KeyCode::NumPad6 => 0x4d,
            KeyCode::NumPadPlus => 0x4e,
            KeyCode::NumPad1 => 0x4f,
            KeyCode::NumPad2 => 0x50,
            KeyCode::NumPad3 => 0x51,
            KeyCode::NumPad0 => 0x52,
            KeyCode::NumPadPeriod => 0x53,
            KeyCode::F11 => 0x57,
            KeyCode::F12 => 0x58,
            KeyCode::Unknown => UNKNOWN_CODE,
        }
    }

    /// The key with make code `value`, if there is one.
    pub open spec fn spec_from_code(value: u8) -> Option<KeyCode> {
        if exists|k: KeyCode| k.code() == value {
            Some(choose|k: KeyCode| k.code() == value)
        } else {
            None
        }
    }

    /// Looks a make code up in the table. Codes the set leaves unassigned
    /// give `None`.
    pub fn from_code(value: u8) -> (key: Option<KeyCode>)
        ensures
            key == Self::spec_from_code(value),
            key matches Some(k) ==> k.code() == value,
            key is None <==> forall|k: KeyCode| k.code() != value,
    {
        let key = match value {
            0x1 => Some(KeyCode::Escape),
            0x2 => Some(KeyCode::One),
            0x3 => Some(KeyCode::Two),
            0x4 => Some(KeyCode::Three),
            0x5 => Some(KeyCode::Four),
            0x6 => Some(KeyCode::Five),
            0x7 => Some(KeyCode::Six),
            0x8 => Some(KeyCode::Seven),
            0x9 => Some(KeyCode::Eight),
            0xa => Some(KeyCode::Nine),
            0xb => Some(KeyCode::Zero),
            0xc => Some(KeyCode::Minus),
            0xd => Some(KeyCode::Equals),
            0xe => Some(KeyCode::Backspace),
            0xf => Some(KeyCode::Tab),
            0x10 => Some(KeyCode::Q),
            0x11 => Some(KeyCode::W),
            0x12 => Some(KeyCode::E),
            0x13 => Some(KeyCode::R),
            0x14 => Some(KeyCode::T),
            0x15 => Some(KeyCode::Y),
            0x16 => Some(KeyCode::U),
            0x17 => Some(KeyCode::I),
            0x18 => Some(KeyCode::O),
            0x19 => Some(KeyCode::P),
            0x1a => Some(KeyCode::LeftBracket),
            0x1b => Some(KeyCode::RightBracket),
            0x1c => Some(KeyCode::Enter),
            0x1d => Some(KeyCode::LeftControl),
            0x1e => Some(KeyCode::A),
            0x1f => Some(KeyCode::S),
            0x20 => Some(KeyCode::D),
            0x21 => Some(KeyCode::F),
            0x22 => Some(KeyCode::G),
            0x23 => Some(KeyCode::H),
            0x24 => Some(KeyCode::J),
            0x25 => Some(KeyCode::K),
            0x26 => Some(KeyCode::L),
            0x27 => Some(KeyCode::Semicolon),
            0x28 => Some(KeyCode::Apostrophe),
            0x29 => Some(KeyCode::BackTick),
            0x2a => Some(KeyCode::LeftShift),
            0x2b => Some(KeyCode::BackSlash),
            0x2c => Some(KeyCode::Z),
            0x2d => Some(KeyCode::X),
            0x2e => Some(KeyCode::C),
            0x2f => Some(KeyCode::V),
            0x30 => Some(KeyCode::B),
            0x31 => Some(KeyCode::N),
            0x32 => Some(KeyCode::M),
            0x33 => Some(KeyCode::Comma),
            0x34 => Some(KeyCode::Period),
            0x35 => Some(KeyCode::ForwardSlash),
            0x36 => Some(KeyCode::RightShift),
            0x37 => Some(KeyCode::NumPadStar),
            0x38 => Some(KeyCode::LeftAlt),
            0x39 => Some(KeyCode::Space),
            0x3a => Some(KeyCode::CapsLock),
            0x3b => Some(KeyCode::F1),
            0x3c => Some(KeyCode::F2),
            0x3d => Some(KeyCode::F3),
            0x3e => Some(KeyCode::F4),
            0x3f => Some(KeyCode::F5),
            0x40 => Some(KeyCode::F6),
            0x41 => Some(KeyCode::F7),
            0x42 => Some(KeyCode::F8),
            0x43 => Some(KeyCode::F9),
            0x44 => Some(KeyCode::F10),
            0x45 => Some(KeyCode::NumLock),
            0x46 => Some(KeyCode::ScrollLock),
            0x47 => Some(KeyCode::NumPad7),
            0x48 => Some(KeyCode::NumPad8),
            0x49 => Some(KeyCode::NumPad9),
            0x4a => Some(KeyCode::NumPadMinus),
            0x4b => Some(KeyCode::NumPad4),
            0x4c => Some(KeyCode::NumPad5),
            0x4d => Some(KeyCode::NumPad6),
            0x4e => Some(KeyCode::NumPadPlus),
            0x4f => Some(KeyCode::NumPad1),
            0x50 => Some(KeyCode::NumPad2),
            0x51 => Some(KeyCode::NumPad3),
            0x52 => Some(KeyCode::NumPad0),
            0x53 => Some(KeyCode::NumPadPeriod),
            0x57 => Some(KeyCode::F11),
            0x58 => Some(KeyCode::F12),
            0x59 => Some(KeyCode::Unknown),
            _ => None,
        };
        proof {
            if let Some(k) = key {
                assert(k.code() == value);
                let c = choose|c: KeyCode| c.code() == value;
                assert(c.code() == value);
                Self::lemma_code_injective(k, c);
            } else {
                assert forall|k: KeyCode| k.code() != value by {
                    Self::lemma_code_range(k);
                }
            }
        }
        key
    }

    /// Two keys with the same make code are the same key.
    pub proof fn lemma_code_injective(a: KeyCode, b: KeyCode)
        requires
            a.code() == b.code(),
        ensures
            a == b,
    {
    }

    /// Every make code lies in `0x01..=0x59` and outside the gap `0x54..=0x56`.
    pub proof fn lemma_code_range(k: KeyCode)
        ensures
            0x01 <= k.code() <= UNKNOWN_CODE,
            !(0x54 <= k.code() <= 0x56),
    {
    }

    /// Looking up the make code of a key gives that key back.
    pub proof fn lemma_from_code_of_code(k: KeyCode)
        ensures
            Self::spec_from_code(k.code()) == Some(k),
    {
        Self::lemma_code_range(k);
        let c = choose|c: KeyCode| c.code() == k.code();
        Self::lemma_code_injective(c, k);
    }
}

/// Whether bit `bit` of `value` is set, bit 0 being the least significant.
pub open spec fn bit_is_set(value: u8, bit: usize) -> bool {
    value & (1u8 << bit) != 0
}

/// `value` with bit `bit` set to `on`.
pub open spec fn with_bit(value: u8, bit: usize, on: bool) -> u8 {
    if on {
        value | (1u8 << bit)
    } else {
        value & !(1u8 << bit)
    }
}

/// `bit_field::BitField::get_bit` on a `u8`. The call panics for a bit index
/// of 8 or more; below that it tests the byte against a mask with that one
/// bit set.
#[verifier::external_body]
fn get_bit(value: u8, bit: usize) -> (set: bool)
    requires
        bit < 8,
    ensures
        set == bit_is_set(value, bit),
{
    value.get_bit(bit)
}

/// `bit_field::BitField::set_bit` on a `u8`. The call panics for a bit index
/// of 8 or more; below that it sets or clears that one bit and leaves the
/// others as they were.
#[verifier::external_body]
fn set_bit(value: u8, bit: usize, on: bool) -> (changed: u8)
    requires
        bit < 8,
    ensures
        changed == with_bit(value, bit, on),
{
    let mut changed = value;
    changed.set_bit(bit, on);
    changed
}

/// The transition a scancode stands for: bit 7 set means release.
pub open spec fn state_of(scancode: ScanCode) -> State {
    if scancode >= 0x80 {
        State::Release
    } else {
        State::Press
    }
}

/// The key a scancode names: its low seven bits looked up in the table,
/// `Unknown` where the table has no entry.
pub open spec fn key_of(scancode: ScanCode) -> KeyCode {
    match KeyCode::spec_from_code((scancode % 0x80) as u8) {
        Some(key) => key,
        None => KeyCode::Unknown,
    }
}

/// The event a scancode decodes to.
pub open spec fn decode(scancode: ScanCode) -> KeyEvent {
    KeyEvent { state: state_of(scancode), key: key_of(scancode) }
}

impl From<ScanCode> for State {
    fn from(value: ScanCode) -> (state: State) {
        let released = get_bit(value, 7);
        assert(bit_is_set(value, 7usize) == (value >= 0x80)) by (bit_vector);
        if released {
            State::Release
        } else {
            State::Press
        }
    }
}

impl vstd::std_specs::convert::FromSpecImpl<ScanCode> for State {
    open spec fn obeys_from_spec() -> bool {
        true
    }

    open spec fn from_spec(value: ScanCode) -> State {
        state_of(value)
    }
}

/// Decodes one scancode. Every byte decodes: the result is always `Some`,
/// and a byte whose low seven bits name no key gives the key `Unknown`.
pub fn decode_scancode(scancode: ScanCode) -> (event: Option<KeyEvent>)
    ensures
        event == Some(decode(scancode)),
{
    let state = State::from(scancode);
    let make = set_bit(scancode, 7, false);
    assert(with_bit(scancode, 7usize, false) == scancode % 0x80) by (bit_vector);
    let key = match KeyCode::from_code(make) {
        Some(key) => key,
        None => KeyCode::Unknown,
    };
    Some(KeyEvent { state, key })
}

impl KeyCode {
    /// The character a key prints, for the keys that print one.
    pub open spec fn spec_to_char(self) -> Option<char> {
        match self {
            KeyCode::One => Some('1'),
            KeyCode::Two => Some('2'),
            KeyCode::Three => Some('3'),
            KeyCode::Four => Some('4'),
            KeyCode::Five => Some('5'),
            KeyCode::Six => Some('6'),
            KeyCode::Seven => Some('7'),
            KeyCode::Eight => Some('8'),
            KeyCode::Nine => Some('9'),
            KeyCode::Zero => Some('0'),
            KeyCode::Minus => Some('-'),
            KeyCode::Equals => Some('='),
            KeyCode::Q => Some('q'),
            KeyCode::W => Some('w'),
            KeyCode::E => Some('e'),
            KeyCode::R => Some('r'),
            KeyCode::T => Some('t'),
            KeyCode::Y => Some('y'),
            KeyCode::U => Some('u'),
            KeyCode::I => Some('i'),
            KeyCode::O => Some('o'),
            KeyCode::P => Some('p'),
            KeyCode::LeftBracket => Some('['),
            KeyCode::RightBracket => Some(']'),
            KeyCode::Enter => Some('\n'),
            KeyCode::Space => Some(' '),
            KeyCode::A => Some('a'),
            KeyCode::S => Some('s'),
            KeyCode::D => Some('d'),
            KeyCode::F => Some('f'),
            KeyCode::G => Some('g'),
            KeyCode::H => Some('h'),
            KeyCode::J => Some('j'),
            KeyCode::K => Some('k'),
            KeyCode::L => Some('l'),
            KeyCode::Semicolon => Some(';'),
            KeyCode::Apostrophe => Some('\''),
            KeyCode::BackTick => Some('`'),
            KeyCode::BackSlash => Some('\\'),
            KeyCode::Z => Some('z'),
            KeyCode::X => Some('x'),
            KeyCode::C => Some('c'),
            KeyCode::V => Some('v'),
            KeyCode::B => Some('b'),
            KeyCode::N => Some('n'),
            KeyCode::M => Some('m'),
            KeyCode::Comma => Some(','),
            KeyCode::Period => Some('.'),
            KeyCode::ForwardSlash => Some('/'),
            KeyCode::NumPadStar => Some('*'),
            KeyCode::NumPad7 => Some('7'),
            KeyCode::NumPad8 => Some('8'),
            KeyCode::NumPad9 => Some('9'),
            KeyCode::NumPadMinus => Some('-'),
            KeyCode::NumPad4 => Some('4'),
            KeyCode::NumPad5 => Some('5'),
            KeyCode::NumPad6 => Some('6'),
            KeyCode::NumPadPlus => Some('+'),
            KeyCode::NumPad1 => Some('1'),
            KeyCode::NumPad2 => Some('2'),
            KeyCode::NumPad3 => Some('3'),
            KeyCode::NumPad0 => Some('0'),
            KeyCode::NumPadPeriod => Some('.'),
            _ => None,
        }
    }
}

/// The character a key prints; `Err` for keys that print none (modifiers,
/// function keys, escape, backspace, tab, locks and `Unknown`).
impl TryFrom<KeyCode> for char {
    type Error = ();

    fn try_from(value: KeyCode) -> (c: Result<char, ()>) {
        match value {
            KeyCode::One => Ok('1'),
            KeyCode::Two => Ok('2'),
            KeyCode::Three => Ok('3'),
            KeyCode::Four => Ok('4'),
            KeyCode::Five => Ok('5'),
            KeyCode::Six => Ok('6'),
            KeyCode::Seven => Ok('7'),
            KeyCode::Eight => Ok('8'),
            KeyCode::Nine => Ok('9'),
            KeyCode::Zero => Ok('0'),
            KeyCode::Minus => Ok('-'),
            KeyCode::Equals => Ok('='),
            KeyCode::Q => Ok('q'),
            KeyCode::W => Ok('w'),
            KeyCode::E => Ok('e'),
            KeyCode::R => Ok('r'),
            KeyCode::T => Ok('t'),
            KeyCode::Y => Ok('y'),
            KeyCode::U => Ok('u'),
            KeyCode::I => Ok('i'),
            KeyCode::O => Ok('o'),
            KeyCode::P => Ok('p'),
            KeyCode::LeftBracket => Ok('['),
            KeyCode::RightBracket => Ok(']'),
            KeyCode::Enter => Ok('\n'),
            KeyCode::Space => Ok(' '),
            KeyCode::A => Ok('a'),
            KeyCode::S => Ok('s'),
            KeyCode::D => Ok('d'),
            KeyCode::F => Ok('f'),
            KeyCode::G => Ok('g'),
            KeyCode::H => Ok('h'),
            KeyCode::J => Ok('j'),
            KeyCode::K => Ok('k'),
            KeyCode::L => Ok('l'),
            KeyCode::Semicolon => Ok(';'),
            KeyCode::Apostrophe => Ok('\''),
            KeyCode::BackTick => Ok('`'),
            KeyCode::BackSlash => Ok('\\'),
            KeyCode::Z => Ok('z'),
            KeyCode::X => Ok('x'),
            KeyCode::C => Ok('c'),
            KeyCode::V => Ok('v'),
            KeyCode::B => Ok('b'),
            KeyCode::N => Ok('n'),
            KeyCode::M => Ok('m'),
            KeyCode::Comma => Ok(','),
            KeyCode::Period => Ok('.'),
            KeyCode::ForwardSlash => Ok('/'),
            KeyCode::NumPadStar => Ok('*'),
            KeyCode::NumPad7 => Ok('7'),
            KeyCode::NumPad8 => Ok('8'),
            KeyCode::NumPad9 => Ok('9'),
            KeyCode::NumPadMinus => Ok('-'),
            KeyCode::NumPad4 => Ok('4'),
            KeyCode::NumPad5 => Ok('5'),
            KeyCode::NumPad6 => Ok('6'),
            KeyCode::NumPadPlus => Ok('+'),
            KeyCode::NumPad1 => Ok('1'),
            KeyCode::NumPad2 => Ok('2'),
            KeyCode::NumPad3 => Ok('3'),
            KeyCode::NumPad0 => Ok('0'),
            KeyCode::NumPadPeriod => Ok('.'),
            _ => Err(()),
        }
    }
}

impl vstd::std_specs::convert::TryFromSpecImpl<KeyCode> for char {
    open spec fn obeys_try_from_spec() -> bool {
        true
    }

    open spec fn try_from_spec(value: KeyCode) -> Result<char, ()> {
        match value.spec_to_char() {
            Some(ch) => Ok(ch),
            None => Err(()),
        }
    }
}

} // verus!
