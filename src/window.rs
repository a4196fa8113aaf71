//! Window events: the codes the host passes for keys, mouse actions and cursors.
use vstd::prelude::*;

use crate::registry::{ContextBlock, HostId, LifeEvent, Stage};

verus! {

/// A point in the host's window coordinates.
#[derive(Debug, Clone, Copy, PartialEq, Eq, Structural)]
pub struct Point {
    pub x: i32,
    pub y: i32,
}

/// Keys that may be pressed
#[derive(Debug, Clone, Copy, PartialEq, Eq, Structural)]
pub enum Key {
    Back,
    Tab,
    Clear,
    Return,
    Escape,
    Space,
    Prior,
    Next,
    End,
    Home,
    Left,
    Up,
    Right,
    Down,
    Select,
    Print,
    Execute,
    Snapshot,
    Insert,
    Delete,
    Help,
    /// The 0 key in the number row.
    Key0,
    /// The 1 key in the number row
    Key1,
    /// The 2 key in the number row
    Key2,
    /// The 3 key in the number row
    Key3,
    /// The 4 key in the number row
    Key4,
    /// The 5 key in the number row
    Key5,
    /// The 6 key in the number row
    Key6,
    /// The 7 key in the number row
    Key7,
    /// The 8 key in the number row
    Key8,
    /// The 9 key in the number row
    Key9,
    A,
    B,
    C,
    D,
    E,
    F,
    G,
    H,
    I,
    J,
    K,
    L,
    M,
    N,
    O,
    P,
    Q,
    R,
    S,
    T,
    U,
    V,
    W,
    X,
    Y,
    Z,
    /// The 0 key on the numerical keypad
    Numpad0,
    /// The 1 key on the numerical keypad
    Numpad1,
    /// The 2 key on the numerical keypad
    Numpad2,
    /// The 3 key on the numerical keypad
    Numpad3,
    /// The 4 key on the numerical keypad
    Numpad4,
    /// The 5 key on the numerical keypad
    Numpad5,
    /// The 6 key on the numerical keypad
    Numpad6,
    /// The 7 key on the numerical keypad
    Numpad7,
    /// The 8 key on the numerical keypad
    Numpad8,
    /// The 9 key on the numerical keypad
    Numpad9,
    Multiply,
    Add,
    Separator,
    Subtract,
    Decimal,
    Divide,
    F1,
    F2,
    F3,
    F4,
    F5,
    F6,
    F7,
    F8,
    F9,
    F10,
    F11,
    F12,
    F13,
    F14,
    F15,
    F16,
    F17,
    F18,
    F19,
    F20,
    F21,
    F22,
    F23,
    F24,
    Equal,
    Minus,
    ClosingBrace,
    OpeningBrace,
    Quote,
    Semicolon,
    Backslash,
    Comma,
    Slash,
    Period,
    Backquote,
    /// Enter, also known as return in Mac OS
    Enter,
    NumpadEnter,
    NumpadEqual,
}

/// The host's virtual-key code of each key.
pub open spec fn key_code(k: Key) -> u8 {
    match k {
        Key::Back => 0x08,
        Key::Tab => 0x09,
        Key::Clear => 0x0c,
        Key::Return => 0x0d,
        Key::Escape => 0x1b,
        Key::Space => 0x20,
        Key::Prior => 0x21,
        Key::Next => 0x22,
        Key::End => 0x23,
        Key::Home => 0x24,
        Key::Left => 0x25,
        Key::Up => 0x26,
        Key::Right => 0x27,
        Key::Down => 0x28,
        Key::Select => 0x29,
        Key::Print => 0x2a,
        Key::Execute => 0x2b,
        Key::Snapshot => 0x2c,
        Key::Insert => 0x2d,
        Key::Delete => 0x2e,
        Key::Help => 0x2f,
        Key::Key0 => 0x30,
        Key::Key1 => 0x31,
        Key::Key2 => 0x32,
        Key::Key3 => 0x33,
        Key::Key4 => 0x34,
        Key::Key5 => 0x35,
        Key::Key6 => 0x36,
        Key::Key7 => 0x37,
        Key::Key8 => 0x38,
        Key::Key9 => 0x39,
        Key::A => 0x41,
        Key::B => 0x42,
        Key::C => 0x43,
        Key::D => 0x44,
        Key::E => 0x45,
        Key::F => 0x46,
        Key::G => 0x47,
        Key::H => 0x48,
        Key::I => 0x49,
        Key::J => 0x4a,
        Key::K => 0x4b,
        Key::L => 0x4c,
        Key::M => 0x4d,
        Key::N => 0x4e,
        Key::O => 0x4f,
        Key::P => 0x50,
        Key::Q => 0x51,
        Key::R => 0x52,
        Key::S => 0x53,
        Key::T => 0x54,
        Key::U => 0x55,
        Key::V => 0x56,
        Key::W => 0x57,
        Key::X => 0x58,
        Key::Y => 0x59,
        Key::Z => 0x5a,
        Key::Numpad0 => 0x60,
        Key::Numpad1 => 0x61,
        Key::Numpad2 => 0x62,
        Key::Numpad3 => 0x63,
        Key::Numpad4 => 0x64,
        Key::Numpad5 => 0x65,
        Key::Numpad6 => 0x66,
        Key::Numpad7 => 0x67,
        Key::Numpad8 => 0x68,
        Key::Numpad9 => 0x69,
        Key::Multiply => 0x6a,
        Key::Add => 0x6b,
        Key::Separator => 0x6c,
        Key::Subtract => 0x6d,
        Key::Decimal => 0x6e,
        Key::Divide => 0x6f,
        Key::F1 => 0x70,
        Key::F2 => 0x71,
        Key::F3 => 0x72,
        Key::F4 => 0x73,
        Key::F5 => 0x74,
        Key::F6 => 0x75,
        Key::F7 => 0x76,
        Key::F8 => 0x77,
        Key::F9 => 0x78,
        Key::F10 => 0x79,
        Key::F11 => 0x7a,
        Key::F12 => 0x7b,
        Key::F13 => 0x7c,
        Key::F14 => 0x7d,
        Key::F15 => 0x7e,
        Key::F16 => 0x7f,
        Key::F17 => 0x80,
        Key::F18 => 0x81,
        Key::F19 => 0x82,
        Key::F20 => 0x83,
        Key::F21 => 0x84,
        Key::F22 => 0x85,
        Key::F23 => 0x86,
        Key::F24 => 0x87,
        Key::Equal => 0xb0,
        Key::Minus => 0xb1,
        Key::ClosingBrace => 0xb2,
        Key::OpeningBrace => 0xb3,
        Key::Quote => 0xb4,
        Key::Semicolon => 0xb5,
        Key::Backslash => 0xb6,
        Key::Comma => 0xb7,
        Key::Slash => 0xb8,
        Key::Period => 0xb9,
        Key::Backquote => 0xba,
        Key::Enter => 0xbb,
        Key::NumpadEnter => 0xbc,
        Key::NumpadEqual => 0xbd,
    }
}

/// The key of a virtual-key code, if the code names a known key.
pub open spec fn key_of(code: u8) -> Option<Key> {
    match code {
        0x08 => Some(Key::Back),
        0x09 => Some(Key::Tab),
        0x0c => Some(Key::Clear),
        0x0d => Some(Key::Return),
        0x1b => Some(Key::Escape),
        0x20 => Some(Key::Space),
        0x21 => Some(Key::Prior),
        0x22 => Some(Key::Next),
        0x23 => Some(Key::End),
        0x24 => Some(Key::Home),
        0x25 => Some(Key::Left),
        0x26 => Some(Key::Up),
        0x27 => Some(Key::Right),
        0x28 => Some(Key::Down),
        0x29 => Some(Key::Select),
        0x2a => Some(Key::Print),
        0x2b => Some(Key::Execute),
        0x2c => Some(Key::Snapshot),
        0x2d => Some(Key::Insert),
        0x2e => Some(Key::Delete),
        0x2f => Some(Key::Help),
        0x30 => Some(Key::Key0),
        0x31 => Some(Key::Key1),
        0x32 => Some(Key::Key2),
        0x33 => Some(Key::Key3),
        0x34 => Some(Key::Key4),
        0x35 => Some(Key::Key5),
        0x36 => Some(Key::Key6),
        0x37 => Some(Key::Key7),
        0x38 => Some(Key::Key8),
        0x39 => Some(Key::Key9),
        0x41 => Some(Key::A),
        0x42 => Some(Key::B),
        0x43 => Some(Key::C),
        0x44 => Some(Key::D),
        0x45 => Some(Key::E),
        0x46 => Some(Key::F),
        0x47 => Some(Key::G),
        0x48 => Some(Key::H),
        0x49 => Some(Key::I),
        0x4a => Some(Key::J),
        0x4b => Some(Key::K),
        0x4c => Some(Key::L),
        0x4d => Some(Key::M),
        0x4e => Some(Key::N),
        0x4f => Some(Key::O),
        0x50 => Some(Key::P),
        0x51 => Some(Key::Q),
        0x52 => Some(Key::R),
        0x53 => Some(Key::S),
        0x54 => Some(Key::T),
        0x55 => Some(Key::U),
        0x56 => Some(Key::V),
        0x57 => Some(Key::W),
        0x58 => Some(Key::X),
        0x59 => Some(Key::Y),
        0x5a => Some(Key::Z),
        0x60 => Some(Key::Numpad0),
        0x61 => Some(Key::Numpad1),
        0x62 => Some(Key::Numpad2),
        0x63 => Some(Key::Numpad3),
        0x64 => Some(Key::Numpad4),
        0x65 => Some(Key::Numpad5),
        0x66 => Some(Key::Numpad6),
        0x67 => Some(Key::Numpad7),
        0x68 => Some(Key::Numpad8),
        0x69 => Some(Key::Numpad9),
        0x6a => Some(Key::Multiply),
        0x6b => Some(Key::Add),
        0x6c => Some(Key::Separator),
        0x6d => Some(Key::Subtract),
        0x6e => Some(Key::Decimal),
        0x6f => Some(Key::Divide),
        0x70 => Some(Key::F1),
        0x71 => Some(Key::F2),
        0x72 => Some(Key::F3),
        0x73 => Some(Key::F4),
        0x74 => Some(Key::F5),
        0x75 => Some(Key::F6),
        0x76 => Some(Key::F7),
        0x77 => Some(Key::F8),
        0x78 => Some(Key::F9),
        0x79 => Some(Key::F10),
        0x7a => Some(Key::F11),
        0x7b => Some(Key::F12),
        0x7c => Some(Key::F13),
        0x7d => Some(Key::F14),
        0x7e => Some(Key::F15),
        0x7f => Some(Key::F16),
        0x80 => Some(Key::F17),
        0x81 => Some(Key::F18),
        0x82 => Some(Key::F19),
        0x83 => Some(Key::F20),
        0x84 => Some(Key::F21),
        0x85 => Some(Key::F22),
        0x86 => Some(Key::F23),
        0x87 => Some(Key::F24),
        0xb0 => Some(Key::Equal),
        0xb1 => Some(Key::Minus),
        0xb2 => Some(Key::ClosingBrace),
        0xb3 => Some(Key::OpeningBrace),
        0xb4 => Some(Key::Quote),
        0xb5 => Some(Key::Semicolon),
        0xb6 => Some(Key::Backslash),
        0xb7 => Some(Key::Comma),
        0xb8 => Some(Key::Slash),
        0xb9 => Some(Key::Period),
        0xba => Some(Key::Backquote),
        0xbb => Some(Key::Enter),
        0xbc => Some(Key::NumpadEnter),
        0xbd => Some(Key::NumpadEqual),
        _ => None,
    }
}

/// Every key goes to its code and back, and every code that names a key is that key's code.
pub proof fn law_key_round_trip(k: Key, code: u8)
    ensures
        key_of(key_code(k)) == Some(k),
        key_of(code) matches Some(j) ==> key_code(j) == code,
{
}

/// A virtual-key code this library does not know.
#[derive(Debug, Clone, Copy, PartialEq, Eq, Structural)]
pub struct KeyUnmatchedError {
    /// The code the host gave
    pub code: u8,
}

impl Key {
    /// The key of a host virtual-key code; an unknown code is handed back in the error.
    pub fn try_from(code: u8) -> (r: Result<Key, KeyUnmatchedError>)
        ensures
            r matches Ok(k) ==> key_of(code) == Some(k),
            r matches Err(e) ==> key_of(code) is None && e.code == code,
    {
        match code {
            0x08 => Ok(Key::Back),
            0x09 => Ok(Key::Tab),
            0x0c => Ok(Key::Clear),
            0x0d => Ok(Key::Return),
            0x1b => Ok(Key::Escape),
            0x20 => Ok(Key::Space),
            0x21 => Ok(Key::Prior),
            0x22 => Ok(Key::Next),
            0x23 => Ok(Key::End),
            0x24 => Ok(Key::Home),
            0x25 => Ok(Key::Left),
            0x26 => Ok(Key::Up),
            0x27 => Ok(Key::Right),
            0x28 => Ok(Key::Down),
            0x29 => Ok(Key::Select),
            0x2a => Ok(Key::Print),
            0x2b => Ok(Key::Execute),
            0x2c => Ok(Key::Snapshot),
            0x2d => Ok(Key::Insert),
            0x2e => Ok(Key::Delete),
            0x2f => Ok(Key::Help),
            0x30 => Ok(Key::Key0),
            0x31 => Ok(Key::Key1),
            0x32 => Ok(Key::Key2),
            0x33 => Ok(Key::Key3),
            0x34 => Ok(Key::Key4),
            0x35 => Ok(Key::Key5),
            0x36 => Ok(Key::Key6),
            0x37 => Ok(Key::Key7),
            0x38 => Ok(Key::Key8),
            0x39 => Ok(Key::Key9),
            0x41 => Ok(Key::A),
            0x42 => Ok(Key::B),
            0x43 => Ok(Key::C),
            0x44 => Ok(Key::D),
            0x45 => Ok(Key::E),
            0x46 => Ok(Key::F),
            0x47 => Ok(Key::G),
            0x48 => Ok(Key::H),
            0x49 => Ok(Key::I),
            0x4a => Ok(Key::J),
            0x4b => Ok(Key::K),
            0x4c => Ok(Key::L),
            0x4d => Ok(Key::M),
            0x4e => Ok(Key::N),
            0x4f => Ok(Key::O),
            0x50 => Ok(Key::P),
            0x51 => Ok(Key::Q),
            0x52 => Ok(Key::R),
            0x53 => Ok(Key::S),
            0x54 => Ok(Key::T),
            0x55 => Ok(Key::U),
            0x56 => Ok(Key::V),
            0x57 => Ok(Key::W),
            0x58 => Ok(Key::X),
            0x59 => Ok(Key::Y),
            0x5a => Ok(Key::Z),
            0x60 => Ok(Key::Numpad0),
            0x61 => Ok(Key::Numpad1),
            0x62 => Ok(Key::Numpad2),
            0x63 => Ok(Key::Numpad3),
            0x64 => Ok(Key::Numpad4),
            0x65 => Ok(Key::Numpad5),
            0x66 => Ok(Key::Numpad6),
            0x67 => Ok(Key::Numpad7),
            0x68 => Ok(Key::Numpad8),
            0x69 => Ok(Key::Numpad9),
            0x6a => Ok(Key::Multiply),
            0x6b => Ok(Key::Add),
            0x6c => Ok(Key::Separator),
            0x6d => Ok(Key::Subtract),
            0x6e => Ok(Key::Decimal),
            0x6f => Ok(Key::Divide),
            0x70 => Ok(Key::F1),
            0x71 => Ok(Key::F2),
            0x72 => Ok(Key::F3),
            0x73 => Ok(Key::F4),
            0x74 => Ok(Key::F5),
            0x75 => Ok(Key::F6),
            0x76 => Ok(Key::F7),
            0x77 => Ok(Key::F8),
            0x78 => Ok(Key::F9),
            0x79 => Ok(Key::F10),
            0x7a => Ok(Key::F11),
            0x7b => Ok(Key::F12),
            0x7c => Ok(Key::F13),
            0x7d => Ok(Key::F14),
            0x7e => Ok(Key::F15),
            0x7f => Ok(Key::F16),
            0x80 => Ok(Key::F17),
            0x81 => Ok(Key::F18),
            0x82 => Ok(Key::F19),
            0x83 => Ok(Key::F20),
            0x84 => Ok(Key::F21),
            0x85 => Ok(Key::F22),
            0x86 => Ok(Key::F23),
            0x87 => Ok(Key::F24),
            0xb0 => Ok(Key::Equal),
            0xb1 => Ok(Key::Minus),
            0xb2 => Ok(Key::ClosingBrace),
            0xb3 => Ok(Key::OpeningBrace),
            0xb4 => Ok(Key::Quote),
            0xb5 => Ok(Key::Semicolon),
            0xb6 => Ok(Key::Backslash),
            0xb7 => Ok(Key::Comma),
            0xb8 => Ok(Key::Slash),
            0xb9 => Ok(Key::Period),
            0xba => Ok(Key::Backquote),
            0xbb => Ok(Key::Enter),
            0xbc => Ok(Key::NumpadEnter),
            0xbd => Ok(Key::NumpadEqual),
            _ => Err(KeyUnmatchedError { code }),
        }
    }

    /// The host's virtual-key code of this key.
    pub fn code(self) -> (r: u8)
        ensures
            r == key_code(self),
    {
        match self {
            Key::Back => 0x08,
            Key::Tab => 0x09,
            Key::Clear => 0x0c,
            Key::Return => 0x0d,
            Key::Escape => 0x1b,
            Key::Space => 0x20,
            Key::Prior => 0x21,
            Key::Next => 0x22,
            Key::End => 0x23,
            Key::Home => 0x24,
            Key::Left => 0x25,
            Key::Up => 0x26,
            Key::Right => 0x27,
            Key::Down => 0x28,
            Key::Select => 0x29,
            Key::Print => 0x2a,
            Key::Execute => 0x2b,
            Key::Snapshot => 0x2c,
            Key::Insert => 0x2d,
            Key::Delete => 0x2e,
            Key::Help => 0x2f,
            Key::Key0 => 0x30,
            Key::Key1 => 0x31,
            Key::Key2 => 0x32,
            Key::Key3 => 0x33,
            Key::Key4 => 0x34,
            Key::Key5 => 0x35,
            Key::Key6 => 0x36,
            Key::Key7 => 0x37,
            Key::Key8 => 0x38,
            Key::Key9 => 0x39,
            Key::A => 0x41,
            Key::B => 0x42,
            Key::C => 0x43,
            Key::D => 0x44,
            Key::E => 0x45,
            Key::F => 0x46,
            Key::G => 0x47,
            Key::H => 0x48,
            Key::I => 0x49,
            Key::J => 0x4a,
            Key::K => 0x4b,
            Key::L => 0x4c,
            Key::M => 0x4d,
            Key::N => 0x4e,
            Key::O => 0x4f,
            Key::P => 0x50,
            Key::Q => 0x51,
            Key::R => 0x52,
            Key::S => 0x53,
            Key::T => 0x54,
            Key::U => 0x55,
            Key::V => 0x56,
            Key::W => 0x57,
            Key::X => 0x58,
            Key::Y => 0x59,
            Key::Z => 0x5a,
            Key::Numpad0 => 0x60,
            Key::Numpad1 => 0x61,
            Key::Numpad2 => 0x62,
            Key::Numpad3 => 0x63,
            Key::Numpad4 => 0x64,
            Key::Numpad5 => 0x65,
            Key::Numpad6 => 0x66,
            Key::Numpad7 => 0x67,
            Key::Numpad8 => 0x68,
            Key::Numpad9 => 0x69,
            Key::Multiply => 0x6a,
            Key::Add => 0x6b,
            Key::Separator => 0x6c,
            Key::Subtract => 0x6d,
            Key::Decimal => 0x6e,
            Key::Divide => 0x6f,
            Key::F1 => 0x70,
            Key::F2 => 0x71,
            Key::F3 => 0x72,
            Key::F4 => 0x73,
            Key::F5 => 0x74,
            Key::F6 => 0x75,
            Key::F7 => 0x76,
            Key::F8 => 0x77,
            Key::F9 => 0x78,
            Key::F10 => 0x79,
            Key::F11 => 0x7a,
            Key::F12 => 0x7b,
            Key::F13 => 0x7c,
            Key::F14 => 0x7d,
            Key::F15 => 0x7e,
            Key::F16 => 0x7f,
            Key::F17 => 0x80,
            Key::F18 => 0x81,
            Key::F19 => 0x82,
            Key::F20 => 0x83,
            Key::F21 => 0x84,
            Key::F22 => 0x85,
            Key::F23 => 0x86,
            Key::F24 => 0x87,
            Key::Equal => 0xb0,
            Key::Minus => 0xb1,
            Key::ClosingBrace => 0xb2,
            Key::OpeningBrace => 0xb3,
            Key::Quote => 0xb4,
            Key::Semicolon => 0xb5,
            Key::Backslash => 0xb6,
            Key::Comma => 0xb7,
            Key::Slash => 0xb8,
            Key::Period => 0xb9,
            Key::Backquote => 0xba,
            Key::Enter => 0xbb,
            Key::NumpadEnter => 0xbc,
            Key::NumpadEqual => 0xbd,
        }
    }
}

/// Key actions
#[derive(Debug, Clone, Copy, PartialEq, Eq, Structural)]
pub enum KeyAction {
    /// The key was pressed down
    Press,
    /// The key was released
    Release,
}

/// Bits of the host's key flags.
pub const KEY_SHIFT: u32 = 1;
/// The option/alt key was held
pub const KEY_OPTION_ALT: u32 = 2;
/// The control key was held
pub const KEY_CONTROL: u32 = 4;
/// The key went down
pub const KEY_DOWN: u32 = 8;
/// The key went up
pub const KEY_UP: u32 = 16;

/// True when `flags` has the bit `bit` set.
pub open spec fn has_flag(flags: u32, bit: u32) -> bool {
    flags & bit != 0
}

/// The character of a key code byte, for printable ASCII, space and tab.
pub open spec fn basic_char_of(key: u8) -> Option<char> {
    if key == 9 || (32 <= key && key <= 126) {
        Some(key as char)
    } else {
        None
    }
}

/// True when the host's flags and virtual-key code make a key event.
pub open spec fn key_event_valid(flags: u32, virtual_key: u8) -> bool {
    (has_flag(flags, KEY_DOWN) || has_flag(flags, KEY_UP)) && key_of(virtual_key) is Some
}

/// An event associated with a key press
#[derive(Debug, Clone, Copy, PartialEq, Eq, Structural)]
pub struct KeyEvent {
    /// A character representing the key
    basic_char: Option<char>,
    /// The key
    key: Key,
    /// The action
    action: KeyAction,
    /// If the control key was pressed
    control_pressed: bool,
    /// If the option/alt key was pressed
    alt_pressed: bool,
    /// If the shift key was pressed
    shift_pressed: bool,
}

/// Key event creation error
#[derive(Debug, Clone, Copy, PartialEq, Eq, Structural)]
pub enum KeyEventError {
    /// The flags say neither down nor up
    InvalidFlags { flags: u32 },
    /// The virtual-key code names no known key
    InvalidKey { key: u8 },
}

impl KeyEvent {
    pub closed spec fn spec_char(&self) -> Option<char> {
        self.basic_char
    }

    pub closed spec fn spec_key(&self) -> Key {
        self.key
    }

    pub closed spec fn spec_action(&self) -> KeyAction {
        self.action
    }

    pub closed spec fn spec_control(&self) -> bool {
        self.control_pressed
    }

    pub closed spec fn spec_option(&self) -> bool {
        self.alt_pressed
    }

    pub closed spec fn spec_shift(&self) -> bool {
        self.shift_pressed
    }

    /// Creates a key event from the host's key byte, flags and virtual-key code. The down
    /// flag wins over the up flag; with neither, or with an unknown virtual key, the event
    /// is refused.
    pub fn from_xplm(key: u8, flags: u32, virtual_key: u8) -> (r: Result<KeyEvent, KeyEventError>)
        ensures
            r is Ok <==> key_event_valid(flags, virtual_key),
            !has_flag(flags, KEY_DOWN) && !has_flag(flags, KEY_UP) ==> r == Err::<
                KeyEvent,
                KeyEventError,
            >(KeyEventError::InvalidFlags { flags }),
            (has_flag(flags, KEY_DOWN) || has_flag(flags, KEY_UP)) && key_of(virtual_key) is None
                ==> r == Err::<KeyEvent, KeyEventError>(
                KeyEventError::InvalidKey { key: virtual_key },
            ),
            r matches Ok(e) ==> {
                &&& key_of(virtual_key) == Some(e.spec_key())
                &&& e.spec_char() == basic_char_of(key)
                &&& e.spec_action() == (if has_flag(flags, KEY_DOWN) {
                    KeyAction::Press
                } else {
                    KeyAction::Release
                })
                &&& (has_flag(flags, KEY_DOWN) || has_flag(flags, KEY_UP))
                &&& e.spec_control() == has_flag(flags, KEY_CONTROL)
                &&& e.spec_option() == has_flag(flags, KEY_OPTION_ALT)
                &&& e.spec_shift() == has_flag(flags, KEY_SHIFT)
            },
    {
        let basic_char = if key == 9u8 || (32u8 <= key && key <= 126u8) {
            Some(key as char)
        } else {
            None
        };
        let action = if flags & KEY_DOWN != 0 {
            KeyAction::Press
        } else if flags & KEY_UP != 0 {
            KeyAction::Release
        } else {
            return Err(KeyEventError::InvalidFlags { flags });
        };
        let key = match Key::try_from(virtual_key) {
            Ok(k) => k,
            Err(_) => {
                return Err(KeyEventError::InvalidKey { key: virtual_key });
            },
        };
        Ok(KeyEvent {
            basic_char,
            key,
            action,
            control_pressed: flags & KEY_CONTROL != 0,
            alt_pressed: flags & KEY_OPTION_ALT != 0,
            shift_pressed: flags & KEY_SHIFT != 0,
        })
    }

    /// Returns the character corresponding to the key associated with this event, if one
    /// exists
    pub fn char(&self) -> (r: Option<char>)
        ensures
            r == self.spec_char(),
    {
        self.basic_char
    }

    /// Returns the key associated with this event
    pub fn key(&self) -> (r: Key)
        ensures
            r == self.spec_key(),
    {
        self.key
    }

    /// Returns true if the control key was held down when the action occurred
    pub fn control_pressed(&self) -> (r: bool)
        ensures
            r == self.spec_control(),
    {
        self.control_pressed
    }

    /// Returns true if the option/alt key was held down when the action occurred
    pub fn option_pressed(&self) -> (r: bool)
        ensures
            r == self.spec_option(),
    {
        self.alt_pressed
    }

    /// Returns true if a shift key was held down when the action occurred
    pub fn shift_pressed(&self) -> (r: bool)
        ensures
            r == self.spec_shift(),
    {
        self.shift_pressed
    }

    /// Returns the key action that occurred
    pub fn action(&self) -> (r: KeyAction)
        ensures
            r == self.spec_action(),
    {
        self.action
    }
}

/// Actions that the mouse/cursor can perform
#[derive(Debug, Clone, Copy, PartialEq, Eq, Structural)]
pub enum MouseAction {
    /// The user pressed the mouse button down
    Down,
    /// The user moved the mouse with the mouse button down
    Drag,
    /// The user released the mouse button
    Up,
}

/// The host's mouse-status code of each action.
pub open spec fn mouse_code(a: MouseAction) -> i32 {
    match a {
        MouseAction::Down => 1,
        MouseAction::Drag => 2,
        MouseAction::Up => 3,
    }
}

impl MouseAction {
    /// The action of a host mouse-status code; an unknown code is handed back.
    pub fn try_from(value: i32) -> (r: Result<MouseAction, i32>)
        ensures
            r matches Ok(a) ==> mouse_of(value) == Some(a),
            r is Err <==> mouse_of(value) is None,
            r matches Err(c) ==> c == value,
    {
        match value {
            1 => Ok(MouseAction::Down),
            2 => Ok(MouseAction::Drag),
            3 => Ok(MouseAction::Up),
            _ => Err(value),
        }
    }

    /// The host's mouse-status code of this action.
    pub fn code(self) -> (r: i32)
        ensures
            r == mouse_code(self),
    {
        match self {
            MouseAction::Down => 1,
            MouseAction::Drag => 2,
            MouseAction::Up => 3,
        }
    }
}

/// The mouse action of a host mouse-status code, if it names one.
pub open spec fn mouse_of(code: i32) -> Option<MouseAction> {
    if code == 1 {
        Some(MouseAction::Down)
    } else if code == 2 {
        Some(MouseAction::Drag)
    } else if code == 3 {
        Some(MouseAction::Up)
    } else {
        None
    }
}

/// Every mouse action goes to its code and back, and every code that names an action is
/// that action's code.
pub proof fn law_mouse_round_trip(a: MouseAction, code: i32)
    ensures
        mouse_of(mouse_code(a)) == Some(a),
        mouse_of(code) matches Some(b) ==> mouse_code(b) == code,
{
}

/// A mouse event
#[derive(Debug, Clone, Copy, PartialEq, Eq, Structural)]
pub struct MouseEvent {
    /// The position of the mouse, in global window coordinates
    pub position: Point,
    /// The action of the mouse
    pub action: MouseAction,
}

impl MouseEvent {
    /// Creates a new event
    pub fn new(position: Point, action: MouseAction) -> (r: MouseEvent)
        ensures
            r.position == position && r.action == action,
    {
        MouseEvent { position, action }
    }

    /// Returns the position of the mouse
    pub fn position(&self) -> (r: Point)
        ensures
            r == self.position,
    {
        self.position
    }

    /// Returns the action that the user performed with the mouse
    pub fn action(&self) -> (r: MouseAction)
        ensures
            r == self.action,
    {
        self.action
    }
}

/// A scroll event
#[derive(Debug, Clone, Copy, PartialEq, Eq, Structural)]
pub struct ScrollEvent {
    /// The position of the mouse, in global window coordinates
    pub position: Point,
    /// The amount of scroll in the X direction
    pub scroll_x: i32,
    /// The amount of scroll in the Y direction
    pub scroll_y: i32,
}

impl ScrollEvent {
    /// Creates a new event
    pub fn new(position: Point, scroll_x: i32, scroll_y: i32) -> (r: ScrollEvent)
        ensures
            r.position == position && r.scroll_x == scroll_x && r.scroll_y == scroll_y,
    {
        ScrollEvent { position, scroll_x, scroll_y }
    }

    /// The event of the host's wheel callback: wheel 1 scrolls horizontally, any other wheel
    /// vertically, by `clicks`.
    pub fn from_wheel(position: Point, wheel: i32, clicks: i32) -> (r: ScrollEvent)
        ensures
            r.position == position,
            wheel == 1 ==> r.scroll_x == clicks && r.scroll_y == 0,
            wheel != 1 ==> r.scroll_x == 0 && r.scroll_y == clicks,
    {
        if wheel == 1 {
            ScrollEvent::new(position, clicks, 0)
        } else {
            ScrollEvent::new(position, 0, clicks)
        }
    }

    /// Returns the position of the mouse
    pub fn position(&self) -> (r: Point)
        ensures
            r == self.position,
    {
        self.position
    }

    /// Returns the amount of scroll in the X direction
    pub fn scroll_x(&self) -> (r: i32)
        ensures
            r == self.scroll_x,
    {
        self.scroll_x
    }

    /// Returns the amount of scroll in the Y direction
    pub fn scroll_y(&self) -> (r: i32)
        ensures
            r == self.scroll_y,
    {
        self.scroll_y
    }
}

/// Cursor states that windows can apply
#[derive(Debug, Clone, Copy, PartialEq, Eq, Structural)]
pub enum Cursor {
    /// The host draws the default cursor
    Default,
    /// The host draws an arrow cursor (not any other cursor type)
    Arrow,
    /// The host hides the cursor. The plugin should draw its own cursor.
    Hide,
}

/// The host's cursor-status code of each cursor.
pub open spec fn cursor_code(c: Cursor) -> i32 {
    match c {
        Cursor::Default => 0,
        Cursor::Hide => 1,
        Cursor::Arrow => 2,
    }
}

impl Cursor {
    /// The host's cursor-status code of this cursor.
    pub fn code(self) -> (r: i32)
        ensures
            r == cursor_code(self),
    {
        match self {
            Cursor::Default => 0,
            Cursor::Hide => 1,
            Cursor::Arrow => 2,
        }
    }
}

/// The number the host receives from a mouse or scroll handler: 1 when the event is
/// consumed, 0 when it should propagate.
pub open spec fn spec_propagation_code(propagate: bool) -> i32 {
    if propagate {
        0
    } else {
        1
    }
}

/// The number the host receives from a mouse or scroll handler.
pub fn propagation_code(propagate: bool) -> (r: i32)
    ensures
        r == spec_propagation_code(propagate),
{
    if propagate {
        0
    } else {
        1
    }
}

/// Trait for things that can define the behavior of a window. Each method receives the
/// host's id of the window.
pub trait WindowDelegate {
    /// Draws this window.
    fn draw(&mut self, window: u64);
    /// Handles a keyboard event
    fn keyboard_event(&mut self, window: u64, event: KeyEvent);
    /// Handles a mouse event. Return false to consume the event or true to propagate it.
    fn mouse_event(&mut self, window: u64, event: MouseEvent) -> bool;
    /// Handles a scroll event. Return false to consume the event or true to propagate it.
    fn scroll_event(&mut self, window: u64, event: ScrollEvent) -> bool;
    /// Tells the host what cursor to draw over a section of the window
    fn cursor(&mut self, window: u64, position: Point) -> Cursor;
}

/// The trampoline's work for a key callback: a key event goes to the delegate unless the
/// window is losing focus. An event the host encodes wrongly is returned, not delivered.
pub fn window_key<D: WindowDelegate>(
    delegate: &mut D,
    window: u64,
    key: u8,
    flags: u32,
    virtual_key: u8,
    losing_focus: bool,
) -> (r: Result<(), KeyEventError>)
    ensures
        losing_focus ==> r is Ok,
        !losing_focus ==> (r is Err <==> !key_event_valid(flags, virtual_key)),
{
    if losing_focus {
        return Ok(());
    }
    match KeyEvent::from_xplm(key, flags, virtual_key) {
        Ok(event) => {
            delegate.keyboard_event(window, event);
            Ok(())
        },
        Err(e) => Err(e),
    }
}

/// The trampoline's work for a mouse callback: a known action goes to the delegate, whose
/// answer is encoded for the host; an unknown status propagates.
pub fn window_mouse<D: WindowDelegate>(delegate: &mut D, window: u64, x: i32, y: i32, status: i32) -> (r:
    i32)
    ensures
        !(1 <= status <= 3) ==> r == 0,
        r == 0 || r == 1,
{
    match MouseAction::try_from(status) {
        Ok(action) => {
            let event = MouseEvent::new(Point { x, y }, action);
            let propagate = delegate.mouse_event(window, event);
            propagation_code(propagate)
        },
        Err(_) => 0,
    }
}

/// The trampoline's work for a wheel callback.
pub fn window_scroll<D: WindowDelegate>(
    delegate: &mut D,
    window: u64,
    x: i32,
    y: i32,
    wheel: i32,
    clicks: i32,
) -> (r: i32)
    ensures
        r == 0 || r == 1,
{
    let event = ScrollEvent::from_wheel(Point { x, y }, wheel, clicks);
    let propagate = delegate.scroll_event(window, event);
    propagation_code(propagate)
}

/// The trampoline's work for a cursor callback: the delegate's cursor, as the host's code.
pub fn window_cursor<D: WindowDelegate>(delegate: &mut D, window: u64, x: i32, y: i32) -> (r: i32)
    ensures
        0 <= r <= 2,
{
    delegate.cursor(window, Point { x, y }).code()
}

/// A window registered with the host: its delegate, known by the host's window id.
pub struct Window<D> {
    block: ContextBlock<D, ()>,
}

impl<D: WindowDelegate> Window<D> {
    pub closed spec fn block(&self) -> ContextBlock<D, ()> {
        self.block
    }

    /// Allocates a window around `delegate`, before the host creates it.
    pub fn new(delegate: D) -> (r: Self)
        ensures
            r.block().wf(),
            r.block().stage() == Stage::Allocated,
            r.block().history() == seq![LifeEvent::Allocate],
    {
        Window { block: ContextBlock::new(delegate, ()) }
    }

    /// Records the id under which the host created the window.
    pub fn bind(&mut self, id: HostId)
        requires
            old(self).block().wf(),
            old(self).block().stage() == Stage::Allocated,
        ensures
            final(self).block().wf(),
            final(self).block().stage() == Stage::Registered,
            final(self).block().spec_host_id() == Some(id),
            final(self).block().spec_active(),
            final(self).block().outcome() == Some(id),
            final(self).block().history() == old(self).block().history().push(
                LifeEvent::Register(id),
            ),
    {
        let _ = self.block.bind(Some(id));
    }

    /// The host's id of the window.
    pub fn id(&self) -> (r: HostId)
        requires
            self.block().wf(),
            self.block().stage() == Stage::Registered,
        ensures
            Some(r) == self.block().spec_host_id(),
    {
        match self.block.host_id() {
            Some(id) => id,
            None => 0,
        }
    }

    /// The trampoline's work for a draw callback.
    pub fn draw(&mut self)
        requires
            old(self).block().wf(),
            old(self).block().stage() == Stage::Registered,
        ensures
            final(self).block().wf(),
            final(self).block().stage() == Stage::Registered,
            final(self).block().spec_host_id() == old(self).block().spec_host_id(),
            final(self).block().history() == old(self).block().history().push(
                LifeEvent::Invoke(false),
            ),
            final(self).block().spec_active() == old(self).block().spec_active(),
            final(self).block().outcome() == old(self).block().outcome(),
    {
        let id = self.id();
        let (delegate, _) = self.block.parts_mut();
        delegate.draw(id);
        self.block.record_invocation(false);
    }

    /// The trampoline's work for a key callback.
    pub fn key(&mut self, key: u8, flags: u32, virtual_key: u8, losing_focus: bool) -> (r: Result<
        (),
        KeyEventError,
    >)
        requires
            old(self).block().wf(),
            old(self).block().stage() == Stage::Registered,
        ensures
            final(self).block().wf(),
            final(self).block().stage() == Stage::Registered,
            final(self).block().spec_host_id() == old(self).block().spec_host_id(),
            final(self).block().history() == old(self).block().history().push(
                LifeEvent::Invoke(false),
            ),
            final(self).block().spec_active() == old(self).block().spec_active(),
            final(self).block().outcome() == old(self).block().outcome(),
            losing_focus ==> r is Ok,
            !losing_focus ==> (r is Err <==> !key_event_valid(flags, virtual_key)),
    {
        let id = self.id();
        let (delegate, _) = self.block.parts_mut();
        let r = window_key(delegate, id, key, flags, virtual_key, losing_focus);
        self.block.record_invocation(false);
        r
    }

    /// The trampoline's work for a mouse callback: the number the host receives.
    pub fn mouse(&mut self, x: i32, y: i32, status: i32) -> (r: i32)
        requires
            old(self).block().wf(),
            old(self).block().stage() == Stage::Registered,
        ensures
            final(self).block().wf(),
            final(self).block().stage() == Stage::Registered,
            final(self).block().spec_host_id() == old(self).block().spec_host_id(),
            final(self).block().history() == old(self).block().history().push(
                LifeEvent::Invoke(false),
            ),
            final(self).block().spec_active() == old(self).block().spec_active(),
            final(self).block().outcome() == old(self).block().outcome(),
            !(1 <= status <= 3) ==> r == 0,
            r == 0 || r == 1,
    {
        let id = self.id();
        let (delegate, _) = self.block.parts_mut();
        let r = window_mouse(delegate, id, x, y, status);
        self.block.record_invocation(false);
        r
    }

    /// The trampoline's work for a wheel callback: the number the host receives.
    pub fn scroll(&mut self, x: i32, y: i32, wheel: i32, clicks: i32) -> (r: i32)
        requires
            old(self).block().wf(),
            old(self).block().stage() == Stage::Registered,
        ensures
            final(self).block().wf(),
            final(self).block().stage() == Stage::Registered,
            final(self).block().spec_host_id() == old(self).block().spec_host_id(),
            final(self).block().history() == old(self).block().history().push(
                LifeEvent::Invoke(false),
            ),
            final(self).block().spec_active() == old(self).block().spec_active(),
            final(self).block().outcome() == old(self).block().outcome(),
            r == 0 || r == 1,
    {
        let id = self.id();
        let (delegate, _) = self.block.parts_mut();
        let r = window_scroll(delegate, id, x, y, wheel, clicks);
        self.block.record_invocation(false);
        r
    }

    /// The trampoline's work for a cursor callback: the host's cursor code.
    pub fn cursor(&mut self, x: i32, y: i32) -> (r: i32)
        requires
            old(self).block().wf(),
            old(self).block().stage() == Stage::Registered,
        ensures
            final(self).block().wf(),
            final(self).block().stage() == Stage::Registered,
            final(self).block().spec_host_id() == old(self).block().spec_host_id(),
            final(self).block().history() == old(self).block().history().push(
                LifeEvent::Invoke(false),
            ),
            final(self).block().spec_active() == old(self).block().spec_active(),
            final(self).block().outcome() == old(self).block().outcome(),
            0 <= r <= 2,
    {
        let id = self.id();
        let (delegate, _) = self.block.parts_mut();
        let r = window_cursor(delegate, id, x, y);
        self.block.record_invocation(false);
        r
    }

    /// Begins the teardown: the window the host must destroy before the delegate is
    /// released.
    pub fn detach(&mut self) -> (r: Option<HostId>)
        requires
            old(self).block().wf(),
            old(self).block().stage() == Stage::Registered,
        ensures
            final(self).block().wf(),
            final(self).block().stage() == Stage::Detached,
            r == (if old(self).block().spec_active() {
                old(self).block().spec_host_id()
            } else {
                None
            }),
    {
        self.block.detach()
    }

    /// Frees the window's delegate, and returns the window's complete history.
    pub fn release(self) -> (history: Ghost<Seq<LifeEvent>>)
        requires
            self.block().wf(),
            self.block().stage() == Stage::Detached,
        ensures
            history@ == self.block().history().push(LifeEvent::Release),
            history@ == crate::registry::lifecycle(self.block().outcome(), self.block().finals()),
    {
        self.block.release()
    }
}

} // verus!
