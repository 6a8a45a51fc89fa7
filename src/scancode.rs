//! Translation of input bytes to HID keyboard usages.
//!
//! A byte below 128 is an ASCII character, looked up in a fixed US layout
//! table; 128 to 135 select one of the eight modifier bits; 136 and above
//! stand for the non-printing key with usage `code - 136`.
use vstd::prelude::*;

verus! {

/// What an input byte stands for.
#[derive(Clone, Copy, Debug, PartialEq, Eq, Structural)]
pub enum KeyCode {
    /// A modifier, given by its bit index in the modifier byte (0 to 7).
    Modifier(u8),
    /// A key: its scancode, and whether shift must be held with it.
    Key(u8, bool),
}

/// The US layout: scancode and shift requirement of an ASCII character.
/// Characters without a key (most control codes) give scancode 0.
pub open spec fn ascii_key(c: u8) -> (u8, bool)
    recommends
        c < 128,
{
    if 65 <= c && c <= 90 {
        // 'A' to 'Z': the letter's key with shift
        ((c - 61) as u8, true)
    } else if 97 <= c && c <= 122 {
        // 'a' to 'z'
        ((c - 93) as u8, false)
    } else if 49 <= c && c <= 57 {
        // '1' to '9'
        ((c - 19) as u8, false)
    } else {
        match c {
            8 => (0x2a, false),  // backspace
            9 => (0x2b, false),  // tab
            10 => (0x28, false),  // line feed: enter
            32 => (0x2c, false),  // ' '
            33 => (0x1e, true),  // !
            34 => (0x34, true),  // "
            35 => (0x20, true),  // #
            36 => (0x21, true),  // $
            37 => (0x22, true),  // %
            38 => (0x24, true),  // &
            39 => (0x34, false),  // '
            40 => (0x26, true),  // (
            41 => (0x27, true),  // )
            42 => (0x25, true),  // *
            43 => (0x2e, true),  // +
            44 => (0x36, false),  // ,
            45 => (0x2d, false),  // -
            46 => (0x37, false),  // .
            47 => (0x38, false),  // /
            48 => (0x27, false),  // 0
            58 => (0x33, true),  // :
            59 => (0x33, false),  // ;
            60 => (0x36, true),  // <
            61 => (0x2e, false),  // =
            62 => (0x37, true),  // >
            63 => (0x38, true),  // ?
            64 => (0x1f, true),  // @
            91 => (0x2f, false),  // [
            92 => (0x31, false),  // backslash
            93 => (0x30, false),  // ]
            94 => (0x23, true),  // ^
            95 => (0x2d, true),  // _
            96 => (0x35, false),  // `
            123 => (0x2f, true),  // {
            124 => (0x31, true),  // |
            125 => (0x30, true),  // }
            126 => (0x35, true),  // ~
            _ => (0, false),
        }
    }
}

/// The classification of an input byte.
pub open spec fn key_code(code: u8) -> KeyCode {
    if code >= 136 {
        KeyCode::Key((code - 136) as u8, false)
    } else if code >= 128 {
        KeyCode::Modifier((code - 128) as u8)
    } else {
        KeyCode::Key(ascii_key(code).0, ascii_key(code).1)
    }
}

/// Looks up an ASCII character in the layout table.
pub fn lookup_ascii(c: u8) -> (r: (u8, bool))
    requires
        c < 128,
    ensures
        r == ascii_key(c),
{
    if 65 <= c && c <= 90 {
        // 'A' to 'Z': the letter's key with shift
        ((c - 61), true)
    } else if 97 <= c && c <= 122 {
        // 'a' to 'z'
        ((c - 93), false)
    } else if 49 <= c && c <= 57 {
        // '1' to '9'
        ((c - 19), false)
    } else {
        match c {
            8 => (0x2a, false),  // backspace
            9 => (0x2b, false),  // tab
            10 => (0x28, false),  // line feed: enter
            32 => (0x2c, false),  // ' '
            33 => (0x1e, true),  // !
            34 => (0x34, true),  // "
            35 => (0x20, true),  // #
            36 => (0x21, true),  // $
            37 => (0x22, true),  // %
            38 => (0x24, true),  // &
            39 => (0x34, false),  // '
            40 => (0x26, true),  // (
            41 => (0x27, true),  // )
            42 => (0x25, true),  // *
            43 => (0x2e, true),  // +
            44 => (0x36, false),  // ,
            45 => (0x2d, false),  // -
            46 => (0x37, false),  // .
            47 => (0x38, false),  // /
            48 => (0x27, false),  // 0
            58 => (0x33, true),  // :
            59 => (0x33, false),  // ;
            60 => (0x36, true),  // <
            61 => (0x2e, false),  // =
            62 => (0x37, true),  // >
            63 => (0x38, true),  // ?
            64 => (0x1f, true),  // @
            91 => (0x2f, false),  // [
            92 => (0x31, false),  // backslash
            93 => (0x30, false),  // ]
            94 => (0x23, true),  // ^
            95 => (0x2d, true),  // _
            96 => (0x35, false),  // `
            123 => (0x2f, true),  // {
            124 => (0x31, true),  // |
            125 => (0x30, true),  // }
            126 => (0x35, true),  // ~
            _ => (0, false),
        }
    }
}

/// Classifies an input byte as a modifier selector or a key.
pub fn classify(code: u8) -> (r: KeyCode)
    ensures
        r == key_code(code),
        r matches KeyCode::Modifier(b) ==> b < 8,
{
    if code >= 136 {
        KeyCode::Key(code - 136, false)
    } else if code >= 128 {
        KeyCode::Modifier(code - 128)
    } else {
        let (k, shift) = lookup_ascii(code);
        KeyCode::Key(k, shift)
    }
}

} // verus!
