//! The key encoder: from a logical key press to the bytes a shell expects.

use vstd::prelude::*;
use vstd::utf8::encode_scalar;

verus! {

/// A logical key, independent of any input backend.
#[derive(Debug, Clone, Copy, PartialEq, Eq, Structural)]
pub enum KeyCode {
    Backspace,
    Enter,
    Left,
    Right,
    Up,
    Down,
    Home,
    End,
    PageUp,
    PageDown,
    Tab,
    BackTab,
    Delete,
    Insert,
    /// A function key, by its number.
    F(u8),
    /// A character key.
    Char(char),
    Null,
    Esc,
    /// Any key that has no meaning to the editor or to a shell
    /// (lock keys, media keys, bare modifier keys).
    Other,
}

/// The set of modifier keys held during a key press.
#[derive(Debug, Clone, Copy, PartialEq, Eq, Structural)]
pub struct KeyModifiers {
    pub shift: bool,
    pub control: bool,
    pub alt: bool,
    pub super_key: bool,
    pub hyper: bool,
    pub meta: bool,
}

impl KeyModifiers {
    /// The empty modifier set.
    pub open spec fn spec_none() -> KeyModifiers {
        KeyModifiers {
            shift: false,
            control: false,
            alt: false,
            super_key: false,
            hyper: false,
            meta: false,
        }
    }

    /// No modifier held.
    #[verifier::when_used_as_spec(spec_none)]
    pub fn none() -> (m: KeyModifiers)
        ensures
            m == Self::spec_none(),
    {
        KeyModifiers {
            shift: false,
            control: false,
            alt: false,
            super_key: false,
            hyper: false,
            meta: false,
        }
    }

    /// Control alone.
    pub fn ctrl() -> (m: KeyModifiers)
        ensures
            m == (KeyModifiers { control: true, ..Self::spec_none() }),
    {
        KeyModifiers {
            shift: false,
            control: true,
            alt: false,
            super_key: false,
            hyper: false,
            meta: false,
        }
    }

    /// Alt alone.
    pub fn alt() -> (m: KeyModifiers)
        ensures
            m == (KeyModifiers { alt: true, ..Self::spec_none() }),
    {
        KeyModifiers {
            shift: false,
            control: false,
            alt: true,
            super_key: false,
            hyper: false,
            meta: false,
        }
    }

    /// Shift alone.
    pub fn shift() -> (m: KeyModifiers)
        ensures
            m == (KeyModifiers { shift: true, ..Self::spec_none() }),
    {
        KeyModifiers {
            shift: true,
            control: false,
            alt: false,
            super_key: false,
            hyper: false,
            meta: false,
        }
    }
}

/// The escape byte that opens every multi-byte key sequence.
pub const ESC: u8 = 0x1b;

/// Whether `c` is one of the 52 ASCII letters.
pub open spec fn is_ascii_letter(c: char) -> bool {
    ('a' <= c && c <= 'z') || ('A' <= c && c <= 'Z')
}

/// The control byte of an ASCII letter: 1 for `a` or `A`, up to 26 for `z` or `Z`.
pub open spec fn control_byte(c: char) -> u8
    recommends
        is_ascii_letter(c),
{
    if 'a' <= c && c <= 'z' {
        (c as u32 - 0x61 + 1) as u8
    } else {
        (c as u32 - 0x41 + 1) as u8
    }
}

/// The bytes sent for a character key.
///
/// Control with a letter gives the letter's control byte, and wins over Alt.
/// Otherwise Alt puts an escape byte in front of the character's UTF-8
/// encoding, and without Alt the encoding goes out alone.
pub open spec fn char_key_bytes(c: char, modifiers: KeyModifiers) -> Seq<u8> {
    if modifiers.control && is_ascii_letter(c) {
        seq![control_byte(c)]
    } else if modifiers.alt {
        seq![ESC] + encode_scalar(c as u32)
    } else {
        encode_scalar(c as u32)
    }
}

/// The bytes sent for a function key, if it has any: F1 to F4 use the
/// `ESC O` form, F5 to F12 the `ESC [ n ~` form with xterm's numbers,
/// which leave out 16 and 22.
pub open spec fn function_key_bytes(n: u8) -> Option<Seq<u8>> {
    if n == 1 {
        Some(seq![ESC, 0x4f, 0x50])
    } else if n == 2 {
        Some(seq![ESC, 0x4f, 0x51])
    } else if n == 3 {
        Some(seq![ESC, 0x4f, 0x52])
    } else if n == 4 {
        Some(seq![ESC, 0x4f, 0x53])
    } else if n == 5 {
        Some(seq![ESC, 0x5b, 0x31, 0x35, 0x7e])
    } else if n == 6 {
        Some(seq![ESC, 0x5b, 0x31, 0x37, 0x7e])
    } else if n == 7 {
        Some(seq![ESC, 0x5b, 0x31, 0x38, 0x7e])
    } else if n == 8 {
        Some(seq![ESC, 0x5b, 0x31, 0x39, 0x7e])
    } else if n == 9 {
        Some(seq![ESC, 0x5b, 0x32, 0x30, 0x7e])
    } else if n == 10 {
        Some(seq![ESC, 0x5b, 0x32, 0x31, 0x7e])
    } else if n == 11 {
        Some(seq![ESC, 0x5b, 0x32, 0x33, 0x7e])
    } else if n == 12 {
        Some(seq![ESC, 0x5b, 0x32, 0x34, 0x7e])
    } else {
        None
    }
}

/// The byte sequence a shell expects for `key` pressed with `modifiers`,
/// or `None` for a key that sends nothing.
pub open spec fn key_bytes(key: KeyCode, modifiers: KeyModifiers) -> Option<Seq<u8>> {
    match key {
        KeyCode::Enter => Some(seq![0x0du8]),
        KeyCode::Backspace => Some(seq![0x7fu8]),
        KeyCode::Tab => Some(seq![0x09u8]),
        KeyCode::Esc => Some(seq![ESC]),
        KeyCode::Up => Some(seq![ESC, 0x5b, 0x41]),
        KeyCode::Down => Some(seq![ESC, 0x5b, 0x42]),
        KeyCode::Right => Some(seq![ESC, 0x5b, 0x43]),
        KeyCode::Left => Some(seq![ESC, 0x5b, 0x44]),
        KeyCode::Home => Some(seq![ESC, 0x5b, 0x48]),
        KeyCode::End => Some(seq![ESC, 0x5b, 0x46]),
        KeyCode::PageUp => Some(seq![ESC, 0x5b, 0x35, 0x7e]),
        KeyCode::PageDown => Some(seq![ESC, 0x5b, 0x36, 0x7e]),
        KeyCode::Delete => Some(seq![ESC, 0x5b, 0x33, 0x7e]),
        KeyCode::Insert => Some(seq![ESC, 0x5b, 0x32, 0x7e]),
        KeyCode::F(n) => function_key_bytes(n),
        KeyCode::Char(c) => Some(char_key_bytes(c, modifiers)),
        KeyCode::BackTab => None,
        KeyCode::Null => None,
        KeyCode::Other => None,
    }
}

/// Encodes one character as UTF-8.
pub fn encode_char(c: char) -> (bytes: Vec<u8>)
    ensures
        bytes@ == encode_scalar(c as u32),
        1 <= bytes@.len() <= 4,
{
    let s: u32 = c as u32;
    let mut bytes: Vec<u8> = Vec::new();
    if s <= 0x7f {
        assert(s & 0x7f <= 0xff) by (bit_vector);
        bytes.push((s & 0x7f) as u8);
    } else if s <= 0x7ff {
        assert((s >> 6) & 0x1f <= 0xff) by (bit_vector);
        assert(s & 0x3f <= 0xff) by (bit_vector);
        bytes.push(0xc0u8 | (((s >> 6) & 0x1f) as u8));
        bytes.push(0x80u8 | ((s & 0x3f) as u8));
    } else if s <= 0xffff {
        assert((s >> 12) & 0x0f <= 0xff) by (bit_vector);
        assert((s >> 6) & 0x3f <= 0xff) by (bit_vector);
        assert(s & 0x3f <= 0xff) by (bit_vector);
        bytes.push(0xe0u8 | (((s >> 12) & 0x0f) as u8));
        bytes.push(0x80u8 | (((s >> 6) & 0x3f) as u8));
        bytes.push(0x80u8 | ((s & 0x3f) as u8));
    } else {
        assert((s >> 18) & 0x7 <= 0xff) by (bit_vector);
        assert((s >> 12) & 0x3f <= 0xff) by (bit_vector);
        assert((s >> 6) & 0x3f <= 0xff) by (bit_vector);
        assert(s & 0x3f <= 0xff) by (bit_vector);
        bytes.push(0xf0u8 | (((s >> 18) & 0x7) as u8));
        bytes.push(0x80u8 | (((s >> 12) & 0x3f) as u8));
        bytes.push(0x80u8 | (((s >> 6) & 0x3f) as u8));
        bytes.push(0x80u8 | ((s & 0x3f) as u8));
    }
    bytes
}

/// A one-byte sequence.
fn seq1(a: u8) -> (v: Vec<u8>)
    ensures
        v@ == seq![a],
{
    let v = vec![a];
    v
}

/// A three-byte sequence.
fn seq3(a: u8, b: u8, c: u8) -> (v: Vec<u8>)
    ensures
        v@ == seq![a, b, c],
{
    let v = vec![a, b, c];
    v
}

/// A four-byte sequence.
fn seq4(a: u8, b: u8, c: u8, d: u8) -> (v: Vec<u8>)
    ensures
        v@ == seq![a, b, c, d],
{
    let v = vec![a, b, c, d];
    v
}

/// The bytes of a function key, if the key has any.
fn encode_function_key(n: u8) -> (bytes: Option<Vec<u8>>)
    ensures
        bytes.is_some() == function_key_bytes(n).is_some(),
        bytes matches Some(v) ==> function_key_bytes(n) == Some(v@),
{
    if 1 <= n && n <= 4 {
        let last: u8 = 0x4f + n;
        let v = vec![ESC, 0x4f, last];
        Some(v)
    } else if 5 <= n && n <= 12 {
        let (tens, ones): (u8, u8) = if n == 5 {
            (0x31, 0x35)
        } else if n <= 8 {
            (0x31, 0x31 + n)
        } else if n <= 10 {
            (0x32, 0x27 + n)
        } else {
            (0x32, 0x28 + n)
        };
        let v = vec![ESC, 0x5b, tens, ones, 0x7e];
        Some(v)
    } else {
        None
    }
}

/// The bytes of a character key.
fn encode_char_key(c: char, modifiers: KeyModifiers) -> (bytes: Vec<u8>)
    ensures
        bytes@ == char_key_bytes(c, modifiers),
{
    let s: u32 = c as u32;
    if modifiers.control && ((0x61 <= s && s <= 0x7a) || (0x41 <= s && s <= 0x5a)) {
        let b: u8 = if 0x61 <= s && s <= 0x7a {
            (s - 0x61 + 1) as u8
        } else {
            (s - 0x41 + 1) as u8
        };
        let v = vec![b];
        v
    } else if modifiers.alt {
        let mut v: Vec<u8> = vec![ESC];
        let mut tail = encode_char(c);
        v.append(&mut tail);
        v
    } else {
        encode_char(c)
    }
}

/// Encodes a key press as the bytes to write to a shell.
///
/// Returns `None` for a key that sends nothing; that is no error.
pub fn encode_key(key: KeyCode, modifiers: KeyModifiers) -> (bytes: Option<Vec<u8>>)
    ensures
        bytes.is_some() == key_bytes(key, modifiers).is_some(),
        bytes matches Some(v) ==> key_bytes(key, modifiers) == Some(v@),
{
    match key {
        KeyCode::Enter => Some(seq1(0x0d)),
        KeyCode::Backspace => Some(seq1(0x7f)),
        KeyCode::Tab => Some(seq1(0x09)),
        KeyCode::Esc => Some(seq1(ESC)),
        KeyCode::Up => Some(seq3(ESC, 0x5b, 0x41)),
        KeyCode::Down => Some(seq3(ESC, 0x5b, 0x42)),
        KeyCode::Right => Some(seq3(ESC, 0x5b, 0x43)),
        KeyCode::Left => Some(seq3(ESC, 0x5b, 0x44)),
        KeyCode::Home => Some(seq3(ESC, 0x5b, 0x48)),
        KeyCode::End => Some(seq3(ESC, 0x5b, 0x46)),
        KeyCode::PageUp => Some(seq4(ESC, 0x5b, 0x35, 0x7e)),
        KeyCode::PageDown => Some(seq4(ESC, 0x5b, 0x36, 0x7e)),
        KeyCode::Delete => Some(seq4(ESC, 0x5b, 0x33, 0x7e)),
        KeyCode::Insert => Some(seq4(ESC, 0x5b, 0x32, 0x7e)),
        KeyCode::F(n) => encode_function_key(n),
        KeyCode::Char(c) => Some(encode_char_key(c, modifiers)),
        KeyCode::BackTab => None,
        KeyCode::Null => None,
        KeyCode::Other => None,
    }
}

} // verus!
