//! How the host keyboard drives the C64 keyboard matrix.
use crate::c64::keyboard::Key as C64Key;
use crate::common::app::HostKey;
use vstd::prelude::*;

verus! {

/// The C64 key that a host key stands for. The layout follows the positions
/// of the keys rather than their labels; keys with no counterpart give
/// nothing.
pub open spec fn c64_key_for(key: HostKey) -> Option<C64Key> {
    match key {
        HostKey::Backquote => Some(C64Key::LeftArrow),
        HostKey::D1 => Some(C64Key::D1),
        HostKey::D2 => Some(C64Key::D2),
        HostKey::D3 => Some(C64Key::D3),
        HostKey::D4 => Some(C64Key::D4),
        HostKey::D5 => Some(C64Key::D5),
        HostKey::D6 => Some(C64Key::D6),
        HostKey::D7 => Some(C64Key::D7),
        HostKey::D8 => Some(C64Key::D8),
        HostKey::D9 => Some(C64Key::D9),
        HostKey::D0 => Some(C64Key::D0),
        HostKey::Minus => Some(C64Key::Plus),
        HostKey::Equals => Some(C64Key::Minus),
        HostKey::Home => Some(C64Key::ClrHome),
        HostKey::Backspace => Some(C64Key::InstDel),
        HostKey::Tab => Some(C64Key::Ctrl),
        HostKey::Q => Some(C64Key::Q),
        HostKey::W => Some(C64Key::W),
        HostKey::E => Some(C64Key::E),
        HostKey::R => Some(C64Key::R),
        HostKey::T => Some(C64Key::T),
        HostKey::Y => Some(C64Key::Y),
        HostKey::U => Some(C64Key::U),
        HostKey::I => Some(C64Key::I),
        HostKey::O => Some(C64Key::O),
        HostKey::P => Some(C64Key::P),
        HostKey::LeftBracket => Some(C64Key::At),
        HostKey::RightBracket => Some(C64Key::Asterisk),
        HostKey::F12 => Some(C64Key::Restore),
        HostKey::Escape => Some(C64Key::RunStop),
        HostKey::A => Some(C64Key::A),
        HostKey::S => Some(C64Key::S),
        HostKey::D => Some(C64Key::D),
        HostKey::F => Some(C64Key::F),
        HostKey::G => Some(C64Key::G),
        HostKey::H => Some(C64Key::H),
        HostKey::J => Some(C64Key::J),
        HostKey::K => Some(C64Key::K),
        HostKey::L => Some(C64Key::L),
        HostKey::Semicolon => Some(C64Key::Colon),
        HostKey::Quote => Some(C64Key::Semicolon),
        HostKey::Backslash => Some(C64Key::Equals),
        HostKey::Return => Some(C64Key::Return),
        HostKey::LCtrl => Some(C64Key::Commodore),
        HostKey::LShift => Some(C64Key::LShift),
        HostKey::Z => Some(C64Key::Z),
        HostKey::X => Some(C64Key::X),
        HostKey::C => Some(C64Key::C),
        HostKey::V => Some(C64Key::V),
        HostKey::B => Some(C64Key::B),
        HostKey::N => Some(C64Key::N),
        HostKey::M => Some(C64Key::M),
        HostKey::Comma => Some(C64Key::Comma),
        HostKey::Period => Some(C64Key::Period),
        HostKey::Slash => Some(C64Key::Slash),
        HostKey::RShift => Some(C64Key::RShift),
        HostKey::Down => Some(C64Key::CrsrUpDown),
        HostKey::Right => Some(C64Key::CrsrLeftRight),
        HostKey::Space => Some(C64Key::Space),
        HostKey::F1 => Some(C64Key::F1),
        HostKey::F3 => Some(C64Key::F3),
        HostKey::F5 => Some(C64Key::F5),
        HostKey::F7 => Some(C64Key::F7),
        HostKey::Up => None,
        HostKey::Left => None,
    }
}

/// Maps a host key to the C64 key at its place, if there is one.
pub fn map_key(key: HostKey) -> (r: Option<C64Key>)
    ensures
        r == c64_key_for(key),
{
    match key {
        HostKey::Backquote => Some(C64Key::LeftArrow),
        HostKey::D1 => Some(C64Key::D1),
        HostKey::D2 => Some(C64Key::D2),
        HostKey::D3 => Some(C64Key::D3),
        HostKey::D4 => Some(C64Key::D4),
        HostKey::D5 => Some(C64Key::D5),
        HostKey::D6 => Some(C64Key::D6),
        HostKey::D7 => Some(C64Key::D7),
        HostKey::D8 => Some(C64Key::D8),
        HostKey::D9 => Some(C64Key::D9),
        HostKey::D0 => Some(C64Key::D0),
        HostKey::Minus => Some(C64Key::Plus),
        HostKey::Equals => Some(C64Key::Minus),
        HostKey::Home => Some(C64Key::ClrHome),
        HostKey::Backspace => Some(C64Key::InstDel),
        HostKey::Tab => Some(C64Key::Ctrl),
        HostKey::Q => Some(C64Key::Q),
        HostKey::W => Some(C64Key::W),
        HostKey::E => Some(C64Key::E),
        HostKey::R => Some(C64Key::R),
        HostKey::T => Some(C64Key::T),
        HostKey::Y => Some(C64Key::Y),
        HostKey::U => Some(C64Key::U),
        HostKey::I => Some(C64Key::I),
        HostKey::O => Some(C64Key::O),
        HostKey::P => Some(C64Key::P),
        HostKey::LeftBracket => Some(C64Key::At),
        HostKey::RightBracket => Some(C64Key::Asterisk),
        HostKey::F12 => Some(C64Key::Restore),
        HostKey::Escape => Some(C64Key::RunStop),
        HostKey::A => Some(C64Key::A),
        HostKey::S => Some(C64Key::S),
        HostKey::D => Some(C64Key::D),
        HostKey::F => Some(C64Key::F),
        HostKey::G => Some(C64Key::G),
        HostKey::H => Some(C64Key::H),
        HostKey::J => Some(C64Key::J),
        HostKey::K => Some(C64Key::K),
        HostKey::L => Some(C64Key::L),
        HostKey::Semicolon => Some(C64Key::Colon),
        HostKey::Quote => Some(C64Key::Semicolon),
        HostKey::Backslash => Some(C64Key::Equals),
        HostKey::Return => Some(C64Key::Return),
        HostKey::LCtrl => Some(C64Key::Commodore),
        HostKey::LShift => Some(C64Key::LShift),
        HostKey::Z => Some(C64Key::Z),
        HostKey::X => Some(C64Key::X),
        HostKey::C => Some(C64Key::C),
        HostKey::V => Some(C64Key::V),
        HostKey::B => Some(C64Key::B),
        HostKey::N => Some(C64Key::N),
        HostKey::M => Some(C64Key::M),
        HostKey::Comma => Some(C64Key::Comma),
        HostKey::Period => Some(C64Key::Period),
        HostKey::Slash => Some(C64Key::Slash),
        HostKey::RShift => Some(C64Key::RShift),
        HostKey::Down => Some(C64Key::CrsrUpDown),
        HostKey::Right => Some(C64Key::CrsrLeftRight),
        HostKey::Space => Some(C64Key::Space),
        HostKey::F1 => Some(C64Key::F1),
        HostKey::F3 => Some(C64Key::F3),
        HostKey::F5 => Some(C64Key::F5),
        HostKey::F7 => Some(C64Key::F7),
        _ => None,
    }
}

/// What is printed on a key that both keyboards have under the same label:
/// a letter, a digit, a punctuation mark, a function key, or a named key.
#[derive(Debug, Clone, Copy, PartialEq, Eq, Structural)]
pub enum KeyLabel {
    Letter(char),
    Digit(char),
    Comma,
    Period,
    Slash,
    Space,
    Return,
    LeftShift,
    RightShift,
    Function(u8),
}

/// The label of a host key, for the keys whose label the C64 keyboard also
/// has on a key of its own.
pub open spec fn host_key_label(key: HostKey) -> Option<KeyLabel> {
    match key {
        HostKey::Q => Some(KeyLabel::Letter('Q')),
        HostKey::W => Some(KeyLabel::Letter('W')),
        HostKey::E => Some(KeyLabel::Letter('E')),
        HostKey::R => Some(KeyLabel::Letter('R')),
        HostKey::T => Some(KeyLabel::Letter('T')),
        HostKey::Y => Some(KeyLabel::Letter('Y')),
        HostKey::U => Some(KeyLabel::Letter('U')),
        HostKey::I => Some(KeyLabel::Letter('I')),
        HostKey::O => Some(KeyLabel::Letter('O')),
        HostKey::P => Some(KeyLabel::Letter('P')),
        HostKey::A => Some(KeyLabel::Letter('A')),
        HostKey::S => Some(KeyLabel::Letter('S')),
        HostKey::D => Some(KeyLabel::Letter('D')),
        HostKey::F => Some(KeyLabel::Letter('F')),
        HostKey::G => Some(KeyLabel::Letter('G')),
        HostKey::H => Some(KeyLabel::Letter('H')),
        HostKey::J => Some(KeyLabel::Letter('J')),
        HostKey::K => Some(KeyLabel::Letter('K')),
        HostKey::L => Some(KeyLabel::Letter('L')),
        HostKey::Z => Some(KeyLabel::Letter('Z')),
        HostKey::X => Some(KeyLabel::Letter('X')),
        HostKey::C => Some(KeyLabel::Letter('C')),
        HostKey::V => Some(KeyLabel::Letter('V')),
        HostKey::B => Some(KeyLabel::Letter('B')),
        HostKey::N => Some(KeyLabel::Letter('N')),
        HostKey::M => Some(KeyLabel::Letter('M')),
        HostKey::D1 => Some(KeyLabel::Digit('1')),
        HostKey::D2 => Some(KeyLabel::Digit('2')),
        HostKey::D3 => Some(KeyLabel::Digit('3')),
        HostKey::D4 => Some(KeyLabel::Digit('4')),
        HostKey::D5 => Some(KeyLabel::Digit('5')),
        HostKey::D6 => Some(KeyLabel::Digit('6')),
        HostKey::D7 => Some(KeyLabel::Digit('7')),
        HostKey::D8 => Some(KeyLabel::Digit('8')),
        HostKey::D9 => Some(KeyLabel::Digit('9')),
        HostKey::D0 => Some(KeyLabel::Digit('0')),
        HostKey::Comma => Some(KeyLabel::Comma),
        HostKey::Period => Some(KeyLabel::Period),
        HostKey::Slash => Some(KeyLabel::Slash),
        HostKey::Space => Some(KeyLabel::Space),
        HostKey::Return => Some(KeyLabel::Return),
        HostKey::LShift => Some(KeyLabel::LeftShift),
        HostKey::RShift => Some(KeyLabel::RightShift),
        HostKey::F1 => Some(KeyLabel::Function(1)),
        HostKey::F3 => Some(KeyLabel::Function(3)),
        HostKey::F5 => Some(KeyLabel::Function(5)),
        HostKey::F7 => Some(KeyLabel::Function(7)),
        _ => None,
    }
}

/// The label of a C64 key, for the keys whose label a host keyboard also
/// has on a key of its own.
pub open spec fn c64_key_label(key: C64Key) -> Option<KeyLabel> {
    match key {
        C64Key::Q => Some(KeyLabel::Letter('Q')),
        C64Key::W => Some(KeyLabel::Letter('W')),
        C64Key::E => Some(KeyLabel::Letter('E')),
        C64Key::R => Some(KeyLabel::Letter('R')),
        C64Key::T => Some(KeyLabel::Letter('T')),
        C64Key::Y => Some(KeyLabel::Letter('Y')),
        C64Key::U => Some(KeyLabel::Letter('U')),
        C64Key::I => Some(KeyLabel::Letter('I')),
        C64Key::O => Some(KeyLabel::Letter('O')),
        C64Key::P => Some(KeyLabel::Letter('P')),
        C64Key::A => Some(KeyLabel::Letter('A')),
        C64Key::S => Some(KeyLabel::Letter('S')),
        C64Key::D => Some(KeyLabel::Letter('D')),
        C64Key::F => Some(KeyLabel::Letter('F')),
        C64Key::G => Some(KeyLabel::Letter('G')),
        C64Key::H => Some(KeyLabel::Letter('H')),
        C64Key::J => Some(KeyLabel::Letter('J')),
        C64Key::K => Some(KeyLabel::Letter('K')),
        C64Key::L => Some(KeyLabel::Letter('L')),
        C64Key::Z => Some(KeyLabel::Letter('Z')),
        C64Key::X => Some(KeyLabel::Letter('X')),
        C64Key::C => Some(KeyLabel::Letter('C')),
        C64Key::V => Some(KeyLabel::Letter('V')),
        C64Key::B => Some(KeyLabel::Letter('B')),
        C64Key::N => Some(KeyLabel::Letter('N')),
        C64Key::M => Some(KeyLabel::Letter('M')),
        C64Key::D1 => Some(KeyLabel::Digit('1')),
        C64Key::D2 => Some(KeyLabel::Digit('2')),
        C64Key::D3 => Some(KeyLabel::Digit('3')),
        C64Key::D4 => Some(KeyLabel::Digit('4')),
        C64Key::D5 => Some(KeyLabel::Digit('5')),
        C64Key::D6 => Some(KeyLabel::Digit('6')),
        C64Key::D7 => Some(KeyLabel::Digit('7')),
        C64Key::D8 => Some(KeyLabel::Digit('8')),
        C64Key::D9 => Some(KeyLabel::Digit('9')),
        C64Key::D0 => Some(KeyLabel::Digit('0')),
        C64Key::Comma => Some(KeyLabel::Comma),
        C64Key::Period => Some(KeyLabel::Period),
        C64Key::Slash => Some(KeyLabel::Slash),
        C64Key::Space => Some(KeyLabel::Space),
        C64Key::Return => Some(KeyLabel::Return),
        C64Key::LShift => Some(KeyLabel::LeftShift),
        C64Key::RShift => Some(KeyLabel::RightShift),
        C64Key::F1 => Some(KeyLabel::Function(1)),
        C64Key::F3 => Some(KeyLabel::Function(3)),
        C64Key::F5 => Some(KeyLabel::Function(5)),
        C64Key::F7 => Some(KeyLabel::Function(7)),
        _ => None,
    }
}

/// Label law: a host key whose label (a letter, a digit, comma, period,
/// slash, space, return, a shift key, F1, F3, F5 or F7) is also on a C64 key
/// presses the C64 key with that label. (The symbol keys whose labels differ
/// between the two layouts, such as `-` and `;`, are placed by position.)
pub proof fn lemma_same_label_same_key(key: HostKey)
    requires
        host_key_label(key) is Some,
    ensures
        c64_key_for(key) is Some,
        c64_key_label(c64_key_for(key)->0) == host_key_label(key),
{
}

/// Where a key of the main block of a host (US) keyboard sits: its row (0
/// for the digit row, 1 for QWERTY..., 2 for ASDF..., 3 for ZXCV...) and its
/// column, counted from the first digit or letter of the row (the key left
/// of it is column -1).
pub open spec fn host_key_position(key: HostKey) -> Option<(int, int)> {
    match key {
        HostKey::Backquote => Some((0, -1)),
        HostKey::D1 => Some((0, 0)),
        HostKey::D2 => Some((0, 1)),
        HostKey::D3 => Some((0, 2)),
        HostKey::D4 => Some((0, 3)),
        HostKey::D5 => Some((0, 4)),
        HostKey::D6 => Some((0, 5)),
        HostKey::D7 => Some((0, 6)),
        HostKey::D8 => Some((0, 7)),
        HostKey::D9 => Some((0, 8)),
        HostKey::D0 => Some((0, 9)),
        HostKey::Minus => Some((0, 10)),
        HostKey::Equals => Some((0, 11)),
        HostKey::Tab => Some((1, -1)),
        HostKey::Q => Some((1, 0)),
        HostKey::W => Some((1, 1)),
        HostKey::E => Some((1, 2)),
        HostKey::R => Some((1, 3)),
        HostKey::T => Some((1, 4)),
        HostKey::Y => Some((1, 5)),
        HostKey::U => Some((1, 6)),
        HostKey::I => Some((1, 7)),
        HostKey::O => Some((1, 8)),
        HostKey::P => Some((1, 9)),
        HostKey::LeftBracket => Some((1, 10)),
        HostKey::RightBracket => Some((1, 11)),
        HostKey::A => Some((2, 0)),
        HostKey::S => Some((2, 1)),
        HostKey::D => Some((2, 2)),
        HostKey::F => Some((2, 3)),
        HostKey::G => Some((2, 4)),
        HostKey::H => Some((2, 5)),
        HostKey::J => Some((2, 6)),
        HostKey::K => Some((2, 7)),
        HostKey::L => Some((2, 8)),
        HostKey::Semicolon => Some((2, 9)),
        HostKey::Quote => Some((2, 10)),
        HostKey::Z => Some((3, 0)),
        HostKey::X => Some((3, 1)),
        HostKey::C => Some((3, 2)),
        HostKey::V => Some((3, 3)),
        HostKey::B => Some((3, 4)),
        HostKey::N => Some((3, 5)),
        HostKey::M => Some((3, 6)),
        HostKey::Comma => Some((3, 7)),
        HostKey::Period => Some((3, 8)),
        HostKey::Slash => Some((3, 9)),
        _ => None,
    }
}

/// Where a key of the main block of the C64 keyboard sits, counted the same
/// way.
pub open spec fn c64_key_position(key: C64Key) -> Option<(int, int)> {
    match key {
        C64Key::LeftArrow => Some((0, -1)),
        C64Key::D1 => Some((0, 0)),
        C64Key::D2 => Some((0, 1)),
        C64Key::D3 => Some((0, 2)),
        C64Key::D4 => Some((0, 3)),
        C64Key::D5 => Some((0, 4)),
        C64Key::D6 => Some((0, 5)),
        C64Key::D7 => Some((0, 6)),
        C64Key::D8 => Some((0, 7)),
        C64Key::D9 => Some((0, 8)),
        C64Key::D0 => Some((0, 9)),
        C64Key::Plus => Some((0, 10)),
        C64Key::Minus => Some((0, 11)),
        C64Key::Pound => Some((0, 12)),
        C64Key::Ctrl => Some((1, -1)),
        C64Key::Q => Some((1, 0)),
        C64Key::W => Some((1, 1)),
        C64Key::E => Some((1, 2)),
        C64Key::R => Some((1, 3)),
        C64Key::T => Some((1, 4)),
        C64Key::Y => Some((1, 5)),
        C64Key::U => Some((1, 6)),
        C64Key::I => Some((1, 7)),
        C64Key::O => Some((1, 8)),
        C64Key::P => Some((1, 9)),
        C64Key::At => Some((1, 10)),
        C64Key::Asterisk => Some((1, 11)),
        C64Key::UpArrow => Some((1, 12)),
        C64Key::A => Some((2, 0)),
        C64Key::S => Some((2, 1)),
        C64Key::D => Some((2, 2)),
        C64Key::F => Some((2, 3)),
        C64Key::G => Some((2, 4)),
        C64Key::H => Some((2, 5)),
        C64Key::J => Some((2, 6)),
        C64Key::K => Some((2, 7)),
        C64Key::L => Some((2, 8)),
        C64Key::Colon => Some((2, 9)),
        C64Key::Semicolon => Some((2, 10)),
        C64Key::Equals => Some((2, 11)),
        C64Key::Z => Some((3, 0)),
        C64Key::X => Some((3, 1)),
        C64Key::C => Some((3, 2)),
        C64Key::V => Some((3, 3)),
        C64Key::B => Some((3, 4)),
        C64Key::N => Some((3, 5)),
        C64Key::M => Some((3, 6)),
        C64Key::Comma => Some((3, 7)),
        C64Key::Period => Some((3, 8)),
        C64Key::Slash => Some((3, 9)),
        _ => None,
    }
}

/// Layout law: each key of the host keyboard's main block (digits, letters
/// and the punctuation keys around them) presses the C64 key at the same
/// place of the C64 keyboard: same row, same column counted from the row's
/// first digit or letter. So host `-` and `=` press C64 `+` and `-`, `[` and
/// `]` press `@` and `*`, and `;` and `'` press `:` and `;`.
pub proof fn lemma_keys_by_position(key: HostKey)
    requires
        host_key_position(key) is Some,
    ensures
        c64_key_for(key) is Some,
        c64_key_position(c64_key_for(key)->0) == host_key_position(key),
{
}

/// Keyboard law: no two host keys press the same C64 key, so a C64 key is
/// released by releasing the one host key that pressed it.
pub proof fn lemma_map_key_injective(a: HostKey, b: HostKey)
    requires
        c64_key_for(a) is Some,
        c64_key_for(a) == c64_key_for(b),
    ensures
        a == b,
{
}

} // verus!
