//! The C64 keyboard and its scanning matrix.
use vstd::prelude::*;

verus! {

#[derive(Clone, Copy, Debug, PartialEq, Eq, Structural)]
pub enum Key {
    LeftArrow,
    D1,
    D2,
    D3,
    D4,
    D5,
    D6,
    D7,
    D8,
    D9,
    D0,
    Plus,
    Minus,
    Pound,
    ClrHome,
    InstDel,

    Ctrl,
    Q,
    W,
    E,
    R,
    T,
    Y,
    U,
    I,
    O,
    P,
    At,
    Asterisk,
    UpArrow,
    Restore,

    RunStop,
    ShiftLock,
    A,
    S,
    D,
    F,
    G,
    H,
    J,
    K,
    L,
    Colon,
    Semicolon,
    Equals,
    Return,

    Commodore,
    LShift,
    Z,
    X,
    C,
    V,
    B,
    N,
    M,
    Comma,
    Period,
    Slash,
    RShift,
    CrsrUpDown,
    CrsrLeftRight,

    Space,

    F1,
    F3,
    F5,
    F7,
}

#[derive(Clone, Copy, Debug, PartialEq, Eq, Structural)]
pub enum KeyState {
    Pressed,
    Released,
}

/// The number of keys.
pub const KEY_COUNT: usize = 66;

/// The position of a key in the list of keys.
pub open spec fn key_index_spec(key: Key) -> nat {
    match key {
        Key::LeftArrow => 0,
        Key::D1 => 1,
        Key::D2 => 2,
        Key::D3 => 3,
        Key::D4 => 4,
        Key::D5 => 5,
        Key::D6 => 6,
        Key::D7 => 7,
        Key::D8 => 8,
        Key::D9 => 9,
        Key::D0 => 10,
        Key::Plus => 11,
        Key::Minus => 12,
        Key::Pound => 13,
        Key::ClrHome => 14,
        Key::InstDel => 15,
        Key::Ctrl => 16,
        Key::Q => 17,
        Key::W => 18,
        Key::E => 19,
        Key::R => 20,
        Key::T => 21,
        Key::Y => 22,
        Key::U => 23,
        Key::I => 24,
        Key::O => 25,
        Key::P => 26,
        Key::At => 27,
        Key::Asterisk => 28,
        Key::UpArrow => 29,
        Key::Restore => 30,
        Key::RunStop => 31,
        Key::ShiftLock => 32,
        Key::A => 33,
        Key::S => 34,
        Key::D => 35,
        Key::F => 36,
        Key::G => 37,
        Key::H => 38,
        Key::J => 39,
        Key::K => 40,
        Key::L => 41,
        Key::Colon => 42,
        Key::Semicolon => 43,
        Key::Equals => 44,
        Key::Return => 45,
        Key::Commodore => 46,
        Key::LShift => 47,
        Key::Z => 48,
        Key::X => 49,
        Key::C => 50,
        Key::V => 51,
        Key::B => 52,
        Key::N => 53,
        Key::M => 54,
        Key::Comma => 55,
        Key::Period => 56,
        Key::Slash => 57,
        Key::RShift => 58,
        Key::CrsrUpDown => 59,
        Key::CrsrLeftRight => 60,
        Key::Space => 61,
        Key::F1 => 62,
        Key::F3 => 63,
        Key::F5 => 64,
        Key::F7 => 65,
    }
}

/// The position of a key in the list of keys.
pub fn key_index(key: Key) -> (r: usize)
    ensures
        r == key_index_spec(key),
        r < KEY_COUNT,
{
    match key {
        Key::LeftArrow => 0,
        Key::D1 => 1,
        Key::D2 => 2,
        Key::D3 => 3,
        Key::D4 => 4,
        Key::D5 => 5,
        Key::D6 => 6,
        Key::D7 => 7,
        Key::D8 => 8,
        Key::D9 => 9,
        Key::D0 => 10,
        Key::Plus => 11,
        Key::Minus => 12,
        Key::Pound => 13,
        Key::ClrHome => 14,
        Key::InstDel => 15,
        Key::Ctrl => 16,
        Key::Q => 17,
        Key::W => 18,
        Key::E => 19,
        Key::R => 20,
        Key::T => 21,
        Key::Y => 22,
        Key::U => 23,
        Key::I => 24,
        Key::O => 25,
        Key::P => 26,
        Key::At => 27,
        Key::Asterisk => 28,
        Key::UpArrow => 29,
        Key::Restore => 30,
        Key::RunStop => 31,
        Key::ShiftLock => 32,
        Key::A => 33,
        Key::S => 34,
        Key::D => 35,
        Key::F => 36,
        Key::G => 37,
        Key::H => 38,
        Key::J => 39,
        Key::K => 40,
        Key::L => 41,
        Key::Colon => 42,
        Key::Semicolon => 43,
        Key::Equals => 44,
        Key::Return => 45,
        Key::Commodore => 46,
        Key::LShift => 47,
        Key::Z => 48,
        Key::X => 49,
        Key::C => 50,
        Key::V => 51,
        Key::B => 52,
        Key::N => 53,
        Key::M => 54,
        Key::Comma => 55,
        Key::Period => 56,
        Key::Slash => 57,
        Key::RShift => 58,
        Key::CrsrUpDown => 59,
        Key::CrsrLeftRight => 60,
        Key::Space => 61,
        Key::F1 => 62,
        Key::F3 => 63,
        Key::F5 => 64,
        Key::F7 => 65,
    }
}

/// The key at a column and a row of the scanning matrix.
pub open spec fn matrix_key_spec(column: u8, row: u8) -> Key {
    match (column, row) {
        (0, 0) => Key::InstDel,
        (0, 1) => Key::Return,
        (0, 2) => Key::CrsrLeftRight,
        (0, 3) => Key::F7,
        (0, 4) => Key::F1,
        (0, 5) => Key::F3,
        (0, 6) => Key::F5,
        (0, 7) => Key::CrsrUpDown,
        (1, 0) => Key::D3,
        (1, 1) => Key::W,
        (1, 2) => Key::A,
        (1, 3) => Key::D4,
        (1, 4) => Key::Z,
        (1, 5) => Key::S,
        (1, 6) => Key::E,
        (1, 7) => Key::LShift,
        (2, 0) => Key::D5,
        (2, 1) => Key::R,
        (2, 2) => Key::D,
        (2, 3) => Key::D6,
        (2, 4) => Key::C,
        (2, 5) => Key::F,
        (2, 6) => Key::T,
        (2, 7) => Key::X,
        (3, 0) => Key::D7,
        (3, 1) => Key::Y,
        (3, 2) => Key::G,
        (3, 3) => Key::D8,
        (3, 4) => Key::B,
        (3, 5) => Key::H,
        (3, 6) => Key::U,
        (3, 7) => Key::V,
        (4, 0) => Key::D9,
        (4, 1) => Key::I,
        (4, 2) => Key::J,
        (4, 3) => Key::D0,
        (4, 4) => Key::M,
        (4, 5) => Key::K,
        (4, 6) => Key::O,
        (4, 7) => Key::N,
        (5, 0) => Key::Plus,
        (5, 1) => Key::P,
        (5, 2) => Key::L,
        (5, 3) => Key::Minus,
        (5, 4) => Key::Period,
        (5, 5) => Key::Colon,
        (5, 6) => Key::At,
        (5, 7) => Key::Comma,
        (6, 0) => Key::Pound,
        (6, 1) => Key::Asterisk,
        (6, 2) => Key::Semicolon,
        (6, 3) => Key::ClrHome,
        (6, 4) => Key::RShift,
        (6, 5) => Key::Equals,
        (6, 6) => Key::UpArrow,
        (6, 7) => Key::Slash,
        (7, 0) => Key::D1,
        (7, 1) => Key::LeftArrow,
        (7, 2) => Key::Ctrl,
        (7, 3) => Key::D2,
        (7, 4) => Key::Space,
        (7, 5) => Key::Commodore,
        (7, 6) => Key::Q,
        (7, 7) => Key::RunStop,
        _ => Key::Space,
    }
}

/// The key at a column and a row of the scanning matrix.
pub fn matrix_key(column: usize, row: usize) -> (r: Key)
    requires
        column < 8,
        row < 8,
    ensures
        r == matrix_key_spec(column as u8, row as u8),
{
    match (column, row) {
        (0, 0) => Key::InstDel,
        (0, 1) => Key::Return,
        (0, 2) => Key::CrsrLeftRight,
        (0, 3) => Key::F7,
        (0, 4) => Key::F1,
        (0, 5) => Key::F3,
        (0, 6) => Key::F5,
        (0, 7) => Key::CrsrUpDown,
        (1, 0) => Key::D3,
        (1, 1) => Key::W,
        (1, 2) => Key::A,
        (1, 3) => Key::D4,
        (1, 4) => Key::Z,
        (1, 5) => Key::S,
        (1, 6) => Key::E,
        (1, 7) => Key::LShift,
        (2, 0) => Key::D5,
        (2, 1) => Key::R,
        (2, 2) => Key::D,
        (2, 3) => Key::D6,
        (2, 4) => Key::C,
        (2, 5) => Key::F,
        (2, 6) => Key::T,
        (2, 7) => Key::X,
        (3, 0) => Key::D7,
        (3, 1) => Key::Y,
        (3, 2) => Key::G,
        (3, 3) => Key::D8,
        (3, 4) => Key::B,
        (3, 5) => Key::H,
        (3, 6) => Key::U,
        (3, 7) => Key::V,
        (4, 0) => Key::D9,
        (4, 1) => Key::I,
        (4, 2) => Key::J,
        (4, 3) => Key::D0,
        (4, 4) => Key::M,
        (4, 5) => Key::K,
        (4, 6) => Key::O,
        (4, 7) => Key::N,
        (5, 0) => Key::Plus,
        (5, 1) => Key::P,
        (5, 2) => Key::L,
        (5, 3) => Key::Minus,
        (5, 4) => Key::Period,
        (5, 5) => Key::Colon,
        (5, 6) => Key::At,
        (5, 7) => Key::Comma,
        (6, 0) => Key::Pound,
        (6, 1) => Key::Asterisk,
        (6, 2) => Key::Semicolon,
        (6, 3) => Key::ClrHome,
        (6, 4) => Key::RShift,
        (6, 5) => Key::Equals,
        (6, 6) => Key::UpArrow,
        (6, 7) => Key::Slash,
        (7, 0) => Key::D1,
        (7, 1) => Key::LeftArrow,
        (7, 2) => Key::Ctrl,
        (7, 3) => Key::D2,
        (7, 4) => Key::Space,
        (7, 5) => Key::Commodore,
        (7, 6) => Key::Q,
        (7, 7) => Key::RunStop,
        _ => Key::Space,
    }
}

/// The first row of `column` whose key is pressed, from `row` on.
pub open spec fn first_pressed_row(states: Seq<KeyState>, column: nat, row: nat) -> Option<nat>
    decreases 8 - row,
{
    if row >= 8 {
        None
    } else if states[key_index_spec(matrix_key_spec(column as u8, row as u8)) as int] == KeyState::Pressed {
        Some(row)
    } else {
        first_pressed_row(states, column, row + 1)
    }
}

/// What a scan with `mask` reads, looking from `column` on: the first column
/// probed by a 0 bit of the mask that has a key pressed pulls that key's row
/// low; with none, all rows read high.
pub open spec fn scan_from(states: Seq<KeyState>, mask: u8, column: nat) -> u8
    decreases 8 - column,
{
    if column >= 8 {
        0xff
    } else if mask & (1u8 << column as u8) == 0 {
        match first_pressed_row(states, column, 0) {
            Some(row) => !(1u8 << row as u8),
            None => scan_from(states, mask, column + 1),
        }
    } else {
        scan_from(states, mask, column + 1)
    }
}

/// Emulates the C64 keyboard scanning matrix.
///
/// Only one key press at a time is reported, the RESTORE key is not wired to
/// the matrix, and ghosting is not emulated.
pub struct Keyboard {
    key_states: Vec<KeyState>,
}

impl View for Keyboard {
    type V = Seq<KeyState>;

    closed spec fn view(&self) -> Seq<KeyState> {
        self.key_states@
    }
}

impl Keyboard {
    pub fn new() -> (r: Self)
        ensures
            r@.len() == KEY_COUNT,
            forall|i: int| 0 <= i < KEY_COUNT ==> #[trigger] r@[i] == KeyState::Released,
    {
        let mut key_states: Vec<KeyState> = Vec::new();
        let mut i: usize = 0;
        while i < KEY_COUNT
            invariant
                i <= KEY_COUNT,
                key_states@.len() == i,
                forall|j: int| 0 <= j < i ==> #[trigger] key_states@[j] == KeyState::Released,
            decreases KEY_COUNT - i,
        {
            key_states.push(KeyState::Released);
            i = i + 1;
        }
        Keyboard { key_states }
    }

    pub fn set_key_state(&mut self, key: Key, state: KeyState)
        requires
            old(self)@.len() == KEY_COUNT,
        ensures
            final(self)@ == old(self)@.update(key_index_spec(key) as int, state),
    {
        let index = key_index(key);
        self.key_states.set(index, state);
    }

    /// Simulates probing the keyboard state with given column bit mask. Returns
    /// row states as bits. The bit layout corresponds to appropriate CIA's port
    /// registers.
    pub fn scan(&self, mask: u8) -> (r: u8)
        requires
            self@.len() == KEY_COUNT,
        ensures
            r == scan_from(self@, mask, 0),
    {
        let mut i: usize = 0;
        while i < 8
            invariant
                i <= 8,
                self@.len() == KEY_COUNT,
                scan_from(self@, mask, 0) == scan_from(self@, mask, i as nat),
            decreases 8 - i,
        {
            let column_bit: u8 = 1u8 << i as u8;
            if mask & column_bit == 0 {
                let mut j: usize = 0;
                while j < 8
                    invariant
                        i < 8,
                        j <= 8,
                        self@.len() == KEY_COUNT,
                        first_pressed_row(self@, i as nat, 0) == first_pressed_row(self@, i as nat, j as nat),
                        scan_from(self@, mask, 0) == scan_from(self@, mask, i as nat),
                        mask & (1u8 << i as u8) == 0,
                    decreases 8 - j,
                {
                    let key = matrix_key(i, j);
                    let index = key_index(key);
                    if self.key_states[index] == KeyState::Pressed {
                        return !(1u8 << j as u8);
                    }
                    j = j + 1;
                }
            }
            i = i + 1;
        }
        0xff
    }
}

/// Where a key sits in the scanning matrix: its column and row. RESTORE and
/// SHIFT LOCK are not wired to the matrix.
pub open spec fn key_position(key: Key) -> Option<(u8, u8)> {
    match key {
        Key::InstDel => Some((0, 0)),
        Key::Return => Some((0, 1)),
        Key::CrsrLeftRight => Some((0, 2)),
        Key::F7 => Some((0, 3)),
        Key::F1 => Some((0, 4)),
        Key::F3 => Some((0, 5)),
        Key::F5 => Some((0, 6)),
        Key::CrsrUpDown => Some((0, 7)),
        Key::D3 => Some((1, 0)),
        Key::W => Some((1, 1)),
        Key::A => Some((1, 2)),
        Key::D4 => Some((1, 3)),
        Key::Z => Some((1, 4)),
        Key::S => Some((1, 5)),
        Key::E => Some((1, 6)),
        Key::LShift => Some((1, 7)),
        Key::D5 => Some((2, 0)),
        Key::R => Some((2, 1)),
        Key::D => Some((2, 2)),
        Key::D6 => Some((2, 3)),
        Key::C => Some((2, 4)),
        Key::F => Some((2, 5)),
        Key::T => Some((2, 6)),
        Key::X => Some((2, 7)),
        Key::D7 => Some((3, 0)),
        Key::Y => Some((3, 1)),
        Key::G => Some((3, 2)),
        Key::D8 => Some((3, 3)),
        Key::B => Some((3, 4)),
        Key::H => Some((3, 5)),
        Key::U => Some((3, 6)),
        Key::V => Some((3, 7)),
        Key::D9 => Some((4, 0)),
        Key::I => Some((4, 1)),
        Key::J => Some((4, 2)),
        Key::D0 => Some((4, 3)),
        Key::M => Some((4, 4)),
        Key::K => Some((4, 5)),
        Key::O => Some((4, 6)),
        Key::N => Some((4, 7)),
        Key::Plus => Some((5, 0)),
        Key::P => Some((5, 1)),
        Key::L => Some((5, 2)),
        Key::Minus => Some((5, 3)),
        Key::Period => Some((5, 4)),
        Key::Colon => Some((5, 5)),
        Key::At => Some((5, 6)),
        Key::Comma => Some((5, 7)),
        Key::Pound => Some((6, 0)),
        Key::Asterisk => Some((6, 1)),
        Key::Semicolon => Some((6, 2)),
        Key::ClrHome => Some((6, 3)),
        Key::RShift => Some((6, 4)),
        Key::Equals => Some((6, 5)),
        Key::UpArrow => Some((6, 6)),
        Key::Slash => Some((6, 7)),
        Key::D1 => Some((7, 0)),
        Key::LeftArrow => Some((7, 1)),
        Key::Ctrl => Some((7, 2)),
        Key::D2 => Some((7, 3)),
        Key::Space => Some((7, 4)),
        Key::Commodore => Some((7, 5)),
        Key::Q => Some((7, 6)),
        Key::RunStop => Some((7, 7)),
        _ => None,
    }
}

/// Every place of the matrix holds a key that sits there.
proof fn lemma_matrix_positions(column: u8, row: u8)
    requires
        column < 8,
        row < 8,
    ensures
        key_position(matrix_key_spec(column, row)) == Some((column, row)),
{
}

/// With only `key` pressed, the first pressed row of its column, looking from
/// `from` on, is its row.
proof fn lemma_only_key_row(states: Seq<KeyState>, key: Key, column: u8, row: u8, from: nat)
    requires
        states.len() == KEY_COUNT,
        column < 8,
        from <= row < 8,
        matrix_key_spec(column, row) == key,
        forall|i: int| 0 <= i < KEY_COUNT && i != key_index_spec(key) ==> #[trigger] states[i]
            == KeyState::Released,
        states[key_index_spec(key) as int] == KeyState::Pressed,
    ensures
        first_pressed_row(states, column as nat, from) == Some(row as nat),
    decreases row - from,
{
    if from < row {
        lemma_matrix_positions(column, from as u8);
        lemma_matrix_positions(column, row);
        lemma_key_index_bound(matrix_key_spec(column, from as u8));
        lemma_only_key_row(states, key, column, row, from + 1);
    }
}

proof fn lemma_key_index_bound(key: Key)
    ensures
        key_index_spec(key) < KEY_COUNT,
        forall|other: Key| key_index_spec(other) == key_index_spec(key) ==> other == key,
{
}

/// Columns whose mask bit is set are skipped.
proof fn lemma_skip_columns(states: Seq<KeyState>, column: u8, from: nat)
    requires
        column < 8,
        from <= column,
    ensures
        scan_from(states, !(1u8 << column), from) == scan_from(states, !(1u8 << column), column as nat),
    decreases column - from,
{
    if from < column {
        let f = from as u8;
        assert(f < column && column < 8 ==> (!(1u8 << column)) & (1u8 << f) != 0) by (bit_vector);
        lemma_skip_columns(states, column, from + 1);
    }
}

/// Keyboard law: with every key released, every scan reads all rows high.
pub proof fn lemma_idle_keyboard_reads_high(states: Seq<KeyState>, mask: u8, column: nat)
    requires
        states.len() == KEY_COUNT,
        forall|i: int| 0 <= i < KEY_COUNT ==> #[trigger] states[i] == KeyState::Released,
    ensures
        scan_from(states, mask, column) == 0xff,
    decreases 8 - column,
{
    if column < 8 {
        lemma_no_pressed_row(states, column, 0);
        lemma_idle_keyboard_reads_high(states, mask, column + 1);
    }
}

proof fn lemma_no_pressed_row(states: Seq<KeyState>, column: nat, row: nat)
    requires
        states.len() == KEY_COUNT,
        forall|i: int| 0 <= i < KEY_COUNT ==> #[trigger] states[i] == KeyState::Released,
    ensures
        first_pressed_row(states, column, row) is None,
    decreases 8 - row,
{
    if row < 8 {
        lemma_key_index_bound(matrix_key_spec(column as u8, row as u8));
        lemma_no_pressed_row(states, column, row + 1);
    }
}

/// Keyboard law: when a single key is pressed, probing its column alone
/// pulls its row low and nothing else.
pub proof fn lemma_single_key_is_seen(states: Seq<KeyState>, key: Key)
    requires
        states.len() == KEY_COUNT,
        key_position(key) is Some,
        forall|i: int| 0 <= i < KEY_COUNT && i != key_index_spec(key) ==> #[trigger] states[i]
            == KeyState::Released,
        states[key_index_spec(key) as int] == KeyState::Pressed,
    ensures
        ({
            let (column, row) = key_position(key)->0;
            scan_from(states, !(1u8 << column), 0) == !(1u8 << row)
        }),
{
    let (column, row) = key_position(key)->0;
    assert(column < 8 && row < 8 && matrix_key_spec(column, row) == key);
    lemma_skip_columns(states, column, 0);
    lemma_only_key_row(states, key, column, row, 0);
    assert(column < 8 ==> (!(1u8 << column)) & (1u8 << column) == 0) by (bit_vector);
}

} // verus!
