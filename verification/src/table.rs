//! The ITA2 code table: two banks of thirty-two characters and the two codes
//! that switch between them.

use vstd::prelude::*;
use crate::shift::ShiftState;

verus! {

/// The largest five-bit value.
pub const MAX_CODE: u8 = 0b11111;

/// The code that selects the letters bank. It prints nothing.
pub const SHIFT_TO_LETTERS: u8 = 0b11111;

/// The code that selects the figures bank. It prints nothing.
pub const SHIFT_TO_FIGURES: u8 = 0b11011;

/// The letters bank, indexed by code. The entries at the two shift codes are
/// never read and stand for nothing.
pub const LETTERS: [char; 32] = [
    '\0', 'E', '\n', 'A', ' ', 'S', 'I', 'U',
    '\r', 'D', 'R', 'J', 'N', 'F', 'C', 'K',
    'T', 'Z', 'L', 'W', 'H', 'Y', 'P', 'Q',
    'O', 'B', 'G', '\0', 'M', 'X', 'V', '\0',
];

/// The figures bank, indexed by code. Code 5 rings the bell and code 9 asks
/// the far end who it is (ENQ). The entries at the two shift codes are never
/// read and stand for nothing.
pub const FIGURES: [char; 32] = [
    '\0', '3', '\n', '-', ' ', '\x07', '8', '7',
    '\r', '\x05', '4', '\'', ',', '!', ':', '(',
    '5', '"', ')', '2', '#', '6', '0', '1',
    '9', '?', '&', '\0', '.', '/', ';', '\0',
];

/// A value that five bits can hold.
pub open spec fn is_code(value: u8) -> bool {
    value <= MAX_CODE
}

/// One of the two codes that select a bank.
pub open spec fn is_shift(code: u8) -> bool {
    code == SHIFT_TO_LETTERS || code == SHIFT_TO_FIGURES
}

/// The thirty-two characters of a bank, in code order.
pub open spec fn bank(state: ShiftState) -> Seq<char> {
    match state {
        ShiftState::Letters => LETTERS@,
        ShiftState::Figures => FIGURES@,
    }
}

/// The character that `code` prints while `state` is selected.
pub fn lookup(state: ShiftState, code: u8) -> (c: char)
    requires
        is_code(code),
    ensures
        c == bank(state)[code as int],
{
    match state {
        ShiftState::Letters => LETTERS[code as usize],
        ShiftState::Figures => FIGURES[code as usize],
    }
}

} // verus!
