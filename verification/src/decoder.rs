//! The decoder: a single pass over a buffer of five-bit codes.

use vstd::prelude::*;
use crate::shift::ShiftState;
use crate::table::{bank, is_code, lookup, MAX_CODE, SHIFT_TO_FIGURES, SHIFT_TO_LETTERS};

verus! {

/// Every value of `codes` fits in five bits.
pub open spec fn all_codes(codes: Seq<u8>) -> bool {
    forall|i: int| 0 <= i < codes.len() ==> is_code(#[trigger] codes[i])
}

/// What one code does to the text printed so far and to the selected bank: a
/// shift code selects its bank and prints nothing, any other code prints its
/// character of the selected bank and leaves the selection alone.
pub open spec fn step(text: Seq<char>, state: ShiftState, code: u8) -> (Seq<char>, ShiftState) {
    if code == SHIFT_TO_LETTERS {
        (text, ShiftState::Letters)
    } else if code == SHIFT_TO_FIGURES {
        (text, ShiftState::Figures)
    } else {
        (text.push(bank(state)[code as int]), state)
    }
}

/// The text that `codes` print, and the bank selected after the last of them,
/// when `start` is selected before the first: `step` folded over `codes` from
/// the front.
pub open spec fn run(codes: Seq<u8>, start: ShiftState) -> (Seq<char>, ShiftState)
    decreases codes.len(),
{
    if codes.len() == 0 {
        (Seq::empty(), start)
    } else {
        let before = run(codes.drop_last(), start);
        step(before.0, before.1, codes.last())
    }
}

/// What decoding `codes` from `start` gives: the text and the final bank, or
/// nothing when some value does not fit in five bits.
pub open spec fn decoding(codes: Seq<u8>, start: ShiftState) -> Option<(Seq<char>, ShiftState)> {
    if all_codes(codes) {
        Some(run(codes, start))
    } else {
        None
    }
}

/// Decodes a buffer of five-bit codes, starting with the bank `state`
/// selected.
///
/// Returns the text and the bank that is selected after the last code; hand
/// that bank to the next call to go on with the same stream. Returns `None`
/// when a value of the buffer is above 31: such a value is no ITA2 code, and
/// nothing of the buffer is decoded then.
pub fn decode(buf: &[u8], state: ShiftState) -> (result: Option<(String, ShiftState)>)
    ensures
        match result {
            Some((text, end)) => decoding(buf@, state) == Some((text@, end)),
            None => decoding(buf@, state) is None,
        },
        result is None <==> exists|i: int| 0 <= i < buf@.len() && buf@[i] > MAX_CODE,
{
    let mut out = String::new();
    let mut current = state;
    let mut i: usize = 0;
    while i < buf.len()
        invariant
            i <= buf.len(),
            all_codes(buf@.take(i as int)),
            run(buf@.take(i as int), state) == (out@, current),
        decreases buf.len() - i,
    {
        let code = buf[i];
        if code > MAX_CODE {
            return None;
        }
        if code == SHIFT_TO_LETTERS {
            current = ShiftState::Letters;
        } else if code == SHIFT_TO_FIGURES {
            current = ShiftState::Figures;
        } else {
            out.push(lookup(current, code));
        }
        proof {
            assert(buf@.take(i + 1).drop_last() == buf@.take(i as int));
        }
        i += 1;
    }
    proof {
        assert(buf@.take(i as int) == buf@);
    }
    Some((out, current))
}

} // verus!
