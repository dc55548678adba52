//! Laws of decoding, proved from the definition of [`decoding`].

use vstd::prelude::*;
use crate::decoder::{all_codes, decoding, run};
use crate::shift::ShiftState;
use crate::table::{bank, is_code, is_shift, SHIFT_TO_FIGURES, SHIFT_TO_LETTERS};

verus! {

/// Decoding nothing prints nothing and leaves the selected bank as it was.
pub proof fn lemma_decode_empty(start: ShiftState)
    ensures
        decoding(Seq::<u8>::empty(), start) == Some((Seq::<char>::empty(), start)),
{
}

/// A single code that is no shift prints exactly its character of the
/// selected bank and leaves the selection as it was.
pub proof fn lemma_decode_printing_code(code: u8, start: ShiftState)
    requires
        is_code(code),
        !is_shift(code),
    ensures
        decoding(seq![code], start) == Some((seq![bank(start)[code as int]], start)),
{
    let codes = seq![code];
    assert(codes.drop_last() =~= Seq::<u8>::empty());
    assert(run(codes.drop_last(), start) == (Seq::<char>::empty(), start));
    assert(Seq::<char>::empty().push(bank(start)[code as int]) =~= seq![
        bank(start)[code as int],
    ]);
}

/// The figures shift alone prints nothing and selects the figures bank,
/// whatever was selected before.
pub proof fn lemma_decode_figures_shift(start: ShiftState)
    ensures
        decoding(seq![SHIFT_TO_FIGURES], start) == Some(
            (Seq::<char>::empty(), ShiftState::Figures),
        ),
{
    let codes = seq![SHIFT_TO_FIGURES];
    assert(codes.drop_last() =~= Seq::<u8>::empty());
    assert(run(codes.drop_last(), start) == (Seq::<char>::empty(), start));
}

/// The letters shift alone prints nothing and selects the letters bank,
/// whatever was selected before.
pub proof fn lemma_decode_letters_shift(start: ShiftState)
    ensures
        decoding(seq![SHIFT_TO_LETTERS], start) == Some(
            (Seq::<char>::empty(), ShiftState::Letters),
        ),
{
    let codes = seq![SHIFT_TO_LETTERS];
    assert(codes.drop_last() =~= Seq::<u8>::empty());
    assert(run(codes.drop_last(), start) == (Seq::<char>::empty(), start));
}

/// Running over `first` and then, from the bank that leaves selected, over
/// `second` prints what running over the two joined prints, and ends with the
/// same bank selected.
pub proof fn lemma_run_concat(first: Seq<u8>, second: Seq<u8>, start: ShiftState)
    ensures
        run(first + second, start) == (
            run(first, start).0 + run(second, run(first, start).1).0,
            run(second, run(first, start).1).1,
        ),
    decreases second.len(),
{
    let head = run(first, start);
    if second.len() == 0 {
        assert(first + second =~= first);
        assert(head.0 + Seq::<char>::empty() =~= head.0);
    } else {
        let shorter = second.drop_last();
        lemma_run_concat(first, shorter, start);
        assert((first + second).drop_last() =~= first + shorter);
        assert((first + second).last() == second.last());
        let tail = run(shorter, head.1);
        assert((head.0 + tail.0).push(bank(tail.1)[second.last() as int]) =~= head.0
            + tail.0.push(bank(tail.1)[second.last() as int]));
    }
}

/// A stream may be cut anywhere: decoding `first` from `start`, then `second`
/// from the bank that the first call returned, gives the two halves of the
/// text that decoding `first + second` from `start` gives, and the same final
/// bank. The joined buffer is refused exactly when one of the two pieces is.
pub proof fn lemma_decode_concat(first: Seq<u8>, second: Seq<u8>, start: ShiftState)
    ensures
        decoding(first + second, start) == match decoding(first, start) {
            Some((text_first, middle)) => match decoding(second, middle) {
                Some((text_second, end)) => Some((text_first + text_second, end)),
                None => None,
            },
            None => None,
        },
{
    let joined = first + second;
    lemma_run_concat(first, second, start);
    if all_codes(first) && all_codes(second) {
        assert forall|i: int| 0 <= i < joined.len() implies is_code(#[trigger] joined[i]) by {
            if i < first.len() {
                assert(joined[i] == first[i]);
            } else {
                assert(joined[i] == second[i - first.len()]);
            }
        }
    } else if !all_codes(first) {
        let i = choose|i: int| 0 <= i < first.len() && !is_code(#[trigger] first[i]);
        assert(joined[i] == first[i]);
    } else {
        let i = choose|i: int| 0 <= i < second.len() && !is_code(#[trigger] second[i]);
        assert(joined[first.len() + i] == second[i]);
    }
}

/// A buffer that holds a value above 31 anywhere is refused, whatever stands
/// around that value and whatever bank is selected.
pub proof fn lemma_decode_out_of_range(codes: Seq<u8>, start: ShiftState, at: int)
    requires
        0 <= at < codes.len(),
        codes[at] > 31,
    ensures
        decoding(codes, start) is None,
{
    assert(!is_code(codes[at]));
}

/// A buffer whose values all fit in five bits is decoded: no such value is
/// left without a meaning.
pub proof fn lemma_decode_total(codes: Seq<u8>, start: ShiftState)
    requires
        forall|i: int| 0 <= i < codes.len() ==> codes[i] <= 31,
    ensures
        decoding(codes, start) is Some,
{
}

/// Within a bank, two different codes that are no shifts print different
/// characters.
pub proof fn lemma_bank_distinct(state: ShiftState, a: u8, b: u8)
    requires
        is_code(a),
        is_code(b),
        !is_shift(a),
        !is_shift(b),
        a != b,
    ensures
        bank(state)[a as int] != bank(state)[b as int],
{
}

} // verus!
