//! Which of the two character banks is selected.

use vstd::prelude::*;

verus! {

/// The bank in which the codes that follow are read.
///
/// Only the two shift codes change it; every other code leaves it as it is.
#[derive(Clone, Copy, PartialEq, Eq, Debug, Structural)]
pub enum ShiftState {
    Letters,
    Figures,
}

} // verus!
