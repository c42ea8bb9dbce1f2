use vstd::prelude::*;

verus! {

/// Why a plate cannot be fitted.
#[derive(Clone, Copy, Debug, PartialEq, Eq, Structural)]
pub enum ValueError {
    /// A standard group has no concentration.
    UnassignedConcentration,
    /// A well that is in use has no measured signal.
    UnassignedValue,
    /// A standard group's concentration is not a finite number.
    InvalidConcentration,
    /// A measured signal is not a finite number.
    InvalidValue,
    /// The plate has fewer than four standard groups.
    NotEnoughStandards,
}

} // verus!
