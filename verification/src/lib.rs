//! Plate data and the bookkeeping of a four-parameter logistic fit: which wells
//! feed which mean, when a plate is refused and why, and where the fit starts.
//! Numbers travel through the library as double-precision bit patterns; the
//! arithmetic on them is left to the caller.
//!
//! - `plate`: wells, roles, groups and the plate itself.
//! - `aggregation`: sorting the readings of a plate, or refusing it.
//! - `acceptance`: which plates are accepted, and what is reported of the rest.
//! - `start`: the ends of the concentration range and the divisors of the
//!   residual statistics.
//! - `binary64`: finiteness and order of bit patterns.
//! - `color`: the colours of the roles.
use vstd::prelude::*;

pub mod acceptance;
pub mod aggregation;
pub mod binary64;
pub mod color;
pub mod error;
pub mod plate;
pub mod start;

pub use crate::aggregation::{Aggregation, StandardGroup, UnknownGroup};
pub use crate::error::ValueError;
pub use crate::plate::{Group, Microplate, Sample, SampleType};
pub use crate::start::Divisors;

verus! {

/// The default value of any type that has one: whatever the type's own
/// `Default::default` promises of its result holds of this one.
pub fn default<D: Default>() -> (r: D)
    ensures
        call_ensures(D::default, (), r),
{
    D::default()
}

} // verus!
