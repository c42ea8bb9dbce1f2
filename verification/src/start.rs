//! What the fit takes from an aggregation besides the readings themselves:
//! which standards stand at the two ends of the concentration range, whether a
//! control was measured, and what the residual statistics are divided by.
use vstd::prelude::*;
use crate::aggregation::Aggregation;
use crate::binary64::{order_key, precedes};

verus! {

/// Entry `i` is the first of the entries that no other entry is lower than.
pub open spec fn is_lowest(concentrations: Seq<u64>, i: int) -> bool {
    &&& 0 <= i < concentrations.len()
    &&& forall|j: int|
        0 <= j < i ==> order_key(concentrations[i]) < order_key(#[trigger] concentrations[j])
    &&& forall|j: int|
        i <= j < concentrations.len() ==> order_key(concentrations[i]) <= order_key(
            #[trigger] concentrations[j],
        )
}

/// Entry `i` is the last of the entries that no other entry is higher than.
pub open spec fn is_highest(concentrations: Seq<u64>, i: int) -> bool {
    &&& 0 <= i < concentrations.len()
    &&& forall|j: int|
        0 <= j <= i ==> order_key(#[trigger] concentrations[j]) <= order_key(concentrations[i])
    &&& forall|j: int|
        i < j < concentrations.len() ==> order_key(#[trigger] concentrations[j]) < order_key(
            concentrations[i],
        )
}

/// What the sum of squared residuals over a number of standards is divided by.
#[derive(Clone, Copy, Debug, PartialEq, Eq, Structural)]
pub struct Divisors {
    /// For the mean squared error: the number of standards.
    pub mse: i64,
    /// For the root mean squared error: one less.
    pub rmse: i64,
    /// For the standard error of the estimate: four less, one for each fitted
    /// parameter. It is zero for a fit to exactly four standards.
    pub sy_x: i64,
}

/// The standard of the smallest concentration; among equals, the first.
pub fn lowest(concentrations: &Vec<u64>) -> (lowest: usize)
    requires
        concentrations@.len() > 0,
    ensures
        is_lowest(concentrations@, lowest as int),
{
    let mut best: usize = 0;
    let mut j: usize = 1;
    while j < concentrations.len()
        invariant
            1 <= j <= concentrations@.len(),
            best < j,
            forall|k: int|
                0 <= k < best ==> order_key(concentrations@[best as int]) < order_key(
                    #[trigger] concentrations@[k],
                ),
            forall|k: int|
                best <= k < j ==> order_key(concentrations@[best as int]) <= order_key(
                    #[trigger] concentrations@[k],
                ),
        decreases concentrations@.len() - j,
    {
        if precedes(concentrations[j], concentrations[best]) {
            best = j;
        }
        j += 1;
    }
    best
}

/// The standard of the largest concentration; among equals, the last.
pub fn highest(concentrations: &Vec<u64>) -> (highest: usize)
    requires
        concentrations@.len() > 0,
    ensures
        is_highest(concentrations@, highest as int),
{
    let mut best: usize = 0;
    let mut j: usize = 1;
    while j < concentrations.len()
        invariant
            1 <= j <= concentrations@.len(),
            best < j,
            forall|k: int|
                0 <= k <= best ==> order_key(#[trigger] concentrations@[k]) <= order_key(
                    concentrations@[best as int],
                ),
            forall|k: int|
                best < k < j ==> order_key(#[trigger] concentrations@[k]) < order_key(
                    concentrations@[best as int],
                ),
        decreases concentrations@.len() - j,
    {
        if !precedes(concentrations[j], concentrations[best]) {
            best = j;
        }
        j += 1;
    }
    best
}

/// What the residual statistics of a fit to so many standards are divided by.
pub fn divisors(standards: usize) -> (d: Divisors)
    requires
        standards <= i64::MAX,
    ensures
        d.mse == standards,
        d.rmse == standards - 1,
        d.sy_x == standards - 4,
{
    let n: i64 = standards as i64;
    Divisors { mse: n, rmse: n - 1, sy_x: n - 4 }
}

impl Aggregation {
    /// The concentrations of the standard groups, in list order.
    pub open spec fn concentrations(&self) -> Seq<u64> {
        Seq::new(self.standards@.len(), |g: int| self.standards@[g].concentration)
    }

    /// Whether any control well was read. If so the zero-dose asymptote starts
    /// at the control mean, else at the reading of the lowest standard.
    pub fn has_control(&self) -> (r: bool)
        ensures
            r == (self.control@.len() > 0),
    {
        self.control.len() > 0
    }

    /// The standard group of the smallest concentration; among equals, the
    /// first.
    pub fn lowest_standard(&self) -> (lowest: usize)
        requires
            self.standards@.len() > 0,
        ensures
            is_lowest(self.concentrations(), lowest as int),
    {
        let concentrations = self.standard_concentrations();
        self::lowest(&concentrations)
    }

    /// The standard group of the largest concentration; among equals, the
    /// last.
    pub fn highest_standard(&self) -> (highest: usize)
        requires
            self.standards@.len() > 0,
        ensures
            is_highest(self.concentrations(), highest as int),
    {
        let concentrations = self.standard_concentrations();
        self::highest(&concentrations)
    }

    /// The concentrations of the standard groups, in list order.
    pub fn standard_concentrations(&self) -> (concentrations: Vec<u64>)
        ensures
            concentrations@ == self.concentrations(),
    {
        let mut concentrations: Vec<u64> = Vec::new();
        while concentrations.len() < self.standards.len()
            invariant
                concentrations@.len() <= self.standards@.len(),
                forall|g: int|
                    0 <= g < concentrations@.len() ==> concentrations@[g]
                        == self.standards@[g].concentration,
            decreases self.standards@.len() - concentrations@.len(),
        {
            concentrations.push(self.standards[concentrations.len()].concentration);
        }
        assert(concentrations@ =~= self.concentrations());
        concentrations
    }
}

/// A sequence has one lowest entry.
pub proof fn lemma_lowest_is_unique(concentrations: Seq<u64>, i: int, j: int)
    requires
        is_lowest(concentrations, i),
        is_lowest(concentrations, j),
    ensures
        i == j,
{
    if i < j {
        assert(order_key(concentrations[j]) < order_key(concentrations[i]));
        assert(order_key(concentrations[i]) <= order_key(concentrations[j]));
    }
    if j < i {
        assert(order_key(concentrations[i]) < order_key(concentrations[j]));
        assert(order_key(concentrations[j]) <= order_key(concentrations[i]));
    }
}

/// A sequence has one highest entry.
pub proof fn lemma_highest_is_unique(concentrations: Seq<u64>, i: int, j: int)
    requires
        is_highest(concentrations, i),
        is_highest(concentrations, j),
    ensures
        i == j,
{
    if i < j {
        assert(order_key(concentrations[j]) < order_key(concentrations[i]));
        assert(order_key(concentrations[i]) <= order_key(concentrations[j]));
    }
    if j < i {
        assert(order_key(concentrations[i]) < order_key(concentrations[j]));
        assert(order_key(concentrations[j]) <= order_key(concentrations[i]));
    }
}

} // verus!
