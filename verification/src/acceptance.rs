//! When a plate is accepted and, when it is not, which finding is reported:
//! the verdict restated in terms of the plate's wells and groups.
use vstd::prelude::*;
use crate::aggregation::{
    aggregation_of, earliest, earliest_at, group_faults, lemma_earliest_exists, lemma_earliest_is,
    sample_faults, verdict, Aggregation,
};
use crate::binary64::finite;
use crate::error::ValueError;
use crate::plate::{Group, Microplate, Sample, SampleType};

verus! {

/// A well in use holds a reading, and the reading is finite.
pub open spec fn sound_sample(s: Sample) -> bool {
    s.typ != SampleType::Unused ==> s.value is Some && finite(s.value->0)
}

/// A well in use has no reading.
pub open spec fn lacks_value(s: Sample) -> bool {
    s.typ != SampleType::Unused && s.value is None
}

/// A well in use holds a reading that is not finite.
pub open spec fn holds_invalid_value(s: Sample) -> bool {
    s.typ != SampleType::Unused && s.value is Some && !finite(s.value->0)
}

/// A group has a concentration, and the concentration is finite.
pub open spec fn sound_group(g: Group) -> bool {
    g.concentration is Some && finite(g.concentration->0)
}

/// Every well of the plate is sound.
pub open spec fn wells_sound(plate: &Microplate) -> bool {
    forall|i: int| 0 <= i < plate.samples@.len() ==> sound_sample(#[trigger] plate.samples@[i])
}

/// Every well is sound, there are at least four standard groups, and each of
/// them is sound.
pub open spec fn sound(plate: &Microplate) -> bool {
    &&& wells_sound(plate)
    &&& plate.standard_groups@.len() >= 4
    &&& forall|g: int|
        0 <= g < plate.standard_groups@.len() ==> sound_group(#[trigger] plate.standard_groups@[g])
}

/// What one call of `Aggregation::new` on the plate may return.
pub open spec fn is_outcome(plate: &Microplate, res: Result<Aggregation, ValueError>) -> bool {
    match res {
        Ok(aggregation) => {
            &&& verdict(plate) is None
            &&& aggregation@ == aggregation_of(plate)
            &&& aggregation.well_formed()
        },
        Err(e) => verdict(plate) == Some(e),
    }
}

/// A sequence has no first fault exactly when it has no fault.
pub proof fn lemma_earliest_none(faults: Seq<Option<ValueError>>)
    ensures
        earliest(faults) is None <==> forall|i: int|
            0 <= i < faults.len() ==> (#[trigger] faults[i]) is None,
{
    if exists|i: int| 0 <= i < faults.len() && (#[trigger] faults[i]) is Some {
        let i = choose|i: int| 0 <= i < faults.len() && (#[trigger] faults[i]) is Some;
        lemma_earliest_exists(faults, i);
        let k = choose|k: int| 0 <= k <= i && earliest_at(faults, k);
        lemma_earliest_is(faults, k);
    }
}

/// A plate is accepted exactly when it is sound: every well in use holds a
/// finite reading, there are at least four standard groups, and each has a
/// finite concentration.
pub proof fn lemma_accepted_iff_sound(plate: &Microplate)
    ensures
        verdict(plate) is None <==> sound(plate),
{
    let wells = sample_faults(plate.samples@);
    let groups = group_faults(plate.standard_groups@);
    lemma_earliest_none(wells);
    lemma_earliest_none(groups);
    if sound(plate) {
        assert forall|i: int| 0 <= i < wells.len() implies (#[trigger] wells[i]) is None by {
            assert(sound_sample(plate.samples@[i]));
        }
        assert forall|g: int| 0 <= g < groups.len() implies (#[trigger] groups[g]) is None by {
            assert(sound_group(plate.standard_groups@[g]));
        }
    }
    if verdict(plate) is None {
        assert forall|i: int| 0 <= i < plate.samples@.len() implies sound_sample(
            #[trigger] plate.samples@[i],
        ) by {
            assert(wells[i] is None);
        }
        assert forall|g: int| 0 <= g < plate.standard_groups@.len() implies sound_group(
            #[trigger] plate.standard_groups@[g],
        ) by {
            assert(groups[g] is None);
        }
    }
}

/// A well in use without a reading has the plate refused for an unassigned
/// value, unless a well before it holds a reading that is not finite.
pub proof fn lemma_missing_value_is_reported(plate: &Microplate, i: int)
    requires
        0 <= i < plate.samples@.len(),
        lacks_value(plate.samples@[i]),
        forall|j: int| 0 <= j < i ==> !holds_invalid_value(#[trigger] plate.samples@[j]),
    ensures
        verdict(plate) == Some(ValueError::UnassignedValue),
{
    let wells = sample_faults(plate.samples@);
    lemma_earliest_exists(wells, i);
    let k = choose|k: int| 0 <= k <= i && earliest_at(wells, k);
    lemma_earliest_is(wells, k);
    if k < i {
        assert(!holds_invalid_value(plate.samples@[k]));
    }
}

/// A well in use with a reading that is not finite has the plate refused for
/// an invalid value, unless a well before it has no reading.
pub proof fn lemma_invalid_value_is_reported(plate: &Microplate, i: int)
    requires
        0 <= i < plate.samples@.len(),
        holds_invalid_value(plate.samples@[i]),
        forall|j: int| 0 <= j < i ==> !lacks_value(#[trigger] plate.samples@[j]),
    ensures
        verdict(plate) == Some(ValueError::InvalidValue),
{
    let wells = sample_faults(plate.samples@);
    lemma_earliest_exists(wells, i);
    let k = choose|k: int| 0 <= k <= i && earliest_at(wells, k);
    lemma_earliest_is(wells, k);
    if k < i {
        assert(!lacks_value(plate.samples@[k]));
    }
}

/// A plate of sound wells with fewer than four standard groups is refused for
/// want of standards, whatever its groups hold.
pub proof fn lemma_few_standards_are_reported(plate: &Microplate)
    requires
        wells_sound(plate),
        plate.standard_groups@.len() < 4,
    ensures
        verdict(plate) == Some(ValueError::NotEnoughStandards),
{
    let wells = sample_faults(plate.samples@);
    lemma_earliest_none(wells);
    assert forall|i: int| 0 <= i < wells.len() implies (#[trigger] wells[i]) is None by {
        assert(sound_sample(plate.samples@[i]));
    }
}

/// On a plate of sound wells with at least four standard groups, a standard
/// group without a concentration has the plate refused for an unassigned
/// concentration, unless a group before it has a concentration that is not
/// finite.
pub proof fn lemma_missing_concentration_is_reported(plate: &Microplate, g: int)
    requires
        wells_sound(plate),
        plate.standard_groups@.len() >= 4,
        0 <= g < plate.standard_groups@.len(),
        plate.standard_groups@[g].concentration is None,
        forall|j: int|
            0 <= j < g ==> {
                let c = (#[trigger] plate.standard_groups@[j]).concentration;
                c is Some ==> finite(c->0)
            },
    ensures
        verdict(plate) == Some(ValueError::UnassignedConcentration),
{
    let wells = sample_faults(plate.samples@);
    let groups = group_faults(plate.standard_groups@);
    lemma_earliest_none(wells);
    assert forall|i: int| 0 <= i < wells.len() implies (#[trigger] wells[i]) is None by {
        assert(sound_sample(plate.samples@[i]));
    }
    lemma_earliest_exists(groups, g);
    let k = choose|k: int| 0 <= k <= g && earliest_at(groups, k);
    lemma_earliest_is(groups, k);
    if k < g {
        let c = plate.standard_groups@[k].concentration;
        assert(c is Some ==> finite(c->0));
    }
}

/// On a plate of sound wells with at least four standard groups, a standard
/// group with a concentration that is not finite has the plate refused for an
/// invalid concentration, unless a group before it has no concentration.
pub proof fn lemma_invalid_concentration_is_reported(plate: &Microplate, g: int)
    requires
        wells_sound(plate),
        plate.standard_groups@.len() >= 4,
        0 <= g < plate.standard_groups@.len(),
        plate.standard_groups@[g].concentration is Some,
        !finite(plate.standard_groups@[g].concentration->0),
        forall|j: int|
            0 <= j < g ==> (#[trigger] plate.standard_groups@[j]).concentration is Some,
    ensures
        verdict(plate) == Some(ValueError::InvalidConcentration),
{
    let wells = sample_faults(plate.samples@);
    let groups = group_faults(plate.standard_groups@);
    lemma_earliest_none(wells);
    assert forall|i: int| 0 <= i < wells.len() implies (#[trigger] wells[i]) is None by {
        assert(sound_sample(plate.samples@[i]));
    }
    lemma_earliest_exists(groups, g);
    let k = choose|k: int| 0 <= k <= g && earliest_at(groups, k);
    lemma_earliest_is(groups, k);
    if k < g {
        assert(plate.standard_groups@[k].concentration is Some);
    }
}

/// Aggregating a plate twice gives the same: both calls refuse it, for the
/// same reason, or both accept it and hand out the same readings.
pub proof fn lemma_outcome_is_determined(
    plate: &Microplate,
    first: Result<Aggregation, ValueError>,
    second: Result<Aggregation, ValueError>,
)
    requires
        is_outcome(plate, first),
        is_outcome(plate, second),
    ensures
        first is Ok <==> second is Ok,
        first is Ok ==> first->Ok_0@ == second->Ok_0@,
        first is Err ==> first->Err_0 == second->Err_0,
{
}

} // verus!
