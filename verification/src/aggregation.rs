//! From a plate to what a fit is computed from: the plate is refused with the
//! first thing found wrong with it, or its readings are handed out role by role
//! and group by group, in plate order.
use vstd::prelude::*;
use crate::acceptance::{is_outcome, lemma_accepted_iff_sound, sound};
use crate::binary64::{finite, is_finite};
use crate::error::ValueError;
use crate::plate::{Group, Microplate, Sample, SampleType};

verus! {

/// What is wrong with a well, if anything: a well in use needs a reading, and
/// the reading must be a finite number.
pub open spec fn sample_fault(s: Sample) -> Option<ValueError> {
    if s.typ == SampleType::Unused {
        None
    } else {
        match s.value {
            None => Some(ValueError::UnassignedValue),
            Some(v) => if finite(v) {
                None
            } else {
                Some(ValueError::InvalidValue)
            },
        }
    }
}

/// What is wrong with a standard group, if anything: it needs a concentration,
/// and the concentration must be a finite number.
pub open spec fn group_fault(g: Group) -> Option<ValueError> {
    match g.concentration {
        None => Some(ValueError::UnassignedConcentration),
        Some(c) => if finite(c) {
            None
        } else {
            Some(ValueError::InvalidConcentration)
        },
    }
}

/// The faults of the wells, in plate order.
pub open spec fn sample_faults(samples: Seq<Sample>) -> Seq<Option<ValueError>> {
    Seq::new(samples.len(), |i: int| sample_fault(samples[i]))
}

/// The faults of the groups, in list order.
pub open spec fn group_faults(groups: Seq<Group>) -> Seq<Option<ValueError>> {
    Seq::new(groups.len(), |i: int| group_fault(groups[i]))
}

/// Entry `i` holds a fault and no entry before it does.
pub open spec fn earliest_at(faults: Seq<Option<ValueError>>, i: int) -> bool {
    &&& 0 <= i < faults.len()
    &&& faults[i] is Some
    &&& forall|j: int| 0 <= j < i ==> (#[trigger] faults[j]) is None
}

/// The first fault in the sequence, if it holds any.
pub open spec fn earliest(faults: Seq<Option<ValueError>>) -> Option<ValueError> {
    if exists|i: int| earliest_at(faults, i) {
        faults[choose|i: int| earliest_at(faults, i)]
    } else {
        None
    }
}

/// Why the plate is refused, if it is. Wells are looked at first, in plate
/// order; then the number of standard groups; then the standard groups, in
/// list order. The first finding decides.
pub open spec fn verdict(plate: &Microplate) -> Option<ValueError> {
    let well = earliest(sample_faults(plate.samples@));
    if well is Some {
        well
    } else if plate.standard_groups@.len() < 4 {
        Some(ValueError::NotEnoughStandards)
    } else {
        earliest(group_faults(plate.standard_groups@))
    }
}

/// Some well points outside its list, and neither it nor any well before it
/// is at fault: its reading can be sorted nowhere.
pub open spec fn unsortable(plate: &Microplate) -> bool {
    exists|s: int|
        plate.is_first_stray(s) && forall|j: int|
            0 <= j <= s ==> sample_fault(#[trigger] plate.samples@[j]) is None
}

/// Whether a well's reading belongs to the given role and, for standards and
/// unknowns, to the given group. Blanks and controls have no groups.
pub open spec fn routed_to(s: Sample, typ: SampleType, group: int) -> bool {
    &&& s.typ == typ
    &&& (typ == SampleType::Standard || typ == SampleType::Unknown) ==> s.group == group
}

/// `routed_to` as a predicate on wells.
pub open spec fn route(typ: SampleType, group: int) -> spec_fn(Sample) -> bool {
    |s: Sample| routed_to(s, typ, group)
}

/// The reading of a well (0 for a well that has none).
pub open spec fn reading(s: Sample) -> u64 {
    match s.value {
        Some(v) => v,
        None => 0,
    }
}

/// The readings of the wells of one role and group, in plate order.
pub open spec fn readings(samples: Seq<Sample>, typ: SampleType, group: int) -> Seq<u64> {
    samples.filter(route(typ, group)).map_values(|s: Sample| reading(s))
}

/// The concentration of a group (0 for a group that has none).
pub open spec fn dose(g: Group) -> u64 {
    match g.concentration {
        Some(c) => c,
        None => 0,
    }
}

/// The readings of one group of unknowns.
pub struct UnknownGroup {
    /// Bit patterns of the group's readings, in plate order.
    pub readings: Vec<u64>,
    pub label: String,
}

/// The readings of one group of standards.
pub struct StandardGroup {
    /// Bit pattern of the group's known concentration.
    pub concentration: u64,
    /// Bit patterns of the group's readings, in plate order.
    pub readings: Vec<u64>,
}

/// The readings of an accepted plate, sorted by what they are averaged into.
pub struct Aggregation {
    /// Bit patterns of the blank readings, in plate order.
    pub blank: Vec<u64>,
    /// Bit patterns of the control readings, in plate order.
    pub control: Vec<u64>,
    /// One entry for each of the plate's unknown groups.
    pub unknowns: Vec<UnknownGroup>,
    /// One entry for each of the plate's standard groups.
    pub standards: Vec<StandardGroup>,
}

pub struct UnknownGroupView {
    pub readings: Seq<u64>,
    pub label: Seq<char>,
}

pub struct StandardGroupView {
    pub concentration: u64,
    pub readings: Seq<u64>,
}

pub struct AggregationView {
    pub blank: Seq<u64>,
    pub control: Seq<u64>,
    pub unknowns: Seq<UnknownGroupView>,
    pub standards: Seq<StandardGroupView>,
}

impl View for UnknownGroup {
    type V = UnknownGroupView;

    open spec fn view(&self) -> UnknownGroupView {
        UnknownGroupView { readings: self.readings@, label: self.label@ }
    }
}

impl View for StandardGroup {
    type V = StandardGroupView;

    open spec fn view(&self) -> StandardGroupView {
        StandardGroupView { concentration: self.concentration, readings: self.readings@ }
    }
}

impl View for Aggregation {
    type V = AggregationView;

    open spec fn view(&self) -> AggregationView {
        AggregationView {
            blank: self.blank@,
            control: self.control@,
            unknowns: Seq::new(self.unknowns@.len(), |g: int| self.unknowns@[g]@),
            standards: Seq::new(self.standards@.len(), |g: int| self.standards@[g]@),
        }
    }
}

/// Every pattern in the sequence stands for a finite number.
pub open spec fn all_finite(patterns: Seq<u64>) -> bool {
    forall|k: int| 0 <= k < patterns.len() ==> finite(#[trigger] patterns[k])
}

/// What an accepted plate aggregates to.
pub open spec fn aggregation_of(plate: &Microplate) -> AggregationView {
    AggregationView {
        blank: readings(plate.samples@, SampleType::Blank, 0),
        control: readings(plate.samples@, SampleType::Control, 0),
        unknowns: Seq::new(
            plate.unknown_groups@.len(),
            |g: int|
                UnknownGroupView {
                    readings: readings(plate.samples@, SampleType::Unknown, g),
                    label: plate.unknown_groups@[g].label@,
                },
        ),
        standards: Seq::new(
            plate.standard_groups@.len(),
            |g: int|
                StandardGroupView {
                    concentration: dose(plate.standard_groups@[g]),
                    readings: readings(plate.samples@, SampleType::Standard, g),
                },
        ),
    }
}

/// A fault with none before it is the first fault.
pub proof fn lemma_earliest_is(faults: Seq<Option<ValueError>>, i: int)
    requires
        earliest_at(faults, i),
    ensures
        earliest(faults) == faults[i],
{
    let k = choose|k: int| earliest_at(faults, k);
    assert(earliest_at(faults, k));
    if k < i {
        assert(faults[k] is None);
    }
    if i < k {
        assert(faults[i] is None);
    }
}

/// A sequence holds a first fault exactly when it holds a fault.
pub proof fn lemma_earliest_exists(faults: Seq<Option<ValueError>>, i: int)
    requires
        0 <= i < faults.len(),
        faults[i] is Some,
    ensures
        exists|k: int| 0 <= k <= i && earliest_at(faults, k),
    decreases i,
{
    if exists|j: int| 0 <= j < i && (#[trigger] faults[j]) is Some {
        let j = choose|j: int| 0 <= j < i && (#[trigger] faults[j]) is Some;
        lemma_earliest_exists(faults, j);
    } else {
        assert(earliest_at(faults, i));
    }
}

/// Looking at one more well adds its reading to the list it is routed to and
/// leaves every other list as it was.
pub proof fn lemma_readings_step(samples: Seq<Sample>, i: int, typ: SampleType, group: int)
    requires
        0 <= i < samples.len(),
    ensures
        readings(samples.take(i + 1), typ, group) == if routed_to(samples[i], typ, group) {
            readings(samples.take(i), typ, group).push(reading(samples[i]))
        } else {
            readings(samples.take(i), typ, group)
        },
{
    let before = samples.take(i);
    assert(samples.take(i + 1) =~= before.push(samples[i]));
    before.lemma_filter_push(samples[i], route(typ, group));
    before.filter(route(typ, group)).lemma_push_map_commute(
        |s: Sample| reading(s),
        samples[i],
    );
}

/// What is wrong with the well, if anything.
pub fn check_sample(sample: &Sample) -> (fault: Option<ValueError>)
    ensures
        fault == sample_fault(*sample),
{
    match sample.typ {
        SampleType::Unused => None,
        _ => match sample.value {
            None => Some(ValueError::UnassignedValue),
            Some(value) => if is_finite(value) {
                None
            } else {
                Some(ValueError::InvalidValue)
            },
        },
    }
}

/// What is wrong with the standard group, if anything.
pub fn check_group(group: &Group) -> (fault: Option<ValueError>)
    ensures
        fault == group_fault(*group),
{
    match group.concentration {
        None => Some(ValueError::UnassignedConcentration),
        Some(concentration) => if is_finite(concentration) {
            None
        } else {
            Some(ValueError::InvalidConcentration)
        },
    }
}

impl Aggregation {
    /// There are at least four standard groups, and every number held is
    /// finite.
    pub open spec fn well_formed(&self) -> bool {
        &&& self.standards@.len() >= 4
        &&& all_finite(self.blank@)
        &&& all_finite(self.control@)
        &&& forall|g: int|
            0 <= g < self.unknowns@.len() ==> all_finite((#[trigger] self.unknowns@[g]).readings@)
        &&& forall|g: int|
            0 <= g < self.standards@.len() ==> {
                &&& finite((#[trigger] self.standards@[g]).concentration)
                &&& all_finite(self.standards@[g].readings@)
            }
    }

    /// Sorts the readings of a plate by role and group, or says why the plate
    /// is refused.
    pub fn new(microplate: &Microplate) -> (res: Result<Aggregation, ValueError>)
        requires
            microplate.groups_in_range(),
        ensures
            res is Ok <==> sound(microplate),
            is_outcome(microplate, res),
    {
        proof {
            lemma_accepted_iff_sound(microplate);
        }
        let ghost samples = microplate.samples@;
        let unknowns_len = microplate.unknown_groups.len();
        let standards_len = microplate.standard_groups.len();

        let mut blank: Vec<u64> = Vec::new();
        let mut control: Vec<u64> = Vec::new();
        let mut unknowns: Vec<UnknownGroup> = Vec::new();
        let mut standards: Vec<StandardGroup> = Vec::new();
        while unknowns.len() < unknowns_len
            invariant
                unknowns_len == microplate.unknown_groups@.len(),
                unknowns@.len() <= unknowns_len,
                forall|g: int|
                    0 <= g < unknowns@.len() ==> {
                        &&& (#[trigger] unknowns@[g]).readings@ == Seq::<u64>::empty()
                        &&& unknowns@[g].label@ == microplate.unknown_groups@[g].label@
                    },
            decreases unknowns_len - unknowns@.len(),
        {
            let label = microplate.unknown_groups[unknowns.len()].label.clone();
            unknowns.push(UnknownGroup { readings: Vec::new(), label });
        }
        while standards.len() < standards_len
            invariant
                standards@.len() <= standards_len,
                forall|g: int|
                    0 <= g < standards@.len() ==> (#[trigger] standards@[g]).readings@ == Seq::<
                        u64,
                    >::empty(),
            decreases standards_len - standards@.len(),
        {
            standards.push(StandardGroup { concentration: 0, readings: Vec::new() });
        }

        let mut i: usize = 0;
        while i < microplate.samples.len()
            invariant
                samples == microplate.samples@,
                microplate.groups_in_range(),
                i <= samples.len(),
                unknowns_len == microplate.unknown_groups@.len(),
                standards_len == microplate.standard_groups@.len(),
                forall|j: int| 0 <= j < i ==> sample_fault(#[trigger] samples[j]) is None,
                blank@ == readings(samples.take(i as int), SampleType::Blank, 0),
                control@ == readings(samples.take(i as int), SampleType::Control, 0),
                all_finite(blank@),
                all_finite(control@),
                unknowns@.len() == unknowns_len,
                standards@.len() == standards_len,
                forall|g: int|
                    0 <= g < unknowns@.len() ==> {
                        &&& (#[trigger] unknowns@[g]).readings@ == readings(
                            samples.take(i as int),
                            SampleType::Unknown,
                            g,
                        )
                        &&& unknowns@[g].label@ == microplate.unknown_groups@[g].label@
                        &&& all_finite(unknowns@[g].readings@)
                    },
                forall|g: int|
                    0 <= g < standards@.len() ==> {
                        &&& (#[trigger] standards@[g]).readings@ == readings(
                            samples.take(i as int),
                            SampleType::Standard,
                            g,
                        )
                        &&& all_finite(standards@[g].readings@)
                    },
            decreases samples.len() - i,
        {
            let sample = microplate.samples[i];
            proof {
                lemma_readings_step(samples, i as int, SampleType::Blank, 0);
                lemma_readings_step(samples, i as int, SampleType::Control, 0);
                assert forall|g: int| 0 <= g < unknowns_len implies #[trigger] readings(
                    samples.take(i + 1),
                    SampleType::Unknown,
                    g,
                ) == if routed_to(samples[i as int], SampleType::Unknown, g) {
                    readings(samples.take(i as int), SampleType::Unknown, g).push(
                        reading(samples[i as int]),
                    )
                } else {
                    readings(samples.take(i as int), SampleType::Unknown, g)
                } by {
                    lemma_readings_step(samples, i as int, SampleType::Unknown, g);
                }
                assert forall|g: int| 0 <= g < standards_len implies #[trigger] readings(
                    samples.take(i + 1),
                    SampleType::Standard,
                    g,
                ) == if routed_to(samples[i as int], SampleType::Standard, g) {
                    readings(samples.take(i as int), SampleType::Standard, g).push(
                        reading(samples[i as int]),
                    )
                } else {
                    readings(samples.take(i as int), SampleType::Standard, g)
                } by {
                    lemma_readings_step(samples, i as int, SampleType::Standard, g);
                }
            }
            if let Some(fault) = check_sample(&sample) {
                proof {
                    lemma_earliest_is(sample_faults(samples), i as int);
                }
                return Err(fault);
            }
            if let Some(value) = sample.value {
                match sample.typ {
                    SampleType::Blank => {
                        blank.push(value);
                    },
                    SampleType::Control => {
                        control.push(value);
                    },
                    SampleType::Standard => {
                        standards[sample.group].readings.push(value);
                    },
                    SampleType::Unknown => {
                        unknowns[sample.group].readings.push(value);
                    },
                    SampleType::Unused => {},
                }
            }
            i += 1;
        }
        assert(samples.take(i as int) =~= samples);
        assert(earliest(sample_faults(samples)) is None);
        if standards_len < 4 {
            return Err(ValueError::NotEnoughStandards);
        }
        let mut g: usize = 0;
        while g < standards_len
            invariant
                samples == microplate.samples@,
                earliest(sample_faults(samples)) is None,
                4 <= standards_len,
                g <= standards_len,
                standards_len == microplate.standard_groups@.len(),
                standards@.len() == standards_len,
                forall|j: int|
                    0 <= j < g ==> group_fault(#[trigger] microplate.standard_groups@[j]) is None,
                forall|j: int|
                    0 <= j < g ==> (#[trigger] standards@[j]).concentration == dose(
                        microplate.standard_groups@[j],
                    ),
                forall|j: int|
                    0 <= j < standards@.len() ==> {
                        &&& (#[trigger] standards@[j]).readings@ == readings(
                            samples,
                            SampleType::Standard,
                            j,
                        )
                        &&& all_finite(standards@[j].readings@)
                    },
            decreases standards_len - g,
        {
            if let Some(fault) = check_group(&microplate.standard_groups[g]) {
                proof {
                    lemma_earliest_is(group_faults(microplate.standard_groups@), g as int);
                }
                return Err(fault);
            }
            if let Some(concentration) = microplate.standard_groups[g].concentration {
                standards[g].concentration = concentration;
            }
            g += 1;
        }
        let aggregation = Aggregation { blank, control, unknowns, standards };
        assert(aggregation@.unknowns =~= aggregation_of(microplate).unknowns);
        assert(aggregation@.standards =~= aggregation_of(microplate).standards);
        Ok(aggregation)
    }

    /// As `new`, for any plate: `None` where a well that points outside its
    /// list is reached before any fault is found, so that its reading can be
    /// sorted nowhere.
    pub fn try_new(microplate: &Microplate) -> (res: Option<Result<Aggregation, ValueError>>)
        ensures
            res is None <==> unsortable(microplate),
            res is Some ==> is_outcome(microplate, res->0),
            res is Some && res->0 is Ok <==> sound(microplate) && microplate.groups_in_range(),
    {
        let stray = match microplate.stray_well() {
            Some(stray) => stray,
            None => {
                return Some(Aggregation::new(microplate));
            },
        };
        proof {
            lemma_accepted_iff_sound(microplate);
        }
        let mut i: usize = 0;
        while i <= stray
            invariant
                i <= stray + 1,
                stray < microplate.samples.len(),
                microplate.is_first_stray(stray as int),
                forall|j: int|
                    0 <= j < i ==> sample_fault(#[trigger] microplate.samples@[j]) is None,
            decreases stray + 1 - i,
        {
            if let Some(fault) = check_sample(&microplate.samples[i]) {
                proof {
                    lemma_earliest_is(sample_faults(microplate.samples@), i as int);
                    assert forall|s: int| microplate.is_first_stray(s) implies s == stray by {
                        if s < stray {
                            assert(microplate.samples@[s].group_in_range(
                                microplate.standard_groups@.len() as int,
                                microplate.unknown_groups@.len() as int,
                            ));
                        }
                        if stray < s {
                            assert(microplate.samples@[stray as int].group_in_range(
                                microplate.standard_groups@.len() as int,
                                microplate.unknown_groups@.len() as int,
                            ));
                        }
                    }
                    assert(sample_faults(microplate.samples@)[i as int] is Some);
                }
                return Some(Err(fault));
            }
            i += 1;
        }
        None
    }
}

} // verus!
