//! The plate as it is laid out and measured: wells, their roles, and the two
//! lists of groups that standard and unknown wells point into.
use vstd::prelude::*;
use crate::color::{is_rrggbb, parse_hex, rrggbb};

verus! {

/// The role of a well.
#[derive(Clone, Copy, Debug, PartialEq, Eq, Structural)]
pub enum SampleType {
    /// Not in use; ignored whatever else the well holds.
    Unused,
    /// Background noise.
    Blank,
    /// Reference at zero concentration.
    Control,
    /// Known concentration; the curve is fitted to these.
    Standard,
    /// Concentration to be estimated from the curve.
    Unknown,
}

impl SampleType {
    /// The place of a role in the fixed order of roles.
    pub open spec fn position(self) -> nat {
        match self {
            SampleType::Unused => 0,
            SampleType::Blank => 1,
            SampleType::Control => 2,
            SampleType::Standard => 3,
            SampleType::Unknown => 4,
        }
    }

    /// The role that follows this one, the last being followed by the first.
    pub fn cycle(&self) -> (next: SampleType)
        ensures
            next.position() == (self.position() + 1) % 5,
    {
        match self {
            SampleType::Unused => SampleType::Blank,
            SampleType::Blank => SampleType::Control,
            SampleType::Control => SampleType::Standard,
            SampleType::Standard => SampleType::Unknown,
            SampleType::Unknown => SampleType::Unused,
        }
    }

    /// Red, green, blue and alpha of the colour that wells of the role are
    /// drawn in.
    pub open spec fn channels(self) -> Seq<u8> {
        match self {
            SampleType::Unused => seq![0xD8u8, 0xDCu8, 0xE7u8, 0xFFu8],
            SampleType::Unknown => seq![0x8Cu8, 0xF4u8, 0x90u8, 0xFFu8],
            SampleType::Standard => seq![0xF5u8, 0x73u8, 0x73u8, 0xFFu8],
            SampleType::Control => seq![0x81u8, 0x8Fu8, 0xEFu8, 0xFFu8],
            SampleType::Blank => seq![0xF1u8, 0xE0u8, 0x7Du8, 0xFFu8],
        }
    }

    /// The colour that wells of the role are drawn in: red, green, blue and
    /// alpha.
    pub fn color(&self) -> (rgba: [u8; 4])
        ensures
            rgba@ == self.channels(),
    {
        let text = match self {
            SampleType::Unused => "#D8DCE7",
            SampleType::Unknown => "#8CF490",
            SampleType::Standard => "#F57373",
            SampleType::Control => "#818FEF",
            SampleType::Blank => "#F1E07D",
        };
        proof {
            reveal_strlit("#D8DCE7");
            reveal_strlit("#8CF490");
            reveal_strlit("#F57373");
            reveal_strlit("#818FEF");
            reveal_strlit("#F1E07D");
            assert(is_rrggbb(text@));
            assert(rrggbb(text@) =~= self.channels());
        }
        match parse_hex(text) {
            Some(rgba) => rgba,
            None => unreached(),
        }
    }

    /// Roles are told apart by their positions, so `cycle` has one result.
    pub proof fn lemma_position_is_injective(a: SampleType, b: SampleType)
        requires
            a.position() == b.position(),
        ensures
            a == b,
    {
    }
}

impl Default for SampleType {
    fn default() -> (r: SampleType)
        ensures
            r == SampleType::Unused,
    {
        SampleType::Unused
    }
}

/// One well of the plate.
#[derive(Clone, Copy, Debug)]
pub struct Sample {
    pub typ: SampleType,
    /// Index into the plate's standard groups or unknown groups, as `typ` says.
    pub group: usize,
    /// The measured signal as a double-precision bit pattern, once measured.
    pub value: Option<u64>,
}

impl Sample {
    /// A well that is not in use and has not been measured.
    pub open spec fn unused() -> Sample {
        Sample { typ: SampleType::Unused, group: 0, value: None }
    }

    /// Whether the well's group index points into the list that its role selects.
    pub open spec fn group_in_range(self, standard_groups: int, unknown_groups: int) -> bool {
        &&& self.typ == SampleType::Standard ==> self.group < standard_groups
        &&& self.typ == SampleType::Unknown ==> self.group < unknown_groups
    }
}

impl Default for Sample {
    fn default() -> (r: Sample)
        ensures
            r == Sample::unused(),
    {
        Sample { typ: SampleType::Unused, group: 0, value: None }
    }
}

/// What is known of one group of standards or of unknowns.
#[derive(Debug)]
pub struct Group {
    /// The known dose as a double-precision bit pattern; only standard groups
    /// have one.
    pub concentration: Option<u64>,
    pub label: String,
}

impl Group {
    /// A group with no concentration and an empty label.
    pub open spec fn is_blank(&self) -> bool {
        &&& self.concentration is None
        &&& self.label@ == Seq::<char>::empty()
    }
}

impl Default for Group {
    fn default() -> (r: Group)
        ensures
            r.is_blank(),
    {
        Group { concentration: None, label: String::new() }
    }
}

/// A plate: `width * height` wells in row-major order, and its groups.
#[derive(Debug)]
pub struct Microplate {
    pub name: String,
    pub description: String,
    pub height: usize,
    pub width: usize,
    pub samples: Vec<Sample>,
    pub standard_groups: Vec<Group>,
    pub unknown_groups: Vec<Group>,
}

impl Microplate {
    /// Every standard well points at a standard group and every unknown well at
    /// an unknown group.
    pub open spec fn groups_in_range(&self) -> bool {
        forall|i: int|
            0 <= i < self.samples@.len() ==> (#[trigger] self.samples@[i]).group_in_range(
                self.standard_groups@.len() as int,
                self.unknown_groups@.len() as int,
            )
    }

    /// Well `i` points outside the list that its role selects, and no well
    /// before it does.
    pub open spec fn is_first_stray(&self, i: int) -> bool {
        &&& 0 <= i < self.samples@.len()
        &&& !self.samples@[i].group_in_range(
            self.standard_groups@.len() as int,
            self.unknown_groups@.len() as int,
        )
        &&& forall|j: int|
            0 <= j < i ==> (#[trigger] self.samples@[j]).group_in_range(
                self.standard_groups@.len() as int,
                self.unknown_groups@.len() as int,
            )
    }

    /// The plate has one well for each position of its grid, and its wells
    /// point at groups that exist.
    pub open spec fn well_formed(&self) -> bool {
        &&& self.samples@.len() == self.width * self.height
        &&& self.groups_in_range()
    }

    /// An unnamed plate of `width * height` unused wells, with one blank
    /// standard group and one blank unknown group.
    pub fn new(width: usize, height: usize) -> (plate: Microplate)
        requires
            width * height <= usize::MAX,
        ensures
            plate.width == width,
            plate.height == height,
            plate.name@ == Seq::<char>::empty(),
            plate.description@ == Seq::<char>::empty(),
            plate.samples@ == Seq::new((width * height) as nat, |i: int| Sample::unused()),
            plate.standard_groups@.len() == 1,
            plate.standard_groups@[0].is_blank(),
            plate.unknown_groups@.len() == 1,
            plate.unknown_groups@[0].is_blank(),
            plate.well_formed(),
    {
        let wells: usize = width * height;
        let mut samples: Vec<Sample> = Vec::new();
        while samples.len() < wells
            invariant
                samples@.len() <= wells,
                forall|i: int| 0 <= i < samples@.len() ==> samples@[i] == Sample::unused(),
            decreases wells - samples@.len(),
        {
            samples.push(Sample::default());
        }
        let mut standard_groups: Vec<Group> = Vec::new();
        standard_groups.push(Group::default());
        let mut unknown_groups: Vec<Group> = Vec::new();
        unknown_groups.push(Group::default());
        assert(samples@ =~= Seq::new((width * height) as nat, |i: int| Sample::unused()));
        Microplate {
            name: String::new(),
            description: String::new(),
            height,
            width,
            samples,
            standard_groups,
            unknown_groups,
        }
    }

    /// The first well that points outside the list that its role selects, if
    /// there is one.
    pub fn stray_well(&self) -> (stray: Option<usize>)
        ensures
            match stray {
                Some(i) => self.is_first_stray(i as int),
                None => self.groups_in_range(),
            },
    {
        let mut i: usize = 0;
        while i < self.samples.len()
            invariant
                i <= self.samples@.len(),
                forall|j: int|
                    0 <= j < i ==> (#[trigger] self.samples@[j]).group_in_range(
                        self.standard_groups@.len() as int,
                        self.unknown_groups@.len() as int,
                    ),
            decreases self.samples@.len() - i,
        {
            let sample = self.samples[i];
            let stray = match sample.typ {
                SampleType::Standard => sample.group >= self.standard_groups.len(),
                SampleType::Unknown => sample.group >= self.unknown_groups.len(),
                _ => false,
            };
            if stray {
                return Some(i);
            }
            i += 1;
        }
        None
    }
}

impl Default for Microplate {
    fn default() -> (plate: Microplate)
        ensures
            plate.width == 0,
            plate.height == 0,
            plate.name@ == Seq::<char>::empty(),
            plate.description@ == Seq::<char>::empty(),
            plate.samples@.len() == 0,
            plate.standard_groups@.len() == 0,
            plate.unknown_groups@.len() == 0,
            plate.well_formed(),
    {
        Microplate {
            name: String::new(),
            description: String::new(),
            height: 0,
            width: 0,
            samples: Vec::new(),
            standard_groups: Vec::new(),
            unknown_groups: Vec::new(),
        }
    }
}

} // verus!
