use elisa::{Group, Microplate, Sample, SampleType};

#[test]
fn cycle_follows_the_fixed_order() {
    assert_eq!(SampleType::Unused.cycle(), SampleType::Blank);
    assert_eq!(SampleType::Blank.cycle(), SampleType::Control);
    assert_eq!(SampleType::Control.cycle(), SampleType::Standard);
    assert_eq!(SampleType::Standard.cycle(), SampleType::Unknown);
    assert_eq!(SampleType::Unknown.cycle(), SampleType::Unused);
}

#[test]
fn cycle_returns_after_five_steps() {
    for start in [
        SampleType::Unused,
        SampleType::Blank,
        SampleType::Control,
        SampleType::Standard,
        SampleType::Unknown,
    ] {
        let mut role = start;
        for step in 1..=5 {
            role = role.cycle();
            assert_eq!(role == start, step == 5);
        }
    }
}

#[test]
fn default_role_is_unused() {
    let role: SampleType = elisa::default();
    assert_eq!(role, SampleType::Unused);
}

#[test]
fn default_sample_is_an_unused_well() {
    let sample: Sample = elisa::default();
    assert_eq!(sample.typ, SampleType::Unused);
    assert_eq!(sample.group, 0);
    assert_eq!(sample.value, None);
}

#[test]
fn default_group_is_blank() {
    let group: Group = elisa::default();
    assert_eq!(group.concentration, None);
    assert_eq!(group.label, "");
}

#[test]
fn default_plate_is_empty() {
    let plate: Microplate = elisa::default();
    assert_eq!(plate.width, 0);
    assert_eq!(plate.height, 0);
    assert!(plate.samples.is_empty());
    assert!(plate.standard_groups.is_empty());
    assert!(plate.unknown_groups.is_empty());
}

#[test]
fn default_of_a_number_is_zero() {
    let n: u64 = elisa::default();
    assert_eq!(n, 0);
}

#[test]
fn new_plate_has_one_unused_well_per_position() {
    let plate = Microplate::new(12, 8);
    assert_eq!(plate.width, 12);
    assert_eq!(plate.height, 8);
    assert_eq!(plate.samples.len(), 96);
    for sample in &plate.samples {
        assert_eq!(sample.typ, SampleType::Unused);
        assert_eq!(sample.group, 0);
        assert_eq!(sample.value, None);
    }
}

#[test]
fn new_plate_has_one_blank_group_in_each_list() {
    let plate = Microplate::new(3, 2);
    assert_eq!(plate.name, "");
    assert_eq!(plate.description, "");
    assert_eq!(plate.standard_groups.len(), 1);
    assert_eq!(plate.standard_groups[0].concentration, None);
    assert_eq!(plate.standard_groups[0].label, "");
    assert_eq!(plate.unknown_groups.len(), 1);
    assert_eq!(plate.unknown_groups[0].concentration, None);
    assert_eq!(plate.unknown_groups[0].label, "");
}

#[test]
fn new_plate_without_rows_has_no_wells() {
    let plate = Microplate::new(7, 0);
    assert_eq!(plate.width, 7);
    assert_eq!(plate.height, 0);
    assert!(plate.samples.is_empty());
    assert_eq!(plate.standard_groups.len(), 1);
    assert_eq!(plate.unknown_groups.len(), 1);
}

#[test]
fn each_role_has_its_colour() {
    assert_eq!(SampleType::Unused.color(), [0xD8, 0xDC, 0xE7, 0xFF]);
    assert_eq!(SampleType::Unknown.color(), [0x8C, 0xF4, 0x90, 0xFF]);
    assert_eq!(SampleType::Standard.color(), [0xF5, 0x73, 0x73, 0xFF]);
    assert_eq!(SampleType::Control.color(), [0x81, 0x8F, 0xEF, 0xFF]);
    assert_eq!(SampleType::Blank.color(), [0xF1, 0xE0, 0x7D, 0xFF]);
}

#[test]
fn colours_are_those_that_the_texts_spell() {
    let texts = [
        (SampleType::Unused, "#D8DCE7"),
        (SampleType::Unknown, "#8CF490"),
        (SampleType::Standard, "#F57373"),
        (SampleType::Control, "#818FEF"),
        (SampleType::Blank, "#F1E07D"),
    ];
    for (role, text) in texts {
        let colour = egui::Color32::from_hex(text).unwrap();
        assert_eq!(role.color(), colour.to_array());
        assert_eq!(role.color(), [colour.r(), colour.g(), colour.b(), 255]);
    }
}

#[test]
fn colours_of_two_roles_differ() {
    let roles = [
        SampleType::Unused,
        SampleType::Blank,
        SampleType::Control,
        SampleType::Standard,
        SampleType::Unknown,
    ];
    for a in roles {
        for b in roles {
            assert_eq!(a.color() == b.color(), a == b);
        }
    }
}
