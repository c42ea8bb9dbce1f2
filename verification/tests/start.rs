use elisa::start::{divisors, highest, lowest};
use elisa::{Aggregation, Divisors, StandardGroup};

fn standards(concentrations: &[f64]) -> Aggregation {
    Aggregation {
        blank: Vec::new(),
        control: Vec::new(),
        unknowns: Vec::new(),
        standards: concentrations
            .iter()
            .map(|c| StandardGroup { concentration: c.to_bits(), readings: vec![1.0f64.to_bits()] })
            .collect(),
    }
}

#[test]
fn ends_of_an_ascending_range() {
    let aggregation = standards(&[1.0, 10.0, 100.0, 1000.0]);
    assert_eq!(aggregation.lowest_standard(), 0);
    assert_eq!(aggregation.highest_standard(), 3);
}

#[test]
fn ends_of_an_unordered_range() {
    let aggregation = standards(&[100.0, 0.5, 1000.0, 10.0, 2.0]);
    assert_eq!(aggregation.lowest_standard(), 1);
    assert_eq!(aggregation.highest_standard(), 2);
}

#[test]
fn ends_of_a_single_standard() {
    let aggregation = standards(&[3.0]);
    assert_eq!(aggregation.lowest_standard(), 0);
    assert_eq!(aggregation.highest_standard(), 0);
}

#[test]
fn among_equals_the_first_is_lowest_and_the_last_is_highest() {
    let aggregation = standards(&[5.0, 1.0, 9.0, 1.0, 9.0, 5.0]);
    assert_eq!(aggregation.lowest_standard(), 1);
    assert_eq!(aggregation.highest_standard(), 4);
    let level = standards(&[2.0, 2.0, 2.0, 2.0]);
    assert_eq!(level.lowest_standard(), 0);
    assert_eq!(level.highest_standard(), 3);
}

#[test]
fn negative_concentrations_are_lower_than_positive_ones() {
    let aggregation = standards(&[0.0, -3.0, 2.0, -7.5, 1.0]);
    assert_eq!(aggregation.lowest_standard(), 3);
    assert_eq!(aggregation.highest_standard(), 2);
    let zeros = standards(&[0.0, -0.0, 0.0, -0.0]);
    assert_eq!(zeros.lowest_standard(), 0);
    assert_eq!(zeros.highest_standard(), 3);
}

#[test]
fn ends_agree_with_the_order_of_the_numbers() {
    let concentrations = [4.0, -1.0, 1e-300, 250.0, -1.0, 250.0, 0.0, 3e9, 3e9, -2e-5];
    let aggregation = standards(&concentrations);
    let mut lowest: usize = 0;
    let mut highest: usize = 0;
    for (i, c) in concentrations.iter().enumerate() {
        if *c < concentrations[lowest] {
            lowest = i;
        }
        if *c >= concentrations[highest] {
            highest = i;
        }
    }
    assert_eq!(aggregation.lowest_standard(), lowest);
    assert_eq!(aggregation.highest_standard(), highest);
}

#[test]
fn control_counts_once_it_was_read() {
    let mut aggregation = standards(&[1.0, 2.0, 3.0, 4.0]);
    assert!(!aggregation.has_control());
    aggregation.control.push(0.1f64.to_bits());
    assert!(aggregation.has_control());
}

#[test]
fn divisors_of_six_standards() {
    assert_eq!(divisors(6), Divisors { mse: 6, rmse: 5, sy_x: 2 });
}

#[test]
fn divisors_of_no_standards() {
    assert_eq!(divisors(0), Divisors { mse: 0, rmse: -1, sy_x: -4 });
}

#[test]
fn ends_of_a_list_of_patterns() {
    let concentrations: Vec<u64> = [3.0f64, -2.0, 8.0, -2.0, 8.0].iter().map(|c| c.to_bits()).collect();
    assert_eq!(lowest(&concentrations), 1);
    assert_eq!(highest(&concentrations), 4);
}

#[test]
fn concentrations_are_handed_out_in_list_order() {
    let aggregation = standards(&[100.0, 0.5, 1000.0]);
    let concentrations: Vec<f64> =
        aggregation.standard_concentrations().iter().map(|&bits| f64::from_bits(bits)).collect();
    assert_eq!(concentrations, vec![100.0, 0.5, 1000.0]);
}

#[test]
fn exactly_four_standards_divide_by_zero() {
    let four = divisors(4);
    assert_eq!(four, Divisors { mse: 4, rmse: 3, sy_x: 0 });
    let with_residue = (0.25f64 / four.sy_x as f64).sqrt();
    assert!(!with_residue.is_finite());
    let without_residue = (0.0f64 / four.sy_x as f64).sqrt();
    assert!(!without_residue.is_finite());
}
