use device_cost::cli::Args;
use device_cost::device::{Device, Rgb, Wattage};
use device_cost::number::Number;

fn number(value: f64) -> Number {
    Number::from_bits(value.to_bits())
}

fn wattage(watts: f64) -> Wattage {
    Wattage::from_parts(number(watts), number(watts / 1000.0))
}

fn device(initial_cost: f64, watts: f64, rate: f64, color: Rgb, name: &str) -> Device {
    Device::new(number(initial_cost), wattage(watts), number(rate), color, name.to_string())
}

#[test]
fn device_keeps_its_five_parts() {
    let kettle = device(24.5, 2200.0, 3.5, Rgb(1, 2, 3), "kettle");
    assert_eq!(f64::from_bits(kettle.initial_cost.to_bits()), 24.5);
    assert_eq!(f64::from_bits(kettle.average_wattage.watts.to_bits()), 2200.0);
    assert_eq!(f64::from_bits(kettle.average_wattage.kilowatts.to_bits()), 2.2);
    assert_eq!(f64::from_bits(kettle.electricity_rate.to_bits()), 3.5);
    assert_eq!(kettle.color, Rgb(1, 2, 3));
    assert_eq!(kettle.name, "kettle");
}

#[test]
fn device_equality_ignores_name_and_color() {
    let a = device(100.0, 60.0, 4.0, Rgb(255, 0, 0), "old fridge");
    let b = device(100.0, 60.0, 4.0, Rgb(0, 0, 255), "new fridge");
    assert!(a == b);
    assert!(b == a);
}

#[test]
fn devices_differ_when_the_initial_cost_differs() {
    let a = device(100.0, 60.0, 4.0, Rgb(20, 20, 20), "fridge");
    let b = device(100.5, 60.0, 4.0, Rgb(20, 20, 20), "fridge");
    assert!(a != b);
}

#[test]
fn devices_differ_when_the_wattage_differs() {
    let a = device(100.0, 60.0, 4.0, Rgb(20, 20, 20), "fridge");
    let b = device(100.0, 61.0, 4.0, Rgb(20, 20, 20), "fridge");
    assert!(a != b);
}

#[test]
fn devices_differ_when_the_electricity_rate_differs() {
    let a = device(100.0, 60.0, 4.0, Rgb(20, 20, 20), "fridge");
    let b = device(100.0, 60.0, 4.5, Rgb(20, 20, 20), "fridge");
    assert!(a != b);
}

#[test]
fn devices_differ_when_only_the_kilowatts_differ() {
    let a = Device::new(
        number(1.0),
        Wattage::from_parts(number(60.0), number(0.06)),
        number(4.0),
        Rgb(20, 20, 20),
        String::new(),
    );
    let b = Device::new(
        number(1.0),
        Wattage::from_parts(number(60.0), number(0.6)),
        number(4.0),
        Rgb(20, 20, 20),
        String::new(),
    );
    assert!(a != b);
}

#[test]
fn devices_with_the_two_zeros_are_equal() {
    let a = device(0.0, 0.0, 1.0, Rgb(20, 20, 20), "plus");
    let b = device(-0.0, -0.0, 1.0, Rgb(20, 20, 20), "minus");
    assert!(a == b);
}

#[test]
fn a_device_with_a_cost_that_is_no_number_equals_no_device() {
    let a = device(f64::NAN, 60.0, 4.0, Rgb(20, 20, 20), "fridge");
    let b = device(f64::NAN, 60.0, 4.0, Rgb(20, 20, 20), "fridge");
    assert!(a != b);
    let copy = a.clone();
    assert!(a != copy);
}

#[test]
fn wattage_equality_compares_both_units() {
    assert!(wattage(60.0) == wattage(60.0));
    assert!(wattage(60.0) != wattage(61.0));
    assert!(
        Wattage::from_parts(number(60.0), number(0.06))
            != Wattage::from_parts(number(60.0), number(0.07))
    );
    assert!(wattage(f64::NAN) != wattage(f64::NAN));
}

#[test]
fn clone_copies_every_field() {
    let a = device(12.0, 7.5, 3.0, Rgb(9, 8, 7), "lamp");
    let b = a.clone();
    assert_eq!(b.initial_cost.to_bits(), a.initial_cost.to_bits());
    assert_eq!(b.average_wattage.watts.to_bits(), a.average_wattage.watts.to_bits());
    assert_eq!(b.average_wattage.kilowatts.to_bits(), a.average_wattage.kilowatts.to_bits());
    assert_eq!(b.electricity_rate.to_bits(), a.electricity_rate.to_bits());
    assert_eq!(b.color, a.color);
    assert_eq!(b.name, a.name);
}

#[test]
fn colors_are_random_unless_the_option_says_otherwise() {
    assert!(Args::default().randomize_graph_colors());
    assert!(!Args::default().no_color_devices);
    assert!(Args { no_color_devices: false }.randomize_graph_colors());
    assert!(!Args { no_color_devices: true }.randomize_graph_colors());
}
