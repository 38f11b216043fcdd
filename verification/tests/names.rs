use tt_core::name::{decimal_string, format_name};
use tt_core::version::version;

#[test]
fn decimal_single_digits() {
    assert_eq!(decimal_string(0).as_str(), "0");
    assert_eq!(decimal_string(7).as_str(), "7");
    assert_eq!(decimal_string(9).as_str(), "9");
}

#[test]
fn decimal_multiple_digits() {
    assert_eq!(decimal_string(10).as_str(), "10");
    assert_eq!(decimal_string(40).as_str(), "40");
    assert_eq!(decimal_string(101).as_str(), "101");
    assert_eq!(decimal_string(65535).as_str(), "65535");
    assert_eq!(decimal_string(4294967295).as_str(), "4294967295");
}

#[test]
fn name_prefix_and_ordinal() {
    assert_eq!(format_name(0).as_str(), "tenstorrent/0");
    assert_eq!(format_name(3).as_str(), "tenstorrent/3");
    assert_eq!(format_name(12).as_str(), "tenstorrent/12");
    assert_eq!(format_name(1000).as_str(), "tenstorrent/1000");
}

#[test]
fn version_string() {
    assert_eq!(version().as_str(), "0.0.0");
}
