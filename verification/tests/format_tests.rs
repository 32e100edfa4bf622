use wallet_linker::numtext::{format_human_amount, u64_to_string};
use wallet_linker::records::outcome_line;

#[test]
fn decimal_writing() {
    assert_eq!(u64_to_string(0).as_str(), "0");
    assert_eq!(u64_to_string(7).as_str(), "7");
    assert_eq!(u64_to_string(10).as_str(), "10");
    assert_eq!(u64_to_string(1234567890).as_str(), "1234567890");
    assert_eq!(u64_to_string(u64::MAX).as_str(), "18446744073709551615");
}

#[test]
fn human_amount_small_fraction() {
    assert_eq!(format_human_amount(500).as_str(), "0.0005");
    assert_eq!(format_human_amount(10).as_str(), "0.00001");
    assert_eq!(format_human_amount(1).as_str(), "0.000001");
}

#[test]
fn human_amount_mixed() {
    assert_eq!(format_human_amount(1500000).as_str(), "1.5");
    assert_eq!(format_human_amount(1000001).as_str(), "1.000001");
    assert_eq!(format_human_amount(123456).as_str(), "0.123456");
    assert_eq!(format_human_amount(999999).as_str(), "0.999999");
}

#[test]
fn human_amount_whole() {
    assert_eq!(format_human_amount(1000000).as_str(), "1");
    assert_eq!(format_human_amount(15000000).as_str(), "15");
    assert_eq!(format_human_amount(0).as_str(), "0");
}

#[test]
fn outcome_line_without_amount() {
    assert_eq!(outcome_line("SomeAddress", None).as_str(), "SomeAddress\n");
}

#[test]
fn outcome_line_zero_amount_has_no_number() {
    assert_eq!(outcome_line("SomeAddress", Some(0)).as_str(), "SomeAddress\n");
}

#[test]
fn outcome_line_with_amount() {
    assert_eq!(outcome_line("SomeAddress", Some(1500000)).as_str(), "SomeAddress: 1.5\n");
    assert_eq!(outcome_line("A", Some(500)).as_str(), "A: 0.0005\n");
}
