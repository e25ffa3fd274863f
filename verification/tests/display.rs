use rig_control::display::{
    clock_text, decimal_mark, frequency_text, is_cq, lit_places, pad_zeros, version_text,
};
use rig_control::Version;

#[test]
fn decimal_mark_groups_from_the_end() {
    assert_eq!(decimal_mark("014074000"), "014,074,000");
    assert_eq!(decimal_mark("1234"), "1,234");
    assert_eq!(decimal_mark("12345"), "12,345");
    assert_eq!(decimal_mark("123456"), "123,456");
    assert_eq!(decimal_mark("1234567"), "1,234,567");
}

#[test]
fn decimal_mark_leaves_short_texts() {
    assert_eq!(decimal_mark(""), "");
    assert_eq!(decimal_mark("1"), "1");
    assert_eq!(decimal_mark("12"), "12");
    assert_eq!(decimal_mark("123"), "123");
}

#[test]
fn pad_zeros_fills_in_front() {
    assert_eq!(pad_zeros("14074000", 9), "014074000");
    assert_eq!(pad_zeros("7", 9), "000000007");
    assert_eq!(pad_zeros("", 3), "000");
    assert_eq!(pad_zeros("123456789", 9), "123456789");
    assert_eq!(pad_zeros("1234567890", 9), "1234567890");
}

#[test]
fn frequency_text_has_nine_places_in_groups() {
    assert_eq!(frequency_text(14_074_000), "014,074,000");
    assert_eq!(frequency_text(0), "000,000,000");
    assert_eq!(frequency_text(999_999_999), "999,999,999");
    assert_eq!(frequency_text(1_234_567_890), "1,234,567,890");
    assert_eq!(frequency_text(-5), "000,000,0-5");
}

#[test]
fn places_are_lit_from_the_first_significant_digit() {
    assert_eq!(
        lit_places("014,074,000"),
        vec![false, true, true, true, true, true, true, true, true, true, true]
    );
    assert_eq!(
        lit_places("000,074,000"),
        vec![false, false, false, false, false, true, true, true, true, true, true]
    );
    assert_eq!(lit_places("000,000,000"), vec![false; 11]);
    assert_eq!(lit_places(""), Vec::<bool>::new());
    assert_eq!(lit_places("5"), vec![true]);
}

#[test]
fn version_line_names_host_and_protocol() {
    let version = Version {
        host: "SparkSDR".to_string(),
        host_version: "2.0.1".to_string(),
        protocol_version: "1.0".to_string(),
    };
    assert_eq!(version_text(&version), "SparkSDR 2.0.1 [Protocol Version: 1.0]");
}

#[test]
fn general_calls_are_recognised() {
    assert!(is_cq("CQ DL1ABC JN48"));
    assert!(is_cq("K1ABC CQ"));
    assert!(is_cq("CQ"));
    assert!(is_cq("xCQx"));
    assert!(!is_cq("K1ABC DL1ABC -12"));
    assert!(!is_cq("C Q"));
    assert!(!is_cq("QC"));
    assert!(!is_cq("cq"));
    assert!(!is_cq("C"));
    assert!(!is_cq(""));
}

#[test]
fn clock_text_is_the_time_of_day() {
    assert_eq!(clock_text(0), "000000");
    assert_eq!(clock_text(59), "000059");
    assert_eq!(clock_text(3_600), "010000");
    assert_eq!(clock_text(86_399), "235959");
    assert_eq!(clock_text(86_400), "000000");
    assert_eq!(clock_text(1_600_000_000), "122640");
}

#[test]
fn clock_text_before_the_epoch() {
    assert_eq!(clock_text(-1), "235959");
    assert_eq!(clock_text(-86_400), "000000");
    assert_eq!(clock_text(-86_401), "235959");
    assert_eq!(clock_text(i64::MIN), "082952");
    assert_eq!(clock_text(i64::MAX), "153007");
}
