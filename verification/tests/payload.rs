use edge::node_ops::GridStats;
use edge::payload::{append_tenths, append_whole, encode, render};

fn tenths(v: i32) -> String {
    let mut out = String::new();
    append_tenths(&mut out, v);
    out
}

fn whole(v: i32) -> String {
    let mut out = String::new();
    append_whole(&mut out, v);
    out
}

#[test]
fn tenths_have_one_digit_after_the_point() {
    assert_eq!(tenths(600), "60.0");
    assert_eq!(tenths(590), "59.0");
    assert_eq!(tenths(955), "95.5");
    assert_eq!(tenths(5), "0.5");
    assert_eq!(tenths(0), "0.0");
    assert_eq!(tenths(10), "1.0");
    assert_eq!(tenths(12345), "1234.5");
}

#[test]
fn negative_tenths_carry_a_sign() {
    assert_eq!(tenths(-5), "-0.5");
    assert_eq!(tenths(-10), "-1.0");
    assert_eq!(tenths(-327_080), "-32708.0");
}

#[test]
fn tenths_at_the_limits_of_the_type() {
    assert_eq!(tenths(i32::MAX), "214748364.7");
    assert_eq!(tenths(i32::MIN), "-214748364.8");
}

#[test]
fn whole_numbers_in_decimal() {
    assert_eq!(whole(0), "0");
    assert_eq!(whole(1), "1");
    assert_eq!(whole(9), "9");
    assert_eq!(whole(10), "10");
    assert_eq!(whole(-7), "-7");
    assert_eq!(whole(1_000_000), "1000000");
    assert_eq!(whole(i32::MAX), "2147483647");
    assert_eq!(whole(i32::MIN), "-2147483648");
}

#[test]
fn appending_keeps_what_was_there() {
    let mut out = String::from("x=");
    append_tenths(&mut out, 42);
    out.push(';');
    append_whole(&mut out, -3);
    assert_eq!(out, "x=4.2;-3");
}

#[test]
fn a_nominal_reading_as_text() {
    let stats = GridStats { variance: 1, frequency: 600, soc: 950, import: 0, export: 5 };
    assert_eq!(render(&stats), "freq=60.0;soc=95.0;import=0.0;export=0.5;variance=1");
}

#[test]
fn a_reading_off_the_nominal_values_as_text() {
    let stats = GridStats { variance: -2, frequency: 590, soc: 904, import: -15, export: 1234 };
    assert_eq!(render(&stats), "freq=59.0;soc=90.4;import=-1.5;export=123.4;variance=-2");
}

#[test]
fn the_payload_is_the_text_in_ascii() {
    let stats = GridStats { variance: 1, frequency: 590, soc: 910, import: 0, export: 5 };
    let payload = encode(&stats);
    assert_eq!(payload, b"freq=59.0;soc=91.0;import=0.0;export=0.5;variance=1".to_vec());
    assert_eq!(payload, render(&stats).into_bytes());
    assert!(payload.is_ascii());
}

#[test]
fn the_payload_begins_with_the_frequency() {
    let stats = GridStats { variance: 1, frequency: 600, soc: 950, import: 0, export: 5 };
    assert!(encode(&stats).starts_with(b"freq=60.0"));
}

#[test]
fn distinct_readings_have_distinct_payloads() {
    let a = GridStats { variance: 1, frequency: 600, soc: 950, import: 0, export: 5 };
    let b = GridStats { soc: 940, ..a };
    assert_ne!(encode(&a), encode(&b));
}
