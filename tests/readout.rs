use cube_timer::seconds_text;

#[test]
fn seconds_text_has_three_decimals() {
    assert_eq!(seconds_text(12_345), "12.345s");
    assert_eq!(seconds_text(15_000), "15.000s");
    assert_eq!(seconds_text(2_999), "2.999s");
    assert_eq!(seconds_text(7), "0.007s");
    assert_eq!(seconds_text(0), "0.000s");
    assert_eq!(seconds_text(1_234_567_890), "1234567.890s");
}

#[test]
fn seconds_text_of_largest_reading() {
    assert_eq!(seconds_text(u64::MAX), "18446744073709551.615s");
}
