use heavy::console::{decimal_string, format_error, format_values, ValueText};

#[test]
fn decimal_digits() {
    assert_eq!(decimal_string(0), "0");
    assert_eq!(decimal_string(7), "7");
    assert_eq!(decimal_string(10), "10");
    assert_eq!(decimal_string(1203), "1203");
    assert_eq!(decimal_string(usize::MAX), usize::MAX.to_string());
}

#[test]
fn values_are_numbered_lines() {
    let values = vec![
        ValueText::Printed("{\"a\":1}".to_string()),
        ValueText::Debug("function: 0x1".to_string()),
    ];
    assert_eq!(
        format_values(&values),
        "[0]prt: {\"a\":1}\n[1]dbg: function: 0x1\n"
    );
    assert_eq!(format_values(&Vec::new()), "");
    let many: Vec<ValueText> = (0..12).map(|i| ValueText::Printed(i.to_string())).collect();
    assert!(format_values(&many).ends_with("[11]prt: 11\n"));
}

#[test]
fn errors_and_causes() {
    assert_eq!(format_error("boom", None), "err: boom\n");
    assert_eq!(
        format_error("boom", Some("bad input")),
        "err: boom\ncaused by: bad input\n"
    );
}
