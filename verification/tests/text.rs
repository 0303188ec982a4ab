use ne4_konfig::text::{read_error_message, to_decimal};

#[test]
fn to_decimal_writes_single_digits() {
    for n in 0u16..10 {
        assert_eq!(to_decimal(n), n.to_string());
    }
}

#[test]
fn to_decimal_writes_every_number() {
    for n in 0u16..=u16::MAX {
        assert_eq!(to_decimal(n), n.to_string());
    }
}

#[test]
fn to_decimal_exact_values() {
    assert_eq!(to_decimal(0), "0");
    assert_eq!(to_decimal(10), "10");
    assert_eq!(to_decimal(49), "49");
    assert_eq!(to_decimal(100), "100");
    assert_eq!(to_decimal(9876), "9876");
    assert_eq!(to_decimal(65535), "65535");
}

#[test]
fn read_error_message_names_offset_and_cause() {
    assert_eq!(
        read_error_message(7, "Zeit abgelaufen"),
        "Register 7 konnte nicht gelesen werden: Zeit abgelaufen"
    );
    assert_eq!(
        read_error_message(0, ""),
        "Register 0 konnte nicht gelesen werden: "
    );
    assert_eq!(
        read_error_message(49, "Illegal data address"),
        "Register 49 konnte nicht gelesen werden: Illegal data address"
    );
}
