use bluez_core::sensor::{decode_value, parse_key_value, Readings};

#[test]
fn decode_empty() {
    assert_eq!(decode_value(&[]), None);
}

#[test]
fn decode_too_short() {
    assert_eq!(decode_value(&[1, 2, 3, 4]), None);
}

#[test]
fn decode_too_long() {
    assert_eq!(decode_value(&[1, 2, 3, 4, 5, 6]), None);
}

#[test]
fn decode_valid() {
    assert_eq!(
        decode_value(&[1, 2, 3, 4, 10]),
        Some(Readings {
            temperature_centidegrees: 513,
            humidity: 3,
            battery_voltage: 2564,
            battery_percent: 46
        })
    );
}

#[test]
fn decode_negative_temperature() {
    // 0xFF9C little-endian is -100 hundredths: -1.00 degrees.
    assert_eq!(
        decode_value(&[0x9C, 0xFF, 50, 0, 0]),
        Some(Readings {
            temperature_centidegrees: -100,
            humidity: 50,
            battery_voltage: 0,
            battery_percent: 0
        })
    );
}

#[test]
fn key_value_line() {
    assert_eq!(
        parse_key_value("A4:C1:38:00:00:01=Living room"),
        Some((
            "A4:C1:38:00:00:01".to_string(),
            "Living room".to_string()
        ))
    );
}

#[test]
fn key_value_line_splits_at_first_equals() {
    assert_eq!(
        parse_key_value("key=a=b"),
        Some(("key".to_string(), "a=b".to_string()))
    );
}

#[test]
fn key_value_line_without_equals() {
    assert_eq!(parse_key_value("malformed line"), None);
}
