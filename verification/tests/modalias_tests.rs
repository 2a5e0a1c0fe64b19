use bluez_core::modalias::{Modalias, ParseModaliasError, RawModalias};

#[test]
fn parse() {
    assert_eq!(
        Modalias::from_str("usb:v0000p0000d0000").unwrap(),
        Modalias {
            vendor_id: 0,
            product_id: 0,
            device_id: 0
        }
    );
    assert_eq!(
        Modalias::from_str("usb:v1234p5678d90AB").unwrap(),
        Modalias {
            vendor_id: 0x1234,
            product_id: 0x5678,
            device_id: 0x90AB
        }
    );
}

#[test]
fn parse_invalid_subtype() {
    assert!(matches!(
        Modalias::from_str("blah:v0000p0000d0000"),
        Err(ParseModaliasError(_))
    ));
}

#[test]
fn parse_missing_fields() {
    assert!(matches!(
        Modalias::from_str("usb:"),
        Err(ParseModaliasError(_))
    ));
    assert!(matches!(
        Modalias::from_str("usb:v1234p5678"),
        Err(ParseModaliasError(_))
    ));
}

#[test]
fn modalias_to_string() {
    assert_eq!(
        Modalias {
            vendor_id: 0,
            product_id: 0,
            device_id: 0
        }
        .to_string(),
        "usb:v0000p0000d0000"
    );
    assert_eq!(
        Modalias {
            vendor_id: 0x1234,
            product_id: 0x5678,
            device_id: 0x90AB
        }
        .to_string(),
        "usb:v1234p5678d90AB"
    );
}

#[test]
fn parse_raw_empty() {
    assert!(matches!(
        RawModalias::from_str(""),
        Err(ParseModaliasError(_))
    ));
}

#[test]
fn parse_raw_empty_usb() {
    assert_eq!(
        RawModalias::from_str("usb:").unwrap(),
        RawModalias {
            subtype: "usb".to_string(),
            values: Vec::new()
        }
    );
}

#[test]
fn parse_raw_success() {
    let values = vec![
        ("a".to_string(), "AB12".to_string()),
        ("ab".to_string(), "01".to_string()),
    ];
    assert_eq!(
        RawModalias::from_str("usb:aAB12ab01").unwrap(),
        RawModalias {
            subtype: "usb".to_string(),
            values
        }
    );
}

#[test]
fn parse_uppercase_subtype_fails() {
    assert!(matches!(
        Modalias::from_str("USB:v0000p0000d0000"),
        Err(ParseModaliasError(_))
    ));
}

#[test]
fn parse_plus_prefixed_value() {
    // The radix parse accepts a leading plus sign in a field.
    let m = Modalias::from_str("usb:v+12p0000d0000").unwrap();
    assert_eq!(
        m,
        Modalias {
            vendor_id: 0x12,
            product_id: 0,
            device_id: 0
        }
    );
}

#[test]
fn parse_error_carries_input() {
    assert_eq!(
        Modalias::from_str("no-colon-here"),
        Err(ParseModaliasError("no-colon-here".to_string()))
    );
    assert_eq!(
        Modalias::from_str("usb:vXYZZp0000d0000"),
        Err(ParseModaliasError("usb:vXYZZp0000d0000".to_string()))
    );
}

#[test]
fn parse_overflowing_value_fails() {
    assert!(matches!(
        Modalias::from_str("usb:v12345p0000d0000"),
        Err(ParseModaliasError(_))
    ));
}

#[test]
fn round_trip_via_text() {
    let m = Modalias {
        vendor_id: 0x0FA3,
        product_id: 0xFFFF,
        device_id: 0x0001,
    };
    assert_eq!(Modalias::from_str(&m.to_string()).unwrap(), m);
}
