use bluez_core::characteristic::CharacteristicInfo;
use bluez_core::errors::BluetoothError;
use bluez_core::flags::CharacteristicFlags;
use bluez_core::ids::CharacteristicId;
use bluez_core::message::PropertyValue;

#[test]
fn characteristic_info_minimal() {
    let id = CharacteristicId::new("/org/bluez/hci0/dev_11_22_33_44_55_66/service0022/char0033");
    let characteristic_properties = vec![
        (
            "UUID".to_string(),
            PropertyValue::Str("ebe0ccb9-7a0a-4b0c-8a1a-6ff2997da3a6".to_string()),
        ),
        ("Flags".to_string(), PropertyValue::StrList(Vec::new())),
    ];

    let characteristic =
        CharacteristicInfo::from_properties(id.clone(), &characteristic_properties).unwrap();
    assert_eq!(
        characteristic,
        CharacteristicInfo {
            id,
            uuid: 0xebe0ccb9_7a0a_4b0c_8a1a_6ff2997da3a6,
            flags: CharacteristicFlags::empty(),
            mtu: None
        }
    );
}

#[test]
fn characteristic_info_full() {
    let id = CharacteristicId::new("/org/bluez/hci0/dev_11_22_33_44_55_66/service0022/char0033");
    let characteristic_properties = vec![
        (
            "UUID".to_string(),
            PropertyValue::Str("ebe0ccb9-7a0a-4b0c-8a1a-6ff2997da3a6".to_string()),
        ),
        (
            "Flags".to_string(),
            PropertyValue::StrList(vec!["read".to_string(), "notify".to_string()]),
        ),
        ("MTU".to_string(), PropertyValue::U16(247)),
    ];

    let characteristic =
        CharacteristicInfo::from_properties(id.clone(), &characteristic_properties).unwrap();
    assert_eq!(
        characteristic,
        CharacteristicInfo {
            id,
            uuid: 0xebe0ccb9_7a0a_4b0c_8a1a_6ff2997da3a6,
            flags: CharacteristicFlags::from_bits(
                CharacteristicFlags::READ | CharacteristicFlags::NOTIFY
            ),
            mtu: Some(247)
        }
    );
}

#[test]
fn characteristic_info_missing_uuid() {
    let id = CharacteristicId::new("/org/bluez/hci0/dev_11_22_33_44_55_66/service0022/char0033");
    let characteristic_properties = vec![("Flags".to_string(), PropertyValue::StrList(Vec::new()))];
    let result = CharacteristicInfo::from_properties(id, &characteristic_properties);
    assert_eq!(
        result,
        Err(BluetoothError::RequiredPropertyMissing("UUID"))
    );
}

#[test]
fn characteristic_info_missing_flags() {
    let id = CharacteristicId::new("/org/bluez/hci0/dev_11_22_33_44_55_66/service0022/char0033");
    let characteristic_properties = vec![(
        "UUID".to_string(),
        PropertyValue::Str("ebe0ccb9-7a0a-4b0c-8a1a-6ff2997da3a6".to_string()),
    )];
    let result = CharacteristicInfo::from_properties(id, &characteristic_properties);
    assert_eq!(
        result,
        Err(BluetoothError::RequiredPropertyMissing("Flags"))
    );
}

#[test]
fn characteristic_info_invalid_uuid() {
    let id = CharacteristicId::new("/org/bluez/hci0/dev_11_22_33_44_55_66/service0022/char0033");
    let characteristic_properties = vec![
        ("UUID".to_string(), PropertyValue::Str("bogus".to_string())),
        ("Flags".to_string(), PropertyValue::StrList(Vec::new())),
    ];
    let result = CharacteristicInfo::from_properties(id, &characteristic_properties);
    assert_eq!(result, Err(BluetoothError::UuidParseError));
}

#[test]
fn characteristic_info_unknown_flag() {
    let id = CharacteristicId::new("/org/bluez/hci0/dev_11_22_33_44_55_66/service0022/char0033");
    let characteristic_properties = vec![
        (
            "UUID".to_string(),
            PropertyValue::Str("ebe0ccb9-7a0a-4b0c-8a1a-6ff2997da3a6".to_string()),
        ),
        (
            "Flags".to_string(),
            PropertyValue::StrList(vec!["read".to_string(), "bogus".to_string()]),
        ),
    ];
    let result = CharacteristicInfo::from_properties(id, &characteristic_properties);
    assert!(
        matches!(result, Err(BluetoothError::FlagParseError(token)) if token == "bogus")
    );
}
