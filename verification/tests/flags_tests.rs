use bluez_core::errors::BluetoothError;
use bluez_core::flags::CharacteristicFlags;

#[test]
fn parse_flags() {
    let flags =
        CharacteristicFlags::try_from(&vec!["read".to_string(), "encrypt-write".to_string()])
            .unwrap();
    assert_eq!(
        flags,
        CharacteristicFlags::from_bits(CharacteristicFlags::READ | CharacteristicFlags::ENCRYPT_WRITE)
    );
}

#[test]
fn parse_flags_fail() {
    let flags =
        CharacteristicFlags::try_from(&vec!["read".to_string(), "invalid flag".to_string()]);
    assert!(
        matches!(flags, Err(BluetoothError::FlagParseError(string)) if string == "invalid flag")
    );
}

#[test]
fn parse_each_flag_name() {
    let names = [
        ("broadcast", CharacteristicFlags::BROADCAST),
        ("read", CharacteristicFlags::READ),
        ("write-without-response", CharacteristicFlags::WRITE_WITHOUT_RESPONSE),
        ("write", CharacteristicFlags::WRITE),
        ("notify", CharacteristicFlags::NOTIFY),
        ("indicate", CharacteristicFlags::INDICATE),
        ("authenticated-signed-writes", CharacteristicFlags::SIGNED_WRITE),
        ("extended-properties", CharacteristicFlags::EXTENDED_PROPERTIES),
        ("reliable-write", CharacteristicFlags::RELIABLE_WRITE),
        ("writable-auxiliaries", CharacteristicFlags::WRITABLE_AUXILIARIES),
        ("encrypt-read", CharacteristicFlags::ENCRYPT_READ),
        ("encrypt-write", CharacteristicFlags::ENCRYPT_WRITE),
        ("encrypt-authenticated-read", CharacteristicFlags::ENCRYPT_AUTHENTICATED_READ),
        ("encrypt-authenticated-write", CharacteristicFlags::ENCRYPT_AUTHENTICATED_WRITE),
        ("authorize", CharacteristicFlags::AUTHORIZE),
    ];
    for (name, bit) in names {
        let flags = CharacteristicFlags::try_from(&vec![name.to_string()]).unwrap();
        assert_eq!(flags.bits, bit, "flag {}", name);
    }
}

#[test]
fn parse_empty_flag_list() {
    let flags = CharacteristicFlags::try_from(&Vec::new()).unwrap();
    assert_eq!(flags, CharacteristicFlags::empty());
}

#[test]
fn flag_set_operations() {
    let read = CharacteristicFlags::from_bits(CharacteristicFlags::READ);
    let write = CharacteristicFlags::from_bits(CharacteristicFlags::WRITE);
    let both = read.union(write);
    assert_eq!(both.bits, CharacteristicFlags::READ | CharacteristicFlags::WRITE);
    assert!(both.contains(read));
    assert!(both.contains(write));
    assert!(!read.contains(write));
    assert_eq!(both.intersection(read), read);
}
