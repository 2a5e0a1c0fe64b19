use bluez_core::ids::{AdapterId, CharacteristicId, DeviceId, ServiceId};

#[test]
fn characteristic_service() {
    let service_id = ServiceId::new("/org/bluez/hci0/dev_11_22_33_44_55_66/service0022");
    let characteristic_id =
        CharacteristicId::new("/org/bluez/hci0/dev_11_22_33_44_55_66/service0022/char0033");
    assert_eq!(characteristic_id.service(), service_id);
}

#[test]
fn characteristic_to_string() {
    let characteristic_id =
        CharacteristicId::new("/org/bluez/hci0/dev_11_22_33_44_55_66/service0022/char0033");
    assert_eq!(
        characteristic_id.to_display_string().unwrap(),
        "hci0/dev_11_22_33_44_55_66/service0022/char0033"
    );
}

#[test]
fn service_device() {
    let device_id = DeviceId::new("/org/bluez/hci0/dev_11_22_33_44_55_66");
    let service_id = ServiceId::new("/org/bluez/hci0/dev_11_22_33_44_55_66/service0022");
    assert_eq!(service_id.device(), device_id);
}

#[test]
fn device_adapter() {
    let adapter_id = AdapterId::new("/org/bluez/hci0");
    let device_id = DeviceId::new("/org/bluez/hci0/dev_11_22_33_44_55_66");
    assert_eq!(device_id.adapter(), adapter_id);
}

#[test]
fn display_without_prefix() {
    let adapter_id = AdapterId::new("/somewhere/else/hci0");
    assert_eq!(adapter_id.to_display_string(), None);
}

#[test]
fn object_path_round_trip() {
    let device_id = DeviceId::new("/org/bluez/hci0/dev_11_22_33_44_55_66");
    assert_eq!(
        device_id.object_path(),
        "/org/bluez/hci0/dev_11_22_33_44_55_66"
    );
}
