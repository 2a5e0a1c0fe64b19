use bluez_core::events::BluetoothEvent;
use bluez_core::ids::{CharacteristicId, DeviceId, ServiceId};
use bluez_core::message::{BusMessage, PropertyValue};
use bluez_core::rules::any_rule_matches;

fn new_device_message(device_path: &str) -> BusMessage {
    BusMessage::InterfacesAdded {
        object_path: device_path.to_string(),
        interfaces: vec![("org.bluez.Device1".to_string(), Vec::new())],
    }
}

fn adapter_powered_message(adapter_path: &str, powered: bool) -> BusMessage {
    BusMessage::PropertiesChanged {
        object_path: adapter_path.to_string(),
        interface_name: "org.bluez.Adapter1".to_string(),
        changed_properties: vec![("Powered".to_string(), PropertyValue::Bool(powered))],
    }
}

fn device_rssi_message(device_path: &str, rssi: i16) -> BusMessage {
    BusMessage::PropertiesChanged {
        object_path: device_path.to_string(),
        interface_name: "org.bluez.Device1".to_string(),
        changed_properties: vec![("RSSI".to_string(), PropertyValue::I16(rssi))],
    }
}

fn characteristic_value_message(characteristic_path: &str, value: &[u8]) -> BusMessage {
    BusMessage::PropertiesChanged {
        object_path: characteristic_path.to_string(),
        interface_name: "org.bluez.GattCharacteristic1".to_string(),
        changed_properties: vec![("Value".to_string(), PropertyValue::Bytes(value.to_vec()))],
    }
}

#[test]
fn match_rules_all() {
    let match_rules = BluetoothEvent::match_rules(None::<DeviceId>, true);

    let message = new_device_message("/org/bluez/hci0/dev_11_22_33_44_55_66");
    assert_eq!(any_rule_matches(&match_rules, &message), true);

    let message = adapter_powered_message("/org/bluez/hci0", true);
    assert_eq!(any_rule_matches(&match_rules, &message), true);

    let message = device_rssi_message("/org/bluez/hci0/dev_11_22_33_44_55_66", 42);
    assert_eq!(any_rule_matches(&match_rules, &message), true);

    let message = characteristic_value_message(
        "/org/bluez/hci0/dev_11_22_33_44_55_66/service0012/char0034",
        &[1, 2, 3],
    );
    assert_eq!(any_rule_matches(&match_rules, &message), true);
}

#[test]
fn match_rules_device() {
    let id = DeviceId::new("/org/bluez/hci0/dev_11_22_33_44_55_66");
    let match_rules = BluetoothEvent::match_rules(Some(id), false);

    let message = new_device_message("/org/bluez/hci0/dev_11_22_33_44_55_66");
    assert_eq!(any_rule_matches(&match_rules, &message), false);

    let message = adapter_powered_message("/org/bluez/hci0", true);
    assert_eq!(any_rule_matches(&match_rules, &message), false);

    let message = device_rssi_message("/org/bluez/hci0/dev_11_22_33_44_55_66", 42);
    assert_eq!(any_rule_matches(&match_rules, &message), true);

    let message = characteristic_value_message(
        "/org/bluez/hci0/dev_11_22_33_44_55_66/service0012/char0034",
        &[1, 2, 3],
    );
    assert_eq!(any_rule_matches(&match_rules, &message), true);
}

#[test]
fn match_rules_service() {
    let id = ServiceId::new("/org/bluez/hci0/dev_11_22_33_44_55_66/service0012");
    let match_rules = BluetoothEvent::match_rules(Some(id), false);

    let message = new_device_message("/org/bluez/hci0/dev_11_22_33_44_55_66");
    assert_eq!(any_rule_matches(&match_rules, &message), false);

    let message = adapter_powered_message("/org/bluez/hci0", true);
    assert_eq!(any_rule_matches(&match_rules, &message), false);

    let message = device_rssi_message("/org/bluez/hci0/dev_11_22_33_44_55_66", 42);
    assert_eq!(any_rule_matches(&match_rules, &message), false);

    let message = characteristic_value_message(
        "/org/bluez/hci0/dev_11_22_33_44_55_66/service0012/char0034",
        &[1, 2, 3],
    );
    assert_eq!(any_rule_matches(&match_rules, &message), true);
}

#[test]
fn match_rules_characteristic() {
    let id = CharacteristicId::new("/org/bluez/hci0/dev_11_22_33_44_55_66/service0012/char0034");
    let match_rules = BluetoothEvent::match_rules(Some(id), false);

    let message = new_device_message("/org/bluez/hci0/dev_11_22_33_44_55_66");
    assert_eq!(any_rule_matches(&match_rules, &message), false);

    let message = adapter_powered_message("/org/bluez/hci0", true);
    assert_eq!(any_rule_matches(&match_rules, &message), false);

    let message = device_rssi_message("/org/bluez/hci0/dev_11_22_33_44_55_66", 42);
    assert_eq!(any_rule_matches(&match_rules, &message), false);

    let message = characteristic_value_message(
        "/org/bluez/hci0/dev_11_22_33_44_55_66/service0012/char0034",
        &[1, 2, 3],
    );
    assert_eq!(any_rule_matches(&match_rules, &message), true);
}

#[test]
fn namespace_rule_rejects_sibling_prefix() {
    let id = DeviceId::new("/org/bluez/hci0/dev_11_22");
    let match_rules = BluetoothEvent::match_rules(Some(id), false);

    // A path that extends the namespace without a separator is outside it.
    let message = device_rssi_message("/org/bluez/hci0/dev_11_22_33", 42);
    assert_eq!(any_rule_matches(&match_rules, &message), false);

    let message = device_rssi_message("/org/bluez/hci0/dev_11_22", 42);
    assert_eq!(any_rule_matches(&match_rules, &message), true);
}

#[test]
fn other_message_never_matches() {
    let match_rules = BluetoothEvent::match_rules(None::<DeviceId>, true);
    assert_eq!(any_rule_matches(&match_rules, &BusMessage::Other), false);
}
