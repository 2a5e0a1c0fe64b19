use bluez_core::events::{
    AdapterEvent, BluetoothEvent, CharacteristicEvent, DeviceEvent,
};
use bluez_core::ids::{AdapterId, CharacteristicId, DeviceId};
use bluez_core::message::{BusMessage, PropertyValue};

fn new_device_message(device_path: &str) -> BusMessage {
    BusMessage::InterfacesAdded {
        object_path: device_path.to_string(),
        interfaces: vec![("org.bluez.Device1".to_string(), Vec::new())],
    }
}

fn adapter_powered_message(adapter_path: &str, powered: bool) -> BusMessage {
    BusMessage::PropertiesChanged {
        object_path: adapter_path.to_string(),
        interface_name: "org.bluez.Adapter1".to_string(),
        changed_properties: vec![("Powered".to_string(), PropertyValue::Bool(powered))],
    }
}

fn device_rssi_message(device_path: &str, rssi: i16) -> BusMessage {
    BusMessage::PropertiesChanged {
        object_path: device_path.to_string(),
        interface_name: "org.bluez.Device1".to_string(),
        changed_properties: vec![("RSSI".to_string(), PropertyValue::I16(rssi))],
    }
}

fn device_manufacturer_data_message(
    device_path: &str,
    manufacturer_data: Vec<(u16, Vec<u8>)>,
) -> BusMessage {
    BusMessage::PropertiesChanged {
        object_path: device_path.to_string(),
        interface_name: "org.bluez.Device1".to_string(),
        changed_properties: vec![(
            "ManufacturerData".to_string(),
            PropertyValue::IdBytesMap(manufacturer_data),
        )],
    }
}

fn device_service_data_message(
    device_path: &str,
    service_data: Vec<(String, Vec<u8>)>,
) -> BusMessage {
    BusMessage::PropertiesChanged {
        object_path: device_path.to_string(),
        interface_name: "org.bluez.Device1".to_string(),
        changed_properties: vec![(
            "ServiceData".to_string(),
            PropertyValue::NameBytesMap(service_data),
        )],
    }
}

fn device_services_message(device_path: &str, services: Vec<String>) -> BusMessage {
    BusMessage::PropertiesChanged {
        object_path: device_path.to_string(),
        interface_name: "org.bluez.Device1".to_string(),
        changed_properties: vec![("UUIDs".to_string(), PropertyValue::StrList(services))],
    }
}

fn characteristic_value_message(characteristic_path: &str, value: &[u8]) -> BusMessage {
    BusMessage::PropertiesChanged {
        object_path: characteristic_path.to_string(),
        interface_name: "org.bluez.GattCharacteristic1".to_string(),
        changed_properties: vec![("Value".to_string(), PropertyValue::Bytes(value.to_vec()))],
    }
}

#[test]
fn adapter_powered() {
    let message = adapter_powered_message("/org/bluez/hci0", true);
    let id = AdapterId::new("/org/bluez/hci0");
    assert_eq!(
        BluetoothEvent::message_to_events(&message),
        vec![BluetoothEvent::Adapter {
            id,
            event: AdapterEvent::Powered { powered: true }
        }]
    );
}

#[test]
fn device_rssi() {
    let rssi = 42;
    let message = device_rssi_message("/org/bluez/hci0/dev_11_22_33_44_55_66", rssi);
    let id = DeviceId::new("/org/bluez/hci0/dev_11_22_33_44_55_66");
    assert_eq!(
        BluetoothEvent::message_to_events(&message),
        vec![BluetoothEvent::Device {
            id,
            event: DeviceEvent::Rssi { rssi }
        }]
    );
}

#[test]
fn device_manufacturer_data() {
    let manufacturer_data = vec![(42u16, vec![1u8, 2, 3])];
    let message = device_manufacturer_data_message(
        "/org/bluez/hci0/dev_11_22_33_44_55_66",
        manufacturer_data.clone(),
    );
    let id = DeviceId::new("/org/bluez/hci0/dev_11_22_33_44_55_66");
    assert_eq!(
        BluetoothEvent::message_to_events(&message),
        vec![BluetoothEvent::Device {
            id,
            event: DeviceEvent::ManufacturerData { manufacturer_data }
        }]
    );
}

#[test]
fn device_service_data() {
    let uuid_string = "11223344-0000-1000-8000-00805f9b34fb";
    let message = device_service_data_message(
        "/org/bluez/hci0/dev_11_22_33_44_55_66",
        vec![(uuid_string.to_string(), vec![1u8, 2, 3])],
    );
    let id = DeviceId::new("/org/bluez/hci0/dev_11_22_33_44_55_66");
    let expected_key = uuid::Uuid::parse_str(uuid_string).unwrap().as_u128();
    assert_eq!(expected_key, 0x11223344_0000_1000_8000_00805f9b34fb);
    assert_eq!(
        BluetoothEvent::message_to_events(&message),
        vec![BluetoothEvent::Device {
            id,
            event: DeviceEvent::ServiceData {
                service_data: vec![(expected_key, vec![1u8, 2, 3])]
            }
        }]
    );
}

#[test]
fn device_service_data_invalid_uuid_dropped() {
    let message = device_service_data_message(
        "/org/bluez/hci0/dev_11_22_33_44_55_66",
        vec![("not a uuid".to_string(), vec![1u8, 2, 3])],
    );
    let id = DeviceId::new("/org/bluez/hci0/dev_11_22_33_44_55_66");
    assert_eq!(
        BluetoothEvent::message_to_events(&message),
        vec![BluetoothEvent::Device {
            id,
            event: DeviceEvent::ServiceData {
                service_data: Vec::new()
            }
        }]
    );
}

#[test]
fn device_services() {
    let uuid_string = "11223344-0000-1000-8000-00805f9b34fb";
    let message = device_services_message(
        "/org/bluez/hci0/dev_11_22_33_44_55_66",
        vec![uuid_string.to_string()],
    );
    let id = DeviceId::new("/org/bluez/hci0/dev_11_22_33_44_55_66");
    assert_eq!(
        BluetoothEvent::message_to_events(&message),
        vec![BluetoothEvent::Device {
            id,
            event: DeviceEvent::Services {
                services: vec![0x11223344_0000_1000_8000_00805f9b34fb]
            }
        }]
    );
}

#[test]
fn characteristic_value() {
    let value: Vec<u8> = vec![1, 2, 3];
    let message = characteristic_value_message(
        "/org/bluez/hci0/dev_11_22_33_44_55_66/service0012/char0034",
        &value,
    );
    let id = CharacteristicId::new("/org/bluez/hci0/dev_11_22_33_44_55_66/service0012/char0034");
    assert_eq!(
        BluetoothEvent::message_to_events(&message),
        vec![BluetoothEvent::Characteristic {
            id,
            event: CharacteristicEvent::Value { value }
        }]
    );
}

#[test]
fn device_discovered() {
    let message = new_device_message("/org/bluez/hci0/dev_11_22_33_44_55_66");
    let id = DeviceId::new("/org/bluez/hci0/dev_11_22_33_44_55_66");
    assert_eq!(
        BluetoothEvent::message_to_events(&message),
        vec![BluetoothEvent::Device {
            id,
            event: DeviceEvent::Discovered
        }]
    );
}

#[test]
fn interfaces_added_other_interface_ignored() {
    let message = BusMessage::InterfacesAdded {
        object_path: "/org/bluez/hci0/dev_11_22_33_44_55_66".to_string(),
        interfaces: vec![("org.bluez.Battery1".to_string(), Vec::new())],
    };
    assert_eq!(BluetoothEvent::message_to_events(&message), Vec::new());
}

#[test]
fn unknown_interface_yields_no_events() {
    let message = BusMessage::PropertiesChanged {
        object_path: "/org/bluez/hci0".to_string(),
        interface_name: "org.bluez.Battery1".to_string(),
        changed_properties: vec![("Powered".to_string(), PropertyValue::Bool(true))],
    };
    assert_eq!(BluetoothEvent::message_to_events(&message), Vec::new());
}

#[test]
fn unrecognized_message_yields_no_events() {
    assert_eq!(
        BluetoothEvent::message_to_events(&BusMessage::Other),
        Vec::new()
    );
}

#[test]
fn adapter_powered_and_discovering_order() {
    let message = BusMessage::PropertiesChanged {
        object_path: "/org/bluez/hci0".to_string(),
        interface_name: "org.bluez.Adapter1".to_string(),
        changed_properties: vec![
            ("Discovering".to_string(), PropertyValue::Bool(true)),
            ("Powered".to_string(), PropertyValue::Bool(false)),
        ],
    };
    let id = AdapterId::new("/org/bluez/hci0");
    assert_eq!(
        BluetoothEvent::message_to_events(&message),
        vec![
            BluetoothEvent::Adapter {
                id: id.clone(),
                event: AdapterEvent::Powered { powered: false }
            },
            BluetoothEvent::Adapter {
                id,
                event: AdapterEvent::Discovering { discovering: true }
            },
        ]
    );
}

#[test]
fn device_services_resolved() {
    let message = BusMessage::PropertiesChanged {
        object_path: "/org/bluez/hci0/dev_11_22_33_44_55_66".to_string(),
        interface_name: "org.bluez.Device1".to_string(),
        changed_properties: vec![("ServicesResolved".to_string(), PropertyValue::Bool(true))],
    };
    let id = DeviceId::new("/org/bluez/hci0/dev_11_22_33_44_55_66");
    assert_eq!(
        BluetoothEvent::message_to_events(&message),
        vec![BluetoothEvent::Device {
            id,
            event: DeviceEvent::ServicesResolved
        }]
    );
}

#[test]
fn device_services_resolved_false_ignored() {
    let message = BusMessage::PropertiesChanged {
        object_path: "/org/bluez/hci0/dev_11_22_33_44_55_66".to_string(),
        interface_name: "org.bluez.Device1".to_string(),
        changed_properties: vec![("ServicesResolved".to_string(), PropertyValue::Bool(false))],
    };
    assert_eq!(BluetoothEvent::message_to_events(&message), Vec::new());
}

#[test]
fn property_of_wrong_type_ignored() {
    let message = BusMessage::PropertiesChanged {
        object_path: "/org/bluez/hci0".to_string(),
        interface_name: "org.bluez.Adapter1".to_string(),
        changed_properties: vec![("Powered".to_string(), PropertyValue::U16(1))],
    };
    assert_eq!(BluetoothEvent::message_to_events(&message), Vec::new());
}
