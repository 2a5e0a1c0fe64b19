//! The event decoder: classifies an incoming bus message and yields
//! the typed Bluetooth events it carries.
//!
//! Decoding never fails: a message that is not recognized, an unknown
//! interface, or a property of an unexpected type simply contributes
//! no events. Within one message the events follow the fixed
//! per-interface key order below, not the order of the property bag.

use vstd::prelude::*;
use crate::ids::{AdapterId, CharacteristicId, DeviceId};
use crate::message::{BusMessage, BusMessageV, PropertyValue, PropertyValueV, assoc_first,
    bool_property, bytes_property, i16_property, id_bytes_map_property, name_bytes_map_property,
    spec_assoc_first, spec_bool_property, spec_bytes_property, spec_i16_property,
    spec_id_bytes_map_property, spec_name_bytes_map_property, spec_str_list_property,
    str_list_property};
use crate::strutil::str_eq;
use crate::uuids::{parse_uuid_bits, uuid_bits_of};

verus! {

/// An event relating to a Bluetooth device or adapter.
#[derive(Clone, Debug, Eq, PartialEq)]
pub enum BluetoothEvent {
    /// An event related to a Bluetooth adapter.
    Adapter {
        /// The ID of the Bluetooth adapter in question.
        id: AdapterId,
        /// Details of the specific event.
        event: AdapterEvent,
    },
    /// An event related to a Bluetooth device.
    Device {
        /// The ID of the Bluetooth device in question.
        id: DeviceId,
        /// Details of the specific event.
        event: DeviceEvent,
    },
    /// An event related to a GATT characteristic of a Bluetooth device.
    Characteristic {
        /// The ID of the GATT characteristic in question.
        id: CharacteristicId,
        /// Details of the specific event.
        event: CharacteristicEvent,
    },
}

/// Details of an event related to a Bluetooth adapter.
///
/// This enum may gain variants: consumers must keep a default arm.
#[derive(Clone, Debug, Eq, PartialEq)]
#[non_exhaustive]
pub enum AdapterEvent {
    /// The adapter has been powered on or off.
    Powered { powered: bool },
    /// The adapter has started or stopped scanning for devices.
    Discovering { discovering: bool },
}

/// Details of an event related to a Bluetooth device.
///
/// This enum may gain variants: consumers must keep a default arm.
#[derive(Clone, Debug, Eq, PartialEq)]
#[non_exhaustive]
pub enum DeviceEvent {
    /// A new device has been discovered.
    Discovered,
    /// The device has connected or disconnected.
    Connected { connected: bool },
    /// A new value is available for the RSSI of the device.
    Rssi { rssi: i16 },
    /// A new value is available for the manufacturer-specific
    /// advertisement data of the device.
    ManufacturerData {
        /// The manufacturer-specific advertisement data, keyed by
        /// manufacturer ID.
        manufacturer_data: Vec<(u16, Vec<u8>)>,
    },
    /// New GATT service advertisement data is available for the device.
    ServiceData {
        /// The new GATT service data, keyed by the 128-bit value of the
        /// service UUID.
        service_data: Vec<(u128, Vec<u8>)>,
    },
    /// The set of GATT services known for the device has changed.
    Services {
        /// The new set of GATT service UUID values from the device's
        /// advertisement or service discovery.
        services: Vec<u128>,
    },
    /// Service discovery has completed.
    ServicesResolved,
}

/// Details of an event related to a GATT characteristic.
///
/// This enum may gain variants: consumers must keep a default arm.
#[derive(Clone, Debug, Eq, PartialEq)]
#[non_exhaustive]
pub enum CharacteristicEvent {
    /// A new value of the characteristic has been received. This may be
    /// from a notification.
    Value { value: Vec<u8> },
}

/// The mathematical value of a [`BluetoothEvent`].
pub enum BluetoothEventV {
    Adapter { id: Seq<char>, event: AdapterEventV },
    Device { id: Seq<char>, event: DeviceEventV },
    Characteristic { id: Seq<char>, event: CharacteristicEventV },
}

/// The mathematical value of an [`AdapterEvent`].
pub enum AdapterEventV {
    Powered { powered: bool },
    Discovering { discovering: bool },
}

/// The mathematical value of a [`DeviceEvent`].
pub enum DeviceEventV {
    Discovered,
    Connected { connected: bool },
    Rssi { rssi: i16 },
    ManufacturerData { manufacturer_data: Seq<(u16, Seq<u8>)> },
    ServiceData { service_data: Seq<(u128, Seq<u8>)> },
    Services { services: Seq<u128> },
    ServicesResolved,
}

/// The mathematical value of a [`CharacteristicEvent`].
pub enum CharacteristicEventV {
    Value { value: Seq<u8> },
}

impl DeepView for AdapterEvent {
    type V = AdapterEventV;

    open spec fn deep_view(&self) -> AdapterEventV {
        match self {
            AdapterEvent::Powered { powered } => AdapterEventV::Powered { powered: *powered },
            AdapterEvent::Discovering { discovering } => AdapterEventV::Discovering {
                discovering: *discovering,
            },
        }
    }
}

impl DeepView for DeviceEvent {
    type V = DeviceEventV;

    open spec fn deep_view(&self) -> DeviceEventV {
        match self {
            DeviceEvent::Discovered => DeviceEventV::Discovered,
            DeviceEvent::Connected { connected } => DeviceEventV::Connected {
                connected: *connected,
            },
            DeviceEvent::Rssi { rssi } => DeviceEventV::Rssi { rssi: *rssi },
            DeviceEvent::ManufacturerData { manufacturer_data } => DeviceEventV::ManufacturerData {
                manufacturer_data: manufacturer_data.deep_view(),
            },
            DeviceEvent::ServiceData { service_data } => DeviceEventV::ServiceData {
                service_data: service_data.deep_view(),
            },
            DeviceEvent::Services { services } => DeviceEventV::Services {
                services: services.deep_view(),
            },
            DeviceEvent::ServicesResolved => DeviceEventV::ServicesResolved,
        }
    }
}

impl DeepView for CharacteristicEvent {
    type V = CharacteristicEventV;

    open spec fn deep_view(&self) -> CharacteristicEventV {
        match self {
            CharacteristicEvent::Value { value } => CharacteristicEventV::Value {
                value: value.deep_view(),
            },
        }
    }
}

impl DeepView for BluetoothEvent {
    type V = BluetoothEventV;

    open spec fn deep_view(&self) -> BluetoothEventV {
        match self {
            BluetoothEvent::Adapter { id, event } => BluetoothEventV::Adapter {
                id: id@,
                event: event.deep_view(),
            },
            BluetoothEvent::Device { id, event } => BluetoothEventV::Device {
                id: id@,
                event: event.deep_view(),
            },
            BluetoothEvent::Characteristic { id, event } => BluetoothEventV::Characteristic {
                id: id@,
                event: event.deep_view(),
            },
        }
    }
}

/// Service-data entries converted from UUID-string keys to 128-bit
/// values; an entry whose key is not a valid UUID is dropped, in
/// keeping with the decoder's policy of degrading rather than failing.
pub open spec fn spec_convert_service_data(entries: Seq<(Seq<char>, Seq<u8>)>) -> Seq<
    (u128, Seq<u8>),
>
    decreases entries.len(),
{
    if entries.len() == 0 {
        Seq::empty()
    } else {
        let rest = spec_convert_service_data(entries.drop_first());
        match uuid_bits_of(entries[0].0) {
            Some(bits) => seq![(bits, entries[0].1)] + rest,
            None => rest,
        }
    }
}

/// Service UUID strings converted to 128-bit values; a string that is
/// not a valid UUID is dropped.
pub open spec fn spec_convert_services(entries: Seq<Seq<char>>) -> Seq<u128>
    decreases entries.len(),
{
    if entries.len() == 0 {
        Seq::empty()
    } else {
        let rest = spec_convert_services(entries.drop_first());
        match uuid_bits_of(entries[0]) {
            Some(bits) => seq![bits] + rest,
            None => rest,
        }
    }
}

/// The events of a properties-changed signal on the adapter
/// interface, in fixed key order: Powered, then Discovering.
pub open spec fn spec_adapter_events(
    path: Seq<char>,
    props: Seq<(Seq<char>, PropertyValueV)>,
) -> Seq<BluetoothEventV> {
    (match spec_bool_property(props, "Powered"@) {
        Some(powered) => seq![
            BluetoothEventV::Adapter { id: path, event: AdapterEventV::Powered { powered } },
        ],
        None => Seq::empty(),
    }) + (match spec_bool_property(props, "Discovering"@) {
        Some(discovering) => seq![
            BluetoothEventV::Adapter {
                id: path,
                event: AdapterEventV::Discovering { discovering },
            },
        ],
        None => Seq::empty(),
    })
}

/// The events of a properties-changed signal on the device interface,
/// in fixed key order: Connected, RSSI, ManufacturerData, ServiceData,
/// UUIDs, ServicesResolved (the last only when it turned true).
pub open spec fn spec_device_changed_events(
    path: Seq<char>,
    props: Seq<(Seq<char>, PropertyValueV)>,
) -> Seq<BluetoothEventV> {
    (match spec_bool_property(props, "Connected"@) {
        Some(connected) => seq![
            BluetoothEventV::Device { id: path, event: DeviceEventV::Connected { connected } },
        ],
        None => Seq::empty(),
    }) + (match spec_i16_property(props, "RSSI"@) {
        Some(rssi) => seq![
            BluetoothEventV::Device { id: path, event: DeviceEventV::Rssi { rssi } },
        ],
        None => Seq::empty(),
    }) + (match spec_id_bytes_map_property(props, "ManufacturerData"@) {
        Some(manufacturer_data) => seq![
            BluetoothEventV::Device {
                id: path,
                event: DeviceEventV::ManufacturerData { manufacturer_data },
            },
        ],
        None => Seq::empty(),
    }) + (match spec_name_bytes_map_property(props, "ServiceData"@) {
        Some(service_data) => seq![
            BluetoothEventV::Device {
                id: path,
                event: DeviceEventV::ServiceData {
                    service_data: spec_convert_service_data(service_data),
                },
            },
        ],
        None => Seq::empty(),
    }) + (match spec_str_list_property(props, "UUIDs"@) {
        Some(services) => seq![
            BluetoothEventV::Device {
                id: path,
                event: DeviceEventV::Services { services: spec_convert_services(services) },
            },
        ],
        None => Seq::empty(),
    }) + (if spec_bool_property(props, "ServicesResolved"@) == Some(true) {
        seq![BluetoothEventV::Device { id: path, event: DeviceEventV::ServicesResolved }]
    } else {
        Seq::empty()
    })
}

/// The events of a properties-changed signal on the characteristic
/// interface: at most one Value event.
pub open spec fn spec_characteristic_events(
    path: Seq<char>,
    props: Seq<(Seq<char>, PropertyValueV)>,
) -> Seq<BluetoothEventV> {
    match spec_bytes_property(props, "Value"@) {
        Some(value) => seq![
            BluetoothEventV::Characteristic {
                id: path,
                event: CharacteristicEventV::Value { value },
            },
        ],
        None => Seq::empty(),
    }
}

/// The events of a properties-changed signal: dispatch on the
/// interface name; an unknown interface yields no events.
pub open spec fn spec_properties_changed_events(
    path: Seq<char>,
    interface_name: Seq<char>,
    props: Seq<(Seq<char>, PropertyValueV)>,
) -> Seq<BluetoothEventV> {
    if interface_name == "org.bluez.Adapter1"@ {
        spec_adapter_events(path, props)
    } else if interface_name == "org.bluez.Device1"@ {
        spec_device_changed_events(path, props)
    } else if interface_name == "org.bluez.GattCharacteristic1"@ {
        spec_characteristic_events(path, props)
    } else {
        Seq::empty()
    }
}

/// The events of an object-added notification: exactly one Discovered
/// event when the new object implements the device interface, and
/// none otherwise. Other interfaces in the payload are deliberately
/// ignored; their properties are picked up by separate enumeration.
pub open spec fn spec_interfaces_added_events(
    path: Seq<char>,
    interfaces: Seq<(Seq<char>, Seq<(Seq<char>, PropertyValueV)>)>,
) -> Seq<BluetoothEventV> {
    if spec_assoc_first(interfaces, "org.bluez.Device1"@) is Some {
        seq![BluetoothEventV::Device { id: path, event: DeviceEventV::Discovered }]
    } else {
        Seq::empty()
    }
}

/// The events of one incoming message. A message that is neither a
/// properties-changed signal nor an object-added notification yields
/// no events.
pub open spec fn spec_message_events(m: BusMessageV) -> Seq<BluetoothEventV> {
    match m {
        BusMessageV::PropertiesChanged { object_path, interface_name, changed_properties } =>
            spec_properties_changed_events(object_path, interface_name, changed_properties),
        BusMessageV::InterfacesAdded { object_path, interfaces } => spec_interfaces_added_events(
            object_path,
            interfaces,
        ),
        BusMessageV::Other => Seq::empty(),
    }
}

/// Decoding any message that is neither a properties-changed signal
/// nor an object-added notification yields the empty event list.
pub proof fn lemma_unrecognized_message_yields_no_events(m: BusMessageV)
    requires
        m is Other,
    ensures
        spec_message_events(m) == Seq::<BluetoothEventV>::empty(),
{
}

/// Copies a byte vector.
fn clone_bytes(v: &Vec<u8>) -> (r: Vec<u8>)
    ensures
        r@ == v@,
        r.deep_view() == v.deep_view(),
{
    let r = v.clone();
    proof {
        assert(r@ =~= v@);
        assert(r.deep_view() =~= v.deep_view());
    }
    r
}

/// Converts manufacturer data into the form the event carries.
fn convert_manufacturer_data(entries: &Vec<(u16, Vec<u8>)>) -> (r: Vec<(u16, Vec<u8>)>)
    ensures
        r.deep_view() == entries.deep_view(),
{
    let mut r: Vec<(u16, Vec<u8>)> = Vec::new();
    let mut i: usize = 0;
    while i < entries.len()
        invariant
            0 <= i <= entries.len(),
            r.deep_view() == entries.deep_view().take(i as int),
        decreases entries.len() - i,
    {
        proof {
            assert(r.deep_view().len() == i);
        }
        r.push((entries[i].0, clone_bytes(&entries[i].1)));
        proof {
            assert(r.deep_view() =~~= entries.deep_view().take(i + 1 as int));
        }
        i += 1;
    }
    proof {
        assert(entries.deep_view().take(entries.len() as int) =~= entries.deep_view());
        assert(r.deep_view() =~~= entries.deep_view());
    }
    r
}

/// Converts service data from UUID-string keys to 128-bit values,
/// dropping entries whose key is not a valid UUID.
fn convert_service_data(entries: &Vec<(String, Vec<u8>)>) -> (r: Vec<(u128, Vec<u8>)>)
    ensures
        r.deep_view() == spec_convert_service_data(entries.deep_view()),
{
    let ghost dv = entries.deep_view();
    let mut r: Vec<(u128, Vec<u8>)> = Vec::new();
    let mut i: usize = 0;
    proof {
        assert(dv.skip(0) =~= dv);
    }
    while i < entries.len()
        invariant
            dv == entries.deep_view(),
            dv.len() == entries.len(),
            0 <= i <= entries.len(),
            r.deep_view() + spec_convert_service_data(dv.skip(i as int))
                =~~= spec_convert_service_data(dv),
        decreases entries.len() - i,
    {
        proof {
            assert(dv.skip(i as int)[0] == dv[i as int]);
            assert(dv.skip(i as int).drop_first() =~= dv.skip(i + 1 as int));
        }
        if let Some(bits) = parse_uuid_bits(entries[i].0.as_str()) {
            r.push((bits, clone_bytes(&entries[i].1)));
        }
        i += 1;
    }
    proof {
        assert(dv.skip(entries.len() as int) =~= Seq::<(Seq<char>, Seq<u8>)>::empty());
        assert(r.deep_view() =~~= spec_convert_service_data(dv));
    }
    r
}

/// Converts a list of UUID strings to their 128-bit values, dropping
/// strings that are not valid UUIDs.
fn convert_services(entries: &Vec<String>) -> (r: Vec<u128>)
    ensures
        r.deep_view() == spec_convert_services(entries.deep_view()),
{
    let ghost dv = entries.deep_view();
    let mut r: Vec<u128> = Vec::new();
    let mut i: usize = 0;
    proof {
        assert(dv.skip(0) =~= dv);
    }
    while i < entries.len()
        invariant
            dv == entries.deep_view(),
            dv.len() == entries.len(),
            0 <= i <= entries.len(),
            r.deep_view() + spec_convert_services(dv.skip(i as int)) =~~= spec_convert_services(
                dv,
            ),
        decreases entries.len() - i,
    {
        proof {
            assert(dv.skip(i as int)[0] == dv[i as int]);
            assert(dv.skip(i as int).drop_first() =~= dv.skip(i + 1 as int));
        }
        if let Some(bits) = parse_uuid_bits(entries[i].as_str()) {
            r.push(bits);
        }
        i += 1;
    }
    proof {
        assert(dv.skip(entries.len() as int) =~= Seq::<Seq<char>>::empty());
        assert(r.deep_view() =~~= spec_convert_services(dv));
    }
    r
}

impl BluetoothEvent {
    /// Returns the list of Bluetooth events carried by the given bus
    /// message, in the decoder's fixed per-interface key order.
    pub fn message_to_events(message: &BusMessage) -> (events: Vec<BluetoothEvent>)
        ensures
            events.deep_view() == spec_message_events(message.deep_view()),
    {
        match message {
            BusMessage::PropertiesChanged { object_path, interface_name, changed_properties } =>
                Self::properties_changed_to_events(
                object_path.as_str(),
                interface_name.as_str(),
                changed_properties,
            ),
            BusMessage::InterfacesAdded { object_path, interfaces } =>
                Self::interfaces_added_to_events(object_path.as_str(), interfaces),
            BusMessage::Other => {
                let events: Vec<BluetoothEvent> = Vec::new();
                proof {
                    assert(events.deep_view() =~= Seq::<BluetoothEventV>::empty());
                }
                events
            },
        }
    }

    /// Returns the events of an object-added notification: one
    /// Discovered event when the added object implements the device
    /// interface.
    pub fn interfaces_added_to_events(
        object_path: &str,
        interfaces: &Vec<(String, Vec<(String, PropertyValue)>)>,
    ) -> (events: Vec<BluetoothEvent>)
        ensures
            events.deep_view() == spec_interfaces_added_events(
                object_path@,
                interfaces.deep_view(),
            ),
    {
        let mut events: Vec<BluetoothEvent> = Vec::new();
        if assoc_first(interfaces, "org.bluez.Device1").is_some() {
            let id = DeviceId::new(object_path);
            events.push(BluetoothEvent::Device { id, event: DeviceEvent::Discovered });
        }
        proof {
            assert(events.deep_view() =~~= spec_interfaces_added_events(
                object_path@,
                interfaces.deep_view(),
            ));
        }
        events
    }

    /// Returns the events of a properties-changed signal, dispatching
    /// on the interface name; an unknown interface yields no events.
    #[verifier::rlimit(50)]
    pub fn properties_changed_to_events(
        object_path: &str,
        interface_name: &str,
        changed_properties: &Vec<(String, PropertyValue)>,
    ) -> (events: Vec<BluetoothEvent>)
        ensures
            events.deep_view() == spec_properties_changed_events(
                object_path@,
                interface_name@,
                changed_properties.deep_view(),
            ),
    {
        let ghost props = changed_properties.deep_view();
        let mut events: Vec<BluetoothEvent> = Vec::new();
        if str_eq(interface_name, "org.bluez.Adapter1") {
            if let Some(powered) = bool_property(changed_properties, "Powered") {
                let id = AdapterId::new(object_path);
                events.push(
                    BluetoothEvent::Adapter { id, event: AdapterEvent::Powered { powered } },
                );
            }
            if let Some(discovering) = bool_property(changed_properties, "Discovering") {
                let id = AdapterId::new(object_path);
                events.push(
                    BluetoothEvent::Adapter {
                        id,
                        event: AdapterEvent::Discovering { discovering },
                    },
                );
            }
            proof {
                assert(events.deep_view() =~~= spec_adapter_events(object_path@, props));
            }
        } else if str_eq(interface_name, "org.bluez.Device1") {
            if let Some(connected) = bool_property(changed_properties, "Connected") {
                let id = DeviceId::new(object_path);
                events.push(
                    BluetoothEvent::Device { id, event: DeviceEvent::Connected { connected } },
                );
            }
            if let Some(rssi) = i16_property(changed_properties, "RSSI") {
                let id = DeviceId::new(object_path);
                events.push(BluetoothEvent::Device { id, event: DeviceEvent::Rssi { rssi } });
            }
            if let Some(data) = id_bytes_map_property(changed_properties, "ManufacturerData") {
                let id = DeviceId::new(object_path);
                let manufacturer_data = convert_manufacturer_data(data);
                events.push(
                    BluetoothEvent::Device {
                        id,
                        event: DeviceEvent::ManufacturerData { manufacturer_data },
                    },
                );
            }
            if let Some(data) = name_bytes_map_property(changed_properties, "ServiceData") {
                let id = DeviceId::new(object_path);
                let service_data = convert_service_data(data);
                events.push(
                    BluetoothEvent::Device {
                        id,
                        event: DeviceEvent::ServiceData { service_data },
                    },
                );
            }
            if let Some(uuids) = str_list_property(changed_properties, "UUIDs") {
                let id = DeviceId::new(object_path);
                let services = convert_services(uuids);
                events.push(
                    BluetoothEvent::Device { id, event: DeviceEvent::Services { services } },
                );
            }
            if let Some(resolved) = bool_property(changed_properties, "ServicesResolved") {
                if resolved {
                    let id = DeviceId::new(object_path);
                    events.push(
                        BluetoothEvent::Device { id, event: DeviceEvent::ServicesResolved },
                    );
                }
            }
            proof {
                assert(events.deep_view() =~~= spec_device_changed_events(object_path@, props));
            }
        } else if str_eq(interface_name, "org.bluez.GattCharacteristic1") {
            if let Some(value) = bytes_property(changed_properties, "Value") {
                let id = CharacteristicId::new(object_path);
                let value = clone_bytes(value);
                events.push(
                    BluetoothEvent::Characteristic {
                        id,
                        event: CharacteristicEvent::Value { value },
                    },
                );
            }
            proof {
                assert(events.deep_view() =~~= spec_characteristic_events(object_path@, props));
            }
        } else {
            proof {
                assert(events.deep_view() =~= Seq::<BluetoothEventV>::empty());
            }
        }
        events
    }
}

} // verus!
