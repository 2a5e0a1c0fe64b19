//! Information about a GATT characteristic, constructed from the
//! property bag under which the daemon enumerates it.

use vstd::prelude::*;
use crate::errors::BluetoothError;
use crate::flags::{CharacteristicFlags, spec_flag_bit, spec_flags_bits, spec_flags_ok};
use crate::ids::CharacteristicId;
use crate::message::{PropertyValue, spec_str_list_property, spec_str_property,
    spec_u16_property, str_list_property, str_property, u16_property};
use crate::uuids::{parse_uuid_bits, uuid_bits_of};

verus! {

/// Information about a GATT characteristic on a Bluetooth device.
#[derive(Clone, Debug, Eq, PartialEq)]
pub struct CharacteristicInfo {
    /// An opaque identifier for the characteristic on the device,
    /// including a reference to which adapter it was discovered on.
    pub id: CharacteristicId,
    /// The 128-bit value of the UUID of the characteristic.
    pub uuid: u128,
    /// The set of flags (a.k.a. properties) of the characteristic,
    /// defining how the characteristic can be used.
    pub flags: CharacteristicFlags,
    /// Characteristic MTU, when the daemon reports one.
    pub mtu: Option<u16>,
}

impl CharacteristicInfo {
    /// Constructs the characteristic's description from its property
    /// bag: the UUID and Flags properties are required, the MTU is
    /// optional.
    pub fn from_properties(
        id: CharacteristicId,
        characteristic_properties: &Vec<(String, PropertyValue)>,
    ) -> (r: Result<Self, BluetoothError>)
        ensures
            ({
                let props = characteristic_properties.deep_view();
                match r {
                    Ok(info) => {
                        &&& info.id == id
                        &&& spec_str_property(props, "UUID"@) matches Some(u) && uuid_bits_of(u)
                            == Some(info.uuid)
                        &&& spec_str_list_property(props, "Flags"@) matches Some(names)
                            && spec_flags_ok(names) && info.flags.bits == spec_flags_bits(names)
                        &&& info.mtu == spec_u16_property(props, "MTU"@)
                    },
                    Err(e) => {
                        if spec_str_property(props, "UUID"@) is None {
                            e matches BluetoothError::RequiredPropertyMissing(n) && n@ == "UUID"@
                        } else if uuid_bits_of(spec_str_property(props, "UUID"@).unwrap())
                            is None {
                            e == BluetoothError::UuidParseError
                        } else if spec_str_list_property(props, "Flags"@) is None {
                            e matches BluetoothError::RequiredPropertyMissing(n) && n@ == "Flags"@
                        } else {
                            let names = spec_str_list_property(props, "Flags"@).unwrap();
                            !spec_flags_ok(names) && exists|i: int|
                                0 <= i < names.len() && spec_flag_bit(names[i]) is None && (
                                forall|j: int| 0 <= j < i ==> spec_flag_bit(names[j]) is Some) && (
                                e matches BluetoothError::FlagParseError(t) && t@ == names[i])
                        }
                    },
                }
            }),
    {
        let uuid_str = match str_property(characteristic_properties, "UUID") {
            Some(s) => s,
            None => {
                return Err(BluetoothError::RequiredPropertyMissing("UUID"));
            },
        };
        let uuid = match parse_uuid_bits(uuid_str.as_str()) {
            Some(bits) => bits,
            None => {
                return Err(BluetoothError::UuidParseError);
            },
        };
        let flag_strings = match str_list_property(characteristic_properties, "Flags") {
            Some(l) => l,
            None => {
                return Err(BluetoothError::RequiredPropertyMissing("Flags"));
            },
        };
        let flags = match CharacteristicFlags::try_from(flag_strings) {
            Ok(f) => f,
            Err(e) => {
                return Err(e);
            },
        };
        let mtu = u16_property(characteristic_properties, "MTU");
        Ok(CharacteristicInfo { id, uuid, flags, mtu })
    }
}

} // verus!
