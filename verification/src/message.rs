//! A plain-value model of the signal messages the bus daemon delivers,
//! and typed access to their property bags.
//!
//! The transport hands messages over as dynamically typed property
//! bags; this module holds what the decoder reads of them: the
//! originating object path, the interface name, and each changed
//! property as a typed value. Anything else about a message is outside
//! the model, and a message of any other kind is `Other`.

use vstd::prelude::*;
use crate::strutil::str_eq;

verus! {

/// A single typed property value as delivered in a bus property bag.
#[derive(Clone, Debug, PartialEq, Eq)]
pub enum PropertyValue {
    /// A boolean property.
    Bool(bool),
    /// A signed 16-bit integer property (e.g. an RSSI reading).
    I16(i16),
    /// An unsigned 16-bit integer property (e.g. a negotiated MTU).
    U16(u16),
    /// A string property (e.g. a UUID).
    Str(String),
    /// A raw byte-array property.
    Bytes(Vec<u8>),
    /// A byte-array map keyed by 16-bit company identifiers.
    IdBytesMap(Vec<(u16, Vec<u8>)>),
    /// A byte-array map keyed by UUID strings.
    NameBytesMap(Vec<(String, Vec<u8>)>),
    /// A list of strings (e.g. service UUIDs).
    StrList(Vec<String>),
}

/// The mathematical value of a [`PropertyValue`].
pub enum PropertyValueV {
    Bool(bool),
    I16(i16),
    U16(u16),
    Str(Seq<char>),
    Bytes(Seq<u8>),
    IdBytesMap(Seq<(u16, Seq<u8>)>),
    NameBytesMap(Seq<(Seq<char>, Seq<u8>)>),
    StrList(Seq<Seq<char>>),
}

impl DeepView for PropertyValue {
    type V = PropertyValueV;

    open spec fn deep_view(&self) -> PropertyValueV {
        match self {
            PropertyValue::Bool(b) => PropertyValueV::Bool(*b),
            PropertyValue::I16(n) => PropertyValueV::I16(*n),
            PropertyValue::U16(n) => PropertyValueV::U16(*n),
            PropertyValue::Str(s) => PropertyValueV::Str(s@),
            PropertyValue::Bytes(v) => PropertyValueV::Bytes(v.deep_view()),
            PropertyValue::IdBytesMap(m) => PropertyValueV::IdBytesMap(m.deep_view()),
            PropertyValue::NameBytesMap(m) => PropertyValueV::NameBytesMap(m.deep_view()),
            PropertyValue::StrList(l) => PropertyValueV::StrList(l.deep_view()),
        }
    }
}

/// An incoming bus message, reduced to what the decoder reads of it.
#[derive(Clone, Debug, PartialEq, Eq)]
pub enum BusMessage {
    /// A properties-changed signal: the object it originates from, the
    /// interface whose properties changed, and the changed properties.
    PropertiesChanged {
        object_path: String,
        interface_name: String,
        changed_properties: Vec<(String, PropertyValue)>,
    },
    /// An object-added notification from the bus-wide object manager:
    /// the new object and the property bag of each interface it
    /// implements.
    InterfacesAdded {
        object_path: String,
        interfaces: Vec<(String, Vec<(String, PropertyValue)>)>,
    },
    /// Any message that is neither of the two recognized signals.
    Other,
}

/// The mathematical value of a [`BusMessage`].
pub enum BusMessageV {
    PropertiesChanged {
        object_path: Seq<char>,
        interface_name: Seq<char>,
        changed_properties: Seq<(Seq<char>, PropertyValueV)>,
    },
    InterfacesAdded {
        object_path: Seq<char>,
        interfaces: Seq<(Seq<char>, Seq<(Seq<char>, PropertyValueV)>)>,
    },
    Other,
}

impl DeepView for BusMessage {
    type V = BusMessageV;

    open spec fn deep_view(&self) -> BusMessageV {
        match self {
            BusMessage::PropertiesChanged { object_path, interface_name, changed_properties } =>
                BusMessageV::PropertiesChanged {
                    object_path: object_path@,
                    interface_name: interface_name@,
                    changed_properties: changed_properties.deep_view(),
                },
            BusMessage::InterfacesAdded { object_path, interfaces } =>
                BusMessageV::InterfacesAdded {
                    object_path: object_path@,
                    interfaces: interfaces.deep_view(),
                },
            BusMessage::Other => BusMessageV::Other,
        }
    }
}

/// The value under the first occurrence of `key` in an association
/// list, as a property bag lookup finds it.
pub open spec fn spec_assoc_first<T>(pairs: Seq<(Seq<char>, T)>, key: Seq<char>) -> Option<T>
    decreases pairs.len(),
{
    if pairs.len() == 0 {
        None
    } else if pairs[0].0 == key {
        Some(pairs[0].1)
    } else {
        spec_assoc_first(pairs.drop_first(), key)
    }
}

/// Finds the first entry named `key` in an association list.
pub fn assoc_first<'a, T: DeepView>(pairs: &'a Vec<(String, T)>, key: &str) -> (r: Option<&'a T>)
    ensures
        match r {
            Some(v) => spec_assoc_first(pairs.deep_view(), key@) == Some(v.deep_view()),
            None => spec_assoc_first(pairs.deep_view(), key@) is None,
        },
{
    let ghost dv = pairs.deep_view();
    proof {
        assert(dv.skip(0) =~= dv);
    }
    let mut i: usize = 0;
    while i < pairs.len()
        invariant
            dv == pairs.deep_view(),
            dv.len() == pairs.len(),
            0 <= i <= pairs.len(),
            spec_assoc_first(dv, key@) == spec_assoc_first(dv.skip(i as int), key@),
        decreases pairs.len() - i,
    {
        proof {
            assert(dv.skip(i as int)[0] == dv[i as int]);
            assert(dv.skip(i as int).drop_first() =~= dv.skip(i + 1 as int));
        }
        if str_eq(pairs[i].0.as_str(), key) {
            return Some(&pairs[i].1);
        }
        i += 1;
    }
    proof {
        assert(dv.skip(pairs.len() as int) =~= Seq::<(Seq<char>, T::V)>::empty());
    }
    None
}

/// The boolean property named `key`, when present with that type.
pub open spec fn spec_bool_property(
    props: Seq<(Seq<char>, PropertyValueV)>,
    key: Seq<char>,
) -> Option<bool> {
    match spec_assoc_first(props, key) {
        Some(PropertyValueV::Bool(b)) => Some(b),
        _ => None,
    }
}

/// The signed 16-bit property named `key`, when present with that type.
pub open spec fn spec_i16_property(
    props: Seq<(Seq<char>, PropertyValueV)>,
    key: Seq<char>,
) -> Option<i16> {
    match spec_assoc_first(props, key) {
        Some(PropertyValueV::I16(n)) => Some(n),
        _ => None,
    }
}

/// The unsigned 16-bit property named `key`, when present with that type.
pub open spec fn spec_u16_property(
    props: Seq<(Seq<char>, PropertyValueV)>,
    key: Seq<char>,
) -> Option<u16> {
    match spec_assoc_first(props, key) {
        Some(PropertyValueV::U16(n)) => Some(n),
        _ => None,
    }
}

/// The string property named `key`, when present with that type.
pub open spec fn spec_str_property(
    props: Seq<(Seq<char>, PropertyValueV)>,
    key: Seq<char>,
) -> Option<Seq<char>> {
    match spec_assoc_first(props, key) {
        Some(PropertyValueV::Str(s)) => Some(s),
        _ => None,
    }
}

/// The byte-array property named `key`, when present with that type.
pub open spec fn spec_bytes_property(
    props: Seq<(Seq<char>, PropertyValueV)>,
    key: Seq<char>,
) -> Option<Seq<u8>> {
    match spec_assoc_first(props, key) {
        Some(PropertyValueV::Bytes(v)) => Some(v),
        _ => None,
    }
}

/// The id-keyed byte-map property named `key`, when present with that
/// type.
pub open spec fn spec_id_bytes_map_property(
    props: Seq<(Seq<char>, PropertyValueV)>,
    key: Seq<char>,
) -> Option<Seq<(u16, Seq<u8>)>> {
    match spec_assoc_first(props, key) {
        Some(PropertyValueV::IdBytesMap(m)) => Some(m),
        _ => None,
    }
}

/// The name-keyed byte-map property named `key`, when present with
/// that type.
pub open spec fn spec_name_bytes_map_property(
    props: Seq<(Seq<char>, PropertyValueV)>,
    key: Seq<char>,
) -> Option<Seq<(Seq<char>, Seq<u8>)>> {
    match spec_assoc_first(props, key) {
        Some(PropertyValueV::NameBytesMap(m)) => Some(m),
        _ => None,
    }
}

/// The string-list property named `key`, when present with that type.
pub open spec fn spec_str_list_property(
    props: Seq<(Seq<char>, PropertyValueV)>,
    key: Seq<char>,
) -> Option<Seq<Seq<char>>> {
    match spec_assoc_first(props, key) {
        Some(PropertyValueV::StrList(l)) => Some(l),
        _ => None,
    }
}

/// Reads the boolean property named `key` from a property bag.
pub fn bool_property(props: &Vec<(String, PropertyValue)>, key: &str) -> (r: Option<bool>)
    ensures
        r == spec_bool_property(props.deep_view(), key@),
{
    match assoc_first(props, key) {
        Some(PropertyValue::Bool(b)) => Some(*b),
        _ => None,
    }
}

/// Reads the signed 16-bit property named `key` from a property bag.
pub fn i16_property(props: &Vec<(String, PropertyValue)>, key: &str) -> (r: Option<i16>)
    ensures
        r == spec_i16_property(props.deep_view(), key@),
{
    match assoc_first(props, key) {
        Some(PropertyValue::I16(n)) => Some(*n),
        _ => None,
    }
}

/// Reads the unsigned 16-bit property named `key` from a property bag.
pub fn u16_property(props: &Vec<(String, PropertyValue)>, key: &str) -> (r: Option<u16>)
    ensures
        r == spec_u16_property(props.deep_view(), key@),
{
    match assoc_first(props, key) {
        Some(PropertyValue::U16(n)) => Some(*n),
        _ => None,
    }
}

/// Reads the string property named `key` from a property bag.
pub fn str_property<'a>(props: &'a Vec<(String, PropertyValue)>, key: &str) -> (r: Option<
    &'a String,
>)
    ensures
        match r {
            Some(s) => spec_str_property(props.deep_view(), key@) == Some(s@),
            None => spec_str_property(props.deep_view(), key@) is None,
        },
{
    match assoc_first(props, key) {
        Some(PropertyValue::Str(s)) => Some(s),
        _ => None,
    }
}

/// Reads the byte-array property named `key` from a property bag.
pub fn bytes_property<'a>(props: &'a Vec<(String, PropertyValue)>, key: &str) -> (r: Option<
    &'a Vec<u8>,
>)
    ensures
        match r {
            Some(v) => spec_bytes_property(props.deep_view(), key@) == Some(v.deep_view()),
            None => spec_bytes_property(props.deep_view(), key@) is None,
        },
{
    match assoc_first(props, key) {
        Some(PropertyValue::Bytes(v)) => Some(v),
        _ => None,
    }
}

/// Reads the id-keyed byte-map property named `key` from a property
/// bag.
pub fn id_bytes_map_property<'a>(props: &'a Vec<(String, PropertyValue)>, key: &str) -> (r: Option<
    &'a Vec<(u16, Vec<u8>)>,
>)
    ensures
        match r {
            Some(m) => spec_id_bytes_map_property(props.deep_view(), key@) == Some(m.deep_view()),
            None => spec_id_bytes_map_property(props.deep_view(), key@) is None,
        },
{
    match assoc_first(props, key) {
        Some(PropertyValue::IdBytesMap(m)) => Some(m),
        _ => None,
    }
}

/// Reads the name-keyed byte-map property named `key` from a property
/// bag.
pub fn name_bytes_map_property<'a>(props: &'a Vec<(String, PropertyValue)>, key: &str) -> (r:
    Option<&'a Vec<(String, Vec<u8>)>>)
    ensures
        match r {
            Some(m) => spec_name_bytes_map_property(props.deep_view(), key@) == Some(
                m.deep_view(),
            ),
            None => spec_name_bytes_map_property(props.deep_view(), key@) is None,
        },
{
    match assoc_first(props, key) {
        Some(PropertyValue::NameBytesMap(m)) => Some(m),
        _ => None,
    }
}

/// Reads the string-list property named `key` from a property bag.
pub fn str_list_property<'a>(props: &'a Vec<(String, PropertyValue)>, key: &str) -> (r: Option<
    &'a Vec<String>,
>)
    ensures
        match r {
            Some(l) => spec_str_list_property(props.deep_view(), key@) == Some(l.deep_view()),
            None => spec_str_list_property(props.deep_view(), key@) is None,
        },
{
    match assoc_first(props, key) {
        Some(PropertyValue::StrList(l)) => Some(l),
        _ => None,
    }
}

} // verus!
