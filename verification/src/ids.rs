//! Opaque, path-derived identifiers for the objects a Bluetooth daemon
//! exposes: adapters, devices, GATT services and GATT characteristics.
//!
//! Each identifier wraps a hierarchical object path of slash-separated
//! segments. A child's path is always its parent's path plus one more
//! segment, so parent derivation truncates the path at its last
//! separator.

use vstd::prelude::*;
use vstd::string::*;
use crate::strutil::{has_separator, last_separator, lemma_last_separator, rfind_separator,
    strip_prefix_str};

verus! {

/// The path of a parent object: everything before the last separator.
pub open spec fn parent_path(s: Seq<char>) -> Seq<char> {
    s.subrange(0, last_separator(s))
}

/// The daemon exposes all of its objects under this path prefix; the
/// display form of an identifier strips it.
pub open spec fn display_form(s: Seq<char>) -> Option<Seq<char>> {
    if "/org/bluez/"@.is_prefix_of(s) {
        Some(s.skip("/org/bluez/"@.len() as int))
    } else {
        None
    }
}

/// Appending `/` and one separator-free segment to a path and then
/// truncating at the last separator gives the original path back:
/// child and parent derivation are mutually inverse.
pub proof fn lemma_parent_of_child(parent: Seq<char>, segment: Seq<char>)
    requires
        forall|j: int| 0 <= j < segment.len() ==> segment[j] != '/',
    ensures
        parent_path(parent + seq!['/'] + segment) == parent,
{
    let child = parent + seq!['/'] + segment;
    lemma_last_separator(child);
    assert(child[parent.len() as int] == '/');
    let ls = last_separator(child);
    assert(ls >= 0);
    if ls > parent.len() {
        assert(segment[ls - parent.len() - 1] != '/');
        assert(child[ls] != '/');
    }
    assert(ls == parent.len());
    assert(parent_path(child) =~= parent);
}

/// Splitting a path with a separator at its last separator and
/// joining the two halves with `/` gives the path back: the other
/// direction of the mutual inverse.
pub proof fn lemma_child_of_parent(p: Seq<char>)
    requires
        has_separator(p),
    ensures
        parent_path(p) + seq!['/'] + p.skip(last_separator(p) + 1) == p,
{
    lemma_last_separator(p);
    assert(parent_path(p) + seq!['/'] + p.skip(last_separator(p) + 1) =~= p);
}

/// Opaque identifier for a Bluetooth adapter.
#[derive(Clone, Debug, Eq, Hash, Ord, PartialEq, PartialOrd)]
pub struct AdapterId {
    object_path: String,
}

/// Opaque identifier for a Bluetooth device.
#[derive(Clone, Debug, Eq, Hash, Ord, PartialEq, PartialOrd)]
pub struct DeviceId {
    object_path: String,
}

/// Opaque identifier for a GATT service on a Bluetooth device.
#[derive(Clone, Debug, Eq, Hash, Ord, PartialEq, PartialOrd)]
pub struct ServiceId {
    object_path: String,
}

/// Opaque identifier for a GATT characteristic on a Bluetooth device.
#[derive(Clone, Debug, Eq, Hash, Ord, PartialEq, PartialOrd)]
pub struct CharacteristicId {
    object_path: String,
}

impl View for AdapterId {
    type V = Seq<char>;

    closed spec fn view(&self) -> Seq<char> {
        self.object_path@
    }
}

impl View for DeviceId {
    type V = Seq<char>;

    closed spec fn view(&self) -> Seq<char> {
        self.object_path@
    }
}

impl View for ServiceId {
    type V = Seq<char>;

    closed spec fn view(&self) -> Seq<char> {
        self.object_path@
    }
}

impl View for CharacteristicId {
    type V = Seq<char>;

    closed spec fn view(&self) -> Seq<char> {
        self.object_path@
    }
}

/// Identifiers that name a bus object by its full object path.
pub trait ObjectId: Sized {
    spec fn path_view(&self) -> Seq<char>;

    /// Gives up the identifier and hands back its object path.
    fn into_object_path(self) -> (r: String)
        ensures
            r@ == self.path_view(),
    ;
}

impl AdapterId {
    /// Wraps a raw object path as an adapter identifier; the path is not
    /// validated, since real paths are always supplied by the bus.
    pub fn new(object_path: &str) -> (r: Self)
        ensures
            r@ == object_path@,
    {
        AdapterId { object_path: object_path.to_owned() }
    }

    /// The raw object path of this adapter.
    pub fn object_path(&self) -> (r: &str)
        ensures
            r@ == self@,
    {
        self.object_path.as_str()
    }

    /// The user-facing form of the identifier: the object path with the
    /// daemon's namespace prefix stripped, or nothing when the prefix is
    /// absent.
    pub fn to_display_string(&self) -> (r: Option<String>)
        ensures
            r matches Some(d) ==> display_form(self@) == Some(d@),
            r is None ==> display_form(self@) is None,
    {
        strip_prefix_str(self.object_path.as_str(), "/org/bluez/")
    }
}

impl ObjectId for AdapterId {
    open spec fn path_view(&self) -> Seq<char> {
        self@
    }

    fn into_object_path(self) -> (r: String) {
        self.object_path
    }
}

impl DeviceId {
    /// Wraps a raw object path as a device identifier; the path is not
    /// validated, since real paths are always supplied by the bus.
    pub fn new(object_path: &str) -> (r: Self)
        ensures
            r@ == object_path@,
    {
        DeviceId { object_path: object_path.to_owned() }
    }

    /// The raw object path of this device.
    pub fn object_path(&self) -> (r: &str)
        ensures
            r@ == self@,
    {
        self.object_path.as_str()
    }

    /// The identifier of the adapter on which this device was discovered.
    pub fn adapter(&self) -> (r: AdapterId)
        requires
            has_separator(self@),
        ensures
            r@ == parent_path(self@),
    {
        let path = self.object_path.as_str();
        let index = rfind_separator(path).unwrap();
        AdapterId::new(path.substring_char(0, index))
    }

    /// The user-facing form of the identifier: the object path with the
    /// daemon's namespace prefix stripped, or nothing when the prefix is
    /// absent.
    pub fn to_display_string(&self) -> (r: Option<String>)
        ensures
            r matches Some(d) ==> display_form(self@) == Some(d@),
            r is None ==> display_form(self@) is None,
    {
        strip_prefix_str(self.object_path.as_str(), "/org/bluez/")
    }
}

impl ObjectId for DeviceId {
    open spec fn path_view(&self) -> Seq<char> {
        self@
    }

    fn into_object_path(self) -> (r: String) {
        self.object_path
    }
}

impl ServiceId {
    /// Wraps a raw object path as a service identifier; the path is not
    /// validated, since real paths are always supplied by the bus.
    pub fn new(object_path: &str) -> (r: Self)
        ensures
            r@ == object_path@,
    {
        ServiceId { object_path: object_path.to_owned() }
    }

    /// The raw object path of this service.
    pub fn object_path(&self) -> (r: &str)
        ensures
            r@ == self@,
    {
        self.object_path.as_str()
    }

    /// The identifier of the device on which this service was advertised.
    pub fn device(&self) -> (r: DeviceId)
        requires
            has_separator(self@),
        ensures
            r@ == parent_path(self@),
    {
        let path = self.object_path.as_str();
        let index = rfind_separator(path).unwrap();
        DeviceId::new(path.substring_char(0, index))
    }

    /// The user-facing form of the identifier: the object path with the
    /// daemon's namespace prefix stripped, or nothing when the prefix is
    /// absent.
    pub fn to_display_string(&self) -> (r: Option<String>)
        ensures
            r matches Some(d) ==> display_form(self@) == Some(d@),
            r is None ==> display_form(self@) is None,
    {
        strip_prefix_str(self.object_path.as_str(), "/org/bluez/")
    }
}

impl ObjectId for ServiceId {
    open spec fn path_view(&self) -> Seq<char> {
        self@
    }

    fn into_object_path(self) -> (r: String) {
        self.object_path
    }
}

impl CharacteristicId {
    /// Wraps a raw object path as a characteristic identifier; the path
    /// is not validated, since real paths are always supplied by the bus.
    pub fn new(object_path: &str) -> (r: Self)
        ensures
            r@ == object_path@,
    {
        CharacteristicId { object_path: object_path.to_owned() }
    }

    /// The raw object path of this characteristic.
    pub fn object_path(&self) -> (r: &str)
        ensures
            r@ == self@,
    {
        self.object_path.as_str()
    }

    /// The identifier of the service on which this characteristic was
    /// advertised: the path truncated at its last separator.
    pub fn service(&self) -> (r: ServiceId)
        requires
            has_separator(self@),
        ensures
            r@ == parent_path(self@),
    {
        let path = self.object_path.as_str();
        let index = rfind_separator(path).unwrap();
        ServiceId::new(path.substring_char(0, index))
    }

    /// The user-facing form of the identifier: the object path with the
    /// daemon's namespace prefix stripped, or nothing when the prefix is
    /// absent.
    pub fn to_display_string(&self) -> (r: Option<String>)
        ensures
            r matches Some(d) ==> display_form(self@) == Some(d@),
            r is None ==> display_form(self@) is None,
    {
        strip_prefix_str(self.object_path.as_str(), "/org/bluez/")
    }
}

impl ObjectId for CharacteristicId {
    open spec fn path_view(&self) -> Seq<char> {
        self@
    }

    fn into_object_path(self) -> (r: String) {
        self.object_path
    }
}

} // verus!
