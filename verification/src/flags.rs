//! The closed set of capability flags (a.k.a. properties) of a GATT
//! characteristic, and parsing of the daemon's flag-name strings.

use vstd::prelude::*;
use crate::errors::BluetoothError;
use crate::strutil::str_eq;

verus! {

/// The set of flags of a characteristic, defining how the
/// characteristic can be used. Each named capability maps to exactly
/// one bit of `bits`.
#[derive(Copy, Clone, Debug, Eq, PartialEq, Structural)]
pub struct CharacteristicFlags {
    pub bits: u16,
}

impl CharacteristicFlags {
    pub const BROADCAST: u16 = 0x01;

    pub const READ: u16 = 0x02;

    pub const WRITE_WITHOUT_RESPONSE: u16 = 0x04;

    pub const WRITE: u16 = 0x08;

    pub const NOTIFY: u16 = 0x10;

    pub const INDICATE: u16 = 0x20;

    pub const SIGNED_WRITE: u16 = 0x40;

    pub const EXTENDED_PROPERTIES: u16 = 0x80;

    pub const RELIABLE_WRITE: u16 = 0x100;

    pub const WRITABLE_AUXILIARIES: u16 = 0x200;

    pub const ENCRYPT_READ: u16 = 0x400;

    pub const ENCRYPT_WRITE: u16 = 0x800;

    pub const ENCRYPT_AUTHENTICATED_READ: u16 = 0x1000;

    pub const ENCRYPT_AUTHENTICATED_WRITE: u16 = 0x2000;

    pub const AUTHORIZE: u16 = 0x4000;

    /// The empty flag set.
    pub fn empty() -> (r: Self)
        ensures
            r.bits == 0,
    {
        CharacteristicFlags { bits: 0 }
    }

    /// The flag set with exactly the given bits.
    pub fn from_bits(bits: u16) -> (r: Self)
        ensures
            r.bits == bits,
    {
        CharacteristicFlags { bits }
    }

    /// The union of two flag sets.
    pub fn union(self, other: Self) -> (r: Self)
        ensures
            r.bits == self.bits | other.bits,
    {
        CharacteristicFlags { bits: self.bits | other.bits }
    }

    /// The intersection of two flag sets.
    pub fn intersection(self, other: Self) -> (r: Self)
        ensures
            r.bits == self.bits & other.bits,
    {
        CharacteristicFlags { bits: self.bits & other.bits }
    }

    /// True when every flag of `other` is also in `self`.
    pub fn contains(self, other: Self) -> (r: bool)
        ensures
            r == (self.bits & other.bits == other.bits),
    {
        self.bits & other.bits == other.bits
    }
}

/// The bit for one capability name, or nothing for an unrecognized
/// name. The vocabulary is closed: exactly these fifteen names are
/// recognized.
pub open spec fn spec_flag_bit(s: Seq<char>) -> Option<u16> {
    if s == "broadcast"@ {
        Some(CharacteristicFlags::BROADCAST)
    } else if s == "read"@ {
        Some(CharacteristicFlags::READ)
    } else if s == "write-without-response"@ {
        Some(CharacteristicFlags::WRITE_WITHOUT_RESPONSE)
    } else if s == "write"@ {
        Some(CharacteristicFlags::WRITE)
    } else if s == "notify"@ {
        Some(CharacteristicFlags::NOTIFY)
    } else if s == "indicate"@ {
        Some(CharacteristicFlags::INDICATE)
    } else if s == "authenticated-signed-writes"@ {
        Some(CharacteristicFlags::SIGNED_WRITE)
    } else if s == "extended-properties"@ {
        Some(CharacteristicFlags::EXTENDED_PROPERTIES)
    } else if s == "reliable-write"@ {
        Some(CharacteristicFlags::RELIABLE_WRITE)
    } else if s == "writable-auxiliaries"@ {
        Some(CharacteristicFlags::WRITABLE_AUXILIARIES)
    } else if s == "encrypt-read"@ {
        Some(CharacteristicFlags::ENCRYPT_READ)
    } else if s == "encrypt-write"@ {
        Some(CharacteristicFlags::ENCRYPT_WRITE)
    } else if s == "encrypt-authenticated-read"@ {
        Some(CharacteristicFlags::ENCRYPT_AUTHENTICATED_READ)
    } else if s == "encrypt-authenticated-write"@ {
        Some(CharacteristicFlags::ENCRYPT_AUTHENTICATED_WRITE)
    } else if s == "authorize"@ {
        Some(CharacteristicFlags::AUTHORIZE)
    } else {
        None
    }
}

/// True when every name in the list is a recognized capability name.
pub open spec fn spec_flags_ok(names: Seq<Seq<char>>) -> bool {
    forall|i: int| 0 <= i < names.len() ==> spec_flag_bit(names[i]) is Some
}

/// The union of the bits of all recognized names in the list.
pub open spec fn spec_flags_bits(names: Seq<Seq<char>>) -> u16
    decreases names.len(),
{
    if names.len() == 0 {
        0u16
    } else {
        spec_flags_bits(names.drop_last()) | (match spec_flag_bit(names.last()) {
            Some(b) => b,
            None => 0u16,
        })
    }
}

/// The bit for one capability name.
fn flag_bit(s: &str) -> (r: Option<u16>)
    ensures
        r == spec_flag_bit(s@),
{
    if str_eq(s, "broadcast") {
        Some(CharacteristicFlags::BROADCAST)
    } else if str_eq(s, "read") {
        Some(CharacteristicFlags::READ)
    } else if str_eq(s, "write-without-response") {
        Some(CharacteristicFlags::WRITE_WITHOUT_RESPONSE)
    } else if str_eq(s, "write") {
        Some(CharacteristicFlags::WRITE)
    } else if str_eq(s, "notify") {
        Some(CharacteristicFlags::NOTIFY)
    } else if str_eq(s, "indicate") {
        Some(CharacteristicFlags::INDICATE)
    } else if str_eq(s, "authenticated-signed-writes") {
        Some(CharacteristicFlags::SIGNED_WRITE)
    } else if str_eq(s, "extended-properties") {
        Some(CharacteristicFlags::EXTENDED_PROPERTIES)
    } else if str_eq(s, "reliable-write") {
        Some(CharacteristicFlags::RELIABLE_WRITE)
    } else if str_eq(s, "writable-auxiliaries") {
        Some(CharacteristicFlags::WRITABLE_AUXILIARIES)
    } else if str_eq(s, "encrypt-read") {
        Some(CharacteristicFlags::ENCRYPT_READ)
    } else if str_eq(s, "encrypt-write") {
        Some(CharacteristicFlags::ENCRYPT_WRITE)
    } else if str_eq(s, "encrypt-authenticated-read") {
        Some(CharacteristicFlags::ENCRYPT_AUTHENTICATED_READ)
    } else if str_eq(s, "encrypt-authenticated-write") {
        Some(CharacteristicFlags::ENCRYPT_AUTHENTICATED_WRITE)
    } else if str_eq(s, "authorize") {
        Some(CharacteristicFlags::AUTHORIZE)
    } else {
        None
    }
}

impl CharacteristicFlags {
    /// Parses a list of capability-name strings into a flag set.
    ///
    /// Each recognized name contributes exactly one bit. An
    /// unrecognized name aborts parsing and reports the offending
    /// token; no partial set is returned.
    pub fn try_from(value: &Vec<String>) -> (r: Result<Self, BluetoothError>)
        ensures
            r is Ok <==> spec_flags_ok(value.deep_view()),
            r matches Ok(f) ==> f.bits == spec_flags_bits(value.deep_view()),
            r matches Err(e) ==> exists|i: int|
                0 <= i < value.deep_view().len() && spec_flag_bit(value.deep_view()[i]) is None
                    && (forall|j: int| 0 <= j < i ==> spec_flag_bit(value.deep_view()[j]) is Some)
                    && (e matches BluetoothError::FlagParseError(t) && t@ == value.deep_view()[i]),
    {
        let ghost names = value.deep_view();
        let mut bits: u16 = 0;
        let mut k: usize = 0;
        while k < value.len()
            invariant
                names == value.deep_view(),
                0 <= k <= value.len(),
                value.len() == names.len(),
                forall|j: int| 0 <= j < k ==> spec_flag_bit(names[j]) is Some,
                bits == spec_flags_bits(names.take(k as int)),
            decreases value.len() - k,
        {
            match flag_bit(value[k].as_str()) {
                Some(b) => {
                    proof {
                        assert(names.take(k + 1 as int).drop_last() =~= names.take(k as int));
                        assert(names.take(k + 1 as int).last() == names[k as int]);
                    }
                    bits = bits | b;
                },
                None => {
                    return Err(BluetoothError::FlagParseError(value[k].clone()));
                },
            }
            k += 1;
        }
        proof {
            assert(names.take(value.len() as int) =~= names);
        }
        Ok(CharacteristicFlags { bits })
    }
}

} // verus!
