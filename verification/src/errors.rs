use vstd::prelude::*;

verus! {

/// Errors returned when constructing typed values from bus-supplied data.
///
/// These are reported to the immediate caller of the affected
/// construction routine; the event decoder, by contrast, never fails and
/// simply yields no events for data it does not recognize.
#[derive(Clone, Debug, PartialEq, Eq)]
pub enum BluetoothError {
    /// A property bag lacked a field needed to construct a value.
    /// Carries the name of the missing property.
    RequiredPropertyMissing(&'static str),
    /// Capability-flag parsing saw an unrecognized name.
    /// Carries the offending raw token.
    FlagParseError(String),
    /// A UUID string from the bus could not be parsed.
    UuidParseError,
}

} // verus!
