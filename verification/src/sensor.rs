//! Decoding of the temperature/humidity sensor's notification
//! payload, and the key/value line format of the sensor-names file.

use vstd::prelude::*;
use vstd::string::*;
use crate::strutil::{find_char, first_index_of};

verus! {

/// One reading from a temperature/humidity sensor.
#[derive(Copy, Clone, Debug, PartialEq, Eq, Structural)]
pub struct Readings {
    /// Temperature in hundredths of a degree Celsius.
    pub temperature_centidegrees: i16,
    /// Percent humidity.
    pub humidity: u8,
    /// Voltage in millivolts.
    pub battery_voltage: u16,
    /// Inferred from `battery_voltage` with a bit of hand-waving.
    pub battery_percent: u16,
}

/// The reading carried by a five-byte notification payload: a
/// little-endian signed temperature in hundredths of a degree, a
/// humidity percentage, and a little-endian battery voltage from
/// which a battery percentage is inferred. Any other length is no
/// reading.
pub open spec fn spec_decode_readings(v: Seq<u8>) -> Option<Readings> {
    if v.len() != 5 {
        None
    } else {
        let temperature_bits = (v[0] + v[1] * 256) as u16;
        let battery_voltage = ((v[3] + v[4] * 256) as u16) as int;
        let clamped = if battery_voltage >= 2100 {
            battery_voltage
        } else {
            2100
        };
        Some(
            Readings {
                temperature_centidegrees: temperature_bits as i16,
                humidity: v[2],
                battery_voltage: battery_voltage as u16,
                battery_percent: ((clamped - 2100) / 10) as u16,
            },
        )
    }
}

/// Decodes a sensor notification payload; anything but exactly five
/// bytes yields nothing.
pub fn decode_value(value: &[u8]) -> (r: Option<Readings>)
    ensures
        r == spec_decode_readings(value@),
{
    if value.len() != 5 {
        return None;
    }
    let temperature_bits: u16 = (value[0] as u16) + (value[1] as u16) * 256;
    let temperature_centidegrees = temperature_bits as i16;
    let humidity = value[2];
    let battery_voltage: u16 = (value[3] as u16) + (value[4] as u16) * 256;
    let battery_percent: u16 = if battery_voltage >= 2100 {
        (battery_voltage - 2100) / 10
    } else {
        0
    };
    Some(Readings { temperature_centidegrees, humidity, battery_voltage, battery_percent })
}

/// Splits a `key=value` line of the sensor-names file at its first
/// equals sign; a line without one is malformed.
pub fn parse_key_value(line: &str) -> (r: Option<(String, String)>)
    ensures
        match r {
            Some(kv) => first_index_of(line@, '=') < line@.len() && kv.0@ == line@.take(
                first_index_of(line@, '='),
            ) && kv.1@ == line@.skip(first_index_of(line@, '=') + 1),
            None => first_index_of(line@, '=') == line@.len(),
        },
{
    let len = line.unicode_len();
    match find_char(line, '=') {
        Some(i) => {
            let key = line.substring_char(0, i).to_owned();
            let value = line.substring_char(i + 1, len).to_owned();
            proof {
                assert(key@ =~= line@.take(first_index_of(line@, '=')));
                assert(value@ =~= line@.skip(first_index_of(line@, '=') + 1));
            }
            Some((key, value))
        },
        None => None,
    }
}

} // verus!
