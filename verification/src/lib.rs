//! Verified core of a BlueZ-style Bluetooth Low Energy client.
//!
//! The crate models the translation layer between a bus daemon's raw
//! signal traffic and a small, strongly typed event vocabulary:
//! path-derived object identifiers with parent derivation, characteristic
//! capability flags, modalias strings, subscription match rules, and a
//! decoder that turns incoming bus messages into typed Bluetooth events.
//! The bus transport itself is an external collaborator and is not part
//! of this crate.

pub mod characteristic;
pub mod errors;
pub mod flags;
pub mod events;
pub mod ids;
pub mod introspect;
pub mod message;
pub mod modalias;
pub mod rules;
pub mod sensor;
pub mod strutil;
pub mod uuids;
