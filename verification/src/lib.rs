//! Meshtastic-compatible LoRa node logic: a byte cursor, varint and protobuf wire
//! encoding, the Meshtastic packet header, the SX126x radio command layer and
//! AES/SHA helpers.
use vstd::prelude::*;

pub mod cursor;
pub mod endian;
pub mod varint;
pub mod proto;
pub mod meshtastic;
pub mod crypto;
pub mod radio;





verus! {

} // verus!
