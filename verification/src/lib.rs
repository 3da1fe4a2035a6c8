//! Framing for a device-telemetry wire protocol: a fixed 48-byte header,
//! a 16-bit status bitset, and the encode/decode pair that joins a header
//! and an opaque body into one byte buffer and splits it again.
//!
//! Every multi-byte header field travels in little-endian byte order, on
//! every platform.

use vstd::prelude::*;

pub mod deserialize;
pub mod endian;
pub mod hex;
pub mod laws;
pub mod message;
pub mod serialize;

verus! {

/// Protocol version stamped into every header this library builds.
pub const CURRENT_PROTOCOL_VERSION: u8 = 0;

} // verus!
