//! Satellite short-burst-data (SBD) message gateway core.
//!
//! The verified library covers the binary wire codec for the SBD protocol,
//! the decision logic of the mobile-originated (MO) ingress path, the
//! mobile-terminated (MT) submission endpoint, and the delivery pipeline's
//! job decisions. I/O (sockets, HTTP, database, queue) lives outside.

pub mod bytes;
pub mod crypto;
pub mod http;
pub mod ie;
pub mod mo;
pub mod models;
pub mod types;
pub mod worker;

use vstd::prelude::*;

verus! {

/// Default upstream operator source address, 12.47.179.11, as a big-endian
/// 32-bit value.
pub const IRIDIUM_SOURCE_IP: u32 = 0x0C2F_B30B;

} // verus!
