//! Decision logic of the MO ingress path: peer admission with NAT64
//! unwrapping, and the handling of one inbound frame.
//!
//! The TCP listener stays at the I/O edge: it hands this module the peer
//! address and the frame bytes, stores the row and enqueues the job on
//! success, and always answers with the confirmation frame built here.

use vstd::prelude::*;
use crate::ie::{Error, Message, MessageV, MOConfirmation, ProtocolMessage, spec_parse_frame,
    spec_mo_message, spec_encode_elements, ElementV};
use crate::models::{MOMessage, MOMessageV, ProcessingStatus, SessionStatus,
    session_status_from_wire};

verus! {

/// A peer address: IPv4 as its 32-bit value, IPv6 as its 128-bit value,
/// both in network order.
#[derive(Debug, Clone, Copy, PartialEq, Eq, Structural)]
pub enum IpAddress {
    V4(u32),
    V6(u128),
}

/// An IPv6 prefix for NAT64 unwrapping: the leading `prefix_len` bits of
/// `addr` select the prefix.
#[derive(Debug, Clone, Copy, PartialEq, Eq, Structural)]
pub struct Nat64Prefix {
    pub addr: u128,
    pub prefix_len: u8,
}

impl Nat64Prefix {
    /// A prefix length fits in an IPv6 address.
    pub open spec fn wf(self) -> bool {
        self.prefix_len <= 128
    }
}

/// Whether an IPv6 address lies in the prefix.
pub open spec fn spec_prefix_contains(prefix: Nat64Prefix, addr: u128) -> bool {
    if prefix.prefix_len == 0 {
        true
    } else {
        addr >> ((128 - prefix.prefix_len) as u128) == prefix.addr >> ((128
            - prefix.prefix_len) as u128)
    }
}

/// The admitted peer address after NAT64 unwrapping: an IPv6 peer inside
/// the prefix is rewritten to the IPv4 address in its last 32 bits; every
/// other peer keeps its address.
pub open spec fn spec_resolve_peer(peer: IpAddress, nat64: Option<Nat64Prefix>) -> IpAddress {
    match (peer, nat64) {
        (IpAddress::V6(a), Some(p)) => if spec_prefix_contains(p, a) {
            IpAddress::V4((a & 0xFFFF_FFFF) as u32)
        } else {
            peer
        },
        _ => peer,
    }
}

/// Rewrites the peer address through the NAT64 prefix, if one is set and
/// matches.
pub fn resolve_peer(peer: &IpAddress, nat64: Option<&Nat64Prefix>) -> (r: IpAddress)
    requires
        nat64 matches Some(p) ==> p.wf(),
    ensures
        r == spec_resolve_peer(*peer, match nat64 {
            Some(p) => Some(*p),
            None => None,
        }),
{
    match (peer, nat64) {
        (IpAddress::V6(a), Some(p)) => {
            let contained = if p.prefix_len == 0 {
                true
            } else {
                let shift: u32 = 128 - p.prefix_len as u32;
                (*a >> shift) == (p.addr >> shift)
            };
            if contained {
                proof {
                    assert((*a & 0xFFFF_FFFF) <= 0xFFFF_FFFF) by (bit_vector);
                }
                IpAddress::V4((*a & 0xFFFF_FFFF) as u32)
            } else {
                IpAddress::V6(*a)
            }
        },
        (IpAddress::V4(a), _) => IpAddress::V4(*a),
        (IpAddress::V6(a), None) => IpAddress::V6(*a),
    }
}

/// Peer admission: the resolved address must equal the configured upstream
/// source address; every other connection is closed before any read.
pub fn admit_peer(peer: &IpAddress, nat64: Option<&Nat64Prefix>, source: &IpAddress) -> (r: bool)
    requires
        nat64 matches Some(p) ==> p.wf(),
    ensures
        r == (spec_resolve_peer(*peer, match nat64 {
            Some(p) => Some(*p),
            None => None,
        }) == *source),
{
    let resolved = resolve_peer(peer, nat64);
    resolved == *source
}

/// The decoded MO message of a whole frame.
pub open spec fn spec_decode_mo(frame: Seq<u8>) -> Result<MessageV, Error> {
    match spec_parse_frame(frame) {
        Ok(es) => spec_mo_message(es),
        Err(e) => Err(e),
    }
}

/// How a stored row reflects a decoded message received at `now`.
pub open spec fn mo_row_of(row: MOMessageV, m: MessageV, now: i64) -> bool {
    &&& row.cdr_reference == m.header.cdr_reference
    &&& row.imei == m.header.imei
    &&& row.session_status == session_status_from_wire(m.header.session_status)
    &&& row.mo_msn == m.header.momsn
    &&& row.mt_msn == m.header.mtmsn
    &&& row.time_of_session == m.header.time_of_session
    &&& row.location == m.location_information
    &&& row.data == m.payload
    &&& row.processing_status == ProcessingStatus::Received
    &&& row.received == now
}

/// Handles one inbound frame: decodes it and synthesises the row to store,
/// with a fresh id, in state `Received`. An error means nothing is stored
/// and the connection is answered with a negative confirmation.
pub fn handle_mo_frame(frame: &Vec<u8>, now: i64) -> (r: Result<MOMessage, Error>)
    ensures
        match r {
            Ok(row) => (spec_decode_mo(frame@) matches Ok(m) && mo_row_of(row@, m, now)),
            Err(e) => spec_decode_mo(frame@) == Err::<MessageV, Error>(e),
        },
{
    let pm = match ProtocolMessage::parse_frame(frame) {
        Ok(pm) => pm,
        Err(e) => {
            return Err(e);
        },
    };
    let m = match Message::from_pm(pm) {
        Ok(m) => m,
        Err(e) => {
            return Err(e);
        },
    };
    Ok(
        MOMessage {
            id: crate::models::new_row_id(),
            cdr_reference: m.header.cdr_reference,
            imei: m.header.imei,
            session_status: SessionStatus::from(m.header.session_status),
            mo_msn: m.header.momsn,
            mt_msn: m.header.mtmsn,
            time_of_session: m.header.time_of_session,
            location: m.location_information,
            data: m.payload,
            processing_status: ProcessingStatus::Received,
            received: now,
        },
    )
}

/// Builds the framed confirmation answered on every connection: one
/// confirmation IE, whose byte is 1 when the message was accepted and
/// stored, 0 otherwise.
pub fn confirmation_frame(status: bool) -> (r: Vec<u8>)
    ensures
        r@ == seq![1u8, 0u8, 4u8, 5u8, 0u8, 1u8, (if status {
            1u8
        } else {
            0u8
        })],
{
    let confirmation = MOConfirmation { status };
    let mut elements: Vec<crate::ie::Element> = Vec::new();
    elements.push(confirmation.to_element());
    let pm = ProtocolMessage { elements };
    proof {
        reveal_with_fuel(spec_encode_elements, 3);
        assert(pm@ =~= seq![
            ElementV {
                id: 5u8,
                data: seq![if status {
                    1u8
                } else {
                    0u8
                }],
            },
        ]);
        assert(spec_encode_elements(pm@).len() == 4);
    }
    let out = pm.encode_frame();
    proof {
        assert(out@ =~= seq![1u8, 0u8, 4u8, 5u8, 0u8, 1u8, (if status {
            1u8
        } else {
            0u8
        })]);
    }
    out
}

} // verus!
