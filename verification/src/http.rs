//! Decision logic of the MT submission endpoint (`POST /submit_mt`).
//!
//! The HTTP shell reads the auth headers and the body (at most 4 KiB),
//! looks the target up, and parses the JSON fields; every decision after
//! that — the MAC check, validation, and the stored row — is made here.
//! Missing or malformed headers, an unknown target id, an over-long body
//! and storage failures are answered at the edge, as the response table of
//! the endpoint prescribes.

use vstd::prelude::*;
use crate::crypto::{hmac_sha256, hmac_sha256_of, base64_decode, base64_decoded, bytes_eq_ct};
use crate::models::{MTMessage, MTMessageV, ProcessingStatus, Target, TargetV};

verus! {

/// The fields of a submission request, as parsed from its JSON body:
/// `imei` (as bytes), `payload` (base64 text), optional `priority`.
#[derive(Debug)]
pub struct SubmitRequest {
    pub imei: Vec<u8>,
    pub payload: String,
    pub priority: Option<u8>,
}

/// Mathematical value of a [`SubmitRequest`].
pub struct SubmitRequestV {
    pub imei: Seq<u8>,
    pub payload: Seq<char>,
    pub priority: Option<u8>,
}

impl View for SubmitRequest {
    type V = SubmitRequestV;

    open spec fn view(&self) -> SubmitRequestV {
        SubmitRequestV { imei: self.imei@, payload: self.payload@, priority: self.priority }
    }
}

/// The value of an optionally parsed request.
pub open spec fn view_opt_request(parsed: Option<&SubmitRequest>) -> Option<SubmitRequestV> {
    match parsed {
        Some(q) => Some(q@),
        None => None,
    }
}

/// Whether every byte is an ASCII digit.
pub open spec fn all_ascii_digits(s: Seq<u8>) -> bool {
    forall|i: int| 0 <= i < s.len() ==> 48 <= #[trigger] s[i] <= 57
}

/// What the endpoint answers: 401, 400, or 200 with the stored row.
#[derive(Debug)]
pub enum SubmitOutcome {
    Unauthorized,
    BadRequest,
    Accepted(MTMessage),
}

/// The endpoint's decision, without the stored row.
pub enum SubmitDecision {
    Unauthorized,
    BadRequest,
    Accept,
}

/// The response the endpoint owes for given inputs: a MAC mismatch and a
/// wrong-length IMEI answer 401; bad JSON, a non-digit IMEI, an invalid
/// base64 payload and a priority outside 1..=5 answer 400; everything else
/// is accepted.
pub open spec fn spec_submit_mt(
    target: TargetV,
    signature: Seq<u8>,
    body: Seq<u8>,
    parsed: Option<SubmitRequestV>,
) -> SubmitDecision {
    if hmac_sha256_of(target.hmac_key, body) != signature {
        SubmitDecision::Unauthorized
    } else {
        match parsed {
            None => SubmitDecision::BadRequest,
            Some(q) => {
                if q.imei.len() != 15 {
                    SubmitDecision::Unauthorized
                } else if !all_ascii_digits(q.imei) {
                    SubmitDecision::BadRequest
                } else if base64_decoded(q.payload) is None {
                    SubmitDecision::BadRequest
                } else {
                    match q.priority {
                        Some(p) => if 1 <= p <= 5 {
                            SubmitDecision::Accept
                        } else {
                            SubmitDecision::BadRequest
                        },
                        None => SubmitDecision::Accept,
                    }
                }
            },
        }
    }
}

/// The priority stored for a request: 0 when the submission carried none.
pub open spec fn spec_submit_priority(q: SubmitRequestV) -> u8 {
    match q.priority {
        Some(p) => p,
        None => 0u8,
    }
}

/// How a stored row reflects an accepted request received at `now`.
pub open spec fn mt_row_of(row: MTMessageV, q: SubmitRequestV, target: TargetV, now: i64) -> bool {
    &&& row.imei == q.imei
    &&& base64_decoded(q.payload) == Some(row.data)
    &&& row.data.len() <= 4096
    &&& row.priority == spec_submit_priority(q)
    &&& row.message_status is None
    &&& row.processing_status == ProcessingStatus::Received
    &&& row.received == now
    &&& row.target == target.id
}

/// Decides one submission whose `Kosmos-Target-ID` named `target`.
///
/// `signature` is the decoded `Kosmos-MAC` header; `body` the exact request
/// bytes; `parsed` the JSON fields, or `None` when the body is not valid
/// JSON of that shape; `now` the arrival time. On acceptance the returned
/// row (fresh id, state `Received`, no delivery status yet) is stored and a
/// delivery job enqueued; the MAC is checked in constant time before
/// anything else is looked at.
pub fn submit_mt(
    target: &Target,
    signature: &Vec<u8>,
    body: &Vec<u8>,
    parsed: Option<&SubmitRequest>,
    now: i64,
) -> (r: SubmitOutcome)
    requires
        body@.len() <= 4096,
        parsed matches Some(q) ==> q.payload@.len() <= 4096,
    ensures
        ({
            let d = spec_submit_mt(target@, signature@, body@, view_opt_request(parsed));
            match r {
                SubmitOutcome::Unauthorized => d == SubmitDecision::Unauthorized,
                SubmitOutcome::BadRequest => d == SubmitDecision::BadRequest,
                SubmitOutcome::Accepted(row) => d == SubmitDecision::Accept && mt_row_of(
                    row@,
                    view_opt_request(parsed).unwrap(),
                    target@,
                    now,
                ),
            }
        }),
{
    let mac = hmac_sha256(&target.hmac_key, body);
    if !bytes_eq_ct(&mac, signature) {
        return SubmitOutcome::Unauthorized;
    }
    let q = match parsed {
        Some(q) => q,
        None => {
            return SubmitOutcome::BadRequest;
        },
    };
    if q.imei.len() != 15 {
        return SubmitOutcome::Unauthorized;
    }
    let mut i: usize = 0;
    while i < q.imei.len()
        invariant
            i <= q.imei@.len(),
            forall|j: int| 0 <= j < i ==> 48 <= #[trigger] q.imei@[j] <= 57,
            hmac_sha256_of(target@.hmac_key, body@) == signature@,
            view_opt_request(parsed) == Some(q@),
            q.imei@.len() == 15,
        decreases q.imei@.len() - i,
    {
        let b = q.imei[i];
        if b < 48 || b > 57 {
            proof {
                assert(!(48 <= q.imei@[i as int] <= 57));
                assert(!all_ascii_digits(q.imei@));
            }
            return SubmitOutcome::BadRequest;
        }
        i = i + 1;
    }
    proof {
        assert(all_ascii_digits(q.imei@));
    }
    let data = match base64_decode(q.payload.as_str()) {
        Some(d) => d,
        None => {
            return SubmitOutcome::BadRequest;
        },
    };
    let priority: u8 = match q.priority {
        Some(p) => {
            if p < 1 || p > 5 {
                return SubmitOutcome::BadRequest;
            }
            p
        },
        None => 0,
    };
    SubmitOutcome::Accepted(
        MTMessage {
            id: crate::models::new_row_id(),
            imei: crate::bytes::vec_copy(&q.imei),
            priority,
            data,
            message_status: None,
            processing_status: ProcessingStatus::Received,
            received: now,
            target: target.id,
        },
    )
}

} // verus!
