//! Decision logic of the worker jobs: `process_mo`, `deliver_mt`,
//! `send_mt_status`.
//!
//! Each job is a pure function of the loaded row and the events the I/O
//! shell reports (the webhook result, the gateway's confirmation, the
//! clock). The shell performs what is decided here: database writes, the
//! webhook POST, the gateway exchange, requeueing with a delay.

use vstd::prelude::*;
use crate::ie::{
    Element, ElementV, MTConfirmation, MTConfirmationV, MTHeader, MTHeaderV, MTPayload,
    MTPriority, ProtocolMessage, spec_mt_header_bytes, spec_encode_elements, elem_wf,
};
use crate::bytes::{be16_bytes, vec_copy};
use crate::models::{MOMessage, MOMessageV, MTMessage, MTMessageV, MessageStatus, ProcessingStatus};

verus! {

/// Seconds after which an undeliverable message is abandoned.
pub const RETRY_WINDOW_SECONDS: i64 = 86400;

/// Seconds between delivery attempts.
pub const RETRY_DELAY_SECONDS: u32 = 60;

/// First decision of a `process_mo` job, before any webhook is sent.
#[derive(Debug, Clone, Copy, PartialEq, Eq, Structural)]
pub enum MoPlan {
    /// The row is already terminal: touch nothing.
    Skip,
    /// Nothing to forward (unsuccessful session, or no provisioned device):
    /// mark the row `Done` and finish.
    MarkDone,
    /// Build the webhook and POST it to the device's target.
    Forward,
}

/// The plan of a `process_mo` job: terminal rows are untouched; sessions
/// that carried nothing and unknown devices end quietly; the rest is
/// forwarded.
pub open spec fn spec_plan_process_message(msg: MOMessageV, device_found: bool) -> MoPlan {
    if msg.processing_status.is_terminal() {
        MoPlan::Skip
    } else if !msg.session_status.is_successful() {
        MoPlan::MarkDone
    } else if !device_found {
        MoPlan::MarkDone
    } else {
        MoPlan::Forward
    }
}

/// Plans a `process_mo` job from the loaded row and whether a device with
/// its IMEI is provisioned.
pub fn plan_process_message(msg: &MOMessage, device_found: bool) -> (r: MoPlan)
    ensures
        r == spec_plan_process_message(msg@, device_found),
{
    if msg.processing_status == ProcessingStatus::Done || msg.processing_status
        == ProcessingStatus::Failed {
        MoPlan::Skip
    } else if !(msg.session_status == crate::models::SessionStatus::Successful
        || msg.session_status == crate::models::SessionStatus::SuccessfulTooLarge
        || msg.session_status == crate::models::SessionStatus::SuccessfulUnacceptableLocation) {
        MoPlan::MarkDone
    } else if !device_found {
        MoPlan::MarkDone
    } else {
        MoPlan::Forward
    }
}

/// Once an MO row is `Done` or `Failed`, a `process_mo` invocation plans no
/// write at all: terminal states are idempotent.
pub proof fn lemma_terminal_mo_row_untouched(msg: MOMessageV, device_found: bool)
    requires
        msg.processing_status.is_terminal(),
    ensures
        spec_plan_process_message(msg, device_found) == MoPlan::Skip,
{
}

/// How a `process_mo` job concludes after the webhook attempt.
#[derive(Debug, Clone, Copy, PartialEq, Eq, Structural)]
pub enum MoOutcome {
    /// The webhook accepted the message: mark the row `Done`.
    MarkDone,
    /// The message is past the retry window: mark the row `Failed` and stop.
    MarkFailed,
    /// Ask the queue to run the job again after this many seconds.
    Retry(u32),
}

/// The conclusion of an MO forward: success marks the row `Done`; failure
/// retries with a 60-second delay until the message is older than 24 hours,
/// when the row is marked `Failed`.
pub open spec fn spec_conclude_mo_forward(delivered: bool, received: i64, now: i64) -> MoOutcome {
    if delivered {
        MoOutcome::MarkDone
    } else if received < now - RETRY_WINDOW_SECONDS {
        MoOutcome::MarkFailed
    } else {
        MoOutcome::Retry(RETRY_DELAY_SECONDS)
    }
}

/// Concludes a `process_mo` job after the webhook attempt.
pub fn conclude_mo_forward(delivered: bool, received: i64, now: i64) -> (r: MoOutcome)
    requires
        now >= i64::MIN + RETRY_WINDOW_SECONDS,
    ensures
        r == spec_conclude_mo_forward(delivered, received, now),
{
    if delivered {
        MoOutcome::MarkDone
    } else if received < now - RETRY_WINDOW_SECONDS {
        MoOutcome::MarkFailed
    } else {
        MoOutcome::Retry(RETRY_DELAY_SECONDS)
    }
}

/// The 24-hour retry bound: a failing MO forward requests a 60-second
/// retry as long as the message is at most 24 hours old, and is marked
/// `Failed` on the first conclusion strictly past that bound.
pub proof fn lemma_mo_retry_bound(received: i64, now: i64)
    ensures
        now - received <= RETRY_WINDOW_SECONDS ==> spec_conclude_mo_forward(false, received, now)
            == MoOutcome::Retry(RETRY_DELAY_SECONDS),
        now - received > RETRY_WINDOW_SECONDS ==> spec_conclude_mo_forward(false, received, now)
            == MoOutcome::MarkFailed,
{
}

/// First decision of a `deliver_mt` job.
#[derive(Debug, Clone, Copy, PartialEq, Eq, Structural)]
pub enum MtPlan {
    /// The row is already terminal: touch nothing.
    Skip,
    /// Build the protocol message and send it to the upstream gateway.
    Send,
}

/// The plan of a `deliver_mt` job: terminal rows are untouched.
pub open spec fn spec_plan_deliver_mt(msg: MTMessageV) -> MtPlan {
    if msg.processing_status.is_terminal() {
        MtPlan::Skip
    } else {
        MtPlan::Send
    }
}

/// Plans a `deliver_mt` job from the loaded row.
pub fn plan_deliver_mt(msg: &MTMessage) -> (r: MtPlan)
    ensures
        r == spec_plan_deliver_mt(msg@),
{
    if msg.processing_status == ProcessingStatus::Done || msg.processing_status
        == ProcessingStatus::Failed {
        MtPlan::Skip
    } else {
        MtPlan::Send
    }
}

/// Once an MT row is `Done` or `Failed`, a `deliver_mt` invocation plans no
/// write at all: terminal states are idempotent.
pub proof fn lemma_terminal_mt_row_untouched(msg: MTMessageV)
    requires
        msg.processing_status.is_terminal(),
    ensures
        spec_plan_deliver_mt(msg) == MtPlan::Skip,
{
}

/// Relies on rand::random for the 32-bit client message id of a delivery
/// attempt; nothing is assumed of the value.
#[verifier::external_body]
fn random_client_id() -> u32 {
    rand::random()
}

/// The elements of an MT submission to the upstream gateway: the MT header
/// (high-priority flag set iff the stored priority is set, all other flags
/// clear), the raw payload, and a priority element iff the priority is set.
/// The MT header of a delivery attempt: only the high-priority flag may be
/// set, and only when the stored priority is.
pub open spec fn spec_mt_request_header(msg: MTMessageV, client_message_id: u32) -> MTHeaderV {
    MTHeaderV {
        client_message_id,
        imei: msg.imei,
        flush_mt_queue: false,
        send_ring_alert: false,
        update_ssd_location: false,
        high_priority_message: msg.priority != 0,
        assign_mtmsn: false,
    }
}

pub open spec fn spec_mt_request_elements(msg: MTMessageV, client_message_id: u32) -> Seq<
    ElementV,
> {
    let header = spec_mt_request_header(msg, client_message_id);
    let base = seq![
        ElementV { id: 0x41, data: spec_mt_header_bytes(header) },
        ElementV { id: 0x42, data: msg.data },
    ];
    if msg.priority != 0 {
        base.push(ElementV { id: 0x46, data: be16_bytes(msg.priority as u16) })
    } else {
        base
    }
}

/// Builds the protocol message for one delivery attempt, with a fresh
/// random client message id, and returns both. The result is small enough
/// to frame.
pub fn build_mt_request(msg: &MTMessage) -> (r: (ProtocolMessage, u32))
    requires
        msg.imei@.len() == 15,
        msg.data@.len() <= 65503,
    ensures
        r.0@ == spec_mt_request_elements(msg@, r.1),
        spec_encode_elements(r.0@).len() <= 0xFFFF,
        forall|i: int| 0 <= i < r.0@.len() ==> elem_wf(#[trigger] r.0@[i]),
{
    let client_message_id = random_client_id();
    let header = MTHeader {
        client_message_id,
        imei: vec_copy(&msg.imei),
        flush_mt_queue: false,
        send_ring_alert: false,
        update_ssd_location: false,
        high_priority_message: msg.priority != 0,
        assign_mtmsn: false,
    };
    let mut elements: Vec<Element> = Vec::new();
    elements.push(header.to_element());
    elements.push(MTPayload { data: vec_copy(&msg.data) }.to_element());
    if msg.priority != 0 {
        elements.push(MTPriority { level: msg.priority as u16 }.to_element());
    }
    let pm = ProtocolMessage { elements };
    proof {
        reveal_with_fuel(spec_encode_elements, 5);
        assert(pm@ =~= spec_mt_request_elements(msg@, client_message_id));
        assert(spec_encode_elements(pm@).len() <= 0xFFFF);
    }
    (pm, client_message_id)
}

/// Round trip of a full MT request at the frame level: framing the
/// elements of a delivery attempt and parsing the frame gives back exactly
/// those elements; the header element decodes back to the header that was
/// sent; the payload element carries the stored bytes; and the priority
/// element is present exactly when the stored priority is set, carrying it.
pub proof fn lemma_mt_request_round_trip(msg: MTMessageV, client_message_id: u32)
    requires
        msg.imei.len() == 15,
        msg.data.len() <= 65503,
    ensures
        ({
            let es = spec_mt_request_elements(msg, client_message_id);
            &&& crate::ie::spec_parse_frame(crate::ie::spec_encode_frame(es)) == Ok::<
                Seq<ElementV>,
                crate::ie::Error,
            >(es)
            &&& crate::ie::spec_parse_mt_header(es[0].data) == Some(
                spec_mt_request_header(msg, client_message_id),
            )
            &&& es[1].data == msg.data
            &&& msg.priority != 0 ==> es.len() == 3 && crate::bytes::be16(
                es[2].data[0],
                es[2].data[1],
            ) == msg.priority as u16
            &&& msg.priority == 0 ==> es.len() == 2
        }),
{
    let es = spec_mt_request_elements(msg, client_message_id);
    let header = spec_mt_request_header(msg, client_message_id);
    reveal_with_fuel(spec_encode_elements, 5);
    assert(spec_mt_header_bytes(header).len() == 21);
    assert(es[0] == ElementV { id: 0x41, data: spec_mt_header_bytes(header) });
    assert(es[1] == ElementV { id: 0x42, data: msg.data });
    assert(forall|i: int| 0 <= i < es.len() ==> elem_wf(#[trigger] es[i]));
    assert(spec_encode_elements(es).len() <= 0xFFFF);
    crate::ie::lemma_parse_encode_frame(es);
    crate::ie::lemma_mt_header_round_trip(header);
    if msg.priority != 0 {
        crate::bytes::lemma_be16_round(msg.priority as u16);
        assert(es[2].data == crate::bytes::be16_bytes(msg.priority as u16));
    }
}

/// What a `deliver_mt` job does with the gateway's confirmation.
#[derive(Debug, Clone, Copy, PartialEq, Eq, Structural)]
pub enum MtOutcome {
    /// The reply was not for this attempt, or the condition is transient:
    /// run the job again after this many seconds, writing nothing.
    Retry(u32),
    /// Write the processing state and the delivery status, then enqueue a
    /// `send_mt_status` job.
    Settle(ProcessingStatus, MessageStatus),
    /// Mark the row `Failed` and fail the job as unexpected; no status
    /// webhook follows.
    Abort,
}

/// The action table for a gateway confirmation, guarded by the client
/// message id and IMEI of the attempt it answers.
pub open spec fn spec_classify_mt_response(
    sent_client_id: u32,
    sent_imei: Seq<u8>,
    conf: MTConfirmationV,
    received: i64,
    now: i64,
) -> MtOutcome {
    if conf.client_message_id != sent_client_id || conf.imei != sent_imei {
        MtOutcome::Retry(RETRY_DELAY_SECONDS)
    } else {
        match conf.message_status {
            crate::ie::MessageStatus::Successful(_) => MtOutcome::Settle(
                ProcessingStatus::Done,
                MessageStatus::Delivered,
            ),
            crate::ie::MessageStatus::SuccessfulNoPayload => MtOutcome::Retry(
                RETRY_DELAY_SECONDS,
            ),
            crate::ie::MessageStatus::UnknownIMEI => MtOutcome::Settle(
                ProcessingStatus::Done,
                MessageStatus::InvalidImei,
            ),
            crate::ie::MessageStatus::TooLarge => MtOutcome::Settle(
                ProcessingStatus::Done,
                MessageStatus::PayloadSizeExceeded,
            ),
            crate::ie::MessageStatus::QueueFull => if received < now - RETRY_WINDOW_SECONDS {
                MtOutcome::Settle(ProcessingStatus::Failed, MessageStatus::MessageQueueFull)
            } else {
                MtOutcome::Retry(RETRY_DELAY_SECONDS)
            },
            crate::ie::MessageStatus::ResourcesUnavailable => if received < now
                - RETRY_WINDOW_SECONDS {
                MtOutcome::Settle(ProcessingStatus::Failed, MessageStatus::ResourcesUnavailable)
            } else {
                MtOutcome::Retry(RETRY_DELAY_SECONDS)
            },
            _ => MtOutcome::Abort,
        }
    }
}

/// Classifies the gateway's confirmation for the attempt that sent
/// `sent_client_id` and `sent_imei`.
pub fn classify_mt_response(
    sent_client_id: u32,
    sent_imei: &Vec<u8>,
    conf: &MTConfirmation,
    received: i64,
    now: i64,
) -> (r: MtOutcome)
    requires
        now >= i64::MIN + RETRY_WINDOW_SECONDS,
    ensures
        r == spec_classify_mt_response(sent_client_id, sent_imei@, conf@, received, now),
{
    if conf.client_message_id != sent_client_id || !crate::bytes::bytes_eq(&conf.imei, sent_imei) {
        return MtOutcome::Retry(RETRY_DELAY_SECONDS);
    }
    match conf.message_status {
        crate::ie::MessageStatus::Successful(_) => MtOutcome::Settle(
            ProcessingStatus::Done,
            MessageStatus::Delivered,
        ),
        crate::ie::MessageStatus::SuccessfulNoPayload => MtOutcome::Retry(RETRY_DELAY_SECONDS),
        crate::ie::MessageStatus::UnknownIMEI => MtOutcome::Settle(
            ProcessingStatus::Done,
            MessageStatus::InvalidImei,
        ),
        crate::ie::MessageStatus::TooLarge => MtOutcome::Settle(
            ProcessingStatus::Done,
            MessageStatus::PayloadSizeExceeded,
        ),
        crate::ie::MessageStatus::QueueFull => {
            if received < now - RETRY_WINDOW_SECONDS {
                MtOutcome::Settle(ProcessingStatus::Failed, MessageStatus::MessageQueueFull)
            } else {
                MtOutcome::Retry(RETRY_DELAY_SECONDS)
            }
        },
        crate::ie::MessageStatus::ResourcesUnavailable => {
            if received < now - RETRY_WINDOW_SECONDS {
                MtOutcome::Settle(ProcessingStatus::Failed, MessageStatus::ResourcesUnavailable)
            } else {
                MtOutcome::Retry(RETRY_DELAY_SECONDS)
            }
        },
        _ => MtOutcome::Abort,
    }
}

/// Client-id matching: a confirmation whose client message id or IMEI does
/// not match the attempt only requeues the job; no status is written.
pub proof fn lemma_mismatched_reply_only_retries(
    sent_client_id: u32,
    sent_imei: Seq<u8>,
    conf: MTConfirmationV,
    received: i64,
    now: i64,
)
    requires
        conf.client_message_id != sent_client_id || conf.imei != sent_imei,
    ensures
        spec_classify_mt_response(sent_client_id, sent_imei, conf, received, now)
            == MtOutcome::Retry(RETRY_DELAY_SECONDS),
{
}

/// Plans a `send_mt_status` job: `None` means the row holds no
/// tenant-visible status and the job finishes without action.
pub fn plan_send_mt_status(msg: &MTMessage) -> (r: Option<crate::types::MessageStatus>)
    ensures
        msg@.message_status matches Some(s) ==> r == Some(
            crate::types::spec_webhook_message_status(s),
        ),
        msg@.message_status is None ==> r is None,
{
    match &msg.message_status {
        Some(s) => Some(crate::types::webhook_message_status(s)),
        None => None,
    }
}

/// How a `send_mt_status` job concludes.
#[derive(Debug, Clone, Copy, PartialEq, Eq, Structural)]
pub enum StatusOutcome {
    Done,
    Retry(u32),
}

/// Concludes a `send_mt_status` job: status webhooks retry every 60
/// seconds indefinitely; there is no 24-hour bound on this job.
pub fn conclude_send_mt_status(delivered: bool) -> (r: StatusOutcome)
    ensures
        delivered ==> r == StatusOutcome::Done,
        !delivered ==> r == StatusOutcome::Retry(RETRY_DELAY_SECONDS),
{
    if delivered {
        StatusOutcome::Done
    } else {
        StatusOutcome::Retry(RETRY_DELAY_SECONDS)
    }
}

} // verus!
