use kosmos::ie::{MTConfirmation, MTHeader, MTPriority, MessageStatus as WireStatus,
    ProtocolMessage};
use kosmos::models::{
    MOMessage, MTMessage, MessageStatus, ProcessingStatus, SessionStatus,
};
use kosmos::worker::{
    MoOutcome, MoPlan, MtOutcome, MtPlan, StatusOutcome, build_mt_request, classify_mt_response,
    conclude_mo_forward, conclude_send_mt_status, plan_deliver_mt, plan_process_message,
    plan_send_mt_status,
};

const HOUR: i64 = 3600;

fn mo_row(status: ProcessingStatus, session: SessionStatus) -> MOMessage {
    MOMessage {
        id: 1,
        cdr_reference: 7,
        imei: b"012345678901234".to_vec(),
        session_status: session,
        mo_msn: 1,
        mt_msn: 0,
        time_of_session: 0,
        location: None,
        data: None,
        processing_status: status,
        received: 0,
    }
}

fn mt_row(status: ProcessingStatus, priority: u8) -> MTMessage {
    MTMessage {
        id: 2,
        imei: b"012345678901234".to_vec(),
        priority,
        data: b"hi".to_vec(),
        message_status: None,
        processing_status: status,
        received: 0,
        target: 3,
    }
}

fn confirmation(client_message_id: u32, status: WireStatus) -> MTConfirmation {
    MTConfirmation {
        client_message_id,
        imei: b"012345678901234".to_vec(),
        auto_id_reference: 0,
        message_status: status,
    }
}

#[test]
fn mo_plan_cases() {
    let r = mo_row(ProcessingStatus::Received, SessionStatus::Successful);
    assert_eq!(plan_process_message(&r, true), MoPlan::Forward);
    assert_eq!(plan_process_message(&r, false), MoPlan::MarkDone);
    let r = mo_row(ProcessingStatus::Received, SessionStatus::Timeout);
    assert_eq!(plan_process_message(&r, true), MoPlan::MarkDone);
    let r = mo_row(ProcessingStatus::Received, SessionStatus::SuccessfulTooLarge);
    assert_eq!(plan_process_message(&r, true), MoPlan::Forward);
}

#[test]
fn terminal_mo_rows_untouched() {
    for status in [ProcessingStatus::Done, ProcessingStatus::Failed] {
        let r = mo_row(status, SessionStatus::Successful);
        assert_eq!(plan_process_message(&r, true), MoPlan::Skip);
        assert_eq!(plan_process_message(&r, false), MoPlan::Skip);
    }
}

#[test]
fn terminal_mt_rows_untouched() {
    for status in [ProcessingStatus::Done, ProcessingStatus::Failed] {
        let r = mt_row(status, 0);
        assert_eq!(plan_deliver_mt(&r), MtPlan::Skip);
    }
    assert_eq!(plan_deliver_mt(&mt_row(ProcessingStatus::Received, 0)), MtPlan::Send);
}

#[test]
fn webhook_success_marks_done() {
    let now = 1_700_000_000;
    assert_eq!(conclude_mo_forward(true, now - 30 * HOUR, now), MoOutcome::MarkDone);
}

#[test]
fn stale_failure_marks_failed() {
    // webhook answered 503 and the row is 25 hours old: Failed, no retry
    let now = 1_700_000_000;
    assert_eq!(conclude_mo_forward(false, now - 25 * HOUR, now), MoOutcome::MarkFailed);
}

#[test]
fn fresh_failure_retries() {
    let now = 1_700_000_000;
    assert_eq!(conclude_mo_forward(false, now - 23 * HOUR, now), MoOutcome::Retry(60));
    // exactly at the bound the job still retries
    assert_eq!(conclude_mo_forward(false, now - 24 * HOUR, now), MoOutcome::Retry(60));
    assert_eq!(conclude_mo_forward(false, now - 24 * HOUR - 1, now), MoOutcome::MarkFailed);
}

#[test]
fn successful_confirmation_settles_delivered() {
    let now = 1_700_000_000;
    let c = confirmation(42, WireStatus::Successful(1));
    assert_eq!(
        classify_mt_response(42, &b"012345678901234".to_vec(), &c, now, now),
        MtOutcome::Settle(ProcessingStatus::Done, MessageStatus::Delivered)
    );
}

#[test]
fn mismatched_client_id_retries() {
    let now = 1_700_000_000;
    let c = confirmation(43, WireStatus::Successful(1));
    assert_eq!(
        classify_mt_response(42, &b"012345678901234".to_vec(), &c, now, now),
        MtOutcome::Retry(60)
    );
}

#[test]
fn mismatched_imei_retries() {
    let now = 1_700_000_000;
    let c = confirmation(42, WireStatus::Successful(1));
    assert_eq!(
        classify_mt_response(42, &b"999999999999999".to_vec(), &c, now, now),
        MtOutcome::Retry(60)
    );
}

#[test]
fn gateway_status_table() {
    let now = 1_700_000_000;
    let imei = b"012345678901234".to_vec();
    let cases = [
        (WireStatus::UnknownIMEI, MtOutcome::Settle(ProcessingStatus::Done, MessageStatus::InvalidImei)),
        (WireStatus::TooLarge, MtOutcome::Settle(ProcessingStatus::Done, MessageStatus::PayloadSizeExceeded)),
        (WireStatus::SuccessfulNoPayload, MtOutcome::Retry(60)),
        (WireStatus::InvalidIMEI, MtOutcome::Abort),
        (WireStatus::ProtocolViolation, MtOutcome::Abort),
    ];
    for (status, expected) in cases {
        let c = confirmation(42, status);
        assert_eq!(classify_mt_response(42, &imei, &c, now, now), expected);
    }
    // queue full and resources unavailable: retry within the window,
    // fail with the matching status past it
    let c = confirmation(42, WireStatus::QueueFull);
    assert_eq!(classify_mt_response(42, &imei, &c, now - HOUR, now), MtOutcome::Retry(60));
    assert_eq!(
        classify_mt_response(42, &imei, &c, now - 25 * HOUR, now),
        MtOutcome::Settle(ProcessingStatus::Failed, MessageStatus::MessageQueueFull)
    );
    let c = confirmation(42, WireStatus::ResourcesUnavailable);
    assert_eq!(
        classify_mt_response(42, &imei, &c, now - 25 * HOUR, now),
        MtOutcome::Settle(ProcessingStatus::Failed, MessageStatus::ResourcesUnavailable)
    );
}

#[test]
fn mt_request_has_priority_element_iff_priority_set() {
    let row = mt_row(ProcessingStatus::Received, 0);
    let (pm, client_id) = build_mt_request(&row);
    assert_eq!(pm.elements.len(), 2);
    let h = MTHeader::decode(&pm.elements[0].data).unwrap();
    assert_eq!(h.client_message_id, client_id);
    assert_eq!(h.imei, row.imei);
    assert!(!h.high_priority_message);
    assert!(!h.flush_mt_queue && !h.send_ring_alert && !h.update_ssd_location && !h.assign_mtmsn);
    assert_eq!(pm.elements[1].id, 0x42);
    assert_eq!(pm.elements[1].data, b"hi".to_vec());

    let row = mt_row(ProcessingStatus::Received, 3);
    let (pm, _) = build_mt_request(&row);
    assert_eq!(pm.elements.len(), 3);
    let h = MTHeader::decode(&pm.elements[0].data).unwrap();
    assert!(h.high_priority_message);
    let p = MTPriority::decode(&pm.elements[2].data).unwrap();
    assert_eq!(p.level, 3);
}

#[test]
fn mt_request_frame_round_trip() {
    let row = mt_row(ProcessingStatus::Received, 5);
    let (pm, client_id) = build_mt_request(&row);
    let bytes = pm.encode_frame();
    let back = ProtocolMessage::parse_frame(&bytes).unwrap();
    assert_eq!(back.elements.len(), 3);
    let h = MTHeader::decode(&back.elements[0].data).unwrap();
    assert_eq!(h.client_message_id, client_id);
    assert_eq!(back.elements[1].data, b"hi".to_vec());
}

#[test]
fn status_webhook_planning() {
    let mut row = mt_row(ProcessingStatus::Done, 0);
    assert_eq!(plan_send_mt_status(&row), None);
    row.message_status = Some(MessageStatus::Delivered);
    assert_eq!(plan_send_mt_status(&row), Some(kosmos::types::MessageStatus::Delivered));
    row.message_status = Some(MessageStatus::MessageQueueFull);
    assert_eq!(
        plan_send_mt_status(&row),
        Some(kosmos::types::MessageStatus::MessageQueueFull)
    );
    assert_eq!(conclude_send_mt_status(true), StatusOutcome::Done);
    assert_eq!(conclude_send_mt_status(false), StatusOutcome::Retry(60));
}
