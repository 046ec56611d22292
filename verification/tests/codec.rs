use kosmos::ie::{
    Element, Error, FormatErrorKind, LocationInformation, MOConfirmation, MOHeader, MTConfirmation,
    MTHeader, MTPriority, Message, MessageStatus, ProtocolMessage, ResponseMessage, SessionStatus,
};

fn mo_header_data() -> Vec<u8> {
    // cdr_reference 1, IMEI "012345678901234", status 0, MOMSN 1, MTMSN 0,
    // time of session 0.
    let mut d = vec![0x00, 0x00, 0x00, 0x01];
    d.extend_from_slice(b"012345678901234");
    d.push(0x00);
    d.extend_from_slice(&[0x00, 0x01]);
    d.extend_from_slice(&[0x00, 0x00]);
    d.extend_from_slice(&[0x00, 0x00, 0x00, 0x00]);
    d
}

fn frame(body: &[u8]) -> Vec<u8> {
    let mut f = vec![0x01];
    f.push((body.len() / 256) as u8);
    f.push((body.len() % 256) as u8);
    f.extend_from_slice(body);
    f
}

fn ie(id: u8, data: &[u8]) -> Vec<u8> {
    let mut e = vec![id];
    e.push((data.len() / 256) as u8);
    e.push((data.len() % 256) as u8);
    e.extend_from_slice(data);
    e
}

#[test]
fn parse_header_only_frame() {
    let body = ie(0x01, &mo_header_data());
    let bytes = frame(&body);
    assert_eq!(bytes.len(), 0x1F + 3);
    let pm = ProtocolMessage::parse_frame(&bytes).unwrap();
    assert_eq!(pm.elements.len(), 1);
    assert_eq!(pm.elements[0].id, 0x01);
    let m = Message::from_pm(pm).unwrap();
    assert_eq!(m.header.cdr_reference, 1);
    assert_eq!(m.header.imei, b"012345678901234".to_vec());
    assert_eq!(m.header.session_status, SessionStatus::Successful);
    assert_eq!(m.header.momsn, 1);
    assert_eq!(m.header.mtmsn, 0);
    assert_eq!(m.header.time_of_session, 0);
    assert!(m.payload.is_none());
    assert!(m.location_information.is_none());
    assert!(m.extra.is_empty());
}

#[test]
fn parse_frame_with_payload() {
    let mut body = ie(0x01, &mo_header_data());
    body.extend_from_slice(&ie(0x02, b"Hello"));
    let bytes = frame(&body);
    let pm = ProtocolMessage::parse_frame(&bytes).unwrap();
    let m = Message::from_pm(pm).unwrap();
    assert_eq!(m.payload, Some(b"Hello".to_vec()));
}

#[test]
fn duplicate_header_rejected() {
    let mut body = ie(0x01, &mo_header_data());
    body.extend_from_slice(&ie(0x01, &mo_header_data()));
    let bytes = frame(&body);
    let pm = ProtocolMessage::parse_frame(&bytes).unwrap();
    match Message::from_pm(pm) {
        Err(Error::FormatError(FormatErrorKind::DuplicateHeader)) => {}
        other => panic!("expected duplicate header error, got {:?}", other.is_ok()),
    }
}

#[test]
fn duplicate_location_rejected() {
    let loc = [0x00, 10, 0x00, 0x00, 20, 0x00, 0x00, 0x00, 0x00, 0x00, 0x05];
    let mut body = ie(0x01, &mo_header_data());
    body.extend_from_slice(&ie(0x03, &loc));
    body.extend_from_slice(&ie(0x03, &loc));
    let bytes = frame(&body);
    let pm = ProtocolMessage::parse_frame(&bytes).unwrap();
    match Message::from_pm(pm) {
        Err(Error::FormatError(FormatErrorKind::DuplicateLocation)) => {}
        other => panic!("expected duplicate location error, got {:?}", other.is_ok()),
    }
}

#[test]
fn unknown_ids_may_repeat() {
    let mut body = ie(0x01, &mo_header_data());
    body.extend_from_slice(&ie(0x7F, b"a"));
    body.extend_from_slice(&ie(0x7F, b"b"));
    let bytes = frame(&body);
    let pm = ProtocolMessage::parse_frame(&bytes).unwrap();
    let m = Message::from_pm(pm).unwrap();
    assert_eq!(m.extra.len(), 2);
    assert_eq!(m.extra[0].id, 0x7F);
    assert_eq!(m.extra[0].data, b"a".to_vec());
    assert_eq!(m.extra[1].data, b"b".to_vec());
}

#[test]
fn missing_header_rejected() {
    let body = ie(0x02, b"Hello");
    let bytes = frame(&body);
    let pm = ProtocolMessage::parse_frame(&bytes).unwrap();
    match Message::from_pm(pm) {
        Err(Error::FormatError(FormatErrorKind::MissingHeader)) => {}
        other => panic!("expected missing header error, got {:?}", other.is_ok()),
    }
}

#[test]
fn wrong_version_rejected() {
    let body = ie(0x01, &mo_header_data());
    let mut bytes = frame(&body);
    bytes[0] = 0x02;
    match ProtocolMessage::parse_frame(&bytes) {
        Err(Error::UnsupportedProtocolRevision) => {}
        other => panic!("expected revision error, got {:?}", other.is_ok()),
    }
}

#[test]
fn truncated_frame_rejected() {
    let body = ie(0x01, &mo_header_data());
    let bytes = frame(&body);
    // cut the frame in the middle of the element
    let cut = bytes[..10].to_vec();
    match ProtocolMessage::parse_frame(&cut) {
        Err(Error::FormatError(FormatErrorKind::LengthMismatch)) => {}
        other => panic!("expected a format error, got {:?}", other.is_ok()),
    }
    // declared length runs past the element
    let mut short = frame(&ie(0x01, b"ab"));
    short[4] = 0x00;
    short[5] = 0x20;
    match ProtocolMessage::parse_frame(&short) {
        Err(Error::FormatError(FormatErrorKind::Truncated)) => {}
        other => panic!("expected truncation error, got {:?}", other.is_ok()),
    }
    let empty: Vec<u8> = vec![];
    assert!(ProtocolMessage::parse_frame(&empty).is_err());
}

#[test]
fn session_status_codes() {
    assert_eq!(SessionStatus::from_u8(0).unwrap(), SessionStatus::Successful);
    assert_eq!(SessionStatus::from_u8(1).unwrap(), SessionStatus::SuccessfulTooLarge);
    assert_eq!(
        SessionStatus::from_u8(2).unwrap(),
        SessionStatus::SuccessfulUnacceptableLocation
    );
    assert_eq!(SessionStatus::from_u8(10).unwrap(), SessionStatus::Timeout);
    assert_eq!(SessionStatus::from_u8(12).unwrap(), SessionStatus::TooLarge);
    assert_eq!(SessionStatus::from_u8(13).unwrap(), SessionStatus::RFLinkLost);
    assert_eq!(SessionStatus::from_u8(14).unwrap(), SessionStatus::ProtocolAnomaly);
    assert_eq!(SessionStatus::from_u8(15).unwrap(), SessionStatus::IMEIBlocked);
    match SessionStatus::from_u8(3) {
        Err(Error::FormatError(FormatErrorKind::InvalidStatusCode)) => {}
        other => panic!("expected status code error, got {:?}", other.is_ok()),
    }
}

#[test]
fn header_length_checked() {
    let d = vec![0u8; 27];
    match MOHeader::decode(&d) {
        Err(Error::FormatError(FormatErrorKind::InvalidHeaderLength)) => {}
        other => panic!("expected header length error, got {:?}", other.is_ok()),
    }
}

#[test]
fn location_decoding() {
    // format byte: south + east, 10 deg 30000/60000 min lat,
    // 20 deg 0 min lon, cep 5 km
    let d = vec![0x02, 10, 0x75, 0x30, 20, 0x00, 0x00, 0x00, 0x00, 0x00, 0x05];
    let l = LocationInformation::decode(&d).unwrap();
    assert!(l.lat_negative);
    assert!(!l.lon_negative);
    assert_eq!(l.lat_degrees, 10);
    assert_eq!(l.lat_thousandths, 30000);
    assert_eq!(l.lon_degrees, 20);
    assert_eq!(l.lon_thousandths, 0);
    assert_eq!(l.cep_radius, 5);

    let short = vec![0u8; 10];
    match LocationInformation::decode(&short) {
        Err(Error::FormatError(FormatErrorKind::InvalidLocationLength)) => {}
        other => panic!("expected location length error, got {:?}", other.is_ok()),
    }
    let mut bad = d.clone();
    bad[0] = 0x04;
    match LocationInformation::decode(&bad) {
        Err(Error::FormatError(FormatErrorKind::UnsupportedLocationFormat)) => {}
        other => panic!("expected location format error, got {:?}", other.is_ok()),
    }
}

#[test]
fn confirmation_element_bytes() {
    let e = MOConfirmation { status: true }.to_element();
    assert_eq!(e.id, 0x05);
    assert_eq!(e.data, vec![0x01]);
    let e = MOConfirmation { status: false }.to_element();
    assert_eq!(e.data, vec![0x00]);
}

#[test]
fn mt_header_round_trip() {
    let h = MTHeader {
        client_message_id: 0xDEADBEEF,
        imei: b"012345678901234".to_vec(),
        flush_mt_queue: true,
        send_ring_alert: false,
        update_ssd_location: true,
        high_priority_message: true,
        assign_mtmsn: false,
    };
    let e = h.to_element();
    assert_eq!(e.id, 0x41);
    assert_eq!(e.data.len(), 21);
    // flags: 1 + 8 + 16 = 25
    assert_eq!(e.data[19], 0x00);
    assert_eq!(e.data[20], 25);
    let back = MTHeader::decode(&e.data).unwrap();
    assert_eq!(back.client_message_id, 0xDEADBEEF);
    assert_eq!(back.imei, h.imei);
    assert!(back.flush_mt_queue);
    assert!(!back.send_ring_alert);
    assert!(back.update_ssd_location);
    assert!(back.high_priority_message);
    assert!(!back.assign_mtmsn);
}

#[test]
fn mt_frame_round_trip() {
    let h = MTHeader {
        client_message_id: 7,
        imei: b"012345678901234".to_vec(),
        flush_mt_queue: false,
        send_ring_alert: true,
        update_ssd_location: false,
        high_priority_message: false,
        assign_mtmsn: true,
    };
    let pm = ProtocolMessage {
        elements: vec![
            h.to_element(),
            Element { id: 0x42, data: b"payload".to_vec() },
            MTPriority { level: 2 }.to_element(),
        ],
    };
    let bytes = pm.encode_frame();
    assert_eq!(bytes[0], 0x01);
    let back = ProtocolMessage::parse_frame(&bytes).unwrap();
    assert_eq!(back.elements.len(), 3);
    assert_eq!(back.elements[0].id, 0x41);
    assert_eq!(back.elements[1].id, 0x42);
    assert_eq!(back.elements[1].data, b"payload".to_vec());
    assert_eq!(back.elements[2].id, 0x46);
    let p = MTPriority::decode(&back.elements[2].data).unwrap();
    assert_eq!(p.level, 2);
    let hb = MTHeader::decode(&back.elements[0].data).unwrap();
    assert_eq!(hb.client_message_id, 7);
    assert!(hb.send_ring_alert);
    assert!(hb.assign_mtmsn);
    assert!(!hb.flush_mt_queue);
}

fn mt_confirmation_data(status: u8) -> Vec<u8> {
    let mut d = vec![0x00, 0x00, 0x00, 0x2A];
    d.extend_from_slice(b"012345678901234");
    d.extend_from_slice(&[0x00, 0x00, 0x00, 0x09]);
    d.push(0x00); // reserved
    d.push(status);
    d
}

#[test]
fn mt_confirmation_decoding() {
    let c = MTConfirmation::decode(&mt_confirmation_data(0x01)).unwrap();
    assert_eq!(c.client_message_id, 42);
    assert_eq!(c.imei, b"012345678901234".to_vec());
    assert_eq!(c.auto_id_reference, 9);
    assert_eq!(c.message_status, MessageStatus::Successful(1));

    let c = MTConfirmation::decode(&mt_confirmation_data(0x00)).unwrap();
    assert_eq!(c.message_status, MessageStatus::SuccessfulNoPayload);

    // -2 is UnknownIMEI
    let c = MTConfirmation::decode(&mt_confirmation_data(0xFE)).unwrap();
    assert_eq!(c.message_status, MessageStatus::UnknownIMEI);

    // -12 is unknown
    match MTConfirmation::decode(&mt_confirmation_data(0xF4)) {
        Err(Error::FormatError(FormatErrorKind::InvalidMessageStatus)) => {}
        other => panic!("expected message status error, got {:?}", other.is_ok()),
    }

    let short = vec![0u8; 24];
    match MTConfirmation::decode(&short) {
        Err(Error::FormatError(FormatErrorKind::InvalidConfirmationLength)) => {}
        other => panic!("expected confirmation length error, got {:?}", other.is_ok()),
    }
}

#[test]
fn response_message_assembly() {
    let pm = ProtocolMessage {
        elements: vec![Element { id: 0x44, data: mt_confirmation_data(0x03) }],
    };
    let r = ResponseMessage::from_pm(pm).unwrap();
    assert_eq!(r.confirmation.message_status, MessageStatus::Successful(3));
    assert!(r.extra.is_empty());

    let pm = ProtocolMessage {
        elements: vec![
            Element { id: 0x44, data: mt_confirmation_data(0x03) },
            Element { id: 0x44, data: mt_confirmation_data(0x03) },
        ],
    };
    match ResponseMessage::from_pm(pm) {
        Err(Error::FormatError(FormatErrorKind::DuplicateConfirmation)) => {}
        other => panic!("expected duplicate confirmation error, got {:?}", other.is_ok()),
    }

    let pm = ProtocolMessage { elements: vec![] };
    match ResponseMessage::from_pm(pm) {
        Err(Error::FormatError(FormatErrorKind::MissingConfirmation)) => {}
        other => panic!("expected missing confirmation error, got {:?}", other.is_ok()),
    }
}
