use kosmos::IRIDIUM_SOURCE_IP;
use kosmos::ie::{Error, FormatErrorKind};
use kosmos::mo::{IpAddress, Nat64Prefix, admit_peer, confirmation_frame, handle_mo_frame};
use kosmos::models::{ProcessingStatus, SessionStatus};

fn mo_header_data() -> Vec<u8> {
    let mut d = vec![0x00, 0x00, 0x00, 0x01];
    d.extend_from_slice(b"012345678901234");
    d.push(0x00);
    d.extend_from_slice(&[0x00, 0x01]);
    d.extend_from_slice(&[0x00, 0x00]);
    d.extend_from_slice(&[0x00, 0x00, 0x00, 0x00]);
    d
}

fn ie(id: u8, data: &[u8]) -> Vec<u8> {
    let mut e = vec![id];
    e.push((data.len() / 256) as u8);
    e.push((data.len() % 256) as u8);
    e.extend_from_slice(data);
    e
}

fn frame(body: &[u8]) -> Vec<u8> {
    let mut f = vec![0x01];
    f.push((body.len() / 256) as u8);
    f.push((body.len() % 256) as u8);
    f.extend_from_slice(body);
    f
}

#[test]
fn inbound_header_frame_creates_row() {
    let bytes = frame(&ie(0x01, &mo_header_data()));
    let row = handle_mo_frame(&bytes, 1_700_000_000).unwrap();
    assert_eq!(row.cdr_reference, 1);
    assert_eq!(row.imei, b"012345678901234".to_vec());
    assert_eq!(row.session_status, SessionStatus::Successful);
    assert_eq!(row.mo_msn, 1);
    assert_eq!(row.mt_msn, 0);
    assert_eq!(row.time_of_session, 0);
    assert!(row.location.is_none());
    assert_eq!(row.data, None);
    assert_eq!(row.processing_status, ProcessingStatus::Received);
    assert_eq!(row.received, 1_700_000_000);
    assert_eq!(confirmation_frame(true), vec![0x01, 0x00, 0x04, 0x05, 0x00, 0x01, 0x01]);
}

#[test]
fn inbound_payload_stored() {
    let mut body = ie(0x01, &mo_header_data());
    body.extend_from_slice(&ie(0x02, &[0x48, 0x65, 0x6C, 0x6C, 0x6F]));
    let bytes = frame(&body);
    let row = handle_mo_frame(&bytes, 0).unwrap();
    assert_eq!(row.data, Some(b"Hello".to_vec()));
}

#[test]
fn duplicate_header_creates_no_row() {
    let mut body = ie(0x01, &mo_header_data());
    body.extend_from_slice(&ie(0x01, &mo_header_data()));
    let bytes = frame(&body);
    match handle_mo_frame(&bytes, 0) {
        Err(Error::FormatError(FormatErrorKind::DuplicateHeader)) => {}
        other => panic!("expected duplicate header error, got {:?}", other.is_ok()),
    }
    assert_eq!(confirmation_frame(false), vec![0x01, 0x00, 0x04, 0x05, 0x00, 0x01, 0x00]);
}

#[test]
fn inbound_location_stored() {
    let loc = [0x02, 10, 0x75, 0x30, 20, 0x00, 0x00, 0x00, 0x00, 0x00, 0x05];
    let mut body = ie(0x01, &mo_header_data());
    body.extend_from_slice(&ie(0x03, &loc));
    let bytes = frame(&body);
    let row = handle_mo_frame(&bytes, 0).unwrap();
    let l = row.location.unwrap();
    assert!(l.lat_negative);
    assert_eq!(l.lat_degrees, 10);
    assert_eq!(l.lat_thousandths, 30000);
    assert_eq!(l.cep_radius, 5);
}

#[test]
fn plain_v4_peer_admission() {
    let source = IpAddress::V4(IRIDIUM_SOURCE_IP);
    assert!(admit_peer(&IpAddress::V4(IRIDIUM_SOURCE_IP), None, &source));
    assert!(!admit_peer(&IpAddress::V4(0x0A00_0001), None, &source));
    assert!(!admit_peer(&IpAddress::V6(0x2001_0db8 << 96), None, &source));
}

#[test]
fn nat64_peer_unwrapped() {
    // the well-known prefix 64:ff9b::/96 carrying 12.47.179.11
    let prefix = Nat64Prefix { addr: 0x0064_ff9b_u128 << 96, prefix_len: 96 };
    let source = IpAddress::V4(IRIDIUM_SOURCE_IP);
    let wrapped = IpAddress::V6((0x0064_ff9b_u128 << 96) | IRIDIUM_SOURCE_IP as u128);
    assert!(admit_peer(&wrapped, Some(&prefix), &source));
    // same embedded address outside the prefix stays v6 and is dropped
    let elsewhere = IpAddress::V6((0x2001_0db8_u128 << 96) | IRIDIUM_SOURCE_IP as u128);
    assert!(!admit_peer(&elsewhere, Some(&prefix), &source));
    // another embedded address inside the prefix is dropped too
    let other = IpAddress::V6((0x0064_ff9b_u128 << 96) | 0x0A00_0001_u128);
    assert!(!admit_peer(&other, Some(&prefix), &source));
}

#[test]
fn zero_length_prefix_matches_all() {
    let prefix = Nat64Prefix { addr: 0, prefix_len: 0 };
    let source = IpAddress::V4(7);
    assert!(admit_peer(&IpAddress::V6(7), Some(&prefix), &source));
}

#[test]
fn full_length_prefix_matches_one_address() {
    let addr = (0x0064_ff9b_u128 << 96) | IRIDIUM_SOURCE_IP as u128;
    let prefix = Nat64Prefix { addr, prefix_len: 128 };
    let source = IpAddress::V4(IRIDIUM_SOURCE_IP);
    assert!(admit_peer(&IpAddress::V6(addr), Some(&prefix), &source));
    assert!(!admit_peer(&IpAddress::V6(addr + 1), Some(&prefix), &source));
}

#[test]
fn empty_frame_has_no_message() {
    let bytes = frame(&[]);
    assert_eq!(bytes, vec![0x01, 0x00, 0x00]);
    match handle_mo_frame(&bytes, 0) {
        Err(Error::FormatError(FormatErrorKind::MissingHeader)) => {}
        other => panic!("expected missing header error, got {:?}", other.is_ok()),
    }
}
