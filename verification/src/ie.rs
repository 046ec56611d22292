//! Wire codec for the SBD protocol.
//!
//! Every wire message is a frame `version(u8 = 1) | length(u16 BE) | body`,
//! where the body is a concatenation of information elements (IEs), each
//! `id(u8) | ie_length(u16 BE) | data[ie_length]`. This module holds the
//! frame and IE layer, the MO and MT element codecs, and the assembly of
//! whole MO messages and MT response messages from parsed elements.

use vstd::prelude::*;
use crate::bytes::{
    be16, be32, be16_bytes, be32_bytes, be16_hi, be16_lo, be32_byte, lemma_be16_round,
    lemma_be16_split, read_be16, read_be32, push_be16, push_be32, vec_range,
    push_bytes,
};

verus! {

/// Why a frame or message was rejected.
#[derive(Debug, Clone, Copy, PartialEq, Eq, Structural)]
pub enum FormatErrorKind {
    /// The input ended in the middle of a frame header or an IE.
    Truncated,
    /// The frame's declared body length does not match the input.
    LengthMismatch,
    DuplicateHeader,
    DuplicatePayload,
    DuplicateLocation,
    DuplicateConfirmation,
    MissingHeader,
    MissingConfirmation,
    InvalidHeaderLength,
    InvalidStatusCode,
    InvalidLocationLength,
    UnsupportedLocationFormat,
    InvalidConfirmationLength,
    InvalidMessageStatus,
}

/// A wire decode failure.
#[derive(Debug, Clone, Copy, PartialEq, Eq, Structural)]
pub enum Error {
    /// The frame's version byte was not 1.
    UnsupportedProtocolRevision,
    /// The frame or one of its elements was malformed.
    FormatError(FormatErrorKind),
}

/// One information element: an id byte and its raw data.
#[derive(Debug)]
pub struct Element {
    pub id: u8,
    pub data: Vec<u8>,
}

/// Mathematical value of an [`Element`].
pub struct ElementV {
    pub id: u8,
    pub data: Seq<u8>,
}

impl View for Element {
    type V = ElementV;

    open spec fn view(&self) -> ElementV {
        ElementV { id: self.id, data: self.data@ }
    }
}

/// The sequence of element values of a sequence of elements.
pub open spec fn view_elements(es: Seq<Element>) -> Seq<ElementV> {
    es.map_values(|e: Element| e@)
}

/// A whole protocol message: the elements of one frame body, in order.
#[derive(Debug)]
pub struct ProtocolMessage {
    pub elements: Vec<Element>,
}

impl View for ProtocolMessage {
    type V = Seq<ElementV>;

    open spec fn view(&self) -> Seq<ElementV> {
        view_elements(self.elements@)
    }
}

/// An element fits on the wire when its data fits the 16-bit length field.
pub open spec fn elem_wf(e: ElementV) -> bool {
    e.data.len() <= 0xFFFF
}

/// The wire bytes of one element: id, 16-bit big-endian length, data.
pub open spec fn spec_encode_element(e: ElementV) -> Seq<u8> {
    seq![e.id] + be16_bytes(e.data.len() as u16) + e.data
}

/// The wire bytes of a sequence of elements, concatenated in order.
pub open spec fn spec_encode_elements(es: Seq<ElementV>) -> Seq<u8>
    decreases es.len(),
{
    if es.len() == 0 {
        Seq::empty()
    } else {
        spec_encode_element(es[0]) + spec_encode_elements(es.drop_first())
    }
}

/// The wire bytes of a whole frame around the given elements.
pub open spec fn spec_encode_frame(es: Seq<ElementV>) -> Seq<u8> {
    seq![1u8] + be16_bytes(spec_encode_elements(es).len() as u16) + spec_encode_elements(es)
}

/// Parses a frame body into elements. `None` means the body ended in the
/// middle of an element.
pub open spec fn spec_parse_elements(body: Seq<u8>) -> Option<Seq<ElementV>>
    decreases body.len(),
{
    if body.len() == 0 {
        Some(Seq::empty())
    } else if body.len() < 3 {
        None
    } else {
        let l = be16(body[1], body[2]) as int;
        if body.len() < 3 + l {
            None
        } else {
            let e = ElementV { id: body[0], data: body.subrange(3, 3 + l) };
            match spec_parse_elements(body.skip(3 + l)) {
                Some(rest) => Some(seq![e] + rest),
                None => None,
            }
        }
    }
}

/// Parses a whole frame: version byte, declared body length, body elements.
pub open spec fn spec_parse_frame(bytes: Seq<u8>) -> Result<Seq<ElementV>, Error> {
    if bytes.len() == 0 {
        Err(Error::FormatError(FormatErrorKind::Truncated))
    } else if bytes[0] != 1 {
        Err(Error::UnsupportedProtocolRevision)
    } else if bytes.len() < 3 {
        Err(Error::FormatError(FormatErrorKind::Truncated))
    } else if bytes.len() != 3 + be16(bytes[1], bytes[2]) {
        Err(Error::FormatError(FormatErrorKind::LengthMismatch))
    } else {
        match spec_parse_elements(bytes.skip(3)) {
            Some(es) => Ok(es),
            None => Err(Error::FormatError(FormatErrorKind::Truncated)),
        }
    }
}

impl ProtocolMessage {
    /// Parses one whole frame, exactly as received from the peer.
    ///
    /// A frame whose version byte is not 1 fails with
    /// `UnsupportedProtocolRevision`; a frame cut short anywhere fails with a
    /// format error.
    pub fn parse_frame(bytes: &Vec<u8>) -> (r: Result<ProtocolMessage, Error>)
        ensures
            match r {
                Ok(pm) => spec_parse_frame(bytes@) == Ok::<Seq<ElementV>, Error>(pm@),
                Err(e) => spec_parse_frame(bytes@) == Err::<Seq<ElementV>, Error>(e),
            },
            bytes@.len() > 0 && bytes@[0] != 1 ==> r == Err::<ProtocolMessage, Error>(
                Error::UnsupportedProtocolRevision,
            ),
    {
        if bytes.len() == 0 {
            return Err(Error::FormatError(FormatErrorKind::Truncated));
        }
        if bytes[0] != 1 {
            return Err(Error::UnsupportedProtocolRevision);
        }
        if bytes.len() < 3 {
            return Err(Error::FormatError(FormatErrorKind::Truncated));
        }
        let declared = read_be16(bytes[1], bytes[2]);
        if bytes.len() - 3 != declared as usize {
            return Err(Error::FormatError(FormatErrorKind::LengthMismatch));
        }
        let mut elements: Vec<Element> = Vec::new();
        let mut pos: usize = 3;
        while pos < bytes.len()
            invariant
                3 <= pos <= bytes@.len(),
                bytes@[0] == 1,
                bytes@.len() == 3 + be16(bytes@[1], bytes@[2]),
                spec_parse_elements(bytes@.skip(pos as int)) matches Some(rest)
                    ==> spec_parse_elements(bytes@.skip(3)) == Some(
                    view_elements(elements@) + rest,
                ),
                spec_parse_elements(bytes@.skip(pos as int)) is None ==> spec_parse_elements(
                    bytes@.skip(3),
                ) is None,
            decreases bytes@.len() - pos,
        {
            let ghost s = bytes@.skip(pos as int);
            if bytes.len() - pos < 3 {
                proof {
                    assert(s.len() < 3 && s.len() > 0);
                }
                return Err(Error::FormatError(FormatErrorKind::Truncated));
            }
            let id = bytes[pos];
            let l = read_be16(bytes[pos + 1], bytes[pos + 2]) as usize;
            proof {
                assert(s[0] == bytes@[pos as int]);
                assert(s[1] == bytes@[pos + 1]);
                assert(s[2] == bytes@[pos + 2]);
            }
            if bytes.len() - pos - 3 < l {
                proof {
                    assert(s.len() < 3 + l);
                }
                return Err(Error::FormatError(FormatErrorKind::Truncated));
            }
            let data = vec_range(bytes, pos + 3, pos + 3 + l);
            let ghost old_elements = elements@;
            elements.push(Element { id, data });
            proof {
                let ev = ElementV { id: s[0], data: s.subrange(3, 3 + l) };
                assert(s.subrange(3, 3 + l) =~= bytes@.subrange(pos + 3, pos + 3 + l));
                assert(s.skip(3 + l) =~= bytes@.skip(pos + 3 + l));
                assert(view_elements(elements@) =~= view_elements(old_elements).push(ev));
                match spec_parse_elements(bytes@.skip(pos + 3 + l)) {
                    Some(rest) => {
                        assert(spec_parse_elements(s) == Some(seq![ev] + rest));
                        assert(view_elements(old_elements) + (seq![ev] + rest) =~= view_elements(
                            elements@,
                        ) + rest);
                    },
                    None => {},
                }
            }
            pos = pos + 3 + l;
        }
        proof {
            assert(bytes@.skip(pos as int) =~= Seq::<u8>::empty());
            assert(spec_parse_elements(bytes@.skip(pos as int)) == Some(Seq::<ElementV>::empty()));
            assert(view_elements(elements@) + Seq::<ElementV>::empty() =~= view_elements(
                elements@,
            ));
        }
        Ok(ProtocolMessage { elements })
    }

    /// Encodes this message as one whole frame.
    pub fn encode_frame(&self) -> (r: Vec<u8>)
        requires
            spec_encode_elements(self@).len() <= 0xFFFF,
            forall|i: int| 0 <= i < self@.len() ==> elem_wf(#[trigger] self@[i]),
        ensures
            r@ == spec_encode_frame(self@),
    {
        let mut body: Vec<u8> = Vec::new();
        let mut i: usize = 0;
        while i < self.elements.len()
            invariant
                i <= self.elements@.len(),
                body@ == spec_encode_elements(self@.take(i as int)),
                spec_encode_elements(self@).len() <= 0xFFFF,
                forall|j: int| 0 <= j < self@.len() ==> elem_wf(#[trigger] self@[j]),
                self@ == view_elements(self.elements@),
            decreases self.elements@.len() - i,
        {
            let e = &self.elements[i];
            proof {
                assert(self@[i as int] == e@);
                lemma_encode_elements_prefix_bound(self@, i + 1);
                lemma_encode_elements_snoc(self@.take(i as int), e@);
                assert(self@.take(i as int).push(e@) =~= self@.take(i + 1));
            }
            body.push(e.id);
            push_be16(&mut body, e.data.len() as u16);
            push_bytes(&mut body, &e.data);
            proof {
                assert(body@ =~= spec_encode_elements(self@.take(i as int)) + spec_encode_element(
                    e@,
                ));
            }
            i = i + 1;
        }
        proof {
            assert(self@.take(i as int) =~= self@);
        }
        let mut out: Vec<u8> = Vec::new();
        out.push(1);
        push_be16(&mut out, body.len() as u16);
        push_bytes(&mut out, &body);
        proof {
            assert(out@ =~= spec_encode_frame(self@));
        }
        out
    }
}

/// Encoding a sequence of elements and then one more appends that element's
/// encoding.
pub proof fn lemma_encode_elements_snoc(es: Seq<ElementV>, e: ElementV)
    ensures
        spec_encode_elements(es.push(e)) == spec_encode_elements(es) + spec_encode_element(e),
    decreases es.len(),
{
    if es.len() == 0 {
        assert(es.push(e)[0] == e);
        assert(es.push(e).drop_first() =~= Seq::<ElementV>::empty());
        assert(spec_encode_elements(Seq::<ElementV>::empty()) == Seq::<u8>::empty());
        assert(spec_encode_elements(es.push(e)) == spec_encode_element(e) + Seq::<u8>::empty());
        assert(spec_encode_elements(es) == Seq::<u8>::empty());
        assert(spec_encode_element(e) + Seq::<u8>::empty() =~= Seq::<u8>::empty()
            + spec_encode_element(e));
    } else {
        let x = spec_encode_element(es[0]);
        let y = spec_encode_elements(es.drop_first());
        let z = spec_encode_element(e);
        assert(es.push(e)[0] == es[0]);
        assert(es.push(e).drop_first() =~= es.drop_first().push(e));
        lemma_encode_elements_snoc(es.drop_first(), e);
        assert(spec_encode_elements(es.push(e)) == x + (y + z));
        assert(x + (y + z) =~= (x + y) + z);
    }
}

/// A prefix of a sequence of elements encodes to no more bytes than the
/// whole sequence.
pub proof fn lemma_encode_elements_prefix_bound(es: Seq<ElementV>, n: int)
    requires
        0 <= n <= es.len(),
    ensures
        spec_encode_elements(es.take(n)).len() <= spec_encode_elements(es).len(),
    decreases es.len() - n,
{
    if n == es.len() {
        assert(es.take(n) =~= es);
    } else {
        lemma_encode_elements_snoc(es.take(n), es[n]);
        assert(es.take(n).push(es[n]) =~= es.take(n + 1));
        lemma_encode_elements_prefix_bound(es, n + 1);
    }
}

/// Parsing the encoding of a sequence of wire-sized elements gives back the
/// same elements.
pub proof fn lemma_parse_encode_elements(es: Seq<ElementV>)
    requires
        forall|i: int| 0 <= i < es.len() ==> elem_wf(#[trigger] es[i]),
    ensures
        spec_parse_elements(spec_encode_elements(es)) == Some(es),
    decreases es.len(),
{
    if es.len() == 0 {
        assert(spec_encode_elements(es) =~= Seq::<u8>::empty());
    } else {
        let e = es[0];
        let enc = spec_encode_elements(es);
        let rest_enc = spec_encode_elements(es.drop_first());
        let l = e.data.len() as int;
        assert(elem_wf(e));
        lemma_be16_split((l as u16 / 0x100) as u8, (l as u16 % 0x100) as u8);
        lemma_be16_round(l as u16);
        assert(enc =~= spec_encode_element(e) + rest_enc);
        assert(enc.len() == 3 + l + rest_enc.len());
        assert(enc[0] == e.id);
        assert(enc[1] == be16_hi(l as u16));
        assert(enc[2] == be16_lo(l as u16));
        assert(be16(enc[1], enc[2]) == l as u16);
        assert(enc.subrange(3, 3 + l) =~= e.data);
        assert(enc.skip(3 + l) =~= rest_enc);
        lemma_parse_encode_elements(es.drop_first());
        assert(seq![ElementV { id: e.id, data: e.data }] + es.drop_first() =~= es);
        assert(spec_parse_elements(enc) == Some(es));
    }
}

/// Session outcome reported in the MO header, offset 19.
#[derive(Debug, Clone, Copy, PartialEq, Eq, Structural)]
pub enum SessionStatus {
    Successful,
    SuccessfulTooLarge,
    SuccessfulUnacceptableLocation,
    Timeout,
    TooLarge,
    RFLinkLost,
    ProtocolAnomaly,
    IMEIBlocked,
}

/// The wire code of a session status.
pub open spec fn session_status_code(s: SessionStatus) -> u8 {
    match s {
        SessionStatus::Successful => 0,
        SessionStatus::SuccessfulTooLarge => 1,
        SessionStatus::SuccessfulUnacceptableLocation => 2,
        SessionStatus::Timeout => 10,
        SessionStatus::TooLarge => 12,
        SessionStatus::RFLinkLost => 13,
        SessionStatus::ProtocolAnomaly => 14,
        SessionStatus::IMEIBlocked => 15,
    }
}

/// The session status a wire code stands for, if any.
pub open spec fn session_status_of(code: u8) -> Option<SessionStatus> {
    if code == 0 {
        Some(SessionStatus::Successful)
    } else if code == 1 {
        Some(SessionStatus::SuccessfulTooLarge)
    } else if code == 2 {
        Some(SessionStatus::SuccessfulUnacceptableLocation)
    } else if code == 10 {
        Some(SessionStatus::Timeout)
    } else if code == 12 {
        Some(SessionStatus::TooLarge)
    } else if code == 13 {
        Some(SessionStatus::RFLinkLost)
    } else if code == 14 {
        Some(SessionStatus::ProtocolAnomaly)
    } else if code == 15 {
        Some(SessionStatus::IMEIBlocked)
    } else {
        None
    }
}

impl SessionStatus {
    /// Decodes the one-byte session status field; any unknown code fails.
    pub fn from_u8(val: u8) -> (r: Result<SessionStatus, Error>)
        ensures
            session_status_of(val) matches Some(s) ==> r == Ok::<SessionStatus, Error>(s),
            session_status_of(val) is None ==> r == Err::<SessionStatus, Error>(
                Error::FormatError(FormatErrorKind::InvalidStatusCode),
            ),
    {
        if val == 0 {
            Ok(SessionStatus::Successful)
        } else if val == 1 {
            Ok(SessionStatus::SuccessfulTooLarge)
        } else if val == 2 {
            Ok(SessionStatus::SuccessfulUnacceptableLocation)
        } else if val == 10 {
            Ok(SessionStatus::Timeout)
        } else if val == 12 {
            Ok(SessionStatus::TooLarge)
        } else if val == 13 {
            Ok(SessionStatus::RFLinkLost)
        } else if val == 14 {
            Ok(SessionStatus::ProtocolAnomaly)
        } else if val == 15 {
            Ok(SessionStatus::IMEIBlocked)
        } else {
            Err(Error::FormatError(FormatErrorKind::InvalidStatusCode))
        }
    }
}

/// An encoded status always decodes back to itself.
pub proof fn lemma_session_status_round(s: SessionStatus)
    ensures
        session_status_of(session_status_code(s)) == Some(s),
{
}

/// MO header IE (id 0x01) contents. The time of session is seconds since
/// the Unix epoch, exactly the 32-bit wire field.
#[derive(Debug)]
pub struct MOHeader {
    pub cdr_reference: u32,
    pub imei: Vec<u8>,
    pub session_status: SessionStatus,
    pub momsn: u16,
    pub mtmsn: u16,
    pub time_of_session: u32,
}

/// Mathematical value of an [`MOHeader`].
pub struct MOHeaderV {
    pub cdr_reference: u32,
    pub imei: Seq<u8>,
    pub session_status: SessionStatus,
    pub momsn: u16,
    pub mtmsn: u16,
    pub time_of_session: u32,
}

impl View for MOHeader {
    type V = MOHeaderV;

    open spec fn view(&self) -> MOHeaderV {
        MOHeaderV {
            cdr_reference: self.cdr_reference,
            imei: self.imei@,
            session_status: self.session_status,
            momsn: self.momsn,
            mtmsn: self.mtmsn,
            time_of_session: self.time_of_session,
        }
    }
}

/// MO header IE data is exactly 28 bytes with a known status code.
pub open spec fn mo_header_data_valid(data: Seq<u8>) -> bool {
    data.len() == 28 && session_status_of(data[19]) is Some
}

/// The header value of valid MO header IE data.
pub open spec fn spec_mo_header(data: Seq<u8>) -> MOHeaderV {
    MOHeaderV {
        cdr_reference: be32(data[0], data[1], data[2], data[3]),
        imei: data.subrange(4, 19),
        session_status: session_status_of(data[19]).unwrap(),
        momsn: be16(data[20], data[21]),
        mtmsn: be16(data[22], data[23]),
        time_of_session: be32(data[24], data[25], data[26], data[27]),
    }
}

impl MOHeader {
    /// Decodes the 28-byte MO header IE data.
    pub fn decode(data: &Vec<u8>) -> (r: Result<MOHeader, Error>)
        ensures
            data@.len() != 28 ==> r == Err::<MOHeader, Error>(
                Error::FormatError(FormatErrorKind::InvalidHeaderLength),
            ),
            data@.len() == 28 && session_status_of(data@[19]) is None ==> r == Err::<
                MOHeader,
                Error,
            >(Error::FormatError(FormatErrorKind::InvalidStatusCode)),
            mo_header_data_valid(data@) ==> (r matches Ok(h) && h@ == spec_mo_header(data@)),
    {
        if data.len() != 28 {
            return Err(Error::FormatError(FormatErrorKind::InvalidHeaderLength));
        }
        let session_status = match SessionStatus::from_u8(data[19]) {
            Ok(s) => s,
            Err(e) => {
                return Err(e);
            },
        };
        Ok(
            MOHeader {
                cdr_reference: read_be32(data[0], data[1], data[2], data[3]),
                imei: vec_range(data, 4, 19),
                session_status,
                momsn: read_be16(data[20], data[21]),
                mtmsn: read_be16(data[22], data[23]),
                time_of_session: read_be32(data[24], data[25], data[26], data[27]),
            },
        )
    }
}

/// A header value that fits the wire: the IMEI field is 15 bytes.
pub open spec fn mo_header_wf(h: MOHeaderV) -> bool {
    h.imei.len() == 15
}

/// The 28 wire bytes of an MO header value.
pub open spec fn spec_mo_header_bytes(h: MOHeaderV) -> Seq<u8> {
    be32_bytes(h.cdr_reference) + h.imei + seq![session_status_code(h.session_status)]
        + be16_bytes(h.momsn) + be16_bytes(h.mtmsn) + be32_bytes(h.time_of_session)
}

/// Decoding a synthesised MO header gives back the original values.
pub proof fn lemma_mo_header_round_trip(h: MOHeaderV)
    requires
        mo_header_wf(h),
    ensures
        mo_header_data_valid(spec_mo_header_bytes(h)),
        spec_mo_header(spec_mo_header_bytes(h)) == h,
{
    let d = spec_mo_header_bytes(h);
    assert(d.len() == 28);
    assert(d[19] == session_status_code(h.session_status));
    lemma_session_status_round(h.session_status);
    crate::bytes::lemma_be32_round(h.cdr_reference);
    crate::bytes::lemma_be32_round(h.time_of_session);
    lemma_be16_round(h.momsn);
    lemma_be16_round(h.mtmsn);
    assert(d.subrange(4, 19) =~= h.imei);
    assert(d[0] == be32_byte(h.cdr_reference, 0));
    assert(d[24] == be32_byte(h.time_of_session, 0));
    assert(d[20] == be16_hi(h.momsn) && d[21] == be16_lo(h.momsn));
    assert(d[22] == be16_hi(h.mtmsn) && d[23] == be16_lo(h.mtmsn));
}

/// Geolocation carried in the location IE (id 0x03).
///
/// Latitude is `lat_degrees + lat_thousandths / 60000` degrees, negated when
/// `lat_negative` is set; longitude likewise. The CEP radius is kilometres.
#[derive(Debug, Clone, Copy, PartialEq, Eq, Structural)]
pub struct LocationInformation {
    pub lat_negative: bool,
    pub lat_degrees: u8,
    pub lat_thousandths: u16,
    pub lon_negative: bool,
    pub lon_degrees: u8,
    pub lon_thousandths: u16,
    pub cep_radius: u32,
}

/// Location IE data is 11 bytes whose format byte has bits 3..2 zero.
pub open spec fn location_data_valid(data: Seq<u8>) -> bool {
    data.len() == 11 && (data[0] / 4) % 4 == 0
}

/// The location value of valid location IE data. Bit 1 of the format byte
/// negates latitude, bit 0 negates longitude.
pub open spec fn spec_location(data: Seq<u8>) -> LocationInformation {
    LocationInformation {
        lat_negative: (data[0] / 2) % 2 == 1,
        lat_degrees: data[1],
        lat_thousandths: be16(data[2], data[3]),
        lon_negative: data[0] % 2 == 1,
        lon_degrees: data[4],
        lon_thousandths: be16(data[5], data[6]),
        cep_radius: be32(data[7], data[8], data[9], data[10]),
    }
}

impl LocationInformation {
    /// Decodes the 11-byte location IE data.
    pub fn decode(data: &Vec<u8>) -> (r: Result<LocationInformation, Error>)
        ensures
            data@.len() != 11 ==> r == Err::<LocationInformation, Error>(
                Error::FormatError(FormatErrorKind::InvalidLocationLength),
            ),
            data@.len() == 11 && (data@[0] / 4) % 4 != 0 ==> r == Err::<
                LocationInformation,
                Error,
            >(Error::FormatError(FormatErrorKind::UnsupportedLocationFormat)),
            location_data_valid(data@) ==> r == Ok::<LocationInformation, Error>(
                spec_location(data@),
            ),
    {
        if data.len() != 11 {
            return Err(Error::FormatError(FormatErrorKind::InvalidLocationLength));
        }
        let format_byte = data[0];
        if (format_byte / 4) % 4 != 0 {
            return Err(Error::FormatError(FormatErrorKind::UnsupportedLocationFormat));
        }
        Ok(
            LocationInformation {
                lat_negative: (format_byte / 2) % 2 == 1,
                lat_degrees: data[1],
                lat_thousandths: read_be16(data[2], data[3]),
                lon_negative: format_byte % 2 == 1,
                lon_degrees: data[4],
                lon_thousandths: read_be16(data[5], data[6]),
                cep_radius: read_be32(data[7], data[8], data[9], data[10]),
            },
        )
    }
}

/// The canonical format byte of a location value: only the two sign bits.
pub open spec fn location_format_byte(l: LocationInformation) -> u8 {
    ((if l.lat_negative {
        2int
    } else {
        0int
    }) + (if l.lon_negative {
        1int
    } else {
        0int
    })) as u8
}

/// The 11 wire bytes of a location value.
pub open spec fn spec_location_bytes(l: LocationInformation) -> Seq<u8> {
    seq![location_format_byte(l), l.lat_degrees] + be16_bytes(l.lat_thousandths) + seq![
        l.lon_degrees,
    ] + be16_bytes(l.lon_thousandths) + be32_bytes(l.cep_radius)
}

/// Decoding a synthesised location gives back the original values.
pub proof fn lemma_location_round_trip(l: LocationInformation)
    ensures
        location_data_valid(spec_location_bytes(l)),
        spec_location(spec_location_bytes(l)) == l,
{
    let d = spec_location_bytes(l);
    assert(d.len() == 11);
    assert(d[0] == location_format_byte(l));
    crate::bytes::lemma_be32_round(l.cep_radius);
    lemma_be16_round(l.lat_thousandths);
    lemma_be16_round(l.lon_thousandths);
    assert(d[2] == be16_hi(l.lat_thousandths) && d[3] == be16_lo(l.lat_thousandths));
    assert(d[5] == be16_hi(l.lon_thousandths) && d[6] == be16_lo(l.lon_thousandths));
    assert(d[7] == be32_byte(l.cep_radius, 0));
}

/// MO acknowledgement IE value: `true` when the message was accepted.
#[derive(Debug, Clone, Copy, PartialEq, Eq, Structural)]
pub struct MOConfirmation {
    pub status: bool,
}

impl MOConfirmation {
    /// Encodes the confirmation IE (id 0x05, one byte: 1 accepted, 0 not).
    pub fn to_element(&self) -> (r: Element)
        ensures
            r@.id == 0x05,
            r@.data == seq![if self.status { 1u8 } else { 0u8 }],
    {
        let mut data: Vec<u8> = Vec::new();
        data.push(if self.status { 1 } else { 0 });
        proof {
            assert(data@ =~= seq![if self.status { 1u8 } else { 0u8 }]);
        }
        Element { id: 0x05, data }
    }
}

/// MT header IE (id 0x41) contents.
#[derive(Debug)]
pub struct MTHeader {
    pub client_message_id: u32,
    pub imei: Vec<u8>,
    pub flush_mt_queue: bool,
    pub send_ring_alert: bool,
    pub update_ssd_location: bool,
    pub high_priority_message: bool,
    pub assign_mtmsn: bool,
}

/// Mathematical value of an [`MTHeader`].
pub struct MTHeaderV {
    pub client_message_id: u32,
    pub imei: Seq<u8>,
    pub flush_mt_queue: bool,
    pub send_ring_alert: bool,
    pub update_ssd_location: bool,
    pub high_priority_message: bool,
    pub assign_mtmsn: bool,
}

impl View for MTHeader {
    type V = MTHeaderV;

    open spec fn view(&self) -> MTHeaderV {
        MTHeaderV {
            client_message_id: self.client_message_id,
            imei: self.imei@,
            flush_mt_queue: self.flush_mt_queue,
            send_ring_alert: self.send_ring_alert,
            update_ssd_location: self.update_ssd_location,
            high_priority_message: self.high_priority_message,
            assign_mtmsn: self.assign_mtmsn,
        }
    }
}

/// The 16-bit flag field: flush_queue 1, ring_alert 2, ssd_location 8,
/// high_priority 16, assign_mtmsn 32.
pub open spec fn mt_flags(h: MTHeaderV) -> u16 {
    ((if h.flush_mt_queue {
        1int
    } else {
        0int
    }) + (if h.send_ring_alert {
        2int
    } else {
        0int
    }) + (if h.update_ssd_location {
        8int
    } else {
        0int
    }) + (if h.high_priority_message {
        16int
    } else {
        0int
    }) + (if h.assign_mtmsn {
        32int
    } else {
        0int
    })) as u16
}

/// The 21 wire bytes of an MT header value.
pub open spec fn spec_mt_header_bytes(h: MTHeaderV) -> Seq<u8> {
    be32_bytes(h.client_message_id) + h.imei + be16_bytes(mt_flags(h))
}

/// The MT header value of 21-byte MT header IE data.
pub open spec fn spec_parse_mt_header(data: Seq<u8>) -> Option<MTHeaderV> {
    if data.len() != 21 {
        None
    } else {
        let flags = be16(data[19], data[20]) as int;
        Some(
            MTHeaderV {
                client_message_id: be32(data[0], data[1], data[2], data[3]),
                imei: data.subrange(4, 19),
                flush_mt_queue: flags % 2 == 1,
                send_ring_alert: (flags / 2) % 2 == 1,
                update_ssd_location: (flags / 8) % 2 == 1,
                high_priority_message: (flags / 16) % 2 == 1,
                assign_mtmsn: (flags / 32) % 2 == 1,
            },
        )
    }
}

impl MTHeader {
    /// Encodes the MT header IE (id 0x41): client message id, IMEI, flags.
    pub fn to_element(&self) -> (r: Element)
        requires
            self.imei@.len() == 15,
        ensures
            r@.id == 0x41,
            r@.data == spec_mt_header_bytes(self@),
    {
        let mut data: Vec<u8> = Vec::new();
        push_be32(&mut data, self.client_message_id);
        push_bytes(&mut data, &self.imei);
        let mut flags: u16 = 0;
        if self.flush_mt_queue {
            flags = flags + 1;
        }
        if self.send_ring_alert {
            flags = flags + 2;
        }
        if self.update_ssd_location {
            flags = flags + 8;
        }
        if self.high_priority_message {
            flags = flags + 16;
        }
        if self.assign_mtmsn {
            flags = flags + 32;
        }
        assert(flags == mt_flags(self@));
        push_be16(&mut data, flags);
        proof {
            assert(data@ =~= spec_mt_header_bytes(self@));
        }
        Element { id: 0x41, data }
    }

    /// Decodes the 21-byte MT header IE data.
    pub fn decode(data: &Vec<u8>) -> (r: Result<MTHeader, Error>)
        ensures
            spec_parse_mt_header(data@) matches Some(h) ==> (r matches Ok(v) && v@ == h),
            spec_parse_mt_header(data@) is None ==> r == Err::<MTHeader, Error>(
                Error::FormatError(FormatErrorKind::InvalidHeaderLength),
            ),
    {
        if data.len() != 21 {
            return Err(Error::FormatError(FormatErrorKind::InvalidHeaderLength));
        }
        let flags = read_be16(data[19], data[20]);
        Ok(
            MTHeader {
                client_message_id: read_be32(data[0], data[1], data[2], data[3]),
                imei: vec_range(data, 4, 19),
                flush_mt_queue: flags % 2 == 1,
                send_ring_alert: (flags / 2) % 2 == 1,
                update_ssd_location: (flags / 8) % 2 == 1,
                high_priority_message: (flags / 16) % 2 == 1,
                assign_mtmsn: (flags / 32) % 2 == 1,
            },
        )
    }
}

/// Decoding an encoded MT header gives back the original values.
pub proof fn lemma_mt_header_round_trip(h: MTHeaderV)
    requires
        h.imei.len() == 15,
    ensures
        spec_parse_mt_header(spec_mt_header_bytes(h)) == Some(h),
{
    let d = spec_mt_header_bytes(h);
    assert(d.len() == 21);
    crate::bytes::lemma_be32_round(h.client_message_id);
    lemma_be16_round(mt_flags(h));
    assert(d[0] == be32_byte(h.client_message_id, 0));
    assert(d[19] == be16_hi(mt_flags(h)) && d[20] == be16_lo(mt_flags(h)));
    assert(d.subrange(4, 19) =~= h.imei);
    let a = if h.flush_mt_queue {
        1int
    } else {
        0int
    };
    let b = if h.send_ring_alert {
        1int
    } else {
        0int
    };
    let c = if h.update_ssd_location {
        1int
    } else {
        0int
    };
    let e = if h.high_priority_message {
        1int
    } else {
        0int
    };
    let g = if h.assign_mtmsn {
        1int
    } else {
        0int
    };
    let f = mt_flags(h) as int;
    assert(f == a + 2 * b + 8 * c + 16 * e + 32 * g);
    vstd::arithmetic::div_mod::lemma_fundamental_div_mod_converse(
        f,
        2,
        b + 4 * c + 8 * e + 16 * g,
        a,
    );
    vstd::arithmetic::div_mod::lemma_fundamental_div_mod_converse(
        b + 4 * c + 8 * e + 16 * g,
        2,
        2 * c + 4 * e + 8 * g,
        b,
    );
    vstd::arithmetic::div_mod::lemma_fundamental_div_mod_converse(
        f,
        8,
        c + 2 * e + 4 * g,
        a + 2 * b,
    );
    vstd::arithmetic::div_mod::lemma_fundamental_div_mod_converse(
        c + 2 * e + 4 * g,
        2,
        e + 2 * g,
        c,
    );
    vstd::arithmetic::div_mod::lemma_fundamental_div_mod_converse(
        f,
        16,
        e + 2 * g,
        a + 2 * b + 8 * c,
    );
    vstd::arithmetic::div_mod::lemma_fundamental_div_mod_converse(e + 2 * g, 2, g, e);
    vstd::arithmetic::div_mod::lemma_fundamental_div_mod_converse(
        f,
        32,
        g,
        a + 2 * b + 8 * c + 16 * e,
    );
    vstd::arithmetic::div_mod::lemma_fundamental_div_mod_converse(g, 2, 0, g);
}

/// MT payload IE value: the raw payload bytes.
#[derive(Debug)]
pub struct MTPayload {
    pub data: Vec<u8>,
}

impl MTPayload {
    /// Encodes the MT payload IE (id 0x42).
    pub fn to_element(self) -> (r: Element)
        ensures
            r@.id == 0x42,
            r@.data == self.data@,
    {
        Element { id: 0x42, data: self.data }
    }
}

/// MT priority IE value (id 0x46): one 16-bit level.
#[derive(Debug, Clone, Copy, PartialEq, Eq, Structural)]
pub struct MTPriority {
    pub level: u16,
}

impl MTPriority {
    /// Encodes the MT priority IE (id 0x46).
    pub fn to_element(&self) -> (r: Element)
        ensures
            r@.id == 0x46,
            r@.data == be16_bytes(self.level),
    {
        let mut data: Vec<u8> = Vec::new();
        push_be16(&mut data, self.level);
        proof {
            assert(data@ =~= be16_bytes(self.level));
        }
        Element { id: 0x46, data }
    }

    /// Decodes the 2-byte MT priority IE data.
    pub fn decode(data: &Vec<u8>) -> (r: Option<MTPriority>)
        ensures
            data@.len() == 2 ==> (r matches Some(p) && p.level == be16(data@[0], data@[1])),
            data@.len() != 2 ==> r is None,
    {
        if data.len() != 2 {
            return None;
        }
        Some(MTPriority { level: read_be16(data[0], data[1]) })
    }
}

/// Delivery status reported in the MT confirmation's signed status byte.
#[derive(Debug, Clone, Copy, PartialEq, Eq, Structural)]
pub enum MessageStatus {
    /// Status 0: accepted, but no payload was in the message.
    SuccessfulNoPayload,
    /// Status 1..=50: accepted; carries the order in the device's queue.
    Successful(u8),
    InvalidIMEI,
    UnknownIMEI,
    TooLarge,
    PayloadExpected,
    QueueFull,
    ResourcesUnavailable,
    ProtocolViolation,
    RingAlertsDisabled,
    UnattachedIMEI,
    IPBlocked,
    MTMSNOutOfRange,
}

/// The message status a signed wire value stands for, if any.
pub open spec fn message_status_of(v: int) -> Option<MessageStatus> {
    if v == 0 {
        Some(MessageStatus::SuccessfulNoPayload)
    } else if 1 <= v <= 50 {
        Some(MessageStatus::Successful(v as u8))
    } else if v == -1 {
        Some(MessageStatus::InvalidIMEI)
    } else if v == -2 {
        Some(MessageStatus::UnknownIMEI)
    } else if v == -3 {
        Some(MessageStatus::TooLarge)
    } else if v == -4 {
        Some(MessageStatus::PayloadExpected)
    } else if v == -5 {
        Some(MessageStatus::QueueFull)
    } else if v == -6 {
        Some(MessageStatus::ResourcesUnavailable)
    } else if v == -7 {
        Some(MessageStatus::ProtocolViolation)
    } else if v == -8 {
        Some(MessageStatus::RingAlertsDisabled)
    } else if v == -9 {
        Some(MessageStatus::UnattachedIMEI)
    } else if v == -10 {
        Some(MessageStatus::IPBlocked)
    } else if v == -11 {
        Some(MessageStatus::MTMSNOutOfRange)
    } else {
        None
    }
}

impl MessageStatus {
    /// Decodes the signed status byte of the MT confirmation.
    pub fn from_i8(val: i8) -> (r: Result<MessageStatus, Error>)
        ensures
            message_status_of(val as int) matches Some(s) ==> r == Ok::<MessageStatus, Error>(s),
            message_status_of(val as int) is None ==> r == Err::<MessageStatus, Error>(
                Error::FormatError(FormatErrorKind::InvalidMessageStatus),
            ),
    {
        if val == 0 {
            Ok(MessageStatus::SuccessfulNoPayload)
        } else if 1 <= val && val <= 50 {
            Ok(MessageStatus::Successful(val as u8))
        } else if val == -1 {
            Ok(MessageStatus::InvalidIMEI)
        } else if val == -2 {
            Ok(MessageStatus::UnknownIMEI)
        } else if val == -3 {
            Ok(MessageStatus::TooLarge)
        } else if val == -4 {
            Ok(MessageStatus::PayloadExpected)
        } else if val == -5 {
            Ok(MessageStatus::QueueFull)
        } else if val == -6 {
            Ok(MessageStatus::ResourcesUnavailable)
        } else if val == -7 {
            Ok(MessageStatus::ProtocolViolation)
        } else if val == -8 {
            Ok(MessageStatus::RingAlertsDisabled)
        } else if val == -9 {
            Ok(MessageStatus::UnattachedIMEI)
        } else if val == -10 {
            Ok(MessageStatus::IPBlocked)
        } else if val == -11 {
            Ok(MessageStatus::MTMSNOutOfRange)
        } else {
            Err(Error::FormatError(FormatErrorKind::InvalidMessageStatus))
        }
    }
}

/// MT confirmation IE (id 0x44) contents.
#[derive(Debug)]
pub struct MTConfirmation {
    pub client_message_id: u32,
    pub imei: Vec<u8>,
    pub auto_id_reference: u32,
    pub message_status: MessageStatus,
}

/// Mathematical value of an [`MTConfirmation`].
pub struct MTConfirmationV {
    pub client_message_id: u32,
    pub imei: Seq<u8>,
    pub auto_id_reference: u32,
    pub message_status: MessageStatus,
}

impl View for MTConfirmation {
    type V = MTConfirmationV;

    open spec fn view(&self) -> MTConfirmationV {
        MTConfirmationV {
            client_message_id: self.client_message_id,
            imei: self.imei@,
            auto_id_reference: self.auto_id_reference,
            message_status: self.message_status,
        }
    }
}

/// The value of a byte read as two's-complement signed.
pub open spec fn byte_signed(b: u8) -> int {
    if b < 128 {
        b as int
    } else {
        b - 256
    }
}

/// MT confirmation IE data is exactly 25 bytes with a known status value.
pub open spec fn mt_confirmation_data_valid(data: Seq<u8>) -> bool {
    data.len() == 25 && message_status_of(byte_signed(data[24])) is Some
}

/// The confirmation value of valid MT confirmation IE data. The byte at
/// offset 23 is reserved and ignored; the status byte sits at offset 24.
pub open spec fn spec_mt_confirmation(data: Seq<u8>) -> MTConfirmationV {
    MTConfirmationV {
        client_message_id: be32(data[0], data[1], data[2], data[3]),
        imei: data.subrange(4, 19),
        auto_id_reference: be32(data[19], data[20], data[21], data[22]),
        message_status: message_status_of(byte_signed(data[24])).unwrap(),
    }
}

impl MTConfirmation {
    /// Decodes the 25-byte MT confirmation IE data.
    pub fn decode(data: &Vec<u8>) -> (r: Result<MTConfirmation, Error>)
        ensures
            data@.len() != 25 ==> r == Err::<MTConfirmation, Error>(
                Error::FormatError(FormatErrorKind::InvalidConfirmationLength),
            ),
            data@.len() == 25 && message_status_of(byte_signed(data@[24])) is None ==> r == Err::<
                MTConfirmation,
                Error,
            >(Error::FormatError(FormatErrorKind::InvalidMessageStatus)),
            mt_confirmation_data_valid(data@) ==> (r matches Ok(c) && c@ == spec_mt_confirmation(
                data@,
            )),
    {
        if data.len() != 25 {
            return Err(Error::FormatError(FormatErrorKind::InvalidConfirmationLength));
        }
        let b = data[24];
        let sv: i16 = if b >= 128 {
            b as i16 - 256
        } else {
            b as i16
        };
        assert(sv == byte_signed(b));
        let message_status = match MessageStatus::from_i8(sv as i8) {
            Ok(s) => s,
            Err(e) => {
                return Err(e);
            },
        };
        Ok(
            MTConfirmation {
                client_message_id: read_be32(data[0], data[1], data[2], data[3]),
                imei: vec_range(data, 4, 19),
                auto_id_reference: read_be32(data[19], data[20], data[21], data[22]),
                message_status,
            },
        )
    }
}

/// Round trip of the whole frame: parsing an encoded frame gives back the
/// elements that went in.
pub proof fn lemma_parse_encode_frame(es: Seq<ElementV>)
    requires
        spec_encode_elements(es).len() <= 0xFFFF,
        forall|i: int| 0 <= i < es.len() ==> elem_wf(#[trigger] es[i]),
    ensures
        spec_parse_frame(spec_encode_frame(es)) == Ok::<Seq<ElementV>, Error>(es),
{
    let body = spec_encode_elements(es);
    let frame = spec_encode_frame(es);
    let n = body.len() as u16;
    lemma_be16_round(n);
    assert(frame.len() == 3 + body.len());
    assert(frame[0] == 1u8);
    assert(frame[1] == be16_hi(n));
    assert(frame[2] == be16_lo(n));
    assert(be16(frame[1], frame[2]) == n);
    assert(frame.skip(3) =~= body);
    lemma_parse_encode_elements(es);
}

/// A decoded MO message: mandatory header, optional payload and location,
/// and any unrecognised elements in order of appearance.
#[derive(Debug)]
pub struct Message {
    pub header: MOHeader,
    pub payload: Option<Vec<u8>>,
    pub location_information: Option<LocationInformation>,
    pub extra: Vec<Element>,
}

/// Mathematical value of a [`Message`].
pub struct MessageV {
    pub header: MOHeaderV,
    pub payload: Option<Seq<u8>>,
    pub location_information: Option<LocationInformation>,
    pub extra: Seq<ElementV>,
}

/// The value of an optional MO header.
pub open spec fn view_opt_header(h: Option<MOHeader>) -> Option<MOHeaderV> {
    match h {
        Some(x) => Some(x@),
        None => None,
    }
}

/// The value of an optional byte vector.
pub open spec fn view_opt_bytes(p: Option<Vec<u8>>) -> Option<Seq<u8>> {
    match p {
        Some(x) => Some(x@),
        None => None,
    }
}

impl View for Message {
    type V = MessageV;

    open spec fn view(&self) -> MessageV {
        MessageV {
            header: self.header@,
            payload: view_opt_bytes(self.payload),
            location_information: self.location_information,
            extra: view_elements(self.extra@),
        }
    }
}

/// One pass over the elements of an MO protocol message, carrying what has
/// been seen so far. The first problem in element order wins.
pub open spec fn spec_mo_collect(
    es: Seq<ElementV>,
    header: Option<MOHeaderV>,
    payload: Option<Seq<u8>>,
    location: Option<LocationInformation>,
    extra: Seq<ElementV>,
) -> Result<MessageV, Error>
    decreases es.len(),
{
    if es.len() == 0 {
        match header {
            Some(h) => Ok(
                MessageV { header: h, payload, location_information: location, extra },
            ),
            None => Err(Error::FormatError(FormatErrorKind::MissingHeader)),
        }
    } else {
        let e = es[0];
        if e.id == 0x01 {
            if header is Some {
                Err(Error::FormatError(FormatErrorKind::DuplicateHeader))
            } else if e.data.len() != 28 {
                Err(Error::FormatError(FormatErrorKind::InvalidHeaderLength))
            } else if session_status_of(e.data[19]) is None {
                Err(Error::FormatError(FormatErrorKind::InvalidStatusCode))
            } else {
                spec_mo_collect(
                    es.drop_first(),
                    Some(spec_mo_header(e.data)),
                    payload,
                    location,
                    extra,
                )
            }
        } else if e.id == 0x02 {
            if payload is Some {
                Err(Error::FormatError(FormatErrorKind::DuplicatePayload))
            } else {
                spec_mo_collect(es.drop_first(), header, Some(e.data), location, extra)
            }
        } else if e.id == 0x03 {
            if location is Some {
                Err(Error::FormatError(FormatErrorKind::DuplicateLocation))
            } else if e.data.len() != 11 {
                Err(Error::FormatError(FormatErrorKind::InvalidLocationLength))
            } else if (e.data[0] / 4) % 4 != 0 {
                Err(Error::FormatError(FormatErrorKind::UnsupportedLocationFormat))
            } else {
                spec_mo_collect(
                    es.drop_first(),
                    header,
                    payload,
                    Some(spec_location(e.data)),
                    extra,
                )
            }
        } else {
            spec_mo_collect(es.drop_first(), header, payload, location, extra.push(e))
        }
    }
}

/// The MO message of a parsed element sequence.
pub open spec fn spec_mo_message(es: Seq<ElementV>) -> Result<MessageV, Error> {
    spec_mo_collect(es, None, None, None, Seq::empty())
}

impl Message {
    /// Assembles an MO message from a protocol message's elements: the MO
    /// header (0x01) is mandatory; payload (0x02) and location (0x03) may
    /// appear at most once; unknown elements are kept as extras.
    pub fn from_pm(pm: ProtocolMessage) -> (r: Result<Message, Error>)
        ensures
            match r {
                Ok(m) => spec_mo_message(pm@) == Ok::<MessageV, Error>(m@),
                Err(e) => spec_mo_message(pm@) == Err::<MessageV, Error>(e),
            },
    {
        let mut header: Option<MOHeader> = None;
        let mut payload: Option<Vec<u8>> = None;
        let mut location_information: Option<LocationInformation> = None;
        let mut extra: Vec<Element> = Vec::new();
        let n = pm.elements.len();
        let mut i: usize = 0;
        proof {
            assert(pm@.skip(0) =~= pm@);
            assert(view_elements(extra@) =~= Seq::<ElementV>::empty());
        }
        while i < n
            invariant
                i <= n == pm.elements@.len(),
                spec_mo_collect(
                    pm@.skip(i as int),
                    view_opt_header(header),
                    view_opt_bytes(payload),
                    location_information,
                    view_elements(extra@),
                ) == spec_mo_message(pm@),
            decreases n - i,
        {
            let ghost rem = pm@.skip(i as int);
            let e = &pm.elements[i];
            proof {
                assert(rem[0] == pm@[i as int]);
                assert(pm@[i as int] == pm.elements@[i as int]@);
                assert(rem.drop_first() =~= pm@.skip(i + 1));
            }
            if e.id == 0x01 {
                if header.is_some() {
                    return Err(Error::FormatError(FormatErrorKind::DuplicateHeader));
                }
                let h = match MOHeader::decode(&e.data) {
                    Ok(h) => h,
                    Err(err) => {
                        return Err(err);
                    },
                };
                header = Some(h);
            } else if e.id == 0x02 {
                if payload.is_some() {
                    return Err(Error::FormatError(FormatErrorKind::DuplicatePayload));
                }
                payload = Some(crate::bytes::vec_copy(&e.data));
            } else if e.id == 0x03 {
                if location_information.is_some() {
                    return Err(Error::FormatError(FormatErrorKind::DuplicateLocation));
                }
                let l = match LocationInformation::decode(&e.data) {
                    Ok(l) => l,
                    Err(err) => {
                        return Err(err);
                    },
                };
                location_information = Some(l);
            } else {
                let ghost old_extra = extra@;
                extra.push(Element { id: e.id, data: crate::bytes::vec_copy(&e.data) });
                proof {
                    assert(view_elements(extra@) =~= view_elements(old_extra).push(rem[0]));
                }
            }
            i = i + 1;
        }
        proof {
            assert(pm@.skip(i as int) =~= Seq::<ElementV>::empty());
        }
        match header {
            Some(h) => Ok(Message { header: h, payload, location_information, extra }),
            None => Err(Error::FormatError(FormatErrorKind::MissingHeader)),
        }
    }
}

/// A decoded MT response message: mandatory confirmation, and any
/// unrecognised elements in order of appearance.
#[derive(Debug)]
pub struct ResponseMessage {
    pub confirmation: MTConfirmation,
    pub extra: Vec<Element>,
}

/// Mathematical value of a [`ResponseMessage`].
pub struct ResponseMessageV {
    pub confirmation: MTConfirmationV,
    pub extra: Seq<ElementV>,
}

impl View for ResponseMessage {
    type V = ResponseMessageV;

    open spec fn view(&self) -> ResponseMessageV {
        ResponseMessageV { confirmation: self.confirmation@, extra: view_elements(self.extra@) }
    }
}

/// One pass over the elements of an MT response message.
pub open spec fn spec_response_collect(
    es: Seq<ElementV>,
    confirmation: Option<MTConfirmationV>,
    extra: Seq<ElementV>,
) -> Result<ResponseMessageV, Error>
    decreases es.len(),
{
    if es.len() == 0 {
        match confirmation {
            Some(c) => Ok(ResponseMessageV { confirmation: c, extra }),
            None => Err(Error::FormatError(FormatErrorKind::MissingConfirmation)),
        }
    } else {
        let e = es[0];
        if e.id == 0x44 {
            if confirmation is Some {
                Err(Error::FormatError(FormatErrorKind::DuplicateConfirmation))
            } else if e.data.len() != 25 {
                Err(Error::FormatError(FormatErrorKind::InvalidConfirmationLength))
            } else if message_status_of(byte_signed(e.data[24])) is None {
                Err(Error::FormatError(FormatErrorKind::InvalidMessageStatus))
            } else {
                spec_response_collect(es.drop_first(), Some(spec_mt_confirmation(e.data)), extra)
            }
        } else {
            spec_response_collect(es.drop_first(), confirmation, extra.push(e))
        }
    }
}

/// The MT response message of a parsed element sequence.
pub open spec fn spec_response_message(es: Seq<ElementV>) -> Result<ResponseMessageV, Error> {
    spec_response_collect(es, None, Seq::empty())
}

/// The value of an optional MT confirmation.
pub open spec fn view_opt_confirmation(c: Option<MTConfirmation>) -> Option<MTConfirmationV> {
    match c {
        Some(x) => Some(x@),
        None => None,
    }
}

impl ResponseMessage {
    /// Assembles an MT response message from a protocol message's elements:
    /// the confirmation (0x44) is mandatory and must appear exactly once.
    pub fn from_pm(pm: ProtocolMessage) -> (r: Result<ResponseMessage, Error>)
        ensures
            match r {
                Ok(m) => spec_response_message(pm@) == Ok::<ResponseMessageV, Error>(m@),
                Err(e) => spec_response_message(pm@) == Err::<ResponseMessageV, Error>(e),
            },
    {
        let mut confirmation: Option<MTConfirmation> = None;
        let mut extra: Vec<Element> = Vec::new();
        let n = pm.elements.len();
        let mut i: usize = 0;
        proof {
            assert(pm@.skip(0) =~= pm@);
            assert(view_elements(extra@) =~= Seq::<ElementV>::empty());
        }
        while i < n
            invariant
                i <= n == pm.elements@.len(),
                spec_response_collect(
                    pm@.skip(i as int),
                    view_opt_confirmation(confirmation),
                    view_elements(extra@),
                ) == spec_response_message(pm@),
            decreases n - i,
        {
            let ghost rem = pm@.skip(i as int);
            let e = &pm.elements[i];
            proof {
                assert(rem[0] == pm@[i as int]);
                assert(pm@[i as int] == pm.elements@[i as int]@);
                assert(rem.drop_first() =~= pm@.skip(i + 1));
            }
            if e.id == 0x44 {
                if confirmation.is_some() {
                    return Err(Error::FormatError(FormatErrorKind::DuplicateConfirmation));
                }
                let c = match MTConfirmation::decode(&e.data) {
                    Ok(c) => c,
                    Err(err) => {
                        return Err(err);
                    },
                };
                confirmation = Some(c);
            } else {
                let ghost old_extra = extra@;
                extra.push(Element { id: e.id, data: crate::bytes::vec_copy(&e.data) });
                proof {
                    assert(view_elements(extra@) =~= view_elements(old_extra).push(rem[0]));
                }
            }
            i = i + 1;
        }
        proof {
            assert(pm@.skip(i as int) =~= Seq::<ElementV>::empty());
        }
        match confirmation {
            Some(c) => Ok(ResponseMessage { confirmation: c, extra }),
            None => Err(Error::FormatError(FormatErrorKind::MissingConfirmation)),
        }
    }
}

/// How many elements of the sequence carry the given id.
pub open spec fn count_id(es: Seq<ElementV>, id: u8) -> nat
    decreases es.len(),
{
    if es.len() == 0 {
        0
    } else {
        (if es[0].id == id {
            1nat
        } else {
            0nat
        }) + count_id(es.drop_first(), id)
    }
}

proof fn lemma_count_id_pos(es: Seq<ElementV>, i: int, id: u8)
    requires
        0 <= i < es.len(),
        es[i].id == id,
    ensures
        count_id(es, id) >= 1,
    decreases es.len(),
{
    if i > 0 {
        assert(es.drop_first()[i - 1] == es[i]);
        lemma_count_id_pos(es.drop_first(), i - 1, id);
    }
}

proof fn lemma_count_id_two(es: Seq<ElementV>, i: int, j: int, id: u8)
    requires
        0 <= i < j < es.len(),
        es[i].id == id,
        es[j].id == id,
    ensures
        count_id(es, id) >= 2,
    decreases es.len(),
{
    if i == 0 {
        assert(es.drop_first()[j - 1] == es[j]);
        lemma_count_id_pos(es.drop_first(), j - 1, id);
    } else {
        assert(es.drop_first()[i - 1] == es[i]);
        assert(es.drop_first()[j - 1] == es[j]);
        lemma_count_id_two(es.drop_first(), i - 1, j - 1, id);
    }
}

proof fn lemma_mo_collect_err_dup(
    es: Seq<ElementV>,
    header: Option<MOHeaderV>,
    payload: Option<Seq<u8>>,
    location: Option<LocationInformation>,
    extra: Seq<ElementV>,
    id: u8,
)
    requires
        id == 0x01 || id == 0x02 || id == 0x03,
        count_id(es, id) >= 2 || (count_id(es, id) >= 1 && (if id == 0x01 {
            header is Some
        } else if id == 0x02 {
            payload is Some
        } else {
            location is Some
        })),
    ensures
        spec_mo_collect(es, header, payload, location, extra) is Err,
    decreases es.len(),
{
    let e = es[0];
    if e.id == 0x01 {
        if header is None && e.data.len() == 28 && session_status_of(e.data[19]) is Some {
            lemma_mo_collect_err_dup(
                es.drop_first(),
                Some(spec_mo_header(e.data)),
                payload,
                location,
                extra,
                id,
            );
        }
    } else if e.id == 0x02 {
        if payload is None {
            lemma_mo_collect_err_dup(es.drop_first(), header, Some(e.data), location, extra, id);
        }
    } else if e.id == 0x03 {
        if location is None && e.data.len() == 11 && (e.data[0] / 4) % 4 == 0 {
            lemma_mo_collect_err_dup(
                es.drop_first(),
                header,
                payload,
                Some(spec_location(e.data)),
                extra,
                id,
            );
        }
    } else {
        lemma_mo_collect_err_dup(es.drop_first(), header, payload, location, extra.push(e), id);
    }
}

proof fn lemma_mo_collect_ok(
    es: Seq<ElementV>,
    header: Option<MOHeaderV>,
    payload: Option<Seq<u8>>,
    location: Option<LocationInformation>,
    extra: Seq<ElementV>,
)
    requires
        count_id(es, 0x01) + (if header is Some {
            1int
        } else {
            0int
        }) == 1,
        count_id(es, 0x02) + (if payload is Some {
            1int
        } else {
            0int
        }) <= 1,
        count_id(es, 0x03) + (if location is Some {
            1int
        } else {
            0int
        }) <= 1,
        forall|i: int|
            0 <= i < es.len() && (#[trigger] es[i]).id == 0x01 ==> mo_header_data_valid(es[i].data),
        forall|i: int|
            0 <= i < es.len() && (#[trigger] es[i]).id == 0x03 ==> location_data_valid(es[i].data),
    ensures
        spec_mo_collect(es, header, payload, location, extra) is Ok,
    decreases es.len(),
{
    if es.len() > 0 {
        let e = es[0];
        assert forall|i: int|
            0 <= i < es.drop_first().len() && (#[trigger] es.drop_first()[i]).id
                == 0x01 implies mo_header_data_valid(es.drop_first()[i].data) by {
            assert(es.drop_first()[i] == es[i + 1]);
        }
        assert forall|i: int|
            0 <= i < es.drop_first().len() && (#[trigger] es.drop_first()[i]).id
                == 0x03 implies location_data_valid(es.drop_first()[i].data) by {
            assert(es.drop_first()[i] == es[i + 1]);
        }
        if e.id == 0x01 {
            assert(mo_header_data_valid(e.data));
            lemma_mo_collect_ok(
                es.drop_first(),
                Some(spec_mo_header(e.data)),
                payload,
                location,
                extra,
            );
        } else if e.id == 0x02 {
            lemma_mo_collect_ok(es.drop_first(), header, Some(e.data), location, extra);
        } else if e.id == 0x03 {
            assert(location_data_valid(e.data));
            lemma_mo_collect_ok(
                es.drop_first(),
                header,
                payload,
                Some(spec_location(e.data)),
                extra,
            );
        } else {
            lemma_mo_collect_ok(es.drop_first(), header, payload, location, extra.push(e));
        }
    }
}

/// The elements of a synthesised MO frame.
pub open spec fn spec_mo_synth_elements(h: MOHeaderV, payload: Seq<u8>, l: LocationInformation)
    -> Seq<ElementV> {
    seq![
        ElementV { id: 0x01, data: spec_mo_header_bytes(h) },
        ElementV { id: 0x02, data: payload },
        ElementV { id: 0x03, data: spec_location_bytes(l) },
    ]
}

/// Round trip of a synthesised MO frame at the frame level: the frame
/// built around a header, payload and location element parses back to
/// exactly those elements.
pub proof fn lemma_mo_frame_round_trip(h: MOHeaderV, payload: Seq<u8>, l: LocationInformation)
    requires
        mo_header_wf(h),
        payload.len() <= 65487,
    ensures
        spec_parse_frame(spec_encode_frame(spec_mo_synth_elements(h, payload, l))) == Ok::<
            Seq<ElementV>,
            Error,
        >(spec_mo_synth_elements(h, payload, l)),
{
    let es = spec_mo_synth_elements(h, payload, l);
    assert(spec_mo_header_bytes(h).len() == 28);
    assert(spec_location_bytes(l).len() == 11);
    assert(forall|i: int| 0 <= i < es.len() ==> elem_wf(#[trigger] es[i]));
    assert(spec_encode_elements(es).len() <= 0xFFFF) by {
        reveal_with_fuel(spec_encode_elements, 5);
        assert(es.drop_first() =~= seq![es[1], es[2]]);
        assert(es.drop_first().drop_first() =~= seq![es[2]]);
        assert(es.drop_first().drop_first().drop_first() =~= Seq::<ElementV>::empty());
    }
    lemma_parse_encode_frame(es);
}

proof fn lemma_mo_collect_three(hd: Seq<u8>, pd: Seq<u8>, ld: Seq<u8>)
    requires
        mo_header_data_valid(hd),
        location_data_valid(ld),
    ensures
        spec_mo_message(
            seq![
                ElementV { id: 0x01, data: hd },
                ElementV { id: 0x02, data: pd },
                ElementV { id: 0x03, data: ld },
            ],
        ) == Ok::<MessageV, Error>(
            MessageV {
                header: spec_mo_header(hd),
                payload: Some(pd),
                location_information: Some(spec_location(ld)),
                extra: Seq::<ElementV>::empty(),
            },
        ),
{
    let es = seq![
        ElementV { id: 0x01, data: hd },
        ElementV { id: 0x02, data: pd },
        ElementV { id: 0x03, data: ld },
    ];
    let tail1 = es.drop_first();
    let tail2 = tail1.drop_first();
    let tail3 = tail2.drop_first();
    assert(tail1 =~= seq![es[1], es[2]]);
    assert(tail2 =~= seq![es[2]]);
    assert(tail3 =~= Seq::<ElementV>::empty());
    let acc0 = Seq::<ElementV>::empty();
    let h = spec_mo_header(hd);
    let l = spec_location(ld);
    assert(spec_mo_message(es) == spec_mo_collect(tail1, Some(h), None, None, acc0));
    assert(spec_mo_collect(tail1, Some(h), None, None, acc0) == spec_mo_collect(
        tail2,
        Some(h),
        Some(pd),
        None,
        acc0,
    ));
    assert(spec_mo_collect(tail2, Some(h), Some(pd), None, acc0) == spec_mo_collect(
        tail3,
        Some(h),
        Some(pd),
        Some(l),
        acc0,
    ));
    assert(spec_mo_collect(tail3, Some(h), Some(pd), Some(l), acc0) == Ok::<MessageV, Error>(
        MessageV { header: h, payload: Some(pd), location_information: Some(l), extra: acc0 },
    ));
}

/// Round trip of a synthesised MO message at the message level: the
/// elements built from a header, a payload and a location assemble into
/// exactly those values, with no extras.
pub proof fn lemma_mo_message_round_trip(h: MOHeaderV, payload: Seq<u8>, l: LocationInformation)
    requires
        mo_header_wf(h),
    ensures
        spec_mo_message(spec_mo_synth_elements(h, payload, l)) == Ok::<MessageV, Error>(
            MessageV {
                header: h,
                payload: Some(payload),
                location_information: Some(l),
                extra: Seq::<ElementV>::empty(),
            },
        ),
{
    lemma_mo_header_round_trip(h);
    lemma_location_round_trip(l);
    lemma_mo_collect_three(spec_mo_header_bytes(h), payload, spec_location_bytes(l));
}

/// Two MO header elements in one message make decoding fail.
pub proof fn lemma_duplicate_header_rejected(es: Seq<ElementV>, i: int, j: int)
    requires
        0 <= i < j < es.len(),
        es[i].id == 0x01,
        es[j].id == 0x01,
    ensures
        spec_mo_message(es) is Err,
{
    lemma_count_id_two(es, i, j, 0x01);
    lemma_mo_collect_err_dup(es, None, None, None, Seq::empty(), 0x01);
}

/// Two location elements in one message make decoding fail, whatever else
/// the message holds.
pub proof fn lemma_duplicate_location_rejected(es: Seq<ElementV>, i: int, j: int)
    requires
        0 <= i < j < es.len(),
        es[i].id == 0x03,
        es[j].id == 0x03,
    ensures
        spec_mo_message(es) is Err,
{
    lemma_count_id_two(es, i, j, 0x03);
    lemma_mo_collect_err_dup(es, None, None, None, Seq::empty(), 0x03);
}

/// A message with exactly one valid header, at most one payload and at most
/// one valid location decodes, however often unknown ids repeat.
pub proof fn lemma_unknown_duplicates_accepted(es: Seq<ElementV>)
    requires
        count_id(es, 0x01) == 1,
        count_id(es, 0x02) <= 1,
        count_id(es, 0x03) <= 1,
        forall|i: int|
            0 <= i < es.len() && (#[trigger] es[i]).id == 0x01 ==> mo_header_data_valid(es[i].data),
        forall|i: int|
            0 <= i < es.len() && (#[trigger] es[i]).id == 0x03 ==> location_data_valid(es[i].data),
    ensures
        spec_mo_message(es) is Ok,
{
    lemma_mo_collect_ok(es, None, None, None, Seq::empty());
}

} // verus!
