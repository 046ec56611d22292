//! Persisted data model: the rows the gateway stores, as plain values.
//!
//! Row and target ids are 128-bit UUID values; `received` timestamps are
//! seconds since the Unix epoch, naive UTC; the MO time of session keeps the
//! 32-bit wire value. Locations keep the exact wire fields (see
//! [`crate::ie::LocationInformation`]); sequence numbers and references are
//! stored losslessly at their wire widths.

use vstd::prelude::*;

verus! {

/// Processing state of a stored message. `Done` and `Failed` are terminal:
/// a row that reached either is never altered again.
#[derive(Debug, Clone, Copy, PartialEq, Eq, Structural)]
pub enum ProcessingStatus {
    Received,
    Done,
    Failed,
}

impl ProcessingStatus {
    /// Whether this state is terminal.
    pub open spec fn is_terminal(self) -> bool {
        self == ProcessingStatus::Done || self == ProcessingStatus::Failed
    }
}

/// Session status as stored, mirroring the wire statuses one for one.
#[derive(Debug, Clone, Copy, PartialEq, Eq, Structural)]
pub enum SessionStatus {
    Successful,
    SuccessfulTooLarge,
    SuccessfulUnacceptableLocation,
    Timeout,
    TooLarge,
    RfLinkLost,
    ProtocolAnomaly,
    ImeiBlocked,
}

/// The stored status a wire session status maps to.
pub open spec fn session_status_from_wire(value: crate::ie::SessionStatus) -> SessionStatus {
    match value {
        crate::ie::SessionStatus::Successful => SessionStatus::Successful,
        crate::ie::SessionStatus::SuccessfulTooLarge => SessionStatus::SuccessfulTooLarge,
        crate::ie::SessionStatus::SuccessfulUnacceptableLocation => SessionStatus::SuccessfulUnacceptableLocation,
        crate::ie::SessionStatus::Timeout => SessionStatus::Timeout,
        crate::ie::SessionStatus::TooLarge => SessionStatus::TooLarge,
        crate::ie::SessionStatus::RFLinkLost => SessionStatus::RfLinkLost,
        crate::ie::SessionStatus::ProtocolAnomaly => SessionStatus::ProtocolAnomaly,
        crate::ie::SessionStatus::IMEIBlocked => SessionStatus::ImeiBlocked,
    }
}

impl From<crate::ie::SessionStatus> for SessionStatus {
    fn from(value: crate::ie::SessionStatus) -> (r: SessionStatus) {
        match value {
            crate::ie::SessionStatus::Successful => SessionStatus::Successful,
            crate::ie::SessionStatus::SuccessfulTooLarge => SessionStatus::SuccessfulTooLarge,
            crate::ie::SessionStatus::SuccessfulUnacceptableLocation => SessionStatus::SuccessfulUnacceptableLocation,
            crate::ie::SessionStatus::Timeout => SessionStatus::Timeout,
            crate::ie::SessionStatus::TooLarge => SessionStatus::TooLarge,
            crate::ie::SessionStatus::RFLinkLost => SessionStatus::RfLinkLost,
            crate::ie::SessionStatus::ProtocolAnomaly => SessionStatus::ProtocolAnomaly,
            crate::ie::SessionStatus::IMEIBlocked => SessionStatus::ImeiBlocked,
        }
    }
}

impl vstd::std_specs::convert::FromSpecImpl<crate::ie::SessionStatus> for SessionStatus {
    open spec fn obeys_from_spec() -> bool {
        true
    }

    open spec fn from_spec(v: crate::ie::SessionStatus) -> SessionStatus {
        session_status_from_wire(v)
    }
}

impl SessionStatus {
    /// The three successful statuses are the ones forwarded to tenants.
    pub open spec fn is_successful(self) -> bool {
        self == SessionStatus::Successful || self == SessionStatus::SuccessfulTooLarge || self
            == SessionStatus::SuccessfulUnacceptableLocation
    }
}

/// Delivery status of an MT message, as stored once delivery concluded.
#[derive(Debug, Clone, Copy, PartialEq, Eq, Structural)]
pub enum MessageStatus {
    Delivered,
    InvalidImei,
    PayloadSizeExceeded,
    MessageQueueFull,
    ResourcesUnavailable,
}

/// A stored mobile-originated message.
#[derive(Debug)]
pub struct MOMessage {
    pub id: u128,
    pub cdr_reference: u32,
    pub imei: Vec<u8>,
    pub session_status: SessionStatus,
    pub mo_msn: u16,
    pub mt_msn: u16,
    pub time_of_session: u32,
    pub location: Option<crate::ie::LocationInformation>,
    pub data: Option<Vec<u8>>,
    pub processing_status: ProcessingStatus,
    pub received: i64,
}

/// Mathematical value of an [`MOMessage`] row.
pub struct MOMessageV {
    pub id: u128,
    pub cdr_reference: u32,
    pub imei: Seq<u8>,
    pub session_status: SessionStatus,
    pub mo_msn: u16,
    pub mt_msn: u16,
    pub time_of_session: u32,
    pub location: Option<crate::ie::LocationInformation>,
    pub data: Option<Seq<u8>>,
    pub processing_status: ProcessingStatus,
    pub received: i64,
}

impl View for MOMessage {
    type V = MOMessageV;

    open spec fn view(&self) -> MOMessageV {
        MOMessageV {
            id: self.id,
            cdr_reference: self.cdr_reference,
            imei: self.imei@,
            session_status: self.session_status,
            mo_msn: self.mo_msn,
            mt_msn: self.mt_msn,
            time_of_session: self.time_of_session,
            location: self.location,
            data: crate::ie::view_opt_bytes(self.data),
            processing_status: self.processing_status,
            received: self.received,
        }
    }
}

/// A stored mobile-terminated message. `priority` is 0 when the submission
/// carried none, else 1 to 5.
#[derive(Debug)]
pub struct MTMessage {
    pub id: u128,
    pub imei: Vec<u8>,
    pub priority: u8,
    pub data: Vec<u8>,
    pub message_status: Option<MessageStatus>,
    pub processing_status: ProcessingStatus,
    pub received: i64,
    pub target: u128,
}

/// Mathematical value of an [`MTMessage`] row.
pub struct MTMessageV {
    pub id: u128,
    pub imei: Seq<u8>,
    pub priority: u8,
    pub data: Seq<u8>,
    pub message_status: Option<MessageStatus>,
    pub processing_status: ProcessingStatus,
    pub received: i64,
    pub target: u128,
}

impl View for MTMessage {
    type V = MTMessageV;

    open spec fn view(&self) -> MTMessageV {
        MTMessageV {
            id: self.id,
            imei: self.imei@,
            priority: self.priority,
            data: self.data@,
            message_status: self.message_status,
            processing_status: self.processing_status,
            received: self.received,
            target: self.target,
        }
    }
}

/// A tenant endpoint: webhook URL and shared HMAC secret (at least 16
/// bytes when provisioned).
#[derive(Debug)]
pub struct Target {
    pub id: u128,
    pub hmac_key: Vec<u8>,
    pub endpoint: String,
}

/// Mathematical value of a [`Target`] row.
pub struct TargetV {
    pub id: u128,
    pub hmac_key: Seq<u8>,
    pub endpoint: Seq<char>,
}

impl View for Target {
    type V = TargetV;

    open spec fn view(&self) -> TargetV {
        TargetV { id: self.id, hmac_key: self.hmac_key@, endpoint: self.endpoint@ }
    }
}

/// A provisioned device: its IMEI and the target its traffic belongs to.
#[derive(Debug)]
pub struct Device {
    pub id: u128,
    pub imei: Vec<u8>,
    pub target: u128,
}

/// Mathematical value of a [`Device`] row.
pub struct DeviceV {
    pub id: u128,
    pub imei: Seq<u8>,
    pub target: u128,
}

impl View for Device {
    type V = DeviceV;

    open spec fn view(&self) -> DeviceV {
        DeviceV { id: self.id, imei: self.imei@, target: self.target }
    }
}

/// Relies on uuid::Uuid::new_v4 (through as_u128) for fresh random row
/// ids; nothing is assumed of the value.
#[verifier::external_body]
pub(crate) fn new_row_id() -> u128 {
    uuid::Uuid::new_v4().as_u128()
}

} // verus!
