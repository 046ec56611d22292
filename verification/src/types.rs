//! Webhook-facing value types: the statuses a tenant sees, and their
//! mapping from the stored model. The JSON envelope around them is built at
//! the I/O edge.

use vstd::prelude::*;

verus! {

/// Session status as reported in the MO webhook. Only sessions that carried
/// data successfully are forwarded.
#[derive(Debug, Clone, Copy, PartialEq, Eq, Structural)]
pub enum SessionStatus {
    Normal,
    TooLarge,
    UnacceptableLocation,
}

/// Delivery status as reported in the MT status webhook.
#[derive(Debug, Clone, Copy, PartialEq, Eq, Structural)]
pub enum MessageStatus {
    Delivered,
    InvalidIMEI,
    PayloadSizeExceeded,
    MessageQueueFull,
    ResourcesUnavailable,
}

/// The webhook status of a stored session status; `None` for the statuses
/// that are never forwarded.
pub open spec fn spec_webhook_session_status(s: crate::models::SessionStatus) -> Option<
    SessionStatus,
> {
    match s {
        crate::models::SessionStatus::Successful => Some(SessionStatus::Normal),
        crate::models::SessionStatus::SuccessfulTooLarge => Some(SessionStatus::TooLarge),
        crate::models::SessionStatus::SuccessfulUnacceptableLocation => Some(
            SessionStatus::UnacceptableLocation,
        ),
        _ => None,
    }
}

/// Maps a stored session status to its webhook form, where one exists.
pub fn webhook_session_status(s: &crate::models::SessionStatus) -> (r: Option<SessionStatus>)
    ensures
        r == spec_webhook_session_status(*s),
{
    match s {
        crate::models::SessionStatus::Successful => Some(SessionStatus::Normal),
        crate::models::SessionStatus::SuccessfulTooLarge => Some(SessionStatus::TooLarge),
        crate::models::SessionStatus::SuccessfulUnacceptableLocation => Some(
            SessionStatus::UnacceptableLocation,
        ),
        _ => None,
    }
}

/// The webhook status of a stored delivery status.
pub open spec fn spec_webhook_message_status(s: crate::models::MessageStatus) -> MessageStatus {
    match s {
        crate::models::MessageStatus::Delivered => MessageStatus::Delivered,
        crate::models::MessageStatus::InvalidImei => MessageStatus::InvalidIMEI,
        crate::models::MessageStatus::PayloadSizeExceeded => MessageStatus::PayloadSizeExceeded,
        crate::models::MessageStatus::MessageQueueFull => MessageStatus::MessageQueueFull,
        crate::models::MessageStatus::ResourcesUnavailable => MessageStatus::ResourcesUnavailable,
    }
}

/// Maps a stored delivery status to its webhook form.
pub fn webhook_message_status(s: &crate::models::MessageStatus) -> (r: MessageStatus)
    ensures
        r == spec_webhook_message_status(*s),
{
    match s {
        crate::models::MessageStatus::Delivered => MessageStatus::Delivered,
        crate::models::MessageStatus::InvalidImei => MessageStatus::InvalidIMEI,
        crate::models::MessageStatus::PayloadSizeExceeded => MessageStatus::PayloadSizeExceeded,
        crate::models::MessageStatus::MessageQueueFull => MessageStatus::MessageQueueFull,
        crate::models::MessageStatus::ResourcesUnavailable => MessageStatus::ResourcesUnavailable,
    }
}

} // verus!
