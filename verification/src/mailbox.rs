//! Mailboxes: the bounded channels through which frames reach a session.

use crate::chat::ChatMessage;
use tokio::sync::mpsc::error::TrySendError;
use tokio::sync::mpsc::Sender;
use vstd::prelude::*;

verus! {

/// The sending half of a bounded `tokio` channel. Nothing inside it is
/// visible here: a value is stored, handed on and called through the
/// functions below.
#[verifier::external_type_specification]
#[verifier::external_body]
#[verifier::reject_recursive_types(T)]
pub struct ExSender<T>(Sender<T>);

/// The number of frames that a session's mailbox holds before further frames
/// are dropped.
pub const MAILBOX_CAPACITY: usize = 100;

/// How an attempt to put a frame into a mailbox ended.
#[derive(Clone, Copy, Debug, PartialEq, Eq, Structural)]
pub enum Delivery {
    /// The frame is in the mailbox.
    Sent,
    /// The mailbox was full: the frame is dropped.
    Full,
    /// The session has gone: the frame is dropped.
    Closed,
}

/// Calls `tokio::sync::mpsc::Sender::try_send`, which never waits. The
/// outcome depends on what the channel holds at that moment, so nothing is
/// claimed of it.
#[verifier::external_body]
pub(crate) fn try_deliver(mailbox: &Sender<ChatMessage>, frame: ChatMessage) -> (r: Delivery) {
    match mailbox.try_send(frame) {
        Ok(()) => Delivery::Sent,
        Err(TrySendError::Full(_)) => Delivery::Full,
        Err(TrySendError::Closed(_)) => Delivery::Closed,
    }
}

/// Calls `tokio::sync::mpsc::Sender::is_closed`. The answer depends on
/// whether the receiving half still exists, so nothing is claimed of it.
#[verifier::external_body]
pub(crate) fn mailbox_closed(mailbox: &Sender<ChatMessage>) -> (r: bool) {
    mailbox.is_closed()
}

} // verus!
