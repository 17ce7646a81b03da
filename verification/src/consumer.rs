//! The worker that drains the queue: what it makes of a delivery, and what
//! it does after one.

use crate::json::{json_parse, JsonValue};
use crate::store::{room_message_of_tree, room_message_view, DirectMessage, RoomMessage};
use crate::wire::as_stored_message;
use vstd::prelude::*;

verus! {

/// What a consumer of the queue does next.
#[derive(Clone, Copy, Debug, PartialEq, Eq, Structural)]
pub enum ConsumerStep {
    /// Acknowledge the delivery, so that it is not delivered again.
    Acknowledge,
    /// Wait that many milliseconds before the next delivery.
    Pause { millis: u64 },
}

/// What a consumer does after a delivery: `received` says whether a
/// delivery came at all. A delivery is acknowledged whether or not it could
/// be processed; a failure to receive is followed by a pause of a second.
pub fn after_delivery(received: bool) -> (r: ConsumerStep)
    ensures
        r == if received {
            ConsumerStep::Acknowledge
        } else {
            ConsumerStep::Pause { millis: 1000 }
        },
{
    if received {
        ConsumerStep::Acknowledge
    } else {
        ConsumerStep::Pause { millis: 1000 }
    }
}

/// What handles the deliveries of one queue: it reads the message that a
/// delivery holds, if it holds one.
pub trait MessageHandler {
    type Message;

    fn process_message(&self, data: &str) -> Option<Self::Message>;
}

/// The handler of the queue of direct messages.
#[derive(Clone, Copy, Debug, PartialEq, Eq, Structural)]
pub struct DirectMessageHandler {}

/// The handler of the queue of room messages.
#[derive(Clone, Copy, Debug, PartialEq, Eq, Structural)]
pub struct RoomMessageHandler {}

impl MessageHandler for DirectMessageHandler {
    type Message = DirectMessage;

    /// The direct message that a delivery holds: its text must be a JSON
    /// document that is a stored message.
    fn process_message(&self, data: &str) -> (r: Option<DirectMessage>)
        ensures
            match json_parse(data@) {
                Some(tree) => match r {
                    Some(message) => as_stored_message(tree) == Some(message@),
                    None => as_stored_message(tree) is None,
                },
                None => r is None,
            },
    {
        crate::store::read_queued_dm(data)
    }
}

impl MessageHandler for RoomMessageHandler {
    type Message = RoomMessage;

    /// The room message that a delivery holds: its text must be a JSON
    /// document that is a stored room message.
    fn process_message(&self, data: &str) -> (r: Option<RoomMessage>)
        ensures
            match json_parse(data@) {
                Some(tree) => room_message_view(r) == room_message_of_tree(tree),
                None => r is None,
            },
    {
        match JsonValue::parse(data) {
            Some(value) => RoomMessage::from_json(&value),
            None => None,
        }
    }
}

} // verus!
