//! The persistence front: the requests that the gateway hands to the
//! persistence service, the retry rule, and what the service's answers become.

use crate::chat::{
    AckView, MessageAckResponse, MessageStatus, PaginatedMessagesResponse, ResponseDirectMessage,
    StatusView,
};
use crate::message_id::{spec_variant, spec_version, uuid_text, MessageId};
use crate::wire::id_of_text;
use crate::text::{option_view, outcome_view, owned, prefixed};
use vstd::prelude::*;

verus! {

/// A request to the persistence actor.
#[derive(Clone, Debug, PartialEq, Eq)]
pub enum PersistenceMessage {
    PersistDirectMessage {
        sender_id: i32,
        receiver_id: i32,
        message_content: String,
        message_id: MessageId,
        timestamp: i64,
    },
    GetPaginatedMessages { message_id: Option<MessageId>, conversation_id: String },
    PersistRoomMessage {
        room_id: String,
        sender_id: i32,
        message_content: String,
        message_id: MessageId,
        timestamp: i64,
    },
    SyncMessages { conversation_id: String, message_id: MessageId },
}

/// The mathematical reading of a [`PersistenceMessage`].
pub enum PersistenceView {
    PersistDirectMessage {
        sender_id: i32,
        receiver_id: i32,
        message_content: Seq<char>,
        message_id: MessageId,
        timestamp: i64,
    },
    GetPaginatedMessages { message_id: Option<MessageId>, conversation_id: Seq<char> },
    PersistRoomMessage {
        room_id: Seq<char>,
        sender_id: i32,
        message_content: Seq<char>,
        message_id: MessageId,
        timestamp: i64,
    },
    SyncMessages { conversation_id: Seq<char>, message_id: MessageId },
}

impl View for PersistenceMessage {
    type V = PersistenceView;

    open spec fn view(&self) -> PersistenceView {
        match self {
            PersistenceMessage::PersistDirectMessage {
                sender_id,
                receiver_id,
                message_content,
                message_id,
                timestamp,
            } => PersistenceView::PersistDirectMessage {
                sender_id: *sender_id,
                receiver_id: *receiver_id,
                message_content: message_content@,
                message_id: *message_id,
                timestamp: *timestamp,
            },
            PersistenceMessage::GetPaginatedMessages { message_id, conversation_id } => {
                PersistenceView::GetPaginatedMessages {
                    message_id: *message_id,
                    conversation_id: conversation_id@,
                }
            },
            PersistenceMessage::PersistRoomMessage {
                room_id,
                sender_id,
                message_content,
                message_id,
                timestamp,
            } => PersistenceView::PersistRoomMessage {
                room_id: room_id@,
                sender_id: *sender_id,
                message_content: message_content@,
                message_id: *message_id,
                timestamp: *timestamp,
            },
            PersistenceMessage::SyncMessages { conversation_id, message_id } => {
                PersistenceView::SyncMessages {
                    conversation_id: conversation_id@,
                    message_id: *message_id,
                }
            },
        }
    }
}

/// What the sender of a message learns of its persistence: the reading of an
/// answer that never came (`None`), of a success, or of a failure with its
/// reason.
pub open spec fn status_of_reply(reply: Option<Result<(), String>>) -> StatusView {
    match reply {
        Some(Ok(())) => StatusView::Persisted,
        Some(Err(reason)) => StatusView::Failed(reason@),
        None => StatusView::Failed("Persistence timeout"@),
    }
}

/// The acknowledgement for a message once the persistence actor has answered,
/// or once its answer is known never to come (`None`). The status reflects
/// persistence alone.
pub fn ack_for_reply(message_id: MessageId, timestamp: i64, reply: Option<Result<(), String>>) -> (r:
    MessageAckResponse)
    ensures
        r@ == (AckView { message_id, timestamp, status: status_of_reply(reply) }),
{
    let status = match reply {
        Some(Ok(())) => MessageStatus::Persisted,
        Some(Err(reason)) => MessageStatus::Failed(reason),
        None => MessageStatus::Failed(owned("Persistence timeout")),
    };
    MessageAckResponse { message_id, timestamp, status }
}

/// The acknowledgement for a message once the persistence actor has answered,
/// or once its answer is known never to come, stamped with the time at
/// which it is made: whatever the clock reads, the rest is as in
/// [`ack_for_reply`].
pub fn ack_for_reply_now(message_id: MessageId, reply: Option<Result<(), String>>) -> (r:
    MessageAckResponse)
    ensures
        r@ == (AckView { message_id, timestamp: r.timestamp, status: status_of_reply(reply) }),
{
    ack_for_reply(message_id, crate::clock::now_millis(), reply)
}

/// The acknowledgement for a message that could not even be handed to the
/// persistence actor; `error` says why.
pub fn ack_for_enqueue_failure(message_id: MessageId, timestamp: i64, error: &str) -> (r:
    MessageAckResponse)
    ensures
        r@ == (AckView {
            message_id,
            timestamp,
            status: StatusView::Failed("Persistence error: "@ + error@),
        }),
{
    MessageAckResponse {
        message_id,
        timestamp,
        status: MessageStatus::Failed(prefixed("Persistence error: ", error)),
    }
}

/// How many times a write is tried again after its first failure.
pub const MAX_RETRIES: u32 = 3;

/// The pause before the first retry, in milliseconds; the pause before the
/// n-th retry is n times as long.
pub const BACKOFF_MILLIS: u64 = 100;

/// What to do after a failed attempt.
#[derive(Clone, Copy, Debug, PartialEq, Eq, Structural)]
pub enum RetryStep {
    /// Try again after that many milliseconds.
    Wait { millis: u64 },
    /// Give the write up: the last error is the outcome.
    GiveUp,
}

/// The count of failed attempts of one write.
#[derive(Clone, Copy, Debug, PartialEq, Eq, Structural)]
pub struct Retry {
    pub attempts: u64,
    pub max_retries: u32,
}

impl Retry {
    /// The state after one more failed attempt. Once the write was given
    /// up, further failures change nothing.
    pub open spec fn failed(self) -> Retry {
        if self.attempts > self.max_retries {
            self
        } else {
            Retry { attempts: (self.attempts + 1) as u64, max_retries: self.max_retries }
        }
    }

    /// What follows the failure that led to this state: a pause of
    /// `BACKOFF_MILLIS` times the number of failures so far, as long as
    /// retries are left.
    pub open spec fn step(self) -> RetryStep {
        if self.attempts <= self.max_retries {
            RetryStep::Wait { millis: (BACKOFF_MILLIS * self.attempts) as u64 }
        } else {
            RetryStep::GiveUp
        }
    }

    /// The state after `n` failures in a row, from the start.
    pub open spec fn after(max_retries: u32, n: nat) -> Retry
        decreases n,
    {
        if n == 0 {
            Retry { attempts: 0, max_retries }
        } else {
            Retry::after(max_retries, (n - 1) as nat).failed()
        }
    }

    /// A write that has not been tried yet.
    pub fn new(max_retries: u32) -> (r: Retry)
        ensures
            r == Retry::after(max_retries, 0),
    {
        Retry { attempts: 0, max_retries }
    }

    /// Records a failed attempt and says what follows.
    pub fn on_failure(&mut self) -> (r: RetryStep)
        ensures
            *final(self) == old(self).failed(),
            r == final(self).step(),
    {
        if self.attempts <= self.max_retries as u64 {
            self.attempts = self.attempts + 1;
        }
        if self.attempts <= self.max_retries as u64 {
            RetryStep::Wait { millis: BACKOFF_MILLIS * self.attempts }
        } else {
            RetryStep::GiveUp
        }
    }
}

/// A write is tried at most `max_retries + 1` times: the n-th failure in a
/// row is followed by a pause of n times `BACKOFF_MILLIS` while n is at most
/// `max_retries`, and by giving up from then on.
pub proof fn lemma_retry_schedule(max_retries: u32, n: nat)
    requires
        n >= 1,
    ensures
        Retry::after(max_retries, n).max_retries == max_retries,
        Retry::after(max_retries, n).attempts == if n <= max_retries + 1 {
            n
        } else {
            (max_retries + 1) as nat
        },
        Retry::after(max_retries, n).step() == if n <= max_retries {
            RetryStep::Wait { millis: (BACKOFF_MILLIS * n) as u64 }
        } else {
            RetryStep::GiveUp
        },
    decreases n,
{
    if n > 1 {
        lemma_retry_schedule(max_retries, (n - 1) as nat);
    } else {
        assert(Retry::after(max_retries, 0) == Retry { attempts: 0, max_retries });
    }
    let state = Retry::after(max_retries, n);
    assert(state == Retry::after(max_retries, (n - 1) as nat).failed());
    assert(BACKOFF_MILLIS == 100);
    if n <= max_retries {
        assert(state.attempts == n);
        assert(BACKOFF_MILLIS * state.attempts == BACKOFF_MILLIS * n);
        assert(state.step() == RetryStep::Wait { millis: (BACKOFF_MILLIS * n) as u64 });
    } else {
        assert(state.attempts == max_retries + 1);
        assert(state.step() == RetryStep::GiveUp);
    }
}

/// The request to write a direct message, as the persistence service takes
/// it.
#[derive(Clone, Debug, PartialEq, Eq)]
pub struct WriteDmRequest {
    pub sender_id: i32,
    pub receiver_id: i32,
    pub message: String,
    pub message_id: String,
    pub timestamp: i64,
}

/// The request to write a room message.
#[derive(Clone, Debug, PartialEq, Eq)]
pub struct WriteRoomMessageRequest {
    pub room_id: String,
    pub from: i32,
    pub content: String,
    pub message_id: String,
    pub timestamp: i64,
}

/// The service's answer to a write.
#[derive(Clone, Debug, PartialEq, Eq)]
pub struct WriteResponse {
    pub success: bool,
    pub error_message: String,
}

/// The request for a page of history. An empty cursor asks for the most
/// recent page.
#[derive(Clone, Debug, PartialEq, Eq)]
pub struct GetPaginatedMessagesRequest {
    pub conversation_id: String,
    pub cursor_message_id: String,
}

/// A message as the service stores and returns it.
#[derive(Clone, Debug, PartialEq, Eq)]
pub struct StoredMessage {
    pub conversation_id: String,
    pub message_id: String,
    pub sender_id: i32,
    pub recipient_id: i32,
    pub message_text: String,
    pub created_at: i64,
}

/// The service's answer to a request for a page. An empty `next_cursor`
/// says that no further page follows.
#[derive(Clone, Debug, PartialEq, Eq)]
pub struct GetPaginatedMessagesResponse {
    pub success: bool,
    pub error_message: String,
    pub messages: Vec<StoredMessage>,
    pub next_cursor: String,
}

/// The request for the messages of a conversation after a given one.
#[derive(Clone, Debug, PartialEq, Eq)]
pub struct SyncMessagesRequest {
    pub conversation_id: String,
    pub last_message_id: String,
}

/// The service's answer to a request to synchronise.
#[derive(Clone, Debug, PartialEq, Eq)]
pub struct SyncMessagesResponse {
    pub success: bool,
    pub error_message: String,
    pub messages: Vec<StoredMessage>,
}

/// A call of the persistence service.
#[derive(Clone, Debug, PartialEq, Eq)]
pub enum ServiceCall {
    WriteDm(WriteDmRequest),
    WriteRoomMessage(WriteRoomMessageRequest),
    GetPaginatedMessages(GetPaginatedMessagesRequest),
    SyncMessages(SyncMessagesRequest),
}

/// The call that serves a request to the persistence actor: every field is
/// handed on, identifiers as their hyphenated text, and a missing cursor as
/// the empty text.
pub open spec fn is_call_for(call: ServiceCall, message: PersistenceView) -> bool {
    match message {
        PersistenceView::PersistDirectMessage {
            sender_id,
            receiver_id,
            message_content,
            message_id,
            timestamp,
        } => call matches ServiceCall::WriteDm(q) && q.sender_id == sender_id && q.receiver_id
            == receiver_id && q.message@ == message_content && q.message_id@ == uuid_text(
            message_id.value,
        ) && q.timestamp == timestamp,
        PersistenceView::PersistRoomMessage {
            room_id,
            sender_id,
            message_content,
            message_id,
            timestamp,
        } => call matches ServiceCall::WriteRoomMessage(q) && q.room_id@ == room_id && q.from
            == sender_id && q.content@ == message_content && q.message_id@ == uuid_text(
            message_id.value,
        ) && q.timestamp == timestamp,
        PersistenceView::GetPaginatedMessages { message_id, conversation_id } => call matches ServiceCall::GetPaginatedMessages(
            q,
        ) && q.conversation_id@ == conversation_id && q.cursor_message_id@ == (match message_id {
            Some(id) => uuid_text(id.value),
            None => Seq::empty(),
        }),
        PersistenceView::SyncMessages { conversation_id, message_id } => call matches ServiceCall::SyncMessages(
            q,
        ) && q.conversation_id@ == conversation_id && q.last_message_id@ == uuid_text(
            message_id.value,
        ),
    }
}

/// What the sender of a write learns: the service's refusal with its
/// reason, or the failure of the call after the last attempt.
pub open spec fn write_outcome(result: Result<WriteResponse, String>) -> Result<(), Seq<char>> {
    match result {
        Ok(response) => if response.success {
            Ok(())
        } else {
            Err(response.error_message@)
        },
        Err(e) => Err("gRPC call failed: "@ + e@),
    }
}

/// The message that a stored one becomes in a history reply, given the
/// identifier that stands for its own.
pub open spec fn response_of(stored: StoredMessage, message_id: MessageId) -> crate::chat::StoredMessageView {
    crate::chat::StoredMessageView {
        conversation_id: stored.conversation_id@,
        message_id,
        sender_id: stored.sender_id,
        recipient_id: stored.recipient_id,
        message_text: stored.message_text@,
        created_at: stored.created_at,
    }
}

/// Whether `id` may stand for the identifier that a stored message carries
/// as text: the identifier that the text spells, or, where it spells none, a
/// random one.
pub open spec fn stands_for(id: MessageId, text: Seq<char>) -> bool {
    match id_of_text(text) {
        Some(spelled) => id == spelled,
        None => spec_version(id.value) == 4 && spec_variant(id.value) == 2,
    }
}

/// Whether `messages` are the stored messages `stored` as a history reply
/// carries them, one for one and in order.
pub open spec fn are_responses_of(
    messages: Seq<ResponseDirectMessage>,
    stored: Seq<StoredMessage>,
) -> bool {
    messages.len() == stored.len() && forall|i: int|
        0 <= i < stored.len() ==> (#[trigger] messages[i])@ == response_of(
            stored[i],
            messages[i].message_id,
        ) && stands_for(messages[i].message_id, stored[i].message_id@)
}

/// The cursor of a page: none where the service's cursor is empty.
pub open spec fn page_cursor(next_cursor: Seq<char>) -> Option<Seq<char>> {
    if next_cursor.len() == 0 {
        None
    } else {
        Some(next_cursor)
    }
}

/// The persistence actor: the one place from which the persistence service
/// is called.
pub struct PersistenceActor {}

impl PersistenceActor {
    /// The call of the service that serves a request.
    pub fn call_for(message: &PersistenceMessage) -> (r: ServiceCall)
        ensures
            is_call_for(r, message@),
    {
        match message {
            PersistenceMessage::PersistDirectMessage {
                sender_id,
                receiver_id,
                message_content,
                message_id,
                timestamp,
            } => ServiceCall::WriteDm(
                WriteDmRequest {
                    sender_id: *sender_id,
                    receiver_id: *receiver_id,
                    message: message_content.clone(),
                    message_id: message_id.to_text(),
                    timestamp: *timestamp,
                },
            ),
            PersistenceMessage::PersistRoomMessage {
                room_id,
                sender_id,
                message_content,
                message_id,
                timestamp,
            } => ServiceCall::WriteRoomMessage(
                WriteRoomMessageRequest {
                    room_id: room_id.clone(),
                    from: *sender_id,
                    content: message_content.clone(),
                    message_id: message_id.to_text(),
                    timestamp: *timestamp,
                },
            ),
            PersistenceMessage::GetPaginatedMessages { message_id, conversation_id } => {
                let cursor_message_id = match message_id {
                    Some(id) => id.to_text(),
                    None => String::new(),
                };
                ServiceCall::GetPaginatedMessages(
                    GetPaginatedMessagesRequest {
                        conversation_id: conversation_id.clone(),
                        cursor_message_id,
                    },
                )
            },
            PersistenceMessage::SyncMessages { conversation_id, message_id } => {
                ServiceCall::SyncMessages(
                    SyncMessagesRequest {
                        conversation_id: conversation_id.clone(),
                        last_message_id: message_id.to_text(),
                    },
                )
            },
        }
    }

    /// `PersistDirectMessage`: what the sender learns from the outcome of
    /// the write with its retries.
    pub fn handle_persist_direct_message(result: Result<WriteResponse, String>) -> (r: Result<
        (),
        String,
    >)
        ensures
            outcome_view(r) == write_outcome(result),
    {
        match result {
            Ok(response) => {
                if response.success {
                    Ok(())
                } else {
                    Err(response.error_message)
                }
            },
            Err(e) => Err(prefixed("gRPC call failed: ", e.as_str())),
        }
    }

    /// `PersistRoomMessage`: what the sender learns from the outcome of the
    /// write with its retries.
    pub fn handle_persist_room_message(result: Result<WriteResponse, String>) -> (r: Result<
        (),
        String,
    >)
        ensures
            outcome_view(r) == write_outcome(result),
    {
        PersistenceActor::handle_persist_direct_message(result)
    }

    /// The stored messages as a history reply carries them. A message whose
    /// identifier cannot be read gets a random one.
    pub fn responses(stored: Vec<StoredMessage>) -> (r: Vec<ResponseDirectMessage>)
        ensures
            are_responses_of(r@, stored@),
    {
        let mut out: Vec<ResponseDirectMessage> = Vec::new();
        let mut i: usize = 0;
        while i < stored.len()
            invariant
                i <= stored.len(),
                out@.len() == i,
                forall|j: int|
                    0 <= j < i ==> (#[trigger] out@[j])@ == response_of(
                        stored@[j],
                        out@[j].message_id,
                    ) && stands_for(out@[j].message_id, stored@[j].message_id@),
            decreases stored.len() - i,
        {
            let message = &stored[i];
            let message_id = match MessageId::parse(message.message_id.as_str()) {
                Ok(id) => id,
                Err(_) => MessageId::random(),
            };
            out.push(
                ResponseDirectMessage {
                    conversation_id: message.conversation_id.clone(),
                    message_id,
                    sender_id: message.sender_id,
                    recipient_id: message.recipient_id,
                    message_text: message.message_text.clone(),
                    created_at: message.created_at,
                },
            );
            i += 1;
        }
        out
    }

    /// `GetPaginatedMessages`: the page that the requester gets, or the
    /// reason why there is none. The page has a cursor, and more to come,
    /// exactly if the service's cursor is not empty.
    pub fn handle_get_paginated_messages(result: Result<GetPaginatedMessagesResponse, String>) -> (r:
        Result<PaginatedMessagesResponse, String>)
        ensures
            match result {
                Ok(response) => if response.success {
                    r matches Ok(page) && are_responses_of(page.messages@, response.messages@)
                        && option_view(page.next_cursor) == page_cursor(response.next_cursor@)
                        && page.has_more == (response.next_cursor@.len() != 0)
                } else {
                    r matches Err(e) && e@ == response.error_message@
                },
                Err(failure) => r matches Err(e) && e@ == "gRPC call failed: "@ + failure@,
            },
    {
        match result {
            Ok(response) => {
                if response.success {
                    let messages = PersistenceActor::responses(response.messages);
                    let next_cursor = if response.next_cursor.as_str().is_empty() {
                        None
                    } else {
                        Some(response.next_cursor)
                    };
                    let has_more = next_cursor.is_some();
                    Ok(PaginatedMessagesResponse { messages, next_cursor, has_more })
                } else {
                    Err(response.error_message)
                }
            },
            Err(failure) => Err(prefixed("gRPC call failed: ", failure.as_str())),
        }
    }

    /// `SyncMessages`: the messages that the requester gets, or the reason
    /// why there are none.
    pub fn handle_sync_messages(result: Result<SyncMessagesResponse, String>) -> (r: Result<
        Vec<ResponseDirectMessage>,
        String,
    >)
        ensures
            match result {
                Ok(response) => if response.success {
                    r matches Ok(messages) && are_responses_of(messages@, response.messages@)
                } else {
                    r matches Err(e) && e@ == response.error_message@
                },
                Err(failure) => r matches Err(e) && e@ == "gRPC call failed: "@ + failure@,
            },
    {
        match result {
            Ok(response) => {
                if response.success {
                    Ok(PersistenceActor::responses(response.messages))
                } else {
                    Err(response.error_message)
                }
            },
            Err(failure) => Err(prefixed("gRPC call failed: ", failure.as_str())),
        }
    }
}

} // verus!
