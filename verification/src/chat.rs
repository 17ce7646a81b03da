//! The frames exchanged with clients and the values they carry.

use crate::message_id::MessageId;
use vstd::prelude::*;

verus! {

/// Whether a user is reachable.
#[derive(Clone, Copy, Debug, PartialEq, Eq, Structural)]
pub enum PresenceStatus {
    Online,
    Offline,
}

/// What became of a message that a client sent.
#[derive(Clone, Debug, PartialEq, Eq)]
pub enum MessageStatus {
    Delivered,
    Persisted,
    Failed(String),
}

/// The mathematical reading of a [`MessageStatus`].
pub enum StatusView {
    Delivered,
    Persisted,
    Failed(Seq<char>),
}

impl View for MessageStatus {
    type V = StatusView;

    open spec fn view(&self) -> StatusView {
        match self {
            MessageStatus::Delivered => StatusView::Delivered,
            MessageStatus::Persisted => StatusView::Persisted,
            MessageStatus::Failed(reason) => StatusView::Failed(reason@),
        }
    }
}

impl MessageStatus {
    /// A copy with the same reading.
    pub fn duplicate(&self) -> (r: MessageStatus)
        ensures
            r@ == self@,
    {
        match self {
            MessageStatus::Delivered => MessageStatus::Delivered,
            MessageStatus::Persisted => MessageStatus::Persisted,
            MessageStatus::Failed(reason) => MessageStatus::Failed(reason.clone()),
        }
    }
}

/// The router's answer to a sender: the identifier of the message, the time
/// of the answer and the outcome of persisting it.
#[derive(Clone, Debug, PartialEq, Eq)]
pub struct MessageAckResponse {
    pub message_id: MessageId,
    pub timestamp: i64,
    pub status: MessageStatus,
}

/// The mathematical reading of a [`MessageAckResponse`].
pub struct AckView {
    pub message_id: MessageId,
    pub timestamp: i64,
    pub status: StatusView,
}

impl View for MessageAckResponse {
    type V = AckView;

    open spec fn view(&self) -> AckView {
        AckView { message_id: self.message_id, timestamp: self.timestamp, status: self.status@ }
    }
}

/// One stored message of a conversation, as history replies carry it.
#[derive(Clone, Debug, PartialEq, Eq)]
pub struct ResponseDirectMessage {
    pub conversation_id: String,
    pub message_id: MessageId,
    pub sender_id: i32,
    pub recipient_id: i32,
    pub message_text: String,
    pub created_at: i64,
}

/// The mathematical reading of a [`ResponseDirectMessage`].
pub struct StoredMessageView {
    pub conversation_id: Seq<char>,
    pub message_id: MessageId,
    pub sender_id: i32,
    pub recipient_id: i32,
    pub message_text: Seq<char>,
    pub created_at: i64,
}

impl View for ResponseDirectMessage {
    type V = StoredMessageView;

    open spec fn view(&self) -> StoredMessageView {
        StoredMessageView {
            conversation_id: self.conversation_id@,
            message_id: self.message_id,
            sender_id: self.sender_id,
            recipient_id: self.recipient_id,
            message_text: self.message_text@,
            created_at: self.created_at,
        }
    }
}

impl ResponseDirectMessage {
    /// A copy with the same reading.
    pub fn duplicate(&self) -> (r: ResponseDirectMessage)
        ensures
            r@ == self@,
    {
        ResponseDirectMessage {
            conversation_id: self.conversation_id.clone(),
            message_id: self.message_id,
            sender_id: self.sender_id,
            recipient_id: self.recipient_id,
            message_text: self.message_text.clone(),
            created_at: self.created_at,
        }
    }
}

/// The readings of a list of stored messages, in order.
pub open spec fn message_views(messages: Seq<ResponseDirectMessage>) -> Seq<StoredMessageView> {
    Seq::new(messages.len(), |i: int| messages[i]@)
}

/// A copy of a list of stored messages with the same readings.
pub fn duplicate_messages(messages: &Vec<ResponseDirectMessage>) -> (r: Vec<ResponseDirectMessage>)
    ensures
        message_views(r@) == message_views(messages@),
{
    let mut out: Vec<ResponseDirectMessage> = Vec::new();
    let mut i: usize = 0;
    while i < messages.len()
        invariant
            i <= messages.len(),
            out.len() == i,
            forall|j: int| 0 <= j < i ==> out@[j]@ == messages@[j]@,
        decreases messages.len() - i,
    {
        out.push(messages[i].duplicate());
        i += 1;
    }
    assert(message_views(out@) =~= message_views(messages@));
    out
}

/// One page of a conversation's history.
#[derive(Clone, Debug, PartialEq, Eq)]
pub struct PaginatedMessagesResponse {
    pub messages: Vec<ResponseDirectMessage>,
    pub next_cursor: Option<String>,
    pub has_more: bool,
}

/// The mathematical reading of a [`PaginatedMessagesResponse`].
pub struct PageView {
    pub messages: Seq<StoredMessageView>,
    pub next_cursor: Option<Seq<char>>,
    pub has_more: bool,
}

impl View for PaginatedMessagesResponse {
    type V = PageView;

    open spec fn view(&self) -> PageView {
        PageView {
            messages: message_views(self.messages@),
            next_cursor: match self.next_cursor {
                Some(c) => Some(c@),
                None => None,
            },
            has_more: self.has_more,
        }
    }
}

/// A frame on the wire between a client and the gateway.
#[derive(Clone, Debug, PartialEq, Eq)]
pub enum ChatMessage {
    /// Client to server: send `content` to user `to`.
    SendDirectMessage { to: i32, content: String, client_message_id: MessageId },
    /// Server to client: a message from user `from`.
    DirectMessage { from: i32, content: String, server_message_id: MessageId, timestamp: i64 },
    /// Server to client: a user went online or offline.
    Presence { user: i32, status: PresenceStatus },
    /// Server to client: what became of a message the client sent.
    MessageAck {
        client_message_id: MessageId,
        message_id: MessageId,
        timestamp: i64,
        status: MessageStatus,
    },
    /// Client to server: one page of history, older than the cursor if there is one.
    GetPaginatedMessages { message_id: Option<MessageId>, conversation_id: String },
    /// Server to client: one page of history.
    ChatHistoryResponse {
        messages: Vec<ResponseDirectMessage>,
        has_more: bool,
        next_cursor: Option<MessageId>,
    },
    /// Both ways: a message to or from a room.
    RoomMessage { room_id: String, from: i32, content: String, message_id: MessageId },
    /// Client to server: join a room.
    JoinRoom { room_id: String },
    /// Client to server: leave a room.
    LeaveRoom { room_id: String },
    /// Client to server: the messages of a conversation after a given one.
    SyncMessages { conversation_id: String, message_id: MessageId },
    /// Server to client: the answer to `SyncMessages`.
    SyncMessagesResponse { messages: Vec<ResponseDirectMessage> },
}

/// The mathematical reading of a [`ChatMessage`].
pub enum FrameView {
    SendDirectMessage { to: i32, content: Seq<char>, client_message_id: MessageId },
    DirectMessage { from: i32, content: Seq<char>, server_message_id: MessageId, timestamp: i64 },
    Presence { user: i32, status: PresenceStatus },
    MessageAck {
        client_message_id: MessageId,
        message_id: MessageId,
        timestamp: i64,
        status: StatusView,
    },
    GetPaginatedMessages { message_id: Option<MessageId>, conversation_id: Seq<char> },
    ChatHistoryResponse {
        messages: Seq<StoredMessageView>,
        has_more: bool,
        next_cursor: Option<MessageId>,
    },
    RoomMessage { room_id: Seq<char>, from: i32, content: Seq<char>, message_id: MessageId },
    JoinRoom { room_id: Seq<char> },
    LeaveRoom { room_id: Seq<char> },
    SyncMessages { conversation_id: Seq<char>, message_id: MessageId },
    SyncMessagesResponse { messages: Seq<StoredMessageView> },
}

impl View for ChatMessage {
    type V = FrameView;

    open spec fn view(&self) -> FrameView {
        match self {
            ChatMessage::SendDirectMessage { to, content, client_message_id } => {
                FrameView::SendDirectMessage {
                    to: *to,
                    content: content@,
                    client_message_id: *client_message_id,
                }
            },
            ChatMessage::DirectMessage { from, content, server_message_id, timestamp } => {
                FrameView::DirectMessage {
                    from: *from,
                    content: content@,
                    server_message_id: *server_message_id,
                    timestamp: *timestamp,
                }
            },
            ChatMessage::Presence { user, status } => FrameView::Presence {
                user: *user,
                status: *status,
            },
            ChatMessage::MessageAck { client_message_id, message_id, timestamp, status } => {
                FrameView::MessageAck {
                    client_message_id: *client_message_id,
                    message_id: *message_id,
                    timestamp: *timestamp,
                    status: status@,
                }
            },
            ChatMessage::GetPaginatedMessages { message_id, conversation_id } => {
                FrameView::GetPaginatedMessages {
                    message_id: *message_id,
                    conversation_id: conversation_id@,
                }
            },
            ChatMessage::ChatHistoryResponse { messages, has_more, next_cursor } => {
                FrameView::ChatHistoryResponse {
                    messages: message_views(messages@),
                    has_more: *has_more,
                    next_cursor: *next_cursor,
                }
            },
            ChatMessage::RoomMessage { room_id, from, content, message_id } => {
                FrameView::RoomMessage {
                    room_id: room_id@,
                    from: *from,
                    content: content@,
                    message_id: *message_id,
                }
            },
            ChatMessage::JoinRoom { room_id } => FrameView::JoinRoom { room_id: room_id@ },
            ChatMessage::LeaveRoom { room_id } => FrameView::LeaveRoom { room_id: room_id@ },
            ChatMessage::SyncMessages { conversation_id, message_id } => {
                FrameView::SyncMessages {
                    conversation_id: conversation_id@,
                    message_id: *message_id,
                }
            },
            ChatMessage::SyncMessagesResponse { messages } => FrameView::SyncMessagesResponse {
                messages: message_views(messages@),
            },
        }
    }
}

impl ChatMessage {
    /// A copy with the same reading.
    pub fn duplicate(&self) -> (r: ChatMessage)
        ensures
            r@ == self@,
    {
        match self {
            ChatMessage::SendDirectMessage { to, content, client_message_id } => {
                ChatMessage::SendDirectMessage {
                    to: *to,
                    content: content.clone(),
                    client_message_id: *client_message_id,
                }
            },
            ChatMessage::DirectMessage { from, content, server_message_id, timestamp } => {
                ChatMessage::DirectMessage {
                    from: *from,
                    content: content.clone(),
                    server_message_id: *server_message_id,
                    timestamp: *timestamp,
                }
            },
            ChatMessage::Presence { user, status } => ChatMessage::Presence {
                user: *user,
                status: *status,
            },
            ChatMessage::MessageAck { client_message_id, message_id, timestamp, status } => {
                ChatMessage::MessageAck {
                    client_message_id: *client_message_id,
                    message_id: *message_id,
                    timestamp: *timestamp,
                    status: status.duplicate(),
                }
            },
            ChatMessage::GetPaginatedMessages { message_id, conversation_id } => {
                ChatMessage::GetPaginatedMessages {
                    message_id: *message_id,
                    conversation_id: conversation_id.clone(),
                }
            },
            ChatMessage::ChatHistoryResponse { messages, has_more, next_cursor } => {
                ChatMessage::ChatHistoryResponse {
                    messages: duplicate_messages(messages),
                    has_more: *has_more,
                    next_cursor: *next_cursor,
                }
            },
            ChatMessage::RoomMessage { room_id, from, content, message_id } => {
                ChatMessage::RoomMessage {
                    room_id: room_id.clone(),
                    from: *from,
                    content: content.clone(),
                    message_id: *message_id,
                }
            },
            ChatMessage::JoinRoom { room_id } => ChatMessage::JoinRoom { room_id: room_id.clone() },
            ChatMessage::LeaveRoom { room_id } => ChatMessage::LeaveRoom {
                room_id: room_id.clone(),
            },
            ChatMessage::SyncMessages { conversation_id, message_id } => {
                ChatMessage::SyncMessages {
                    conversation_id: conversation_id.clone(),
                    message_id: *message_id,
                }
            },
            ChatMessage::SyncMessagesResponse { messages } => ChatMessage::SyncMessagesResponse {
                messages: duplicate_messages(messages),
            },
        }
    }
}

} // verus!
