//! A user session: what it does with each frame that its client sends, and
//! what it makes of the answers that come back.

use crate::chat::{
    message_views, ChatMessage, FrameView, MessageAckResponse, PaginatedMessagesResponse,
    ResponseDirectMessage,
};
use crate::json::{json_parse, JsonTree, JsonValue};
use crate::message_id::{node_number, MessageId};
use crate::router::{RouterMessage, RouterMessageView};
use crate::text::{outcome_view, owned};
use crate::wire::{claimed_sender, decode_tree, id_of_text, sender_claim, DecodeError};
use vstd::prelude::*;

verus! {

/// Why a frame from a client goes no further than its session.
#[derive(Clone, Copy, Debug, PartialEq, Eq, Structural)]
pub enum Dropped {
    /// The frame names a sender other than the session's user.
    Spoofed,
    /// The frame is of a variant that clients do not send.
    NotForServer,
    /// The text is no frame.
    Unreadable(DecodeError),
}

/// What a session expects back for a request that it hands to the router,
/// and what becomes of it.
#[derive(Clone, Copy, Debug, PartialEq, Eq, Structural)]
pub enum Expected {
    /// No answer is waited for.
    Nothing,
    /// The outcome of persisting a message: it becomes a `MessageAck` that
    /// names the message by `client_message_id`.
    Ack { client_message_id: MessageId },
    /// A page of history: it becomes a `ChatHistoryResponse`.
    History,
    /// The messages after a given one: they become a
    /// `SyncMessagesResponse`.
    Sync,
    /// The room's word on the join, which nobody waits for. The request
    /// carries the session's mailbox, so that the room can reach the user.
    Joined,
}

/// What a session does with a frame from its client.
#[derive(Clone, Debug, PartialEq, Eq)]
pub enum Inbound {
    /// The request goes to the router, and `answer` says what is expected
    /// back.
    Forward { message: RouterMessage, answer: Expected },
    /// Nothing goes to the router, and nobody is answered.
    Dropped(Dropped),
}

/// The mathematical reading of an [`Inbound`].
pub enum InboundView {
    Forward { message: RouterMessageView, answer: Expected },
    Dropped(Dropped),
}

impl View for Inbound {
    type V = InboundView;

    open spec fn view(&self) -> InboundView {
        match self {
            Inbound::Forward { message, answer } => InboundView::Forward {
                message: message@,
                answer: *answer,
            },
            Inbound::Dropped(why) => InboundView::Dropped(*why),
        }
    }
}

/// The sender that a frame names in a field of its own.
pub open spec fn own_sender(frame: FrameView) -> Option<i32> {
    match frame {
        FrameView::RoomMessage { from, .. } => Some(from),
        FrameView::DirectMessage { from, .. } => Some(from),
        _ => None,
    }
}

/// What the session of user `user_id` does with a frame. `claim` is the
/// sender that the frame's document names, if it names one, and `fresh` the
/// identifier that the session has ready for a direct message.
///
/// A frame that names another sender than the user is dropped, whatever its
/// variant. A direct message goes to the router under the user's name and
/// the fresh identifier; a room message under its own identifier; requests
/// to join or leave a room and for history go on as they are. Frames of the
/// other variants are not for the server.
pub open spec fn inbound(user_id: i32, frame: FrameView, claim: Option<i32>, fresh: MessageId) -> InboundView {
    if (claim matches Some(c) && c != user_id) || (own_sender(frame) matches Some(s) && s != user_id) {
        InboundView::Dropped(Dropped::Spoofed)
    } else {
        match frame {
            FrameView::SendDirectMessage { to, content, client_message_id } => InboundView::Forward {
                message: RouterMessageView::SendDirectMessage {
                    from: user_id,
                    to,
                    content,
                    message_id: fresh,
                },
                answer: Expected::Ack { client_message_id },
            },
            FrameView::RoomMessage { room_id, from, content, message_id } => InboundView::Forward {
                message: RouterMessageView::SendRoomMessage { room_id, from, content, message_id },
                answer: Expected::Ack { client_message_id: message_id },
            },
            FrameView::JoinRoom { room_id } => InboundView::Forward {
                message: RouterMessageView::JoinRoom { user_id, room_id },
                answer: Expected::Joined,
            },
            FrameView::LeaveRoom { room_id } => InboundView::Forward {
                message: RouterMessageView::LeaveRoom { user_id, room_id },
                answer: Expected::Nothing,
            },
            FrameView::GetPaginatedMessages { message_id, conversation_id } => {
                InboundView::Forward {
                    message: RouterMessageView::GetPaginatedMessages { message_id, conversation_id },
                    answer: Expected::History,
                }
            },
            FrameView::SyncMessages { conversation_id, message_id } => InboundView::Forward {
                message: RouterMessageView::SyncMessages { conversation_id, message_id },
                answer: Expected::Sync,
            },
            _ => InboundView::Dropped(Dropped::NotForServer),
        }
    }
}

/// What the session does with a document from its client.
pub open spec fn inbound_tree(user_id: i32, tree: JsonTree, fresh: MessageId) -> InboundView {
    match decode_tree(tree) {
        Ok(frame) => inbound(user_id, frame, claimed_sender(tree), fresh),
        Err(e) => InboundView::Dropped(Dropped::Unreadable(e)),
    }
}

/// What the session does with a text from its client.
pub open spec fn inbound_text(user_id: i32, text: Seq<char>, fresh: MessageId) -> InboundView {
    match json_parse(text) {
        Some(tree) => inbound_tree(user_id, tree, fresh),
        None => InboundView::Dropped(Dropped::Unreadable(DecodeError::Syntax)),
    }
}

/// What a session's registration comes to: an error where the request did
/// not reach the router or no answer came, else the router's answer.
pub open spec fn registration_outcome(sent: bool, reply: Option<Result<(), String>>) -> Result<
    (),
    Seq<char>,
> {
    if !sent {
        Err("Failed to communicate with message router"@)
    } else {
        match reply {
            Some(answer) => outcome_view(answer),
            None => Err("Router response channel closed"@),
        }
    }
}

/// A frame that names another sender than the session's user leads to no
/// request: the router never sees it, so nothing is persisted and nothing
/// delivered on its account.
pub proof fn lemma_spoofed_frames_stop_here(
    user_id: i32,
    frame: FrameView,
    claim: Option<i32>,
    fresh: MessageId,
)
    requires
        (claim matches Some(c) && c != user_id) || (own_sender(frame) matches Some(s) && s
            != user_id),
    ensures
        inbound(user_id, frame, claim, fresh) == InboundView::Dropped(Dropped::Spoofed),
{
}

/// A direct message that the session's user sends under the name `from`:
/// the request for the router, or nothing where `from` is not the user.
pub fn handle_direct_message(
    user_id: i32,
    from: i32,
    to: i32,
    content: String,
    message_id: MessageId,
) -> (r: Option<RouterMessage>)
    ensures
        match r {
            Some(m) => from == user_id && m@ == (RouterMessageView::SendDirectMessage {
                from,
                to,
                content: content@,
                message_id,
            }),
            None => from != user_id,
        },
{
    if from != user_id {
        return None;
    }
    Some(RouterMessage::SendDirectMessage { from, to, content, message_id })
}

/// A room message that the session's user sends under the name `from`: the
/// request for the router, or the refusal where `from` is not the user.
pub fn handle_room_message(
    user_id: i32,
    room_id: String,
    from: i32,
    content: String,
    message_id: MessageId,
) -> (r: Result<RouterMessage, String>)
    ensures
        match r {
            Ok(m) => from == user_id && m@ == (RouterMessageView::SendRoomMessage {
                room_id: room_id@,
                from,
                content: content@,
                message_id,
            }),
            Err(e) => from != user_id && e@ == "User ID mismatch"@,
        },
{
    if from != user_id {
        return Err(owned("User ID mismatch"));
    }
    Ok(RouterMessage::SendRoomMessage { room_id, from, content, message_id })
}

/// The session of one live socket.
#[derive(Clone, Copy, Debug, PartialEq, Eq)]
pub struct UserSession {
    pub user_id: i32,
    pub node: [u8; 6],
}

impl UserSession {
    /// The session of `user_id` on the gateway node `node`.
    pub fn new(user_id: i32, node: [u8; 6]) -> (r: UserSession)
        ensures
            r.user_id == user_id,
            r.node == node,
    {
        UserSession { user_id, node }
    }

    /// What the registration with the router came to: `sent` says whether
    /// the request reached the router's mailbox, `reply` holds the router's
    /// answer, if one came.
    pub fn registration(sent: bool, reply: Option<Result<(), String>>) -> (r: Result<(), String>)
        ensures
            outcome_view(r) == registration_outcome(sent, reply),
    {
        if !sent {
            return Err(owned("Failed to communicate with message router"));
        }
        match reply {
            Some(Ok(())) => Ok(()),
            Some(Err(refusal)) => Err(refusal),
            None => Err(owned("Router response channel closed")),
        }
    }

    /// What the session does with a frame: see [`inbound`].
    pub fn handle_frame(&self, frame: ChatMessage, claim: Option<i32>, fresh: MessageId) -> (r:
        Inbound)
        ensures
            r@ == inbound(self.user_id, frame@, claim, fresh),
    {
        match claim {
            Some(c) => {
                if c != self.user_id {
                    return Inbound::Dropped(Dropped::Spoofed);
                }
            },
            None => {},
        }
        let user_id = self.user_id;
        match frame {
            ChatMessage::SendDirectMessage { to, content, client_message_id } => {
                match handle_direct_message(user_id, user_id, to, content, fresh) {
                    Some(message) => Inbound::Forward {
                        message,
                        answer: Expected::Ack { client_message_id },
                    },
                    None => Inbound::Dropped(Dropped::Spoofed),
                }
            },
            ChatMessage::RoomMessage { room_id, from, content, message_id } => {
                match handle_room_message(user_id, room_id, from, content, message_id) {
                    Ok(message) => Inbound::Forward {
                        message,
                        answer: Expected::Ack { client_message_id: message_id },
                    },
                    Err(_) => Inbound::Dropped(Dropped::Spoofed),
                }
            },
            ChatMessage::DirectMessage { from, .. } => {
                if from != user_id {
                    Inbound::Dropped(Dropped::Spoofed)
                } else {
                    Inbound::Dropped(Dropped::NotForServer)
                }
            },
            ChatMessage::JoinRoom { room_id } => Inbound::Forward {
                message: RouterMessage::JoinRoom { user_id, room_id },
                answer: Expected::Joined,
            },
            ChatMessage::LeaveRoom { room_id } => Inbound::Forward {
                message: RouterMessage::LeaveRoom { user_id, room_id },
                answer: Expected::Nothing,
            },
            ChatMessage::GetPaginatedMessages { message_id, conversation_id } => Inbound::Forward {
                message: RouterMessage::GetPaginatedMessages { message_id, conversation_id },
                answer: Expected::History,
            },
            ChatMessage::SyncMessages { conversation_id, message_id } => Inbound::Forward {
                message: RouterMessage::SyncMessages { conversation_id, message_id },
                answer: Expected::Sync,
            },
            _ => Inbound::Dropped(Dropped::NotForServer),
        }
    }

    /// What the session does with a document from its client: see
    /// [`inbound_tree`].
    pub fn handle_json(&self, value: &JsonValue, fresh: MessageId) -> (r: Inbound)
        ensures
            r@ == inbound_tree(self.user_id, value@, fresh),
    {
        match ChatMessage::from_json(value) {
            Ok(frame) => self.handle_frame(frame, sender_claim(value), fresh),
            Err(e) => Inbound::Dropped(Dropped::Unreadable(e)),
        }
    }

    /// What the session does with a text from its client, with `fresh` as
    /// the identifier for a direct message: see [`inbound_text`].
    pub fn handle_text_with(&self, text: &str, fresh: MessageId) -> (r: Inbound)
        ensures
            r@ == inbound_text(self.user_id, text@, fresh),
    {
        match JsonValue::parse(text) {
            Some(value) => self.handle_json(&value, fresh),
            None => Inbound::Dropped(Dropped::Unreadable(DecodeError::Syntax)),
        }
    }

    /// What the session does with a text from its client. The identifier for
    /// a direct message is generated now, for the session's node: it is
    /// time-ordered and ends in the node's bytes, whatever the clock reads.
    pub fn handle_text(&self, text: &str) -> (r: Inbound)
        ensures
            exists|fresh: MessageId|
                fresh.is_time_ordered() && fresh.node() == node_number(self.node) && r@
                    == inbound_text(self.user_id, text@, fresh),
    {
        let fresh = MessageId::generate(&self.node);
        self.handle_text_with(text, fresh)
    }

    /// The request that ends the session at the router.
    pub fn unregister(&self) -> (r: RouterMessage)
        ensures
            r@ == (RouterMessageView::UnregisterUser { user_id: self.user_id }),
    {
        RouterMessage::UnregisterUser { user_id: self.user_id }
    }
}

/// The frame that tells a client what became of its message:
/// `client_message_id` is the identifier that the client knows the message
/// by.
pub fn ack_frame(client_message_id: MessageId, ack: MessageAckResponse) -> (r: ChatMessage)
    ensures
        r@ == (FrameView::MessageAck {
            client_message_id,
            message_id: ack.message_id,
            timestamp: ack.timestamp,
            status: ack.status@,
        }),
{
    ChatMessage::MessageAck {
        client_message_id,
        message_id: ack.message_id,
        timestamp: ack.timestamp,
        status: ack.status,
    }
}

/// The cursor of a page as a frame carries it: the identifier that the
/// page's cursor text spells, if it spells one.
pub open spec fn cursor_of(next_cursor: Option<Seq<char>>) -> Option<MessageId> {
    match next_cursor {
        Some(text) => id_of_text(text),
        None => None,
    }
}

/// The frame for the answer to a request for history, if an answer came and
/// is a page: a failure and a missing answer lead to no frame.
pub fn history_frame(reply: Option<Result<PaginatedMessagesResponse, String>>) -> (r: Option<
    ChatMessage,
>)
    ensures
        match reply {
            Some(Ok(page)) => r matches Some(frame) && frame@ == (FrameView::ChatHistoryResponse {
                messages: page@.messages,
                has_more: page@.has_more,
                next_cursor: cursor_of(page@.next_cursor),
            }),
            _ => r is None,
        },
{
    match reply {
        Some(Ok(page)) => {
            let next_cursor = match &page.next_cursor {
                Some(text) => match MessageId::parse(text.as_str()) {
                    Ok(id) => Some(id),
                    Err(_) => None,
                },
                None => None,
            };
            Some(
                ChatMessage::ChatHistoryResponse {
                    messages: page.messages,
                    has_more: page.has_more,
                    next_cursor,
                },
            )
        },
        _ => None,
    }
}

/// The frame for the answer to a request to synchronise, if an answer came
/// and is a list of messages.
pub fn sync_frame(reply: Option<Result<Vec<ResponseDirectMessage>, String>>) -> (r: Option<
    ChatMessage,
>)
    ensures
        match reply {
            Some(Ok(messages)) => r matches Some(frame) && frame@
                == (FrameView::SyncMessagesResponse { messages: message_views(messages@) }),
            _ => r is None,
        },
{
    match reply {
        Some(Ok(messages)) => Some(ChatMessage::SyncMessagesResponse { messages }),
        _ => None,
    }
}

} // verus!
