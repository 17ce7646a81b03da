//! The wire format of frames: a JSON object whose only member is named after
//! the variant and holds an object of the variant's fields.

use crate::chat::{
    message_views, ChatMessage, FrameView, MessageStatus, PresenceStatus, ResponseDirectMessage,
    StatusView, StoredMessageView,
};
use crate::json::{items_of, json_parse, json_text, member, members_of, JsonTree, JsonValue};
use crate::message_id::{parsed, uuid_parse, uuid_text, MessageId};
use crate::text::{option_view, owned};
use vstd::prelude::*;

verus! {

/// Why a text or a document is not a frame.
#[derive(Clone, Copy, Debug, PartialEq, Eq, Structural)]
pub enum DecodeError {
    /// The text is not one JSON document.
    Syntax,
    /// The document is not an object with exactly one member.
    Shape,
    /// The member's name is not that of a variant.
    UnknownVariant,
    /// The member does not hold an object with the variant's fields, each of
    /// its type.
    Field,
}

/// A member read as a whole number of 64 bits.
pub open spec fn as_i64(t: Option<JsonTree>) -> Option<i64> {
    match t {
        Some(JsonTree::Int(i)) => Some(i),
        _ => None,
    }
}

/// A member read as a whole number of 32 bits.
pub open spec fn as_i32(t: Option<JsonTree>) -> Option<i32> {
    match t {
        Some(JsonTree::Int(i)) => if i32::MIN <= i <= i32::MAX {
            Some(i as i32)
        } else {
            None
        },
        _ => None,
    }
}

/// A member read as a text.
pub open spec fn as_text(t: Option<JsonTree>) -> Option<Seq<char>> {
    match t {
        Some(JsonTree::Text(s)) => Some(s),
        _ => None,
    }
}

/// A member read as a truth value.
pub open spec fn as_bool(t: Option<JsonTree>) -> Option<bool> {
    match t {
        Some(JsonTree::Bool(b)) => Some(b),
        _ => None,
    }
}

/// A text read as an identifier.
pub open spec fn id_of_text(s: Seq<char>) -> Option<MessageId> {
    match uuid_parse(s) {
        Ok(value) => Some(MessageId { value }),
        Err(_) => None,
    }
}

/// A member read as an identifier.
pub open spec fn as_id(t: Option<JsonTree>) -> Option<MessageId> {
    match t {
        Some(JsonTree::Text(s)) => id_of_text(s),
        _ => None,
    }
}

/// A member read as an identifier that may be left out or `null`.
pub open spec fn as_optional_id(t: Option<JsonTree>) -> Option<Option<MessageId>> {
    match t {
        None => Some(None),
        Some(JsonTree::Null) => Some(None),
        Some(JsonTree::Text(s)) => match id_of_text(s) {
            Some(id) => Some(Some(id)),
            None => None,
        },
        _ => None,
    }
}

/// A member read as a message status: the text `Delivered` or `Persisted`,
/// or an object whose only member `Failed` holds the reason.
pub open spec fn as_status(t: Option<JsonTree>) -> Option<StatusView> {
    match t {
        Some(JsonTree::Text(s)) => if s == "Delivered"@ {
            Some(StatusView::Delivered)
        } else if s == "Persisted"@ {
            Some(StatusView::Persisted)
        } else {
            None
        },
        Some(JsonTree::Object(m)) => if m.len() == 1 && m[0].0 == "Failed"@ {
            match m[0].1 {
                JsonTree::Text(reason) => Some(StatusView::Failed(reason)),
                _ => None,
            }
        } else {
            None
        },
        _ => None,
    }
}

/// A member read as a presence status: the text `Online` or `Offline`.
pub open spec fn as_presence(t: Option<JsonTree>) -> Option<PresenceStatus> {
    match t {
        Some(JsonTree::Text(s)) => if s == "Online"@ {
            Some(PresenceStatus::Online)
        } else if s == "Offline"@ {
            Some(PresenceStatus::Offline)
        } else {
            None
        },
        _ => None,
    }
}

/// A document read as a stored message.
pub open spec fn as_stored_message(t: JsonTree) -> Option<StoredMessageView> {
    match t {
        JsonTree::Object(m) => match (
            as_text(member(m, "conversation_id"@)),
            as_id(member(m, "message_id"@)),
            as_i32(member(m, "sender_id"@)),
            as_i32(member(m, "recipient_id"@)),
            as_text(member(m, "message_text"@)),
            as_i64(member(m, "created_at"@)),
        ) {
            (
                Some(conversation_id),
                Some(message_id),
                Some(sender_id),
                Some(recipient_id),
                Some(message_text),
                Some(created_at),
            ) => Some(
                StoredMessageView {
                    conversation_id,
                    message_id,
                    sender_id,
                    recipient_id,
                    message_text,
                    created_at,
                },
            ),
            _ => None,
        },
        _ => None,
    }
}

/// A member read as a list of stored messages.
pub open spec fn as_messages(t: Option<JsonTree>) -> Option<Seq<StoredMessageView>> {
    match t {
        Some(JsonTree::List(items)) => if forall|i: int|
            0 <= i < items.len() ==> (#[trigger] as_stored_message(items[i])) is Some {
            Some(Seq::new(items.len(), |i: int| as_stored_message(items[i]).unwrap()))
        } else {
            None
        },
        _ => None,
    }
}

/// The fields of a variant read from the members of its object; `None`
/// where the name is not a variant's, `Some(None)` where a field is missing
/// or of another type.
pub open spec fn decode_fields(name: Seq<char>, m: Seq<(Seq<char>, JsonTree)>) -> Option<
    Option<FrameView>,
> {
    if name == "SendDirectMessage"@ {
        Some(
            match (
                as_i32(member(m, "to"@)),
                as_text(member(m, "content"@)),
                as_id(member(m, "client_message_id"@)),
            ) {
                (Some(to), Some(content), Some(client_message_id)) => Some(
                    FrameView::SendDirectMessage { to, content, client_message_id },
                ),
                _ => None,
            },
        )
    } else if name == "DirectMessage"@ {
        Some(
            match (
                as_i32(member(m, "from"@)),
                as_text(member(m, "content"@)),
                as_id(member(m, "server_message_id"@)),
                as_i64(member(m, "timestamp"@)),
            ) {
                (Some(from), Some(content), Some(server_message_id), Some(timestamp)) => Some(
                    FrameView::DirectMessage { from, content, server_message_id, timestamp },
                ),
                _ => None,
            },
        )
    } else if name == "Presence"@ {
        Some(
            match (as_i32(member(m, "user"@)), as_presence(member(m, "status"@))) {
                (Some(user), Some(status)) => Some(FrameView::Presence { user, status }),
                _ => None,
            },
        )
    } else if name == "MessageAck"@ {
        Some(
            match (
                as_id(member(m, "client_message_id"@)),
                as_id(member(m, "message_id"@)),
                as_i64(member(m, "timestamp"@)),
                as_status(member(m, "status"@)),
            ) {
                (Some(client_message_id), Some(message_id), Some(timestamp), Some(status)) => Some(
                    FrameView::MessageAck { client_message_id, message_id, timestamp, status },
                ),
                _ => None,
            },
        )
    } else if name == "GetPaginatedMessages"@ {
        Some(
            match (
                as_optional_id(member(m, "message_id"@)),
                as_text(member(m, "conversation_id"@)),
            ) {
                (Some(message_id), Some(conversation_id)) => Some(
                    FrameView::GetPaginatedMessages { message_id, conversation_id },
                ),
                _ => None,
            },
        )
    } else if name == "ChatHistoryResponse"@ {
        Some(
            match (
                as_messages(member(m, "messages"@)),
                as_bool(member(m, "has_more"@)),
                as_optional_id(member(m, "next_cursor"@)),
            ) {
                (Some(messages), Some(has_more), Some(next_cursor)) => Some(
                    FrameView::ChatHistoryResponse { messages, has_more, next_cursor },
                ),
                _ => None,
            },
        )
    } else if name == "RoomMessage"@ {
        Some(
            match (
                as_text(member(m, "room_id"@)),
                as_i32(member(m, "from"@)),
                as_text(member(m, "content"@)),
                as_id(member(m, "message_id"@)),
            ) {
                (Some(room_id), Some(from), Some(content), Some(message_id)) => Some(
                    FrameView::RoomMessage { room_id, from, content, message_id },
                ),
                _ => None,
            },
        )
    } else if name == "JoinRoom"@ {
        Some(
            match as_text(member(m, "room_id"@)) {
                Some(room_id) => Some(FrameView::JoinRoom { room_id }),
                _ => None,
            },
        )
    } else if name == "LeaveRoom"@ {
        Some(
            match as_text(member(m, "room_id"@)) {
                Some(room_id) => Some(FrameView::LeaveRoom { room_id }),
                _ => None,
            },
        )
    } else if name == "SyncMessages"@ {
        Some(
            match (as_text(member(m, "conversation_id"@)), as_id(member(m, "message_id"@))) {
                (Some(conversation_id), Some(message_id)) => Some(
                    FrameView::SyncMessages { conversation_id, message_id },
                ),
                _ => None,
            },
        )
    } else if name == "SyncMessagesResponse"@ {
        Some(
            match as_messages(member(m, "messages"@)) {
                Some(messages) => Some(FrameView::SyncMessagesResponse { messages }),
                _ => None,
            },
        )
    } else {
        None
    }
}

/// Whether a name is that of a variant.
pub open spec fn is_variant(name: Seq<char>) -> bool {
    decode_fields(name, Seq::empty()) is Some
}

/// The frame that a document stands for, or why it stands for none.
pub open spec fn decode_tree(t: JsonTree) -> Result<FrameView, DecodeError> {
    match t {
        JsonTree::Object(outer) => if outer.len() != 1 {
            Err(DecodeError::Shape)
        } else if !is_variant(outer[0].0) {
            Err(DecodeError::UnknownVariant)
        } else {
            match outer[0].1 {
                JsonTree::Object(m) => match decode_fields(outer[0].0, m) {
                    Some(Some(frame)) => Ok(frame),
                    _ => Err(DecodeError::Field),
                },
                _ => Err(DecodeError::Field),
            }
        },
        _ => Err(DecodeError::Shape),
    }
}

/// The frame that a text stands for, or why it stands for none.
pub open spec fn decode_text(text: Seq<char>) -> Result<FrameView, DecodeError> {
    match json_parse(text) {
        Some(t) => decode_tree(t),
        None => Err(DecodeError::Syntax),
    }
}

/// The sender that the only member of a document claims, whatever the
/// variant: the whole number in the field `from` of its object.
pub open spec fn claimed_sender(t: JsonTree) -> Option<i32> {
    match t {
        JsonTree::Object(outer) => if outer.len() == 1 {
            match outer[0].1 {
                JsonTree::Object(m) => as_i32(member(m, "from"@)),
                _ => None,
            }
        } else {
            None
        },
        _ => None,
    }
}

/// The reading of an optional status.
pub open spec fn status_view(status: Option<MessageStatus>) -> Option<StatusView> {
    match status {
        Some(s) => Some(s@),
        None => None,
    }
}

/// The readings of an optional list of stored messages.
pub open spec fn messages_view(messages: Option<Vec<ResponseDirectMessage>>) -> Option<
    Seq<StoredMessageView>,
> {
    match messages {
        Some(m) => Some(message_views(m@)),
        None => None,
    }
}

/// The member `name` read as a whole number of 64 bits.
pub(crate) fn read_i64(m: &Vec<(String, JsonValue)>, name: &str) -> (r: Option<i64>)
    ensures
        r == as_i64(member(members_of(m@), name@)),
{
    match JsonValue::find(m, name) {
        Some(JsonValue::Int(i)) => Some(*i),
        _ => None,
    }
}

/// The member `name` read as a whole number of 32 bits.
pub(crate) fn read_i32(m: &Vec<(String, JsonValue)>, name: &str) -> (r: Option<i32>)
    ensures
        r == as_i32(member(members_of(m@), name@)),
{
    match JsonValue::find(m, name) {
        Some(JsonValue::Int(i)) => {
            if -2147483648 <= *i && *i <= 2147483647 {
                Some(*i as i32)
            } else {
                None
            }
        },
        _ => None,
    }
}

/// The member `name` read as a text.
pub(crate) fn read_text(m: &Vec<(String, JsonValue)>, name: &str) -> (r: Option<String>)
    ensures
        option_view(r) == as_text(member(members_of(m@), name@)),
{
    match JsonValue::find(m, name) {
        Some(JsonValue::Text(s)) => Some(s.clone()),
        _ => None,
    }
}

/// The member `name` read as a truth value.
fn read_bool(m: &Vec<(String, JsonValue)>, name: &str) -> (r: Option<bool>)
    ensures
        r == as_bool(member(members_of(m@), name@)),
{
    match JsonValue::find(m, name) {
        Some(JsonValue::Bool(b)) => Some(*b),
        _ => None,
    }
}

/// A text read as an identifier.
fn read_id_text(s: &String) -> (r: Option<MessageId>)
    ensures
        r == id_of_text(s@),
{
    match MessageId::parse(s.as_str()) {
        Ok(id) => Some(id),
        Err(_) => None,
    }
}

/// The member `name` read as an identifier.
pub(crate) fn read_id(m: &Vec<(String, JsonValue)>, name: &str) -> (r: Option<MessageId>)
    ensures
        r == as_id(member(members_of(m@), name@)),
{
    match JsonValue::find(m, name) {
        Some(JsonValue::Text(s)) => read_id_text(s),
        _ => None,
    }
}

/// The member `name` read as an identifier that may be left out or `null`.
fn read_optional_id(m: &Vec<(String, JsonValue)>, name: &str) -> (r: Option<Option<MessageId>>)
    ensures
        r == as_optional_id(member(members_of(m@), name@)),
{
    match JsonValue::find(m, name) {
        None => Some(None),
        Some(JsonValue::Null) => Some(None),
        Some(JsonValue::Text(s)) => match read_id_text(s) {
            Some(id) => Some(Some(id)),
            None => None,
        },
        _ => None,
    }
}

/// The member `name` read as a message status.
fn read_status(m: &Vec<(String, JsonValue)>, name: &str) -> (r: Option<MessageStatus>)
    ensures
        status_view(r) == as_status(member(members_of(m@), name@)),
{
    match JsonValue::find(m, name) {
        Some(value) => {
            match value {
                JsonValue::Text(s) => {
                    if *s == owned("Delivered") {
                        Some(MessageStatus::Delivered)
                    } else if *s == owned("Persisted") {
                        Some(MessageStatus::Persisted)
                    } else {
                        None
                    }
                },
                JsonValue::Object(_) => {
                    match value.as_object() {
                        Some(inner) => {
                            if inner.len() == 1 && inner[0].0 == owned("Failed") {
                                assert(members_of(inner@)[0] == (inner@[0].0@, inner@[0].1@));
                                match &inner[0].1 {
                                    JsonValue::Text(reason) => Some(
                                        MessageStatus::Failed(reason.clone()),
                                    ),
                                    _ => None,
                                }
                            } else {
                                assert(inner.len() == 1 ==> members_of(inner@)[0] == (
                                    inner@[0].0@,
                                    inner@[0].1@,
                                ));
                                None
                            }
                        },
                        None => None,
                    }
                },
                _ => None,
            }
        },
        None => None,
    }
}

/// The member `name` read as a presence status.
fn read_presence(m: &Vec<(String, JsonValue)>, name: &str) -> (r: Option<PresenceStatus>)
    ensures
        r == as_presence(member(members_of(m@), name@)),
{
    match JsonValue::find(m, name) {
        Some(JsonValue::Text(s)) => {
            if *s == owned("Online") {
                Some(PresenceStatus::Online)
            } else if *s == owned("Offline") {
                Some(PresenceStatus::Offline)
            } else {
                None
            }
        },
        _ => None,
    }
}

impl ResponseDirectMessage {
    /// Reads a stored message from a document: an object with a text
    /// `conversation_id`, an identifier `message_id`, whole numbers
    /// `sender_id` and `recipient_id`, a text `message_text` and a whole
    /// number `created_at`.
    pub fn from_json(value: &JsonValue) -> (r: Option<ResponseDirectMessage>)
        ensures
            match r {
                Some(message) => as_stored_message(value@) == Some(message@),
                None => as_stored_message(value@) is None,
            },
    {
        let m = match value.as_object() {
            Some(m) => m,
            None => {
                return None;
            },
        };
        let conversation_id = match read_text(m, "conversation_id") {
            Some(v) => v,
            None => {
                return None;
            },
        };
        let message_id = match read_id(m, "message_id") {
            Some(v) => v,
            None => {
                return None;
            },
        };
        let sender_id = match read_i32(m, "sender_id") {
            Some(v) => v,
            None => {
                return None;
            },
        };
        let recipient_id = match read_i32(m, "recipient_id") {
            Some(v) => v,
            None => {
                return None;
            },
        };
        let message_text = match read_text(m, "message_text") {
            Some(v) => v,
            None => {
                return None;
            },
        };
        let created_at = match read_i64(m, "created_at") {
            Some(v) => v,
            None => {
                return None;
            },
        };
        Some(
            ResponseDirectMessage {
                conversation_id,
                message_id,
                sender_id,
                recipient_id,
                message_text,
                created_at,
            },
        )
    }
}

/// The member `name` read as a list of stored messages.
fn read_messages(m: &Vec<(String, JsonValue)>, name: &str) -> (r: Option<Vec<ResponseDirectMessage>>)
    ensures
        messages_view(r) == as_messages(member(members_of(m@), name@)),
{
    let items = match JsonValue::find(m, name) {
        Some(value) => match value.as_list() {
            Some(items) => items,
            None => {
                return None;
            },
        },
        None => {
            return None;
        },
    };
    let ghost trees = items_of(items@);
    let mut out: Vec<ResponseDirectMessage> = Vec::new();
    let mut i: usize = 0;
    while i < items.len()
        invariant
            i <= items.len(),
            trees == items_of(items@),
            member(members_of(m@), name@) == Some(JsonTree::List(trees)),
            out@.len() == i,
            forall|j: int| 0 <= j < i ==> as_stored_message(trees[j]) == Some(#[trigger] out@[j]@),
        decreases items.len() - i,
    {
        match ResponseDirectMessage::from_json(&items[i]) {
            Some(message) => {
                out.push(message);
            },
            None => {
                assert(as_stored_message(trees[i as int]) is None);
                return None;
            },
        }
        i += 1;
    }
    proof {
        assert forall|j: int| 0 <= j < trees.len() implies (#[trigger] as_stored_message(
            trees[j],
        )) is Some by {
            assert(as_stored_message(trees[j]) == Some(out@[j]@));
        }
        assert(message_views(out@) =~= Seq::new(
            trees.len(),
            |j: int| as_stored_message(trees[j]).unwrap(),
        ));
    }
    Some(out)
}

/// The reading of an outcome of decoding.
pub open spec fn decoded_view(r: Result<ChatMessage, DecodeError>) -> Result<FrameView, DecodeError> {
    match r {
        Ok(frame) => Ok(frame@),
        Err(e) => Err(e),
    }
}

/// A frame whose fields were all read.
fn frame_or_none(frame: ChatMessage) -> (r: Option<Option<ChatMessage>>)
    ensures
        r == Some(Some(frame)),
{
    Some(Some(frame))
}

/// The fields of the variant `name` read from the members of its object.
fn decode_variant(name: &String, m: &Vec<(String, JsonValue)>) -> (r: Option<Option<ChatMessage>>)
    ensures
        match r {
            None => decode_fields(name@, members_of(m@)) is None,
            Some(None) => decode_fields(name@, members_of(m@)) == Some(None::<FrameView>),
            Some(Some(frame)) => decode_fields(name@, members_of(m@)) == Some(Some(frame@)),
        },
{
    if *name == owned("SendDirectMessage") {
        let to = read_i32(m, "to");
        let content = read_text(m, "content");
        let client_message_id = read_id(m, "client_message_id");
        match (to, content, client_message_id) {
            (Some(to), Some(content), Some(client_message_id)) => frame_or_none(
                ChatMessage::SendDirectMessage { to, content, client_message_id },
            ),
            _ => Some(None),
        }
    } else if *name == owned("DirectMessage") {
        let from = read_i32(m, "from");
        let content = read_text(m, "content");
        let server_message_id = read_id(m, "server_message_id");
        let timestamp = read_i64(m, "timestamp");
        match (from, content, server_message_id, timestamp) {
            (Some(from), Some(content), Some(server_message_id), Some(timestamp)) => frame_or_none(
                ChatMessage::DirectMessage { from, content, server_message_id, timestamp },
            ),
            _ => Some(None),
        }
    } else if *name == owned("Presence") {
        let user = read_i32(m, "user");
        let status = read_presence(m, "status");
        match (user, status) {
            (Some(user), Some(status)) => frame_or_none(ChatMessage::Presence { user, status }),
            _ => Some(None),
        }
    } else if *name == owned("MessageAck") {
        let client_message_id = read_id(m, "client_message_id");
        let message_id = read_id(m, "message_id");
        let timestamp = read_i64(m, "timestamp");
        let status = read_status(m, "status");
        match (client_message_id, message_id, timestamp, status) {
            (Some(client_message_id), Some(message_id), Some(timestamp), Some(status)) => {
                frame_or_none(
                    ChatMessage::MessageAck { client_message_id, message_id, timestamp, status },
                )
            },
            _ => Some(None),
        }
    } else if *name == owned("GetPaginatedMessages") {
        let message_id = read_optional_id(m, "message_id");
        let conversation_id = read_text(m, "conversation_id");
        match (message_id, conversation_id) {
            (Some(message_id), Some(conversation_id)) => frame_or_none(
                ChatMessage::GetPaginatedMessages { message_id, conversation_id },
            ),
            _ => Some(None),
        }
    } else if *name == owned("ChatHistoryResponse") {
        let messages = read_messages(m, "messages");
        let has_more = read_bool(m, "has_more");
        let next_cursor = read_optional_id(m, "next_cursor");
        match (messages, has_more, next_cursor) {
            (Some(messages), Some(has_more), Some(next_cursor)) => frame_or_none(
                ChatMessage::ChatHistoryResponse { messages, has_more, next_cursor },
            ),
            _ => Some(None),
        }
    } else if *name == owned("RoomMessage") {
        let room_id = read_text(m, "room_id");
        let from = read_i32(m, "from");
        let content = read_text(m, "content");
        let message_id = read_id(m, "message_id");
        match (room_id, from, content, message_id) {
            (Some(room_id), Some(from), Some(content), Some(message_id)) => frame_or_none(
                ChatMessage::RoomMessage { room_id, from, content, message_id },
            ),
            _ => Some(None),
        }
    } else if *name == owned("JoinRoom") {
        match read_text(m, "room_id") {
            Some(room_id) => frame_or_none(ChatMessage::JoinRoom { room_id }),
            None => Some(None),
        }
    } else if *name == owned("LeaveRoom") {
        match read_text(m, "room_id") {
            Some(room_id) => frame_or_none(ChatMessage::LeaveRoom { room_id }),
            None => Some(None),
        }
    } else if *name == owned("SyncMessages") {
        let conversation_id = read_text(m, "conversation_id");
        let message_id = read_id(m, "message_id");
        match (conversation_id, message_id) {
            (Some(conversation_id), Some(message_id)) => frame_or_none(
                ChatMessage::SyncMessages { conversation_id, message_id },
            ),
            _ => Some(None),
        }
    } else if *name == owned("SyncMessagesResponse") {
        match read_messages(m, "messages") {
            Some(messages) => frame_or_none(ChatMessage::SyncMessagesResponse { messages }),
            None => Some(None),
        }
    } else {
        None
    }
}

impl ChatMessage {
    /// Reads a frame from a document. The document must be an object with
    /// exactly one member; the member's name must be a variant's; and the
    /// member must hold an object with the variant's fields, each of its
    /// type. Members that the variant does not know are passed over.
    pub fn from_json(value: &JsonValue) -> (r: Result<ChatMessage, DecodeError>)
        ensures
            decoded_view(r) == decode_tree(value@),
    {
        let outer = match value.as_object() {
            Some(outer) => outer,
            None => {
                return Err(DecodeError::Shape);
            },
        };
        if outer.len() != 1 {
            return Err(DecodeError::Shape);
        }
        assert(members_of(outer@)[0] == (outer@[0].0@, outer@[0].1@));
        let none: Vec<(String, JsonValue)> = Vec::new();
        assert(members_of(none@) =~= Seq::empty());
        if decode_variant(&outer[0].0, &none).is_none() {
            return Err(DecodeError::UnknownVariant);
        }
        let m = match outer[0].1.as_object() {
            Some(m) => m,
            None => {
                return Err(DecodeError::Field);
            },
        };
        match decode_variant(&outer[0].0, m) {
            Some(Some(frame)) => Ok(frame),
            _ => Err(DecodeError::Field),
        }
    }

    /// Reads a frame from its text on the wire.
    pub fn decode(text: &str) -> (r: Result<ChatMessage, DecodeError>)
        ensures
            decoded_view(r) == decode_text(text@),
    {
        match JsonValue::parse(text) {
            Some(value) => ChatMessage::from_json(&value),
            None => Err(DecodeError::Syntax),
        }
    }
}

/// The sender that a document claims for its frame, if it names one: the
/// whole number in the field `from`, whether the variant knows that field or
/// not.
pub fn sender_claim(value: &JsonValue) -> (r: Option<i32>)
    ensures
        r == claimed_sender(value@),
{
    let outer = match value.as_object() {
        Some(outer) => outer,
        None => {
            return None;
        },
    };
    if outer.len() != 1 {
        return None;
    }
    assert(members_of(outer@)[0] == (outer@[0].0@, outer@[0].1@));
    match outer[0].1.as_object() {
        Some(m) => read_i32(m, "from"),
        None => None,
    }
}

/// The document of an identifier: its hyphenated text.
pub open spec fn id_tree(id: MessageId) -> JsonTree {
    JsonTree::Text(uuid_text(id.value))
}

/// The document of an identifier that may be absent: `null` where it is.
pub open spec fn optional_id_tree(id: Option<MessageId>) -> JsonTree {
    match id {
        Some(id) => id_tree(id),
        None => JsonTree::Null,
    }
}

/// The document of a message status.
pub open spec fn status_tree(status: StatusView) -> JsonTree {
    match status {
        StatusView::Delivered => JsonTree::Text("Delivered"@),
        StatusView::Persisted => JsonTree::Text("Persisted"@),
        StatusView::Failed(reason) => JsonTree::Object(seq![("Failed"@, JsonTree::Text(reason))]),
    }
}

/// The document of a presence status.
pub open spec fn presence_tree(status: PresenceStatus) -> JsonTree {
    match status {
        PresenceStatus::Online => JsonTree::Text("Online"@),
        PresenceStatus::Offline => JsonTree::Text("Offline"@),
    }
}

/// The document of a stored message.
pub open spec fn stored_message_tree(m: StoredMessageView) -> JsonTree {
    JsonTree::Object(
        seq![
            ("conversation_id"@, JsonTree::Text(m.conversation_id)),
            ("message_id"@, id_tree(m.message_id)),
            ("sender_id"@, JsonTree::Int(m.sender_id as i64)),
            ("recipient_id"@, JsonTree::Int(m.recipient_id as i64)),
            ("message_text"@, JsonTree::Text(m.message_text)),
            ("created_at"@, JsonTree::Int(m.created_at)),
        ],
    )
}

/// The document of a list of stored messages.
pub open spec fn messages_tree(messages: Seq<StoredMessageView>) -> JsonTree {
    JsonTree::List(Seq::new(messages.len(), |i: int| stored_message_tree(messages[i])))
}

/// The name under which a frame travels.
pub open spec fn variant_name(frame: FrameView) -> Seq<char> {
    match frame {
        FrameView::SendDirectMessage { .. } => "SendDirectMessage"@,
        FrameView::DirectMessage { .. } => "DirectMessage"@,
        FrameView::Presence { .. } => "Presence"@,
        FrameView::MessageAck { .. } => "MessageAck"@,
        FrameView::GetPaginatedMessages { .. } => "GetPaginatedMessages"@,
        FrameView::ChatHistoryResponse { .. } => "ChatHistoryResponse"@,
        FrameView::RoomMessage { .. } => "RoomMessage"@,
        FrameView::JoinRoom { .. } => "JoinRoom"@,
        FrameView::LeaveRoom { .. } => "LeaveRoom"@,
        FrameView::SyncMessages { .. } => "SyncMessages"@,
        FrameView::SyncMessagesResponse { .. } => "SyncMessagesResponse"@,
    }
}

/// The fields of a frame, in the order in which they travel.
pub open spec fn frame_fields(frame: FrameView) -> Seq<(Seq<char>, JsonTree)> {
    match frame {
        FrameView::SendDirectMessage { to, content, client_message_id } => seq![
            ("to"@, JsonTree::Int(to as i64)),
            ("content"@, JsonTree::Text(content)),
            ("client_message_id"@, id_tree(client_message_id)),
        ],
        FrameView::DirectMessage { from, content, server_message_id, timestamp } => seq![
            ("from"@, JsonTree::Int(from as i64)),
            ("content"@, JsonTree::Text(content)),
            ("server_message_id"@, id_tree(server_message_id)),
            ("timestamp"@, JsonTree::Int(timestamp)),
        ],
        FrameView::Presence { user, status } => seq![
            ("user"@, JsonTree::Int(user as i64)),
            ("status"@, presence_tree(status)),
        ],
        FrameView::MessageAck { client_message_id, message_id, timestamp, status } => seq![
            ("client_message_id"@, id_tree(client_message_id)),
            ("message_id"@, id_tree(message_id)),
            ("timestamp"@, JsonTree::Int(timestamp)),
            ("status"@, status_tree(status)),
        ],
        FrameView::GetPaginatedMessages { message_id, conversation_id } => seq![
            ("message_id"@, optional_id_tree(message_id)),
            ("conversation_id"@, JsonTree::Text(conversation_id)),
        ],
        FrameView::ChatHistoryResponse { messages, has_more, next_cursor } => seq![
            ("messages"@, messages_tree(messages)),
            ("has_more"@, JsonTree::Bool(has_more)),
            ("next_cursor"@, optional_id_tree(next_cursor)),
        ],
        FrameView::RoomMessage { room_id, from, content, message_id } => seq![
            ("room_id"@, JsonTree::Text(room_id)),
            ("from"@, JsonTree::Int(from as i64)),
            ("content"@, JsonTree::Text(content)),
            ("message_id"@, id_tree(message_id)),
        ],
        FrameView::JoinRoom { room_id } => seq![("room_id"@, JsonTree::Text(room_id))],
        FrameView::LeaveRoom { room_id } => seq![("room_id"@, JsonTree::Text(room_id))],
        FrameView::SyncMessages { conversation_id, message_id } => seq![
            ("conversation_id"@, JsonTree::Text(conversation_id)),
            ("message_id"@, id_tree(message_id)),
        ],
        FrameView::SyncMessagesResponse { messages } => seq![("messages"@, messages_tree(messages))],
    }
}

/// The document of a frame: an object whose only member is named after the
/// variant and holds the object of its fields.
pub open spec fn frame_tree(frame: FrameView) -> JsonTree {
    JsonTree::Object(seq![(variant_name(frame), JsonTree::Object(frame_fields(frame)))])
}

/// The text of an identifier is read back as the identifier.
pub open spec fn prints_back(id: MessageId) -> bool {
    uuid_parse(uuid_text(id.value)) == parsed(id.value)
}

/// The same of an identifier that may be absent.
pub open spec fn optional_prints_back(id: Option<MessageId>) -> bool {
    match id {
        Some(id) => prints_back(id),
        None => true,
    }
}

/// The same of the identifier of each message of a list.
pub open spec fn messages_print_back(messages: Seq<StoredMessageView>) -> bool {
    forall|i: int| 0 <= i < messages.len() ==> prints_back((#[trigger] messages[i]).message_id)
}

/// The same of every identifier that a frame holds.
pub open spec fn frame_prints_back(frame: FrameView) -> bool {
    match frame {
        FrameView::SendDirectMessage { client_message_id, .. } => prints_back(client_message_id),
        FrameView::DirectMessage { server_message_id, .. } => prints_back(server_message_id),
        FrameView::Presence { .. } => true,
        FrameView::MessageAck { client_message_id, message_id, .. } => prints_back(
            client_message_id,
        ) && prints_back(message_id),
        FrameView::GetPaginatedMessages { message_id, .. } => optional_prints_back(message_id),
        FrameView::ChatHistoryResponse { messages, next_cursor, .. } => messages_print_back(
            messages,
        ) && optional_prints_back(next_cursor),
        FrameView::RoomMessage { message_id, .. } => prints_back(message_id),
        FrameView::JoinRoom { .. } => true,
        FrameView::LeaveRoom { .. } => true,
        FrameView::SyncMessages { message_id, .. } => prints_back(message_id),
        FrameView::SyncMessagesResponse { messages } => messages_print_back(messages),
    }
}

/// What the names of the wire format hold, character by character.
proof fn lemma_names()
    ensures
        "to"@ == seq!['t', 'o'],
        "content"@ == seq!['c', 'o', 'n', 't', 'e', 'n', 't'],
        "client_message_id"@.len() == 17 && "client_message_id"@[0] == 'c' && "client_message_id"@[1]
            == 'l',
        "from"@ == seq!['f', 'r', 'o', 'm'],
        "server_message_id"@.len() == 17 && "server_message_id"@[0] == 's',
        "timestamp"@.len() == 9 && "timestamp"@[0] == 't',
        "user"@ == seq!['u', 's', 'e', 'r'],
        "status"@.len() == 6 && "status"@[0] == 's',
        "message_id"@.len() == 10 && "message_id"@[0] == 'm',
        "conversation_id"@.len() == 15 && "conversation_id"@[0] == 'c',
        "messages"@.len() == 8 && "messages"@[0] == 'm',
        "has_more"@.len() == 8 && "has_more"@[0] == 'h',
        "next_cursor"@.len() == 11 && "next_cursor"@[0] == 'n',
        "room_id"@.len() == 7 && "room_id"@[0] == 'r',
        "sender_id"@.len() == 9 && "sender_id"@[0] == 's',
        "recipient_id"@.len() == 12 && "recipient_id"@[0] == 'r',
        "message_text"@.len() == 12 && "message_text"@[0] == 'm',
        "created_at"@.len() == 10 && "created_at"@[0] == 'c',
        "Delivered"@.len() == 9 && "Delivered"@[0] == 'D',
        "Persisted"@.len() == 9 && "Persisted"@[0] == 'P',
        "Failed"@.len() == 6,
        "Online"@.len() == 6 && "Online"@[1] == 'n',
        "Offline"@.len() == 7,
{
    reveal_strlit("to");
    reveal_strlit("content");
    reveal_strlit("client_message_id");
    reveal_strlit("from");
    reveal_strlit("server_message_id");
    reveal_strlit("timestamp");
    reveal_strlit("user");
    reveal_strlit("status");
    reveal_strlit("message_id");
    reveal_strlit("conversation_id");
    reveal_strlit("messages");
    reveal_strlit("has_more");
    reveal_strlit("next_cursor");
    reveal_strlit("room_id");
    reveal_strlit("sender_id");
    reveal_strlit("recipient_id");
    reveal_strlit("message_text");
    reveal_strlit("created_at");
    reveal_strlit("Delivered");
    reveal_strlit("Persisted");
    reveal_strlit("Failed");
    reveal_strlit("Online");
    reveal_strlit("Offline");
    assert("to"@ =~= seq!['t', 'o']);
    assert("content"@ =~= seq!['c', 'o', 'n', 't', 'e', 'n', 't']);
    assert("from"@ =~= seq!['f', 'r', 'o', 'm']);
    assert("user"@ =~= seq!['u', 's', 'e', 'r']);
}

/// What the names of the variants hold: their lengths, and a character
/// that tells apart those of equal length.
proof fn lemma_variant_names()
    ensures
        "SendDirectMessage"@.len() == 17,
        "DirectMessage"@.len() == 13,
        "Presence"@.len() == 8 && "Presence"@[0] == 'P',
        "MessageAck"@.len() == 10,
        "GetPaginatedMessages"@.len() == 20 && "GetPaginatedMessages"@[0] == 'G',
        "ChatHistoryResponse"@.len() == 19,
        "RoomMessage"@.len() == 11,
        "JoinRoom"@.len() == 8 && "JoinRoom"@[0] == 'J',
        "LeaveRoom"@.len() == 9,
        "SyncMessages"@.len() == 12,
        "SyncMessagesResponse"@.len() == 20 && "SyncMessagesResponse"@[0] == 'S',
{
    reveal_strlit("SendDirectMessage");
    reveal_strlit("DirectMessage");
    reveal_strlit("Presence");
    reveal_strlit("MessageAck");
    reveal_strlit("GetPaginatedMessages");
    reveal_strlit("ChatHistoryResponse");
    reveal_strlit("RoomMessage");
    reveal_strlit("JoinRoom");
    reveal_strlit("LeaveRoom");
    reveal_strlit("SyncMessages");
    reveal_strlit("SyncMessagesResponse");
}

/// A status is read back from its document.
pub proof fn lemma_status_reads_back(status: StatusView)
    ensures
        as_status(Some(status_tree(status))) == Some(status),
{
    lemma_names();
}

/// A presence status is read back from its document.
pub proof fn lemma_presence_reads_back(status: PresenceStatus)
    ensures
        as_presence(Some(presence_tree(status))) == Some(status),
{
    lemma_names();
}

/// A stored message is read back from its document.
pub proof fn lemma_stored_message_reads_back(m: StoredMessageView)
    requires
        prints_back(m.message_id),
    ensures
        as_stored_message(stored_message_tree(m)) == Some(m),
{
    lemma_names();
    reveal_with_fuel(member, 8);
}

/// A list of stored messages is read back from its document.
pub proof fn lemma_messages_read_back(messages: Seq<StoredMessageView>)
    requires
        messages_print_back(messages),
    ensures
        as_messages(Some(messages_tree(messages))) == Some(messages),
{
    let items = Seq::new(messages.len(), |i: int| stored_message_tree(messages[i]));
    assert forall|i: int| 0 <= i < items.len() implies (#[trigger] as_stored_message(items[i]))
        == Some(messages[i]) by {
        lemma_stored_message_reads_back(messages[i]);
    }
    assert(Seq::new(items.len(), |i: int| as_stored_message(items[i]).unwrap()) =~= messages);
}

/// Encoding a frame and decoding the document gives the frame back, provided
/// that the text of each identifier in it is read back as that identifier.
pub proof fn lemma_frame_reads_back(frame: FrameView)
    requires
        frame_prints_back(frame),
    ensures
        decode_tree(frame_tree(frame)) == Ok::<FrameView, DecodeError>(frame),
{
    lemma_names();
    lemma_variant_names();
    reveal_with_fuel(member, 8);
    let m = frame_fields(frame);
    match frame {
        FrameView::MessageAck { status, .. } => {
            lemma_status_reads_back(status);
        },
        FrameView::Presence { status, .. } => {
            lemma_presence_reads_back(status);
        },
        FrameView::ChatHistoryResponse { messages, .. } => {
            lemma_messages_read_back(messages);
        },
        FrameView::SyncMessagesResponse { messages } => {
            lemma_messages_read_back(messages);
        },
        _ => {},
    }
    assert(decode_fields(variant_name(frame), m) == Some(Some(frame)));
}

/// A member that holds a whole number.
fn int_member(name: &str, n: i64) -> (r: (String, JsonValue))
    ensures
        r.0@ == name@,
        r.1@ == JsonTree::Int(n),
{
    (owned(name), JsonValue::Int(n))
}

/// A member that holds a truth value.
fn bool_member(name: &str, b: bool) -> (r: (String, JsonValue))
    ensures
        r.0@ == name@,
        r.1@ == JsonTree::Bool(b),
{
    (owned(name), JsonValue::Bool(b))
}

/// A member that holds a text.
fn text_member(name: &str, text: &String) -> (r: (String, JsonValue))
    ensures
        r.0@ == name@,
        r.1@ == JsonTree::Text(text@),
{
    (owned(name), JsonValue::Text(text.clone()))
}

/// A member that holds an identifier.
fn id_member(name: &str, id: MessageId) -> (r: (String, JsonValue))
    ensures
        r.0@ == name@,
        r.1@ == id_tree(id),
        prints_back(id),
{
    (owned(name), JsonValue::Text(id.to_text()))
}

/// A member that holds an identifier or `null`.
fn optional_id_member(name: &str, id: Option<MessageId>) -> (r: (String, JsonValue))
    ensures
        r.0@ == name@,
        r.1@ == optional_id_tree(id),
        optional_prints_back(id),
{
    match id {
        Some(id) => id_member(name, id),
        None => (owned(name), JsonValue::Null),
    }
}

/// A member that holds a message status.
fn status_member(name: &str, status: &MessageStatus) -> (r: (String, JsonValue))
    ensures
        r.0@ == name@,
        r.1@ == status_tree(status@),
{
    let value = match status {
        MessageStatus::Delivered => JsonValue::Text(owned("Delivered")),
        MessageStatus::Persisted => JsonValue::Text(owned("Persisted")),
        MessageStatus::Failed(reason) => {
            let mut inner: Vec<(String, JsonValue)> = Vec::new();
            inner.push(text_member("Failed", reason));
            assert(members_of(inner@) =~= seq![("Failed"@, JsonTree::Text(reason@))]);
            JsonValue::object(inner)
        },
    };
    (owned(name), value)
}

/// A member that holds a presence status.
fn presence_member(name: &str, status: PresenceStatus) -> (r: (String, JsonValue))
    ensures
        r.0@ == name@,
        r.1@ == presence_tree(status),
{
    let value = match status {
        PresenceStatus::Online => JsonValue::Text(owned("Online")),
        PresenceStatus::Offline => JsonValue::Text(owned("Offline")),
    };
    (owned(name), value)
}

impl ResponseDirectMessage {
    /// The document of the stored message.
    pub fn to_json(&self) -> (r: JsonValue)
        ensures
            r@ == stored_message_tree(self@),
            as_stored_message(r@) == Some(self@),
            prints_back(self@.message_id),
    {
        let mut m: Vec<(String, JsonValue)> = Vec::new();
        m.push(text_member("conversation_id", &self.conversation_id));
        m.push(id_member("message_id", self.message_id));
        m.push(int_member("sender_id", self.sender_id as i64));
        m.push(int_member("recipient_id", self.recipient_id as i64));
        m.push(text_member("message_text", &self.message_text));
        m.push(int_member("created_at", self.created_at));
        proof {
            assert(members_of(m@) =~= stored_message_tree(self@)->Object_0);
            lemma_stored_message_reads_back(self@);
        }
        JsonValue::object(m)
    }
}

/// A member that holds a list of stored messages.
fn messages_member(name: &str, messages: &Vec<ResponseDirectMessage>) -> (r: (String, JsonValue))
    ensures
        r.0@ == name@,
        r.1@ == messages_tree(message_views(messages@)),
        messages_print_back(message_views(messages@)),
{
    let mut items: Vec<JsonValue> = Vec::new();
    let mut i: usize = 0;
    while i < messages.len()
        invariant
            i <= messages.len(),
            items@.len() == i,
            forall|j: int| 0 <= j < i ==> (#[trigger] items@[j])@ == stored_message_tree(messages@[j]@),
            forall|j: int| 0 <= j < i ==> prints_back((#[trigger] messages@[j])@.message_id),
        decreases messages.len() - i,
    {
        let item = messages[i].to_json();
        items.push(item);
        i += 1;
    }
    proof {
        assert(items_of(items@) =~= messages_tree(message_views(messages@))->List_0);
        assert forall|j: int| 0 <= j < message_views(messages@).len() implies prints_back(
            (#[trigger] message_views(messages@)[j]).message_id,
        ) by {
            assert(prints_back(messages@[j]@.message_id));
        }
    }
    (owned(name), JsonValue::list(items))
}

/// The document of a variant with its fields.
fn wrap(variant: &str, fields: Vec<(String, JsonValue)>) -> (r: JsonValue)
    ensures
        r@ == JsonTree::Object(seq![(variant@, JsonTree::Object(members_of(fields@)))]),
{
    let mut outer: Vec<(String, JsonValue)> = Vec::new();
    outer.push((owned(variant), JsonValue::object(fields)));
    assert(members_of(outer@) =~= seq![(variant@, JsonTree::Object(members_of(fields@)))]);
    JsonValue::object(outer)
}

impl ChatMessage {
    /// The document of the frame. Reading it with [`ChatMessage::from_json`]
    /// gives the frame back.
    pub fn to_json(&self) -> (r: JsonValue)
        ensures
            r@ == frame_tree(self@),
            decode_tree(r@) == Ok::<FrameView, DecodeError>(self@),
    {
        let mut m: Vec<(String, JsonValue)> = Vec::new();
        let r = match self {
            ChatMessage::SendDirectMessage { to, content, client_message_id } => {
                m.push(int_member("to", *to as i64));
                m.push(text_member("content", content));
                m.push(id_member("client_message_id", *client_message_id));
                assert(members_of(m@) =~= frame_fields(self@));
                wrap("SendDirectMessage", m)
            },
            ChatMessage::DirectMessage { from, content, server_message_id, timestamp } => {
                m.push(int_member("from", *from as i64));
                m.push(text_member("content", content));
                m.push(id_member("server_message_id", *server_message_id));
                m.push(int_member("timestamp", *timestamp));
                assert(members_of(m@) =~= frame_fields(self@));
                wrap("DirectMessage", m)
            },
            ChatMessage::Presence { user, status } => {
                m.push(int_member("user", *user as i64));
                m.push(presence_member("status", *status));
                assert(members_of(m@) =~= frame_fields(self@));
                wrap("Presence", m)
            },
            ChatMessage::MessageAck { client_message_id, message_id, timestamp, status } => {
                m.push(id_member("client_message_id", *client_message_id));
                m.push(id_member("message_id", *message_id));
                m.push(int_member("timestamp", *timestamp));
                m.push(status_member("status", status));
                assert(members_of(m@) =~= frame_fields(self@));
                wrap("MessageAck", m)
            },
            ChatMessage::GetPaginatedMessages { message_id, conversation_id } => {
                m.push(optional_id_member("message_id", *message_id));
                m.push(text_member("conversation_id", conversation_id));
                assert(members_of(m@) =~= frame_fields(self@));
                wrap("GetPaginatedMessages", m)
            },
            ChatMessage::ChatHistoryResponse { messages, has_more, next_cursor } => {
                m.push(messages_member("messages", messages));
                m.push(bool_member("has_more", *has_more));
                m.push(optional_id_member("next_cursor", *next_cursor));
                assert(members_of(m@) =~= frame_fields(self@));
                wrap("ChatHistoryResponse", m)
            },
            ChatMessage::RoomMessage { room_id, from, content, message_id } => {
                m.push(text_member("room_id", room_id));
                m.push(int_member("from", *from as i64));
                m.push(text_member("content", content));
                m.push(id_member("message_id", *message_id));
                assert(members_of(m@) =~= frame_fields(self@));
                wrap("RoomMessage", m)
            },
            ChatMessage::JoinRoom { room_id } => {
                m.push(text_member("room_id", room_id));
                assert(members_of(m@) =~= frame_fields(self@));
                wrap("JoinRoom", m)
            },
            ChatMessage::LeaveRoom { room_id } => {
                m.push(text_member("room_id", room_id));
                assert(members_of(m@) =~= frame_fields(self@));
                wrap("LeaveRoom", m)
            },
            ChatMessage::SyncMessages { conversation_id, message_id } => {
                m.push(text_member("conversation_id", conversation_id));
                m.push(id_member("message_id", *message_id));
                assert(members_of(m@) =~= frame_fields(self@));
                wrap("SyncMessages", m)
            },
            ChatMessage::SyncMessagesResponse { messages } => {
                m.push(messages_member("messages", messages));
                assert(members_of(m@) =~= frame_fields(self@));
                wrap("SyncMessagesResponse", m)
            },
        };
        proof {
            lemma_frame_reads_back(self@);
        }
        r
    }

    /// The text of the frame on the wire.
    pub fn encode(&self) -> (r: String)
        ensures
            r@ == json_text(frame_tree(self@)),
    {
        self.to_json().to_text()
    }
}

/// Where the reader of documents reads back what the printer printed for a
/// frame, decoding the text of the frame gives the frame back.
pub proof fn lemma_text_reads_back(frame: FrameView)
    requires
        frame_prints_back(frame),
        json_parse(json_text(frame_tree(frame))) == Some(frame_tree(frame)),
    ensures
        decode_text(json_text(frame_tree(frame))) == Ok::<FrameView, DecodeError>(frame),
{
    lemma_frame_reads_back(frame);
}

} // verus!
