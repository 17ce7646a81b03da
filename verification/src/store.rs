//! The persistence service's side of the contract: how a write request
//! becomes a stored message, how a cursor is read, and how a page of
//! history is answered.

use crate::chat::{ResponseDirectMessage, StoredMessageView};
use crate::conversation::{conversation_id, conversation_key};
use crate::message_id::{uuid_parse, uuid_text, MessageId};
use crate::persistence::{
    GetPaginatedMessagesResponse, StoredMessage, WriteDmRequest, WriteResponse,
    WriteRoomMessageRequest,
};
use crate::text::{owned, prefixed};
use crate::json::{json_parse, json_text, member, members_of, JsonTree, JsonValue};
use crate::wire::{
    as_i32, as_i64, as_id, as_stored_message, as_text, id_of_text, id_tree, read_i32, read_i64,
    read_id, read_text, stored_message_tree,
};
use vstd::prelude::*;
use vstd::string::*;

verus! {

/// Whether a character is white space in the sense of Unicode.
pub open spec fn is_white_space(c: char) -> bool {
    let n = c as u32;
    (0x09 <= n && n <= 0x0D) || n == 0x20 || n == 0x85 || n == 0xA0 || n == 0x1680 || (0x2000 <= n
        && n <= 0x200A) || n == 0x2028 || n == 0x2029 || n == 0x202F || n == 0x205F || n == 0x3000
}

/// Whether a text holds nothing but white space, so that nothing is left of
/// it once it is trimmed.
pub open spec fn is_blank(text: Seq<char>) -> bool {
    forall|i: int| 0 <= i < text.len() ==> is_white_space(#[trigger] text[i])
}

/// The number of messages in a full page.
pub const PAGE_SIZE: usize = 50;

/// A direct message as it is stored.
pub type DirectMessage = ResponseDirectMessage;

/// A room message as it is stored.
#[derive(Clone, Debug, PartialEq, Eq)]
pub struct RoomMessage {
    pub room_id: String,
    pub message_id: MessageId,
    pub from: i32,
    pub content: String,
    pub created_at: i64,
}

/// The stored form of a direct message, given the identifier that its text
/// spells.
pub open spec fn stored_dm(
    sender_id: i32,
    recipient_id: i32,
    message_text: Seq<char>,
    message_id: MessageId,
    timestamp: i64,
) -> StoredMessageView {
    StoredMessageView {
        conversation_id: conversation_key(sender_id, recipient_id),
        message_id,
        sender_id,
        recipient_id,
        message_text,
        created_at: timestamp,
    }
}

/// The direct message to store for a write request: it belongs to the
/// conversation of the two users, whichever of them sends. The identifier
/// must be one; the error is the reason why it is none.
pub fn create_dm(
    sender_id: i32,
    recipient_id: i32,
    message_text: String,
    message_id: &str,
    timestamp: i64,
) -> (r: Result<DirectMessage, String>)
    ensures
        match uuid_parse(message_id@) {
            Ok(value) => r matches Ok(dm) && dm@ == stored_dm(
                sender_id,
                recipient_id,
                message_text@,
                MessageId { value },
                timestamp,
            ),
            Err(reason) => r matches Err(e) && e@ == reason,
        },
{
    let id = match MessageId::parse(message_id) {
        Ok(id) => id,
        Err(e) => {
            return Err(e);
        },
    };
    Ok(
        ResponseDirectMessage {
            conversation_id: conversation_id(sender_id, recipient_id),
            message_id: id,
            sender_id,
            recipient_id,
            message_text,
            created_at: timestamp,
        },
    )
}

/// The room message to store for a write request. The identifier must be
/// one; the error is the reason why it is none.
pub fn create_room_message(
    room_id: String,
    from: i32,
    content: String,
    message_id: &str,
    timestamp: i64,
) -> (r: Result<RoomMessage, String>)
    ensures
        match uuid_parse(message_id@) {
            Ok(value) => r matches Ok(m) && m.room_id@ == room_id@ && m.message_id == (MessageId {
                value,
            }) && m.from == from && m.content@ == content@ && m.created_at == timestamp,
            Err(reason) => r matches Err(e) && e@ == reason,
        },
{
    let id = match MessageId::parse(message_id) {
        Ok(id) => id,
        Err(e) => {
            return Err(e);
        },
    };
    Ok(RoomMessage { room_id, message_id: id, from, content, created_at: timestamp })
}

/// The broker's word on a published message.
#[derive(Clone, Copy, Debug, PartialEq, Eq, Structural)]
pub enum Confirmation {
    Ack,
    Nack,
    NotRequested,
}

/// Whether a published message counts as queued: only an acknowledged one
/// does.
pub fn confirmation_outcome(confirmation: Confirmation) -> (r: Result<(), String>)
    ensures
        match confirmation {
            Confirmation::Ack => r is Ok,
            Confirmation::Nack => r matches Err(e) && e@ == "Message was nacked by RabbitMQ"@,
            Confirmation::NotRequested => r matches Err(e) && e@
                == "Publisher confirmation was not requested"@,
        },
{
    match confirmation {
        Confirmation::Ack => Ok(()),
        Confirmation::Nack => Err(owned("Message was nacked by RabbitMQ")),
        Confirmation::NotRequested => Err(owned("Publisher confirmation was not requested")),
    }
}

/// The answer to a write request whose message could not be made.
pub fn creation_failed(what: &str, reason: &str) -> (r: WriteResponse)
    ensures
        !r.success,
        r.error_message@ == what@ + reason@,
{
    WriteResponse { success: false, error_message: prefixed(what, reason) }
}

/// `WriteDm`, first half: the message to queue, or the answer to a request
/// whose identifier is none.
pub fn write_dm(request: WriteDmRequest) -> (r: Result<DirectMessage, WriteResponse>)
    ensures
        match uuid_parse(request.message_id@) {
            Ok(value) => r matches Ok(dm) && dm@ == stored_dm(
                request.sender_id,
                request.receiver_id,
                request.message@,
                MessageId { value },
                request.timestamp,
            ),
            Err(reason) => r matches Err(answer) && !answer.success && answer.error_message@
                == "Failed to create message: "@ + reason,
        },
{
    match create_dm(
        request.sender_id,
        request.receiver_id,
        request.message,
        request.message_id.as_str(),
        request.timestamp,
    ) {
        Ok(dm) => Ok(dm),
        Err(e) => Err(creation_failed("Failed to create message: ", e.as_str())),
    }
}

/// `WriteRoomMessage`, first half: the message to queue, or the answer to a
/// request whose identifier is none.
pub fn write_room_message(request: WriteRoomMessageRequest) -> (r: Result<
    RoomMessage,
    WriteResponse,
>)
    ensures
        match uuid_parse(request.message_id@) {
            Ok(value) => r matches Ok(m) && m.room_id@ == request.room_id@ && m.message_id
                == (MessageId { value }) && m.from == request.from && m.content@
                == request.content@ && m.created_at == request.timestamp,
            Err(reason) => r matches Err(answer) && !answer.success && answer.error_message@
                == "Failed to create room message: "@ + reason,
        },
{
    match create_room_message(
        request.room_id,
        request.from,
        request.content,
        request.message_id.as_str(),
        request.timestamp,
    ) {
        Ok(m) => Ok(m),
        Err(e) => Err(creation_failed("Failed to create room message: ", e.as_str())),
    }
}

/// A write, second half: the answer once the message was handed to the
/// queue, or could not be; `what` says which kind of message it was.
pub fn queued_reply(what: &str, queued: Result<(), String>) -> (r: WriteResponse)
    ensures
        match queued {
            Ok(()) => r.success && r.error_message@.len() == 0,
            Err(e) => !r.success && r.error_message@ == what@ + e@,
        },
{
    match queued {
        Ok(()) => WriteResponse { success: true, error_message: String::new() },
        Err(e) => WriteResponse { success: false, error_message: prefixed(what, e.as_str()) },
    }
}

/// What a cursor text asks for: the most recent page where it is blank, the
/// page before an identifier where it spells one, and nothing otherwise.
pub open spec fn cursor_request(text: Seq<char>) -> Option<Option<MessageId>> {
    if is_blank(text) {
        Some(None)
    } else {
        match id_of_text(text) {
            Some(id) => Some(Some(id)),
            None => None,
        }
    }
}

/// The answer to a request for history that cannot be served.
pub fn page_failure(reason: String) -> (r: GetPaginatedMessagesResponse)
    ensures
        !r.success,
        r.error_message == reason,
        r.messages@.len() == 0,
        r.next_cursor@.len() == 0,
{
    GetPaginatedMessagesResponse {
        success: false,
        error_message: reason,
        messages: Vec::new(),
        next_cursor: String::new(),
    }
}

/// Reads the cursor of a request for history: see [`cursor_request`]. A
/// cursor that is neither blank nor an identifier is answered at once.
pub fn parse_cursor(text: &str) -> (r: Result<Option<MessageId>, GetPaginatedMessagesResponse>)
    ensures
        match r {
            Ok(cursor) => cursor_request(text@) == Some(cursor),
            Err(answer) => cursor_request(text@) is None && !answer.success
                && answer.error_message@ == "Invalid cursor_message_id"@ && answer.messages@.len()
                == 0 && answer.next_cursor@.len() == 0,
        },
{
    if blank(text) {
        return Ok(None);
    }
    match MessageId::parse(text) {
        Ok(id) => Ok(Some(id)),
        Err(_) => Err(page_failure(owned("Invalid cursor_message_id"))),
    }
}

/// The message as answers carry it: its identifier as hyphenated text.
pub open spec fn is_answer_of(answer: StoredMessage, message: StoredMessageView) -> bool {
    answer.conversation_id@ == message.conversation_id && answer.message_id@ == uuid_text(
        message.message_id.value,
    ) && answer.sender_id == message.sender_id && answer.recipient_id == message.recipient_id
        && answer.message_text@ == message.message_text && answer.created_at
        == message.created_at
}

/// The cursor that follows a page: the text of its last identifier, or the
/// empty text after an empty page.
pub open spec fn next_cursor(page: Seq<ResponseDirectMessage>) -> Seq<char> {
    if page.len() == 0 {
        Seq::empty()
    } else {
        uuid_text(page.last().message_id.value)
    }
}

/// The answer to a request for history: the page that the store returned,
/// message for message, with the cursor that follows it; or the store's
/// error.
pub fn page_reply(result: Result<Vec<DirectMessage>, String>) -> (r: GetPaginatedMessagesResponse)
    ensures
        match result {
            Ok(page) => r.success && r.error_message@.len() == 0 && r.messages@.len()
                == page@.len() && (forall|i: int|
                0 <= i < page@.len() ==> is_answer_of(#[trigger] r.messages@[i], page@[i]@))
                && r.next_cursor@ == next_cursor(page@),
            Err(e) => !r.success && r.error_message == e && r.messages@.len() == 0
                && r.next_cursor@.len() == 0,
        },
{
    match result {
        Err(e) => page_failure(e),
        Ok(page) => {
            let next = if page.len() == 0 {
                String::new()
            } else {
                page[page.len() - 1].message_id.to_text()
            };
            let mut messages: Vec<StoredMessage> = Vec::new();
            let mut i: usize = 0;
            while i < page.len()
                invariant
                    i <= page.len(),
                    messages@.len() == i,
                    forall|j: int| 0 <= j < i ==> is_answer_of(#[trigger] messages@[j], page@[j]@),
                decreases page.len() - i,
            {
                let m = &page[i];
                messages.push(
                    StoredMessage {
                        conversation_id: m.conversation_id.clone(),
                        message_id: m.message_id.to_text(),
                        sender_id: m.sender_id,
                        recipient_id: m.recipient_id,
                        message_text: m.message_text.clone(),
                        created_at: m.created_at,
                    },
                );
                i += 1;
            }
            GetPaginatedMessagesResponse {
                success: true,
                error_message: String::new(),
                messages,
                next_cursor: next,
            }
        },
    }
}

/// A room message as answers carry it.
#[derive(Clone, Debug, PartialEq, Eq)]
pub struct StoredRoomMessage {
    pub room_id: String,
    pub message_id: String,
    pub from: i32,
    pub content: String,
    pub created_at: i64,
}

/// The service's answer to a request for a page of a room's history.
#[derive(Clone, Debug, PartialEq, Eq)]
pub struct GetPaginatedRoomMessagesResponse {
    pub success: bool,
    pub error_message: String,
    pub messages: Vec<StoredRoomMessage>,
    pub next_cursor: String,
}

/// The room message as answers carry it: its identifier as hyphenated
/// text.
pub open spec fn is_room_answer_of(answer: StoredRoomMessage, message: RoomMessageView) -> bool {
    answer.room_id@ == message.room_id && answer.message_id@ == uuid_text(
        message.message_id.value,
    ) && answer.from == message.from && answer.content@ == message.content && answer.created_at
        == message.created_at
}

/// The cursor that follows a page of room messages.
pub open spec fn next_room_cursor(page: Seq<RoomMessage>) -> Seq<char> {
    if page.len() == 0 {
        Seq::empty()
    } else {
        uuid_text(page.last().message_id.value)
    }
}

/// The answer to a request for a room's history: as [`page_reply`].
pub fn room_page_reply(result: Result<Vec<RoomMessage>, String>) -> (r:
    GetPaginatedRoomMessagesResponse)
    ensures
        match result {
            Ok(page) => r.success && r.error_message@.len() == 0 && r.messages@.len()
                == page@.len() && (forall|i: int|
                0 <= i < page@.len() ==> is_room_answer_of(#[trigger] r.messages@[i], page@[i]@))
                && r.next_cursor@ == next_room_cursor(page@),
            Err(e) => !r.success && r.error_message == e && r.messages@.len() == 0
                && r.next_cursor@.len() == 0,
        },
{
    match result {
        Err(e) => GetPaginatedRoomMessagesResponse {
            success: false,
            error_message: e,
            messages: Vec::new(),
            next_cursor: String::new(),
        },
        Ok(page) => {
            let next = if page.len() == 0 {
                String::new()
            } else {
                page[page.len() - 1].message_id.to_text()
            };
            let mut messages: Vec<StoredRoomMessage> = Vec::new();
            let mut i: usize = 0;
            while i < page.len()
                invariant
                    i <= page.len(),
                    messages@.len() == i,
                    forall|j: int|
                        0 <= j < i ==> is_room_answer_of(#[trigger] messages@[j], page@[j]@),
                decreases page.len() - i,
            {
                let m = &page[i];
                messages.push(
                    StoredRoomMessage {
                        room_id: m.room_id.clone(),
                        message_id: m.message_id.to_text(),
                        from: m.from,
                        content: m.content.clone(),
                        created_at: m.created_at,
                    },
                );
                i += 1;
            }
            GetPaginatedRoomMessagesResponse {
                success: true,
                error_message: String::new(),
                messages,
                next_cursor: next,
            }
        },
    }
}

/// The page that the gateway makes of the messages which a document store
/// returned for a request: the cursor is the text of the last identifier,
/// and more is expected exactly after a full page.
pub fn document_page(messages: Vec<DirectMessage>) -> (r: crate::chat::PaginatedMessagesResponse)
    ensures
        r.messages == messages,
        r.has_more == (messages@.len() == PAGE_SIZE),
        crate::text::option_view(r.next_cursor) == if messages@.len() == 0 {
            None
        } else {
            Some(uuid_text(messages@.last().message_id.value))
        },
{
    let next_cursor = if messages.len() == 0 {
        None
    } else {
        Some(messages[messages.len() - 1].message_id.to_text())
    };
    let has_more = messages.len() == PAGE_SIZE;
    crate::chat::PaginatedMessagesResponse { messages, next_cursor, has_more }
}

/// Whether a list of identifiers is a page that answers a cursor: newest
/// first, no identifier twice, at most `PAGE_SIZE` of them, and each older
/// than the cursor where there is one.
pub open spec fn is_page(page: Seq<MessageId>, cursor: Option<MessageId>) -> bool {
    &&& page.len() <= PAGE_SIZE
    &&& forall|i: int, j: int| 0 <= i < j < page.len() ==> page[j].value < page[i].value
    &&& cursor matches Some(c) ==> forall|i: int| 0 <= i < page.len() ==> page[i].value < c.value
}

/// The page that answers the cursor which follows another page holds only
/// messages that are strictly older than every message of that page.
pub proof fn lemma_next_page_is_older(
    first: Seq<MessageId>,
    cursor: Option<MessageId>,
    second: Seq<MessageId>,
)
    requires
        first.len() > 0,
        is_page(first, cursor),
        is_page(second, Some(first.last())),
    ensures
        forall|i: int, j: int|
            0 <= i < first.len() && 0 <= j < second.len() ==> second[j].value < first[i].value,
{
    assert forall|i: int, j: int|
        0 <= i < first.len() && 0 <= j < second.len() implies second[j].value
        < first[i].value by {
        assert(second[j].value < first.last().value);
        if i < first.len() - 1 {
            assert(first[first.len() - 1].value < first[i].value);
        }
    }
}

/// The text under which a direct message waits in the queue.
pub fn queue_payload(message: &DirectMessage) -> (r: String)
    ensures
        r@ == json_text(stored_message_tree(message@)),
{
    message.to_json().to_text()
}

/// The direct message that a text from the queue holds, if it holds one.
pub fn read_queued_dm(text: &str) -> (r: Option<DirectMessage>)
    ensures
        match json_parse(text@) {
            Some(tree) => match r {
                Some(message) => as_stored_message(tree) == Some(message@),
                None => as_stored_message(tree) is None,
            },
            None => r is None,
        },
{
    match JsonValue::parse(text) {
        Some(value) => ResponseDirectMessage::from_json(&value),
        None => None,
    }
}

/// The reading of a stored room message.
pub struct RoomMessageView {
    pub room_id: Seq<char>,
    pub message_id: MessageId,
    pub from: i32,
    pub content: Seq<char>,
    pub created_at: i64,
}

impl View for RoomMessage {
    type V = RoomMessageView;

    open spec fn view(&self) -> RoomMessageView {
        RoomMessageView {
            room_id: self.room_id@,
            message_id: self.message_id,
            from: self.from,
            content: self.content@,
            created_at: self.created_at,
        }
    }
}

/// The reading of an optional stored room message.
pub open spec fn room_message_view(message: Option<RoomMessage>) -> Option<RoomMessageView> {
    match message {
        Some(m) => Some(m@),
        None => None,
    }
}

/// The document of a stored room message.
pub open spec fn room_message_tree(m: RoomMessageView) -> JsonTree {
    JsonTree::Object(
        seq![
            ("room_id"@, JsonTree::Text(m.room_id)),
            ("message_id"@, id_tree(m.message_id)),
            ("from"@, JsonTree::Int(m.from as i64)),
            ("content"@, JsonTree::Text(m.content)),
            ("created_at"@, JsonTree::Int(m.created_at)),
        ],
    )
}

/// The stored room message that a document holds.
pub open spec fn room_message_of_tree(tree: JsonTree) -> Option<RoomMessageView> {
    match tree {
        JsonTree::Object(m) => match (
            as_text(member(m, "room_id"@)),
            as_id(member(m, "message_id"@)),
            as_i32(member(m, "from"@)),
            as_text(member(m, "content"@)),
            as_i64(member(m, "created_at"@)),
        ) {
            (Some(room_id), Some(message_id), Some(from), Some(content), Some(created_at)) => Some(
                RoomMessageView { room_id, message_id, from, content, created_at },
            ),
            _ => None,
        },
        _ => None,
    }
}

impl RoomMessage {
    /// The document of the stored room message. Reading it gives the
    /// message back.
    pub fn to_json(&self) -> (r: JsonValue)
        ensures
            r@ == room_message_tree(self@),
            room_message_of_tree(r@) == Some(self@),
    {
        let mut m: Vec<(String, JsonValue)> = Vec::new();
        m.push((owned("room_id"), JsonValue::Text(self.room_id.clone())));
        m.push((owned("message_id"), JsonValue::Text(self.message_id.to_text())));
        m.push((owned("from"), JsonValue::Int(self.from as i64)));
        m.push((owned("content"), JsonValue::Text(self.content.clone())));
        m.push((owned("created_at"), JsonValue::Int(self.created_at)));
        proof {
            assert(members_of(m@) =~= room_message_tree(self@)->Object_0);
            reveal_strlit("room_id");
            reveal_strlit("message_id");
            reveal_strlit("from");
            reveal_strlit("content");
            reveal_strlit("created_at");
            reveal_with_fuel(member, 8);
            assert("room_id"@[0] == 'r' && "content"@[0] == 'c' && "message_id"@[0] == 'm'
                && "created_at"@[0] == 'c' && "from"@.len() == 4);
            assert("room_id"@.len() == 7 && "content"@.len() == 7 && "message_id"@.len() == 10
                && "created_at"@.len() == 10);
            let t = room_message_tree(self@)->Object_0;
            assert(as_text(member(t, "room_id"@)) == Some(self@.room_id));
            assert(as_id(member(t, "message_id"@)) == Some(self.message_id));
            assert(as_i32(member(t, "from"@)) == Some(self.from));
            assert(as_text(member(t, "content"@)) == Some(self@.content));
            assert(as_i64(member(t, "created_at"@)) == Some(self.created_at));
        }
        JsonValue::object(m)
    }

    /// Reads a stored room message from a document: an object with a text
    /// `room_id`, an identifier `message_id`, a whole number `from`, a text
    /// `content` and a whole number `created_at`.
    pub fn from_json(value: &JsonValue) -> (r: Option<RoomMessage>)
        ensures
            room_message_view(r) == room_message_of_tree(value@),
    {
        let m = match value.as_object() {
            Some(m) => m,
            None => {
                return None;
            },
        };
        let room_id = match read_text(m, "room_id") {
            Some(v) => v,
            None => {
                return None;
            },
        };
        let message_id = match read_id(m, "message_id") {
            Some(v) => v,
            None => {
                return None;
            },
        };
        let from = match read_i32(m, "from") {
            Some(v) => v,
            None => {
                return None;
            },
        };
        let content = match read_text(m, "content") {
            Some(v) => v,
            None => {
                return None;
            },
        };
        let created_at = match read_i64(m, "created_at") {
            Some(v) => v,
            None => {
                return None;
            },
        };
        Some(RoomMessage { room_id, message_id, from, content, created_at })
    }
}

/// A conversation of a user, with the time of its last message.
#[derive(Clone, Debug, PartialEq, Eq)]
pub struct UserConversation {
    pub conversation_id: String,
    pub last_message: i64,
}

/// The service's answer to a request for a user's conversations.
#[derive(Clone, Debug, PartialEq, Eq)]
pub struct FetchUserConversationsResponse {
    pub success: bool,
    pub error_message: String,
    pub conversations: Vec<UserConversation>,
}

/// The answer to a request for a user's conversations: the rows that the
/// store returned, one for one and in order; or the store's error.
pub fn conversations_reply(result: Result<Vec<(String, i64)>, String>) -> (r:
    FetchUserConversationsResponse)
    ensures
        match result {
            Ok(rows) => r.success && r.error_message@.len() == 0 && r.conversations@.len()
                == rows@.len() && forall|i: int|
                0 <= i < rows@.len() ==> (#[trigger] r.conversations@[i]).conversation_id@
                    == rows@[i].0@ && r.conversations@[i].last_message == rows@[i].1,
            Err(e) => !r.success && r.error_message == e && r.conversations@.len() == 0,
        },
{
    match result {
        Err(e) => FetchUserConversationsResponse {
            success: false,
            error_message: e,
            conversations: Vec::new(),
        },
        Ok(rows) => {
            let mut conversations: Vec<UserConversation> = Vec::new();
            let mut i: usize = 0;
            while i < rows.len()
                invariant
                    i <= rows.len(),
                    conversations@.len() == i,
                    forall|j: int|
                        0 <= j < i ==> (#[trigger] conversations@[j]).conversation_id@
                            == rows@[j].0@ && conversations@[j].last_message == rows@[j].1,
                decreases rows.len() - i,
            {
                conversations.push(
                    UserConversation {
                        conversation_id: rows[i].0.clone(),
                        last_message: rows[i].1,
                    },
                );
                i += 1;
            }
            FetchUserConversationsResponse {
                success: true,
                error_message: String::new(),
                conversations,
            }
        },
    }
}

/// A message of a conversation as its whole history carries it.
#[derive(Clone, Debug, PartialEq, Eq)]
pub struct ConversationMessage {
    pub message_id: String,
    pub message_text: String,
    pub sender_id: i32,
    pub recipient_id: i32,
}

/// The service's answer to a request for the whole history of a
/// conversation.
#[derive(Clone, Debug, PartialEq, Eq)]
pub struct FetchConversationHistoryResponse {
    pub success: bool,
    pub error_message: String,
    pub messages: Vec<ConversationMessage>,
}

/// The answer to a request for the whole history of a conversation: the
/// rows that the store returned, one for one and in order, each identifier
/// as its hyphenated text; or the store's error.
pub fn history_reply(result: Result<Vec<(MessageId, String, i32, i32)>, String>) -> (r:
    FetchConversationHistoryResponse)
    ensures
        match result {
            Ok(rows) => r.success && r.error_message@.len() == 0 && r.messages@.len()
                == rows@.len() && forall|i: int|
                0 <= i < rows@.len() ==> (#[trigger] r.messages@[i]).message_id@ == uuid_text(
                    rows@[i].0.value,
                ) && r.messages@[i].message_text@ == rows@[i].1@ && r.messages@[i].sender_id
                    == rows@[i].2 && r.messages@[i].recipient_id == rows@[i].3,
            Err(e) => !r.success && r.error_message == e && r.messages@.len() == 0,
        },
{
    match result {
        Err(e) => FetchConversationHistoryResponse {
            success: false,
            error_message: e,
            messages: Vec::new(),
        },
        Ok(rows) => {
            let mut messages: Vec<ConversationMessage> = Vec::new();
            let mut i: usize = 0;
            while i < rows.len()
                invariant
                    i <= rows.len(),
                    messages@.len() == i,
                    forall|j: int|
                        0 <= j < i ==> (#[trigger] messages@[j]).message_id@ == uuid_text(
                            rows@[j].0.value,
                        ) && messages@[j].message_text@ == rows@[j].1@ && messages@[j].sender_id
                            == rows@[j].2 && messages@[j].recipient_id == rows@[j].3,
                decreases rows.len() - i,
            {
                messages.push(
                    ConversationMessage {
                        message_id: rows[i].0.to_text(),
                        message_text: rows[i].1.clone(),
                        sender_id: rows[i].2,
                        recipient_id: rows[i].3,
                    },
                );
                i += 1;
            }
            FetchConversationHistoryResponse {
                success: true,
                error_message: String::new(),
                messages,
            }
        },
    }
}

/// Whether a character is white space.
fn white_space(c: char) -> (r: bool)
    ensures
        r == is_white_space(c),
{
    let n = c as u32;
    (0x09 <= n && n <= 0x0D) || n == 0x20 || n == 0x85 || n == 0xA0 || n == 0x1680 || (0x2000 <= n
        && n <= 0x200A) || n == 0x2028 || n == 0x2029 || n == 0x202F || n == 0x205F || n == 0x3000
}

/// Whether a text holds nothing but white space.
pub fn blank(text: &str) -> (r: bool)
    ensures
        r == is_blank(text@),
{
    let n = text.unicode_len();
    let mut i: usize = 0;
    while i < n
        invariant
            i <= n,
            n == text@.len(),
            forall|j: int| 0 <= j < i ==> is_white_space(#[trigger] text@[j]),
        decreases n - i,
    {
        if !white_space(text.get_char(i)) {
            return false;
        }
        i += 1;
    }
    true
}

} // verus!
