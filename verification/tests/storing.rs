use per_oxo::chat::{PaginatedMessagesResponse, ResponseDirectMessage};
use per_oxo::message_id::MessageId;
use per_oxo::node::{parse_node_id, split_colons};
use per_oxo::persistence::{StoredMessage, WriteDmRequest, WriteRoomMessageRequest};
use per_oxo::consumer::{after_delivery, ConsumerStep, DirectMessageHandler, MessageHandler, RoomMessageHandler};
use per_oxo::store::{
    confirmation_outcome, conversations_reply, create_dm, create_room_message, document_page,
    history_reply, page_reply, parse_cursor, queue_payload, queued_reply, read_queued_dm,
    room_page_reply, write_dm, write_room_message, Confirmation, ConversationMessage, RoomMessage,
    StoredRoomMessage, UserConversation, PAGE_SIZE,
};

const M: &str = "1e752a1f-3b49-658c-802a-010203040506";
const OLDER: &str = "1e752a1f-3b49-658b-802a-010203040506";

fn id(text: &str) -> MessageId {
    MessageId::parse(text).unwrap()
}

fn dm(message_id: &str) -> ResponseDirectMessage {
    ResponseDirectMessage {
        conversation_id: "1_2".to_string(),
        message_id: id(message_id),
        sender_id: 2,
        recipient_id: 1,
        message_text: "hi".to_string(),
        created_at: 5,
    }
}

#[test]
fn a_direct_message_is_stored_under_the_conversation_of_its_pair() {
    assert_eq!(create_dm(2, 1, "hi".to_string(), M, 5), Ok(dm(M)));
    let other_way = create_dm(1, 2, "hi".to_string(), M, 5).unwrap();
    assert_eq!(other_way.conversation_id, "1_2");
    assert_eq!((other_way.sender_id, other_way.recipient_id), (1, 2));
}

#[test]
fn a_message_needs_an_identifier() {
    let refusal = create_dm(2, 1, "hi".to_string(), "nope", 5).unwrap_err();
    assert_eq!(refusal, MessageId::parse("nope").unwrap_err());
    assert!(!refusal.is_empty());
    assert!(create_room_message("r1".to_string(), 1, "yo".to_string(), "", 5).is_err());
    assert_eq!(
        create_room_message("r1".to_string(), 1, "yo".to_string(), M, 5),
        Ok(RoomMessage { room_id: "r1".to_string(), message_id: id(M), from: 1, content: "yo".to_string(), created_at: 5 })
    );
}

#[test]
fn a_write_request_is_answered_at_once_when_its_identifier_is_none() {
    let request = WriteDmRequest {
        sender_id: 2,
        receiver_id: 1,
        message: "hi".to_string(),
        message_id: "nope".to_string(),
        timestamp: 5,
    };
    let answer = write_dm(request.clone()).unwrap_err();
    assert!(!answer.success);
    assert_eq!(
        answer.error_message,
        format!("Failed to create message: {}", MessageId::parse("nope").unwrap_err())
    );
    assert_eq!(write_dm(WriteDmRequest { message_id: M.to_string(), ..request }), Ok(dm(M)));
    let request = WriteRoomMessageRequest {
        room_id: "r1".to_string(),
        from: 1,
        content: "yo".to_string(),
        message_id: "nope".to_string(),
        timestamp: 5,
    };
    let answer = write_room_message(request.clone()).unwrap_err();
    assert_eq!(
        answer.error_message,
        format!("Failed to create room message: {}", MessageId::parse("nope").unwrap_err())
    );
    assert_eq!(
        write_room_message(WriteRoomMessageRequest { message_id: M.to_string(), ..request }).unwrap().message_id,
        id(M)
    );
}

#[test]
fn only_an_acknowledged_message_counts_as_queued() {
    assert_eq!(confirmation_outcome(Confirmation::Ack), Ok(()));
    assert_eq!(confirmation_outcome(Confirmation::Nack), Err("Message was nacked by RabbitMQ".to_string()));
    assert_eq!(
        confirmation_outcome(Confirmation::NotRequested),
        Err("Publisher confirmation was not requested".to_string())
    );
    let answer = queued_reply("Failed to queue message: ", Ok(()));
    assert!(answer.success && answer.error_message.is_empty());
    let answer = queued_reply("Failed to queue message: ", Err("Message was nacked by RabbitMQ".to_string()));
    assert!(!answer.success);
    assert_eq!(answer.error_message, "Failed to queue message: Message was nacked by RabbitMQ");
}

#[test]
fn a_blank_cursor_asks_for_the_most_recent_page() {
    assert_eq!(parse_cursor(""), Ok(None));
    assert_eq!(parse_cursor("  \t\n"), Ok(None));
    assert_eq!(parse_cursor(M), Ok(Some(id(M))));
    let answer = parse_cursor("nope").unwrap_err();
    assert!(!answer.success);
    assert_eq!(answer.error_message, "Invalid cursor_message_id");
    assert!(answer.messages.is_empty() && answer.next_cursor.is_empty());
    assert!(parse_cursor(&format!(" {}", M)).is_err());
}

#[test]
fn the_cursor_after_a_page_is_its_last_identifier() {
    let answer = page_reply(Ok(vec![dm(M), dm(OLDER)]));
    assert!(answer.success && answer.error_message.is_empty());
    assert_eq!(answer.next_cursor, OLDER);
    assert_eq!(
        answer.messages,
        vec![
            StoredMessage {
                conversation_id: "1_2".to_string(),
                message_id: M.to_string(),
                sender_id: 2,
                recipient_id: 1,
                message_text: "hi".to_string(),
                created_at: 5,
            },
            StoredMessage {
                conversation_id: "1_2".to_string(),
                message_id: OLDER.to_string(),
                sender_id: 2,
                recipient_id: 1,
                message_text: "hi".to_string(),
                created_at: 5,
            },
        ]
    );
    // The next request carries that cursor, and asks for what is older.
    let cursor = parse_cursor(&answer.next_cursor).unwrap().unwrap();
    assert!(cursor.precedes(&id(M)));
    assert!(!id(M).precedes(&cursor));
}

#[test]
fn an_empty_page_has_no_cursor() {
    let answer = page_reply(Ok(vec![]));
    assert!(answer.success && answer.messages.is_empty() && answer.next_cursor.is_empty());
    let answer = page_reply(Err("db down".to_string()));
    assert!(!answer.success);
    assert_eq!(answer.error_message, "db down");
    assert!(answer.messages.is_empty() && answer.next_cursor.is_empty());
}

#[test]
fn room_pages_are_answered_alike() {
    let message = RoomMessage { room_id: "r1".to_string(), message_id: id(M), from: 1, content: "yo".to_string(), created_at: 5 };
    let answer = room_page_reply(Ok(vec![message]));
    assert!(answer.success);
    assert_eq!(answer.next_cursor, M);
    assert_eq!(
        answer.messages,
        vec![StoredRoomMessage { room_id: "r1".to_string(), message_id: M.to_string(), from: 1, content: "yo".to_string(), created_at: 5 }]
    );
    let answer = room_page_reply(Ok(vec![]));
    assert!(answer.success && answer.next_cursor.is_empty());
    let answer = room_page_reply(Err("db down".to_string()));
    assert!(!answer.success && answer.error_message == "db down");
}

#[test]
fn a_full_page_of_documents_promises_more() {
    assert_eq!(PAGE_SIZE, 50);
    let full: Vec<ResponseDirectMessage> = (0..50).map(|_| dm(M)).collect();
    let page = document_page(full.clone());
    assert_eq!(page, PaginatedMessagesResponse { messages: full, next_cursor: Some(M.to_string()), has_more: true });
    let short = document_page(vec![dm(M), dm(OLDER)]);
    assert_eq!(short.next_cursor, Some(OLDER.to_string()));
    assert!(!short.has_more);
    let empty = document_page(vec![]);
    assert_eq!(empty, PaginatedMessagesResponse { messages: vec![], next_cursor: None, has_more: false });
}

#[test]
fn queued_messages_read_back() {
    let text = queue_payload(&dm(M));
    assert_eq!(
        text,
        "{\"conversation_id\":\"1_2\",\"message_id\":\"1e752a1f-3b49-658c-802a-010203040506\",\"sender_id\":2,\"recipient_id\":1,\"message_text\":\"hi\",\"created_at\":5}"
    );
    assert_eq!(read_queued_dm(&text), Some(dm(M)));
    assert_eq!(read_queued_dm("{}"), None);
    assert_eq!(read_queued_dm("garbage"), None);
    let room = RoomMessage { room_id: "r1".to_string(), message_id: id(M), from: 1, content: "yo".to_string(), created_at: 5 };
    assert_eq!(
        room.to_json().to_text(),
        "{\"room_id\":\"r1\",\"message_id\":\"1e752a1f-3b49-658c-802a-010203040506\",\"from\":1,\"content\":\"yo\",\"created_at\":5}"
    );
    assert_eq!(RoomMessage::from_json(&room.to_json()), Some(room));
}

#[test]
fn a_delivery_is_always_acknowledged() {
    assert_eq!(after_delivery(true), ConsumerStep::Acknowledge);
    assert_eq!(after_delivery(false), ConsumerStep::Pause { millis: 1000 });
}

#[test]
fn a_node_identifier_is_six_bytes_between_colons() {
    assert_eq!(parse_node_id("00:01:02:03:04:05"), Some([0, 1, 2, 3, 4, 5]));
    assert_eq!(parse_node_id("ff:FF:a:0A:7f:80"), Some([255, 255, 10, 10, 127, 128]));
    assert_eq!(parse_node_id("00:01:02:03:04"), None);
    assert_eq!(parse_node_id("00:01:02:03:04:05:06"), None);
    assert_eq!(parse_node_id("00:01:02:03:04:"), None);
    assert_eq!(parse_node_id("00:01:02:03:04:gg"), None);
    assert_eq!(parse_node_id("00:01:02:03:04:100"), None);
    assert_eq!(parse_node_id(""), None);
    assert_eq!(parse_node_id("000102030405"), None);
}

#[test]
fn a_text_splits_at_its_colons() {
    assert_eq!(split_colons(""), vec![String::new()]);
    assert_eq!(split_colons("a"), vec!["a".to_string()]);
    assert_eq!(split_colons(":"), vec![String::new(), String::new()]);
    assert_eq!(split_colons("a:\u{e9}b:"), vec!["a".to_string(), "\u{e9}b".to_string(), String::new()]);
    for text in ["", "::", "a:b", "00:01:02", ":x"] {
        let expected: Vec<String> = text.split(':').map(|s| s.to_string()).collect();
        assert_eq!(split_colons(text), expected);
    }
}

#[test]
fn handlers_read_what_their_queue_holds() {
    let text = queue_payload(&dm(M));
    assert_eq!(DirectMessageHandler {}.process_message(&text), Some(dm(M)));
    assert_eq!(DirectMessageHandler {}.process_message("{\"room_id\":1}"), None);
    assert_eq!(DirectMessageHandler {}.process_message("???"), None);
    let room = RoomMessage { room_id: "r1".to_string(), message_id: id(M), from: 1, content: "yo".to_string(), created_at: 5 };
    assert_eq!(RoomMessageHandler {}.process_message(&room.to_json().to_text()), Some(room));
    assert_eq!(RoomMessageHandler {}.process_message(&text), None);
    assert_eq!(RoomMessageHandler {}.process_message(""), None);
}

#[test]
fn rows_of_the_store_become_answers() {
    let answer = conversations_reply(Ok(vec![("1_2".to_string(), 5), ("1_3".to_string(), 6)]));
    assert!(answer.success && answer.error_message.is_empty());
    assert_eq!(
        answer.conversations,
        vec![
            UserConversation { conversation_id: "1_2".to_string(), last_message: 5 },
            UserConversation { conversation_id: "1_3".to_string(), last_message: 6 },
        ]
    );
    let answer = conversations_reply(Err("db down".to_string()));
    assert!(!answer.success && answer.conversations.is_empty());
    assert_eq!(answer.error_message, "db down");
    let answer = history_reply(Ok(vec![(id(M), "hi".to_string(), 1, 2)]));
    assert!(answer.success);
    assert_eq!(
        answer.messages,
        vec![ConversationMessage { message_id: M.to_string(), message_text: "hi".to_string(), sender_id: 1, recipient_id: 2 }]
    );
    let answer = history_reply(Err("db down".to_string()));
    assert!(!answer.success && answer.messages.is_empty() && answer.error_message == "db down");
}
