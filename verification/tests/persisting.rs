use per_oxo::chat::{MessageStatus, PaginatedMessagesResponse};
use per_oxo::message_id::MessageId;
use per_oxo::persistence::{
    ack_for_reply_now, GetPaginatedMessagesRequest, GetPaginatedMessagesResponse, PersistenceActor,
    PersistenceMessage, Retry, RetryStep, ServiceCall, StoredMessage, SyncMessagesRequest,
    SyncMessagesResponse, WriteDmRequest, WriteResponse, WriteRoomMessageRequest, BACKOFF_MILLIS,
    MAX_RETRIES,
};

const M: &str = "1e752a1f-3b49-658c-802a-010203040506";

fn id() -> MessageId {
    MessageId::parse(M).unwrap()
}

#[test]
fn a_write_is_tried_four_times_with_growing_pauses() {
    assert_eq!((MAX_RETRIES, BACKOFF_MILLIS), (3, 100));
    let mut retry = Retry::new(MAX_RETRIES);
    assert_eq!(retry.on_failure(), RetryStep::Wait { millis: 100 });
    assert_eq!(retry.on_failure(), RetryStep::Wait { millis: 200 });
    assert_eq!(retry.on_failure(), RetryStep::Wait { millis: 300 });
    assert_eq!(retry.on_failure(), RetryStep::GiveUp);
    assert_eq!(retry.attempts, 4);
    assert_eq!(retry.on_failure(), RetryStep::GiveUp);
    assert_eq!(retry.attempts, 4);
}

#[test]
fn a_write_without_retries_is_given_up_at_once() {
    let mut retry = Retry::new(0);
    assert_eq!(retry.on_failure(), RetryStep::GiveUp);
    let mut retry = Retry::new(u32::MAX);
    assert_eq!(retry.on_failure(), RetryStep::Wait { millis: 100 });
}

#[test]
fn requests_become_calls_of_the_service() {
    let call = PersistenceActor::call_for(&PersistenceMessage::PersistDirectMessage {
        sender_id: 1,
        receiver_id: 2,
        message_content: "hi".to_string(),
        message_id: id(),
        timestamp: 7,
    });
    assert_eq!(
        call,
        ServiceCall::WriteDm(WriteDmRequest {
            sender_id: 1,
            receiver_id: 2,
            message: "hi".to_string(),
            message_id: M.to_string(),
            timestamp: 7,
        })
    );
    let call = PersistenceActor::call_for(&PersistenceMessage::PersistRoomMessage {
        room_id: "r1".to_string(),
        sender_id: 1,
        message_content: "yo".to_string(),
        message_id: id(),
        timestamp: 8,
    });
    assert_eq!(
        call,
        ServiceCall::WriteRoomMessage(WriteRoomMessageRequest {
            room_id: "r1".to_string(),
            from: 1,
            content: "yo".to_string(),
            message_id: M.to_string(),
            timestamp: 8,
        })
    );
    let call = PersistenceActor::call_for(&PersistenceMessage::SyncMessages {
        conversation_id: "1_2".to_string(),
        message_id: id(),
    });
    assert_eq!(
        call,
        ServiceCall::SyncMessages(SyncMessagesRequest {
            conversation_id: "1_2".to_string(),
            last_message_id: M.to_string(),
        })
    );
}

#[test]
fn a_missing_cursor_asks_for_the_most_recent_page() {
    let call = PersistenceActor::call_for(&PersistenceMessage::GetPaginatedMessages {
        message_id: None,
        conversation_id: "1_2".to_string(),
    });
    assert_eq!(
        call,
        ServiceCall::GetPaginatedMessages(GetPaginatedMessagesRequest {
            conversation_id: "1_2".to_string(),
            cursor_message_id: String::new(),
        })
    );
    let call = PersistenceActor::call_for(&PersistenceMessage::GetPaginatedMessages {
        message_id: Some(id()),
        conversation_id: "1_2".to_string(),
    });
    assert_eq!(
        call,
        ServiceCall::GetPaginatedMessages(GetPaginatedMessagesRequest {
            conversation_id: "1_2".to_string(),
            cursor_message_id: M.to_string(),
        })
    );
}

#[test]
fn the_outcome_of_a_write_reflects_the_service() {
    let ok = WriteResponse { success: true, error_message: String::new() };
    let refused = WriteResponse { success: false, error_message: "dup key".to_string() };
    assert_eq!(PersistenceActor::handle_persist_direct_message(Ok(ok.clone())), Ok(()));
    assert_eq!(
        PersistenceActor::handle_persist_direct_message(Ok(refused.clone())),
        Err("dup key".to_string())
    );
    assert_eq!(
        PersistenceActor::handle_persist_direct_message(Err("unavailable".to_string())),
        Err("gRPC call failed: unavailable".to_string())
    );
    assert_eq!(PersistenceActor::handle_persist_room_message(Ok(ok)), Ok(()));
    assert_eq!(PersistenceActor::handle_persist_room_message(Ok(refused)), Err("dup key".to_string()));
    assert_eq!(
        PersistenceActor::handle_persist_room_message(Err("x".to_string())),
        Err("gRPC call failed: x".to_string())
    );
}

fn stored(message_id: &str) -> StoredMessage {
    StoredMessage {
        conversation_id: "1_2".to_string(),
        message_id: message_id.to_string(),
        sender_id: 1,
        recipient_id: 2,
        message_text: "hi".to_string(),
        created_at: 5,
    }
}

#[test]
fn a_page_has_more_exactly_if_it_has_a_cursor() {
    let page = PersistenceActor::handle_get_paginated_messages(Ok(GetPaginatedMessagesResponse {
        success: true,
        error_message: String::new(),
        messages: vec![stored(M)],
        next_cursor: M.to_string(),
    }))
    .unwrap();
    assert_eq!(page.next_cursor, Some(M.to_string()));
    assert!(page.has_more);
    assert_eq!(page.messages.len(), 1);
    assert_eq!(page.messages[0].message_id, id());
    assert_eq!(page.messages[0].conversation_id, "1_2");
    assert_eq!((page.messages[0].sender_id, page.messages[0].recipient_id), (1, 2));
    assert_eq!(page.messages[0].message_text, "hi");
    assert_eq!(page.messages[0].created_at, 5);

    let last = PersistenceActor::handle_get_paginated_messages(Ok(GetPaginatedMessagesResponse {
        success: true,
        error_message: String::new(),
        messages: vec![],
        next_cursor: String::new(),
    }));
    assert_eq!(last, Ok(PaginatedMessagesResponse { messages: vec![], next_cursor: None, has_more: false }));
}

#[test]
fn a_failed_page_carries_its_reason() {
    assert_eq!(
        PersistenceActor::handle_get_paginated_messages(Ok(GetPaginatedMessagesResponse {
            success: false,
            error_message: "Invalid cursor_message_id".to_string(),
            messages: vec![stored(M)],
            next_cursor: M.to_string(),
        })),
        Err("Invalid cursor_message_id".to_string())
    );
    assert_eq!(
        PersistenceActor::handle_get_paginated_messages(Err("down".to_string())),
        Err("gRPC call failed: down".to_string())
    );
}

#[test]
fn a_stored_message_without_a_readable_identifier_gets_a_random_one() {
    let messages = PersistenceActor::responses(vec![stored("garbage"), stored(M)]);
    assert_eq!(messages.len(), 2);
    assert_eq!((messages[0].message_id.value >> 76) & 0xF, 4);
    assert_eq!(messages[0].message_text, "hi");
    assert_eq!(messages[1].message_id, id());
}

#[test]
fn synchronised_messages_are_handed_on() {
    let messages = PersistenceActor::handle_sync_messages(Ok(SyncMessagesResponse {
        success: true,
        error_message: String::new(),
        messages: vec![stored(M), stored(M)],
    }))
    .unwrap();
    assert_eq!(messages.len(), 2);
    assert_eq!(messages[1].message_id, id());
    assert_eq!(
        PersistenceActor::handle_sync_messages(Ok(SyncMessagesResponse {
            success: false,
            error_message: "no".to_string(),
            messages: vec![],
        })),
        Err("no".to_string())
    );
    assert_eq!(
        PersistenceActor::handle_sync_messages(Err("down".to_string())),
        Err("gRPC call failed: down".to_string())
    );
}

#[test]
fn an_acknowledgement_made_now_is_stamped_now() {
    let ack = ack_for_reply_now(id(), Some(Err("dup key".to_string())));
    assert_eq!(ack.message_id, id());
    assert_eq!(ack.status, MessageStatus::Failed("dup key".to_string()));
    assert!(ack.timestamp > 1_600_000_000_000);
}
