use per_oxo::chat::{ChatMessage, MessageAckResponse, MessageStatus, PaginatedMessagesResponse, PresenceStatus, ResponseDirectMessage};
use per_oxo::message_id::MessageId;
use per_oxo::router::RouterMessage;
use per_oxo::session::{ack_frame, handle_direct_message, handle_room_message, history_frame, sync_frame, Dropped, Expected, Inbound, UserSession};
use per_oxo::wire::DecodeError;

const C1: &str = "550e8400-e29b-41d4-a716-446655440000";
const M: &str = "1e752a1f-3b49-658c-802a-010203040506";
const NODE: [u8; 6] = [1, 2, 3, 4, 5, 6];

fn id(text: &str) -> MessageId {
    MessageId::parse(text).unwrap()
}

#[test]
fn a_direct_message_goes_to_the_router_under_the_users_name() {
    let alice = UserSession::new(1, NODE);
    let frame = ChatMessage::SendDirectMessage { to: 2, content: "hi".to_string(), client_message_id: id(C1) };
    assert_eq!(
        alice.handle_frame(frame, None, id(M)),
        Inbound::Forward {
            message: RouterMessage::SendDirectMessage { from: 1, to: 2, content: "hi".to_string(), message_id: id(M) },
            answer: Expected::Ack { client_message_id: id(C1) },
        }
    );
}

#[test]
fn a_spoofed_direct_message_stops_at_the_session() {
    let alice = UserSession::new(1, NODE);
    let text = "{\"SendDirectMessage\":{\"from\":3,\"to\":2,\"content\":\"x\",\"client_message_id\":\"550e8400-e29b-41d4-a716-446655440000\"}}";
    assert_eq!(alice.handle_text_with(text, id(M)), Inbound::Dropped(Dropped::Spoofed));
    assert_eq!(alice.handle_text(text), Inbound::Dropped(Dropped::Spoofed));
    assert_eq!(handle_direct_message(1, 3, 2, "x".to_string(), id(M)), None);
    let honest = "{\"SendDirectMessage\":{\"from\":1,\"to\":2,\"content\":\"x\",\"client_message_id\":\"550e8400-e29b-41d4-a716-446655440000\"}}";
    assert_eq!(
        alice.handle_text_with(honest, id(M)),
        Inbound::Forward {
            message: RouterMessage::SendDirectMessage { from: 1, to: 2, content: "x".to_string(), message_id: id(M) },
            answer: Expected::Ack { client_message_id: id(C1) },
        }
    );
}

#[test]
fn the_handlers_accept_the_user_and_nobody_else() {
    assert_eq!(
        handle_direct_message(1, 1, 2, "x".to_string(), id(M)),
        Some(RouterMessage::SendDirectMessage { from: 1, to: 2, content: "x".to_string(), message_id: id(M) })
    );
    assert_eq!(
        handle_room_message(1, "r1".to_string(), 1, "yo".to_string(), id(M)),
        Ok(RouterMessage::SendRoomMessage { room_id: "r1".to_string(), from: 1, content: "yo".to_string(), message_id: id(M) })
    );
    assert_eq!(
        handle_room_message(1, "r1".to_string(), 2, "yo".to_string(), id(M)),
        Err("User ID mismatch".to_string())
    );
}

#[test]
fn a_generated_identifier_is_used_for_a_direct_message() {
    let alice = UserSession::new(1, NODE);
    let text = "{\"SendDirectMessage\":{\"to\":2,\"content\":\"hi\",\"client_message_id\":\"550e8400-e29b-41d4-a716-446655440000\"}}";
    let first = alice.handle_text(text);
    let second = alice.handle_text(text);
    let fresh = |inbound: Inbound| match inbound {
        Inbound::Forward { message: RouterMessage::SendDirectMessage { from, to, content, message_id }, answer } => {
            assert_eq!((from, to, content.as_str()), (1, 2, "hi"));
            assert_eq!(answer, Expected::Ack { client_message_id: id(C1) });
            message_id
        }
        other => panic!("{:?}", other),
    };
    let (a, b) = (fresh(first), fresh(second));
    assert_eq!((a.value >> 76) & 0xF, 6);
    assert_eq!(a.value & 0xFFFF_FFFF_FFFF, 0x0102_0304_0506);
    assert_ne!(a, b);
}

#[test]
fn room_messages_keep_their_identifier() {
    let alice = UserSession::new(1, NODE);
    let frame = ChatMessage::RoomMessage { room_id: "r1".to_string(), from: 1, content: "yo".to_string(), message_id: id(C1) };
    assert_eq!(
        alice.handle_frame(frame.clone(), Some(1), id(M)),
        Inbound::Forward {
            message: RouterMessage::SendRoomMessage { room_id: "r1".to_string(), from: 1, content: "yo".to_string(), message_id: id(C1) },
            answer: Expected::Ack { client_message_id: id(C1) },
        }
    );
    let mallory = UserSession::new(2, NODE);
    assert_eq!(mallory.handle_frame(frame.clone(), Some(1), id(M)), Inbound::Dropped(Dropped::Spoofed));
    assert_eq!(mallory.handle_frame(frame, None, id(M)), Inbound::Dropped(Dropped::Spoofed));
}

#[test]
fn rooms_and_history_are_asked_of_the_router() {
    let alice = UserSession::new(1, NODE);
    assert_eq!(
        alice.handle_text_with("{\"JoinRoom\":{\"room_id\":\"r1\"}}", id(M)),
        Inbound::Forward { message: RouterMessage::JoinRoom { user_id: 1, room_id: "r1".to_string() }, answer: Expected::Joined }
    );
    assert_eq!(
        alice.handle_text_with("{\"LeaveRoom\":{\"room_id\":\"r1\"}}", id(M)),
        Inbound::Forward { message: RouterMessage::LeaveRoom { user_id: 1, room_id: "r1".to_string() }, answer: Expected::Nothing }
    );
    assert_eq!(
        alice.handle_text_with("{\"GetPaginatedMessages\":{\"conversation_id\":\"1_2\",\"message_id\":null}}", id(M)),
        Inbound::Forward {
            message: RouterMessage::GetPaginatedMessages { message_id: None, conversation_id: "1_2".to_string() },
            answer: Expected::History,
        }
    );
    assert_eq!(
        alice.handle_text_with(
            "{\"SyncMessages\":{\"conversation_id\":\"1_2\",\"message_id\":\"550e8400-e29b-41d4-a716-446655440000\"}}",
            id(M)
        ),
        Inbound::Forward {
            message: RouterMessage::SyncMessages { conversation_id: "1_2".to_string(), message_id: id(C1) },
            answer: Expected::Sync,
        }
    );
}

#[test]
fn frames_that_only_the_server_sends_are_passed_over() {
    let alice = UserSession::new(1, NODE);
    let frames = vec![
        ChatMessage::Presence { user: 1, status: PresenceStatus::Online },
        ChatMessage::DirectMessage { from: 1, content: "x".to_string(), server_message_id: id(M), timestamp: 0 },
        ChatMessage::MessageAck { client_message_id: id(C1), message_id: id(M), timestamp: 0, status: MessageStatus::Persisted },
        ChatMessage::ChatHistoryResponse { messages: vec![], has_more: false, next_cursor: None },
        ChatMessage::SyncMessagesResponse { messages: vec![] },
    ];
    for frame in frames {
        assert_eq!(alice.handle_frame(frame, None, id(M)), Inbound::Dropped(Dropped::NotForServer));
    }
    let forged = ChatMessage::DirectMessage { from: 9, content: "x".to_string(), server_message_id: id(M), timestamp: 0 };
    assert_eq!(alice.handle_frame(forged, None, id(M)), Inbound::Dropped(Dropped::Spoofed));
}

#[test]
fn text_that_is_no_frame_is_dropped_and_the_session_goes_on() {
    let alice = UserSession::new(1, NODE);
    assert_eq!(alice.handle_text("not json"), Inbound::Dropped(Dropped::Unreadable(DecodeError::Syntax)));
    assert_eq!(alice.handle_text("{\"Shout\":{}}"), Inbound::Dropped(Dropped::Unreadable(DecodeError::UnknownVariant)));
    assert_eq!(alice.handle_text("[1,2]"), Inbound::Dropped(Dropped::Unreadable(DecodeError::Shape)));
    assert_eq!(alice.handle_text("{\"JoinRoom\":{}}"), Inbound::Dropped(Dropped::Unreadable(DecodeError::Field)));
    assert!(matches!(alice.handle_text("{\"JoinRoom\":{\"room_id\":\"r\"}}"), Inbound::Forward { .. }));
}

#[test]
fn registration_reports_what_the_router_said() {
    assert_eq!(UserSession::registration(true, Some(Ok(()))), Ok(()));
    assert_eq!(
        UserSession::registration(true, Some(Err("User already online".to_string()))),
        Err("User already online".to_string())
    );
    assert_eq!(UserSession::registration(true, None), Err("Router response channel closed".to_string()));
    assert_eq!(
        UserSession::registration(false, None),
        Err("Failed to communicate with message router".to_string())
    );
    assert_eq!(
        UserSession::registration(false, Some(Ok(()))),
        Err("Failed to communicate with message router".to_string())
    );
}

#[test]
fn the_session_ends_with_an_unregister() {
    assert_eq!(UserSession::new(7, NODE).unregister(), RouterMessage::UnregisterUser { user_id: 7 });
}

#[test]
fn an_acknowledgement_names_both_identifiers() {
    let ack = MessageAckResponse { message_id: id(M), timestamp: 12, status: MessageStatus::Failed("dup key".to_string()) };
    assert_eq!(
        ack_frame(id(C1), ack),
        ChatMessage::MessageAck {
            client_message_id: id(C1),
            message_id: id(M),
            timestamp: 12,
            status: MessageStatus::Failed("dup key".to_string()),
        }
    );
}

fn stored() -> ResponseDirectMessage {
    ResponseDirectMessage {
        conversation_id: "1_2".to_string(),
        message_id: id(M),
        sender_id: 1,
        recipient_id: 2,
        message_text: "hi".to_string(),
        created_at: 3,
    }
}

#[test]
fn a_page_becomes_a_history_frame() {
    let page = PaginatedMessagesResponse { messages: vec![stored()], next_cursor: Some(M.to_string()), has_more: true };
    assert_eq!(
        history_frame(Some(Ok(page))),
        Some(ChatMessage::ChatHistoryResponse { messages: vec![stored()], has_more: true, next_cursor: Some(id(M)) })
    );
    let last = PaginatedMessagesResponse { messages: vec![], next_cursor: None, has_more: false };
    assert_eq!(
        history_frame(Some(Ok(last))),
        Some(ChatMessage::ChatHistoryResponse { messages: vec![], has_more: false, next_cursor: None })
    );
    let odd = PaginatedMessagesResponse { messages: vec![], next_cursor: Some("zzz".to_string()), has_more: true };
    assert_eq!(
        history_frame(Some(Ok(odd))),
        Some(ChatMessage::ChatHistoryResponse { messages: vec![], has_more: true, next_cursor: None })
    );
    assert_eq!(history_frame(Some(Err("boom".to_string()))), None);
    assert_eq!(history_frame(None), None);
}

#[test]
fn synchronised_messages_become_a_frame() {
    assert_eq!(
        sync_frame(Some(Ok(vec![stored()]))),
        Some(ChatMessage::SyncMessagesResponse { messages: vec![stored()] })
    );
    assert_eq!(sync_frame(Some(Err("boom".to_string()))), None);
    assert_eq!(sync_frame(None), None);
}
