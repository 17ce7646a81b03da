use per_oxo::chat::{ChatMessage, MessageStatus};
use per_oxo::mailbox::{Delivery, MAILBOX_CAPACITY};
use per_oxo::message_id::MessageId;
use per_oxo::persistence::{ack_for_enqueue_failure, ack_for_reply, PersistenceMessage};
use per_oxo::room::{RoomActor, RoomMessage, SendOutcome};
use per_oxo::router::{DirectOutcome, MessageRouter};
use tokio::sync::mpsc;

const M: &str = "1e752a1f-3b49-658c-802a-010203040506";

fn id() -> MessageId {
    MessageId::parse(M).unwrap()
}

fn mailbox() -> (mpsc::Sender<ChatMessage>, mpsc::Receiver<ChatMessage>) {
    mpsc::channel(MAILBOX_CAPACITY)
}

#[test]
fn the_mailbox_holds_a_hundred_frames() {
    assert_eq!(MAILBOX_CAPACITY, 100);
}

#[test]
fn a_registered_user_is_in_the_table_and_in_the_list_once() {
    let mut router: MessageRouter<u8> = MessageRouter::new();
    assert!(router.get_online_users().is_empty());
    let (a, _ra) = mailbox();
    let (b, _rb) = mailbox();
    assert_eq!(router.handle_register_user(1, a), Ok(()));
    assert_eq!(router.handle_register_user(2, b), Ok(()));
    assert_eq!(router.get_online_users(), vec![1, 2]);
    assert!(router.is_online(1) && router.is_online(2) && !router.is_online(3));
    assert!(router.mailbox(1).is_some());
    assert!(router.mailbox(3).is_none());
}

#[test]
fn a_second_session_for_a_user_is_refused() {
    let mut router: MessageRouter<u8> = MessageRouter::new();
    let (first, mut first_rx) = mailbox();
    let (second, mut second_rx) = mailbox();
    assert_eq!(router.handle_register_user(1, first), Ok(()));
    assert_eq!(router.handle_register_user(1, second), Err("User already online".to_string()));
    assert_eq!(router.get_online_users(), vec![1]);
    // The record still holds the first mailbox.
    let frame = MessageRouter::<u8>::direct_message_frame(2, "x".to_string(), id(), 5);
    assert_eq!(router.deliver(1, frame.clone()), Some(Delivery::Sent));
    assert_eq!(first_rx.try_recv().ok(), Some(frame));
    assert!(second_rx.try_recv().is_err());
}

#[test]
fn unregistering_twice_is_unregistering_once() {
    let mut router: MessageRouter<u8> = MessageRouter::new();
    let (a, _ra) = mailbox();
    let (b, _rb) = mailbox();
    let (c, _rc) = mailbox();
    router.handle_register_user(1, a).unwrap();
    router.handle_register_user(2, b).unwrap();
    router.handle_register_user(3, c).unwrap();
    assert!(router.handle_unregister_user(2));
    assert_eq!(router.get_online_users(), vec![1, 3]);
    assert!(!router.is_online(2));
    assert!(!router.handle_unregister_user(2));
    assert_eq!(router.get_online_users(), vec![1, 3]);
    assert!(!router.handle_unregister_user(99));
    assert_eq!(router.get_online_users(), vec![1, 3]);
}

#[test]
fn a_user_can_come_back_after_leaving() {
    let mut router: MessageRouter<u8> = MessageRouter::new();
    let (a, _ra) = mailbox();
    router.handle_register_user(1, a).unwrap();
    router.handle_unregister_user(1);
    let (again, _rx) = mailbox();
    assert_eq!(router.handle_register_user(1, again), Ok(()));
    assert_eq!(router.get_online_users(), vec![1]);
}

#[test]
fn alice_writes_to_bob_who_is_online() {
    let mut router: MessageRouter<u8> = MessageRouter::new();
    let (alice, mut alice_rx) = mailbox();
    let (bob, mut bob_rx) = mailbox();
    router.handle_register_user(1, alice).unwrap();
    router.handle_register_user(2, bob).unwrap();

    let content = "hi".to_string();
    let request = MessageRouter::<u8>::persist_direct_message(1, 2, &content, id(), 77);
    assert_eq!(
        request,
        PersistenceMessage::PersistDirectMessage {
            sender_id: 1,
            receiver_id: 2,
            message_content: "hi".to_string(),
            message_id: id(),
            timestamp: 77,
        }
    );
    let outcome = router.handle_direct_message(1, 2, content, id(), 77, Ok(()));
    assert!(matches!(outcome, DirectOutcome::Forwarded(Some(Delivery::Sent))));
    assert_eq!(
        bob_rx.try_recv().ok(),
        Some(ChatMessage::DirectMessage {
            from: 1,
            content: "hi".to_string(),
            server_message_id: id(),
            timestamp: 77,
        })
    );
    assert!(alice_rx.try_recv().is_err());
    let ack = ack_for_reply(id(), 78, Some(Ok(())));
    assert_eq!(ack.message_id, id());
    assert_eq!(ack.timestamp, 78);
    assert_eq!(ack.status, MessageStatus::Persisted);
    assert_eq!(per_oxo::conversation::conversation_id(1, 2), "1_2");
}

#[test]
fn alice_writes_to_bob_who_is_offline() {
    let mut router: MessageRouter<u8> = MessageRouter::new();
    let (alice, mut alice_rx) = mailbox();
    router.handle_register_user(1, alice).unwrap();
    let outcome = router.handle_direct_message(1, 2, "hi".to_string(), id(), 77, Ok(()));
    assert!(matches!(outcome, DirectOutcome::Forwarded(None)));
    assert!(alice_rx.try_recv().is_err());
    assert_eq!(ack_for_reply(id(), 80, Some(Ok(()))).status, MessageStatus::Persisted);
}

#[test]
fn a_refusal_of_the_store_reaches_the_sender() {
    let ack = ack_for_reply(id(), 80, Some(Err("dup key".to_string())));
    assert_eq!(ack.status, MessageStatus::Failed("dup key".to_string()));
    let ack = ack_for_reply(id(), 81, None);
    assert_eq!(ack.status, MessageStatus::Failed("Persistence timeout".to_string()));
}

#[test]
fn nothing_is_delivered_when_the_store_cannot_be_reached() {
    let mut router: MessageRouter<u8> = MessageRouter::new();
    let (bob, mut bob_rx) = mailbox();
    router.handle_register_user(2, bob).unwrap();
    let outcome =
        router.handle_direct_message(1, 2, "hi".to_string(), id(), 77, Err("channel closed".to_string()));
    match outcome {
        DirectOutcome::Refused(ack) => {
            assert_eq!(ack, ack_for_enqueue_failure(id(), 77, "channel closed"));
            assert_eq!(ack.status, MessageStatus::Failed("Persistence error: channel closed".to_string()));
            assert_eq!(ack.message_id, id());
            assert_eq!(ack.timestamp, 77);
        }
        _ => panic!("delivered"),
    }
    assert!(bob_rx.try_recv().is_err());
}

#[test]
fn the_frame_after_a_full_mailbox_is_dropped() {
    let mut router: MessageRouter<u8> = MessageRouter::new();
    let (bob, mut bob_rx) = mailbox();
    router.handle_register_user(2, bob).unwrap();
    for n in 0..100 {
        let outcome = router.handle_direct_message(1, 2, format!("{}", n), id(), n, Ok(()));
        assert!(matches!(outcome, DirectOutcome::Forwarded(Some(Delivery::Sent))));
    }
    let outcome = router.handle_direct_message(1, 2, "one too many".to_string(), id(), 100, Ok(()));
    assert!(matches!(outcome, DirectOutcome::Forwarded(Some(Delivery::Full))));
    // The router goes on with its next message.
    assert_eq!(router.get_online_users(), vec![2]);
    let mut seen = 0;
    while let Ok(frame) = bob_rx.try_recv() {
        match frame {
            ChatMessage::DirectMessage { content, .. } => assert_eq!(content, format!("{}", seen)),
            _ => panic!("another frame"),
        }
        seen += 1;
    }
    assert_eq!(seen, 100);
}

#[test]
fn a_frame_for_a_session_that_has_gone_is_dropped() {
    let mut router: MessageRouter<u8> = MessageRouter::new();
    let (bob, bob_rx) = mailbox();
    router.handle_register_user(2, bob).unwrap();
    drop(bob_rx);
    let outcome = router.handle_direct_message(1, 2, "hi".to_string(), id(), 1, Ok(()));
    assert!(matches!(outcome, DirectOutcome::Forwarded(Some(Delivery::Closed))));
}

#[test]
fn the_first_join_records_the_room() {
    let mut router: MessageRouter<&'static str> = MessageRouter::new();
    let (alice, _ra) = mailbox();
    let (carol, _rc) = mailbox();
    assert!(router.room(&"r1".to_string()).is_none());
    let plan = router.handle_join_room(1, "r1".to_string(), alice, "first handle");
    assert!(plan.created);
    assert_eq!(plan.spare, None);
    assert!(matches!(plan.message, RoomMessage::AddMember { user_id: 1, .. }));
    let plan = router.handle_join_room(3, "r1".to_string(), carol, "second handle");
    assert!(!plan.created);
    assert_eq!(plan.spare, Some("second handle"));
    assert!(matches!(plan.message, RoomMessage::AddMember { user_id: 3, .. }));
    assert_eq!(router.room(&"r1".to_string()), Some(&"first handle"));
    assert_eq!(router.room(&"r2".to_string()), None);
}

#[test]
fn requests_for_an_unknown_room_go_nowhere() {
    let mut router: MessageRouter<u8> = MessageRouter::new();
    let room = "r1".to_string();
    assert!(router.handle_leave_room(1, &room).is_none());
    assert!(router.handle_room_message(&room, 1, "yo".to_string(), id()).is_none());
    assert!(router.handle_get_room_members(&room).is_none());
    let (alice, _ra) = mailbox();
    router.handle_join_room(1, room.clone(), alice, 0);
    assert!(matches!(router.handle_leave_room(1, &room), Some(RoomMessage::RemoveMember { user_id: 1 })));
    match router.handle_room_message(&room, 1, "yo".to_string(), id()) {
        Some(RoomMessage::SendMessage { from, content, message_id }) => {
            assert_eq!((from, content.as_str(), message_id), (1, "yo", id()));
        }
        _ => panic!("not forwarded"),
    }
    assert!(matches!(router.handle_get_room_members(&room), Some(RoomMessage::GetMembers)));
}

#[test]
fn history_requests_go_to_the_store_as_they_are() {
    assert_eq!(
        MessageRouter::<u8>::handle_get_paginated_chat_history(None, "1_2".to_string()),
        PersistenceMessage::GetPaginatedMessages { message_id: None, conversation_id: "1_2".to_string() }
    );
    assert_eq!(
        MessageRouter::<u8>::handle_sync_messages("1_2".to_string(), id()),
        PersistenceMessage::SyncMessages { conversation_id: "1_2".to_string(), message_id: id() }
    );
    assert_eq!(
        MessageRouter::<u8>::paginated_reply(false, None),
        Err("Failed to communicate with persistence".to_string())
    );
    assert_eq!(MessageRouter::<u8>::paginated_reply(true, None), Err("Persistence timeout".to_string()));
    assert_eq!(
        MessageRouter::<u8>::paginated_reply(true, Some(Err("boom".to_string()))),
        Err("boom".to_string())
    );
    assert_eq!(MessageRouter::<u8>::sync_reply(true, Some(Ok(vec![]))), Ok(vec![]));
    assert_eq!(MessageRouter::<u8>::sync_reply(true, None), Err("Persistence timeout".to_string()));
}

#[test]
fn stamped_requests_carry_the_time_they_report() {
    let content = "hi".to_string();
    let (request, timestamp) = MessageRouter::<u8>::stamp_direct_message(1, 2, &content, id());
    assert_eq!(request, MessageRouter::<u8>::persist_direct_message(1, 2, &content, id(), timestamp));
    assert!(timestamp > 1_600_000_000_000);
    let room = RoomActor::new("r1".to_string());
    let (request, timestamp) = room.stamp_room_message(1, &content, id());
    assert_eq!(request, room.persist_room_message(1, &content, id(), timestamp));
}

#[test]
fn a_room_refuses_a_member_twice() {
    let mut room = RoomActor::new("r1".to_string());
    assert_eq!(room.room_id(), "r1");
    let (alice, _ra) = mailbox();
    let (again, _rb) = mailbox();
    assert_eq!(room.handle_add_member(1, alice), Ok(()));
    assert_eq!(room.handle_add_member(1, again), Err("User already in room".to_string()));
    assert_eq!(room.get_members(), vec![1]);
    assert!(room.is_member(1) && !room.is_member(2));
}

#[test]
fn joining_and_leaving_twice_leaves_the_room_empty() {
    let mut room = RoomActor::new("r1".to_string());
    let (alice, _ra) = mailbox();
    room.handle_add_member(1, alice).unwrap();
    assert!(room.handle_remove_member(1));
    assert!(!room.handle_remove_member(1));
    assert!(room.get_members().is_empty());
}

#[test]
fn leaving_keeps_the_other_members_in_order() {
    let mut room = RoomActor::new("r1".to_string());
    let mut receivers = Vec::new();
    for user in [5, 3, 9, 1] {
        let (tx, rx) = mailbox();
        receivers.push(rx);
        room.handle_add_member(user, tx).unwrap();
    }
    assert!(room.handle_remove_member(3));
    assert_eq!(room.get_members(), vec![5, 9, 1]);
    assert!(room.handle_remove_member(1));
    assert_eq!(room.get_members(), vec![5, 9]);
    assert!(!room.handle_remove_member(3));
    assert_eq!(room.get_members(), vec![5, 9]);
}

#[test]
fn a_room_message_reaches_every_member() {
    let mut room = RoomActor::new("r1".to_string());
    let (alice, mut alice_rx) = mailbox();
    let (carol, mut carol_rx) = mailbox();
    room.handle_add_member(1, alice).unwrap();
    room.handle_add_member(3, carol).unwrap();
    let content = "yo".to_string();
    assert_eq!(
        room.persist_room_message(1, &content, id(), 9),
        PersistenceMessage::PersistRoomMessage {
            room_id: "r1".to_string(),
            sender_id: 1,
            message_content: "yo".to_string(),
            message_id: id(),
            timestamp: 9,
        }
    );
    let frame = ChatMessage::RoomMessage {
        room_id: "r1".to_string(),
        from: 1,
        content: "yo".to_string(),
        message_id: id(),
    };
    assert_eq!(room.room_frame(1, &content, id()), frame);
    match room.handle_send_message(1, content, id(), 9, Ok(())) {
        SendOutcome::Broadcast(outcomes) => {
            assert_eq!(outcomes, vec![(1, Delivery::Sent), (3, Delivery::Sent)]);
        }
        _ => panic!("refused"),
    }
    assert_eq!(carol_rx.try_recv().ok(), Some(frame.clone()));
    assert_eq!(alice_rx.try_recv().ok(), Some(frame));
    assert_eq!(ack_for_reply(id(), 10, Some(Ok(()))).status, MessageStatus::Persisted);
}

#[test]
fn a_room_message_is_not_broadcast_when_the_store_cannot_be_reached() {
    let mut room = RoomActor::new("r1".to_string());
    let (carol, mut carol_rx) = mailbox();
    room.handle_add_member(3, carol).unwrap();
    match room.handle_send_message(1, "yo".to_string(), id(), 9, Err("gone".to_string())) {
        SendOutcome::Refused(ack) => {
            assert_eq!(ack.status, MessageStatus::Failed("Persistence error: gone".to_string()));
        }
        _ => panic!("broadcast"),
    }
    assert!(carol_rx.try_recv().is_err());
}

#[test]
fn a_slow_member_loses_the_frame_and_the_others_do_not() {
    let mut room = RoomActor::new("r1".to_string());
    let (slow, _slow_rx) = mpsc::channel(1);
    let (gone, gone_rx) = mailbox();
    let (fine, mut fine_rx) = mailbox();
    room.handle_add_member(1, slow).unwrap();
    room.handle_add_member(2, gone).unwrap();
    room.handle_add_member(3, fine).unwrap();
    drop(gone_rx);
    let frame = room.room_frame(3, &"a".to_string(), id());
    assert_eq!(
        room.broadcast(&frame),
        vec![(1, Delivery::Sent), (2, Delivery::Closed), (3, Delivery::Sent)]
    );
    assert_eq!(
        room.broadcast(&frame),
        vec![(1, Delivery::Full), (2, Delivery::Closed), (3, Delivery::Sent)]
    );
    assert_eq!(fine_rx.try_recv().ok(), Some(frame.clone()));
    assert_eq!(fine_rx.try_recv().ok(), Some(frame));
}

#[test]
fn cleanup_removes_members_whose_session_has_gone() {
    let mut room = RoomActor::new("r1".to_string());
    let (alice, alice_rx) = mailbox();
    let (bob, _bob_rx) = mailbox();
    let (carol, carol_rx) = mailbox();
    room.handle_add_member(1, alice).unwrap();
    room.handle_add_member(2, bob).unwrap();
    room.handle_add_member(3, carol).unwrap();
    assert_eq!(room.cleanup(), 0);
    assert_eq!(room.get_members(), vec![1, 2, 3]);
    drop(alice_rx);
    drop(carol_rx);
    assert_eq!(room.cleanup(), 2);
    assert_eq!(room.get_members(), vec![2]);
    assert_eq!(room.cleanup(), 0);
}

#[test]
fn members_found_closed_leave_and_the_others_stay_in_order() {
    let mut room = RoomActor::new("r1".to_string());
    let mut receivers = Vec::new();
    for user in [4, 8, 15, 16] {
        let (tx, rx) = mailbox();
        receivers.push(rx);
        room.handle_add_member(user, tx).unwrap();
    }
    room.remove_closed(&vec![true, false, false, true]);
    assert_eq!(room.get_members(), vec![8, 15]);
    room.remove_closed(&vec![false, false]);
    assert_eq!(room.get_members(), vec![8, 15]);
    room.remove_closed(&vec![true, true]);
    assert!(room.get_members().is_empty());
    room.remove_closed(&vec![]);
    assert!(room.get_members().is_empty());
}

#[test]
fn room_history_is_asked_for_under_the_rooms_name() {
    let room = RoomActor::new("r1".to_string());
    assert_eq!(
        room.handle_get_paginated_messages(Some(id())),
        PersistenceMessage::GetPaginatedMessages { message_id: Some(id()), conversation_id: "r1".to_string() }
    );
}

#[test]
fn members_without_a_finding_stay() {
    let mut room = RoomActor::new("r1".to_string());
    let mut receivers = Vec::new();
    for user in [4, 8, 15] {
        let (tx, rx) = mailbox();
        receivers.push(rx);
        room.handle_add_member(user, tx).unwrap();
    }
    room.remove_closed(&vec![true]);
    assert_eq!(room.get_members(), vec![8, 15]);
    room.remove_closed(&vec![false, true, true, true]);
    assert_eq!(room.get_members(), vec![8]);
}
