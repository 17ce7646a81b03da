//! The message router: the table of live sessions, the list of users that
//! are online and the registry of rooms.
//!
//! The router sends no `Presence` frames when users come and go: the online
//! list is kept and can be asked for.

use crate::chat::{
    AckView, ChatMessage, FrameView, MessageAckResponse, PaginatedMessagesResponse,
    ResponseDirectMessage, StatusView,
};
use crate::mailbox::{try_deliver, Delivery};
use crate::message_id::MessageId;
use crate::persistence::{ack_for_enqueue_failure, PersistenceMessage, PersistenceView};
use crate::room::{RoomMessage, RoomMessageView};
use crate::text::owned;
use std::collections::HashMap;
use tokio::sync::mpsc::Sender;
use vstd::prelude::*;

verus! {

/// A request to the router, without the channels that come with it: the
/// mailbox of a session that registers or joins a room, and the channel for
/// the answer.
#[derive(Clone, Debug, PartialEq, Eq)]
pub enum RouterMessage {
    RegisterUser { user_id: i32 },
    UnregisterUser { user_id: i32 },
    SendDirectMessage { from: i32, to: i32, content: String, message_id: MessageId },
    GetOnlineUsers,
    GetPaginatedMessages { message_id: Option<MessageId>, conversation_id: String },
    JoinRoom { user_id: i32, room_id: String },
    LeaveRoom { user_id: i32, room_id: String },
    SendRoomMessage { room_id: String, from: i32, content: String, message_id: MessageId },
    GetRoomMembers { room_id: String },
    SyncMessages { conversation_id: String, message_id: MessageId },
}

/// The mathematical reading of a [`RouterMessage`].
pub enum RouterMessageView {
    RegisterUser { user_id: i32 },
    UnregisterUser { user_id: i32 },
    SendDirectMessage { from: i32, to: i32, content: Seq<char>, message_id: MessageId },
    GetOnlineUsers,
    GetPaginatedMessages { message_id: Option<MessageId>, conversation_id: Seq<char> },
    JoinRoom { user_id: i32, room_id: Seq<char> },
    LeaveRoom { user_id: i32, room_id: Seq<char> },
    SendRoomMessage { room_id: Seq<char>, from: i32, content: Seq<char>, message_id: MessageId },
    GetRoomMembers { room_id: Seq<char> },
    SyncMessages { conversation_id: Seq<char>, message_id: MessageId },
}

impl View for RouterMessage {
    type V = RouterMessageView;

    open spec fn view(&self) -> RouterMessageView {
        match self {
            RouterMessage::RegisterUser { user_id } => RouterMessageView::RegisterUser {
                user_id: *user_id,
            },
            RouterMessage::UnregisterUser { user_id } => RouterMessageView::UnregisterUser {
                user_id: *user_id,
            },
            RouterMessage::SendDirectMessage { from, to, content, message_id } => {
                RouterMessageView::SendDirectMessage {
                    from: *from,
                    to: *to,
                    content: content@,
                    message_id: *message_id,
                }
            },
            RouterMessage::GetOnlineUsers => RouterMessageView::GetOnlineUsers,
            RouterMessage::GetPaginatedMessages { message_id, conversation_id } => {
                RouterMessageView::GetPaginatedMessages {
                    message_id: *message_id,
                    conversation_id: conversation_id@,
                }
            },
            RouterMessage::JoinRoom { user_id, room_id } => RouterMessageView::JoinRoom {
                user_id: *user_id,
                room_id: room_id@,
            },
            RouterMessage::LeaveRoom { user_id, room_id } => RouterMessageView::LeaveRoom {
                user_id: *user_id,
                room_id: room_id@,
            },
            RouterMessage::SendRoomMessage { room_id, from, content, message_id } => {
                RouterMessageView::SendRoomMessage {
                    room_id: room_id@,
                    from: *from,
                    content: content@,
                    message_id: *message_id,
                }
            },
            RouterMessage::GetRoomMembers { room_id } => RouterMessageView::GetRoomMembers {
                room_id: room_id@,
            },
            RouterMessage::SyncMessages { conversation_id, message_id } => {
                RouterMessageView::SyncMessages {
                    conversation_id: conversation_id@,
                    message_id: *message_id,
                }
            },
        }
    }
}

/// The users that stay online when `user_id` leaves.
pub open spec fn other_than(user_id: i32) -> spec_fn(i32) -> bool {
    |u: i32| u != user_id
}

/// The router's state as contracts see it: the session table, the online
/// list in order of registration, and the registry of rooms, each with the
/// handle through which its actor is reached.
pub struct RouterView<R> {
    pub sessions: Map<i32, Sender<ChatMessage>>,
    pub online: Seq<i32>,
    pub rooms: Seq<(Seq<char>, R)>,
}

impl<R> RouterView<R> {
    /// The session table and the online list hold the same users, and the
    /// list holds none of them twice.
    pub open spec fn coherent(self) -> bool {
        &&& self.online.no_duplicates()
        &&& forall|u: i32| self.sessions.contains_key(u) <==> self.online.contains(u)
    }

    /// No room is recorded twice.
    pub open spec fn rooms_distinct(self) -> bool {
        forall|i: int, j: int|
            0 <= i < self.rooms.len() && 0 <= j < self.rooms.len() && i != j ==> (
            #[trigger] self.rooms[i]).0 != (#[trigger] self.rooms[j]).0
    }

    /// The state is one that the router can be in.
    pub open spec fn wf(self) -> bool {
        self.coherent() && self.rooms_distinct()
    }

    /// Whether a room of that name is recorded.
    pub open spec fn has_room(self, room_id: Seq<char>) -> bool {
        exists|i: int| 0 <= i < self.rooms.len() && (#[trigger] self.rooms[i]).0 == room_id
    }

    /// The state after `Register`: a user with a session changes nothing;
    /// another gets a record and a place at the end of the online list.
    pub open spec fn register(self, user_id: i32, sender: Sender<ChatMessage>) -> RouterView<R> {
        if self.sessions.contains_key(user_id) {
            self
        } else {
            RouterView {
                sessions: self.sessions.insert(user_id, sender),
                online: self.online.push(user_id),
                rooms: self.rooms,
            }
        }
    }

    /// The state after `Unregister`: the user's record and place in the
    /// online list are gone.
    pub open spec fn unregister(self, user_id: i32) -> RouterView<R> {
        RouterView {
            sessions: self.sessions.remove(user_id),
            online: self.online.filter(other_than(user_id)),
            rooms: self.rooms,
        }
    }

    /// The state after `JoinRoom`: a room that is not recorded yet is
    /// recorded with the handle `fresh`.
    pub open spec fn join_room(self, room_id: Seq<char>, fresh: R) -> RouterView<R> {
        if self.has_room(room_id) {
            self
        } else {
            RouterView {
                sessions: self.sessions,
                online: self.online,
                rooms: self.rooms.push((room_id, fresh)),
            }
        }
    }
}

/// The frame that a direct message becomes for its recipient.
pub open spec fn direct_frame(from: i32, content: Seq<char>, message_id: MessageId, timestamp: i64) -> FrameView {
    FrameView::DirectMessage { from, content, server_message_id: message_id, timestamp }
}

/// The request to persist a direct message.
pub open spec fn direct_persist_request(
    from: i32,
    to: i32,
    content: Seq<char>,
    message_id: MessageId,
    timestamp: i64,
) -> PersistenceView {
    PersistenceView::PersistDirectMessage {
        sender_id: from,
        receiver_id: to,
        message_content: content,
        message_id,
        timestamp,
    }
}

/// Removing a user from a list without repetitions leaves a list without
/// repetitions that holds exactly the other users.
pub proof fn lemma_without_user(online: Seq<i32>, user_id: i32)
    requires
        online.no_duplicates(),
    ensures
        online.filter(other_than(user_id)).no_duplicates(),
        forall|u: i32|
            online.filter(other_than(user_id)).contains(u) <==> (online.contains(u) && u
                != user_id),
        !online.contains(user_id) ==> online.filter(other_than(user_id)) == online,
    decreases online.len(),
{
    let pred = other_than(user_id);
    reveal(Seq::filter);
    if online.len() > 0 {
        let rest = online.drop_last();
        let last = online.last();
        assert(rest.no_duplicates()) by {
            assert forall|i: int, j: int|
                0 <= i < rest.len() && 0 <= j < rest.len() && i != j implies rest[i] != rest[j] by {
                assert(rest[i] == online[i] && rest[j] == online[j]);
            }
        }
        lemma_without_user(rest, user_id);
        let kept_rest = rest.filter(pred);
        let kept = online.filter(pred);
        assert(online =~= rest.push(last));
        assert(kept == if pred(last) {
            kept_rest.push(last)
        } else {
            kept_rest
        });
        assert forall|u: i32| kept.contains(u) <==> (online.contains(u) && u != user_id) by {
            if kept.contains(u) {
                let i = choose|i: int| 0 <= i < kept.len() && kept[i] == u;
                if pred(last) && i == kept.len() - 1 {
                    assert(online[online.len() - 1] == u);
                } else {
                    assert(kept_rest[i] == u);
                    assert(kept_rest.contains(u));
                    assert(rest.contains(u));
                    let k = choose|k: int| 0 <= k < rest.len() && rest[k] == u;
                    assert(online[k] == u);
                }
            }
            if online.contains(u) && u != user_id {
                let k = choose|k: int| 0 <= k < online.len() && online[k] == u;
                if k == online.len() - 1 {
                    assert(kept[kept.len() - 1] == u);
                } else {
                    assert(rest[k] == u);
                    assert(rest.contains(u));
                    assert(kept_rest.contains(u));
                    let i = choose|i: int| 0 <= i < kept_rest.len() && kept_rest[i] == u;
                    assert(kept[i] == u);
                }
            }
        }
        if pred(last) {
            assert(kept == kept_rest.push(last));
            assert(!kept_rest.contains(last)) by {
                if kept_rest.contains(last) {
                    assert(rest.contains(last));
                    let k = choose|k: int| 0 <= k < rest.len() && rest[k] == last;
                    assert(online[k] == online[online.len() - 1]);
                }
            }
            assert forall|i: int, j: int|
                0 <= i < kept.len() && 0 <= j < kept.len() && i != j implies kept[i] != kept[j] by {
                if i < kept_rest.len() && j < kept_rest.len() {
                    assert(kept[i] == kept_rest[i] && kept[j] == kept_rest[j]);
                } else if i < kept_rest.len() {
                    assert(kept_rest.contains(kept_rest[i]));
                } else {
                    assert(kept_rest.contains(kept_rest[j]));
                }
            }
        }
        if !online.contains(user_id) {
            assert(!rest.contains(user_id)) by {
                if rest.contains(user_id) {
                    let k = choose|k: int| 0 <= k < rest.len() && rest[k] == user_id;
                    assert(online[k] == user_id);
                }
            }
            assert(online[online.len() - 1] != user_id);
        }
    } else {
        assert(!online.filter(pred).contains(user_id));
    }
}

/// A second `Unregister` of the same user changes nothing: two in a row are
/// one.
pub proof fn lemma_unregister_twice<R>(state: RouterView<R>, user_id: i32)
    requires
        state.wf(),
    ensures
        state.unregister(user_id).unregister(user_id) == state.unregister(user_id),
{
    lemma_without_user(state.online, user_id);
    let once = state.unregister(user_id);
    lemma_without_user(once.online, user_id);
    assert(once.sessions.remove(user_id) =~= once.sessions);
}

/// Registration and removal keep the session table and the online list in
/// step: after either, a user is in the one exactly if in the other, and in
/// the list once.
pub proof fn lemma_sessions_stay_coherent<R>(
    state: RouterView<R>,
    user_id: i32,
    sender: Sender<ChatMessage>,
)
    requires
        state.wf(),
    ensures
        state.register(user_id, sender).wf(),
        state.unregister(user_id).wf(),
        state.register(user_id, sender).sessions.contains_key(user_id),
        !state.unregister(user_id).sessions.contains_key(user_id),
{
    lemma_without_user(state.online, user_id);
    let removed = state.unregister(user_id);
    assert forall|u: i32| removed.sessions.contains_key(u) <==> removed.online.contains(u) by {
        assert(state.sessions.contains_key(u) <==> state.online.contains(u));
    }
    if !state.sessions.contains_key(user_id) {
        let after = state.register(user_id, sender);
        assert(after.online.no_duplicates()) by {
            assert forall|i: int, j: int|
                0 <= i < after.online.len() && 0 <= j < after.online.len() && i
                    != j implies after.online[i] != after.online[j] by {
                if i < state.online.len() {
                    assert(state.online.contains(state.online[i]));
                }
                if j < state.online.len() {
                    assert(state.online.contains(state.online[j]));
                }
            }
        }
        assert forall|u: i32| after.sessions.contains_key(u) <==> after.online.contains(u) by {
            if after.online.contains(u) {
                let i = choose|i: int| 0 <= i < after.online.len() && after.online[i] == u;
                if i < state.online.len() {
                    assert(state.online.contains(state.online[i]));
                }
            }
            if after.sessions.contains_key(u) {
                if u == user_id {
                    assert(after.online[after.online.len() - 1] == u);
                } else {
                    assert(state.online.contains(u));
                    let i = choose|i: int| 0 <= i < state.online.len() && state.online[i] == u;
                    assert(after.online[i] == u);
                }
            }
        }
    }
}

/// A request that changes the router's state.
pub enum Change<R> {
    Register { user_id: i32, sender: Sender<ChatMessage> },
    Unregister { user_id: i32 },
    JoinRoom { room_id: Seq<char>, fresh: R },
}

impl<R> RouterView<R> {
    /// The state of a router that has processed nothing yet.
    pub open spec fn start() -> RouterView<R> {
        RouterView { sessions: Map::empty(), online: Seq::empty(), rooms: Seq::empty() }
    }

    /// The state after one change.
    pub open spec fn apply(self, change: Change<R>) -> RouterView<R> {
        match change {
            Change::Register { user_id, sender } => self.register(user_id, sender),
            Change::Unregister { user_id } => self.unregister(user_id),
            Change::JoinRoom { room_id, fresh } => self.join_room(room_id, fresh),
        }
    }

    /// The state after a run of changes, processed in the order of their
    /// arrival.
    pub open spec fn after(changes: Seq<Change<R>>) -> RouterView<R>
        decreases changes.len(),
    {
        if changes.len() == 0 {
            RouterView::start()
        } else {
            RouterView::after(changes.drop_last()).apply(changes.last())
        }
    }
}

/// Recording a room keeps the registry free of repetitions.
pub proof fn lemma_join_room_keeps_rooms_distinct<R>(state: RouterView<R>, room_id: Seq<char>, fresh: R)
    requires
        state.wf(),
    ensures
        state.join_room(room_id, fresh).wf(),
        state.join_room(room_id, fresh).has_room(room_id),
{
    let after = state.join_room(room_id, fresh);
    if state.has_room(room_id) {
    } else {
        assert(after.rooms[after.rooms.len() - 1].0 == room_id);
        assert forall|i: int, j: int|
            0 <= i < after.rooms.len() && 0 <= j < after.rooms.len() && i != j implies (
        #[trigger] after.rooms[i]).0 != (#[trigger] after.rooms[j]).0 by {
            if i < state.rooms.len() {
                assert(after.rooms[i] == state.rooms[i]);
            }
            if j < state.rooms.len() {
                assert(after.rooms[j] == state.rooms[j]);
            }
        }
    }
}

/// Whatever requests the router has processed, and in whatever order they
/// came: every user with a session is in the online list, every user in
/// the list has a session, no user is in the list twice, and no room is
/// recorded twice.
pub proof fn lemma_always_well_formed<R>(changes: Seq<Change<R>>)
    ensures
        RouterView::after(changes).wf(),
    decreases changes.len(),
{
    if changes.len() > 0 {
        let before = RouterView::after(changes.drop_last());
        lemma_always_well_formed(changes.drop_last());
        match changes.last() {
            Change::Register { user_id, sender } => {
                lemma_sessions_stay_coherent(before, user_id, sender);
            },
            Change::Unregister { user_id } => {
                lemma_sessions_stay_coherent(before, user_id, arbitrary());
            },
            Change::JoinRoom { room_id, fresh } => {
                lemma_join_room_keeps_rooms_distinct(before, room_id, fresh);
            },
        }
    }
}

/// A user has at most one session: the table holds one record for each of
/// its users, and a registration for a user who has one changes nothing, so
/// the record stays with the mailbox of the first session.
pub proof fn lemma_one_session_per_user<R>(
    state: RouterView<R>,
    user_id: i32,
    second: Sender<ChatMessage>,
)
    requires
        state.sessions.contains_key(user_id),
    ensures
        state.register(user_id, second) == state,
        state.register(user_id, second).sessions[user_id] == state.sessions[user_id],
{
}

/// A user who has a session has exactly one place in the online list.
pub proof fn lemma_online_exactly_once<R>(state: RouterView<R>, user_id: i32)
    requires
        state.wf(),
        state.sessions.contains_key(user_id),
    ensures
        exists|i: int|
            0 <= i < state.online.len() && state.online[i] == user_id && forall|j: int|
                0 <= j < state.online.len() && state.online[j] == user_id ==> j == i,
{
    assert(state.online.contains(user_id));
    let i = choose|i: int| 0 <= i < state.online.len() && state.online[i] == user_id;
    assert(forall|j: int| 0 <= j < state.online.len() && state.online[j] == user_id ==> j == i);
}

/// The router: the only holder of the session table, the online list and
/// the registry of rooms. `R` is the handle through which a room's actor is
/// reached.
pub struct MessageRouter<R> {
    users: HashMap<i32, Sender<ChatMessage>>,
    online_users: Vec<i32>,
    rooms: Vec<(String, R)>,
}

impl<R> View for MessageRouter<R> {
    type V = RouterView<R>;

    closed spec fn view(&self) -> RouterView<R> {
        RouterView {
            sessions: self.users@,
            online: self.online_users@,
            rooms: Seq::new(self.rooms@.len(), |i: int| (self.rooms@[i].0@, self.rooms@[i].1)),
        }
    }
}

/// How the handling of a direct message ended.
pub enum DirectOutcome {
    /// The request to persist the message could not be handed on: nothing was
    /// delivered, and the sender gets this acknowledgement.
    Refused(MessageAckResponse),
    /// The request is with the persistence actor. The recipient, if it has a
    /// session, was offered the frame: `Some` says how that went, `None` that
    /// the recipient is offline.
    Forwarded(Option<Delivery>),
}

/// What the router decides on `JoinRoom`.
pub struct JoinRoom<R> {
    /// Whether the room was recorded by this request, so that its actor is
    /// still to be started.
    pub created: bool,
    /// The request to hand to the room's actor.
    pub message: RoomMessage,
    /// The handle that was offered for a new room, where none was needed.
    pub spare: Option<R>,
}

impl<R> MessageRouter<R> {
    /// A router with no session and no room.
    pub fn new() -> (r: MessageRouter<R>)
        ensures
            r@.sessions == Map::<i32, Sender<ChatMessage>>::empty(),
            r@.online == Seq::<i32>::empty(),
            r@.rooms == Seq::<(Seq<char>, R)>::empty(),
            r@.wf(),
    {
        let r = MessageRouter { users: HashMap::new(), online_users: Vec::new(), rooms: Vec::new() };
        assert(r@.rooms =~= Seq::<(Seq<char>, R)>::empty());
        r
    }

    /// `Register`: a user who has a session is refused, and nothing changes;
    /// another gets a record with `sender` and a place at the end of the
    /// online list.
    pub fn handle_register_user(&mut self, user_id: i32, sender: Sender<ChatMessage>) -> (r: Result<
        (),
        String,
    >)
        ensures
            final(self)@ == old(self)@.register(user_id, sender),
            old(self)@.wf() ==> final(self)@.wf(),
            r is Err <==> old(self)@.sessions.contains_key(user_id),
            r matches Err(e) ==> e@ == "User already online"@,
    {
        proof {
            if self@.wf() {
                lemma_sessions_stay_coherent(self@, user_id, sender);
            }
        }
        if self.users.contains_key(&user_id) {
            return Err(owned("User already online"));
        }
        self.users.insert(user_id, sender);
        self.online_users.push(user_id);
        assert(self@.rooms =~= old(self)@.rooms);
        Ok(())
    }

    /// `Unregister`: the user's record and place in the online list are
    /// removed. For a user without a session nothing changes. The result says
    /// whether there was a session.
    pub fn handle_unregister_user(&mut self, user_id: i32) -> (r: bool)
        ensures
            final(self)@ == old(self)@.unregister(user_id),
            old(self)@.wf() ==> final(self)@.wf(),
            old(self)@.wf() && !r ==> final(self)@ == old(self)@,
            r == old(self)@.sessions.contains_key(user_id),
    {
        proof {
            if self@.wf() {
                lemma_sessions_stay_coherent(self@, user_id, arbitrary());
                lemma_without_user(self@.online, user_id);
                if !self@.sessions.contains_key(user_id) {
                    assert(self@.sessions.remove(user_id) =~= self@.sessions);
                }
            }
        }
        let had_session = self.users.remove(&user_id).is_some();
        let mut kept: Vec<i32> = Vec::new();
        let mut i: usize = 0;
        while i < self.online_users.len()
            invariant
                i <= self.online_users.len(),
                kept@ == self.online_users@.take(i as int).filter(other_than(user_id)),
            decreases self.online_users.len() - i,
        {
            let user = self.online_users[i];
            proof {
                assert(self.online_users@.take(i + 1) =~= self.online_users@.take(i as int).push(
                    user,
                ));
                self.online_users@.take(i as int).lemma_filter_push(user, other_than(user_id));
            }
            if user != user_id {
                kept.push(user);
            }
            i += 1;
        }
        assert(self.online_users@.take(i as int) =~= self.online_users@);
        self.online_users = kept;
        assert(self@.rooms =~= old(self)@.rooms);
        had_session
    }

    /// `GetOnlineUsers`: a copy of the online list.
    pub fn get_online_users(&self) -> (r: Vec<i32>)
        ensures
            r@ == self@.online,
    {
        let mut users: Vec<i32> = Vec::new();
        let mut i: usize = 0;
        while i < self.online_users.len()
            invariant
                i <= self.online_users.len(),
                users@ == self.online_users@.take(i as int),
            decreases self.online_users.len() - i,
        {
            users.push(self.online_users[i]);
            assert(users@ =~= self.online_users@.take(i + 1));
            i += 1;
        }
        assert(self.online_users@.take(i as int) =~= self.online_users@);
        users
    }

    /// Whether the user has a session.
    pub fn is_online(&self, user_id: i32) -> (r: bool)
        ensures
            r == self@.sessions.contains_key(user_id),
    {
        self.users.contains_key(&user_id)
    }

    /// The mailbox of the user's session, if the user has one.
    pub fn mailbox(&self, user_id: i32) -> (r: Option<&Sender<ChatMessage>>)
        ensures
            match r {
                Some(sender) => self@.sessions.contains_key(user_id) && *sender
                    == self@.sessions[user_id],
                None => !self@.sessions.contains_key(user_id),
            },
    {
        self.users.get(&user_id)
    }

    /// The request that asks the persistence actor to store a direct
    /// message.
    pub fn persist_direct_message(
        from: i32,
        to: i32,
        content: &String,
        message_id: MessageId,
        timestamp: i64,
    ) -> (r: PersistenceMessage)
        ensures
            r@ == direct_persist_request(from, to, content@, message_id, timestamp),
    {
        PersistenceMessage::PersistDirectMessage {
            sender_id: from,
            receiver_id: to,
            message_content: content.clone(),
            message_id,
            timestamp,
        }
    }

    /// The request that asks the persistence actor to store a direct
    /// message, stamped with the time at which it is made: whatever the
    /// clock reads, the rest is as in
    /// [`MessageRouter::persist_direct_message`].
    pub fn stamp_direct_message(from: i32, to: i32, content: &String, message_id: MessageId) -> (r: (
        PersistenceMessage,
        i64,
    ))
        ensures
            r.0@ == direct_persist_request(from, to, content@, message_id, r.1),
    {
        let timestamp = crate::clock::now_millis();
        (Self::persist_direct_message(from, to, content, message_id, timestamp), timestamp)
    }

    /// What the requester of a page of history gets: an error where the
    /// request could not be handed to the persistence actor (`enqueued` is
    /// false) or no answer came, else the actor's answer as it is.
    pub fn paginated_reply(
        enqueued: bool,
        reply: Option<Result<PaginatedMessagesResponse, String>>,
    ) -> (r: Result<PaginatedMessagesResponse, String>)
        ensures
            !enqueued ==> (r matches Err(e) && e@ == "Failed to communicate with persistence"@),
            enqueued ==> match reply {
                Some(answer) => r == answer,
                None => r matches Err(e) && e@ == "Persistence timeout"@,
            },
    {
        if !enqueued {
            return Err(owned("Failed to communicate with persistence"));
        }
        match reply {
            Some(answer) => answer,
            None => Err(owned("Persistence timeout")),
        }
    }

    /// What the requester of a synchronisation gets: as
    /// [`MessageRouter::paginated_reply`], for a list of messages.
    pub fn sync_reply(enqueued: bool, reply: Option<Result<Vec<ResponseDirectMessage>, String>>) -> (r:
        Result<Vec<ResponseDirectMessage>, String>)
        ensures
            !enqueued ==> (r matches Err(e) && e@ == "Failed to communicate with persistence"@),
            enqueued ==> match reply {
                Some(answer) => r == answer,
                None => r matches Err(e) && e@ == "Persistence timeout"@,
            },
    {
        if !enqueued {
            return Err(owned("Failed to communicate with persistence"));
        }
        match reply {
            Some(answer) => answer,
            None => Err(owned("Persistence timeout")),
        }
    }

    /// The frame that carries a direct message to its recipient.
    pub fn direct_message_frame(from: i32, content: String, message_id: MessageId, timestamp: i64) -> (r:
        ChatMessage)
        ensures
            r@ == direct_frame(from, content@, message_id, timestamp),
    {
        ChatMessage::DirectMessage { from, content, server_message_id: message_id, timestamp }
    }

    /// Offers a frame to the user's session without waiting: `None` where the
    /// user has no session, else how the attempt went. A full or closed
    /// mailbox loses the frame. The router's state is not touched.
    pub fn deliver(&self, to: i32, frame: ChatMessage) -> (r: Option<Delivery>)
        ensures
            r is Some <==> self@.sessions.contains_key(to),
    {
        match self.users.get(&to) {
            Some(sender) => Some(try_deliver(sender, frame)),
            None => None,
        }
    }

    /// `SendDirectMessage`, once the request of
    /// [`MessageRouter::persist_direct_message`] has been handed to the
    /// persistence actor, or could not be (`enqueued` holds the reason).
    /// Where it could not, nothing is delivered and the sender is told so.
    /// Otherwise the frame of [`MessageRouter::direct_message_frame`] is
    /// offered to the recipient, if it has a session. Delivery is best
    /// effort and has no part in the acknowledgement.
    pub fn handle_direct_message(
        &self,
        from: i32,
        to: i32,
        content: String,
        message_id: MessageId,
        timestamp: i64,
        enqueued: Result<(), String>,
    ) -> (r: DirectOutcome)
        ensures
            match enqueued {
                Err(e) => r matches DirectOutcome::Refused(ack) && ack@ == (AckView {
                    message_id,
                    timestamp,
                    status: StatusView::Failed("Persistence error: "@ + e@),
                }),
                Ok(()) => r matches DirectOutcome::Forwarded(delivery) && (delivery is Some
                    <==> self@.sessions.contains_key(to)),
            },
    {
        match enqueued {
            Err(e) => DirectOutcome::Refused(
                ack_for_enqueue_failure(message_id, timestamp, e.as_str()),
            ),
            Ok(()) => {
                let frame = Self::direct_message_frame(from, content, message_id, timestamp);
                DirectOutcome::Forwarded(self.deliver(to, frame))
            },
        }
    }

    /// The place of a room in the registry, if it is recorded.
    fn room_index(&self, room_id: &String) -> (r: Option<usize>)
        ensures
            match r {
                Some(i) => i < self@.rooms.len() && self@.rooms[i as int].0 == room_id@,
                None => !self@.has_room(room_id@),
            },
    {
        let mut i: usize = 0;
        while i < self.rooms.len()
            invariant
                i <= self.rooms.len(),
                forall|j: int| 0 <= j < i ==> (#[trigger] self@.rooms[j]).0 != room_id@,
            decreases self.rooms.len() - i,
        {
            if self.rooms[i].0 == *room_id {
                return Some(i);
            }
            i += 1;
        }
        None
    }

    /// The handle of a room's actor, if the room is recorded.
    pub fn room(&self, room_id: &String) -> (r: Option<&R>)
        ensures
            r is Some <==> self@.has_room(room_id@),
            r matches Some(handle) ==> exists|i: int|
                0 <= i < self@.rooms.len() && (#[trigger] self@.rooms[i]) == (room_id@, *handle),
    {
        match self.room_index(room_id) {
            Some(i) => {
                assert(self@.rooms[i as int] == (room_id@, self.rooms@[i as int].1));
                Some(&self.rooms[i].1)
            },
            None => None,
        }
    }

    /// `JoinRoom`: a room that is not recorded yet is recorded with the
    /// handle `fresh`, and its actor is to be started; for a known room the
    /// handle comes back unused. Either way the room's actor is to get
    /// `AddMember` with the user's mailbox.
    pub fn handle_join_room(
        &mut self,
        user_id: i32,
        room_id: String,
        sender: Sender<ChatMessage>,
        fresh: R,
    ) -> (r: JoinRoom<R>)
        ensures
            final(self)@ == old(self)@.join_room(room_id@, fresh),
            old(self)@.wf() ==> final(self)@.wf(),
            final(self)@.has_room(room_id@),
            r.created == !old(self)@.has_room(room_id@),
            r.spare == if r.created {
                None
            } else {
                Some(fresh)
            },
            r.message@ == (RoomMessageView::AddMember { user_id, sender }),
    {
        let message = RoomMessage::AddMember { user_id, sender };
        match self.room_index(&room_id) {
            Some(i) => {
                assert(self@.rooms[i as int].0 == room_id@);
                JoinRoom { created: false, message, spare: Some(fresh) }
            },
            None => {
                let ghost name = room_id@;
                self.rooms.push((room_id, fresh));
                proof {
                    let before = old(self)@.rooms;
                    let after = self@.rooms;
                    assert(after =~= before.push((name, fresh)));
                    assert(after[after.len() - 1].0 == name);
                    if old(self)@.wf() {
                        lemma_join_room_keeps_rooms_distinct(old(self)@, name, fresh);
                    }
                }
                JoinRoom { created: true, message, spare: None }
            },
        }
    }

    /// `LeaveRoom`: for a recorded room, the `RemoveMember` to hand to its
    /// actor; for an unknown room, nothing.
    pub fn handle_leave_room(&self, user_id: i32, room_id: &String) -> (r: Option<RoomMessage>)
        ensures
            r is Some <==> self@.has_room(room_id@),
            r matches Some(m) ==> m@ == (RoomMessageView::RemoveMember { user_id }),
    {
        match self.room_index(room_id) {
            Some(i) => {
                assert(self@.rooms[i as int].0 == room_id@);
                Some(RoomMessage::RemoveMember { user_id })
            },
            None => None,
        }
    }

    /// `SendRoomMessage`: for a recorded room, the `SendMessage` to hand to
    /// its actor, which owns the rest; for an unknown room, nothing.
    pub fn handle_room_message(
        &self,
        room_id: &String,
        from: i32,
        content: String,
        message_id: MessageId,
    ) -> (r: Option<RoomMessage>)
        ensures
            r is Some <==> self@.has_room(room_id@),
            r matches Some(m) ==> m@ == (RoomMessageView::SendMessage {
                from,
                content: content@,
                message_id,
            }),
    {
        match self.room_index(room_id) {
            Some(i) => {
                assert(self@.rooms[i as int].0 == room_id@);
                Some(RoomMessage::SendMessage { from, content, message_id })
            },
            None => None,
        }
    }

    /// `GetRoomMembers`: for a recorded room, the `GetMembers` to hand to its
    /// actor; for an unknown room, nothing.
    pub fn handle_get_room_members(&self, room_id: &String) -> (r: Option<RoomMessage>)
        ensures
            r is Some <==> self@.has_room(room_id@),
            r matches Some(m) ==> m@ == RoomMessageView::GetMembers,
    {
        match self.room_index(room_id) {
            Some(i) => {
                assert(self@.rooms[i as int].0 == room_id@);
                Some(RoomMessage::GetMembers)
            },
            None => None,
        }
    }

    /// `GetPaginatedMessages`: the request to hand to the persistence actor.
    pub fn handle_get_paginated_chat_history(
        message_id: Option<MessageId>,
        conversation_id: String,
    ) -> (r: PersistenceMessage)
        ensures
            r@ == (PersistenceView::GetPaginatedMessages {
                message_id,
                conversation_id: conversation_id@,
            }),
    {
        PersistenceMessage::GetPaginatedMessages { message_id, conversation_id }
    }

    /// `SyncMessages`: the request to hand to the persistence actor.
    pub fn handle_sync_messages(conversation_id: String, message_id: MessageId) -> (r:
        PersistenceMessage)
        ensures
            r@ == (PersistenceView::SyncMessages { conversation_id: conversation_id@, message_id }),
    {
        PersistenceMessage::SyncMessages { conversation_id, message_id }
    }
}

} // verus!
