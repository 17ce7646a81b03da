//! A room: its members, the broadcast of a message to them, and the
//! periodic removal of members whose session has gone.

use crate::chat::{AckView, ChatMessage, FrameView, MessageAckResponse};
use crate::mailbox::{mailbox_closed, try_deliver, Delivery};
use crate::message_id::MessageId;
use crate::persistence::{ack_for_enqueue_failure, PersistenceMessage, PersistenceView};
use crate::text::owned;
use tokio::sync::mpsc::Sender;
use vstd::prelude::*;

verus! {

/// A request to a room.
pub enum RoomMessage {
    AddMember { user_id: i32, sender: Sender<ChatMessage> },
    RemoveMember { user_id: i32 },
    SendMessage { from: i32, content: String, message_id: MessageId },
    GetMembers,
    GetPaginatedMessages { message_id: Option<MessageId> },
}

/// The mathematical reading of a [`RoomMessage`].
pub enum RoomMessageView {
    AddMember { user_id: i32, sender: Sender<ChatMessage> },
    RemoveMember { user_id: i32 },
    SendMessage { from: i32, content: Seq<char>, message_id: MessageId },
    GetMembers,
    GetPaginatedMessages { message_id: Option<MessageId> },
}

impl View for RoomMessage {
    type V = RoomMessageView;

    open spec fn view(&self) -> RoomMessageView {
        match self {
            RoomMessage::AddMember { user_id, sender } => RoomMessageView::AddMember {
                user_id: *user_id,
                sender: *sender,
            },
            RoomMessage::RemoveMember { user_id } => RoomMessageView::RemoveMember {
                user_id: *user_id,
            },
            RoomMessage::SendMessage { from, content, message_id } => {
                RoomMessageView::SendMessage {
                    from: *from,
                    content: content@,
                    message_id: *message_id,
                }
            },
            RoomMessage::GetMembers => RoomMessageView::GetMembers,
            RoomMessage::GetPaginatedMessages { message_id } => {
                RoomMessageView::GetPaginatedMessages { message_id: *message_id }
            },
        }
    }
}

/// The members that stay when user `user_id` leaves.
pub open spec fn not_user(user_id: i32) -> spec_fn((i32, Sender<ChatMessage>)) -> bool {
    |m: (i32, Sender<ChatMessage>)| m.0 != user_id
}

/// The user ids of a list of members, in order.
pub open spec fn member_ids(members: Seq<(i32, Sender<ChatMessage>)>) -> Seq<i32> {
    Seq::new(members.len(), |i: int| members[i].0)
}

/// No two places of a list of members hold the same user.
pub open spec fn distinct_users(members: Seq<(i32, Sender<ChatMessage>)>) -> bool {
    forall|i: int, j: int|
        0 <= i < members.len() && 0 <= j < members.len() && i != j ==> (#[trigger] members[i]).0 != (
        #[trigger] members[j]).0
}

/// The state of a room as contracts see it.
pub struct RoomView {
    pub room_id: Seq<char>,
    pub members: Seq<(i32, Sender<ChatMessage>)>,
}

impl RoomView {
    /// Whether `user_id` is a member.
    pub open spec fn has_member(self, user_id: i32) -> bool {
        exists|i: int| 0 <= i < self.members.len() && self.members[i].0 == user_id
    }

    /// No user is a member twice.
    pub open spec fn wf(self) -> bool {
        distinct_users(self.members)
    }

    /// The room after `AddMember`: a user who is a member already changes
    /// nothing, another is added at the end.
    pub open spec fn add_member(self, user_id: i32, sender: Sender<ChatMessage>) -> RoomView {
        if self.has_member(user_id) {
            self
        } else {
            RoomView { room_id: self.room_id, members: self.members.push((user_id, sender)) }
        }
    }

    /// The room after `RemoveMember`.
    pub open spec fn remove_member(self, user_id: i32) -> RoomView {
        RoomView { room_id: self.room_id, members: self.members.filter(not_user(user_id)) }
    }

    /// The frame that the members receive for a message.
    pub open spec fn frame(self, from: i32, content: Seq<char>, message_id: MessageId) -> FrameView {
        FrameView::RoomMessage { room_id: self.room_id, from, content, message_id }
    }

    /// The request to persist a message sent to the room.
    pub open spec fn persist_request(
        self,
        from: i32,
        content: Seq<char>,
        message_id: MessageId,
        timestamp: i64,
    ) -> PersistenceView {
        PersistenceView::PersistRoomMessage {
            room_id: self.room_id,
            sender_id: from,
            message_content: content,
            message_id,
            timestamp,
        }
    }
}

/// The members that stay after a cleanup in which `closed[i]` says whether the
/// mailbox of member `i` was found closed: those found open, in order.
/// Members for which `closed` says nothing stay.
pub open spec fn kept_open(members: Seq<(i32, Sender<ChatMessage>)>, closed: Seq<bool>) -> Seq<
    (i32, Sender<ChatMessage>),
>
    decreases members.len(),
{
    if members.len() == 0 {
        Seq::empty()
    } else if closed.len() == 0 {
        members
    } else if closed[0] {
        kept_open(members.drop_first(), closed.drop_first())
    } else {
        seq![members[0]] + kept_open(members.drop_first(), closed.drop_first())
    }
}

/// The findings of a cleanup from member `from` on; none where the list of
/// findings ends before.
pub open spec fn flags_from(closed: Seq<bool>, from: int) -> Seq<bool> {
    if 0 <= from <= closed.len() {
        closed.skip(from)
    } else {
        Seq::empty()
    }
}

/// Without findings, a cleanup keeps every member.
proof fn lemma_kept_without_flags(members: Seq<(i32, Sender<ChatMessage>)>)
    ensures
        kept_open(members, Seq::empty()) == members,
{
    if members.len() == 0 {
        assert(kept_open(members, Seq::empty()) =~= members);
    }
}

/// Filtering members by user keeps exactly the other users' entries, in
/// order, and keeps the list free of repetitions.
pub proof fn lemma_remove_member(room: RoomView, user_id: i32)
    requires
        room.wf(),
    ensures
        room.remove_member(user_id).wf(),
        !room.remove_member(user_id).has_member(user_id),
        forall|u: i32|
            u != user_id ==> (room.remove_member(user_id).has_member(u) <==> room.has_member(u)),
        !room.has_member(user_id) ==> room.remove_member(user_id) == room,
{
    let pred = not_user(user_id);
    let kept = room.members.filter(pred);
    lemma_filter_keeps_distinct(room.members, user_id);
    assert(!room.remove_member(user_id).has_member(user_id)) by {
        if room.remove_member(user_id).has_member(user_id) {
            let i = choose|i: int| 0 <= i < kept.len() && kept[i].0 == user_id;
            room.members.lemma_filter_pred(pred, i);
        }
    }
    assert forall|u: i32| u != user_id implies (room.remove_member(user_id).has_member(u)
        <==> room.has_member(u)) by {
        if room.remove_member(user_id).has_member(u) {
            let i = choose|i: int| 0 <= i < kept.len() && kept[i].0 == u;
            assert(kept.contains(kept[i]));
            room.members.lemma_filter_contains_rev(pred, kept[i]);
            let k = choose|k: int| 0 <= k < room.members.len() && room.members[k] == kept[i];
            assert(room.members[k].0 == u);
            assert(room.has_member(u));
        }
        if room.has_member(u) {
            let k = choose|k: int| 0 <= k < room.members.len() && room.members[k].0 == u;
            assert(pred(room.members[k]));
            room.members.lemma_filter_contains(pred, k);
            let i = choose|i: int| 0 <= i < kept.len() && kept[i] == room.members[k];
            let after = room.remove_member(user_id);
            assert(0 <= i < after.members.len() && after.members[i].0 == u);
        }
    }
    if !room.has_member(user_id) {
        lemma_filter_all(room.members, user_id);
        assert(room.remove_member(user_id).members == room.members);
    }
}

/// A filtered list of distinct members holds distinct members.
proof fn lemma_filter_keeps_distinct(members: Seq<(i32, Sender<ChatMessage>)>, user_id: i32)
    requires
        distinct_users(members),
    ensures
        distinct_users(members.filter(not_user(user_id))),
    decreases members.len(),
{
    let pred = not_user(user_id);
    reveal(Seq::filter);
    if members.len() > 0 {
        let rest = members.drop_last();
        let kept_rest = rest.filter(pred);
        assert(distinct_users(rest)) by {
            assert forall|i: int, j: int|
                0 <= i < rest.len() && 0 <= j < rest.len() && i != j implies (#[trigger] rest[i]).0
                != (#[trigger] rest[j]).0 by {
                assert(rest[i] == members[i] && rest[j] == members[j]);
            }
        }
        lemma_filter_keeps_distinct(rest, user_id);
        if pred(members.last()) {
            let kept = kept_rest.push(members.last());
            assert(members.filter(pred) == kept);
            assert forall|i: int, j: int|
                0 <= i < kept.len() && 0 <= j < kept.len() && i != j implies (#[trigger] kept[i]).0
                != (#[trigger] kept[j]).0 by {
                if i < kept_rest.len() && j < kept_rest.len() {
                    assert(kept[i] == kept_rest[i] && kept[j] == kept_rest[j]);
                } else {
                    let low = if i < j {
                        i
                    } else {
                        j
                    };
                    assert(kept_rest.contains(kept_rest[low]));
                    rest.lemma_filter_contains_rev(pred, kept_rest[low]);
                    let k = choose|k: int| 0 <= k < rest.len() && rest[k] == kept_rest[low];
                    assert(members[k] == kept_rest[low]);
                    assert(members[k].0 != members[members.len() - 1].0);
                }
            }
        }
    }
}

/// Where no member is the user, filtering by the user changes nothing.
proof fn lemma_filter_all(members: Seq<(i32, Sender<ChatMessage>)>, user_id: i32)
    requires
        forall|i: int| 0 <= i < members.len() ==> members[i].0 != user_id,
    ensures
        members.filter(not_user(user_id)) == members,
    decreases members.len(),
{
    reveal(Seq::filter);
    if members.len() > 0 {
        lemma_filter_all(members.drop_last(), user_id);
        assert(members.drop_last().push(members.last()) =~= members);
    }
}

/// Joining a room and then leaving it twice brings the room back to where it
/// was, for a user who was not a member before. In a room that was empty, no
/// member is left.
pub proof fn lemma_join_leave_leave(room: RoomView, user_id: i32, sender: Sender<ChatMessage>)
    requires
        room.wf(),
        !room.has_member(user_id),
    ensures
        room.add_member(user_id, sender).remove_member(user_id).remove_member(user_id) == room,
        room.members.len() == 0 ==> room.add_member(user_id, sender).remove_member(
            user_id,
        ).remove_member(user_id).members.len() == 0,
{
    let joined = room.add_member(user_id, sender);
    assert(joined.members == room.members.push((user_id, sender)));
    room.members.lemma_filter_push((user_id, sender), not_user(user_id));
    lemma_filter_all(room.members, user_id);
    assert(joined.remove_member(user_id) == room);
}

/// Leaving a room twice is leaving it once.
pub proof fn lemma_leave_twice(room: RoomView, user_id: i32)
    requires
        room.wf(),
    ensures
        room.remove_member(user_id).remove_member(user_id) == room.remove_member(user_id),
{
    lemma_remove_member(room, user_id);
    lemma_remove_member(room.remove_member(user_id), user_id);
}

/// A request or a cleanup that changes a room's membership.
pub enum RoomChange {
    AddMember { user_id: i32, sender: Sender<ChatMessage> },
    RemoveMember { user_id: i32 },
    Cleanup { closed: Seq<bool> },
}

impl RoomView {
    /// The state after one change.
    pub open spec fn apply(self, change: RoomChange) -> RoomView {
        match change {
            RoomChange::AddMember { user_id, sender } => self.add_member(user_id, sender),
            RoomChange::RemoveMember { user_id } => self.remove_member(user_id),
            RoomChange::Cleanup { closed } => RoomView {
                room_id: self.room_id,
                members: kept_open(self.members, closed),
            },
        }
    }

    /// The state of the room `room_id` after a run of changes, processed in
    /// the order of their arrival.
    pub open spec fn after(room_id: Seq<char>, changes: Seq<RoomChange>) -> RoomView
        decreases changes.len(),
    {
        if changes.len() == 0 {
            RoomView { room_id, members: Seq::empty() }
        } else {
            RoomView::after(room_id, changes.drop_last()).apply(changes.last())
        }
    }
}

/// Whatever a room has processed, and in whatever order: no user is a
/// member twice.
pub proof fn lemma_never_a_member_twice(room_id: Seq<char>, changes: Seq<RoomChange>)
    ensures
        RoomView::after(room_id, changes).wf(),
    decreases changes.len(),
{
    if changes.len() > 0 {
        let before = RoomView::after(room_id, changes.drop_last());
        lemma_never_a_member_twice(room_id, changes.drop_last());
        match changes.last() {
            RoomChange::AddMember { user_id, sender } => {
                if !before.has_member(user_id) {
                    let after = before.add_member(user_id, sender);
                    assert forall|i: int, j: int|
                        0 <= i < after.members.len() && 0 <= j < after.members.len() && i
                            != j implies (#[trigger] after.members[i]).0 != (
                    #[trigger] after.members[j]).0 by {
                        if i < before.members.len() {
                            assert(after.members[i] == before.members[i]);
                        }
                        if j < before.members.len() {
                            assert(after.members[j] == before.members[j]);
                        }
                    }
                }
            },
            RoomChange::RemoveMember { user_id } => {
                lemma_remove_member(before, user_id);
            },
            RoomChange::Cleanup { closed } => {
                lemma_kept_open_distinct(before.members, closed);
            },
        }
    }
}

/// Whatever a cleanup keeps was a member before.
proof fn lemma_kept_open_members(members: Seq<(i32, Sender<ChatMessage>)>, closed: Seq<bool>)
    ensures
        forall|i: int|
            0 <= i < kept_open(members, closed).len() ==> members.contains(
                #[trigger] kept_open(members, closed)[i],
            ),
    decreases members.len(),
{
    if members.len() == 0 || closed.len() == 0 {
    } else {
        let rest = members.drop_first();
        let kept_rest = kept_open(rest, closed.drop_first());
        lemma_kept_open_members(rest, closed.drop_first());
        let kept = kept_open(members, closed);
        assert forall|i: int| 0 <= i < kept.len() implies members.contains(#[trigger] kept[i]) by {
            if !closed[0] && i == 0 {
                assert(members[0] == kept[0]);
            } else {
                let j = if closed[0] {
                    i
                } else {
                    i - 1
                };
                assert(kept[i] == kept_rest[j]);
                assert(rest.contains(kept_rest[j]));
                let k = choose|k: int| 0 <= k < rest.len() && rest[k] == kept_rest[j];
                assert(members[k + 1] == kept[i]);
            }
        }
    }
}

/// A cleanup keeps the list of members free of repetitions.
pub proof fn lemma_kept_open_distinct(members: Seq<(i32, Sender<ChatMessage>)>, closed: Seq<bool>)
    requires
        distinct_users(members),
    ensures
        distinct_users(kept_open(members, closed)),
    decreases members.len(),
{
    if members.len() == 0 || closed.len() == 0 {
    } else {
        let rest = members.drop_first();
        let kept_rest = kept_open(rest, closed.drop_first());
        assert(distinct_users(rest)) by {
            assert forall|i: int, j: int|
                0 <= i < rest.len() && 0 <= j < rest.len() && i != j implies (#[trigger] rest[i]).0
                != (#[trigger] rest[j]).0 by {
                assert(rest[i] == members[i + 1] && rest[j] == members[j + 1]);
            }
        }
        lemma_kept_open_distinct(rest, closed.drop_first());
        lemma_kept_open_members(rest, closed.drop_first());
        let kept = kept_open(members, closed);
        if !closed[0] {
            assert forall|i: int, j: int|
                0 <= i < kept.len() && 0 <= j < kept.len() && i != j implies (#[trigger] kept[i]).0
                != (#[trigger] kept[j]).0 by {
                if i > 0 && j > 0 {
                    assert(kept[i] == kept_rest[i - 1] && kept[j] == kept_rest[j - 1]);
                } else {
                    let high = if i > 0 {
                        i
                    } else {
                        j
                    };
                    assert(kept[high] == kept_rest[high - 1]);
                    assert(rest.contains(kept_rest[high - 1]));
                    let k = choose|k: int| 0 <= k < rest.len() && rest[k] == kept_rest[high - 1];
                    assert(members[k + 1] == kept[high]);
                    assert(members[0] == kept[0]);
                }
            }
        }
    }
}

/// One room: its name and its members with their mailboxes, in the order in
/// which they joined.
pub struct RoomActor {
    room_id: String,
    members: Vec<(i32, Sender<ChatMessage>)>,
}

impl View for RoomActor {
    type V = RoomView;

    closed spec fn view(&self) -> RoomView {
        RoomView { room_id: self.room_id@, members: self.members@ }
    }
}

/// How the handling of a message sent to a room ended.
pub enum SendOutcome {
    /// The request to persist the message could not be handed on: nothing was
    /// broadcast, and the sender gets this acknowledgement.
    Refused(MessageAckResponse),
    /// The message was offered to every member; for each, in order, how that
    /// went.
    Broadcast(Vec<(i32, Delivery)>),
}

impl RoomActor {
    /// An empty room.
    pub fn new(room_id: String) -> (r: RoomActor)
        ensures
            r@ == (RoomView { room_id: room_id@, members: Seq::empty() }),
            r@.wf(),
    {
        RoomActor { room_id, members: Vec::new() }
    }

    /// The room's name.
    pub fn room_id(&self) -> (r: &String)
        ensures
            r@ == self@.room_id,
    {
        &self.room_id
    }

    /// The place of a user among the members, if the user is one.
    fn position(&self, user_id: i32) -> (r: Option<usize>)
        ensures
            match r {
                Some(i) => i < self@.members.len() && self@.members[i as int].0 == user_id,
                None => !self@.has_member(user_id),
            },
    {
        let mut i: usize = 0;
        while i < self.members.len()
            invariant
                i <= self.members.len(),
                forall|j: int| 0 <= j < i ==> self.members@[j].0 != user_id,
            decreases self.members.len() - i,
        {
            if self.members[i].0 == user_id {
                return Some(i);
            }
            i += 1;
        }
        None
    }

    /// Whether the user is a member.
    pub fn is_member(&self, user_id: i32) -> (r: bool)
        ensures
            r == self@.has_member(user_id),
    {
        self.position(user_id).is_some()
    }

    /// `AddMember`: a user who is a member already is refused and nothing
    /// changes; another joins at the end of the list.
    pub fn handle_add_member(&mut self, user_id: i32, sender: Sender<ChatMessage>) -> (r: Result<
        (),
        String,
    >)
        ensures
            final(self)@ == old(self)@.add_member(user_id, sender),
            old(self)@.wf() ==> final(self)@.wf(),
            r is Err <==> old(self)@.has_member(user_id),
            r matches Err(e) ==> e@ == "User already in room"@,
    {
        if self.is_member(user_id) {
            return Err(owned("User already in room"));
        }
        self.members.push((user_id, sender));
        proof {
            let before = old(self)@.members;
            let after = self@.members;
            if old(self)@.wf() {
                assert forall|i: int, j: int|
                    0 <= i < after.len() && 0 <= j < after.len() && i != j implies (
                #[trigger] after[i]).0 != (#[trigger] after[j]).0 by {
                    if i < before.len() {
                        assert(after[i] == before[i]);
                    }
                    if j < before.len() {
                        assert(after[j] == before[j]);
                    }
                }
            }
        }
        Ok(())
    }

    /// `RemoveMember`: the user's entry leaves the list, if there is one. The
    /// result says whether there was.
    pub fn handle_remove_member(&mut self, user_id: i32) -> (r: bool)
        ensures
            final(self)@ == old(self)@.remove_member(user_id),
            old(self)@.wf() ==> final(self)@.wf(),
            r == old(self)@.has_member(user_id),
    {
        proof {
            if self@.wf() {
                lemma_remove_member(self@, user_id);
            }
        }
        let ghost before = self.members@;
        let ghost pred = not_user(user_id);
        let mut found = false;
        let mut i: usize = self.members.len();
        proof {
            assert(before.skip(i as int) =~= Seq::empty());
            assert(before.take(i as int) =~= before);
            reveal(Seq::filter);
            assert(before.skip(i as int).filter(pred) =~= Seq::empty());
        }
        while i > 0
            invariant
                i <= before.len(),
                pred == not_user(user_id),
                self.room_id == old(self).room_id,
                self.members@ == before.take(i as int) + before.skip(i as int).filter(pred),
                found <==> exists|k: int| i <= k < before.len() && before[k].0 == user_id,
            decreases i,
        {
            i -= 1;
            proof {
                let tail = before.skip(i + 1);
                let one = seq![before[i as int]];
                assert(before.skip(i as int) =~= one + tail);
                assert(before.take(i + 1) =~= before.take(i as int).push(before[i as int]));
                Seq::filter_distributes_over_add(one, tail, pred);
                reveal_with_fuel(Seq::filter, 2);
                assert(one.drop_last() =~= Seq::<(i32, Sender<ChatMessage>)>::empty());
                assert(one.filter(pred) =~= if pred(before[i as int]) {
                    one
                } else {
                    Seq::empty()
                });
            }
            if self.members[i].0 == user_id {
                let _ = self.members.remove(i);
                found = true;
                assert(self.members@ =~= before.take(i as int) + before.skip(i as int).filter(pred));
            } else {
                assert(self.members@ =~= before.take(i as int) + before.skip(i as int).filter(pred));
            }
        }
        proof {
            assert(before.skip(0) =~= before);
            assert(before.take(0) =~= Seq::empty());
            assert(self.members@ =~= before.filter(pred));
        }
        found
    }

    /// `GetMembers`: the users in the room, in the order in which they joined.
    pub fn get_members(&self) -> (r: Vec<i32>)
        ensures
            r@ == member_ids(self@.members),
    {
        let mut ids: Vec<i32> = Vec::new();
        let mut i: usize = 0;
        while i < self.members.len()
            invariant
                i <= self.members.len(),
                ids@ == member_ids(self.members@.take(i as int)),
            decreases self.members.len() - i,
        {
            ids.push(self.members[i].0);
            assert(ids@ =~= member_ids(self.members@.take(i + 1)));
            i += 1;
        }
        assert(self.members@.take(i as int) =~= self.members@);
        ids
    }

    /// The request that asks the persistence actor to store a message sent
    /// to this room.
    pub fn persist_room_message(
        &self,
        from: i32,
        content: &String,
        message_id: MessageId,
        timestamp: i64,
    ) -> (r: PersistenceMessage)
        ensures
            r@ == self@.persist_request(from, content@, message_id, timestamp),
    {
        PersistenceMessage::PersistRoomMessage {
            room_id: self.room_id.clone(),
            sender_id: from,
            message_content: content.clone(),
            message_id,
            timestamp,
        }
    }

    /// The request that asks the persistence actor to store a message sent
    /// to this room, stamped with the time at which it is made: whatever the
    /// clock reads, the rest is as in [`RoomActor::persist_room_message`].
    pub fn stamp_room_message(&self, from: i32, content: &String, message_id: MessageId) -> (r: (
        PersistenceMessage,
        i64,
    ))
        ensures
            r.0@ == self@.persist_request(from, content@, message_id, r.1),
    {
        let timestamp = crate::clock::now_millis();
        (self.persist_room_message(from, content, message_id, timestamp), timestamp)
    }

    /// The frame that carries a message to the members.
    pub fn room_frame(&self, from: i32, content: &String, message_id: MessageId) -> (r: ChatMessage)
        ensures
            r@ == self@.frame(from, content@, message_id),
    {
        ChatMessage::RoomMessage {
            room_id: self.room_id.clone(),
            from,
            content: content.clone(),
            message_id,
        }
    }

    /// Offers a frame to every member, the sender of the message included,
    /// without waiting for any of them: a full or closed mailbox loses the
    /// frame. The result names each member in order with how it went.
    pub fn broadcast(&self, frame: &ChatMessage) -> (r: Vec<(i32, Delivery)>)
        ensures
            r@.len() == self@.members.len(),
            forall|i: int| 0 <= i < r@.len() ==> (#[trigger] r@[i]).0 == self@.members[i].0,
    {
        let mut outcomes: Vec<(i32, Delivery)> = Vec::new();
        let mut i: usize = 0;
        while i < self.members.len()
            invariant
                i <= self.members.len(),
                outcomes@.len() == i,
                forall|j: int| 0 <= j < i ==> (#[trigger] outcomes@[j]).0 == self.members@[j].0,
            decreases self.members.len() - i,
        {
            let delivery = try_deliver(&self.members[i].1, frame.duplicate());
            outcomes.push((self.members[i].0, delivery));
            i += 1;
        }
        outcomes
    }

    /// `SendMessage`, once the request of [`RoomActor::persist_room_message`]
    /// has been handed to the persistence actor, or could not be (`enqueued`
    /// holds the reason). Where it could not, nothing is broadcast and the
    /// sender is told so. Otherwise the frame of [`RoomActor::room_frame`]
    /// goes to every member.
    pub fn handle_send_message(
        &self,
        from: i32,
        content: String,
        message_id: MessageId,
        timestamp: i64,
        enqueued: Result<(), String>,
    ) -> (r: SendOutcome)
        ensures
            match enqueued {
                Err(e) => r matches SendOutcome::Refused(ack) && ack@ == (AckView {
                    message_id,
                    timestamp,
                    status: crate::chat::StatusView::Failed("Persistence error: "@ + e@),
                }),
                Ok(()) => r matches SendOutcome::Broadcast(outcomes) && outcomes@.len()
                    == self@.members.len() && forall|i: int|
                    0 <= i < outcomes@.len() ==> (#[trigger] outcomes@[i]).0 == self@.members[i].0,
            },
    {
        match enqueued {
            Err(e) => SendOutcome::Refused(ack_for_enqueue_failure(message_id, timestamp, e.as_str())),
            Ok(()) => {
                let frame = self.room_frame(from, &content, message_id);
                SendOutcome::Broadcast(self.broadcast(&frame))
            },
        }
    }

    /// `GetPaginatedMessages`: the request for a page of the room's history.
    /// The room's name stands for the conversation.
    pub fn handle_get_paginated_messages(&self, message_id: Option<MessageId>) -> (r:
        PersistenceMessage)
        ensures
            r@ == (PersistenceView::GetPaginatedMessages {
                message_id,
                conversation_id: self@.room_id,
            }),
    {
        PersistenceMessage::GetPaginatedMessages {
            message_id,
            conversation_id: self.room_id.clone(),
        }
    }

    /// Removes the members whose mailbox was found closed: `closed[i]` is the
    /// finding for member `i`. The others stay, in order.
    pub fn remove_closed(&mut self, closed: &Vec<bool>)
        ensures
            final(self)@.room_id == old(self)@.room_id,
            final(self)@.members == kept_open(old(self)@.members, closed@),
            old(self)@.wf() ==> final(self)@.wf(),
    {
        let ghost before = self.members@;
        let mut i: usize = self.members.len();
        assert(before.skip(i as int) =~= Seq::empty());
        assert(before.take(i as int) =~= before);
        while i > 0
            invariant
                i <= before.len(),
                self.room_id == old(self).room_id,
                self.members@ == before.take(i as int) + kept_open(
                    before.skip(i as int),
                    flags_from(closed@, i as int),
                ),
            decreases i,
        {
            i -= 1;
            proof {
                assert(before.skip(i as int).drop_first() =~= before.skip(i + 1));
                assert(before.take(i + 1) =~= before.take(i as int).push(before[i as int]));
                assert(before.skip(i as int)[0] == before[i as int]);
                if i < closed@.len() {
                    assert(flags_from(closed@, i as int).drop_first() =~= flags_from(
                        closed@,
                        i + 1,
                    ));
                    assert(flags_from(closed@, i as int)[0] == closed@[i as int]);
                } else {
                    lemma_kept_without_flags(before.skip(i + 1));
                }
            }
            if i < closed.len() && closed[i] {
                let _ = self.members.remove(i);
                assert(self.members@ =~= before.take(i as int) + kept_open(
                    before.skip(i as int),
                    flags_from(closed@, i as int),
                ));
            } else {
                assert(self.members@ =~= before.take(i as int) + kept_open(
                    before.skip(i as int),
                    flags_from(closed@, i as int),
                ));
            }
        }
        proof {
            assert(before.skip(0) =~= before);
            assert(flags_from(closed@, 0) =~= closed@);
            assert(before.take(0) =~= Seq::empty());
            assert(self.members@ =~= kept_open(before, closed@));
            if old(self)@.wf() {
                lemma_kept_open_distinct(before, closed@);
            }
        }
    }

    /// The periodic cleanup: asks each member's mailbox whether its session
    /// has gone, and removes the members for which it has. Returns how many
    /// left. Whatever the mailboxes answer, the members that remain are those
    /// found open, in order.
    pub fn cleanup(&mut self) -> (removed: usize)
        ensures
            final(self)@.room_id == old(self)@.room_id,
            old(self)@.wf() ==> final(self)@.wf(),
            exists|closed: Seq<bool>|
                closed.len() == old(self)@.members.len() && final(self)@.members == kept_open(
                    old(self)@.members,
                    closed,
                ),
            removed == old(self)@.members.len() - final(self)@.members.len(),
    {
        let before = self.members.len();
        let mut closed: Vec<bool> = Vec::new();
        let mut i: usize = 0;
        while i < self.members.len()
            invariant
                i <= self.members.len(),
                closed@.len() == i,
            decreases self.members.len() - i,
        {
            closed.push(mailbox_closed(&self.members[i].1));
            i += 1;
        }
        self.remove_closed(&closed);
        proof {
            lemma_kept_open_len(old(self)@.members, closed@);
        }
        before - self.members.len()
    }
}

/// A cleanup never lengthens the list of members.
proof fn lemma_kept_open_len(members: Seq<(i32, Sender<ChatMessage>)>, closed: Seq<bool>)
    ensures
        kept_open(members, closed).len() <= members.len(),
    decreases members.len(),
{
    if members.len() == 0 || closed.len() == 0 {
    } else {
        lemma_kept_open_len(members.drop_first(), closed.drop_first());
    }
}

} // verus!
