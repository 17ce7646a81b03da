//! Decision logic of a real-time chat gateway: identifiers, wire frames,
//! the message router, rooms, user sessions and the persistence front.

pub mod chat;
pub mod clock;
pub mod consumer;
pub mod conversation;
pub mod front_door;
pub mod json;
pub mod mailbox;
pub mod message_id;
pub mod node;
pub mod persistence;
pub mod room;
pub mod router;
pub mod session;
pub mod state;
pub mod store;
pub mod tenant;
pub mod text;
pub mod wire;
