//! The gateway's settings: where its collaborators are, and the rule that
//! decides whether they are complete.

use crate::conversation::{conversation_id, conversation_key};
use crate::message_id::{uuid_text, MessageId};
use crate::text::owned;
use vstd::prelude::*;

verus! {

/// Where the document store is and which database holds the messages.
#[derive(Clone, Debug, PartialEq, Eq)]
pub struct MongoDbConfig {
    pub connection_url: String,
    pub database_name: String,
}

impl MongoDbConfig {
    /// Settings for the store at `connection_url`, with the database
    /// `affinity`.
    pub fn new(connection_url: String) -> (r: MongoDbConfig)
        ensures
            r.connection_url@ == connection_url@,
            r.database_name@ == "affinity"@,
    {
        MongoDbConfig { connection_url, database_name: owned("affinity") }
    }

    /// The same settings with another database.
    pub fn with_database_name(self, database_name: String) -> (r: MongoDbConfig)
        ensures
            r.connection_url@ == self.connection_url@,
            r.database_name@ == database_name@,
    {
        MongoDbConfig { connection_url: self.connection_url, database_name }
    }
}

/// The key of a stored direct message.
#[derive(Clone, Debug, PartialEq, Eq)]
pub struct DirectMessageId {
    pub conversation_id: String,
    pub message_id: String,
}

impl DirectMessageId {
    /// The key under which a direct message is stored: the conversation of
    /// its two users and the hyphenated text of its identifier.
    pub fn for_message(sender_id: i32, receiver_id: i32, message_id: &MessageId) -> (r:
        DirectMessageId)
        ensures
            r.conversation_id@ == conversation_key(sender_id, receiver_id),
            r.message_id@ == uuid_text(message_id.value),
    {
        DirectMessageId {
            conversation_id: conversation_id(sender_id, receiver_id),
            message_id: message_id.to_text(),
        }
    }
}

/// The key of a user's entry for a conversation.
#[derive(Clone, Debug, PartialEq, Eq)]
pub struct UserConversationId {
    pub user_id: i32,
    pub conversation_id: String,
}

impl UserConversationId {
    /// The keys of the two entries that a direct message touches: the
    /// sender's and the recipient's, both for the conversation of the two.
    pub fn for_message(sender_id: i32, receiver_id: i32) -> (r: (UserConversationId, UserConversationId))
        ensures
            r.0.user_id == sender_id,
            r.1.user_id == receiver_id,
            r.0.conversation_id@ == conversation_key(sender_id, receiver_id),
            r.1.conversation_id@ == conversation_key(sender_id, receiver_id),
    {
        (
            UserConversationId {
                user_id: sender_id,
                conversation_id: conversation_id(sender_id, receiver_id),
            },
            UserConversationId {
                user_id: receiver_id,
                conversation_id: conversation_id(sender_id, receiver_id),
            },
        )
    }
}

/// Settings that are complete: the gateway can be started from them.
#[derive(Clone, Debug, PartialEq, Eq)]
pub struct PerOxoSettings {
    pub connection_url: String,
    pub mongo_config: Option<MongoDbConfig>,
    pub auth_url: String,
}

/// Collects the gateway's settings one by one.
#[derive(Clone, Debug, PartialEq, Eq)]
pub struct PerOxoStateBuilder {
    connection_url: Option<String>,
    mongo_config: Option<MongoDbConfig>,
    auth_url: Option<String>,
}

/// The settings collected so far, as contracts see them.
pub struct BuilderView {
    pub connection_url: Option<Seq<char>>,
    pub mongo_config: Option<(Seq<char>, Seq<char>)>,
    pub auth_url: Option<Seq<char>>,
}

/// The reading of optional store settings: the URL and the database.
pub open spec fn mongo_view(config: Option<MongoDbConfig>) -> Option<(Seq<char>, Seq<char>)> {
    match config {
        Some(c) => Some((c.connection_url@, c.database_name@)),
        None => None,
    }
}

impl View for PerOxoStateBuilder {
    type V = BuilderView;

    closed spec fn view(&self) -> BuilderView {
        BuilderView {
            connection_url: crate::text::option_view(self.connection_url),
            mongo_config: mongo_view(self.mongo_config),
            auth_url: crate::text::option_view(self.auth_url),
        }
    }
}

impl PerOxoStateBuilder {
    /// A builder that holds nothing yet.
    pub fn new() -> (r: PerOxoStateBuilder)
        ensures
            r@ == (BuilderView { connection_url: None, mongo_config: None, auth_url: None }),
    {
        PerOxoStateBuilder { connection_url: None, mongo_config: None, auth_url: None }
    }

    /// Sets the URL of the persistence service.
    pub fn with_persistence_connection_url(self, url: String) -> (r: PerOxoStateBuilder)
        ensures
            r@ == (BuilderView { connection_url: Some(url@), ..self@ }),
    {
        PerOxoStateBuilder {
            connection_url: Some(url),
            mongo_config: self.mongo_config,
            auth_url: self.auth_url,
        }
    }

    /// Sets the settings of the document store.
    pub fn with_mongo_config(self, config: MongoDbConfig) -> (r: PerOxoStateBuilder)
        ensures
            r@ == (BuilderView {
                mongo_config: Some((config.connection_url@, config.database_name@)),
                ..self@
            }),
    {
        PerOxoStateBuilder {
            connection_url: self.connection_url,
            mongo_config: Some(config),
            auth_url: self.auth_url,
        }
    }

    /// Sets the document store by its URL alone, with the database
    /// `affinity`.
    pub fn with_mango_db_connection_url(self, url: String) -> (r: PerOxoStateBuilder)
        ensures
            r@ == (BuilderView { mongo_config: Some((url@, "affinity"@)), ..self@ }),
    {
        PerOxoStateBuilder {
            connection_url: self.connection_url,
            mongo_config: Some(MongoDbConfig::new(url)),
            auth_url: self.auth_url,
        }
    }

    /// Sets the URL of the authentication service.
    pub fn with_auth_url(self, url: String) -> (r: PerOxoStateBuilder)
        ensures
            r@ == (BuilderView { auth_url: Some(url@), ..self@ }),
    {
        PerOxoStateBuilder {
            connection_url: self.connection_url,
            mongo_config: self.mongo_config,
            auth_url: Some(url),
        }
    }

    /// Decides whether the gateway can be started: the URL of the
    /// persistence service is asked for first, then that of the
    /// authentication service. The error is the message for the operator.
    pub fn build(self) -> (r: Result<PerOxoSettings, String>)
        ensures
            match r {
                Ok(s) => self@.connection_url == Some(s.connection_url@) && self@.auth_url
                    == Some(s.auth_url@) && mongo_view(s.mongo_config) == self@.mongo_config,
                Err(e) => if self@.connection_url is None {
                    e@ == "connection_url required when persistence is enabled"@
                } else {
                    self@.auth_url is None && e@ == "auth_url is required"@
                },
            },
    {
        let connection_url = match self.connection_url {
            Some(url) => url,
            None => {
                return Err(owned("connection_url required when persistence is enabled"));
            },
        };
        let auth_url = match self.auth_url {
            Some(url) => url,
            None => {
                return Err(owned("auth_url is required"));
            },
        };
        Ok(PerOxoSettings { connection_url, mongo_config: self.mongo_config, auth_url })
    }
}

} // verus!
