use per_oxo::json::JsonValue;
use per_oxo::message_id::MessageId;
use per_oxo::state::{DirectMessageId, MongoDbConfig, PerOxoSettings, PerOxoStateBuilder, UserConversationId};
use per_oxo::tenant::{
    generate_token, store_user_token, looks_like_token, verify_user_token, GenerateTenantResponse, GenerateUserTokenRequest,
    TenantKeypair, TokenRequestError, UserToken, TOKEN_TTL_SECS,
};

#[test]
fn a_fresh_keypair_has_the_documented_forms() {
    let pair = TenantKeypair::new();
    let key = pair.get_secret_api_key();
    assert!(key.starts_with("peroxo_"));
    assert_eq!(key.len(), 7 + 40);
    assert!(key[7..].chars().all(|c| c.is_ascii_alphanumeric()));
    let project = pair.get_project_id();
    assert!(project.starts_with("peroxo_pj_"));
    assert_eq!(project.chars().count(), 10 + 21);
    assert!(project[10..].chars().all(|c| c.is_ascii_alphanumeric() || c == '_' || c == '-'));
    assert_ne!(TenantKeypair::new().get_secret_api_key(), key);
}

#[test]
fn a_keypair_is_made_of_its_parts() {
    let pair = TenantKeypair::from_parts("abc", "xyz");
    assert_eq!(pair.get_secret_api_key(), "peroxo_abc");
    assert_eq!(pair.get_project_id(), "peroxo_pj_xyz");
    let answer = GenerateTenantResponse::from_keypair(&pair);
    assert_eq!(answer.project_id, "peroxo_pj_xyz");
    assert_eq!(answer.secret_api_key, "peroxo_abc");
}

#[test]
fn a_fresh_token_has_the_documented_form() {
    let token = generate_token();
    assert!(token.starts_with("pxtok_"));
    assert_eq!(token.len(), 6 + 24);
    assert!(token[6..].chars().all(|c| c.is_ascii_alphanumeric()));
    assert!(looks_like_token(&token));
    assert_ne!(generate_token(), token);
}

#[test]
fn only_texts_that_begin_with_the_prefix_look_like_tokens() {
    assert!(looks_like_token("pxtok_"));
    assert!(looks_like_token("pxtok_\u{e9}"));
    assert!(!looks_like_token("pxtok"));
    assert!(!looks_like_token(""));
    assert!(!looks_like_token("Pxtok_abc"));
    assert!(!looks_like_token(" pxtok_abc"));
    assert!(!looks_like_token("\u{e9}xtok_abc"));
}

#[test]
fn a_token_lives_ten_minutes() {
    assert_eq!(TOKEN_TTL_SECS, 600);
    let token = UserToken::issue("p".to_string(), "7".to_string(), 1000).unwrap();
    assert_eq!(token, UserToken { project_id: "p".to_string(), user_id: "7".to_string(), expires_at: 1600 });
    assert!(token.is_live(1000));
    assert!(token.is_live(1600));
    assert!(!token.is_live(1601));
    assert_eq!(UserToken::issue("p".to_string(), "7".to_string(), u64::MAX - 599), None);
    assert!(UserToken::issue("p".to_string(), "7".to_string(), u64::MAX - 600).is_some());
}

#[test]
fn a_stored_payload_reads_back() {
    let token = UserToken { project_id: "p\"1".to_string(), user_id: "7".to_string(), expires_at: 1600 };
    let text = token.payload().unwrap();
    assert_eq!(text, "{\"project_id\":\"p\\\"1\",\"user_id\":\"7\",\"expires_at\":1600}");
    assert_eq!(UserToken::from_json(&JsonValue::parse(&text).unwrap()), Some(token.clone()));
    assert_eq!(UserToken::from_json(&token.to_json().unwrap()), Some(token));
    let far = UserToken { project_id: "p".to_string(), user_id: "7".to_string(), expires_at: u64::MAX };
    assert_eq!(far.payload(), None);
    assert!(far.to_json().is_none());
}

#[test]
fn a_token_is_verified_against_what_is_stored() {
    let token = UserToken { project_id: "p".to_string(), user_id: "7".to_string(), expires_at: 1600 };
    let stored = token.payload();
    assert_eq!(verify_user_token("pxtok_abc", stored.clone(), 1600), Some(token.clone()));
    assert_eq!(verify_user_token("pxtok_abc", stored.clone(), 0), Some(token));
    assert_eq!(verify_user_token("pxtok_abc", stored.clone(), 1601), None);
    assert_eq!(verify_user_token("token_abc", stored, 1600), None);
    assert_eq!(verify_user_token("pxtok_abc", None, 1600), None);
    assert_eq!(verify_user_token("pxtok_abc", Some("not json".to_string()), 1600), None);
    assert_eq!(verify_user_token("pxtok_abc", Some("{\"project_id\":\"p\"}".to_string()), 1600), None);
    assert_eq!(
        verify_user_token(
            "pxtok_abc",
            Some("{\"project_id\":\"p\",\"user_id\":\"7\",\"expires_at\":-1}".to_string()),
            0
        ),
        None
    );
}

#[test]
fn a_token_request_needs_the_stored_key() {
    let request = GenerateUserTokenRequest {
        user_id: "7".to_string(),
        project_id: "peroxo_pj_x".to_string(),
        secret_api_key: "peroxo_k".to_string(),
    };
    assert_eq!(request.authorize(&Some("peroxo_k".to_string())), Ok(()));
    assert_eq!(request.authorize(&Some("peroxo_K".to_string())), Err(TokenRequestError::WrongKey));
    assert_eq!(request.authorize(&None), Err(TokenRequestError::UnknownProject));
    assert_eq!(TokenRequestError::WrongKey.message(), "Invalid secret_api_key");
    assert_eq!(TokenRequestError::UnknownProject.message(), "Invalid project_id or secret_api_key");
}

#[test]
fn store_settings_default_to_the_affinity_database() {
    let config = MongoDbConfig::new("mongodb://h".to_string());
    assert_eq!(config.connection_url, "mongodb://h");
    assert_eq!(config.database_name, "affinity");
    let config = config.with_database_name("other".to_string());
    assert_eq!(config.connection_url, "mongodb://h");
    assert_eq!(config.database_name, "other");
}

#[test]
fn settings_are_complete_with_both_urls() {
    let builder = PerOxoStateBuilder::new()
        .with_persistence_connection_url("http://chat".to_string())
        .with_auth_url("http://auth".to_string());
    assert_eq!(
        builder.build(),
        Ok(PerOxoSettings {
            connection_url: "http://chat".to_string(),
            mongo_config: None,
            auth_url: "http://auth".to_string(),
        })
    );
    let builder = PerOxoStateBuilder::new()
        .with_auth_url("http://auth".to_string())
        .with_mango_db_connection_url("mongodb://h".to_string())
        .with_persistence_connection_url("http://chat".to_string());
    assert_eq!(
        builder.build().unwrap().mongo_config,
        Some(MongoDbConfig { connection_url: "mongodb://h".to_string(), database_name: "affinity".to_string() })
    );
    let builder = PerOxoStateBuilder::new()
        .with_mongo_config(MongoDbConfig::new("a".to_string()).with_database_name("b".to_string()))
        .with_persistence_connection_url("c".to_string())
        .with_persistence_connection_url("d".to_string())
        .with_auth_url("e".to_string());
    let settings = builder.build().unwrap();
    assert_eq!(settings.connection_url, "d");
    assert_eq!(settings.mongo_config.unwrap().database_name, "b");
}

#[test]
fn missing_settings_are_named_in_order() {
    assert_eq!(
        PerOxoStateBuilder::new().build(),
        Err("connection_url required when persistence is enabled".to_string())
    );
    assert_eq!(
        PerOxoStateBuilder::new().with_auth_url("a".to_string()).build(),
        Err("connection_url required when persistence is enabled".to_string())
    );
    assert_eq!(
        PerOxoStateBuilder::new().with_persistence_connection_url("c".to_string()).build(),
        Err("auth_url is required".to_string())
    );
}

#[test]
fn a_new_token_is_stored_with_its_payload_for_ten_minutes() {
    let stored = store_user_token("peroxo_pj_x", "7", 1000).unwrap();
    assert!(looks_like_token(&stored.token));
    assert_eq!(stored.token.len(), 30);
    assert_eq!(stored.ttl_secs, 600);
    assert_eq!(stored.payload, "{\"project_id\":\"peroxo_pj_x\",\"user_id\":\"7\",\"expires_at\":1600}");
    let verified = verify_user_token(&stored.token, Some(stored.payload.clone()), 1600).unwrap();
    assert_eq!((verified.project_id.as_str(), verified.user_id.as_str(), verified.expires_at), ("peroxo_pj_x", "7", 1600));
    assert_eq!(verify_user_token(&stored.token, Some(stored.payload), 1601), None);
    assert_eq!(store_user_token("p", "7", i64::MAX as u64 - 599), None);
    assert!(store_user_token("p", "7", i64::MAX as u64 - 600).is_some());
}

#[test]
fn a_stored_message_is_keyed_by_conversation_and_identifier() {
    let id = MessageId::parse("1e752a1f-3b49-658c-802a-010203040506").unwrap();
    assert_eq!(
        DirectMessageId::for_message(2, 1, &id),
        DirectMessageId {
            conversation_id: "1_2".to_string(),
            message_id: "1e752a1f-3b49-658c-802a-010203040506".to_string(),
        }
    );
    let (sender, recipient) = UserConversationId::for_message(2, 1);
    assert_eq!(sender, UserConversationId { user_id: 2, conversation_id: "1_2".to_string() });
    assert_eq!(recipient, UserConversationId { user_id: 1, conversation_id: "1_2".to_string() });
}
