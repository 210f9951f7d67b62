use event_dispatch::auth::{
    auth_step, judge_session_hash, parse_user_id, verify_session_hash, AuthAction, AuthContext,
    AuthError, AuthEvent, AuthState, SessionFields, UserRow, SESSION_COOKIE, SESSION_SALT,
};
use event_dispatch::rabbitmq::{
    consumer_step, queue_declarations, ConsumerAction, ConsumerEvent, ConsumerState, BROKER_PORT,
    BROKER_VHOST, CONSUMER_TAG, PERSISTENT_DELIVERY_MODE, PREFETCH_COUNT, PUBLISH_EXCHANGE,
};
use event_dispatch::response::{
    json_error, json_error_code, json_success, EmptyMsg, ErrorCode, ErrorResult, SuccessResult,
};
use event_dispatch::secrets::{SecretKey, Secrets, SecretsError, MAX_CONFIG_BYTES, TOO_LONG};

const GOOD_HASH: &str = "6db45790f96e4d0b6b9c83c9890bd13dfdf13aa80d9cf88a5a2c7c8e9c701649";

const CONFIG: &str = "[secrets]
local_database_password = dbpass
rabbitmq_password = rabbit
secret_key = secret
shared_secret = shared
avatar_salt = salt
";

#[test]
fn secrets_are_read_from_the_secrets_section() {
    let secrets = Secrets::parse(CONFIG.to_string()).unwrap();
    assert_eq!(
        secrets,
        Secrets {
            local_database_password: "dbpass".to_string(),
            rabbitmq_password: "rabbit".to_string(),
            secret_key: "secret".to_string(),
            shared_secret: "shared".to_string(),
            avatar_salt: "salt".to_string(),
        }
    );
}

#[test]
fn the_first_missing_secret_is_reported() {
    let without_two = "[secrets]
local_database_password = dbpass
secret_key = secret
avatar_salt = salt
";
    assert_eq!(
        Secrets::parse(without_two.to_string()),
        Err(SecretsError::Missing(SecretKey::RabbitmqPassword))
    );
    let elsewhere = "[other]
local_database_password = dbpass
";
    assert_eq!(
        Secrets::parse(elsewhere.to_string()),
        Err(SecretsError::Missing(SecretKey::LocalDatabasePassword))
    );
    assert_eq!(
        Secrets::parse(String::new()),
        Err(SecretsError::Missing(SecretKey::LocalDatabasePassword))
    );
    assert_eq!(
        SecretsError::Missing(SecretKey::AvatarSalt).message(),
        "missing avatar_salt"
    );
    assert_eq!(SecretKey::SharedSecret.as_str(), "shared_secret");
    assert_eq!(SecretKey::SecretKey.as_str(), "secret_key");
}

#[test]
fn a_configuration_that_is_not_well_formed_is_unreadable() {
    let broken = "[secrets\nsecret_key = x\n";
    match Secrets::parse(broken.to_string()) {
        Err(SecretsError::Unreadable(why)) => {
            assert!(!why.is_empty());
            assert_eq!(SecretsError::Unreadable(why.clone()).message(), why);
        }
        other => panic!("unexpected: {:?}", other),
    }
}

#[test]
fn a_configuration_that_is_too_long_is_not_read() {
    let mut long = String::from(CONFIG);
    long.push_str(&"#\n".repeat(MAX_CONFIG_BYTES / 2));
    assert!(long.len() > MAX_CONFIG_BYTES);
    assert_eq!(
        Secrets::parse(long),
        Err(SecretsError::Unreadable(TOO_LONG.to_string()))
    );
    // A text of exactly the greatest length is read.
    let mut full = String::from(CONFIG);
    full.push_str(&"#".repeat(MAX_CONFIG_BYTES - CONFIG.len()));
    assert_eq!(full.len(), MAX_CONFIG_BYTES);
    assert!(Secrets::parse(full).is_ok());
}

#[test]
fn secrets_from_values_take_all_five() {
    let some = |s: &str| Some(s.to_string());
    assert_eq!(
        Secrets::from_values(some("a"), some("b"), some("c"), some("d"), some("e")),
        Ok(Secrets {
            local_database_password: "a".to_string(),
            rabbitmq_password: "b".to_string(),
            secret_key: "c".to_string(),
            shared_secret: "d".to_string(),
            avatar_salt: "e".to_string(),
        })
    );
    assert_eq!(
        Secrets::from_values(some("a"), some("b"), None, None, some("e")),
        Err(SecretsError::Missing(SecretKey::SecretKey))
    );
    assert_eq!(
        Secrets::from_values(some("a"), some("b"), some("c"), None, None),
        Err(SecretsError::Missing(SecretKey::SharedSecret))
    );
    assert_eq!(
        Secrets::from_values(some("a"), some("b"), some("c"), some("d"), None),
        Err(SecretsError::Missing(SecretKey::AvatarSalt))
    );
}

#[test]
fn user_ids_are_read_in_decimal() {
    assert_eq!(parse_user_id("0"), Some(0));
    assert_eq!(parse_user_id("42"), Some(42));
    assert_eq!(parse_user_id("+42"), Some(42));
    assert_eq!(parse_user_id("-42"), Some(-42));
    assert_eq!(parse_user_id("0042"), Some(42));
    assert_eq!(parse_user_id("2147483647"), Some(i32::MAX));
    assert_eq!(parse_user_id("-2147483648"), Some(i32::MIN));
    assert_eq!(parse_user_id("2147483648"), None);
    assert_eq!(parse_user_id("-2147483649"), None);
    assert_eq!(parse_user_id("99999999999999999999999"), None);
    assert_eq!(parse_user_id(""), None);
    assert_eq!(parse_user_id("-"), None);
    assert_eq!(parse_user_id("+"), None);
    assert_eq!(parse_user_id(" 42"), None);
    assert_eq!(parse_user_id("42 "), None);
    assert_eq!(parse_user_id("4x2"), None);
    assert_eq!(parse_user_id("--4"), None);
    assert_eq!(parse_user_id("\u{664}\u{662}"), None);
    for text in ["7", "-7", "+7", "007", "2147483647", "2147483648", "abc", "", "1_0"] {
        assert_eq!(parse_user_id(text), text.parse::<i32>().ok(), "{:?}", text);
    }
}

#[test]
fn session_hash_is_the_hmac_of_the_password_digest() {
    assert_eq!(verify_session_hash("secret", "pbkdf2_sha256$x", GOOD_HASH), Ok(true));
    assert_eq!(
        verify_session_hash("secret", "pbkdf2_sha256$x", &GOOD_HASH.to_uppercase()),
        Ok(true)
    );
    assert_eq!(verify_session_hash("other", "pbkdf2_sha256$x", GOOD_HASH), Ok(false));
    assert_eq!(verify_session_hash("secret", "pbkdf2_sha256$y", GOOD_HASH), Ok(false));
    assert_eq!(verify_session_hash("secret", "pbkdf2_sha256$x", &GOOD_HASH[2..]), Ok(false));
    assert_eq!(verify_session_hash("secret", "pbkdf2_sha256$x", ""), Ok(false));
    assert_eq!(
        verify_session_hash("secret", "pbkdf2_sha256$x", "abc"),
        Err(AuthError::BadHash)
    );
    assert_eq!(
        verify_session_hash("secret", "pbkdf2_sha256$x", "zz"),
        Err(AuthError::BadHash)
    );
}

#[test]
fn judging_a_session_hash() {
    assert_eq!(judge_session_hash(None, Some(vec![1])), Err(AuthError::BadKey));
    assert_eq!(judge_session_hash(None, None), Err(AuthError::BadKey));
    assert_eq!(judge_session_hash(Some(vec![1]), None), Err(AuthError::BadHash));
    assert_eq!(judge_session_hash(Some(vec![1, 2]), Some(vec![1, 2])), Ok(true));
    assert_eq!(judge_session_hash(Some(vec![1, 2]), Some(vec![1, 3])), Ok(false));
    assert_eq!(judge_session_hash(Some(vec![1, 2]), Some(vec![1])), Ok(false));
}

fn session(user_id: &str, hash: &str) -> SessionFields {
    SessionFields { auth_user_id: user_id.to_string(), auth_user_hash: hash.to_string() }
}

#[test]
fn a_good_session_is_accepted_step_by_step() {
    let (state, action) =
        auth_step("secret", AuthState::Start, AuthEvent::Cookie { session_id: Some("abc".to_string()) });
    assert!(matches!(state, AuthState::AwaitSessionRow));
    match action {
        AuthAction::QuerySession { session_id } => assert_eq!(session_id, "abc"),
        other => panic!("unexpected: {:?}", other),
    }
    let (state, action) = auth_step(
        "secret",
        state,
        AuthEvent::SessionRow { session_data: Some("signed".to_string()) },
    );
    assert!(matches!(state, AuthState::AwaitSession));
    match action {
        AuthAction::Unsign { session_data } => assert_eq!(session_data, "signed"),
        other => panic!("unexpected: {:?}", other),
    }
    let (state, action) =
        auth_step("secret", state, AuthEvent::Session { fields: Some(session("42", GOOD_HASH)) });
    match &state {
        AuthState::AwaitUserRow { user_id, auth_user_hash } => {
            assert_eq!(*user_id, 42);
            assert_eq!(auth_user_hash, GOOD_HASH);
        }
        other => panic!("unexpected: {:?}", other),
    }
    assert!(matches!(action, AuthAction::QueryUser { user_id: 42 }));
    let (state, action) = auth_step(
        "secret",
        state,
        AuthEvent::UserRow {
            row: Some(UserRow { password: "pbkdf2_sha256$x".to_string(), realm_id: 7 }),
        },
    );
    assert!(matches!(state, AuthState::Done));
    match action {
        AuthAction::Accept(context) => {
            assert_eq!(context, AuthContext { user_id: 42, realm_id: 7 })
        }
        other => panic!("unexpected: {:?}", other),
    }
}

#[test]
fn a_session_is_refused_where_anything_is_absent() {
    let refused = |state: AuthState, event: AuthEvent| {
        let (state, action) = auth_step("secret", state, event);
        matches!(state, AuthState::Done) && matches!(action, AuthAction::Refuse)
    };
    assert!(refused(AuthState::Start, AuthEvent::Cookie { session_id: None }));
    assert!(refused(AuthState::AwaitSessionRow, AuthEvent::SessionRow { session_data: None }));
    assert!(refused(AuthState::AwaitSession, AuthEvent::Session { fields: None }));
    let waiting = || AuthState::AwaitUserRow { user_id: 42, auth_user_hash: GOOD_HASH.to_string() };
    assert!(refused(waiting(), AuthEvent::UserRow { row: None }));
    assert!(refused(
        waiting(),
        AuthEvent::UserRow { row: Some(UserRow { password: "wrong".to_string(), realm_id: 7 }) }
    ));
}

#[test]
fn an_authentication_fails_on_bad_data_and_on_answers_out_of_order() {
    let failure = |state: AuthState, event: AuthEvent| match auth_step("secret", state, event) {
        (AuthState::Done, AuthAction::Fail(e)) => Some(e),
        _ => None,
    };
    assert_eq!(
        failure(
            AuthState::AwaitSession,
            AuthEvent::Session { fields: Some(session("forty-two", GOOD_HASH)) }
        ),
        Some(AuthError::BadUserId)
    );
    assert_eq!(
        failure(
            AuthState::AwaitUserRow { user_id: 42, auth_user_hash: "xyz".to_string() },
            AuthEvent::UserRow {
                row: Some(UserRow { password: "pbkdf2_sha256$x".to_string(), realm_id: 7 })
            }
        ),
        Some(AuthError::BadHash)
    );
    assert_eq!(
        failure(AuthState::Start, AuthEvent::UserRow { row: None }),
        Some(AuthError::OutOfOrder)
    );
    assert_eq!(
        failure(AuthState::Done, AuthEvent::Cookie { session_id: None }),
        Some(AuthError::OutOfOrder)
    );
    assert_eq!(SESSION_COOKIE, "sessionid");
    assert_eq!(SESSION_SALT, "django.contrib.sessions.SessionStore");
}

#[test]
fn the_consumer_acknowledges_what_it_has_processed() {
    let (state, action) =
        consumer_step(ConsumerState::Waiting, ConsumerEvent::Delivery { delivery_tag: 9 });
    assert_eq!(state, ConsumerState::Processing { delivery_tag: 9 });
    assert_eq!(action, ConsumerAction::Process { delivery_tag: 9 });
    let (state, action) = consumer_step(state, ConsumerEvent::Processed { ok: true });
    assert_eq!(state, ConsumerState::Acknowledging { delivery_tag: 9 });
    assert_eq!(action, ConsumerAction::Acknowledge { delivery_tag: 9 });
    let (state, action) = consumer_step(state, ConsumerEvent::Acknowledged { ok: true });
    assert_eq!(state, ConsumerState::Waiting);
    assert_eq!(action, ConsumerAction::Wait);
}

#[test]
fn the_consumer_stops_on_shutdown_close_and_failure() {
    assert_eq!(
        consumer_step(ConsumerState::Waiting, ConsumerEvent::Shutdown),
        (ConsumerState::Stopped, ConsumerAction::Exit { closed: false })
    );
    assert_eq!(
        consumer_step(ConsumerState::Waiting, ConsumerEvent::Closed),
        (ConsumerState::Stopped, ConsumerAction::Exit { closed: true })
    );
    assert_eq!(
        consumer_step(ConsumerState::Waiting, ConsumerEvent::TransportError),
        (ConsumerState::Stopped, ConsumerAction::Fail)
    );
    assert_eq!(
        consumer_step(
            ConsumerState::Processing { delivery_tag: 1 },
            ConsumerEvent::Processed { ok: false }
        ),
        (ConsumerState::Stopped, ConsumerAction::Fail)
    );
    assert_eq!(
        consumer_step(
            ConsumerState::Acknowledging { delivery_tag: 1 },
            ConsumerEvent::Acknowledged { ok: false }
        ),
        (ConsumerState::Stopped, ConsumerAction::Fail)
    );
    assert_eq!(
        consumer_step(ConsumerState::Processing { delivery_tag: 1 }, ConsumerEvent::Shutdown),
        (ConsumerState::Stopped, ConsumerAction::Fail)
    );
    assert_eq!(
        consumer_step(ConsumerState::Stopped, ConsumerEvent::Delivery { delivery_tag: 2 }),
        (ConsumerState::Stopped, ConsumerAction::Fail)
    );
}

#[test]
fn the_consumer_is_set_up_with_three_durable_queues() {
    let queues = queue_declarations("notify_tornado");
    let names: Vec<&str> = queues.iter().map(|q| q.name.as_str()).collect();
    assert_eq!(
        names,
        vec!["notify_tornado", "missedmessage_mobile_notifications", "missedmessage_emails"]
    );
    assert!(queues.iter().all(|q| q.durable));
    assert_eq!(PREFETCH_COUNT, 100);
    assert_eq!(BROKER_PORT, 5672);
    assert_eq!(BROKER_VHOST, "/");
    assert_eq!(CONSUMER_TAG, "consumer");
    assert_eq!(PUBLISH_EXCHANGE, "");
    assert_eq!(PERSISTENT_DELIVERY_MODE, 2);
}

#[test]
fn answers_are_written_in_their_envelopes() {
    let ok = json_success(17);
    assert_eq!(ok.result, SuccessResult::Success);
    assert_eq!(ok.msg, EmptyMsg::Empty);
    assert_eq!(ok.inner, 17);
    assert_eq!(ok.result.as_str(), "success");
    assert_eq!(ok.msg.as_str(), "");
    let bad = json_error("no such thing".to_string());
    assert_eq!(bad.result, ErrorResult::Error);
    assert_eq!(bad.msg, "no such thing");
    assert_eq!(bad.code, ErrorCode::BadRequest);
    assert_eq!(bad.result.as_str(), "error");
    assert_eq!(bad.code.as_str(), "BAD_REQUEST");
    let bad = json_error_code("bad queue".to_string(), ErrorCode::BadEventQueueId);
    assert_eq!(bad.msg, "bad queue");
    assert_eq!(bad.code, ErrorCode::BadEventQueueId);
    assert_eq!(bad.code.as_str(), "BAD_EVENT_QUEUE_ID");
}
