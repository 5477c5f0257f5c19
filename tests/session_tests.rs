use rura::identity::{
    authenticate_stored, password_matches, registration_hash, registration_hash_with_salt, AuthOutcome,
    StoredUser,
};
use rura::models::DirectMessageReq;
use rura::wire::ClientMessage;
use rura::routing::{AppState, ClientHandle};
use rura::session::{
    auth_prompt, authed_frame_step, authed_step, get_pubkey_reply, message_step, unauth_frame_step, set_pubkey_reply, unauth_step, AuthKind, AuthedStep,
    ConnState, LineStep, PubkeyLoaded, PubkeyStored, Session, UnauthStep,
};

fn reply_of(step: UnauthStep) -> (String, String) {
    match step {
        UnauthStep::Reply(m) => (m.command, m.data),
        UnauthStep::Authenticate(..) => panic!("expected a reply"),
    }
}

fn authed_reply(step: AuthedStep) -> (String, String) {
    match step {
        AuthedStep::Reply(m) => (m.command, m.data),
        _ => panic!("expected a reply"),
    }
}

/// Logs a session in as `user` and returns it.
fn logged_in(table: &mut AppState<u32>, session: u64, user: i64, tag: u32) -> Session {
    let mut s = Session::new(session);
    let reply = s.complete_auth(AuthKind::Login, AuthOutcome::Accepted(user), table, tag);
    assert_eq!(reply.command, "auth_response");
    s
}

#[test]
fn prompt_asks_for_credentials() {
    let p = auth_prompt();
    assert_eq!(p.command, "auth_required");
    assert_eq!(
        p.data,
        "Please authenticate by sending 'login' or 'register' command with your credentials"
    );
}

#[test]
fn test_invalid_command_returns_error() {
    let (c, d) = reply_of(unauth_step("{\"command\":\"greetings\",\"data\":\"Hello!\"}"));
    assert_eq!(c, "error");
    assert_eq!(d, "Authentication required. Please send 'login' or 'register' command first");
}

#[test]
fn unauth_message_command_is_rejected() {
    let s = Session::new(1);
    let (c, d) = reply_of(unauth_step(
        "{\"command\":\"message\",\"data\":\"{\\\"to_user_id\\\":2,\\\"body\\\":\\\"hi\\\"}\"}",
    ));
    assert_eq!(c, "error");
    assert_eq!(d, "Authentication required. Please send 'login' or 'register' command first");
    assert!(s.state == ConnState::Unauth);
}

#[test]
fn test_unauth_invalid_json_sends_error() {
    let (c, d) = reply_of(unauth_step("not json"));
    assert_eq!(c, "error");
    assert_eq!(d, "Invalid JSON");
}

#[test]
fn unauth_malformed_credentials() {
    let (c, d) = reply_of(unauth_step("{\"command\":\"login\",\"data\":\"{}\"}"));
    assert_eq!(c, "auth_response");
    assert_eq!(d, "{\"success\":false,\"message\":\"Invalid authentication format\",\"user_id\":null}");
    let (c, d) = reply_of(unauth_step("{\"command\":\"register\",\"data\":\"oops\"}"));
    assert_eq!(c, "auth_response");
    assert_eq!(d, "{\"success\":false,\"message\":\"Invalid registration format\",\"user_id\":null}");
}

#[test]
fn test_register_new_user_success() {
    let step = unauth_step(
        "{\"command\":\"register\",\"data\":\"{\\\"passphrase\\\":\\\"testuser\\\",\\\"password\\\":\\\"testpass\\\"}\"}",
    );
    match step {
        UnauthStep::Authenticate(kind, req) => {
            assert!(kind == AuthKind::Register);
            assert_eq!(req.passphrase, "testuser");
            assert_eq!(req.password, "testpass");
        }
        UnauthStep::Reply(_) => panic!("expected authentication"),
    }
    let mut table: AppState<u32> = AppState::new(true);
    let mut s = Session::new(7);
    let reply = s.complete_auth(AuthKind::Register, AuthOutcome::Accepted(1), &mut table, 70);
    assert_eq!(reply.command, "auth_response");
    assert_eq!(reply.data, "{\"success\":true,\"message\":\"Registration successful\",\"user_id\":1}");
    assert!(s.state == ConnState::Auth(1));
    assert_eq!(table.get_sender(1), Some(&70));
    assert_eq!(table.get_session(1), Some(7));
}

#[test]
fn test_login_invalid_credentials_error() {
    let mut table: AppState<u32> = AppState::new(true);
    let mut s = Session::new(1);
    let reply = s.complete_auth(AuthKind::Login, AuthOutcome::BadCredentials, &mut table, 10);
    assert_eq!(reply.data, "{\"success\":false,\"message\":\"Invalid passphrase or password\",\"user_id\":null}");
    assert!(s.state == ConnState::Unauth);
    assert_eq!(table.get_sender(1), None);
    let reply = s.complete_auth(AuthKind::Register, AuthOutcome::AlreadyExists, &mut table, 10);
    assert_eq!(
        reply.data,
        "{\"success\":false,\"message\":\"User with this passphrase already exists\",\"user_id\":null}"
    );
    let reply = s.complete_auth(AuthKind::Login, AuthOutcome::StorageError, &mut table, 10);
    assert_eq!(reply.data, "{\"success\":false,\"message\":\"Authentication error\",\"user_id\":null}");
    let reply = s.complete_auth(AuthKind::Register, AuthOutcome::StorageError, &mut table, 10);
    assert_eq!(reply.data, "{\"success\":false,\"message\":\"Registration failed\",\"user_id\":null}");
}

#[test]
fn register_then_login_with_argon2() {
    let hash = registration_hash(false, "secret").ok().unwrap();
    assert!(hash.starts_with("$argon2"));
    assert_ne!(hash, "secret");
    assert_eq!(password_matches(&hash, "secret"), Ok(true));
    assert_eq!(password_matches(&hash, "wrong"), Ok(false));
    assert_eq!(password_matches("not a hash", "secret"), Err(()));
    let stored = StoredUser { id: 1, password_hash: hash.clone() };
    assert!(authenticate_stored(Some(stored), "secret") == AuthOutcome::Accepted(1));
    let stored = StoredUser { id: 1, password_hash: hash.clone() };
    assert!(authenticate_stored(Some(stored), "wrong") == AuthOutcome::BadCredentials);
    assert!(authenticate_stored(None, "secret") == AuthOutcome::BadCredentials);
    let broken = StoredUser { id: 1, password_hash: "plain".to_string() };
    assert!(authenticate_stored(Some(broken), "plain") == AuthOutcome::StorageError);
    assert!(registration_hash(true, "secret").err() == Some(AuthOutcome::AlreadyExists));
}

#[test]
fn e2ee_delivery() {
    let step = authed_step(
        1,
        true,
        "{\"command\":\"message\",\"data\":\"{\\\"to_user_id\\\":2,\\\"body\\\":\\\"v1:RU5WUEs=:Tk9OQ0U=:Q0lQSEVSVEVYVA==\\\"}\"}",
    );
    match step {
        AuthedStep::Deliver(to, m) => {
            assert_eq!(to, 2);
            assert_eq!(m.command, "message");
            assert_eq!(m.data, "{\"from_user_id\":1,\"body\":\"v1:RU5WUEs=:Tk9OQ0U=:Q0lQSEVSVEVYVA==\"}");
        }
        _ => panic!("expected delivery"),
    }
}

#[test]
fn e2ee_enforcement_rejects_plaintext() {
    let line = "{\"command\":\"message\",\"data\":\"{\\\"to_user_id\\\":2,\\\"body\\\":\\\"hello world\\\"}\"}";
    let (c, d) = authed_reply(authed_step(1, true, line));
    assert_eq!(c, "error");
    assert_eq!(d, "E2EE required: invalid or missing envelope");
    assert!(d.contains("E2EE required"));
    match authed_step(1, false, line) {
        AuthedStep::Deliver(to, m) => {
            assert_eq!(to, 2);
            assert_eq!(m.data, "{\"from_user_id\":1,\"body\":\"hello world\"}");
        }
        _ => panic!("expected delivery without the policy"),
    }
}

#[test]
fn test_invalid_message_format_sends_error_to_sender() {
    let (c, d) = authed_reply(authed_step(42, true, "{\"command\":\"message\",\"data\":\"not json\"}"));
    assert_eq!(c, "error");
    assert_eq!(d, "Invalid message format");
}

#[test]
fn test_invalid_envelope_sends_invalid_json_error() {
    let (c, d) = authed_reply(authed_step(42, true, "not json"));
    assert_eq!(c, "error");
    assert_eq!(d, "Invalid JSON");
}

#[test]
fn test_non_message_command_is_echoed() {
    let (c, d) = authed_reply(authed_step(42, true, "{\"command\":\"ping\",\"data\":\"hello\"}"));
    assert_eq!(c, "ping");
    assert_eq!(d, "hello");
}

#[test]
fn malformed_pubkey_requests() {
    let (c, d) = authed_reply(authed_step(1, true, "{\"command\":\"set_pubkey\",\"data\":\"{}\"}"));
    assert_eq!((c.as_str(), d.as_str()), ("error", "Invalid set_pubkey format"));
    let (c, d) = authed_reply(authed_step(1, true, "{\"command\":\"get_pubkey\",\"data\":\"{}\"}"));
    assert_eq!((c.as_str(), d.as_str()), ("error", "Invalid get_pubkey format"));
}

#[test]
fn key_publish_and_fetch() {
    match authed_step(2, true, "{\"command\":\"set_pubkey\",\"data\":\"{\\\"pubkey\\\":\\\"Qk9CX1BVQktFWQ==\\\"}\"}") {
        AuthedStep::StorePubkey(k) => assert_eq!(k, "Qk9CX1BVQktFWQ=="),
        _ => panic!("expected a store"),
    }
    let r = set_pubkey_reply(PubkeyStored::Stored);
    assert_eq!(r.command, "set_pubkey_response");
    assert_eq!(r.data, "{\"success\":true,\"message\":\"Pubkey stored\"}");
    match authed_step(1, true, "{\"command\":\"get_pubkey\",\"data\":\"{\\\"user_id\\\":2}\"}") {
        AuthedStep::LoadPubkey(u) => assert_eq!(u, 2),
        _ => panic!("expected a load"),
    }
    let r = get_pubkey_reply(2, PubkeyLoaded::Found("Qk9CX1BVQktFWQ==".to_string()));
    assert_eq!(r.command, "get_pubkey_response");
    assert_eq!(
        r.data,
        "{\"success\":true,\"message\":\"OK\",\"user_id\":2,\"pubkey\":\"Qk9CX1BVQktFWQ==\"}"
    );
}

#[test]
fn pubkey_failures() {
    assert_eq!(set_pubkey_reply(PubkeyStored::NoSuchUser).data, "{\"success\":false,\"message\":\"User not found\"}");
    assert_eq!(set_pubkey_reply(PubkeyStored::Failed).data, "{\"success\":false,\"message\":\"Failed to store pubkey\"}");
    assert_eq!(
        get_pubkey_reply(5, PubkeyLoaded::Absent).data,
        "{\"success\":false,\"message\":\"User not found or no pubkey\",\"user_id\":5,\"pubkey\":null}"
    );
    assert_eq!(
        get_pubkey_reply(5, PubkeyLoaded::Failed).data,
        "{\"success\":false,\"message\":\"Failed to load pubkey\",\"user_id\":5,\"pubkey\":null}"
    );
}

#[test]
fn test_register_get_unregister_sender() {
    let mut table: AppState<u32> = AppState::default();
    assert!(table.require_e2ee());
    table.register(42, ClientHandle { session: 1, tx: 420 });
    assert_eq!(table.get_sender(42), Some(&420));
    table.unregister(42);
    assert_eq!(table.get_sender(42), None);
}

#[test]
fn relogin_overwrites_online_route_latest_wins() {
    let mut table: AppState<u32> = AppState::new(true);
    let mut a = logged_in(&mut table, 1, 1, 100);
    let mut b = logged_in(&mut table, 2, 1, 200);
    let _bob = logged_in(&mut table, 3, 2, 300);
    assert_eq!(table.get_sender(1), Some(&200));
    a.close(&mut table);
    assert!(a.state == ConnState::Closed);
    assert_eq!(table.get_sender(1), Some(&200));
    assert_eq!(table.get_sender(2), Some(&300));
    b.close(&mut table);
    assert_eq!(table.get_sender(1), None);
    assert_eq!(table.get_sender(2), Some(&300));
}

#[test]
fn conditional_unregister() {
    let mut table: AppState<u32> = AppState::new(false);
    assert!(!table.require_e2ee());
    table.register(9, ClientHandle { session: 5, tx: 1 });
    assert!(!table.unregister_session(9, 4));
    assert_eq!(table.get_session(9), Some(5));
    assert!(table.unregister_session(9, 5));
    assert_eq!(table.get_session(9), None);
    assert!(!table.unregister_session(9, 5));
}

#[test]
fn frames_are_routed_by_state() {
    let mut table: AppState<u32> = AppState::new(true);
    let mut s = Session::new(4);
    let ping = "{\"command\":\"ping\",\"data\":\"hello\"}";
    match s.on_line(true, ping) {
        LineStep::Unauth(UnauthStep::Reply(m)) => assert_eq!(m.command, "error"),
        _ => panic!("expected the authentication gate"),
    }
    let _ = s.complete_auth(AuthKind::Login, AuthOutcome::Accepted(8), &mut table, 1);
    match s.on_line(true, ping) {
        LineStep::Authed(AuthedStep::Reply(m)) => assert_eq!(m.data, "hello"),
        _ => panic!("expected the dispatcher"),
    }
    s.close(&mut table);
    assert!(matches!(s.on_line(true, ping), LineStep::Ignore));
    assert_eq!(table.get_sender(8), None);
}

#[test]
fn test_login_valid_user_success() {
    let step = unauth_step(
        "{\"command\":\"login\",\"data\":\"{\\\"passphrase\\\":\\\"testuser\\\",\\\"password\\\":\\\"testpass\\\"}\"}",
    );
    let req = match step {
        UnauthStep::Authenticate(kind, req) => {
            assert!(kind == AuthKind::Login);
            req
        }
        UnauthStep::Reply(_) => panic!("expected authentication"),
    };
    let hash = registration_hash(false, "testpass").ok().unwrap();
    let outcome = authenticate_stored(Some(StoredUser { id: 1, password_hash: hash }), &req.password);
    let mut table: AppState<u32> = AppState::new(true);
    let mut s = Session::new(2);
    let reply = s.complete_auth(AuthKind::Login, outcome, &mut table, 5);
    assert_eq!(reply.command, "auth_response");
    assert_eq!(reply.data, "{\"success\":true,\"message\":\"Authentication successful\",\"user_id\":1}");
    assert!(s.state == ConnState::Auth(1));
}

#[test]
fn salted_registration_hash_verifies() {
    let salt = [7u8; 16];
    let h = registration_hash_with_salt(false, "password123", &salt).ok().unwrap();
    assert!(h.starts_with("$argon2"));
    assert_ne!(h, "password123");
    assert_eq!(password_matches(&h, "password123"), Ok(true));
    assert_eq!(password_matches(&h, "password124"), Ok(false));
    let again = registration_hash_with_salt(false, "password123", &salt).ok().unwrap();
    assert_eq!(h, again);
    assert!(registration_hash_with_salt(true, "x", &salt).err() == Some(AuthOutcome::AlreadyExists));
    let other = registration_hash(false, "password123").ok().unwrap();
    assert_ne!(other, h);
}

#[test]
fn decoded_frames_are_dispatched() {
    match unauth_frame_step(ClientMessage::new("register", "{\"passphrase\":\"alice\",\"password\":\"secret\"}")) {
        UnauthStep::Authenticate(kind, req) => {
            assert!(kind == AuthKind::Register);
            assert_eq!(req.passphrase, "alice");
            assert_eq!(req.password, "secret");
        }
        UnauthStep::Reply(_) => panic!("expected authentication"),
    }
    let (c, _) = reply_of(unauth_frame_step(ClientMessage::new("history", "{}")));
    assert_eq!(c, "error");
    match authed_frame_step(3, true, ClientMessage::new("get_pubkey", "{\"user_id\":2}")) {
        AuthedStep::LoadPubkey(u) => assert_eq!(u, 2),
        _ => panic!("expected a load"),
    }
    let (c, d) = authed_reply(authed_frame_step(3, true, ClientMessage::new("status", "x")));
    assert_eq!((c.as_str(), d.as_str()), ("status", "x"));
}

#[test]
fn message_requests_are_delivered_or_refused() {
    let req = DirectMessageReq { to_user_id: 2, body: "v1:RU5WUEs=:Tk9OQ0U=:Q0lQSEVSVEVYVA==".to_string(), saved: Some(true) };
    match message_step(1, true, req) {
        AuthedStep::Deliver(to, m) => {
            assert_eq!(to, 2);
            assert_eq!(m.command, "message");
            assert_eq!(m.data, "{\"from_user_id\":1,\"body\":\"v1:RU5WUEs=:Tk9OQ0U=:Q0lQSEVSVEVYVA==\"}");
        }
        _ => panic!("expected delivery"),
    }
    let plain = DirectMessageReq { to_user_id: 2, body: "hello world".to_string(), saved: None };
    let (c, d) = authed_reply(message_step(1, true, plain));
    assert_eq!((c.as_str(), d.as_str()), ("error", "E2EE required: invalid or missing envelope"));
    let plain = DirectMessageReq { to_user_id: 2, body: "tab\there".to_string(), saved: None };
    match message_step(1, false, plain) {
        AuthedStep::Deliver(_, m) => assert_eq!(m.data, "{\"from_user_id\":1,\"body\":\"tab\\there\"}"),
        _ => panic!("expected delivery"),
    }
}
