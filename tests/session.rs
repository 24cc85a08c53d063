use mtxchat::config::{ConfigError, StoreChange};
use mtxchat::session::{
    cycle_cursor, FilterStep, ListenStep, LoginStep, MtxChat, RoomStep, SessionState, SyncRequest,
    FILTER_KEY, PASSWORD_KEY, ROOM_DOMAIN_KEY, ROOM_ID_KEY, ROOM_NAME_KEY, SINCE_KEY, TOKEN_KEY,
    USER_DOMAIN_KEY, USER_ID_KEY, USER_NAME_KEY,
};

fn s(x: &str) -> String {
    x.to_string()
}

fn logged_in_chat() -> MtxChat {
    let mut chat = MtxChat::new(true);
    chat.restore(s(TOKEN_KEY), s("tok1"));
    let step = chat.login_begin();
    assert!(matches!(step, LoginStep::CheckToken { .. }));
    assert_eq!(chat.login_identity(Some(s("@alice:example.org"))), LoginStep::Done(true));
    chat
}

#[test]
fn set_then_get_round_trip() {
    let mut chat = MtxChat::new(true);
    assert_eq!(chat.set("room_name", "general"), Ok(()));
    assert_eq!(chat.get("room_name"), Some(s("general")));
    assert_eq!(chat.set("room_name", "random"), Ok(()));
    assert_eq!(chat.get("room_name"), Some(s("random")));
    assert_eq!(chat.get_or("missing", "fallback"), s("fallback"));
    assert_eq!(chat.get("missing"), None);
}

#[test]
fn reserved_keys_are_refused() {
    let mut chat = MtxChat::new(true);
    assert_eq!(chat.set("__x", "v"), Err(ConfigError::PermissionDenied));
    assert_eq!(chat.unset("__x"), Err(ConfigError::PermissionDenied));
    assert!(!chat.set_debug("__x", "v"));
    assert!(!chat.unset_debug("__x"));
    assert_eq!(chat.get("__x"), None);
    assert!(chat.take_pending().is_empty());
    // a single underscore is an ordinary key
    assert_eq!(chat.set("_x", "v"), Ok(()));
    assert_eq!(chat.get("_x"), Some(s("v")));
}

#[test]
fn reserved_key_leaves_existing_value() {
    let mut chat = MtxChat::new(true);
    chat.restore(s("__x"), s("kept"));
    assert_eq!(chat.set("__x", "other"), Err(ConfigError::PermissionDenied));
    assert_eq!(chat.unset("__x"), Err(ConfigError::PermissionDenied));
    assert_eq!(chat.get("__x"), Some(s("kept")));
}

#[test]
fn unset_removes_and_is_journaled() {
    let mut chat = MtxChat::new(true);
    assert!(chat.set_debug("a", "1"));
    assert!(chat.unset_debug("a"));
    assert!(chat.unset_debug("never_set"));
    assert_eq!(chat.get("a"), None);
    assert_eq!(
        chat.take_pending(),
        vec![
            StoreChange::Put { key: s("a"), value: s("1") },
            StoreChange::Remove { key: s("a") },
            StoreChange::Remove { key: s("never_set") },
        ]
    );
    assert!(chat.take_pending().is_empty());
}

#[test]
fn resolved_room_needs_no_lookup() {
    let mut chat = logged_in_chat();
    chat.restore(s(ROOM_ID_KEY), s("!abc123"));
    assert_eq!(chat.room_lookup(), RoomStep::Cached);
    assert_eq!(chat.room_lookup(), RoomStep::Cached);
}

#[test]
fn room_edit_clears_room_filter_and_cursor() {
    let mut chat = MtxChat::new(true);
    chat.restore(s(ROOM_ID_KEY), s("!abc123"));
    chat.restore(s(FILTER_KEY), s("f1"));
    chat.restore(s(SINCE_KEY), s("s1"));
    chat.apply_room_form(Some(s("random")), Some(s("example.com")));
    assert_eq!(chat.get(ROOM_ID_KEY), None);
    assert_eq!(chat.get(FILTER_KEY), None);
    assert_eq!(chat.get(SINCE_KEY), None);
    assert_eq!(chat.get(ROOM_NAME_KEY), Some(s("random")));
    assert_eq!(chat.get(ROOM_DOMAIN_KEY), Some(s("example.com")));
    let form = chat.room_form();
    assert_eq!(form.room_name, Some(s("random")));
    assert_eq!(form.room_domain, Some(s("example.com")));
}

#[test]
fn room_edit_without_fields_still_clears() {
    let mut chat = MtxChat::new(true);
    chat.restore(s(ROOM_ID_KEY), s("!abc123"));
    chat.restore(s(ROOM_NAME_KEY), s("general"));
    chat.apply_room_form(None, None);
    assert_eq!(chat.get(ROOM_ID_KEY), None);
    assert_eq!(chat.get(ROOM_NAME_KEY), Some(s("general")));
}

#[test]
fn second_listen_is_a_no_op() {
    let mut chat = logged_in_chat();
    chat.restore(s(ROOM_ID_KEY), s("!abc123"));
    chat.restore(s(FILTER_KEY), s("f1"));
    chat.restore(s(ROOM_DOMAIN_KEY), s("example.org"));
    let first = chat.listen();
    assert!(matches!(first, ListenStep::Poll(_)));
    assert!(chat.listening());
    assert_eq!(chat.listen(), ListenStep::AlreadyListening);
    assert!(chat.listening());
}

#[test]
fn listen_hands_out_one_cycle() {
    let mut chat = logged_in_chat();
    chat.restore(s(ROOM_ID_KEY), s("!abc123"));
    chat.restore(s(FILTER_KEY), s("f1"));
    chat.restore(s(ROOM_DOMAIN_KEY), s("example.org"));
    chat.restore(s(SINCE_KEY), s("s0"));
    assert_eq!(
        chat.listen(),
        ListenStep::Poll(SyncRequest {
            server: s("https://example.org"),
            filter: s("f1"),
            since: s("s0"),
            timeout_ms: 60000,
            room_id: s("!abc123"),
            token: s("tok1"),
        })
    );
}

#[test]
fn listen_over_with_cursor_restarts() {
    let mut chat = logged_in_chat();
    chat.restore(s(ROOM_ID_KEY), s("!abc123"));
    chat.restore(s(FILTER_KEY), s("f1"));
    assert!(matches!(chat.listen(), ListenStep::Poll(_)));
    match chat.listen_over("s1") {
        ListenStep::Poll(q) => {
            assert_eq!(q.since, s("s1"));
            assert_eq!(q.server, s("https://matrix.org"));
        }
        other => panic!("expected a restart, got {:?}", other),
    }
    assert!(chat.listening());
    assert_eq!(chat.get(SINCE_KEY), Some(s("s1")));
}

#[test]
fn listen_over_with_empty_cursor_stops() {
    let mut chat = logged_in_chat();
    chat.restore(s(ROOM_ID_KEY), s("!abc123"));
    chat.restore(s(FILTER_KEY), s("f1"));
    assert!(matches!(chat.listen(), ListenStep::Poll(_)));
    assert_eq!(chat.listen_over(""), ListenStep::Stopped);
    assert!(!chat.listening());
    assert_eq!(chat.get(SINCE_KEY), None);
}

#[test]
fn listen_over_offline_device_stores_cursor_without_restart() {
    let mut chat = MtxChat::new(false);
    chat.restore(s(TOKEN_KEY), s("tok1"));
    chat.login_begin();
    chat.login_identity(Some(s("@alice:example.org")));
    chat.restore(s(ROOM_ID_KEY), s("!abc123"));
    chat.restore(s(FILTER_KEY), s("f1"));
    assert!(matches!(chat.listen(), ListenStep::Poll(_)));
    assert_eq!(chat.listen_over("s2"), ListenStep::Stopped);
    assert_eq!(chat.get(SINCE_KEY), Some(s("s2")));
    chat.set_wifi_connected(true);
    assert!(matches!(chat.listen(), ListenStep::Poll(_)));
    assert!(matches!(chat.listen_over("s3"), ListenStep::Poll(_)));
}

#[test]
fn listen_needs_login_room_and_filter() {
    let mut chat = MtxChat::new(true);
    assert_eq!(chat.listen(), ListenStep::NotLoggedIn);
    let mut chat = logged_in_chat();
    assert_eq!(chat.listen(), ListenStep::Room(RoomStep::Unmet));
    chat.restore(s(ROOM_NAME_KEY), s("general"));
    chat.restore(s(ROOM_DOMAIN_KEY), s("example.org"));
    assert!(matches!(chat.listen(), ListenStep::Room(RoomStep::Lookup { .. })));
    assert!(chat.room_lookup_done(Some(s("!abc123"))));
    assert_eq!(
        chat.listen(),
        ListenStep::Filter(FilterStep::Create {
            server: s("https://matrix.org"),
            token: s("tok1"),
            room_id: s("!abc123"),
        })
    );
    assert!(!chat.listening());
    assert!(!chat.filter_lookup_done(None));
    assert_eq!(chat.get(FILTER_KEY), None);
    assert!(chat.filter_lookup_done(Some(s("f9"))));
    assert_eq!(chat.filter_lookup(), FilterStep::Cached);
    assert!(matches!(chat.listen(), ListenStep::Poll(_)));
}

#[test]
fn password_login_stores_token() {
    let mut chat = MtxChat::new(true);
    chat.restore(s(USER_ID_KEY), s("@alice:example.org"));
    chat.restore(s(PASSWORD_KEY), s("hunter2"));
    assert_eq!(chat.login_begin(), LoginStep::QueryLoginType { server: s("https://matrix.org") });
    assert_eq!(chat.state(), SessionState::Authenticating);
    assert_eq!(
        chat.login_method(true),
        LoginStep::Authenticate {
            server: s("https://matrix.org"),
            user_id: s("@alice:example.org"),
            password: s("hunter2"),
        }
    );
    assert!(chat.login_token(Some(s("tok1"))));
    assert!(chat.logged_in());
    assert_eq!(chat.state(), SessionState::LoggedIn);
    assert_eq!(chat.token(), s("tok1"));
    assert_eq!(chat.user_id(), s("@alice:example.org"));
    assert_eq!(chat.get(TOKEN_KEY), Some(s("tok1")));
    assert_eq!(
        chat.take_pending(),
        vec![StoreChange::Put { key: s(TOKEN_KEY), value: s("tok1") }]
    );
}

#[test]
fn login_on_empty_store_sends_defaults() {
    let mut chat = MtxChat::new(true);
    assert_eq!(chat.login_begin(), LoginStep::QueryLoginType { server: s("https://matrix.org") });
    assert_eq!(
        chat.login_method(true),
        LoginStep::Authenticate {
            server: s("https://matrix.org"),
            user_id: s("_user_id"),
            password: s(""),
        }
    );
    assert!(chat.login_token(Some(s("tok1"))));
    assert!(chat.logged_in());
    assert_eq!(chat.get(TOKEN_KEY), Some(s("tok1")));
}

#[test]
fn cached_token_logs_in_without_authenticating() {
    let mut chat = MtxChat::new(true);
    chat.restore(s(TOKEN_KEY), s("tok1"));
    chat.restore(s(USER_DOMAIN_KEY), s("example.org"));
    assert_eq!(
        chat.login_begin(),
        LoginStep::CheckToken { server: s("https://example.org"), token: s("tok1") }
    );
    assert_eq!(chat.login_identity(Some(s("@alice:example.org"))), LoginStep::Done(true));
    assert!(chat.logged_in());
    assert_eq!(chat.user_id(), s("@alice:example.org"));
    assert_eq!(chat.token(), s("tok1"));
    assert!(chat.take_pending().is_empty());
}

#[test]
fn rejected_token_falls_back_to_password() {
    let mut chat = MtxChat::new(true);
    chat.restore(s(TOKEN_KEY), s("stale"));
    chat.login_begin();
    assert_eq!(
        chat.login_identity(None),
        LoginStep::QueryLoginType { server: s("https://matrix.org") }
    );
    assert!(!chat.logged_in());
    assert_eq!(chat.login_method(false), LoginStep::Done(false));
    assert_eq!(chat.state(), SessionState::LoginFailed);
    assert_eq!(chat.token(), s(""));
    assert_eq!(chat.get(TOKEN_KEY), Some(s("stale")));
}

#[test]
fn failed_authentication_drops_token() {
    let mut chat = MtxChat::new(true);
    chat.login_begin();
    chat.login_method(true);
    assert!(!chat.login_token(None));
    assert!(!chat.logged_in());
    assert_eq!(chat.state(), SessionState::LoginFailed);
    assert_eq!(chat.get(TOKEN_KEY), None);
}

#[test]
fn room_lookup_stores_room_id() {
    let mut chat = logged_in_chat();
    chat.restore(s(ROOM_NAME_KEY), s("general"));
    chat.restore(s(ROOM_DOMAIN_KEY), s("example.org"));
    assert_eq!(
        chat.room_lookup(),
        RoomStep::Lookup {
            server: s("https://matrix.org"),
            alias: s("#general:example.org"),
            token: s("tok1"),
        }
    );
    assert!(chat.room_lookup_done(Some(s("!abc123"))));
    assert_eq!(chat.get(ROOM_ID_KEY), Some(s("!abc123")));
    assert_eq!(
        chat.take_pending(),
        vec![StoreChange::Put { key: s(ROOM_ID_KEY), value: s("!abc123") }]
    );
    assert_eq!(chat.room_lookup(), RoomStep::Cached);
}

#[test]
fn room_lookup_needs_name_and_domain() {
    let mut chat = logged_in_chat();
    assert_eq!(chat.room_lookup(), RoomStep::Unmet);
    chat.restore(s(ROOM_NAME_KEY), s("general"));
    assert_eq!(chat.room_lookup(), RoomStep::Unmet);
    chat.restore(s(ROOM_DOMAIN_KEY), s(""));
    assert_eq!(chat.room_lookup(), RoomStep::Unmet);
    assert!(!chat.room_lookup_done(None));
    assert_eq!(chat.get(ROOM_ID_KEY), None);
    assert!(chat.take_pending().is_empty());
}

#[test]
fn filter_needs_room() {
    let chat = logged_in_chat();
    assert_eq!(chat.filter_lookup(), FilterStep::Unmet);
}

#[test]
fn credential_form_rebuilds_user_id() {
    let mut chat = MtxChat::new(true);
    chat.restore(s(TOKEN_KEY), s("tok1"));
    let form = chat.login_form();
    assert_eq!(form.user_name, None);
    assert_eq!(form.password, None);
    chat.apply_login_form(Some(s("alice")), Some(s("example.org")), Some(s("hunter2")));
    assert_eq!(chat.get(TOKEN_KEY), None);
    assert_eq!(chat.get(USER_NAME_KEY), Some(s("alice")));
    assert_eq!(chat.get(USER_DOMAIN_KEY), Some(s("example.org")));
    assert_eq!(chat.get(PASSWORD_KEY), Some(s("hunter2")));
    assert_eq!(chat.get(USER_ID_KEY), Some(s("@alice:example.org")));
    assert_eq!(chat.user_id(), s("@alice:example.org"));
    let form = chat.login_form();
    assert_eq!(form.user_name, Some(s("alice")));
    assert_eq!(form.user_domain, Some(s("example.org")));
    assert_eq!(form.password, Some(s("*****")));
}

#[test]
fn masked_password_is_kept() {
    let mut chat = MtxChat::new(true);
    chat.restore(s(PASSWORD_KEY), s("hunter2"));
    chat.apply_login_form(Some(s("bob")), None, Some(s("*****")));
    assert_eq!(chat.get(PASSWORD_KEY), Some(s("hunter2")));
    assert_eq!(chat.get(USER_ID_KEY), Some(s("@bob:matrix.org")));
    chat.apply_login_form(None, None, Some(s("")));
    assert_eq!(chat.get(PASSWORD_KEY), Some(s("")));
}

#[test]
fn cycle_cursor_of_results() {
    assert_eq!(cycle_cursor(&Some((s("s7"), s("hello")))), s("s7"));
    assert_eq!(cycle_cursor(&None), s(""));
}
