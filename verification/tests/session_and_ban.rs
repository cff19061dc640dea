use chat_core::auth::StoredUser;
use chat_core::auth::login_check;
use chat_core::auth::register_prepare;
use chat_core::ban::BAN_REASON_COUNT;
use chat_core::ban::BanState;
use chat_core::ban::PendingBan;
use chat_core::ban::ServerBanRecord;
use chat_core::ban::ban_reason_text;
use chat_core::ban::decide_roll;
use chat_core::errors::ChatError;
use chat_core::escape::escape_js_string;
use chat_core::send::check_send_allowed;
use chat_core::send::finalize_sent_message;
use chat_core::send::needs_eviction;
use chat_core::session::SessionState;
use chat_core::session::generate_session_token;

const T0_MS: i64 = 1577836800000; // 2020-01-01T00:00:00Z

fn logged_in_session() -> SessionState {
    let mut session = SessionState::new(T0_MS);
    session.complete_login(
        "4c4e9e3e-0b3a-4d5c-9f6a-1b2c3d4e5f60".to_string(),
        "alice".to_string(),
        generate_session_token(),
    );
    session
}

#[test]
fn ban_state_starts_clear_with_no_fields() {
    let ban = BanState::new();
    assert!(!ban.active);
    assert!(ban.reason.is_none());
    assert!(ban.expires_at_millis.is_none());
}

#[test]
fn reconcile_clears_elapsed_ban_atomically() {
    let mut ban = BanState::new();
    ban.impose("existing".to_string(), T0_MS + 15000, T0_MS);
    assert!(ban.active);

    // Before expiry nothing changes.
    ban.reconcile(T0_MS + 14999);
    assert!(ban.active);
    assert_eq!(ban.reason.as_deref(), Some("existing"));
    assert_eq!(ban.expires_at_millis, Some(T0_MS + 15000));

    // At expiry all three fields clear together.
    ban.reconcile(T0_MS + 15000);
    assert!(!ban.active);
    assert!(ban.reason.is_none());
    assert!(ban.expires_at_millis.is_none());
}

#[test]
fn remaining_seconds_counts_whole_seconds_down() {
    let mut ban = BanState::new();
    ban.impose("existing".to_string(), T0_MS + 15000, T0_MS);
    assert_eq!(ban.remaining_seconds(T0_MS), 15);
    assert_eq!(ban.remaining_seconds(T0_MS + 500), 14);
    assert_eq!(ban.remaining_seconds(T0_MS + 15000), 0);
}

#[test]
fn server_check_imposes_future_ban() {
    let mut ban = BanState::new();
    let record = ServerBanRecord {
        reason: Some("excessive lurking".to_string()),
        expires_at: Some("2020-01-01T00:00:15Z".to_string()),
        is_active: true,
    };
    let r = ban.apply_server_check(T0_MS, Some(&record));
    assert!(r.is_ok());
    assert!(ban.active);
    assert_eq!(ban.reason.as_deref(), Some("excessive lurking"));
    assert_eq!(ban.expires_at_millis, Some(T0_MS + 15000));
}

#[test]
fn server_check_treats_elapsed_ban_as_clear() {
    let mut ban = BanState::new();
    let record = ServerBanRecord {
        reason: Some("spelling mistakes".to_string()),
        expires_at: Some("2020-01-01T00:00:15Z".to_string()),
        is_active: true,
    };
    let r = ban.apply_server_check(T0_MS + 20000, Some(&record));
    assert!(r.is_ok());
    assert!(!ban.active);
    assert!(ban.reason.is_none());
    assert!(ban.expires_at_millis.is_none());
}

#[test]
fn server_check_ignores_missing_or_inactive_records() {
    let mut ban = BanState::new();
    assert!(ban.apply_server_check(T0_MS, None).is_ok());
    assert!(!ban.active);

    let inactive = ServerBanRecord {
        reason: Some("existing".to_string()),
        expires_at: Some("2020-01-01T00:00:15Z".to_string()),
        is_active: false,
    };
    assert!(ban.apply_server_check(T0_MS, Some(&inactive)).is_ok());
    assert!(!ban.active);

    let incomplete = ServerBanRecord { reason: None, expires_at: None, is_active: true };
    assert!(ban.apply_server_check(T0_MS, Some(&incomplete)).is_ok());
    assert!(!ban.active);
}

#[test]
fn server_check_rejects_unparseable_expiry() {
    let mut ban = BanState::new();
    let record = ServerBanRecord {
        reason: Some("existing".to_string()),
        expires_at: Some("soon".to_string()),
        is_active: true,
    };
    let r = ban.apply_server_check(T0_MS, Some(&record));
    assert!(matches!(r, Err(ChatError::ParseFailure(_))));
    assert!(!ban.active);
}

#[test]
fn decide_roll_pins_reason_and_expiry() {
    let pending = decide_roll(1000, 0, 10).unwrap();
    assert_eq!(pending.reason, "illegal emoji usage");
    assert_eq!(pending.expires_at_millis, 11000);

    let pending = decide_roll(0, 51, 29).unwrap();
    assert_eq!(pending.reason, "interdimensional travel violations");
    assert_eq!(pending.expires_at_millis, 29000);
}

#[test]
fn roll_for_ban_outcomes_always_lie_within_bounds() {
    let ban = BanState::new();
    for _ in 0..200 {
        match ban.roll_for_ban(T0_MS) {
            None => {}
            Some(PendingBan { reason, expires_at_millis }) => {
                assert!(expires_at_millis >= T0_MS + 10000);
                assert!(expires_at_millis < T0_MS + 30000);
                let mut in_catalog = false;
                for i in 0..BAN_REASON_COUNT {
                    if ban_reason_text(i) == reason {
                        in_catalog = true;
                    }
                }
                assert!(in_catalog);
            }
        }
    }
}

#[test]
fn ban_reason_catalog_is_indexed_as_stated() {
    assert_eq!(ban_reason_text(0), "illegal emoji usage");
    assert_eq!(ban_reason_text(27), "sending memes at 3 AM");
    assert_eq!(ban_reason_text(51), "interdimensional travel violations");
}

#[test]
fn unauthenticated_send_is_an_identification_error() {
    let session = SessionState::new(T0_MS);
    let mut ban = BanState::new();
    let mut channel = chat_core::channel::DispatchChannel::new();

    let r = check_send_allowed(&session, &mut ban, T0_MS);
    assert!(matches!(r, Err(ChatError::IdentificationError)));
    // The attempt produced no dispatch channel entry.
    assert_eq!(channel.len(), 0);
    assert_eq!(channel.drain().len(), 0);
}

#[test]
fn login_ban_window_rejects_sends_until_expiry() {
    // Login succeeded; the server-path check runs once and reports an
    // active ban expiring fifteen seconds from now.
    let session = logged_in_session();
    let mut ban = BanState::new();
    let record = ServerBanRecord {
        reason: Some("suspicious silence".to_string()),
        expires_at: Some("2020-01-01T00:00:15Z".to_string()),
        is_active: true,
    };
    assert!(ban.apply_server_check(T0_MS, Some(&record)).is_ok());
    assert!(ban.active);

    // A send attempt during the window is rejected before any store write.
    let r = check_send_allowed(&session, &mut ban, T0_MS);
    match r {
        Err(ChatError::SuspensionError { reason, remaining_ms }) => {
            assert_eq!(reason, "suspicious silence");
            assert_eq!(remaining_ms, 15000);
        }
        other => panic!("expected a suspension error, got {:?}", other),
    }

    // Once the window has elapsed the send path is open again.
    let r = check_send_allowed(&session, &mut ban, T0_MS + 15000);
    assert!(r.is_ok());
    assert!(!ban.active);
}

#[test]
fn registered_credentials_log_back_in() {
    let data = register_prepare(0, "hunter2").unwrap();
    assert_eq!(data.user_id.len(), 36);

    let stored = StoredUser { id: data.user_id.clone(), password_hash: data.password_hash };
    assert!(login_check(Some(&stored), "hunter2").is_ok());
    assert!(matches!(
        login_check(Some(&stored), "wrong-password"),
        Err(ChatError::AuthFailure(_))
    ));
}

#[test]
fn register_rejects_taken_username() {
    assert!(matches!(register_prepare(1, "pw"), Err(ChatError::AuthFailure(_))));
}

#[test]
fn login_rejects_unknown_user_and_malformed_id() {
    assert!(matches!(login_check(None, "pw"), Err(ChatError::AuthFailure(_))));

    let stored = StoredUser { id: "not-a-uuid".to_string(), password_hash: "x".to_string() };
    assert!(matches!(login_check(Some(&stored), "pw"), Err(ChatError::ParseFailure(_))));
}

#[test]
fn ban_check_gate_passes_once_per_second() {
    let mut session = SessionState::new(T0_MS);
    assert!(!session.gate_ban_check(T0_MS + 500));
    assert!(session.gate_ban_check(T0_MS + 1000));
    assert!(!session.gate_ban_check(T0_MS + 1500));
    assert!(session.gate_ban_check(T0_MS + 2000));
}

#[test]
fn finalize_marks_message_as_locally_originated() {
    let m = finalize_sent_message(
        "hi".to_string(),
        "2020-01-01T00:00:03Z".to_string(),
        "4c4e9e3e-0b3a-4d5c-9f6a-1b2c3d4e5f60".to_string(),
        Some("alice".to_string()),
    );
    assert!(m.skip_polling);
    assert_eq!(m.username, "alice");
    assert_eq!(m.content, "hi");

    let anon = finalize_sent_message(
        "hi".to_string(),
        "2020-01-01T00:00:03Z".to_string(),
        "4c4e9e3e-0b3a-4d5c-9f6a-1b2c3d4e5f60".to_string(),
        None,
    );
    assert_eq!(anon.username, "You");
}

#[test]
fn eviction_starts_at_the_cap() {
    assert!(!needs_eviction(19));
    assert!(needs_eviction(20));
    assert!(needs_eviction(21));
}

#[test]
fn escape_js_string_escapes_breakout_characters() {
    assert_eq!(escape_js_string(""), "''");
    assert_eq!(escape_js_string("hello"), "'hello'");
    assert_eq!(
        escape_js_string("a'b\"c\\d\ne\rf\tg"),
        "'a\\'b\\\"c\\\\d\\ne\\rf\\tg'"
    );
}
