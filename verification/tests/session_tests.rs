//! Tests of the session state machine, the session ids, the cookie
//! generators and the in-memory store on their own.

use typed_session::{
    DebugSessionCookieGenerator, DefaultSessionCookieGenerator, MemoryStore, Session,
    SessionCookieGenerator, SessionExpiry, SessionId, TimeDelta, Timestamp, WriteSessionResult,
};

const HOUR_MILLIS: i64 = 3_600_000;

#[test]
fn test_new_session_has_default_data_and_no_expiry() {
    let session: Session<i32> = Session::new();
    assert_eq!(&SessionExpiry::Never, session.expiry());
    assert_eq!(i32::default(), *session.data());
    assert!(!session.is_changed());
    assert!(!session.is_deleted());
    assert!(!session.is_changed_or_deleted());
}

#[test]
fn test_new_with_data_counts_as_changed() {
    let session: Session<_> = Session::new_with_data(4);
    assert_eq!(&SessionExpiry::Never, session.expiry());
    assert_eq!(4, *session.data());
    assert!(session.is_changed());
    assert!(session.is_changed_or_deleted());
}

#[test]
fn test_data_mut_marks_changed() {
    let mut session: Session<()> = Session::new();
    assert!(!session.is_changed());
    session.data_mut();
    assert!(session.is_changed());
}

#[test]
fn test_delete_marks_deleted() {
    let mut session: Session<()> = Session::new();
    assert!(!session.is_deleted());
    session.delete();
    assert!(session.is_deleted());
    assert!(session.is_changed_or_deleted());
}

#[test]
fn test_expiry_change_does_not_mark_new_session_changed() {
    let mut session: Session<()> = Session::new();
    session.set_expiry(Timestamp::from_millis(1_700_000_000_000));
    assert!(matches!(session.expiry(), SessionExpiry::DateTime { .. }));
    assert!(!session.is_changed());
    session.do_not_expire();
    assert_eq!(&SessionExpiry::Never, session.expiry());
    assert!(!session.is_changed());
}

#[test]
fn test_regenerate_does_not_promote_new_session() {
    let mut session: Session<()> = Session::new();
    session.regenerate();
    assert!(!session.is_changed());
}

#[test]
fn test_expire_in_sets_expiry() {
    let mut session: Session<()> = Session::new();
    let now = Timestamp::from_millis(1_700_000_000_000);
    session.expire_in(now, TimeDelta::from_millis(1_000));
    assert_eq!(
        session.expiry(),
        &SessionExpiry::DateTime(Timestamp::from_millis(now.millis + 1_000))
    );
    assert!(!session.is_expired(now));
    assert!(!session.is_expired(Timestamp::from_millis(now.millis + 1_000)));
    assert!(session.is_expired(Timestamp::from_millis(now.millis + 1_001)));
}

#[test]
fn test_expires_in() {
    let mut session: Session<()> = Session::new();
    let now = Timestamp::from_millis(1_700_000_000_000);
    assert_eq!(session.expires_in(now), None);
    session.expire_in(now, TimeDelta::from_millis(123_000));
    assert_eq!(
        session.expires_in(now),
        Some(TimeDelta::from_millis(123_000))
    );
    assert_eq!(
        session.expires_in(Timestamp::from_millis(now.millis + 123_000)),
        None
    );
}

#[test]
fn test_expire_in_clamps_at_representable_maximum() {
    let mut session: Session<()> = Session::new();
    let near_max = Timestamp::from_millis(i64::MAX - 5);
    session.expire_in(near_max, TimeDelta::from_millis(100));
    assert_eq!(
        session.expiry(),
        &SessionExpiry::DateTime(Timestamp::from_millis(i64::MAX))
    );
}

#[test]
fn test_into_data_expiry_pair() {
    let session: Session<i32> = Session::new_with_data(7);
    assert_eq!(
        session.into_data_expiry_pair(),
        (Some(7), Some(SessionExpiry::Never))
    );
    let mut session: Session<i32> = Session::new_with_data(7);
    session.delete();
    assert_eq!(session.into_data_expiry_pair(), (None, None));
}

#[test]
fn test_session_id_deterministic_and_fixed_width() {
    let id1 = SessionId::from_cookie_value("a cookie value");
    let id2 = SessionId::from_cookie_value("a cookie value");
    let id3 = SessionId::from_cookie_value("another cookie");
    assert_eq!(id1, id2);
    assert_ne!(id1, id3);
    // The id is the digest of the cookie, never the cookie itself.
    assert_eq!(id1.into_bytes().len(), 32);
    assert_eq!(SessionId::from_cookie_value("x").into_bytes().len(), 32);
}

#[test]
fn test_debug_cookie_generator_zero_padded_counter() {
    let mut generator = DebugSessionCookieGenerator::default();
    assert_eq!(generator.generate_cookie(), "0".repeat(32));
    assert_eq!(
        generator.generate_cookie(),
        format!("{}1", "0".repeat(31))
    );
    let cookie = generator.generate_cookie();
    assert_eq!(cookie.len(), 32);
    assert_eq!(cookie, format!("{}2", "0".repeat(31)));
}

#[test]
fn test_default_cookie_generator_alphanumeric() {
    let mut generator = DefaultSessionCookieGenerator;
    for _ in 0..8 {
        let cookie = generator.generate_cookie();
        assert_eq!(cookie.len(), 32);
        assert!(cookie.chars().all(|c| c.is_ascii_alphanumeric()));
    }
}

#[test]
fn test_write_session_result_map() {
    let written: WriteSessionResult<i32> = WriteSessionResult::Written(3);
    assert!(matches!(
        written.map(|x| x + 1),
        WriteSessionResult::Written(4)
    ));
    let exists: WriteSessionResult<i32> = WriteSessionResult::SessionIdExists;
    assert!(matches!(
        exists.map(|x| x + 1),
        WriteSessionResult::SessionIdExists
    ));
}

#[test]
fn test_memory_store_len_and_cleanup() {
    let now = Timestamp::from_millis(1_700_000_000_000);
    let mut store: MemoryStore<i32, _> = MemoryStore::new();
    assert!(store.is_empty());
    let mut session_store = typed_session::SessionStore::new_with_cookie_generator(
        store,
        DebugSessionCookieGenerator::default(),
        typed_session::SessionRenewalStrategy::Ignore,
    );
    let mut expiring = Session::new_with_data(1);
    expiring.set_expiry(Timestamp::from_millis(now.millis + 1_000));
    session_store.store_session_at(expiring, now).unwrap();
    session_store
        .store_session_at(Session::new_with_data(2), now)
        .unwrap();
    store = session_store.into_inner();
    assert_eq!(store.len(), 2);
    // The first session expires; the cleanup at a later instant removes it.
    store.delete_expired_sessions_at(Timestamp::from_millis(now.millis + 2_000));
    assert_eq!(store.len(), 1);
    assert!(!store.is_empty());
    let sessions = store.sessions();
    assert_eq!(sessions.len(), 1);
    assert_eq!(
        sessions.into_iter().next().unwrap().into_data_expiry_pair(),
        (Some(2), Some(SessionExpiry::Never))
    );
}

#[test]
fn test_ambient_cleanup_keeps_unexpired_sessions() {
    let mut session_store = typed_session::SessionStore::new_with_cookie_generator(
        MemoryStore::<i32, _>::new(),
        DebugSessionCookieGenerator::default(),
        typed_session::SessionRenewalStrategy::Ignore,
    );
    session_store
        .store_session(Session::new_with_data(1))
        .unwrap();
    let mut store = session_store.into_inner();
    // A session without expiry survives any cleanup.
    store.delete_expired_sessions();
    assert_eq!(store.len(), 1);
}

#[test]
fn test_memory_store_cleanup_keeps_boundary() {
    let now = Timestamp::from_millis(1_700_000_000_000);
    let mut session_store = typed_session::SessionStore::new_with_cookie_generator(
        MemoryStore::<i32, _>::new(),
        DebugSessionCookieGenerator::default(),
        typed_session::SessionRenewalStrategy::Ignore,
    );
    let mut at_now = Session::new_with_data(1);
    at_now.set_expiry(now);
    session_store.store_session_at(at_now, now).unwrap();
    let mut store = session_store.into_inner();
    // A session whose expiry equals the cleanup instant is removed.
    store.delete_expired_sessions_at(now);
    assert!(store.is_empty());
}
