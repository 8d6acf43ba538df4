//! End-to-end tests of the session store against the in-memory backend.

use typed_session::{
    DebugSessionCookieGenerator, Error, MemoryStore, Operation, Session, SessionCookieCommand,
    SessionCookieGenerator, SessionExpiry, SessionId, SessionRenewalStrategy, SessionStore,
    TimeDelta, Timestamp,
};

use std::collections::BTreeSet;

const HOUR_MILLIS: i64 = 3_600_000;

/// If a new session is created but never mutated, then no cookie is set and
/// the session is not stored in the session store.
#[test]
fn test_dont_store_default_session() {
    let mut store: SessionStore<(), _, _> = SessionStore::new_with_cookie_generator(
        MemoryStore::new_with_logger(),
        DebugSessionCookieGenerator::default(),
        SessionRenewalStrategy::Ignore,
    );
    let session = Session::new();
    assert!(matches!(
        store.store_session(session).unwrap(),
        SessionCookieCommand::DoNothing
    ));
    assert_eq!(
        store.into_inner().into_logger().into_inner().as_slice(),
        &[]
    );
}

/// If a new session is created but only its expiry is mutated and not its
/// data, then no cookie is set and the session is not stored in the session
/// store.
#[test]
fn test_dont_store_default_session_with_expiry_change() {
    let mut store: SessionStore<(), _, _> = SessionStore::new_with_cookie_generator(
        MemoryStore::new_with_logger(),
        DebugSessionCookieGenerator::default(),
        SessionRenewalStrategy::Ignore,
    );
    let mut session = Session::new();
    session.set_expiry(Timestamp::from_millis(24 * HOUR_MILLIS));

    assert!(matches!(
        store.store_session(session).unwrap(),
        SessionCookieCommand::DoNothing
    ));
    assert_eq!(
        store.into_inner().into_logger().into_inner().as_slice(),
        &[]
    );
}

/// If a new session is created and mutated, then a cookie is set and the
/// session is stored in the session store.
#[test]
fn test_store_updated_default_session() {
    let mut cookie_generator = DebugSessionCookieGenerator::default();
    let cookie_0 = cookie_generator.generate_cookie();

    let mut store: SessionStore<i32, _, _> = SessionStore::new_with_cookie_generator(
        MemoryStore::new_with_logger(),
        DebugSessionCookieGenerator::default(),
        SessionRenewalStrategy::Ignore,
    );
    let mut session = Session::new();
    *session.data_mut() = 1;
    let SessionCookieCommand::SetCookie {
        expiry: SessionExpiry::Never,
        cookie_value,
    } = store.store_session(session).unwrap()
    else {
        panic!()
    };
    assert_eq!(cookie_value, cookie_0);
    let memory_store = store.into_inner();
    // Also check that the memory store itself works correctly here.
    let mut data_expiry_pairs = BTreeSet::new();
    memory_store.for_each(|session| {
        data_expiry_pairs.insert(session.into_data_expiry_pair());
    });
    assert_eq!(
        data_expiry_pairs,
        BTreeSet::from([(Some(1), Some(SessionExpiry::Never))])
    );
    assert_eq!(
        memory_store.into_logger().into_inner().as_slice(),
        &[Operation::CreateSession {
            id: SessionId::from_cookie_value(&cookie_0),
            expiry: SessionExpiry::Never,
            data: 1,
        }]
    );
}

/// If a session is loaded from the store and stored without change, then the
/// cookie is not updated and the session is not updated in the session
/// store.
#[test]
fn test_dont_update_unchanged_session() {
    let mut cookie_generator = DebugSessionCookieGenerator::default();
    let cookie_0 = cookie_generator.generate_cookie();

    let mut store: SessionStore<i32, _, _> = SessionStore::new_with_cookie_generator(
        MemoryStore::new_with_logger(),
        DebugSessionCookieGenerator::default(),
        SessionRenewalStrategy::Ignore,
    );
    let mut session = Session::new();
    *session.data_mut() = 1;
    let SessionCookieCommand::SetCookie {
        cookie_value,
        expiry: SessionExpiry::Never,
    } = store.store_session(session).unwrap()
    else {
        panic!()
    };
    assert_eq!(cookie_value, cookie_0);
    let session = store.load_session(&cookie_value).unwrap().unwrap();
    assert_eq!(
        store.store_session(session).unwrap(),
        SessionCookieCommand::DoNothing
    );
    assert_eq!(
        store.into_inner().into_logger().into_inner().as_slice(),
        &[
            Operation::CreateSession {
                id: SessionId::from_cookie_value(&cookie_0),
                expiry: SessionExpiry::Never,
                data: 1,
            },
            Operation::ReadSession {
                id: SessionId::from_cookie_value(&cookie_0)
            }
        ]
    );
}

/// If a session is loaded from the store and stored with change, then the
/// cookie is updated and the session is updated in the session store.
#[test]
fn test_update_changed_session() {
    let mut cookie_generator = DebugSessionCookieGenerator::default();
    let cookie_0 = cookie_generator.generate_cookie();
    let cookie_1 = cookie_generator.generate_cookie();
    let mut store: SessionStore<i32, _, _> = SessionStore::new_with_cookie_generator(
        MemoryStore::new_with_logger(),
        DebugSessionCookieGenerator::default(),
        SessionRenewalStrategy::Ignore,
    );
    let mut session = Session::new();
    *session.data_mut() = 1;
    let SessionCookieCommand::SetCookie {
        cookie_value,
        expiry: SessionExpiry::Never,
    } = store.store_session(session).unwrap()
    else {
        panic!()
    };
    assert_eq!(cookie_value, cookie_0);
    let mut session = store.load_session(&cookie_value).unwrap().unwrap();
    assert_eq!(*session.data(), 1);
    *session.data_mut() = 2;
    assert_eq!(
        store.store_session(session).unwrap(),
        SessionCookieCommand::SetCookie {
            cookie_value: cookie_1.clone(),
            expiry: SessionExpiry::Never
        }
    );
    assert_eq!(
        store.into_inner().into_logger().into_inner().as_slice(),
        &[
            Operation::CreateSession {
                id: SessionId::from_cookie_value(&cookie_0),
                expiry: SessionExpiry::Never,
                data: 1,
            },
            Operation::ReadSession {
                id: SessionId::from_cookie_value(&cookie_0)
            },
            Operation::UpdateSession {
                current_id: SessionId::from_cookie_value(&cookie_1),
                previous_id: SessionId::from_cookie_value(&cookie_0),
                expiry: SessionExpiry::Never,
                data: 2,
            }
        ]
    );
}

/// If a session is deleted, then the cookie is deleted and the session is
/// deleted from the session store.
#[test]
fn test_delete_deleted_session() {
    let mut cookie_generator = DebugSessionCookieGenerator::default();
    let cookie_0 = cookie_generator.generate_cookie();
    let mut store: SessionStore<i32, _, _> = SessionStore::new_with_cookie_generator(
        MemoryStore::new_with_logger(),
        DebugSessionCookieGenerator::default(),
        SessionRenewalStrategy::Ignore,
    );
    let mut session = Session::new();
    *session.data_mut() = 1;
    let SessionCookieCommand::SetCookie {
        cookie_value,
        expiry: SessionExpiry::Never,
    } = store.store_session(session).unwrap()
    else {
        panic!()
    };
    assert_eq!(cookie_value, cookie_0);
    let mut session = store.load_session(&cookie_value).unwrap().unwrap();
    assert_eq!(*session.data(), 1);
    session.delete();
    assert_eq!(
        store.store_session(session).unwrap(),
        SessionCookieCommand::Delete,
    );
    assert_eq!(
        store.into_inner().into_logger().into_inner().as_slice(),
        &[
            Operation::CreateSession {
                id: SessionId::from_cookie_value(&cookie_0),
                expiry: SessionExpiry::Never,
                data: 1,
            },
            Operation::ReadSession {
                id: SessionId::from_cookie_value(&cookie_0)
            },
            Operation::DeleteSession {
                current_id: SessionId::from_cookie_value(&cookie_0),
            }
        ]
    );
}

/// If a session is changed, the old session id becomes invalid.
#[test]
fn test_prevent_using_old_session_id() {
    let mut cookie_generator = DebugSessionCookieGenerator::default();
    let cookie_0 = cookie_generator.generate_cookie();
    let cookie_1 = cookie_generator.generate_cookie();
    // true represents being logged in
    let mut store: SessionStore<bool, _, _> = SessionStore::new_with_cookie_generator(
        MemoryStore::new_with_logger(),
        DebugSessionCookieGenerator::default(),
        SessionRenewalStrategy::Ignore,
    );
    let mut session = Session::new();
    *session.data_mut() = false;
    let SessionCookieCommand::SetCookie {
        cookie_value,
        expiry: SessionExpiry::Never,
    } = store.store_session(session).unwrap()
    else {
        panic!()
    };
    assert_eq!(cookie_value, cookie_0);
    let mut session = store.load_session(&cookie_value).unwrap().unwrap();
    assert!(!*session.data());
    *session.data_mut() = true;
    assert_eq!(
        store.store_session(session).unwrap(),
        SessionCookieCommand::SetCookie {
            cookie_value: cookie_1.clone(),
            expiry: SessionExpiry::Never
        }
    );

    // Check if we can upgrade the old session.
    assert!(store.load_session(&cookie_0).unwrap().is_none());

    assert_eq!(
        store.into_inner().into_logger().into_inner().as_slice(),
        &[
            Operation::CreateSession {
                id: SessionId::from_cookie_value(&cookie_0),
                expiry: SessionExpiry::Never,
                data: false,
            },
            Operation::ReadSession {
                id: SessionId::from_cookie_value(&cookie_0)
            },
            Operation::UpdateSession {
                current_id: SessionId::from_cookie_value(&cookie_1),
                previous_id: SessionId::from_cookie_value(&cookie_0),
                expiry: SessionExpiry::Never,
                data: true,
            },
            Operation::ReadSession {
                id: SessionId::from_cookie_value(&cookie_0)
            },
        ]
    );
}

/// If a session is changed concurrently, then only the first modification
/// is successful.
#[test]
fn test_concurrent_modification() {
    let mut cookie_generator = DebugSessionCookieGenerator::default();
    let cookie_0 = cookie_generator.generate_cookie();
    let cookie_1 = cookie_generator.generate_cookie();
    let cookie_2 = cookie_generator.generate_cookie();
    let mut store: SessionStore<i32, _, _> = SessionStore::new_with_cookie_generator(
        MemoryStore::new_with_logger(),
        DebugSessionCookieGenerator::default(),
        SessionRenewalStrategy::Ignore,
    );
    let mut session = Session::new();
    *session.data_mut() = 1;
    let SessionCookieCommand::SetCookie {
        cookie_value,
        expiry: SessionExpiry::Never,
    } = store.store_session(session).unwrap()
    else {
        panic!()
    };
    assert_eq!(cookie_value, cookie_0);
    let mut session1 = store.load_session(&cookie_value).unwrap().unwrap();
    let mut session2 = store.load_session(&cookie_value).unwrap().unwrap();
    assert_eq!(*session1.data(), 1);
    assert_eq!(*session2.data(), 1);
    *session1.data_mut() = 2;
    *session2.data_mut() = 3;
    assert_eq!(
        store.store_session(session1).unwrap(),
        SessionCookieCommand::SetCookie {
            cookie_value: cookie_1.clone(),
            expiry: SessionExpiry::Never
        }
    );
    assert!(matches!(
        store.store_session(session2),
        Err(Error::UpdatedSessionDoesNotExist)
    ));

    // Check if we can upgrade the old session.
    assert!(store.load_session(&cookie_0).unwrap().is_none());

    let actual = store.into_inner().into_logger().into_inner();
    let actual = actual.as_slice();
    let expected = &[
        Operation::CreateSession {
            id: SessionId::from_cookie_value(&cookie_0),
            expiry: SessionExpiry::Never,
            data: 1,
        },
        Operation::ReadSession {
            id: SessionId::from_cookie_value(&cookie_0),
        },
        Operation::ReadSession {
            id: SessionId::from_cookie_value(&cookie_0),
        },
        Operation::UpdateSession {
            current_id: SessionId::from_cookie_value(&cookie_1),
            previous_id: SessionId::from_cookie_value(&cookie_0),
            expiry: SessionExpiry::Never,
            data: 2,
        },
        Operation::UpdateSession {
            current_id: SessionId::from_cookie_value(&cookie_2),
            previous_id: SessionId::from_cookie_value(&cookie_0),
            expiry: SessionExpiry::Never,
            data: 3,
        },
        Operation::ReadSession {
            id: SessionId::from_cookie_value(&cookie_0),
        },
    ];
    assert_eq!(actual, expected, "{actual:#?}\n!=\n{expected:#?}",);
}

/// Ensure that creating a session store with default parameters results in
/// long enough session tokens.
#[test]
fn test_default_cookie_length() {
    let mut session_store: SessionStore<bool, _, _> =
        SessionStore::new(MemoryStore::new(), SessionRenewalStrategy::Ignore);
    let mut session = Session::new();
    *session.data_mut() = true;
    if let SessionCookieCommand::SetCookie { cookie_value, .. } =
        session_store.store_session(session).unwrap()
    {
        assert!(cookie_value.len() >= 32);
    } else {
        panic!("Unexpected session cookie command.");
    }
}

/// Ensure that the expiry of sessions that expire automatically is set
/// correctly.
#[test]
fn test_automatic_setting_of_session_expiry() {
    let ttl = TimeDelta::from_millis(24 * HOUR_MILLIS);
    let mut session_store: SessionStore<bool, _, _> = SessionStore::new(
        MemoryStore::new(),
        SessionRenewalStrategy::AutomaticRenewal {
            time_to_live: ttl,
            maximum_remaining_time_to_live_for_renewal: TimeDelta::from_millis(12 * HOUR_MILLIS),
        },
    );
    let mut session = Session::new();
    *session.data_mut() = true;

    let now = Timestamp::from_millis(1_700_000_000_000);
    let now_lower = Timestamp::from_millis(now.millis - 60_000);
    let now_upper = Timestamp::from_millis(now.millis + 60_000);

    if let SessionCookieCommand::SetCookie { expiry, .. } =
        session_store.store_session_at(session, now).unwrap()
    {
        if let SessionExpiry::DateTime(expiry) = expiry {
            assert!(
                expiry.millis >= now_lower.millis + ttl.millis
                    && expiry.millis <= now_upper.millis + ttl.millis
            );
        } else {
            panic!("Expiry not set");
        }
    } else {
        panic!("Unexpected session cookie command.");
    }

    let ttl = TimeDelta::from_millis(12 * HOUR_MILLIS);
    *session_store.session_renewal_strategy_mut() = SessionRenewalStrategy::AutomaticRenewal {
        time_to_live: ttl,
        maximum_remaining_time_to_live_for_renewal: TimeDelta::from_millis(6 * HOUR_MILLIS),
    };
    assert!(matches!(
        session_store.session_renewal_strategy(),
        SessionRenewalStrategy::AutomaticRenewal { .. }
    ));
    let mut session = Session::new();
    *session.data_mut() = true;

    let now = Timestamp::from_millis(1_700_000_100_000);
    let now_lower = Timestamp::from_millis(now.millis - 60_000);
    let now_upper = Timestamp::from_millis(now.millis + 60_000);

    if let SessionCookieCommand::SetCookie { expiry, .. } =
        session_store.store_session_at(session, now).unwrap()
    {
        if let SessionExpiry::DateTime(expiry) = expiry {
            assert!(
                expiry.millis >= now_lower.millis + ttl.millis
                    && expiry.millis <= now_upper.millis + ttl.millis
            );
        } else {
            panic!("Expiry not set");
        }
    } else {
        panic!("Unexpected session cookie command.");
    }
}

/// Cookies of the wrong byte length are rejected with `WrongCookieLength`:
/// one character short, one long, empty, and a non-ASCII cookie whose
/// character count is right but whose byte count is not.
#[test]
fn test_wrong_cookie_length_rejected() {
    let mut store: SessionStore<i32, _, _> = SessionStore::new_with_cookie_generator(
        MemoryStore::new_with_logger(),
        DebugSessionCookieGenerator::default(),
        SessionRenewalStrategy::Ignore,
    );
    let short = "0".repeat(31);
    let long = "0".repeat(33);
    let non_ascii = "\u{e4}".repeat(32);
    for cookie in [short.as_str(), long.as_str(), "", non_ascii.as_str()] {
        match store.load_session(cookie) {
            Err(Error::WrongCookieLength { expected, actual }) => {
                assert_eq!(expected, 32);
                assert_eq!(actual, cookie.len());
            }
            other => panic!("expected WrongCookieLength, got {other:#?}"),
        }
    }
    // No read ever reached the backend.
    assert_eq!(
        store.into_inner().into_logger().into_inner().as_slice(),
        &[]
    );
}

/// A cookie of the right byte length is accepted whatever its content: a
/// non-ASCII cookie of 32 bytes hashes like any other and simply finds no
/// session.
#[test]
fn test_unknown_cookie_yields_none() {
    let mut store: SessionStore<i32, _, _> = SessionStore::new_with_cookie_generator(
        MemoryStore::new_with_logger(),
        DebugSessionCookieGenerator::default(),
        SessionRenewalStrategy::Ignore,
    );
    let unknown = "9".repeat(32);
    assert!(store.load_session(&unknown).unwrap().is_none());
    let non_ascii_right_length = "\u{e4}".repeat(16);
    assert_eq!(non_ascii_right_length.len(), 32);
    assert!(store
        .load_session(&non_ascii_right_length)
        .unwrap()
        .is_none());
}

/// Loading an expired session returns `None` without an error, and no
/// delete is issued to the backend.
#[test]
fn test_expired_session_yields_none_without_delete() {
    let mut cookie_generator = DebugSessionCookieGenerator::default();
    let cookie_0 = cookie_generator.generate_cookie();
    let mut store: SessionStore<i32, _, _> = SessionStore::new_with_cookie_generator(
        MemoryStore::new_with_logger(),
        DebugSessionCookieGenerator::default(),
        SessionRenewalStrategy::Ignore,
    );
    let now = Timestamp::from_millis(1_700_000_000_000);
    let mut session = Session::new_with_data(1);
    session.set_expiry(Timestamp::from_millis(now.millis - 1));
    assert!(matches!(
        store.store_session_at(session, now).unwrap(),
        SessionCookieCommand::SetCookie { .. }
    ));
    assert!(store.load_session_at(&cookie_0, now).unwrap().is_none());
    let log = store.into_inner().into_logger().into_inner();
    assert!(log
        .iter()
        .all(|op| !matches!(op, Operation::DeleteSession { .. })));
    assert_eq!(log.len(), 2); // one create, one read
}

/// Automatic renewal is applied on load: a session within the renewal
/// window comes back with a fresh expiry and is written back under a new
/// cookie; the old cookie stops working.
#[test]
fn test_automatic_renewal_applied_on_load() {
    let mut cookie_generator = DebugSessionCookieGenerator::default();
    let cookie_0 = cookie_generator.generate_cookie();
    let now = Timestamp::from_millis(1_700_000_000_000);

    // Store a session expiring in six hours, without renewal interfering.
    let mut store: SessionStore<i32, _, _> = SessionStore::new_with_cookie_generator(
        MemoryStore::new(),
        DebugSessionCookieGenerator::default(),
        SessionRenewalStrategy::Ignore,
    );
    let mut session = Session::new_with_data(1);
    session.set_expiry(Timestamp::from_millis(now.millis + 6 * HOUR_MILLIS));
    assert!(matches!(
        store.store_session_at(session, now).unwrap(),
        SessionCookieCommand::SetCookie { .. }
    ));

    // Reopen the store with automatic renewal: ttl 24 h, renew when at most
    // 12 h remain.
    let connector = store.into_inner();
    let mut store: SessionStore<i32, _, _> = SessionStore::new_with_cookie_generator(
        connector,
        DebugSessionCookieGenerator::default(),
        SessionRenewalStrategy::AutomaticRenewal {
            time_to_live: TimeDelta::from_millis(24 * HOUR_MILLIS),
            maximum_remaining_time_to_live_for_renewal: TimeDelta::from_millis(12 * HOUR_MILLIS),
        },
    );
    let session = store.load_session_at(&cookie_0, now).unwrap().unwrap();
    assert!(session.is_changed());
    assert_eq!(
        *session.expiry(),
        SessionExpiry::DateTime(Timestamp::from_millis(now.millis + 24 * HOUR_MILLIS))
    );
    let SessionCookieCommand::SetCookie {
        cookie_value,
        expiry,
    } = store.store_session_at(session, now).unwrap()
    else {
        panic!()
    };
    assert_ne!(cookie_value, cookie_0);
    assert_eq!(
        expiry,
        SessionExpiry::DateTime(Timestamp::from_millis(now.millis + 24 * HOUR_MILLIS))
    );
    assert!(store.load_session_at(&cookie_0, now).unwrap().is_none());
}

/// Automatic renewal leaves a session alone whose remaining lifetime is
/// above the configured maximum: the load does not mark it changed, and the
/// following store writes nothing.
#[test]
fn test_automatic_renewal_not_triggered() {
    let mut cookie_generator = DebugSessionCookieGenerator::default();
    let cookie_0 = cookie_generator.generate_cookie();
    let now = Timestamp::from_millis(1_700_000_000_000);

    let mut store: SessionStore<i32, _, _> = SessionStore::new_with_cookie_generator(
        MemoryStore::new(),
        DebugSessionCookieGenerator::default(),
        SessionRenewalStrategy::Ignore,
    );
    let mut session = Session::new_with_data(1);
    let expiry = Timestamp::from_millis(now.millis + 20 * HOUR_MILLIS);
    session.set_expiry(expiry);
    assert!(matches!(
        store.store_session_at(session, now).unwrap(),
        SessionCookieCommand::SetCookie { .. }
    ));

    let connector = store.into_inner();
    let mut store: SessionStore<i32, _, _> = SessionStore::new_with_cookie_generator(
        connector,
        DebugSessionCookieGenerator::default(),
        SessionRenewalStrategy::AutomaticRenewal {
            time_to_live: TimeDelta::from_millis(24 * HOUR_MILLIS),
            maximum_remaining_time_to_live_for_renewal: TimeDelta::from_millis(12 * HOUR_MILLIS),
        },
    );
    let session = store.load_session_at(&cookie_0, now).unwrap().unwrap();
    assert!(!session.is_changed());
    assert_eq!(*session.expiry(), SessionExpiry::DateTime(expiry));
    assert_eq!(
        store.store_session_at(session, now).unwrap(),
        SessionCookieCommand::DoNothing
    );
}

/// When every generated id collides and the connector bounds the retries,
/// the store gives up with `MaximumSessionIdGenerationTriesReached`.
#[test]
fn test_maximum_id_generation_tries_reached() {
    let mut store: SessionStore<i32, _, _> = SessionStore::new_with_cookie_generator(
        MemoryStore::new(),
        DebugSessionCookieGenerator::default(),
        SessionRenewalStrategy::Ignore,
    );
    for data in 0..3 {
        assert!(matches!(
            store.store_session(Session::new_with_data(data)).unwrap(),
            SessionCookieCommand::SetCookie { .. }
        ));
    }
    // A fresh debug generator replays the same three cookies, so every
    // attempt collides.
    let mut connector = store.into_inner();
    connector.set_maximum_retries_on_id_collision(Some(3));
    let mut store: SessionStore<i32, _, _> = SessionStore::new_with_cookie_generator(
        connector,
        DebugSessionCookieGenerator::default(),
        SessionRenewalStrategy::Ignore,
    );
    match store.store_session(Session::new_with_data(9)) {
        Err(Error::MaximumSessionIdGenerationTriesReached { maximum }) => {
            assert_eq!(maximum, 3);
        }
        other => panic!("expected the retry bound to be reached, got {other:#?}"),
    }
}

/// Regenerating a loaded session forces id rotation on the next store,
/// even though no field was written.
#[test]
fn test_regenerate_rotates_id() {
    let mut cookie_generator = DebugSessionCookieGenerator::default();
    let cookie_0 = cookie_generator.generate_cookie();
    let cookie_1 = cookie_generator.generate_cookie();
    let mut store: SessionStore<i32, _, _> = SessionStore::new_with_cookie_generator(
        MemoryStore::new(),
        DebugSessionCookieGenerator::default(),
        SessionRenewalStrategy::Ignore,
    );
    assert!(matches!(
        store.store_session(Session::new_with_data(1)).unwrap(),
        SessionCookieCommand::SetCookie { .. }
    ));
    let mut session = store.load_session(&cookie_0).unwrap().unwrap();
    session.regenerate();
    assert!(session.is_changed());
    let SessionCookieCommand::SetCookie { cookie_value, .. } =
        store.store_session(session).unwrap()
    else {
        panic!()
    };
    assert_eq!(cookie_value, cookie_1);
    assert!(store.load_session(&cookie_0).unwrap().is_none());
    assert_eq!(*store.load_session(&cookie_1).unwrap().unwrap().data(), 1);
}

/// Clearing the store removes every session.
#[test]
fn test_clear_store() {
    let mut cookie_generator = DebugSessionCookieGenerator::default();
    let cookie_0 = cookie_generator.generate_cookie();
    let mut store: SessionStore<i32, _, _> = SessionStore::new_with_cookie_generator(
        MemoryStore::new(),
        DebugSessionCookieGenerator::default(),
        SessionRenewalStrategy::Ignore,
    );
    assert!(matches!(
        store.store_session(Session::new_with_data(1)).unwrap(),
        SessionCookieCommand::SetCookie { .. }
    ));
    store.clear_store().unwrap();
    assert!(store.load_session(&cookie_0).unwrap().is_none());
    assert!(store.into_inner().is_empty());
}
