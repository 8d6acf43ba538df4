//! The front-facing session store.
//!
//! The store loads sessions from cookie values, applies the renewal strategy
//! on load, persists changes when a session is handed back, and rotates the
//! session id on every write, retrying with fresh ids while the chosen id
//! collides.

use crate::cookie_generator::{all_cookie_chars, SessionCookieGenerator};
use crate::error::Error;
use crate::session::{Session, SessionExpiry, SessionState};
use crate::session_id::{sid_of, SessionId};
use crate::store_connector::{
    create_applies, update_applies, updated_contents, SessionStoreConnector, StoredSession,
    WriteSessionResult,
};
use crate::time::Timestamp;
use vstd::prelude::*;

verus! {

/// The strategy to renew sessions.
#[derive(Debug, Clone, Copy)]
pub enum SessionRenewalStrategy {
    /// Never update the expiry of a session. This leaves updating expiry
    /// times to the user.
    Ignore,
    /// Sessions have a given time-to-live, and their expiry is renewed
    /// periodically. For example, if the time-to-live is 7 days, and the
    /// maximum remaining time-to-live for renewal is 6 days, then the expiry
    /// of a session in use is updated about daily.
    AutomaticRenewal {
        /// The time-to-live for a new or renewed session.
        time_to_live: crate::time::TimeDelta,
        /// The maximum remaining time-to-live that triggers a renewal.
        maximum_remaining_time_to_live_for_renewal: crate::time::TimeDelta,
    },
}

/// Indicates if the client's session cookie should be updated. Annotated
/// with `#[must_use]`, because silently dropping this very likely indicates
/// that the communication of the session to the client was forgotten about.
#[derive(Debug, PartialEq, Eq)]
#[must_use]
pub enum SessionCookieCommand {
    /// Set or update the session cookie.
    SetCookie {
        /// The value of the session cookie.
        cookie_value: String,
        /// The expiry time of the session cookie.
        expiry: SessionExpiry,
    },
    /// Delete the session cookie.
    Delete,
    /// Do not inform the client about any updates to the session cookie.
    /// This means that the cookie stayed the same.
    DoNothing,
}

/// Whether `strategy` renews a session whose expiry is `expiry` when it is
/// seen at `now`: always when the expiry is `Never` (otherwise the session
/// would never expire), and otherwise exactly when the remaining lifetime is
/// at most the configured maximum.
pub open spec fn renewal_triggers(
    strategy: SessionRenewalStrategy,
    expiry: SessionExpiry,
    now: Timestamp,
) -> bool {
    match strategy {
        SessionRenewalStrategy::Ignore => false,
        SessionRenewalStrategy::AutomaticRenewal {
            time_to_live,
            maximum_remaining_time_to_live_for_renewal,
        } => match expiry {
            SessionExpiry::Never => true,
            SessionExpiry::DateTime(t) => t.millis - now.millis
                <= maximum_remaining_time_to_live_for_renewal.millis,
        },
    }
}

/// The expiry after `strategy` was applied at `now` to a session whose
/// expiry is `expiry`: `now` plus the configured time-to-live if the renewal
/// triggers, the old expiry otherwise.
pub open spec fn renewed_expiry(
    strategy: SessionRenewalStrategy,
    expiry: SessionExpiry,
    now: Timestamp,
) -> SessionExpiry {
    if renewal_triggers(strategy, expiry, now) {
        match strategy {
            SessionRenewalStrategy::Ignore => expiry,
            SessionRenewalStrategy::AutomaticRenewal { time_to_live, .. } => {
                SessionExpiry::DateTime(now.spec_plus(time_to_live))
            },
        }
    } else {
        expiry
    }
}

/// The session state after `strategy` was applied at `now`. Writing the
/// renewed expiry counts as an expiry write, so a loaded, unmodified session
/// is promoted to `Changed` exactly when the renewal triggers.
pub open spec fn apply_strategy<SessionData>(
    strategy: SessionRenewalStrategy,
    state: SessionState<SessionData>,
    now: Timestamp,
) -> SessionState<SessionData>
    recommends
        !state.is_deleted_state(),
{
    if renewal_triggers(strategy, state.spec_expiry(), now) {
        state.with_expiry_written(renewed_expiry(strategy, state.spec_expiry(), now))
    } else {
        state
    }
}

impl SessionRenewalStrategy {
    /// Apply this strategy to a session seen at `now`. Under `Ignore` the
    /// session is left exactly as it is; under automatic renewal its expiry
    /// may be rewritten, which counts as an expiry write. The data is never
    /// touched.
    fn apply_to_session<SessionData>(&self, session: &mut Session<SessionData>, now: Timestamp)
        requires
            !old(session)@.is_deleted_state(),
        ensures
            final(session)@ == apply_strategy(*self, old(session)@, now),
            *self is Ignore ==> final(session)@ == old(session)@,
            final(session)@.spec_data() == old(session)@.spec_data(),
            !final(session)@.is_deleted_state(),
    {
        match self {
            SessionRenewalStrategy::Ignore => {},
            SessionRenewalStrategy::AutomaticRenewal {
                time_to_live,
                maximum_remaining_time_to_live_for_renewal,
            } => {
                let new_expiry = now.plus(*time_to_live);
                match *session.expiry() {
                    SessionExpiry::DateTime(old_expiry) => {
                        let remaining: i128 = (old_expiry.millis as i128) - (now.millis as i128);
                        if remaining <= maximum_remaining_time_to_live_for_renewal.millis as i128 {
                            session.set_expiry(new_expiry);
                        }
                    },
                    SessionExpiry::Never => {
                        session.set_expiry(new_expiry);
                    },
                }
            },
        }
    }
}

/// What `store_session` guarantees, relating the store contents `pre` before
/// the call and `post` after it to the state of the stored session and the
/// result `r`. `cookie_len` is the configured cookie length in characters;
/// `max_retries` is the connector's retry bound; `now` is the instant the
/// session was stored at.
pub open spec fn store_session_post<SessionData, E>(
    pre: Map<Seq<u8>, StoredSession<SessionData>>,
    post: Map<Seq<u8>, StoredSession<SessionData>>,
    strategy: SessionRenewalStrategy,
    max_retries: Option<u32>,
    state: SessionState<SessionData>,
    r: Result<SessionCookieCommand, Error<E>>,
    now: Timestamp,
    cookie_len: nat,
) -> bool {
    match state {
        SessionState::NewUnchanged { .. } => r matches Ok(SessionCookieCommand::DoNothing) && post
            == pre,
        SessionState::Unchanged { .. } => r matches Ok(SessionCookieCommand::DoNothing) && post
            == pre,
        SessionState::NewDeleted => r matches Ok(SessionCookieCommand::DoNothing) && post == pre,
        SessionState::Deleted { current_id } => match r {
            Ok(cmd) => cmd == SessionCookieCommand::Delete && post == pre.remove(current_id@),
            Err(e) => post == pre && match e {
                Error::MaximumSessionIdGenerationTriesReached { maximum } => max_retries == Some(
                    maximum,
                ) || (max_retries is None && maximum == u32::MAX),
                Error::SessionStoreConnector(_) => true,
                _ => false,
            },
        },
        SessionState::NewChanged { expiry, data } => {
            let stored_expiry = renewed_expiry(strategy, expiry, now);
            match r {
                Ok(cmd) => cmd matches SessionCookieCommand::SetCookie { cookie_value, expiry: e } && e
                    == stored_expiry && cookie_value@.len() == cookie_len && all_cookie_chars(
                    cookie_value@,
                ) && create_applies(pre, sid_of(cookie_value@)) && post == pre.insert(
                    sid_of(cookie_value@),
                    StoredSession { expiry: stored_expiry, data },
                ),
                Err(e) => post == pre && match e {
                    Error::MaximumSessionIdGenerationTriesReached { maximum } => max_retries
                        == Some(maximum) || (max_retries is None && maximum == u32::MAX),
                    Error::SessionStoreConnector(_) => true,
                    _ => false,
                },
            }
        },
        SessionState::Changed { current_id, expiry, data } => match r {
            Ok(cmd) => cmd matches SessionCookieCommand::SetCookie { cookie_value, expiry: e } && e
                == expiry && cookie_value@.len() == cookie_len && all_cookie_chars(cookie_value@)
                && update_applies(pre, sid_of(cookie_value@), current_id@) && post
                == updated_contents(
                pre,
                sid_of(cookie_value@),
                current_id@,
                StoredSession { expiry, data },
            ),
            Err(e) => post == pre && match e {
                Error::UpdatedSessionDoesNotExist => !pre.dom().contains(current_id@),
                Error::MaximumSessionIdGenerationTriesReached { maximum } => max_retries == Some(
                    maximum,
                ) || (max_retries is None && maximum == u32::MAX),
                Error::SessionStoreConnector(_) => true,
                _ => false,
            },
        },
    }
}

/// What `load_session` guarantees, relating the store contents `pre` before
/// the call and `post` after it to the cookie value presented and the result
/// `r`. `cookie_len` is the configured cookie length; `now` is the instant
/// the session was loaded at.
pub open spec fn load_session_post<SessionData, E>(
    pre: Map<Seq<u8>, StoredSession<SessionData>>,
    post: Map<Seq<u8>, StoredSession<SessionData>>,
    strategy: SessionRenewalStrategy,
    cookie_len: nat,
    cookie_value: Seq<char>,
    r: Result<Option<Session<SessionData>>, Error<E>>,
    now: Timestamp,
) -> bool {
    let sid = sid_of(cookie_value);
    let byte_len = vstd::utf8::encode_utf8(cookie_value).len() as usize;
    post == pre && match r {
        Ok(Some(session)) => byte_len as nat == cookie_len && pre.dom().contains(sid) && !pre[
            sid
        ].expiry.spec_is_expired_at(now) && (if renewal_triggers(strategy, pre[sid].expiry, now) {
            session@ matches SessionState::Changed { current_id, expiry, data } && current_id@
                == sid && expiry == renewed_expiry(strategy, pre[sid].expiry, now) && data == pre[
                sid
            ].data
        } else {
            session@ matches SessionState::Unchanged { current_id, expiry, data } && current_id@
                == sid && expiry == pre[sid].expiry && data == pre[sid].data
        }),
        Ok(None) => byte_len as nat == cookie_len && (!pre.dom().contains(sid) || pre[
            sid
        ].expiry.spec_is_expired_at(now)),
        Err(e) => match e {
            Error::WrongCookieLength { expected, actual } => byte_len as nat != cookie_len
                && expected as nat == cookie_len && actual == byte_len,
            Error::SessionStoreConnector(_) => byte_len as nat == cookie_len,
            _ => false,
        },
    }
}

/// A session store.
///
/// This is the front-facing interface of the library. It owns the connection
/// to the storage backend, a cookie generator and the renewal strategy.
///
/// `SessionData` is the data associated with a session.
/// `SessionStoreConnection` is the connection to the backend session store.
/// `CookieGenerator` is the type used to generate random session cookies.
#[derive(Debug)]
pub struct SessionStore<
    SessionData,
    SessionStoreConnection,
    CookieGenerator = crate::cookie_generator::DefaultSessionCookieGenerator,
> {
    cookie_generator: CookieGenerator,
    session_renewal_strategy: SessionRenewalStrategy,
    connection: SessionStoreConnection,
    data: core::marker::PhantomData<SessionData>,
}

impl<SessionData, SessionStoreConnection> SessionStore<
    SessionData,
    SessionStoreConnection,
    crate::cookie_generator::DefaultSessionCookieGenerator,
> {
    /// Create a new session store with the default, secure cookie generator
    /// and the given connection and session renewal strategy.
    pub fn new(
        connection: SessionStoreConnection,
        session_renewal_strategy: SessionRenewalStrategy,
    ) -> (r: Self)
        ensures
            r.spec_connection() == connection,
            r.spec_session_renewal_strategy() == session_renewal_strategy,
    {
        Self {
            cookie_generator: crate::cookie_generator::DefaultSessionCookieGenerator,
            session_renewal_strategy,
            connection,
            data: core::marker::PhantomData,
        }
    }
}

impl<SessionData, SessionStoreConnection, CookieGenerator> SessionStore<
    SessionData,
    SessionStoreConnection,
    CookieGenerator,
> {
    /// The cookie generator of this session store.
    pub closed spec fn spec_cookie_generator(&self) -> CookieGenerator {
        self.cookie_generator
    }

    /// The session renewal strategy of this session store.
    pub closed spec fn spec_session_renewal_strategy(&self) -> SessionRenewalStrategy {
        self.session_renewal_strategy
    }

    /// The connection of this session store.
    pub closed spec fn spec_connection(&self) -> SessionStoreConnection {
        self.connection
    }

    /// Create a new session store with the given connection, cookie
    /// generator and session renewal strategy.
    pub fn new_with_cookie_generator(
        connection: SessionStoreConnection,
        cookie_generator: CookieGenerator,
        session_renewal_strategy: SessionRenewalStrategy,
    ) -> (r: Self)
        ensures
            r.spec_connection() == connection,
            r.spec_cookie_generator() == cookie_generator,
            r.spec_session_renewal_strategy() == session_renewal_strategy,
    {
        Self {
            cookie_generator,
            session_renewal_strategy,
            connection,
            data: core::marker::PhantomData,
        }
    }

    /// A reference to the session renewal strategy of this session store.
    pub fn session_renewal_strategy(&self) -> (r: &SessionRenewalStrategy)
        ensures
            *r == self.spec_session_renewal_strategy(),
    {
        &self.session_renewal_strategy
    }

    /// A mutable reference to the session renewal strategy of this session
    /// store.
    pub fn session_renewal_strategy_mut(&mut self) -> (r: &mut SessionRenewalStrategy)
        ensures
            *r == old(self).spec_session_renewal_strategy(),
            final(self).spec_session_renewal_strategy() == *final(r),
            final(self).spec_connection() == old(self).spec_connection(),
            final(self).spec_cookie_generator() == old(self).spec_cookie_generator(),
    {
        &mut self.session_renewal_strategy
    }

    /// Consume the session store and return its connection.
    pub fn into_inner(self) -> (r: SessionStoreConnection)
        ensures
            r == self.spec_connection(),
    {
        self.connection
    }
}

impl<
    SessionData,
    SessionStoreConnection: SessionStoreConnector<SessionData>,
    CookieGenerator: SessionCookieGenerator,
> SessionStore<SessionData, SessionStoreConnection, CookieGenerator> {
    /// The sessions the backing store holds, keyed by their current id.
    pub open spec fn spec_contents(&self) -> Map<Seq<u8>, StoredSession<SessionData>> {
        self.spec_connection().contents()
    }

    /// The connector's retry bound.
    pub open spec fn spec_max_retries(&self) -> Option<u32> {
        self.spec_connection().spec_max_retries()
    }

    /// Try to store a session that owes a write, under one freshly generated
    /// cookie.
    fn try_store_session(&mut self, session: &Session<SessionData>) -> (r: Result<
        WriteSessionResult<SessionCookieCommand>,
        Error<SessionStoreConnection::Error>,
    >)
        requires
            session@ is NewChanged || session@ is Changed || session@ is Deleted,
        ensures
            final(self).spec_session_renewal_strategy() == old(
                self,
            ).spec_session_renewal_strategy(),
            final(self).spec_max_retries() == old(self).spec_max_retries(),
            match r {
                Ok(WriteSessionResult::Written(cmd)) => match session@ {
                    SessionState::NewChanged { expiry, data } => cmd matches
                        SessionCookieCommand::SetCookie { cookie_value, expiry: e } && e == expiry
                        && cookie_value@.len() == CookieGenerator::spec_cookie_length()
                        && all_cookie_chars(cookie_value@) && create_applies(
                        old(self).spec_contents(),
                        sid_of(cookie_value@),
                    ) && final(self).spec_contents() == old(self).spec_contents().insert(
                        sid_of(cookie_value@),
                        StoredSession { expiry, data },
                    ),
                    SessionState::Changed { current_id, expiry, data } => cmd matches
                        SessionCookieCommand::SetCookie { cookie_value, expiry: e } && e == expiry
                        && cookie_value@.len() == CookieGenerator::spec_cookie_length()
                        && all_cookie_chars(cookie_value@) && update_applies(
                        old(self).spec_contents(),
                        sid_of(cookie_value@),
                        current_id@,
                    ) && final(self).spec_contents() == updated_contents(
                        old(self).spec_contents(),
                        sid_of(cookie_value@),
                        current_id@,
                        StoredSession { expiry, data },
                    ),
                    SessionState::Deleted { current_id } => cmd == SessionCookieCommand::Delete
                        && final(self).spec_contents() == old(self).spec_contents().remove(
                        current_id@,
                    ),
                    _ => false,
                },
                Ok(WriteSessionResult::SessionIdExists) => final(self).spec_contents() == old(
                    self,
                ).spec_contents() && (session@ is NewChanged || session@ is Changed),
                Err(e) => final(self).spec_contents() == old(self).spec_contents() && match e {
                    Error::UpdatedSessionDoesNotExist => session@ matches SessionState::Changed {
                        current_id,
                        ..
                    } && !old(self).spec_contents().dom().contains(current_id@),
                    Error::SessionStoreConnector(_) => true,
                    _ => false,
                },
            },
    {
        match session.state_ref() {
            SessionState::NewChanged { expiry, data } => {
                let cookie_value = self.cookie_generator.generate_cookie();
                let id = SessionId::from_cookie_value(cookie_value.as_str());
                match self.connection.create_session(&id, expiry, data) {
                    Ok(WriteSessionResult::Written(())) => Ok(
                        WriteSessionResult::Written(
                            SessionCookieCommand::SetCookie { cookie_value, expiry: *expiry },
                        ),
                    ),
                    Ok(WriteSessionResult::SessionIdExists) => Ok(
                        WriteSessionResult::SessionIdExists,
                    ),
                    Err(e) => Err(e),
                }
            },
            SessionState::Changed { current_id: previous_id, expiry, data } => {
                let cookie_value = self.cookie_generator.generate_cookie();
                let current_id = SessionId::from_cookie_value(cookie_value.as_str());
                match self.connection.update_session(&current_id, previous_id, expiry, data) {
                    Ok(WriteSessionResult::Written(())) => Ok(
                        WriteSessionResult::Written(
                            SessionCookieCommand::SetCookie { cookie_value, expiry: *expiry },
                        ),
                    ),
                    Ok(WriteSessionResult::SessionIdExists) => Ok(
                        WriteSessionResult::SessionIdExists,
                    ),
                    Err(e) => Err(e),
                }
            },
            SessionState::Deleted { current_id } => {
                match self.connection.delete_session(current_id) {
                    Ok(()) => Ok(WriteSessionResult::Written(SessionCookieCommand::Delete)),
                    Err(e) => Err(e),
                }
            },
            _ => unreached(),
        }
    }

    /// Store a session in the storage backend, at the instant `now`. If the
    /// session is marked for deletion, this method deletes the session.
    ///
    /// If the session cookie requires to be updated, because the session
    /// data or expiry changed, then a `SessionCookieCommand` is returned.
    ///
    /// A connector that asks for unbounded retrying on id collisions is
    /// still cut off after `u32::MAX` failed attempts, a bound that cannot
    /// be reached in practice.
    #[verifier::loop_isolation(false)]
    pub fn store_session_at(&mut self, session: Session<SessionData>, now: Timestamp) -> (r:
        Result<SessionCookieCommand, Error<SessionStoreConnection::Error>>)
        ensures
            final(self).spec_session_renewal_strategy() == old(
                self,
            ).spec_session_renewal_strategy(),
            final(self).spec_max_retries() == old(self).spec_max_retries(),
            store_session_post(
                old(self).spec_contents(),
                final(self).spec_contents(),
                old(self).spec_session_renewal_strategy(),
                old(self).spec_max_retries(),
                session@,
                r,
                now,
                CookieGenerator::spec_cookie_length() as nat,
            ),
    {
        let mut session = session;
        let owes_write = match session.state_ref() {
            SessionState::NewChanged { .. } => true,
            SessionState::Changed { .. } => true,
            SessionState::Deleted { .. } => true,
            _ => false,
        };
        if !owes_write {
            return Ok(SessionCookieCommand::DoNothing);
        }
        // A new session needs its expiry filled in when it is first stored.
        // In all other cases the expiry was updated when the session was
        // loaded, so that the user can see the current expiry by inspecting
        // the session.
        let is_new = match session.state_ref() {
            SessionState::NewChanged { .. } => true,
            _ => false,
        };
        if is_new {
            let strategy = self.session_renewal_strategy;
            strategy.apply_to_session(&mut session, now);
        }
        let ghost prepared = session@;
        let maximum_retries_on_collision = match self.connection.maximum_retries_on_id_collision() {
            Some(maximum_retries_on_collision) => maximum_retries_on_collision,
            None => u32::MAX,
        };
        let mut attempt: u32 = 0;
        while attempt < maximum_retries_on_collision
            invariant
                session@ == prepared,
                prepared is NewChanged || prepared is Changed || prepared is Deleted,
                self.spec_contents() == old(self).spec_contents(),
                self.spec_session_renewal_strategy() == old(
                    self,
                ).spec_session_renewal_strategy(),
                self.spec_max_retries() == old(self).spec_max_retries(),
                self.spec_max_retries() matches Some(m) ==> m == maximum_retries_on_collision,
                self.spec_max_retries() is None ==> maximum_retries_on_collision == u32::MAX,
            decreases maximum_retries_on_collision - attempt,
        {
            match self.try_store_session(&session) {
                Ok(WriteSessionResult::Written(command)) => {
                    return Ok(command);
                },
                Ok(WriteSessionResult::SessionIdExists) => {},
                Err(e) => {
                    return Err(e);
                },
            }
            attempt += 1;
        }
        Err(Error::MaximumSessionIdGenerationTriesReached { maximum: maximum_retries_on_collision })
    }

    /// Store a session in the storage backend, at the current instant. See
    /// `store_session_at`.
    pub fn store_session(&mut self, session: Session<SessionData>) -> (r: Result<
        SessionCookieCommand,
        Error<SessionStoreConnection::Error>,
    >)
        ensures
            final(self).spec_session_renewal_strategy() == old(
                self,
            ).spec_session_renewal_strategy(),
            final(self).spec_max_retries() == old(self).spec_max_retries(),
            exists|now: Timestamp|
                #[trigger] store_session_post(
                    old(self).spec_contents(),
                    final(self).spec_contents(),
                    old(self).spec_session_renewal_strategy(),
                    old(self).spec_max_retries(),
                    session@,
                    r,
                    now,
                    CookieGenerator::spec_cookie_length() as nat,
                ),
    {
        let now = crate::time::now_timestamp();
        self.store_session_at(session, now)
    }

    /// Get a session from the storage backend, at the instant `now`.
    ///
    /// The `cookie_value` is the value of a cookie identifying the session.
    ///
    /// The return value is `Ok(Some(_))` if there is a session identified by
    /// the given cookie that is not expired at `now`, or `Ok(None)` if there
    /// is no such session. A cookie whose byte length is not the configured
    /// cookie length is rejected with `Error::WrongCookieLength`.
    pub fn load_session_at(&mut self, cookie_value: &str, now: Timestamp) -> (r: Result<
        Option<Session<SessionData>>,
        Error<SessionStoreConnection::Error>,
    >)
        ensures
            final(self).spec_session_renewal_strategy() == old(
                self,
            ).spec_session_renewal_strategy(),
            final(self).spec_max_retries() == old(self).spec_max_retries(),
            load_session_post(
                old(self).spec_contents(),
                final(self).spec_contents(),
                old(self).spec_session_renewal_strategy(),
                CookieGenerator::spec_cookie_length() as nat,
                cookie_value@,
                r,
                now,
            ),
    {
        let expected = CookieGenerator::cookie_length();
        let actual = cookie_value.len();
        if actual != expected {
            return Err(Error::WrongCookieLength { expected, actual });
        }
        let session_id = SessionId::from_cookie_value(cookie_value);
        match self.connection.read_session(session_id) {
            Ok(Some(mut session)) => {
                if session.is_expired(now) {
                    // Expired sessions are not deleted here: the client will
                    // not purposefully send an expired cookie, so this only
                    // triggers in the unlikely event that the session expires
                    // while in transit, and deletion is the job of an
                    // external cleanup anyway.
                    return Ok(None);
                }
                let strategy = self.session_renewal_strategy;
                strategy.apply_to_session(&mut session, now);
                Ok(Some(session))
            },
            Ok(None) => Ok(None),
            Err(e) => Err(e),
        }
    }

    /// Get a session from the storage backend, at the current instant. See
    /// `load_session_at`.
    pub fn load_session(&mut self, cookie_value: &str) -> (r: Result<
        Option<Session<SessionData>>,
        Error<SessionStoreConnection::Error>,
    >)
        ensures
            final(self).spec_session_renewal_strategy() == old(
                self,
            ).spec_session_renewal_strategy(),
            final(self).spec_max_retries() == old(self).spec_max_retries(),
            exists|now: Timestamp|
                #[trigger] load_session_post(
                    old(self).spec_contents(),
                    final(self).spec_contents(),
                    old(self).spec_session_renewal_strategy(),
                    CookieGenerator::spec_cookie_length() as nat,
                    cookie_value@,
                    r,
                    now,
                ),
    {
        let now = crate::time::now_timestamp();
        self.load_session_at(cookie_value, now)
    }

    /// Empties the entire store, deleting all sessions.
    pub fn clear_store(&mut self) -> (r: Result<(), Error<SessionStoreConnection::Error>>)
        ensures
            final(self).spec_session_renewal_strategy() == old(
                self,
            ).spec_session_renewal_strategy(),
            final(self).spec_max_retries() == old(self).spec_max_retries(),
            match r {
                Ok(()) => final(self).spec_contents() == Map::<
                    Seq<u8>,
                    StoredSession<SessionData>,
                >::empty(),
                Err(e) => e is SessionStoreConnector && final(self).spec_contents() == old(
                    self,
                ).spec_contents(),
            },
    {
        self.connection.clear()
    }
}

} // verus!
