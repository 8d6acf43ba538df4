//! The per-request session object and its state machine.
//!
//! A session is created for a request (or loaded from the store), possibly
//! mutated while the request is handled, and finally handed back to the
//! session store, which derives the necessary writes from the state the
//! machine ended up in. Mutating accessors promote the state so that change
//! tracking never misses a write; the one deliberate asymmetry is that an
//! expiry-only change to a brand-new session is not enough reason to store
//! it.

use crate::session_id::SessionId;
use crate::time::{TimeDelta, Timestamp};
use vstd::prelude::*;

verus! {

/// The expiry of a session. Either a given instant, or never.
#[derive(Debug, Clone, Copy, PartialEq, Eq, PartialOrd, Ord, Hash, Structural)]
pub enum SessionExpiry {
    /// The session expires at the given instant.
    DateTime(Timestamp),
    /// The session never expires, unless it is explicitly deleted.
    Never,
}

impl SessionExpiry {
    /// Whether a session with this expiry is expired at `now`: true exactly
    /// when the expiry is an instant strictly before `now`.
    pub open spec fn spec_is_expired_at(self, now: Timestamp) -> bool {
        self matches SessionExpiry::DateTime(t) && t.millis < now.millis
    }
}

/// The state a session is in, which determines the store operation it still
/// owes. The variants carrying `current_id` stem from the store; the `New`
/// variants were created during this request and have no id yet.
#[derive(Debug, Clone)]
pub enum SessionState<SessionData> {
    /// Newly created this request; at most the expiry was written. Not
    /// stored.
    NewUnchanged {
        /// The expiry of the session.
        expiry: SessionExpiry,
        /// The data of the session.
        data: SessionData,
    },
    /// Newly created this request, and the data was written or explicitly
    /// seeded. Must be stored.
    NewChanged {
        /// The expiry of the session.
        expiry: SessionExpiry,
        /// The data of the session.
        data: SessionData,
    },
    /// Loaded from the store and not modified. Not rewritten.
    Unchanged {
        /// The id under which the store currently holds this session.
        current_id: SessionId,
        /// The expiry of the session.
        expiry: SessionExpiry,
        /// The data of the session.
        data: SessionData,
    },
    /// Loaded from the store and then modified. Must be rewritten under a
    /// fresh id.
    Changed {
        /// The id under which the store currently holds this session.
        current_id: SessionId,
        /// The expiry of the session.
        expiry: SessionExpiry,
        /// The data of the session.
        data: SessionData,
    },
    /// A stored session marked for deletion. Must be deleted from the store.
    Deleted {
        /// The id under which the store currently holds this session.
        current_id: SessionId,
    },
    /// Created and deleted within one request, never persisted. No store
    /// operation owed.
    NewDeleted,
}

impl<SessionData> SessionState<SessionData> {
    /// Whether this state is marked for deletion.
    pub open spec fn is_deleted_state(self) -> bool {
        self is Deleted || self is NewDeleted
    }

    /// Whether this state owes a write because it was changed.
    pub open spec fn is_changed_state(self) -> bool {
        self is NewChanged || self is Changed
    }

    /// The expiry carried by a non-deleted state.
    pub open spec fn spec_expiry(self) -> SessionExpiry
        recommends
            !self.is_deleted_state(),
    {
        match self {
            SessionState::NewUnchanged { expiry, .. } => expiry,
            SessionState::NewChanged { expiry, .. } => expiry,
            SessionState::Unchanged { expiry, .. } => expiry,
            SessionState::Changed { expiry, .. } => expiry,
            _ => arbitrary(),
        }
    }

    /// The data carried by a non-deleted state.
    pub open spec fn spec_data(self) -> SessionData
        recommends
            !self.is_deleted_state(),
    {
        match self {
            SessionState::NewUnchanged { data, .. } => data,
            SessionState::NewChanged { data, .. } => data,
            SessionState::Unchanged { data, .. } => data,
            SessionState::Changed { data, .. } => data,
            _ => arbitrary(),
        }
    }

    /// The state after the data was accessed mutably and left as `data`:
    /// every non-deleted state is promoted to its changed form.
    pub open spec fn with_data_written(self, data: SessionData) -> SessionState<SessionData> {
        match self {
            SessionState::NewUnchanged { expiry, .. } => SessionState::NewChanged { expiry, data },
            SessionState::NewChanged { expiry, .. } => SessionState::NewChanged { expiry, data },
            SessionState::Unchanged { current_id, expiry, .. } => SessionState::Changed {
                current_id,
                expiry,
                data,
            },
            SessionState::Changed { current_id, expiry, .. } => SessionState::Changed {
                current_id,
                expiry,
                data,
            },
            _ => self,
        }
    }

    /// The state after the expiry was written to `expiry`. A stored session
    /// is promoted to `Changed`; a new session keeps its change marker as it
    /// was, because an expiry-only change to an unseeded new session is not
    /// enough reason to store it.
    pub open spec fn with_expiry_written(self, expiry: SessionExpiry) -> SessionState<
        SessionData,
    > {
        match self {
            SessionState::NewUnchanged { data, .. } => SessionState::NewUnchanged { expiry, data },
            SessionState::NewChanged { data, .. } => SessionState::NewChanged { expiry, data },
            SessionState::Unchanged { current_id, data, .. } => SessionState::Changed {
                current_id,
                expiry,
                data,
            },
            SessionState::Changed { current_id, data, .. } => SessionState::Changed {
                current_id,
                expiry,
                data,
            },
            _ => self,
        }
    }

    /// The state after the change marker was applied without writing a field:
    /// a stored, unmodified session is promoted to `Changed`; everything else
    /// stays as it is.
    pub open spec fn with_change_marker(self) -> SessionState<SessionData> {
        match self {
            SessionState::Unchanged { current_id, expiry, data } => SessionState::Changed {
                current_id,
                expiry,
                data,
            },
            _ => self,
        }
    }

    /// The state after the session was marked for deletion.
    pub open spec fn with_delete_marker(self) -> SessionState<SessionData> {
        match self {
            SessionState::NewUnchanged { .. } => SessionState::NewDeleted,
            SessionState::NewChanged { .. } => SessionState::NewDeleted,
            SessionState::Unchanged { current_id, .. } => SessionState::Deleted { current_id },
            SessionState::Changed { current_id, .. } => SessionState::Deleted { current_id },
            _ => self,
        }
    }
}

/// A session with a client.
///
/// This type handles the creation, updating and deletion of sessions. It is
/// marked `#[must_use]`, as dropping it will not update the session store.
/// Instead, it should be passed to the session store's `store_session`.
///
/// `SessionData` is the data associated with a session.
#[derive(Debug, Clone)]
#[must_use]
pub struct Session<SessionData> {
    state: SessionState<SessionData>,
}

impl<SessionData> View for Session<SessionData> {
    type V = SessionState<SessionData>;

    closed spec fn view(&self) -> SessionState<SessionData> {
        self.state
    }
}

impl<SessionData: Default> Session<SessionData> {
    /// Create a new session with default data. Does not set an expiry.
    /// Using this method does not mark the session as changed, i.e. it will
    /// be silently dropped if its data is never accessed mutably.
    pub fn new() -> (r: Session<SessionData>)
        ensures
            r@ matches SessionState::NewUnchanged { expiry, data } && expiry
                == SessionExpiry::Never && call_ensures(SessionData::default, (), data),
    {
        Session {
            state: SessionState::NewUnchanged {
                expiry: SessionExpiry::Never,
                data: Default::default(),
            },
        }
    }
}

impl<SessionData: Default> Default for Session<SessionData> {
    fn default() -> (r: Session<SessionData>)
        ensures
            r@ matches SessionState::NewUnchanged { expiry, data } && expiry
                == SessionExpiry::Never && call_ensures(SessionData::default, (), data),
    {
        Session::new()
    }
}

impl<SessionData> Session<SessionData> {
    /// Create a new session with the given session data. Does not set an
    /// expiry. Using this method marks the session as changed, i.e. it will
    /// be stored in the backend and communicated to the client even if its
    /// data is never accessed mutably.
    pub fn new_with_data(data: SessionData) -> (r: Session<SessionData>)
        ensures
            r@ == (SessionState::NewChanged { expiry: SessionExpiry::Never, data }),
    {
        Session { state: SessionState::NewChanged { expiry: SessionExpiry::Never, data } }
    }

    /// **This method should only be called by a session store!**
    ///
    /// Create a session instance from parts loaded by a session store. The
    /// session state will be `Unchanged`.
    pub fn new_from_session_store(
        current_id: SessionId,
        expiry: SessionExpiry,
        data: SessionData,
    ) -> (r: Session<SessionData>)
        ensures
            r@ == (SessionState::Unchanged { current_id, expiry, data }),
    {
        Session { state: SessionState::Unchanged { current_id, expiry, data } }
    }

    /// Returns true if this session is marked for destruction.
    pub fn is_deleted(&self) -> (r: bool)
        ensures
            r == self@.is_deleted_state(),
    {
        match &self.state {
            SessionState::Deleted { .. } => true,
            SessionState::NewDeleted => true,
            _ => false,
        }
    }

    /// Returns true if this session was changed since it was created or
    /// loaded from the session store.
    pub fn is_changed(&self) -> (r: bool)
        ensures
            r == self@.is_changed_state(),
    {
        match &self.state {
            SessionState::NewChanged { .. } => true,
            SessionState::Changed { .. } => true,
            _ => false,
        }
    }

    /// Returns true if this session was changed since it was created or
    /// loaded, or if it is marked for destruction.
    pub fn is_changed_or_deleted(&self) -> (r: bool)
        ensures
            r == (self@.is_changed_state() || self@.is_deleted_state()),
    {
        self.is_changed() || self.is_deleted()
    }

    /// Returns the expiry of this session.
    pub fn expiry(&self) -> (r: &SessionExpiry)
        requires
            !self@.is_deleted_state(),
        ensures
            *r == self@.spec_expiry(),
    {
        match &self.state {
            SessionState::NewUnchanged { expiry, .. } => expiry,
            SessionState::NewChanged { expiry, .. } => expiry,
            SessionState::Unchanged { expiry, .. } => expiry,
            SessionState::Changed { expiry, .. } => expiry,
            _ => unreached(),
        }
    }

    /// Returns a reference to the data associated with this session. This
    /// does not mark the session as changed.
    pub fn data(&self) -> (r: &SessionData)
        requires
            !self@.is_deleted_state(),
        ensures
            *r == self@.spec_data(),
    {
        match &self.state {
            SessionState::NewUnchanged { data, .. } => data,
            SessionState::NewChanged { data, .. } => data,
            SessionState::Unchanged { data, .. } => data,
            SessionState::Changed { data, .. } => data,
            _ => unreached(),
        }
    }

    /// Promote the state as if the data had been written.
    fn promote_data_changed(&mut self)
        requires
            !old(self)@.is_deleted_state(),
        ensures
            final(self)@ == old(self)@.with_data_written(old(self)@.spec_data()),
            final(self)@ is NewChanged || final(self)@ is Changed,
    {
        let mut tmp = SessionState::NewDeleted;
        core::mem::swap(&mut self.state, &mut tmp);
        self.state = match tmp {
            SessionState::NewUnchanged { expiry, data } => SessionState::NewChanged {
                expiry,
                data,
            },
            SessionState::Unchanged { current_id, expiry, data } => SessionState::Changed {
                current_id,
                expiry,
                data,
            },
            other => other,
        };
    }

    /// Returns a mutable reference to the data associated with this session,
    /// and marks the session as changed.
    ///
    /// Note that the session gets marked as changed even if the returned
    /// reference is never written to.
    pub fn data_mut(&mut self) -> (r: &mut SessionData)
        requires
            !old(self)@.is_deleted_state(),
        ensures
            *r == old(self)@.spec_data(),
            final(self)@ == old(self)@.with_data_written(*final(r)),
    {
        self.promote_data_changed();
        match &mut self.state {
            SessionState::NewChanged { data, .. } => data,
            SessionState::Changed { data, .. } => data,
            _ => unreached(),
        }
    }

    /// Mark this session for destruction.
    ///
    /// Note that the session is only deleted from the session store if the
    /// store's `store_session` is called with it.
    pub fn delete(&mut self)
        requires
            !old(self)@.is_deleted_state(),
        ensures
            final(self)@ == old(self)@.with_delete_marker(),
    {
        let mut tmp = SessionState::NewDeleted;
        core::mem::swap(&mut self.state, &mut tmp);
        self.state = match tmp {
            SessionState::NewUnchanged { .. } => SessionState::NewDeleted,
            SessionState::NewChanged { .. } => SessionState::NewDeleted,
            SessionState::Unchanged { current_id, .. } => SessionState::Deleted { current_id },
            SessionState::Changed { current_id, .. } => SessionState::Deleted { current_id },
            other => other,
        };
    }

    /// Apply the change marker without writing a field: a stored, unmodified
    /// session is promoted, which forces the generation of a new id and
    /// cookie when it is next stored. On a new session whose data was never
    /// accessed mutably this is a no-op.
    pub fn regenerate(&mut self)
        requires
            !old(self)@.is_deleted_state(),
        ensures
            final(self)@ == old(self)@.with_change_marker(),
    {
        self.promote_expiry_changed();
    }

    /// Promote the state as if the expiry had been accessed mutably.
    fn promote_expiry_changed(&mut self)
        requires
            !old(self)@.is_deleted_state(),
        ensures
            final(self)@ == old(self)@.with_change_marker(),
            !final(self)@.is_deleted_state(),
    {
        let mut tmp = SessionState::NewDeleted;
        core::mem::swap(&mut self.state, &mut tmp);
        self.state = match tmp {
            SessionState::Unchanged { current_id, expiry, data } => SessionState::Changed {
                current_id,
                expiry,
                data,
            },
            other => other,
        };
    }

    /// Write the expiry, promoting the state accordingly.
    fn write_expiry(&mut self, expiry: SessionExpiry)
        requires
            !old(self)@.is_deleted_state(),
        ensures
            final(self)@ == old(self)@.with_expiry_written(expiry),
    {
        self.promote_expiry_changed();
        match &mut self.state {
            SessionState::NewUnchanged { expiry: e, .. } => {
                *e = expiry;
            },
            SessionState::NewChanged { expiry: e, .. } => {
                *e = expiry;
            },
            SessionState::Changed { expiry: e, .. } => {
                *e = expiry;
            },
            _ => unreached(),
        }
    }

    /// Updates the expiry instant of this session.
    pub fn set_expiry(&mut self, expiry: Timestamp)
        requires
            !old(self)@.is_deleted_state(),
        ensures
            final(self)@ == old(self)@.with_expiry_written(SessionExpiry::DateTime(expiry)),
    {
        self.write_expiry(SessionExpiry::DateTime(expiry));
    }

    /// Sets this session to never expire.
    pub fn do_not_expire(&mut self)
        requires
            !old(self)@.is_deleted_state(),
        ensures
            final(self)@ == old(self)@.with_expiry_written(SessionExpiry::Never),
    {
        self.write_expiry(SessionExpiry::Never);
    }

    /// Sets this session to expire `ttl` time after `now`, clamped to the
    /// representable range.
    pub fn expire_in(&mut self, now: Timestamp, ttl: TimeDelta)
        requires
            !old(self)@.is_deleted_state(),
        ensures
            final(self)@ == old(self)@.with_expiry_written(
                SessionExpiry::DateTime(now.spec_plus(ttl)),
            ),
    {
        let expiry = now.plus(ttl);
        self.write_expiry(SessionExpiry::DateTime(expiry));
    }

    /// Return true if the session is expired at `now`, that is, if it has an
    /// expiry instant that lies strictly before `now`.
    pub fn is_expired(&self, now: Timestamp) -> (r: bool)
        requires
            !self@.is_deleted_state(),
        ensures
            r == self@.spec_expiry().spec_is_expired_at(now),
    {
        match self.expiry() {
            SessionExpiry::DateTime(expiry) => expiry.millis < now.millis,
            SessionExpiry::Never => false,
        }
    }

    /// Returns the span from `now` to the expiry instant of this session.
    /// Returns `None` if the session is already expired at `now` or never
    /// expires.
    pub fn expires_in(&self, now: Timestamp) -> (r: Option<TimeDelta>)
        requires
            !self@.is_deleted_state(),
        ensures
            match self@.spec_expiry() {
                SessionExpiry::DateTime(t) => if t.millis > now.millis {
                    r matches Some(d) && d.millis == crate::time::clamp_millis(
                        t.millis - now.millis,
                    )
                } else {
                    r is None
                },
                SessionExpiry::Never => r is None,
            },
    {
        match self.expiry() {
            SessionExpiry::DateTime(t) => {
                if t.millis > now.millis {
                    let diff: i128 = (t.millis as i128) - (now.millis as i128);
                    let clamped: i64 = if diff > i64::MAX as i128 {
                        i64::MAX
                    } else {
                        diff as i64
                    };
                    Some(TimeDelta::from_millis(clamped))
                } else {
                    None
                }
            },
            SessionExpiry::Never => None,
        }
    }

    /// The state this session is in.
    pub(crate) fn state_ref(&self) -> (r: &SessionState<SessionData>)
        ensures
            *r == self@,
    {
        &self.state
    }

    /// Extract the optionally associated data and expiry while consuming the
    /// session.
    ///
    /// **This function is supposed to be used in tests only.** This loses the
    /// association of the data to the actual session, making it useless for
    /// most purposes.
    pub fn into_data_expiry_pair(self) -> (r: (Option<SessionData>, Option<SessionExpiry>))
        ensures
            if self@.is_deleted_state() {
                r == (None::<SessionData>, None::<SessionExpiry>)
            } else {
                r == (Some(self@.spec_data()), Some(self@.spec_expiry()))
            },
    {
        match self.state {
            SessionState::NewUnchanged { data, expiry } => (Some(data), Some(expiry)),
            SessionState::NewChanged { data, expiry } => (Some(data), Some(expiry)),
            SessionState::Unchanged { data, expiry, .. } => (Some(data), Some(expiry)),
            SessionState::Changed { data, expiry, .. } => (Some(data), Some(expiry)),
            SessionState::Deleted { .. } => (None, None),
            SessionState::NewDeleted => (None, None),
        }
    }
}

} // verus!
