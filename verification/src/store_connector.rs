//! The backend-facing CRUD contract over persistent sessions.
//!
//! The persistent store is modelled as a map from the current session id to
//! the stored expiry and data. Because the model is a map, two distinct
//! stored sessions can never share a current id. The update operation
//! atomically rebinds a session from its previous id to a fresh one; under
//! concurrent updates of the same session, at most one can find the previous
//! id still bound, so at most one can succeed.

use crate::error::Error;
use crate::session::{Session, SessionExpiry, SessionState};
use crate::session_id::SessionId;
use vstd::prelude::*;

verus! {

/// What the store holds for one session: its expiry and its data. The
/// current id is the key under which the session is stored.
pub struct StoredSession<SessionData> {
    /// The stored expiry.
    pub expiry: SessionExpiry,
    /// The stored data.
    pub data: SessionData,
}

/// The result of writing a session, indicating if the session could be
/// written, or if the chosen id collided. Annotated with `#[must_use]`,
/// because silently dropping this may cause sessions to be dropped silently.
#[derive(Debug)]
#[must_use]
pub enum WriteSessionResult<OkData = ()> {
    /// The session could be written without id collision.
    Written(OkData),
    /// The session could not be written, because the chosen id already
    /// exists.
    SessionIdExists,
}

impl<OkData> WriteSessionResult<OkData> {
    /// Apply `f` to the payload of a `Written` result, leaving `SessionIdExists`
    /// as it is.
    pub fn map<OtherOkData, F: FnOnce(OkData) -> OtherOkData>(self, f: F) -> (r:
        WriteSessionResult<OtherOkData>)
        requires
            forall|x: OkData| f.requires((x,)),
        ensures
            self matches WriteSessionResult::Written(data) ==> r matches WriteSessionResult::Written(out)
                && f.ensures((data,), out),
            self is SessionIdExists ==> r is SessionIdExists,
    {
        match self {
            WriteSessionResult::Written(data) => WriteSessionResult::Written(f(data)),
            WriteSessionResult::SessionIdExists => WriteSessionResult::SessionIdExists,
        }
    }
}

/// Whether creating a session under `id` can succeed on store contents `m`:
/// the id must be free.
pub open spec fn create_applies<SessionData>(
    m: Map<Seq<u8>, StoredSession<SessionData>>,
    id: Seq<u8>,
) -> bool {
    !m.dom().contains(id)
}

/// Whether rebinding a session from `previous_id` to `current_id` can
/// succeed on store contents `m`: the new id must be free and the previous id
/// must still be bound.
pub open spec fn update_applies<SessionData>(
    m: Map<Seq<u8>, StoredSession<SessionData>>,
    current_id: Seq<u8>,
    previous_id: Seq<u8>,
) -> bool {
    !m.dom().contains(current_id) && m.dom().contains(previous_id)
}

/// The store contents after a successful rebind of a session from
/// `previous_id` to `current_id`, with `stored` as its new expiry and data.
pub open spec fn updated_contents<SessionData>(
    m: Map<Seq<u8>, StoredSession<SessionData>>,
    current_id: Seq<u8>,
    previous_id: Seq<u8>,
    stored: StoredSession<SessionData>,
) -> Map<Seq<u8>, StoredSession<SessionData>> {
    m.remove(previous_id).insert(current_id, stored)
}

/// This is the backend-facing interface of the session store. It defines
/// simple CRUD methods on sessions.
///
/// Sessions are identified by their current session id; the contents of the
/// store are modelled by the map `contents()` from current id to stored
/// expiry and data, so there is never any overlap between the ids.
///
/// A connector that fails with its own error reports it as
/// `Error::SessionStoreConnector` and must leave the observable contents as
/// they were.
pub trait SessionStoreConnector<SessionData>: Sized {
    /// The error type of this connector.
    type Error;

    /// The sessions the store holds, keyed by their current id.
    spec fn contents(&self) -> Map<Seq<u8>, StoredSession<SessionData>>;

    /// The configured retry bound, `None` for unbounded retrying.
    spec fn spec_max_retries(&self) -> Option<u32>;

    /// Writing a session may fail if the chosen session id already exists.
    /// This value indicates how often the caller should retry with different
    /// randomly generated ids until it should give up. The value `None`
    /// indicates that the caller should never give up, possibly looping
    /// infinitely.
    fn maximum_retries_on_id_collision(&self) -> (r: Option<u32>)
        ensures
            r == self.spec_max_retries(),
    ;

    /// Create a session with the given `current_id`, `expiry` and `data`.
    /// If the id is already taken, `SessionIdExists` is returned and nothing
    /// changes.
    fn create_session(
        &mut self,
        current_id: &SessionId,
        expiry: &SessionExpiry,
        data: &SessionData,
    ) -> (r: Result<WriteSessionResult, Error<Self::Error>>)
        ensures
            final(self).spec_max_retries() == old(self).spec_max_retries(),
            match r {
                Ok(WriteSessionResult::Written(())) => create_applies(old(self).contents(), current_id@)
                    && final(self).contents() == old(self).contents().insert(
                    current_id@,
                    StoredSession { expiry: *expiry, data: *data },
                ),
                Ok(WriteSessionResult::SessionIdExists) => !create_applies(
                    old(self).contents(),
                    current_id@,
                ) && final(self).contents() == old(self).contents(),
                Err(e) => e is SessionStoreConnector && final(self).contents() == old(
                    self,
                ).contents(),
            },
    ;

    /// Read the session with the given `id`. The returned session is in the
    /// `Unchanged` state and carries `id` as its current id. Expired sessions
    /// are returned as well; expiry filtering is the caller's job.
    fn read_session(&mut self, id: SessionId) -> (r: Result<
        Option<Session<SessionData>>,
        Error<Self::Error>,
    >)
        ensures
            final(self).spec_max_retries() == old(self).spec_max_retries(),
            final(self).contents() == old(self).contents(),
            match r {
                Ok(Some(session)) => old(self).contents().dom().contains(id@) && (
                session@ matches SessionState::Unchanged { current_id, expiry, data }
                    && current_id@ == id@ && expiry == old(self).contents()[id@].expiry && data
                    == old(self).contents()[id@].data),
                Ok(None) => !old(self).contents().dom().contains(id@),
                Err(e) => e is SessionStoreConnector,
            },
    ;

    /// Update a session with a new id, expiry and data.
    ///
    /// This method must atomically find the session whose current id is
    /// `previous_id`, rebind it to `current_id`, and overwrite its expiry and
    /// data. If `current_id` is already taken, `SessionIdExists` is returned.
    /// If no session is bound to `previous_id`, the call fails with
    /// `UpdatedSessionDoesNotExist`.
    ///
    /// **Security:** the atomicity is what prevents a session whose id is
    /// updated concurrently from splitting into two chains: of two concurrent
    /// rebinds away from the same previous id, at most one can find the
    /// previous id still bound, so at most one can succeed.
    fn update_session(
        &mut self,
        current_id: &SessionId,
        previous_id: &SessionId,
        expiry: &SessionExpiry,
        data: &SessionData,
    ) -> (r: Result<WriteSessionResult, Error<Self::Error>>)
        ensures
            final(self).spec_max_retries() == old(self).spec_max_retries(),
            match r {
                Ok(WriteSessionResult::Written(())) => update_applies(
                    old(self).contents(),
                    current_id@,
                    previous_id@,
                ) && final(self).contents() == updated_contents(
                    old(self).contents(),
                    current_id@,
                    previous_id@,
                    StoredSession { expiry: *expiry, data: *data },
                ),
                Ok(WriteSessionResult::SessionIdExists) => old(self).contents().dom().contains(
                    current_id@,
                ) && final(self).contents() == old(self).contents(),
                Err(e) => final(self).contents() == old(self).contents() && match e {
                    Error::UpdatedSessionDoesNotExist => !old(self).contents().dom().contains(
                        current_id@,
                    ) && !old(self).contents().dom().contains(previous_id@),
                    Error::SessionStoreConnector(_) => true,
                    _ => false,
                },
            },
    ;

    /// Delete the session with the given `id`. Deleting an id that is not
    /// bound is not an error.
    fn delete_session(&mut self, id: &SessionId) -> (r: Result<(), Error<Self::Error>>)
        ensures
            final(self).spec_max_retries() == old(self).spec_max_retries(),
            match r {
                Ok(()) => final(self).contents() == old(self).contents().remove(id@),
                Err(e) => e is SessionStoreConnector && final(self).contents() == old(
                    self,
                ).contents(),
            },
    ;

    /// Delete all sessions in the store.
    fn clear(&mut self) -> (r: Result<(), Error<Self::Error>>)
        ensures
            final(self).spec_max_retries() == old(self).spec_max_retries(),
            match r {
                Ok(()) => final(self).contents() == Map::<
                    Seq<u8>,
                    StoredSession<SessionData>,
                >::empty(),
                Err(e) => e is SessionStoreConnector && final(self).contents() == old(
                    self,
                ).contents(),
            },
    ;
}

} // verus!
