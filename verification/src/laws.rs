//! The library's laws: properties that relate several operations, stated
//! over the specification model and proved once and for all.

use crate::error::Error;
use crate::session::{Session, SessionExpiry, SessionState};
use crate::session_id::sid_of;
use crate::session_store::{
    apply_strategy, load_session_post, renewal_triggers, store_session_post, SessionCookieCommand,
    SessionRenewalStrategy,
};
use crate::store_connector::{update_applies, updated_contents, StoredSession};
use crate::time::{TimeDelta, Timestamp};
use vstd::prelude::*;

verus! {

/// Deriving a session id from a cookie value is deterministic: the id is a
/// function of the cookie value alone, so equal cookie values give equal
/// ids. That the id has the full digest width is part of the contract of
/// `SessionId::from_cookie_value`.
pub proof fn lemma_session_id_deterministic(c1: Seq<char>, c2: Seq<char>)
    requires
        c1 == c2,
    ensures
        sid_of(c1) == sid_of(c2),
{
}

/// A successful rebind retires the previous id: afterwards the session is
/// bound to the fresh id and the previous id is bound to nothing, so a read
/// under the old id can never see the session again.
pub proof fn lemma_update_retires_previous_id<SessionData>(
    m: Map<Seq<u8>, StoredSession<SessionData>>,
    current_id: Seq<u8>,
    previous_id: Seq<u8>,
    stored: StoredSession<SessionData>,
)
    requires
        update_applies(m, current_id, previous_id),
    ensures
        updated_contents(m, current_id, previous_id, stored).dom().contains(current_id),
        !updated_contents(m, current_id, previous_id, stored).dom().contains(previous_id),
{
}

/// Of two rebinds away from the same previous id, at most one can succeed:
/// once the first has rebound the session, the previous id is no longer
/// bound, so the second rebind no longer applies, whatever fresh id it
/// chose. The connector contract then forces it to fail with
/// `UpdatedSessionDoesNotExist`. This is what keeps a concurrently modified
/// session from splitting into two chains.
pub proof fn lemma_concurrent_update_one_winner<SessionData>(
    m: Map<Seq<u8>, StoredSession<SessionData>>,
    first_new_id: Seq<u8>,
    previous_id: Seq<u8>,
    second_new_id: Seq<u8>,
    stored: StoredSession<SessionData>,
)
    requires
        update_applies(m, first_new_id, previous_id),
    ensures
        !update_applies(
            updated_contents(m, first_new_id, previous_id, stored),
            second_new_id,
            previous_id,
        ),
{
}

/// The `Ignore` strategy leaves every session exactly as it is: state, id,
/// expiry and data. Under `Ignore`, every write to the store therefore
/// traces back to the application itself changing or deleting the session.
pub proof fn lemma_ignore_strategy_is_identity<SessionData>(
    state: SessionState<SessionData>,
    now: Timestamp,
)
    ensures
        apply_strategy(SessionRenewalStrategy::Ignore, state, now) == state,
{
}

/// What automatic renewal does to a session seen at `now`: if the expiry is
/// `Never`, or an instant whose remaining lifetime is at most the configured
/// maximum, the expiry is rewritten to `now` plus the time-to-live — an
/// expiry write, which promotes a stored, unmodified session to `Changed`
/// and so triggers a write on store. Otherwise the session is left exactly
/// as it is. The data is never modified.
pub proof fn lemma_automatic_renewal_strategy<SessionData>(
    state: SessionState<SessionData>,
    time_to_live: TimeDelta,
    maximum_remaining: TimeDelta,
    now: Timestamp,
)
    requires
        !state.is_deleted_state(),
    ensures
        ({
            let strategy = SessionRenewalStrategy::AutomaticRenewal {
                time_to_live,
                maximum_remaining_time_to_live_for_renewal: maximum_remaining,
            };
            let renewed = apply_strategy(strategy, state, now);
            &&& renewed.spec_data() == state.spec_data()
            &&& if state.spec_expiry() is Never || (
            state.spec_expiry() matches SessionExpiry::DateTime(t) && t.millis - now.millis
                <= maximum_remaining.millis) {
                renewed == state.with_expiry_written(
                    SessionExpiry::DateTime(now.spec_plus(time_to_live)),
                )
            } else {
                renewed == state
            }
        }),
{
}

/// Under the `Ignore` strategy a loaded session is always in the
/// `Unchanged` state: loading alone never marks it as changed.
pub proof fn lemma_ignore_load_yields_unchanged<SessionData, E>(
    pre: Map<Seq<u8>, StoredSession<SessionData>>,
    post: Map<Seq<u8>, StoredSession<SessionData>>,
    cookie_len: nat,
    cookie_value: Seq<char>,
    session: Session<SessionData>,
    now: Timestamp,
)
    requires
        load_session_post(
            pre,
            post,
            SessionRenewalStrategy::Ignore,
            cookie_len,
            cookie_value,
            Ok::<_, Error<E>>(Some(session)),
            now,
        ),
    ensures
        session@ is Unchanged,
{
}

/// Round-trip idempotence for unmodified sessions: a session that came out
/// of `load_session` and was not mutated in between is still in the
/// `Unchanged` state, and handing it back to `store_session` is guaranteed
/// to return `DoNothing` and to leave the store exactly as it was.
pub proof fn lemma_unmodified_round_trip<SessionData, E>(
    pre: Map<Seq<u8>, StoredSession<SessionData>>,
    mid: Map<Seq<u8>, StoredSession<SessionData>>,
    post: Map<Seq<u8>, StoredSession<SessionData>>,
    strategy: SessionRenewalStrategy,
    max_retries: Option<u32>,
    cookie_len: nat,
    cookie_value: Seq<char>,
    session: Session<SessionData>,
    store_result: Result<SessionCookieCommand, Error<E>>,
    load_now: Timestamp,
    store_now: Timestamp,
)
    requires
        load_session_post(
            pre,
            mid,
            strategy,
            cookie_len,
            cookie_value,
            Ok::<_, Error<E>>(Some(session)),
            load_now,
        ),
        session@ is Unchanged,
        store_session_post(
            mid,
            post,
            strategy,
            max_retries,
            session@,
            store_result,
            store_now,
            cookie_len,
        ),
    ensures
        store_result matches Ok(SessionCookieCommand::DoNothing),
        post == pre,
{
}

/// The `Ignore` strategy never writes unless the application mutated the
/// session: storing a session whose data was never written and that was not
/// deleted leaves the store untouched and the cookie alone. Together with
/// `lemma_ignore_load_yields_unchanged` and the state machine, under
/// `Ignore` every write to the store traces back to a data write, an expiry
/// write on a stored session, or a delete.
pub proof fn lemma_ignore_never_writes_unmutated<SessionData, E>(
    pre: Map<Seq<u8>, StoredSession<SessionData>>,
    post: Map<Seq<u8>, StoredSession<SessionData>>,
    max_retries: Option<u32>,
    state: SessionState<SessionData>,
    r: Result<SessionCookieCommand, Error<E>>,
    now: Timestamp,
    cookie_len: nat,
)
    requires
        store_session_post(
            pre,
            post,
            SessionRenewalStrategy::Ignore,
            max_retries,
            state,
            r,
            now,
            cookie_len,
        ),
        state is NewUnchanged || state is Unchanged || state is NewDeleted,
    ensures
        r matches Ok(SessionCookieCommand::DoNothing),
        post == pre,
{
}

/// Writing the expiry of a brand-new, unseeded session does not promote it:
/// an expiry-only change to a session that was never stored is not enough
/// reason to store it, so such a session is still silently discarded.
pub proof fn lemma_expiry_write_does_not_promote_new<SessionData>(
    state: SessionState<SessionData>,
    expiry: SessionExpiry,
)
    requires
        state is NewUnchanged,
    ensures
        state.with_expiry_written(expiry) is NewUnchanged,
{
}

/// What automatic renewal does on load: the loaded session is marked
/// changed, and thereby written back on store, exactly when the stored
/// expiry was `Never` or its remaining lifetime was at most the configured
/// maximum; in that case its expiry becomes `now` plus the time-to-live.
/// Otherwise the session comes back `Unchanged`, with its stored expiry, and
/// no write happens.
pub proof fn lemma_automatic_renewal_on_load<SessionData, E>(
    pre: Map<Seq<u8>, StoredSession<SessionData>>,
    post: Map<Seq<u8>, StoredSession<SessionData>>,
    time_to_live: TimeDelta,
    maximum_remaining: TimeDelta,
    cookie_len: nat,
    cookie_value: Seq<char>,
    session: Session<SessionData>,
    now: Timestamp,
)
    requires
        load_session_post(
            pre,
            post,
            SessionRenewalStrategy::AutomaticRenewal {
                time_to_live,
                maximum_remaining_time_to_live_for_renewal: maximum_remaining,
            },
            cookie_len,
            cookie_value,
            Ok::<_, Error<E>>(Some(session)),
            now,
        ),
    ensures
        ({
            let stored_expiry = pre[sid_of(cookie_value)].expiry;
            &&& (session@ is Changed <==> (stored_expiry is Never || (
            stored_expiry matches SessionExpiry::DateTime(t) && t.millis - now.millis
                <= maximum_remaining.millis)))
            &&& (session@ is Changed ==> session@.spec_expiry() == SessionExpiry::DateTime(
                now.spec_plus(time_to_live),
            ))
            &&& (session@ is Unchanged ==> session@.spec_expiry() == stored_expiry)
        }),
{
    let strategy = SessionRenewalStrategy::AutomaticRenewal {
        time_to_live,
        maximum_remaining_time_to_live_for_renewal: maximum_remaining,
    };
    let stored_expiry = pre[sid_of(cookie_value)].expiry;
    if renewal_triggers(strategy, stored_expiry, now) {
        assert(session@ is Changed);
    } else {
        assert(session@ is Unchanged);
    }
}

/// A new session stored under automatic renewal receives `now` plus the
/// time-to-live as its expiry on its first write: a session created without
/// an expiry is never stored with `Never`.
pub proof fn lemma_new_session_expiry_on_first_write<SessionData, E>(
    pre: Map<Seq<u8>, StoredSession<SessionData>>,
    post: Map<Seq<u8>, StoredSession<SessionData>>,
    time_to_live: TimeDelta,
    maximum_remaining: TimeDelta,
    max_retries: Option<u32>,
    data: SessionData,
    r: Result<SessionCookieCommand, Error<E>>,
    now: Timestamp,
    cookie_len: nat,
)
    requires
        store_session_post(
            pre,
            post,
            SessionRenewalStrategy::AutomaticRenewal {
                time_to_live,
                maximum_remaining_time_to_live_for_renewal: maximum_remaining,
            },
            max_retries,
            SessionState::NewChanged { expiry: SessionExpiry::Never, data },
            r,
            now,
            cookie_len,
        ),
        r is Ok,
    ensures
        r matches Ok(SessionCookieCommand::SetCookie { cookie_value, expiry }) && expiry
            == SessionExpiry::DateTime(now.spec_plus(time_to_live)),
{
}

/// A cookie issued by a successful store has the configured byte length:
/// it consists of `cookie_len` alphanumeric characters, each one byte in
/// UTF-8, so presenting it to `load_session` can never fail the length
/// check.
pub proof fn lemma_issued_cookie_has_valid_length<SessionData, E>(
    pre: Map<Seq<u8>, StoredSession<SessionData>>,
    post: Map<Seq<u8>, StoredSession<SessionData>>,
    strategy: SessionRenewalStrategy,
    max_retries: Option<u32>,
    state: SessionState<SessionData>,
    r: Result<SessionCookieCommand, Error<E>>,
    now: Timestamp,
    cookie_len: nat,
)
    requires
        store_session_post(pre, post, strategy, max_retries, state, r, now, cookie_len),
        state is NewChanged || state is Changed,
        r is Ok,
    ensures
        r matches Ok(SessionCookieCommand::SetCookie { cookie_value, .. })
            && vstd::utf8::encode_utf8(cookie_value@).len() == cookie_len,
{
    let cookie_value = match r {
        Ok(SessionCookieCommand::SetCookie { cookie_value, .. }) => cookie_value,
        _ => arbitrary(),
    };
    crate::cookie_generator::lemma_cookie_chars_byte_len(cookie_value@);
}

/// A cookie whose hash is unknown to the store loads as `None`, without an
/// error and without touching the store.
pub proof fn lemma_unknown_cookie_yields_none<SessionData, E>(
    pre: Map<Seq<u8>, StoredSession<SessionData>>,
    post: Map<Seq<u8>, StoredSession<SessionData>>,
    strategy: SessionRenewalStrategy,
    cookie_len: nat,
    cookie_value: Seq<char>,
    r: Result<Option<Session<SessionData>>, Error<E>>,
    now: Timestamp,
)
    requires
        load_session_post(pre, post, strategy, cookie_len, cookie_value, r, now),
        !pre.dom().contains(sid_of(cookie_value)),
        r is Ok,
    ensures
        r matches Ok(None),
        post == pre,
{
}

/// An expired session loads as `None`: no session object comes back, no
/// error is raised, and in particular no delete is issued — the store is
/// left exactly as it was.
pub proof fn lemma_expired_session_yields_none_no_delete<SessionData, E>(
    pre: Map<Seq<u8>, StoredSession<SessionData>>,
    post: Map<Seq<u8>, StoredSession<SessionData>>,
    strategy: SessionRenewalStrategy,
    cookie_len: nat,
    cookie_value: Seq<char>,
    r: Result<Option<Session<SessionData>>, Error<E>>,
    now: Timestamp,
)
    requires
        load_session_post(pre, post, strategy, cookie_len, cookie_value, r, now),
        pre.dom().contains(sid_of(cookie_value)),
        pre[sid_of(cookie_value)].expiry.spec_is_expired_at(now),
        r is Ok,
    ensures
        r matches Ok(None),
        post == pre,
{
}

/// A cookie of the wrong byte length — shorter, longer, empty, or inflated
/// beyond the configured length by non-ASCII characters — is rejected with
/// `WrongCookieLength`, which reports the expected and the actual length,
/// and the store is not touched.
pub proof fn lemma_wrong_cookie_length_rejected<SessionData, E>(
    pre: Map<Seq<u8>, StoredSession<SessionData>>,
    post: Map<Seq<u8>, StoredSession<SessionData>>,
    strategy: SessionRenewalStrategy,
    cookie_len: nat,
    cookie_value: Seq<char>,
    r: Result<Option<Session<SessionData>>, Error<E>>,
    now: Timestamp,
)
    requires
        load_session_post(pre, post, strategy, cookie_len, cookie_value, r, now),
        vstd::utf8::encode_utf8(cookie_value).len() as usize as nat != cookie_len,
    ensures
        r matches Err(Error::WrongCookieLength { expected, actual }) && expected as nat
            == cookie_len && actual as nat == vstd::utf8::encode_utf8(cookie_value).len() as usize
            as nat,
        post == pre,
{
}

} // verus!
