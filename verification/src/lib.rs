//! Typed, change-tracking HTTP session management.
//!
//! The library mediates between a client, which holds an opaque session
//! cookie, and a pluggable persistent store. Sessions are loaded by cookie,
//! tracked through a small state machine while a request handles them, and
//! written back only when something actually changed. Every write rotates the
//! session id, which defends against session fixation and serialises
//! concurrent modifications of the same session.

mod cookie_generator;
mod error;
mod laws;
mod memory_store;
mod session;
mod session_id;
mod session_store;
mod store_connector;
mod time;

pub use cookie_generator::DebugSessionCookieGenerator;
pub use cookie_generator::DefaultSessionCookieGenerator;
pub use cookie_generator::SessionCookieGenerator;
pub use cookie_generator::all_cookie_chars;
pub use cookie_generator::is_cookie_char;
pub use cookie_generator::lemma_cookie_chars_byte_len;
pub use cookie_generator::zero_padded_decimal;
pub use error::Error;
pub use laws::lemma_automatic_renewal_on_load;
pub use laws::lemma_automatic_renewal_strategy;
pub use laws::lemma_concurrent_update_one_winner;
pub use laws::lemma_expired_session_yields_none_no_delete;
pub use laws::lemma_expiry_write_does_not_promote_new;
pub use laws::lemma_ignore_load_yields_unchanged;
pub use laws::lemma_ignore_never_writes_unmutated;
pub use laws::lemma_ignore_strategy_is_identity;
pub use laws::lemma_issued_cookie_has_valid_length;
pub use laws::lemma_new_session_expiry_on_first_write;
pub use laws::lemma_session_id_deterministic;
pub use laws::lemma_unknown_cookie_yields_none;
pub use laws::lemma_unmodified_round_trip;
pub use laws::lemma_update_retires_previous_id;
pub use laws::lemma_wrong_cookie_length_rejected;
pub use memory_store::DefaultLogger;
pub use memory_store::MemoryStore;
pub use memory_store::MemoryStoreOperationLogger;
pub use memory_store::NoLogger;
pub use memory_store::Operation;
pub use memory_store::cleanup_keeps;
pub use memory_store::unchanged_with_id;
pub use memory_store::cleanup_post;
pub use memory_store::record_clear_appended;
pub use memory_store::record_create_appended;
pub use memory_store::record_delete_appended;
pub use memory_store::record_read_appended;
pub use memory_store::record_update_appended;
pub use session::Session;
pub use session::SessionExpiry;
pub use session::SessionState;
pub use session_id::SessionId;
pub use session_id::SessionIdType;
pub use session_id::hash_of;
pub use session_id::sid_of;
pub use session_store::SessionCookieCommand;
pub use session_store::SessionRenewalStrategy;
pub use session_store::SessionStore;
pub use session_store::apply_strategy;
pub use session_store::load_session_post;
pub use session_store::renewal_triggers;
pub use session_store::renewed_expiry;
pub use session_store::store_session_post;
pub use store_connector::SessionStoreConnector;
pub use store_connector::StoredSession;
pub use store_connector::WriteSessionResult;
pub use store_connector::create_applies;
pub use store_connector::update_applies;
pub use store_connector::updated_contents;
pub use time::TimeDelta;
pub use time::Timestamp;
