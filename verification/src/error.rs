//! The closed set of failures surfaced to callers of the session store.

use vstd::prelude::*;

verus! {

/// All errors that can occur in this crate.
///
/// `SessionStoreConnectorError` is the error type of the backend connector in
/// use; the library wraps such failures without interpreting them.
#[derive(Debug)]
pub enum Error<SessionStoreConnectorError> {
    /// A session was attempted to be updated, but the session does not exist.
    /// This may happen due to concurrent modification, and is forbidden to
    /// prevent data inconsistencies. If you receive this error, revert
    /// everything that you did while handling the request that used this
    /// session.
    UpdatedSessionDoesNotExist,
    /// Tried as often as desired to generate a session id, but all generated
    /// ids already exist.
    MaximumSessionIdGenerationTriesReached {
        /// The maximum number of retries that was reached.
        maximum: u32,
    },
    /// The given cookie has a wrong length.
    WrongCookieLength {
        /// The expected cookie length, in bytes.
        expected: usize,
        /// The actual cookie length, in bytes.
        actual: usize,
    },
    /// An error occurred in the session store connector.
    SessionStoreConnector(SessionStoreConnectorError),
}

} // verus!
