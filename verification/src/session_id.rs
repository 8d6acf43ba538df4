//! Session identifiers.
//!
//! A session id is the cryptographic digest of a cookie value. The store only
//! ever sees ids; the client only ever sees cookie values. An attacker who
//! reads the store cannot recover the cookies, because the digest cannot be
//! inverted.

use vstd::prelude::*;

verus! {

/// The representation of a session id: its digest bytes.
pub type SessionIdType = Vec<u8>;

/// A session id: the digest of a cookie value.
#[derive(Debug, Clone, PartialEq, Eq, PartialOrd, Ord, Hash)]
pub struct SessionId {
    bytes: Vec<u8>,
}

impl View for SessionId {
    type V = Seq<u8>;

    closed spec fn view(&self) -> Seq<u8> {
        self.bytes@
    }
}

/// The digest of a byte sequence. The digest is a function of the bytes
/// alone: equal inputs give equal digests, in every process and on every
/// machine.
pub uninterp spec fn hash_of(bytes: Seq<u8>) -> Seq<u8>;

/// The id derived from a cookie value: the digest of its UTF-8 bytes.
pub open spec fn sid_of(cookie_value: Seq<char>) -> Seq<u8> {
    hash_of(vstd::utf8::encode_utf8(cookie_value))
}

/// Relies on `blake3::hash` and `blake3::Hash::as_bytes`: the digest is a
/// 32-byte value determined by the input bytes alone.
#[verifier::external_body]
fn blake3_digest(input: &[u8]) -> (r: Vec<u8>)
    ensures
        r@ == hash_of(input@),
        r@.len() == 32,
{
    blake3::hash(input).as_bytes().to_vec()
}

impl SessionId {
    /// Applies a cryptographic hash function on a cookie value to obtain the
    /// session id for that cookie.
    ///
    /// This is automatically done by the session store, and this function is
    /// only public for test purposes.
    pub fn from_cookie_value(cookie_value: &str) -> (r: SessionId)
        ensures
            r@ == sid_of(cookie_value@),
            r@.len() == 32,
    {
        SessionId { bytes: blake3_digest(cookie_value.as_bytes()) }
    }

    /// Whether two ids hold the same digest.
    pub fn equals(&self, other: &SessionId) -> (r: bool)
        ensures
            r == (self@ == other@),
    {
        if self.bytes.len() != other.bytes.len() {
            proof {
                assert(self@ != other@);
            }
            return false;
        }
        let n: usize = self.bytes.len();
        let mut i: usize = 0;
        while i < n
            invariant
                i <= n,
                n == self.bytes.len() == other.bytes.len(),
                forall|j: int| 0 <= j < i ==> self.bytes@[j] == other.bytes@[j],
            decreases n - i,
        {
            if self.bytes[i] != other.bytes[i] {
                proof {
                    assert(self@[i as int] != other@[i as int]);
                }
                return false;
            }
            i += 1;
        }
        proof {
            assert(self@ =~= other@);
        }
        true
    }

    /// A copy of this id, holding the same digest.
    pub fn duplicate(&self) -> (r: SessionId)
        ensures
            r@ == self@,
    {
        let bytes = self.bytes.clone();
        proof {
            assert(bytes@ =~= self.bytes@);
        }
        SessionId { bytes }
    }

    /// The digest bytes of this id.
    pub fn into_bytes(self) -> (r: SessionIdType)
        ensures
            r@ == self@,
    {
        self.bytes
    }
}

} // verus!
