//! The secure session: the per-connection state of a secure transport
//! handle. It derives the key once at construction and turns messages into
//! envelope payloads and back; the surrounding handle only frames those
//! payloads and moves the bytes.

use vstd::prelude::*;

use crate::envelope;
use crate::envelope::CryptoError;
use crate::envelope::IvPolicy;
use crate::keys::Key;
use crate::keys::convert_key;
use crate::keys::derived_key;

verus! {

/// One side of a secure connection: the derived key, held for the session's
/// lifetime and never mutated, and the initialization-vector policy both
/// peers agreed on.
pub struct SecureSession {
    key: Key,
    policy: IvPolicy,
}

impl SecureSession {
    /// The session's key bytes.
    pub closed spec fn spec_key(&self) -> Seq<u8> {
        self.key@
    }

    /// The session's initialization-vector policy.
    pub closed spec fn spec_policy(&self) -> IvPolicy {
        self.policy
    }

    /// A well-formed session holds a full 32-byte key.
    pub open spec fn wf(&self) -> bool {
        self.spec_key().len() == 32
    }

    /// Builds a session by deriving the key from the passphrase once; the
    /// key then lives exactly as long as the session.
    pub fn new(passphrase: &str, policy: IvPolicy) -> (s: SecureSession)
        requires
            passphrase.is_ascii(),
        ensures
            s.wf(),
            s.spec_key() == derived_key(passphrase@),
            s.spec_policy() == policy,
    {
        SecureSession { key: convert_key(passphrase), policy }
    }

    /// Seals one message into the envelope payload that goes inside a frame.
    /// Opening the result on a session with the same key and policy recovers
    /// the message; the payload is exactly one leading block plus the
    /// message padded to the next block boundary.
    pub fn seal(&self, message: &Vec<u8>) -> (e: Vec<u8>)
        requires
            self.wf(),
            message@.len() + 32 <= usize::MAX,
        ensures
            envelope::open_model(self.spec_policy(), e@, self.spec_key()) == Ok::<
                Seq<u8>,
                CryptoError,
            >(message@),
            e@.len() == (message@.len() / 16) * 16 + 32,
            self.spec_policy() is Fixed ==> e@ == envelope::seal_fixed_spec(
                message@,
                self.spec_key(),
            ),
            self.spec_policy() is RandomPerMessage ==> exists|r: Seq<u8>|
                r.len() == 16 && e@ == envelope::seal_random_spec(message@, self.spec_key(), r),
    {
        envelope::seal(message, &self.key, self.policy)
    }

    /// Opens one received envelope payload back into its message, returning
    /// exactly what [`envelope::open_model`] says for these bytes under the
    /// session's key and policy.
    pub fn open(&self, payload: &Vec<u8>) -> (r: Result<Vec<u8>, CryptoError>)
        requires
            self.wf(),
        ensures
            match r {
                Ok(p) => envelope::open_model(self.spec_policy(), payload@, self.spec_key())
                    == Ok::<Seq<u8>, CryptoError>(p@),
                Err(er) => envelope::open_model(self.spec_policy(), payload@, self.spec_key())
                    == Err::<Seq<u8>, CryptoError>(er),
            },
    {
        envelope::open(payload, &self.key, self.policy)
    }
}

} // verus!
