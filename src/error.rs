//! The ways a conversion can fail.

use vstd::prelude::*;

use crate::key::KeyAlgorithm;

verus! {

/// Why no signature or public key could be produced.
#[derive(Debug, Clone, PartialEq, Eq)]
pub enum SshError {
    /// The token's signature is not a well-formed DER `ECDSA-Sig-Value`.
    MalformedSignature,
    /// The token reported a key of an algorithm that has no SSH mapping here.
    UnsupportedKeyAlgorithm(KeyAlgorithm),
    /// The token itself failed; the message describes how.
    HardwareError(String),
}

} // verus!
