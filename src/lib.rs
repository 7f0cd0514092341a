//! Conversion between a PIV token's elliptic-curve operations and the SSH
//! wire formats: DER signature parsing, SSH ECDSA signature encoding, and
//! mapping of token-reported public keys to SSH public keys.

pub mod der;
pub mod error;
pub mod key;
pub mod wire;
pub mod cert;
