//! Curves, SSH key types, and the public keys that a PIV token reports.

use vstd::prelude::*;
use vstd::string::StringSliceAdditionalSpecFns;

verus! {

/// A key algorithm of a PIV slot.
#[derive(Debug, Clone, Copy, PartialEq, Eq, Structural)]
pub enum KeyAlgorithm {
    Rsa1024,
    Rsa2048,
    EccP256,
    EccP384,
}

/// An elliptic curve that SSH names.
#[derive(Debug, Clone, Copy, PartialEq, Eq, Structural)]
pub enum Curve {
    Nistp256,
    Nistp384,
    Nistp521,
}

/// An SSH ECDSA key type; each names exactly one curve.
#[derive(Debug, Clone, Copy, PartialEq, Eq, Structural)]
pub enum KeyType {
    EcdsaSha2Nistp256,
    EcdsaSha2Nistp384,
    EcdsaSha2Nistp521,
}

impl Curve {
    /// The curve's SSH identifier.
    pub open spec fn spec_identifier(&self) -> &'static str {
        match *self {
            Curve::Nistp256 => "nistp256",
            Curve::Nistp384 => "nistp384",
            Curve::Nistp521 => "nistp521",
        }
    }

    /// The SSH key type that uses this curve.
    pub open spec fn spec_key_type(&self) -> KeyType {
        match *self {
            Curve::Nistp256 => KeyType::EcdsaSha2Nistp256,
            Curve::Nistp384 => KeyType::EcdsaSha2Nistp384,
            Curve::Nistp521 => KeyType::EcdsaSha2Nistp521,
        }
    }

    /// The length of an uncompressed point on the curve.
    pub open spec fn spec_key_length(&self) -> nat {
        match *self {
            Curve::Nistp256 => 65,
            Curve::Nistp384 => 97,
            Curve::Nistp521 => 133,
        }
    }

    /// The PIV algorithm that signs with this curve, where PIV has one.
    pub open spec fn spec_signing_algorithm(&self) -> Option<KeyAlgorithm> {
        match *self {
            Curve::Nistp256 => Some(KeyAlgorithm::EccP256),
            Curve::Nistp384 => Some(KeyAlgorithm::EccP384),
            Curve::Nistp521 => None,
        }
    }

    /// The curve's SSH identifier, such as `nistp256`.
    #[verifier::when_used_as_spec(spec_identifier)]
    pub fn identifier(&self) -> (r: &'static str)
        ensures
            r == self.spec_identifier(),
    {
        match *self {
            Curve::Nistp256 => "nistp256",
            Curve::Nistp384 => "nistp384",
            Curve::Nistp521 => "nistp521",
        }
    }

    /// The SSH key type that uses this curve.
    #[verifier::when_used_as_spec(spec_key_type)]
    pub fn key_type(&self) -> (r: KeyType)
        ensures
            r == self.spec_key_type(),
    {
        match *self {
            Curve::Nistp256 => KeyType::EcdsaSha2Nistp256,
            Curve::Nistp384 => KeyType::EcdsaSha2Nistp384,
            Curve::Nistp521 => KeyType::EcdsaSha2Nistp521,
        }
    }

    /// The length in bytes of an uncompressed point on the curve.
    pub fn key_length(&self) -> (r: usize)
        ensures
            r == self.spec_key_length(),
    {
        match *self {
            Curve::Nistp256 => 65,
            Curve::Nistp384 => 97,
            Curve::Nistp521 => 133,
        }
    }

    /// The PIV algorithm to sign with for a key on this curve; `None` for a
    /// curve that PIV does not offer.
    #[verifier::when_used_as_spec(spec_signing_algorithm)]
    pub fn signing_algorithm(&self) -> (r: Option<KeyAlgorithm>)
        ensures
            r == self.spec_signing_algorithm(),
    {
        match *self {
            Curve::Nistp256 => Some(KeyAlgorithm::EccP256),
            Curve::Nistp384 => Some(KeyAlgorithm::EccP384),
            Curve::Nistp521 => None,
        }
    }
}

impl KeyType {
    /// The key type's SSH algorithm name.
    pub open spec fn spec_name(&self) -> &'static str {
        match *self {
            KeyType::EcdsaSha2Nistp256 => "ecdsa-sha2-nistp256",
            KeyType::EcdsaSha2Nistp384 => "ecdsa-sha2-nistp384",
            KeyType::EcdsaSha2Nistp521 => "ecdsa-sha2-nistp521",
        }
    }

    /// The curve that the key type names.
    pub open spec fn spec_curve(&self) -> Curve {
        match *self {
            KeyType::EcdsaSha2Nistp256 => Curve::Nistp256,
            KeyType::EcdsaSha2Nistp384 => Curve::Nistp384,
            KeyType::EcdsaSha2Nistp521 => Curve::Nistp521,
        }
    }

    /// The key type's SSH algorithm name, such as `ecdsa-sha2-nistp256`.
    #[verifier::when_used_as_spec(spec_name)]
    pub fn name(&self) -> (r: &'static str)
        ensures
            r == self.spec_name(),
    {
        match *self {
            KeyType::EcdsaSha2Nistp256 => "ecdsa-sha2-nistp256",
            KeyType::EcdsaSha2Nistp384 => "ecdsa-sha2-nistp384",
            KeyType::EcdsaSha2Nistp521 => "ecdsa-sha2-nistp521",
        }
    }

    /// The curve that the key type names.
    #[verifier::when_used_as_spec(spec_curve)]
    pub fn curve(&self) -> (r: Curve)
        ensures
            r == self.spec_curve(),
    {
        match *self {
            KeyType::EcdsaSha2Nistp256 => Curve::Nistp256,
            KeyType::EcdsaSha2Nistp384 => Curve::Nistp384,
            KeyType::EcdsaSha2Nistp521 => Curve::Nistp521,
        }
    }
}

/// Every key type's name is 19 bytes long.
pub proof fn lemma_name_length(k: KeyType)
    ensures
        k.spec_name().spec_bytes().len() == 19,
{
    reveal_strlit("ecdsa-sha2-nistp256");
    reveal_strlit("ecdsa-sha2-nistp384");
    reveal_strlit("ecdsa-sha2-nistp521");
    assert(vstd::utf8::is_ascii_chars(k.spec_name()@));
    vstd::utf8::is_ascii_chars_encode_utf8(k.spec_name()@);
}

/// The curve and the raw point bytes of an ECDSA public key.
#[derive(Debug, Clone, PartialEq, Eq)]
pub struct EcdsaPublicKey {
    pub curve: Curve,
    pub key: Vec<u8>,
}

/// The kinds of SSH public key that this library produces.
#[derive(Debug, Clone, PartialEq, Eq)]
pub enum PublicKeyKind {
    Ecdsa(EcdsaPublicKey),
}

/// An SSH public key.
#[derive(Debug, Clone, PartialEq, Eq)]
pub struct PublicKey {
    pub key_type: KeyType,
    pub kind: PublicKeyKind,
    pub comment: Option<String>,
}

impl PublicKeyKind {
    /// The curve of the key.
    pub open spec fn spec_curve(self) -> Curve {
        match self {
            PublicKeyKind::Ecdsa(k) => k.curve,
        }
    }
}

impl PublicKey {
    /// The key type and the key's curve name the same curve.
    pub open spec fn wf(self) -> bool {
        self.key_type.spec_curve() == self.kind.spec_curve()
    }

    /// The ECDSA public key with the given curve and point bytes, with the
    /// curve's key type and no comment.
    pub open spec fn spec_ecdsa(curve: Curve, key: Vec<u8>) -> PublicKey {
        PublicKey {
            key_type: curve.spec_key_type(),
            kind: PublicKeyKind::Ecdsa(EcdsaPublicKey { curve, key }),
            comment: None,
        }
    }

    /// Builds the ECDSA public key with the given curve and point bytes, with
    /// the curve's key type and no comment.
    pub fn ecdsa(curve: Curve, key: Vec<u8>) -> (r: PublicKey)
        ensures
            r == PublicKey::spec_ecdsa(curve, key),
            r.wf(),
    {
        PublicKey {
            key_type: curve.key_type(),
            kind: PublicKeyKind::Ecdsa(EcdsaPublicKey { curve, key }),
            comment: None,
        }
    }
}

/// A public key as a PIV token reports it, tagged by algorithm.
#[derive(Debug, Clone, PartialEq, Eq)]
pub enum TokenPublicKey {
    /// A point on NIST P-256, as the token encodes it.
    EcP256(Vec<u8>),
    /// A point on NIST P-384, as the token encodes it.
    EcP384(Vec<u8>),
    /// An RSA key of the given algorithm.
    Rsa { algorithm: KeyAlgorithm },
}

} // verus!
