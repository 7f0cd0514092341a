//! The conversions that an SSH certificate authority backed by a PIV token
//! needs: the token's public key as an SSH public key, and the token's DER
//! signature as an SSH signature blob.

use vstd::prelude::*;
use vstd::string::StringSliceAdditionalSpecFns;

use crate::der::{asn_der_to_r_s, der_signature, lemma_signature_size};
use crate::error::SshError;
use crate::key::{
    lemma_name_length, Curve, EcdsaPublicKey, KeyAlgorithm, KeyType, PublicKey, PublicKeyKind,
    TokenPublicKey,
};
use crate::wire::{encode_ssh_signature, ssh_ecdsa_signature};

verus! {

/// The SSH public key for a key that the token reports, or the algorithm
/// that has no SSH mapping.
pub open spec fn spec_public_key(reported: TokenPublicKey) -> Result<PublicKey, SshError> {
    match reported {
        TokenPublicKey::EcP256(key) => Ok(PublicKey::spec_ecdsa(Curve::Nistp256, key)),
        TokenPublicKey::EcP384(key) => Ok(PublicKey::spec_ecdsa(Curve::Nistp384, key)),
        TokenPublicKey::Rsa { algorithm } => Err(SshError::UnsupportedKeyAlgorithm(algorithm)),
    }
}

/// The SSH signature blob for a DER signature made by a key of type
/// `key_type`, or `MalformedSignature`.
pub open spec fn spec_ssh_signature(der: Seq<u8>, key_type: KeyType) -> Result<Seq<u8>, SshError> {
    match der_signature(der) {
        Some((r, s)) => Ok(ssh_ecdsa_signature(key_type.spec_name().spec_bytes(), r, s)),
        None => Err(SshError::MalformedSignature),
    }
}

/// Wraps a public key that the token reported in an SSH public key: a P-256
/// or P-384 point becomes an ECDSA key of that curve, with the point bytes as
/// reported and no comment; an RSA key is refused with its algorithm.
pub fn ssh_cert_fetch_pubkey(reported: TokenPublicKey) -> (res: Result<PublicKey, SshError>)
    ensures
        res == spec_public_key(reported),
        res matches Ok(key) ==> key.wf(),
{
    match reported {
        TokenPublicKey::EcP256(key) => Ok(PublicKey::ecdsa(Curve::Nistp256, key)),
        TokenPublicKey::EcP384(key) => Ok(PublicKey::ecdsa(Curve::Nistp384, key)),
        TokenPublicKey::Rsa { algorithm } => Err(SshError::UnsupportedKeyAlgorithm(algorithm)),
    }
}

/// Turns the DER signature that the token made with a key of type
/// `key_type` into an SSH signature blob under that type's name.
pub fn ssh_cert_signer(der: &[u8], key_type: KeyType) -> (res: Result<Vec<u8>, SshError>)
    requires
        der@.len() <= u32::MAX,
    ensures
        match res {
            Ok(blob) => spec_ssh_signature(der@, key_type) == Ok::<Seq<u8>, SshError>(blob@),
            Err(e) => spec_ssh_signature(der@, key_type) == Err::<Seq<u8>, SshError>(e),
        },
{
    let (r, s) = match asn_der_to_r_s(der) {
        Ok(parts) => parts,
        Err(e) => return Err(e),
    };
    proof {
        lemma_signature_size(der@);
        lemma_name_length(key_type);
    }
    Ok(encode_ssh_signature(key_type.name(), r.as_slice(), s.as_slice()))
}

/// A P-384 key that the token reports becomes an `ecdsa-sha2-nistp384`
/// key on curve `nistp384` with the reported bytes; an RSA key of any
/// algorithm is refused as unsupported, never replaced by another key.
pub proof fn lemma_public_key_mapping(point: Vec<u8>, algorithm: KeyAlgorithm)
    ensures
        spec_public_key(TokenPublicKey::EcP384(point)) matches Ok(key) && key.key_type.spec_name()
            == "ecdsa-sha2-nistp384" && key.kind.spec_curve().spec_identifier() == "nistp384"
            && key.kind == PublicKeyKind::Ecdsa(
            EcdsaPublicKey { curve: Curve::Nistp384, key: point },
        ) && key.comment is None,
        spec_public_key(TokenPublicKey::Rsa { algorithm }) == Err::<PublicKey, SshError>(
            SshError::UnsupportedKeyAlgorithm(algorithm),
        ),
{
}

/// Running the signature conversion twice on the same DER bytes and key
/// type gives byte-identical results.
pub proof fn lemma_signer_deterministic(
    der: Seq<u8>,
    key_type: KeyType,
    first: Result<Seq<u8>, SshError>,
    second: Result<Seq<u8>, SshError>,
)
    requires
        first == spec_ssh_signature(der, key_type),
        second == spec_ssh_signature(der, key_type),
    ensures
        first == second,
{
}

} // verus!
