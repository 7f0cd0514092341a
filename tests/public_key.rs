use piv_ssh::cert::ssh_cert_fetch_pubkey;
use piv_ssh::error::SshError;
use piv_ssh::key::{
    Curve, EcdsaPublicKey, KeyAlgorithm, KeyType, PublicKey, PublicKeyKind, TokenPublicKey,
};

#[test]
fn p384_key_maps_to_nistp384() {
    let point = vec![0x04; 97];
    let key = ssh_cert_fetch_pubkey(TokenPublicKey::EcP384(point.clone())).unwrap();
    assert_eq!(key.key_type.name(), "ecdsa-sha2-nistp384");
    let PublicKeyKind::Ecdsa(ecdsa) = &key.kind;
    assert_eq!(ecdsa.curve.identifier(), "nistp384");
    assert_eq!(ecdsa.key, point);
    assert_eq!(key.comment, None);
}

#[test]
fn p256_key_maps_to_nistp256() {
    let point = vec![0x04, 0x01, 0x02];
    let key = ssh_cert_fetch_pubkey(TokenPublicKey::EcP256(point.clone())).unwrap();
    assert_eq!(
        key,
        PublicKey {
            key_type: KeyType::EcdsaSha2Nistp256,
            kind: PublicKeyKind::Ecdsa(EcdsaPublicKey { curve: Curve::Nistp256, key: point }),
            comment: None,
        }
    );
    assert_eq!(key.key_type.name(), "ecdsa-sha2-nistp256");
}

#[test]
fn rsa_key_is_unsupported() {
    for algorithm in [KeyAlgorithm::Rsa1024, KeyAlgorithm::Rsa2048] {
        assert_eq!(
            ssh_cert_fetch_pubkey(TokenPublicKey::Rsa { algorithm }),
            Err(SshError::UnsupportedKeyAlgorithm(algorithm))
        );
    }
}

#[test]
fn curves_and_key_types_agree() {
    for curve in [Curve::Nistp256, Curve::Nistp384, Curve::Nistp521] {
        assert_eq!(curve.key_type().curve(), curve);
        let name = curve.key_type().name();
        assert!(name.ends_with(curve.identifier()));
        assert!(name.starts_with("ecdsa-sha2-"));
    }
    assert_eq!(KeyType::EcdsaSha2Nistp521.name(), "ecdsa-sha2-nistp521");
    assert_eq!(Curve::Nistp256.key_length(), 65);
    assert_eq!(Curve::Nistp384.key_length(), 97);
    assert_eq!(Curve::Nistp521.key_length(), 133);
}

#[test]
fn signing_algorithm_follows_curve() {
    assert_eq!(Curve::Nistp256.signing_algorithm(), Some(KeyAlgorithm::EccP256));
    assert_eq!(Curve::Nistp384.signing_algorithm(), Some(KeyAlgorithm::EccP384));
    assert_eq!(Curve::Nistp521.signing_algorithm(), None);
}

#[test]
fn ecdsa_builder_sets_matching_key_type() {
    let key = PublicKey::ecdsa(Curve::Nistp521, vec![1, 2, 3]);
    assert_eq!(key.key_type, KeyType::EcdsaSha2Nistp521);
    assert_eq!(key.comment, None);
}
