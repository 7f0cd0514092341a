use piv_ssh::cert::ssh_cert_signer;
use piv_ssh::der::asn_der_to_r_s;
use piv_ssh::error::SshError;
use piv_ssh::key::KeyType;
use piv_ssh::wire::encode_ssh_signature;

fn malformed(der: &[u8]) -> bool {
    asn_der_to_r_s(der) == Err(SshError::MalformedSignature)
}

#[test]
fn parses_minimal_signature() {
    let der = [0x30, 0x06, 0x02, 0x01, 0x01, 0x02, 0x01, 0x02];
    assert_eq!(asn_der_to_r_s(&der), Ok((vec![0x01], vec![0x02])));
}

#[test]
fn encodes_minimal_signature() {
    let name = "ecdsa-sha2-nistp256";
    let blob = encode_ssh_signature(name, &[0x01], &[0x02]);
    let mut expected = vec![0x00, 0x00, 0x00, 0x13];
    expected.extend_from_slice(name.as_bytes());
    // the inner payload is two strings of five bytes each
    expected.extend_from_slice(&[0x00, 0x00, 0x00, 0x0a]);
    expected.extend_from_slice(&[0x00, 0x00, 0x00, 0x01, 0x01]);
    expected.extend_from_slice(&[0x00, 0x00, 0x00, 0x01, 0x02]);
    assert_eq!(name.len(), 19);
    assert_eq!(blob, expected);
}

#[test]
fn signer_produces_blob_for_key_type() {
    let der = [0x30, 0x06, 0x02, 0x01, 0x01, 0x02, 0x01, 0x02];
    let blob = ssh_cert_signer(&der, KeyType::EcdsaSha2Nistp256).unwrap();
    assert_eq!(blob, encode_ssh_signature("ecdsa-sha2-nistp256", &[0x01], &[0x02]));
    assert_eq!(blob.len(), 4 + 19 + 4 + 5 + 5);
    let blob384 = ssh_cert_signer(&der, KeyType::EcdsaSha2Nistp384).unwrap();
    assert_eq!(&blob384[4..23], "ecdsa-sha2-nistp384".as_bytes());
}

#[test]
fn signer_rejects_malformed_der() {
    let der = [0x30, 0x07, 0x02, 0x01, 0x01, 0x02, 0x01, 0x02];
    assert_eq!(
        ssh_cert_signer(&der, KeyType::EcdsaSha2Nistp256),
        Err(SshError::MalformedSignature)
    );
}

#[test]
fn truncated_input_is_malformed() {
    let der = [0x30, 0x06, 0x02, 0x01, 0x01, 0x02, 0x01, 0x02];
    for k in 0..der.len() {
        assert!(malformed(&der[..k]), "prefix of length {}", k);
    }
    assert!(malformed(&[0x30, 0x10, 0x02, 0x01, 0x01, 0x02, 0x01, 0x02]));
    assert!(malformed(&[0x30, 0x06, 0x02, 0x05, 0x01, 0x02, 0x01, 0x02]));
}

#[test]
fn high_bit_integer_needs_one_zero_byte() {
    let padded = [0x30, 0x07, 0x02, 0x02, 0x00, 0x80, 0x02, 0x01, 0x02];
    assert_eq!(asn_der_to_r_s(&padded), Ok((vec![0x00, 0x80], vec![0x02])));
    let negative = [0x30, 0x06, 0x02, 0x01, 0x80, 0x02, 0x01, 0x02];
    assert!(malformed(&negative));
    let two_zeros = [0x30, 0x08, 0x02, 0x03, 0x00, 0x00, 0x80, 0x02, 0x01, 0x02];
    assert!(malformed(&two_zeros));
    let needless_zero = [0x30, 0x07, 0x02, 0x01, 0x01, 0x02, 0x02, 0x00, 0x7f];
    assert!(malformed(&needless_zero));
    let lone_zero = [0x30, 0x06, 0x02, 0x01, 0x01, 0x02, 0x01, 0x00];
    assert!(malformed(&lone_zero));
}

#[test]
fn rejects_bad_tags_and_empty_integers() {
    assert!(malformed(&[0x31, 0x06, 0x02, 0x01, 0x01, 0x02, 0x01, 0x02]));
    assert!(malformed(&[0x30, 0x06, 0x03, 0x01, 0x01, 0x02, 0x01, 0x02]));
    assert!(malformed(&[0x30, 0x06, 0x02, 0x01, 0x01, 0x04, 0x01, 0x02]));
    assert!(malformed(&[0x30, 0x05, 0x02, 0x00, 0x02, 0x01, 0x02]));
    assert!(malformed(&[]));
}

#[test]
fn rejects_trailing_bytes() {
    assert!(malformed(&[0x30, 0x06, 0x02, 0x01, 0x01, 0x02, 0x01, 0x02, 0x00]));
    assert!(malformed(&[0x30, 0x09, 0x02, 0x01, 0x01, 0x02, 0x01, 0x02, 0x02, 0x01, 0x03]));
}

#[test]
fn long_form_length() {
    let mut der = vec![0x30, 0x81, 0x86, 0x02, 0x41, 0x00];
    let r: Vec<u8> = (0..64).map(|i| 0x80 | i as u8).collect();
    der.extend_from_slice(&r);
    der.extend_from_slice(&[0x02, 0x41, 0x00]);
    let s: Vec<u8> = (0..64).map(|i| 0xc0 | (i as u8 & 0x3f)).collect();
    der.extend_from_slice(&s);
    assert_eq!(der.len(), 3 + 0x86);
    let (pr, ps) = asn_der_to_r_s(&der).unwrap();
    assert_eq!(pr.len(), 65);
    assert_eq!(pr[0], 0x00);
    assert_eq!(&pr[1..], &r[..]);
    assert_eq!(&ps[1..], &s[..]);
    let blob = ssh_cert_signer(&der, KeyType::EcdsaSha2Nistp521).unwrap();
    assert_eq!(&blob[23..27], &[0x00, 0x00, 0x00, 0x8a]);
    assert_eq!(&blob[27..31], &[0x00, 0x00, 0x00, 0x41]);
}

#[test]
fn rejects_non_minimal_lengths() {
    assert!(malformed(&[0x30, 0x81, 0x06, 0x02, 0x01, 0x01, 0x02, 0x01, 0x02]));
    assert!(malformed(&[0x30, 0x82, 0x00, 0x06, 0x02, 0x01, 0x01, 0x02, 0x01, 0x02]));
    assert!(malformed(&[0x30, 0x80, 0x02, 0x01, 0x01, 0x02, 0x01, 0x02, 0x00, 0x00]));
    assert!(malformed(&[0x30, 0x85, 0x00, 0x00, 0x00, 0x00, 0x06]));
}

#[test]
fn repeated_runs_are_identical() {
    let der = [0x30, 0x07, 0x02, 0x02, 0x00, 0x91, 0x02, 0x01, 0x22];
    let first = ssh_cert_signer(&der, KeyType::EcdsaSha2Nistp256);
    let second = ssh_cert_signer(&der, KeyType::EcdsaSha2Nistp256);
    assert!(first.is_ok());
    assert_eq!(first, second);
    assert_eq!(asn_der_to_r_s(&der), asn_der_to_r_s(&der));
}
