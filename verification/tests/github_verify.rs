use webhook_receiver::github::{credential_matches_digest, verify_signature};

fn hmac_sha256(key: &[u8], data: &[u8]) -> Vec<u8> {
    let pkey = openssl::pkey::PKey::hmac(key).unwrap();
    let digest = openssl::hash::MessageDigest::sha256();
    let mut signer = openssl::sign::Signer::new(digest, &pkey).unwrap();
    signer.update(data).unwrap();
    signer.sign_to_vec().unwrap()
}

fn formed_credential(secret: &[u8], payload: &[u8]) -> Vec<u8> {
    let mut c = b"sha256=".to_vec();
    c.extend_from_slice(hex::encode(hmac_sha256(secret, payload)).as_bytes());
    c
}

#[test]
fn accepts_correct_credential() {
    let secret = b"s3cr3t";
    let payload = b"{\"ref\":\"main\"}";
    let cred = formed_credential(secret, payload);
    assert!(verify_signature(secret, &cred, payload));
}

#[test]
fn rejects_altered_payload() {
    let secret = b"s3cr3t";
    let payload = b"{\"ref\":\"main\"}";
    let cred = formed_credential(secret, payload);
    let mut altered = payload.to_vec();
    altered[0] ^= 1;
    assert!(!verify_signature(secret, &cred, &altered));
}

#[test]
fn rejects_altered_digest() {
    let secret = b"s3cr3t";
    let payload = b"{\"ref\":\"main\"}";
    let mut cred = formed_credential(secret, payload);
    let last = *cred.last().unwrap();
    *cred.last_mut().unwrap() = if last == b'0' { b'1' } else { b'0' };
    assert!(!verify_signature(secret, &cred, payload));
}

#[test]
fn rejects_wrong_secret() {
    let payload = b"{\"ref\":\"main\"}";
    let cred = formed_credential(b"s3cr3t", payload);
    assert!(!verify_signature(b"other", &cred, payload));
}

#[test]
fn rejects_missing_separator() {
    let secret = b"s3cr3t";
    let payload = b"{\"ref\":\"main\"}";
    let mut cred = formed_credential(secret, payload);
    // drop the '=': no separator left
    cred.remove(6);
    assert!(!verify_signature(secret, &cred, payload));
}

#[test]
fn rejects_two_separators() {
    let secret = b"s3cr3t";
    let payload = b"{\"ref\":\"main\"}";
    let mut cred = formed_credential(secret, payload);
    cred.insert(0, b'=');
    assert!(!verify_signature(secret, &cred, payload));
}

#[test]
fn rejects_undecodable_hex_without_crash() {
    let secret = b"s3cr3t";
    let payload = b"{}";
    assert!(!verify_signature(secret, b"sha256=zz", payload));
    assert!(!verify_signature(secret, b"sha256=abc", payload));
    assert!(!verify_signature(secret, b"sha256=", payload));
}

#[test]
fn digest_comparison_is_exact() {
    assert!(credential_matches_digest(b"sha256=00ff", &[0x00, 0xff]));
    assert!(credential_matches_digest(b"sha256=00FF", &[0x00, 0xff]));
    assert!(!credential_matches_digest(b"sha256=00ff", &[0x00, 0xfe]));
    assert!(!credential_matches_digest(b"sha256=00ff", &[0x00]));
    assert!(!credential_matches_digest(b"sha256=00", &[0x00, 0xff]));
}

#[test]
fn scheme_prefix_is_not_inspected() {
    // the verifier pins the part after the single '=', as the split does
    assert!(credential_matches_digest(b"anything=00ff", &[0x00, 0xff]));
}
