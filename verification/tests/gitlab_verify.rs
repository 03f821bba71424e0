use webhook_receiver::gitlab::Gitlab;

#[test]
fn accepts_equal_token() {
    assert!(Gitlab::verify_signature(b"shared-token", b"shared-token"));
    assert!(Gitlab::verify_signature(b"", b""));
}

#[test]
fn rejects_different_content() {
    assert!(!Gitlab::verify_signature(b"shared-token", b"shared-tokeN"));
    assert!(!Gitlab::verify_signature(b"shared-token", b"other"));
}

#[test]
fn rejects_different_length() {
    assert!(!Gitlab::verify_signature(b"shared-token", b"shared-token2"));
    assert!(!Gitlab::verify_signature(b"shared-token", b"shared-toke"));
    assert!(!Gitlab::verify_signature(b"shared-token", b""));
}
