use rcli::jwt::{process_jwt_sign, process_jwt_verify, JwtSigner, JwtVerifier};

#[test]
fn jwt_sign_then_verify_round_trips() {
    let token = process_jwt_sign(b"secret-key", "user-1".to_string(), "device-9".to_string(), 60)
        .unwrap();
    assert_eq!(token.split('.').count(), 3);
    assert!(process_jwt_verify(b"secret-key", &token));
}

#[test]
fn jwt_verify_rejects_a_different_key() {
    let token =
        process_jwt_sign(b"secret-key", "sub".to_string(), "aud".to_string(), 3600).unwrap();
    assert!(!process_jwt_verify(b"another-key", &token));
}

#[test]
fn jwt_verify_rejects_a_tampered_token() {
    let token = process_jwt_sign(b"secret-key", "sub".to_string(), "aud".to_string(), 60).unwrap();
    let mut tampered = token.clone();
    tampered.push('A');
    assert!(!process_jwt_verify(b"secret-key", &tampered));
    assert!(!process_jwt_verify(b"secret-key", "not.a.jwt"));
}

#[test]
fn jwt_halves_are_stateless() {
    let _signer = JwtSigner {};
    let _verifier = JwtVerifier {};
    let a = process_jwt_sign(b"k", "s".to_string(), "a".to_string(), 0).unwrap();
    assert!(process_jwt_verify(b"k", &a));
}
