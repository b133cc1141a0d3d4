use rcli::b64::{process_decode, process_encode, Base64Format};
use rcli::errors::TextError;
use rcli::text::blake3::Blake3;
use rcli::text::chacha20_poly1305::{Chacha20Poly1305Decryptor, Chacha20Poly1305Encryptor};
use rcli::text::ed25519::{Ed25519Signer, Ed25519Verifier};
use rcli::text::{
    process_decrypt_text, process_encrypt_text, process_text_gen_key, process_text_sign,
    process_text_verify, TextSignFormat,
};

const BLAKE3_KEY: &[u8] = b"@upMihMX^VfVVzYBs$BgQT*MqUMLj9up";

#[test]
fn text_test_blake3_sign_verify() {
    let blake3 = Blake3::try_new(BLAKE3_KEY).unwrap();

    let data = b"hello world";
    let signed_res = blake3.sign(&data[..]);
    assert!(blake3.verify(&data[..], &signed_res));
}

#[test]
fn text_test_ed25519_sign_verify() {
    let data = b"hello world";
    let pair = Ed25519Signer::generate();

    let signer = Ed25519Signer::try_new(&pair[0]).unwrap();
    let verifier = Ed25519Verifier::try_new(&pair[1]).unwrap();
    let signed_res = signer.sign(&data[..]);
    assert!(verifier.verify(&data[..], &signed_res).unwrap());
}

#[test]
fn mod_test_blake3_sign_verify() {
    let blake3 = Blake3::try_new(BLAKE3_KEY).unwrap();

    let data = b"hello world";
    let signed_res = blake3.sign(&data[..]);
    assert!(blake3.verify(&data[..], &signed_res));
}

#[test]
fn mod_test_ed25519_sign_verify() {
    let data = b"hello world";
    let pair = Ed25519Signer::generate();

    let signer = Ed25519Signer::try_new(&pair[0]).unwrap();
    let verifier = Ed25519Verifier::try_new(&pair[1]).unwrap();
    let signed_res = signer.sign(&data[..]);
    assert!(verifier.verify(&data[..], &signed_res).unwrap());
}

#[test]
fn test_encrypt_decrypt() {
    let key = b"noncenoncenoncenoncenoncenonce11";
    let res = process_encrypt_text(key, b"1").unwrap();
    println!("{}", res);
    let res = process_decrypt_text(key, res.as_bytes()).unwrap();
    println!("{}", String::from_utf8(res.clone()).unwrap());
    assert_eq!(res, b"1");
}

#[test]
fn test_encrypt_decrypt_without_key() {
    let key = b"-";
    let res = process_encrypt_text(key, b"1").unwrap();
    println!("{}", res);
    let res = process_decrypt_text(key, res.as_bytes()).unwrap();
    println!("{}", String::from_utf8(res.clone()).unwrap());
    assert_eq!(res, b"1");
}

#[test]
fn blake3_hello_world_scenario() {
    let blake3 = Blake3::try_new(BLAKE3_KEY).unwrap();
    let sig = blake3.sign(b"hello world");
    assert_eq!(sig.len(), 32);
    assert!(blake3.verify(b"hello world", &sig));
    assert!(!blake3.verify(b"hello worle", &sig));
}

#[test]
fn blake3_verify_rejects_flipped_bits() {
    let blake3 = Blake3::try_new(BLAKE3_KEY).unwrap();
    let sig = blake3.sign(b"hello world");
    for pos in [0usize, 5, 16, 31] {
        for bit in [0u8, 3, 7] {
            let mut bad = sig.clone();
            bad[pos] ^= 1 << bit;
            assert!(!blake3.verify(b"hello world", &bad));
        }
    }
}

#[test]
fn ed25519_verify_rejects_flipped_bits() {
    let pair = Ed25519Signer::generate();
    let signer = Ed25519Signer::try_new(&pair[0]).unwrap();
    let verifier = Ed25519Verifier::try_new(&pair[1]).unwrap();
    let sig = signer.sign(b"hello world");
    assert_eq!(sig.len(), 64);
    for pos in [0usize, 31, 63] {
        for bit in [0u8, 4] {
            let mut bad = sig.clone();
            bad[pos] ^= 1 << bit;
            // A flipped signature is a `false` outcome, not an error.
            assert_eq!(verifier.verify(b"hello world", &bad).unwrap(), false);
        }
    }
}

#[test]
fn ed25519_short_signature_is_invalid_signature() {
    let pair = Ed25519Signer::generate();
    let verifier = Ed25519Verifier::try_new(&pair[1]).unwrap();
    let sig = vec![0u8; 63];
    assert_eq!(
        verifier.verify(b"hello world", &sig),
        Err(TextError::InvalidSignature)
    );
}

#[test]
fn key_length_boundary_is_32_for_all_algorithms() {
    let short = vec![7u8; 31];
    let exact = vec![7u8; 32];
    assert!(matches!(Blake3::try_new(&short), Err(TextError::InvalidKey)));
    assert!(Blake3::try_new(&exact).is_ok());
    assert!(matches!(
        Ed25519Signer::try_new(&short),
        Err(TextError::InvalidKey)
    ));
    assert!(Ed25519Signer::try_new(&exact).is_ok());
    assert!(matches!(
        Ed25519Verifier::try_new(&short),
        Err(TextError::InvalidKey)
    ));
    // At 32 bytes the verifier may still reject the point encoding, but
    // never with the short-key error.
    assert!(!matches!(
        Ed25519Verifier::try_new(&exact),
        Err(TextError::InvalidKey)
    ));
    assert!(matches!(
        Chacha20Poly1305Encryptor::try_new(&short),
        Err(TextError::InvalidKey)
    ));
    assert!(Chacha20Poly1305Encryptor::try_new(&exact).is_ok());
    assert!(matches!(
        Chacha20Poly1305Decryptor::try_new(&short),
        Err(TextError::InvalidKey)
    ));
    assert!(Chacha20Poly1305Decryptor::try_new(&exact).is_ok());
    assert_eq!(
        process_encrypt_text(&short, b"x"),
        Err(TextError::InvalidKey)
    );
}

#[test]
fn ed25519_invalid_point_is_invalid_public_key() {
    // Roughly half of all 32-byte strings decode to no curve point; scan
    // the constant-byte ones and check every rejection carries the
    // point-encoding error, not the short-key error.
    let mut found = false;
    for b in 0..=255u8 {
        let candidate = vec![b; 32];
        match Ed25519Verifier::try_new(&candidate) {
            Ok(_) => {}
            Err(e) => {
                assert_eq!(e, TextError::InvalidPublicKey);
                found = true;
            }
        }
    }
    assert!(found);
}

#[test]
fn longer_keys_are_truncated_to_their_prefix() {
    let mut long_key = BLAKE3_KEY.to_vec();
    long_key.extend_from_slice(b"extra-bytes");
    let a = Blake3::try_new(BLAKE3_KEY).unwrap();
    let b = Blake3::try_new(&long_key).unwrap();
    assert_eq!(a.sign(b"msg"), b.sign(b"msg"));
}

#[test]
fn encrypt_decrypt_round_trips_longer_messages() {
    let key = b"noncenoncenoncenoncenoncenonce11";
    let msg = b"a longer message with some structure 1234567890";
    let sealed = process_encrypt_text(key, msg).unwrap();
    assert_eq!(process_decrypt_text(key, sealed.as_bytes()).unwrap(), msg);

    let sealed = process_encrypt_text(b"-", msg).unwrap();
    assert_eq!(process_decrypt_text(b"-", sealed.as_bytes()).unwrap(), msg);
}

#[test]
fn two_encryptions_differ_by_nonce() {
    let key = b"noncenoncenoncenoncenoncenonce11";
    let a = process_encrypt_text(key, b"same message").unwrap();
    let b = process_encrypt_text(key, b"same message").unwrap();
    assert_ne!(a, b);
}

#[test]
fn tampering_any_byte_fails_decryption() {
    let key = b"noncenoncenoncenoncenoncenonce11";
    let sealed = process_encrypt_text(key, b"hello").unwrap();
    let record = process_decode(sealed.as_bytes(), Base64Format::Urlsafe, true).unwrap();
    for i in 0..record.len() {
        let mut bad = record.clone();
        bad[i] ^= 0x01;
        let bad_text = process_encode(&bad, Base64Format::Urlsafe, true);
        assert_eq!(
            process_decrypt_text(key, bad_text.as_bytes()),
            Err(TextError::DecryptionFailed)
        );
    }
}

#[test]
fn random_key_mode_detects_tampering_too() {
    let sealed = process_encrypt_text(b"-", b"hello").unwrap();
    let record = process_decode(sealed.as_bytes(), Base64Format::Urlsafe, true).unwrap();
    // Altering the embedded key makes authentication fail as well.
    for i in [0usize, 31, 32, 43, 44] {
        let mut bad = record.clone();
        bad[i] ^= 0x80;
        let bad_text = process_encode(&bad, Base64Format::Urlsafe, true);
        assert_eq!(
            process_decrypt_text(b"-", bad_text.as_bytes()),
            Err(TextError::DecryptionFailed)
        );
    }
}

#[test]
fn decrypt_rejects_text_that_is_not_base64() {
    let key = b"noncenoncenoncenoncenoncenonce11";
    assert_eq!(
        process_decrypt_text(key, b"!not-base64!"),
        Err(TextError::InvalidEncoding)
    );
}

#[test]
fn explicit_mode_record_boundary_is_twelve_bytes() {
    let key = b"noncenoncenoncenoncenoncenonce11";
    let twelve = process_encode(&[0u8; 12], Base64Format::Urlsafe, true);
    assert_eq!(
        process_decrypt_text(key, twelve.as_bytes()),
        Err(TextError::InvalidRecord)
    );
    // Thirteen bytes pass the structural check and fail only on
    // authentication.
    let thirteen = process_encode(&[0u8; 13], Base64Format::Urlsafe, true);
    assert_eq!(
        process_decrypt_text(key, thirteen.as_bytes()),
        Err(TextError::DecryptionFailed)
    );
}

#[test]
fn random_key_mode_record_boundary_is_forty_four_bytes() {
    let forty_four = process_encode(&[0u8; 44], Base64Format::Urlsafe, true);
    assert_eq!(
        process_decrypt_text(b"-", forty_four.as_bytes()),
        Err(TextError::InvalidRecord)
    );
    let forty_five = process_encode(&[0u8; 45], Base64Format::Urlsafe, true);
    assert_eq!(
        process_decrypt_text(b"-", forty_five.as_bytes()),
        Err(TextError::DecryptionFailed)
    );
}

#[test]
fn decrypt_with_short_explicit_key_is_invalid_key() {
    let sealed = process_encrypt_text(b"noncenoncenoncenoncenoncenonce11", b"1").unwrap();
    assert_eq!(
        process_decrypt_text(b"short", sealed.as_bytes()),
        Err(TextError::InvalidKey)
    );
}

#[test]
fn dispatcher_signs_and_verifies_both_formats() {
    let sig = process_text_sign(b"hello world", BLAKE3_KEY, TextSignFormat::Blake3).unwrap();
    assert_eq!(sig.len(), 32);
    assert!(
        process_text_verify(b"hello world", BLAKE3_KEY, TextSignFormat::Blake3, &sig).unwrap()
    );
    assert!(
        !process_text_verify(b"hello worle", BLAKE3_KEY, TextSignFormat::Blake3, &sig).unwrap()
    );

    let pair = process_text_gen_key(TextSignFormat::Ed25519);
    assert_eq!(pair.len(), 2);
    let sig = process_text_sign(b"hello world", &pair[0], TextSignFormat::Ed25519).unwrap();
    assert_eq!(sig.len(), 64);
    assert!(
        process_text_verify(b"hello world", &pair[1], TextSignFormat::Ed25519, &sig).unwrap()
    );
}

#[test]
fn dispatcher_rejects_short_keys() {
    let short = [1u8; 31];
    assert_eq!(
        process_text_sign(b"m", &short, TextSignFormat::Blake3),
        Err(TextError::InvalidKey)
    );
    assert_eq!(
        process_text_sign(b"m", &short, TextSignFormat::Ed25519),
        Err(TextError::InvalidKey)
    );
    assert_eq!(
        process_text_verify(b"m", &short, TextSignFormat::Blake3, &[0u8; 32]),
        Err(TextError::InvalidKey)
    );
}

#[test]
fn gen_key_blake3_yields_one_full_strength_secret() {
    let keys = process_text_gen_key(TextSignFormat::Blake3);
    assert_eq!(keys.len(), 1);
    assert_eq!(keys[0].len(), 32);
    let blake3 = Blake3::try_new(&keys[0]).unwrap();
    let sig = blake3.sign(b"round trip");
    assert!(blake3.verify(b"round trip", &sig));
}

#[test]
fn gen_key_ed25519_yields_private_then_public() {
    let keys = process_text_gen_key(TextSignFormat::Ed25519);
    assert_eq!(keys.len(), 2);
    assert_eq!(keys[0].len(), 32);
    assert_eq!(keys[1].len(), 32);
    // Element 0 must be the private seed, element 1 the matching public
    // key: signing with 0 verifies under 1.
    let signer = Ed25519Signer::try_new(&keys[0]).unwrap();
    let verifier = Ed25519Verifier::try_new(&keys[1]).unwrap();
    let sig = signer.sign(b"ordering");
    assert!(verifier.verify(b"ordering", &sig).unwrap());
}
