use rcli::process::aead::{join_envelope, split_envelope};
use rcli::process::mac::fixed_time_eq;
use rcli::process::b64::{wire_decode, wire_encode};
use rcli::{
    process_text_decrypt, process_text_encrypt, process_text_generate, process_text_sign,
    process_text_verify, Blake3, ChaCha20Poly1305Decryptor, ChaCha20Poly1305Encryptor,
    Ed25519Signer, Ed25519Verifier, KeyGenerator, KeyLoader, TextDecryptor, TextEncryptFormat,
    TextEncryptor, TextError, TextSignFormat, TextSigner, TextVerifier,
};

fn hex(text: &str) -> Vec<u8> {
    (0..text.len() / 2)
        .map(|i| u8::from_str_radix(&text[2 * i..2 * i + 2], 16).unwrap())
        .collect()
}

const MAC_KEY: &[u8] = b"whats the Elvish word for friend";
const SEED: &str = "9d61b19deffd5a60ba844af492ec2cc44449c5697b326919703bac031cae7f60";
const PUBLIC: &str = "d75a980182b10ab7d54bfed3c964073a0ee172f3daa62325af021a68f707511a";
const SIGNATURE: &str = "e5564300c360ac729086e2cc806e828a84877f1eb8e5d974d873e06522490155\
                         5fb8821590a33bacc61e39701cf9b46bd25bf5f0595bbe24655141438e7a100b";

#[test]
fn test_process_text_sign_blake3() {
    let input = b"hello world!\n";
    let key = b"R8#bKq2^ZxT7&mWv_4Ny!pJc9@hLd5*s";
    let sign = process_text_sign(key, input, TextSignFormat::Blake3).unwrap();

    let val = process_text_verify(key, input, &sign, TextSignFormat::Blake3).unwrap();
    assert!(val);
}

#[test]
fn test_process_text_sign_ed25519() {
    let input = b"hello world!\n";
    let sk = hex(SEED);
    let sign = process_text_sign(&sk, input, TextSignFormat::Ed25519).unwrap();

    let pk = hex(PUBLIC);
    let val = process_text_verify(&pk, input, &sign, TextSignFormat::Ed25519).unwrap();
    assert!(val);
}

#[test]
fn fixed_time_eq_is_equality() {
    assert!(fixed_time_eq(b"", b""));
    assert!(fixed_time_eq(b"abc", b"abc"));
    assert!(!fixed_time_eq(b"abc", b"abd"));
    assert!(!fixed_time_eq(b"abc", b"bbc"));
    assert!(!fixed_time_eq(b"abc", b"ab"));
    assert!(!fixed_time_eq(b"ab", b"abc"));
    assert!(!fixed_time_eq(&[0x80], &[0x00]));
    assert!(!fixed_time_eq(&[0x01, 0x02], &[0x02, 0x01]));
}

#[test]
fn mac_tag_of_a_known_key_and_message() {
    let scheme = Blake3::load(MAC_KEY).unwrap();
    assert_eq!(
        scheme.sign(b""),
        Ok(hex("92b2b75604ed3c761f9d6f62392c8a9227ad0ea3f09573e783f1498a4ed60d26"))
    );
    assert_eq!(
        scheme.sign(&[0]),
        Ok(hex("6d7878dfff2f485635d39013278ae14f1454b8c0a3a2d34bc1ab38228a80c95b"))
    );
}

#[test]
fn mac_is_deterministic_and_has_32_bytes() {
    let scheme = Blake3::load(MAC_KEY).unwrap();
    let first = scheme.sign(b"hello").unwrap();
    let second = scheme.sign(b"hello").unwrap();
    assert_eq!(first, second);
    assert_eq!(first.len(), 32);
    assert_ne!(first, scheme.sign(b"hellp").unwrap());
    assert_ne!(&first[..], MAC_KEY);
}

#[test]
fn mac_round_trip_and_tamper() {
    let scheme = Blake3::load(MAC_KEY).unwrap();
    let tag = scheme.sign(b"hello").unwrap();
    assert_eq!(scheme.verify(b"hello", &tag), Ok(true));
    assert_eq!(scheme.verify(b"hellp", &tag), Ok(false));
    for i in 0..tag.len() {
        let mut other = tag.clone();
        other[i] ^= 1;
        assert_eq!(scheme.verify(b"hello", &other), Ok(false));
    }
    assert_eq!(scheme.verify(b"hello", &tag[..31]), Ok(false));
    assert_eq!(scheme.verify(b"hello", &[]), Ok(false));
}

#[test]
fn mac_key_is_the_first_32_bytes() {
    let mut long = MAC_KEY.to_vec();
    long.extend_from_slice(b"\n and more");
    let short = Blake3::load(MAC_KEY).unwrap();
    let longer = Blake3::load(&long).unwrap();
    assert_eq!(short.sign(b"m"), longer.sign(b"m"));
    assert!(matches!(
        Blake3::load(&MAC_KEY[..31]),
        Err(TextError::InvalidKeyLength)
    ));
    assert!(matches!(Blake3::load(b""), Err(TextError::InvalidKeyLength)));
    assert!(matches!(
        Blake3::try_from(&long[..]),
        Err(TextError::InvalidKeyLength)
    ));
    assert!(Blake3::try_from(MAC_KEY).is_ok());
}

#[test]
fn mac_scenario_with_generated_keys() {
    let key = process_text_generate(TextSignFormat::Blake3).unwrap();
    assert_eq!(key.len(), 1);
    assert_eq!(key[0].len(), 32);
    let sign = process_text_sign(&key[0], b"hello", TextSignFormat::Blake3).unwrap();
    assert_eq!(
        process_text_verify(&key[0], b"hello", &sign, TextSignFormat::Blake3),
        Ok(true)
    );
    let other = process_text_generate(TextSignFormat::Blake3).unwrap();
    assert_ne!(key, other);
    assert_eq!(
        process_text_verify(&other[0], b"hello", &sign, TextSignFormat::Blake3),
        Ok(false)
    );
}

#[test]
fn generated_mac_key_is_a_password_of_all_classes() {
    let key = Blake3::generate().unwrap();
    assert_eq!(key.len(), 1);
    let text = String::from_utf8(key[0].clone()).unwrap();
    assert_eq!(text.len(), 32);
    assert!(text.chars().any(|c| c.is_ascii_uppercase()));
    assert!(text.chars().any(|c| c.is_ascii_lowercase()));
    assert!(text.chars().any(|c| c.is_ascii_digit()));
    assert!(text.chars().any(|c| "!@#$%^&*_".contains(c)));
    assert!(text
        .chars()
        .all(|c| c.is_ascii_alphanumeric() || "!@#$%^&*_".contains(c)));
}

#[test]
fn signature_of_a_known_seed_and_message() {
    let signer = Ed25519Signer::load(&hex(SEED)).unwrap();
    assert_eq!(signer.sign(b""), Ok(hex(SIGNATURE)));
    assert_eq!(signer.verifying_key().to_vec(), hex(PUBLIC));

    let signer = Ed25519Signer::load(&hex(
        "4ccd089b28ff96da9db6c346ec114e0f5b8a319f35aba624da8cf6ed4fb8a6fb",
    ))
    .unwrap();
    assert_eq!(
        signer.verifying_key().to_vec(),
        hex("3d4017c3e843895a92b70aa74d1b7ebc9c982ccf2ec4968cc0cd55f12af4660c")
    );
    assert_eq!(
        signer.sign(&[0x72]),
        Ok(hex(
            "92a009a9f0d4cab8720e820b5f642540a2b27b5416503f8fb3762223ebdb69da\
             085ac1e43e15996e458f3613d0f11d8c387b2eaeb4302aeeb00d291612bb0c00"
        ))
    );
}

#[test]
fn signature_round_trip_and_tamper() {
    let signer = Ed25519Signer::load(&hex(SEED)).unwrap();
    let verifier = Ed25519Verifier::load(&hex(PUBLIC)).unwrap();
    let signature = signer.sign(b"hello").unwrap();
    assert_eq!(signature.len(), 64);
    assert_eq!(signer.sign(b"hello").unwrap(), signature);
    assert_eq!(verifier.verify(b"hello", &signature), Ok(true));
    assert_eq!(verifier.verify(b"hellp", &signature), Ok(false));
    for i in 0..signature.len() {
        let mut other = signature.clone();
        other[i] ^= 1;
        assert_eq!(verifier.verify(b"hello", &other), Ok(false));
    }
}

#[test]
fn signature_of_wrong_length_is_an_error() {
    let verifier = Ed25519Verifier::load(&hex(PUBLIC)).unwrap();
    let signature = hex(SIGNATURE);
    assert_eq!(
        verifier.verify(b"", &signature[..63]),
        Err(TextError::SignatureFormatError)
    );
    assert_eq!(
        verifier.verify(b"", &[]),
        Err(TextError::SignatureFormatError)
    );
    let mut long = signature.clone();
    long.push(0);
    assert_eq!(
        verifier.verify(b"", &long),
        Err(TextError::SignatureFormatError)
    );
    assert_eq!(verifier.verify(b"", &signature), Ok(true));
}

#[test]
fn signature_keys_must_have_exactly_32_bytes() {
    let seed = hex(SEED);
    let public = hex(PUBLIC);
    let mut long_seed = seed.clone();
    long_seed.push(b'\n');
    let mut long_public = public.clone();
    long_public.push(b'\n');
    assert!(matches!(
        Ed25519Signer::load(&seed[..31]),
        Err(TextError::InvalidKeyLength)
    ));
    assert!(matches!(
        Ed25519Signer::load(&long_seed),
        Err(TextError::InvalidKeyLength)
    ));
    assert!(matches!(
        Ed25519Verifier::load(&public[..31]),
        Err(TextError::InvalidKeyLength)
    ));
    assert!(matches!(
        Ed25519Verifier::load(&long_public),
        Err(TextError::InvalidKeyLength)
    ));
    assert!(matches!(
        Ed25519Verifier::try_from(&[][..]),
        Err(TextError::InvalidKeyLength)
    ));
}

#[test]
fn public_key_that_is_no_curve_point_is_refused() {
    // y = 2 has no matching x on the curve
    let mut bytes = [0u8; 32];
    bytes[0] = 2;
    assert!(matches!(
        Ed25519Verifier::load(&bytes),
        Err(TextError::KeyParseError)
    ));
    assert!(Ed25519Verifier::new(bytes).is_none());
    let public: [u8; 32] = hex(PUBLIC).try_into().unwrap();
    assert!(Ed25519Verifier::new(public).is_some());
    assert_eq!(
        process_text_verify(&bytes, b"", &wire_encode(&hex(SIGNATURE)), TextSignFormat::Ed25519),
        Err(TextError::KeyParseError)
    );
}

#[test]
fn generated_signature_keys_form_a_pair() {
    let keys = process_text_generate(TextSignFormat::Ed25519).unwrap();
    assert_eq!(keys.len(), 2);
    assert_eq!(keys[0].len(), 32);
    assert_eq!(keys[1].len(), 32);
    let signer = Ed25519Signer::load(&keys[0]).unwrap();
    assert_eq!(signer.verifying_key().to_vec(), keys[1]);
    let sign = process_text_sign(&keys[0], b"hello", TextSignFormat::Ed25519).unwrap();
    assert_eq!(
        process_text_verify(&keys[1], b"hello", &sign, TextSignFormat::Ed25519),
        Ok(true)
    );
    let other = Ed25519Signer::generate().unwrap();
    assert_ne!(keys, other);
    assert_eq!(
        process_text_verify(&other[1], b"hello", &sign, TextSignFormat::Ed25519),
        Ok(false)
    );
}

#[test]
fn signed_text_is_the_wire_text_of_the_signature() {
    let text = process_text_sign(&hex(SEED), b"", TextSignFormat::Ed25519).unwrap();
    assert_eq!(text, wire_encode(&hex(SIGNATURE)));
    assert_eq!(text.len(), 86);
    assert_eq!(wire_decode(text.as_bytes()), Ok(hex(SIGNATURE)));
    let text = process_text_sign(MAC_KEY, b"", TextSignFormat::Blake3).unwrap();
    assert_eq!(text.len(), 43);
    assert_eq!(
        wire_decode(text.as_bytes()),
        Ok(hex("92b2b75604ed3c761f9d6f62392c8a9227ad0ea3f09573e783f1498a4ed60d26"))
    );
}

#[test]
fn sign_and_verify_refuse_what_they_must() {
    assert_eq!(
        process_text_sign(&MAC_KEY[..31], b"m", TextSignFormat::Blake3),
        Err(TextError::InvalidKeyLength)
    );
    assert_eq!(
        process_text_sign(&hex(SEED)[..31], b"m", TextSignFormat::Ed25519),
        Err(TextError::InvalidKeyLength)
    );
    assert_eq!(
        process_text_sign(MAC_KEY, b"m", TextSignFormat::ChaCha20Poly1305),
        Err(TextError::UnsupportedOperation)
    );
    assert_eq!(
        process_text_sign(b"", b"m", TextSignFormat::ChaCha20Poly1305),
        Err(TextError::UnsupportedOperation)
    );
    let sign = process_text_sign(MAC_KEY, b"m", TextSignFormat::Blake3).unwrap();
    assert_eq!(
        process_text_verify(MAC_KEY, b"m", &sign, TextSignFormat::ChaCha20Poly1305),
        Err(TextError::UnsupportedOperation)
    );
    assert_eq!(
        process_text_verify(&MAC_KEY[..31], b"m", &sign, TextSignFormat::Blake3),
        Err(TextError::InvalidKeyLength)
    );
    assert_eq!(
        process_text_verify(&MAC_KEY[..31], b"m", &sign, TextSignFormat::Ed25519),
        Err(TextError::InvalidKeyLength)
    );
    // a MAC tag is too short to be a signature
    assert_eq!(
        process_text_verify(&hex(PUBLIC), b"m", &sign, TextSignFormat::Ed25519),
        Err(TextError::SignatureFormatError)
    );
    // the signature text is decoded before anything else
    for format in [
        TextSignFormat::Blake3,
        TextSignFormat::Ed25519,
        TextSignFormat::ChaCha20Poly1305,
    ] {
        assert_eq!(
            process_text_verify(b"", b"m", "not base64!", format),
            Err(TextError::EncodingError)
        );
        assert_eq!(
            process_text_verify(MAC_KEY, b"m", &format!("{}=", sign), format),
            Err(TextError::EncodingError)
        );
    }
}

#[test]
fn tampered_signature_text_does_not_verify() {
    let sign = process_text_sign(MAC_KEY, b"hello", TextSignFormat::Blake3).unwrap();
    let mut tag = wire_decode(sign.as_bytes()).unwrap();
    tag[7] ^= 0x40;
    assert_eq!(
        process_text_verify(MAC_KEY, b"hello", &wire_encode(&tag), TextSignFormat::Blake3),
        Ok(false)
    );
    let sign = process_text_sign(&hex(SEED), b"hello", TextSignFormat::Ed25519).unwrap();
    let mut signature = wire_decode(sign.as_bytes()).unwrap();
    signature[7] ^= 0x40;
    assert_eq!(
        process_text_verify(
            &hex(PUBLIC),
            b"hello",
            &wire_encode(&signature),
            TextSignFormat::Ed25519
        ),
        Ok(false)
    );
}

#[test]
fn envelope_is_nonce_then_ciphertext() {
    let nonce = [7u8; 12];
    assert_eq!(join_envelope(&nonce, b"abc"), {
        let mut v = nonce.to_vec();
        v.extend_from_slice(b"abc");
        v
    });
    assert_eq!(join_envelope(&nonce, b""), nonce.to_vec());
    let envelope: Vec<u8> = (0u8..20).collect();
    let (front, rest) = split_envelope(&envelope).unwrap();
    assert_eq!(front.to_vec(), (0u8..12).collect::<Vec<u8>>());
    assert_eq!(rest, &envelope[12..]);
    let (front, rest) = split_envelope(&envelope[..12]).unwrap();
    assert_eq!(front.to_vec(), envelope[..12].to_vec());
    assert!(rest.is_empty());
    assert!(split_envelope(&envelope[..11]).is_none());
    assert!(split_envelope(&[]).is_none());
}

#[test]
fn envelope_carries_a_fresh_nonce_and_the_sealed_plaintext() {
    let key = [0x42u8; 32];
    let encryptor = ChaCha20Poly1305Encryptor::load(&key).unwrap();
    let decryptor = ChaCha20Poly1305Decryptor::load(&key).unwrap();
    let envelope = encryptor.encrypt(b"secret message").unwrap();
    assert_eq!(envelope.len(), 12 + 14 + 16);
    assert_ne!(&envelope[12..26], b"secret message");
    assert_eq!(
        decryptor.open_envelope(&envelope),
        Ok(b"secret message".to_vec())
    );
    let other = encryptor.encrypt(b"secret message").unwrap();
    assert_ne!(other[..12], envelope[..12]);
    assert_ne!(other[12..], envelope[12..]);
    assert_eq!(
        decryptor.open_envelope(&other),
        Ok(b"secret message".to_vec())
    );
    // the nonce of one envelope does not open the ciphertext of the other
    let (nonce, _) = split_envelope(&envelope).unwrap();
    let (_, ciphertext) = split_envelope(&other).unwrap();
    assert_eq!(
        decryptor.open_envelope(&join_envelope(&nonce, ciphertext)),
        Err(TextError::DecryptError)
    );
    let empty = encryptor.encrypt(b"").unwrap();
    assert_eq!(empty.len(), 28);
    assert_eq!(decryptor.open_envelope(&empty), Ok(vec![]));
}

#[test]
fn encryption_round_trip_and_fresh_nonces() {
    let key = process_text_generate(TextSignFormat::ChaCha20Poly1305).unwrap();
    assert_eq!(key.len(), 1);
    assert_eq!(key[0].len(), 32);
    let format = TextEncryptFormat::ChaCha20Poly1305;
    let first = process_text_encrypt(&key[0], b"secret message", format).unwrap();
    let second = process_text_encrypt(&key[0], b"secret message", format).unwrap();
    assert_ne!(first, second);
    assert_eq!(
        process_text_decrypt(&key[0], first.as_bytes(), format),
        Ok(b"secret message".to_vec())
    );
    assert_eq!(
        process_text_decrypt(&key[0], second.as_bytes(), format),
        Ok(b"secret message".to_vec())
    );
    assert_eq!(first.len(), (4 * (12 + 14 + 16) + 2) / 3);
    let other = ChaCha20Poly1305Encryptor::generate().unwrap();
    assert_ne!(key, other);
    assert_eq!(
        process_text_decrypt(&other[0], first.as_bytes(), format),
        Err(TextError::DecryptError)
    );
}

#[test]
fn encryptor_and_decryptor_round_trip() {
    let key = [9u8; 32];
    let encryptor = ChaCha20Poly1305Encryptor::load(&key).unwrap();
    let decryptor = ChaCha20Poly1305Decryptor::load(&key).unwrap();
    for n in [0usize, 1, 63, 64, 65, 1000] {
        let plaintext = vec![0xa5u8; n];
        let envelope = encryptor.encrypt(&plaintext).unwrap();
        assert_eq!(envelope.len(), n + 28);
        let text = wire_encode(&envelope);
        assert_eq!(decryptor.decrypt(text.as_bytes()), Ok(plaintext));
    }
}

#[test]
fn tampered_envelope_does_not_decrypt() {
    let key = [9u8; 32];
    let encryptor = ChaCha20Poly1305Encryptor::load(&key).unwrap();
    let decryptor = ChaCha20Poly1305Decryptor::load(&key).unwrap();
    let envelope = encryptor.encrypt(b"secret message").unwrap();
    for i in 0..envelope.len() {
        let mut other = envelope.clone();
        other[i] ^= 1;
        assert_eq!(
            decryptor.open_envelope(&other),
            Err(TextError::DecryptError)
        );
        assert_eq!(
            decryptor.decrypt(wire_encode(&other).as_bytes()),
            Err(TextError::DecryptError)
        );
    }
}

#[test]
fn malformed_envelopes_are_refused() {
    let key = [9u8; 32];
    let decryptor = ChaCha20Poly1305Decryptor::load(&key).unwrap();
    let format = TextEncryptFormat::ChaCha20Poly1305;
    // shorter than a nonce, and shorter than nonce and tag
    assert_eq!(decryptor.open_envelope(&[]), Err(TextError::DecryptError));
    assert_eq!(
        decryptor.open_envelope(&[0u8; 11]),
        Err(TextError::DecryptError)
    );
    assert_eq!(
        decryptor.open_envelope(&[0u8; 12]),
        Err(TextError::DecryptError)
    );
    assert_eq!(
        decryptor.open_envelope(&[0u8; 27]),
        Err(TextError::DecryptError)
    );
    assert_eq!(
        process_text_decrypt(&key, b"", format),
        Err(TextError::DecryptError)
    );
    // not transport text
    assert_eq!(
        process_text_decrypt(&key, b"no base64!", format),
        Err(TextError::EncodingError)
    );
    assert_eq!(
        decryptor.decrypt(b"AAAA\n"),
        Err(TextError::EncodingError)
    );
}

#[test]
fn encryption_keys_are_the_first_32_bytes() {
    let format = TextEncryptFormat::ChaCha20Poly1305;
    let key = [3u8; 40];
    let text = process_text_encrypt(&key, b"m", format).unwrap();
    assert_eq!(
        process_text_decrypt(&key[..32], text.as_bytes(), format),
        Ok(b"m".to_vec())
    );
    assert_eq!(
        process_text_encrypt(&key[..31], b"m", format),
        Err(TextError::InvalidKeyLength)
    );
    assert_eq!(
        process_text_decrypt(&key[..31], text.as_bytes(), format),
        Err(TextError::InvalidKeyLength)
    );
    assert_eq!(
        process_text_decrypt(b"", b"not even text!", format),
        Err(TextError::InvalidKeyLength)
    );
    assert!(matches!(
        ChaCha20Poly1305Encryptor::try_from(&key[..]),
        Err(TextError::InvalidKeyLength)
    ));
    assert!(matches!(
        ChaCha20Poly1305Decryptor::try_from(&key[..]),
        Err(TextError::InvalidKeyLength)
    ));
    assert!(ChaCha20Poly1305Encryptor::try_from(&key[..32]).is_ok());
    assert!(ChaCha20Poly1305Decryptor::try_from(&key[..32]).is_ok());
}
