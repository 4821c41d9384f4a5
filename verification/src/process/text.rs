//! Signing, verifying, encrypting and decrypting byte strings under one of
//! several interchangeable schemes: the capabilities a scheme may have, and
//! the dispatch from a format tag to the scheme behind it.
use crate::cli::text::{key_file_names, TextEncryptFormat, TextSignFormat};
use crate::error::TextError;
use crate::process::aead::{
    aead_key_from, can_seal, decrypted_text, is_envelope_of, opened_envelope,
    ChaCha20Poly1305Decryptor, ChaCha20Poly1305Encryptor, NONCE_LEN, TAG_LEN,
};
use crate::process::b64::{
    is_wire_text, wire_bytes, wire_decode, wire_encode, wire_len, wire_text,
};
use crate::process::mac::{mac_accepts, mac_key_from, mac_tag, Blake3};
use crate::process::signature::{
    ed25519_public_key, ed25519_signature, is_signed_by, signature_verdict, signing_key_from,
    verifying_key_from, Ed25519Signer, Ed25519Verifier,
};
use vstd::prelude::*;
use vstd::utf8::encode_utf8;

verus! {

/// Whether an executable result holds the bytes, or the error, of its model.
pub open spec fn same_outcome(got: Result<Vec<u8>, TextError>, model: Result<Seq<u8>, TextError>) -> bool {
    match got {
        Ok(bytes) => model == Ok::<Seq<u8>, TextError>(bytes@),
        Err(e) => model == Err::<Seq<u8>, TextError>(e),
    }
}

/// A scheme that can sign a message.
pub trait TextSigner {
    /// The signature that the signer's key gives `message`.
    spec fn signature(&self, message: Seq<u8>) -> Seq<u8>;

    /// Signs the whole message and returns the signature.
    fn sign(&self, message: &[u8]) -> (signature: Result<Vec<u8>, TextError>)
        ensures
            signature matches Ok(bytes) && bytes@ == self.signature(message@),
    ;
}

/// A scheme that can check a signature against a message.
pub trait TextVerifier {
    /// Whether the verifier's key accepts `signature` for `message`, or the
    /// error with which a malformed signature is refused.
    spec fn verdict(&self, message: Seq<u8>, signature: Seq<u8>) -> Result<bool, TextError>;

    /// Checks the signature against the whole message.
    fn verify(&self, message: &[u8], sign: &[u8]) -> (valid: Result<bool, TextError>)
        ensures
            valid == self.verdict(message@, sign@),
    ;
}

/// A scheme that can encrypt a message.
pub trait TextEncryptor {
    /// Whether the scheme takes the plaintext at all.
    spec fn encryptable(&self, plaintext: Seq<u8>) -> bool;

    /// Whether `envelope` is an encryption of `plaintext` under the
    /// encryptor's key, which the decryptor with that key opens again.
    spec fn seals(&self, plaintext: Seq<u8>, envelope: Seq<u8>) -> bool;

    /// Encrypts the whole message into a fresh envelope.
    fn encrypt(&self, plaintext: &[u8]) -> (envelope: Result<Vec<u8>, TextError>)
        ensures
            match envelope {
                Ok(bytes) => self.encryptable(plaintext@) && self.seals(plaintext@, bytes@),
                Err(e) => !self.encryptable(plaintext@) && e == TextError::EncryptError,
            },
    ;
}

/// A scheme that can decrypt an envelope that arrives as transport text.
pub trait TextDecryptor {
    /// The plaintext of the envelope whose transport text has the given
    /// bytes, or the error with which it is refused.
    spec fn plaintext(&self, text: Seq<u8>) -> Result<Seq<u8>, TextError>;

    /// Decodes the text and decrypts the envelope in it.
    fn decrypt(&self, text: &[u8]) -> (plaintext: Result<Vec<u8>, TextError>)
        ensures
            same_outcome(plaintext, self.plaintext(text@)),
    ;
}

/// A scheme that reads its key from raw key material.
pub trait KeyLoader: Sized {
    /// The key that is read from `material`, or the error with which the
    /// material is refused.
    spec fn key_from(material: Seq<u8>) -> Result<Seq<u8>, TextError>;

    /// The bytes of the key held.
    spec fn key(&self) -> Seq<u8>;

    /// Reads the key from the full contents of a key resource.
    fn load(material: &[u8]) -> (loaded: Result<Self, TextError>)
        ensures
            match loaded {
                Ok(scheme) => Self::key_from(material@) == Ok::<Seq<u8>, TextError>(scheme.key()),
                Err(e) => Self::key_from(material@) == Err::<Seq<u8>, TextError>(e),
            },
    ;
}

/// A scheme that can make fresh key material.
pub trait KeyGenerator {
    /// Whether the blobs, in their order, are key material of the scheme.
    spec fn is_key_set(keys: Seq<Seq<u8>>) -> bool;

    /// Draws fresh key material, as an ordered list of blobs.
    fn generate() -> (keys: Result<Vec<Vec<u8>>, TextError>)
        ensures
            keys matches Ok(blobs) && Self::is_key_set(blobs.deep_view()),
    ;
}

/// The signature that `format` gives `input` under the key read from
/// `key`. The encryption scheme does not sign.
pub open spec fn signature_bytes(key: Seq<u8>, input: Seq<u8>, format: TextSignFormat) -> Result<
    Seq<u8>,
    TextError,
> {
    match format {
        TextSignFormat::Blake3 => match mac_key_from(key) {
            Ok(k) => Ok(mac_tag(k, input)),
            Err(e) => Err(e),
        },
        TextSignFormat::Ed25519 => match signing_key_from(key) {
            Ok(k) => Ok(ed25519_signature(k, input)),
            Err(e) => Err(e),
        },
        TextSignFormat::ChaCha20Poly1305 => Err(TextError::UnsupportedOperation),
    }
}

/// The key material that verifies what the key material `key` signs: the
/// same for the MAC, the public key of the seed for the signature scheme.
pub open spec fn verifying_material(key: Seq<u8>, format: TextSignFormat) -> Seq<u8> {
    match format {
        TextSignFormat::Ed25519 => ed25519_public_key(key),
        _ => key,
    }
}

/// What checking the signature with the transport text `sign` against
/// `input` yields under the key read from `key`: the text is decoded
/// first, then the scheme chosen and its key read. The encryption scheme
/// does not verify.
pub open spec fn verdict_of(key: Seq<u8>, input: Seq<u8>, sign: Seq<char>, format: TextSignFormat) -> Result<
    bool,
    TextError,
> {
    match wire_bytes(encode_utf8(sign)) {
        None => Err(TextError::EncodingError),
        Some(signature) => match format {
            TextSignFormat::Blake3 => match mac_key_from(key) {
                Ok(k) => Ok(mac_accepts(k, input, signature)),
                Err(e) => Err(e),
            },
            TextSignFormat::Ed25519 => match verifying_key_from(key) {
                Ok(k) => signature_verdict(k, input, signature),
                Err(e) => Err(e),
            },
            TextSignFormat::ChaCha20Poly1305 => Err(TextError::UnsupportedOperation),
        },
    }
}

/// Signs `input` with the key read from the key material `key`, under the
/// scheme that `format` names, and returns the signature as transport
/// text. What is returned verifies against `input` under the matching
/// verification key.
pub fn process_text_sign(key: &[u8], input: &[u8], format: TextSignFormat) -> (signed: Result<
    String,
    TextError,
>)
    ensures
        match signed {
            Ok(text) => {
                &&& signature_bytes(key@, input@, format) matches Ok(signature)
                &&& text@ == wire_text(signature)
                &&& is_wire_text(text@)
                &&& wire_bytes(encode_utf8(text@)) == Some(signature)
                &&& verdict_of(verifying_material(key@, format), input@, text@, format) == Ok::<
                    bool,
                    TextError,
                >(true)
            },
            Err(e) => signature_bytes(key@, input@, format) == Err::<Seq<u8>, TextError>(e),
        },
{
    let signature = match format {
        TextSignFormat::Blake3 => {
            let signer = match Blake3::load(key) {
                Ok(signer) => signer,
                Err(e) => return Err(e),
            };
            match signer.sign(input) {
                Ok(signature) => signature,
                Err(e) => return Err(e),
            }
        },
        TextSignFormat::Ed25519 => {
            let signer = match Ed25519Signer::load(key) {
                Ok(signer) => signer,
                Err(e) => return Err(e),
            };
            match signer.sign(input) {
                Ok(signature) => signature,
                Err(e) => return Err(e),
            }
        },
        TextSignFormat::ChaCha20Poly1305 => return Err(TextError::UnsupportedOperation),
    };
    Ok(wire_encode(signature.as_slice()))
}

/// Checks the signature with the transport text `sign` against `input`,
/// with the key read from the key material `key`, under the scheme that
/// `format` names.
pub fn process_text_verify(key: &[u8], input: &[u8], sign: &str, format: TextSignFormat) -> (valid:
    Result<bool, TextError>)
    ensures
        valid == verdict_of(key@, input@, sign@, format),
{
    let signature = match wire_decode(sign.as_bytes()) {
        Ok(signature) => signature,
        Err(e) => return Err(e),
    };
    match format {
        TextSignFormat::Blake3 => {
            match Blake3::load(key) {
                Ok(verifier) => verifier.verify(input, signature.as_slice()),
                Err(e) => Err(e),
            }
        },
        TextSignFormat::Ed25519 => {
            match Ed25519Verifier::load(key) {
                Ok(verifier) => verifier.verify(input, signature.as_slice()),
                Err(e) => Err(e),
            }
        },
        TextSignFormat::ChaCha20Poly1305 => Err(TextError::UnsupportedOperation),
    }
}

/// Whether the blobs are fresh key material for `format`: one secret for
/// the MAC, the seed and then its public key for the signature scheme, one
/// key for the encryption scheme.
pub open spec fn is_key_set_for(keys: Seq<Seq<u8>>, format: TextSignFormat) -> bool {
    match format {
        TextSignFormat::Blake3 => Blake3::is_key_set(keys),
        TextSignFormat::Ed25519 => Ed25519Signer::is_key_set(keys),
        TextSignFormat::ChaCha20Poly1305 => ChaCha20Poly1305Encryptor::is_key_set(keys),
    }
}

/// Fresh key material has one blob for each key file of its format.
pub proof fn lemma_key_set_fills_key_files(keys: Seq<Seq<u8>>, format: TextSignFormat)
    requires
        is_key_set_for(keys, format),
    ensures
        keys.len() == key_file_names(format).len(),
{
}

/// Draws fresh key material for the scheme that `format` names.
pub fn process_text_generate(format: TextSignFormat) -> (keys: Result<Vec<Vec<u8>>, TextError>)
    ensures
        keys matches Ok(blobs) && is_key_set_for(blobs.deep_view(), format),
{
    match format {
        TextSignFormat::Blake3 => Blake3::generate(),
        TextSignFormat::Ed25519 => Ed25519Signer::generate(),
        TextSignFormat::ChaCha20Poly1305 => ChaCha20Poly1305Encryptor::generate(),
    }
}

/// Whether the envelope of a plaintext of `n` bytes can travel as text:
/// the text must be allocatable.
pub open spec fn fits_text(n: nat) -> bool {
    wire_len(NONCE_LEN as nat + n + TAG_LEN as nat) <= isize::MAX
}

/// The error with which encrypting `n` bytes under the key material `key`
/// fails, if it fails: the key's error, or `EncryptError` for a plaintext
/// that the cipher does not take or whose envelope is too long for text.
pub open spec fn encrypt_error(key: Seq<u8>, n: nat) -> Option<TextError> {
    match aead_key_from(key) {
        Err(e) => Some(e),
        Ok(_) => if can_seal(n) && fits_text(n) {
            None
        } else {
            Some(TextError::EncryptError)
        },
    }
}

/// The longest plaintext whose envelope can travel as text.
pub fn max_text_plaintext() -> (limit: usize)
    ensures
        forall|n: nat| fits_text(n) <==> n <= limit,
{
    let max = isize::MAX as usize;
    let limit = max / 4 * 3 + (max % 4) * 3 / 4 - (NONCE_LEN + TAG_LEN);
    assert forall|n: nat| fits_text(n) <==> n <= limit by {
        let m = NONCE_LEN as nat + n + TAG_LEN as nat;
        assert(wire_len(m) == (4 * m + 2) / 3);
    }
    limit
}

/// Whether `text` is the transport text of an encryption of `plaintext`
/// under the key read from the key material `key`.
pub open spec fn is_encrypted_text(key: Seq<u8>, plaintext: Seq<u8>, text: Seq<char>) -> bool {
    &&& aead_key_from(key) matches Ok(k)
    &&& wire_bytes(encode_utf8(text)) matches Some(envelope)
    &&& text == wire_text(envelope)
    &&& is_wire_text(text)
    &&& is_envelope_of(k, plaintext, envelope)
}

/// Encrypts `input` with the key read from the key material `key`, under
/// a nonce drawn for this call, and returns the envelope as transport
/// text.
pub fn process_text_encrypt(key: &[u8], input: &[u8], format: TextEncryptFormat) -> (encrypted:
    Result<String, TextError>)
    ensures
        match encrypted {
            Ok(text) => encrypt_error(key@, input@.len()) is None && is_encrypted_text(
                key@,
                input@,
                text@,
            ),
            Err(e) => encrypt_error(key@, input@.len()) == Some(e),
        },
{
    let envelope = match format {
        TextEncryptFormat::ChaCha20Poly1305 => {
            let encryptor = match ChaCha20Poly1305Encryptor::load(key) {
                Ok(encryptor) => encryptor,
                Err(e) => return Err(e),
            };
            if input.len() > max_text_plaintext() {
                return Err(TextError::EncryptError);
            }
            match encryptor.encrypt(input) {
                Ok(envelope) => envelope,
                Err(e) => return Err(e),
            }
        },
    };
    Ok(wire_encode(envelope.as_slice()))
}

/// The plaintext of the envelope whose transport text has the bytes
/// `input`, under the key read from the key material `key`.
pub open spec fn decrypted(key: Seq<u8>, input: Seq<u8>) -> Result<Seq<u8>, TextError> {
    match aead_key_from(key) {
        Ok(k) => decrypted_text(k, input),
        Err(e) => Err(e),
    }
}

/// Decrypts the envelope whose transport text has the bytes `input`, with
/// the key read from the key material `key`.
pub fn process_text_decrypt(key: &[u8], input: &[u8], format: TextEncryptFormat) -> (plaintext:
    Result<Vec<u8>, TextError>)
    ensures
        same_outcome(plaintext, decrypted(key@, input@)),
{
    match format {
        TextEncryptFormat::ChaCha20Poly1305 => {
            match ChaCha20Poly1305Decryptor::load(key) {
                Ok(decryptor) => decryptor.decrypt(input),
                Err(e) => Err(e),
            }
        },
    }
}

/// Sign, then verify, with one MAC key: the tag that the key gives a
/// message is accepted for that message, whatever the key and the message.
pub proof fn lemma_mac_round_trip(scheme: Blake3, message: Seq<u8>)
    ensures
        scheme.verdict(message, scheme.signature(message)) == Ok::<bool, TextError>(true),
        mac_accepts(scheme.key_bytes(), message, mac_tag(scheme.key_bytes(), message)),
{
}

/// A MAC key accepts one tag per message: any other byte string, such as
/// a tag with a byte changed, is rejected, and never with an error.
pub proof fn lemma_mac_rejects_other_tags(scheme: Blake3, message: Seq<u8>, tag: Seq<u8>)
    requires
        tag != scheme.signature(message),
    ensures
        scheme.verdict(message, tag) == Ok::<bool, TextError>(false),
{
}

/// Sign with a private key, then verify with the public key of the pair:
/// what the signer returns for a message is accepted for that message.
pub proof fn lemma_signature_round_trip(
    signer: Ed25519Signer,
    verifier: Ed25519Verifier,
    message: Seq<u8>,
    signature: Seq<u8>,
)
    requires
        verifier.key_bytes() == ed25519_public_key(signer.key_bytes()),
        is_signed_by(signer.key_bytes(), message, signature),
    ensures
        signature == signer.signature(message),
        verifier.verdict(message, signature) == Ok::<bool, TextError>(true),
{
}

/// Encrypt, then decrypt, with one key: every envelope that the encryptor
/// returns for a plaintext opens to that plaintext, as raw bytes and as
/// transport text.
pub proof fn lemma_encryption_round_trip(
    encryptor: ChaCha20Poly1305Encryptor,
    decryptor: ChaCha20Poly1305Decryptor,
    plaintext: Seq<u8>,
    envelope: Seq<u8>,
    text: Seq<u8>,
)
    requires
        decryptor.key_bytes() == encryptor.key_bytes(),
        encryptor.seals(plaintext, envelope),
        wire_bytes(text) == Some(envelope),
    ensures
        opened_envelope(decryptor.key_bytes(), envelope) == Ok::<Seq<u8>, TextError>(plaintext),
        decryptor.plaintext(text) == Ok::<Seq<u8>, TextError>(plaintext),
{
}

/// Encrypt, then decrypt, from key material to plaintext: the text that
/// encrypting returns decrypts, under the same key material, to the input.
pub proof fn lemma_encrypted_text_decrypts(key: Seq<u8>, plaintext: Seq<u8>, text: Seq<char>)
    requires
        is_encrypted_text(key, plaintext, text),
    ensures
        decrypted(key, encode_utf8(text)) == Ok::<Seq<u8>, TextError>(plaintext),
{
}

/// Key material shorter than 32 bytes is refused with `InvalidKeyLength`
/// by every scheme, before anything is signed, checked, encrypted or
/// decrypted.
pub proof fn lemma_short_key_refused(key: Seq<u8>, input: Seq<u8>, sign: Seq<char>)
    requires
        key.len() < 32,
    ensures
        Blake3::key_from(key) == Err::<Seq<u8>, TextError>(TextError::InvalidKeyLength),
        Ed25519Signer::key_from(key) == Err::<Seq<u8>, TextError>(TextError::InvalidKeyLength),
        Ed25519Verifier::key_from(key) == Err::<Seq<u8>, TextError>(TextError::InvalidKeyLength),
        ChaCha20Poly1305Encryptor::key_from(key) == Err::<Seq<u8>, TextError>(
            TextError::InvalidKeyLength,
        ),
        ChaCha20Poly1305Decryptor::key_from(key) == Err::<Seq<u8>, TextError>(
            TextError::InvalidKeyLength,
        ),
        signature_bytes(key, input, TextSignFormat::Blake3) == Err::<Seq<u8>, TextError>(
            TextError::InvalidKeyLength,
        ),
        signature_bytes(key, input, TextSignFormat::Ed25519) == Err::<Seq<u8>, TextError>(
            TextError::InvalidKeyLength,
        ),
        wire_bytes(encode_utf8(sign)) is Some ==> verdict_of(key, input, sign, TextSignFormat::Blake3)
            == Err::<bool, TextError>(TextError::InvalidKeyLength),
        wire_bytes(encode_utf8(sign)) is Some ==> verdict_of(key, input, sign, TextSignFormat::Ed25519)
            == Err::<bool, TextError>(TextError::InvalidKeyLength),
        encrypt_error(key, input.len()) == Some(TextError::InvalidKeyLength),
        decrypted(key, input) == Err::<Seq<u8>, TextError>(TextError::InvalidKeyLength),
{
}

/// A format tag that names no signing scheme is refused with
/// `UnsupportedOperation`, whatever the key: nothing is signed, and a
/// well-encoded signature is not checked.
pub proof fn lemma_encryption_tag_does_not_sign(key: Seq<u8>, input: Seq<u8>, sign: Seq<char>)
    ensures
        signature_bytes(key, input, TextSignFormat::ChaCha20Poly1305) == Err::<Seq<u8>, TextError>(
            TextError::UnsupportedOperation,
        ),
        wire_bytes(encode_utf8(sign)) is Some ==> verdict_of(
            key,
            input,
            sign,
            TextSignFormat::ChaCha20Poly1305,
        ) == Err::<bool, TextError>(TextError::UnsupportedOperation),
{
}

} // verus!
