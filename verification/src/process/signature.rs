//! The asymmetric signature scheme: Ed25519.
use crate::error::TextError;
use crate::process::text::{KeyGenerator, KeyLoader, TextSigner, TextVerifier};
use crate::utils::to_array;
use chacha20poly1305::aead::OsRng;
use ed25519_dalek::{Signature, Signer, SigningKey, Verifier, VerifyingKey};
use vstd::prelude::*;
use vstd::slice::slice_to_vec;

verus! {

/// The length of a private seed, and of a public key, in bytes.
pub const SIGNATURE_KEY_LEN: usize = 32;

/// The length of a signature in bytes.
pub const SIGNATURE_LEN: usize = 64;

/// The 64 bytes of the signature that an `ed25519_dalek::SigningKey` made
/// from the 32-byte `seed` gives `message`.
pub uninterp spec fn ed25519_signature(seed: Seq<u8>, message: Seq<u8>) -> Seq<u8>;

/// The 32 bytes of the verifying key that belongs to the signing key made
/// from the 32-byte `seed`.
pub uninterp spec fn ed25519_public_key(seed: Seq<u8>) -> Seq<u8>;

/// Whether `ed25519_dalek::VerifyingKey::from_bytes` accepts the 32 bytes
/// as a public key.
pub uninterp spec fn ed25519_key_parses(public_key: Seq<u8>) -> bool;

/// Whether the verifying key with the given bytes accepts the 64-byte
/// `signature` for `message`.
pub uninterp spec fn ed25519_accepts(public_key: Seq<u8>, message: Seq<u8>, signature: Seq<u8>) -> bool;

/// `Signer::sign` on the `SigningKey` that `SigningKey::from_bytes` makes of
/// `seed`, as the signature's bytes. Ed25519 signatures are deterministic,
/// and the verifying key that belongs to the seed accepts the signature.
#[verifier::external_body]
fn sign_with_seed(seed: &[u8; 32], message: &[u8]) -> (signature: [u8; 64])
    ensures
        signature@ == ed25519_signature(seed@, message@),
        ed25519_accepts(ed25519_public_key(seed@), message@, signature@),
{
    SigningKey::from_bytes(seed).sign(message).to_bytes()
}

/// `SigningKey::verifying_key` on the key made of `seed`, as bytes. The
/// bytes are the compressed form of a curve point, so they parse as a key.
#[verifier::external_body]
fn public_key_of(seed: &[u8; 32]) -> (public_key: [u8; 32])
    ensures
        public_key@ == ed25519_public_key(seed@),
        ed25519_key_parses(public_key@),
{
    SigningKey::from_bytes(seed).verifying_key().to_bytes()
}

/// Whether `VerifyingKey::from_bytes` accepts the bytes.
#[verifier::external_body]
fn key_parses(public_key: &[u8; 32]) -> (parses: bool)
    ensures
        parses == ed25519_key_parses(public_key@),
{
    VerifyingKey::from_bytes(public_key).is_ok()
}

/// `Verifier::verify` on the `VerifyingKey` made of `public_key`, for the
/// signature made of the 64 bytes: true where the key parses and accepts.
#[verifier::external_body]
fn verify_with_key(public_key: &[u8; 32], message: &[u8], signature: &[u8; 64]) -> (valid: bool)
    ensures
        valid == (ed25519_key_parses(public_key@) && ed25519_accepts(
            public_key@,
            message@,
            signature@,
        )),
{
    match VerifyingKey::from_bytes(public_key) {
        Ok(key) => key.verify(message, &Signature::from_bytes(signature)).is_ok(),
        Err(_) => false,
    }
}

/// `SigningKey::generate` on the operating system's generator, as the
/// seed's bytes. Nothing is known of the seed but its length.
#[verifier::external_body]
fn fresh_seed() -> (seed: [u8; 32]) {
    SigningKey::generate(&mut OsRng).to_bytes()
}

/// The seed read from key material: the material itself, which must have
/// exactly 32 bytes.
pub open spec fn signing_key_from(material: Seq<u8>) -> Result<Seq<u8>, TextError> {
    if material.len() != SIGNATURE_KEY_LEN {
        Err(TextError::InvalidKeyLength)
    } else {
        Ok(material)
    }
}

/// The public key read from key material: the material itself, which must
/// have exactly 32 bytes and parse as a key.
pub open spec fn verifying_key_from(material: Seq<u8>) -> Result<Seq<u8>, TextError> {
    if material.len() != SIGNATURE_KEY_LEN {
        Err(TextError::InvalidKeyLength)
    } else if !ed25519_key_parses(material) {
        Err(TextError::KeyParseError)
    } else {
        Ok(material)
    }
}

/// What checking `signature` against `message` under a public key yields:
/// a signature that has not 64 bytes is refused before any check.
pub open spec fn signature_verdict(public_key: Seq<u8>, message: Seq<u8>, signature: Seq<u8>) -> Result<
    bool,
    TextError,
> {
    if signature.len() != SIGNATURE_LEN {
        Err(TextError::SignatureFormatError)
    } else {
        Ok(ed25519_accepts(public_key, message, signature))
    }
}

/// Whether `signature` is what the signer with the given seed returns for
/// `message`: the scheme's signature, which the verifier with the seed's
/// public key takes and accepts.
pub open spec fn is_signed_by(seed: Seq<u8>, message: Seq<u8>, signature: Seq<u8>) -> bool {
    let public_key = ed25519_public_key(seed);
    &&& signature == ed25519_signature(seed, message)
    &&& verifying_key_from(public_key) == Ok::<Seq<u8>, TextError>(public_key)
    &&& signature_verdict(public_key, message, signature) == Ok::<bool, TextError>(true)
}

/// A private key: signs with a 32-byte seed, and keeps the public key that
/// belongs to it.
pub struct Ed25519Signer {
    key: [u8; 32],
    verifying_key: [u8; 32],
}

/// A public key: verifies with 32 bytes that parse as a curve point.
pub struct Ed25519Verifier {
    key: [u8; 32],
}

impl Ed25519Signer {
    #[verifier::type_invariant]
    spec fn paired(&self) -> bool {
        &&& self.verifying_key@ == ed25519_public_key(self.key@)
        &&& ed25519_key_parses(self.verifying_key@)
    }

    /// The bytes of the seed.
    pub closed spec fn key_bytes(&self) -> Seq<u8> {
        self.key@
    }

    /// Holds the given seed, with the public key derived from it.
    pub fn new(key: [u8; 32]) -> (scheme: Self)
        ensures
            scheme.key_bytes() == key@,
    {
        let verifying_key = public_key_of(&key);
        Self { key, verifying_key }
    }

    /// The public key that verifies what this key signs.
    pub fn verifying_key(&self) -> (public_key: [u8; 32])
        ensures
            public_key@ == ed25519_public_key(self.key_bytes()),
            verifying_key_from(public_key@) == Ok::<Seq<u8>, TextError>(public_key@),
    {
        proof {
            use_type_invariant(self);
        }
        self.verifying_key
    }

    /// Holds the given bytes as the seed where there are exactly 32 of them.
    pub fn try_from(value: &[u8]) -> (scheme: Result<Self, TextError>)
        ensures
            match scheme {
                Ok(s) => signing_key_from(value@) == Ok::<Seq<u8>, TextError>(s.key_bytes()),
                Err(e) => signing_key_from(value@) == Err::<Seq<u8>, TextError>(e),
            },
    {
        if value.len() != SIGNATURE_KEY_LEN {
            return Err(TextError::InvalidKeyLength);
        }
        Ok(Self::new(to_array::<32>(value)))
    }
}

impl TextSigner for Ed25519Signer {
    open spec fn signature(&self, message: Seq<u8>) -> Seq<u8> {
        ed25519_signature(self.key_bytes(), message)
    }

    fn sign(&self, message: &[u8]) -> (signature: Result<Vec<u8>, TextError>)
        ensures
            signature matches Ok(bytes) && is_signed_by(self.key_bytes(), message@, bytes@),
    {
        proof {
            use_type_invariant(self);
        }
        let signature = sign_with_seed(&self.key, message);
        Ok(slice_to_vec(signature.as_slice()))
    }
}

impl KeyLoader for Ed25519Signer {
    open spec fn key_from(material: Seq<u8>) -> Result<Seq<u8>, TextError> {
        signing_key_from(material)
    }

    open spec fn key(&self) -> Seq<u8> {
        self.key_bytes()
    }

    fn load(material: &[u8]) -> (loaded: Result<Self, TextError>) {
        Self::try_from(material)
    }
}

impl KeyGenerator for Ed25519Signer {
    open spec fn is_key_set(keys: Seq<Seq<u8>>) -> bool {
        &&& keys.len() == 2
        &&& keys[0].len() == SIGNATURE_KEY_LEN
        &&& keys[1] == ed25519_public_key(keys[0])
        &&& verifying_key_from(keys[1]) == Ok::<Seq<u8>, TextError>(keys[1])
    }

    fn generate() -> (keys: Result<Vec<Vec<u8>>, TextError>) {
        let seed = fresh_seed();
        let public_key = Self::new(seed).verifying_key();
        let mut blobs: Vec<Vec<u8>> = Vec::new();
        blobs.push(slice_to_vec(seed.as_slice()));
        blobs.push(slice_to_vec(public_key.as_slice()));
        proof {
            let view = blobs.deep_view();
            assert(view[0] =~= seed@);
            assert(view[1] =~= public_key@);
        }
        Ok(blobs)
    }
}

impl Ed25519Verifier {
    #[verifier::type_invariant]
    spec fn parses(&self) -> bool {
        ed25519_key_parses(self.key@)
    }

    /// The bytes of the public key.
    pub closed spec fn key_bytes(&self) -> Seq<u8> {
        self.key@
    }

    /// Holds the given public key.
    pub fn new(key: [u8; 32]) -> (scheme: Option<Self>)
        ensures
            match scheme {
                Some(s) => ed25519_key_parses(key@) && s.key_bytes() == key@,
                None => !ed25519_key_parses(key@),
            },
    {
        if key_parses(&key) {
            Some(Self { key })
        } else {
            None
        }
    }

    /// Holds the given bytes as the public key where there are exactly 32
    /// of them and they parse as a key.
    pub fn try_from(value: &[u8]) -> (scheme: Result<Self, TextError>)
        ensures
            match scheme {
                Ok(s) => verifying_key_from(value@) == Ok::<Seq<u8>, TextError>(s.key_bytes()),
                Err(e) => verifying_key_from(value@) == Err::<Seq<u8>, TextError>(e),
            },
    {
        if value.len() != SIGNATURE_KEY_LEN {
            return Err(TextError::InvalidKeyLength);
        }
        match Self::new(to_array::<32>(value)) {
            Some(scheme) => Ok(scheme),
            None => Err(TextError::KeyParseError),
        }
    }
}

impl TextVerifier for Ed25519Verifier {
    open spec fn verdict(&self, message: Seq<u8>, signature: Seq<u8>) -> Result<bool, TextError> {
        signature_verdict(self.key_bytes(), message, signature)
    }

    fn verify(&self, message: &[u8], sign: &[u8]) -> (valid: Result<bool, TextError>) {
        if sign.len() != SIGNATURE_LEN {
            return Err(TextError::SignatureFormatError);
        }
        let signature = to_array::<64>(sign);
        proof {
            use_type_invariant(self);
        }
        Ok(verify_with_key(&self.key, message, &signature))
    }
}

impl KeyLoader for Ed25519Verifier {
    open spec fn key_from(material: Seq<u8>) -> Result<Seq<u8>, TextError> {
        verifying_key_from(material)
    }

    open spec fn key(&self) -> Seq<u8> {
        self.key_bytes()
    }

    fn load(material: &[u8]) -> (loaded: Result<Self, TextError>) {
        Self::try_from(material)
    }
}

} // verus!
