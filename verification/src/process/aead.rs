//! The authenticated encryption scheme: ChaCha20-Poly1305, with the nonce
//! carried in front of the ciphertext.
use crate::error::TextError;
use crate::process::b64::{wire_bytes, wire_decode};
use crate::process::text::{same_outcome, KeyGenerator, KeyLoader, TextDecryptor, TextEncryptor};
use crate::utils::to_array;
use chacha20poly1305::aead::{Aead, AeadCore, KeyInit, OsRng};
use chacha20poly1305::ChaCha20Poly1305;
use vstd::prelude::*;
use vstd::slice::{slice_subrange, slice_to_vec};

verus! {

/// The length of an encryption key in bytes.
pub const AEAD_KEY_LEN: usize = 32;

/// The length of a nonce in bytes.
pub const NONCE_LEN: usize = 12;

/// The length of the authentication tag that ends a ciphertext, in bytes.
pub const TAG_LEN: usize = 16;

/// The error of the `aead` crate's ciphers, which carries no detail.
#[verifier::external_type_specification]
#[verifier::external_body]
pub struct ExAeadError(chacha20poly1305::aead::Error);

/// The ciphertext with its tag appended that `Aead::encrypt` of
/// `ChaCha20Poly1305` gives `plaintext` under a 32-byte key and a 12-byte
/// nonce, without associated data, where it encrypts.
pub uninterp spec fn chacha20poly1305_sealed(key: Seq<u8>, nonce: Seq<u8>, plaintext: Seq<u8>) -> Seq<u8>;

/// The plaintext that `Aead::decrypt` of `ChaCha20Poly1305` recovers from
/// `ciphertext` under a 32-byte key and a 12-byte nonce, or `None` where it
/// reports an error.
pub uninterp spec fn chacha20poly1305_opened(key: Seq<u8>, nonce: Seq<u8>, ciphertext: Seq<u8>) -> Option<
    Seq<u8>,
>;

/// Whether the cipher takes a plaintext of `n` bytes: the result with its
/// tag must be allocatable, and the plaintext may have no more 64-byte
/// blocks than the cipher's 32-bit block counter can number.
pub open spec fn can_seal(n: nat) -> bool {
    n + TAG_LEN <= isize::MAX && n / 64 < u32::MAX
}

/// `Aead::encrypt` on the `ChaCha20Poly1305` made of `key`. It refuses a
/// plaintext of `u32::MAX` blocks or more and nothing else; the result is
/// 16 bytes longer than the plaintext, and `Aead::decrypt` under the same
/// key and nonce recovers the plaintext from it. The call allocates the
/// result, which panics above `isize::MAX` bytes.
#[verifier::external_body]
fn seal(key: &[u8; 32], nonce: &[u8; 12], plaintext: &[u8]) -> (sealed: Result<
    Vec<u8>,
    chacha20poly1305::aead::Error,
>)
    requires
        plaintext@.len() + TAG_LEN <= isize::MAX,
    ensures
        match sealed {
            Ok(ciphertext) => {
                &&& plaintext@.len() / 64 < u32::MAX
                &&& ciphertext@ == chacha20poly1305_sealed(key@, nonce@, plaintext@)
                &&& ciphertext@.len() == plaintext@.len() + TAG_LEN
                &&& chacha20poly1305_opened(key@, nonce@, ciphertext@) == Some(plaintext@)
            },
            Err(_) => plaintext@.len() / 64 >= u32::MAX,
        },
{
    ChaCha20Poly1305::new(key.into()).encrypt(nonce.into(), plaintext)
}

/// `Aead::decrypt` on the `ChaCha20Poly1305` made of `key`: the named
/// plaintext, an error standing for `None`.
#[verifier::external_body]
fn open(key: &[u8; 32], nonce: &[u8; 12], ciphertext: &[u8]) -> (opened: Result<
    Vec<u8>,
    chacha20poly1305::aead::Error,
>)
    ensures
        match opened {
            Ok(plaintext) => chacha20poly1305_opened(key@, nonce@, ciphertext@) == Some(plaintext@),
            Err(_) => chacha20poly1305_opened(key@, nonce@, ciphertext@) is None,
        },
{
    ChaCha20Poly1305::new(key.into()).decrypt(nonce.into(), ciphertext)
}

/// `KeyInit::generate_key` of `ChaCha20Poly1305` on the operating system's
/// generator. Nothing is known of the key but its length.
#[verifier::external_body]
fn fresh_key() -> (key: [u8; 32]) {
    ChaCha20Poly1305::generate_key(&mut OsRng).into()
}

/// `AeadCore::generate_nonce` of `ChaCha20Poly1305` on the operating
/// system's generator. Nothing is known of the nonce but its length.
#[verifier::external_body]
fn fresh_nonce() -> (nonce: [u8; 12]) {
    ChaCha20Poly1305::generate_nonce(&mut OsRng).into()
}

/// The encryption key read from key material: its first 32 bytes.
pub open spec fn aead_key_from(material: Seq<u8>) -> Result<Seq<u8>, TextError> {
    if material.len() < AEAD_KEY_LEN {
        Err(TextError::InvalidKeyLength)
    } else {
        Ok(material.subrange(0, AEAD_KEY_LEN as int))
    }
}

/// The envelope of `plaintext` under `key` for a given nonce: the nonce,
/// then the ciphertext with its tag.
pub open spec fn sealed_envelope(key: Seq<u8>, nonce: Seq<u8>, plaintext: Seq<u8>) -> Result<
    Seq<u8>,
    TextError,
> {
    if can_seal(plaintext.len()) {
        Ok(nonce + chacha20poly1305_sealed(key, nonce, plaintext))
    } else {
        Err(TextError::EncryptError)
    }
}

/// The plaintext of an envelope under `key`: the first 12 bytes are the
/// nonce, the rest is opened with it. An envelope too short to hold a
/// nonce, or one that fails authentication, gives `DecryptError`.
pub open spec fn opened_envelope(key: Seq<u8>, envelope: Seq<u8>) -> Result<Seq<u8>, TextError> {
    if envelope.len() < NONCE_LEN {
        Err(TextError::DecryptError)
    } else {
        match chacha20poly1305_opened(
            key,
            envelope.subrange(0, NONCE_LEN as int),
            envelope.subrange(NONCE_LEN as int, envelope.len() as int),
        ) {
            Some(plaintext) => Ok(plaintext),
            None => Err(TextError::DecryptError),
        }
    }
}

/// The plaintext of an envelope that arrives as transport text: the text
/// is decoded first, then the envelope opened.
pub open spec fn decrypted_text(key: Seq<u8>, text: Seq<u8>) -> Result<Seq<u8>, TextError> {
    match wire_bytes(text) {
        Some(envelope) => opened_envelope(key, envelope),
        None => Err(TextError::EncodingError),
    }
}

/// Whether `envelope` is an encryption of `plaintext` under `key`: it
/// starts with a nonce, goes on with the ciphertext that the cipher gives
/// for that nonce, and opens to the plaintext again.
pub open spec fn is_envelope_of(key: Seq<u8>, plaintext: Seq<u8>, envelope: Seq<u8>) -> bool {
    &&& envelope.len() == NONCE_LEN + plaintext.len() + TAG_LEN
    &&& sealed_envelope(key, envelope.subrange(0, NONCE_LEN as int), plaintext) == Ok::<
        Seq<u8>,
        TextError,
    >(envelope)
    &&& opened_envelope(key, envelope) == Ok::<Seq<u8>, TextError>(plaintext)
}

/// Lays out an envelope: the nonce, then the ciphertext.
pub fn join_envelope(nonce: &[u8; 12], ciphertext: &[u8]) -> (envelope: Vec<u8>)
    ensures
        envelope@ == nonce@ + ciphertext@,
{
    let mut envelope: Vec<u8> = Vec::new();
    envelope.extend_from_slice(nonce.as_slice());
    envelope.extend_from_slice(ciphertext);
    envelope
}

/// Takes an envelope apart: its first 12 bytes as the nonce, and the rest.
/// An envelope shorter than a nonce has no parts.
pub fn split_envelope(envelope: &[u8]) -> (parts: Option<([u8; 12], &[u8])>)
    ensures
        match parts {
            Some((nonce, ciphertext)) => {
                &&& envelope@.len() >= NONCE_LEN
                &&& nonce@ == envelope@.subrange(0, NONCE_LEN as int)
                &&& ciphertext@ == envelope@.subrange(NONCE_LEN as int, envelope@.len() as int)
            },
            None => envelope@.len() < NONCE_LEN,
        },
{
    if envelope.len() < NONCE_LEN {
        return None;
    }
    let nonce = to_array::<12>(slice_subrange(envelope, 0, NONCE_LEN));
    Some((nonce, slice_subrange(envelope, NONCE_LEN, envelope.len())))
}

/// An encryption key of 32 bytes, for encrypting.
pub struct ChaCha20Poly1305Encryptor {
    key: [u8; 32],
}

/// An encryption key of 32 bytes, for decrypting.
pub struct ChaCha20Poly1305Decryptor {
    key: [u8; 32],
}

impl ChaCha20Poly1305Encryptor {
    /// The bytes of the key.
    pub closed spec fn key_bytes(&self) -> Seq<u8> {
        self.key@
    }

    /// Holds the given key.
    pub fn new(key: [u8; 32]) -> (scheme: Self)
        ensures
            scheme.key_bytes() == key@,
    {
        Self { key }
    }

    /// Holds the given bytes as the key where there are exactly 32 of them.
    pub fn try_from(value: &[u8]) -> (scheme: Result<Self, TextError>)
        ensures
            match scheme {
                Ok(s) => value@.len() == AEAD_KEY_LEN && s.key_bytes() == value@,
                Err(e) => value@.len() != AEAD_KEY_LEN && e == TextError::InvalidKeyLength,
            },
    {
        if value.len() != AEAD_KEY_LEN {
            return Err(TextError::InvalidKeyLength);
        }
        Ok(Self::new(to_array::<32>(value)))
    }

    /// Encrypts under the given nonce, which must be fresh: no caller
    /// outside this scheme chooses it.
    fn seal_under(&self, nonce: &[u8; 12], plaintext: &[u8]) -> (envelope: Result<
        Vec<u8>,
        TextError,
    >)
        ensures
            same_outcome(envelope, sealed_envelope(self.key_bytes(), nonce@, plaintext@)),
            envelope matches Ok(bytes) ==> is_envelope_of(self.key_bytes(), plaintext@, bytes@),
    {
        if plaintext.len() > isize::MAX as usize - TAG_LEN {
            return Err(TextError::EncryptError);
        }
        match seal(&self.key, nonce, plaintext) {
            Ok(ciphertext) => {
                let envelope = join_envelope(nonce, ciphertext.as_slice());
                proof {
                    assert(envelope@.subrange(0, NONCE_LEN as int) =~= nonce@);
                    assert(envelope@.subrange(NONCE_LEN as int, envelope@.len() as int)
                        =~= ciphertext@);
                }
                Ok(envelope)
            },
            Err(_) => Err(TextError::EncryptError),
        }
    }
}

impl TextEncryptor for ChaCha20Poly1305Encryptor {
    open spec fn encryptable(&self, plaintext: Seq<u8>) -> bool {
        can_seal(plaintext.len())
    }

    open spec fn seals(&self, plaintext: Seq<u8>, envelope: Seq<u8>) -> bool {
        is_envelope_of(self.key_bytes(), plaintext, envelope)
    }

    fn encrypt(&self, plaintext: &[u8]) -> (envelope: Result<Vec<u8>, TextError>) {
        let nonce = fresh_nonce();
        self.seal_under(&nonce, plaintext)
    }
}

impl KeyLoader for ChaCha20Poly1305Encryptor {
    open spec fn key_from(material: Seq<u8>) -> Result<Seq<u8>, TextError> {
        aead_key_from(material)
    }

    open spec fn key(&self) -> Seq<u8> {
        self.key_bytes()
    }

    fn load(material: &[u8]) -> (loaded: Result<Self, TextError>) {
        if material.len() < AEAD_KEY_LEN {
            return Err(TextError::InvalidKeyLength);
        }
        Self::try_from(slice_subrange(material, 0, AEAD_KEY_LEN))
    }
}

impl KeyGenerator for ChaCha20Poly1305Encryptor {
    open spec fn is_key_set(keys: Seq<Seq<u8>>) -> bool {
        keys.len() == 1 && keys[0].len() == AEAD_KEY_LEN
    }

    fn generate() -> (keys: Result<Vec<Vec<u8>>, TextError>) {
        let key = fresh_key();
        let mut blobs: Vec<Vec<u8>> = Vec::new();
        blobs.push(slice_to_vec(key.as_slice()));
        proof {
            assert(blobs.deep_view()[0] =~= key@);
        }
        Ok(blobs)
    }
}

impl ChaCha20Poly1305Decryptor {
    /// The bytes of the key.
    pub closed spec fn key_bytes(&self) -> Seq<u8> {
        self.key@
    }

    /// Holds the given key.
    pub fn new(key: [u8; 32]) -> (scheme: Self)
        ensures
            scheme.key_bytes() == key@,
    {
        Self { key }
    }

    /// Holds the given bytes as the key where there are exactly 32 of them.
    pub fn try_from(value: &[u8]) -> (scheme: Result<Self, TextError>)
        ensures
            match scheme {
                Ok(s) => value@.len() == AEAD_KEY_LEN && s.key_bytes() == value@,
                Err(e) => value@.len() != AEAD_KEY_LEN && e == TextError::InvalidKeyLength,
            },
    {
        if value.len() != AEAD_KEY_LEN {
            return Err(TextError::InvalidKeyLength);
        }
        Ok(Self::new(to_array::<32>(value)))
    }

    /// Opens an envelope given as raw bytes.
    pub fn open_envelope(&self, envelope: &[u8]) -> (plaintext: Result<Vec<u8>, TextError>)
        ensures
            same_outcome(plaintext, opened_envelope(self.key_bytes(), envelope@)),
    {
        match split_envelope(envelope) {
            Some((nonce, ciphertext)) => match open(&self.key, &nonce, ciphertext) {
                Ok(plaintext) => Ok(plaintext),
                Err(_) => Err(TextError::DecryptError),
            },
            None => Err(TextError::DecryptError),
        }
    }
}

impl TextDecryptor for ChaCha20Poly1305Decryptor {
    open spec fn plaintext(&self, text: Seq<u8>) -> Result<Seq<u8>, TextError> {
        decrypted_text(self.key_bytes(), text)
    }

    fn decrypt(&self, text: &[u8]) -> (plaintext: Result<Vec<u8>, TextError>) {
        match wire_decode(text) {
            Ok(envelope) => self.open_envelope(envelope.as_slice()),
            Err(e) => Err(e),
        }
    }
}

impl KeyLoader for ChaCha20Poly1305Decryptor {
    open spec fn key_from(material: Seq<u8>) -> Result<Seq<u8>, TextError> {
        aead_key_from(material)
    }

    open spec fn key(&self) -> Seq<u8> {
        self.key_bytes()
    }

    fn load(material: &[u8]) -> (loaded: Result<Self, TextError>) {
        if material.len() < AEAD_KEY_LEN {
            return Err(TextError::InvalidKeyLength);
        }
        Self::try_from(slice_subrange(material, 0, AEAD_KEY_LEN))
    }
}

} // verus!
