//! The keyed-hash MAC scheme: BLAKE3 in keyed mode.
use crate::error::TextError;
use crate::process::gen_pass::{ascii_text, is_password, password_bytes};
use crate::process::text::{KeyGenerator, KeyLoader, TextSigner, TextVerifier};
use crate::utils::to_array;
use vstd::prelude::*;
use vstd::slice::{slice_subrange, slice_to_vec};

verus! {

/// The length of a MAC key, and of a tag, in bytes.
pub const MAC_KEY_LEN: usize = 32;

/// The 32-byte tag that `blake3::keyed_hash` computes for a 32-byte key and
/// a message.
pub uninterp spec fn blake3_keyed_hash(key: Seq<u8>, message: Seq<u8>) -> Seq<u8>;

/// Calls `blake3::keyed_hash` and copies the 32 bytes of the resulting
/// `Hash` out. The hash is a function of key and message alone.
#[verifier::external_body]
fn keyed_hash(key: &[u8; 32], message: &[u8]) -> (tag: [u8; 32])
    ensures
        tag@ == blake3_keyed_hash(key@, message@),
{
    *blake3::keyed_hash(key, message).as_bytes()
}

/// Compares two byte strings without stopping at the first difference:
/// every byte of the common length is visited whatever the contents.
pub fn fixed_time_eq(left: &[u8], right: &[u8]) -> (same: bool)
    ensures
        same == (left@ == right@),
{
    if left.len() != right.len() {
        return false;
    }
    let mut diff: u8 = 0;
    let mut i: usize = 0;
    while i < left.len()
        invariant
            left@.len() == right@.len(),
            i <= left@.len(),
            (diff == 0) == (left@.subrange(0, i as int) =~= right@.subrange(0, i as int)),
        decreases left@.len() - i,
    {
        let l: u8 = left[i];
        let r: u8 = right[i];
        let d: u8 = diff;
        assert(((d | (l ^ r)) == 0) == (d == 0 && l == r)) by (bit_vector);
        diff = diff | (l ^ r);
        proof {
            let a = left@.subrange(0, i as int);
            let b = right@.subrange(0, i as int);
            let a1 = left@.subrange(0, i + 1);
            let b1 = right@.subrange(0, i + 1);
            assert(a1 == a.push(l));
            assert(b1 == b.push(r));
            if a1 == b1 {
                assert(a == a1.drop_last());
                assert(b == b1.drop_last());
                assert(a1.last() == b1.last());
            }
        }
        i += 1;
    }
    proof {
        assert(left@.subrange(0, i as int) == left@);
        assert(right@.subrange(0, i as int) == right@);
    }
    diff == 0
}

/// The tag of `message` under `key`.
pub open spec fn mac_tag(key: Seq<u8>, message: Seq<u8>) -> Seq<u8> {
    blake3_keyed_hash(key, message)
}

/// Whether `tag` is the tag of `message` under `key`.
pub open spec fn mac_accepts(key: Seq<u8>, message: Seq<u8>, tag: Seq<u8>) -> bool {
    tag == mac_tag(key, message)
}

/// The MAC key read from key material: its first 32 bytes.
pub open spec fn mac_key_from(material: Seq<u8>) -> Result<Seq<u8>, TextError> {
    if material.len() < MAC_KEY_LEN {
        Err(TextError::InvalidKeyLength)
    } else {
        Ok(material.subrange(0, MAC_KEY_LEN as int))
    }
}

/// A MAC key: signs and verifies with the same 32 secret bytes.
pub struct Blake3 {
    key: [u8; 32],
}

impl Blake3 {
    /// The bytes of the key.
    pub closed spec fn key_bytes(&self) -> Seq<u8> {
        self.key@
    }

    /// Holds the given key.
    pub fn new(key: [u8; 32]) -> (scheme: Self)
        ensures
            scheme.key_bytes() == key@,
    {
        Self { key }
    }

    /// Holds the given bytes as the key where there are exactly 32 of them.
    pub fn try_from(value: &[u8]) -> (scheme: Result<Self, TextError>)
        ensures
            match scheme {
                Ok(s) => value@.len() == MAC_KEY_LEN && s.key_bytes() == value@,
                Err(e) => value@.len() != MAC_KEY_LEN && e == TextError::InvalidKeyLength,
            },
    {
        if value.len() != MAC_KEY_LEN {
            return Err(TextError::InvalidKeyLength);
        }
        Ok(Self::new(to_array::<32>(value)))
    }
}

impl TextSigner for Blake3 {
    open spec fn signature(&self, message: Seq<u8>) -> Seq<u8> {
        mac_tag(self.key_bytes(), message)
    }

    fn sign(&self, message: &[u8]) -> (signature: Result<Vec<u8>, TextError>)
        ensures
            signature matches Ok(bytes) && bytes@.len() == MAC_KEY_LEN,
    {
        let tag = keyed_hash(&self.key, message);
        Ok(slice_to_vec(tag.as_slice()))
    }
}

impl TextVerifier for Blake3 {
    open spec fn verdict(&self, message: Seq<u8>, signature: Seq<u8>) -> Result<bool, TextError> {
        Ok(mac_accepts(self.key_bytes(), message, signature))
    }

    fn verify(&self, message: &[u8], sign: &[u8]) -> (valid: Result<bool, TextError>) {
        let tag = keyed_hash(&self.key, message);
        Ok(fixed_time_eq(tag.as_slice(), sign))
    }
}

impl KeyLoader for Blake3 {
    open spec fn key_from(material: Seq<u8>) -> Result<Seq<u8>, TextError> {
        mac_key_from(material)
    }

    open spec fn key(&self) -> Seq<u8> {
        self.key_bytes()
    }

    fn load(material: &[u8]) -> (loaded: Result<Self, TextError>) {
        if material.len() < MAC_KEY_LEN {
            return Err(TextError::InvalidKeyLength);
        }
        Self::try_from(slice_subrange(material, 0, MAC_KEY_LEN))
    }
}

impl KeyGenerator for Blake3 {
    open spec fn is_key_set(keys: Seq<Seq<u8>>) -> bool {
        &&& keys.len() == 1
        &&& keys[0].len() == MAC_KEY_LEN
        &&& is_password(ascii_text(keys[0]), MAC_KEY_LEN as nat, true, true, true, true)
    }

    fn generate() -> (keys: Result<Vec<Vec<u8>>, TextError>) {
        let secret = password_bytes(32, true, true, true, true);
        let mut blobs: Vec<Vec<u8>> = Vec::new();
        proof {
            assert(blobs.deep_view().push(secret@)[0] =~= secret@);
        }
        blobs.push(secret);
        proof {
            assert(blobs.deep_view()[0] =~= blobs@[0]@);
        }
        Ok(blobs)
    }
}

} // verus!
