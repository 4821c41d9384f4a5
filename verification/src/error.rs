//! The failures of the text engine and the wire codec.
use vstd::prelude::*;

verus! {

/// Why an operation of the text engine failed.
#[derive(Clone, Copy, Debug, PartialEq, Eq, Structural)]
pub enum TextError {
    /// The key material is shorter than the scheme requires, or not of the
    /// exact length where the scheme asks for one.
    InvalidKeyLength,
    /// The bytes have the right length but do not form a key of the scheme.
    KeyParseError,
    /// The signature does not have the length the scheme's signatures have.
    SignatureFormatError,
    /// The text is not a canonical encoding under the wire codec.
    EncodingError,
    /// The format tag does not support the requested operation.
    UnsupportedOperation,
    /// The cipher refused to encrypt.
    EncryptError,
    /// The envelope is malformed or failed authentication.
    DecryptError,
}

impl TextError {
    /// What the error says to the user.
    pub open spec fn text(self) -> Seq<char> {
        match self {
            TextError::InvalidKeyLength => "Invalid key length"@,
            TextError::KeyParseError => "Invalid key"@,
            TextError::SignatureFormatError => "Invalid signature length"@,
            TextError::EncodingError => "Invalid encoding"@,
            TextError::UnsupportedOperation => "Unsupported operation"@,
            TextError::EncryptError => "Encrypt error"@,
            TextError::DecryptError => "Decrypt error"@,
        }
    }

    /// The error as a message for the user. The messages of the two
    /// cipher errors say nothing of the cause.
    pub fn message(&self) -> (text: &'static str)
        ensures
            text@ == self.text(),
    {
        match self {
            TextError::InvalidKeyLength => "Invalid key length",
            TextError::KeyParseError => "Invalid key",
            TextError::SignatureFormatError => "Invalid signature length",
            TextError::EncodingError => "Invalid encoding",
            TextError::UnsupportedOperation => "Unsupported operation",
            TextError::EncryptError => "Encrypt error",
            TextError::DecryptError => "Decrypt error",
        }
    }
}

} // verus!
