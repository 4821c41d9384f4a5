//! Options of the `text` subcommand, and the format tags that select a
//! scheme.
use crate::utils::{join_text, same_text};
use vstd::prelude::*;

verus! {

/// The message with which an unknown format name is refused.
pub open spec fn invalid_format(name: Seq<char>) -> Seq<char> {
    "Invalid format: "@ + name
}

/// Builds the message with which an unknown format name is refused.
pub fn invalid_format_message(name: &str) -> (message: String)
    ensures
        message@ == invalid_format(name@),
{
    join_text("Invalid format: ", name)
}

/// The operations of the `text` subcommand.
#[derive(Debug)]
pub enum TextSubCmd {
    /// Sign a message with a private or shared key.
    Sign(TextSignOpts),
    /// Verify a signed message.
    Verify(TextVerifyOpts),
    /// Generate a new key.
    Generate(TextGenerateOpts),
    /// Encrypt a message with a shared key.
    Encrypt(TextEncryptOpts),
    /// Decrypt a message with a shared key.
    Decrypt(TextDecryptOpts),
}

/// Options for signing.
#[derive(Debug)]
pub struct TextSignOpts {
    /// The input file, or `-` for standard input.
    pub input: String,
    /// The file that holds the key.
    pub key: String,
    /// The scheme to sign with.
    pub format: TextSignFormat,
}

/// Options for verifying.
#[derive(Debug)]
pub struct TextVerifyOpts {
    /// The input file, or `-` for standard input.
    pub input: String,
    /// The file that holds the key.
    pub key: String,
    /// The signature, as transport text.
    pub sign: String,
    /// The scheme the signature was made with.
    pub format: TextSignFormat,
}

/// Options for generating a key.
#[derive(Debug)]
pub struct TextGenerateOpts {
    /// The scheme to generate a key for.
    pub format: TextSignFormat,
    /// The directory that takes the key files.
    pub output: String,
}

/// Options for encrypting.
#[derive(Debug)]
pub struct TextEncryptOpts {
    /// The input file, or `-` for standard input.
    pub input: String,
    /// The file that holds the key.
    pub key: String,
    /// The scheme to encrypt with.
    pub format: TextEncryptFormat,
    /// The file that takes the envelope.
    pub output: String,
}

/// Options for decrypting.
#[derive(Debug)]
pub struct TextDecryptOpts {
    /// The file that holds the envelope, or `-` for standard input.
    pub input: String,
    /// The file that holds the key.
    pub key: String,
    /// The scheme to decrypt with.
    pub format: TextEncryptFormat,
    /// The file that takes the plaintext.
    pub output: String,
}

/// The schemes that can be named for signing, verifying and key
/// generation. The encryption scheme is listed for key generation only: it
/// neither signs nor verifies.
#[derive(Debug, Clone, Copy, PartialEq, Eq, Structural)]
pub enum TextSignFormat {
    /// The keyed-hash MAC.
    Blake3,
    /// The asymmetric signature.
    Ed25519,
    /// The authenticated encryption, for key generation.
    ChaCha20Poly1305,
}

/// The schemes that can be named for encrypting and decrypting.
#[derive(Debug, Clone, Copy, PartialEq, Eq, Structural)]
pub enum TextEncryptFormat {
    /// The authenticated encryption.
    ChaCha20Poly1305,
}

impl TextSignFormat {
    /// The name of the format on the command line.
    pub open spec fn name(self) -> Seq<char> {
        match self {
            TextSignFormat::Blake3 => "blake3"@,
            TextSignFormat::Ed25519 => "ed25519"@,
            TextSignFormat::ChaCha20Poly1305 => "chacha20poly1305"@,
        }
    }

    /// The format that a name stands for, if any.
    pub open spec fn named(name: Seq<char>) -> Option<Self> {
        if name == "blake3"@ {
            Some(TextSignFormat::Blake3)
        } else if name == "ed25519"@ {
            Some(TextSignFormat::Ed25519)
        } else if name == "chacha20poly1305"@ {
            Some(TextSignFormat::ChaCha20Poly1305)
        } else {
            None
        }
    }

    /// Reads a format from its name, which must match letter for letter.
    pub fn from_str(s: &str) -> (format: Result<Self, String>)
        ensures
            match format {
                Ok(f) => Self::named(s@) == Some(f),
                Err(message) => Self::named(s@) is None && message@ == invalid_format(s@),
            },
    {
        if same_text(s, "blake3") {
            Ok(TextSignFormat::Blake3)
        } else if same_text(s, "ed25519") {
            Ok(TextSignFormat::Ed25519)
        } else if same_text(s, "chacha20poly1305") {
            Ok(TextSignFormat::ChaCha20Poly1305)
        } else {
            Err(invalid_format_message(s))
        }
    }

    /// The name of the format.
    pub fn to_string(&self) -> (name: String)
        ensures
            name@ == self.name(),
    {
        match self {
            TextSignFormat::Blake3 => "blake3".to_owned(),
            TextSignFormat::Ed25519 => "ed25519".to_owned(),
            TextSignFormat::ChaCha20Poly1305 => "chacha20poly1305".to_owned(),
        }
    }

    /// Reading the name of a format gives the format back.
    pub proof fn lemma_name_round_trip(self)
        ensures
            Self::named(self.name()) == Some(self),
    {
        reveal_strlit("blake3");
        reveal_strlit("ed25519");
        reveal_strlit("chacha20poly1305");
        assert("blake3"@.len() == 6);
        assert("ed25519"@.len() == 7);
        assert("chacha20poly1305"@.len() == 16);
    }
}

impl TextEncryptFormat {
    /// The name of the format on the command line.
    pub open spec fn name(self) -> Seq<char> {
        "chacha20poly1305"@
    }

    /// The format that a name stands for, if any.
    pub open spec fn named(name: Seq<char>) -> Option<Self> {
        if name == "chacha20poly1305"@ {
            Some(TextEncryptFormat::ChaCha20Poly1305)
        } else {
            None
        }
    }

    /// Reads a format from its name, which must match letter for letter.
    pub fn from_str(s: &str) -> (format: Result<Self, String>)
        ensures
            match format {
                Ok(f) => Self::named(s@) == Some(f),
                Err(message) => Self::named(s@) is None && message@ == invalid_format(s@),
            },
    {
        if same_text(s, "chacha20poly1305") {
            Ok(TextEncryptFormat::ChaCha20Poly1305)
        } else {
            Err(invalid_format_message(s))
        }
    }

    /// The name of the format.
    pub fn to_string(&self) -> (name: String)
        ensures
            name@ == self.name(),
    {
        "chacha20poly1305".to_owned()
    }
}

/// The names of the files that take the blobs of fresh key material, in
/// the order of the blobs.
pub open spec fn key_file_names(format: TextSignFormat) -> Seq<Seq<char>> {
    match format {
        TextSignFormat::Blake3 => seq!["blake3.txt"@],
        TextSignFormat::Ed25519 => seq!["ed25519.sk"@, "ed25519.pk"@],
        TextSignFormat::ChaCha20Poly1305 => seq!["chacha20poly1305.key"@],
    }
}

impl TextGenerateOpts {
    /// The names of the files, in the output directory, that take the
    /// blobs of the key generated: one name for each blob, in their order.
    pub fn key_files(&self) -> (names: Vec<&'static str>)
        ensures
            names.deep_view() == key_file_names(self.format),
    {
        let mut names: Vec<&'static str> = Vec::new();
        match self.format {
            TextSignFormat::Blake3 => {
                names.push("blake3.txt");
            },
            TextSignFormat::Ed25519 => {
                names.push("ed25519.sk");
                names.push("ed25519.pk");
            },
            TextSignFormat::ChaCha20Poly1305 => {
                names.push("chacha20poly1305.key");
            },
        }
        assert(names.deep_view() =~= key_file_names(self.format));
        names
    }
}

impl TextVerifyOpts {
    /// What is said of a signature that was checked.
    pub open spec fn verdict_text(valid: bool) -> Seq<char> {
        if valid {
            "Signature is valid"@
        } else {
            "Signature is invalid"@
        }
    }

    /// The line that reports the outcome of a check.
    pub fn verdict_message(valid: bool) -> (message: &'static str)
        ensures
            message@ == Self::verdict_text(valid),
    {
        if valid {
            "Signature is valid"
        } else {
            "Signature is invalid"
        }
    }
}

} // verus!
