//! Options of the `base64` subcommand.
use crate::cli::text::{invalid_format, invalid_format_message};
use crate::utils::same_text;
use vstd::prelude::*;

verus! {

/// The two operations of the `base64` subcommand.
#[derive(Debug)]
pub enum Base64SubCmd {
    /// Encode the input.
    Encode(Base64EncodeOpts),
    /// Decode the input.
    Decode(Base64DecodeOpts),
}

/// Options for encoding.
#[derive(Debug)]
pub struct Base64EncodeOpts {
    /// The input file, or `-` for standard input.
    pub input: String,
    /// The alphabet.
    pub format: Base64Format,
    /// Whether padding is left out.
    pub no_padding: bool,
}

/// Options for decoding.
#[derive(Debug)]
pub struct Base64DecodeOpts {
    /// The input file, or `-` for standard input.
    pub input: String,
    /// The alphabet.
    pub format: Base64Format,
    /// Whether padding is refused rather than required.
    pub no_padding: bool,
}

/// Which base64 alphabet to use.
#[derive(Debug, Clone, Copy, PartialEq, Eq, Structural)]
pub enum Base64Format {
    /// The standard alphabet, with `+` and `/`.
    Standard,
    /// The URL-safe alphabet, with `-` and `_`.
    UrlSafe,
}

impl Base64Format {
    /// The name of the format on the command line.
    pub open spec fn name(self) -> Seq<char> {
        match self {
            Base64Format::Standard => "standard"@,
            Base64Format::UrlSafe => "urlsafe"@,
        }
    }

    /// The format that a name stands for, if any.
    pub open spec fn named(name: Seq<char>) -> Option<Self> {
        if name == "standard"@ {
            Some(Base64Format::Standard)
        } else if name == "urlsafe"@ {
            Some(Base64Format::UrlSafe)
        } else {
            None
        }
    }

    /// Reads a format from its name, which must match letter for letter.
    pub fn from_str(s: &str) -> (format: Result<Self, String>)
        ensures
            match format {
                Ok(f) => Self::named(s@) == Some(f),
                Err(message) => Self::named(s@) is None && message@ == invalid_format(s@),
            },
    {
        if same_text(s, "standard") {
            Ok(Base64Format::Standard)
        } else if same_text(s, "urlsafe") {
            Ok(Base64Format::UrlSafe)
        } else {
            Err(invalid_format_message(s))
        }
    }

    /// The name of the format.
    pub fn to_string(&self) -> (name: String)
        ensures
            name@ == self.name(),
    {
        match self {
            Base64Format::Standard => "standard".to_owned(),
            Base64Format::UrlSafe => "urlsafe".to_owned(),
        }
    }
}

} // verus!
