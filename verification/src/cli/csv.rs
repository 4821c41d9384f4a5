//! Options of the `csv` subcommand.
use crate::cli::text::{invalid_format, invalid_format_message};
use crate::utils::{join_text, same_text, same_texts};
use vstd::prelude::*;
use vstd::string::StrSliceExecFns;

verus! {

/// Options for converting a CSV file.
#[derive(Debug)]
pub struct CsvOpts {
    /// The input file.
    pub input: String,
    /// The output file; named after the format where absent.
    pub output: Option<String>,
    /// The field delimiter.
    pub delimiter: char,
    /// Whether the first record holds the field names.
    pub header: bool,
    /// The format to convert to.
    pub format: OutputFormat,
}

impl CsvOpts {
    /// The name of the output file: the one given, or `output` with the
    /// format's name as its extension.
    pub open spec fn output_name_of(output: Option<Seq<char>>, format: OutputFormat) -> Seq<char> {
        match output {
            Some(name) => name,
            None => "output."@ + format.name(),
        }
    }

    /// The name of the file that takes the converted table.
    pub fn output_name(&self) -> (name: String)
        ensures
            name@ == Self::output_name_of(
                match self.output {
                    Some(given) => Some(given@),
                    None => None,
                },
                self.format,
            ),
    {
        match &self.output {
            Some(given) => given.clone(),
            None => {
                let extension = self.format.to_string();
                join_text("output.", extension.as_str())
            },
        }
    }
}

/// The formats a CSV file is converted to.
#[derive(Debug, Clone, Copy, PartialEq, Eq, Structural)]
pub enum OutputFormat {
    /// JSON, as an array of objects.
    Json,
    /// YAML, as a sequence of mappings.
    Yaml,
    /// TOML, as one table.
    Toml,
}

/// The text that `str::to_lowercase` makes of a text: each character in
/// its lowercase form, as Unicode defines it.
pub uninterp spec fn lowercase(text: Seq<char>) -> Seq<char>;

/// `str::to_lowercase`: the lowercase form of the text, which depends on
/// the text alone.
#[verifier::external_body]
fn to_lowercase(text: &str) -> (lower: String)
    ensures
        lower@ == lowercase(text@),
{
    text.to_lowercase()
}

impl From<OutputFormat> for &'static str {
    fn from(format: OutputFormat) -> (name: Self) {
        match format {
            OutputFormat::Json => "json",
            OutputFormat::Yaml => "yaml",
            OutputFormat::Toml => "toml",
        }
    }
}

impl vstd::std_specs::convert::FromSpecImpl<OutputFormat> for &'static str {
    open spec fn obeys_from_spec() -> bool {
        true
    }

    open spec fn from_spec(format: OutputFormat) -> Self {
        match format {
            OutputFormat::Json => "json",
            OutputFormat::Yaml => "yaml",
            OutputFormat::Toml => "toml",
        }
    }
}

impl OutputFormat {
    /// The name of the format, which is also the extension of its files.
    pub open spec fn name(self) -> Seq<char> {
        match self {
            OutputFormat::Json => "json"@,
            OutputFormat::Yaml => "yaml"@,
            OutputFormat::Toml => "toml"@,
        }
    }

    /// The format that a name in lowercase stands for, if any.
    pub open spec fn named(name: Seq<char>) -> Option<Self> {
        if name == "json"@ {
            Some(OutputFormat::Json)
        } else if name == "yaml"@ {
            Some(OutputFormat::Yaml)
        } else if name == "toml"@ {
            Some(OutputFormat::Toml)
        } else {
            None
        }
    }

    /// What reading `s` as a format yields, given its lowercase form: the
    /// format named there, or a message that quotes `s` as it was written.
    pub open spec fn parsed_as(lower: Seq<char>, s: Seq<char>) -> Result<Self, Seq<char>> {
        match Self::named(lower) {
            Some(format) => Ok(format),
            None => Err(invalid_format(s)),
        }
    }

    /// What reading `s` as a format yields: letter case does not count.
    pub open spec fn parsed(s: Seq<char>) -> Result<Self, Seq<char>> {
        Self::parsed_as(lowercase(s), s)
    }

    /// Reads a format from the lowercase form of the name `s`.
    pub fn from_lowercase(lower: &str, s: &str) -> (format: Result<Self, String>)
        ensures
            match format {
                Ok(f) => Self::parsed_as(lower@, s@) == Ok::<Self, Seq<char>>(f),
                Err(message) => Self::parsed_as(lower@, s@) == Err::<Self, Seq<char>>(message@),
            },
    {
        if same_text(lower, "json") {
            Ok(OutputFormat::Json)
        } else if same_text(lower, "yaml") {
            Ok(OutputFormat::Yaml)
        } else if same_text(lower, "toml") {
            Ok(OutputFormat::Toml)
        } else {
            Err(invalid_format_message(s))
        }
    }

    /// Reads a format from its name, in any letter case.
    pub fn from_str(s: &str) -> (format: Result<Self, String>)
        ensures
            match format {
                Ok(f) => Self::parsed(s@) == Ok::<Self, Seq<char>>(f),
                Err(message) => Self::parsed(s@) == Err::<Self, Seq<char>>(message@),
            },
    {
        let lower = to_lowercase(s);
        Self::from_lowercase(lower.as_str(), s)
    }

    /// The name of the format.
    pub fn to_string(&self) -> (name: String)
        ensures
            name@ == self.name(),
    {
        let name: &'static str = <&'static str>::from(*self);
        name.to_owned()
    }
}

/// Whether the character at `i` is the last dot of `text`.
pub open spec fn is_last_dot(text: Seq<char>, i: int) -> bool {
    &&& 0 <= i < text.len()
    &&& text[i] == '.'
    &&& forall|j: int| i < j < text.len() ==> text[j] != '.'
}

/// What follows the last dot of `text`, if it has a dot.
pub open spec fn extension(text: Seq<char>) -> Option<Seq<char>> {
    if exists|i: int| is_last_dot(text, i) {
        let i = choose|i: int| is_last_dot(text, i);
        Some(text.subrange(i + 1, text.len() as int))
    } else {
        None
    }
}

/// Cuts what follows the last dot out of `text`.
pub fn extension_of(text: &str) -> (ext: Option<&str>)
    ensures
        match ext {
            Some(e) => extension(text@) == Some(e@),
            None => extension(text@) is None,
        },
{
    let n = text.unicode_len();
    let mut i = n;
    while i > 0
        invariant
            i <= n,
            n == text@.len(),
            forall|j: int| i <= j < n ==> text@[j] != '.',
        decreases i,
    {
        if text.get_char(i - 1) == '.' {
            proof {
                let last = (i - 1) as int;
                assert(is_last_dot(text@, last));
                assert forall|k: int| is_last_dot(text@, k) implies k == last by {
                    if k < last {
                        assert(text@[last] == '.');
                    }
                }
            }
            return Some(text.substring_char(i, n));
        }
        i -= 1;
    }
    None
}

/// What the check of an output file name yields, given its lowercase
/// form: the name itself where what follows the last dot names a format,
/// else a message.
pub open spec fn output_check_as(lower: Seq<char>, output: Seq<char>) -> Result<Seq<char>, Seq<char>> {
    match extension(lower) {
        None => Err(invalid_format(output)),
        Some(ext) => match OutputFormat::parsed(ext) {
            Ok(_) => Ok(output),
            Err(message) => Err(message),
        },
    }
}

/// What the check of an output file name yields: letter case does not
/// count.
pub open spec fn output_check(output: Seq<char>) -> Result<Seq<char>, Seq<char>> {
    output_check_as(lowercase(output), output)
}

/// Accepts an output file name whose extension names a format.
pub fn verify_output_format(output: &str) -> (checked: Result<String, String>)
    ensures
        same_texts(checked, output_check(output@)),
{
    let format = to_lowercase(output);
    let ext = match extension_of(format.as_str()) {
        Some(ext) => ext,
        None => return Err(invalid_format_message(output)),
    };
    match OutputFormat::from_str(ext) {
        Ok(_) => Ok(output.to_owned()),
        Err(message) => Err(message),
    }
}

} // verus!
