//! The options of the command line, as plain values, and the checks that
//! its arguments go through.
pub mod b64;
pub mod csv;
pub mod gen_pass;
pub mod http_serve;
pub mod text;

use crate::cli::b64::Base64SubCmd;
use crate::cli::csv::CsvOpts;
use crate::cli::gen_pass::GenPassOpts;
use crate::cli::http_serve::HttpServeSubCmd;
use crate::cli::text::TextSubCmd;
use crate::utils::{join_text, same_text, same_texts};
use vstd::prelude::*;

verus! {

/// The command line as a whole.
#[derive(Debug)]
pub struct CliOpts {
    /// The subcommand chosen.
    pub subcmd: SubCmd,
}

/// The subcommands.
#[derive(Debug)]
pub enum SubCmd {
    /// Convert a CSV file.
    Csv(CsvOpts),
    /// Generate a password.
    GenPass(GenPassOpts),
    /// Encode or decode base64.
    Base64(Base64SubCmd),
    /// Sign, verify, encrypt or decrypt text, or generate a key.
    Text(TextSubCmd),
    /// Serve a directory over HTTP.
    Http(HttpServeSubCmd),
}

/// The name that stands for standard input where a file is expected.
pub open spec fn stdin_name() -> Seq<char> {
    "-"@
}

/// What the check of an input file yields, given whether the file exists:
/// the name itself where it stands for standard input or names an
/// existing file, else a message.
pub open spec fn file_check(filename: Seq<char>, exists: bool) -> Result<Seq<char>, Seq<char>> {
    if filename == stdin_name() || exists {
        Ok(filename)
    } else {
        Err("File not found: "@ + filename)
    }
}

/// Accepts an input file name that stands for standard input or names an
/// existing file; `exists` tells whether the file system has such a file.
pub fn verify_file(filename: &str, exists: bool) -> (checked: Result<String, String>)
    ensures
        same_texts(checked, file_check(filename@, exists)),
{
    if same_text(filename, "-") || exists {
        Ok(filename.to_owned())
    } else {
        Err(join_text("File not found: ", filename))
    }
}

/// Accepts the name of an existing file; `-` has no special meaning here,
/// and `exists` tells whether the file system has such a file.
pub fn verify_file_exists(filename: &str, exists: bool) -> (checked: Result<String, String>)
    ensures
        match checked {
            Ok(name) => exists && name@ == filename@,
            Err(message) => !exists && message@ == "File not found: "@ + filename@,
        },
{
    if exists {
        Ok(filename.to_owned())
    } else {
        Err(join_text("File not found: ", filename))
    }
}

/// The message with which a path that is no directory is refused.
pub open spec fn not_a_directory() -> Seq<char> {
    "path is not exist or not a directory"@
}

/// Accepts the path of an existing directory; `exists` and `is_dir` tell
/// what the file system has at the path.
pub fn verify_path(path: &str, exists: bool, is_dir: bool) -> (checked: Result<String, &'static str>)
    ensures
        match checked {
            Ok(dir) => exists && is_dir && dir@ == path@,
            Err(message) => !(exists && is_dir) && message@ == not_a_directory(),
        },
{
    if exists && is_dir {
        Ok(path.to_owned())
    } else {
        Err("path is not exist or not a directory")
    }
}

} // verus!
