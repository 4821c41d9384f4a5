//! Options of the `genpass` subcommand.
use vstd::prelude::*;

verus! {

/// Options for generating a password.
#[derive(Debug)]
pub struct GenPassOpts {
    /// The length of the password.
    pub length: u8,
    /// Whether lowercase letters are drawn.
    pub lowercase: bool,
    /// Whether uppercase letters are drawn.
    pub uppercase: bool,
    /// Whether digits are drawn.
    pub number: bool,
    /// Whether symbols are drawn.
    pub symbol: bool,
}

} // verus!
