//! Options of the `http` subcommand.
use vstd::prelude::*;

verus! {

/// The operations of the `http` subcommand.
#[derive(Debug)]
pub enum HttpServeSubCmd {
    /// Serve a directory.
    Serve(HttpServeOpts),
}

/// Options for serving a directory.
#[derive(Debug)]
pub struct HttpServeOpts {
    /// The directory to serve.
    pub dir: String,
    /// The port to listen on.
    pub port: u16,
}

} // verus!
