//! The operations behind each subcommand.
pub mod aead;
pub mod b64;
pub mod csv_convert;
pub mod gen_pass;
pub mod http_serve;
pub mod mac;
pub mod signature;
pub mod text;
