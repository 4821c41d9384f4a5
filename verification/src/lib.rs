//! Command-line toolkit core: a text authentication and encryption engine
//! (keyed-hash MAC, asymmetric signatures, authenticated encryption), the
//! wire codec its results travel in, password generation and the option
//! types of the command line.
pub mod cli;
pub mod error;
pub mod process;
pub mod utils;

pub use cli::b64::{Base64DecodeOpts, Base64EncodeOpts, Base64Format, Base64SubCmd};
pub use cli::csv::{verify_output_format, CsvOpts, OutputFormat};
pub use cli::gen_pass::GenPassOpts;
pub use cli::http_serve::{HttpServeOpts, HttpServeSubCmd};
pub use cli::text::{
    TextDecryptOpts, TextEncryptFormat, TextEncryptOpts, TextGenerateOpts, TextSignFormat,
    TextSignOpts, TextSubCmd, TextVerifyOpts,
};
pub use cli::{verify_file, verify_file_exists, verify_path, CliOpts, SubCmd};
pub use error::TextError;
pub use process::aead::{ChaCha20Poly1305Decryptor, ChaCha20Poly1305Encryptor};
pub use process::b64::{process_decode, process_encode};
pub use process::csv_convert::{process_csv, ConvertError};
pub use process::gen_pass::{process_gen_pass, GenPassError};
pub use process::http_serve::{
    file_handler, file_handler_start, relative_path, HandlerAction, HandlerEvent, HandlerState,
    HttpServerState,
};
pub use process::mac::Blake3;
pub use process::signature::{Ed25519Signer, Ed25519Verifier};
pub use process::text::{
    process_text_decrypt, process_text_encrypt, process_text_generate, process_text_sign,
    process_text_verify, KeyGenerator, KeyLoader, TextDecryptor, TextEncryptor, TextSigner,
    TextVerifier,
};
