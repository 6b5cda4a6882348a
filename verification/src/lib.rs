//! A uniform signing and verification core over two unrelated primitives: a
//! symmetric keyed hash (blake3) and an asymmetric signature scheme
//! (Ed25519), behind one set of capability traits, with signatures carried
//! as URL-safe, unpadded base64 text.

pub mod cli;
pub mod encoding;
pub mod errors;
pub mod genpass;
pub mod process;
pub mod utils;

pub use cli::csv::{CsvOpts, OutputFormat};
pub use cli::text::{
    TextKeyGenerateOpts, TextSignFormat, TextSignOpts, TextSubCommand, TextVerifyOpts,
};
pub use cli::{verify_file, verify_path};
pub use errors::TextError;
pub use process::text::{
    process_text_generate, process_text_sign, process_text_verify, Blake3, Ed25519Signer,
    Ed25519Verifier, KeyGenerator, KeyLoader, TextSign, TextVerify,
};
