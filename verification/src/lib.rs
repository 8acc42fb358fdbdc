mod b64;
mod base64_opts;
mod cli;
mod errors;
mod strutil;
mod text;
mod text_opts;

pub use b64::{decode_b64, decode_signature, encode_b64, encode_signature};
pub use b64::{b64_decoding, b64_encoding, b64_std_decoding, b64_std_encoding, b64_url_decoding, b64_url_encoding};
pub use base64_opts::{Base64DecodeOpts, Base64EncodeOpts, Base64Format, Base64Subcommand};
pub use base64_opts::parse_base64_format;
pub use cli::{verify_file, GenPassOpts, Opts, Subcommand};
pub use errors::Error;
pub use text::{process_sign, process_verify};
pub use text::{Blake3, Ed25519Signer, Ed25519Verifier};
pub use text::{lemma_blake3_altered_tag_rejected, lemma_blake3_key_binding, lemma_blake3_sign_verify};
pub use text_opts::{TextSignFormat, TextSignOpts, TextSubcommand, TextVerifyOpts};
pub use text_opts::parse_format;
