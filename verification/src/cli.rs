use vstd::prelude::*;

use crate::b64::Base64Format;
use crate::text::TextSignFormat;
use crate::utils::str_eq;

verus! {

/// Options for base64-encoding an input source.
#[derive(Debug, Clone)]
pub struct Base64EncodeOpts {
    /// The input file, or the dash sentinel for standard input.
    pub input: String,
    pub format: Base64Format,
    pub no_padding: bool,
}

/// Options for base64-decoding an input source.
#[derive(Debug, Clone)]
pub struct Base64DecodeOpts {
    /// The input file, or the dash sentinel for standard input.
    pub input: String,
    pub format: Base64Format,
    pub no_padding: bool,
}

/// The base64 subcommands.
#[derive(Debug, Clone)]
pub enum Base64SubCommand {
    Encode(Base64EncodeOpts),
    Decode(Base64DecodeOpts),
}

/// The CSV output formats.
#[derive(Debug, Clone, Copy, PartialEq, Eq, Structural)]
pub enum OutputFormat {
    Json,
    Yaml,
}

impl OutputFormat {
    /// The file extension the format is named by.
    pub fn as_str(&self) -> (r: &'static str)
        ensures
            *self == OutputFormat::Json ==> r@ == "json"@,
            *self == OutputFormat::Yaml ==> r@ == "yaml"@,
    {
        match self {
            OutputFormat::Json => "json",
            OutputFormat::Yaml => "yaml",
        }
    }
}

/// Options for converting a CSV file.
#[derive(Debug, Clone)]
pub struct CsvOpts {
    pub input: String,
    pub output: Option<String>,
    pub format: OutputFormat,
}

/// Options for generating a password.
#[derive(Debug, Clone)]
pub struct GenPassOpts {
    pub length: u8,
    pub no_uppercase: bool,
    pub no_lowercase: bool,
    pub no_number: bool,
    pub no_symbol: bool,
}

/// Options for serving a directory over HTTP.
#[derive(Debug, Clone)]
pub struct HttpServeOpts {
    pub dir: String,
    pub port: u16,
}

/// The HTTP subcommands.
#[derive(Debug, Clone)]
pub enum HttpSubCommand {
    Serve(HttpServeOpts),
}

/// Options for signing a JWT.
#[derive(Debug, Clone)]
pub struct JwtSignOpts {
    /// The secret key file, or the dash sentinel for standard input.
    pub key: String,
    pub sub: String,
    pub aud: String,
    /// Expiration time in seconds from now.
    pub exp: u64,
}

/// Options for verifying a JWT.
#[derive(Debug, Clone)]
pub struct JwtVerifyOpts {
    /// The secret key file, or the dash sentinel for standard input.
    pub key: String,
    pub jwt: String,
}

/// The JWT subcommands.
#[derive(Debug, Clone)]
pub enum JwtSubCommand {
    Sign(JwtSignOpts),
    Verify(JwtVerifyOpts),
}

/// Options for signing a message.
#[derive(Debug, Clone)]
pub struct TextSignOpts {
    pub input: String,
    pub key: String,
    pub format: TextSignFormat,
}

/// Options for verifying a signed message.
#[derive(Debug, Clone)]
pub struct TextVerifyOpts {
    pub input: String,
    pub key: String,
    pub format: TextSignFormat,
    pub sig: String,
}

/// Options for generating key material.
#[derive(Debug, Clone)]
pub struct TextGenKeyOpts {
    pub format: TextSignFormat,
    pub output: String,
}

/// Options for encrypting text.
#[derive(Debug, Clone)]
pub struct TextEncryptOpts {
    /// The key, or the dash sentinel for a freshly generated one.
    pub key: String,
    pub text: String,
}

/// Options for decrypting text.
#[derive(Debug, Clone)]
pub struct TextDecryptOpts {
    /// The key, or the dash sentinel when the record embeds it.
    pub key: String,
    pub text: String,
}

/// The text subcommands.
#[derive(Debug, Clone)]
pub enum TextSubCommand {
    Sign(TextSignOpts),
    Verify(TextVerifyOpts),
    GenKey(TextGenKeyOpts),
    Encrypt(TextEncryptOpts),
    Decrypt(TextDecryptOpts),
}

/// Options for formatting a Unix timestamp.
#[derive(Debug, Clone)]
pub struct TimeOpts {
    /// The timestamp; zero means now.
    pub unix: u64,
}

/// Relies on std's `Path::exists`: whether the name refers to an existing
/// filesystem entry. The answer depends on the state of the disk.
#[verifier::external_body]
fn path_exists(name: &str) -> bool {
    std::path::Path::new(name).exists()
}

/// Relies on std's `Path::is_dir`: whether the name refers to an existing
/// directory. The answer depends on the state of the disk.
#[verifier::external_body]
fn path_is_dir(name: &str) -> bool {
    std::path::Path::new(name).is_dir()
}

/// Accept an input-file argument: the dash sentinel always passes, any
/// other name passes only when it exists on disk.
pub fn verify_file(filename: &str) -> (r: Result<String, &'static str>)
    ensures
        filename@ == "-"@ ==> r is Ok,
        r matches Ok(f) ==> f@ == filename@,
        r matches Err(e) ==> filename@ != "-"@ && e@ == "File dose not exist"@,
{
    if str_eq(filename, "-") || path_exists(filename) {
        Ok(String::from_str(filename))
    } else {
        Err("File dose not exist")
    }
}

/// Accept a directory argument: it must exist and be a directory.
pub fn verify_dir(path: &str) -> (r: Result<String, &'static str>)
    ensures
        r matches Ok(p) ==> p@ == path@,
        r matches Err(e) ==> e@ == "Path does not exist or is not a directory"@,
{
    if path_exists(path) && path_is_dir(path) {
        Ok(String::from_str(path))
    } else {
        Err("Path does not exist or is not a directory")
    }
}

} // verus!
