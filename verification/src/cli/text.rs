use vstd::prelude::*;
use vstd::string::StringSliceAdditionalSpecFns;

use crate::errors::TextError;
use crate::utils::{ascii_lower, eq_lowered};

verus! {

/// The algorithm tag a caller selects: a symmetric keyed hash or an
/// asymmetric signature scheme.
#[derive(Clone, Copy, Debug, PartialEq, Eq, Structural)]
pub enum TextSignFormat {
    Blake3,
    Ed25519,
}

/// The bytes of the tag `blake3`.
pub open spec fn blake3_tag() -> Seq<u8> {
    seq![98u8, 108u8, 97u8, 107u8, 101u8, 51u8]
}

/// The bytes of the tag `ed25519`.
pub open spec fn ed25519_tag() -> Seq<u8> {
    seq![101u8, 100u8, 50u8, 53u8, 53u8, 49u8, 57u8]
}

/// Which algorithm a tag selects, compared case-insensitively; `None` for
/// any other text.
pub open spec fn parse_format_spec(s: Seq<u8>) -> Option<TextSignFormat> {
    if ascii_lower(s) == blake3_tag() {
        Some(TextSignFormat::Blake3)
    } else if ascii_lower(s) == ed25519_tag() {
        Some(TextSignFormat::Ed25519)
    } else {
        None
    }
}

fn blake3_tag_bytes() -> (r: Vec<u8>)
    ensures
        r@ == blake3_tag(),
{
    let mut v: Vec<u8> = Vec::new();
    v.push(98);
    v.push(108);
    v.push(97);
    v.push(107);
    v.push(101);
    v.push(51);
    proof {
        assert(v@ =~= blake3_tag());
    }
    v
}

fn ed25519_tag_bytes() -> (r: Vec<u8>)
    ensures
        r@ == ed25519_tag(),
{
    let mut v: Vec<u8> = Vec::new();
    v.push(101);
    v.push(100);
    v.push(50);
    v.push(53);
    v.push(53);
    v.push(49);
    v.push(57);
    proof {
        assert(v@ =~= ed25519_tag());
    }
    v
}

/// Parse the case-insensitive algorithm tag, `blake3` or `ed25519`.
pub fn parse_format(format: &str) -> (r: Result<TextSignFormat, TextError>)
    ensures
        match r {
            Ok(f) => parse_format_spec(format.spec_bytes()) == Some(f),
            Err(e) => parse_format_spec(format.spec_bytes()) is None && e
                == TextError::InvalidFormat,
        },
{
    let bytes = format.as_bytes();
    if eq_lowered(bytes, blake3_tag_bytes().as_slice()) {
        Ok(TextSignFormat::Blake3)
    } else if eq_lowered(bytes, ed25519_tag_bytes().as_slice()) {
        Ok(TextSignFormat::Ed25519)
    } else {
        Err(TextError::InvalidFormat)
    }
}

impl TextSignFormat {
    /// The canonical text of the tag.
    pub fn as_str(&self) -> (r: &'static str)
        ensures
            *self is Blake3 ==> r@ == "blake3"@,
            *self is Ed25519 ==> r@ == "ed25519"@,
    {
        match self {
            TextSignFormat::Blake3 => "blake3",
            TextSignFormat::Ed25519 => "ed25519",
        }
    }
}

/// Options for signing a message: the input source (the token `-` means
/// standard input, anything else a file path), the key file path, and the
/// algorithm tag.
#[derive(Debug)]
pub struct TextSignOpts {
    pub input: String,
    pub key: String,
    pub format: TextSignFormat,
}

/// Options for verifying a signed message: input source, key file path,
/// algorithm tag, and the base64 signature text.
#[derive(Debug)]
pub struct TextVerifyOpts {
    pub input: String,
    pub key: String,
    pub format: TextSignFormat,
    pub sig: String,
}

/// Options for generating a fresh key: the algorithm tag and the directory
/// the caller will write the key files into.
#[derive(Debug)]
pub struct TextKeyGenerateOpts {
    pub format: TextSignFormat,
    pub output: String,
}

/// The text subcommands: sign a message, verify a signed message, or
/// generate a new key.
#[derive(Debug)]
pub enum TextSubCommand {
    Sign(TextSignOpts),
    Verify(TextVerifyOpts),
    Generate(TextKeyGenerateOpts),
}

} // verus!
