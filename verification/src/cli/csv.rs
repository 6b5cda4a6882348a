use vstd::prelude::*;
use vstd::string::StringSliceAdditionalSpecFns;

use crate::errors::TextError;
use crate::utils::{ascii_lower, eq_lowered};

verus! {

/// The serialisation format the CSV converter writes.
#[derive(Clone, Copy, Debug, PartialEq, Eq, Structural)]
pub enum OutputFormat {
    Json,
    Yaml,
}

/// The bytes of the tag `json`.
pub open spec fn json_tag() -> Seq<u8> {
    seq![106u8, 115u8, 111u8, 110u8]
}

/// The bytes of the tag `yaml`.
pub open spec fn yaml_tag() -> Seq<u8> {
    seq![121u8, 97u8, 109u8, 108u8]
}

/// Which output format a tag selects, compared case-insensitively; `None`
/// for any other text.
pub open spec fn parse_output_format_spec(s: Seq<u8>) -> Option<OutputFormat> {
    if ascii_lower(s) == json_tag() {
        Some(OutputFormat::Json)
    } else if ascii_lower(s) == yaml_tag() {
        Some(OutputFormat::Yaml)
    } else {
        None
    }
}

fn json_tag_bytes() -> (r: Vec<u8>)
    ensures
        r@ == json_tag(),
{
    let mut v: Vec<u8> = Vec::new();
    v.push(106);
    v.push(115);
    v.push(111);
    v.push(110);
    proof {
        assert(v@ =~= json_tag());
    }
    v
}

fn yaml_tag_bytes() -> (r: Vec<u8>)
    ensures
        r@ == yaml_tag(),
{
    let mut v: Vec<u8> = Vec::new();
    v.push(121);
    v.push(97);
    v.push(109);
    v.push(108);
    proof {
        assert(v@ =~= yaml_tag());
    }
    v
}

/// Parse the case-insensitive output-format tag, `json` or `yaml`.
pub fn parse_format(format: &str) -> (r: Result<OutputFormat, TextError>)
    ensures
        match r {
            Ok(f) => parse_output_format_spec(format.spec_bytes()) == Some(f),
            Err(e) => parse_output_format_spec(format.spec_bytes()) is None && e
                == TextError::InvalidFormat,
        },
{
    let bytes = format.as_bytes();
    if eq_lowered(bytes, json_tag_bytes().as_slice()) {
        Ok(OutputFormat::Json)
    } else if eq_lowered(bytes, yaml_tag_bytes().as_slice()) {
        Ok(OutputFormat::Yaml)
    } else {
        Err(TextError::InvalidFormat)
    }
}

impl OutputFormat {
    /// The canonical text of the tag.
    pub fn as_str(&self) -> (r: &'static str)
        ensures
            *self is Json ==> r@ == "json"@,
            *self is Yaml ==> r@ == "yaml"@,
    {
        match self {
            OutputFormat::Json => "json",
            OutputFormat::Yaml => "yaml",
        }
    }
}

/// Options for converting a CSV file: the input path, an optional output
/// path (a default is derived from the format when absent), the output
/// format, the field delimiter, and whether the first record is a header.
#[derive(Debug)]
pub struct CsvOpts {
    pub input: String,
    pub output: Option<String>,
    pub format: OutputFormat,
    pub delimiter: char,
    pub header: bool,
}

} // verus!
