use vstd::prelude::*;

use crate::utils::{lower_of, lowercase, str_eq};

verus! {

/// The CSV output formats of the early option layer.
#[derive(Debug, Clone, Copy, PartialEq, Eq, Structural)]
pub enum OutputFormat {
    Json,
    Yaml,
}

impl OutputFormat {
    /// The file extension the format is named by.
    pub fn as_str(&self) -> (r: &'static str)
        ensures
            *self == OutputFormat::Json ==> r@ == "json"@,
            *self == OutputFormat::Yaml ==> r@ == "yaml"@,
    {
        match self {
            OutputFormat::Json => "json",
            OutputFormat::Yaml => "yaml",
        }
    }
}

/// Options for converting a CSV file, early option layer.
#[derive(Debug, Clone)]
pub struct CsvOpts {
    pub input: String,
    pub output: Option<String>,
    pub header: bool,
    pub delimiter: char,
    pub format: OutputFormat,
}

/// Options for generating a password, early option layer.
#[derive(Debug, Clone)]
pub struct GenPassOpts {
    pub length: u8,
    pub uppercase: bool,
    pub lowercase: bool,
    pub number: bool,
    pub symbol: bool,
}

/// Relies on std's `Path::exists`: whether the name refers to an existing
/// filesystem entry. The answer depends on the state of the disk.
#[verifier::external_body]
fn path_exists(name: &str) -> bool {
    std::path::Path::new(name).exists()
}

/// Accept an input-file argument: it must exist on disk.
pub fn verify_input_file(filename: &str) -> (r: Result<String, &'static str>)
    ensures
        r matches Ok(f) ==> f@ == filename@,
        r matches Err(e) ==> e@ == "File dose not exists"@,
{
    if path_exists(filename) {
        Ok(String::from_str(filename))
    } else {
        Err("File dose not exists")
    }
}

/// Parse an output-format name, case-insensitively: exactly `json` and
/// `yaml` are accepted.
pub fn parse_format(format: &str) -> (r: Result<OutputFormat, &'static str>)
    ensures
        r == Ok::<_, &'static str>(OutputFormat::Json) <==> lower_of(format@) == "json"@,
        r == Ok::<_, &'static str>(OutputFormat::Yaml) <==> lower_of(format@) == "yaml"@,
        r matches Err(e) ==> e@ == "Invalid format"@,
{
    proof {
        reveal_strlit("json");
        reveal_strlit("yaml");
        assert(("json")@[0] == 'j' && ("yaml")@[0] == 'y');
        assert(("json")@ != ("yaml")@);
    }
    let lowered = lowercase(format);
    if str_eq(lowered.as_str(), "json") {
        Ok(OutputFormat::Json)
    } else if str_eq(lowered.as_str(), "yaml") {
        Ok(OutputFormat::Yaml)
    } else {
        Err("Invalid format")
    }
}

} // verus!
