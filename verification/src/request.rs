//! The generation request: what one run of the generator is asked to do.

use std::path::PathBuf;
use vstd::prelude::*;
use vstd::string::StringExecFns;

verus! {

/// `std::path::PathBuf`, declared so that a request can carry the two paths
/// it was given. Nothing is claimed of what a path holds: the library hands
/// paths on and never looks inside one.
#[verifier::external_type_specification]
#[verifier::external_body]
pub struct ExPathBuf(std::path::PathBuf);

/// The parameters of one run of the generator.
#[derive(Debug, PartialEq, Eq)]
pub struct GenerationRequest {
    /// The generator release to run.
    pub version: String,
    /// The API description that the generator reads.
    pub spec_file: PathBuf,
    /// The directory that receives the generated code.
    pub output_dir: PathBuf,
    /// The target language, handed to the generator as it is.
    pub language: String,
    /// Extra option tokens, handed to the generator as they are.
    pub config_options: Option<Vec<String>>,
    /// Extra value tokens, handed to the generator after the options.
    pub config_values: Option<Vec<String>>,
}

/// The generator release that is used when a request names no other.
pub open spec fn spec_default_version() -> Seq<char> {
    "6.2.0"@
}

/// The release that a request runs: the one it names, or the default.
pub open spec fn spec_version(named: Option<Seq<char>>) -> Seq<char> {
    match named {
        Some(version) => version,
        None => spec_default_version(),
    }
}

/// The mathematical content of a [`GenerationRequest`].
pub struct RequestView {
    pub version: Seq<char>,
    pub spec_file: PathBuf,
    pub output_dir: PathBuf,
    pub language: Seq<char>,
    pub config_options: Option<Seq<Seq<char>>>,
    pub config_values: Option<Seq<Seq<char>>>,
}

impl View for GenerationRequest {
    type V = RequestView;

    open spec fn view(&self) -> RequestView {
        RequestView {
            version: self.version@,
            spec_file: self.spec_file,
            output_dir: self.output_dir,
            language: self.language@,
            config_options: self.config_options.deep_view(),
            config_values: self.config_values.deep_view(),
        }
    }
}

/// Returns the generator release that is used when a request names no other.
pub fn default_version() -> (version: String)
    ensures
        version@ == spec_default_version(),
{
    String::from_str("6.2.0")
}

impl GenerationRequest {
    /// Makes a request from what was given for it. A request that names no
    /// release runs the default one; everything else is kept as it is.
    pub fn new(
        version: Option<String>,
        spec_file: PathBuf,
        output_dir: PathBuf,
        language: String,
        config_options: Option<Vec<String>>,
        config_values: Option<Vec<String>>,
    ) -> (request: GenerationRequest)
        ensures
            request@ == (RequestView {
                version: spec_version(version.deep_view()),
                spec_file,
                output_dir,
                language: language@,
                config_options: config_options.deep_view(),
                config_values: config_values.deep_view(),
            }),
    {
        let version = match version {
            Some(named) => named,
            None => default_version(),
        };
        GenerationRequest { version, spec_file, output_dir, language, config_options, config_values }
    }
}

} // verus!
