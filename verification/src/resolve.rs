//! Parameter resolution: from the raw job description to a validated
//! configuration, and the error taxonomy every stage of the pipeline reports
//! through.

use vstd::prelude::*;
use vstd::string::StringExecFns;
use crate::params::{JobSpec, ParamV, bool_param, list_param, string_param, str_views};
use crate::text::{has_suffix, str_ends_with, str_eq};

verus! {

/// The container format a result is encoded in.
#[derive(Clone, Copy, PartialEq, Eq, Structural, Debug)]
pub enum OutputFormat {
    Json,
    Xml,
}

/// Everything that can go wrong during one job, with the data its
/// diagnostic carries.
#[derive(Debug)]
pub enum PipelineError {
    /// The filter-source mode names neither inline text nor a file.
    UnsupportedMode { mode: String },
    /// The filter parameter is absent.
    MissingTemplate,
    /// Neither a single source path nor a non-empty list of them is given.
    MissingSources,
    /// The destination parameter is absent.
    MissingDestination,
    /// The output format names neither JSON nor XML.
    UnsupportedOutputMode { mode: String },
    /// A path names no existing file.
    NoSuchFile { path: String },
    /// A path names a directory instead of a regular file.
    PathIsDirectory { path: String },
    /// The filter file exists but could not be read.
    FilterReadFailed { message: String },
    /// The filter text does not compile.
    CompileFailed { message: String },
    /// A source file could not be read.
    ReadFailed { path: String, message: String },
    /// A source document could not be decoded into canonical JSON text.
    DecodeFailed { path: String, message: String },
    /// The compiled filter failed against a document.
    RunFailed { message: String },
    /// A result could not be encoded in the requested output format.
    EncodeFailed { message: String },
    /// The destination could not be written.
    WriteFailed { message: String },
}

/// The mathematical shape of a `PipelineError`.
pub enum ErrorV {
    UnsupportedMode { mode: Seq<char> },
    MissingTemplate,
    MissingSources,
    MissingDestination,
    UnsupportedOutputMode { mode: Seq<char> },
    NoSuchFile { path: Seq<char> },
    PathIsDirectory { path: Seq<char> },
    FilterReadFailed { message: Seq<char> },
    CompileFailed { message: Seq<char> },
    ReadFailed { path: Seq<char>, message: Seq<char> },
    DecodeFailed { path: Seq<char>, message: Seq<char> },
    RunFailed { message: Seq<char> },
    EncodeFailed { message: Seq<char> },
    WriteFailed { message: Seq<char> },
}

impl View for PipelineError {
    type V = ErrorV;

    open spec fn view(&self) -> ErrorV {
        match self {
            PipelineError::UnsupportedMode { mode } => ErrorV::UnsupportedMode { mode: mode@ },
            PipelineError::MissingTemplate => ErrorV::MissingTemplate,
            PipelineError::MissingSources => ErrorV::MissingSources,
            PipelineError::MissingDestination => ErrorV::MissingDestination,
            PipelineError::UnsupportedOutputMode { mode } => ErrorV::UnsupportedOutputMode {
                mode: mode@,
            },
            PipelineError::NoSuchFile { path } => ErrorV::NoSuchFile { path: path@ },
            PipelineError::PathIsDirectory { path } => ErrorV::PathIsDirectory { path: path@ },
            PipelineError::FilterReadFailed { message } => ErrorV::FilterReadFailed {
                message: message@,
            },
            PipelineError::CompileFailed { message } => ErrorV::CompileFailed {
                message: message@,
            },
            PipelineError::ReadFailed { path, message } => ErrorV::ReadFailed {
                path: path@,
                message: message@,
            },
            PipelineError::DecodeFailed { path, message } => ErrorV::DecodeFailed {
                path: path@,
                message: message@,
            },
            PipelineError::RunFailed { message } => ErrorV::RunFailed { message: message@ },
            PipelineError::EncodeFailed { message } => ErrorV::EncodeFailed {
                message: message@,
            },
            PipelineError::WriteFailed { message } => ErrorV::WriteFailed { message: message@ },
        }
    }
}

/// The diagnostic text of each error.
pub open spec fn error_message(e: ErrorV) -> Seq<char> {
    match e {
        ErrorV::UnsupportedMode { mode } => "mode \""@ + mode + "\" not supported."@,
        ErrorV::MissingTemplate => "Missing template parameter"@,
        ErrorV::MissingSources => "Source path(s) must be defined."@,
        ErrorV::MissingDestination => "Destination path must be defined."@,
        ErrorV::UnsupportedOutputMode { mode } => "output mode \""@ + mode
            + "\" not supported."@,
        ErrorV::NoSuchFile { path } => "No such file: \""@ + path + "\""@,
        ErrorV::PathIsDirectory { path } => "Path is a directory: \""@ + path + "\""@,
        ErrorV::FilterReadFailed { message } => message,
        ErrorV::CompileFailed { message } => message,
        ErrorV::ReadFailed { path, message } => "Unable to read file "@ + path + ": "@ + message,
        ErrorV::DecodeFailed { path, message } => "Unable to convert input to json "@ + path
            + ": "@ + message,
        ErrorV::RunFailed { message } => "Unable to process with JQ: "@ + message,
        ErrorV::EncodeFailed { message } => "Unable to write xml from json: "@ + message,
        ErrorV::WriteFailed { message } => "Unable to write generated result: "@ + message,
    }
}

impl PipelineError {
    /// The diagnostic text, as `error_message` states it.
    pub fn message(&self) -> (r: String)
        ensures
            r@ == error_message(self@),
    {
        match self {
            PipelineError::UnsupportedMode { mode } => {
                let mut s = String::from_str("mode \"");
                s.append(mode.as_str());
                s.append("\" not supported.");
                s
            },
            PipelineError::MissingTemplate => String::from_str("Missing template parameter"),
            PipelineError::MissingSources => String::from_str("Source path(s) must be defined."),
            PipelineError::MissingDestination => String::from_str(
                "Destination path must be defined.",
            ),
            PipelineError::UnsupportedOutputMode { mode } => {
                let mut s = String::from_str("output mode \"");
                s.append(mode.as_str());
                s.append("\" not supported.");
                s
            },
            PipelineError::NoSuchFile { path } => {
                let mut s = String::from_str("No such file: \"");
                s.append(path.as_str());
                s.append("\"");
                s
            },
            PipelineError::PathIsDirectory { path } => {
                let mut s = String::from_str("Path is a directory: \"");
                s.append(path.as_str());
                s.append("\"");
                s
            },
            PipelineError::FilterReadFailed { message } => message.clone(),
            PipelineError::CompileFailed { message } => message.clone(),
            PipelineError::ReadFailed { path, message } => {
                let mut s = String::from_str("Unable to read file ");
                s.append(path.as_str());
                s.append(": ");
                s.append(message.as_str());
                s
            },
            PipelineError::DecodeFailed { path, message } => {
                let mut s = String::from_str("Unable to convert input to json ");
                s.append(path.as_str());
                s.append(": ");
                s.append(message.as_str());
                s
            },
            PipelineError::RunFailed { message } => {
                let mut s = String::from_str("Unable to process with JQ: ");
                s.append(message.as_str());
                s
            },
            PipelineError::EncodeFailed { message } => {
                let mut s = String::from_str("Unable to write xml from json: ");
                s.append(message.as_str());
                s
            },
            PipelineError::WriteFailed { message } => {
                let mut s = String::from_str("Unable to write generated result: ");
                s.append(message.as_str());
                s
            },
        }
    }
}

/// The validated configuration of one job.
pub struct ResolvedConfig {
    pub filter_text: String,
    pub source_paths: Vec<String>,
    pub destination_path: String,
    pub aggregate: bool,
    pub output_format: OutputFormat,
}

/// The mathematical shape of a `ResolvedConfig`.
pub struct ConfigV {
    pub filter: Seq<char>,
    pub sources: Seq<Seq<char>>,
    pub dest: Seq<char>,
    pub aggregate: bool,
    pub output: OutputFormat,
}

impl ConfigV {
    /// A configuration always names at least one source.
    pub open spec fn wf(self) -> bool {
        self.sources.len() > 0
    }
}

impl View for ResolvedConfig {
    type V = ConfigV;

    open spec fn view(&self) -> ConfigV {
        ConfigV {
            filter: self.filter_text@,
            sources: str_views(self.source_paths@),
            dest: self.destination_path@,
            aggregate: self.aggregate,
            output: self.output_format,
        }
    }
}

/// The filter-source mode: the named parameter, or inline text by default.
pub open spec fn template_mode(job: Seq<ParamV>) -> Seq<char> {
    match string_param(job, "template_mode"@) {
        Some(m) => m,
        None => "string"@,
    }
}

/// How the filter text is obtained, or why it cannot be.
pub enum FilterResolution {
    /// The filter parameter is the filter text itself.
    Inline(Seq<char>),
    /// The filter parameter names a file whose contents are the filter text.
    FromFile(Seq<char>),
    /// The job's filter parameters are invalid.
    Invalid(ErrorV),
}

/// Where the filter text comes from, given the job's parameters.
pub open spec fn filter_resolution(job: Seq<ParamV>) -> FilterResolution {
    let mode = template_mode(job);
    if mode == "string"@ {
        match string_param(job, "template"@) {
            Some(t) => FilterResolution::Inline(t),
            None => FilterResolution::Invalid(ErrorV::MissingTemplate),
        }
    } else if mode == "file"@ {
        match string_param(job, "template"@) {
            Some(p) => FilterResolution::FromFile(p),
            None => FilterResolution::Invalid(ErrorV::MissingTemplate),
        }
    } else {
        FilterResolution::Invalid(ErrorV::UnsupportedMode { mode })
    }
}

/// The source locations: a single path takes precedence over the list.
pub open spec fn sources_param(job: Seq<ParamV>) -> Option<Seq<Seq<char>>> {
    match string_param(job, "source_path"@) {
        Some(p) => Some(seq![p]),
        None => list_param(job, "source_paths"@),
    }
}

/// The aggregate ("slurp") flag, false by default.
pub open spec fn aggregate_flag(job: Seq<ParamV>) -> bool {
    match bool_param(job, "slurp"@) {
        Some(b) => b,
        None => false,
    }
}

/// The output format: the named parameter when present, otherwise the format
/// the destination's extension implies (JSON unless it ends in `.xml`).
pub open spec fn output_format(job: Seq<ParamV>, dest: Seq<char>) -> Result<
    OutputFormat,
    ErrorV,
> {
    match string_param(job, "output_mode"@) {
        Some(m) => if m == "json"@ {
            Ok(OutputFormat::Json)
        } else if m == "xml"@ {
            Ok(OutputFormat::Xml)
        } else {
            Err(ErrorV::UnsupportedOutputMode { mode: m })
        },
        None => if has_suffix(dest, ".xml"@) {
            Ok(OutputFormat::Xml)
        } else {
            Ok(OutputFormat::Json)
        },
    }
}

/// The whole configuration, given the job's parameters and the materialized
/// filter text.
pub open spec fn spec_resolve(job: Seq<ParamV>, filter: Seq<char>) -> Result<ConfigV, ErrorV> {
    match sources_param(job) {
        None => Err(ErrorV::MissingSources),
        Some(sources) => if sources.len() == 0 {
            Err(ErrorV::MissingSources)
        } else {
            match string_param(job, "destination_path"@) {
                None => Err(ErrorV::MissingDestination),
                Some(dest) => match output_format(job, dest) {
                    Err(e) => Err(e),
                    Ok(output) => Ok(
                        ConfigV {
                            filter,
                            sources,
                            dest,
                            aggregate: aggregate_flag(job),
                            output,
                        },
                    ),
                },
            }
        },
    }
}

/// The filter text, or the path it must be read from, or the parameter error.
pub enum FilterSource {
    Inline(String),
    FileReference(String),
}

/// Resolves where the filter text comes from, as `filter_resolution` states.
pub fn resolve_filter_source(job: &JobSpec) -> (r: Result<FilterSource, PipelineError>)
    ensures
        match r {
            Ok(FilterSource::Inline(t)) => filter_resolution(job@) == FilterResolution::Inline(
                t@,
            ),
            Ok(FilterSource::FileReference(p)) => filter_resolution(job@)
                == FilterResolution::FromFile(p@),
            Err(e) => filter_resolution(job@) == FilterResolution::Invalid(e@),
        },
{
    let mode = match job.get_string_parameter("template_mode") {
        Some(m) => m,
        None => String::from_str("string"),
    };
    if str_eq(mode.as_str(), "string") {
        match job.get_string_parameter("template") {
            Some(t) => Ok(FilterSource::Inline(t)),
            None => Err(PipelineError::MissingTemplate),
        }
    } else if str_eq(mode.as_str(), "file") {
        match job.get_string_parameter("template") {
            Some(p) => Ok(FilterSource::FileReference(p)),
            None => Err(PipelineError::MissingTemplate),
        }
    } else {
        Err(PipelineError::UnsupportedMode { mode })
    }
}

/// Resolves the remaining parameters, as `spec_resolve` states.
pub fn resolve(job: &JobSpec, filter_text: String) -> (r: Result<ResolvedConfig, PipelineError>)
    ensures
        match r {
            Ok(cfg) => spec_resolve(job@, filter_text@) == Ok::<ConfigV, ErrorV>(cfg@)
                && cfg@.wf(),
            Err(e) => spec_resolve(job@, filter_text@) == Err::<ConfigV, ErrorV>(e@),
        },
{
    let source_paths = match job.get_string_parameter("source_path") {
        Some(p) => {
            let mut v: Vec<String> = Vec::new();
            v.push(p);
            proof {
                assert(str_views(v@) =~= sources_param(job@).unwrap());
            }
            v
        },
        None => match job.get_array_of_strings_parameter("source_paths") {
            Some(l) => l,
            None => {
                return Err(PipelineError::MissingSources);
            },
        },
    };
    if source_paths.len() == 0 {
        return Err(PipelineError::MissingSources);
    }
    let destination_path = match job.get_string_parameter("destination_path") {
        Some(d) => d,
        None => {
            return Err(PipelineError::MissingDestination);
        },
    };
    let output_format = match job.get_string_parameter("output_mode") {
        Some(m) => if str_eq(m.as_str(), "json") {
            OutputFormat::Json
        } else if str_eq(m.as_str(), "xml") {
            OutputFormat::Xml
        } else {
            return Err(PipelineError::UnsupportedOutputMode { mode: m });
        },
        None => if str_ends_with(destination_path.as_str(), ".xml") {
            OutputFormat::Xml
        } else {
            OutputFormat::Json
        },
    };
    let aggregate = match job.get_boolean_parameter("slurp") {
        Some(b) => b,
        None => false,
    };
    Ok(
        ResolvedConfig {
            filter_text,
            source_paths,
            destination_path,
            aggregate,
            output_format,
        },
    )
}

} // verus!
