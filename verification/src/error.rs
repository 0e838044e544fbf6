//! The structural error raised by a failed resolution.

use vstd::prelude::*;
use vstd::string::StringExecFns;

verus! {

/// The single error surfaced by resolution: either the merged document
/// lacks a required field, or the override document itself was
/// structurally unusable (failed to parse, or a field had the wrong
/// type). It is captured once and never retried.
#[derive(Debug)]
pub enum ConfigError {
    /// A required field is absent from the merged document; the
    /// carried string is the path of the missing field.
    MissingField(String),
    /// The override document could not be read as a configuration
    /// document; the carried string describes the defect.
    Malformed(String),
}

/// Mathematical view of [`ConfigError`].
pub enum ConfigErrorSpec {
    MissingField(Seq<char>),
    Malformed(Seq<char>),
}

impl View for ConfigError {
    type V = ConfigErrorSpec;

    open spec fn view(&self) -> ConfigErrorSpec {
        match self {
            ConfigError::MissingField(path) => ConfigErrorSpec::MissingField(path@),
            ConfigError::Malformed(detail) => ConfigErrorSpec::Malformed(detail@),
        }
    }
}

/// What [`ConfigError::message`] returns, over the view of the error.
pub open spec fn message_of(e: ConfigErrorSpec) -> Seq<char> {
    match e {
        ConfigErrorSpec::MissingField(path) => "missing required field "@ + path,
        ConfigErrorSpec::Malformed(detail) => "malformed configuration document: "@ + detail,
    }
}

impl ConfigError {
    /// A human-readable description of the error, for diagnostics.
    pub fn message(&self) -> (m: String)
        ensures
            m@ == message_of(self@),
    {
        match self {
            ConfigError::MissingField(path) => {
                String::from_str("missing required field ").concat(path.as_str())
            },
            ConfigError::Malformed(detail) => {
                String::from_str("malformed configuration document: ").concat(detail.as_str())
            },
        }
    }
}

} // verus!
