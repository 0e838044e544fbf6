//! Resolution: candidate search and the layered build of [`Settings`].
//!
//! The caller scans a fixed, ordered list of candidate override paths
//! ([`candidate_paths`]) and layers the first present candidate — and
//! only that one — on top of the embedded baseline ([`Settings::new`]).
//! [`first_match`] is the selection rule: the earliest present
//! candidate wins and later candidates are never consulted, even when
//! the chosen one is incomplete.

use vstd::prelude::*;
use vstd::string::StringExecFns;

use crate::document::RawDocument;
use crate::document::RawDocumentSpec;
use crate::document::baseline;
use crate::document::baseline_spec;
use crate::document::deserialized;
use crate::document::into_settings;
use crate::document::merge;
use crate::document::merged;
use crate::error::ConfigError;
use crate::error::ConfigErrorSpec;
use crate::schema::Settings;
use crate::schema::SettingsSpec;

verus! {

/// What the search over the candidate paths produced: no candidate
/// present, a parsed override document, or a present candidate whose
/// text could not be read as a configuration document.
#[derive(Debug)]
pub enum OverrideSource {
    /// No candidate path exists: the baseline alone is used.
    Absent,
    /// The first present candidate, parsed into a document.
    Document(RawDocument),
    /// The first present candidate was structurally unusable; the
    /// carried string describes the defect.
    Malformed(String),
}

/// Mathematical view of [`OverrideSource`].
pub enum OverrideSourceSpec {
    Absent,
    Document(RawDocumentSpec),
    Malformed(Seq<char>),
}

impl View for OverrideSource {
    type V = OverrideSourceSpec;

    open spec fn view(&self) -> OverrideSourceSpec {
        match self {
            OverrideSource::Absent => OverrideSourceSpec::Absent,
            OverrideSource::Document(d) => OverrideSourceSpec::Document(d@),
            OverrideSource::Malformed(detail) => OverrideSourceSpec::Malformed(detail@),
        }
    }
}

/// What resolution yields for a given override source: the baseline
/// alone when no override is present, the override layered on the
/// baseline when one parsed, and the structural error when the present
/// candidate was unusable.
pub open spec fn resolution_of(source: OverrideSourceSpec) -> Result<
    SettingsSpec,
    ConfigErrorSpec,
> {
    match source {
        OverrideSourceSpec::Absent => deserialized(baseline_spec()),
        OverrideSourceSpec::Document(d) => deserialized(merged(baseline_spec(), d)),
        OverrideSourceSpec::Malformed(detail) => Err(ConfigErrorSpec::Malformed(detail)),
    }
}

/// The view of a resolution result.
pub open spec fn resolution_view(r: Result<Settings, ConfigError>) -> Result<
    SettingsSpec,
    ConfigErrorSpec,
> {
    match r {
        Ok(settings) => Ok(settings@),
        Err(e) => Err(e@),
    }
}

impl Settings {
    /// Build the settings from the embedded baseline and the given
    /// override source: the override's leaves take precedence, leaves
    /// it omits fall through to the baseline, and because the baseline
    /// is complete, resolution fails only on a malformed override.
    pub fn new(source: OverrideSource) -> (r: Result<Settings, ConfigError>)
        ensures
            resolution_view(r) == resolution_of(source@),
            !(source@ is Malformed) ==> r is Ok,
            source@ is Malformed ==> r is Err,
    {
        match source {
            OverrideSource::Absent => into_settings(&baseline()),
            OverrideSource::Document(d) => into_settings(&merge(&baseline(), &d)),
            OverrideSource::Malformed(detail) => Err(ConfigError::Malformed(detail)),
        }
    }
}

/// The directory whose `config/default.yaml` closes the candidate
/// list: the executable's directory when its lookup succeeded, the
/// current directory otherwise.
pub open spec fn final_candidate_dir(exe_dir: Option<&str>) -> Seq<char> {
    match exe_dir {
        Some(dir) => dir@,
        None => "."@,
    }
}

/// The fixed, ordered candidate list for the override file: relative
/// to the working directory, one and two levels above it, and beside
/// the running executable. A failed executable-directory lookup is not
/// an error: it degrades to the current directory.
pub fn candidate_paths(exe_dir: Option<&str>) -> (paths: Vec<String>)
    ensures
        paths@.len() == 4,
        paths@[0]@ == "config/default.yaml"@,
        paths@[1]@ == "../config/default.yaml"@,
        paths@[2]@ == "../../config/default.yaml"@,
        paths@[3]@ == final_candidate_dir(exe_dir) + "/config/default.yaml"@,
{
    let dir: &str = match exe_dir {
        Some(dir) => dir,
        None => ".",
    };
    let mut paths: Vec<String> = Vec::new();
    paths.push(String::from_str("config/default.yaml"));
    paths.push(String::from_str("../config/default.yaml"));
    paths.push(String::from_str("../../config/default.yaml"));
    paths.push(String::from_str(dir).concat("/config/default.yaml"));
    paths
}

/// What the candidate search returns when, for each candidate in
/// priority order, `present` says whether it exists: the first present
/// candidate, and none only when none is present.
pub open spec fn first_match_found(present: Seq<bool>, r: Option<usize>) -> bool {
    match r {
        Some(i) => i < present.len() && present[i as int] && (forall|j: int|
            0 <= j < i ==> !present[j]),
        None => forall|j: int| 0 <= j < present.len() ==> !present[j],
    }
}

/// Scan the candidates in priority order and pick the first present
/// one; the scan stops at the first match, so later candidates are
/// never consulted even when the chosen one is incomplete.
pub fn first_match(present: &Vec<bool>) -> (r: Option<usize>)
    ensures
        first_match_found(present@, r),
{
    let mut i: usize = 0;
    while i < present.len()
        invariant
            i <= present@.len(),
            forall|j: int| 0 <= j < i ==> !present@[j],
        decreases present@.len() - i,
    {
        if present[i] {
            return Some(i);
        }
        i = i + 1;
    }
    None
}

} // verus!
