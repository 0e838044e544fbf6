//! The laws of the resolution engine, each proved from the contracts
//! the other modules state.

use vstd::prelude::*;

use crate::accessors::chainbase_url_of;
use crate::accessors::chains_url_of;
use crate::accessors::docker_images_of;
use crate::accessors::fallback_chainbase_url;
use crate::accessors::fallback_chains_url;
use crate::accessors::fallback_hasura_image;
use crate::accessors::fallback_job_manager_image;
use crate::accessors::fallback_status_text;
use crate::accessors::status_text_of;
use crate::document::RawDocumentSpec;
use crate::document::baseline_spec;
use crate::document::settings_of;
use crate::error::ConfigError;
use crate::resolver::OverrideSourceSpec;
use crate::resolver::first_match_found;
use crate::resolver::resolution_of;
use crate::schema::Settings;

verus! {

/// Idempotence: every accessor is a function of the cached resolution
/// result alone, so as long as one process run serves the accessors the
/// same cached result, repeated calls return identical values.
pub proof fn lemma_accessors_idempotent(
    first: Result<Settings, ConfigError>,
    second: Result<Settings, ConfigError>,
)
    requires
        first == second,
    ensures
        chains_url_of(first) == chains_url_of(second),
        status_text_of(first) == status_text_of(second),
        chainbase_url_of(first) == chainbase_url_of(second),
        forall|arm64: bool| docker_images_of(first, arm64) == docker_images_of(second, arm64),
{
}

/// Precedence: when the override document defines the base URL, the
/// resolved base URL is the override's value, whatever the baseline
/// defines for it.
pub proof fn lemma_override_precedence(overlay: RawDocumentSpec, value: Seq<char>)
    requires
        overlay.api_base_url == Some(value),
    ensures
        resolution_of(OverrideSourceSpec::Document(overlay)) is Ok,
        resolution_of(OverrideSourceSpec::Document(overlay))->Ok_0.api.base_url == value,
{
}

/// Fallthrough: when the override document omits the base URL, the
/// resolved base URL is the baseline's value, whatever other leaves the
/// override defines.
pub proof fn lemma_baseline_fallthrough(overlay: RawDocumentSpec)
    requires
        overlay.api_base_url is None,
    ensures
        resolution_of(OverrideSourceSpec::Document(overlay)) is Ok,
        resolution_of(OverrideSourceSpec::Document(overlay))->Ok_0.api.base_url
            == baseline_spec().api_base_url->0,
{
}

/// Resolution with a parsed override document always succeeds: the
/// baseline defines every leaf, so the merged document is complete.
pub proof fn lemma_override_never_fails(overlay: RawDocumentSpec)
    ensures
        resolution_of(OverrideSourceSpec::Document(overlay)) is Ok,
{
}

/// Search order: whenever some candidate is present, the search finds
/// one, and it never picks a candidate of lower priority than a present
/// one — so of two present candidates the earlier path wins.
pub proof fn lemma_search_order(present: Seq<bool>, chosen: Option<usize>, i: int)
    requires
        first_match_found(present, chosen),
        0 <= i < present.len(),
        present[i],
    ensures
        chosen is Some,
        chosen->0 <= i,
{
}

/// Total absence: with no external file present anywhere on the search
/// path, resolution succeeds on the embedded baseline alone.
pub proof fn lemma_total_absence()
    ensures
        resolution_of(OverrideSourceSpec::Absent) is Ok,
        resolution_of(OverrideSourceSpec::Absent)->Ok_0 == settings_of(baseline_spec()),
{
}

/// Failure fallback: a malformed override makes resolution fail, and on
/// a failed resolution every accessor returns its documented hardcoded
/// literal — the error never reaches an accessor's caller.
pub proof fn lemma_failure_fallback(detail: Seq<char>, e: ConfigError)
    ensures
        resolution_of(OverrideSourceSpec::Malformed(detail)) is Err,
        chains_url_of(Err(e)) == fallback_chains_url(),
        status_text_of(Err(e)) == fallback_status_text(),
        chainbase_url_of(Err(e)) == fallback_chainbase_url(),
        forall|arm64: bool|
            docker_images_of(Err(e), arm64) == (
                fallback_job_manager_image(),
                fallback_hasura_image(),
            ),
{
}

/// Architecture selection: on a successful resolution the docker-images
/// accessor returns the arm64 pair exactly on 64-bit ARM and the amd64
/// pair otherwise.
pub proof fn lemma_architecture_selection(settings: Settings)
    ensures
        docker_images_of(Ok(settings), true) == (
            settings@.node.job_manager_image_arm64,
            settings@.node.hasura_image_arm64,
        ),
        docker_images_of(Ok(settings), false) == (
            settings@.node.job_manager_image_amd64,
            settings@.node.hasura_image_amd64,
        ),
{
}

} // verus!
