//! Derived accessors over the cached resolution result.
//!
//! Each accessor reads the one cached `Result` of resolution and obeys
//! an absolute fallback contract: on success it computes its value from
//! the settings' fields, and on failure it returns a hardcoded literal
//! default, so no structural error ever reaches the accessor's caller.
//! The accessors are pure functions of the cached result (and, for the
//! docker images, of the architecture the caller evaluated), so within
//! one process run repeated calls return identical values.

use vstd::prelude::*;
use vstd::string::StringExecFns;

use crate::error::ConfigError;
use crate::schema::Settings;

verus! {

/// The chains URL returned when resolution failed.
pub open spec fn fallback_chains_url() -> Seq<char> {
    "https://api.chainbase.com/api/v1/metadata/network_chains"@
}

/// The status text returned when resolution failed.
pub open spec fn fallback_status_text() -> Seq<char> {
    "[? Help] Chainbase Network [Unknown] [Unknown]"@
}

/// The job-manager image returned when resolution failed.
pub open spec fn fallback_job_manager_image() -> Seq<char> {
    "repository.chainbase.com/manuscript-node/manuscript-node:latest"@
}

/// The graphql-engine image returned when resolution failed.
pub open spec fn fallback_hasura_image() -> Seq<char> {
    "repository.chainbase.com/manuscript-node/graphql-engine-amd64:latest"@
}

/// The base URL returned when resolution failed.
pub open spec fn fallback_chainbase_url() -> Seq<char> {
    "https://api.chainbase.com"@
}

/// What the chains-URL accessor returns for a cached resolution
/// result: base URL and chains endpoint concatenated, or the fallback.
pub open spec fn chains_url_of(cached: Result<Settings, ConfigError>) -> Seq<char> {
    match cached {
        Ok(settings) => settings@.api.base_url + settings@.api.endpoints.chains,
        Err(_) => fallback_chains_url(),
    }
}

/// The status line for a network and version.
pub open spec fn status_text_for(network: Seq<char>, version: Seq<char>) -> Seq<char> {
    "[? Help] Chainbase Network ["@ + network + "] ["@ + version + "] "@
}

/// What the status-text accessor returns for a cached resolution
/// result: the status line embedding network and version, or the
/// fallback.
pub open spec fn status_text_of(cached: Result<Settings, ConfigError>) -> Seq<char> {
    match cached {
        Ok(settings) => status_text_for(settings@.app.network, settings@.app.version),
        Err(_) => fallback_status_text(),
    }
}

/// What the docker-images accessor returns for a cached resolution
/// result and an architecture: the (job manager, graphql engine) pair
/// for that architecture, or the fallback pair.
pub open spec fn docker_images_of(cached: Result<Settings, ConfigError>, arm64: bool) -> (
    Seq<char>,
    Seq<char>,
) {
    match cached {
        Ok(settings) => if arm64 {
            (settings@.node.job_manager_image_arm64, settings@.node.hasura_image_arm64)
        } else {
            (settings@.node.job_manager_image_amd64, settings@.node.hasura_image_amd64)
        },
        Err(_) => (fallback_job_manager_image(), fallback_hasura_image()),
    }
}

/// What the base-URL accessor returns for a cached resolution result:
/// the base URL alone, or the fallback.
pub open spec fn chainbase_url_of(cached: Result<Settings, ConfigError>) -> Seq<char> {
    match cached {
        Ok(settings) => settings@.api.base_url,
        Err(_) => fallback_chainbase_url(),
    }
}

impl Settings {
    /// The full API URL for fetching blockchain network chains: the
    /// base URL with the chains endpoint appended, or, when resolution
    /// failed, the documented hardcoded URL.
    pub fn get_chains_url(cached: &Result<Settings, ConfigError>) -> (url: String)
        ensures
            url@ == chains_url_of(*cached),
    {
        match cached {
            Ok(settings) => settings.api.base_url.clone().concat(
                settings.api.endpoints.chains.as_str(),
            ),
            Err(_) => String::from_str("https://api.chainbase.com/api/v1/metadata/network_chains"),
        }
    }

    /// The status line embedding the configured network and version,
    /// or, when resolution failed, the documented hardcoded line.
    pub fn get_status_text(cached: &Result<Settings, ConfigError>) -> (text: String)
        ensures
            text@ == status_text_of(*cached),
    {
        match cached {
            Ok(settings) => String::from_str("[? Help] Chainbase Network [").concat(
                settings.app.network.as_str(),
            ).concat("] [").concat(settings.app.version.as_str()).concat("] "),
            Err(_) => String::from_str("[? Help] Chainbase Network [Unknown] [Unknown]"),
        }
    }

    /// The (job manager, graphql engine) image pair for the
    /// architecture the caller evaluated — the arm64 pair on 64-bit
    /// ARM, the amd64 pair otherwise — or, when resolution failed, the
    /// documented hardcoded pair. The architecture is a property of
    /// the running process, evaluated fresh by the caller per call.
    pub fn get_docker_images(cached: &Result<Settings, ConfigError>, arm64: bool) -> (images: (
        String,
        String,
    ))
        ensures
            (images.0@, images.1@) == docker_images_of(*cached, arm64),
    {
        match cached {
            Ok(settings) => if arm64 {
                (
                    settings.node.job_manager_image_arm64.clone(),
                    settings.node.hasura_image_arm64.clone(),
                )
            } else {
                (
                    settings.node.job_manager_image_amd64.clone(),
                    settings.node.hasura_image_amd64.clone(),
                )
            },
            Err(_) => (
                String::from_str("repository.chainbase.com/manuscript-node/manuscript-node:latest"),
                String::from_str(
                    "repository.chainbase.com/manuscript-node/graphql-engine-amd64:latest",
                ),
            ),
        }
    }

    /// The configured base API URL alone, or, when resolution failed,
    /// the documented hardcoded URL.
    pub fn get_chainbase_url(cached: &Result<Settings, ConfigError>) -> (url: String)
        ensures
            url@ == chainbase_url_of(*cached),
    {
        match cached {
            Ok(settings) => settings.api.base_url.clone(),
            Err(_) => String::from_str("https://api.chainbase.com"),
        }
    }
}

} // verus!
