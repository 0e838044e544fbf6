//! The merged configuration document and its layering semantics.
//!
//! A [`RawDocument`] holds, for every leaf of the [`Settings`] schema,
//! either the value a source defined for it or nothing. The embedded
//! [`baseline`] defines every leaf; an override document may define any
//! subset. [`merge`] layers an override on a base at the leaf level:
//! for each leaf the override's value wins where it is defined and the
//! base's value falls through where it is not. [`into_settings`] turns
//! a document into the typed [`Settings`], failing with the path of the
//! first missing required field when the document is incomplete.

use vstd::prelude::*;
use vstd::string::StringExecFns;

use crate::error::ConfigError;
use crate::error::ConfigErrorSpec;
use crate::schema::ApiConfig;
use crate::schema::ApiConfigSpec;
use crate::schema::ApiEndpoints;
use crate::schema::ApiEndpointsSpec;
use crate::schema::AppConfig;
use crate::schema::AppConfigSpec;
use crate::schema::NodeConfig;
use crate::schema::NodeConfigSpec;
use crate::schema::Settings;
use crate::schema::SettingsSpec;

verus! {

/// One document, as a value per leaf of the [`Settings`] schema; a
/// leaf that the document does not define is `None`.
#[derive(Debug)]
pub struct RawDocument {
    pub api_base_url: Option<String>,
    pub api_endpoints_chains: Option<String>,
    pub app_network: Option<String>,
    pub app_version: Option<String>,
    pub node_job_manager_image_arm64: Option<String>,
    pub node_hasura_image_arm64: Option<String>,
    pub node_job_manager_image_amd64: Option<String>,
    pub node_hasura_image_amd64: Option<String>,
}

/// Mathematical view of [`RawDocument`].
pub struct RawDocumentSpec {
    pub api_base_url: Option<Seq<char>>,
    pub api_endpoints_chains: Option<Seq<char>>,
    pub app_network: Option<Seq<char>>,
    pub app_version: Option<Seq<char>>,
    pub node_job_manager_image_arm64: Option<Seq<char>>,
    pub node_hasura_image_arm64: Option<Seq<char>>,
    pub node_job_manager_image_amd64: Option<Seq<char>>,
    pub node_hasura_image_amd64: Option<Seq<char>>,
}

/// The view of one optional leaf value.
pub open spec fn leaf_view(leaf: Option<String>) -> Option<Seq<char>> {
    match leaf {
        Some(value) => Some(value@),
        None => None,
    }
}

impl View for RawDocument {
    type V = RawDocumentSpec;

    open spec fn view(&self) -> RawDocumentSpec {
        RawDocumentSpec {
            api_base_url: leaf_view(self.api_base_url),
            api_endpoints_chains: leaf_view(self.api_endpoints_chains),
            app_network: leaf_view(self.app_network),
            app_version: leaf_view(self.app_version),
            node_job_manager_image_arm64: leaf_view(self.node_job_manager_image_arm64),
            node_hasura_image_arm64: leaf_view(self.node_hasura_image_arm64),
            node_job_manager_image_amd64: leaf_view(self.node_job_manager_image_amd64),
            node_hasura_image_amd64: leaf_view(self.node_hasura_image_amd64),
        }
    }
}

/// A document is complete when it defines every leaf of the schema.
pub open spec fn complete(d: RawDocumentSpec) -> bool {
    &&& d.api_base_url is Some
    &&& d.api_endpoints_chains is Some
    &&& d.app_network is Some
    &&& d.app_version is Some
    &&& d.node_job_manager_image_arm64 is Some
    &&& d.node_hasura_image_arm64 is Some
    &&& d.node_job_manager_image_amd64 is Some
    &&& d.node_hasura_image_amd64 is Some
}

/// Layering of one leaf: the override's value where it defines one,
/// the base's value where it does not.
pub open spec fn layered_leaf(base: Option<Seq<char>>, overlay: Option<Seq<char>>) -> Option<
    Seq<char>,
> {
    if overlay is Some {
        overlay
    } else {
        base
    }
}

/// Leaf-level layering of a whole document: later sources override
/// earlier ones for exactly the leaves they define.
pub open spec fn merged(base: RawDocumentSpec, overlay: RawDocumentSpec) -> RawDocumentSpec {
    RawDocumentSpec {
        api_base_url: layered_leaf(base.api_base_url, overlay.api_base_url),
        api_endpoints_chains: layered_leaf(base.api_endpoints_chains, overlay.api_endpoints_chains),
        app_network: layered_leaf(base.app_network, overlay.app_network),
        app_version: layered_leaf(base.app_version, overlay.app_version),
        node_job_manager_image_arm64: layered_leaf(
            base.node_job_manager_image_arm64,
            overlay.node_job_manager_image_arm64,
        ),
        node_hasura_image_arm64: layered_leaf(
            base.node_hasura_image_arm64,
            overlay.node_hasura_image_arm64,
        ),
        node_job_manager_image_amd64: layered_leaf(
            base.node_job_manager_image_amd64,
            overlay.node_job_manager_image_amd64,
        ),
        node_hasura_image_amd64: layered_leaf(
            base.node_hasura_image_amd64,
            overlay.node_hasura_image_amd64,
        ),
    }
}

/// One leaf of [`merge`]: clone the override's value where it has one,
/// else clone the base's.
fn pick_leaf(base: &Option<String>, overlay: &Option<String>) -> (r: Option<String>)
    ensures
        leaf_view(r) == layered_leaf(leaf_view(*base), leaf_view(*overlay)),
{
    match overlay {
        Some(value) => Some(value.clone()),
        None => match base {
            Some(value) => Some(value.clone()),
            None => None,
        },
    }
}

/// Layer `overlay` on top of `base`: for every leaf the override's
/// value takes precedence, and a leaf absent from the override falls
/// through to the base's value.
pub fn merge(base: &RawDocument, overlay: &RawDocument) -> (m: RawDocument)
    ensures
        m@ == merged(base@, overlay@),
{
    RawDocument {
        api_base_url: pick_leaf(&base.api_base_url, &overlay.api_base_url),
        api_endpoints_chains: pick_leaf(&base.api_endpoints_chains, &overlay.api_endpoints_chains),
        app_network: pick_leaf(&base.app_network, &overlay.app_network),
        app_version: pick_leaf(&base.app_version, &overlay.app_version),
        node_job_manager_image_arm64: pick_leaf(
            &base.node_job_manager_image_arm64,
            &overlay.node_job_manager_image_arm64,
        ),
        node_hasura_image_arm64: pick_leaf(
            &base.node_hasura_image_arm64,
            &overlay.node_hasura_image_arm64,
        ),
        node_job_manager_image_amd64: pick_leaf(
            &base.node_job_manager_image_amd64,
            &overlay.node_job_manager_image_amd64,
        ),
        node_hasura_image_amd64: pick_leaf(
            &base.node_hasura_image_amd64,
            &overlay.node_hasura_image_amd64,
        ),
    }
}

/// The embedded baseline: every leaf defined, with the defaults that
/// ship with the binary.
pub open spec fn baseline_spec() -> RawDocumentSpec {
    RawDocumentSpec {
        api_base_url: Some("https://api.chainbase.com"@),
        api_endpoints_chains: Some("/api/v1/metadata/network_chains"@),
        app_network: Some("mainnet"@),
        app_version: Some("1.0.0"@),
        node_job_manager_image_arm64: Some(
            "repository.chainbase.com/manuscript-node/manuscript-node-arm64:latest"@,
        ),
        node_hasura_image_arm64: Some(
            "repository.chainbase.com/manuscript-node/graphql-engine-arm64:latest"@,
        ),
        node_job_manager_image_amd64: Some(
            "repository.chainbase.com/manuscript-node/manuscript-node:latest"@,
        ),
        node_hasura_image_amd64: Some(
            "repository.chainbase.com/manuscript-node/graphql-engine-amd64:latest"@,
        ),
    }
}

/// The baseline document bundled with the binary: a complete default
/// configuration that is always available, even with no external file
/// present anywhere on the search path.
pub fn baseline() -> (d: RawDocument)
    ensures
        d@ == baseline_spec(),
{
    RawDocument {
        api_base_url: Some(String::from_str("https://api.chainbase.com")),
        api_endpoints_chains: Some(String::from_str("/api/v1/metadata/network_chains")),
        app_network: Some(String::from_str("mainnet")),
        app_version: Some(String::from_str("1.0.0")),
        node_job_manager_image_arm64: Some(
            String::from_str("repository.chainbase.com/manuscript-node/manuscript-node-arm64:latest"),
        ),
        node_hasura_image_arm64: Some(
            String::from_str("repository.chainbase.com/manuscript-node/graphql-engine-arm64:latest"),
        ),
        node_job_manager_image_amd64: Some(
            String::from_str("repository.chainbase.com/manuscript-node/manuscript-node:latest"),
        ),
        node_hasura_image_amd64: Some(
            String::from_str("repository.chainbase.com/manuscript-node/graphql-engine-amd64:latest"),
        ),
    }
}

/// The path of the first leaf, in schema order, that `d` leaves
/// undefined; meaningful only when `d` is not complete.
pub open spec fn first_missing(d: RawDocumentSpec) -> Seq<char> {
    if d.api_base_url is None {
        "api.base_url"@
    } else if d.api_endpoints_chains is None {
        "api.endpoints.chains"@
    } else if d.app_network is None {
        "app.network"@
    } else if d.app_version is None {
        "app.version"@
    } else if d.node_job_manager_image_arm64 is None {
        "node.job_manager_image_arm64"@
    } else if d.node_hasura_image_arm64 is None {
        "node.hasura_image_arm64"@
    } else if d.node_job_manager_image_amd64 is None {
        "node.job_manager_image_amd64"@
    } else {
        "node.hasura_image_amd64"@
    }
}

/// The typed settings a complete document denotes.
pub open spec fn settings_of(d: RawDocumentSpec) -> SettingsSpec {
    SettingsSpec {
        api: ApiConfigSpec {
            base_url: d.api_base_url->0,
            endpoints: ApiEndpointsSpec { chains: d.api_endpoints_chains->0 },
        },
        app: AppConfigSpec { network: d.app_network->0, version: d.app_version->0 },
        node: NodeConfigSpec {
            job_manager_image_arm64: d.node_job_manager_image_arm64->0,
            hasura_image_arm64: d.node_hasura_image_arm64->0,
            job_manager_image_amd64: d.node_job_manager_image_amd64->0,
            hasura_image_amd64: d.node_hasura_image_amd64->0,
        },
    }
}

/// What deserializing a document yields: the typed settings when every
/// required leaf is defined, else the structural error naming the
/// first missing leaf's path.
pub open spec fn deserialized(d: RawDocumentSpec) -> Result<SettingsSpec, ConfigErrorSpec> {
    if complete(d) {
        Ok(settings_of(d))
    } else {
        Err(ConfigErrorSpec::MissingField(first_missing(d)))
    }
}

/// One required leaf of [`into_settings`]: the leaf's value, or the
/// structural error naming `path`.
fn require_leaf(leaf: &Option<String>, path: &str) -> (r: Result<String, ConfigError>)
    ensures
        leaf is Some ==> r is Ok && r->Ok_0@ == leaf_view(*leaf)->0,
        leaf is None ==> r is Err && r->Err_0@ == ConfigErrorSpec::MissingField(path@),
{
    match leaf {
        Some(value) => Ok(value.clone()),
        None => Err(ConfigError::MissingField(String::from_str(path))),
    }
}

/// Deserialize a merged document into the typed [`Settings`]: succeeds
/// exactly when the document defines every required leaf, and otherwise
/// reports the first missing leaf in schema order.
pub fn into_settings(d: &RawDocument) -> (r: Result<Settings, ConfigError>)
    ensures
        complete(d@) ==> r is Ok && r->Ok_0@ == settings_of(d@),
        !complete(d@) ==> r is Err && r->Err_0@ == ConfigErrorSpec::MissingField(first_missing(d@)),
{
    let base_url = match require_leaf(&d.api_base_url, "api.base_url") {
        Ok(value) => value,
        Err(e) => {
            return Err(e);
        },
    };
    let chains = match require_leaf(&d.api_endpoints_chains, "api.endpoints.chains") {
        Ok(value) => value,
        Err(e) => {
            return Err(e);
        },
    };
    let network = match require_leaf(&d.app_network, "app.network") {
        Ok(value) => value,
        Err(e) => {
            return Err(e);
        },
    };
    let version = match require_leaf(&d.app_version, "app.version") {
        Ok(value) => value,
        Err(e) => {
            return Err(e);
        },
    };
    let job_manager_image_arm64 = match require_leaf(
        &d.node_job_manager_image_arm64,
        "node.job_manager_image_arm64",
    ) {
        Ok(value) => value,
        Err(e) => {
            return Err(e);
        },
    };
    let hasura_image_arm64 = match require_leaf(
        &d.node_hasura_image_arm64,
        "node.hasura_image_arm64",
    ) {
        Ok(value) => value,
        Err(e) => {
            return Err(e);
        },
    };
    let job_manager_image_amd64 = match require_leaf(
        &d.node_job_manager_image_amd64,
        "node.job_manager_image_amd64",
    ) {
        Ok(value) => value,
        Err(e) => {
            return Err(e);
        },
    };
    let hasura_image_amd64 = match require_leaf(
        &d.node_hasura_image_amd64,
        "node.hasura_image_amd64",
    ) {
        Ok(value) => value,
        Err(e) => {
            return Err(e);
        },
    };
    Ok(
        Settings {
            api: ApiConfig { base_url, endpoints: ApiEndpoints { chains } },
            app: AppConfig { network, version },
            node: NodeConfig {
                job_manager_image_arm64,
                hasura_image_arm64,
                job_manager_image_amd64,
                hasura_image_amd64,
            },
        },
    )
}

} // verus!
