//! The typed shape of the configuration domain.
//!
//! Pure data definitions: the root [`Settings`] aggregates the API,
//! application and node-image sections, and a separate
//! pipeline-definition schema ([`ManuscriptConfigs`]) is kept as
//! deserializable surface for external documents that supply it.
//! Each configuration type has a mathematical view over sequences of
//! characters, which the contracts of the resolver and the accessors
//! speak of.

use std::collections::HashMap;
use vstd::prelude::*;

verus! {

/// Pipeline-definition schema: a collection of manuscripts plus the
/// directory and system description they were gathered from. No
/// accessor of this crate reads it; it exists so that external
/// documents carrying these keys remain representable.
#[derive(Debug)]
pub struct ManuscriptConfigs {
    pub base_dir: String,
    pub system_info: String,
    pub manuscripts: Vec<Manuscript>,
}

/// A single pipeline definition: sources feed transforms, transforms
/// feed sinks, with database credentials and ports alongside.
#[derive(Debug)]
pub struct Manuscript {
    pub base_dir: String,
    pub name: String,
    pub spec_version: String,
    pub parallelism: i32,
    pub sources: Vec<Source>,
    pub transforms: Vec<Transform>,
    pub sinks: Vec<Sink>,
    pub chain: String,
    pub table: String,
    pub database: String,
    pub query: String,
    pub sink: String,
    pub port: i32,
    pub db_port: i32,
    pub db_user: String,
    pub db_password: String,
    pub graphql_image: String,
    pub graphql_port: i32,
}

/// A data source of a manuscript. The document key `type` is carried
/// under the reserved-identifier-safe field name `type_`.
#[derive(Debug)]
pub struct Source {
    pub name: String,
    pub type_: String,
    pub dataset: String,
    pub filter: String,
}

/// A SQL transform of a manuscript.
#[derive(Debug)]
pub struct Transform {
    pub name: String,
    pub sql: String,
}

/// A data sink of a manuscript. The document key `type` is carried
/// under the reserved-identifier-safe field name `type_`.
#[derive(Debug)]
pub struct Sink {
    pub name: String,
    pub type_: String,
    pub from: String,
    pub database: String,
    pub schema: String,
    pub table: String,
    pub primary_key: String,
    pub config: HashMap<String, String>,
}

/// API section: the base URL and the named endpoint paths.
#[derive(Debug)]
pub struct ApiConfig {
    pub base_url: String,
    pub endpoints: ApiEndpoints,
}

/// The named endpoint paths of the API section.
#[derive(Debug)]
pub struct ApiEndpoints {
    pub chains: String,
}

/// Application section: descriptive identifiers used for display.
#[derive(Debug)]
pub struct AppConfig {
    pub network: String,
    pub version: String,
}

/// Node section: container image references keyed by component
/// (job manager, graphql engine) and architecture (arm64, amd64).
#[derive(Debug)]
pub struct NodeConfig {
    pub job_manager_image_arm64: String,
    pub hasura_image_arm64: String,
    pub job_manager_image_amd64: String,
    pub hasura_image_amd64: String,
}

/// The root of the resolved configuration. Once constructed it is
/// never mutated; readers receive cloned copies of leaf values.
#[derive(Debug)]
pub struct Settings {
    pub api: ApiConfig,
    pub app: AppConfig,
    pub node: NodeConfig,
}

/// Mathematical view of [`ApiEndpoints`].
pub struct ApiEndpointsSpec {
    pub chains: Seq<char>,
}

/// Mathematical view of [`ApiConfig`].
pub struct ApiConfigSpec {
    pub base_url: Seq<char>,
    pub endpoints: ApiEndpointsSpec,
}

/// Mathematical view of [`AppConfig`].
pub struct AppConfigSpec {
    pub network: Seq<char>,
    pub version: Seq<char>,
}

/// Mathematical view of [`NodeConfig`].
pub struct NodeConfigSpec {
    pub job_manager_image_arm64: Seq<char>,
    pub hasura_image_arm64: Seq<char>,
    pub job_manager_image_amd64: Seq<char>,
    pub hasura_image_amd64: Seq<char>,
}

/// Mathematical view of [`Settings`].
pub struct SettingsSpec {
    pub api: ApiConfigSpec,
    pub app: AppConfigSpec,
    pub node: NodeConfigSpec,
}

impl View for ApiEndpoints {
    type V = ApiEndpointsSpec;

    open spec fn view(&self) -> ApiEndpointsSpec {
        ApiEndpointsSpec { chains: self.chains@ }
    }
}

impl View for ApiConfig {
    type V = ApiConfigSpec;

    open spec fn view(&self) -> ApiConfigSpec {
        ApiConfigSpec { base_url: self.base_url@, endpoints: self.endpoints@ }
    }
}

impl View for AppConfig {
    type V = AppConfigSpec;

    open spec fn view(&self) -> AppConfigSpec {
        AppConfigSpec { network: self.network@, version: self.version@ }
    }
}

impl View for NodeConfig {
    type V = NodeConfigSpec;

    open spec fn view(&self) -> NodeConfigSpec {
        NodeConfigSpec {
            job_manager_image_arm64: self.job_manager_image_arm64@,
            hasura_image_arm64: self.hasura_image_arm64@,
            job_manager_image_amd64: self.job_manager_image_amd64@,
            hasura_image_amd64: self.hasura_image_amd64@,
        }
    }
}

impl View for Settings {
    type V = SettingsSpec;

    open spec fn view(&self) -> SettingsSpec {
        SettingsSpec { api: self.api@, app: self.app@, node: self.node@ }
    }
}

} // verus!
