//! Layered configuration resolution for a deployment tool.
//!
//! An embedded baseline document supplies a complete default
//! configuration; an optional external override document, found by
//! scanning a fixed list of candidate paths, is layered on top of it
//! at the leaf level. The merged document is turned into the typed
//! [`Settings`], and derived accessors compute consumer-facing
//! values from the cached resolution result, falling back to hardcoded
//! literals when resolution failed.

pub mod accessors;
pub mod document;
pub mod error;
pub mod laws;
pub mod resolver;
pub mod schema;

pub use document::RawDocument;
pub use document::RawDocumentSpec;
pub use document::baseline;
pub use document::into_settings;
pub use document::merge;
pub use error::ConfigError;
pub use error::ConfigErrorSpec;
pub use resolver::OverrideSource;
pub use resolver::OverrideSourceSpec;
pub use resolver::candidate_paths;
pub use resolver::first_match;
pub use schema::ApiConfig;
pub use schema::ApiEndpoints;
pub use schema::AppConfig;
pub use schema::Manuscript;
pub use schema::ManuscriptConfigs;
pub use schema::NodeConfig;
pub use schema::Settings;
pub use schema::Sink;
pub use schema::Source;
pub use schema::Transform;
