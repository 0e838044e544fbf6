use manuscript_config::ConfigError;
use manuscript_config::OverrideSource;
use manuscript_config::RawDocument;
use manuscript_config::Settings;
use manuscript_config::baseline;
use manuscript_config::candidate_paths;
use manuscript_config::first_match;
use manuscript_config::into_settings;
use manuscript_config::merge;

fn empty_doc() -> RawDocument {
    RawDocument {
        api_base_url: None,
        api_endpoints_chains: None,
        app_network: None,
        app_version: None,
        node_job_manager_image_arm64: None,
        node_hasura_image_arm64: None,
        node_job_manager_image_amd64: None,
        node_hasura_image_amd64: None,
    }
}

#[test]
fn total_absence_resolves_from_baseline() {
    let cached = Settings::new(OverrideSource::Absent);
    let settings = cached.as_ref().expect("baseline alone must resolve");
    assert_eq!(settings.api.base_url, "https://api.chainbase.com");
    assert_eq!(settings.api.endpoints.chains, "/api/v1/metadata/network_chains");
    assert_eq!(settings.app.network, "mainnet");
    assert_eq!(settings.app.version, "1.0.0");
}

#[test]
fn chains_url_and_status_text_concrete() {
    let cached = Settings::new(OverrideSource::Absent);
    assert_eq!(
        Settings::get_chains_url(&cached),
        "https://api.chainbase.com/api/v1/metadata/network_chains"
    );
    assert_eq!(
        Settings::get_status_text(&cached),
        "[? Help] Chainbase Network [mainnet] [1.0.0] "
    );
}

#[test]
fn override_takes_precedence() {
    let mut doc = empty_doc();
    doc.api_base_url = Some("https://override.example".to_string());
    let cached = Settings::new(OverrideSource::Document(doc));
    let settings = cached.as_ref().expect("override must resolve");
    assert_eq!(settings.api.base_url, "https://override.example");
    assert_eq!(Settings::get_chainbase_url(&cached), "https://override.example");
}

#[test]
fn omitted_leaf_falls_through_to_baseline() {
    let mut doc = empty_doc();
    doc.app_network = Some("testnet".to_string());
    let cached = Settings::new(OverrideSource::Document(doc));
    let settings = cached.as_ref().expect("partial override must resolve");
    assert_eq!(settings.app.network, "testnet");
    assert_eq!(settings.api.base_url, "https://api.chainbase.com");
    assert_eq!(
        Settings::get_status_text(&cached),
        "[? Help] Chainbase Network [testnet] [1.0.0] "
    );
}

#[test]
fn full_override_wins_everywhere() {
    let doc = RawDocument {
        api_base_url: Some("https://b.example".to_string()),
        api_endpoints_chains: Some("/chains".to_string()),
        app_network: Some("devnet".to_string()),
        app_version: Some("9.9.9".to_string()),
        node_job_manager_image_arm64: Some("jm-arm".to_string()),
        node_hasura_image_arm64: Some("ha-arm".to_string()),
        node_job_manager_image_amd64: Some("jm-amd".to_string()),
        node_hasura_image_amd64: Some("ha-amd".to_string()),
    };
    let cached = Settings::new(OverrideSource::Document(doc));
    assert_eq!(Settings::get_chains_url(&cached), "https://b.example/chains");
    assert_eq!(
        Settings::get_status_text(&cached),
        "[? Help] Chainbase Network [devnet] [9.9.9] "
    );
    let (job_manager, hasura) = Settings::get_docker_images(&cached, true);
    assert_eq!(job_manager, "jm-arm");
    assert_eq!(hasura, "ha-arm");
    let (job_manager, hasura) = Settings::get_docker_images(&cached, false);
    assert_eq!(job_manager, "jm-amd");
    assert_eq!(hasura, "ha-amd");
}

#[test]
fn malformed_override_surfaces_structural_error() {
    let cached = Settings::new(OverrideSource::Malformed("mapping values are not allowed".to_string()));
    match &cached {
        Err(ConfigError::Malformed(detail)) => {
            assert_eq!(detail, "mapping values are not allowed");
        }
        other => panic!("expected a malformed-document error, got {:?}", other),
    }
    assert_eq!(
        cached.as_ref().err().unwrap().message(),
        "malformed configuration document: mapping values are not allowed"
    );
}

#[test]
fn every_accessor_falls_back_on_failure() {
    let cached = Settings::new(OverrideSource::Malformed("boom".to_string()));
    assert!(cached.is_err());
    assert_eq!(
        Settings::get_chains_url(&cached),
        "https://api.chainbase.com/api/v1/metadata/network_chains"
    );
    assert_eq!(
        Settings::get_status_text(&cached),
        "[? Help] Chainbase Network [Unknown] [Unknown]"
    );
    assert_eq!(Settings::get_chainbase_url(&cached), "https://api.chainbase.com");
    let (job_manager, hasura) = Settings::get_docker_images(&cached, true);
    assert_eq!(job_manager, "repository.chainbase.com/manuscript-node/manuscript-node:latest");
    assert_eq!(hasura, "repository.chainbase.com/manuscript-node/graphql-engine-amd64:latest");
    let (job_manager, hasura) = Settings::get_docker_images(&cached, false);
    assert_eq!(job_manager, "repository.chainbase.com/manuscript-node/manuscript-node:latest");
    assert_eq!(hasura, "repository.chainbase.com/manuscript-node/graphql-engine-amd64:latest");
}

#[test]
fn accessors_are_idempotent() {
    let cached = Settings::new(OverrideSource::Absent);
    assert_eq!(Settings::get_chains_url(&cached), Settings::get_chains_url(&cached));
    assert_eq!(Settings::get_status_text(&cached), Settings::get_status_text(&cached));
    assert_eq!(Settings::get_chainbase_url(&cached), Settings::get_chainbase_url(&cached));
    assert_eq!(
        Settings::get_docker_images(&cached, false),
        Settings::get_docker_images(&cached, false)
    );
    let failed = Settings::new(OverrideSource::Malformed("boom".to_string()));
    assert_eq!(Settings::get_chains_url(&failed), Settings::get_chains_url(&failed));
}

#[test]
fn docker_images_select_by_architecture() {
    let cached = Settings::new(OverrideSource::Absent);
    let (job_manager, hasura) = Settings::get_docker_images(&cached, true);
    assert_eq!(
        job_manager,
        "repository.chainbase.com/manuscript-node/manuscript-node-arm64:latest"
    );
    assert_eq!(hasura, "repository.chainbase.com/manuscript-node/graphql-engine-arm64:latest");
    let (job_manager, hasura) = Settings::get_docker_images(&cached, false);
    assert_eq!(job_manager, "repository.chainbase.com/manuscript-node/manuscript-node:latest");
    assert_eq!(hasura, "repository.chainbase.com/manuscript-node/graphql-engine-amd64:latest");
}

#[test]
fn search_picks_the_first_present_candidate() {
    assert_eq!(first_match(&vec![true, true, false, false]), Some(0));
    assert_eq!(first_match(&vec![false, true, true, false]), Some(1));
    assert_eq!(first_match(&vec![false, false, false, true]), Some(3));
    assert_eq!(first_match(&vec![false, false, false, false]), None);
    let no_candidates: Vec<bool> = vec![];
    assert_eq!(first_match(&no_candidates), None);
}

#[test]
fn candidate_list_is_fixed_and_ordered() {
    let paths = candidate_paths(Some("/opt/tool/bin"));
    assert_eq!(
        paths,
        vec![
            "config/default.yaml".to_string(),
            "../config/default.yaml".to_string(),
            "../../config/default.yaml".to_string(),
            "/opt/tool/bin/config/default.yaml".to_string(),
        ]
    );
}

#[test]
fn failed_executable_lookup_degrades_to_current_directory() {
    let paths = candidate_paths(None);
    assert_eq!(paths[3], "./config/default.yaml");
    assert_eq!(paths.len(), 4);
}

#[test]
fn incomplete_document_names_first_missing_field() {
    let result = into_settings(&empty_doc());
    match result {
        Err(ConfigError::MissingField(path)) => assert_eq!(path, "api.base_url"),
        other => panic!("expected a missing-field error, got {:?}", other),
    }
    let mut doc = empty_doc();
    doc.api_base_url = Some("https://a.example".to_string());
    match into_settings(&doc) {
        Err(ConfigError::MissingField(path)) => assert_eq!(path, "api.endpoints.chains"),
        other => panic!("expected a missing-field error, got {:?}", other),
    }
}

#[test]
fn missing_field_error_message_names_the_path() {
    let err = into_settings(&empty_doc()).err().unwrap();
    assert_eq!(err.message(), "missing required field api.base_url");
}

#[test]
fn merge_layers_at_the_leaf_level() {
    let base = baseline();
    let mut overlay = empty_doc();
    overlay.api_endpoints_chains = Some("/v2/chains".to_string());
    let merged_doc = merge(&base, &overlay);
    assert_eq!(merged_doc.api_endpoints_chains.as_deref(), Some("/v2/chains"));
    assert_eq!(merged_doc.api_base_url.as_deref(), Some("https://api.chainbase.com"));
    assert_eq!(merged_doc.app_network.as_deref(), Some("mainnet"));
    let empty_merge = merge(&empty_doc(), &empty_doc());
    assert_eq!(empty_merge.api_base_url, None);
    assert_eq!(empty_merge.node_hasura_image_amd64, None);
}
