use nomos_da::client::DataAvailabilityClient;
use nomos_da::config::{DAClientConfig, NomosDaConfig, NomosSecrets};
use nomos_da::error::DAError;
use nomos_da::types::{BackendKind, Block, DispatchResponse, Tx};
use nomos_da::wiring::NomosWiringLayer;

fn nomos_config() -> NomosDaConfig {
    NomosDaConfig {
        app_id: "11".repeat(32),
        executor_rpc: "http://executor".to_string(),
        validator_rpcs: "http://v1,http://v2".to_string(),
    }
}

fn nomos_secrets() -> NomosSecrets {
    NomosSecrets {
        username: "user".to_string(),
        password: "pass".to_string(),
    }
}

#[test]
fn each_config_variant_selects_its_backend_kind() {
    assert_eq!(DAClientConfig::Avail.kind(), BackendKind::Avail);
    assert_eq!(DAClientConfig::Celestia.kind(), BackendKind::Celestia);
    assert_eq!(DAClientConfig::Eigen.kind(), BackendKind::Eigen);
    assert_eq!(DAClientConfig::ObjectStore.kind(), BackendKind::ObjectStore);
    assert_eq!(DAClientConfig::NoDA.kind(), BackendKind::NoDA);
    assert_eq!(
        DAClientConfig::Nomos(nomos_config()).kind(),
        BackendKind::Nomos
    );
}

#[test]
fn constructed_client_matches_config_variant() {
    let selected = DAClientConfig::from(nomos_config());
    let kind = selected.kind();
    let client = match selected {
        DAClientConfig::Nomos(config) => {
            nomos_da::client::NomosDaClient::new(config, nomos_secrets()).unwrap()
        }
        other => panic!("expected the polling backend, got {:?}", other),
    };
    assert_eq!(client.client_type(), kind);
}

#[test]
fn wiring_produces_a_client_for_valid_config() {
    let layer = NomosWiringLayer::new(nomos_config(), nomos_secrets());
    assert_eq!(layer.layer_name(), "nomos_client_layer");
    let out = layer.wire().unwrap();
    assert_eq!(out.client.client_type(), BackendKind::Nomos);
    assert_eq!(out.client.config, nomos_config());
}

#[test]
fn wiring_fails_outright_on_bad_app_id() {
    let mut config = nomos_config();
    config.app_id = "not hex".to_string();
    let layer = NomosWiringLayer::new(config, nomos_secrets());
    let e = layer.wire().unwrap_err();
    assert!(!e.is_retriable);
    assert_eq!(e.message, "Failed to decode app_id");
}

#[test]
fn dispatch_response_wraps_identifier() {
    let r = DispatchResponse::from("7".to_string());
    assert_eq!(r.request_id, "7");
}

#[test]
fn error_carries_message_and_flag() {
    let e = DAError::new("something transient", true);
    assert!(e.is_retriable);
    assert_eq!(e.message_string(), "something transient");
    let p = DAError::new("something permanent", false);
    assert!(!p.is_retriable);
}

#[test]
fn block_snapshot_holds_ordered_collections() {
    let b = Block {
        header: "h".to_string(),
        cl_transactions: vec![Tx("t1".to_string()), Tx("t2".to_string())],
        bl_blobs: vec![],
    };
    assert_eq!(b.cl_transactions.len(), 2);
    assert_eq!(b.cl_transactions[0].0, "t1");
    assert!(b.bl_blobs.is_empty());
}
