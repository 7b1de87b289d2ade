use nomos_da::client::{DataAvailabilityClient, NomosDaClient};
use nomos_da::config::{NomosDaConfig, NomosSecrets};
use nomos_da::engine::{
    classify_block, classify_dispersal, classify_tip, confirm_step, run_confirmation,
    ConfirmState, ConfirmVerdict, FetchOutcome, ValidatorObservation,
};
use nomos_da::types::{BackendKind, CryptarchiaInfo, HeaderId};

fn config_with(app_id: &str, validator_rpcs: &str) -> NomosDaConfig {
    NomosDaConfig {
        app_id: app_id.to_string(),
        executor_rpc: "http://executor".to_string(),
        validator_rpcs: validator_rpcs.to_string(),
    }
}

fn secrets() -> NomosSecrets {
    NomosSecrets {
        username: "user".to_string(),
        password: "pass".to_string(),
    }
}

fn valid_app_id() -> String {
    "00".repeat(32)
}

fn client() -> NomosDaClient {
    NomosDaClient::new(config_with(&valid_app_id(), "http://validator"), secrets()).unwrap()
}

fn some_blob_id() -> Vec<u8> {
    (0u8..32u8).collect()
}

fn tip_info() -> CryptarchiaInfo {
    CryptarchiaInfo {
        tip: HeaderId(vec![1u8; 32]),
        slot: 4,
        height: 9,
    }
}

fn sighting(id: &[u8]) -> ValidatorObservation {
    ValidatorObservation {
        tip: FetchOutcome::Parsed(tip_info()),
        block: FetchOutcome::Parsed(vec![vec![9u8; 32], id.to_vec()]),
    }
}

fn clean_miss() -> ValidatorObservation {
    ValidatorObservation {
        tip: FetchOutcome::Parsed(tip_info()),
        block: FetchOutcome::Parsed(vec![vec![9u8; 32]]),
    }
}

#[test]
fn app_id_decodes_to_32_bytes() {
    let c = client();
    let id = c.get_app_id().unwrap();
    assert_eq!(id, vec![0u8; 32]);
}

#[test]
fn app_id_wrong_length_is_permanent_error() {
    let e = NomosDaClient::new(config_with("00ff", "v"), secrets()).unwrap_err();
    assert!(!e.is_retriable);
    assert_eq!(e.message, "Failed to decode app_id");
}

#[test]
fn app_id_non_hex_is_permanent_error() {
    let bad = "zz".repeat(32);
    let e = NomosDaClient::new(config_with(&bad, "v"), secrets()).unwrap_err();
    assert!(!e.is_retriable);
    let odd = "0".repeat(63);
    assert!(NomosDaClient::new(config_with(&odd, "v"), secrets()).is_err());
}

#[test]
fn dispersal_request_pads_and_tags() {
    let c = client();
    let req = c.build_dispersal_request(b"x".to_vec()).unwrap();
    assert_eq!(req.data.len(), 31);
    assert_eq!(req.data[0], b'x');
    assert!(req.data[1..].iter().all(|b| *b == 0));
    assert_eq!(req.metadata.app_id, vec![0u8; 32]);
    assert_eq!(req.metadata.index, vec![0u8; 8]);
}

#[test]
fn dispatch_happy_path_returns_batch_number_string() {
    let c = client();
    let id = some_blob_id();
    let r = c.dispatch_with_events(
        7,
        b"x".to_vec(),
        FetchOutcome::Parsed(id.clone()),
        vec![sighting(&id)],
    );
    assert_eq!(r.unwrap().request_id, "7");
}

#[test]
fn dispatch_failure_on_bad_status_is_retriable() {
    let c = client();
    let e = c
        .dispatch_with_events(7, b"x".to_vec(), FetchOutcome::BadStatus(503), vec![])
        .unwrap_err();
    assert!(e.is_retriable);
    assert_eq!(e.message, "Failed to disperse data");
}

#[test]
fn dispatch_transport_failure_is_retriable() {
    let c = client();
    let e = c
        .dispatch_with_events(7, b"x".to_vec(), FetchOutcome::TransportFailed, vec![])
        .unwrap_err();
    assert!(e.is_retriable);
    assert_eq!(e.message, "Failed to execute request");
}

#[test]
fn dispatch_short_blob_id_is_retriable_parse_failure() {
    let c = client();
    let e = c
        .dispatch_with_events(7, b"x".to_vec(), FetchOutcome::Parsed(vec![1u8; 31]), vec![])
        .unwrap_err();
    assert!(e.is_retriable);
    assert_eq!(e.message, "Failed to parse response");
}

#[test]
fn dispatch_build_failure_is_permanent() {
    let c = client();
    let e = c
        .dispatch_with_events(7, b"x".to_vec(), FetchOutcome::BuildFailed, vec![])
        .unwrap_err();
    assert!(!e.is_retriable);
    assert_eq!(e.message, "Failed to build request");
}

#[test]
fn confirmation_hard_bound_fails_permanently() {
    let state = ConfirmState {
        scan_count: 31,
        validator_pos: 0,
        n_validators: 1,
    };
    let id = some_blob_id();
    let e = run_confirmation(state, &id, &vec![clean_miss()], 0).unwrap_err();
    assert!(!e.is_retriable);
    assert_eq!(e.message, "Failed to find blob in block");
}

#[test]
fn confirmation_soft_bound_still_succeeds() {
    let c = client();
    let id = some_blob_id();
    // One validator, never a sighting: eleven passes drive the counter past
    // the soft limit and the dispatch still succeeds.
    let obs: Vec<ValidatorObservation> = (0..11).map(|_| clean_miss()).collect();
    let r = c.dispatch_with_events(42, b"x".to_vec(), FetchOutcome::Parsed(id), obs);
    assert_eq!(r.unwrap().request_id, "42");
}

#[test]
fn confirmation_aborts_when_observations_run_out() {
    let c = client();
    let id = some_blob_id();
    let e = c
        .dispatch_with_events(7, b"x".to_vec(), FetchOutcome::Parsed(id), vec![])
        .unwrap_err();
    assert!(e.is_retriable);
    assert_eq!(e.message, "Failed to execute request");
}

#[test]
fn confirmation_aborts_on_tip_failure() {
    let c = client();
    let id = some_blob_id();
    let obs = vec![ValidatorObservation {
        tip: FetchOutcome::BadStatus(500),
        block: FetchOutcome::Parsed(vec![]),
    }];
    let e = c
        .dispatch_with_events(7, b"x".to_vec(), FetchOutcome::Parsed(id), obs)
        .unwrap_err();
    assert!(e.is_retriable);
    assert_eq!(e.message, "Failed to get info");
}

#[test]
fn confirmation_block_fetch_failure_is_permanent() {
    let c = client();
    let id = some_blob_id();
    let obs = vec![ValidatorObservation {
        tip: FetchOutcome::Parsed(tip_info()),
        block: FetchOutcome::BadStatus(500),
    }];
    let e = c
        .dispatch_with_events(7, b"x".to_vec(), FetchOutcome::Parsed(id), obs)
        .unwrap_err();
    assert!(!e.is_retriable);
    assert_eq!(e.message, "Failed to get block");
}

#[test]
fn confirmation_block_parse_failure_is_retriable() {
    let c = client();
    let id = some_blob_id();
    let obs = vec![ValidatorObservation {
        tip: FetchOutcome::Parsed(tip_info()),
        block: FetchOutcome::ParseFailed,
    }];
    let e = c
        .dispatch_with_events(7, b"x".to_vec(), FetchOutcome::Parsed(id), obs)
        .unwrap_err();
    assert!(e.is_retriable);
    assert_eq!(e.message, "Failed to parse block");
}

#[test]
fn classify_outcomes_match_protocol_table() {
    assert!(!classify_dispersal(FetchOutcome::BuildFailed).unwrap_err().is_retriable);
    assert!(classify_dispersal(FetchOutcome::ParseFailed).unwrap_err().is_retriable);
    assert!(classify_tip(FetchOutcome::TransportFailed).unwrap_err().is_retriable);
    assert!(classify_tip(FetchOutcome::ParseFailed).unwrap_err().is_retriable);
    assert!(!classify_block(FetchOutcome::BadStatus(404)).unwrap_err().is_retriable);
    assert!(classify_block(FetchOutcome::ParseFailed).unwrap_err().is_retriable);
    let id = some_blob_id();
    assert_eq!(classify_dispersal(FetchOutcome::Parsed(id.clone())).unwrap(), id);
}

#[test]
fn confirm_step_sighting_confirms_at_once() {
    let state = ConfirmState {
        scan_count: 0,
        validator_pos: 0,
        n_validators: 3,
    };
    let id = some_blob_id();
    let v = confirm_step(state, &vec![vec![9u8; 32], id.clone()], &id);
    assert!(matches!(v, ConfirmVerdict::Confirmed));
}

#[test]
fn confirm_step_advances_through_pass_then_sleeps() {
    let id = some_blob_id();
    let miss = vec![vec![9u8; 32]];
    let state = ConfirmState {
        scan_count: 0,
        validator_pos: 0,
        n_validators: 2,
    };
    match confirm_step(state, &miss, &id) {
        ConfirmVerdict::NextValidator(s) => {
            assert_eq!(s.validator_pos, 1);
            assert_eq!(s.scan_count, 0);
            match confirm_step(s, &miss, &id) {
                ConfirmVerdict::NextPass(s2) => {
                    assert_eq!(s2.validator_pos, 0);
                    assert_eq!(s2.scan_count, 1);
                }
                other => panic!("expected a pass boundary, got {:?}", other),
            }
        }
        other => panic!("expected to advance to the next validator, got {:?}", other),
    }
}

#[test]
fn confirm_step_soft_limit_gives_up_without_error() {
    let id = some_blob_id();
    let state = ConfirmState {
        scan_count: 10,
        validator_pos: 0,
        n_validators: 1,
    };
    let v = confirm_step(state, &vec![vec![9u8; 32]], &id);
    assert!(matches!(v, ConfirmVerdict::SoftTimeout));
}

#[test]
fn ensure_finality_echoes_id() {
    let c = client();
    let f = c.ensure_finality("abc".to_string()).unwrap().unwrap();
    assert_eq!(f.blob_id, "abc");
    let f2 = c.ensure_finality(String::new()).unwrap().unwrap();
    assert_eq!(f2.blob_id, "");
}

#[test]
fn get_inclusion_data_reports_no_data() {
    let c = client();
    assert!(c.get_inclusion_data("anything").unwrap().is_none());
    assert!(c.get_inclusion_data("").unwrap().is_none());
}

#[test]
fn balance_is_zero_and_no_size_limit() {
    let c = client();
    assert_eq!(c.balance().unwrap(), 0);
    assert!(c.blob_size_limit().is_none());
}

#[test]
fn client_type_is_nomos() {
    let c = client();
    assert_eq!(c.client_type(), BackendKind::Nomos);
}

#[test]
fn validator_list_is_counted_by_commas() {
    let one = NomosDaClient::new(config_with(&valid_app_id(), "http://v1"), secrets()).unwrap();
    assert_eq!(one.n_validators(), 1);
    let three = NomosDaClient::new(
        config_with(&valid_app_id(), "http://v1,http://v2,http://v3"),
        secrets(),
    )
    .unwrap();
    assert_eq!(three.n_validators(), 3);
}

#[test]
fn cloned_client_shares_configuration() {
    let c = client();
    let d = c.clone();
    assert_eq!(d.config, c.config);
    assert_eq!(d.client_type(), BackendKind::Nomos);
}
