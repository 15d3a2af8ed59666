use tari_merge_mining_proxy::block::{decode_upstream_block, encode_upstream_block};
use tari_merge_mining_proxy::codec::{from_hex, to_hex};
use tari_merge_mining_proxy::error::{anchor_call, AnchorCall, require_anchor_field, require_upstream_field, AnchorField, ProxyError, UpstreamField};
use tari_merge_mining_proxy::config::MergeMiningProxyConfig;
use tari_merge_mining_proxy::router::{dispatch, is_success_status, route, HttpMethod, Route};
use tari_merge_mining_proxy::state::{status_is_ok, MiningState, SubmitStep};
use tari_merge_mining_proxy::text::{join_text, text_eq};

const BLOCK_HEX: &str = "0c0c94debaf805beb3489c722a285c092a32e7c6893abfc7d069699c8326fc3445a749c5276b6200000000029b892201ffdf882201b699d4c8b1ec020223df524af2a2ef5f870adb6e1ceb03a475c39f8b9ef76aa50b46ddd2a18349402b012839bfa19b7524ec7488917714c216ca254b38ed0424ca65ae828a7c006aeaf10208f5316a7f6b99cca60000";

/// A stand-in for the anchor node that counts the blocks submitted to it.
struct CountingAnchor {
    submitted: Vec<String>,
}

impl CountingAnchor {
    fn submit(&mut self, block: String) {
        self.submitted.push(block);
    }
}

/// Runs one submission the way the coordinator's caller does, submitting to
/// the counting double whenever the coordinator asks for it.
fn submit(
    state: &mut MiningState<String>,
    anchor: &mut CountingAnchor,
    status: Option<&str>,
    blob: Option<&str>,
) -> Result<SubmitStep<String>, ProxyError> {
    let step = state.begin_submission(status, blob.map(|b| b.to_string()))?;
    if let SubmitStep::Submit(sub) = &step {
        anchor.submit(sub.anchor_block.clone());
        state.finish_submission(true);
    }
    Ok(step)
}

#[test]
fn template_then_submit_then_resubmit() {
    let mut state: MiningState<String> = MiningState::new();
    let mut anchor = CountingAnchor { submitted: vec![] };
    state.accept_template(100, "anchor-100".to_string(), Some("seed".to_string())).unwrap();
    assert!(state.has_pending_work());
    assert_eq!(state.last_known_height(), Some(100));

    let step = submit(&mut state, &mut anchor, Some("OK"), Some("00ff")).unwrap();
    match step {
        SubmitStep::Submit(sub) => {
            assert_eq!(sub.anchor_block, "anchor-100");
            assert_eq!(sub.seed, "seed");
            assert_eq!(sub.miner_blob, "00ff");
        },
        SubmitStep::InvalidParams => panic!("expected a submission"),
    }
    assert_eq!(anchor.submitted.len(), 1);
    assert_eq!(state.last_submitted_height(), Some(100));
    assert!(!state.has_pending_work());

    let again = submit(&mut state, &mut anchor, Some("OK"), Some("00ff"));
    assert!(matches!(again, Err(ProxyError::NoPendingWork)));
    assert_eq!(anchor.submitted.len(), 1);
}

#[test]
fn rejected_submission_never_reaches_anchor() {
    let mut state: MiningState<String> = MiningState::new();
    let mut anchor = CountingAnchor { submitted: vec![] };
    state.accept_template(7, "a".to_string(), Some("s".to_string())).unwrap();
    let r = submit(&mut state, &mut anchor, Some("BUSY"), Some("00"));
    assert!(matches!(r, Err(ProxyError::UpstreamRejected)));
    assert_eq!(anchor.submitted.len(), 0);
    assert!(!state.has_pending_work());
    assert_eq!(state.last_submitted_height(), None);

    state.accept_template(8, "b".to_string(), Some("s".to_string())).unwrap();
    let r = submit(&mut state, &mut anchor, None, Some("00"));
    assert!(matches!(r, Err(ProxyError::UpstreamRejected)));
    assert_eq!(anchor.submitted.len(), 0);
    assert!(!state.has_pending_work());
}

#[test]
fn missing_blob_gives_invalid_params() {
    let mut state: MiningState<String> = MiningState::new();
    let mut anchor = CountingAnchor { submitted: vec![] };
    state.accept_template(5, "a".to_string(), Some("s".to_string())).unwrap();
    let r = submit(&mut state, &mut anchor, Some("OK"), None);
    assert!(matches!(r, Ok(SubmitStep::InvalidParams)));
    assert_eq!(anchor.submitted.len(), 0);
    assert!(!state.has_pending_work());
}

#[test]
fn failed_anchor_submission_clears_work_keeps_height() {
    let mut state: MiningState<String> = MiningState::new();
    state.accept_template(42, "a".to_string(), Some("s".to_string())).unwrap();
    let step = state.begin_submission(Some("OK"), Some("11".to_string())).unwrap();
    assert!(matches!(step, SubmitStep::Submit(_)));
    state.finish_submission(false);
    assert!(!state.has_pending_work());
    assert_eq!(state.last_submitted_height(), None);
}

#[test]
fn later_template_replaces_pending_work() {
    let mut state: MiningState<String> = MiningState::new();
    state.accept_template(1, "first".to_string(), Some("s1".to_string())).unwrap();
    state.accept_template(2, "second".to_string(), Some("s2".to_string())).unwrap();
    assert_eq!(state.last_known_height(), Some(2));
    match state.begin_submission(Some("OK"), Some("ab".to_string())).unwrap() {
        SubmitStep::Submit(sub) => {
            assert_eq!(sub.anchor_block, "second");
            assert_eq!(sub.seed, "s2");
        },
        SubmitStep::InvalidParams => panic!("expected a submission"),
    }
}

#[test]
fn template_without_seed_is_malformed_and_keeps_state() {
    let mut state: MiningState<String> = MiningState::new();
    state.accept_template(3, "kept".to_string(), Some("seed".to_string())).unwrap();
    let r = state.accept_template(4, "dropped".to_string(), None);
    assert_eq!(r, Err(ProxyError::MalformedUpstreamResponse(UpstreamField::SeedHash)));
    assert_eq!(state.last_known_height(), Some(3));
    match state.begin_submission(Some("OK"), Some("ab".to_string())).unwrap() {
        SubmitStep::Submit(sub) => assert_eq!(sub.anchor_block, "kept"),
        SubmitStep::InvalidParams => panic!("expected a submission"),
    }
}

#[test]
fn height_first_query_records_tip() {
    let mut state: MiningState<String> = MiningState::new();
    assert_eq!(state.intercept_height(2000, 100), 2000);
    assert_eq!(state.last_known_height(), Some(100));
}

#[test]
fn height_change_is_held_back_once() {
    let mut state: MiningState<String> = MiningState::new();
    state.intercept_height(100, 100);
    assert_eq!(state.intercept_height(101, 101), 100);
    assert_eq!(state.intercept_height(101, 101), 101);
}

#[test]
fn height_held_after_submission_at_same_height() {
    let mut state: MiningState<String> = MiningState::new();
    state.accept_template(100, "a".to_string(), Some("s".to_string())).unwrap();
    let step = state.begin_submission(Some("OK"), Some("00".to_string())).unwrap();
    assert!(matches!(step, SubmitStep::Submit(_)));
    state.finish_submission(true);
    assert_eq!(state.intercept_height(100, 100), 100);
    assert_eq!(state.intercept_height(2345, 100), 100);
}

#[test]
fn height_passes_through_without_submission() {
    let mut state: MiningState<String> = MiningState::new();
    state.intercept_height(100, 100);
    assert_eq!(state.intercept_height(2345, 100), 2345);
}

#[test]
fn status_ok_is_exact() {
    assert!(status_is_ok(Some("OK")));
    assert!(!status_is_ok(Some("ok")));
    assert!(!status_is_ok(Some("OK ")));
    assert!(!status_is_ok(Some("")));
    assert!(!status_is_ok(None));
}

#[test]
fn routes_by_method_and_alias() {
    assert_eq!(route(HttpMethod::Get, "/get_height"), Route::GetHeight);
    assert_eq!(route(HttpMethod::Get, "/getheight"), Route::GetHeight);
    assert_eq!(route(HttpMethod::Post, "/get_height"), Route::Passthrough);
    assert_eq!(route(HttpMethod::Post, "/get_block_template"), Route::GetBlockTemplate);
    assert_eq!(route(HttpMethod::Post, "/getblocktemplate"), Route::GetBlockTemplate);
    assert_eq!(route(HttpMethod::Post, "/submit_block"), Route::SubmitBlock);
    assert_eq!(route(HttpMethod::Post, "/submitblock"), Route::SubmitBlock);
    assert_eq!(route(HttpMethod::Get, "/submit_block"), Route::Passthrough);
    assert_eq!(route(HttpMethod::Post, "/json_rpc"), Route::Passthrough);
    assert_eq!(route(HttpMethod::Other, "/getheight"), Route::Passthrough);
}

#[test]
fn success_status_range() {
    assert!(is_success_status(200));
    assert!(is_success_status(299));
    assert!(!is_success_status(199));
    assert!(!is_success_status(300));
    assert!(!is_success_status(500));
}

#[test]
fn text_join_and_equality() {
    assert_eq!(join_text("http://127.0.0.1:18081", "/get_height"), "http://127.0.0.1:18081/get_height");
    assert_eq!(join_text("", "x"), "x");
    assert!(text_eq("abc", "abc"));
    assert!(!text_eq("abc", "abd"));
    assert!(!text_eq("abc", "ab"));
}

#[test]
fn hex_encodes_lower_case() {
    assert_eq!(to_hex(&[0x00, 0x0f, 0xa5, 0xff]), "000fa5ff");
    assert_eq!(to_hex(&[]), "");
}

#[test]
fn hex_decodes_either_case() {
    assert_eq!(from_hex("000fA5ff"), Some(vec![0x00, 0x0f, 0xa5, 0xff]));
    assert_eq!(from_hex(""), Some(vec![]));
    assert_eq!(from_hex("abc"), None);
    assert_eq!(from_hex("zz"), None);
    assert_eq!(from_hex("é0"), None);
}

#[test]
fn upstream_block_round_trips() {
    let block = decode_upstream_block(BLOCK_HEX).unwrap();
    assert_eq!(encode_upstream_block(&block), BLOCK_HEX);
    let upper = BLOCK_HEX.to_uppercase();
    let again = decode_upstream_block(&upper).unwrap();
    assert_eq!(encode_upstream_block(&again), BLOCK_HEX);
}

#[test]
fn bad_upstream_blob_is_decode_error() {
    assert!(matches!(decode_upstream_block("not hex"), Err(ProxyError::Decode)));
    assert!(matches!(decode_upstream_block("00ff"), Err(ProxyError::Decode)));
    assert!(matches!(decode_upstream_block(&BLOCK_HEX[..BLOCK_HEX.len() - 1]), Err(ProxyError::Decode)));
    assert!(matches!(decode_upstream_block(&format!("{}00", BLOCK_HEX)), Err(ProxyError::Decode)));
}

#[test]
fn required_fields_name_the_missing_one() {
    assert_eq!(require_upstream_field(Some(5u64), UpstreamField::Height), Ok(5));
    assert_eq!(
        require_upstream_field::<u64>(None, UpstreamField::Height),
        Err(ProxyError::MalformedUpstreamResponse(UpstreamField::Height))
    );
    assert_eq!(
        require_anchor_field::<u64>(None, AnchorField::Metadata),
        Err(ProxyError::MalformedAnchorResponse(AnchorField::Metadata))
    );
    assert_eq!(require_anchor_field(Some(9u64), AnchorField::MiningData), Ok(9));
}

#[test]
fn failed_upstream_reply_bypasses_handlers() {
    assert_eq!(dispatch(500, HttpMethod::Post, "/submit_block"), Route::Passthrough);
    assert_eq!(dispatch(404, HttpMethod::Get, "/get_height"), Route::Passthrough);
    assert_eq!(dispatch(200, HttpMethod::Post, "/submit_block"), Route::SubmitBlock);
    assert_eq!(dispatch(200, HttpMethod::Get, "/getheight"), Route::GetHeight);
}

#[test]
fn anchor_call_failure_names_the_operation() {
    assert_eq!(anchor_call::<u64, String>(Ok(3), AnchorCall::GetTipInfo), Ok(3));
    assert_eq!(
        anchor_call::<u64, String>(Err("down".to_string()), AnchorCall::SubmitBlock),
        Err(ProxyError::AnchorCallFailed(AnchorCall::SubmitBlock))
    );
}

fn config(use_auth: bool) -> MergeMiningProxyConfig {
    MergeMiningProxyConfig {
        network: "localnet".to_string(),
        monerod_url: "http://monero.example:18081".to_string(),
        monerod_username: "user".to_string(),
        monerod_password: "pass".to_string(),
        monerod_use_auth: use_auth,
        grpc_address: "127.0.0.1:18142".to_string(),
    }
}

#[test]
fn config_builds_upstream_url() {
    assert_eq!(
        config(false).get_fully_qualified_monerod_url("/json_rpc"),
        "http://monero.example:18081/json_rpc"
    );
}

#[test]
fn config_credentials_only_with_auth() {
    assert_eq!(config(true).basic_auth(), Some(("user".to_string(), "pass".to_string())));
    assert_eq!(config(false).basic_auth(), None);
}
