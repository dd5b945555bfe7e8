use jito_shredstream_pump_bot::config::ExecutionMode;
use jito_shredstream_pump_bot::dispatch::{
    choose_endpoints, classify_submit_error, needs_exec_gate, retry_after_ms_from_err, signal_action,
    throttle_wait_ms, validate_bundle, BundleSubmission, SignalAction, SubmitAction, SubmitErrorKind,
};
use jito_shredstream_pump_bot::jito::{
    bundle_base58, bundle_base64, reply_outcome, tip_accounts_outcome, transaction_base64,
    JitoMethod, JitoRpcClient, RpcReply,
};
use base64::Engine;
use solana_sdk::signature::Signature;

#[test]
fn client_urls_and_auth() {
    let c = JitoRpcClient::new("https://ams.block-engine.example//", " uuid-1 \n".to_string());
    assert_eq!(c.base_url(), "https://ams.block-engine.example");
    assert_eq!(c.bundles_url(), "https://ams.block-engine.example/api/v1/bundles");
    assert_eq!(c.txs_url(), "https://ams.block-engine.example/api/v1/transactions");
    assert_eq!(c.auth_header(), Some("uuid-1".to_string()));
    let d = JitoRpcClient::new("https://x", "   ".to_string());
    assert_eq!(d.auth_header(), None);
}

#[test]
fn bundle_id_is_sha256_of_the_signatures() {
    let s1 = Signature::from([1u8; 64]);
    let s2 = Signature::from([2u8; 64]);
    let sigs = vec![s1.to_string(), "not base58!".to_string(), s2.to_string()];
    let mut data = Vec::new();
    data.extend_from_slice(&[1u8; 64]);
    data.extend_from_slice(&[2u8; 64]);
    let digest = solana_sdk::hash::hash(&data).to_bytes();
    let hex: String = digest.iter().map(|b| format!("{:02x}", b)).collect();
    assert_eq!(JitoRpcClient::compute_bundle_id_hex(&sigs), hex);
}

#[test]
fn replies_are_interpreted() {
    assert_eq!(reply_outcome(JitoMethod::SendBundle, RpcReply::Result(Some("id".to_string()))), Ok("id".to_string()));
    assert_eq!(reply_outcome(JitoMethod::SendBundle, RpcReply::Error("{\"code\":-32097}".to_string())),
        Err("sendBundle error: {\"code\":-32097}".to_string()));
    assert_eq!(reply_outcome(JitoMethod::SendTransaction, RpcReply::Result(None)), Err("sendTransaction missing result".to_string()));
    assert_eq!(tip_accounts_outcome(None, Some(vec![Some("a".to_string()), None, Some("b".to_string())])),
        Ok(vec!["a".to_string(), "b".to_string()]));
    assert_eq!(tip_accounts_outcome(Some("x".to_string()), None), Err("getTipAccounts error: x".to_string()));
    assert_eq!(tip_accounts_outcome(None, None), Err("getTipAccounts missing result".to_string()));
}

#[test]
fn encodings_of_transactions() {
    let txs = vec![vec![0u8, 1, 2], vec![255u8]];
    assert_eq!(bundle_base58(&txs), vec![bs58::encode(&txs[0]).into_string(), bs58::encode(&txs[1]).into_string()]);
    let std = base64::engine::general_purpose::STANDARD;
    assert_eq!(bundle_base64(&txs), vec![std.encode(&txs[0]), std.encode(&txs[1])]);
    assert_eq!(transaction_base64(&txs[0]), "AAEC");
}

#[test]
fn retry_hints() {
    assert_eq!(retry_after_ms_from_err("rate limited. Retry after 1500ms"), Some(1500));
    assert_eq!(retry_after_ms_from_err("Retry after 0"), Some(0));
    assert_eq!(retry_after_ms_from_err("Retry after x"), None);
    assert_eq!(retry_after_ms_from_err("retry after 10"), None);
    assert_eq!(retry_after_ms_from_err("Retry after 99999999999999999999999"), None);
    assert_eq!(retry_after_ms_from_err("Retry after 18446744073709551615"), Some(u64::MAX));
    assert_eq!(retry_after_ms_from_err("a Retry after 7 b Retry after 9"), Some(7));
}

#[test]
fn submit_errors_are_classified() {
    assert_eq!(classify_submit_error("transaction could not be decoded"), SubmitErrorKind::DecodeFailed);
    assert_eq!(classify_submit_error("Rate limit exceeded"), SubmitErrorKind::RateLimited);
    assert_eq!(classify_submit_error("globally rate limited"), SubmitErrorKind::RateLimited);
    assert_eq!(classify_submit_error("Network congested"), SubmitErrorKind::RateLimited);
    assert_eq!(classify_submit_error("{\"code\":-32097,\"message\":\"x\"}"), SubmitErrorKind::RateLimited);
    assert_eq!(classify_submit_error("bundle dropped"), SubmitErrorKind::Other);
}

#[test]
fn endpoints_rotate_and_prefer_available_ones() {
    // Three endpoints, rotation starts at 4 % 3 = 1; endpoint 1 is cooling down.
    let (start, chosen) = choose_endpoints(3, 4, 2, &vec![true, false, true]);
    assert_eq!(start, 1);
    assert_eq!(chosen, vec![2, 0, 1]);
    // The failover allowance bounds the attempt.
    let (_, one) = choose_endpoints(3, 4, 0, &vec![true, false, true]);
    assert_eq!(one, vec![2]);
    // All cooling: rotation order from the start.
    let (_, all) = choose_endpoints(3, 2, 5, &vec![false, false, false]);
    assert_eq!(all, vec![2, 0, 1]);
    // No clients counts as one endpoint.
    assert_eq!(choose_endpoints(0, 9, 3, &vec![]), (0, vec![0]));
}

#[test]
fn submission_fails_over_and_falls_back() {
    let (mut s, first) = BundleSubmission::new(vec![2, 0], 1, true, 500);
    assert!(matches!(first, SubmitAction::SendBundleBase58(2)));
    let step = s.on_result(Err("Rate limit exceeded. Retry after 700".to_string()));
    assert_eq!(step.cooldown, Some((2, 700)));
    assert!(matches!(step.action, SubmitAction::SendBundleBase58(0)));
    let step = s.on_result(Err("{\"code\":-32097}".to_string()));
    assert_eq!(step.cooldown, Some((0, 500)));
    assert!(matches!(step.action, SubmitAction::SendTransaction(1)));
    let step = s.on_result(Ok("sig".to_string()));
    assert!(matches!(step.action, SubmitAction::Finished(Ok(ref id)) if id == "sig"));
    assert!(s.is_done());
}

#[test]
fn submission_retries_in_base64_and_skips_fallback_on_other_errors() {
    let (mut s, _) = BundleSubmission::new(vec![2, 0], 1, true, 500);
    let step = s.on_result(Err("Rate limit exceeded".to_string()));
    assert!(matches!(step.action, SubmitAction::SendBundleBase58(0)));
    let step = s.on_result(Err("transaction could not be decoded".to_string()));
    assert_eq!(step.cooldown, None);
    assert!(matches!(step.action, SubmitAction::SendBundleBase64(0)));
    let step = s.on_result(Err("bundle dropped".to_string()));
    assert!(matches!(step.action, SubmitAction::Finished(Err(ref e)) if e == "bundle dropped"));
    assert!(s.is_done());
    let (mut t, _) = BundleSubmission::new(vec![0, 1], 0, true, 500);
    let step = t.on_result(Err("Rate limit exceeded".to_string()));
    assert!(matches!(step.action, SubmitAction::SendBundleBase58(1)));
    let step = t.on_result(Err("boom".to_string()));
    assert!(matches!(step.action, SubmitAction::Finished(Err(ref e)) if e == "boom"));
}

#[test]
fn submission_reports_the_last_error() {
    let (mut s, _) = BundleSubmission::new(vec![0], 0, true, 500);
    let step = s.on_result(Err("bundle dropped".to_string()));
    assert!(matches!(step.action, SubmitAction::Finished(Err(ref e)) if e == "bundle dropped"));
    let (mut r, _) = BundleSubmission::new(vec![0], 0, false, 500);
    let step = r.on_result(Err("Network congested".to_string()));
    assert_eq!(step.cooldown, Some((0, 500)));
    assert!(matches!(step.action, SubmitAction::Finished(Err(ref e)) if e == "Network congested"));
    let (_, none) = BundleSubmission::new(vec![], 0, true, 500);
    assert!(matches!(none, SubmitAction::Finished(Err(ref e)) if e == "sendBundle failed"));
}

#[test]
fn bundles_and_throttle() {
    assert_eq!(validate_bundle(&vec![vec![1u8]]), Ok(()));
    assert_eq!(validate_bundle(&vec![]), Err(0));
    assert_eq!(validate_bundle(&vec![vec![1u8], vec![]]), Err(2));
    assert_eq!(throttle_wait_ms(300, 1100), 800);
    assert_eq!(throttle_wait_ms(1100, 1100), 0);
    assert_eq!(throttle_wait_ms(5000, 1100), 0);
}

#[test]
fn bundle_id_of_no_signatures_is_the_empty_digest() {
    let id = JitoRpcClient::compute_bundle_id_hex(&[]);
    assert_eq!(id, "e3b0c44298fc1c149afbf4c8996fb92427ae41e4649b934ca495991b7852b855");
    assert_eq!(id.len(), 64);
}

#[test]
fn signals_follow_the_mode() {
    assert!(!needs_exec_gate(&ExecutionMode::Log));
    assert!(needs_exec_gate(&ExecutionMode::Demo));
    assert!(needs_exec_gate(&ExecutionMode::BundlePumpbuy));
    assert!(matches!(signal_action(&ExecutionMode::Log, false, 0), SignalAction::Log));
    assert!(matches!(signal_action(&ExecutionMode::Demo, false, 1), SignalAction::SkipBusy));
    assert!(matches!(signal_action(&ExecutionMode::Demo, true, 1), SignalAction::DemoViaJito));
    assert!(matches!(signal_action(&ExecutionMode::Demo, true, 0), SignalAction::DemoViaRpc));
    assert!(matches!(signal_action(&ExecutionMode::BundlePumpbuy, false, 2), SignalAction::SkipBusy));
    assert!(matches!(signal_action(&ExecutionMode::BundlePumpbuy, true, 2), SignalAction::SubmitBundle));
    assert!(matches!(signal_action(&ExecutionMode::BundlePumpbuy, true, 0), SignalAction::NoJitoClients));
    assert!(matches!(signal_action(&ExecutionMode::Unknown("x".to_string()), true, 2), SignalAction::UnknownMode(ref m) if m == "x"));
}
