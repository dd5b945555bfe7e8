use jito_shredstream_pump_bot::address::{axiom_program, Address};
use jito_shredstream_pump_bot::blockhash::{refresh_step, BlockhashCache, BlockhashLookup, RefreshSchedule};
use jito_shredstream_pump_bot::config::{
    block_engine_urls, parse_leaders, parse_pubkey_list, pick_tip_account, tip_account_plan,
    trimmed_nonblank, want_jito, wrapper_allowlist, ExecutionMode, TipAccountError, TipAccountPlan,
};
use jito_shredstream_pump_bot::wallet::{load_payer, parse_secret, pubkey_string, read_keypair_json, KeyError, WalletSource};
use solana_sdk::pubkey::Pubkey;
use solana_sdk::signature::Keypair;
use solana_sdk::signer::Signer;

fn strings(items: &[&str]) -> Vec<String> {
    items.iter().map(|s| s.to_string()).collect()
}

#[test]
fn leaders_are_trimmed_deduplicated_and_blank_skipped() {
    let k = Pubkey::new_unique();
    let list = strings(&["", &format!("  {}  ", k), &k.to_string(), "   "]);
    let v = parse_leaders(&list).unwrap();
    assert_eq!(v.len(), 1);
    assert_eq!(v[0].bytes, k.to_bytes());
    assert!(parse_leaders(&vec![]).unwrap().is_empty());
}

#[test]
fn invalid_entries_are_reported() {
    let k = Pubkey::new_unique();
    let list = strings(&[&k.to_string(), "  not-a-key ", "also bad"]);
    assert_eq!(parse_leaders(&list).unwrap_err(), "invalid leader pubkey: not-a-key");
    assert_eq!(parse_pubkey_list(&list).unwrap_err(), "invalid pubkey: not-a-key");
}

#[test]
fn wrapper_allowlist_always_holds_axiom() {
    let k = Pubkey::new_unique();
    let v = wrapper_allowlist(&strings(&[&k.to_string()])).unwrap();
    assert_eq!(v.len(), 2);
    assert!(v.iter().any(|a| a.bytes == axiom_program().bytes));
    let only = wrapper_allowlist(&strings(&["FLASHX8DrLbgeR8FcfNV1F5krxYcYMUdBkrP1EPBtxB9"])).unwrap();
    assert_eq!(only.len(), 1);
}

#[test]
fn urls_are_trimmed_and_blank_ones_dropped() {
    assert_eq!(trimmed_nonblank(&strings(&[" a ", "", "  ", "b"])), strings(&["a", "b"]));
    assert_eq!(block_engine_urls(&vec![], " https://ams.example/ "), strings(&["https://ams.example/"]));
    assert_eq!(block_engine_urls(&strings(&["x", " "]), "primary"), strings(&["x"]));
    assert!(block_engine_urls(&vec![], "  ").is_empty());
}

#[test]
fn execution_modes() {
    assert!(matches!(ExecutionMode::parse("log"), ExecutionMode::Log));
    assert!(matches!(ExecutionMode::parse("demo"), ExecutionMode::Demo));
    assert!(matches!(ExecutionMode::parse("bundle_pumpbuy"), ExecutionMode::BundlePumpbuy));
    match ExecutionMode::parse("Demo") {
        ExecutionMode::Unknown(t) => assert_eq!(t, "Demo"),
        other => panic!("unexpected {:?}", other),
    }
    assert!(want_jito(false, &ExecutionMode::Demo));
    assert!(want_jito(false, &ExecutionMode::BundlePumpbuy));
    assert!(!want_jito(false, &ExecutionMode::Log));
    assert!(want_jito(true, &ExecutionMode::Log));
}

#[test]
fn tip_account_choice() {
    let k = Pubkey::new_unique();
    assert!(matches!(tip_account_plan(false, "x", 3, &ExecutionMode::Demo), TipAccountPlan::Account(a) if a.bytes == [0u8; 32]));
    assert!(matches!(tip_account_plan(true, &format!(" {} ", k), 0, &ExecutionMode::Log), TipAccountPlan::Account(a) if a.bytes == k.to_bytes()));
    assert!(matches!(tip_account_plan(true, " nope ", 0, &ExecutionMode::Log), TipAccountPlan::Failed(TipAccountError::InvalidConfigured(t)) if t == "nope"));
    assert!(matches!(tip_account_plan(true, "", 2, &ExecutionMode::Log), TipAccountPlan::AskJito));
    assert!(matches!(tip_account_plan(true, "", 0, &ExecutionMode::BundlePumpbuy), TipAccountPlan::Failed(TipAccountError::BundleNeedsJito)));
    assert!(matches!(tip_account_plan(true, "", 0, &ExecutionMode::Demo), TipAccountPlan::Account(a) if a.bytes == [0u8; 32]));
    let tips = strings(&[&Pubkey::new_unique().to_string(), &k.to_string(), "bad"]);
    assert_eq!(pick_tip_account(&tips, 4).unwrap().bytes, k.to_bytes());
    assert!(matches!(pick_tip_account(&tips, 5), Err(TipAccountError::InvalidFromJito(t)) if t == "bad"));
    assert!(matches!(pick_tip_account(&vec![], 5), Err(TipAccountError::NoTipAccounts)));
}

#[test]
fn wallet_source_is_the_first_non_blank_setting() {
    assert!(matches!(load_payer(" k.json ", "s", "p"), WalletSource::KeypairFile(p) if p == " k.json "));
    assert!(matches!(load_payer("  ", "s", "p"), WalletSource::Secret(s) if s == "s"));
    assert!(matches!(load_payer("", "", "p"), WalletSource::SecretFile(p) if p == "p"));
    assert!(matches!(load_payer("", " ", "\t"), WalletSource::Missing));
}

#[test]
fn secrets_parse_from_json_and_base58() {
    let kp = Keypair::new();
    let bytes = kp.to_bytes();
    let json = format!(" {:?}", bytes.to_vec());
    let ours = parse_secret(&json).unwrap();
    assert_eq!(ours.pubkey().bytes, kp.pubkey().to_bytes());
    assert_eq!(pubkey_string(&ours), kp.pubkey().to_string());
    let b58 = format!("  {}\n", bs58::encode(&bytes).into_string());
    assert_eq!(parse_secret(&b58).unwrap().pubkey().bytes, kp.pubkey().to_bytes());
    assert_eq!(read_keypair_json(&json).unwrap().pubkey().bytes, kp.pubkey().to_bytes());
}

#[test]
fn secret_errors() {
    assert!(matches!(parse_secret("[1, 2, 3]"), Err(KeyError::SecretJsonLength(3))));
    assert!(matches!(parse_secret("[1, 2,"), Err(KeyError::Json)));
    assert!(matches!(parse_secret("0OIl"), Err(KeyError::Base58)));
    assert!(matches!(parse_secret(&bs58::encode([1u8; 10]).into_string()), Err(KeyError::Base58Length(10))));
    assert!(matches!(read_keypair_json("[1, 2]"), Err(KeyError::KeypairJsonLength(2))));
    assert!(matches!(read_keypair_json("{}"), Err(KeyError::Json)));
    let mut bytes = Keypair::new().to_bytes();
    bytes[40] ^= 1;
    assert!(matches!(parse_secret(&format!("{:?}", bytes.to_vec())), Err(KeyError::InvalidKeypair)));
}

#[test]
fn refresh_schedule_backs_off_and_resets() {
    assert!(RefreshSchedule::new(0).is_none());
    let mut s = RefreshSchedule::new(10).unwrap();
    assert_eq!(s.backoff_ms(), 50);
    let waits: Vec<u64> = (0..12).map(|_| s.on_failure()).collect();
    assert_eq!(waits, vec![50, 100, 200, 400, 800, 1600, 3200, 6400, 12800, 20000, 20000, 20000]);
    assert_eq!(s.on_success(), 50);
    assert_eq!(s.backoff_ms(), 50);
    let mut slow = RefreshSchedule::new(60_000).unwrap();
    assert_eq!(slow.on_failure(), 60_000);
    assert_eq!(slow.on_failure(), 20_000);
    assert_eq!(slow.on_success(), 60_000);
    // Very long intervals no longer need a bound: the back-off saturates at the cap.
    let mut huge = RefreshSchedule::new(u64::MAX).unwrap();
    assert_eq!(huge.on_failure(), u64::MAX);
    assert_eq!(huge.on_failure(), 20_000);
}

#[test]
fn blockhash_cache_returns_what_was_stored() {
    let mut c = BlockhashCache::new();
    assert!(c.get_latest().is_none());
    assert!(matches!(c.get_or_fetch(), BlockhashLookup::Fetch));
    c.store([5u8; 32]);
    assert_eq!(c.get_latest(), Some([5u8; 32]));
    assert!(matches!(c.get_or_fetch(), BlockhashLookup::Cached(h) if h == [5u8; 32]));
    let _ = Address::zero();
}

#[test]
fn blockhash_fetch_is_cached_and_failures_leave_it_empty() {
    let mut c = BlockhashCache::new();
    assert_eq!(c.finish_fetch(Err("rpc down".to_string())), Err("rpc down".to_string()));
    assert!(c.get_latest().is_none());
    assert!(matches!(c.get_or_fetch(), BlockhashLookup::Fetch));
    assert_eq!(c.finish_fetch(Ok([9u8; 32])), Ok([9u8; 32]));
    assert!(matches!(c.get_or_fetch(), BlockhashLookup::Cached(h) if h == [9u8; 32]));
}

#[test]
fn refresher_rounds_store_hashes_and_back_off() {
    let mut sched = RefreshSchedule::new(300).unwrap();
    let mut cache = BlockhashCache::new();
    assert_eq!(refresh_step(&mut sched, &mut cache, None), 300);
    assert!(cache.get_latest().is_none());
    assert_eq!(refresh_step(&mut sched, &mut cache, None), 600);
    assert_eq!(refresh_step(&mut sched, &mut cache, Some([3u8; 32])), 300);
    assert_eq!(cache.get_latest(), Some([3u8; 32]));
    assert_eq!(refresh_step(&mut sched, &mut cache, None), 300);
    assert_eq!(cache.get_latest(), Some([3u8; 32]));
    assert_eq!(sched.backoff_ms(), 600);
}
