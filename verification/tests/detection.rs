use jito_shredstream_pump_bot::address::{
    associated_token_program, axiom_program, pumpfun_amm_program, pumpfun_fee_program,
    pumpfun_program, system_program, token_program, trojan_program, wsol_mint, Address,
};
use jito_shredstream_pump_bot::monitor::{
    alt_addresses_from_account, axiom_infer_amm_base_mint, axiom_wrap_amount_lamports,
    full_account_keys, has_ata_top_level, infer_mint_by_suffix_pump, infer_pump_mint_by_pdas,
    leader_present, leader_signs, mint_candidates, first_mint_account, needs_lookup_tables,
    parse_buy_signal_from_tx, pick_leader, plan_transaction_keys, stage0_batch, KeySource, stage0_candidate, MonitorConfig,
    MonitorKeys, ParseStep, ReconnectBackoff, PUMP_BUY_METHOD, PUMP_SELL_METHOD,
};
use jito_shredstream_pump_bot::pumpbuy::{bonding_curve_pda, event_authority_pda, pump_global_pda};
use jito_shredstream_pump_bot::pumpswap::ata;
use jito_shredstream_pump_bot::types::{CompiledIx, SignalSource, StreamTx, TableLookup};
use solana_sdk::message::{Message, VersionedMessage};
use solana_sdk::pubkey::Pubkey;
use solana_sdk::transaction::VersionedTransaction;
use std::str::FromStr;

const PUMP_SUFFIX_KEY: &str = "2AAAAAAAAAAAAAAAAAAAAAAAAAAAAAAAAAAAAAAApump";

fn a(n: u8) -> Address {
    Address { bytes: [n; 32] }
}

fn cfg(leaders: Vec<Address>, strict: bool, cpi: bool, wrappers: Vec<Address>) -> MonitorConfig {
    MonitorConfig {
        grpc_url: "http://127.0.0.1:9999".to_string(),
        leaders,
        strict_signer: strict,
        resolve_alts: true,
        parse_concurrency: 4,
        sig_dedup_ttl_ms: 3000,
        cpi_heuristic_mint: cpi,
        stats_interval_secs: 0,
        debug_leader_sample: 0,
        wrapper_program_ids: wrappers,
        alt_miss_skip: true,
    }
}

fn tx(keys: Vec<Address>, signers: u8, ixs: Vec<CompiledIx>) -> StreamTx {
    StreamTx {
        signatures: vec![[7u8; 64], [6u8; 64]],
        num_required_signatures: signers,
        account_keys: keys,
        instructions: ixs,
        recent_blockhash: [8u8; 32],
        lookups: vec![],
    }
}

fn buy_data(method: u64, sol_in: u64, min_out: u64) -> Vec<u8> {
    let mut d = method.to_le_bytes().to_vec();
    d.extend_from_slice(&sol_in.to_le_bytes());
    d.extend_from_slice(&min_out.to_le_bytes());
    d
}

/// Keys: 0 leader, 1 Pump.fun, 2 mint, 3..=5 others.
fn direct_buy(method: u64) -> StreamTx {
    let keys = vec![a(1), pumpfun_program(), a(3), a(4), a(5), a(6)];
    let ix = CompiledIx { program_id_index: 1, accounts: vec![3, 4, 2, 9, 0], data: buy_data(method, 1_000_000_000, 5_000) };
    tx(keys, 1, vec![ix])
}

#[test]
fn buy_discriminators() {
    assert_eq!(PUMP_BUY_METHOD.to_le_bytes(), [102, 6, 61, 18, 1, 218, 235, 234]);
    assert_eq!(PUMP_SELL_METHOD.to_le_bytes(), [51, 230, 133, 164, 1, 127, 131, 173]);
}

#[test]
fn direct_buy_gives_a_signal_with_the_leaders_amounts() {
    let mk = MonitorKeys::new().unwrap();
    let c = cfg(vec![a(1)], true, true, vec![]);
    let t = direct_buy(PUMP_BUY_METHOD);
    assert!(stage0_candidate(&c, &t));
    match parse_buy_signal_from_tx(&c, &mk, 42, &t, &t.account_keys, None) {
        ParseStep::Signal(s) => {
            assert_eq!(s.source, SignalSource::CurveDirectBuy);
            assert_eq!(s.slot, 42);
            assert_eq!(s.leader.bytes, a(1).bytes);
            assert_eq!(s.mint.bytes, a(3).bytes);
            assert_eq!(s.leader_in, Some(1_000_000_000));
            assert_eq!(s.leader_min_out, Some(5_000));
            assert_eq!(s.recent_blockhash, Some([8u8; 32]));
            assert_eq!(s.signature, [7u8; 64]);
            // Index 9 does not resolve and is left out.
            let accs: Vec<[u8; 32]> = s.leader_ix_accounts.unwrap().iter().map(|k| k.bytes).collect();
            assert_eq!(accs, vec![a(4).bytes, a(5).bytes, a(3).bytes, a(1).bytes]);
        },
        other => panic!("unexpected {:?}", other),
    }
}

#[test]
fn sells_are_ignored() {
    let mk = MonitorKeys::new().unwrap();
    let c = cfg(vec![a(1)], true, false, vec![]);
    let t = direct_buy(PUMP_SELL_METHOD);
    assert!(matches!(parse_buy_signal_from_tx(&c, &mk, 1, &t, &t.account_keys, None), ParseStep::NoSignal));
}

#[test]
fn only_configured_leaders_count() {
    let mk = MonitorKeys::new().unwrap();
    let t = direct_buy(PUMP_BUY_METHOD);
    // The leader must sign under strict_signer: key 4 is present but not a signer.
    let strict = cfg(vec![a(4)], true, true, vec![]);
    assert!(!stage0_candidate(&strict, &t));
    assert!(matches!(parse_buy_signal_from_tx(&strict, &mk, 1, &t, &t.account_keys, None), ParseStep::NoSignal));
    let loose = cfg(vec![a(4)], false, true, vec![]);
    assert!(stage0_candidate(&loose, &t));
    match parse_buy_signal_from_tx(&loose, &mk, 1, &t, &t.account_keys, None) {
        ParseStep::Signal(s) => assert_eq!(s.leader.bytes, a(4).bytes),
        other => panic!("unexpected {:?}", other),
    }
    // No leaders configured: everyone is a leader, the first key is named.
    let all = cfg(vec![], true, true, vec![]);
    assert!(leader_signs(&vec![], &t.account_keys, 0));
    assert!(leader_present(&vec![], &t.account_keys));
    assert_eq!(pick_leader(&vec![], true, &t.account_keys, 1).unwrap().bytes, a(1).bytes);
    assert_eq!(pick_leader(&vec![], true, &vec![], 1).unwrap().bytes, [0u8; 32]);
    assert!(matches!(parse_buy_signal_from_tx(&all, &mk, 1, &t, &t.account_keys, None), ParseStep::Signal(_)));
}

#[test]
fn stage0_needs_a_pump_buy_or_lookups() {
    let mk = MonitorKeys::new().unwrap();
    let c = cfg(vec![], true, true, vec![]);
    let mut t = tx(vec![a(1), a(2)], 1, vec![]);
    assert!(!stage0_candidate(&c, &t));
    t.lookups = vec![TableLookup { account_key: a(9), writable_indexes: vec![0], readonly_indexes: vec![] }];
    assert!(stage0_candidate(&c, &t));
    let no_cpi = cfg(vec![], true, false, vec![]);
    assert!(!stage0_candidate(&no_cpi, &t));
    // Pump-related keys alone are not enough: a top-level Pump.fun buy is.
    t.account_keys.push(mk.global());
    t.account_keys.push(pumpfun_amm_program());
    t.account_keys.push(pumpfun_program());
    assert!(!stage0_candidate(&no_cpi, &t));
    t.instructions.push(CompiledIx { program_id_index: 4, accounts: vec![], data: buy_data(PUMP_SELL_METHOD, 1, 1) });
    assert!(!stage0_candidate(&no_cpi, &t));
    t.instructions.push(CompiledIx { program_id_index: 3, accounts: vec![], data: buy_data(PUMP_BUY_METHOD, 1, 1) });
    assert!(!stage0_candidate(&no_cpi, &t));
    t.instructions.push(CompiledIx { program_id_index: 4, accounts: vec![], data: PUMP_BUY_METHOD.to_le_bytes().to_vec() });
    assert!(stage0_candidate(&no_cpi, &t));
}

#[test]
fn lookup_keys_follow_the_static_keys() {
    let mut t = tx(vec![a(1)], 1, vec![]);
    t.lookups = vec![
        TableLookup { account_key: a(90), writable_indexes: vec![1, 5], readonly_indexes: vec![0] },
        TableLookup { account_key: a(91), writable_indexes: vec![0], readonly_indexes: vec![1] },
    ];
    let c = cfg(vec![], true, true, vec![]);
    assert!(needs_lookup_tables(&c, &t));
    let tables = vec![vec![a(10), a(11)], vec![a(20), a(21)]];
    let keys: Vec<[u8; 32]> = full_account_keys(&t, &tables).iter().map(|k| k.bytes).collect();
    assert_eq!(keys, vec![a(1).bytes, a(11).bytes, a(20).bytes, a(10).bytes, a(21).bytes]);
}

#[test]
fn candidate_keys_come_from_the_cache_or_a_fetch() {
    let mut t = tx(vec![a(1)], 1, vec![]);
    let c = cfg(vec![], true, true, vec![]);
    // No lookups: the static keys.
    assert!(matches!(plan_transaction_keys(&c, &t, &vec![]), KeySource::Keys(ref k) if k.len() == 1));
    t.lookups = vec![
        TableLookup { account_key: a(90), writable_indexes: vec![1], readonly_indexes: vec![] },
        TableLookup { account_key: a(91), writable_indexes: vec![0], readonly_indexes: vec![] },
    ];
    // Every table cached: resolved keys.
    let all = vec![Some(vec![a(10), a(11)]), Some(vec![a(20)])];
    match plan_transaction_keys(&c, &t, &all) {
        KeySource::Keys(k) => assert_eq!(k.iter().map(|x| x.bytes).collect::<Vec<_>>(), vec![a(1).bytes, a(11).bytes, a(20).bytes]),
        other => panic!("unexpected {:?}", other),
    }
    // A miss: skip, prefetching the first missing table.
    let miss = vec![Some(vec![a(10), a(11)]), None];
    assert!(matches!(plan_transaction_keys(&c, &t, &miss), KeySource::SkipAndPrefetch(k) if k.bytes == a(91).bytes));
    // Without skipping: fetch the tables.
    let mut fetch = cfg(vec![], true, true, vec![]);
    fetch.alt_miss_skip = false;
    assert!(matches!(plan_transaction_keys(&fetch, &t, &miss), KeySource::FetchTables));
    // Resolution off: the static keys.
    let mut off = cfg(vec![], true, true, vec![]);
    off.resolve_alts = false;
    assert!(matches!(plan_transaction_keys(&off, &t, &miss), KeySource::Keys(ref k) if k.len() == 1));
}

#[test]
fn lookup_table_accounts_decode() {
    let mut data = vec![0u8; 56];
    data[0] = 1; // ProgramState::LookupTable
    data[4..12].copy_from_slice(&u64::MAX.to_le_bytes());
    data.extend_from_slice(&[5u8; 32]);
    data.extend_from_slice(&[6u8; 32]);
    let v = alt_addresses_from_account(&data).unwrap();
    assert_eq!(v.len(), 2);
    assert_eq!(v[1].bytes, [6u8; 32]);
    assert!(alt_addresses_from_account(&[0u8; 20]).is_none());
    // An authority tag other than 0 or 1, an uninitialized state, or a partial address
    // do not decode.
    let mut bad_tag = data.clone();
    bad_tag[21] = 2;
    assert!(alt_addresses_from_account(&bad_tag).is_none());
    let mut uninit = data.clone();
    uninit[0] = 0;
    assert!(alt_addresses_from_account(&uninit).is_none());
    let mut partial = data.clone();
    partial.push(1);
    assert!(alt_addresses_from_account(&partial).is_none());
    let mut with_authority = data.clone();
    with_authority[21] = 1;
    assert_eq!(alt_addresses_from_account(&with_authority).unwrap().len(), 2);
    assert_eq!(alt_addresses_from_account(&data[..56]).unwrap().len(), 0);
}

/// An Axiom curve buy: top-level token-account creation and an Axiom instruction carrying
/// the Pump.fun account block.
fn axiom_curve_buy(mk: &MonitorKeys, mint: Address) -> StreamTx {
    let mut keys = vec![a(1), axiom_program(), associated_token_program(), pumpfun_program(), mk.global()];
    // 5.. the rest of the block
    let block_rest = [a(20), mint, a(22), a(23), a(24), a(25), system_program(), token_program(), a(28), a(29), pumpfun_program(), a(31), a(32), a(33), pumpfun_fee_program()];
    keys.extend_from_slice(&block_rest);
    let mut accounts: Vec<u8> = vec![0, 3, 4];
    accounts.extend((5u8..20).collect::<Vec<u8>>());
    let create = CompiledIx { program_id_index: 2, accounts: vec![0], data: vec![1] };
    let wrapper = CompiledIx { program_id_index: 1, accounts, data: vec![9] };
    tx(keys, 1, vec![create, wrapper])
}

#[test]
fn curve_buy_under_axiom_carries_the_pump_block() {
    let mk = MonitorKeys::new().unwrap();
    let mint = Address { bytes: Pubkey::from_str(PUMP_SUFFIX_KEY).unwrap().to_bytes() };
    let t = axiom_curve_buy(&mk, mint);
    let c = cfg(vec![a(1)], true, true, vec![]);
    assert!(has_ata_top_level(&t.account_keys, &t.instructions));
    match parse_buy_signal_from_tx(&c, &mk, 1, &t, &t.account_keys, None) {
        ParseStep::Signal(s) => {
            assert_eq!(s.source, SignalSource::CurveCpiBuy);
            assert_eq!(s.mint.bytes, mint.bytes);
            let block = s.leader_ix_accounts.unwrap();
            assert_eq!(block.len(), 16);
            assert_eq!(block[0].bytes, mk.global().bytes);
        },
        other => panic!("unexpected {:?}", other),
    }
    // A mint that is not a `...pump` address gives no curve_cpi_buy signal.
    let t2 = axiom_curve_buy(&mk, a(77));
    match parse_buy_signal_from_tx(&c, &mk, 1, &t2, &t2.account_keys, None) {
        ParseStep::Signal(s) => assert_ne!(s.source, SignalSource::CurveCpiBuy),
        _ => {},
    }
}

/// An Axiom PumpSwap buy wrapping `wrap` lamports: keys 0 leader, 1 Axiom, 2 PumpSwap,
/// 3 WSOL, 4 system, 5 token program, 6 the base mint.
fn axiom_amm_buy(wrap: u64) -> StreamTx {
    let keys = vec![a(1), axiom_program(), pumpfun_amm_program(), wsol_mint(), system_program(), token_program(), a(60)];
    let mut data = vec![1u8];
    data.extend_from_slice(&wrap.to_le_bytes());
    let wrap_ix = CompiledIx { program_id_index: 1, accounts: vec![0, 3, 4, 5], data };
    let swap_ix = CompiledIx { program_id_index: 1, accounts: vec![0, 2, 6, 3, 5], data: vec![2] };
    tx(keys, 1, vec![wrap_ix, swap_ix])
}

#[test]
fn amm_buy_through_axiom() {
    let mk = MonitorKeys::new().unwrap();
    let c = cfg(vec![a(1)], true, true, vec![]);
    let t = axiom_amm_buy(20_000_000);
    assert_eq!(axiom_wrap_amount_lamports(&t.account_keys, &t.instructions), 20_000_000);
    assert_eq!(axiom_infer_amm_base_mint(&t.account_keys, &t.instructions).unwrap().bytes, a(60).bytes);
    match parse_buy_signal_from_tx(&c, &mk, 1, &t, &t.account_keys, None) {
        ParseStep::Signal(s) => {
            assert_eq!(s.source, SignalSource::AmmAxiomBuy);
            assert_eq!(s.mint.bytes, a(60).bytes);
        },
        other => panic!("unexpected {:?}", other),
    }
    // A small wrap is a sell or noise: no AMM signal, and not buy-like for the RPC path.
    let small = axiom_amm_buy(1_000);
    assert!(matches!(parse_buy_signal_from_tx(&c, &mk, 1, &small, &small.account_keys, None), ParseStep::NoSignal));
}

#[test]
fn without_heuristics_only_direct_buys_are_signalled() {
    let mk = MonitorKeys::new().unwrap();
    let c = cfg(vec![a(1)], true, false, vec![axiom_program()]);
    let t = axiom_amm_buy(20_000_000);
    assert!(matches!(parse_buy_signal_from_tx(&c, &mk, 1, &t, &t.account_keys, None), ParseStep::NoSignal));
    let d = direct_buy(PUMP_BUY_METHOD);
    assert!(matches!(parse_buy_signal_from_tx(&c, &mk, 1, &d, &d.account_keys, None), ParseStep::Signal(_)));
}

#[test]
fn base_mint_search_stops_on_unresolved_accounts() {
    let mut t = axiom_amm_buy(20_000_000);
    t.instructions[1].accounts.push(200);
    assert!(axiom_infer_amm_base_mint(&t.account_keys, &t.instructions).is_none());
}

#[test]
fn curve_trade_found_by_its_addresses() {
    let mk = MonitorKeys::new().unwrap();
    let mint = a(70);
    let curve = bonding_curve_pda(&mint).unwrap();
    let curve_ata = ata(&curve, &mint, &token_program()).unwrap();
    let keys = vec![a(1), associated_token_program(), pumpfun_program(), mk.global(), mk.event_authority(), mint, curve, curve_ata];
    let create = CompiledIx { program_id_index: 1, accounts: vec![0], data: vec![1] };
    let t = tx(keys, 1, vec![create]);
    assert_eq!(infer_pump_mint_by_pdas(&mk, &t.account_keys).unwrap().bytes, mint.bytes);
    let c = cfg(vec![a(1)], true, true, vec![]);
    match parse_buy_signal_from_tx(&c, &mk, 1, &t, &t.account_keys, None) {
        ParseStep::Signal(s) => {
            assert_eq!(s.source, SignalSource::CurvePdaBuyish);
            assert_eq!(s.mint.bytes, mint.bytes);
        },
        other => panic!("unexpected {:?}", other),
    }
    assert_eq!(pump_global_pda().unwrap().bytes, mk.global().bytes);
    assert_eq!(event_authority_pda(&pumpfun_program()).unwrap().bytes, mk.event_authority().bytes);
}

#[test]
fn rpc_mint_discovery_asks_then_picks_the_mint() {
    let mk = MonitorKeys::new().unwrap();
    // A buy-like transaction (token-account creation) with no detector match.
    let keys = vec![a(1), associated_token_program(), token_program(), a(80), a(81), wsol_mint()];
    let create = CompiledIx { program_id_index: 1, accounts: vec![0, 3, 2, 4, 5, 3], data: vec![1] };
    let t = tx(keys, 1, vec![create]);
    let uniq = mint_candidates(&t.account_keys, &t.instructions);
    let got: Vec<[u8; 32]> = uniq.iter().map(|k| k.bytes).collect();
    assert_eq!(got, vec![a(1).bytes, a(80).bytes, a(81).bytes]);
    let c = cfg(vec![a(1)], true, true, vec![]);
    match parse_buy_signal_from_tx(&c, &mk, 1, &t, &t.account_keys, None) {
        ParseStep::NeedMintAccounts(v) => assert_eq!(v.len(), 3),
        other => panic!("unexpected {:?}", other),
    }
    let fetched = vec![Some((system_program(), 0usize)), Some((token_program(), 165usize)), Some((token_program(), 82usize))];
    assert_eq!(first_mint_account(&uniq, &fetched).unwrap().bytes, a(81).bytes);
    match parse_buy_signal_from_tx(&c, &mk, 1, &t, &t.account_keys, Some(&fetched)) {
        ParseStep::Signal(s) => {
            assert_eq!(s.source, SignalSource::RpcBuyish);
            assert_eq!(s.mint.bytes, a(81).bytes);
        },
        other => panic!("unexpected {:?}", other),
    }
    let none = vec![None, Some((token_program(), 165usize))];
    assert!(first_mint_account(&uniq, &none).is_none());
    assert!(matches!(parse_buy_signal_from_tx(&c, &mk, 1, &t, &t.account_keys, Some(&none)), ParseStep::NoSignal));
}

#[test]
fn wrapper_instruction_is_mirrored() {
    let mk = MonitorKeys::new().unwrap();
    let wrapper = a(90);
    let mint = Address { bytes: Pubkey::from_str(PUMP_SUFFIX_KEY).unwrap().to_bytes() };
    let keys = vec![a(1), wrapper, mint, trojan_program()];
    let fee_only = CompiledIx { program_id_index: 3, accounts: vec![0], data: vec![0] };
    let ix = CompiledIx { program_id_index: 1, accounts: vec![0, 2], data: vec![4, 5] };
    let t = tx(keys, 1, vec![fee_only, ix]);
    assert_eq!(infer_mint_by_suffix_pump(&t.account_keys).unwrap().bytes, mint.bytes);
    let c = cfg(vec![a(1)], true, true, vec![wrapper, trojan_program()]);
    match parse_buy_signal_from_tx(&c, &mk, 1, &t, &t.account_keys, None) {
        ParseStep::Signal(s) => {
            assert_eq!(s.source, SignalSource::WrapperMirror);
            assert_eq!(s.mint.bytes, mint.bytes);
            assert_eq!(s.wrapper_program_id.unwrap().bytes, wrapper.bytes);
            assert_eq!(s.wrapper_ix_data, Some(vec![4, 5]));
        },
        other => panic!("unexpected {:?}", other),
    }
    // Without a known mint there is nothing to mirror.
    let t2 = tx(vec![a(1), wrapper, a(2)], 1, vec![CompiledIx { program_id_index: 1, accounts: vec![0, 2], data: vec![] }]);
    assert!(matches!(parse_buy_signal_from_tx(&c, &mk, 1, &t2, &t2.account_keys, None), ParseStep::NoSignal));
}

#[test]
fn entry_batches_keep_stage0_candidates() {
    let leader = Pubkey::new_unique();
    let pump = Pubkey::new_from_array(pumpfun_program().bytes);
    let amm = Pubkey::new_from_array(pumpfun_amm_program().bytes);
    let buy = solana_sdk::instruction::Instruction { program_id: pump, accounts: vec![], data: PUMP_BUY_METHOD.to_le_bytes().to_vec() };
    let not_buy = solana_sdk::instruction::Instruction { program_id: amm, accounts: vec![], data: PUMP_BUY_METHOD.to_le_bytes().to_vec() };
    let msg = Message::new(&[buy], Some(&leader));
    let amm_msg = Message::new(&[not_buy], Some(&leader));
    let other = Message::new(&[], Some(&Pubkey::new_unique()));
    let t1 = VersionedTransaction { signatures: vec![Default::default()], message: VersionedMessage::Legacy(msg) };
    let t2 = VersionedTransaction { signatures: vec![Default::default()], message: VersionedMessage::Legacy(other) };
    let t3 = VersionedTransaction { signatures: vec![Default::default()], message: VersionedMessage::Legacy(amm_msg) };
    let entries: Vec<(u64, solana_sdk::hash::Hash, Vec<VersionedTransaction>)> =
        vec![(1, solana_sdk::hash::Hash::default(), vec![t1, t2]), (2, solana_sdk::hash::Hash::default(), vec![t3])];
    let bytes = bincode::serialize(&entries).unwrap();
    let c = cfg(vec![Address { bytes: leader.to_bytes() }], true, true, vec![]);
    let batch = stage0_batch(&c, &bytes).unwrap();
    assert_eq!(batch.entries, 2);
    assert_eq!(batch.txs, 3);
    assert_eq!(batch.leader_signer_txs, 2);
    assert_eq!(batch.pump_candidates, 1);
    assert_eq!(batch.candidates.len(), 1);
    assert_eq!(batch.candidates[0].account_keys[0].bytes, leader.to_bytes());
    assert_eq!(batch.candidates[0].signatures, vec![[0u8; 64]]);
    assert!(stage0_batch(&c, &[1, 2, 3]).is_none());
}

#[test]
fn signals_carry_the_first_signature() {
    let mk = MonitorKeys::new().unwrap();
    let c = cfg(vec![a(1)], true, false, vec![]);
    let mut t = direct_buy(PUMP_BUY_METHOD);
    t.signatures = vec![];
    match parse_buy_signal_from_tx(&c, &mk, 1, &t, &t.account_keys, None) {
        ParseStep::Signal(s) => assert_eq!(s.signature, [0u8; 64]),
        other => panic!("unexpected {:?}", other),
    }
}

#[test]
fn reconnect_backoff_doubles_to_five_seconds() {
    let mut b = ReconnectBackoff::new();
    let waits: Vec<u64> = (0..7).map(|_| b.on_failure()).collect();
    assert_eq!(waits, vec![250, 500, 1000, 2000, 4000, 5000, 5000]);
    b.on_connected();
    assert_eq!(b.on_failure(), 250);
}
