use jito_shredstream_pump_bot::address::{
    associated_token_program, pumpfun_amm_program, pumpfun_fee_program, pumpfun_program,
    system_program, sysvar_rent, token_2022_program, token_program, wsol_mint, Address,
};
use jito_shredstream_pump_bot::budget::FeeParams;
use jito_shredstream_pump_bot::dispatch::build_demo_tx_bytes;
use jito_shredstream_pump_bot::mirror::is_program_or_sysvar_readonly;
use jito_shredstream_pump_bot::pumpbuy::{
    build_pump_buy_exact_sol_in_ix, build_pump_buy_exact_sol_in_ix_from_accounts, BondingCurveState,
    BuildError, TradeParams,
};
use jito_shredstream_pump_bot::pumpswap::{ata, ata_create_idempotent_ix, sync_native_ix};
use jito_shredstream_pump_bot::trade::{
    amm_falls_back_to_curve, build_amm_buy_tx_bytes, build_curve_buy_tx_bytes,
    build_trade_bundle_txs, build_wrapper_mirror_tx_bytes, curve_state_from_accounts,
    mayhem_curve_fee_recipient, route_by_curve_state, AmmFailure, CurveStateRoute, TradeError, TradePlan,
};
use jito_shredstream_pump_bot::tx::{build_signed_tx, PayerKeypair, TxBuildError};
use jito_shredstream_pump_bot::types::{AccountMeta, Ix, SignalSource, TradeSignal};
use jito_shredstream_pump_bot::wsol::{BootstrapStep, WsolBank};
use solana_sdk::compute_budget::ComputeBudgetInstruction;
use solana_sdk::pubkey::Pubkey;
use solana_sdk::signature::Keypair;
use solana_sdk::signer::Signer;
use solana_sdk::transaction::Transaction;

fn addr(k: &Pubkey) -> Address {
    Address { bytes: k.to_bytes() }
}

fn key(a: &Address) -> Pubkey {
    Pubkey::new_from_array(a.bytes)
}

fn payer() -> (Keypair, PayerKeypair) {
    let kp = Keypair::new();
    #[allow(deprecated)]
    let ours = PayerKeypair::from_bytes(&kp.to_bytes()).unwrap();
    (kp, ours)
}

fn params(tip: u64, price: u64) -> TradeParams {
    TradeParams {
        fees: FeeParams { compute_unit_limit: 250_000, compute_unit_price_micro_lamports: price, jito_tip_lamports: tip },
        buy_lamports: 50_000_000,
        slippage_bps: 1500,
    }
}

fn pda(program: &Pubkey, seeds: &[&[u8]]) -> Pubkey {
    Pubkey::find_program_address(seeds, program).0
}

fn decode(bytes: &[u8]) -> Transaction {
    let tx: Transaction = bincode::deserialize(bytes).unwrap();
    assert!(tx.verify().is_ok());
    // Only the payer signs.
    assert_eq!(tx.message.header.num_required_signatures, 1);
    assert_eq!(tx.signatures.len(), 1);
    tx
}

fn program_of(tx: &Transaction, i: usize) -> Pubkey {
    tx.message.account_keys[tx.message.instructions[i].program_id_index as usize]
}

#[test]
fn ata_matches_the_associated_token_derivation() {
    let owner = Pubkey::new_unique();
    let mint = Pubkey::new_unique();
    let expected = pda(&key(&associated_token_program()), &[owner.as_ref(), key(&token_program()).as_ref(), mint.as_ref()]);
    assert_eq!(ata(&addr(&owner), &addr(&mint), &token_program()).unwrap().bytes, expected.to_bytes());
}

#[test]
fn ata_create_idempotent_layout() {
    let payer = Address { bytes: [1u8; 32] };
    let owner = Address { bytes: [2u8; 32] };
    let mint = Address { bytes: [3u8; 32] };
    let ix = ata_create_idempotent_ix(&payer, &owner, &mint, &token_2022_program()).unwrap();
    let a = ata(&owner, &mint, &token_2022_program()).unwrap();
    assert_eq!(ix.program_id.bytes, associated_token_program().bytes);
    assert_eq!(ix.data, vec![1u8]);
    let expect = [
        (payer, true, true),
        (a, false, true),
        (owner, false, false),
        (mint, false, false),
        (system_program(), false, false),
        (token_2022_program(), false, false),
        (sysvar_rent(), false, false),
    ];
    assert_eq!(ix.accounts.len(), 7);
    for (m, (k, s, w)) in ix.accounts.iter().zip(expect.iter()) {
        assert_eq!(m.pubkey.bytes, k.bytes);
        assert_eq!(m.is_signer, *s);
        assert_eq!(m.is_writable, *w);
    }
}

#[test]
fn sync_native_layout() {
    let a = Address { bytes: [8u8; 32] };
    let ix = sync_native_ix(&a);
    assert_eq!(ix.program_id.bytes, token_program().bytes);
    assert_eq!(ix.data, vec![17u8]);
    assert_eq!(ix.accounts.len(), 1);
    assert!(ix.accounts[0].is_writable && !ix.accounts[0].is_signer);
}

#[test]
fn pump_buy_derives_its_accounts() {
    let mint = Pubkey::new_unique();
    let curve = Pubkey::new_unique();
    let creator = Pubkey::new_unique();
    let user = Pubkey::new_unique();
    let fee = Pubkey::new_unique();
    let tp = key(&token_program());
    let pump = key(&pumpfun_program());
    let ix = build_pump_buy_exact_sol_in_ix(&addr(&mint), &addr(&curve), &addr(&creator), &addr(&tp), &addr(&user), &addr(&fee), 7, 9).unwrap();
    let ata_prog = key(&associated_token_program());
    let expect = [
        pda(&pump, &[b"global"]),
        fee,
        mint,
        curve,
        pda(&ata_prog, &[curve.as_ref(), tp.as_ref(), mint.as_ref()]),
        pda(&ata_prog, &[user.as_ref(), tp.as_ref(), mint.as_ref()]),
        user,
        solana_sdk::system_program::id(),
        tp,
        pda(&pump, &[b"creator-vault", creator.as_ref()]),
        pda(&pump, &[b"__event_authority"]),
        pump,
        pda(&pump, &[b"global_volume_accumulator"]),
        pda(&pump, &[b"user_volume_accumulator", user.as_ref()]),
        pda(&key(&pumpfun_fee_program()), &[b"fee_config", pump.as_ref()]),
        key(&pumpfun_fee_program()),
    ];
    assert_eq!(ix.accounts.len(), 16);
    for (i, (m, k)) in ix.accounts.iter().zip(expect.iter()).enumerate() {
        assert_eq!(key(&m.pubkey), *k, "account {}", i);
        assert_eq!(m.is_signer, i == 6);
        assert_eq!(m.is_writable, [1, 3, 4, 5, 6, 9, 13].contains(&i));
    }
    let mut data = vec![56u8, 252, 116, 8, 158, 223, 205, 95];
    data.extend_from_slice(&7u64.to_le_bytes());
    data.extend_from_slice(&9u64.to_le_bytes());
    data.push(0);
    assert_eq!(ix.data, data);
}

#[test]
fn pump_buy_from_leader_accounts_swaps_in_the_user() {
    let accounts: Vec<Address> = (0..17u8).map(|i| Address { bytes: [i; 32] }).collect();
    let user = Address { bytes: [200u8; 32] };
    let ix = build_pump_buy_exact_sol_in_ix_from_accounts(&accounts, &user, 5, 6).unwrap();
    assert_eq!(ix.accounts.len(), 16);
    assert_eq!(ix.accounts[6].pubkey.bytes, user.bytes);
    assert!(ix.accounts[6].is_signer);
    assert_eq!(ix.accounts[15].pubkey.bytes, [15u8; 32]);
    let short: Vec<Address> = accounts[..15].to_vec();
    assert_eq!(build_pump_buy_exact_sol_in_ix_from_accounts(&short, &user, 5, 6).unwrap_err(), BuildError::LeaderAccountsTooShort(15));
}

#[test]
fn demo_transaction_is_signed_and_ordered() {
    let (kp, ours) = payer();
    let tip = Pubkey::new_unique();
    let fees = FeeParams { compute_unit_limit: 250_000, compute_unit_price_micro_lamports: 5, jito_tip_lamports: 1000 };
    let bytes = build_demo_tx_bytes(&fees, &ours, &addr(&tip), &[7u8; 32]).unwrap();
    let tx = decode(&bytes);
    assert_eq!(tx.message.account_keys[0], kp.pubkey());
    assert_eq!(tx.message.recent_blockhash.to_bytes(), [7u8; 32]);
    assert_eq!(tx.message.instructions.len(), 4);
    assert_eq!(tx.message.instructions[0].data, ComputeBudgetInstruction::set_compute_unit_limit(50_000).data);
    assert_eq!(tx.message.instructions[1].data, ComputeBudgetInstruction::set_compute_unit_price(5).data);
    assert_eq!(program_of(&tx, 2), solana_sdk::system_program::id());
    #[allow(deprecated)]
    let transfer = solana_sdk::system_instruction::transfer(&kp.pubkey(), &tip, 1000);
    assert_eq!(tx.message.instructions[2].data, transfer.data);
    assert_eq!(tx.message.header.num_required_signatures, 1);
}

#[test]
fn foreign_signer_is_refused() {
    let (_kp, ours) = payer();
    let other = Address { bytes: [9u8; 32] };
    let ix = Ix { program_id: system_program(), accounts: vec![AccountMeta { pubkey: other, is_signer: true, is_writable: true }], data: vec![] };
    assert_eq!(build_signed_tx(&vec![ix], &ours, &[0u8; 32]).unwrap_err(), TxBuildError::ForeignSigner);
}

#[test]
fn too_many_accounts_is_refused() {
    let (_kp, ours) = payer();
    let accounts: Vec<AccountMeta> = (0..300u32)
        .map(|i| {
            let mut b = [0u8; 32];
            b[..4].copy_from_slice(&i.to_le_bytes());
            b[31] = 1;
            AccountMeta { pubkey: Address { bytes: b }, is_signer: false, is_writable: false }
        })
        .collect();
    let ix = Ix { program_id: system_program(), accounts, data: vec![] };
    assert_eq!(build_signed_tx(&vec![ix], &ours, &[0u8; 32]).unwrap_err(), TxBuildError::TooManyAccounts);
}

#[test]
fn many_writable_accounts_still_build() {
    let (_kp, ours) = payer();
    let accounts: Vec<AccountMeta> = (0..300u32)
        .map(|i| {
            let mut b = [0u8; 32];
            b[..4].copy_from_slice(&i.to_le_bytes());
            b[31] = 1;
            AccountMeta { pubkey: Address { bytes: b }, is_signer: false, is_writable: i >= 10 }
        })
        .collect();
    let ix = Ix { program_id: system_program(), accounts, data: vec![] };
    assert!(build_signed_tx(&vec![ix], &ours, &[0u8; 32]).is_ok());
}

#[test]
fn curve_buy_transaction() {
    let (kp, ours) = payer();
    let mint = Pubkey::new_unique();
    let state = BondingCurveState { complete: false, creator: Address { bytes: [4u8; 32] }, is_mayhem_mode: false, token_program: token_program() };
    let fee = Address { bytes: [5u8; 32] };
    let tip = Address { bytes: [6u8; 32] };
    let bytes = build_curve_buy_tx_bytes(&params(1000, 0), &ours, &tip, &addr(&mint), &state, &fee, &[1u8; 32]).unwrap();
    let tx = decode(&bytes);
    assert_eq!(tx.message.account_keys[0], kp.pubkey());
    assert_eq!(tx.message.instructions.len(), 4);
    assert_eq!(program_of(&tx, 1), key(&associated_token_program()));
    assert_eq!(program_of(&tx, 2), key(&pumpfun_program()));
    assert_eq!(program_of(&tx, 3), solana_sdk::system_program::id());
    let data = &tx.message.instructions[2].data;
    assert_eq!(&data[8..16], &50_000_000u64.to_le_bytes());
    assert_eq!(&data[16..24], &1u64.to_le_bytes());
}

#[test]
fn curve_state_reads_the_curve_account() {
    let mut data = vec![0u8; 82];
    data[48] = 1;
    data[49..81].copy_from_slice(&[2u8; 32]);
    let state = curve_state_from_accounts(&token_2022_program(), &data).unwrap();
    assert!(state.complete);
    assert_eq!(state.creator.bytes, [2u8; 32]);
    assert!(!state.is_mayhem_mode);
    assert_eq!(state.token_program.bytes, token_2022_program().bytes);
    assert!(curve_state_from_accounts(&token_program(), &[0u8; 10]).is_err());
    assert_eq!(route_by_curve_state(&state), CurveStateRoute::PumpSwap);
    let running = BondingCurveState { complete: false, ..state };
    assert_eq!(route_by_curve_state(&running), CurveStateRoute::BondingCurve);
    assert!(mayhem_curve_fee_recipient(false, 3).is_none());
    assert!(mayhem_curve_fee_recipient(true, 3).is_some());
}

fn pool_accounts() -> (Vec<u8>, Vec<u8>, Vec<u8>) {
    let mut pool = vec![0u8; 211];
    pool[139..171].copy_from_slice(&[11u8; 32]);
    pool[171..203].copy_from_slice(&[12u8; 32]);
    let mut base = vec![0u8; 165];
    base[64..72].copy_from_slice(&1_000_000_000_000u64.to_le_bytes());
    let mut quote = vec![0u8; 165];
    quote[64..72].copy_from_slice(&100_000_000_000u64.to_le_bytes());
    (pool, base, quote)
}

#[test]
fn amm_buy_transaction() {
    let (kp, ours) = payer();
    let mint = Address { bytes: [21u8; 32] };
    let state = BondingCurveState { complete: true, creator: Address { bytes: [4u8; 32] }, is_mayhem_mode: false, token_program: token_program() };
    let (pool, base, quote) = pool_accounts();
    let fee = Some(Address { bytes: [5u8; 32] });
    let bytes = build_amm_buy_tx_bytes(&params(0, 0), &ours, &Address { bytes: [6u8; 32] }, &mint, &state, fee, &pool, &base, &quote, &[1u8; 32]).unwrap();
    let tx = decode(&bytes);
    assert_eq!(tx.message.account_keys[0], kp.pubkey());
    // budget limit, two token-account creations, the buy; no tip.
    assert_eq!(tx.message.instructions.len(), 4);
    assert_eq!(program_of(&tx, 3), key(&pumpfun_amm_program()));
    let buy = &tx.message.instructions[3];
    assert_eq!(&buy.data[..8], &[102u8, 6, 61, 18, 1, 218, 235, 234]);
    assert_eq!(buy.accounts.len(), 23);
    assert_eq!(tx.message.account_keys[buy.accounts[7] as usize].to_bytes(), [11u8; 32]);
    assert_eq!(tx.message.account_keys[buy.accounts[8] as usize].to_bytes(), [12u8; 32]);
}

#[test]
fn amm_buy_errors() {
    let (_kp, ours) = payer();
    let mint = Address { bytes: [21u8; 32] };
    let state = BondingCurveState { complete: true, creator: Address { bytes: [4u8; 32] }, is_mayhem_mode: false, token_program: token_program() };
    let (pool, base, quote) = pool_accounts();
    let fee = Some(Address { bytes: [5u8; 32] });
    let tip = Address { bytes: [6u8; 32] };
    let p = params(0, 0);
    let bh = [1u8; 32];
    assert_eq!(build_amm_buy_tx_bytes(&p, &ours, &tip, &mint, &state, None, &pool, &base, &quote, &bh).unwrap_err(), TradeError::Build(BuildError::NoFeeRecipient));
    assert_eq!(build_amm_buy_tx_bytes(&p, &ours, &tip, &mint, &state, fee, &pool[..100], &base, &quote, &bh).unwrap_err(), TradeError::Build(BuildError::PoolParseFailed));
    assert_eq!(build_amm_buy_tx_bytes(&p, &ours, &tip, &mint, &state, fee, &pool, &base[..70], &quote, &bh).unwrap_err(), TradeError::Build(BuildError::BaseReserveParseFailed));
    assert_eq!(build_amm_buy_tx_bytes(&p, &ours, &tip, &mint, &state, fee, &pool, &base, &quote[..70], &bh).unwrap_err(), TradeError::Build(BuildError::QuoteReserveParseFailed));
    let mut zero = params(0, 0);
    zero.buy_lamports = 0;
    assert_eq!(build_amm_buy_tx_bytes(&zero, &ours, &tip, &mint, &state, fee, &pool, &base, &quote, &bh).unwrap_err(), TradeError::Build(BuildError::BuySolTooSmall));
}

#[test]
fn amm_failures_that_fall_back_to_the_curve() {
    assert!(amm_falls_back_to_curve(&AmmFailure::PoolFetch("timeout".to_string())));
    assert!(amm_falls_back_to_curve(&AmmFailure::Rpc("RPC error: AccountNotFound: pubkey=x".to_string())));
    assert!(amm_falls_back_to_curve(&AmmFailure::Rpc("pool fetch failed: x".to_string())));
    assert!(!amm_falls_back_to_curve(&AmmFailure::Rpc("connection reset".to_string())));
    assert!(!amm_falls_back_to_curve(&AmmFailure::Trade(TradeError::Build(BuildError::BuySolTooSmall))));
}

#[test]
fn wrapper_mirror_puts_us_in_the_leaders_place() {
    let (kp, ours) = payer();
    let me = addr(&kp.pubkey());
    let leader = Address { bytes: [31u8; 32] };
    let mint = Address::zero();
    let leader_wsol = ata(&leader, &wsol_mint(), &token_program()).unwrap();
    let our_wsol = ata(&me, &wsol_mint(), &token_program()).unwrap();
    let other = Address { bytes: [32u8; 32] };
    let accounts = vec![leader, leader_wsol, token_program(), other];
    let program = Address { bytes: [33u8; 32] };
    let fees = FeeParams { compute_unit_limit: 100_000, compute_unit_price_micro_lamports: 0, jito_tip_lamports: 0 };
    let bytes = build_wrapper_mirror_tx_bytes(&fees, &ours, &Address::zero(), &leader, &mint, &program, &accounts, &vec![1, 2, 3], &[2u8; 32]).unwrap();
    let tx = decode(&bytes);
    // budget limit, WSOL account creation (mint unknown: no token account), wrapper.
    assert_eq!(tx.message.instructions.len(), 3);
    let w = &tx.message.instructions[2];
    assert_eq!(program_of(&tx, 2).to_bytes(), program.bytes);
    assert_eq!(w.data, vec![1, 2, 3]);
    let keys: Vec<[u8; 32]> = w.accounts.iter().map(|i| tx.message.account_keys[*i as usize].to_bytes()).collect();
    assert_eq!(keys, vec![me.bytes, our_wsol.bytes, token_program().bytes, other.bytes]);
    assert!(tx.message.is_signer(w.accounts[0] as usize));
    assert!(!tx.message.is_maybe_writable(w.accounts[2] as usize, None));
    assert!(is_program_or_sysvar_readonly(&sysvar_rent()));
    assert!(!is_program_or_sysvar_readonly(&other));
}

fn signal(source: SignalSource) -> TradeSignal {
    TradeSignal {
        slot: 1,
        leader: Address { bytes: [41u8; 32] },
        mint: Address { bytes: [42u8; 32] },
        signature: [0u8; 64],
        source,
        recent_blockhash: None,
        leader_ix_accounts: None,
        leader_in: None,
        leader_min_out: None,
        wrapper_program_id: None,
        wrapper_ix_data: None,
    }
}

#[test]
fn trade_plans_follow_the_signal() {
    let (_kp, ours) = payer();
    let tip = Address { bytes: [6u8; 32] };
    let p = params(0, 0);
    // Wrapper mirror: needs a blockhash first, then reports the first missing field.
    let sig = signal(SignalSource::WrapperMirror);
    assert!(matches!(build_trade_bundle_txs(&p, &ours, &tip, &sig, None), TradePlan::FetchBlockhash));
    assert!(matches!(build_trade_bundle_txs(&p, &ours, &tip, &sig, Some([1u8; 32])),
        TradePlan::Bundle(Err(TradeError::Build(BuildError::MissingWrapperProgram)))));
    let mut sig2 = sig.clone();
    sig2.wrapper_program_id = Some(Address { bytes: [50u8; 32] });
    assert!(matches!(build_trade_bundle_txs(&p, &ours, &tip, &sig2, Some([1u8; 32])),
        TradePlan::Bundle(Err(TradeError::Build(BuildError::MissingWrapperData)))));
    sig2.wrapper_ix_data = Some(vec![1]);
    assert!(matches!(build_trade_bundle_txs(&p, &ours, &tip, &sig2, Some([1u8; 32])),
        TradePlan::Bundle(Err(TradeError::Build(BuildError::MissingLeaderAccounts)))));
    sig2.leader_ix_accounts = Some(vec![sig2.leader]);
    match build_trade_bundle_txs(&p, &ours, &tip, &sig2, Some([1u8; 32])) {
        TradePlan::Bundle(Ok(txs)) => assert_eq!(txs.len(), 1),
        other => panic!("unexpected plan {:?}", other),
    }
    // Signals without what the fast path needs go by the curve state.
    assert!(matches!(build_trade_bundle_txs(&p, &ours, &tip, &signal(SignalSource::CurveDirectBuy), None), TradePlan::ByCurveState));
    assert!(matches!(build_trade_bundle_txs(&p, &ours, &tip, &signal(SignalSource::AmmAxiomBuy), None), TradePlan::ByCurveState));
}

#[test]
fn direct_buy_fast_path_scales_the_leaders_minimum() {
    let (_kp, ours) = payer();
    let tip = Address { bytes: [6u8; 32] };
    let p = params(0, 0);
    let mut accounts: Vec<Address> = (0..16u8).map(|i| Address { bytes: [100 + i; 32] }).collect();
    accounts[8] = token_program();
    let mut sig = signal(SignalSource::CurveDirectBuy);
    sig.recent_blockhash = Some([3u8; 32]);
    sig.leader_ix_accounts = Some(accounts.clone());
    sig.leader_in = Some(1_000_000_000);
    sig.leader_min_out = Some(1_000_000);
    let txs = match build_trade_bundle_txs(&p, &ours, &tip, &sig, None) {
        TradePlan::Bundle(Ok(txs)) => txs,
        other => panic!("unexpected plan {:?}", other),
    };
    let tx = decode(&txs[0]);
    assert_eq!(tx.message.recent_blockhash.to_bytes(), [3u8; 32]);
    let buy = &tx.message.instructions[2];
    assert_eq!(&buy.data[16..24], &42_500u64.to_le_bytes());
    // A curve buy under a wrapper asks for at least one token.
    let mut cpi = sig.clone();
    cpi.source = SignalSource::CurveCpiBuy;
    let txs = match build_trade_bundle_txs(&p, &ours, &tip, &cpi, None) {
        TradePlan::Bundle(Ok(txs)) => txs,
        other => panic!("unexpected plan {:?}", other),
    };
    let tx = decode(&txs[0]);
    assert_eq!(&tx.message.instructions[2].data[16..24], &1u64.to_le_bytes());
    // Too few accounts for the token program.
    let mut short = sig.clone();
    short.leader_ix_accounts = Some(accounts[..8].to_vec());
    assert!(matches!(build_trade_bundle_txs(&p, &ours, &tip, &short, None),
        TradePlan::Bundle(Err(TradeError::Build(BuildError::MissingTokenProgram)))));
}

#[test]
fn wsol_bank_tops_up_to_the_target() {
    let (kp, ours) = payer();
    let me = addr(&kp.pubkey());
    let bank = WsolBank::new(&me, 0, 1_000, 5_000).unwrap();
    assert_eq!(bank.wsol_ata().bytes, ata(&me, &wsol_mint(), &token_program()).unwrap().bytes);
    assert_eq!(bank.desired_wrap_lamports(999), 4_001);
    assert_eq!(bank.desired_wrap_lamports(1_000), 0);
    let mut acct = vec![0u8; 165];
    acct[64..72].copy_from_slice(&2_000u64.to_le_bytes());
    assert!(matches!(bank.bootstrap(&ours, Some(&acct), 400_000, 0, None), BootstrapStep::Sufficient(2_000)));
    assert!(matches!(bank.bootstrap(&ours, None, 400_000, 0, None), BootstrapStep::FetchBlockhash));
    let bytes = match bank.bootstrap(&ours, None, 400_000, 0, Some([9u8; 32])) {
        BootstrapStep::Send(Ok(b)) => b,
        other => panic!("unexpected step {:?}", other),
    };
    let tx = decode(&bytes);
    assert_eq!(tx.message.instructions.len(), 4);
    assert_eq!(tx.message.instructions[0].data, ComputeBudgetInstruction::set_compute_unit_limit(200_000).data);
    #[allow(deprecated)]
    let transfer = solana_sdk::system_instruction::transfer(&kp.pubkey(), &key(&bank.wsol_ata()), 5_000);
    assert_eq!(tx.message.instructions[2].data, transfer.data);
    assert_eq!(tx.message.instructions[3].data, vec![17u8]);
    let reserve = WsolBank::new(&me, 777, 0, 5_000).unwrap();
    assert_eq!(reserve.desired_wrap_lamports(1_000_000), 777);
    assert_eq!(reserve.reserve_lamports(), 777);
}
