//! The buy transactions of a trade signal: which route a signal takes, the signed bytes of
//! each route, and when a failed PumpSwap buy falls back to the bonding curve.
use crate::address::Address;
use crate::amm::{amm_buy_ixs, amm_pool_pda, spec_amm_buy_ixs, spec_amm_pool};
use crate::budget::FeeParams;
use crate::layout::{
    parse_bonding_curve, parse_pool_accounts, parse_spl_token_amount, spec_parse_bonding_curve,
    spec_parse_pool_accounts, spec_parse_spl_token_amount, LayoutError,
};
use crate::mirror::{spec_wrapper_mirror_ixs, wrapper_mirror_ixs};
use crate::pricing::{scale_min_out, spec_scale_min_out};
use crate::pumpbuy::{
    bonding_curve_pda, curve_buy_ixs, curve_fast_ixs, spec_bonding_curve, spec_curve_buy_ixs,
    spec_curve_fast_ixs, BondingCurveState, BuildError, TradeParams,
};
use crate::pumpswap::{pick_mayhem_fee_recipient, spec_mayhem_fee_recipients};
use crate::text::{contains_str, spec_contains};
use crate::tx::{build_signed_tx, spec_build_signed_tx, PayerKeypair, TxBuildError};
use crate::types::{Ix, IxModel, SignalSource, TradeSignal};
use vstd::prelude::*;

verus! {

/// Why a trade's transaction could not be produced.
#[derive(Clone, Copy, Debug, PartialEq, Eq, Structural)]
pub enum TradeError {
    /// The instructions could not be built.
    Build(BuildError),
    /// The transaction could not be signed or serialised.
    Tx(TxBuildError),
}

/// The model of a built instruction list.
pub open spec fn ixs_view(ixs: Result<Vec<Ix>, BuildError>) -> Result<Seq<IxModel>, BuildError> {
    match ixs {
        Ok(v) => Ok(v.deep_view()),
        Err(e) => Err(e),
    }
}

/// The signed transaction bytes of an instruction list, or the first error.
pub open spec fn spec_signed(ixs: Result<Seq<IxModel>, BuildError>, payer: PayerKeypair, blockhash: Seq<u8>) -> Result<Seq<u8>, TradeError> {
    match ixs {
        Err(e) => Err(TradeError::Build(e)),
        Ok(s) => match spec_build_signed_tx(s, payer, blockhash) {
            Ok(b) => Ok(b),
            Err(e) => Err(TradeError::Tx(e)),
        },
    }
}

/// Whether exec bytes `r` are the spec result `s`.
pub open spec fn tx_result_is(r: Result<Vec<u8>, TradeError>, s: Result<Seq<u8>, TradeError>) -> bool {
    match r {
        Ok(v) => s == Ok::<Seq<u8>, TradeError>(v@),
        Err(e) => s == Err::<Seq<u8>, TradeError>(e),
    }
}

/// Signs a built instruction list with the payer at `blockhash`.
pub fn sign_trade_ixs(ixs: Result<Vec<Ix>, BuildError>, payer: &PayerKeypair, blockhash: &[u8; 32]) -> (r: Result<Vec<u8>, TradeError>)
    ensures
        tx_result_is(r, spec_signed(ixs_view(ixs), *payer, blockhash@)),
{
    match ixs {
        Err(e) => Err(TradeError::Build(e)),
        Ok(v) => match build_signed_tx(&v, payer, blockhash) {
            Ok(b) => Ok(b),
            Err(e) => Err(TradeError::Tx(e)),
        },
    }
}

// ---------------------------------------------------------------------------
// Bonding-curve state
// ---------------------------------------------------------------------------

/// The curve state of a mint from its fetched accounts: the mint account's owner is the
/// token program; the rest is read from the bonding curve account.
pub open spec fn spec_curve_state(mint_owner: Address, curve_data: Seq<u8>) -> Result<BondingCurveState, LayoutError> {
    match spec_parse_bonding_curve(curve_data) {
        Err(e) => Err(e),
        Ok((complete, creator, is_mayhem_mode)) => Ok(BondingCurveState { complete, creator, is_mayhem_mode, token_program: mint_owner }),
    }
}

/// Reads the curve state of a mint from its fetched mint and bonding curve accounts.
pub fn curve_state_from_accounts(mint_owner: &Address, curve_data: &[u8]) -> (r: Result<BondingCurveState, LayoutError>)
    ensures
        r == spec_curve_state(*mint_owner, curve_data@),
{
    match parse_bonding_curve(curve_data) {
        Err(e) => Err(e),
        Ok((complete, creator, is_mayhem_mode)) => Ok(BondingCurveState { complete, creator, is_mayhem_mode, token_program: *mint_owner }),
    }
}

/// The fee recipient of a bonding-curve buy when it needs no account read: in Mayhem mode,
/// the Mayhem recipient picked by the clock. `None`: read it from the Pump.fun global
/// account.
pub fn mayhem_curve_fee_recipient(is_mayhem_mode: bool, subsec_nanos: u32) -> (r: Option<Address>)
    ensures
        is_mayhem_mode ==> r == Some(spec_mayhem_fee_recipients()[(subsec_nanos % 8) as int]),
        !is_mayhem_mode ==> r is None,
{
    if is_mayhem_mode {
        Some(pick_mayhem_fee_recipient(subsec_nanos))
    } else {
        None
    }
}

// ---------------------------------------------------------------------------
// Transaction bytes of each route
// ---------------------------------------------------------------------------

/// The signed bonding-curve buy of `mint` (RPC-assisted route).
pub open spec fn spec_curve_buy_tx(params: TradeParams, payer: PayerKeypair, tip_account: Address, mint: Address, state: BondingCurveState, fee_recipient: Address, blockhash: Seq<u8>) -> Result<Seq<u8>, TradeError> {
    let ixs = match spec_bonding_curve(mint) {
        None => Err(BuildError::PdaNotFound),
        Some(curve) => match spec_curve_buy_ixs(params, payer.spec_pubkey(), tip_account, mint, curve, state.creator, state.token_program, fee_recipient) {
            Some(s) => Ok(s),
            None => Err(BuildError::PdaNotFound),
        },
    };
    spec_signed(ixs, payer, blockhash)
}

/// Builds and signs the bonding-curve buy of `mint` from its fetched curve state, fee
/// recipient and blockhash: the whole SOL budget in, at least one token out.
pub fn build_curve_buy_tx_bytes(params: &TradeParams, payer: &PayerKeypair, tip_account: &Address, mint: &Address, state: &BondingCurveState, fee_recipient: &Address, blockhash: &[u8; 32]) -> (r: Result<Vec<u8>, TradeError>)
    ensures
        tx_result_is(r, spec_curve_buy_tx(*params, *payer, *tip_account, *mint, *state, *fee_recipient, blockhash@)),
{
    let ours = payer.pubkey();
    let ixs: Result<Vec<Ix>, BuildError> = match bonding_curve_pda(mint) {
        None => Err(BuildError::PdaNotFound),
        Some(curve) => match curve_buy_ixs(params, &ours, tip_account, mint, &curve, &state.creator, &state.token_program, fee_recipient) {
            Some(v) => Ok(v),
            None => Err(BuildError::PdaNotFound),
        },
    };
    sign_trade_ixs(ixs, payer, blockhash)
}

/// The PumpSwap buy instructions from the fetched pool and its token accounts.
pub open spec fn spec_amm_ixs_from_accounts(params: TradeParams, payer: Address, tip_account: Address, mint: Address, state: BondingCurveState, fee_recipient: Address, pool_data: Seq<u8>, base_data: Seq<u8>, quote_data: Seq<u8>) -> Result<Seq<IxModel>, BuildError> {
    match spec_parse_pool_accounts(pool_data) {
        None => Err(BuildError::PoolParseFailed),
        Some((pool_base, pool_quote)) => match spec_parse_spl_token_amount(base_data) {
            None => Err(BuildError::BaseReserveParseFailed),
            Some(base_reserve) => match spec_parse_spl_token_amount(quote_data) {
                None => Err(BuildError::QuoteReserveParseFailed),
                Some(quote_reserve) => match spec_amm_pool(mint) {
                    None => Err(BuildError::PdaNotFound),
                    Some(pool) => spec_amm_buy_ixs(params, payer, tip_account, mint, state, fee_recipient, pool, pool_base, pool_quote, base_reserve, quote_reserve),
                },
            },
        },
    }
}

/// Builds the PumpSwap buy instructions of `mint` from the fetched pool account and the
/// pool's base and quote token accounts.
pub fn amm_ixs_from_accounts(params: &TradeParams, payer: &Address, tip_account: &Address, mint: &Address, state: &BondingCurveState, fee_recipient: &Address, pool_data: &[u8], base_data: &[u8], quote_data: &[u8]) -> (r: Result<Vec<Ix>, BuildError>)
    ensures
        ixs_view(r) == spec_amm_ixs_from_accounts(*params, *payer, *tip_account, *mint, *state, *fee_recipient, pool_data@, base_data@, quote_data@),
{
    let (pool_base, pool_quote) = match parse_pool_accounts(pool_data) {
        None => return Err(BuildError::PoolParseFailed),
        Some(p) => p,
    };
    let base_reserve = match parse_spl_token_amount(base_data) {
        None => return Err(BuildError::BaseReserveParseFailed),
        Some(a) => a,
    };
    let quote_reserve = match parse_spl_token_amount(quote_data) {
        None => return Err(BuildError::QuoteReserveParseFailed),
        Some(a) => a,
    };
    let pool = match amm_pool_pda(mint) {
        None => return Err(BuildError::PdaNotFound),
        Some(p) => p,
    };
    amm_buy_ixs(params, payer, tip_account, mint, state, fee_recipient, &pool, &pool_base, &pool_quote, base_reserve, quote_reserve)
}

/// The signed PumpSwap buy of `mint`.
pub open spec fn spec_amm_buy_tx(params: TradeParams, payer: PayerKeypair, tip_account: Address, mint: Address, state: BondingCurveState, fee_recipient: Option<Address>, pool_data: Seq<u8>, base_data: Seq<u8>, quote_data: Seq<u8>, blockhash: Seq<u8>) -> Result<Seq<u8>, TradeError> {
    match fee_recipient {
        None => Err(TradeError::Build(BuildError::NoFeeRecipient)),
        Some(f) => spec_signed(spec_amm_ixs_from_accounts(params, payer.spec_pubkey(), tip_account, mint, state, f, pool_data, base_data, quote_data), payer, blockhash),
    }
}

/// Builds and signs the PumpSwap buy of a migrated mint: refused without a protocol fee
/// recipient, then built from the fetched pool and reserves.
pub fn build_amm_buy_tx_bytes(params: &TradeParams, payer: &PayerKeypair, tip_account: &Address, mint: &Address, state: &BondingCurveState, fee_recipient: Option<Address>, pool_data: &[u8], base_data: &[u8], quote_data: &[u8], blockhash: &[u8; 32]) -> (r: Result<Vec<u8>, TradeError>)
    ensures
        tx_result_is(r, spec_amm_buy_tx(*params, *payer, *tip_account, *mint, *state, fee_recipient, pool_data@, base_data@, quote_data@, blockhash@)),
{
    let f = match fee_recipient {
        None => return Err(TradeError::Build(BuildError::NoFeeRecipient)),
        Some(f) => f,
    };
    let ours = payer.pubkey();
    let ixs = amm_ixs_from_accounts(params, &ours, tip_account, mint, state, &f, pool_data, base_data, quote_data);
    sign_trade_ixs(ixs, payer, blockhash)
}

/// The signed wrapper mirror.
pub open spec fn spec_wrapper_mirror_tx(fees: FeeParams, payer: PayerKeypair, tip_account: Address, leader: Address, mint: Address, wrapper_program_id: Address, leader_ix_accounts: Seq<Address>, wrapper_ix_data: Seq<u8>, blockhash: Seq<u8>) -> Result<Seq<u8>, TradeError> {
    spec_signed(spec_wrapper_mirror_ixs(fees, payer.spec_pubkey(), tip_account, leader, mint, wrapper_program_id, leader_ix_accounts, wrapper_ix_data), payer, blockhash)
}

/// Builds and signs the mirror of a leader's wrapper instruction.
pub fn build_wrapper_mirror_tx_bytes(fees: &FeeParams, payer: &PayerKeypair, tip_account: &Address, leader: &Address, mint: &Address, wrapper_program_id: &Address, leader_ix_accounts: &Vec<Address>, wrapper_ix_data: &Vec<u8>, blockhash: &[u8; 32]) -> (r: Result<Vec<u8>, TradeError>)
    ensures
        tx_result_is(r, spec_wrapper_mirror_tx(*fees, *payer, *tip_account, *leader, *mint, *wrapper_program_id, leader_ix_accounts@, wrapper_ix_data@, blockhash@)),
{
    let ours = payer.pubkey();
    let ixs = wrapper_mirror_ixs(fees, &ours, tip_account, leader, mint, wrapper_program_id, leader_ix_accounts, wrapper_ix_data);
    sign_trade_ixs(ixs, payer, blockhash)
}

/// The signed fast-path curve buy over the leader's Pump.fun accounts.
pub open spec fn spec_curve_fast_tx(params: TradeParams, payer: PayerKeypair, tip_account: Address, mint: Address, leader_accounts: Seq<Address>, min_tokens_out: u64, blockhash: Seq<u8>) -> Result<Seq<u8>, TradeError> {
    spec_signed(spec_curve_fast_ixs(params, payer.spec_pubkey(), tip_account, mint, leader_accounts, min_tokens_out), payer, blockhash)
}

/// Builds and signs a fast-path curve buy over the leader's Pump.fun accounts at the
/// leader's blockhash.
pub fn build_curve_fast_tx_bytes(params: &TradeParams, payer: &PayerKeypair, tip_account: &Address, mint: &Address, leader_accounts: &Vec<Address>, min_tokens_out: u64, blockhash: &[u8; 32]) -> (r: Result<Vec<u8>, TradeError>)
    ensures
        tx_result_is(r, spec_curve_fast_tx(*params, *payer, *tip_account, *mint, leader_accounts@, min_tokens_out, blockhash@)),
{
    let ours = payer.pubkey();
    let ixs = curve_fast_ixs(params, &ours, tip_account, mint, leader_accounts, min_tokens_out);
    sign_trade_ixs(ixs, payer, blockhash)
}

// ---------------------------------------------------------------------------
// The route of a signal
// ---------------------------------------------------------------------------

/// What the executor does next with a signal.
#[derive(Debug)]
pub enum TradePlan {
    /// The bundle (one transaction) is built, or failed.
    Bundle(Result<Vec<Vec<u8>>, TradeError>),
    /// A wrapper mirror without the leader's blockhash: fetch the latest one and plan again.
    FetchBlockhash,
    /// Fetch the mint's curve state: a bonding-curve buy while the curve runs, else a
    /// PumpSwap buy (falling back to the curve, see `amm_falls_back_to_curve`).
    ByCurveState,
}

/// The first transaction of a bundle, when it holds exactly one.
pub open spec fn bundle_is(b: Result<Vec<Vec<u8>>, TradeError>, s: Result<Seq<u8>, TradeError>) -> bool {
    match b {
        Ok(v) => v@.len() == 1 && s == Ok::<Seq<u8>, TradeError>(v@[0]@),
        Err(e) => s == Err::<Seq<u8>, TradeError>(e),
    }
}

/// Wraps a single transaction into a bundle.
fn one_tx_bundle(r: Result<Vec<u8>, TradeError>) -> (b: Result<Vec<Vec<u8>>, TradeError>)
    ensures
        forall|s: Result<Seq<u8>, TradeError>| tx_result_is(r, s) ==> bundle_is(b, s),
{
    match r {
        Ok(v) => {
            let mut out: Vec<Vec<u8>> = Vec::new();
            out.push(v);
            Ok(out)
        },
        Err(e) => Err(e),
    }
}

/// The blockhash a wrapper mirror signs with: the leader's, else the fetched one.
pub open spec fn mirror_blockhash(sig_blockhash: Option<[u8; 32]>, fetched: Option<[u8; 32]>) -> Option<[u8; 32]> {
    match sig_blockhash {
        Some(b) => Some(b),
        None => fetched,
    }
}

/// The plan of a wrapper-mirror signal.
pub open spec fn spec_mirror_plan_ok(params: TradeParams, payer: PayerKeypair, tip_account: Address, sig: TradeSignal, fetched: Option<[u8; 32]>, plan: TradePlan) -> bool {
    match mirror_blockhash(sig.recent_blockhash, fetched) {
        None => plan is FetchBlockhash,
        Some(bh) => match (sig.wrapper_program_id, sig.wrapper_ix_data, sig.leader_ix_accounts) {
            (None, _, _) => plan matches TradePlan::Bundle(Err(e)) && e == TradeError::Build(BuildError::MissingWrapperProgram),
            (Some(_), None, _) => plan matches TradePlan::Bundle(Err(e)) && e == TradeError::Build(BuildError::MissingWrapperData),
            (Some(_), Some(_), None) => plan matches TradePlan::Bundle(Err(e)) && e == TradeError::Build(BuildError::MissingLeaderAccounts),
            (Some(pid), Some(data), Some(accs)) => plan matches TradePlan::Bundle(b) && bundle_is(b,
                spec_wrapper_mirror_tx(params.fees, payer, tip_account, sig.leader, sig.mint, pid, accs@, data@, bh@)),
        },
    }
}

/// A direct curve buy signal that carries everything the fast path needs.
pub open spec fn direct_fast_ready(sig: TradeSignal) -> bool {
    sig.source == SignalSource::CurveDirectBuy && sig.recent_blockhash is Some && sig.leader_ix_accounts is Some
        && sig.leader_in is Some && sig.leader_min_out is Some
}

/// A curve buy under a wrapper that carries what the fast path needs.
pub open spec fn cpi_fast_ready(sig: TradeSignal) -> bool {
    sig.source == SignalSource::CurveCpiBuy && sig.recent_blockhash is Some && sig.leader_ix_accounts is Some
}

/// Plans the bundle of a trade signal. A wrapper mirror is rebuilt from the leader's
/// instruction (with the leader's blockhash, else `fetched_blockhash`); a direct curve buy
/// carrying the leader's accounts, amounts and blockhash is rebuilt with no RPC, its minimum
/// output scaled from the leader's; a curve buy under a wrapper carrying the leader's
/// accounts and blockhash likewise, with a minimum output of one token; any other signal
/// goes by the mint's curve state.
pub fn build_trade_bundle_txs(params: &TradeParams, payer: &PayerKeypair, tip_account: &Address, sig: &TradeSignal, fetched_blockhash: Option<[u8; 32]>) -> (r: TradePlan)
    ensures
        sig.source == SignalSource::WrapperMirror ==> spec_mirror_plan_ok(*params, *payer, *tip_account, *sig, fetched_blockhash, r),
        direct_fast_ready(*sig) ==> (r matches TradePlan::Bundle(b) && bundle_is(b, spec_curve_fast_tx(*params, *payer, *tip_account, sig.mint,
            sig.leader_ix_accounts->0@, spec_scale_min_out(sig.leader_in->0, sig.leader_min_out->0, params.buy_lamports, params.slippage_bps),
            sig.recent_blockhash->0@))),
        cpi_fast_ready(*sig) ==> (r matches TradePlan::Bundle(b) && bundle_is(b, spec_curve_fast_tx(*params, *payer, *tip_account, sig.mint,
            sig.leader_ix_accounts->0@, 1, sig.recent_blockhash->0@))),
        sig.source != SignalSource::WrapperMirror && !direct_fast_ready(*sig) && !cpi_fast_ready(*sig) ==> r is ByCurveState,
{
    match sig.source {
        SignalSource::WrapperMirror => {
            let bh = match sig.recent_blockhash {
                Some(b) => b,
                None => match fetched_blockhash {
                    Some(b) => b,
                    None => return TradePlan::FetchBlockhash,
                },
            };
            let pid = match sig.wrapper_program_id {
                Some(p) => p,
                None => return TradePlan::Bundle(Err(TradeError::Build(BuildError::MissingWrapperProgram))),
            };
            let data = match &sig.wrapper_ix_data {
                Some(d) => d,
                None => return TradePlan::Bundle(Err(TradeError::Build(BuildError::MissingWrapperData))),
            };
            let accs = match &sig.leader_ix_accounts {
                Some(a) => a,
                None => return TradePlan::Bundle(Err(TradeError::Build(BuildError::MissingLeaderAccounts))),
            };
            let tx = build_wrapper_mirror_tx_bytes(&params.fees, payer, tip_account, &sig.leader, &sig.mint, &pid, accs, data, &bh);
            TradePlan::Bundle(one_tx_bundle(tx))
        },
        SignalSource::CurveDirectBuy => {
            match (&sig.recent_blockhash, &sig.leader_ix_accounts, sig.leader_in, sig.leader_min_out) {
                (Some(bh), Some(accs), Some(leader_in), Some(leader_min)) => {
                    let min_out = scale_min_out(leader_in, leader_min, params.buy_lamports, params.slippage_bps);
                    let tx = build_curve_fast_tx_bytes(params, payer, tip_account, &sig.mint, accs, min_out, bh);
                    TradePlan::Bundle(one_tx_bundle(tx))
                },
                _ => TradePlan::ByCurveState,
            }
        },
        SignalSource::CurveCpiBuy => {
            match (&sig.recent_blockhash, &sig.leader_ix_accounts) {
                (Some(bh), Some(accs)) => {
                    let tx = build_curve_fast_tx_bytes(params, payer, tip_account, &sig.mint, accs, 1, bh);
                    TradePlan::Bundle(one_tx_bundle(tx))
                },
                _ => TradePlan::ByCurveState,
            }
        },
        _ => TradePlan::ByCurveState,
    }
}

/// The buy of a signal that goes by the mint's curve state.
#[derive(Clone, Copy, Debug, PartialEq, Eq, Structural)]
pub enum CurveStateRoute {
    /// A bonding-curve buy (the curve still runs).
    BondingCurve,
    /// A PumpSwap buy (the curve has migrated), falling back to the curve per
    /// `amm_falls_back_to_curve`.
    PumpSwap,
}

/// Where a buy goes once the curve state is known: the bonding curve while it runs, else
/// PumpSwap.
pub fn route_by_curve_state(state: &BondingCurveState) -> (r: CurveStateRoute)
    ensures
        !state.complete ==> r == CurveStateRoute::BondingCurve,
        state.complete ==> r == CurveStateRoute::PumpSwap,
{
    if state.complete {
        CurveStateRoute::PumpSwap
    } else {
        CurveStateRoute::BondingCurve
    }
}

// ---------------------------------------------------------------------------
// Falling back from PumpSwap to the bonding curve
// ---------------------------------------------------------------------------

/// How a PumpSwap buy attempt failed.
#[derive(Clone, Debug)]
pub enum AmmFailure {
    /// The library refused to build or sign it.
    Trade(TradeError),
    /// Fetching the pool account failed (with the RPC error text).
    PoolFetch(String),
    /// Another RPC call failed (with its error text).
    Rpc(String),
}

/// A failed PumpSwap buy falls back to a bonding-curve buy when the pool could not be
/// fetched or an RPC error reports a missing account: during migration the pool may not
/// exist yet.
pub open spec fn spec_amm_falls_back(f: AmmFailure) -> bool {
    match f {
        AmmFailure::Trade(_) => false,
        AmmFailure::PoolFetch(_) => true,
        AmmFailure::Rpc(t) => spec_contains(t@, "AccountNotFound"@) || spec_contains(t@, "pool fetch failed"@),
    }
}

/// Whether a failed PumpSwap buy falls back to a bonding-curve buy.
pub fn amm_falls_back_to_curve(f: &AmmFailure) -> (r: bool)
    ensures
        r == spec_amm_falls_back(*f),
{
    match f {
        AmmFailure::Trade(_) => false,
        AmmFailure::PoolFetch(_) => true,
        AmmFailure::Rpc(t) => contains_str(t.as_str(), "AccountNotFound") || contains_str(t.as_str(), "pool fetch failed"),
    }
}

// ---------------------------------------------------------------------------
// Only the payer signs
// ---------------------------------------------------------------------------

/// No account of the instruction but `payer` is asked to sign.
pub open spec fn ix_signed_by_only(ix: IxModel, payer: Address) -> bool {
    forall|j: int| 0 <= j < ix.accounts.len() && (#[trigger] ix.accounts[j]).is_signer ==> ix.accounts[j].pubkey == payer
}

/// No instruction asks anyone but `payer` to sign.
pub open spec fn all_signed_by_only(ixs: Seq<IxModel>, payer: Address) -> bool {
    forall|i: int| 0 <= i < ixs.len() ==> ix_signed_by_only(#[trigger] ixs[i], payer)
}

proof fn lemma_all_signed_concat(a: Seq<IxModel>, b: Seq<IxModel>, payer: Address)
    requires
        all_signed_by_only(a, payer),
        all_signed_by_only(b, payer),
    ensures
        all_signed_by_only(a + b, payer),
{
    assert forall|i: int| 0 <= i < (a + b).len() implies ix_signed_by_only(#[trigger] (a + b)[i], payer) by {
        if i < a.len() {
            assert((a + b)[i] == a[i]);
        } else {
            assert((a + b)[i] == b[i - a.len()]);
        }
    }
}

proof fn lemma_all_signed_gives_only_signer(ixs: Seq<IxModel>, payer: Address)
    requires
        all_signed_by_only(ixs, payer),
    ensures
        crate::tx::payer_is_only_signer(ixs, payer),
{
    assert forall|i: int, j: int|
        0 <= i < ixs.len() && 0 <= j < ixs[i].accounts.len() && #[trigger] ixs[i].accounts[j].is_signer
        implies ixs[i].accounts[j].pubkey == payer by {
        assert(ix_signed_by_only(ixs[i], payer));
    }
}

proof fn lemma_common_ixs_signed(payer: Address, tip_account: Address, fees: FeeParams, units: u32)
    ensures
        all_signed_by_only(crate::budget::spec_budget_ixs(units, fees.compute_unit_price_micro_lamports), payer),
        all_signed_by_only(crate::budget::spec_tip_ixs(payer, tip_account, fees.jito_tip_lamports), payer),
{
    let b = crate::budget::spec_budget_ixs(units, fees.compute_unit_price_micro_lamports);
    assert forall|i: int| 0 <= i < b.len() implies ix_signed_by_only(#[trigger] b[i], payer) by {
        assert(b[i].accounts.len() == 0);
    }
    let t = crate::budget::spec_tip_ixs(payer, tip_account, fees.jito_tip_lamports);
    assert forall|i: int| 0 <= i < t.len() implies ix_signed_by_only(#[trigger] t[i], payer) by {
        let accs = t[i].accounts;
        assert forall|j: int| 0 <= j < accs.len() && (#[trigger] accs[j]).is_signer implies accs[j].pubkey == payer by {
            assert(j == 0);
        }
    }
}

proof fn lemma_ata_create_signed(payer: Address, mint: Address, token_program: Address, a: Address)
    ensures
        ix_signed_by_only(crate::pumpswap::spec_ata_create_idempotent_ix(payer, payer, mint, token_program, a), payer),
{
    let accs = crate::pumpswap::spec_ata_create_idempotent_ix(payer, payer, mint, token_program, a).accounts;
    assert forall|j: int| 0 <= j < accs.len() && (#[trigger] accs[j]).is_signer implies accs[j].pubkey == payer by {
        assert(j == 0);
    }
}

/// Only the payer signs: every instruction list that the bot builds (bonding-curve,
/// PumpSwap, fast-path and wrapper-mirror buys, the demo transaction and the WSOL
/// bootstrap) asks no account but the payer for a signature, so signing never refuses
/// them for a foreign signer.
pub proof fn law_only_payer_signs(params: TradeParams, payer: Address, tip_account: Address, mint: Address, state: BondingCurveState, fee_recipient: Address, pool_data: Seq<u8>, base_data: Seq<u8>, quote_data: Seq<u8>, leader_accounts: Seq<Address>, min_tokens_out: u64, leader: Address, wrapper_program_id: Address, wrapper_ix_data: Seq<u8>, wsol_ata: Address, wrap: u64)
    ensures
        match spec_bonding_curve(mint) {
            Some(curve) => match spec_curve_buy_ixs(params, payer, tip_account, mint, curve, state.creator, state.token_program, fee_recipient) {
                Some(s) => crate::tx::payer_is_only_signer(s, payer),
                None => true,
            },
            None => true,
        },
        spec_amm_ixs_from_accounts(params, payer, tip_account, mint, state, fee_recipient, pool_data, base_data, quote_data) matches Ok(s)
            ==> crate::tx::payer_is_only_signer(s, payer),
        spec_curve_fast_ixs(params, payer, tip_account, mint, leader_accounts, min_tokens_out) matches Ok(s)
            ==> crate::tx::payer_is_only_signer(s, payer),
        spec_wrapper_mirror_ixs(params.fees, payer, tip_account, leader, mint, wrapper_program_id, leader_accounts, wrapper_ix_data) matches Ok(s)
            ==> crate::tx::payer_is_only_signer(s, payer),
        crate::tx::payer_is_only_signer(crate::budget::spec_demo_ixs(params.fees, payer, tip_account), payer),
        crate::wsol::spec_bootstrap_ixs(payer, wsol_ata, wrap, params.fees.compute_unit_limit, params.fees.compute_unit_price_micro_lamports) matches Ok(s)
            ==> crate::tx::payer_is_only_signer(s, payer),
{
    let fees = params.fees;
    let budget = crate::budget::spec_budget_ixs(fees.compute_unit_limit, fees.compute_unit_price_micro_lamports);
    let tip = crate::budget::spec_tip_ixs(payer, tip_account, fees.jito_tip_lamports);
    lemma_common_ixs_signed(payer, tip_account, fees, fees.compute_unit_limit);
    // Bonding-curve buy.
    if let Some(curve) = spec_bonding_curve(mint) {
        if let Some(s) = spec_curve_buy_ixs(params, payer, tip_account, mint, curve, state.creator, state.token_program, fee_recipient) {
            let user_ata = crate::pumpswap::spec_ata(payer, mint, state.token_program)->0;
            let buy = crate::pumpbuy::spec_pump_buy_exact_sol_in_ix(mint, curve, state.creator, state.token_program, payer, fee_recipient, params.buy_lamports, 1)->0;
            lemma_ata_create_signed(payer, mint, state.token_program, user_ata);
            assert(ix_signed_by_only(buy, payer));
            let mid = seq![crate::pumpswap::spec_ata_create_idempotent_ix(payer, payer, mint, state.token_program, user_ata), buy];
            assert(all_signed_by_only(mid, payer));
            lemma_all_signed_concat(budget, mid, payer);
            lemma_all_signed_concat(budget + mid, tip, payer);
            lemma_all_signed_gives_only_signer(s, payer);
        }
    }
    // PumpSwap buy.
    if let Ok(s) = spec_amm_ixs_from_accounts(params, payer, tip_account, mint, state, fee_recipient, pool_data, base_data, quote_data) {
        let (pool_base, pool_quote) = crate::layout::spec_parse_pool_accounts(pool_data)->0;
        let base_reserve = crate::layout::spec_parse_spl_token_amount(base_data)->0;
        let quote_reserve = crate::layout::spec_parse_spl_token_amount(quote_data)->0;
        let pool = spec_amm_pool(mint)->0;
        let accs = crate::amm::spec_amm_buy_accounts(payer, mint, state, fee_recipient, pool, pool_base, pool_quote)->0;
        let (base_out, max_quote_in) = crate::pricing::spec_amm_buy_amounts(params.buy_lamports, base_reserve, quote_reserve, params.slippage_bps);
        let buy = crate::amm::spec_amm_buy_ix(accs, crate::amm::spec_pumpswap_buy_data(base_out, max_quote_in));
        assert(accs[1] == payer);
        assert(ix_signed_by_only(buy, payer));
        lemma_ata_create_signed(payer, mint, state.token_program, accs[5]);
        lemma_ata_create_signed(payer, crate::address::spec_wsol_mint(), crate::address::spec_token_program(), accs[6]);
        let mid = seq![
            crate::pumpswap::spec_ata_create_idempotent_ix(payer, payer, mint, state.token_program, accs[5]),
            crate::pumpswap::spec_ata_create_idempotent_ix(payer, payer, crate::address::spec_wsol_mint(), crate::address::spec_token_program(), accs[6]),
            buy,
        ];
        assert(all_signed_by_only(mid, payer));
        lemma_all_signed_concat(budget, mid, payer);
        lemma_all_signed_concat(budget + mid, tip, payer);
        lemma_all_signed_gives_only_signer(s, payer);
    }
    // Fast-path curve buy.
    if let Ok(s) = spec_curve_fast_ixs(params, payer, tip_account, mint, leader_accounts, min_tokens_out) {
        let token_program = leader_accounts[8];
        let user_ata = crate::pumpswap::spec_ata(payer, mint, token_program)->0;
        let uva_opt = crate::pumpbuy::spec_user_volume_accumulator(crate::address::spec_pumpfun_program(), payer);
        let uva = match uva_opt { Some(u) => u, None => Address::spec_zero() };
        let accts = crate::pumpbuy::spec_rewrite_leader_buy_accounts(leader_accounts, user_ata, payer, uva);
        let buy = crate::pumpbuy::spec_pump_buy_ix_from_accounts(accts, payer, params.buy_lamports, min_tokens_out)->Ok_0;
        assert(crate::pumpbuy::spec_leader_buy_accounts(accts, payer)[6] == payer);
        assert(ix_signed_by_only(buy, payer));
        lemma_ata_create_signed(payer, mint, token_program, user_ata);
        let mid = seq![crate::pumpswap::spec_ata_create_idempotent_ix(payer, payer, mint, token_program, user_ata), buy];
        assert(all_signed_by_only(mid, payer));
        lemma_all_signed_concat(budget, mid, payer);
        lemma_all_signed_concat(budget + mid, tip, payer);
        lemma_all_signed_gives_only_signer(s, payer);
    }
    // Wrapper mirror.
    if let Ok(s) = spec_wrapper_mirror_ixs(fees, payer, tip_account, leader, mint, wrapper_program_id, leader_accounts, wrapper_ix_data) {
        let wsol = crate::address::spec_wsol_mint();
        let tok = crate::address::spec_token_program();
        let our_wsol = crate::pumpswap::spec_ata(payer, wsol, tok)->0;
        let leader_wsol = crate::pumpswap::spec_ata(leader, wsol, tok)->0;
        let token_atas = crate::mirror::spec_mirror_token_atas(leader, payer, mint)->0;
        crate::mirror::law_mirror_swaps_leader_for_us(leader_accounts, leader, payer, leader_wsol, our_wsol, token_atas);
        let wrapper = IxModel {
            program_id: wrapper_program_id,
            accounts: crate::mirror::spec_mirror_metas(leader_accounts, leader, payer, leader_wsol, our_wsol, token_atas),
            data: wrapper_ix_data,
        };
        assert(ix_signed_by_only(wrapper, payer));
        lemma_ata_create_signed(payer, wsol, tok, our_wsol);
        let token_create = match token_atas {
            Some(_) => match crate::pumpswap::spec_ata(payer, mint, tok) {
                Some(our_token) => seq![crate::pumpswap::spec_ata_create_idempotent_ix(payer, payer, mint, tok, our_token)],
                None => Seq::empty(),
            },
            None => Seq::empty(),
        };
        if let Some(our_token) = crate::pumpswap::spec_ata(payer, mint, tok) {
            lemma_ata_create_signed(payer, mint, tok, our_token);
        }
        assert(all_signed_by_only(token_create, payer));
        let first = seq![crate::pumpswap::spec_ata_create_idempotent_ix(payer, payer, wsol, tok, our_wsol)];
        assert(all_signed_by_only(first, payer));
        assert(all_signed_by_only(seq![wrapper], payer));
        lemma_all_signed_concat(budget, first, payer);
        lemma_all_signed_concat(budget + first, token_create, payer);
        lemma_all_signed_concat(budget + first + token_create, seq![wrapper], payer);
        lemma_all_signed_concat(budget + first + token_create + seq![wrapper], tip, payer);
        lemma_all_signed_gives_only_signer(s, payer);
    }
    // Demo transaction.
    {
        let units: u32 = if fees.compute_unit_limit < 50_000 { fees.compute_unit_limit } else { 50_000 };
        lemma_common_ixs_signed(payer, tip_account, fees, units);
        let b = crate::budget::spec_budget_ixs(units, fees.compute_unit_price_micro_lamports);
        let last = seq![crate::budget::spec_transfer_ix(payer, payer, 1)];
        let acc = last[0].accounts;
        assert forall|j: int| 0 <= j < acc.len() && (#[trigger] acc[j]).is_signer implies acc[j].pubkey == payer by {}
        assert(all_signed_by_only(last, payer));
        lemma_all_signed_concat(b, tip, payer);
        lemma_all_signed_concat(b + tip, last, payer);
        lemma_all_signed_gives_only_signer(crate::budget::spec_demo_ixs(fees, payer, tip_account), payer);
    }
    // WSOL bootstrap.
    if let Ok(s) = crate::wsol::spec_bootstrap_ixs(payer, wsol_ata, wrap, fees.compute_unit_limit, fees.compute_unit_price_micro_lamports) {
        let units: u32 = if fees.compute_unit_limit < 200_000 { fees.compute_unit_limit } else { 200_000 };
        lemma_common_ixs_signed(payer, tip_account, fees, units);
        let b = crate::budget::spec_budget_ixs(units, fees.compute_unit_price_micro_lamports);
        let wsol = crate::address::spec_wsol_mint();
        let tok = crate::address::spec_token_program();
        let payer_wsol = crate::pumpswap::spec_ata(payer, wsol, tok)->0;
        lemma_ata_create_signed(payer, wsol, tok, payer_wsol);
        let rest = seq![
            crate::pumpswap::spec_ata_create_idempotent_ix(payer, payer, wsol, tok, payer_wsol),
            crate::budget::spec_transfer_ix(payer, wsol_ata, wrap),
            crate::pumpswap::spec_sync_native_ix(wsol_ata),
        ];
        assert forall|i: int| 0 <= i < rest.len() implies ix_signed_by_only(#[trigger] rest[i], payer) by {
            if i == 1 {
                let acc = rest[1].accounts;
                assert forall|j: int| 0 <= j < acc.len() && (#[trigger] acc[j]).is_signer implies acc[j].pubkey == payer by {}
            }
            if i == 2 {
                let acc = rest[2].accounts;
                assert forall|j: int| 0 <= j < acc.len() && (#[trigger] acc[j]).is_signer implies acc[j].pubkey == payer by {}
            }
        }
        lemma_all_signed_concat(b, rest, payer);
        lemma_all_signed_gives_only_signer(s, payer);
    }
}

} // verus!
