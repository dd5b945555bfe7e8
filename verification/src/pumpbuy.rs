//! Pump.fun and PumpSwap buy instructions, and the instruction lists of the buy
//! transactions the executor submits.
use crate::address::{
    pumpfun_amm_program, pumpfun_fee_program, pumpfun_program, spec_pumpfun_amm_program,
    spec_pumpfun_fee_program, spec_pumpfun_program, spec_system_program, spec_token_program,
    spec_wsol_mint, system_program, token_program, wsol_mint, Address, associated_token_program,
    spec_associated_token_program,
};
use crate::budget::{
    push_budget_ixs, push_ix, push_tip_ix, spec_budget_ixs, spec_tip_ixs, FeeParams,
};
use crate::pumpswap::{ata, ata_create_idempotent_ix, pda, seeds1, seeds2, spec_ata, spec_ata_create_idempotent_ix, spec_pda};
use crate::seeds::{seed_bonding_curve, seed_creator_vault, seed_event_authority, seed_fee_config, seed_global, seed_global_volume_accumulator, seed_user_volume_accumulator, spec_seed_bonding_curve, spec_seed_creator_vault, spec_seed_event_authority, spec_seed_fee_config, spec_seed_global, spec_seed_global_volume_accumulator, spec_seed_user_volume_accumulator};
use crate::types::{AccountMeta, Ix, IxModel};
use vstd::prelude::*;

verus! {

/// Trade sizing of the bot's buys.
#[derive(Clone, Copy, Debug)]
pub struct TradeParams {
    pub fees: FeeParams,
    /// SOL budget per buy, in lamports.
    pub buy_lamports: u64,
    /// Slippage in basis points.
    pub slippage_bps: u16,
}

/// What the executor knows of a mint's bonding curve.
#[derive(Clone, Copy, Debug)]
pub struct BondingCurveState {
    /// The curve has migrated to PumpSwap.
    pub complete: bool,
    /// The coin creator (zero for old accounts that lack it).
    pub creator: Address,
    /// Mayhem mode (fees go to the Mayhem recipients).
    pub is_mayhem_mode: bool,
    /// The mint's token program (owner of the mint account).
    pub token_program: Address,
}

/// Why a buy transaction could not be built.
#[derive(Clone, Copy, Debug, PartialEq, Eq, Structural)]
pub enum BuildError {
    /// A program-derived address has no bump seed.
    PdaNotFound,
    /// The leader's Pump.fun buy instruction has fewer than 16 accounts (count kept).
    LeaderAccountsTooShort(usize),
    /// The leader's Pump.fun buy instruction has no token program (index 8).
    MissingTokenProgram,
    /// A wrapper-mirror signal without the wrapper program.
    MissingWrapperProgram,
    /// A wrapper-mirror signal without the wrapper instruction data.
    MissingWrapperData,
    /// A wrapper-mirror signal without the leader instruction accounts.
    MissingLeaderAccounts,
    /// The buy size rounds to 0 lamports.
    BuySolTooSmall,
    /// Neither the Mayhem list nor the PumpSwap global config gave a fee recipient.
    NoFeeRecipient,
    /// The PumpSwap pool account is too short to hold its token accounts.
    PoolParseFailed,
    /// The pool's base token account holds no amount.
    BaseReserveParseFailed,
    /// The pool's quote token account holds no amount.
    QuoteReserveParseFailed,
}

// ---------------------------------------------------------------------------
// Program-derived addresses of Pump.fun and PumpSwap
// ---------------------------------------------------------------------------

/// Pump.fun global account.
pub open spec fn spec_pump_global() -> Option<Address> {
    spec_pda(spec_pumpfun_program(), seq![spec_seed_global()])
}

/// Event authority of `program`.
pub open spec fn spec_event_authority(program: Address) -> Option<Address> {
    spec_pda(program, seq![spec_seed_event_authority()])
}

/// Bonding curve of `mint`.
pub open spec fn spec_bonding_curve(mint: Address) -> Option<Address> {
    spec_pda(spec_pumpfun_program(), seq![spec_seed_bonding_curve(), mint@])
}

/// Creator vault of `creator` on the bonding curve.
pub open spec fn spec_creator_vault(creator: Address) -> Option<Address> {
    spec_pda(spec_pumpfun_program(), seq![spec_seed_creator_vault(), creator@])
}

/// Global volume accumulator of `program`.
pub open spec fn spec_global_volume_accumulator(program: Address) -> Option<Address> {
    spec_pda(program, seq![spec_seed_global_volume_accumulator()])
}

/// Volume accumulator of `user` under `program`.
pub open spec fn spec_user_volume_accumulator(program: Address, user: Address) -> Option<Address> {
    spec_pda(program, seq![spec_seed_user_volume_accumulator(), user@])
}

/// Fee config of `program` (under the Pump fees program).
pub open spec fn spec_fee_config(program: Address) -> Option<Address> {
    spec_pda(spec_pumpfun_fee_program(), seq![spec_seed_fee_config(), program@])
}

/// Derives the Pump.fun global account.
pub fn pump_global_pda() -> (r: Option<Address>)
    ensures
        r == spec_pump_global(),
{
    pda(&pumpfun_program(), &seeds1(seed_global()))
}

/// Derives the event authority of `program`.
pub fn event_authority_pda(program: &Address) -> (r: Option<Address>)
    ensures
        r == spec_event_authority(*program),
{
    pda(program, &seeds1(seed_event_authority()))
}

/// Derives the bonding curve of `mint`.
pub fn bonding_curve_pda(mint: &Address) -> (r: Option<Address>)
    ensures
        r == spec_bonding_curve(*mint),
{
    pda(&pumpfun_program(), &seeds2(seed_bonding_curve(), mint.to_vec()))
}

/// Derives the creator vault of `creator`.
pub fn creator_vault_pda(creator: &Address) -> (r: Option<Address>)
    ensures
        r == spec_creator_vault(*creator),
{
    pda(&pumpfun_program(), &seeds2(seed_creator_vault(), creator.to_vec()))
}

/// Derives the global volume accumulator of `program`.
pub fn global_volume_accumulator_pda(program: &Address) -> (r: Option<Address>)
    ensures
        r == spec_global_volume_accumulator(*program),
{
    pda(program, &seeds1(seed_global_volume_accumulator()))
}

/// Derives the volume accumulator of `user` under `program`.
pub fn user_volume_accumulator_pda(program: &Address, user: &Address) -> (r: Option<Address>)
    ensures
        r == spec_user_volume_accumulator(*program, *user),
{
    pda(program, &seeds2(seed_user_volume_accumulator(), user.to_vec()))
}

/// Derives the fee config of `program`.
pub fn fee_config_pda(program: &Address) -> (r: Option<Address>)
    ensures
        r == spec_fee_config(*program),
{
    pda(&pumpfun_fee_program(), &seeds2(seed_fee_config(), program.to_vec()))
}

// ---------------------------------------------------------------------------
// Pump.fun buy_exact_sol_in
// ---------------------------------------------------------------------------

/// Anchor discriminator of Pump.fun `buy_exact_sol_in`.
pub open spec fn spec_buy_exact_sol_in_discriminator() -> Seq<u8> {
    seq![56u8, 252u8, 116u8, 8u8, 158u8, 223u8, 205u8, 95u8]
}

/// Data of `buy_exact_sol_in`: discriminator, spendable SOL, minimum tokens out (both
/// little-endian), and `None` for the optional track-volume flag.
pub open spec fn spec_buy_exact_sol_in_data(spendable_sol_in: u64, min_tokens_out: u64) -> Seq<u8> {
    spec_buy_exact_sol_in_discriminator() + vstd::bytes::spec_u64_to_le_bytes(spendable_sol_in)
        + vstd::bytes::spec_u64_to_le_bytes(min_tokens_out) + seq![0u8]
}

/// Appends the little-endian bytes of `x`.
fn push_u64_le(data: &mut Vec<u8>, x: u64)
    ensures
        final(data)@ == old(data)@ + vstd::bytes::spec_u64_to_le_bytes(x),
{
    let mut b = vstd::bytes::u64_to_le_bytes(x);
    data.append(&mut b);
}

/// Builds the `buy_exact_sol_in` instruction data.
pub fn buy_exact_sol_in_data(spendable_sol_in: u64, min_tokens_out: u64) -> (r: Vec<u8>)
    ensures
        r@ == spec_buy_exact_sol_in_data(spendable_sol_in, min_tokens_out),
{
    let mut data: Vec<u8> = vec![56u8, 252u8, 116u8, 8u8, 158u8, 223u8, 205u8, 95u8];
    assert(data@ =~= spec_buy_exact_sol_in_discriminator());
    push_u64_le(&mut data, spendable_sol_in);
    push_u64_le(&mut data, min_tokens_out);
    data.push(0u8);
    data
}

/// Writable accounts of the Pump.fun buy: fee recipient, bonding curve, its token
/// account, the user's token account, the user, the creator vault and the user volume
/// accumulator.
pub open spec fn pump_buy_writable(i: int) -> bool {
    i == 1 || i == 3 || i == 4 || i == 5 || i == 6 || i == 9 || i == 13
}

/// Account metas of the Pump.fun buy over its 16 accounts (the user, index 6, signs).
pub open spec fn spec_pump_buy_metas(accs: Seq<Address>) -> Seq<AccountMeta> {
    Seq::new(16, |i: int| AccountMeta { pubkey: accs[i], is_signer: i == 6, is_writable: pump_buy_writable(i) })
}

/// The Pump.fun buy instruction over its 16 accounts.
pub open spec fn spec_pump_buy_ix(accs: Seq<Address>, data: Seq<u8>) -> IxModel {
    IxModel { program_id: spec_pumpfun_program(), accounts: spec_pump_buy_metas(accs), data }
}

/// Builds the Pump.fun buy instruction from its first 16 accounts.
fn pump_buy_ix(accs: &Vec<Address>, data: Vec<u8>) -> (r: Ix)
    requires
        accs@.len() >= 16,
    ensures
        r@ == spec_pump_buy_ix(accs@, data@),
{
    let mut metas: Vec<AccountMeta> = Vec::new();
    let mut i: usize = 0;
    while i < 16
        invariant
            accs@.len() >= 16,
            0 <= i <= 16,
            metas@ =~= spec_pump_buy_metas(accs@).take(i as int),
        decreases 16 - i,
    {
        let w = i == 1 || i == 3 || i == 4 || i == 5 || i == 6 || i == 9 || i == 13;
        metas.push(AccountMeta { pubkey: accs[i], is_signer: i == 6, is_writable: w });
        i = i + 1;
    }
    assert(spec_pump_buy_metas(accs@).take(16) =~= spec_pump_buy_metas(accs@));
    Ix { program_id: pumpfun_program(), accounts: metas, data }
}

/// The leader's buy accounts with the user (index 6) replaced, keeping the first 16.
pub open spec fn spec_leader_buy_accounts(accounts: Seq<Address>, user: Address) -> Seq<Address> {
    accounts.take(16).update(6, user)
}

/// `build_pump_buy_exact_sol_in_ix_from_accounts`: the buy over the leader's accounts with
/// the user swapped in; refused when the leader's list is shorter than 16.
pub open spec fn spec_pump_buy_ix_from_accounts(accounts: Seq<Address>, user: Address, spendable_sol_in: u64, min_tokens_out: u64) -> Result<IxModel, BuildError> {
    if accounts.len() < 16 {
        Err(BuildError::LeaderAccountsTooShort(accounts.len() as usize))
    } else {
        Ok(spec_pump_buy_ix(spec_leader_buy_accounts(accounts, user), spec_buy_exact_sol_in_data(spendable_sol_in, min_tokens_out)))
    }
}

/// Builds the Pump.fun `buy_exact_sol_in` instruction over the leader's instruction
/// accounts, signed by `user`.
pub fn build_pump_buy_exact_sol_in_ix_from_accounts(accounts: &Vec<Address>, user: &Address, spendable_sol_in: u64, min_tokens_out: u64) -> (r: Result<Ix, BuildError>)
    ensures
        match r {
            Ok(ix) => spec_pump_buy_ix_from_accounts(accounts@, *user, spendable_sol_in, min_tokens_out) == Ok::<IxModel, BuildError>(ix@),
            Err(e) => spec_pump_buy_ix_from_accounts(accounts@, *user, spendable_sol_in, min_tokens_out) == Err::<IxModel, BuildError>(e),
        },
{
    if accounts.len() < 16 {
        return Err(BuildError::LeaderAccountsTooShort(accounts.len()));
    }
    let mut accs: Vec<Address> = Vec::new();
    let mut i: usize = 0;
    while i < 16
        invariant
            accounts@.len() >= 16,
            0 <= i <= 16,
            accs@ =~= spec_leader_buy_accounts(accounts@, *user).take(i as int),
        decreases 16 - i,
    {
        if i == 6 {
            accs.push(*user);
        } else {
            accs.push(accounts[i]);
        }
        i = i + 1;
    }
    assert(spec_leader_buy_accounts(accounts@, *user).take(16) =~= spec_leader_buy_accounts(accounts@, *user));
    Ok(pump_buy_ix(&accs, buy_exact_sol_in_data(spendable_sol_in, min_tokens_out)))
}

/// `build_pump_buy_exact_sol_in_ix`: the buy with every account derived from the mint,
/// curve, creator, token program and user; `None` when a derivation fails.
pub open spec fn spec_pump_buy_exact_sol_in_ix(mint: Address, bonding_curve: Address, creator: Address, token_program: Address, user: Address, fee_recipient: Address, spendable_sol_in: u64, min_tokens_out: u64) -> Option<IxModel> {
    match (spec_pump_global(), spec_ata(bonding_curve, mint, token_program), spec_ata(user, mint, token_program), spec_creator_vault(creator)) {
        (Some(global), Some(assoc_curve), Some(assoc_user), Some(creator_vault)) => {
            match (spec_event_authority(spec_pumpfun_program()), spec_global_volume_accumulator(spec_pumpfun_program()), spec_user_volume_accumulator(spec_pumpfun_program(), user), spec_fee_config(spec_pumpfun_program())) {
                (Some(event_authority), Some(gva), Some(uva), Some(fee_config)) => Some(spec_pump_buy_ix(
                    seq![global, fee_recipient, mint, bonding_curve, assoc_curve, assoc_user, user, spec_system_program(), token_program,
                        creator_vault, event_authority, spec_pumpfun_program(), gva, uva, fee_config, spec_pumpfun_fee_program()],
                    spec_buy_exact_sol_in_data(spendable_sol_in, min_tokens_out),
                )),
                _ => None,
            }
        },
        _ => None,
    }
}

/// Builds the Pump.fun `buy_exact_sol_in` instruction, deriving its accounts.
pub fn build_pump_buy_exact_sol_in_ix(mint: &Address, bonding_curve: &Address, creator: &Address, token_program: &Address, user: &Address, fee_recipient: &Address, spendable_sol_in: u64, min_tokens_out: u64) -> (r: Option<Ix>)
    ensures
        match spec_pump_buy_exact_sol_in_ix(*mint, *bonding_curve, *creator, *token_program, *user, *fee_recipient, spendable_sol_in, min_tokens_out) {
            Some(m) => r matches Some(ix) && ix@ == m,
            None => r is None,
        },
{
    let global = match pump_global_pda() { Some(a) => a, None => return None };
    let assoc_curve = match ata(bonding_curve, mint, token_program) { Some(a) => a, None => return None };
    let assoc_user = match ata(user, mint, token_program) { Some(a) => a, None => return None };
    let creator_vault = match creator_vault_pda(creator) { Some(a) => a, None => return None };
    let pump = pumpfun_program();
    let event_authority = match event_authority_pda(&pump) { Some(a) => a, None => return None };
    let gva = match global_volume_accumulator_pda(&pump) { Some(a) => a, None => return None };
    let uva = match user_volume_accumulator_pda(&pump, user) { Some(a) => a, None => return None };
    let fee_config = match fee_config_pda(&pump) { Some(a) => a, None => return None };
    let accs: Vec<Address> = vec![
        global, *fee_recipient, *mint, *bonding_curve, assoc_curve, assoc_user, *user, system_program(), *token_program,
        creator_vault, event_authority, pump, gva, uva, fee_config, pumpfun_fee_program(),
    ];
    let ix = pump_buy_ix(&accs, buy_exact_sol_in_data(spendable_sol_in, min_tokens_out));
    assert(accs@ =~= seq![global, *fee_recipient, *mint, *bonding_curve, assoc_curve, assoc_user, *user, spec_system_program(), *token_program,
        creator_vault, event_authority, spec_pumpfun_program(), gva, uva, fee_config, spec_pumpfun_fee_program()]);
    Some(ix)
}

// ---------------------------------------------------------------------------
// Bonding-curve buy transactions
// ---------------------------------------------------------------------------

/// Instructions of the RPC-assisted bonding-curve buy: compute budget, the payer's token
/// account (idempotent create), `buy_exact_sol_in` of the whole budget with at least one
/// token out, and the tip.
pub open spec fn spec_curve_buy_ixs(params: TradeParams, payer: Address, tip_account: Address, mint: Address, bonding_curve: Address, creator: Address, token_program: Address, fee_recipient: Address) -> Option<Seq<IxModel>> {
    match (spec_ata(payer, mint, token_program), spec_pump_buy_exact_sol_in_ix(mint, bonding_curve, creator, token_program, payer, fee_recipient, params.buy_lamports, 1)) {
        (Some(user_ata), Some(buy)) => Some(
            spec_budget_ixs(params.fees.compute_unit_limit, params.fees.compute_unit_price_micro_lamports)
                + seq![spec_ata_create_idempotent_ix(payer, payer, mint, token_program, user_ata), buy]
                + spec_tip_ixs(payer, tip_account, params.fees.jito_tip_lamports),
        ),
        _ => None,
    }
}

/// Builds the instructions of a bonding-curve buy from the fetched curve state.
pub fn curve_buy_ixs(params: &TradeParams, payer: &Address, tip_account: &Address, mint: &Address, bonding_curve: &Address, creator: &Address, token_program: &Address, fee_recipient: &Address) -> (r: Option<Vec<Ix>>)
    ensures
        match spec_curve_buy_ixs(*params, *payer, *tip_account, *mint, *bonding_curve, *creator, *token_program, *fee_recipient) {
            Some(s) => r matches Some(v) && v.deep_view() == s,
            None => r is None,
        },
{
    let mut ixs: Vec<Ix> = Vec::new();
    push_budget_ixs(&mut ixs, params.fees.compute_unit_limit, params.fees.compute_unit_price_micro_lamports);
    let create = match ata_create_idempotent_ix(payer, payer, mint, token_program) { Some(ix) => ix, None => return None };
    push_ix(&mut ixs, create);
    let buy = match build_pump_buy_exact_sol_in_ix(mint, bonding_curve, creator, token_program, payer, fee_recipient, params.buy_lamports, 1) {
        Some(ix) => ix,
        None => return None,
    };
    push_ix(&mut ixs, buy);
    push_tip_ix(&mut ixs, payer, tip_account, params.fees.jito_tip_lamports);
    proof {
        let s = spec_curve_buy_ixs(*params, *payer, *tip_account, *mint, *bonding_curve, *creator, *token_program, *fee_recipient);
        assert(s matches Some(t) && ixs.deep_view() =~= t);
    }
    Some(ixs)
}

/// The leader's buy accounts made ours: our token account at 5, us at 6, our volume
/// accumulator at 13, each only where the list reaches that index.
pub open spec fn spec_rewrite_leader_buy_accounts(accs: Seq<Address>, user_ata: Address, payer: Address, uva: Address) -> Seq<Address> {
    let a = if accs.len() > 5 { accs.update(5, user_ata) } else { accs };
    let b = if a.len() > 6 { a.update(6, payer) } else { a };
    if b.len() > 13 { b.update(13, uva) } else { b }
}

/// Instructions of a fast-path curve buy built from the leader's Pump.fun account block
/// (no RPC): compute budget, our token account (idempotent create) under the leader's
/// token program (index 8), the buy over the leader's accounts made ours, and the tip.
pub open spec fn spec_curve_fast_ixs(params: TradeParams, payer: Address, tip_account: Address, mint: Address, leader_accounts: Seq<Address>, min_tokens_out: u64) -> Result<Seq<IxModel>, BuildError> {
    if leader_accounts.len() <= 8 {
        Err(BuildError::MissingTokenProgram)
    } else {
        let token_program = leader_accounts[8];
        match spec_ata(payer, mint, token_program) {
            None => Err(BuildError::PdaNotFound),
            Some(user_ata) => {
                let uva_opt = spec_user_volume_accumulator(spec_pumpfun_program(), payer);
                if leader_accounts.len() > 13 && uva_opt is None {
                    Err(BuildError::PdaNotFound)
                } else {
                    let uva = match uva_opt { Some(u) => u, None => Address::spec_zero() };
                    let accts = spec_rewrite_leader_buy_accounts(leader_accounts, user_ata, payer, uva);
                    match spec_pump_buy_ix_from_accounts(accts, payer, params.buy_lamports, min_tokens_out) {
                        Err(e) => Err(e),
                        Ok(buy) => Ok(
                            spec_budget_ixs(params.fees.compute_unit_limit, params.fees.compute_unit_price_micro_lamports)
                                + seq![spec_ata_create_idempotent_ix(payer, payer, mint, token_program, user_ata), buy]
                                + spec_tip_ixs(payer, tip_account, params.fees.jito_tip_lamports),
                        ),
                    }
                }
            },
        }
    }
}

/// Builds a fast-path curve buy over the leader's Pump.fun account block.
pub fn curve_fast_ixs(params: &TradeParams, payer: &Address, tip_account: &Address, mint: &Address, leader_accounts: &Vec<Address>, min_tokens_out: u64) -> (r: Result<Vec<Ix>, BuildError>)
    ensures
        match r {
            Ok(v) => spec_curve_fast_ixs(*params, *payer, *tip_account, *mint, leader_accounts@, min_tokens_out) == Ok::<Seq<IxModel>, BuildError>(v.deep_view()),
            Err(e) => spec_curve_fast_ixs(*params, *payer, *tip_account, *mint, leader_accounts@, min_tokens_out) == Err::<Seq<IxModel>, BuildError>(e),
        },
{
    if leader_accounts.len() <= 8 {
        return Err(BuildError::MissingTokenProgram);
    }
    let token_program = leader_accounts[8];
    let user_ata = match ata(payer, mint, &token_program) { Some(a) => a, None => return Err(BuildError::PdaNotFound) };
    let mut accts = leader_accounts.clone();
    assert(accts@ == leader_accounts@);
    if accts.len() > 5 {
        accts.set(5, user_ata);
    }
    if accts.len() > 6 {
        accts.set(6, *payer);
    }
    let ghost uva_ghost = spec_user_volume_accumulator(spec_pumpfun_program(), *payer);
    if accts.len() > 13 {
        let uva = match user_volume_accumulator_pda(&pumpfun_program(), payer) { Some(a) => a, None => return Err(BuildError::PdaNotFound) };
        accts.set(13, uva);
    }
    proof {
        let uva = match uva_ghost { Some(u) => u, None => Address::spec_zero() };
        assert(accts@ =~= spec_rewrite_leader_buy_accounts(leader_accounts@, user_ata, *payer, uva));
    }
    let buy = match build_pump_buy_exact_sol_in_ix_from_accounts(&accts, payer, params.buy_lamports, min_tokens_out) {
        Ok(ix) => ix,
        Err(e) => return Err(e),
    };
    let mut ixs: Vec<Ix> = Vec::new();
    push_budget_ixs(&mut ixs, params.fees.compute_unit_limit, params.fees.compute_unit_price_micro_lamports);
    let create = match ata_create_idempotent_ix(payer, payer, mint, &token_program) { Some(ix) => ix, None => return Err(BuildError::PdaNotFound) };
    push_ix(&mut ixs, create);
    push_ix(&mut ixs, buy);
    push_tip_ix(&mut ixs, payer, tip_account, params.fees.jito_tip_lamports);
    proof {
        let s = spec_curve_fast_ixs(*params, *payer, *tip_account, *mint, leader_accounts@, min_tokens_out);
        assert(s matches Ok(t) && ixs.deep_view() =~= t);
    }
    Ok(ixs)
}

// ---------------------------------------------------------------------------
// Laws of the derived addresses and of the fast-path buy
// ---------------------------------------------------------------------------

/// The Pump.fun accounts are the program addresses its program defines, seeds in this
/// order: `["global"]`, `["bonding-curve", mint]` and `["creator-vault", creator]` under
/// Pump.fun, `["__event_authority"]`, `["global_volume_accumulator"]` and
/// `["user_volume_accumulator", user]` under the given program, and
/// `["fee_config", program]` under the Pump fees program.
pub proof fn law_pump_addresses(mint: Address, creator: Address, user: Address, program: Address)
    ensures
        spec_pump_global() == spec_pda(spec_pumpfun_program(), seq![seq![103u8, 108u8, 111u8, 98u8, 97u8, 108u8]]),
        spec_bonding_curve(mint) == spec_pda(spec_pumpfun_program(), seq![seq![98u8, 111u8, 110u8, 100u8, 105u8, 110u8, 103u8, 45u8, 99u8, 117u8, 114u8, 118u8, 101u8], mint@]),
        spec_creator_vault(creator) == spec_pda(spec_pumpfun_program(), seq![seq![99u8, 114u8, 101u8, 97u8, 116u8, 111u8, 114u8, 45u8, 118u8, 97u8, 117u8, 108u8, 116u8], creator@]),
        spec_event_authority(program) == spec_pda(program, seq![seq![95u8, 95u8, 101u8, 118u8, 101u8, 110u8, 116u8, 95u8, 97u8, 117u8, 116u8, 104u8, 111u8, 114u8, 105u8, 116u8, 121u8]]),
        spec_global_volume_accumulator(program) == spec_pda(program, seq![seq![103u8, 108u8, 111u8, 98u8, 97u8, 108u8, 95u8, 118u8, 111u8, 108u8, 117u8, 109u8, 101u8, 95u8, 97u8, 99u8, 99u8, 117u8, 109u8, 117u8, 108u8, 97u8, 116u8, 111u8, 114u8]]),
        spec_user_volume_accumulator(program, user) == spec_pda(program, seq![seq![117u8, 115u8, 101u8, 114u8, 95u8, 118u8, 111u8, 108u8, 117u8, 109u8, 101u8, 95u8, 97u8, 99u8, 99u8, 117u8, 109u8, 117u8, 108u8, 97u8, 116u8, 111u8, 114u8], user@]),
        spec_fee_config(program) == spec_pda(spec_pumpfun_fee_program(), seq![seq![102u8, 101u8, 101u8, 95u8, 99u8, 111u8, 110u8, 102u8, 105u8, 103u8], program@]),
{
    assert(spec_seed_global() =~= seq![103u8, 108u8, 111u8, 98u8, 97u8, 108u8]);
    assert(spec_seed_bonding_curve() =~= seq![98u8, 111u8, 110u8, 100u8, 105u8, 110u8, 103u8, 45u8, 99u8, 117u8, 114u8, 118u8, 101u8]);
    assert(spec_seed_creator_vault() =~= seq![99u8, 114u8, 101u8, 97u8, 116u8, 111u8, 114u8, 45u8, 118u8, 97u8, 117u8, 108u8, 116u8]);
    assert(spec_seed_event_authority() =~= seq![95u8, 95u8, 101u8, 118u8, 101u8, 110u8, 116u8, 95u8, 97u8, 117u8, 116u8, 104u8, 111u8, 114u8, 105u8, 116u8, 121u8]);
    assert(spec_seed_global_volume_accumulator() =~= seq![103u8, 108u8, 111u8, 98u8, 97u8, 108u8, 95u8, 118u8, 111u8, 108u8, 117u8, 109u8, 101u8, 95u8, 97u8, 99u8, 99u8, 117u8, 109u8, 117u8, 108u8, 97u8, 116u8, 111u8, 114u8]);
    assert(spec_seed_user_volume_accumulator() =~= seq![117u8, 115u8, 101u8, 114u8, 95u8, 118u8, 111u8, 108u8, 117u8, 109u8, 101u8, 95u8, 97u8, 99u8, 99u8, 117u8, 109u8, 117u8, 108u8, 97u8, 116u8, 111u8, 114u8]);
    assert(spec_seed_fee_config() =~= seq![102u8, 101u8, 101u8, 95u8, 99u8, 111u8, 110u8, 102u8, 105u8, 103u8]);
}

/// A fast-path buy spends our money into our accounts: on success the leader's block had
/// its 16 accounts; the instruction before the buy creates our token account for the mint
/// under the leader's token program (block index 8); the buy is the Pump.fun
/// `buy_exact_sol_in` of our budget with that token account at 5, us at 6 as its only
/// signer, our volume accumulator at 13, and the leader's shared accounts everywhere else;
/// the fee recipient, curve, its token account, ours, us, the creator vault and our volume
/// accumulator are writable, the rest read-only.
pub proof fn law_fast_buy_uses_our_accounts(params: TradeParams, payer: Address, tip_account: Address, mint: Address, leader_accounts: Seq<Address>, min_tokens_out: u64)
    ensures
        spec_curve_fast_ixs(params, payer, tip_account, mint, leader_accounts, min_tokens_out) matches Ok(ixs) ==> {
            let k: int = if params.fees.compute_unit_price_micro_lamports > 0 { 2 } else { 1 };
            let create = ixs[k];
            let buy = ixs[k + 1];
            &&& ixs.len() >= k + 2
            &&& leader_accounts.len() >= 16
            &&& spec_ata(payer, mint, leader_accounts[8]) is Some
            &&& create.program_id == spec_associated_token_program()
            &&& create.accounts.len() == 7
            &&& create.accounts[0].pubkey == payer
            &&& Some(create.accounts[1].pubkey) == spec_ata(payer, mint, leader_accounts[8])
            &&& create.accounts[2].pubkey == payer
            &&& create.accounts[3].pubkey == mint
            &&& create.accounts[5].pubkey == leader_accounts[8]
            &&& buy.program_id == spec_pumpfun_program()
            &&& buy.accounts.len() == 16
            &&& Some(buy.accounts[5].pubkey) == spec_ata(payer, mint, leader_accounts[8])
            &&& buy.accounts[5].pubkey == create.accounts[1].pubkey
            &&& buy.accounts[6].pubkey == payer && buy.accounts[6].is_signer
            &&& Some(buy.accounts[13].pubkey) == spec_user_volume_accumulator(spec_pumpfun_program(), payer)
            &&& forall|i: int| 0 <= i < 16 && i != 5 && i != 6 && i != 13 ==> (#[trigger] buy.accounts[i]).pubkey == leader_accounts[i]
            &&& forall|i: int| 0 <= i < 16 && (#[trigger] buy.accounts[i]).is_signer ==> i == 6
            &&& forall|i: int| 0 <= i < 16 ==> ((#[trigger] buy.accounts[i]).is_writable <==> (i == 1 || i == 3 || i == 4 || i == 5 || i == 6 || i == 9 || i == 13))
            &&& buy.data == spec_buy_exact_sol_in_data(params.buy_lamports, min_tokens_out)
        },
{
    let r = spec_curve_fast_ixs(params, payer, tip_account, mint, leader_accounts, min_tokens_out);
    if let Ok(ixs) = r {
        let k: int = if params.fees.compute_unit_price_micro_lamports > 0 { 2 } else { 1 };
        let user_ata = spec_ata(payer, mint, leader_accounts[8])->0;
        let uva = spec_user_volume_accumulator(spec_pumpfun_program(), payer)->0;
        let accts = spec_rewrite_leader_buy_accounts(leader_accounts, user_ata, payer, uva);
        let b = spec_budget_ixs(params.fees.compute_unit_limit, params.fees.compute_unit_price_micro_lamports);
        assert(b.len() == k);
        assert(ixs[k] == spec_ata_create_idempotent_ix(payer, payer, mint, leader_accounts[8], user_ata));
        let buy = ixs[k + 1];
        assert(buy == spec_pump_buy_ix(spec_leader_buy_accounts(accts, payer), spec_buy_exact_sol_in_data(params.buy_lamports, min_tokens_out)));
        assert forall|i: int| 0 <= i < 16 && i != 5 && i != 6 && i != 13 implies (#[trigger] buy.accounts[i]).pubkey == leader_accounts[i] by {
            assert(spec_leader_buy_accounts(accts, payer)[i] == leader_accounts[i]);
        }
    }
}

/// The `buy_exact_sol_in` data is Pump.fun's 8-byte discriminator, the SOL to spend and
/// the minimum tokens out (little-endian), and a zero byte for the absent flag: 25 bytes.
pub proof fn law_buy_exact_sol_in_data(spendable_sol_in: u64, min_tokens_out: u64)
    ensures
        ({
            let d = spec_buy_exact_sol_in_data(spendable_sol_in, min_tokens_out);
            &&& d.len() == 25
            &&& d.take(8) == seq![56u8, 252u8, 116u8, 8u8, 158u8, 223u8, 205u8, 95u8]
            &&& d.subrange(8, 16) == vstd::bytes::spec_u64_to_le_bytes(spendable_sol_in)
            &&& d.subrange(16, 24) == vstd::bytes::spec_u64_to_le_bytes(min_tokens_out)
            &&& d[24] == 0u8
        }),
{
    let d = spec_buy_exact_sol_in_data(spendable_sol_in, min_tokens_out);
    vstd::bytes::lemma_auto_spec_u64_to_from_le_bytes();
    assert(d.take(8) =~= seq![56u8, 252u8, 116u8, 8u8, 158u8, 223u8, 205u8, 95u8]);
    assert(d.subrange(8, 16) =~= vstd::bytes::spec_u64_to_le_bytes(spendable_sol_in));
    assert(d.subrange(16, 24) =~= vstd::bytes::spec_u64_to_le_bytes(min_tokens_out));
}

/// A bonding-curve buy spends our whole budget into our token account: on success the
/// instruction before the buy creates our token account for the mint, and the buy is
/// Pump.fun's, over the global account, the fee recipient, the mint, the curve and its
/// token account, our token account, us (its only signer), the system and token programs,
/// the creator's vault, the event authority, Pump.fun, the volume accumulators (ours at
/// 13), the fee config and the fees program, writable as the program needs (fee
/// recipient, curve, both token accounts, us, creator vault, our volume accumulator); it
/// asks for at least one token.
pub proof fn law_curve_buy_accounts(params: TradeParams, payer: Address, tip_account: Address, mint: Address, bonding_curve: Address, creator: Address, token_program: Address, fee_recipient: Address)
    ensures
        spec_curve_buy_ixs(params, payer, tip_account, mint, bonding_curve, creator, token_program, fee_recipient) matches Some(ixs) ==> {
            let k: int = if params.fees.compute_unit_price_micro_lamports > 0 { 2 } else { 1 };
            let create = ixs[k];
            let buy = ixs[k + 1];
            let pump = spec_pumpfun_program();
            &&& ixs.len() >= k + 2
            &&& create.program_id == spec_associated_token_program()
            &&& Some(create.accounts[1].pubkey) == spec_ata(payer, mint, token_program)
            &&& create.accounts[2].pubkey == payer && create.accounts[3].pubkey == mint && create.accounts[5].pubkey == token_program
            &&& buy.program_id == pump
            &&& buy.accounts.len() == 16
            &&& Some(buy.accounts[0].pubkey) == spec_pump_global()
            &&& buy.accounts[1].pubkey == fee_recipient
            &&& buy.accounts[2].pubkey == mint
            &&& buy.accounts[3].pubkey == bonding_curve
            &&& Some(buy.accounts[4].pubkey) == spec_ata(bonding_curve, mint, token_program)
            &&& buy.accounts[5].pubkey == create.accounts[1].pubkey
            &&& buy.accounts[6].pubkey == payer
            &&& buy.accounts[7].pubkey == spec_system_program()
            &&& buy.accounts[8].pubkey == token_program
            &&& Some(buy.accounts[9].pubkey) == spec_creator_vault(creator)
            &&& Some(buy.accounts[10].pubkey) == spec_event_authority(pump)
            &&& buy.accounts[11].pubkey == pump
            &&& Some(buy.accounts[12].pubkey) == spec_global_volume_accumulator(pump)
            &&& Some(buy.accounts[13].pubkey) == spec_user_volume_accumulator(pump, payer)
            &&& Some(buy.accounts[14].pubkey) == spec_fee_config(pump)
            &&& buy.accounts[15].pubkey == spec_pumpfun_fee_program()
            &&& forall|i: int| 0 <= i < 16 ==> ((#[trigger] buy.accounts[i]).is_signer <==> i == 6)
            &&& forall|i: int| 0 <= i < 16 ==> ((#[trigger] buy.accounts[i]).is_writable <==> (i == 1 || i == 3 || i == 4 || i == 5 || i == 6 || i == 9 || i == 13))
            &&& buy.data == spec_buy_exact_sol_in_data(params.buy_lamports, 1)
        },
{
    if let Some(ixs) = spec_curve_buy_ixs(params, payer, tip_account, mint, bonding_curve, creator, token_program, fee_recipient) {
        let k: int = if params.fees.compute_unit_price_micro_lamports > 0 { 2 } else { 1 };
        assert(spec_budget_ixs(params.fees.compute_unit_limit, params.fees.compute_unit_price_micro_lamports).len() == k);
    }
}

} // verus!
