//! PumpSwap (Pump AMM) buys of mints whose bonding curve has completed.
use crate::address::{
    associated_token_program, pumpfun_amm_program, pumpfun_fee_program, spec_associated_token_program,
    spec_pumpfun_amm_program, spec_pumpfun_fee_program, spec_system_program, spec_token_program,
    spec_wsol_mint, system_program, token_program, wsol_mint, Address,
};
use crate::budget::{push_budget_ixs, push_ix, push_tip_ix, spec_budget_ixs, spec_tip_ixs};
use crate::layout::{parse_amm_global_config_fee_recipient, spec_parse_amm_global_config_fee_recipient};
use crate::pricing::{amm_buy_amounts, spec_amm_buy_amounts};
use crate::pumpbuy::{
    event_authority_pda, fee_config_pda, global_volume_accumulator_pda, spec_event_authority,
    spec_fee_config, spec_global_volume_accumulator, spec_user_volume_accumulator,
    user_volume_accumulator_pda, BondingCurveState, BuildError, TradeParams,
};
use crate::pumpswap::{
    ata, ata_create_idempotent_ix, pda, pick_mayhem_fee_recipient, seeds1, seeds2, spec_ata,
    spec_ata_create_idempotent_ix, spec_mayhem_fee_recipients, spec_pda,
};
use crate::seeds::{
    seed_coin_creator_vault, seed_global_config, seed_pool, seed_pool_authority,
    spec_seed_coin_creator_vault, spec_seed_global_config, spec_seed_pool, spec_seed_pool_authority,
};
use crate::types::{AccountMeta, Ix, IxModel};
use vstd::prelude::*;

verus! {

/// The PumpSwap global config.
pub open spec fn spec_amm_global_config() -> Option<Address> {
    spec_pda(spec_pumpfun_amm_program(), seq![spec_seed_global_config()])
}

/// The canonical pool creator of `mint` (a PumpSwap program address).
pub open spec fn spec_pool_creator(mint: Address) -> Option<Address> {
    spec_pda(spec_pumpfun_amm_program(), seq![spec_seed_pool_authority(), mint@])
}

/// The canonical WSOL pool of `mint`: index 0, the canonical creator, base and quote mints.
pub open spec fn spec_amm_pool(mint: Address) -> Option<Address> {
    match spec_pool_creator(mint) {
        Some(creator) => spec_pda(spec_pumpfun_amm_program(), seq![spec_seed_pool(), seq![0u8, 0u8], creator@, mint@, spec_wsol_mint()@]),
        None => None,
    }
}

/// The PumpSwap vault authority of a coin creator.
pub open spec fn spec_coin_creator_vault_authority(creator: Address) -> Option<Address> {
    spec_pda(spec_pumpfun_amm_program(), seq![spec_seed_coin_creator_vault(), creator@])
}

/// Derives the PumpSwap global config.
pub fn amm_global_config_pda() -> (r: Option<Address>)
    ensures
        r == spec_amm_global_config(),
{
    pda(&pumpfun_amm_program(), &seeds1(seed_global_config()))
}

/// Derives the canonical WSOL pool of `mint`.
pub fn amm_pool_pda(mint: &Address) -> (r: Option<Address>)
    ensures
        r == spec_amm_pool(*mint),
{
    let creator = match pda(&pumpfun_amm_program(), &seeds2(seed_pool_authority(), mint.to_vec())) {
        Some(a) => a,
        None => return None,
    };
    let mut seeds: Vec<Vec<u8>> = Vec::new();
    let ghost parts = seq![spec_seed_pool(), seq![0u8, 0u8], creator@, mint@, spec_wsol_mint()@];
    seeds.push(seed_pool());
    seeds.push(vec![0u8, 0u8]);
    seeds.push(creator.to_vec());
    seeds.push(mint.to_vec());
    seeds.push(wsol_mint().to_vec());
    assert forall|i: int| 0 <= i < 5 implies seeds@[i].deep_view() =~= #[trigger] parts[i] by {}
    assert(seeds.deep_view() =~= parts);
    pda(&pumpfun_amm_program(), &seeds)
}

/// Derives the PumpSwap vault authority of a coin creator.
pub fn coin_creator_vault_authority_pda(creator: &Address) -> (r: Option<Address>)
    ensures
        r == spec_coin_creator_vault_authority(*creator),
{
    pda(&pumpfun_amm_program(), &seeds2(seed_coin_creator_vault(), creator.to_vec()))
}

/// The protocol fee recipient of a PumpSwap buy: a Mayhem recipient picked by the clock in
/// Mayhem mode, else the first recipient of the fetched global config (none when the
/// fetch failed or the account is too short).
pub open spec fn spec_amm_fee_recipient(is_mayhem_mode: bool, subsec_nanos: u32, global_config_data: Option<Seq<u8>>) -> Option<Address> {
    if is_mayhem_mode {
        Some(spec_mayhem_fee_recipients()[(subsec_nanos % 8) as int])
    } else {
        match global_config_data {
            Some(d) => spec_parse_amm_global_config_fee_recipient(d),
            None => None,
        }
    }
}

/// Chooses the protocol fee recipient of a PumpSwap buy.
pub fn amm_fee_recipient(is_mayhem_mode: bool, subsec_nanos: u32, global_config_data: Option<&[u8]>) -> (r: Option<Address>)
    ensures
        r == spec_amm_fee_recipient(is_mayhem_mode, subsec_nanos, match global_config_data { Some(d) => Some(d@), None => None }),
{
    if is_mayhem_mode {
        Some(pick_mayhem_fee_recipient(subsec_nanos))
    } else {
        match global_config_data {
            Some(d) => parse_amm_global_config_fee_recipient(d),
            None => None,
        }
    }
}

/// Anchor discriminator of PumpSwap `buy`.
pub open spec fn spec_pumpswap_buy_discriminator() -> Seq<u8> {
    seq![102u8, 6u8, 61u8, 18u8, 1u8, 218u8, 235u8, 234u8]
}

/// Data of PumpSwap `buy`: discriminator, base amount out, maximum quote amount in.
pub open spec fn spec_pumpswap_buy_data(base_out: u64, max_quote_in: u64) -> Seq<u8> {
    spec_pumpswap_buy_discriminator() + vstd::bytes::spec_u64_to_le_bytes(base_out) + vstd::bytes::spec_u64_to_le_bytes(max_quote_in)
}

/// Writable accounts of the PumpSwap buy: pool, user, the four token accounts, the fee
/// recipient's WSOL account, the coin creator vault's account and the user volume
/// accumulator.
pub open spec fn amm_buy_writable(i: int) -> bool {
    i == 0 || i == 1 || i == 5 || i == 6 || i == 7 || i == 8 || i == 10 || i == 17 || i == 20
}

/// The PumpSwap buy instruction over its 23 accounts (the user, index 1, signs).
pub open spec fn spec_amm_buy_ix(accs: Seq<Address>, data: Seq<u8>) -> IxModel {
    IxModel {
        program_id: spec_pumpfun_amm_program(),
        accounts: Seq::new(23, |i: int| AccountMeta { pubkey: accs[i], is_signer: i == 1, is_writable: amm_buy_writable(i) }),
        data,
    }
}

/// The 23 accounts of our PumpSwap buy, when every derivation succeeds.
pub open spec fn spec_amm_buy_accounts(payer: Address, mint: Address, curve: BondingCurveState, protocol_fee_recipient: Address, pool: Address, pool_base_ta: Address, pool_quote_ta: Address) -> Option<Seq<Address>> {
    let wsol = spec_wsol_mint();
    let tok = spec_token_program();
    let amm = spec_pumpfun_amm_program();
    match (spec_amm_global_config(), spec_ata(payer, mint, curve.token_program), spec_ata(payer, wsol, tok), spec_coin_creator_vault_authority(curve.creator)) {
        (Some(global_config), Some(user_base), Some(user_quote), Some(vault_auth)) => {
            match (spec_ata(vault_auth, wsol, tok), spec_ata(protocol_fee_recipient, wsol, tok), spec_event_authority(amm)) {
                (Some(vault_ata), Some(fee_wsol), Some(event_authority)) => {
                    match (spec_fee_config(amm), spec_global_volume_accumulator(amm), spec_user_volume_accumulator(amm, payer)) {
                        (Some(fee_config), Some(gva), Some(uva)) => Some(seq![
                            pool, payer, global_config, mint, wsol, user_base, user_quote, pool_base_ta, pool_quote_ta,
                            protocol_fee_recipient, fee_wsol, curve.token_program, tok, spec_system_program(),
                            spec_associated_token_program(), event_authority, amm, vault_ata, vault_auth, gva, uva,
                            fee_config, spec_pumpfun_fee_program(),
                        ]),
                        _ => None,
                    }
                },
                _ => None,
            }
        },
        _ => None,
    }
}

/// Instructions of a PumpSwap buy with the whole budget as quote input: compute budget,
/// our base and WSOL token accounts (idempotent creates), the buy quoted from the pool's
/// reserves, and the tip. Refused when the budget is 0 lamports or a derivation fails.
pub open spec fn spec_amm_buy_ixs(params: TradeParams, payer: Address, tip_account: Address, mint: Address, curve: BondingCurveState, protocol_fee_recipient: Address, pool: Address, pool_base_ta: Address, pool_quote_ta: Address, base_reserve: u64, quote_reserve: u64) -> Result<Seq<IxModel>, BuildError> {
    if params.buy_lamports == 0 {
        Err(BuildError::BuySolTooSmall)
    } else {
        let (base_out, max_quote_in) = spec_amm_buy_amounts(params.buy_lamports, base_reserve, quote_reserve, params.slippage_bps);
        match spec_amm_buy_accounts(payer, mint, curve, protocol_fee_recipient, pool, pool_base_ta, pool_quote_ta) {
            None => Err(BuildError::PdaNotFound),
            Some(accs) => Ok(
                spec_budget_ixs(params.fees.compute_unit_limit, params.fees.compute_unit_price_micro_lamports)
                    + seq![
                        spec_ata_create_idempotent_ix(payer, payer, mint, curve.token_program, accs[5]),
                        spec_ata_create_idempotent_ix(payer, payer, spec_wsol_mint(), spec_token_program(), accs[6]),
                        spec_amm_buy_ix(accs, spec_pumpswap_buy_data(base_out, max_quote_in)),
                    ]
                    + spec_tip_ixs(payer, tip_account, params.fees.jito_tip_lamports),
            ),
        }
    }
}

/// Builds the instructions of a PumpSwap buy from the fetched pool and reserves.
pub fn amm_buy_ixs(params: &TradeParams, payer: &Address, tip_account: &Address, mint: &Address, curve: &BondingCurveState, protocol_fee_recipient: &Address, pool: &Address, pool_base_ta: &Address, pool_quote_ta: &Address, base_reserve: u64, quote_reserve: u64) -> (r: Result<Vec<Ix>, BuildError>)
    ensures
        match r {
            Ok(v) => spec_amm_buy_ixs(*params, *payer, *tip_account, *mint, *curve, *protocol_fee_recipient, *pool, *pool_base_ta, *pool_quote_ta, base_reserve, quote_reserve) == Ok::<Seq<IxModel>, BuildError>(v.deep_view()),
            Err(e) => spec_amm_buy_ixs(*params, *payer, *tip_account, *mint, *curve, *protocol_fee_recipient, *pool, *pool_base_ta, *pool_quote_ta, base_reserve, quote_reserve) == Err::<Seq<IxModel>, BuildError>(e),
        },
{
    if params.buy_lamports == 0 {
        return Err(BuildError::BuySolTooSmall);
    }
    let (base_out, max_quote_in) = amm_buy_amounts(params.buy_lamports, base_reserve, quote_reserve, params.slippage_bps);
    let wsol = wsol_mint();
    let tok = token_program();
    let amm = pumpfun_amm_program();
    let global_config = match amm_global_config_pda() { Some(a) => a, None => return Err(BuildError::PdaNotFound) };
    let user_base = match ata(payer, mint, &curve.token_program) { Some(a) => a, None => return Err(BuildError::PdaNotFound) };
    let user_quote = match ata(payer, &wsol, &tok) { Some(a) => a, None => return Err(BuildError::PdaNotFound) };
    let vault_auth = match coin_creator_vault_authority_pda(&curve.creator) { Some(a) => a, None => return Err(BuildError::PdaNotFound) };
    let vault_ata = match ata(&vault_auth, &wsol, &tok) { Some(a) => a, None => return Err(BuildError::PdaNotFound) };
    let fee_wsol = match ata(protocol_fee_recipient, &wsol, &tok) { Some(a) => a, None => return Err(BuildError::PdaNotFound) };
    let event_authority = match event_authority_pda(&amm) { Some(a) => a, None => return Err(BuildError::PdaNotFound) };
    let fee_config = match fee_config_pda(&amm) { Some(a) => a, None => return Err(BuildError::PdaNotFound) };
    let gva = match global_volume_accumulator_pda(&amm) { Some(a) => a, None => return Err(BuildError::PdaNotFound) };
    let uva = match user_volume_accumulator_pda(&amm, payer) { Some(a) => a, None => return Err(BuildError::PdaNotFound) };
    let accs: Vec<Address> = vec![
        *pool, *payer, global_config, *mint, wsol, user_base, user_quote, *pool_base_ta, *pool_quote_ta,
        *protocol_fee_recipient, fee_wsol, curve.token_program, tok, system_program(),
        associated_token_program(), event_authority, amm, vault_ata, vault_auth, gva, uva,
        fee_config, pumpfun_fee_program(),
    ];
    let ghost spec_accs = spec_amm_buy_accounts(*payer, *mint, *curve, *protocol_fee_recipient, *pool, *pool_base_ta, *pool_quote_ta);
    assert(spec_accs matches Some(s) && accs@ =~= s);
    let mut metas: Vec<AccountMeta> = Vec::new();
    let mut i: usize = 0;
    while i < 23
        invariant
            accs@.len() == 23,
            0 <= i <= 23,
            metas@ =~= spec_amm_buy_ix(accs@, Seq::empty()).accounts.take(i as int),
        decreases 23 - i,
    {
        let w = i == 0 || i == 1 || i == 5 || i == 6 || i == 7 || i == 8 || i == 10 || i == 17 || i == 20;
        metas.push(AccountMeta { pubkey: accs[i], is_signer: i == 1, is_writable: w });
        i = i + 1;
    }
    assert(spec_amm_buy_ix(accs@, Seq::empty()).accounts.take(23) =~= spec_amm_buy_ix(accs@, Seq::empty()).accounts);
    let mut data: Vec<u8> = vec![102u8, 6u8, 61u8, 18u8, 1u8, 218u8, 235u8, 234u8];
    assert(data@ =~= spec_pumpswap_buy_discriminator());
    let mut b1 = vstd::bytes::u64_to_le_bytes(base_out);
    data.append(&mut b1);
    let mut b2 = vstd::bytes::u64_to_le_bytes(max_quote_in);
    data.append(&mut b2);
    let buy = Ix { program_id: amm, accounts: metas, data };
    let mut ixs: Vec<Ix> = Vec::new();
    push_budget_ixs(&mut ixs, params.fees.compute_unit_limit, params.fees.compute_unit_price_micro_lamports);
    let c1 = match ata_create_idempotent_ix(payer, payer, mint, &curve.token_program) { Some(ix) => ix, None => return Err(BuildError::PdaNotFound) };
    push_ix(&mut ixs, c1);
    let c2 = match ata_create_idempotent_ix(payer, payer, &wsol, &tok) { Some(ix) => ix, None => return Err(BuildError::PdaNotFound) };
    push_ix(&mut ixs, c2);
    push_ix(&mut ixs, buy);
    push_tip_ix(&mut ixs, payer, tip_account, params.fees.jito_tip_lamports);
    proof {
        let s = spec_amm_buy_ixs(*params, *payer, *tip_account, *mint, *curve, *protocol_fee_recipient, *pool, *pool_base_ta, *pool_quote_ta, base_reserve, quote_reserve);
        assert(s matches Ok(t) && ixs.deep_view() =~= t);
    }
    Ok(ixs)
}

/// The PumpSwap accounts are the program addresses its program defines, seeds in this
/// order under PumpSwap: `["global_config"]`, `["pool-authority", mint]` for the canonical
/// creator, `["pool", 0u16 LE, creator, mint, WSOL]` for the pool, and
/// `["creator_vault", creator]` for a coin creator's vault authority.
pub proof fn law_amm_addresses(mint: Address, creator: Address)
    ensures
        spec_amm_global_config() == spec_pda(spec_pumpfun_amm_program(), seq![seq![103u8, 108u8, 111u8, 98u8, 97u8, 108u8, 95u8, 99u8, 111u8, 110u8, 102u8, 105u8, 103u8]]),
        spec_pool_creator(mint) == spec_pda(spec_pumpfun_amm_program(), seq![seq![112u8, 111u8, 111u8, 108u8, 45u8, 97u8, 117u8, 116u8, 104u8, 111u8, 114u8, 105u8, 116u8, 121u8], mint@]),
        spec_pool_creator(mint) matches Some(c) ==> spec_amm_pool(mint)
            == spec_pda(spec_pumpfun_amm_program(), seq![seq![112u8, 111u8, 111u8, 108u8], seq![0u8, 0u8], c@, mint@, spec_wsol_mint()@]),
        spec_coin_creator_vault_authority(creator) == spec_pda(spec_pumpfun_amm_program(), seq![seq![99u8, 114u8, 101u8, 97u8, 116u8, 111u8, 114u8, 95u8, 118u8, 97u8, 117u8, 108u8, 116u8], creator@]),
{
    assert(spec_seed_global_config() =~= seq![103u8, 108u8, 111u8, 98u8, 97u8, 108u8, 95u8, 99u8, 111u8, 110u8, 102u8, 105u8, 103u8]);
    assert(spec_seed_pool_authority() =~= seq![112u8, 111u8, 111u8, 108u8, 45u8, 97u8, 117u8, 116u8, 104u8, 111u8, 114u8, 105u8, 116u8, 121u8]);
    assert(spec_seed_pool() =~= seq![112u8, 111u8, 111u8, 108u8]);
    assert(spec_seed_coin_creator_vault() =~= seq![99u8, 114u8, 101u8, 97u8, 116u8, 111u8, 114u8, 95u8, 118u8, 97u8, 117u8, 108u8, 116u8]);
}

/// A PumpSwap buy spends at most our budget plus slippage into our accounts: on success the
/// two instructions before the buy create our token account for the mint (under the curve's
/// token program) and our WSOL account; the buy is PumpSwap's `buy` (its 8-byte
/// discriminator, then the base amount out and the quote cap from `spec_amm_buy_amounts`
/// of our budget and the reserves) over the pool, us (its only signer), the global config,
/// the mint, WSOL, those two accounts of ours, the pool's token accounts, the fee recipient
/// and its WSOL account, the two token programs, the system and associated token
/// programs, the event authority, PumpSwap, the creator vault's WSOL account and
/// authority, the volume accumulators (ours at 20), the fee config and the fees program;
/// the pool, us, our two accounts, the pool's two, the fee recipient's WSOL account, the
/// creator vault's and our volume accumulator are writable, the rest read-only.
pub proof fn law_amm_buy_accounts(params: TradeParams, payer: Address, tip_account: Address, mint: Address, curve: BondingCurveState, protocol_fee_recipient: Address, pool: Address, pool_base_ta: Address, pool_quote_ta: Address, base_reserve: u64, quote_reserve: u64)
    ensures
        spec_amm_buy_ixs(params, payer, tip_account, mint, curve, protocol_fee_recipient, pool, pool_base_ta, pool_quote_ta, base_reserve, quote_reserve) matches Ok(ixs) ==> {
            let k: int = if params.fees.compute_unit_price_micro_lamports > 0 { 2 } else { 1 };
            let wsol = spec_wsol_mint();
            let tok = spec_token_program();
            let amm = spec_pumpfun_amm_program();
            let buy = ixs[k + 2];
            let a = buy.accounts;
            let amounts = spec_amm_buy_amounts(params.buy_lamports, base_reserve, quote_reserve, params.slippage_bps);
            &&& params.buy_lamports > 0
            &&& ixs.len() >= k + 3
            &&& ixs[k].program_id == spec_associated_token_program()
            &&& Some(ixs[k].accounts[1].pubkey) == spec_ata(payer, mint, curve.token_program)
            &&& ixs[k].accounts[2].pubkey == payer && ixs[k].accounts[3].pubkey == mint && ixs[k].accounts[5].pubkey == curve.token_program
            &&& ixs[k + 1].program_id == spec_associated_token_program()
            &&& Some(ixs[k + 1].accounts[1].pubkey) == spec_ata(payer, wsol, tok)
            &&& ixs[k + 1].accounts[2].pubkey == payer && ixs[k + 1].accounts[3].pubkey == wsol
            &&& buy.program_id == amm
            &&& a.len() == 23
            &&& a[0].pubkey == pool && a[1].pubkey == payer
            &&& Some(a[2].pubkey) == spec_amm_global_config()
            &&& a[3].pubkey == mint && a[4].pubkey == wsol
            &&& a[5].pubkey == ixs[k].accounts[1].pubkey && a[6].pubkey == ixs[k + 1].accounts[1].pubkey
            &&& a[7].pubkey == pool_base_ta && a[8].pubkey == pool_quote_ta
            &&& a[9].pubkey == protocol_fee_recipient
            &&& Some(a[10].pubkey) == spec_ata(protocol_fee_recipient, wsol, tok)
            &&& a[11].pubkey == curve.token_program && a[12].pubkey == tok
            &&& a[13].pubkey == spec_system_program() && a[14].pubkey == spec_associated_token_program()
            &&& Some(a[15].pubkey) == spec_event_authority(amm)
            &&& a[16].pubkey == amm
            &&& Some(a[18].pubkey) == spec_coin_creator_vault_authority(curve.creator)
            &&& Some(a[17].pubkey) == spec_ata(a[18].pubkey, wsol, tok)
            &&& Some(a[19].pubkey) == spec_global_volume_accumulator(amm)
            &&& Some(a[20].pubkey) == spec_user_volume_accumulator(amm, payer)
            &&& Some(a[21].pubkey) == spec_fee_config(amm)
            &&& a[22].pubkey == spec_pumpfun_fee_program()
            &&& forall|i: int| 0 <= i < 23 ==> ((#[trigger] a[i]).is_signer <==> i == 1)
            &&& forall|i: int| 0 <= i < 23 ==> ((#[trigger] a[i]).is_writable
                <==> (i == 0 || i == 1 || i == 5 || i == 6 || i == 7 || i == 8 || i == 10 || i == 17 || i == 20))
            &&& buy.data.len() == 24
            &&& buy.data.take(8) == seq![102u8, 6u8, 61u8, 18u8, 1u8, 218u8, 235u8, 234u8]
            &&& buy.data.subrange(8, 16) == vstd::bytes::spec_u64_to_le_bytes(amounts.0)
            &&& buy.data.subrange(16, 24) == vstd::bytes::spec_u64_to_le_bytes(amounts.1)
        },
{
    if let Ok(ixs) = spec_amm_buy_ixs(params, payer, tip_account, mint, curve, protocol_fee_recipient, pool, pool_base_ta, pool_quote_ta, base_reserve, quote_reserve) {
        let k: int = if params.fees.compute_unit_price_micro_lamports > 0 { 2 } else { 1 };
        assert(spec_budget_ixs(params.fees.compute_unit_limit, params.fees.compute_unit_price_micro_lamports).len() == k);
        let amounts = spec_amm_buy_amounts(params.buy_lamports, base_reserve, quote_reserve, params.slippage_bps);
        let d = spec_pumpswap_buy_data(amounts.0, amounts.1);
        vstd::bytes::lemma_auto_spec_u64_to_from_le_bytes();
        assert(d.take(8) =~= seq![102u8, 6u8, 61u8, 18u8, 1u8, 218u8, 235u8, 234u8]);
        assert(d.subrange(8, 16) =~= vstd::bytes::spec_u64_to_le_bytes(amounts.0));
        assert(d.subrange(16, 24) =~= vstd::bytes::spec_u64_to_le_bytes(amounts.1));
    }
}

} // verus!
