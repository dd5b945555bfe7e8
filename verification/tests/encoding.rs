use jito_shredstream_pump_bot::address::{
    associated_token_program, axiom_program, compute_budget_program, pump_amm_program,
    pump_curve_program, pumpfun_amm_program, pumpfun_fee_program, pumpfun_program,
    system_program, sysvar_instructions, sysvar_rent, token_2022_program, token_program,
    trojan_program, wsol_mint, Address, ASSOCIATED_TOKEN_PROGRAM_ID, AXIOM_PROGRAM_ID,
    COMPUTE_BUDGET_PROGRAM_ID, PUMPFUN_AMM_PROGRAM_ID, PUMPFUN_FEE_PROGRAM_ID, PUMPFUN_PROGRAM_ID,
    SYSTEM_PROGRAM_ID, SYSVAR_INSTRUCTIONS_ID, SYSVAR_RENT_ID, TOKEN_2022_PROGRAM_ID,
    TOKEN_PROGRAM_ID, TROJAN_PROGRAM_ID, WSOL_MINT_ID,
};
use jito_shredstream_pump_bot::jito::to_hex;
use jito_shredstream_pump_bot::layout::{
    parse_amm_global_config_fee_recipient, parse_bonding_curve, parse_global_fee_recipient,
    parse_pool_accounts, parse_spl_token_amount, LayoutError,
};
use jito_shredstream_pump_bot::pricing::{amm_buy_amounts, scale_min_out};
use jito_shredstream_pump_bot::pumpswap::{mayhem_fee_recipient, pick_mayhem_fee_recipient, MAYHEM_FEE_RECIPIENT_IDS};
use jito_shredstream_pump_bot::types::SignalSource;
use solana_sdk::pubkey::Pubkey;
use std::str::FromStr;

fn pk(text: &str) -> Address {
    Address { bytes: Pubkey::from_str(text).unwrap().to_bytes() }
}

#[test]
fn program_constants_match_their_base58_forms() {
    assert_eq!(pumpfun_program().bytes, pk(PUMPFUN_PROGRAM_ID).bytes);
    assert_eq!(pumpfun_amm_program().bytes, pk(PUMPFUN_AMM_PROGRAM_ID).bytes);
    assert_eq!(pumpfun_fee_program().bytes, pk(PUMPFUN_FEE_PROGRAM_ID).bytes);
    assert_eq!(token_program().bytes, pk(TOKEN_PROGRAM_ID).bytes);
    assert_eq!(token_2022_program().bytes, pk(TOKEN_2022_PROGRAM_ID).bytes);
    assert_eq!(associated_token_program().bytes, pk(ASSOCIATED_TOKEN_PROGRAM_ID).bytes);
    assert_eq!(wsol_mint().bytes, pk(WSOL_MINT_ID).bytes);
    assert_eq!(system_program().bytes, pk(SYSTEM_PROGRAM_ID).bytes);
    assert_eq!(sysvar_rent().bytes, pk(SYSVAR_RENT_ID).bytes);
    assert_eq!(sysvar_instructions().bytes, pk(SYSVAR_INSTRUCTIONS_ID).bytes);
    assert_eq!(compute_budget_program().bytes, pk(COMPUTE_BUDGET_PROGRAM_ID).bytes);
    assert_eq!(axiom_program().bytes, pk(AXIOM_PROGRAM_ID).bytes);
    assert_eq!(trojan_program().bytes, pk(TROJAN_PROGRAM_ID).bytes);
}

#[test]
fn program_constants_match_the_sdk_ids() {
    assert_eq!(system_program().bytes, solana_sdk::system_program::id().to_bytes());
    assert_eq!(sysvar_rent().bytes, solana_sdk::sysvar::rent::id().to_bytes());
    assert_eq!(sysvar_instructions().bytes, solana_sdk::sysvar::instructions::id().to_bytes());
    assert_eq!(compute_budget_program().bytes, solana_sdk::compute_budget::id().to_bytes());
}

#[test]
fn pump_programs_parse_from_their_ids() {
    assert_eq!(pump_curve_program().unwrap().bytes, pumpfun_program().bytes);
    assert_eq!(pump_amm_program().unwrap().bytes, pumpfun_amm_program().bytes);
}

#[test]
fn mayhem_recipients_match_their_base58_forms() {
    for (i, text) in MAYHEM_FEE_RECIPIENT_IDS.iter().enumerate() {
        assert_eq!(mayhem_fee_recipient(i).bytes, pk(text).bytes);
    }
    assert_eq!(pick_mayhem_fee_recipient(13).bytes, pk(MAYHEM_FEE_RECIPIENT_IDS[5]).bytes);
    assert_eq!(pick_mayhem_fee_recipient(u32::MAX).bytes, pk(MAYHEM_FEE_RECIPIENT_IDS[7]).bytes);
}

#[test]
fn to_hex_is_lower_case_two_digits_per_byte() {
    assert_eq!(to_hex(&[0x00, 0xab, 0xff, 0x10]), "00abff10");
    assert_eq!(to_hex(&[]), "");
}

#[test]
fn scale_min_out_scales_and_applies_slippage() {
    // 1 SOL for at least 1_000_000 tokens, scaled to 0.05 SOL: 50_000, minus 15%.
    assert_eq!(scale_min_out(1_000_000_000, 1_000_000, 50_000_000, 1500), 42_500);
    assert_eq!(scale_min_out(1_000_000_000, 1_000_000, 50_000_000, 0), 50_000);
}

#[test]
fn scale_min_out_falls_back_to_one() {
    assert_eq!(scale_min_out(0, 1_000_000, 50_000_000, 1500), 1);
    assert_eq!(scale_min_out(1_000_000_000, 0, 50_000_000, 1500), 1);
    assert_eq!(scale_min_out(1_000_000_000, 1, 1, 1500), 1);
    assert_eq!(scale_min_out(1_000, 1_000, 1_000, 20_000), 1);
}

#[test]
fn scale_min_out_saturates_and_truncates() {
    // The slippage product saturates at u128::MAX; the quotient is cut to 64 bits.
    let v = scale_min_out(1, u64::MAX, u64::MAX, 0);
    let expected = (u128::MAX / 10_000) as u64;
    assert_eq!(v, expected.max(1));
}

#[test]
fn amm_buy_amounts_quote_constant_product() {
    // 1 SOL into a pool of 1_000 SOL and 1_000_000_000 tokens.
    let (base_out, max_in) = amm_buy_amounts(1_000_000_000, 1_000_000_000, 1_000_000_000_000, 1000);
    let est = 1_000_000_000u128 * 1_000_000_000u128 / (1_000_000_000_000u128 + 1_000_000_000u128);
    assert_eq!(base_out as u128, est * 9000 / 10_000);
    assert_eq!(max_in, 1_100_000_000);
    let (b, _) = amm_buy_amounts(1, 0, 0, 0);
    assert_eq!(b, 1);
}

#[test]
fn spl_token_amount_is_read_at_64() {
    let mut data = vec![0u8; 72];
    data[64..72].copy_from_slice(&12345u64.to_le_bytes());
    assert_eq!(parse_spl_token_amount(&data), Some(12345));
    assert_eq!(parse_spl_token_amount(&data[..71]), None);
}

#[test]
fn bonding_curve_layout() {
    assert_eq!(parse_bonding_curve(&[0u8; 48]).unwrap_err(), LayoutError::BondingCurveTooSmall(48));
    let mut data = vec![0u8; 82];
    data[48] = 1;
    data[49..81].copy_from_slice(&[7u8; 32]);
    data[81] = 1;
    let (complete, creator, mayhem) = parse_bonding_curve(&data).unwrap();
    assert!(complete);
    assert_eq!(creator.bytes, [7u8; 32]);
    assert!(mayhem);
    // Old accounts without a creator: zero creator, the byte after the flag is read.
    let mut old = vec![0u8; 50];
    old[49] = 1;
    let (complete, creator, mayhem) = parse_bonding_curve(&old).unwrap();
    assert!(!complete);
    assert_eq!(creator.bytes, [0u8; 32]);
    assert!(mayhem);
    let (_, _, mayhem) = parse_bonding_curve(&[0u8; 81]).unwrap();
    assert!(!mayhem);
}

#[test]
fn global_and_pool_layouts() {
    let mut global = vec![0u8; 73];
    global[41..73].copy_from_slice(&[9u8; 32]);
    assert_eq!(parse_global_fee_recipient(&global).unwrap().bytes, [9u8; 32]);
    assert_eq!(parse_global_fee_recipient(&global[..72]).unwrap_err(), LayoutError::GlobalTooSmall(72));

    let mut config = vec![0u8; 313];
    config[57..89].copy_from_slice(&[3u8; 32]);
    assert_eq!(parse_amm_global_config_fee_recipient(&config).unwrap().bytes, [3u8; 32]);
    assert!(parse_amm_global_config_fee_recipient(&config[..312]).is_none());

    let mut pool = vec![0u8; 203];
    pool[139..171].copy_from_slice(&[4u8; 32]);
    pool[171..203].copy_from_slice(&[5u8; 32]);
    let (base, quote) = parse_pool_accounts(&pool).unwrap();
    assert_eq!(base.bytes, [4u8; 32]);
    assert_eq!(quote.bytes, [5u8; 32]);
    assert!(parse_pool_accounts(&pool[..202]).is_none());
}

#[test]
fn signal_source_labels() {
    assert_eq!(SignalSource::CurveDirectBuy.as_str(), "curve_direct_buy");
    assert_eq!(SignalSource::CurveCpiBuy.as_str(), "curve_cpi_buy");
    assert_eq!(SignalSource::AmmAxiomBuy.as_str(), "amm_axiom_buy");
    assert_eq!(SignalSource::CurvePdaBuyish.as_str(), "curve_pda_buyish");
    assert_eq!(SignalSource::RpcBuyish.as_str(), "rpc_buyish");
    assert_eq!(SignalSource::WrapperMirror.as_str(), "wrapper_mirror");
}
