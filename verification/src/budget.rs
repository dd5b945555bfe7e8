//! Instruction lists shared by every transaction the bot builds: compute-budget settings,
//! the Jito tip, and the demo transaction.
use crate::address::{spec_compute_budget_program, spec_system_program, Address};
use crate::sdk::{set_compute_unit_limit, set_compute_unit_price, transfer};
use crate::types::{AccountMeta, Ix, IxModel};
use vstd::prelude::*;

verus! {

/// Fee and tip settings of the bot's transactions.
#[derive(Clone, Copy, Debug)]
pub struct FeeParams {
    /// Compute unit limit.
    pub compute_unit_limit: u32,
    /// Compute unit price in micro-lamports (0: no price instruction).
    pub compute_unit_price_micro_lamports: u64,
    /// Lamports paid to the Jito tip account (0: no tip).
    pub jito_tip_lamports: u64,
}

/// `set_compute_unit_limit(units)`.
pub open spec fn spec_cu_limit_ix(units: u32) -> IxModel {
    IxModel {
        program_id: spec_compute_budget_program(),
        accounts: Seq::empty(),
        data: seq![2u8] + vstd::bytes::spec_u32_to_le_bytes(units),
    }
}

/// `set_compute_unit_price(micro_lamports)`.
pub open spec fn spec_cu_price_ix(micro_lamports: u64) -> IxModel {
    IxModel {
        program_id: spec_compute_budget_program(),
        accounts: Seq::empty(),
        data: seq![3u8] + vstd::bytes::spec_u64_to_le_bytes(micro_lamports),
    }
}

/// `system_instruction::transfer(from, to, lamports)`.
pub open spec fn spec_transfer_ix(from: Address, to: Address, lamports: u64) -> IxModel {
    IxModel {
        program_id: spec_system_program(),
        accounts: seq![AccountMeta::spec_writable(from, true), AccountMeta::spec_writable(to, false)],
        data: vstd::bytes::spec_u32_to_le_bytes(2u32) + vstd::bytes::spec_u64_to_le_bytes(lamports),
    }
}

/// The compute-budget instructions: the unit limit, then the unit price when it is set.
pub open spec fn spec_budget_ixs(units: u32, micro_lamports: u64) -> Seq<IxModel> {
    seq![spec_cu_limit_ix(units)] + if micro_lamports > 0 {
        seq![spec_cu_price_ix(micro_lamports)]
    } else {
        Seq::empty()
    }
}

/// The tip transfer, when a tip is set.
pub open spec fn spec_tip_ixs(payer: Address, tip_account: Address, tip_lamports: u64) -> Seq<IxModel> {
    if tip_lamports > 0 {
        seq![spec_transfer_ix(payer, tip_account, tip_lamports)]
    } else {
        Seq::empty()
    }
}

/// Appends one instruction.
pub fn push_ix(ixs: &mut Vec<Ix>, ix: Ix)
    ensures
        final(ixs).deep_view() == old(ixs).deep_view().push(ix@),
{
    let ghost v = ix@;
    ixs.push(ix);
    assert(ixs.deep_view() =~= old(ixs).deep_view().push(v));
}

/// Builds `system_instruction::transfer(from, to, lamports)`.
pub fn transfer_ix(from: &Address, to: &Address, lamports: u64) -> (r: Ix)
    ensures
        r@ == spec_transfer_ix(*from, *to, lamports),
{
    let ix = transfer(from, to, lamports);
    assert(ix@.accounts =~= spec_transfer_ix(*from, *to, lamports).accounts);
    ix
}

/// Appends the compute-budget instructions.
pub fn push_budget_ixs(ixs: &mut Vec<Ix>, units: u32, micro_lamports: u64)
    ensures
        final(ixs).deep_view() == old(ixs).deep_view() + spec_budget_ixs(units, micro_lamports),
{
    let limit = set_compute_unit_limit(units);
    assert(limit@.accounts =~= Seq::<AccountMeta>::empty());
    push_ix(ixs, limit);
    if micro_lamports > 0 {
        let price = set_compute_unit_price(micro_lamports);
        assert(price@.accounts =~= Seq::<AccountMeta>::empty());
        push_ix(ixs, price);
    }
    assert(ixs.deep_view() =~= old(ixs).deep_view() + spec_budget_ixs(units, micro_lamports));
}

/// Appends the Jito tip transfer when a tip is set.
pub fn push_tip_ix(ixs: &mut Vec<Ix>, payer: &Address, tip_account: &Address, tip_lamports: u64)
    ensures
        final(ixs).deep_view() == old(ixs).deep_view() + spec_tip_ixs(*payer, *tip_account, tip_lamports),
{
    if tip_lamports > 0 {
        push_ix(ixs, transfer_ix(payer, tip_account, tip_lamports));
    }
    assert(ixs.deep_view() =~= old(ixs).deep_view() + spec_tip_ixs(*payer, *tip_account, tip_lamports));
}

/// The demo transaction: unit limit at most 50 000, the price when set, the tip when set,
/// and a 1-lamport transfer from the payer to itself.
pub open spec fn spec_demo_ixs(fees: FeeParams, payer: Address, tip_account: Address) -> Seq<IxModel> {
    spec_budget_ixs(if fees.compute_unit_limit < 50_000 { fees.compute_unit_limit } else { 50_000 }, fees.compute_unit_price_micro_lamports)
        + spec_tip_ixs(payer, tip_account, fees.jito_tip_lamports)
        + seq![spec_transfer_ix(payer, payer, 1)]
}

/// Instructions of the demo transaction, which only checks that submission works.
pub fn demo_ixs(fees: &FeeParams, payer: &Address, tip_account: &Address) -> (r: Vec<Ix>)
    ensures
        r.deep_view() == spec_demo_ixs(*fees, *payer, *tip_account),
{
    let mut ixs: Vec<Ix> = Vec::new();
    let units = if fees.compute_unit_limit < 50_000 { fees.compute_unit_limit } else { 50_000 };
    push_budget_ixs(&mut ixs, units, fees.compute_unit_price_micro_lamports);
    push_tip_ix(&mut ixs, payer, tip_account, fees.jito_tip_lamports);
    push_ix(&mut ixs, transfer_ix(payer, payer, 1));
    assert(ixs.deep_view() =~= spec_demo_ixs(*fees, *payer, *tip_account));
    ixs
}

/// What every transaction starts and ends with: the compute-budget instructions set the
/// unit limit (data `2` and the limit, little-endian) and, when a price is set, the unit
/// price (data `3` and the price); the tip, when set, moves that many lamports from the
/// payer (signing) to the tip account with the system program's `Transfer` (variant 2);
/// the demo transaction ends with a 1-lamport transfer from the payer to itself, its unit
/// limit capped at 50 000.
pub proof fn law_budget_and_tip(units: u32, micro_lamports: u64, payer: Address, tip_account: Address, tip_lamports: u64, fees: FeeParams)
    ensures
        ({
            let b = spec_budget_ixs(units, micro_lamports);
            &&& b.len() == if micro_lamports > 0 { 2int } else { 1int }
            &&& b[0].program_id == spec_compute_budget_program() && b[0].accounts.len() == 0
            &&& b[0].data == seq![2u8] + vstd::bytes::spec_u32_to_le_bytes(units)
            &&& (micro_lamports > 0 ==> b[1].program_id == spec_compute_budget_program() && b[1].accounts.len() == 0
                && b[1].data == seq![3u8] + vstd::bytes::spec_u64_to_le_bytes(micro_lamports))
        }),
        ({
            let t = spec_tip_ixs(payer, tip_account, tip_lamports);
            &&& (tip_lamports == 0 ==> t.len() == 0)
            &&& (tip_lamports > 0 ==> {
                &&& t.len() == 1
                &&& t[0].program_id == spec_system_program()
                &&& t[0].accounts.len() == 2
                &&& t[0].accounts[0].pubkey == payer && t[0].accounts[0].is_signer && t[0].accounts[0].is_writable
                &&& t[0].accounts[1].pubkey == tip_account && !t[0].accounts[1].is_signer && t[0].accounts[1].is_writable
                &&& t[0].data == vstd::bytes::spec_u32_to_le_bytes(2u32) + vstd::bytes::spec_u64_to_le_bytes(tip_lamports)
            })
        }),
        ({
            let d = spec_demo_ixs(fees, payer, tip_account);
            let n = d.len() - 1;
            &&& d.len() >= 2
            &&& d[0].data == seq![2u8] + vstd::bytes::spec_u32_to_le_bytes(if fees.compute_unit_limit < 50_000 { fees.compute_unit_limit } else { 50_000 })
            &&& d[n].program_id == spec_system_program()
            &&& d[n].accounts.len() == 2
            &&& d[n].accounts[0].pubkey == payer && d[n].accounts[1].pubkey == payer
            &&& d[n].data == vstd::bytes::spec_u32_to_le_bytes(2u32) + vstd::bytes::spec_u64_to_le_bytes(1u64)
        }),
{
}

} // verus!
