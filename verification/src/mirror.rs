//! Mirroring a leader's top-level wrapper/router instruction (Axiom, GMGN, ...): the
//! instruction is copied with the leader's wallet and token accounts swapped for ours.
use crate::address::{
    associated_token_program, spec_associated_token_program, spec_system_program,
    spec_sysvar_instructions, spec_sysvar_rent, spec_token_2022_program, spec_token_program,
    spec_wsol_mint, system_program, sysvar_instructions, sysvar_rent, token_2022_program,
    token_program, wsol_mint, Address,
};
use crate::budget::{push_budget_ixs, push_ix, push_tip_ix, spec_budget_ixs, spec_tip_ixs, FeeParams};
use crate::pumpbuy::BuildError;
use crate::pumpswap::{ata, ata_create_idempotent_ix, spec_ata, spec_ata_create_idempotent_ix};
use crate::types::{AccountMeta, Ix, IxModel};
use vstd::prelude::*;

verus! {

/// Program and sysvar accounts that a mirrored instruction passes read-only: the system,
/// token, token-2022 and associated token programs, and the rent and instructions sysvars.
pub open spec fn spec_is_program_or_sysvar_readonly(k: Address) -> bool {
    k == spec_system_program() || k == spec_token_program() || k == spec_token_2022_program()
        || k == spec_associated_token_program() || k == spec_sysvar_rent() || k == spec_sysvar_instructions()
}

/// Whether `k` is one of the program or sysvar accounts passed read-only.
pub fn is_program_or_sysvar_readonly(k: &Address) -> (r: bool)
    ensures
        r == spec_is_program_or_sysvar_readonly(*k),
{
    k.same(&system_program()) || k.same(&token_program()) || k.same(&token_2022_program())
        || k.same(&associated_token_program()) || k.same(&sysvar_rent()) || k.same(&sysvar_instructions())
}

/// The account that stands in our instruction for the leader's account `a`: us for the
/// leader, our WSOL account for the leader's, our token account for the leader's (when the
/// mint is known), anything else as it is.
pub open spec fn spec_rewrite_account(a: Address, leader: Address, ours: Address, leader_wsol: Address, our_wsol: Address, token_atas: Option<(Address, Address)>) -> Address {
    if a == leader {
        ours
    } else if a == leader_wsol {
        our_wsol
    } else {
        match token_atas {
            Some((leader_token, our_token)) => if a == leader_token { our_token } else { a },
            None => a,
        }
    }
}

/// The meta of a mirrored account: we sign (writable); programs and sysvars are
/// read-only; every other account is writable.
pub open spec fn spec_mirror_meta(a: Address, ours: Address) -> AccountMeta {
    if a == ours {
        AccountMeta { pubkey: a, is_signer: true, is_writable: true }
    } else if spec_is_program_or_sysvar_readonly(a) {
        AccountMeta { pubkey: a, is_signer: false, is_writable: false }
    } else {
        AccountMeta { pubkey: a, is_signer: false, is_writable: true }
    }
}

/// The metas of the mirrored instruction, one per leader account.
pub open spec fn spec_mirror_metas(accounts: Seq<Address>, leader: Address, ours: Address, leader_wsol: Address, our_wsol: Address, token_atas: Option<(Address, Address)>) -> Seq<AccountMeta> {
    accounts.map_values(|a: Address| spec_mirror_meta(spec_rewrite_account(a, leader, ours, leader_wsol, our_wsol, token_atas), ours))
}

/// The (leader, our) token accounts of the mint when the mint is known (not the zero
/// address), under the legacy token program.
pub open spec fn spec_mirror_token_atas(leader: Address, ours: Address, mint: Address) -> Option<Option<(Address, Address)>> {
    if mint == Address::spec_zero() {
        Some(None)
    } else {
        match (spec_ata(leader, mint, spec_token_program()), spec_ata(ours, mint, spec_token_program())) {
            (Some(l), Some(o)) => Some(Some((l, o))),
            _ => None,
        }
    }
}

/// Instructions of a wrapper mirror: compute budget, our WSOL account (idempotent create),
/// our token account when the mint is known, the wrapper instruction with its accounts
/// made ours, and the tip.
pub open spec fn spec_wrapper_mirror_ixs(fees: FeeParams, ours: Address, tip_account: Address, leader: Address, mint: Address, wrapper_program_id: Address, leader_ix_accounts: Seq<Address>, wrapper_ix_data: Seq<u8>) -> Result<Seq<IxModel>, BuildError> {
    let wsol = spec_wsol_mint();
    let tok = spec_token_program();
    match (spec_ata(ours, wsol, tok), spec_ata(leader, wsol, tok), spec_mirror_token_atas(leader, ours, mint)) {
        (Some(our_wsol), Some(leader_wsol), Some(token_atas)) => {
            let wrapper = IxModel {
                program_id: wrapper_program_id,
                accounts: spec_mirror_metas(leader_ix_accounts, leader, ours, leader_wsol, our_wsol, token_atas),
                data: wrapper_ix_data,
            };
            let token_create = match token_atas {
                Some(_) => match spec_ata(ours, mint, tok) {
                    Some(our_token) => seq![spec_ata_create_idempotent_ix(ours, ours, mint, tok, our_token)],
                    None => Seq::empty(),
                },
                None => Seq::empty(),
            };
            Ok(spec_budget_ixs(fees.compute_unit_limit, fees.compute_unit_price_micro_lamports)
                + seq![spec_ata_create_idempotent_ix(ours, ours, wsol, tok, our_wsol)]
                + token_create
                + seq![wrapper]
                + spec_tip_ixs(ours, tip_account, fees.jito_tip_lamports))
        },
        _ => Err(BuildError::PdaNotFound),
    }
}

/// Builds the instructions that mirror a leader's wrapper instruction for us.
pub fn wrapper_mirror_ixs(fees: &FeeParams, ours: &Address, tip_account: &Address, leader: &Address, mint: &Address, wrapper_program_id: &Address, leader_ix_accounts: &Vec<Address>, wrapper_ix_data: &Vec<u8>) -> (r: Result<Vec<Ix>, BuildError>)
    ensures
        match r {
            Ok(v) => spec_wrapper_mirror_ixs(*fees, *ours, *tip_account, *leader, *mint, *wrapper_program_id, leader_ix_accounts@, wrapper_ix_data@) == Ok::<Seq<IxModel>, BuildError>(v.deep_view()),
            Err(e) => spec_wrapper_mirror_ixs(*fees, *ours, *tip_account, *leader, *mint, *wrapper_program_id, leader_ix_accounts@, wrapper_ix_data@) == Err::<Seq<IxModel>, BuildError>(e),
        },
{
    let wsol = wsol_mint();
    let tok = token_program();
    let our_wsol = match ata(ours, &wsol, &tok) { Some(a) => a, None => return Err(BuildError::PdaNotFound) };
    let leader_wsol = match ata(leader, &wsol, &tok) { Some(a) => a, None => return Err(BuildError::PdaNotFound) };
    let mint_known = !mint.is_zero();
    let token_atas: Option<(Address, Address)> = if mint_known {
        let l = match ata(leader, mint, &tok) { Some(a) => a, None => return Err(BuildError::PdaNotFound) };
        let o = match ata(ours, mint, &tok) { Some(a) => a, None => return Err(BuildError::PdaNotFound) };
        Some((l, o))
    } else {
        None
    };
    assert(spec_mirror_token_atas(*leader, *ours, *mint) == Some(token_atas));
    let mut metas: Vec<AccountMeta> = Vec::new();
    let mut i: usize = 0;
    while i < leader_ix_accounts.len()
        invariant
            0 <= i <= leader_ix_accounts.len(),
            metas@ =~= spec_mirror_metas(leader_ix_accounts@, *leader, *ours, leader_wsol, our_wsol, token_atas).take(i as int),
        decreases leader_ix_accounts.len() - i,
    {
        let a = leader_ix_accounts[i];
        let rewritten = if a.same(leader) {
            *ours
        } else if a.same(&leader_wsol) {
            our_wsol
        } else {
            match token_atas {
                Some((lt, ot)) => if a.same(&lt) { ot } else { a },
                None => a,
            }
        };
        let meta = if rewritten.same(ours) {
            AccountMeta { pubkey: rewritten, is_signer: true, is_writable: true }
        } else if is_program_or_sysvar_readonly(&rewritten) {
            AccountMeta { pubkey: rewritten, is_signer: false, is_writable: false }
        } else {
            AccountMeta { pubkey: rewritten, is_signer: false, is_writable: true }
        };
        metas.push(meta);
        i = i + 1;
    }
    assert(spec_mirror_metas(leader_ix_accounts@, *leader, *ours, leader_wsol, our_wsol, token_atas).take(i as int)
        =~= spec_mirror_metas(leader_ix_accounts@, *leader, *ours, leader_wsol, our_wsol, token_atas));
    let mut ixs: Vec<Ix> = Vec::new();
    push_budget_ixs(&mut ixs, fees.compute_unit_limit, fees.compute_unit_price_micro_lamports);
    let c1 = match ata_create_idempotent_ix(ours, ours, &wsol, &tok) { Some(ix) => ix, None => return Err(BuildError::PdaNotFound) };
    push_ix(&mut ixs, c1);
    if mint_known {
        match ata_create_idempotent_ix(ours, ours, mint, &tok) {
            Some(ix) => push_ix(&mut ixs, ix),
            None => {},
        }
    }
    let data = wrapper_ix_data.clone();
    push_ix(&mut ixs, Ix { program_id: *wrapper_program_id, accounts: metas, data });
    push_tip_ix(&mut ixs, ours, tip_account, fees.jito_tip_lamports);
    proof {
        let s = spec_wrapper_mirror_ixs(*fees, *ours, *tip_account, *leader, *mint, *wrapper_program_id, leader_ix_accounts@, wrapper_ix_data@);
        assert(s matches Ok(t) && ixs.deep_view() =~= t);
    }
    Ok(ixs)
}

/// Mirroring keeps one account per leader account, puts us wherever the leader was, and
/// asks no account but ours for a signature.
pub proof fn law_mirror_swaps_leader_for_us(accounts: Seq<Address>, leader: Address, ours: Address, leader_wsol: Address, our_wsol: Address, token_atas: Option<(Address, Address)>)
    ensures
        spec_mirror_metas(accounts, leader, ours, leader_wsol, our_wsol, token_atas).len() == accounts.len(),
        forall|i: int| 0 <= i < accounts.len() && accounts[i] == leader ==> {
            let m = #[trigger] spec_mirror_metas(accounts, leader, ours, leader_wsol, our_wsol, token_atas)[i];
            m.pubkey == ours && m.is_signer && m.is_writable
        },
        forall|i: int| 0 <= i < accounts.len() && (#[trigger] spec_mirror_metas(accounts, leader, ours, leader_wsol, our_wsol, token_atas)[i]).is_signer
            ==> spec_mirror_metas(accounts, leader, ours, leader_wsol, our_wsol, token_atas)[i].pubkey == ours,
{
}

/// A mirrored wrapper instruction acts for us: on success with a known mint, the
/// instruction before it creates our token account for the mint, and the wrapper
/// instruction keeps the program, the data and one account per leader account, where the
/// leader becomes us, the leader's WSOL account our WSOL account, the leader's token account
/// for the mint our token account, and every other account stays as it is. So no account
/// of the leader's token account is left unless it is one of ours. Only we sign; the
/// system, token, Token-2022 and associated token programs and the rent and instructions
/// sysvars are passed read-only, every other account writable.
pub proof fn law_mirror_uses_our_accounts(fees: FeeParams, ours: Address, tip_account: Address, leader: Address, mint: Address, wrapper_program_id: Address, leader_ix_accounts: Seq<Address>, wrapper_ix_data: Seq<u8>)
    ensures
        spec_wrapper_mirror_ixs(fees, ours, tip_account, leader, mint, wrapper_program_id, leader_ix_accounts, wrapper_ix_data) matches Ok(ixs)
            ==> mint != Address::spec_zero() ==> {
            let k: int = if fees.compute_unit_price_micro_lamports > 0 { 2 } else { 1 };
            let tok = spec_token_program();
            let leader_wsol = spec_ata(leader, spec_wsol_mint(), tok)->0;
            let our_wsol = spec_ata(ours, spec_wsol_mint(), tok)->0;
            let leader_token = spec_ata(leader, mint, tok)->0;
            let our_token = spec_ata(ours, mint, tok)->0;
            let w = ixs[k + 2];
            &&& ixs.len() >= k + 3
            &&& spec_ata(leader, spec_wsol_mint(), tok) is Some && spec_ata(ours, spec_wsol_mint(), tok) is Some
            &&& spec_ata(leader, mint, tok) is Some && spec_ata(ours, mint, tok) is Some
            &&& ixs[k].accounts[1].pubkey == our_wsol && ixs[k].accounts[3].pubkey == spec_wsol_mint()
            &&& ixs[k + 1].program_id == spec_associated_token_program()
            &&& ixs[k + 1].accounts[1].pubkey == our_token && ixs[k + 1].accounts[2].pubkey == ours && ixs[k + 1].accounts[3].pubkey == mint
            &&& w.program_id == wrapper_program_id && w.data == wrapper_ix_data
            &&& w.accounts.len() == leader_ix_accounts.len()
            &&& forall|i: int| 0 <= i < leader_ix_accounts.len() ==> {
                let a = leader_ix_accounts[i];
                let p = (#[trigger] w.accounts[i]).pubkey;
                &&& (a == leader ==> p == ours)
                &&& (a != leader && a == leader_wsol ==> p == our_wsol)
                &&& (a != leader && a != leader_wsol && a == leader_token ==> p == our_token)
                &&& (a != leader && a != leader_wsol && a != leader_token ==> p == a)
                &&& (p == leader_token ==> leader_token == ours || leader_token == our_wsol || leader_token == our_token)
                &&& (w.accounts[i].is_signer <==> p == ours)
                &&& (!w.accounts[i].is_writable <==> (p != ours && (p == spec_system_program() || p == spec_token_program()
                    || p == spec_token_2022_program() || p == spec_associated_token_program() || p == spec_sysvar_rent()
                    || p == spec_sysvar_instructions())))
            }
        },
{
    let r = spec_wrapper_mirror_ixs(fees, ours, tip_account, leader, mint, wrapper_program_id, leader_ix_accounts, wrapper_ix_data);
    if let Ok(ixs) = r {
        if mint != Address::spec_zero() {
            let k: int = if fees.compute_unit_price_micro_lamports > 0 { 2 } else { 1 };
            let b = spec_budget_ixs(fees.compute_unit_limit, fees.compute_unit_price_micro_lamports);
            assert(b.len() == k);
            let tok = spec_token_program();
            let leader_wsol = spec_ata(leader, spec_wsol_mint(), tok)->0;
            let our_wsol = spec_ata(ours, spec_wsol_mint(), tok)->0;
            let token_atas = spec_mirror_token_atas(leader, ours, mint)->0;
            let w = ixs[k + 2];
            assert(w.accounts == spec_mirror_metas(leader_ix_accounts, leader, ours, leader_wsol, our_wsol, token_atas));
        }
    }
}

} // verus!
