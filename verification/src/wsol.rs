//! The WSOL bank: the payer's wrapped-SOL account, created and topped up once at start so
//! that PumpSwap buys need no wrap instructions of their own.
use crate::address::{spec_system_program, spec_token_program, spec_wsol_mint, token_program, wsol_mint, Address};
use crate::budget::{push_budget_ixs, push_ix, spec_budget_ixs, spec_transfer_ix, transfer_ix};
use crate::layout::{parse_spl_token_amount, spec_parse_spl_token_amount};
use crate::pumpbuy::BuildError;
use crate::pumpswap::{ata, ata_create_idempotent_ix, spec_ata, spec_ata_create_idempotent_ix, spec_sync_native_ix, sync_native_ix};
use crate::trade::{ixs_view, sign_trade_ixs, spec_signed, tx_result_is, TradeError};
use crate::tx::PayerKeypair;
use crate::types::{Ix, IxModel};
use vstd::prelude::*;

verus! {

/// The payer's WSOL account and how much it should hold (lamports).
#[derive(Clone, Copy, Debug)]
pub struct WsolBank {
    wsol_ata: Address,
    reserve_lamports: u64,
    min_lamports: u64,
    target_lamports: u64,
}

/// How much to wrap given the current WSOL balance: with both a minimum and a target set,
/// top up to the target when the balance is below the minimum (else nothing); otherwise
/// wrap the fixed reserve.
pub open spec fn spec_desired_wrap(reserve: u64, min: u64, target: u64, current: u64) -> u64 {
    if min > 0 && target > 0 {
        if current >= min {
            0
        } else if target > current {
            (target - current) as u64
        } else {
            0
        }
    } else {
        reserve
    }
}

/// The WSOL balance of the payer's account as read at start: the token amount of the
/// fetched account, 0 when it could not be fetched or is too short.
pub open spec fn spec_current_wsol(account_data: Option<Seq<u8>>) -> u64 {
    match account_data {
        Some(d) => match spec_parse_spl_token_amount(d) {
            Some(a) => a,
            None => 0,
        },
        None => 0,
    }
}

/// Instructions of the bootstrap transaction: compute budget (unit limit at most 200 000),
/// the idempotent creation of the payer's WSOL account, the SOL transfer into the bank's
/// account, and `SyncNative` on it.
pub open spec fn spec_bootstrap_ixs(payer: Address, wsol_ata: Address, wrap: u64, compute_unit_limit: u32, micro_lamports: u64) -> Result<Seq<IxModel>, BuildError> {
    match spec_ata(payer, spec_wsol_mint(), spec_token_program()) {
        None => Err(BuildError::PdaNotFound),
        Some(payer_wsol) => Ok(spec_budget_ixs(if compute_unit_limit < 200_000 { compute_unit_limit } else { 200_000 }, micro_lamports)
            + seq![
                spec_ata_create_idempotent_ix(payer, payer, spec_wsol_mint(), spec_token_program(), payer_wsol),
                spec_transfer_ix(payer, wsol_ata, wrap),
                spec_sync_native_ix(wsol_ata),
            ]),
    }
}

/// What the bootstrap does next.
#[derive(Debug)]
pub enum BootstrapStep {
    /// The account already holds enough (the balance read).
    Sufficient(u64),
    /// Fetch the latest blockhash and call again with it.
    FetchBlockhash,
    /// Send this signed transaction (through the block engine's `sendTransaction`).
    Send(Result<Vec<u8>, TradeError>),
}

impl WsolBank {
    /// The payer's WSOL associated token account.
    pub closed spec fn spec_wsol_ata(&self) -> Address {
        self.wsol_ata
    }

    /// The reserve wrapped when no minimum/target pair is set.
    pub closed spec fn spec_reserve(&self) -> u64 {
        self.reserve_lamports
    }

    /// The minimum balance below which the account is topped up.
    pub closed spec fn spec_min(&self) -> u64 {
        self.min_lamports
    }

    /// The balance a top-up reaches.
    pub closed spec fn spec_target(&self) -> u64 {
        self.target_lamports
    }

    /// A bank for `user`'s WSOL account (`None` when the account cannot be derived).
    pub fn new(user: &Address, reserve_lamports: u64, min_lamports: u64, target_lamports: u64) -> (r: Option<WsolBank>)
        ensures
            match spec_ata(*user, spec_wsol_mint(), spec_token_program()) {
                Some(a) => r matches Some(b) && b.spec_wsol_ata() == a && b.spec_reserve() == reserve_lamports
                    && b.spec_min() == min_lamports && b.spec_target() == target_lamports,
                None => r is None,
            },
    {
        match ata(user, &wsol_mint(), &token_program()) {
            Some(wsol_ata) => Some(WsolBank { wsol_ata, reserve_lamports, min_lamports, target_lamports }),
            None => None,
        }
    }

    /// The payer's WSOL associated token account.
    pub fn wsol_ata(&self) -> (r: Address)
        ensures
            r == self.spec_wsol_ata(),
    {
        self.wsol_ata
    }

    /// The reserve wrapped when no minimum/target pair is set.
    pub fn reserve_lamports(&self) -> (r: u64)
        ensures
            r == self.spec_reserve(),
    {
        self.reserve_lamports
    }

    /// How much to wrap given the current balance.
    pub fn desired_wrap_lamports(&self, current_amount: u64) -> (r: u64)
        ensures
            r == spec_desired_wrap(self.spec_reserve(), self.spec_min(), self.spec_target(), current_amount),
    {
        if self.min_lamports > 0 && self.target_lamports > 0 {
            if current_amount >= self.min_lamports {
                return 0;
            }
            return self.target_lamports.saturating_sub(current_amount);
        }
        self.reserve_lamports
    }

    /// Plans and builds the bootstrap: reads the balance from the fetched WSOL account
    /// (`None`: the fetch failed), stops when nothing is to be wrapped, asks for a
    /// blockhash when it has none, else signs the wrap transaction.
    pub fn bootstrap(&self, payer: &PayerKeypair, account_data: Option<&[u8]>, compute_unit_limit: u32, compute_unit_price_micro_lamports: u64, blockhash: Option<[u8; 32]>) -> (r: BootstrapStep)
        ensures
            ({
                let current = spec_current_wsol(match account_data { Some(d) => Some(d@), None => None });
                let wrap = spec_desired_wrap(self.spec_reserve(), self.spec_min(), self.spec_target(), current);
                if wrap == 0 {
                    r matches BootstrapStep::Sufficient(c) && c == current
                } else {
                    match blockhash {
                        None => r is FetchBlockhash,
                        Some(bh) => r matches BootstrapStep::Send(t) && tx_result_is(t, spec_signed(
                            spec_bootstrap_ixs(payer.spec_pubkey(), self.spec_wsol_ata(), wrap, compute_unit_limit, compute_unit_price_micro_lamports), *payer, bh@)),
                    }
                }
            }),
    {
        let current = match account_data {
            Some(d) => match parse_spl_token_amount(d) {
                Some(a) => a,
                None => 0,
            },
            None => 0,
        };
        let wrap = self.desired_wrap_lamports(current);
        if wrap == 0 {
            return BootstrapStep::Sufficient(current);
        }
        let bh = match blockhash {
            Some(b) => b,
            None => return BootstrapStep::FetchBlockhash,
        };
        let ours = payer.pubkey();
        let units = if compute_unit_limit < 200_000 { compute_unit_limit } else { 200_000 };
        let mut ixs: Vec<Ix> = Vec::new();
        push_budget_ixs(&mut ixs, units, compute_unit_price_micro_lamports);
        let create = match ata_create_idempotent_ix(&ours, &ours, &wsol_mint(), &token_program()) {
            Some(ix) => ix,
            None => return BootstrapStep::Send(Err(TradeError::Build(BuildError::PdaNotFound))),
        };
        push_ix(&mut ixs, create);
        push_ix(&mut ixs, transfer_ix(&ours, &self.wsol_ata, wrap));
        push_ix(&mut ixs, sync_native_ix(&self.wsol_ata));
        proof {
            let s = spec_bootstrap_ixs(ours, self.wsol_ata, wrap, compute_unit_limit, compute_unit_price_micro_lamports);
            assert(s matches Ok(t) && ixs.deep_view() =~= t);
        }
        BootstrapStep::Send(sign_trade_ixs(Ok(ixs), payer, &bh))
    }
}

/// The bank's top-up: with a minimum and a target set, nothing is wrapped at or above the
/// minimum, and below it the wrap brings the balance exactly to the target (nothing when
/// the balance already exceeds the target); without them, the fixed reserve is wrapped
/// whatever the balance.
pub proof fn law_top_up_reaches_target(reserve: u64, min: u64, target: u64, current: u64)
    ensures
        min > 0 && target > 0 && current >= min ==> spec_desired_wrap(reserve, min, target, current) == 0,
        min > 0 && target > 0 && current < min && current <= target ==> current + spec_desired_wrap(reserve, min, target, current) == target,
        min > 0 && target > 0 && current < min && current > target ==> spec_desired_wrap(reserve, min, target, current) == 0,
        !(min > 0 && target > 0) ==> spec_desired_wrap(reserve, min, target, current) == reserve,
{
}

/// The bootstrap wraps SOL into the bank's account: after the compute budget (unit limit
/// capped at 200 000) it creates the payer's WSOL account, moves `wrap` lamports from the
/// payer (signing) into the bank's account with the system program's `Transfer`, and ends
/// with the token program's `SyncNative` (data `17`) on that account.
pub proof fn law_bootstrap_wraps_into_bank(payer: Address, wsol_ata: Address, wrap: u64, compute_unit_limit: u32, micro_lamports: u64)
    ensures
        spec_bootstrap_ixs(payer, wsol_ata, wrap, compute_unit_limit, micro_lamports) matches Ok(ixs) ==> {
            let k: int = if micro_lamports > 0 { 2 } else { 1 };
            &&& ixs.len() == k + 3
            &&& ixs[0].data == seq![2u8] + vstd::bytes::spec_u32_to_le_bytes(if compute_unit_limit < 200_000 { compute_unit_limit } else { 200_000 })
            &&& ixs[k].accounts[0].pubkey == payer && ixs[k].accounts[2].pubkey == payer && ixs[k].accounts[3].pubkey == spec_wsol_mint()
            &&& Some(ixs[k].accounts[1].pubkey) == spec_ata(payer, spec_wsol_mint(), spec_token_program())
            &&& ixs[k + 1].program_id == spec_system_program()
            &&& ixs[k + 1].accounts.len() == 2
            &&& ixs[k + 1].accounts[0].pubkey == payer && ixs[k + 1].accounts[0].is_signer
            &&& ixs[k + 1].accounts[1].pubkey == wsol_ata && ixs[k + 1].accounts[1].is_writable
            &&& ixs[k + 1].data == vstd::bytes::spec_u32_to_le_bytes(2u32) + vstd::bytes::spec_u64_to_le_bytes(wrap)
            &&& ixs[k + 2].program_id == spec_token_program()
            &&& ixs[k + 2].accounts.len() == 1 && ixs[k + 2].accounts[0].pubkey == wsol_ata
            &&& ixs[k + 2].data == seq![17u8]
        },
{
}

} // verus!
