//! Byte layouts of the on-chain accounts the executor reads: Pump.fun bonding curves and
//! globals, PumpSwap global configs and pools, and SPL token accounts.
use crate::address::{address_of, lemma_address_of_view, Address};
use vstd::prelude::*;

verus! {

/// The address stored at `data[off..off + 32]`, if the data reaches that far.
pub open spec fn spec_pubkey_at(data: Seq<u8>, off: int) -> Option<Address> {
    if off + 32 <= data.len() {
        Some(address_of(data.subrange(off, off + 32)))
    } else {
        None
    }
}

/// Reads the address stored at `data[off..off + 32]`; `None` when the data is shorter.
pub fn pubkey_from_slice(data: &[u8], off: usize) -> (r: Option<Address>)
    requires
        off + 32 <= usize::MAX,
    ensures
        r == spec_pubkey_at(data@, off as int),
{
    if off + 32 > data.len() {
        return None;
    }
    let n = data.len();
    let mut bytes = [0u8; 32];
    let mut i: usize = 0;
    while i < 32
        invariant
            n == data@.len(),
            off + 32 <= data@.len(),
            0 <= i <= 32,
            forall|j: int| 0 <= j < i ==> bytes@[j] == data@[off + j],
        decreases 32 - i,
    {
        bytes[i] = data[off + i];
        i = i + 1;
    }
    let a = Address { bytes };
    assert(a@ =~= data@.subrange(off as int, off + 32));
    proof {
        lemma_address_of_view(a);
    }
    Some(a)
}

/// The little-endian `u64` at `data[off..off + 8]`.
pub open spec fn spec_u64_at(data: Seq<u8>, off: int) -> u64 {
    vstd::bytes::spec_u64_from_le_bytes(data.subrange(off, off + 8))
}

/// Reads the little-endian `u64` at `data[off..off + 8]`.
pub fn read_u64_le(data: &[u8], off: usize) -> (r: u64)
    requires
        off + 8 <= data@.len(),
    ensures
        r == spec_u64_at(data@, off as int),
{
    let len = data.len();
    assert(off + 8 <= len);
    let s = vstd::slice::slice_subrange(data, off, off + 8);
    vstd::bytes::u64_from_le_bytes(s)
}

/// Why an account's data could not be read.
#[derive(Clone, Copy, Debug, PartialEq, Eq, Structural)]
pub enum LayoutError {
    /// The bonding curve account holds fewer bytes than its fixed part (the length is kept).
    BondingCurveTooSmall(usize),
    /// The Pump.fun global account holds fewer bytes than its fee recipient needs.
    GlobalTooSmall(usize),
}

/// What a bonding curve account holds, read as `parse_bonding_curve` reads it:
/// after the 8-byte discriminator and five `u64` reserves, the `complete` flag at 48; the
/// creator at 49..81 when the account is that long (older accounts lack it: zero address);
/// then the Mayhem flag in the byte after what was read, when present.
pub open spec fn spec_parse_bonding_curve(data: Seq<u8>) -> Result<(bool, Address, bool), LayoutError> {
    if data.len() < 49 {
        Err(LayoutError::BondingCurveTooSmall(data.len() as usize))
    } else {
        let complete = data[48] != 0;
        let has_creator = data.len() >= 81;
        let creator = if has_creator { address_of(data.subrange(49, 81)) } else { Address::spec_zero() };
        let flag_off: int = if has_creator { 81 } else { 49 };
        let mayhem = if data.len() >= flag_off + 1 { data[flag_off] != 0 } else { false };
        Ok((complete, creator, mayhem))
    }
}

/// Reads (complete, creator, is_mayhem_mode) from a Pump.fun bonding curve account.
pub fn parse_bonding_curve(data: &[u8]) -> (r: Result<(bool, Address, bool), LayoutError>)
    ensures
        r == spec_parse_bonding_curve(data@),
{
    if data.len() < 8 + 5 * 8 + 1 {
        return Err(LayoutError::BondingCurveTooSmall(data.len()));
    }
    let mut off: usize = 8;
    off = off + 5 * 8;
    let complete = data[off] != 0;
    off = off + 1;
    let mut creator = Address::zero();
    if data.len() >= off + 32 {
        creator = match pubkey_from_slice(data, off) {
            Some(a) => a,
            None => creator,
        };
        off = off + 32;
    }
    let is_mayhem_mode = if data.len() >= off + 1 { data[off] != 0 } else { false };
    Ok((complete, creator, is_mayhem_mode))
}

/// The fee recipient of the Pump.fun global account: after the discriminator (8), the
/// `initialized` flag (1) and the authority (32).
pub open spec fn spec_parse_global_fee_recipient(data: Seq<u8>) -> Result<Address, LayoutError> {
    if data.len() < 8 + 1 + 32 + 32 {
        Err(LayoutError::GlobalTooSmall(data.len() as usize))
    } else {
        Ok(address_of(data.subrange(41, 73)))
    }
}

/// Reads the fee recipient from the Pump.fun global account.
pub fn parse_global_fee_recipient(data: &[u8]) -> (r: Result<Address, LayoutError>)
    ensures
        r == spec_parse_global_fee_recipient(data@),
{
    if data.len() < 8 + 1 + 32 + 32 {
        return Err(LayoutError::GlobalTooSmall(data.len()));
    }
    let off: usize = 8 + 1 + 32;
    match pubkey_from_slice(data, off) {
        Some(a) => Ok(a),
        None => Err(LayoutError::GlobalTooSmall(data.len())),
    }
}

/// The first protocol fee recipient of a PumpSwap global config: after the discriminator
/// (8), admin (32), two fee `u64`s and the disable flags (1); the account must hold all
/// eight recipients.
pub open spec fn spec_parse_amm_global_config_fee_recipient(data: Seq<u8>) -> Option<Address> {
    if data.len() < 8 + 32 + 8 + 8 + 1 + 8 * 32 {
        None
    } else {
        Some(address_of(data.subrange(57, 89)))
    }
}

/// Reads the first protocol fee recipient of a PumpSwap global config account.
pub fn parse_amm_global_config_fee_recipient(data: &[u8]) -> (r: Option<Address>)
    ensures
        r == spec_parse_amm_global_config_fee_recipient(data@),
{
    if data.len() < 8 + 32 + 8 + 8 + 1 + 8 * 32 {
        return None;
    }
    let mut off: usize = 8;
    off = off + 32;
    off = off + 8;
    off = off + 8;
    off = off + 1;
    pubkey_from_slice(data, off)
}

/// The pool's base and quote token accounts: after the discriminator (8), bump (1),
/// index (2), and the creator, base mint, quote mint and LP mint (32 each).
pub open spec fn spec_parse_pool_accounts(data: Seq<u8>) -> Option<(Address, Address)> {
    if data.len() < 8 + 1 + 2 + 32 * 6 {
        None
    } else {
        Some((address_of(data.subrange(139, 171)), address_of(data.subrange(171, 203))))
    }
}

/// Reads (pool base token account, pool quote token account) from a PumpSwap pool.
pub fn parse_pool_accounts(data: &[u8]) -> (r: Option<(Address, Address)>)
    ensures
        r == spec_parse_pool_accounts(data@),
{
    if data.len() < 8 + 1 + 2 + 32 * 6 {
        return None;
    }
    let mut off: usize = 8;
    off = off + 1;
    off = off + 2;
    off = off + 32;
    off = off + 32;
    off = off + 32;
    off = off + 32;
    let pool_base = match pubkey_from_slice(data, off) {
        Some(a) => a,
        None => return None,
    };
    off = off + 32;
    let pool_quote = match pubkey_from_slice(data, off) {
        Some(a) => a,
        None => return None,
    };
    Some((pool_base, pool_quote))
}

/// The amount of an SPL token account: the little-endian `u64` at bytes 64..72.
pub open spec fn spec_parse_spl_token_amount(data: Seq<u8>) -> Option<u64> {
    if data.len() < 72 {
        None
    } else {
        Some(spec_u64_at(data, 64))
    }
}

/// Reads the amount of an SPL token account.
pub fn parse_spl_token_amount(data: &[u8]) -> (r: Option<u64>)
    ensures
        r == spec_parse_spl_token_amount(data@),
{
    if data.len() < 72 {
        return None;
    }
    Some(read_u64_le(data, 64))
}

/// Reading back what an account holds in its documented layout:
/// - a bonding curve (discriminator 8, five `u64` reserves and supply, `complete`, creator
///   32, Mayhem flag) gives its flag, creator and Mayhem flag;
/// - the Pump.fun global (discriminator 8, `initialized` 1, authority 32, fee recipient)
///   gives the fee recipient;
/// - a PumpSwap global config (discriminator 8, admin 32, two fees of 8, flags 1, then the
///   eight recipients) gives the first recipient;
/// - a pool (discriminator 8, bump 1, index 2, creator, base mint, quote mint, LP mint of
///   32 each, then the base and quote token accounts) gives its two token accounts;
/// - a token account (mint 32, owner 32, amount) gives the amount.
pub proof fn law_account_layouts(prefix: Seq<u8>, complete: u8, creator: Address, mayhem: u8, a: Address, b: Address, amount: u64, rest: Seq<u8>)
    ensures
        prefix.len() == 8 + 5 * 8 ==> spec_parse_bonding_curve(prefix + seq![complete] + creator@ + seq![mayhem] + rest)
            == Ok::<(bool, Address, bool), LayoutError>((complete != 0, creator, mayhem != 0)),
        prefix.len() == 8 + 1 + 32 ==> spec_parse_global_fee_recipient(prefix + a@ + rest) == Ok::<Address, LayoutError>(a),
        prefix.len() == 8 + 32 + 8 + 8 + 1 && rest.len() >= 7 * 32 ==> spec_parse_amm_global_config_fee_recipient(prefix + a@ + rest) == Some(a),
        prefix.len() == 8 + 1 + 2 + 4 * 32 ==> spec_parse_pool_accounts(prefix + a@ + b@ + rest) == Some((a, b)),
        prefix.len() == 32 + 32 ==> spec_parse_spl_token_amount(prefix + vstd::bytes::spec_u64_to_le_bytes(amount) + rest) == Some(amount),
{
    lemma_address_of_view(creator);
    lemma_address_of_view(a);
    lemma_address_of_view(b);
    vstd::bytes::lemma_auto_spec_u64_to_from_le_bytes();
    if prefix.len() == 8 + 5 * 8 {
        let d = prefix + seq![complete] + creator@ + seq![mayhem] + rest;
        assert(d.subrange(49, 81) =~= creator@);
        assert(d[48] == complete);
        assert(d[81] == mayhem);
    }
    if prefix.len() == 8 + 1 + 32 {
        let d = prefix + a@ + rest;
        assert(d.subrange(41, 73) =~= a@);
    }
    if prefix.len() == 8 + 32 + 8 + 8 + 1 && rest.len() >= 7 * 32 {
        let d = prefix + a@ + rest;
        assert(d.subrange(57, 89) =~= a@);
    }
    if prefix.len() == 8 + 1 + 2 + 4 * 32 {
        let d = prefix + a@ + b@ + rest;
        assert(d.subrange(139, 171) =~= a@);
        assert(d.subrange(171, 203) =~= b@);
    }
    if prefix.len() == 32 + 32 {
        let d = prefix + vstd::bytes::spec_u64_to_le_bytes(amount) + rest;
        assert(d.subrange(64, 72) =~= vstd::bytes::spec_u64_to_le_bytes(amount));
    }
}

} // verus!
