//! 32-byte account addresses and the well-known program addresses the bot works with.
use crate::sdk::{parse_pubkey, spec_parse_pubkey};
use vstd::prelude::*;

verus! {

/// A 32-byte Solana account address (public key).
#[derive(Clone, Copy, Debug)]
pub struct Address {
    pub bytes: [u8; 32],
}

impl View for Address {
    type V = Seq<u8>;

    open spec fn view(&self) -> Seq<u8> {
        self.bytes@
    }
}

impl Address {
    /// The all-zero address (`Pubkey::default()`).
    pub open spec fn spec_zero() -> Address {
        Address { bytes: [0, 0, 0, 0, 0, 0, 0, 0, 0, 0, 0, 0, 0, 0, 0, 0, 0, 0, 0, 0, 0, 0, 0, 0, 0, 0, 0, 0, 0, 0, 0, 0] }
    }

    /// The all-zero address (`Pubkey::default()`).
    pub fn zero() -> (r: Address)
        ensures
            r == Address::spec_zero(),
    {
        Address { bytes: [0, 0, 0, 0, 0, 0, 0, 0, 0, 0, 0, 0, 0, 0, 0, 0, 0, 0, 0, 0, 0, 0, 0, 0, 0, 0, 0, 0, 0, 0, 0, 0] }
    }

    /// Byte-wise comparison of two addresses.
    pub fn same(&self, other: &Address) -> (r: bool)
        ensures
            r == (*self == *other),
    {
        let mut i: usize = 0;
        while i < 32
            invariant
                0 <= i <= 32,
                forall|j: int| 0 <= j < i ==> self.bytes@[j] == other.bytes@[j],
            decreases 32 - i,
        {
            if self.bytes[i] != other.bytes[i] {
                return false;
            }
            i = i + 1;
        }
        assert(self.bytes =~= other.bytes);
        true
    }

    /// Whether this is the all-zero address.
    pub fn is_zero(&self) -> (r: bool)
        ensures
            r == (*self == Address::spec_zero()),
    {
        let z = Address::zero();
        self.same(&z)
    }
}

/// The address whose bytes are `bytes` (meaningful for 32 bytes).
pub open spec fn address_of(bytes: Seq<u8>) -> Address {
    choose|a: Address| a@ == bytes
}

/// An address is the address of its own bytes.
pub proof fn lemma_address_of_view(a: Address)
    ensures
        address_of(a@) == a,
{
    let b = address_of(a@);
    assert(b@ == a@);
    assert(b.bytes =~= a.bytes);
}

impl Address {
    /// The bytes as a vector.
    pub fn to_vec(&self) -> (r: Vec<u8>)
        ensures
            r@ == self@,
    {
        vstd::slice::slice_to_vec(self.bytes.as_slice())
    }
}

/// Whether `k` occurs in `keys`.
pub fn contains_address(keys: &Vec<Address>, k: &Address) -> (r: bool)
    ensures
        r == keys@.contains(*k),
{
    let mut i: usize = 0;
    while i < keys.len()
        invariant
            0 <= i <= keys.len(),
            forall|j: int| 0 <= j < i ==> keys@[j] != *k,
        decreases keys.len() - i,
    {
        if keys[i].same(k) {
            assert(keys@[i as int] == *k);
            return true;
        }
        i = i + 1;
    }
    false
}

/// Base58 form of the Pump.fun bonding-curve program.
pub const PUMPFUN_PROGRAM_ID: &'static str = "6EF8rrecthR5Dkzon8Nwu78hRvfCKubJ14M5uBEwF6P";

/// Pump.fun bonding-curve program.
pub open spec fn spec_pumpfun_program() -> Address {
    Address { bytes: [1, 86, 224, 246, 147, 102, 90, 207, 68, 219, 21, 104, 191, 23, 91, 170, 81, 137, 203, 151, 245, 210, 255, 59, 101, 93, 43, 182, 253, 109, 24, 176] }
}

/// Pump.fun bonding-curve program.
pub fn pumpfun_program() -> (r: Address)
    ensures
        r == spec_pumpfun_program(),
{
    Address { bytes: [1, 86, 224, 246, 147, 102, 90, 207, 68, 219, 21, 104, 191, 23, 91, 170, 81, 137, 203, 151, 245, 210, 255, 59, 101, 93, 43, 182, 253, 109, 24, 176] }
}

/// Base58 form of the PumpSwap (Pump AMM) program.
pub const PUMPFUN_AMM_PROGRAM_ID: &'static str = "pAMMBay6oceH9fJKBRHGP5D4bD4sWpmSwMn52FMfXEA";

/// PumpSwap (Pump AMM) program.
pub open spec fn spec_pumpfun_amm_program() -> Address {
    Address { bytes: [12, 20, 222, 252, 130, 94, 198, 118, 148, 37, 8, 24, 187, 101, 64, 101, 244, 41, 141, 49, 86, 213, 113, 180, 212, 248, 9, 12, 24, 233, 168, 99] }
}

/// PumpSwap (Pump AMM) program.
pub fn pumpfun_amm_program() -> (r: Address)
    ensures
        r == spec_pumpfun_amm_program(),
{
    Address { bytes: [12, 20, 222, 252, 130, 94, 198, 118, 148, 37, 8, 24, 187, 101, 64, 101, 244, 41, 141, 49, 86, 213, 113, 180, 212, 248, 9, 12, 24, 233, 168, 99] }
}

/// Base58 form of the Pump fees program, required by newer Pump trades.
pub const PUMPFUN_FEE_PROGRAM_ID: &'static str = "pfeeUxB6jkeY1Hxd7CsFCAjcbHA9rWtchMGdZ6VojVZ";

/// Pump fees program, required by newer Pump trades.
pub open spec fn spec_pumpfun_fee_program() -> Address {
    Address { bytes: [12, 53, 255, 169, 5, 90, 142, 86, 141, 168, 247, 188, 7, 86, 21, 39, 76, 241, 201, 44, 164, 31, 64, 0, 156, 81, 106, 164, 20, 194, 124, 112] }
}

/// Pump fees program, required by newer Pump trades.
pub fn pumpfun_fee_program() -> (r: Address)
    ensures
        r == spec_pumpfun_fee_program(),
{
    Address { bytes: [12, 53, 255, 169, 5, 90, 142, 86, 141, 168, 247, 188, 7, 86, 21, 39, 76, 241, 201, 44, 164, 31, 64, 0, 156, 81, 106, 164, 20, 194, 124, 112] }
}

/// Base58 form of the SPL Token program (legacy).
pub const TOKEN_PROGRAM_ID: &'static str = "TokenkegQfeZyiNwAJbNbGKPFXCWuBvf9Ss623VQ5DA";

/// SPL Token program (legacy).
pub open spec fn spec_token_program() -> Address {
    Address { bytes: [6, 221, 246, 225, 215, 101, 161, 147, 217, 203, 225, 70, 206, 235, 121, 172, 28, 180, 133, 237, 95, 91, 55, 145, 58, 140, 245, 133, 126, 255, 0, 169] }
}

/// SPL Token program (legacy).
pub fn token_program() -> (r: Address)
    ensures
        r == spec_token_program(),
{
    Address { bytes: [6, 221, 246, 225, 215, 101, 161, 147, 217, 203, 225, 70, 206, 235, 121, 172, 28, 180, 133, 237, 95, 91, 55, 145, 58, 140, 245, 133, 126, 255, 0, 169] }
}

/// Base58 form of the SPL Token-2022 program.
pub const TOKEN_2022_PROGRAM_ID: &'static str = "TokenzQdBNbLqP5VEhdkAS6EPFLC1PHnBqCXEpPxuEb";

/// SPL Token-2022 program.
pub open spec fn spec_token_2022_program() -> Address {
    Address { bytes: [6, 221, 246, 225, 238, 117, 143, 222, 24, 66, 93, 188, 228, 108, 205, 218, 182, 26, 252, 77, 131, 185, 13, 39, 254, 189, 249, 40, 216, 161, 139, 252] }
}

/// SPL Token-2022 program.
pub fn token_2022_program() -> (r: Address)
    ensures
        r == spec_token_2022_program(),
{
    Address { bytes: [6, 221, 246, 225, 238, 117, 143, 222, 24, 66, 93, 188, 228, 108, 205, 218, 182, 26, 252, 77, 131, 185, 13, 39, 254, 189, 249, 40, 216, 161, 139, 252] }
}

/// Base58 form of the Associated Token Account program.
pub const ASSOCIATED_TOKEN_PROGRAM_ID: &'static str = "ATokenGPvbdGVxr1b2hvZbsiqW5xWH25efTNsLJA8knL";

/// Associated Token Account program.
pub open spec fn spec_associated_token_program() -> Address {
    Address { bytes: [140, 151, 37, 143, 78, 36, 137, 241, 187, 61, 16, 41, 20, 142, 13, 131, 11, 90, 19, 153, 218, 255, 16, 132, 4, 142, 123, 216, 219, 233, 248, 89] }
}

/// Associated Token Account program.
pub fn associated_token_program() -> (r: Address)
    ensures
        r == spec_associated_token_program(),
{
    Address { bytes: [140, 151, 37, 143, 78, 36, 137, 241, 187, 61, 16, 41, 20, 142, 13, 131, 11, 90, 19, 153, 218, 255, 16, 132, 4, 142, 123, 216, 219, 233, 248, 89] }
}

/// Base58 form of the Wrapped SOL mint.
pub const WSOL_MINT_ID: &'static str = "So11111111111111111111111111111111111111112";

/// Wrapped SOL mint.
pub open spec fn spec_wsol_mint() -> Address {
    Address { bytes: [6, 155, 136, 87, 254, 171, 129, 132, 251, 104, 127, 99, 70, 24, 192, 53, 218, 196, 57, 220, 26, 235, 59, 85, 152, 160, 240, 0, 0, 0, 0, 1] }
}

/// Wrapped SOL mint.
pub fn wsol_mint() -> (r: Address)
    ensures
        r == spec_wsol_mint(),
{
    Address { bytes: [6, 155, 136, 87, 254, 171, 129, 132, 251, 104, 127, 99, 70, 24, 192, 53, 218, 196, 57, 220, 26, 235, 59, 85, 152, 160, 240, 0, 0, 0, 0, 1] }
}

/// Base58 form of the System program.
pub const SYSTEM_PROGRAM_ID: &'static str = "11111111111111111111111111111111";

/// System program.
pub open spec fn spec_system_program() -> Address {
    Address { bytes: [0, 0, 0, 0, 0, 0, 0, 0, 0, 0, 0, 0, 0, 0, 0, 0, 0, 0, 0, 0, 0, 0, 0, 0, 0, 0, 0, 0, 0, 0, 0, 0] }
}

/// System program.
pub fn system_program() -> (r: Address)
    ensures
        r == spec_system_program(),
{
    Address { bytes: [0, 0, 0, 0, 0, 0, 0, 0, 0, 0, 0, 0, 0, 0, 0, 0, 0, 0, 0, 0, 0, 0, 0, 0, 0, 0, 0, 0, 0, 0, 0, 0] }
}

/// Base58 form of the Rent sysvar.
pub const SYSVAR_RENT_ID: &'static str = "SysvarRent111111111111111111111111111111111";

/// Rent sysvar.
pub open spec fn spec_sysvar_rent() -> Address {
    Address { bytes: [6, 167, 213, 23, 25, 44, 92, 81, 33, 140, 201, 76, 61, 74, 241, 127, 88, 218, 238, 8, 155, 161, 253, 68, 227, 219, 217, 138, 0, 0, 0, 0] }
}

/// Rent sysvar.
pub fn sysvar_rent() -> (r: Address)
    ensures
        r == spec_sysvar_rent(),
{
    Address { bytes: [6, 167, 213, 23, 25, 44, 92, 81, 33, 140, 201, 76, 61, 74, 241, 127, 88, 218, 238, 8, 155, 161, 253, 68, 227, 219, 217, 138, 0, 0, 0, 0] }
}

/// Base58 form of the Instructions sysvar.
pub const SYSVAR_INSTRUCTIONS_ID: &'static str = "Sysvar1nstructions1111111111111111111111111";

/// Instructions sysvar.
pub open spec fn spec_sysvar_instructions() -> Address {
    Address { bytes: [6, 167, 213, 23, 24, 123, 209, 102, 53, 218, 212, 4, 85, 253, 194, 192, 193, 36, 198, 143, 33, 86, 117, 165, 219, 186, 203, 95, 8, 0, 0, 0] }
}

/// Instructions sysvar.
pub fn sysvar_instructions() -> (r: Address)
    ensures
        r == spec_sysvar_instructions(),
{
    Address { bytes: [6, 167, 213, 23, 24, 123, 209, 102, 53, 218, 212, 4, 85, 253, 194, 192, 193, 36, 198, 143, 33, 86, 117, 165, 219, 186, 203, 95, 8, 0, 0, 0] }
}

/// Base58 form of the Compute Budget program.
pub const COMPUTE_BUDGET_PROGRAM_ID: &'static str = "ComputeBudget111111111111111111111111111111";

/// Compute Budget program.
pub open spec fn spec_compute_budget_program() -> Address {
    Address { bytes: [3, 6, 70, 111, 229, 33, 23, 50, 255, 236, 173, 186, 114, 195, 155, 231, 188, 140, 229, 187, 197, 247, 18, 107, 44, 67, 155, 58, 64, 0, 0, 0] }
}

/// Compute Budget program.
pub fn compute_budget_program() -> (r: Address)
    ensures
        r == spec_compute_budget_program(),
{
    Address { bytes: [3, 6, 70, 111, 229, 33, 23, 50, 255, 236, 173, 186, 114, 195, 155, 231, 188, 140, 229, 187, 197, 247, 18, 107, 44, 67, 155, 58, 64, 0, 0, 0] }
}

/// Base58 form of the Axiom Trade wrapper program.
pub const AXIOM_PROGRAM_ID: &'static str = "FLASHX8DrLbgeR8FcfNV1F5krxYcYMUdBkrP1EPBtxB9";

/// Axiom Trade wrapper program.
pub open spec fn spec_axiom_program() -> Address {
    Address { bytes: [212, 236, 82, 84, 71, 221, 211, 147, 91, 138, 217, 212, 25, 189, 118, 23, 203, 175, 57, 222, 98, 74, 3, 111, 59, 144, 37, 130, 243, 66, 230, 160] }
}

/// Axiom Trade wrapper program.
pub fn axiom_program() -> (r: Address)
    ensures
        r == spec_axiom_program(),
{
    Address { bytes: [212, 236, 82, 84, 71, 221, 211, 147, 91, 138, 217, 212, 25, 189, 118, 23, 203, 175, 57, 222, 98, 74, 3, 111, 59, 144, 37, 130, 243, 66, 230, 160] }
}

/// Base58 form of the Trojan Trade program (its top-level instruction is mostly a fee transfer).
pub const TROJAN_PROGRAM_ID: &'static str = "troyXT7Ty3s2rjJe4bqWaroUrS4Fjd8rbHHNHxcACF4";

/// Trojan Trade program (its top-level instruction is mostly a fee transfer).
pub open spec fn spec_trojan_program() -> Address {
    Address { bytes: [13, 72, 241, 6, 95, 162, 137, 214, 96, 183, 57, 176, 135, 220, 214, 101, 111, 154, 254, 147, 190, 111, 29, 131, 218, 62, 63, 104, 201, 206, 126, 51] }
}

/// Trojan Trade program (its top-level instruction is mostly a fee transfer).
pub fn trojan_program() -> (r: Address)
    ensures
        r == spec_trojan_program(),
{
    Address { bytes: [13, 72, 241, 6, 95, 162, 137, 214, 96, 183, 57, 176, 135, 220, 214, 101, 111, 154, 254, 147, 190, 111, 29, 131, 218, 62, 63, 104, 201, 206, 126, 51] }
}

/// The Pump.fun program parsed from its base58 form (`None` if the text did not parse).
pub fn pump_curve_program() -> (r: Option<Address>)
    ensures
        match spec_parse_pubkey(PUMPFUN_PROGRAM_ID@) {
            Some(b) => r matches Some(a) && a@ == b,
            None => r is None,
        },
{
    parse_pubkey(PUMPFUN_PROGRAM_ID)
}

/// The PumpSwap program parsed from its base58 form (`None` if the text did not parse).
pub fn pump_amm_program() -> (r: Option<Address>)
    ensures
        match spec_parse_pubkey(PUMPFUN_AMM_PROGRAM_ID@) {
            Some(b) => r matches Some(a) && a@ == b,
            None => r is None,
        },
{
    parse_pubkey(PUMPFUN_AMM_PROGRAM_ID)
}

} // verus!
