//! Program-derived addresses, associated token accounts and the SPL token instructions the
//! bot adds to its transactions.
use crate::address::{address_of, associated_token_program, lemma_address_of_view, spec_associated_token_program, spec_system_program, spec_sysvar_rent, spec_token_program, system_program, sysvar_rent, token_program, Address};
use crate::sdk::{spec_try_find_program_address, try_find_program_address};
use crate::types::{AccountMeta, Ix, IxModel};
use vstd::prelude::*;

verus! {

/// The program-derived address of `seeds` under `program` (`None` when the SDK's search
/// finds no bump seed).
pub open spec fn spec_pda(program: Address, seeds: Seq<Seq<u8>>) -> Option<Address> {
    match spec_try_find_program_address(seeds, program@) {
        Some(b) => Some(address_of(b)),
        None => None,
    }
}

/// Derives the program address of `seeds` under `program`.
pub fn pda(program: &Address, seeds: &Vec<Vec<u8>>) -> (r: Option<Address>)
    ensures
        r == spec_pda(*program, seeds.deep_view()),
{
    let r = try_find_program_address(seeds, program);
    proof {
        if let Some(a) = r {
            lemma_address_of_view(a);
        }
    }
    r
}

/// Seeds made of one byte string.
pub fn seeds1(a: Vec<u8>) -> (r: Vec<Vec<u8>>)
    ensures
        r.deep_view() == seq![a@],
{
    let mut r: Vec<Vec<u8>> = Vec::new();
    let ghost va = a@;
    r.push(a);
    assert(r@[0].deep_view() =~= va);
    assert(r.deep_view() =~= seq![va]);
    r
}

/// Seeds made of two byte strings.
pub fn seeds2(a: Vec<u8>, b: Vec<u8>) -> (r: Vec<Vec<u8>>)
    ensures
        r.deep_view() == seq![a@, b@],
{
    let mut r: Vec<Vec<u8>> = Vec::new();
    let ghost (va, vb) = (a@, b@);
    r.push(a);
    r.push(b);
    assert(r@[0].deep_view() =~= va);
    assert(r@[1].deep_view() =~= vb);
    assert(r.deep_view() =~= seq![va, vb]);
    r
}

/// Seeds made of three byte strings.
pub fn seeds3(a: Vec<u8>, b: Vec<u8>, c: Vec<u8>) -> (r: Vec<Vec<u8>>)
    ensures
        r.deep_view() == seq![a@, b@, c@],
{
    let mut r: Vec<Vec<u8>> = Vec::new();
    let ghost (va, vb, vc) = (a@, b@, c@);
    r.push(a);
    r.push(b);
    r.push(c);
    assert(r@[0].deep_view() =~= va);
    assert(r@[1].deep_view() =~= vb);
    assert(r@[2].deep_view() =~= vc);
    assert(r.deep_view() =~= seq![va, vb, vc]);
    r
}

/// The associated token account of `owner` for `mint` under `token_program`.
pub open spec fn spec_ata(owner: Address, mint: Address, token_program: Address) -> Option<Address> {
    spec_pda(spec_associated_token_program(), seq![owner@, token_program@, mint@])
}

/// Derives the associated token account for (owner, mint, token program): the program
/// address of `[owner, token_program, mint]` under the Associated Token Account program.
pub fn ata(owner: &Address, mint: &Address, token_program: &Address) -> (r: Option<Address>)
    ensures
        r == spec_ata(*owner, *mint, *token_program),
{
    let seeds = seeds3(owner.to_vec(), token_program.to_vec(), mint.to_vec());
    pda(&associated_token_program(), &seeds)
}

/// The `CreateIdempotent` instruction of the Associated Token Account program for the
/// account `ata`.
pub open spec fn spec_ata_create_idempotent_ix(payer: Address, owner: Address, mint: Address, token_program: Address, ata: Address) -> IxModel {
    IxModel {
        program_id: spec_associated_token_program(),
        accounts: seq![
            AccountMeta::spec_writable(payer, true),
            AccountMeta::spec_writable(ata, false),
            AccountMeta::spec_readonly(owner, false),
            AccountMeta::spec_readonly(mint, false),
            AccountMeta::spec_readonly(spec_system_program(), false),
            AccountMeta::spec_readonly(token_program, false),
            AccountMeta::spec_readonly(spec_sysvar_rent(), false),
        ],
        data: seq![1u8],
    }
}

/// Builds the idempotent create instruction of the owner's associated token account
/// (it succeeds even when the account exists). `None` when the account cannot be derived.
pub fn ata_create_idempotent_ix(payer: &Address, owner: &Address, mint: &Address, token_program: &Address) -> (r: Option<Ix>)
    ensures
        match spec_ata(*owner, *mint, *token_program) {
            Some(a) => r matches Some(ix) && ix@ == spec_ata_create_idempotent_ix(*payer, *owner, *mint, *token_program, a),
            None => r is None,
        },
{
    let ata_addr = match ata(owner, mint, token_program) {
        Some(a) => a,
        None => return None,
    };
    let mut accounts: Vec<AccountMeta> = Vec::new();
    accounts.push(AccountMeta::writable(*payer, true));
    accounts.push(AccountMeta::writable(ata_addr, false));
    accounts.push(AccountMeta::readonly(*owner, false));
    accounts.push(AccountMeta::readonly(*mint, false));
    accounts.push(AccountMeta::readonly(system_program(), false));
    accounts.push(AccountMeta::readonly(*token_program, false));
    accounts.push(AccountMeta::readonly(sysvar_rent(), false));
    let mut data: Vec<u8> = Vec::new();
    data.push(1u8);
    let ix = Ix { program_id: associated_token_program(), accounts, data };
    assert(ix@.accounts =~= spec_ata_create_idempotent_ix(*payer, *owner, *mint, *token_program, ata_addr).accounts);
    assert(ix@.data =~= seq![1u8]);
    Some(ix)
}

/// The SPL Token `SyncNative` instruction for a wrapped-SOL account.
pub open spec fn spec_sync_native_ix(wsol_ata: Address) -> IxModel {
    IxModel {
        program_id: spec_token_program(),
        accounts: seq![AccountMeta::spec_writable(wsol_ata, false)],
        data: seq![17u8],
    }
}

/// Builds the SPL Token `SyncNative` instruction (legacy token program) for a WSOL account.
pub fn sync_native_ix(wsol_ata: &Address) -> (r: Ix)
    ensures
        r@ == spec_sync_native_ix(*wsol_ata),
{
    let mut accounts: Vec<AccountMeta> = Vec::new();
    accounts.push(AccountMeta::writable(*wsol_ata, false));
    let mut data: Vec<u8> = Vec::new();
    data.push(17u8);
    let ix = Ix { program_id: token_program(), accounts, data };
    assert(ix@.accounts =~= spec_sync_native_ix(*wsol_ata).accounts);
    assert(ix@.data =~= seq![17u8]);
    ix
}

/// The Mayhem-mode fee recipients (bonding curve and PumpSwap).
pub open spec fn spec_mayhem_fee_recipients() -> Seq<Address> {
    seq![
        Address { bytes: [232, 147, 20, 31, 177, 142, 159, 21, 116, 216, 16, 225, 120, 225, 158, 48, 96, 78, 49, 117, 170, 46, 74, 50, 223, 200, 96, 7, 39, 209, 7, 9] },
        Address { bytes: [53, 132, 83, 98, 86, 9, 79, 145, 40, 25, 18, 126, 250, 78, 68, 107, 67, 51, 114, 23, 147, 209, 56, 118, 249, 170, 219, 243, 220, 125, 11, 95] },
        Address { bytes: [110, 117, 1, 130, 32, 249, 66, 103, 112, 3, 35, 123, 77, 107, 69, 55, 89, 180, 165, 198, 144, 181, 156, 53, 217, 187, 24, 122, 9, 12, 189, 42] },
        Address { bytes: [51, 152, 122, 158, 187, 19, 103, 153, 171, 89, 146, 91, 19, 229, 220, 139, 48, 129, 223, 0, 93, 180, 39, 193, 71, 143, 164, 111, 248, 195, 71, 160] },
        Address { bytes: [116, 233, 84, 63, 62, 55, 162, 208, 70, 34, 122, 221, 203, 78, 156, 119, 76, 68, 37, 140, 67, 237, 242, 74, 168, 170, 225, 240, 2, 20, 102, 91] },
        Address { bytes: [218, 76, 56, 205, 109, 183, 67, 143, 89, 180, 8, 187, 158, 195, 180, 202, 158, 138, 209, 241, 242, 70, 83, 196, 153, 181, 121, 108, 32, 219, 249, 179] },
        Address { bytes: [45, 221, 158, 234, 63, 57, 179, 114, 17, 92, 113, 132, 124, 24, 69, 207, 165, 54, 198, 133, 7, 78, 3, 14, 68, 208, 33, 222, 62, 249, 227, 92] },
        Address { bytes: [76, 183, 128, 240, 142, 226, 254, 232, 75, 236, 68, 106, 87, 120, 37, 218, 104, 212, 57, 250, 138, 93, 163, 176, 197, 207, 245, 15, 99, 244, 84, 107] },
    ]
}

/// Base58 forms of the Mayhem-mode fee recipients.
pub const MAYHEM_FEE_RECIPIENT_IDS: [&'static str; 8] = [
    "GesfTA3X2arioaHp8bbKdjG9vJtskViWACZoYvxp4twS",
    "4budycTjhs9fD6xw62VBducVTNgMgJJ5BgtKq7mAZwn6",
    "8SBKzEQU4nLSzcwF4a74F2iaUDQyTfjGndn6qUWBnrpR",
    "4UQeTP1T39KZ9Sfxzo3WR5skgsaP6NZa87BAkuazLEKH",
    "8sNeir4QsLsJdYpc9RZacohhK1Y5FLU3nC5LXgYB4aa6",
    "Fh9HmeLNUMVCvejxCtCL2DbYaRyBFVJ5xrWkLnMH6fdk",
    "463MEnMeGyJekNZFQSTUABBEbLnvMTALbT6ZmsxAbAdq",
    "6AUH3WEHucYZyC61hqpqYUWVto5qA5hjHuNQ32GNnNxA",
];

/// The Mayhem-mode fee recipient at `idx` (the bot picks `idx` from the clock's nanoseconds
/// modulo 8).
pub fn mayhem_fee_recipient(idx: usize) -> (r: Address)
    requires
        idx < 8,
    ensures
        r == spec_mayhem_fee_recipients()[idx as int],
{
    if idx == 0 {
        Address { bytes: [232, 147, 20, 31, 177, 142, 159, 21, 116, 216, 16, 225, 120, 225, 158, 48, 96, 78, 49, 117, 170, 46, 74, 50, 223, 200, 96, 7, 39, 209, 7, 9] }
    } else if idx == 1 {
        Address { bytes: [53, 132, 83, 98, 86, 9, 79, 145, 40, 25, 18, 126, 250, 78, 68, 107, 67, 51, 114, 23, 147, 209, 56, 118, 249, 170, 219, 243, 220, 125, 11, 95] }
    } else if idx == 2 {
        Address { bytes: [110, 117, 1, 130, 32, 249, 66, 103, 112, 3, 35, 123, 77, 107, 69, 55, 89, 180, 165, 198, 144, 181, 156, 53, 217, 187, 24, 122, 9, 12, 189, 42] }
    } else if idx == 3 {
        Address { bytes: [51, 152, 122, 158, 187, 19, 103, 153, 171, 89, 146, 91, 19, 229, 220, 139, 48, 129, 223, 0, 93, 180, 39, 193, 71, 143, 164, 111, 248, 195, 71, 160] }
    } else if idx == 4 {
        Address { bytes: [116, 233, 84, 63, 62, 55, 162, 208, 70, 34, 122, 221, 203, 78, 156, 119, 76, 68, 37, 140, 67, 237, 242, 74, 168, 170, 225, 240, 2, 20, 102, 91] }
    } else if idx == 5 {
        Address { bytes: [218, 76, 56, 205, 109, 183, 67, 143, 89, 180, 8, 187, 158, 195, 180, 202, 158, 138, 209, 241, 242, 70, 83, 196, 153, 181, 121, 108, 32, 219, 249, 179] }
    } else if idx == 6 {
        Address { bytes: [45, 221, 158, 234, 63, 57, 179, 114, 17, 92, 113, 132, 124, 24, 69, 207, 165, 54, 198, 133, 7, 78, 3, 14, 68, 208, 33, 222, 62, 249, 227, 92] }
    } else {
        Address { bytes: [76, 183, 128, 240, 142, 226, 254, 232, 75, 236, 68, 106, 87, 120, 37, 218, 104, 212, 57, 250, 138, 93, 163, 176, 197, 207, 245, 15, 99, 244, 84, 107] }
    }
}

/// Picks a Mayhem-mode fee recipient from a clock reading (nanoseconds within the second),
/// spreading submissions over the eight recipients.
pub fn pick_mayhem_fee_recipient(subsec_nanos: u32) -> (r: Address)
    ensures
        r == spec_mayhem_fee_recipients()[(subsec_nanos % 8) as int],
{
    mayhem_fee_recipient((subsec_nanos % 8) as usize)
}

/// An associated token account is the program address of `[owner, token program, mint]`
/// (in that order) under the Associated Token Account program, and the idempotent create
/// instruction funds it from the payer: payer (signing, writable), the account (writable),
/// owner, mint, system program, token program, rent sysvar, data `[1]`.
pub proof fn law_ata_derivation(payer: Address, owner: Address, mint: Address, token_program: Address, ata_addr: Address)
    ensures
        spec_ata(owner, mint, token_program) == spec_pda(spec_associated_token_program(), seq![owner@, token_program@, mint@]),
        ({
            let ix = spec_ata_create_idempotent_ix(payer, owner, mint, token_program, ata_addr);
            &&& ix.program_id == spec_associated_token_program()
            &&& ix.data == seq![1u8]
            &&& ix.accounts.len() == 7
            &&& ix.accounts[0].pubkey == payer && ix.accounts[0].is_signer && ix.accounts[0].is_writable
            &&& ix.accounts[1].pubkey == ata_addr && !ix.accounts[1].is_signer && ix.accounts[1].is_writable
            &&& ix.accounts[2].pubkey == owner && ix.accounts[3].pubkey == mint
            &&& ix.accounts[4].pubkey == spec_system_program() && ix.accounts[5].pubkey == token_program
            &&& ix.accounts[6].pubkey == spec_sysvar_rent()
            &&& forall|i: int| 1 <= i < 7 ==> !(#[trigger] ix.accounts[i]).is_signer
            &&& forall|i: int| 2 <= i < 7 ==> !(#[trigger] ix.accounts[i]).is_writable
        }),
{
}

/// `SyncNative` of a WSOL account: the legacy token program, the account (writable, not
/// signing), data `[17]`.
pub proof fn law_sync_native(wsol_ata: Address)
    ensures
        ({
            let ix = spec_sync_native_ix(wsol_ata);
            &&& ix.program_id == spec_token_program()
            &&& ix.data == seq![17u8]
            &&& ix.accounts.len() == 1
            &&& ix.accounts[0].pubkey == wsol_ata && ix.accounts[0].is_writable && !ix.accounts[0].is_signer
        }),
{
}

} // verus!
