//! Trusted items: the calls into `solana-sdk`, `bincode`, `bs58`, `base64` and `serde_json`
//! that the verified code makes, each with the contract that the outside source shows.
use crate::address::{spec_compute_budget_program, spec_system_program, Address};
use crate::types::{
    AccountMeta, CompiledIx, Ix, IxModel, StreamEntry, StreamEntryModel, StreamTx, TableLookup,
};
use base64::Engine;
use vstd::prelude::*;

verus! {

#[verifier::external_type_specification]
#[verifier::external_body]
pub struct ExSdkInstruction(solana_sdk::instruction::Instruction);

#[verifier::external_type_specification]
#[verifier::external_body]
pub struct ExVersionedTransaction(solana_sdk::transaction::VersionedTransaction);

#[verifier::external_type_specification]
#[verifier::external_body]
pub struct ExCompiledInstruction(solana_sdk::instruction::CompiledInstruction);

#[verifier::external_type_specification]
#[verifier::external_body]
pub struct ExMessageAddressTableLookup(solana_sdk::message::v0::MessageAddressTableLookup);

// ---------------------------------------------------------------------------
// Program-derived addresses
// ---------------------------------------------------------------------------

/// Result of `Pubkey::try_find_program_address(seeds, program)`: the derived address, or
/// `None` when no bump seed gives an off-curve point or the seeds break the length limits.
pub uninterp spec fn spec_try_find_program_address(seeds: Seq<Seq<u8>>, program: Seq<u8>) -> Option<Seq<u8>>;

/// Calls `solana_sdk::pubkey::Pubkey::try_find_program_address` and keeps the address.
/// Claimed: the result is the named search result on these seeds and program; nothing is
/// claimed about which addresses it finds.
#[verifier::external_body]
pub(crate) fn try_find_program_address(seeds: &Vec<Vec<u8>>, program: &Address) -> (r: Option<Address>)
    ensures
        match r {
            Some(a) => spec_try_find_program_address(seeds.deep_view(), program@) == Some(a@),
            None => spec_try_find_program_address(seeds.deep_view(), program@) is None,
        },
{
    let refs: Vec<&[u8]> = seeds.iter().map(|s| s.as_slice()).collect();
    let program = solana_sdk::pubkey::Pubkey::new_from_array(program.bytes);
    solana_sdk::pubkey::Pubkey::try_find_program_address(&refs, &program)
        .map(|(k, _bump)| Address { bytes: k.to_bytes() })
}

// ---------------------------------------------------------------------------
// Base58 text of addresses and signatures
// ---------------------------------------------------------------------------

/// Result of `Pubkey::from_str`: the 32 decoded bytes, or `None` for text that is not
/// the base58 form of 32 bytes.
pub uninterp spec fn spec_parse_pubkey(text: Seq<char>) -> Option<Seq<u8>>;

/// Calls `<solana_sdk::pubkey::Pubkey as FromStr>::from_str`. Claimed: the result is the
/// named parse of the text.
#[verifier::external_body]
pub(crate) fn parse_pubkey(text: &str) -> (r: Option<Address>)
    ensures
        match r {
            Some(a) => spec_parse_pubkey(text@) == Some(a@),
            None => spec_parse_pubkey(text@) is None,
        },
{
    text.parse::<solana_sdk::pubkey::Pubkey>().ok().map(|k| Address { bytes: k.to_bytes() })
}

/// Result of `Pubkey`'s `Display`: the base58 text of 32 bytes.
pub uninterp spec fn spec_pubkey_base58(bytes: Seq<u8>) -> Seq<char>;

/// Calls `Pubkey::to_string` (base58). Claimed: the result is the named text of the bytes.
#[verifier::external_body]
pub(crate) fn pubkey_base58(a: &Address) -> (r: String)
    ensures
        r@ == spec_pubkey_base58(a@),
{
    solana_sdk::pubkey::Pubkey::new_from_array(a.bytes).to_string()
}

/// Result of `Signature::from_str`: the 64 decoded bytes, or `None` for text that is not
/// the base58 form of 64 bytes.
pub uninterp spec fn spec_parse_signature(text: Seq<char>) -> Option<Seq<u8>>;

/// Calls `<solana_sdk::signature::Signature as FromStr>::from_str`. Claimed: the result is
/// the named parse of the text.
#[verifier::external_body]
pub(crate) fn parse_signature(text: &str) -> (r: Option<[u8; 64]>)
    ensures
        match r {
            Some(b) => spec_parse_signature(text@) == Some(b@),
            None => spec_parse_signature(text@) is None,
        },
{
    text.parse::<solana_sdk::signature::Signature>().ok().map(|s| <[u8; 64]>::from(s))
}

/// Result of `bs58::decode(text).into_vec()`: the decoded bytes, or `None` when the text
/// holds a character outside the base58 alphabet.
pub uninterp spec fn spec_bs58_decode(text: Seq<char>) -> Option<Seq<u8>>;

/// Calls `bs58::decode(..).into_vec()`. Claimed: the result is the named decoding.
#[verifier::external_body]
pub(crate) fn bs58_decode(text: &str) -> (r: Option<Vec<u8>>)
    ensures
        match r {
            Some(v) => spec_bs58_decode(text@) == Some(v@),
            None => spec_bs58_decode(text@) is None,
        },
{
    bs58::decode(text).into_vec().ok()
}

/// Result of `bs58::encode(bytes).into_string()`.
pub uninterp spec fn spec_bs58_encode(bytes: Seq<u8>) -> Seq<char>;

/// Calls `bs58::encode(..).into_string()`. Claimed: the result is the named encoding.
#[verifier::external_body]
pub(crate) fn bs58_encode(bytes: &[u8]) -> (r: String)
    ensures
        r@ == spec_bs58_encode(bytes@),
{
    bs58::encode(bytes).into_string()
}

/// Result of `base64::engine::general_purpose::STANDARD.encode(bytes)`.
pub uninterp spec fn spec_base64_encode(bytes: Seq<u8>) -> Seq<char>;

/// Calls `general_purpose::STANDARD.encode`. Claimed: the result is the named encoding.
#[verifier::external_body]
pub(crate) fn base64_encode(bytes: &[u8]) -> (r: String)
    ensures
        r@ == spec_base64_encode(bytes@),
{
    base64::engine::general_purpose::STANDARD.encode(bytes)
}

/// Result of `serde_json::from_str::<Vec<u8>>(text)`: the array of bytes that the JSON text
/// holds, or `None` when it is not a JSON array of integers in 0..=255.
pub uninterp spec fn spec_json_byte_array(text: Seq<char>) -> Option<Seq<u8>>;

/// Calls `serde_json::from_str::<Vec<u8>>`. Claimed: the result is the named parse.
#[verifier::external_body]
pub(crate) fn json_byte_array(text: &str) -> (r: Option<Vec<u8>>)
    ensures
        match r {
            Some(v) => spec_json_byte_array(text@) == Some(v@),
            None => spec_json_byte_array(text@) is None,
        },
{
    serde_json::from_str::<Vec<u8>>(text).ok()
}

// ---------------------------------------------------------------------------
// Hashing
// ---------------------------------------------------------------------------

/// Result of `solana_sdk::hash::hash(data)` (SHA-256).
pub uninterp spec fn spec_sha256(data: Seq<u8>) -> Seq<u8>;

/// Calls `solana_sdk::hash::hash`. Claimed: the result is the named digest of the data.
#[verifier::external_body]
pub(crate) fn sha256(data: &[u8]) -> (r: [u8; 32])
    ensures
        r@ == spec_sha256(data@),
{
    solana_sdk::hash::hash(data).to_bytes()
}

// ---------------------------------------------------------------------------
// Keypairs and transactions
// ---------------------------------------------------------------------------

/// Whether `Keypair::from_bytes(bytes)` succeeds: the secret half derives the public half.
pub uninterp spec fn spec_keypair_bytes_valid(bytes: Seq<u8>) -> bool;

/// Calls `Keypair::from_bytes` and reports whether it succeeded. Claimed: the result is the
/// named validity of the bytes.
#[verifier::external_body]
pub(crate) fn keypair_bytes_valid(bytes: &[u8]) -> (r: bool)
    ensures
        r == spec_keypair_bytes_valid(bytes@),
{
    #[allow(deprecated)]
    let kp = solana_sdk::signature::Keypair::from_bytes(bytes);
    kp.is_ok()
}

/// Converts an instruction of the library into the SDK's, field by field.
#[verifier::external_body]
fn sdk_instruction(ix: &Ix) -> solana_sdk::instruction::Instruction {
    solana_sdk::instruction::Instruction {
        program_id: solana_sdk::pubkey::Pubkey::new_from_array(ix.program_id.bytes),
        accounts: ix.accounts.iter().map(|m| solana_sdk::instruction::AccountMeta {
            pubkey: solana_sdk::pubkey::Pubkey::new_from_array(m.pubkey.bytes),
            is_signer: m.is_signer,
            is_writable: m.is_writable,
        }).collect(),
        data: ix.data.clone(),
    }
}

/// Converts an SDK instruction into the library's, field by field.
#[verifier::external_body]
fn library_instruction(ix: solana_sdk::instruction::Instruction) -> Ix {
    Ix {
        program_id: Address { bytes: ix.program_id.to_bytes() },
        accounts: ix.accounts.iter().map(|m| AccountMeta {
            pubkey: Address { bytes: m.pubkey.to_bytes() },
            is_signer: m.is_signer,
            is_writable: m.is_writable,
        }).collect(),
        data: ix.data,
    }
}

/// Result of signing a legacy transaction of `ixs` with the payer's keypair bytes as the
/// only signer and fee payer, at `blockhash`, and serialising it with `bincode`; `None`
/// when serialisation fails.
pub uninterp spec fn spec_signed_transaction(ixs: Seq<IxModel>, keypair: Seq<u8>, blockhash: Seq<u8>) -> Option<Seq<u8>>;

/// Calls `Keypair::from_bytes`, `Transaction::new_signed_with_payer` and
/// `bincode::serialize`. The caller must hand a keypair that `from_bytes` accepts, make the
/// payer the only signer of every instruction, and keep the read-only accounts that do not
/// sign within 255 (the one header count that could then overflow), so that compiling and
/// signing the message cannot panic.
/// Claimed: the result is the named signed transaction bytes.
#[verifier::external_body]
pub(crate) fn sign_transaction(ixs: &Vec<Ix>, keypair: &[u8; 64], payer: &Address, blockhash: &[u8; 32]) -> (r: Option<Vec<u8>>)
    requires
        spec_keypair_bytes_valid(keypair@),
        keypair@.subrange(32, 64) == payer@,
        crate::tx::payer_is_only_signer(ixs.deep_view(), *payer),
        crate::tx::readonly_unsigned_keys(ixs.deep_view(), *payer).len() <= 255,
    ensures
        match r {
            Some(v) => spec_signed_transaction(ixs.deep_view(), keypair@, blockhash@) == Some(v@),
            None => spec_signed_transaction(ixs.deep_view(), keypair@, blockhash@) is None,
        },
{
    #[allow(deprecated)]
    let signer = solana_sdk::signature::Keypair::from_bytes(keypair).unwrap();
    let sdk_ixs: Vec<_> = ixs.iter().map(sdk_instruction).collect();
    let payer_key = solana_sdk::pubkey::Pubkey::new_from_array(payer.bytes);
    let bh = solana_sdk::hash::Hash::new_from_array(*blockhash);
    let tx = solana_sdk::transaction::Transaction::new_signed_with_payer(&sdk_ixs, Some(&payer_key), &[&signer], bh);
    bincode::serialize(&tx).ok()
}

// ---------------------------------------------------------------------------
// Instructions of the compute-budget and system programs
// ---------------------------------------------------------------------------

/// Calls `ComputeBudgetInstruction::set_compute_unit_limit`. Claimed, as its source builds
/// it: the compute-budget program, no accounts, data `[2]` followed by `units` in
/// little-endian order.
#[verifier::external_body]
pub(crate) fn set_compute_unit_limit(units: u32) -> (r: Ix)
    ensures
        r.program_id == spec_compute_budget_program(),
        r.accounts@.len() == 0,
        r.data@ == seq![2u8] + vstd::bytes::spec_u32_to_le_bytes(units),
{
    library_instruction(solana_sdk::compute_budget::ComputeBudgetInstruction::set_compute_unit_limit(units))
}

/// Calls `ComputeBudgetInstruction::set_compute_unit_price`. Claimed, as its source builds
/// it: the compute-budget program, no accounts, data `[3]` followed by `micro_lamports` in
/// little-endian order.
#[verifier::external_body]
pub(crate) fn set_compute_unit_price(micro_lamports: u64) -> (r: Ix)
    ensures
        r.program_id == spec_compute_budget_program(),
        r.accounts@.len() == 0,
        r.data@ == seq![3u8] + vstd::bytes::spec_u64_to_le_bytes(micro_lamports),
{
    library_instruction(solana_sdk::compute_budget::ComputeBudgetInstruction::set_compute_unit_price(micro_lamports))
}

/// Calls `system_instruction::transfer`. Claimed, as its source builds it: the system
/// program, `from` writable and signing, `to` writable, data the bincode of
/// `SystemInstruction::Transfer` (variant 2 as a little-endian `u32`, then the lamports).
#[verifier::external_body]
pub(crate) fn transfer(from: &Address, to: &Address, lamports: u64) -> (r: Ix)
    ensures
        r.program_id == spec_system_program(),
        r.accounts@ == seq![AccountMeta::spec_writable(*from, true), AccountMeta::spec_writable(*to, false)],
        r.data@ == vstd::bytes::spec_u32_to_le_bytes(2u32) + vstd::bytes::spec_u64_to_le_bytes(lamports),
{
    #[allow(deprecated)]
    let ix = solana_sdk::system_instruction::transfer(
        &solana_sdk::pubkey::Pubkey::new_from_array(from.bytes),
        &solana_sdk::pubkey::Pubkey::new_from_array(to.bytes),
        lamports,
    );
    library_instruction(ix)
}

// ---------------------------------------------------------------------------
// Address lookup tables
// ---------------------------------------------------------------------------

/// Whether `AddressLookupTable::deserialize(data)` succeeds: the bincode state is the
/// `LookupTable` variant (a little-endian `u32` 1), the authority's option tag at byte 21
/// is 0 or 1, and after the 56-byte metadata come whole 32-byte addresses.
pub open spec fn spec_lookup_table_decodes(data: Seq<u8>) -> bool {
    &&& data.len() >= 56
    &&& (data.len() - 56) % 32 == 0
    &&& data[0] == 1 && data[1] == 0 && data[2] == 0 && data[3] == 0
    &&& data[21] == 0 || data[21] == 1
}

/// Calls `AddressLookupTable::deserialize`. Claimed, as its source shows: it succeeds
/// exactly when the predicate above holds, and the addresses are then the 32-byte chunks
/// of the data after the 56-byte table metadata.
#[verifier::external_body]
pub(crate) fn decode_lookup_table(data: &[u8]) -> (r: Option<Vec<Address>>)
    ensures
        r is Some <==> spec_lookup_table_decodes(data@),
        r matches Some(v) ==> {
            &&& data@.len() >= 56
            &&& data@.len() - 56 == 32 * v@.len()
            &&& forall|i: int| 0 <= i < v@.len() ==> #[trigger] v@[i]@ == data@.subrange(56 + 32 * i, 56 + 32 * i + 32)
        },
{
    let t = solana_sdk::address_lookup_table::state::AddressLookupTable::deserialize(data).ok()?;
    Some(t.addresses.iter().map(|k| Address { bytes: k.to_bytes() }).collect())
}

// ---------------------------------------------------------------------------
// Shredstream entry batches
// ---------------------------------------------------------------------------

/// Converts the SDK's compiled instructions into the library's, field by field.
#[verifier::external_body]
fn stream_ixs(ixs: &[solana_sdk::instruction::CompiledInstruction]) -> Vec<CompiledIx> {
    ixs.iter().map(|i| CompiledIx {
        program_id_index: i.program_id_index,
        accounts: i.accounts.clone(),
        data: i.data.clone(),
    }).collect()
}

/// Converts the SDK's address-table lookups into the library's, field by field.
#[verifier::external_body]
fn stream_lookups(ls: &[solana_sdk::message::v0::MessageAddressTableLookup]) -> Vec<TableLookup> {
    ls.iter().map(|l| TableLookup {
        account_key: Address { bytes: l.account_key.to_bytes() },
        writable_indexes: l.writable_indexes.clone(),
        readonly_indexes: l.readonly_indexes.clone(),
    }).collect()
}

/// Converts an SDK transaction into the library's stream model, field by field (no
/// lookups for a legacy message).
#[verifier::external_body]
fn stream_tx(tx: &solana_sdk::transaction::VersionedTransaction) -> StreamTx {
    let m = &tx.message;
    StreamTx {
        signatures: tx.signatures.iter().map(|s| <[u8; 64]>::from(*s)).collect(),
        num_required_signatures: m.header().num_required_signatures,
        account_keys: m.static_account_keys().iter().map(|k| Address { bytes: k.to_bytes() }).collect(),
        instructions: stream_ixs(m.instructions()),
        recent_blockhash: m.recent_blockhash().to_bytes(),
        lookups: stream_lookups(m.address_table_lookups().unwrap_or(&[])),
    }
}

/// Result of `bincode::deserialize` of a shredstream entries batch (a sequence of
/// `solana_entry::entry::Entry`: hash count, hash, transactions), entry by entry; `None`
/// when the bytes do not decode.
pub uninterp spec fn spec_decode_entry_batch(bytes: Seq<u8>) -> Option<Seq<StreamEntryModel>>;

/// Calls `bincode::deserialize` on an entries batch, read with the field layout of
/// `solana_entry::entry::Entry` (`num_hashes: u64`, `hash: Hash`,
/// `transactions: Vec<VersionedTransaction>`). Claimed: the result is the named decoding.
#[verifier::external_body]
pub(crate) fn decode_entry_batch(bytes: &[u8]) -> (r: Option<Vec<StreamEntry>>)
    ensures
        match r {
            Some(v) => spec_decode_entry_batch(bytes@) == Some(v.deep_view()),
            None => spec_decode_entry_batch(bytes@) is None,
        },
{
    let entries: Vec<(u64, solana_sdk::hash::Hash, Vec<solana_sdk::transaction::VersionedTransaction>)> =
        bincode::deserialize(bytes).ok()?;
    Some(entries.iter().map(|e| StreamEntry {
        num_hashes: e.0,
        hash: e.1.to_bytes(),
        transactions: e.2.iter().map(stream_tx).collect(),
    }).collect())
}

// ---------------------------------------------------------------------------
// std
// ---------------------------------------------------------------------------

/// Calls `String::push`. Claimed: the character is appended.
#[verifier::external_body]
pub(crate) fn push_char(s: &mut String, c: char)
    ensures
        final(s)@ == old(s)@.push(c),
{
    s.push(c);
}

} // verus!
