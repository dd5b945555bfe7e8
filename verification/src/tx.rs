//! The payer's keypair and the signed transactions that the bot submits.
use crate::address::Address;
use crate::sdk::{keypair_bytes_valid, sign_transaction, spec_keypair_bytes_valid, spec_signed_transaction};
use crate::types::{AccountMeta, Ix, IxModel};
use vstd::prelude::*;

verus! {

/// The payer's ed25519 keypair: 32 secret bytes and the public key that they derive.
pub struct PayerKeypair {
    secret: [u8; 32],
    public: Address,
}

impl PayerKeypair {
    /// The 64 keypair bytes (secret, then public), as `Keypair::to_bytes` lays them out.
    pub closed spec fn key_bytes(&self) -> Seq<u8> {
        self.secret@ + self.public@
    }

    /// The public key (the payer's address).
    pub closed spec fn spec_pubkey(&self) -> Address {
        self.public
    }

    /// Keypair bytes are only held when the SDK accepts them.
    #[verifier::type_invariant]
    spec fn inv(self) -> bool {
        spec_keypair_bytes_valid(self.secret@ + self.public@)
    }

    /// Builds a keypair from its 64 bytes: `None` unless there are exactly 64 and the SDK's
    /// `Keypair::from_bytes` accepts them.
    pub fn from_bytes(bytes: &[u8]) -> (r: Option<PayerKeypair>)
        ensures
            r is Some <==> (bytes@.len() == 64 && spec_keypair_bytes_valid(bytes@)),
            r matches Some(k) ==> k.key_bytes() == bytes@ && k.spec_pubkey()@ == bytes@.subrange(32, 64),
    {
        if bytes.len() != 64 {
            return None;
        }
        if !keypair_bytes_valid(bytes) {
            return None;
        }
        let mut secret = [0u8; 32];
        let mut public = [0u8; 32];
        let mut i: usize = 0;
        while i < 32
            invariant
                bytes@.len() == 64,
                0 <= i <= 32,
                forall|j: int| 0 <= j < i ==> secret@[j] == bytes@[j],
                forall|j: int| 0 <= j < i ==> public@[j] == bytes@[32 + j],
            decreases 32 - i,
        {
            secret[i] = bytes[i];
            public[i] = bytes[32 + i];
            i = i + 1;
        }
        assert(secret@ + public@ =~= bytes@);
        assert(public@ =~= bytes@.subrange(32, 64));
        Some(PayerKeypair { secret, public: Address { bytes: public } })
    }

    /// The payer's address.
    pub fn pubkey(&self) -> (r: Address)
        ensures
            r == self.spec_pubkey(),
    {
        self.public
    }

    /// The 64 keypair bytes, for the signing call.
    fn bytes64(&self) -> (r: [u8; 64])
        ensures
            r@ == self.key_bytes(),
            r@.subrange(32, 64) == self.spec_pubkey()@,
            spec_keypair_bytes_valid(r@),
    {
        proof {
            use_type_invariant(self);
        }
        let mut out = [0u8; 64];
        let mut i: usize = 0;
        while i < 32
            invariant
                0 <= i <= 32,
                forall|j: int| 0 <= j < i ==> out@[j] == self.secret@[j],
                forall|j: int| 0 <= j < i ==> out@[32 + j] == self.public@[j],
            decreases 32 - i,
        {
            out[i] = self.secret[i];
            out[32 + i] = self.public.bytes[i];
            i = i + 1;
        }
        assert(out@ =~= self.secret@ + self.public@);
        assert(out@.subrange(32, 64) =~= self.public@);
        out
    }
}

/// The accounts that an instruction references: its program, then its metas.
pub open spec fn ix_keys(ix: IxModel) -> Seq<Address> {
    seq![ix.program_id] + ix.accounts.map_values(|m: AccountMeta| m.pubkey)
}

/// The accounts that a transaction of `ixs` paid by `payer` references, with repeats.
pub open spec fn tx_keys(ixs: Seq<IxModel>, payer: Address) -> Seq<Address>
    decreases ixs.len(),
{
    if ixs.len() == 0 {
        seq![payer]
    } else {
        tx_keys(ixs.drop_last(), payer) + ix_keys(ixs.last())
    }
}

/// Every signing account of every instruction is the payer.
pub open spec fn payer_is_only_signer(ixs: Seq<IxModel>, payer: Address) -> bool {
    forall|i: int, j: int|
        0 <= i < ixs.len() && 0 <= j < ixs[i].accounts.len() && #[trigger] ixs[i].accounts[j].is_signer
            ==> ixs[i].accounts[j].pubkey == payer
}

/// Some instruction passes `k` as a writable account.
pub open spec fn key_is_writable(ixs: Seq<IxModel>, k: Address) -> bool {
    exists|i: int, j: int|
        0 <= i < ixs.len() && 0 <= j < ixs[i].accounts.len() && #[trigger] ixs[i].accounts[j].pubkey == k && ixs[i].accounts[j].is_writable
}

/// The accounts of a transaction, other than the payer, that are neither writable nor
/// signing (the message header counts them in one byte).
pub open spec fn readonly_unsigned_keys(ixs: Seq<IxModel>, payer: Address) -> Set<Address> {
    tx_keys(ixs, payer).to_set().filter(|k: Address| k != payer && !key_is_writable(ixs, k))
}

/// Why a transaction could not be built.
#[derive(Clone, Copy, Debug, PartialEq, Eq, Structural)]
pub enum TxBuildError {
    /// An instruction asks for a signature from an account other than the payer.
    ForeignSigner,
    /// The message would reference more than 255 distinct read-only accounts that do not
    /// sign, more than its header can count.
    TooManyAccounts,
    /// The signed transaction did not serialise.
    Serialize,
}

/// The bytes `build_signed_tx` produces for these instructions, or the error it reports.
pub open spec fn spec_build_signed_tx(ixs: Seq<IxModel>, payer: PayerKeypair, blockhash: Seq<u8>) -> Result<Seq<u8>, TxBuildError> {
    if !payer_is_only_signer(ixs, payer.spec_pubkey()) {
        Err(TxBuildError::ForeignSigner)
    } else if readonly_unsigned_keys(ixs, payer.spec_pubkey()).len() > 255 {
        Err(TxBuildError::TooManyAccounts)
    } else {
        match spec_signed_transaction(ixs, payer.key_bytes(), blockhash) {
            Some(b) => Ok(b),
            None => Err(TxBuildError::Serialize),
        }
    }
}

/// Whether every signing account of every instruction is the payer.
fn check_only_payer_signs(ixs: &Vec<Ix>, payer: &Address) -> (r: bool)
    ensures
        r == payer_is_only_signer(ixs.deep_view(), *payer),
{
    let mut i: usize = 0;
    while i < ixs.len()
        invariant
            0 <= i <= ixs.len(),
            forall|a: int, b: int|
                0 <= a < i && 0 <= b < ixs.deep_view()[a].accounts.len() && #[trigger] ixs.deep_view()[a].accounts[b].is_signer
                    ==> ixs.deep_view()[a].accounts[b].pubkey == *payer,
        decreases ixs.len() - i,
    {
        let ix = &ixs[i];
        let mut j: usize = 0;
        while j < ix.accounts.len()
            invariant
                0 <= i < ixs.len(),
                ix == &ixs@[i as int],
                0 <= j <= ix.accounts.len(),
                forall|b: int| 0 <= b < j && #[trigger] ix.accounts@[b].is_signer ==> ix.accounts@[b].pubkey == *payer,
            decreases ix.accounts.len() - j,
        {
            let m = ix.accounts[j];
            if m.is_signer && !m.pubkey.same(payer) {
                assert(ixs.deep_view()[i as int].accounts[j as int].is_signer);
                return false;
            }
            j = j + 1;
        }
        i = i + 1;
    }
    true
}

/// Lists the accounts a transaction references, with repeats, in `tx_keys` order.
fn all_tx_keys(ixs: &Vec<Ix>, payer: &Address) -> (r: Vec<Address>)
    ensures
        r@ == tx_keys(ixs.deep_view(), *payer),
{
    let mut all: Vec<Address> = Vec::new();
    all.push(*payer);
    let mut i: usize = 0;
    while i < ixs.len()
        invariant
            0 <= i <= ixs.len(),
            all@ == tx_keys(ixs.deep_view().take(i as int), *payer),
        decreases ixs.len() - i,
    {
        let ix = &ixs[i];
        let ghost base = all@;
        all.push(ix.program_id);
        let mut j: usize = 0;
        while j < ix.accounts.len()
            invariant
                0 <= i < ixs.len(),
                ix == &ixs@[i as int],
                0 <= j <= ix.accounts.len(),
                all@ == base + seq![ix.program_id] + ix.accounts@.take(j as int).map_values(|m: AccountMeta| m.pubkey),
            decreases ix.accounts.len() - j,
        {
            all.push(ix.accounts[j].pubkey);
            assert(ix.accounts@.take(j + 1).map_values(|m: AccountMeta| m.pubkey) =~= ix.accounts@.take(j as int).map_values(|m: AccountMeta| m.pubkey).push(ix.accounts@[j as int].pubkey));
            j = j + 1;
        }
        assert(ix.accounts@.take(j as int) =~= ix.accounts@);
        assert(ixs.deep_view().take(i + 1).drop_last() =~= ixs.deep_view().take(i as int));
        assert(ixs.deep_view().take(i + 1).last() == ixs@[i as int]@);
        i = i + 1;
    }
    assert(ixs.deep_view().take(i as int) =~= ixs.deep_view());
    all
}

/// Whether some instruction passes `k` as a writable account.
fn writable_in(ixs: &Vec<Ix>, k: &Address) -> (r: bool)
    ensures
        r == key_is_writable(ixs.deep_view(), *k),
{
    let mut i: usize = 0;
    while i < ixs.len()
        invariant
            0 <= i <= ixs.len(),
            forall|a: int, b: int|
                0 <= a < i && 0 <= b < ixs.deep_view()[a].accounts.len() && #[trigger] ixs.deep_view()[a].accounts[b].pubkey == *k
                    ==> !ixs.deep_view()[a].accounts[b].is_writable,
        decreases ixs.len() - i,
    {
        let ix = &ixs[i];
        let mut j: usize = 0;
        while j < ix.accounts.len()
            invariant
                0 <= i < ixs.len(),
                ix == &ixs@[i as int],
                0 <= j <= ix.accounts.len(),
                forall|b: int| 0 <= b < j && #[trigger] ix.accounts@[b].pubkey == *k ==> !ix.accounts@[b].is_writable,
            decreases ix.accounts.len() - j,
        {
            let m = ix.accounts[j];
            if m.is_writable && m.pubkey.same(k) {
                assert(ixs.deep_view()[i as int].accounts[j as int].pubkey == *k);
                return true;
            }
            j = j + 1;
        }
        i = i + 1;
    }
    false
}

/// The keys, other than the payer, that no instruction passes as writable, in order.
fn readonly_unsigned(ixs: &Vec<Ix>, keys: &Vec<Address>, payer: &Address) -> (r: Vec<Address>)
    ensures
        forall|k: Address| r@.contains(k) <==> (keys@.contains(k) && k != *payer && !key_is_writable(ixs.deep_view(), k)),
{
    let mut out: Vec<Address> = Vec::new();
    let mut i: usize = 0;
    while i < keys.len()
        invariant
            0 <= i <= keys.len(),
            forall|k: Address| out@.contains(k) <==> (keys@.take(i as int).contains(k) && k != *payer && !key_is_writable(ixs.deep_view(), k)),
        decreases keys.len() - i,
    {
        let k = keys[i];
        let ghost prev = out@;
        if !k.same(payer) && !writable_in(ixs, &k) {
            out.push(k);
        }
        proof {
            broadcast use vstd::seq_lib::group_seq_properties;
            assert(keys@.take(i + 1) =~= keys@.take(i as int).push(k));
            assert(out@ == prev || out@ =~= prev.push(k));
        }
        i = i + 1;
    }
    assert(keys@.take(i as int) =~= keys@);
    out
}

/// Number of distinct accounts in `keys`.
fn count_distinct(keys: &Vec<Address>) -> (r: usize)
    ensures
        r == keys@.to_set().len(),
{
    let mut seen: Vec<Address> = Vec::new();
    let mut i: usize = 0;
    while i < keys.len()
        invariant
            0 <= i <= keys.len(),
            seen@.no_duplicates(),
            forall|k: Address| seen@.contains(k) <==> keys@.take(i as int).contains(k),
        decreases keys.len() - i,
    {
        let k = keys[i];
        let ghost prev = seen@;
        if !crate::address::contains_address(&seen, &k) {
            seen.push(k);
            proof {
                assert forall|a: int, b: int| 0 <= a < b < seen@.len() implies seen@[a] != seen@[b] by {
                    if b == seen@.len() - 1 {
                        assert(prev.contains(seen@[a]));
                    }
                }
            }
        }
        proof {
            broadcast use vstd::seq_lib::group_seq_properties;
            assert(keys@.take(i + 1) =~= keys@.take(i as int).push(k));
            assert(seen@ == prev || seen@ =~= prev.push(k));
        }
        i = i + 1;
    }
    assert(keys@.take(i as int) =~= keys@);
    proof {
        seen@.unique_seq_to_set();
        assert(seen@.to_set() =~= keys@.to_set());
    }
    seen.len()
}

/// Signs and serialises a legacy transaction of `ixs` paid and signed by `payer` at
/// `blockhash`. Refuses, rather than panicking as the SDK would, instructions that want
/// another signer or that reference more than 255 distinct read-only accounts that do not
/// sign.
pub fn build_signed_tx(ixs: &Vec<Ix>, payer: &PayerKeypair, blockhash: &[u8; 32]) -> (r: Result<Vec<u8>, TxBuildError>)
    ensures
        match r {
            Ok(v) => spec_build_signed_tx(ixs.deep_view(), *payer, blockhash@) == Ok::<Seq<u8>, TxBuildError>(v@),
            Err(e) => spec_build_signed_tx(ixs.deep_view(), *payer, blockhash@) == Err::<Seq<u8>, TxBuildError>(e),
        },
{
    let pk = payer.pubkey();
    if !check_only_payer_signs(ixs, &pk) {
        return Err(TxBuildError::ForeignSigner);
    }
    let keys = all_tx_keys(ixs, &pk);
    let ro = readonly_unsigned(ixs, &keys, &pk);
    let n = count_distinct(&ro);
    assert(ro@.to_set() =~= readonly_unsigned_keys(ixs.deep_view(), pk));
    if n > 255 {
        return Err(TxBuildError::TooManyAccounts);
    }
    let kp = payer.bytes64();
    match sign_transaction(ixs, &kp, &pk, blockhash) {
        Some(v) => Ok(v),
        None => Err(TxBuildError::Serialize),
    }
}

} // verus!
