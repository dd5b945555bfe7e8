//! Plain-value models of Solana instructions and stream transactions, and the trade signal
//! that the monitor hands to the executor.
use crate::address::Address;
use vstd::prelude::*;

verus! {

/// One account reference of an instruction.
#[derive(Clone, Copy, Debug)]
pub struct AccountMeta {
    pub pubkey: Address,
    pub is_signer: bool,
    pub is_writable: bool,
}

impl AccountMeta {
    /// A writable account (`AccountMeta::new`).
    pub open spec fn spec_writable(pubkey: Address, is_signer: bool) -> AccountMeta {
        AccountMeta { pubkey, is_signer, is_writable: true }
    }

    /// A read-only account (`AccountMeta::new_readonly`).
    pub open spec fn spec_readonly(pubkey: Address, is_signer: bool) -> AccountMeta {
        AccountMeta { pubkey, is_signer, is_writable: false }
    }

    /// A writable account (`AccountMeta::new`).
    pub fn writable(pubkey: Address, is_signer: bool) -> (r: AccountMeta)
        ensures
            r == AccountMeta::spec_writable(pubkey, is_signer),
    {
        AccountMeta { pubkey, is_signer, is_writable: true }
    }

    /// A read-only account (`AccountMeta::new_readonly`).
    pub fn readonly(pubkey: Address, is_signer: bool) -> (r: AccountMeta)
        ensures
            r == AccountMeta::spec_readonly(pubkey, is_signer),
    {
        AccountMeta { pubkey, is_signer, is_writable: false }
    }
}

/// An instruction to be placed in a transaction.
#[derive(Clone, Debug)]
pub struct Ix {
    pub program_id: Address,
    pub accounts: Vec<AccountMeta>,
    pub data: Vec<u8>,
}

/// Mathematical value of an [`Ix`].
pub struct IxModel {
    pub program_id: Address,
    pub accounts: Seq<AccountMeta>,
    pub data: Seq<u8>,
}

impl View for Ix {
    type V = IxModel;

    open spec fn view(&self) -> IxModel {
        IxModel { program_id: self.program_id, accounts: self.accounts@, data: self.data@ }
    }
}

impl DeepView for Ix {
    type V = IxModel;

    open spec fn deep_view(&self) -> IxModel {
        self@
    }
}

/// A compiled instruction of a stream transaction: indexes into the message's account keys.
#[derive(Clone, Debug)]
pub struct CompiledIx {
    pub program_id_index: u8,
    pub accounts: Vec<u8>,
    pub data: Vec<u8>,
}

/// Mathematical value of a [`CompiledIx`].
pub struct CompiledIxModel {
    pub program_id_index: u8,
    pub accounts: Seq<u8>,
    pub data: Seq<u8>,
}

impl View for CompiledIx {
    type V = CompiledIxModel;

    open spec fn view(&self) -> CompiledIxModel {
        CompiledIxModel {
            program_id_index: self.program_id_index,
            accounts: self.accounts@,
            data: self.data@,
        }
    }
}

impl DeepView for CompiledIx {
    type V = CompiledIxModel;

    open spec fn deep_view(&self) -> CompiledIxModel {
        self@
    }
}

/// An address-table lookup of a v0 message.
#[derive(Clone, Debug)]
pub struct TableLookup {
    pub account_key: Address,
    pub writable_indexes: Vec<u8>,
    pub readonly_indexes: Vec<u8>,
}

/// Mathematical value of a [`TableLookup`].
pub struct TableLookupModel {
    pub account_key: Address,
    pub writable_indexes: Seq<u8>,
    pub readonly_indexes: Seq<u8>,
}

impl View for TableLookup {
    type V = TableLookupModel;

    open spec fn view(&self) -> TableLookupModel {
        TableLookupModel {
            account_key: self.account_key,
            writable_indexes: self.writable_indexes@,
            readonly_indexes: self.readonly_indexes@,
        }
    }
}

impl DeepView for TableLookup {
    type V = TableLookupModel;

    open spec fn deep_view(&self) -> TableLookupModel {
        self@
    }
}

/// What the monitor reads of a stream transaction (a legacy or v0 message with its
/// signatures). `lookups` is empty for a legacy message.
#[derive(Clone, Debug)]
pub struct StreamTx {
    pub signatures: Vec<[u8; 64]>,
    pub num_required_signatures: u8,
    pub account_keys: Vec<Address>,
    pub instructions: Vec<CompiledIx>,
    pub recent_blockhash: [u8; 32],
    pub lookups: Vec<TableLookup>,
}

/// Mathematical value of a [`StreamTx`].
pub struct StreamTxModel {
    pub signatures: Seq<[u8; 64]>,
    pub num_required_signatures: u8,
    pub account_keys: Seq<Address>,
    pub instructions: Seq<CompiledIxModel>,
    pub recent_blockhash: Seq<u8>,
    pub lookups: Seq<TableLookupModel>,
}

impl View for StreamTx {
    type V = StreamTxModel;

    open spec fn view(&self) -> StreamTxModel {
        StreamTxModel {
            signatures: self.signatures@,
            num_required_signatures: self.num_required_signatures,
            account_keys: self.account_keys@,
            instructions: self.instructions.deep_view(),
            recent_blockhash: self.recent_blockhash@,
            lookups: self.lookups.deep_view(),
        }
    }
}

impl DeepView for StreamTx {
    type V = StreamTxModel;

    open spec fn deep_view(&self) -> StreamTxModel {
        self@
    }
}

/// One entry of a shredstream batch: its hash count, its hash and its transactions.
#[derive(Clone, Debug)]
pub struct StreamEntry {
    pub num_hashes: u64,
    pub hash: [u8; 32],
    pub transactions: Vec<StreamTx>,
}

/// Mathematical value of a [`StreamEntry`].
pub struct StreamEntryModel {
    pub num_hashes: u64,
    pub hash: Seq<u8>,
    pub transactions: Seq<StreamTxModel>,
}

impl View for StreamEntry {
    type V = StreamEntryModel;

    open spec fn view(&self) -> StreamEntryModel {
        StreamEntryModel { num_hashes: self.num_hashes, hash: self.hash@, transactions: self.transactions.deep_view() }
    }
}

impl DeepView for StreamEntry {
    type V = StreamEntryModel;

    open spec fn deep_view(&self) -> StreamEntryModel {
        self@
    }
}

/// The first signature of a transaction, or 64 zero bytes when it has none.
pub open spec fn spec_first_signature(tx: StreamTxModel) -> Seq<u8> {
    if tx.signatures.len() > 0 {
        tx.signatures[0]@
    } else {
        Seq::new(64, |_i: int| 0u8)
    }
}

impl CompiledIx {
    /// A copy of the instruction.
    pub fn copy(&self) -> (r: CompiledIx)
        ensures
            r@ == self@,
    {
        CompiledIx { program_id_index: self.program_id_index, accounts: self.accounts.clone(), data: self.data.clone() }
    }
}

impl TableLookup {
    /// A copy of the lookup.
    pub fn copy(&self) -> (r: TableLookup)
        ensures
            r@ == self@,
    {
        TableLookup { account_key: self.account_key, writable_indexes: self.writable_indexes.clone(), readonly_indexes: self.readonly_indexes.clone() }
    }
}

impl StreamTx {
    /// The first signature, or 64 zero bytes when there is none.
    pub fn first_signature(&self) -> (r: [u8; 64])
        ensures
            r@ == spec_first_signature(self@),
    {
        if self.signatures.len() > 0 {
            self.signatures[0]
        } else {
            let z = [0u8; 64];
            assert(z@ =~= Seq::new(64, |_i: int| 0u8));
            z
        }
    }

    /// A copy of the transaction.
    pub fn copy(&self) -> (r: StreamTx)
        ensures
            r@ == self@,
    {
        let mut instructions: Vec<CompiledIx> = Vec::new();
        let mut i: usize = 0;
        while i < self.instructions.len()
            invariant
                0 <= i <= self.instructions@.len(),
                instructions.deep_view() =~= self.instructions.deep_view().take(i as int),
            decreases self.instructions.len() - i,
        {
            let c = self.instructions[i].copy();
            let ghost prev = instructions.deep_view();
            instructions.push(c);
            assert(instructions.deep_view() =~= prev.push(self.instructions@[i as int]@));
            assert(self.instructions.deep_view().take(i + 1) =~= self.instructions.deep_view().take(i as int).push(self.instructions@[i as int]@));
            i = i + 1;
        }
        let mut lookups: Vec<TableLookup> = Vec::new();
        let mut j: usize = 0;
        while j < self.lookups.len()
            invariant
                0 <= j <= self.lookups@.len(),
                lookups.deep_view() =~= self.lookups.deep_view().take(j as int),
            decreases self.lookups.len() - j,
        {
            let c = self.lookups[j].copy();
            let ghost prev = lookups.deep_view();
            lookups.push(c);
            assert(lookups.deep_view() =~= prev.push(self.lookups@[j as int]@));
            assert(self.lookups.deep_view().take(j + 1) =~= self.lookups.deep_view().take(j as int).push(self.lookups@[j as int]@));
            j = j + 1;
        }
        assert(self.instructions.deep_view().take(i as int) =~= self.instructions.deep_view());
        assert(self.lookups.deep_view().take(j as int) =~= self.lookups.deep_view());
        let mut signatures: Vec<[u8; 64]> = Vec::new();
        let mut k: usize = 0;
        while k < self.signatures.len()
            invariant
                0 <= k <= self.signatures@.len(),
                signatures@ =~= self.signatures@.take(k as int),
            decreases self.signatures.len() - k,
        {
            signatures.push(self.signatures[k]);
            assert(self.signatures@.take(k + 1) =~= self.signatures@.take(k as int).push(self.signatures@[k as int]));
            k = k + 1;
        }
        assert(self.signatures@.take(k as int) =~= self.signatures@);
        StreamTx {
            signatures,
            num_required_signatures: self.num_required_signatures,
            account_keys: self.account_keys.clone(),
            instructions,
            recent_blockhash: self.recent_blockhash,
            lookups,
        }
    }
}

/// Which detector produced a trade signal.
#[derive(Clone, Copy, Debug, PartialEq, Eq, Structural)]
pub enum SignalSource {
    /// A top-level Pump.fun buy instruction.
    CurveDirectBuy,
    /// A Pump.fun buy invoked under the Axiom wrapper.
    CurveCpiBuy,
    /// A PumpSwap buy through the Axiom wrapper.
    AmmAxiomBuy,
    /// A Pump.fun curve trade inferred from its program-derived addresses.
    CurvePdaBuyish,
    /// A mint found by asking the RPC node which accounts are mints.
    RpcBuyish,
    /// A wrapper/router instruction to be mirrored as it is.
    WrapperMirror,
}

impl SignalSource {
    /// The label logged for this source.
    pub open spec fn spec_label(self) -> Seq<char> {
        match self {
            SignalSource::CurveDirectBuy => "curve_direct_buy"@,
            SignalSource::CurveCpiBuy => "curve_cpi_buy"@,
            SignalSource::AmmAxiomBuy => "amm_axiom_buy"@,
            SignalSource::CurvePdaBuyish => "curve_pda_buyish"@,
            SignalSource::RpcBuyish => "rpc_buyish"@,
            SignalSource::WrapperMirror => "wrapper_mirror"@,
        }
    }

    /// The label logged for this source.
    pub fn as_str(&self) -> (r: &'static str)
        ensures
            r@ == self.spec_label(),
    {
        match self {
            SignalSource::CurveDirectBuy => "curve_direct_buy",
            SignalSource::CurveCpiBuy => "curve_cpi_buy",
            SignalSource::AmmAxiomBuy => "amm_axiom_buy",
            SignalSource::CurvePdaBuyish => "curve_pda_buyish",
            SignalSource::RpcBuyish => "rpc_buyish",
            SignalSource::WrapperMirror => "wrapper_mirror",
        }
    }
}

/// A detected leader buy, with what the executor needs to mirror it without RPC calls.
#[derive(Clone, Debug)]
pub struct TradeSignal {
    pub slot: u64,
    pub leader: Address,
    pub mint: Address,
    pub signature: [u8; 64],
    pub source: SignalSource,
    /// Leader transaction's blockhash, for builds that need no RPC.
    pub recent_blockhash: Option<[u8; 32]>,
    /// Accounts of the leader instruction that is mirrored.
    pub leader_ix_accounts: Option<Vec<Address>>,
    /// Leader's spendable SOL input of a direct curve buy.
    pub leader_in: Option<u64>,
    /// Leader's minimum token output of a direct curve buy.
    pub leader_min_out: Option<u64>,
    /// Wrapper program of a wrapper mirror.
    pub wrapper_program_id: Option<Address>,
    /// Wrapper instruction data of a wrapper mirror.
    pub wrapper_ix_data: Option<Vec<u8>>,
}

/// Mathematical value of a [`TradeSignal`].
pub struct TradeSignalModel {
    pub slot: u64,
    pub leader: Address,
    pub mint: Address,
    pub signature: Seq<u8>,
    pub source: SignalSource,
    pub recent_blockhash: Option<Seq<u8>>,
    pub leader_ix_accounts: Option<Seq<Address>>,
    pub leader_in: Option<u64>,
    pub leader_min_out: Option<u64>,
    pub wrapper_program_id: Option<Address>,
    pub wrapper_ix_data: Option<Seq<u8>>,
}

impl View for TradeSignal {
    type V = TradeSignalModel;

    open spec fn view(&self) -> TradeSignalModel {
        TradeSignalModel {
            slot: self.slot,
            leader: self.leader,
            mint: self.mint,
            signature: self.signature@,
            source: self.source,
            recent_blockhash: match self.recent_blockhash { Some(b) => Some(b@), None => None },
            leader_ix_accounts: match self.leader_ix_accounts { Some(v) => Some(v@), None => None },
            leader_in: self.leader_in,
            leader_min_out: self.leader_min_out,
            wrapper_program_id: self.wrapper_program_id,
            wrapper_ix_data: match self.wrapper_ix_data { Some(v) => Some(v@), None => None },
        }
    }
}

} // verus!
