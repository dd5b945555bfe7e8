//! Detecting leader buys in shredstream transactions: the stage-0 filter that runs on the
//! static keys, the lookup-table keys, the leader, and the detectors that turn a leader
//! transaction into a trade signal.
use crate::address::{
    associated_token_program, axiom_program, contains_address, pumpfun_amm_program,
    pumpfun_fee_program, pumpfun_program, spec_associated_token_program, spec_axiom_program,
    spec_pumpfun_amm_program, spec_pumpfun_fee_program, spec_pumpfun_program, spec_system_program,
    spec_token_2022_program, spec_token_program, spec_trojan_program, spec_wsol_mint, system_program,
    token_2022_program, token_program, trojan_program, wsol_mint, Address,
};
use crate::layout::{read_u64_le, spec_u64_at};
use crate::pumpbuy::{bonding_curve_pda, event_authority_pda, pump_global_pda, spec_bonding_curve, spec_event_authority, spec_pump_global};
use crate::pumpswap::{ata, spec_ata};
use crate::scan::{
    all_resolve, first_index, lemma_first_index_at, first_some, ix_program, key_at, key_at_exec, lemma_first_some_ends, lemma_first_some_found,
    lemma_first_some_first, lemma_first_some_step, position_of, resolve_accounts, resolved_accounts,
};
use crate::sdk::{decode_entry_batch, decode_lookup_table, pubkey_base58, spec_decode_entry_batch, spec_lookup_table_decodes, spec_pubkey_base58};
use crate::text::{ends_with_str, spec_ends_with};
use crate::types::{spec_first_signature, CompiledIx, CompiledIxModel, SignalSource, StreamEntry, StreamEntryModel, StreamTx, StreamTxModel, TableLookup, TableLookupModel, TradeSignal, TradeSignalModel};
use vstd::prelude::*;

verus! {

/// Little-endian `u64` of the first eight bytes of Pump.fun's `buy` instruction data.
pub const PUMP_BUY_METHOD: u64 = 16927863322537952870;

/// Little-endian `u64` of the first eight bytes of Pump.fun's `sell` instruction data.
pub const PUMP_SELL_METHOD: u64 = 12502976635542562355;

/// Smallest SOL-to-WSOL wrap (lamports) that makes an Axiom PumpSwap trade count as a buy
/// (sells wrap only rent-sized amounts, if anything).
pub const MIN_WRAP_LAMPORTS: u64 = 10_000_000;

/// The Pump.fun global account (zero if it had no address, which `MonitorKeys` rules out).
pub open spec fn global_key() -> Address {
    match spec_pump_global() {
        Some(a) => a,
        None => Address::spec_zero(),
    }
}

/// The Pump.fun event authority (zero if it had no address, which `MonitorKeys` rules out).
pub open spec fn event_key() -> Address {
    match spec_event_authority(spec_pumpfun_program()) {
        Some(a) => a,
        None => Address::spec_zero(),
    }
}

/// The derived Pump.fun addresses the detectors look for.
pub struct MonitorKeys {
    global: Address,
    event_authority: Address,
}

impl MonitorKeys {
    #[verifier::type_invariant]
    spec fn inv(self) -> bool {
        &&& spec_pump_global() == Some(self.global)
        &&& spec_event_authority(spec_pumpfun_program()) == Some(self.event_authority)
    }

    /// Derives the Pump.fun global account and event authority (`None` if either has no
    /// program address).
    pub fn new() -> (r: Option<MonitorKeys>)
        ensures
            r is Some <==> (spec_pump_global() is Some && spec_event_authority(spec_pumpfun_program()) is Some),
    {
        let global = match pump_global_pda() {
            Some(g) => g,
            None => return None,
        };
        let event_authority = match event_authority_pda(&pumpfun_program()) {
            Some(e) => e,
            None => return None,
        };
        Some(MonitorKeys { global, event_authority })
    }

    /// The Pump.fun global account.
    pub fn global(&self) -> (r: Address)
        ensures
            r == global_key(),
    {
        proof {
            use_type_invariant(self);
        }
        self.global
    }

    /// The Pump.fun event authority.
    pub fn event_authority(&self) -> (r: Address)
        ensures
            r == event_key(),
    {
        proof {
            use_type_invariant(self);
        }
        self.event_authority
    }
}

/// Settings of one shredstream monitor.
#[derive(Clone, Debug)]
pub struct MonitorConfig {
    /// The shredstream proxy's gRPC URL.
    pub grpc_url: String,
    /// Leader wallets (empty: every transaction is a leader's).
    pub leaders: Vec<Address>,
    /// A leader must sign (else it need only appear among the keys).
    pub strict_signer: bool,
    /// Resolve lookup-table keys of v0 messages.
    pub resolve_alts: bool,
    /// Parallel parses per batch.
    pub parse_concurrency: usize,
    /// How long a seen signature is remembered.
    pub sig_dedup_ttl_ms: u64,
    /// Run the detectors past the direct buy (wrappers, PDAs, RPC).
    pub cpi_heuristic_mint: bool,
    /// Statistics interval (0: none).
    pub stats_interval_secs: u64,
    /// Debug sampling of leader transactions.
    pub debug_leader_sample: u64,
    /// Wrapper/router programs whose top-level instructions may be mirrored.
    pub wrapper_program_ids: Vec<Address>,
    /// Skip a transaction whose lookup table is not cached yet (and fetch it meanwhile).
    pub alt_miss_skip: bool,
}

// ---------------------------------------------------------------------------
// Stage 0: leader and Pump.fun keys on the static keys, before any lookup
// ---------------------------------------------------------------------------

/// A leader signs: one of the first `num_signers` keys is a leader (always, when no
/// leaders are configured).
pub open spec fn spec_leader_signs(leaders: Seq<Address>, keys: Seq<Address>, num_signers: u8) -> bool {
    leaders.len() == 0 || exists|i: int| 0 <= i < keys.len() && i < num_signers && leaders.contains(#[trigger] keys[i])
}

/// A leader appears among the keys (always, when no leaders are configured).
pub open spec fn spec_leader_present(leaders: Seq<Address>, keys: Seq<Address>) -> bool {
    leaders.len() == 0 || exists|i: int| 0 <= i < keys.len() && leaders.contains(#[trigger] keys[i])
}

/// A top-level instruction calls Pump.fun (its program index resolving among the static
/// keys) with the `buy` discriminator in its first eight data bytes.
pub open spec fn spec_pump_buy_ix(keys: Seq<Address>, ix: CompiledIxModel) -> bool {
    ix_program(keys, ix) == Some(spec_pumpfun_program()) && ix.data.len() >= 8 && spec_u64_at(ix.data, 0) == PUMP_BUY_METHOD
}

/// Some top-level instruction is a Pump.fun `buy`, read without lookup tables.
pub open spec fn spec_pump_related(keys: Seq<Address>, ixs: Seq<CompiledIxModel>) -> bool {
    exists|i: int| 0 <= i < ixs.len() && spec_pump_buy_ix(keys, #[trigger] ixs[i])
}

/// Stage 0: the leader condition holds (a leader signs under `strict_signer`, else a
/// leader appears), and a top-level instruction is a Pump.fun `buy` or, with the CPI
/// heuristics on, the message loads keys from lookup tables.
pub open spec fn spec_stage0_candidate(leaders: Seq<Address>, strict_signer: bool, cpi_heuristic_mint: bool, tx: StreamTxModel) -> bool {
    let leader_ok = if strict_signer {
        spec_leader_signs(leaders, tx.account_keys, tx.num_required_signatures)
    } else {
        spec_leader_present(leaders, tx.account_keys)
    };
    leader_ok && (spec_pump_related(tx.account_keys, tx.instructions) || (cpi_heuristic_mint && tx.lookups.len() > 0))
}

/// Whether a leader signs the transaction.
pub fn leader_signs(leaders: &Vec<Address>, keys: &Vec<Address>, num_signers: u8) -> (r: bool)
    ensures
        r == spec_leader_signs(leaders@, keys@, num_signers),
{
    if leaders.len() == 0 {
        return true;
    }
    let n = num_signers as usize;
    let mut i: usize = 0;
    while i < keys.len() && i < n
        invariant
            0 <= i <= keys@.len(),
            n == num_signers as usize,
            leaders@.len() > 0,
            forall|j: int| 0 <= j < i ==> !leaders@.contains(#[trigger] keys@[j]),
        decreases keys.len() - i,
    {
        if contains_address(leaders, &keys[i]) {
            return true;
        }
        i = i + 1;
    }
    false
}

/// Whether a leader appears among the keys.
pub fn leader_present(leaders: &Vec<Address>, keys: &Vec<Address>) -> (r: bool)
    ensures
        r == spec_leader_present(leaders@, keys@),
{
    if leaders.len() == 0 {
        return true;
    }
    let mut i: usize = 0;
    while i < keys.len()
        invariant
            0 <= i <= keys@.len(),
            leaders@.len() > 0,
            forall|j: int| 0 <= j < i ==> !leaders@.contains(#[trigger] keys@[j]),
        decreases keys.len() - i,
    {
        if contains_address(leaders, &keys[i]) {
            return true;
        }
        i = i + 1;
    }
    false
}

/// Whether a top-level instruction is a Pump.fun `buy` (program and discriminator only, on
/// the static keys).
pub fn is_pump_related_candidate_no_alt(keys: &Vec<Address>, ixs: &Vec<CompiledIx>) -> (r: bool)
    ensures
        r == spec_pump_related(keys@, ixs.deep_view()),
{
    let curve = pumpfun_program();
    let mut i: usize = 0;
    while i < ixs.len()
        invariant
            0 <= i <= ixs@.len(),
            curve == spec_pumpfun_program(),
            forall|j: int| 0 <= j < i ==> !spec_pump_buy_ix(keys@, #[trigger] ixs.deep_view()[j]),
        decreases ixs.len() - i,
    {
        let ix = &ixs[i];
        assert(ixs.deep_view()[i as int] == ix@);
        let hit = match key_at_exec(keys, ix.program_id_index) {
            Some(p) => p.same(&curve) && ix.data.len() >= 8 && read_u64_le(ix.data.as_slice(), 0) == PUMP_BUY_METHOD,
            None => false,
        };
        if hit {
            return true;
        }
        i = i + 1;
    }
    false
}

/// Stage 0 of a stream transaction: whether it goes on to the detectors.
pub fn stage0_candidate(cfg: &MonitorConfig, tx: &StreamTx) -> (r: bool)
    ensures
        r == spec_stage0_candidate(cfg.leaders@, cfg.strict_signer, cfg.cpi_heuristic_mint, tx@),
{
    let leader_ok = if cfg.strict_signer {
        leader_signs(&cfg.leaders, &tx.account_keys, tx.num_required_signatures)
    } else {
        leader_present(&cfg.leaders, &tx.account_keys)
    };
    if !leader_ok {
        return false;
    }
    if is_pump_related_candidate_no_alt(&tx.account_keys, &tx.instructions) {
        return true;
    }
    cfg.cpi_heuristic_mint && tx.lookups.len() > 0
}

// ---------------------------------------------------------------------------
// Lookup-table keys
// ---------------------------------------------------------------------------

/// The keys of a message with its lookup tables resolved: the static keys, then the
/// writable picks of every table in order, then the read-only picks (indexes past a
/// table's end are left out).
pub open spec fn spec_loaded_writable(lookups: Seq<TableLookupModel>, tables: Seq<Seq<Address>>) -> Seq<Address>
    decreases lookups.len(),
{
    if lookups.len() == 0 {
        Seq::empty()
    } else {
        spec_loaded_writable(lookups.drop_last(), tables) + resolved_accounts(tables[lookups.len() - 1], lookups.last().writable_indexes)
    }
}

/// The read-only picks of every table in order.
pub open spec fn spec_loaded_readonly(lookups: Seq<TableLookupModel>, tables: Seq<Seq<Address>>) -> Seq<Address>
    decreases lookups.len(),
{
    if lookups.len() == 0 {
        Seq::empty()
    } else {
        spec_loaded_readonly(lookups.drop_last(), tables) + resolved_accounts(tables[lookups.len() - 1], lookups.last().readonly_indexes)
    }
}

/// The full keys of a message whose lookup tables hold `tables` (one per lookup).
pub open spec fn spec_full_keys(tx: StreamTxModel, tables: Seq<Seq<Address>>) -> Seq<Address> {
    tx.account_keys + spec_loaded_writable(tx.lookups, tables) + spec_loaded_readonly(tx.lookups, tables)
}

/// The address lists of fetched lookup tables.
pub open spec fn tables_view(tables: Seq<Vec<Address>>) -> Seq<Seq<Address>> {
    tables.map_values(|t: Vec<Address>| t@)
}

/// Whether the detectors need the lookup tables of this transaction: a v0 message with
/// lookups, and lookup resolution switched on.
pub fn needs_lookup_tables(cfg: &MonitorConfig, tx: &StreamTx) -> (r: bool)
    ensures
        r == (tx.lookups@.len() > 0 && cfg.resolve_alts),
{
    tx.lookups.len() > 0 && cfg.resolve_alts
}

/// The full keys of a message, given the addresses of each of its lookup tables.
pub fn full_account_keys(tx: &StreamTx, tables: &Vec<Vec<Address>>) -> (r: Vec<Address>)
    requires
        tables@.len() == tx.lookups@.len(),
    ensures
        r@ == spec_full_keys(tx@, tables_view(tables@)),
{
    let ghost lk = tx.lookups.deep_view();
    let ghost tb = tables_view(tables@);
    let mut writable: Vec<Address> = Vec::new();
    let mut readonly: Vec<Address> = Vec::new();
    let mut i: usize = 0;
    while i < tx.lookups.len()
        invariant
            tables@.len() == tx.lookups@.len(),
            lk == tx.lookups.deep_view(),
            tb == tables_view(tables@),
            0 <= i <= tx.lookups@.len(),
            writable@ == spec_loaded_writable(lk.take(i as int), tb),
            readonly@ == spec_loaded_readonly(lk.take(i as int), tb),
        decreases tx.lookups.len() - i,
    {
        let l = &tx.lookups[i];
        let table = &tables[i];
        let w = resolve_accounts(table, &l.writable_indexes);
        let r = resolve_accounts(table, &l.readonly_indexes);
        let mut j: usize = 0;
        let ghost w0 = writable@;
        while j < w.len()
            invariant
                0 <= j <= w@.len(),
                writable@ == w0 + w@.take(j as int),
            decreases w.len() - j,
        {
            writable.push(w[j]);
            assert(w@.take(j + 1) =~= w@.take(j as int).push(w@[j as int]));
            j = j + 1;
        }
        let mut k: usize = 0;
        let ghost r0 = readonly@;
        while k < r.len()
            invariant
                0 <= k <= r@.len(),
                readonly@ == r0 + r@.take(k as int),
            decreases r.len() - k,
        {
            readonly.push(r[k]);
            assert(r@.take(k + 1) =~= r@.take(k as int).push(r@[k as int]));
            k = k + 1;
        }
        proof {
            assert(w@.take(j as int) =~= w@);
            assert(r@.take(k as int) =~= r@);
            let t = lk.take(i + 1);
            assert(t.drop_last() =~= lk.take(i as int));
            assert(t.last() == tx.lookups@[i as int]@);
            assert(tb[t.len() - 1] == tables@[i as int]@);
            assert(writable@ =~= spec_loaded_writable(t, tb));
            assert(readonly@ =~= spec_loaded_readonly(t, tb));
        }
        i = i + 1;
    }
    assert(lk.take(i as int) =~= lk);
    let mut keys = tx.account_keys.clone();
    let ghost k0 = keys@;
    assert(k0 == tx.account_keys@);
    let mut a: usize = 0;
    while a < writable.len()
        invariant
            0 <= a <= writable@.len(),
            keys@ == k0 + writable@.take(a as int),
        decreases writable.len() - a,
    {
        keys.push(writable[a]);
        assert(writable@.take(a + 1) =~= writable@.take(a as int).push(writable@[a as int]));
        a = a + 1;
    }
    assert(writable@.take(a as int) =~= writable@);
    let ghost k1 = keys@;
    let mut b: usize = 0;
    while b < readonly.len()
        invariant
            0 <= b <= readonly@.len(),
            keys@ == k1 + readonly@.take(b as int),
        decreases readonly.len() - b,
    {
        keys.push(readonly[b]);
        assert(readonly@.take(b + 1) =~= readonly@.take(b as int).push(readonly@[b as int]));
        b = b + 1;
    }
    assert(readonly@.take(b as int) =~= readonly@);
    keys
}

/// Where the keys of a stage-0 candidate come from.
#[derive(Debug)]
pub enum KeySource {
    /// The keys are known: the static keys, or the static keys with every lookup table
    /// resolved from the cache.
    Keys(Vec<Address>),
    /// A lookup table is not cached: skip the transaction and fetch this table meanwhile.
    SkipAndPrefetch(Address),
    /// Fetch every lookup table (through the cache), then resolve the keys.
    FetchTables,
}

/// The cached address lists, a missing one read as empty.
pub open spec fn cached_tables(cached: Seq<Option<Vec<Address>>>) -> Seq<Seq<Address>> {
    cached.map_values(|c: Option<Vec<Address>>| match c {
        Some(t) => t@,
        None => Seq::empty(),
    })
}

/// Decides where a candidate's keys come from, given what the lookup-table cache holds
/// for each of its lookups: the static keys when no table is needed; when tables are
/// needed and a miss is to be skipped, the resolved keys if every table is cached, else
/// a skip with a fetch of the first missing table; otherwise a fetch of the tables.
pub fn plan_transaction_keys(cfg: &MonitorConfig, tx: &StreamTx, cached: &Vec<Option<Vec<Address>>>) -> (r: KeySource)
    requires
        cached@.len() == tx.lookups@.len(),
    ensures
        !(tx.lookups@.len() > 0 && cfg.resolve_alts) ==> (r matches KeySource::Keys(k) && k@ == tx.account_keys@),
        tx.lookups@.len() > 0 && cfg.resolve_alts && !cfg.alt_miss_skip ==> r is FetchTables,
        tx.lookups@.len() > 0 && cfg.resolve_alts && cfg.alt_miss_skip && (forall|i: int| 0 <= i < cached@.len() ==> (#[trigger] cached@[i]) is Some)
            ==> (r matches KeySource::Keys(k) && k@ == spec_full_keys(tx@, cached_tables(cached@))),
        tx.lookups@.len() > 0 && cfg.resolve_alts && cfg.alt_miss_skip && (exists|i: int| 0 <= i < cached@.len() && (#[trigger] cached@[i]) is None)
            ==> (r matches KeySource::SkipAndPrefetch(a) && exists|i: int| 0 <= i < cached@.len() && (#[trigger] cached@[i]) is None
                && a == tx.lookups@[i].account_key && forall|j: int| 0 <= j < i ==> (#[trigger] cached@[j]) is Some),
{
    if !needs_lookup_tables(cfg, tx) {
        return KeySource::Keys(tx.account_keys.clone());
    }
    if !cfg.alt_miss_skip {
        return KeySource::FetchTables;
    }
    let mut tables: Vec<Vec<Address>> = Vec::new();
    let mut i: usize = 0;
    while i < cached.len()
        invariant
            0 <= i <= cached@.len(),
            cached@.len() == tx.lookups@.len(),
            tx.lookups@.len() > 0 && cfg.resolve_alts && cfg.alt_miss_skip,
            tables@.len() == i,
            forall|j: int| 0 <= j < i ==> (#[trigger] cached@[j]) is Some,
            tables_view(tables@) =~= cached_tables(cached@).take(i as int),
        decreases cached.len() - i,
    {
        match &cached[i] {
            Some(t) => {
                let ghost prev = tables@;
                tables.push(t.clone());
                assert(tables_view(tables@) =~= tables_view(prev).push(t@));
                assert(cached_tables(cached@).take(i + 1) =~= cached_tables(cached@).take(i as int).push(t@));
            },
            None => {
                return KeySource::SkipAndPrefetch(tx.lookups[i].account_key);
            },
        }
        i = i + 1;
    }
    assert(cached_tables(cached@).take(i as int) =~= cached_tables(cached@));
    KeySource::Keys(full_account_keys(tx, &tables))
}

// ---------------------------------------------------------------------------
// The leader of a transaction
// ---------------------------------------------------------------------------

/// `Some(k)` for a leader key.
pub open spec fn leader_pick(leaders: Seq<Address>) -> spec_fn(Address) -> Option<Address> {
    |k: Address| if leaders.contains(k) { Some(k) } else { None }
}

/// The leader of a transaction: with no leaders configured, its first key (zero without
/// keys); else the first leader among its signers under `strict_signer`, or among all its
/// keys; `None` when there is no such leader.
pub open spec fn spec_pick_leader(leaders: Seq<Address>, strict_signer: bool, keys: Seq<Address>, num_signers: u8) -> Option<Address> {
    if leaders.len() == 0 {
        Some(if keys.len() > 0 { keys[0] } else { Address::spec_zero() })
    } else if strict_signer {
        let n: int = if (num_signers as int) < keys.len() { num_signers as int } else { keys.len() as int };
        first_some(keys.subrange(0, n), leader_pick(leaders))
    } else {
        first_some(keys, leader_pick(leaders))
    }
}

/// Finds the leader of a transaction.
pub fn pick_leader(leaders: &Vec<Address>, strict_signer: bool, keys: &Vec<Address>, num_signers: u8) -> (r: Option<Address>)
    ensures
        r == spec_pick_leader(leaders@, strict_signer, keys@, num_signers),
{
    if leaders.len() == 0 {
        if keys.len() > 0 {
            return Some(keys[0]);
        }
        return Some(Address::zero());
    }
    let n: usize = if strict_signer && (num_signers as usize) < keys.len() { num_signers as usize } else { keys.len() };
    let ghost s = keys@.subrange(0, n as int);
    let ghost f = leader_pick(leaders@);
    proof {
        if !strict_signer {
            assert(s =~= keys@);
        }
        lemma_first_some_ends(s, f);
    }
    let mut i: usize = 0;
    while i < n
        invariant
            n <= keys@.len(),
            s == keys@.subrange(0, n as int),
            f == leader_pick(leaders@),
            leaders@.len() > 0,
            n == (if strict_signer && (num_signers as int) < keys@.len() { num_signers as int } else { keys@.len() as int }),
            !strict_signer ==> s == keys@,
            0 <= i <= n,
            first_some(s, f) == first_some(s.subrange(i as int, n as int), f),
        decreases n - i,
    {
        proof {
            lemma_first_some_step(s, f, i as int);
        }
        assert(s[i as int] == keys@[i as int]);
        if contains_address(leaders, &keys[i]) {
            assert(f(s[i as int]) == Some(keys@[i as int]));
            return Some(keys[i]);
        }
        assert(f(s[i as int]) is None);
        i = i + 1;
    }
    None
}

// ---------------------------------------------------------------------------
// Detectors over the compiled instructions
// ---------------------------------------------------------------------------

/// Some top-level instruction calls the Associated Token Account program (a first buy
/// creates the buyer's token account).
pub open spec fn spec_has_ata_top_level(keys: Seq<Address>, ixs: Seq<CompiledIxModel>) -> bool {
    exists|i: int| 0 <= i < ixs.len() && ix_program(keys, #[trigger] ixs[i]) == Some(spec_associated_token_program())
}

/// Whether some top-level instruction calls the Associated Token Account program.
pub fn has_ata_top_level(keys: &Vec<Address>, ixs: &Vec<CompiledIx>) -> (r: bool)
    ensures
        r == spec_has_ata_top_level(keys@, ixs.deep_view()),
{
    let ata_program = associated_token_program();
    let mut i: usize = 0;
    while i < ixs.len()
        invariant
            0 <= i <= ixs@.len(),
            ata_program == spec_associated_token_program(),
            forall|j: int| 0 <= j < i ==> ix_program(keys@, #[trigger] ixs.deep_view()[j]) != Some(spec_associated_token_program()),
        decreases ixs.len() - i,
    {
        assert(ixs.deep_view()[i as int] == ixs@[i as int]@);
        match key_at_exec(keys, ixs[i].program_id_index) {
            Some(p) => {
                if p.same(&ata_program) {
                    return true;
                }
            },
            None => {},
        }
        i = i + 1;
    }
    false
}

/// A direct Pump.fun buy: the mint, the instruction's accounts, and the leader's SOL in and
/// minimum tokens out (when the data carries them).
pub open spec fn spec_direct_of(keys: Seq<Address>, ix: CompiledIxModel) -> Option<(Address, Seq<Address>, Option<u64>, Option<u64>)> {
    if ix_program(keys, ix) == Some(spec_pumpfun_program()) && ix.data.len() >= 8 && spec_u64_at(ix.data, 0) == PUMP_BUY_METHOD
        && ix.accounts.len() > 2 && key_at(keys, ix.accounts[2]) is Some {
        let mint = key_at(keys, ix.accounts[2])->0;
        let (li, lm) = if ix.data.len() >= 24 {
            (Some(spec_u64_at(ix.data, 8)), Some(spec_u64_at(ix.data, 16)))
        } else {
            (None, None)
        };
        Some((mint, resolved_accounts(keys, ix.accounts), li, lm))
    } else {
        None
    }
}

/// `spec_direct_of` over one message's keys.
pub open spec fn direct_fn(keys: Seq<Address>) -> spec_fn(CompiledIxModel) -> Option<(Address, Seq<Address>, Option<u64>, Option<u64>)> {
    |ix: CompiledIxModel| spec_direct_of(keys, ix)
}

/// Reads a direct Pump.fun buy from one instruction.
fn direct_of(keys: &Vec<Address>, ix: &CompiledIx) -> (r: Option<(Address, Vec<Address>, Option<u64>, Option<u64>)>)
    ensures
        match spec_direct_of(keys@, ix@) {
            Some(d) => r matches Some(t) && d == (t.0, t.1@, t.2, t.3),
            None => r is None,
        },
{
    let p = match key_at_exec(keys, ix.program_id_index) {
        Some(p) => p,
        None => return None,
    };
    if !p.same(&pumpfun_program()) || ix.data.len() < 8 {
        return None;
    }
    if read_u64_le(ix.data.as_slice(), 0) != PUMP_BUY_METHOD || ix.accounts.len() <= 2 {
        return None;
    }
    let mint = match key_at_exec(keys, ix.accounts[2]) {
        Some(m) => m,
        None => return None,
    };
    let accounts = resolve_accounts(keys, &ix.accounts);
    let (li, lm) = if ix.data.len() >= 24 {
        (Some(read_u64_le(ix.data.as_slice(), 8)), Some(read_u64_le(ix.data.as_slice(), 16)))
    } else {
        (None, None)
    };
    Some((mint, accounts, li, lm))
}

/// The first direct Pump.fun buy among the instructions.
pub fn find_direct_buy(keys: &Vec<Address>, ixs: &Vec<CompiledIx>) -> (r: Option<(Address, Vec<Address>, Option<u64>, Option<u64>)>)
    ensures
        match first_some(ixs.deep_view(), direct_fn(keys@)) {
            Some(d) => r matches Some(t) && d == (t.0, t.1@, t.2, t.3),
            None => r is None,
        },
{
    let ghost s = ixs.deep_view();
    let ghost f = direct_fn(keys@);
    proof {
        lemma_first_some_ends(s, f);
    }
    let mut i: usize = 0;
    while i < ixs.len()
        invariant
            s == ixs.deep_view(),
            f == direct_fn(keys@),
            0 <= i <= s.len(),
            first_some(s, f) == first_some(s.subrange(i as int, s.len() as int), f),
        decreases ixs.len() - i,
    {
        proof {
            lemma_first_some_step(s, f, i as int);
        }
        assert(s[i as int] == ixs@[i as int]@);
        match direct_of(keys, &ixs[i]) {
            Some(t) => {
                return Some(t);
            },
            None => {},
        }
        i = i + 1;
    }
    None
}

/// The Pump.fun account block of a curve buy under the Axiom wrapper: the 16 accounts from
/// the global account on, when the instruction also passes Pump.fun, the block has the
/// system program at 7, a token program at 8, Pump.fun at 11 and the Pump fees program at
/// 15, and the mint (at 2) is a `...pump` address.
pub open spec fn spec_cpi_of(keys: Seq<Address>, ix: CompiledIxModel) -> Option<Seq<Address>> {
    let accs = resolved_accounts(keys, ix.accounts);
    if ix_program(keys, ix) == Some(spec_axiom_program()) && accs.contains(spec_pumpfun_program()) {
        match first_index(accs, global_key()) {
            None => None,
            Some(pos) => {
                if pos + 16 > accs.len() {
                    None
                } else {
                    let sl = accs.subrange(pos, pos + 16);
                    if sl[7] == spec_system_program() && (sl[8] == spec_token_program() || sl[8] == spec_token_2022_program())
                        && sl[11] == spec_pumpfun_program() && sl[15] == spec_pumpfun_fee_program()
                        && spec_ends_with(spec_pubkey_base58(sl[2]@), "pump"@) {
                        Some(sl)
                    } else {
                        None
                    }
                }
            },
        }
    } else {
        None
    }
}

/// What `first_index` finds is an occurrence, with none before it.
proof fn lemma_first_index_found(s: Seq<Address>, x: Address)
    ensures
        first_index(s, x) matches Some(i) ==> 0 <= i < s.len() && s[i] == x && forall|j: int| 0 <= j < i ==> s[j] != x,
    decreases s.len(),
{
    if s.len() > 0 && s[0] != x {
        let t = s.subrange(1, s.len() as int);
        lemma_first_index_found(t, x);
        if let Some(i) = first_index(t, x) {
            assert forall|j: int| 0 <= j < i + 1 implies s[j] != x by {
                if j > 0 {
                    assert(s[j] == t[j - 1]);
                }
            }
        }
    }
}

/// The Pump.fun block of a curve buy under the Axiom wrapper is recognised exactly when
/// it has its shape: in an Axiom instruction that also passes Pump.fun, the 16 accounts
/// from the first Pump.fun global account on, with the system program at 7, the token or
/// the Token-2022 program at 8, Pump.fun at 11, the Pump fees program at 15 and a mint
/// whose address ends in `pump` at 2.
pub proof fn law_cpi_block_shape(keys: Seq<Address>, ix: CompiledIxModel, pos: int)
    ensures
        ({
            let accs = resolved_accounts(keys, ix.accounts);
            (ix_program(keys, ix) == Some(spec_axiom_program()) && accs.contains(spec_pumpfun_program())
                && 0 <= pos && pos + 16 <= accs.len() && accs[pos] == global_key()
                && (forall|j: int| 0 <= j < pos ==> accs[j] != global_key())
                && accs[pos + 7] == spec_system_program()
                && (accs[pos + 8] == spec_token_program() || accs[pos + 8] == spec_token_2022_program())
                && accs[pos + 11] == spec_pumpfun_program() && accs[pos + 15] == spec_pumpfun_fee_program()
                && spec_ends_with(spec_pubkey_base58(accs[pos + 2]@), "pump"@))
                ==> spec_cpi_of(keys, ix) == Some(accs.subrange(pos, pos + 16))
        }),
        spec_cpi_of(keys, ix) matches Some(sl) ==> {
            &&& ix_program(keys, ix) == Some(spec_axiom_program())
            &&& resolved_accounts(keys, ix.accounts).contains(spec_pumpfun_program())
            &&& sl.len() == 16
            &&& sl[0] == global_key()
            &&& sl[7] == spec_system_program()
            &&& (sl[8] == spec_token_program() || sl[8] == spec_token_2022_program())
            &&& sl[11] == spec_pumpfun_program()
            &&& sl[15] == spec_pumpfun_fee_program()
            &&& spec_ends_with(spec_pubkey_base58(sl[2]@), "pump"@)
        },
{
    let accs = resolved_accounts(keys, ix.accounts);
    lemma_first_index_found(accs, global_key());
    if 0 <= pos && pos + 16 <= accs.len() && accs[pos] == global_key() && (forall|j: int| 0 <= j < pos ==> accs[j] != global_key()) {
        lemma_first_index_at(accs, global_key(), pos);
    }
    if let Some(sl) = spec_cpi_of(keys, ix) {
        let p = first_index(accs, global_key())->0;
        assert(sl[0] == accs[p]);
    }
}

/// `spec_cpi_of` over one message's keys.
pub open spec fn cpi_fn(keys: Seq<Address>) -> spec_fn(CompiledIxModel) -> Option<Seq<Address>> {
    |ix: CompiledIxModel| spec_cpi_of(keys, ix)
}

/// Reads the Pump.fun account block of a curve buy under the Axiom wrapper.
fn cpi_of(mk: &MonitorKeys, keys: &Vec<Address>, ix: &CompiledIx) -> (r: Option<Vec<Address>>)
    ensures
        match spec_cpi_of(keys@, ix@) {
            Some(sl) => r matches Some(v) && v@ == sl,
            None => r is None,
        },
        r matches Some(v) ==> v@.len() == 16,
{
    let accs = resolve_accounts(keys, &ix.accounts);
    let p = match key_at_exec(keys, ix.program_id_index) {
        Some(p) => p,
        None => return None,
    };
    if !p.same(&axiom_program()) || !contains_address(&accs, &pumpfun_program()) {
        return None;
    }
    let global = mk.global();
    let pos = match position_of(&accs, &global) {
        Some(pos) => pos,
        None => return None,
    };
    if accs.len() - pos < 16 {
        return None;
    }
    let mut sl: Vec<Address> = Vec::new();
    let n = accs.len();
    let mut j: usize = 0;
    while j < 16
        invariant
            n == accs@.len(),
            pos + 16 <= accs@.len(),
            0 <= j <= 16,
            sl@ =~= accs@.subrange(pos as int, pos + j),
        decreases 16 - j,
    {
        sl.push(accs[pos + j]);
        j = j + 1;
    }
    if !sl[7].same(&system_program()) {
        return None;
    }
    if !sl[8].same(&token_program()) && !sl[8].same(&token_2022_program()) {
        return None;
    }
    if !sl[11].same(&pumpfun_program()) || !sl[15].same(&pumpfun_fee_program()) {
        return None;
    }
    let text = pubkey_base58(&sl[2]);
    if !ends_with_str(text.as_str(), "pump") {
        return None;
    }
    Some(sl)
}

/// The first Pump.fun account block of a curve buy under the Axiom wrapper.
pub fn find_cpi_buy(mk: &MonitorKeys, keys: &Vec<Address>, ixs: &Vec<CompiledIx>) -> (r: Option<Vec<Address>>)
    ensures
        match first_some(ixs.deep_view(), cpi_fn(keys@)) {
            Some(sl) => r matches Some(v) && v@ == sl,
            None => r is None,
        },
        r matches Some(v) ==> v@.len() == 16,
{
    let ghost s = ixs.deep_view();
    let ghost f = cpi_fn(keys@);
    proof {
        lemma_first_some_ends(s, f);
    }
    let mut i: usize = 0;
    while i < ixs.len()
        invariant
            s == ixs.deep_view(),
            f == cpi_fn(keys@),
            0 <= i <= s.len(),
            first_some(s, f) == first_some(s.subrange(i as int, s.len() as int), f),
        decreases ixs.len() - i,
    {
        proof {
            lemma_first_some_step(s, f, i as int);
        }
        assert(s[i as int] == ixs@[i as int]@);
        match cpi_of(mk, keys, &ixs[i]) {
            Some(v) => {
                return Some(v);
            },
            None => {},
        }
        i = i + 1;
    }
    None
}

/// The SOL an Axiom instruction wraps: an Axiom instruction passing WSOL, the system
/// program and the token program, whose data is `1` followed by the lamports.
pub open spec fn spec_wrap_of(keys: Seq<Address>, ix: CompiledIxModel) -> Option<u64> {
    let accs = resolved_accounts(keys, ix.accounts);
    if ix_program(keys, ix) == Some(spec_axiom_program()) && accs.contains(spec_wsol_mint()) && accs.contains(spec_system_program())
        && accs.contains(spec_token_program()) && ix.data.len() >= 9 && ix.data[0] == 1 {
        Some(spec_u64_at(ix.data, 1))
    } else {
        None
    }
}

/// `spec_wrap_of` over one message's keys.
pub open spec fn wrap_fn(keys: Seq<Address>) -> spec_fn(CompiledIxModel) -> Option<u64> {
    |ix: CompiledIxModel| spec_wrap_of(keys, ix)
}

/// The SOL the first Axiom wrap instruction wraps (0 without one).
pub open spec fn spec_axiom_wrap_amount(keys: Seq<Address>, ixs: Seq<CompiledIxModel>) -> u64 {
    match first_some(ixs, wrap_fn(keys)) {
        Some(a) => a,
        None => 0,
    }
}

/// Reads the wrapped SOL of one Axiom instruction.
fn wrap_of(keys: &Vec<Address>, ix: &CompiledIx) -> (r: Option<u64>)
    ensures
        r == spec_wrap_of(keys@, ix@),
{
    let accs = resolve_accounts(keys, &ix.accounts);
    let p = match key_at_exec(keys, ix.program_id_index) {
        Some(p) => p,
        None => return None,
    };
    if !p.same(&axiom_program()) || !contains_address(&accs, &wsol_mint()) || !contains_address(&accs, &system_program())
        || !contains_address(&accs, &token_program()) {
        return None;
    }
    if ix.data.len() >= 9 && ix.data[0] == 1 {
        Some(read_u64_le(ix.data.as_slice(), 1))
    } else {
        None
    }
}

/// The SOL that the leader's Axiom instructions wrap into WSOL (0 without a wrap).
pub fn axiom_wrap_amount_lamports(keys: &Vec<Address>, ixs: &Vec<CompiledIx>) -> (r: u64)
    ensures
        r == spec_axiom_wrap_amount(keys@, ixs.deep_view()),
{
    let ghost s = ixs.deep_view();
    let ghost f = wrap_fn(keys@);
    proof {
        lemma_first_some_ends(s, f);
    }
    let mut i: usize = 0;
    while i < ixs.len()
        invariant
            s == ixs.deep_view(),
            f == wrap_fn(keys@),
            0 <= i <= s.len(),
            first_some(s, f) == first_some(s.subrange(i as int, s.len() as int), f),
        decreases ixs.len() - i,
    {
        proof {
            lemma_first_some_step(s, f, i as int);
        }
        assert(s[i as int] == ixs@[i as int]@);
        match wrap_of(keys, &ixs[i]) {
            Some(a) => {
                return a;
            },
            None => {},
        }
        i = i + 1;
    }
    0
}

/// One instruction of the PumpSwap base-mint search: `None` goes on to the next
/// instruction, `Some(r)` ends the search with `r`. An instruction whose program does not
/// resolve ends it with nothing; an Axiom instruction ends it with nothing when one of its
/// accounts does not resolve, or when it passes PumpSwap but not WSOL; an Axiom instruction
/// passing PumpSwap and WSOL ends it with the account just before WSOL, unless that is
/// WSOL itself, a program the trade uses, or there is none.
pub open spec fn spec_amm_base_step(keys: Seq<Address>, ix: CompiledIxModel) -> Option<Option<Address>> {
    match ix_program(keys, ix) {
        None => Some(None),
        Some(p) => {
            if p != spec_axiom_program() {
                None
            } else if !all_resolve(keys, ix.accounts) {
                Some(None)
            } else {
                let accs = resolved_accounts(keys, ix.accounts);
                if !accs.contains(spec_pumpfun_amm_program()) {
                    None
                } else {
                    match first_index(accs, spec_wsol_mint()) {
                        None => Some(None),
                        Some(w) => {
                            if w == 0 {
                                None
                            } else {
                                let c = accs[w - 1];
                                if c == spec_wsol_mint() || c == spec_system_program() || c == spec_token_program()
                                    || c == spec_axiom_program() || c == spec_pumpfun_amm_program() {
                                    None
                                } else {
                                    Some(Some(c))
                                }
                            }
                        },
                    }
                }
            }
        },
    }
}

/// `spec_amm_base_step` over one message's keys.
pub open spec fn amm_base_fn(keys: Seq<Address>) -> spec_fn(CompiledIxModel) -> Option<Option<Address>> {
    |ix: CompiledIxModel| spec_amm_base_step(keys, ix)
}

/// The base mint of a PumpSwap trade through Axiom.
pub open spec fn spec_axiom_amm_base_mint(keys: Seq<Address>, ixs: Seq<CompiledIxModel>) -> Option<Address> {
    match first_some(ixs, amm_base_fn(keys)) {
        Some(r) => r,
        None => None,
    }
}

/// One step of the PumpSwap base-mint search.
fn amm_base_step(keys: &Vec<Address>, ix: &CompiledIx) -> (r: Option<Option<Address>>)
    ensures
        r == spec_amm_base_step(keys@, ix@),
{
    let p = match key_at_exec(keys, ix.program_id_index) {
        Some(p) => p,
        None => return Some(None),
    };
    if !p.same(&axiom_program()) {
        return None;
    }
    let mut j: usize = 0;
    while j < ix.accounts.len()
        invariant
            0 <= j <= ix.accounts@.len(),
            key_at(keys@, ix@.program_id_index) == Some(spec_axiom_program()),
            forall|k: int| 0 <= k < j ==> (#[trigger] ix.accounts@[k] as int) < keys@.len(),
        decreases ix.accounts.len() - j,
    {
        if ix.accounts[j] as usize >= keys.len() {
            assert(!all_resolve(keys@, ix@.accounts)) by {
                assert(!((ix.accounts@[j as int] as int) < keys@.len()));
            }
            return Some(None);
        }
        j = j + 1;
    }
    let accs = resolve_accounts(keys, &ix.accounts);
    let amm = pumpfun_amm_program();
    if !contains_address(&accs, &amm) {
        return None;
    }
    let wsol = wsol_mint();
    let w = match position_of(&accs, &wsol) {
        Some(w) => w,
        None => return Some(None),
    };
    if w == 0 {
        return None;
    }
    let c = accs[w - 1];
    if c.same(&wsol) || c.same(&system_program()) || c.same(&token_program()) || c.same(&axiom_program()) || c.same(&amm) {
        return None;
    }
    Some(Some(c))
}

/// The base mint of the leader's PumpSwap trade through Axiom: the account just before
/// WSOL in the Axiom swap instruction.
pub fn axiom_infer_amm_base_mint(keys: &Vec<Address>, ixs: &Vec<CompiledIx>) -> (r: Option<Address>)
    ensures
        r == spec_axiom_amm_base_mint(keys@, ixs.deep_view()),
{
    let ghost s = ixs.deep_view();
    let ghost f = amm_base_fn(keys@);
    proof {
        lemma_first_some_ends(s, f);
    }
    let mut i: usize = 0;
    while i < ixs.len()
        invariant
            s == ixs.deep_view(),
            f == amm_base_fn(keys@),
            0 <= i <= s.len(),
            first_some(s, f) == first_some(s.subrange(i as int, s.len() as int), f),
        decreases ixs.len() - i,
    {
        proof {
            lemma_first_some_step(s, f, i as int);
        }
        assert(s[i as int] == ixs@[i as int]@);
        match amm_base_step(keys, &ixs[i]) {
            Some(r) => {
                return r;
            },
            None => {},
        }
        i = i + 1;
    }
    None
}

// ---------------------------------------------------------------------------
// Mints inferred from the keys
// ---------------------------------------------------------------------------

/// `mint` is a Pump.fun mint traded in this message: it is not one of the programs or
/// Pump.fun accounts, its bonding curve is among the keys, and so is the curve's token
/// account under the token or token-2022 program. (A derivation that finds no address
/// matches nothing.)
pub open spec fn spec_pda_mint_of(keys: Seq<Address>, mint: Address) -> Option<Address> {
    if mint == spec_pumpfun_program() || mint == global_key() || mint == event_key() || mint == spec_token_program()
        || mint == spec_token_2022_program() || mint == spec_associated_token_program() {
        None
    } else {
        match spec_bonding_curve(mint) {
            None => None,
            Some(bc) => {
                if !keys.contains(bc) {
                    None
                } else if (spec_ata(bc, mint, spec_token_program()) matches Some(a) && keys.contains(a))
                    || (spec_ata(bc, mint, spec_token_2022_program()) matches Some(a) && keys.contains(a)) {
                    Some(mint)
                } else {
                    None
                }
            },
        }
    }
}

/// `spec_pda_mint_of` over one message's keys.
pub open spec fn pda_mint_fn(keys: Seq<Address>) -> spec_fn(Address) -> Option<Address> {
    |mint: Address| spec_pda_mint_of(keys, mint)
}

/// The first key that is a Pump.fun mint traded in this message, when the message holds
/// the Pump.fun global account and event authority.
pub open spec fn spec_infer_pump_mint_by_pdas(keys: Seq<Address>) -> Option<Address> {
    if keys.contains(global_key()) && keys.contains(event_key()) {
        first_some(keys, pda_mint_fn(keys))
    } else {
        None
    }
}

/// Whether `mint` is a Pump.fun mint traded in this message.
fn pda_mint_of(mk: &MonitorKeys, keys: &Vec<Address>, mint: &Address) -> (r: Option<Address>)
    ensures
        r == spec_pda_mint_of(keys@, *mint),
{
    if mint.same(&pumpfun_program()) || mint.same(&mk.global()) || mint.same(&mk.event_authority()) || mint.same(&token_program())
        || mint.same(&token_2022_program()) || mint.same(&associated_token_program()) {
        return None;
    }
    let bc = match bonding_curve_pda(mint) {
        Some(b) => b,
        None => return None,
    };
    if !contains_address(keys, &bc) {
        return None;
    }
    let found_legacy = match ata(&bc, mint, &token_program()) {
        Some(a) => contains_address(keys, &a),
        None => false,
    };
    if found_legacy {
        return Some(*mint);
    }
    let found_2022 = match ata(&bc, mint, &token_2022_program()) {
        Some(a) => contains_address(keys, &a),
        None => false,
    };
    if found_2022 {
        return Some(*mint);
    }
    None
}

/// Infers the mint of a Pump.fun curve trade from the program-derived addresses among the
/// keys.
pub fn infer_pump_mint_by_pdas(mk: &MonitorKeys, keys: &Vec<Address>) -> (r: Option<Address>)
    ensures
        r == spec_infer_pump_mint_by_pdas(keys@),
{
    if !contains_address(keys, &mk.global()) || !contains_address(keys, &mk.event_authority()) {
        return None;
    }
    let ghost s = keys@;
    let ghost f = pda_mint_fn(keys@);
    proof {
        lemma_first_some_ends(s, f);
    }
    let mut i: usize = 0;
    while i < keys.len()
        invariant
            s == keys@,
            f == pda_mint_fn(keys@),
            keys@.contains(global_key()) && keys@.contains(event_key()),
            0 <= i <= s.len(),
            first_some(s, f) == first_some(s.subrange(i as int, s.len() as int), f),
        decreases keys.len() - i,
    {
        proof {
            lemma_first_some_step(s, f, i as int);
        }
        match pda_mint_of(mk, keys, &keys[i]) {
            Some(m) => {
                return Some(m);
            },
            None => {},
        }
        i = i + 1;
    }
    None
}

/// `Some(k)` when the base58 text of `k` ends with `pump` (Pump.fun's vanity suffix).
pub open spec fn spec_pump_suffix_of(k: Address) -> Option<Address> {
    if spec_ends_with(spec_pubkey_base58(k@), "pump"@) {
        Some(k)
    } else {
        None
    }
}

/// The first key whose base58 text ends with `pump`.
pub open spec fn spec_infer_mint_by_suffix_pump(keys: Seq<Address>) -> Option<Address> {
    first_some(keys, |k: Address| spec_pump_suffix_of(k))
}

/// Finds the first key whose base58 text ends with `pump`.
pub fn infer_mint_by_suffix_pump(keys: &Vec<Address>) -> (r: Option<Address>)
    ensures
        r == spec_infer_mint_by_suffix_pump(keys@),
{
    let ghost s = keys@;
    let ghost f = |k: Address| spec_pump_suffix_of(k);
    proof {
        lemma_first_some_ends(s, f);
    }
    let mut i: usize = 0;
    while i < keys.len()
        invariant
            s == keys@,
            f == (|k: Address| spec_pump_suffix_of(k)),
            0 <= i <= s.len(),
            first_some(s, f) == first_some(s.subrange(i as int, s.len() as int), f),
        decreases keys.len() - i,
    {
        proof {
            lemma_first_some_step(s, f, i as int);
        }
        let text = pubkey_base58(&keys[i]);
        if ends_with_str(text.as_str(), "pump") {
            return Some(keys[i]);
        }
        i = i + 1;
    }
    None
}

// ---------------------------------------------------------------------------
// Mint discovery through the RPC node
// ---------------------------------------------------------------------------

/// Most accounts whose owners the RPC node is asked for.
pub const MAX_MINT_CANDIDATES: usize = 80;

/// Accounts that are never the traded mint: the token programs and WSOL.
pub open spec fn spec_not_candidate(k: Address) -> bool {
    k == spec_token_program() || k == spec_token_2022_program() || k == spec_wsol_mint()
}

/// The resolved accounts of every instruction, in order.
pub open spec fn spec_flat_accounts(keys: Seq<Address>, ixs: Seq<CompiledIxModel>) -> Seq<Address>
    decreases ixs.len(),
{
    if ixs.len() == 0 {
        Seq::empty()
    } else {
        spec_flat_accounts(keys, ixs.drop_last()) + resolved_accounts(keys, ixs.last().accounts)
    }
}

/// The distinct accounts of `flat` that may be a mint, in order of first use, at most 80.
pub open spec fn spec_collect_candidates(flat: Seq<Address>) -> Seq<Address>
    decreases flat.len(),
{
    if flat.len() == 0 {
        Seq::empty()
    } else {
        let acc = spec_collect_candidates(flat.drop_last());
        let k = flat.last();
        if spec_not_candidate(k) || acc.contains(k) || acc.len() >= MAX_MINT_CANDIDATES {
            acc
        } else {
            acc.push(k)
        }
    }
}

/// The accounts whose owners the RPC node is asked for.
pub open spec fn spec_mint_candidates(keys: Seq<Address>, ixs: Seq<CompiledIxModel>) -> Seq<Address> {
    spec_collect_candidates(spec_flat_accounts(keys, ixs))
}

/// Collects the accounts of the instructions that may be the traded mint.
pub fn mint_candidates(keys: &Vec<Address>, ixs: &Vec<CompiledIx>) -> (r: Vec<Address>)
    ensures
        r@ == spec_mint_candidates(keys@, ixs.deep_view()),
{
    let tok = token_program();
    let tok22 = token_2022_program();
    let wsol = wsol_mint();
    let ghost dv = ixs.deep_view();
    let mut uniq: Vec<Address> = Vec::new();
    let mut i: usize = 0;
    while i < ixs.len()
        invariant
            dv == ixs.deep_view(),
            tok == spec_token_program(),
            tok22 == spec_token_2022_program(),
            wsol == spec_wsol_mint(),
            0 <= i <= ixs@.len(),
            uniq@ == spec_collect_candidates(spec_flat_accounts(keys@, dv.take(i as int))),
        decreases ixs.len() - i,
    {
        let ix = &ixs[i];
        let ghost base = spec_flat_accounts(keys@, dv.take(i as int));
        let mut j: usize = 0;
        while j < ix.accounts.len()
            invariant
                tok == spec_token_program(),
                tok22 == spec_token_2022_program(),
                wsol == spec_wsol_mint(),
                0 <= j <= ix.accounts@.len(),
                uniq@ == spec_collect_candidates(base + resolved_accounts(keys@, ix.accounts@.take(j as int))),
            decreases ix.accounts.len() - j,
        {
            let ghost prev = base + resolved_accounts(keys@, ix.accounts@.take(j as int));
            assert(ix.accounts@.take(j + 1).drop_last() =~= ix.accounts@.take(j as int));
            assert(ix.accounts@.take(j + 1).last() == ix.accounts@[j as int]);
            match key_at_exec(keys, ix.accounts[j]) {
                Some(k) => {
                    assert(base + resolved_accounts(keys@, ix.accounts@.take(j + 1)) =~= prev.push(k));
                    assert(prev.push(k).drop_last() =~= prev);
                    if !(k.same(&tok) || k.same(&tok22) || k.same(&wsol)) && !contains_address(&uniq, &k) && uniq.len() < MAX_MINT_CANDIDATES {
                        uniq.push(k);
                    }
                },
                None => {
                    assert(base + resolved_accounts(keys@, ix.accounts@.take(j + 1)) =~= prev);
                },
            }
            j = j + 1;
        }
        proof {
            assert(ix.accounts@.take(j as int) =~= ix.accounts@);
            let t = dv.take(i + 1);
            assert(t.drop_last() =~= dv.take(i as int));
            assert(t.last() == ixs@[i as int]@);
        }
        i = i + 1;
    }
    assert(dv.take(i as int) =~= dv);
    uniq
}

/// An account the RPC node reports is a mint: owned by the token program with the 82
/// bytes of a mint, or by the token-2022 program with at least 82 bytes and not the 170 of
/// a token account.
pub open spec fn spec_is_mint_account(owner: Address, data_len: usize) -> bool {
    (owner == spec_token_program() && data_len == 82)
        || (owner == spec_token_2022_program() && data_len >= 82 && data_len != 170)
}

/// The first candidate that the fetched accounts (owner and data length, `None` for a
/// missing account; paired in order) show to be a mint.
pub open spec fn spec_first_mint_account(uniq: Seq<Address>, accounts: Seq<Option<(Address, usize)>>) -> Option<Address>
    decreases uniq.len(),
{
    if uniq.len() == 0 || accounts.len() == 0 {
        None
    } else {
        let rest = spec_first_mint_account(uniq.subrange(1, uniq.len() as int), accounts.subrange(1, accounts.len() as int));
        match accounts[0] {
            Some((owner, len)) => if spec_is_mint_account(owner, len) { Some(uniq[0]) } else { rest },
            None => rest,
        }
    }
}

/// Picks the first candidate whose fetched account is a mint.
pub fn first_mint_account(uniq: &Vec<Address>, accounts: &Vec<Option<(Address, usize)>>) -> (r: Option<Address>)
    ensures
        r == spec_first_mint_account(uniq@, accounts@),
{
    let tok = token_program();
    let tok22 = token_2022_program();
    assert(uniq@.subrange(0, uniq@.len() as int) =~= uniq@);
    assert(accounts@.subrange(0, accounts@.len() as int) =~= accounts@);
    let mut i: usize = 0;
    while i < uniq.len() && i < accounts.len()
        invariant
            tok == spec_token_program(),
            tok22 == spec_token_2022_program(),
            0 <= i <= uniq@.len(),
            i <= accounts@.len(),
            spec_first_mint_account(uniq@, accounts@)
                == spec_first_mint_account(uniq@.subrange(i as int, uniq@.len() as int), accounts@.subrange(i as int, accounts@.len() as int)),
        decreases uniq.len() - i,
    {
        let ghost u = uniq@.subrange(i as int, uniq@.len() as int);
        let ghost a = accounts@.subrange(i as int, accounts@.len() as int);
        assert(u.subrange(1, u.len() as int) =~= uniq@.subrange(i + 1, uniq@.len() as int));
        assert(a.subrange(1, a.len() as int) =~= accounts@.subrange(i + 1, accounts@.len() as int));
        assert(u[0] == uniq@[i as int]);
        assert(a[0] == accounts@[i as int]);
        match accounts[i] {
            Some((owner, len)) => {
                if (owner.same(&tok) && len == 82) || (owner.same(&tok22) && len >= 82 && len != 170) {
                    return Some(uniq[i]);
                }
            },
            None => {},
        }
        i = i + 1;
    }
    None
}

// ---------------------------------------------------------------------------
// Wrapper mirror
// ---------------------------------------------------------------------------

/// The mint of a wrapper instruction of program `pid` (`None`: skip the instruction). For
/// Axiom over PumpSwap the leader must wrap at least `MIN_WRAP_LAMPORTS`, and the mint is
/// the PumpSwap base mint, else the first `...pump` key; for other wrappers it is the first
/// `...pump` key; zero when none is found.
pub open spec fn spec_wrapper_mint(keys: Seq<Address>, ixs: Seq<CompiledIxModel>, pid: Address) -> Option<Address> {
    let by_suffix = match spec_infer_mint_by_suffix_pump(keys) {
        Some(m) => m,
        None => Address::spec_zero(),
    };
    if pid == spec_axiom_program() && keys.contains(spec_pumpfun_amm_program()) {
        if spec_axiom_wrap_amount(keys, ixs) < MIN_WRAP_LAMPORTS {
            None
        } else {
            Some(match spec_axiom_amm_base_mint(keys, ixs) {
                Some(m) => m,
                None => by_suffix,
            })
        }
    } else {
        Some(by_suffix)
    }
}

/// A top-level instruction of an allow-listed wrapper (not Trojan, whose top-level
/// instruction is mostly a fee transfer) with a known mint: its program, accounts, data and
/// the mint.
pub open spec fn spec_wrapper_of(wrappers: Seq<Address>, keys: Seq<Address>, ixs: Seq<CompiledIxModel>, ix: CompiledIxModel) -> Option<(Address, Seq<Address>, Seq<u8>, Address)> {
    match ix_program(keys, ix) {
        None => None,
        Some(pid) => {
            if !wrappers.contains(pid) || pid == spec_trojan_program() {
                None
            } else {
                match spec_wrapper_mint(keys, ixs, pid) {
                    None => None,
                    Some(m) => if m == Address::spec_zero() { None } else { Some((pid, resolved_accounts(keys, ix.accounts), ix.data, m)) },
                }
            }
        },
    }
}

/// `spec_wrapper_of` over one message.
pub open spec fn wrapper_fn(wrappers: Seq<Address>, keys: Seq<Address>, ixs: Seq<CompiledIxModel>) -> spec_fn(CompiledIxModel) -> Option<(Address, Seq<Address>, Seq<u8>, Address)> {
    |ix: CompiledIxModel| spec_wrapper_of(wrappers, keys, ixs, ix)
}

/// The mint of a wrapper instruction of program `pid`.
fn wrapper_mint(keys: &Vec<Address>, ixs: &Vec<CompiledIx>, pid: &Address) -> (r: Option<Address>)
    ensures
        r == spec_wrapper_mint(keys@, ixs.deep_view(), *pid),
{
    if pid.same(&axiom_program()) && contains_address(keys, &pumpfun_amm_program()) {
        if axiom_wrap_amount_lamports(keys, ixs) < MIN_WRAP_LAMPORTS {
            return None;
        }
        match axiom_infer_amm_base_mint(keys, ixs) {
            Some(m) => return Some(m),
            None => {},
        }
    }
    match infer_mint_by_suffix_pump(keys) {
        Some(m) => Some(m),
        None => Some(Address::zero()),
    }
}

/// Reads a mirrorable wrapper instruction.
fn wrapper_of(wrappers: &Vec<Address>, keys: &Vec<Address>, ixs: &Vec<CompiledIx>, ix: &CompiledIx) -> (r: Option<(Address, Vec<Address>, Vec<u8>, Address)>)
    ensures
        match spec_wrapper_of(wrappers@, keys@, ixs.deep_view(), ix@) {
            Some(w) => r matches Some(t) && w == (t.0, t.1@, t.2@, t.3),
            None => r is None,
        },
{
    let pid = match key_at_exec(keys, ix.program_id_index) {
        Some(p) => p,
        None => return None,
    };
    if !contains_address(wrappers, &pid) || pid.same(&trojan_program()) {
        return None;
    }
    let mint = match wrapper_mint(keys, ixs, &pid) {
        Some(m) => m,
        None => return None,
    };
    if mint.is_zero() {
        return None;
    }
    let accounts = resolve_accounts(keys, &ix.accounts);
    let data = ix.data.clone();
    Some((pid, accounts, data, mint))
}

/// The first top-level wrapper instruction to mirror.
pub fn find_wrapper_mirror(wrappers: &Vec<Address>, keys: &Vec<Address>, ixs: &Vec<CompiledIx>) -> (r: Option<(Address, Vec<Address>, Vec<u8>, Address)>)
    ensures
        match first_some(ixs.deep_view(), wrapper_fn(wrappers@, keys@, ixs.deep_view())) {
            Some(w) => r matches Some(t) && w == (t.0, t.1@, t.2@, t.3),
            None => r is None,
        },
{
    let ghost s = ixs.deep_view();
    let ghost f = wrapper_fn(wrappers@, keys@, ixs.deep_view());
    proof {
        lemma_first_some_ends(s, f);
    }
    let mut i: usize = 0;
    while i < ixs.len()
        invariant
            s == ixs.deep_view(),
            f == wrapper_fn(wrappers@, keys@, ixs.deep_view()),
            0 <= i <= s.len(),
            first_some(s, f) == first_some(s.subrange(i as int, s.len() as int), f),
        decreases ixs.len() - i,
    {
        proof {
            lemma_first_some_step(s, f, i as int);
        }
        assert(s[i as int] == ixs@[i as int]@);
        match wrapper_of(wrappers, keys, ixs, &ixs[i]) {
            Some(t) => {
                return Some(t);
            },
            None => {},
        }
        i = i + 1;
    }
    None
}

// ---------------------------------------------------------------------------
// From a leader transaction to a trade signal
// ---------------------------------------------------------------------------

/// What parsing a candidate transaction gives.
#[derive(Debug)]
pub enum ParseStep {
    /// No buy signal.
    NoSignal,
    /// A buy signal.
    Signal(TradeSignal),
    /// Ask the RPC node for these accounts (owner and data length, in order) and parse again
    /// with the answer; if the request fails the transaction gives no signal.
    NeedMintAccounts(Vec<Address>),
}

/// Mathematical value of a [`ParseStep`].
pub enum ParseModel {
    NoSignal,
    Signal(TradeSignalModel),
    NeedMintAccounts(Seq<Address>),
}

impl View for ParseStep {
    type V = ParseModel;

    open spec fn view(&self) -> ParseModel {
        match self {
            ParseStep::NoSignal => ParseModel::NoSignal,
            ParseStep::Signal(s) => ParseModel::Signal(s@),
            ParseStep::NeedMintAccounts(v) => ParseModel::NeedMintAccounts(v@),
        }
    }
}

/// A signal of `tx` carrying the leader's blockhash.
pub open spec fn signal_of(slot: u64, leader: Address, mint: Address, tx: StreamTxModel, source: SignalSource, accounts: Option<Seq<Address>>, leader_in: Option<u64>, leader_min_out: Option<u64>, wrapper_program_id: Option<Address>, wrapper_ix_data: Option<Seq<u8>>) -> TradeSignalModel {
    TradeSignalModel {
        slot,
        leader,
        mint,
        signature: spec_first_signature(tx),
        source,
        recent_blockhash: Some(tx.recent_blockhash),
        leader_ix_accounts: accounts,
        leader_in,
        leader_min_out,
        wrapper_program_id,
        wrapper_ix_data,
    }
}

/// The detectors after the direct buy, in order: a curve buy under Axiom (with a top-level
/// token-account creation), a PumpSwap buy through Axiom wrapping at least
/// `MIN_WRAP_LAMPORTS`, a curve trade found by its program-derived addresses (with a
/// top-level token-account creation), a mint found through the RPC node (for a buy-like
/// transaction: enough wrapped SOL when PumpSwap is among the keys, else a token-account
/// creation), and last a wrapper instruction to mirror.
pub open spec fn spec_parse_heuristics(wrappers: Seq<Address>, slot: u64, tx: StreamTxModel, keys: Seq<Address>, leader: Address, mint_accounts: Option<Seq<Option<(Address, usize)>>>) -> ParseModel {
    let ixs = tx.instructions;
    let has_ata = spec_has_ata_top_level(keys, ixs);
    let cpi = if has_ata { first_some(ixs, cpi_fn(keys)) } else { None };
    let wrap = spec_axiom_wrap_amount(keys, ixs);
    let amm_base = spec_axiom_amm_base_mint(keys, ixs);
    let pda_mint = spec_infer_pump_mint_by_pdas(keys);
    let buyish = if keys.contains(spec_pumpfun_amm_program()) { wrap >= MIN_WRAP_LAMPORTS } else { has_ata };
    let uniq = spec_mint_candidates(keys, ixs);
    let wrapper = match first_some(ixs, wrapper_fn(wrappers, keys, ixs)) {
        Some((pid, accs, data, m)) => ParseModel::Signal(signal_of(slot, leader, m, tx, SignalSource::WrapperMirror, Some(accs), None, None, Some(pid), Some(data))),
        None => ParseModel::NoSignal,
    };
    if cpi is Some {
        let sl = cpi->0;
        ParseModel::Signal(signal_of(slot, leader, sl[2], tx, SignalSource::CurveCpiBuy, Some(sl), None, None, None, None))
    } else if keys.contains(spec_pumpfun_amm_program()) && wrap >= MIN_WRAP_LAMPORTS && amm_base is Some {
        ParseModel::Signal(signal_of(slot, leader, amm_base->0, tx, SignalSource::AmmAxiomBuy, None, None, None, None, None))
    } else if keys.contains(spec_pumpfun_program()) && has_ata && pda_mint is Some {
        ParseModel::Signal(signal_of(slot, leader, pda_mint->0, tx, SignalSource::CurvePdaBuyish, None, None, None, None, None))
    } else if buyish && uniq.len() > 0 {
        match mint_accounts {
            None => ParseModel::NeedMintAccounts(uniq),
            Some(accts) => match spec_first_mint_account(uniq, accts) {
                Some(m) => ParseModel::Signal(signal_of(slot, leader, m, tx, SignalSource::RpcBuyish, None, None, None, None, None)),
                None => wrapper,
            },
        }
    } else {
        wrapper
    }
}

/// What a candidate transaction gives, over its keys (the static keys, extended by the
/// lookup-table keys when they were resolved). No signal without a leader (when leaders
/// are configured); a direct Pump.fun buy carries the leader's instruction accounts and
/// amounts; without the CPI heuristics nothing else is looked for.
pub open spec fn spec_parse_buy_signal(leaders: Seq<Address>, strict_signer: bool, cpi_heuristic_mint: bool, wrappers: Seq<Address>, slot: u64, tx: StreamTxModel, keys: Seq<Address>, mint_accounts: Option<Seq<Option<(Address, usize)>>>) -> ParseModel {
    match spec_pick_leader(leaders, strict_signer, keys, tx.num_required_signatures) {
        None => ParseModel::NoSignal,
        Some(leader) => match first_some(tx.instructions, direct_fn(keys)) {
            Some((mint, accs, li, lm)) => ParseModel::Signal(signal_of(slot, leader, mint, tx, SignalSource::CurveDirectBuy, Some(accs), li, lm, None, None)),
            None => {
                if !cpi_heuristic_mint {
                    ParseModel::NoSignal
                } else {
                    spec_parse_heuristics(wrappers, slot, tx, keys, leader, mint_accounts)
                }
            },
        },
    }
}

/// A signal of `tx` carrying the leader's blockhash.
fn make_signal(slot: u64, leader: Address, mint: Address, tx: &StreamTx, source: SignalSource, accounts: Option<Vec<Address>>, leader_in: Option<u64>, leader_min_out: Option<u64>, wrapper_program_id: Option<Address>, wrapper_ix_data: Option<Vec<u8>>) -> (r: TradeSignal)
    ensures
        r@ == signal_of(slot, leader, mint, tx@, source, match accounts { Some(a) => Some(a@), None => None }, leader_in, leader_min_out, wrapper_program_id,
            match wrapper_ix_data { Some(d) => Some(d@), None => None }),
{
    TradeSignal {
        slot,
        leader,
        mint,
        signature: tx.first_signature(),
        source,
        recent_blockhash: Some(tx.recent_blockhash),
        leader_ix_accounts: accounts,
        leader_in,
        leader_min_out,
        wrapper_program_id,
        wrapper_ix_data,
    }
}

/// The detectors after the direct buy.
fn parse_heuristics(mk: &MonitorKeys, wrappers: &Vec<Address>, slot: u64, tx: &StreamTx, keys: &Vec<Address>, leader: Address, mint_accounts: Option<&Vec<Option<(Address, usize)>>>) -> (r: ParseStep)
    ensures
        r@ == spec_parse_heuristics(wrappers@, slot, tx@, keys@, leader, match mint_accounts { Some(a) => Some(a@), None => None }),
{
    let ixs = &tx.instructions;
    let has_ata = has_ata_top_level(keys, ixs);
    if has_ata {
        match find_cpi_buy(mk, keys, ixs) {
            Some(sl) => {
                let mint = sl[2];
                return ParseStep::Signal(make_signal(slot, leader, mint, tx, SignalSource::CurveCpiBuy, Some(sl), None, None, None, None));
            },
            None => {},
        }
    }
    let has_amm = contains_address(keys, &pumpfun_amm_program());
    let wrap = axiom_wrap_amount_lamports(keys, ixs);
    if has_amm && wrap >= MIN_WRAP_LAMPORTS {
        match axiom_infer_amm_base_mint(keys, ixs) {
            Some(m) => {
                return ParseStep::Signal(make_signal(slot, leader, m, tx, SignalSource::AmmAxiomBuy, None, None, None, None, None));
            },
            None => {},
        }
    }
    if contains_address(keys, &pumpfun_program()) && has_ata {
        match infer_pump_mint_by_pdas(mk, keys) {
            Some(m) => {
                return ParseStep::Signal(make_signal(slot, leader, m, tx, SignalSource::CurvePdaBuyish, None, None, None, None, None));
            },
            None => {},
        }
    }
    let buyish = if has_amm { wrap >= MIN_WRAP_LAMPORTS } else { has_ata };
    if buyish {
        let uniq = mint_candidates(keys, ixs);
        if uniq.len() > 0 {
            match mint_accounts {
                None => {
                    return ParseStep::NeedMintAccounts(uniq);
                },
                Some(accts) => {
                    match first_mint_account(&uniq, accts) {
                        Some(m) => {
                            return ParseStep::Signal(make_signal(slot, leader, m, tx, SignalSource::RpcBuyish, None, None, None, None, None));
                        },
                        None => {},
                    }
                },
            }
        }
    }
    match find_wrapper_mirror(wrappers, keys, ixs) {
        Some((pid, accs, data, m)) => ParseStep::Signal(make_signal(slot, leader, m, tx, SignalSource::WrapperMirror, Some(accs), None, None, Some(pid), Some(data))),
        None => ParseStep::NoSignal,
    }
}

/// Parses a candidate transaction into a buy signal, over its keys (the static keys,
/// extended by the lookup-table keys when they were resolved: see `full_account_keys`).
/// `mint_accounts` is the RPC node's answer to a `NeedMintAccounts` step, if any.
pub fn parse_buy_signal_from_tx(cfg: &MonitorConfig, mk: &MonitorKeys, slot: u64, tx: &StreamTx, keys: &Vec<Address>, mint_accounts: Option<&Vec<Option<(Address, usize)>>>) -> (r: ParseStep)
    ensures
        r@ == spec_parse_buy_signal(cfg.leaders@, cfg.strict_signer, cfg.cpi_heuristic_mint, cfg.wrapper_program_ids@, slot, tx@, keys@,
            match mint_accounts { Some(a) => Some(a@), None => None }),
{
    let leader = match pick_leader(&cfg.leaders, cfg.strict_signer, keys, tx.num_required_signatures) {
        Some(l) => l,
        None => return ParseStep::NoSignal,
    };
    match find_direct_buy(keys, &tx.instructions) {
        Some((mint, accs, li, lm)) => {
            return ParseStep::Signal(make_signal(slot, leader, mint, tx, SignalSource::CurveDirectBuy, Some(accs), li, lm, None, None));
        },
        None => {},
    }
    if !cfg.cpi_heuristic_mint {
        return ParseStep::NoSignal;
    }
    parse_heuristics(mk, &cfg.wrapper_program_ids, slot, tx, keys, leader, mint_accounts)
}

// ---------------------------------------------------------------------------
// Lookup tables, entry batches and reconnects
// ---------------------------------------------------------------------------

/// The addresses a lookup-table account holds (`None`: the data is not a lookup table).
pub fn alt_addresses_from_account(data: &[u8]) -> (r: Option<Vec<Address>>)
    ensures
        r is Some <==> spec_lookup_table_decodes(data@),
        r matches Some(v) ==> {
            &&& data@.len() >= 56
            &&& data@.len() - 56 == 32 * v@.len()
            &&& forall|i: int| 0 <= i < v@.len() ==> #[trigger] v@[i]@ == data@.subrange(56 + 32 * i, 56 + 32 * i + 32)
        },
{
    decode_lookup_table(data)
}

/// Stage 0 over one transaction model.
pub open spec fn stage0_pred(leaders: Seq<Address>, strict_signer: bool, cpi_heuristic_mint: bool) -> spec_fn(StreamTxModel) -> bool {
    |tx: StreamTxModel| spec_stage0_candidate(leaders, strict_signer, cpi_heuristic_mint, tx)
}

/// A configured leader signs the transaction (counted for statistics).
pub open spec fn leader_signer_pred(leaders: Seq<Address>) -> spec_fn(StreamTxModel) -> bool {
    |tx: StreamTxModel| leaders.len() > 0 && spec_leader_signs(leaders, tx.account_keys, tx.num_required_signatures)
}

/// A stage-0 candidate with a top-level Pump.fun `buy` (counted for statistics).
pub open spec fn pump_candidate_pred(leaders: Seq<Address>, strict_signer: bool, cpi_heuristic_mint: bool) -> spec_fn(StreamTxModel) -> bool {
    |tx: StreamTxModel| spec_stage0_candidate(leaders, strict_signer, cpi_heuristic_mint, tx) && spec_pump_related(tx.account_keys, tx.instructions)
}

/// The transactions of a batch's entries, entry after entry, each entry's in order.
pub open spec fn spec_entry_txs(entries: Seq<StreamEntryModel>) -> Seq<StreamTxModel>
    decreases entries.len(),
{
    if entries.len() == 0 {
        Seq::empty()
    } else {
        spec_entry_txs(entries.drop_last()) + entries.last().transactions
    }
}

/// The transactions of a batch's entries, in order.
pub fn entry_transactions(entries: &Vec<StreamEntry>) -> (r: Vec<StreamTx>)
    ensures
        r.deep_view() == spec_entry_txs(entries.deep_view()),
{
    let mut out: Vec<StreamTx> = Vec::new();
    let mut i: usize = 0;
    while i < entries.len()
        invariant
            0 <= i <= entries@.len(),
            out.deep_view() == spec_entry_txs(entries.deep_view().take(i as int)),
        decreases entries.len() - i,
    {
        let e = &entries[i];
        let ghost base = out.deep_view();
        let mut j: usize = 0;
        while j < e.transactions.len()
            invariant
                0 <= i < entries@.len(),
                e == &entries@[i as int],
                0 <= j <= e.transactions@.len(),
                out.deep_view() =~= base + e.transactions.deep_view().take(j as int),
            decreases e.transactions.len() - j,
        {
            let t = e.transactions[j].copy();
            let ghost prev = out.deep_view();
            out.push(t);
            assert(out.deep_view() =~= prev.push(e.transactions@[j as int]@));
            assert(e.transactions.deep_view().take(j + 1) =~= e.transactions.deep_view().take(j as int).push(e.transactions@[j as int]@));
            j = j + 1;
        }
        assert(e.transactions.deep_view().take(j as int) =~= e.transactions.deep_view());
        assert(entries.deep_view().take(i + 1).drop_last() =~= entries.deep_view().take(i as int));
        assert(entries.deep_view().take(i + 1).last() == entries@[i as int]@);
        i = i + 1;
    }
    assert(entries.deep_view().take(i as int) =~= entries.deep_view());
    out
}

/// What stage 0 keeps of an entries batch, with the counts the monitor reports.
pub struct Stage0Batch {
    /// Entries in the batch.
    pub entries: usize,
    /// Transactions in the batch.
    pub txs: usize,
    /// Transactions a configured leader signs.
    pub leader_signer_txs: usize,
    /// Candidates with a top-level Pump.fun `buy`.
    pub pump_candidates: usize,
    /// The candidates, in order.
    pub candidates: Vec<StreamTx>,
}

/// Decodes an entries batch and keeps the stage-0 candidates, in order (`None` when the
/// bytes do not decode).
pub fn stage0_batch(cfg: &MonitorConfig, entries_bytes: &[u8]) -> (r: Option<Stage0Batch>)
    ensures
        match spec_decode_entry_batch(entries_bytes@) {
            None => r is None,
            Some(entries) => r matches Some(b) && b.entries == entries.len() && ({
                let txs = spec_entry_txs(entries);
                b.txs == txs.len()
                && b.candidates.deep_view() == txs.filter(stage0_pred(cfg.leaders@, cfg.strict_signer, cfg.cpi_heuristic_mint))
                && b.leader_signer_txs == txs.filter(leader_signer_pred(cfg.leaders@)).len()
                && b.pump_candidates == txs.filter(pump_candidate_pred(cfg.leaders@, cfg.strict_signer, cfg.cpi_heuristic_mint)).len()
            }),
        },
{
    let entries = match decode_entry_batch(entries_bytes) {
        None => return None,
        Some(v) => v,
    };
    let txs = entry_transactions(&entries);
    let ghost all = txs.deep_view();
    let ghost pred = stage0_pred(cfg.leaders@, cfg.strict_signer, cfg.cpi_heuristic_mint);
    let ghost lpred = leader_signer_pred(cfg.leaders@);
    let ghost ppred = pump_candidate_pred(cfg.leaders@, cfg.strict_signer, cfg.cpi_heuristic_mint);
    let mut candidates: Vec<StreamTx> = Vec::new();
    let mut leader_signer_txs: usize = 0;
    let mut pump_candidates: usize = 0;
    let mut i: usize = 0;
    while i < txs.len()
        invariant
            all == txs.deep_view(),
            pred == stage0_pred(cfg.leaders@, cfg.strict_signer, cfg.cpi_heuristic_mint),
            lpred == leader_signer_pred(cfg.leaders@),
            ppred == pump_candidate_pred(cfg.leaders@, cfg.strict_signer, cfg.cpi_heuristic_mint),
            0 <= i <= txs@.len(),
            leader_signer_txs <= i,
            pump_candidates <= i,
            candidates.deep_view() == all.take(i as int).filter(pred),
            leader_signer_txs == all.take(i as int).filter(lpred).len(),
            pump_candidates == all.take(i as int).filter(ppred).len(),
        decreases txs.len() - i,
    {
        let tx = &txs[i];
        assert(all[i as int] == tx@);
        if cfg.leaders.len() > 0 && leader_signs(&cfg.leaders, &tx.account_keys, tx.num_required_signatures) {
            leader_signer_txs = leader_signer_txs + 1;
        }
        let keep = stage0_candidate(cfg, tx);
        proof {
            assert(all.take(i + 1) =~= all.take(i as int).push(tx@));
            all.take(i as int).lemma_filter_push(tx@, pred);
            all.take(i as int).lemma_filter_push(tx@, lpred);
            all.take(i as int).lemma_filter_push(tx@, ppred);
        }
        if keep {
            if is_pump_related_candidate_no_alt(&tx.account_keys, &tx.instructions) {
                pump_candidates = pump_candidates + 1;
            }
            let c = tx.copy();
            candidates.push(c);
            assert(candidates.deep_view() =~= all.take(i as int).filter(pred).push(tx@));
        }
        i = i + 1;
    }
    assert(all.take(i as int) =~= all);
    Some(Stage0Batch { entries: entries.len(), txs: txs.len(), leader_signer_txs, pump_candidates, candidates })
}

/// The first wait after a failed connection (ms).
pub const RECONNECT_START_MS: u64 = 250;

/// The longest wait between connection attempts (ms).
pub const RECONNECT_MAX_MS: u64 = 5_000;

/// The monitor's reconnect back-off: 250 ms after a connection, doubling after each
/// failure up to 5 s.
#[derive(Clone, Copy, Debug)]
pub struct ReconnectBackoff {
    backoff_ms: u64,
}

impl ReconnectBackoff {
    /// The wait after the next failure (ms).
    pub closed spec fn spec_backoff_ms(&self) -> u64 {
        self.backoff_ms
    }

    #[verifier::type_invariant]
    spec fn inv(self) -> bool {
        RECONNECT_START_MS <= self.backoff_ms <= RECONNECT_MAX_MS
    }

    /// A fresh back-off.
    pub fn new() -> (r: ReconnectBackoff)
        ensures
            r.spec_backoff_ms() == RECONNECT_START_MS,
    {
        ReconnectBackoff { backoff_ms: RECONNECT_START_MS }
    }

    /// After a failed connection or subscription: wait the current back-off, which then
    /// doubles up to 5 s.
    pub fn on_failure(&mut self) -> (wait_ms: u64)
        ensures
            wait_ms == old(self).spec_backoff_ms(),
            RECONNECT_START_MS <= wait_ms <= RECONNECT_MAX_MS,
            final(self).spec_backoff_ms() == (if 2 * wait_ms < RECONNECT_MAX_MS { 2 * wait_ms } else { RECONNECT_MAX_MS as int }),
    {
        proof {
            use_type_invariant(&*self);
        }
        let wait = self.backoff_ms;
        let doubled = wait * 2;
        self.backoff_ms = if doubled < RECONNECT_MAX_MS { doubled } else { RECONNECT_MAX_MS };
        wait
    }

    /// After a connection: back to 250 ms.
    pub fn on_connected(&mut self)
        ensures
            final(self).spec_backoff_ms() == RECONNECT_START_MS,
    {
        self.backoff_ms = RECONNECT_START_MS;
    }
}

// ---------------------------------------------------------------------------
// Laws of the detectors
// ---------------------------------------------------------------------------

/// Buys only: a direct-buy signal comes from a top-level Pump.fun instruction whose data
/// starts with the `buy` discriminator, never the `sell` one; its mint is the
/// instruction's third account, it carries the instruction's accounts in order, and the
/// leader's SOL in and minimum out are the two little-endian words after the
/// discriminator (none when the data is shorter).
pub proof fn law_direct_signal_is_a_buy(leaders: Seq<Address>, strict_signer: bool, cpi_heuristic_mint: bool, wrappers: Seq<Address>, slot: u64, tx: StreamTxModel, keys: Seq<Address>, mint_accounts: Option<Seq<Option<(Address, usize)>>>)
    ensures
        spec_parse_buy_signal(leaders, strict_signer, cpi_heuristic_mint, wrappers, slot, tx, keys, mint_accounts) matches ParseModel::Signal(sig)
            ==> (sig.source == SignalSource::CurveDirectBuy ==> exists|i: int| 0 <= i < tx.instructions.len() && {
                let ix = #[trigger] tx.instructions[i];
                &&& ix_program(keys, ix) == Some(spec_pumpfun_program())
                &&& ix.data.len() >= 8
                &&& spec_u64_at(ix.data, 0) == PUMP_BUY_METHOD
                &&& spec_u64_at(ix.data, 0) != PUMP_SELL_METHOD
                &&& ix.accounts.len() > 2
                &&& key_at(keys, ix.accounts[2]) == Some(sig.mint)
                &&& sig.leader_ix_accounts == Some(resolved_accounts(keys, ix.accounts))
                &&& (ix.data.len() >= 24 ==> sig.leader_in == Some(spec_u64_at(ix.data, 8)) && sig.leader_min_out == Some(spec_u64_at(ix.data, 16)))
                &&& (ix.data.len() < 24 ==> sig.leader_in is None && sig.leader_min_out is None)
            }),
{
    let f = direct_fn(keys);
    if first_some(tx.instructions, f) is Some {
        lemma_first_some_found(tx.instructions, f);
    }
}

/// Leaders only: with leaders configured, every signal names a configured leader that the
/// transaction holds, among its signers under `strict_signer`.
pub proof fn law_signal_leader_is_configured(leaders: Seq<Address>, strict_signer: bool, cpi_heuristic_mint: bool, wrappers: Seq<Address>, slot: u64, tx: StreamTxModel, keys: Seq<Address>, mint_accounts: Option<Seq<Option<(Address, usize)>>>)
    requires
        leaders.len() > 0,
    ensures
        spec_parse_buy_signal(leaders, strict_signer, cpi_heuristic_mint, wrappers, slot, tx, keys, mint_accounts) matches ParseModel::Signal(sig)
            ==> leaders.contains(sig.leader) && exists|i: int| 0 <= i < keys.len() && keys[i] == sig.leader
                && (strict_signer ==> i < tx.num_required_signatures),
{
    let f = leader_pick(leaders);
    let n: int = if (tx.num_required_signatures as int) < keys.len() { tx.num_required_signatures as int } else { keys.len() as int };
    let s = if strict_signer { keys.subrange(0, n) } else { keys };
    if first_some(s, f) is Some {
        lemma_first_some_found(s, f);
        let i = choose|i: int| 0 <= i < s.len() && f(#[trigger] s[i]) == first_some(s, f);
        assert(keys[i] == s[i]);
    }
}

/// Without the CPI heuristics only direct Pump.fun buys are signalled.
pub proof fn law_no_heuristics_only_direct(leaders: Seq<Address>, strict_signer: bool, wrappers: Seq<Address>, slot: u64, tx: StreamTxModel, keys: Seq<Address>, mint_accounts: Option<Seq<Option<(Address, usize)>>>)
    ensures
        spec_parse_buy_signal(leaders, strict_signer, false, wrappers, slot, tx, keys, mint_accounts) matches ParseModel::Signal(sig)
            ==> sig.source == SignalSource::CurveDirectBuy,
        !(spec_parse_buy_signal(leaders, strict_signer, false, wrappers, slot, tx, keys, mint_accounts) is NeedMintAccounts),
{
}

/// Every signal carries the slot, the leader transaction's first signature (zeros when it
/// has none) and its blockhash (for builds without RPC).
pub proof fn law_signal_carries_leader_tx(leaders: Seq<Address>, strict_signer: bool, cpi_heuristic_mint: bool, wrappers: Seq<Address>, slot: u64, tx: StreamTxModel, keys: Seq<Address>, mint_accounts: Option<Seq<Option<(Address, usize)>>>)
    ensures
        spec_parse_buy_signal(leaders, strict_signer, cpi_heuristic_mint, wrappers, slot, tx, keys, mint_accounts) matches ParseModel::Signal(sig)
            ==> sig.slot == slot && sig.signature == spec_first_signature(tx) && sig.recent_blockhash == Some(tx.recent_blockhash),
{
}

/// A wrapper-mirror signal names an allow-listed wrapper other than Trojan and a known
/// (non-zero) mint, and carries the wrapper instruction's data.
pub proof fn law_wrapper_signal_is_allowed(leaders: Seq<Address>, strict_signer: bool, cpi_heuristic_mint: bool, wrappers: Seq<Address>, slot: u64, tx: StreamTxModel, keys: Seq<Address>, mint_accounts: Option<Seq<Option<(Address, usize)>>>)
    ensures
        spec_parse_buy_signal(leaders, strict_signer, cpi_heuristic_mint, wrappers, slot, tx, keys, mint_accounts) matches ParseModel::Signal(sig)
            ==> (sig.source == SignalSource::WrapperMirror ==> sig.mint != Address::spec_zero() && sig.wrapper_ix_data is Some
                && sig.leader_ix_accounts is Some && (sig.wrapper_program_id matches Some(p) && wrappers.contains(p) && p != spec_trojan_program())),
{
    let ixs = tx.instructions;
    let f = wrapper_fn(wrappers, keys, ixs);
    if first_some(ixs, f) is Some {
        lemma_first_some_found(ixs, f);
    }
}

/// Stage 0 loses no direct buy: a transaction that the detectors, over its static keys,
/// turn into a direct Pump.fun buy signal passes stage 0.
pub proof fn law_stage0_keeps_direct_buys(leaders: Seq<Address>, strict_signer: bool, cpi_heuristic_mint: bool, wrappers: Seq<Address>, slot: u64, tx: StreamTxModel, mint_accounts: Option<Seq<Option<(Address, usize)>>>)
    ensures
        spec_parse_buy_signal(leaders, strict_signer, cpi_heuristic_mint, wrappers, slot, tx, tx.account_keys, mint_accounts) matches ParseModel::Signal(sig)
            ==> (sig.source == SignalSource::CurveDirectBuy ==> spec_stage0_candidate(leaders, strict_signer, cpi_heuristic_mint, tx)),
{
    let keys = tx.account_keys;
    let r = spec_parse_buy_signal(leaders, strict_signer, cpi_heuristic_mint, wrappers, slot, tx, keys, mint_accounts);
    if let ParseModel::Signal(sig) = r {
        if sig.source == SignalSource::CurveDirectBuy {
            law_direct_signal_is_a_buy(leaders, strict_signer, cpi_heuristic_mint, wrappers, slot, tx, keys, mint_accounts);
            let i = choose|i: int| 0 <= i < tx.instructions.len() && {
                let ix = #[trigger] tx.instructions[i];
                &&& ix_program(keys, ix) == Some(spec_pumpfun_program())
                &&& ix.data.len() >= 8
                &&& spec_u64_at(ix.data, 0) == PUMP_BUY_METHOD
                &&& spec_u64_at(ix.data, 0) != PUMP_SELL_METHOD
                &&& key_at(keys, ix.accounts[2]) == Some(sig.mint)
            };
            assert(spec_pump_buy_ix(keys, tx.instructions[i]));
            assert(spec_pump_related(keys, tx.instructions));
            if leaders.len() > 0 {
                law_signal_leader_is_configured(leaders, strict_signer, cpi_heuristic_mint, wrappers, slot, tx, keys, mint_accounts);
                let j = choose|j: int| 0 <= j < keys.len() && keys[j] == sig.leader && (strict_signer ==> j < tx.num_required_signatures);
                assert(leaders.contains(keys[j]));
            }
        }
    }
}

/// What `spec_first_mint_account` picks is a candidate whose fetched account is a mint.
proof fn lemma_first_mint_account_found(uniq: Seq<Address>, accounts: Seq<Option<(Address, usize)>>)
    ensures
        spec_first_mint_account(uniq, accounts) matches Some(m) ==> exists|i: int| 0 <= i < uniq.len() && i < accounts.len()
            && #[trigger] uniq[i] == m && (accounts[i] matches Some((owner, len)) && spec_is_mint_account(owner, len)),
    decreases uniq.len(),
{
    if uniq.len() > 0 && accounts.len() > 0 {
        let u = uniq.subrange(1, uniq.len() as int);
        let a = accounts.subrange(1, accounts.len() as int);
        lemma_first_mint_account_found(u, a);
        if let Some(m) = spec_first_mint_account(uniq, accounts) {
            if !(accounts[0] matches Some((owner, len)) && spec_is_mint_account(owner, len)) {
                let i = choose|i: int| 0 <= i < u.len() && i < a.len() && #[trigger] u[i] == m && (a[i] matches Some((owner, len)) && spec_is_mint_account(owner, len));
                assert(uniq[i + 1] == u[i] && accounts[i + 1] == a[i]);
            } else {
                assert(uniq[0] == m);
            }
        }
    }
}

/// Each detector past the direct buy signals only on its evidence:
/// - a curve buy under Axiom carries its 16-account Pump.fun block (the global account
///   first, the system program at 7, the token or Token-2022 program at 8, Pump.fun at
///   11, the fees program at 15) with the `...pump` mint at 2, next to a top-level
///   token-account creation;
/// - a PumpSwap buy through Axiom has PumpSwap among the keys, an Axiom instruction that
///   wraps at least `MIN_WRAP_LAMPORTS` of SOL, and an Axiom instruction passing PumpSwap
///   where the mint comes just before the first WSOL account and is no program of the trade;
/// - a curve buy found by its addresses names a key, no Pump.fun program account, whose
///   bonding curve and the curve's token account are among the keys, next to Pump.fun, its
///   global account and event authority and a top-level token-account creation;
/// - a mint found through the RPC node is a candidate whose fetched account is a mint.
pub proof fn law_heuristic_signals_have_evidence(wrappers: Seq<Address>, slot: u64, tx: StreamTxModel, keys: Seq<Address>, leader: Address, mint_accounts: Option<Seq<Option<(Address, usize)>>>)
    ensures
        spec_parse_heuristics(wrappers, slot, tx, keys, leader, mint_accounts) matches ParseModel::Signal(sig) ==> {
            let ixs = tx.instructions;
            &&& (sig.source == SignalSource::CurveCpiBuy ==> {
                &&& spec_has_ata_top_level(keys, ixs)
                &&& sig.leader_ix_accounts matches Some(sl)
                &&& sl.len() == 16 && sl[0] == global_key() && sl[7] == spec_system_program()
                &&& (sl[8] == spec_token_program() || sl[8] == spec_token_2022_program())
                &&& sl[11] == spec_pumpfun_program() && sl[15] == spec_pumpfun_fee_program()
                &&& sig.mint == sl[2]
                &&& spec_ends_with(spec_pubkey_base58(sig.mint@), "pump"@)
            })
            &&& (sig.source == SignalSource::AmmAxiomBuy ==> {
                &&& keys.contains(spec_pumpfun_amm_program())
                &&& (exists|i: int| 0 <= i < ixs.len() && {
                    let ix = #[trigger] ixs[i];
                    &&& ix_program(keys, ix) == Some(spec_axiom_program())
                    &&& ix.data.len() >= 9 && ix.data[0] == 1
                    &&& spec_u64_at(ix.data, 1) >= MIN_WRAP_LAMPORTS
                })
                &&& (exists|i: int| 0 <= i < ixs.len() && {
                    let ix = #[trigger] ixs[i];
                    let accs = resolved_accounts(keys, ix.accounts);
                    &&& ix_program(keys, ix) == Some(spec_axiom_program())
                    &&& accs.contains(spec_pumpfun_amm_program())
                    &&& first_index(accs, spec_wsol_mint()) matches Some(w)
                    &&& 0 < w < accs.len() && accs[w] == spec_wsol_mint()
                    &&& (forall|j: int| 0 <= j < w ==> accs[j] != spec_wsol_mint())
                    &&& accs[w - 1] == sig.mint
                })
                &&& sig.mint != spec_wsol_mint() && sig.mint != spec_system_program() && sig.mint != spec_token_program()
                &&& sig.mint != spec_axiom_program() && sig.mint != spec_pumpfun_amm_program()
            })
            &&& (sig.source == SignalSource::CurvePdaBuyish ==> {
                &&& keys.contains(spec_pumpfun_program()) && keys.contains(global_key()) && keys.contains(event_key())
                &&& spec_has_ata_top_level(keys, ixs)
                &&& keys.contains(sig.mint)
                &&& sig.mint != spec_pumpfun_program() && sig.mint != global_key() && sig.mint != event_key()
                &&& spec_bonding_curve(sig.mint) matches Some(bc)
                &&& keys.contains(bc)
                &&& ((spec_ata(bc, sig.mint, spec_token_program()) matches Some(a) && keys.contains(a))
                    || (spec_ata(bc, sig.mint, spec_token_2022_program()) matches Some(a) && keys.contains(a)))
            })
            &&& (sig.source == SignalSource::RpcBuyish ==> {
                &&& mint_accounts matches Some(accts)
                &&& exists|i: int| 0 <= i < accts.len() && i < spec_mint_candidates(keys, ixs).len()
                    && #[trigger] spec_mint_candidates(keys, ixs)[i] == sig.mint
                    && (accts[i] matches Some((owner, len)) && spec_is_mint_account(owner, len))
            })
        },
{
    let ixs = tx.instructions;
    let r = spec_parse_heuristics(wrappers, slot, tx, keys, leader, mint_accounts);
    let has_ata = spec_has_ata_top_level(keys, ixs);
    if has_ata && first_some(ixs, cpi_fn(keys)) is Some {
        lemma_first_some_found(ixs, cpi_fn(keys));
        let i = choose|i: int| 0 <= i < ixs.len() && cpi_fn(keys)(#[trigger] ixs[i]) == first_some(ixs, cpi_fn(keys));
        law_cpi_block_shape(keys, ixs[i], 0);
        return;
    }
    let wrap = spec_axiom_wrap_amount(keys, ixs);
    let amm_base = spec_axiom_amm_base_mint(keys, ixs);
    if keys.contains(spec_pumpfun_amm_program()) && wrap >= MIN_WRAP_LAMPORTS && amm_base is Some {
        assert(first_some(ixs, wrap_fn(keys)) is Some);
        lemma_first_some_found(ixs, wrap_fn(keys));
        let i = choose|i: int| 0 <= i < ixs.len() && wrap_fn(keys)(#[trigger] ixs[i]) == first_some(ixs, wrap_fn(keys));
        assert(spec_wrap_of(keys, ixs[i]) == Some(wrap));
        lemma_first_some_found(ixs, amm_base_fn(keys));
        let i2 = choose|i: int| 0 <= i < ixs.len() && amm_base_fn(keys)(#[trigger] ixs[i]) == first_some(ixs, amm_base_fn(keys));
        let ix = ixs[i2];
        let accs = resolved_accounts(keys, ix.accounts);
        lemma_first_index_found(accs, spec_wsol_mint());
        let w = first_index(accs, spec_wsol_mint())->0;
        assert(accs[w - 1] == amm_base->0);
        return;
    }
    let pda_mint = spec_infer_pump_mint_by_pdas(keys);
    if keys.contains(spec_pumpfun_program()) && has_ata && pda_mint is Some {
        lemma_first_some_found(keys, pda_mint_fn(keys));
        let j = choose|j: int| 0 <= j < keys.len() && pda_mint_fn(keys)(#[trigger] keys[j]) == first_some(keys, pda_mint_fn(keys));
        assert(spec_pda_mint_of(keys, keys[j]) == Some(keys[j]));
        return;
    }
    if let Some(accts) = mint_accounts {
        lemma_first_mint_account_found(spec_mint_candidates(keys, ixs), accts);
    }
}

/// The mint found by its vanity suffix is the first key whose base58 text ends with
/// `pump`; none is found when no key's text does.
pub proof fn law_suffix_mint_is_first(keys: Seq<Address>)
    ensures
        spec_infer_mint_by_suffix_pump(keys) matches Some(m) ==> exists|i: int| 0 <= i < keys.len() && #[trigger] keys[i] == m
            && spec_ends_with(spec_pubkey_base58(m@), "pump"@)
            && forall|j: int| 0 <= j < i ==> !spec_ends_with(spec_pubkey_base58((#[trigger] keys[j])@), "pump"@),
        spec_infer_mint_by_suffix_pump(keys) is None ==> forall|j: int| 0 <= j < keys.len()
            ==> !spec_ends_with(spec_pubkey_base58((#[trigger] keys[j])@), "pump"@),
{
    let f = |k: Address| spec_pump_suffix_of(k);
    lemma_first_some_first(keys, f);
    if let Some(m) = spec_infer_mint_by_suffix_pump(keys) {
        let i = choose|i: int| 0 <= i < keys.len() && f(#[trigger] keys[i]) == first_some(keys, f)
            && forall|j: int| 0 <= j < i ==> f(#[trigger] keys[j]) is None;
        assert(keys[i] == m);
        assert forall|j: int| 0 <= j < i implies !spec_ends_with(spec_pubkey_base58((#[trigger] keys[j])@), "pump"@) by {
            assert(f(keys[j]) is None);
        }
    } else {
        assert forall|j: int| 0 <= j < keys.len() implies !spec_ends_with(spec_pubkey_base58((#[trigger] keys[j])@), "pump"@) by {
            assert(f(keys[j]) is None);
        }
    }
}

/// The accounts the RPC node is asked about are distinct accounts of the instructions, at
/// most 80, none of them a token program or WSOL.
pub proof fn law_mint_candidates(flat: Seq<Address>)
    ensures
        spec_collect_candidates(flat).no_duplicates(),
        spec_collect_candidates(flat).len() <= MAX_MINT_CANDIDATES,
        forall|i: int| 0 <= i < spec_collect_candidates(flat).len() ==> {
            let k = #[trigger] spec_collect_candidates(flat)[i];
            flat.contains(k) && !spec_not_candidate(k)
        },
    decreases flat.len(),
{
    if flat.len() > 0 {
        let d = flat.drop_last();
        law_mint_candidates(d);
        let acc = spec_collect_candidates(d);
        let r = spec_collect_candidates(flat);
        assert forall|i: int| 0 <= i < r.len() implies {
            let k = #[trigger] r[i];
            flat.contains(k) && !spec_not_candidate(k)
        } by {
            if i < acc.len() {
                assert(r[i] == acc[i]);
                let k = acc[i];
                let j = choose|j: int| 0 <= j < d.len() && d[j] == k;
                assert(flat[j] == d[j]);
            } else {
                assert(r[i] == flat.last());
                assert(flat[flat.len() - 1] == flat.last());
            }
        }
        if r != acc {
            assert forall|a: int, b: int| 0 <= a < r.len() && 0 <= b < r.len() && a != b implies r[a] != r[b] by {
                if a < acc.len() && b < acc.len() {
                    assert(r[a] == acc[a] && r[b] == acc[b]);
                } else if a < acc.len() {
                    assert(r[a] == acc[a]);
                } else {
                    assert(r[b] == acc[b]);
                }
            }
        }
    }
}

} // verus!
