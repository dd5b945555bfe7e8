//! Submitting a trade: the demo transaction, the submission throttle, which block engines a
//! bundle goes to, and the submission itself as a state machine (base58 bundle, base64
//! retry, failover on rate limits, `sendTransaction` fallback).
use crate::address::Address;
use crate::budget::{demo_ixs, spec_demo_ixs, FeeParams};
use crate::config::ExecutionMode;
use crate::text::{chars_of, contains_str, find_chars, spec_contains, spec_find};
use crate::trade::{sign_trade_ixs, spec_signed, tx_result_is, TradeError};
use crate::tx::PayerKeypair;
use vstd::prelude::*;

verus! {

// ---------------------------------------------------------------------------
// What a signal leads to
// ---------------------------------------------------------------------------

/// Whether a signal in this mode first takes the execution gate (one execution at a time;
/// signals that find it taken are dropped).
pub fn needs_exec_gate(mode: &ExecutionMode) -> (r: bool)
    ensures
        r == (mode is Demo || mode is BundlePumpbuy),
{
    match mode {
        ExecutionMode::Demo => true,
        ExecutionMode::BundlePumpbuy => true,
        _ => false,
    }
}

/// What the executor does with a signal.
#[derive(Clone, Debug)]
pub enum SignalAction {
    /// Log the signal.
    Log,
    /// The execution gate is taken: drop the signal.
    SkipBusy,
    /// Send the demo transaction to the first block engine.
    DemoViaJito,
    /// Send the demo transaction through the RPC node (no block engine configured).
    DemoViaRpc,
    /// Build the trade bundle and submit it.
    SubmitBundle,
    /// The bundle mode has no block engine to submit to.
    NoJitoClients,
    /// The mode setting names no mode (the setting).
    UnknownMode(String),
}

/// Decides what a signal leads to, given the mode, whether the execution gate was taken
/// for it (see `needs_exec_gate`) and the number of block-engine clients.
pub fn signal_action(mode: &ExecutionMode, gate_acquired: bool, jito_clients: usize) -> (r: SignalAction)
    ensures
        mode is Log ==> r is Log,
        mode matches ExecutionMode::Unknown(t) ==> (r matches SignalAction::UnknownMode(u) && u@ == t@),
        (mode is Demo || mode is BundlePumpbuy) && !gate_acquired ==> r is SkipBusy,
        mode is Demo && gate_acquired ==> (if jito_clients > 0 { r is DemoViaJito } else { r is DemoViaRpc }),
        mode is BundlePumpbuy && gate_acquired ==> (if jito_clients > 0 { r is SubmitBundle } else { r is NoJitoClients }),
{
    match mode {
        ExecutionMode::Log => SignalAction::Log,
        ExecutionMode::Unknown(t) => SignalAction::UnknownMode(t.clone()),
        ExecutionMode::Demo => {
            if !gate_acquired {
                SignalAction::SkipBusy
            } else if jito_clients > 0 {
                SignalAction::DemoViaJito
            } else {
                SignalAction::DemoViaRpc
            }
        },
        ExecutionMode::BundlePumpbuy => {
            if !gate_acquired {
                SignalAction::SkipBusy
            } else if jito_clients > 0 {
                SignalAction::SubmitBundle
            } else {
                SignalAction::NoJitoClients
            }
        },
    }
}

// ---------------------------------------------------------------------------
// The demo transaction
// ---------------------------------------------------------------------------

/// Builds and signs the demo transaction (a 1-lamport self-transfer with the usual compute
/// budget and tip).
pub fn build_demo_tx_bytes(fees: &FeeParams, payer: &PayerKeypair, tip_account: &Address, blockhash: &[u8; 32]) -> (r: Result<Vec<u8>, TradeError>)
    ensures
        tx_result_is(r, spec_signed(Ok(spec_demo_ixs(*fees, payer.spec_pubkey(), *tip_account)), *payer, blockhash@)),
{
    let ours = payer.pubkey();
    let ixs = demo_ixs(fees, &ours, tip_account);
    sign_trade_ixs(Ok(ixs), payer, blockhash)
}

// ---------------------------------------------------------------------------
// Throttle
// ---------------------------------------------------------------------------

/// How long to wait before the next submission, `elapsed_ms` after the last one, to keep
/// submissions `min_interval_ms` apart.
pub open spec fn spec_throttle_wait(elapsed_ms: u64, min_interval_ms: u64) -> u64 {
    if elapsed_ms >= min_interval_ms { 0 } else { (min_interval_ms - elapsed_ms) as u64 }
}

/// How long to wait before the next submission.
pub fn throttle_wait_ms(elapsed_ms: u64, min_interval_ms: u64) -> (r: u64)
    ensures
        r == spec_throttle_wait(elapsed_ms, min_interval_ms),
        elapsed_ms + r >= min_interval_ms,
{
    if elapsed_ms >= min_interval_ms { 0 } else { min_interval_ms - elapsed_ms }
}

// ---------------------------------------------------------------------------
// Bundles and block-engine errors
// ---------------------------------------------------------------------------

/// A bundle can be sent: it has transactions and none of them is empty. Else the number of
/// transactions is reported.
pub fn validate_bundle(txs: &Vec<Vec<u8>>) -> (r: Result<(), usize>)
    ensures
        (txs@.len() > 0 && forall|i: int| 0 <= i < txs@.len() ==> #[trigger] txs@[i]@.len() > 0) ==> r is Ok,
        !(txs@.len() > 0 && forall|i: int| 0 <= i < txs@.len() ==> #[trigger] txs@[i]@.len() > 0) ==> r == Err::<(), usize>(txs@.len() as usize),
{
    if txs.len() == 0 {
        return Err(txs.len());
    }
    let mut i: usize = 0;
    while i < txs.len()
        invariant
            0 <= i <= txs@.len(),
            forall|j: int| 0 <= j < i ==> #[trigger] txs@[j]@.len() > 0,
        decreases txs.len() - i,
    {
        if txs[i].len() == 0 {
            return Err(txs.len());
        }
        i = i + 1;
    }
    Ok(())
}

/// The decimal value of a string of ASCII digits.
pub open spec fn spec_decimal(ds: Seq<char>) -> nat
    decreases ds.len(),
{
    if ds.len() == 0 {
        0
    } else {
        10 * spec_decimal(ds.drop_last()) + ((ds.last() as nat) - 48) as nat
    }
}

/// An ASCII digit.
pub open spec fn is_digit(c: char) -> bool {
    '0' <= c && c <= '9'
}

/// The number of leading ASCII digits.
pub open spec fn spec_digit_run(s: Seq<char>) -> nat
    decreases s.len(),
{
    if s.len() > 0 && is_digit(s[0]) { 1 + spec_digit_run(s.drop_first()) } else { 0 }
}

/// The marker of a block engine's retry hint.
pub open spec fn retry_marker() -> Seq<char> {
    "Retry after "@
}

/// The wait a block engine asks for: the digits right after the first `Retry after `, read
/// as milliseconds; none without the marker, without digits, or past `u64::MAX`.
pub open spec fn spec_retry_after_ms(err: Seq<char>) -> Option<u64> {
    match spec_find(err, retry_marker()) {
        None => None,
        Some(idx) => {
            let rest = err.skip(idx + retry_marker().len());
            let digits = rest.take(spec_digit_run(rest) as int);
            if digits.len() == 0 || spec_decimal(digits) > u64::MAX {
                None
            } else {
                Some(spec_decimal(digits) as u64)
            }
        },
    }
}

/// Counting leading digits from position `i` on.
proof fn lemma_digit_run_step(s: Seq<char>, i: int)
    requires
        0 <= i <= s.len(),
        forall|k: int| 0 <= k < i ==> is_digit(#[trigger] s[k]),
    ensures
        spec_digit_run(s) == i + spec_digit_run(s.skip(i)),
    decreases i,
{
    if i > 0 {
        assert(is_digit(s[0]));
        assert forall|k: int| 0 <= k < i - 1 implies is_digit(#[trigger] s.drop_first()[k]) by {
            assert(s.drop_first()[k] == s[k + 1]);
        }
        assert(s.drop_first().skip(i - 1) =~= s.skip(i));
        lemma_digit_run_step(s.drop_first(), i - 1);
    } else {
        assert(s.skip(0) =~= s);
    }
}

/// The value of the digits at the start of `hay[start..]`: none without digits or past
/// `u64::MAX`.
fn leading_decimal(hay: &Vec<char>, start: usize) -> (r: Option<u64>)
    requires
        start <= hay@.len(),
    ensures
        ({
            let rest = hay@.skip(start as int);
            let digits = rest.take(spec_digit_run(rest) as int);
            r == (if digits.len() == 0 || spec_decimal(digits) > u64::MAX { None } else { Some(spec_decimal(digits) as u64) })
        }),
{
    let ghost rest = hay@.skip(start as int);
    let n = hay.len();
    let mut j: usize = start;
    let mut value: u64 = 0;
    let mut fits = true;
    while j < n && '0' <= hay[j] && hay[j] <= '9'
        invariant
            n == hay@.len(),
            start <= j <= n,
            rest == hay@.skip(start as int),
            forall|k: int| start <= k < j ==> is_digit(#[trigger] hay@[k]),
            fits ==> value as nat == spec_decimal(hay@.subrange(start as int, j as int)),
            !fits ==> spec_decimal(hay@.subrange(start as int, j as int)) > u64::MAX,
        decreases n - j,
    {
        let d = (hay[j] as u32 - 48) as u64;
        proof {
            let p = hay@.subrange(start as int, j + 1);
            assert(p.drop_last() =~= hay@.subrange(start as int, j as int));
            assert(p.last() == hay@[j as int]);
        }
        if fits {
            match value.checked_mul(10) {
                Some(m) => match m.checked_add(d) {
                    Some(v) => {
                        value = v;
                    },
                    None => {
                        fits = false;
                    },
                },
                None => {
                    fits = false;
                },
            }
        }
        j = j + 1;
    }
    proof {
        assert forall|k: int| 0 <= k < j - start implies is_digit(#[trigger] rest[k]) by {
            assert(rest[k] == hay@[start + k]);
        }
        lemma_digit_run_step(rest, j - start);
        if j < n {
            assert(rest.skip(j - start)[0] == hay@[j as int]);
        }
        assert(spec_digit_run(rest.skip(j - start)) == 0);
        assert(rest.take(j - start) =~= hay@.subrange(start as int, j as int));
    }
    if j == start || !fits {
        return None;
    }
    Some(value)
}

/// Reads the wait a block engine asks for from its error text.
#[verifier::rlimit(40)]
pub fn retry_after_ms_from_err(err: &str) -> (r: Option<u64>)
    ensures
        r == spec_retry_after_ms(err@),
{
    let hay = chars_of(err);
    let marker = chars_of("Retry after ");
    assert(marker@ == retry_marker());
    let idx = match find_chars(&hay, &marker) {
        None => return None,
        Some(i) => i,
    };
    let hn = hay.len();
    let mn = marker.len();
    assert(idx + mn <= hn);
    let start = idx + mn;
    leading_decimal(&hay, start)
}

/// How a block engine refused a bundle.
#[derive(Clone, Copy, Debug, PartialEq, Eq, Structural)]
pub enum SubmitErrorKind {
    /// It could not decode the base58 transactions (retry in base64).
    DecodeFailed,
    /// Rate limit or congestion (cool the endpoint down, fail over).
    RateLimited,
    /// Anything else (fail over).
    Other,
}

/// Reads how a block engine refused a bundle from its error text.
pub open spec fn spec_classify_submit_error(err: Seq<char>) -> SubmitErrorKind {
    if spec_contains(err, "could not be decoded"@) {
        SubmitErrorKind::DecodeFailed
    } else if spec_contains(err, "Rate limit exceeded"@) || spec_contains(err, "globally rate limited"@)
        || spec_contains(err, "Network congested"@) || spec_contains(err, "\"code\":-32097"@) {
        SubmitErrorKind::RateLimited
    } else {
        SubmitErrorKind::Other
    }
}

/// Reads how a block engine refused a bundle.
pub fn classify_submit_error(err: &str) -> (r: SubmitErrorKind)
    ensures
        r == spec_classify_submit_error(err@),
{
    if contains_str(err, "could not be decoded") {
        SubmitErrorKind::DecodeFailed
    } else if contains_str(err, "Rate limit exceeded") || contains_str(err, "globally rate limited")
        || contains_str(err, "Network congested") || contains_str(err, "\"code\":-32097") {
        SubmitErrorKind::RateLimited
    } else {
        SubmitErrorKind::Other
    }
}

/// The cool-down of a rate-limited endpoint: the wait it asks for, else the configured
/// cool-down.
pub open spec fn spec_cooldown_ms(err: Seq<char>, cooldown_ms: u64) -> u64 {
    match spec_retry_after_ms(err) {
        Some(ms) => ms,
        None => cooldown_ms,
    }
}

// ---------------------------------------------------------------------------
// Which block engines a bundle goes to
// ---------------------------------------------------------------------------

/// The endpoints in rotation order from `start`.
pub open spec fn spec_endpoint_order(n: usize, start: usize) -> Seq<usize> {
    Seq::new(n as nat, |o: int| ((start + o) % (n as int)) as usize)
}

/// An endpoint is available when it is not cooling down (endpoints past the list are).
pub open spec fn endpoint_available(available: Seq<bool>, i: usize) -> bool {
    (i as int) >= available.len() || available[i as int]
}

/// Available endpoints.
pub open spec fn available_pred(available: Seq<bool>) -> spec_fn(usize) -> bool {
    |i: usize| endpoint_available(available, i)
}

/// Cooling endpoints.
pub open spec fn cooling_pred(available: Seq<bool>) -> spec_fn(usize) -> bool {
    |i: usize| !endpoint_available(available, i)
}

/// The endpoint count (at least one), the rotation start, and how many endpoints to try.
pub open spec fn spec_rotation(client_count: usize, rr: usize, failover_max: usize) -> (usize, usize, usize) {
    let n: usize = if client_count > 0 { client_count } else { 1 };
    let start = (rr % n) as usize;
    let k: usize = (1 + if failover_max < n - 1 { failover_max as int } else { n - 1 }) as usize;
    (n, start, k)
}

/// The endpoints a bundle goes to, in order: starting at `rr` modulo the endpoint count, the
/// available endpoints in rotation order, then the cooling ones, up to one plus the
/// failover allowance (at most all endpoints).
pub open spec fn spec_choose_endpoints(client_count: usize, rr: usize, failover_max: usize, available: Seq<bool>) -> (usize, Seq<usize>) {
    let (n, start, k) = spec_rotation(client_count, rr, failover_max);
    let order = spec_endpoint_order(n, start);
    (start, (order.filter(available_pred(available)) + order.filter(cooling_pred(available))).take(k as int))
}

/// Chooses the endpoints of a bundle submission.
pub fn choose_endpoints(client_count: usize, rr: usize, failover_max: usize, available: &Vec<bool>) -> (r: (usize, Vec<usize>))
    ensures
        (r.0, r.1@) == spec_choose_endpoints(client_count, rr, failover_max, available@),
{
    let n: usize = if client_count > 0 { client_count } else { 1 };
    let start = rr % n;
    let k: usize = 1 + if failover_max < n - 1 { failover_max } else { n - 1 };
    let ghost order = spec_endpoint_order(n, start);
    let ghost pa = available_pred(available@);
    let ghost pc = cooling_pred(available@);
    let mut free: Vec<usize> = Vec::new();
    let mut cooling: Vec<usize> = Vec::new();
    let mut o: usize = 0;
    while o < n
        invariant
            n >= 1,
            start < n,
            order == spec_endpoint_order(n, start),
            pa == available_pred(available@),
            pc == cooling_pred(available@),
            0 <= o <= n,
            free@ == order.take(o as int).filter(pa),
            cooling@ == order.take(o as int).filter(pc),
            free@.len() + cooling@.len() == o,
        decreases n - o,
    {
        let i: usize = if start < n - o { start + o } else { o - (n - start) };
        proof {
            assert(i as int == (start + o) % (n as int)) by (nonlinear_arith)
                requires
                    start < n,
                    o < n,
                    i == (if start < n - o { start + o } else { o - (n - start) }),
            {
            }
            let t = order.take(o + 1);
            assert(t.drop_last() =~= order.take(o as int));
            assert(t.last() == i);
        }
        let avail = i >= available.len() || available[i];
        assert(pa(i) == avail);
        assert(pc(i) == !avail);
        let ghost t = order.take(o + 1);
        proof {
            assert(t =~= order.take(o as int).push(i));
            order.take(o as int).lemma_filter_push(i, pa);
            order.take(o as int).lemma_filter_push(i, pc);
        }
        if avail {
            free.push(i);
        } else {
            cooling.push(i);
        }
        assert(t.filter(pa) =~= free@);
        assert(t.filter(pc) =~= cooling@);
        o = o + 1;
    }
    assert(order.take(o as int) =~= order);
    let mut chosen: Vec<usize> = Vec::new();
    let ghost all = free@ + cooling@;
    let mut c: usize = 0;
    while c < k
        invariant
            all == free@ + cooling@,
            all.len() == n,
            k <= n,
            0 <= c <= k,
            chosen@ =~= all.take(c as int),
        decreases k - c,
    {
        if c < free.len() {
            chosen.push(free[c]);
        } else {
            chosen.push(cooling[c - free.len()]);
        }
        c = c + 1;
    }
    (start, chosen)
}

// ---------------------------------------------------------------------------
// Submitting a bundle
// ---------------------------------------------------------------------------

/// Where a bundle submission stands.
#[derive(Clone, Copy, Debug, PartialEq, Eq, Structural)]
pub enum SubmitStage {
    /// Waiting for the base58 `sendBundle` to the current endpoint.
    Base58,
    /// Waiting for the base64 retry to the current endpoint.
    Base64,
    /// Waiting for the `sendTransaction` fallback.
    SendTransaction,
    /// Finished.
    Done,
}

/// What to do next.
#[derive(Debug)]
pub enum SubmitAction {
    /// `sendBundle` (base58) to this endpoint.
    SendBundleBase58(usize),
    /// `sendBundle` (base64) to this endpoint.
    SendBundleBase64(usize),
    /// `sendTransaction` of the first transaction to this endpoint.
    SendTransaction(usize),
    /// Finished: the bundle id or signature, or the last error.
    Finished(Result<String, String>),
}

/// Mathematical value of a [`SubmitAction`].
pub enum SubmitActionModel {
    SendBundleBase58(usize),
    SendBundleBase64(usize),
    SendTransaction(usize),
    Finished(Result<Seq<char>, Seq<char>>),
}

impl View for SubmitAction {
    type V = SubmitActionModel;

    open spec fn view(&self) -> SubmitActionModel {
        match self {
            SubmitAction::SendBundleBase58(i) => SubmitActionModel::SendBundleBase58(*i),
            SubmitAction::SendBundleBase64(i) => SubmitActionModel::SendBundleBase64(*i),
            SubmitAction::SendTransaction(i) => SubmitActionModel::SendTransaction(*i),
            SubmitAction::Finished(Ok(s)) => SubmitActionModel::Finished(Ok(s@)),
            SubmitAction::Finished(Err(e)) => SubmitActionModel::Finished(Err(e@)),
        }
    }
}

/// The state of a bundle submission.
pub struct SubmitState {
    pub chosen: Seq<usize>,
    pub start_idx: usize,
    pub pos: int,
    pub stage: SubmitStage,
    pub all_rate_limited: bool,
    pub last_err: Option<Seq<char>>,
    pub fallback_sendtx: bool,
    pub cooldown_ms: u64,
}

/// One step of a submission: the cool-down to put on an endpoint, if any, and what to do
/// next.
pub struct SubmitStep {
    pub cooldown: Option<(usize, u64)>,
    pub action: SubmitAction,
}

/// The error a finished submission reports: the last block-engine error, else
/// `sendBundle failed`.
pub open spec fn final_error(last_err: Option<Seq<char>>) -> Seq<char> {
    match last_err {
        Some(e) => e,
        None => "sendBundle failed"@,
    }
}

/// After the last endpoint: the `sendTransaction` fallback when it is on and every
/// endpoint tried answered with a rate limit, else finished with the last error.
pub open spec fn spec_after_endpoints(st: SubmitState) -> (SubmitState, SubmitActionModel) {
    if st.fallback_sendtx && st.all_rate_limited {
        (SubmitState { stage: SubmitStage::SendTransaction, ..st }, SubmitActionModel::SendTransaction(st.start_idx))
    } else {
        (SubmitState { stage: SubmitStage::Done, ..st }, SubmitActionModel::Finished(Err(final_error(st.last_err))))
    }
}

/// Moves on to the next endpoint (or past the last).
pub open spec fn spec_advance(st: SubmitState) -> (SubmitState, SubmitActionModel) {
    let next = SubmitState { pos: st.pos + 1, stage: SubmitStage::Base58, ..st };
    if st.pos + 1 < st.chosen.len() {
        (next, SubmitActionModel::SendBundleBase58(st.chosen[st.pos + 1]))
    } else {
        spec_after_endpoints(next)
    }
}

/// The start of a submission over the chosen endpoints.
pub open spec fn spec_submit_start(chosen: Seq<usize>, start_idx: usize, fallback_sendtx: bool, cooldown_ms: u64) -> (SubmitState, SubmitActionModel) {
    let st = SubmitState { chosen, start_idx, pos: 0, stage: SubmitStage::Base58, all_rate_limited: chosen.len() > 0, last_err: None, fallback_sendtx, cooldown_ms };
    if chosen.len() > 0 {
        (st, SubmitActionModel::SendBundleBase58(chosen[0]))
    } else {
        spec_after_endpoints(st)
    }
}

/// One step of a submission on the answer to the last request: a success finishes it; a
/// base58 bundle the endpoint could not decode is retried in base64 on the same endpoint;
/// a rate-limited endpoint is cooled down (for the wait it asks, else the configured
/// cool-down) and the next endpoint is tried; any other failure moves
/// on to the next endpoint; a failed fallback finishes with its error. Any answer but a
/// rate limit rules the fallback out.
pub open spec fn spec_submit_step(st: SubmitState, result: Result<Seq<char>, Seq<char>>) -> (SubmitState, Option<(usize, u64)>, SubmitActionModel) {
    match result {
        Ok(id) => (SubmitState { stage: SubmitStage::Done, ..st }, None, SubmitActionModel::Finished(Ok(id))),
        Err(e) => match st.stage {
            SubmitStage::Base58 => match spec_classify_submit_error(e) {
                SubmitErrorKind::DecodeFailed => (SubmitState { stage: SubmitStage::Base64, all_rate_limited: false, ..st }, None,
                    SubmitActionModel::SendBundleBase64(st.chosen[st.pos])),
                SubmitErrorKind::RateLimited => {
                    let (n, a) = spec_advance(SubmitState { last_err: Some(e), ..st });
                    (n, Some((st.chosen[st.pos], spec_cooldown_ms(e, st.cooldown_ms))), a)
                },
                SubmitErrorKind::Other => {
                    let (n, a) = spec_advance(SubmitState { all_rate_limited: false, last_err: Some(e), ..st });
                    (n, None, a)
                },
            },
            SubmitStage::Base64 => {
                let (n, a) = spec_advance(SubmitState { all_rate_limited: false, last_err: Some(e), ..st });
                (n, None, a)
            },
            _ => (SubmitState { stage: SubmitStage::Done, last_err: Some(e), ..st }, None, SubmitActionModel::Finished(Err(e))),
        },
    }
}

/// The requests a submission may still make.
pub open spec fn submit_measure(st: SubmitState) -> int {
    match st.stage {
        SubmitStage::Base58 => 2 * (st.chosen.len() - st.pos) + 1,
        SubmitStage::Base64 => 2 * (st.chosen.len() - st.pos),
        SubmitStage::SendTransaction => 1,
        SubmitStage::Done => 0,
    }
}

/// A state the submission can be in.
pub open spec fn submit_state_ok(st: SubmitState) -> bool {
    match st.stage {
        SubmitStage::Base58 | SubmitStage::Base64 => 0 <= st.pos < st.chosen.len(),
        _ => 0 <= st.pos <= st.chosen.len(),
    }
}

/// A bundle submission over the chosen endpoints.
pub struct BundleSubmission {
    chosen: Vec<usize>,
    start_idx: usize,
    pos: usize,
    stage: SubmitStage,
    all_rate_limited: bool,
    last_err: Option<String>,
    fallback_sendtx: bool,
    cooldown_ms: u64,
}

impl View for BundleSubmission {
    type V = SubmitState;

    closed spec fn view(&self) -> SubmitState {
        SubmitState {
            chosen: self.chosen@,
            start_idx: self.start_idx,
            pos: self.pos as int,
            stage: self.stage,
            all_rate_limited: self.all_rate_limited,
            last_err: match self.last_err { Some(e) => Some(e@), None => None },
            fallback_sendtx: self.fallback_sendtx,
            cooldown_ms: self.cooldown_ms,
        }
    }
}

impl BundleSubmission {
    /// Past the last endpoint.
    fn after_endpoints(&mut self) -> (a: SubmitAction)
        requires
            old(self)@.pos <= old(self)@.chosen.len(),
        ensures
            (final(self)@, a@) == spec_after_endpoints(old(self)@),
    {
        if self.fallback_sendtx && self.all_rate_limited {
            self.stage = SubmitStage::SendTransaction;
            SubmitAction::SendTransaction(self.start_idx)
        } else {
            self.stage = SubmitStage::Done;
            let e = match &self.last_err {
                Some(e) => e.clone(),
                None => "sendBundle failed".to_string(),
            };
            SubmitAction::Finished(Err(e))
        }
    }

    /// To the next endpoint.
    fn advance(&mut self) -> (a: SubmitAction)
        requires
            old(self)@.pos < old(self)@.chosen.len(),
        ensures
            (final(self)@, a@) == spec_advance(old(self)@),
    {
        let n = self.chosen.len();
        assert(self.pos < n);
        self.pos = self.pos + 1;
        self.stage = SubmitStage::Base58;
        if self.pos < self.chosen.len() {
            SubmitAction::SendBundleBase58(self.chosen[self.pos])
        } else {
            self.after_endpoints()
        }
    }

    /// Starts a submission over the chosen endpoints (see `choose_endpoints`); when every
    /// endpoint answers with a rate limit, the fallback goes to `start_idx` if
    /// `fallback_sendtx` is on.
    pub fn new(chosen: Vec<usize>, start_idx: usize, fallback_sendtx: bool, cooldown_ms: u64) -> (r: (BundleSubmission, SubmitAction))
        ensures
            (r.0@, r.1@) == spec_submit_start(chosen@, start_idx, fallback_sendtx, cooldown_ms),
    {
        let any = chosen.len() > 0;
        let mut s = BundleSubmission {
            chosen,
            start_idx,
            pos: 0,
            stage: SubmitStage::Base58,
            all_rate_limited: any,
            last_err: None,
            fallback_sendtx,
            cooldown_ms,
        };
        if s.chosen.len() > 0 {
            let first = s.chosen[0];
            (s, SubmitAction::SendBundleBase58(first))
        } else {
            let a = s.after_endpoints();
            (s, a)
        }
    }

    /// Whether the submission has finished.
    pub fn is_done(&self) -> (r: bool)
        ensures
            r == (self@.stage == SubmitStage::Done),
    {
        match self.stage {
            SubmitStage::Done => true,
            _ => false,
        }
    }

    /// Takes the answer to the last request and says what to do next.
    pub fn on_result(&mut self, result: Result<String, String>) -> (r: SubmitStep)
        requires
            old(self)@.stage != SubmitStage::Done,
            submit_state_ok(old(self)@),
        ensures
            ({
                let (st, cd, a) = spec_submit_step(old(self)@, match result { Ok(s) => Ok(s@), Err(e) => Err(e@) });
                final(self)@ == st && r.cooldown == cd && r.action@ == a
            }),
            submit_state_ok(final(self)@),
            submit_measure(final(self)@) < submit_measure(old(self)@),
    {
        match result {
            Ok(id) => {
                self.stage = SubmitStage::Done;
                SubmitStep { cooldown: None, action: SubmitAction::Finished(Ok(id)) }
            },
            Err(e) => {
                match self.stage {
                    SubmitStage::Base58 => {
                        let kind = classify_submit_error(e.as_str());
                        match kind {
                            SubmitErrorKind::DecodeFailed => {
                                self.stage = SubmitStage::Base64;
                                self.all_rate_limited = false;
                                SubmitStep { cooldown: None, action: SubmitAction::SendBundleBase64(self.chosen[self.pos]) }
                            },
                            SubmitErrorKind::RateLimited => {
                                let idx = self.chosen[self.pos];
                                let wait = match retry_after_ms_from_err(e.as_str()) {
                                    Some(ms) => ms,
                                    None => self.cooldown_ms,
                                };
                                self.last_err = Some(e);
                                let a = self.advance();
                                SubmitStep { cooldown: Some((idx, wait)), action: a }
                            },
                            SubmitErrorKind::Other => {
                                self.all_rate_limited = false;
                                self.last_err = Some(e);
                                let a = self.advance();
                                SubmitStep { cooldown: None, action: a }
                            },
                        }
                    },
                    SubmitStage::Base64 => {
                        self.all_rate_limited = false;
                        self.last_err = Some(e);
                        let a = self.advance();
                        SubmitStep { cooldown: None, action: a }
                    },
                    _ => {
                        let msg = e.clone();
                        self.stage = SubmitStage::Done;
                        self.last_err = Some(e);
                        SubmitStep { cooldown: None, action: SubmitAction::Finished(Err(msg)) }
                    },
                }
            },
        }
    }
}

// ---------------------------------------------------------------------------
// Laws of the submission
// ---------------------------------------------------------------------------

/// What a filter keeps satisfies the predicate and comes from the sequence, without
/// repeats when the sequence has none.
proof fn lemma_filter_keeps<A>(s: Seq<A>, p: spec_fn(A) -> bool)
    ensures
        forall|i: int| 0 <= i < s.filter(p).len() ==> p(#[trigger] s.filter(p)[i]) && s.contains(s.filter(p)[i]),
        s.no_duplicates() ==> s.filter(p).no_duplicates(),
    decreases s.len(),
{
    reveal(Seq::filter);
    if s.len() > 0 {
        let d = s.drop_last();
        lemma_filter_keeps(d, p);
        let fd = d.filter(p);
        let out = s.filter(p);
        assert forall|i: int| 0 <= i < out.len() implies p(#[trigger] out[i]) && s.contains(out[i]) by {
            if i < fd.len() {
                assert(out[i] == fd[i]);
                let k = choose|k: int| 0 <= k < d.len() && d[k] == fd[i];
                assert(s[k] == d[k]);
            } else {
                assert(out[i] == s.last());
                assert(s[s.len() - 1] == s.last());
            }
        }
        if s.no_duplicates() {
            assert(d.no_duplicates()) by {
                assert forall|a: int, b: int| 0 <= a < d.len() && 0 <= b < d.len() && a != b implies d[a] != d[b] by {
                    assert(d[a] == s[a] && d[b] == s[b]);
                }
            }
            assert forall|a: int, b: int| 0 <= a < out.len() && 0 <= b < out.len() && a != b implies out[a] != out[b] by {
                if a < fd.len() && b < fd.len() {
                    assert(out[a] == fd[a] && out[b] == fd[b]);
                } else if a < fd.len() {
                    assert(out[a] == fd[a]);
                    assert(out[b] == s.last());
                    let k = choose|k: int| 0 <= k < d.len() && d[k] == fd[a];
                    assert(s[k] == d[k]);
                    assert(s[s.len() - 1] == s.last());
                } else if b < fd.len() {
                    assert(out[b] == fd[b]);
                    assert(out[a] == s.last());
                    let k = choose|k: int| 0 <= k < d.len() && d[k] == fd[b];
                    assert(s[k] == d[k]);
                    assert(s[s.len() - 1] == s.last());
                }
            }
        }
    }
}

/// Filtering by a predicate and by its negation splits the sequence.
proof fn lemma_filter_split_len<A>(s: Seq<A>, p: spec_fn(A) -> bool, q: spec_fn(A) -> bool)
    requires
        forall|x: A| #[trigger] q(x) == !p(x),
    ensures
        s.filter(p).len() + s.filter(q).len() == s.len(),
    decreases s.len(),
{
    reveal(Seq::filter);
    if s.len() > 0 {
        lemma_filter_split_len(s.drop_last(), p, q);
    }
}

/// One bundle attempt goes to distinct block engines, all of them configured ones, as
/// many as one plus the failover allowance (at most all of them), starting with the
/// rotation's endpoint when it is not cooling down.
pub proof fn law_endpoints_distinct(client_count: usize, rr: usize, failover_max: usize, available: Seq<bool>)
    ensures
        ({
            let (n, start, k) = spec_rotation(client_count, rr, failover_max);
            let (s, chosen) = spec_choose_endpoints(client_count, rr, failover_max, available);
            &&& s == start && start < n
            &&& 1 <= k <= n
            &&& chosen.len() == k
            &&& chosen.no_duplicates()
            &&& forall|i: int| 0 <= i < chosen.len() ==> (#[trigger] chosen[i]) < n
            &&& endpoint_available(available, start) ==> chosen[0] == start
        }),
{
    let (n, start, k) = spec_rotation(client_count, rr, failover_max);
    let order = spec_endpoint_order(n, start);
    let pa = available_pred(available);
    let pc = cooling_pred(available);
    assert(order.no_duplicates()) by {
        assert forall|a: int, b: int| 0 <= a < order.len() && 0 <= b < order.len() && a != b implies order[a] != order[b] by {
            assert(((start + a) % (n as int)) != ((start + b) % (n as int))) by (nonlinear_arith)
                requires
                    0 <= a < n,
                    0 <= b < n,
                    a != b,
                    0 <= start < n,
            {
                if (start + a) % (n as int) == (start + b) % (n as int) {
                    assert((start + a) - (start + b) == a - b);
                }
            }
        }
    }
    assert forall|o: int| 0 <= o < order.len() implies (#[trigger] order[o]) < n by {
        assert((start + o) % (n as int) < n) by (nonlinear_arith)
            requires
                n >= 1,
                0 <= start,
                0 <= o,
        {
        }
    }
    lemma_filter_keeps(order, pa);
    lemma_filter_keeps(order, pc);
    lemma_filter_split_len(order, pa, pc);
    let a = order.filter(pa);
    let b = order.filter(pc);
    vstd::seq_lib::lemma_no_dup_in_concat(a, b);
    let all = a + b;
    let chosen = all.take(k as int);
    assert forall|i: int| 0 <= i < all.len() implies (#[trigger] all[i]) < n by {
        if i < a.len() {
            assert(all[i] == a[i]);
            let x = choose|x: int| 0 <= x < order.len() && order[x] == a[i];
        } else {
            assert(all[i] == b[i - a.len()]);
            let x = choose|x: int| 0 <= x < order.len() && order[x] == b[i - a.len()];
        }
    }
    assert(chosen.no_duplicates()) by {
        assert forall|x: int, y: int| 0 <= x < chosen.len() && 0 <= y < chosen.len() && x != y implies chosen[x] != chosen[y] by {
            assert(chosen[x] == all[x] && chosen[y] == all[y]);
        }
    }
    assert forall|i: int| 0 <= i < chosen.len() implies (#[trigger] chosen[i]) < n by {
        assert(chosen[i] == all[i]);
    }
    if endpoint_available(available, start) {
        assert(order[0] == start) by (nonlinear_arith)
            requires
                order[0] == ((start + 0) % (n as int)) as usize,
                0 <= start < n,
        {
        }
        assert(pa(order[0]));
        reveal(Seq::filter);
        lemma_filter_first(order, pa);
        assert(all[0] == a[0]);
    }
}

/// When the first element passes, the filter starts with it.
proof fn lemma_filter_first<A>(s: Seq<A>, p: spec_fn(A) -> bool)
    requires
        s.len() > 0,
        p(s[0]),
    ensures
        s.filter(p).len() > 0,
        s.filter(p)[0] == s[0],
    decreases s.len(),
{
    reveal(Seq::filter);
    if s.len() > 1 {
        let d = s.drop_last();
        assert(d[0] == s[0]);
        lemma_filter_first(d, p);
    }
}

/// A submission makes at most two requests per chosen endpoint plus the fallback: it
/// starts in a valid state within that budget, and each answer moves it to a valid state
/// with fewer requests left.
pub proof fn law_submission_terminates(chosen: Seq<usize>, start_idx: usize, fallback_sendtx: bool, cooldown_ms: u64, st: SubmitState, result: Result<Seq<char>, Seq<char>>)
    ensures
        ({
            let (first, _a) = spec_submit_start(chosen, start_idx, fallback_sendtx, cooldown_ms);
            submit_state_ok(first) && submit_measure(first) <= 2 * chosen.len() + 1
        }),
        submit_state_ok(st) && st.stage != SubmitStage::Done ==> ({
            let (next, _c, _a) = spec_submit_step(st, result);
            submit_state_ok(next) && submit_measure(next) < submit_measure(st)
        }),
{
}

/// A submission finishes with a success only when a block engine answered with one, and
/// otherwise with the last error it saw (`sendBundle failed` when there was none).
pub proof fn law_submission_outcome(st: SubmitState, result: Result<Seq<char>, Seq<char>>)
    requires
        submit_state_ok(st),
        st.stage != SubmitStage::Done,
    ensures
        ({
            let (next, _c, a) = spec_submit_step(st, result);
            &&& (a matches SubmitActionModel::Finished(Ok(id)) ==> result == Ok::<Seq<char>, Seq<char>>(id))
            &&& (a matches SubmitActionModel::Finished(Err(e)) ==> result is Err && next.last_err == Some(e))
        }),
{
}

/// An endpoint answered with a rate limit or congestion error.
pub open spec fn rate_limited_answer(result: Result<Seq<char>, Seq<char>>) -> bool {
    result matches Err(e) && spec_classify_submit_error(e) == SubmitErrorKind::RateLimited
}

/// Feeds a submission the answers in order, until it finishes or the answers run out:
/// the last state and the last action.
pub open spec fn spec_feed(st: SubmitState, results: Seq<Result<Seq<char>, Seq<char>>>) -> (SubmitState, SubmitActionModel)
    decreases results.len(),
{
    if results.len() == 0 {
        (st, SubmitActionModel::Finished(Err(final_error(st.last_err))))
    } else {
        let (next, _c, a) = spec_submit_step(st, results[0]);
        if results.len() == 1 || next.stage == SubmitStage::Done {
            (next, a)
        } else {
            spec_feed(next, results.drop_first())
        }
    }
}

/// A run that ends asking for the fallback saw only rate limits from `st` on.
proof fn lemma_fallback_needs_rate_limits(st: SubmitState, results: Seq<Result<Seq<char>, Seq<char>>>)
    requires
        results.len() > 0,
        spec_feed(st, results).1 is SendTransaction,
    ensures
        st.all_rate_limited,
        forall|i: int| 0 <= i < results.len() ==> rate_limited_answer(#[trigger] results[i]),
    decreases results.len(),
{
    let (next, _c, a) = spec_submit_step(st, results[0]);
    if results.len() == 1 || next.stage == SubmitStage::Done {
    } else {
        let rest = results.drop_first();
        lemma_fallback_needs_rate_limits(next, rest);
        assert forall|i: int| 0 <= i < results.len() implies rate_limited_answer(#[trigger] results[i]) by {
            if i > 0 {
                assert(results[i] == rest[i - 1]);
            }
        }
    }
}

/// From an endpoint's base58 request on, rate limits from this and every later endpoint
/// lead to the fallback.
proof fn lemma_rate_limits_reach_fallback(st: SubmitState, results: Seq<Result<Seq<char>, Seq<char>>>)
    requires
        st.stage == SubmitStage::Base58,
        0 <= st.pos < st.chosen.len(),
        st.all_rate_limited,
        st.fallback_sendtx,
        results.len() == st.chosen.len() - st.pos,
        forall|i: int| 0 <= i < results.len() ==> rate_limited_answer(#[trigger] results[i]),
    ensures
        spec_feed(st, results).1 == SubmitActionModel::SendTransaction(st.start_idx),
    decreases results.len(),
{
    assert(rate_limited_answer(results[0]));
    if results.len() > 1 {
        let rest = results.drop_first();
        let (next, _c, _a) = spec_submit_step(st, results[0]);
        assert forall|i: int| 0 <= i < rest.len() implies rate_limited_answer(#[trigger] rest[i]) by {
            assert(rest[i] == results[i + 1]);
        }
        lemma_rate_limits_reach_fallback(next, rest);
    }
}

/// The `sendTransaction` fallback comes only when every bundle endpoint was rate-limited:
/// a run that ends asking for it got nothing but rate-limit or congestion answers, and,
/// with the fallback on, rate limits from every chosen endpoint do lead to it, on the
/// rotation's endpoint.
pub proof fn law_fallback_only_when_all_rate_limited(chosen: Seq<usize>, start_idx: usize, fallback_sendtx: bool, cooldown_ms: u64, results: Seq<Result<Seq<char>, Seq<char>>>)
    ensures
        ({
            let (first, _a) = spec_submit_start(chosen, start_idx, fallback_sendtx, cooldown_ms);
            &&& (results.len() > 0 && spec_feed(first, results).1 is SendTransaction) ==> {
                &&& fallback_sendtx
                &&& forall|i: int| 0 <= i < results.len() ==> rate_limited_answer(#[trigger] results[i])
            }
            &&& (fallback_sendtx && chosen.len() > 0 && results.len() == chosen.len()
                && forall|i: int| 0 <= i < results.len() ==> rate_limited_answer(#[trigger] results[i]))
                ==> spec_feed(first, results).1 == SubmitActionModel::SendTransaction(start_idx)
        }),
{
    let (first, _a) = spec_submit_start(chosen, start_idx, fallback_sendtx, cooldown_ms);
    if results.len() > 0 && spec_feed(first, results).1 is SendTransaction {
        lemma_fallback_needs_rate_limits(first, results);
        lemma_fallback_sets_flag(first, results);
    }
    if fallback_sendtx && chosen.len() > 0 && results.len() == chosen.len()
        && forall|i: int| 0 <= i < results.len() ==> rate_limited_answer(#[trigger] results[i]) {
        lemma_rate_limits_reach_fallback(first, results);
    }
}

/// The fallback is asked for only when it is switched on.
proof fn lemma_fallback_sets_flag(st: SubmitState, results: Seq<Result<Seq<char>, Seq<char>>>)
    requires
        results.len() > 0,
        spec_feed(st, results).1 is SendTransaction,
    ensures
        st.fallback_sendtx,
    decreases results.len(),
{
    let (next, _c, a) = spec_submit_step(st, results[0]);
    if results.len() == 1 || next.stage == SubmitStage::Done {
    } else {
        lemma_fallback_sets_flag(next, results.drop_first());
    }
}

} // verus!
