//! The recent-blockhash cache: the latest hash kept for the hot path, and the refresher's
//! schedule (a fixed interval, doubling back-off after failures).
use vstd::arithmetic::power2::{lemma2_to64, lemma_pow2_unfold, pow2};
use vstd::math::min;
use vstd::prelude::*;

verus! {

/// Shortest refresh interval (ms).
pub const MIN_REFRESH_MS: u64 = 50;

/// Longest back-off after failed refreshes (ms).
pub const MAX_BACKOFF_MS: u64 = 20_000;

/// The refresh interval for a configured `refresh_ms`: at least 50 ms.
pub open spec fn spec_interval(refresh_ms: u64) -> u64 {
    if refresh_ms > MIN_REFRESH_MS { refresh_ms } else { MIN_REFRESH_MS }
}

/// The back-off stays between the minimum interval and the larger of the interval and the
/// back-off cap.
pub open spec fn backoff_in_bounds(refresh_ms: u64, backoff_ms: u64) -> bool {
    MIN_REFRESH_MS <= backoff_ms && (backoff_ms <= spec_interval(refresh_ms) || backoff_ms <= MAX_BACKOFF_MS)
}

/// The back-off after a failure that waited `backoff_ms`: doubled, at most 20 s.
pub open spec fn spec_next_backoff(backoff_ms: int) -> int {
    if 2 * backoff_ms < MAX_BACKOFF_MS { 2 * backoff_ms } else { MAX_BACKOFF_MS as int }
}

/// The back-off of a refresher started with `refresh_ms` after `k` failures in a row
/// (the wait of the next failure).
pub open spec fn spec_backoff_after(refresh_ms: u64, k: nat) -> int
    decreases k,
{
    if k == 0 {
        spec_interval(refresh_ms) as int
    } else {
        spec_next_backoff(spec_backoff_after(refresh_ms, (k - 1) as nat))
    }
}

/// The refresher's schedule: the configured interval and the current back-off.
#[derive(Clone, Copy, Debug)]
pub struct RefreshSchedule {
    refresh_ms: u64,
    backoff_ms: u64,
}

impl RefreshSchedule {
    /// The configured refresh interval (ms).
    pub closed spec fn spec_refresh_ms(&self) -> u64 {
        self.refresh_ms
    }

    /// The wait after the next failure (ms).
    pub closed spec fn spec_backoff_ms(&self) -> u64 {
        self.backoff_ms
    }

    /// The back-off is at least the minimum interval and at most the larger of the interval
    /// and the back-off cap.
    #[verifier::type_invariant]
    spec fn inv(self) -> bool {
        &&& MIN_REFRESH_MS <= self.backoff_ms
        &&& self.backoff_ms <= spec_interval(self.refresh_ms) || self.backoff_ms <= MAX_BACKOFF_MS
    }

    /// The schedule of a refresher started with `refresh_ms`; `None` when it is 0 (the
    /// refresher is off). The back-off starts at the interval.
    pub fn new(refresh_ms: u64) -> (r: Option<RefreshSchedule>)
        ensures
            refresh_ms == 0 ==> r is None,
            refresh_ms > 0 ==> (r matches Some(s) && s.spec_refresh_ms() == refresh_ms && s.spec_backoff_ms() == spec_interval(refresh_ms)),
    {
        if refresh_ms == 0 {
            return None;
        }
        let interval = if refresh_ms > MIN_REFRESH_MS { refresh_ms } else { MIN_REFRESH_MS };
        Some(RefreshSchedule { refresh_ms, backoff_ms: interval })
    }

    /// The wait after the next failure (ms).
    pub fn backoff_ms(&self) -> (r: u64)
        ensures
            r == self.spec_backoff_ms(),
    {
        self.backoff_ms
    }

    /// After a successful refresh: the back-off resets to the interval, and the refresher
    /// waits one interval.
    pub fn on_success(&mut self) -> (wait_ms: u64)
        ensures
            wait_ms == spec_interval(old(self).spec_refresh_ms()),
            final(self).spec_refresh_ms() == old(self).spec_refresh_ms(),
            backoff_in_bounds(final(self).spec_refresh_ms(), final(self).spec_backoff_ms()),
            final(self).spec_backoff_ms() == spec_interval(old(self).spec_refresh_ms()),
    {
        proof {
            use_type_invariant(&*self);
        }
        let interval = if self.refresh_ms > MIN_REFRESH_MS { self.refresh_ms } else { MIN_REFRESH_MS };
        self.backoff_ms = interval;
        interval
    }

    /// After a failed refresh: the refresher waits the current back-off, which then doubles
    /// up to 20 s.
    pub fn on_failure(&mut self) -> (wait_ms: u64)
        ensures
            wait_ms == old(self).spec_backoff_ms(),
            backoff_in_bounds(old(self).spec_refresh_ms(), wait_ms),
            final(self).spec_refresh_ms() == old(self).spec_refresh_ms(),
            backoff_in_bounds(final(self).spec_refresh_ms(), final(self).spec_backoff_ms()),
            final(self).spec_backoff_ms() == spec_next_backoff(old(self).spec_backoff_ms() as int),
    {
        proof {
            use_type_invariant(&*self);
        }
        let wait = self.backoff_ms;
        self.backoff_ms = if wait < MAX_BACKOFF_MS / 2 { wait * 2 } else { MAX_BACKOFF_MS };
        wait
    }
}

/// After `k` failed refreshes in a row, the refresher's back-off is the interval doubled
/// `k` times, capped at 20 s once it has doubled (the interval itself, when `k` is 0);
/// a success resets it to the interval (see `RefreshSchedule::on_success`).
pub proof fn law_backoff_doubles_to_cap(refresh_ms: u64, k: nat)
    ensures
        spec_backoff_after(refresh_ms, k) == if k == 0 {
            spec_interval(refresh_ms) as int
        } else {
            min(spec_interval(refresh_ms) * pow2(k) as int, MAX_BACKOFF_MS as int)
        },
    decreases k,
{
    if k > 0 {
        law_backoff_doubles_to_cap(refresh_ms, (k - 1) as nat);
        lemma_pow2_unfold(k);
        let i = spec_interval(refresh_ms) as int;
        let p = pow2((k - 1) as nat) as int;
        assert(i * pow2(k) as int == 2 * (i * p)) by (nonlinear_arith)
            requires
                pow2(k) as int == 2 * p,
        {
        }
        if k == 1 {
            lemma2_to64();
        }
    }
}

/// The latest blockhash the refresher has stored (none yet at start).
#[derive(Clone, Copy, Debug)]
pub struct BlockhashCache {
    latest: Option<[u8; 32]>,
}

/// What a lookup finds: the stored hash, or `None` when one must be fetched.
pub open spec fn spec_lookup(latest: Option<Seq<u8>>) -> Option<Seq<u8>> {
    latest
}

/// After a fetch: a fetched hash is stored and returned; a failed fetch leaves the cache
/// as it was and its error is returned.
pub open spec fn spec_after_fetch(latest: Option<Seq<u8>>, fetched: Result<Seq<u8>, Seq<char>>) -> (Option<Seq<u8>>, Result<Seq<u8>, Seq<char>>) {
    match fetched {
        Ok(h) => (Some(h), Ok(h)),
        Err(e) => (latest, Err(e)),
    }
}

/// What the hot path does to get a blockhash.
#[derive(Clone, Copy, Debug)]
pub enum BlockhashLookup {
    /// Use the cached hash.
    Cached([u8; 32]),
    /// Fetch one from the RPC node, then `store` it.
    Fetch,
}

impl BlockhashCache {
    /// The stored hash.
    pub closed spec fn spec_latest(&self) -> Option<Seq<u8>> {
        match self.latest {
            Some(h) => Some(h@),
            None => None,
        }
    }

    /// An empty cache.
    pub fn new() -> (r: BlockhashCache)
        ensures
            r.spec_latest() is None,
    {
        BlockhashCache { latest: None }
    }

    /// The stored hash, if any.
    pub fn get_latest(&self) -> (r: Option<[u8; 32]>)
        ensures
            match r {
                Some(h) => self.spec_latest() == Some(h@),
                None => self.spec_latest() is None,
            },
    {
        self.latest
    }

    /// Stores a fetched hash.
    pub fn store(&mut self, hash: [u8; 32])
        ensures
            final(self).spec_latest() == Some(hash@),
    {
        self.latest = Some(hash);
    }

    /// The cached hash when there is one, else a fetch (then `finish_fetch`).
    pub fn get_or_fetch(&self) -> (r: BlockhashLookup)
        ensures
            match spec_lookup(self.spec_latest()) {
                Some(h) => r matches BlockhashLookup::Cached(c) && c@ == h,
                None => r is Fetch,
            },
    {
        match self.latest {
            Some(h) => BlockhashLookup::Cached(h),
            None => BlockhashLookup::Fetch,
        }
    }

    /// Takes the result of the fetch that `get_or_fetch` asked for: a fetched hash is
    /// stored and returned, an error is returned with the cache unchanged.
    pub fn finish_fetch(&mut self, fetched: Result<[u8; 32], String>) -> (r: Result<[u8; 32], String>)
        ensures
            ({
                let (latest, res) = spec_after_fetch(old(self).spec_latest(), match fetched { Ok(h) => Ok(h@), Err(e) => Err(e@) });
                &&& final(self).spec_latest() == latest
                &&& res == match r { Ok(h) => Ok::<Seq<u8>, Seq<char>>(h@), Err(e) => Err(e@) }
            }),
    {
        match fetched {
            Ok(h) => {
                self.latest = Some(h);
                Ok(h)
            },
            Err(e) => Err(e),
        }
    }
}

// ---------------------------------------------------------------------------
// The refresher's rounds
// ---------------------------------------------------------------------------

/// One round of the refresher from back-off `backoff_ms` and stored hash `latest`, given
/// what the fetch returned (`None`: it failed): the new back-off, the stored hash, and the
/// wait before the next round. A fetched hash is stored, the back-off resets and the wait
/// is the interval; a failure keeps the stored hash, waits the back-off and doubles it.
pub open spec fn spec_refresh_step(refresh_ms: u64, backoff_ms: int, latest: Option<Seq<u8>>, fetched: Option<Seq<u8>>) -> (int, Option<Seq<u8>>, int) {
    match fetched {
        Some(h) => (spec_interval(refresh_ms) as int, Some(h), spec_interval(refresh_ms) as int),
        None => (spec_next_backoff(backoff_ms), latest, backoff_ms),
    }
}

/// Runs one round of the refresher on the fetch's result (`None`: it failed) and returns
/// the wait before the next round (ms).
pub fn refresh_step(schedule: &mut RefreshSchedule, cache: &mut BlockhashCache, fetched: Option<[u8; 32]>) -> (wait_ms: u64)
    ensures
        ({
            let (b, l, w) = spec_refresh_step(old(schedule).spec_refresh_ms(), old(schedule).spec_backoff_ms() as int, old(cache).spec_latest(),
                match fetched { Some(h) => Some(h@), None => None });
            &&& final(schedule).spec_backoff_ms() == b
            &&& final(cache).spec_latest() == l
            &&& wait_ms == w
        }),
        final(schedule).spec_refresh_ms() == old(schedule).spec_refresh_ms(),
{
    match fetched {
        Some(h) => {
            cache.store(h);
            schedule.on_success()
        },
        None => schedule.on_failure(),
    }
}

/// The back-off after refresher rounds with these fetch results, from the start.
pub open spec fn spec_run_backoff(refresh_ms: u64, results: Seq<Option<Seq<u8>>>) -> int
    decreases results.len(),
{
    if results.len() == 0 {
        spec_interval(refresh_ms) as int
    } else {
        spec_refresh_step(refresh_ms, spec_run_backoff(refresh_ms, results.drop_last()), None, results.last()).0
    }
}

/// The stored hash after refresher rounds with these fetch results, from `latest`.
pub open spec fn spec_run_latest(refresh_ms: u64, latest: Option<Seq<u8>>, results: Seq<Option<Seq<u8>>>) -> Option<Seq<u8>>
    decreases results.len(),
{
    if results.len() == 0 {
        latest
    } else {
        spec_refresh_step(refresh_ms, 0, spec_run_latest(refresh_ms, latest, results.drop_last()), results.last()).1
    }
}

/// The failed rounds at the end of `results`, after its last success.
pub open spec fn trailing_failures(results: Seq<Option<Seq<u8>>>) -> nat
    decreases results.len(),
{
    if results.len() == 0 {
        0
    } else if results.last() is None {
        1 + trailing_failures(results.drop_last())
    } else {
        0
    }
}

/// Over any run of the refresher: after each round the back-off is the interval doubled
/// once per failure since the last success (capped at 20 s), and the stored hash is the
/// one the last successful fetch returned (the starting one when none succeeded).
pub proof fn law_refresher_run(refresh_ms: u64, latest: Option<Seq<u8>>, results: Seq<Option<Seq<u8>>>)
    ensures
        spec_run_backoff(refresh_ms, results) == spec_backoff_after(refresh_ms, trailing_failures(results)),
        forall|i: int| 0 <= i < results.len() && (#[trigger] results[i]) is Some && (forall|j: int| i < j < results.len() ==> (#[trigger] results[j]) is None)
            ==> spec_run_latest(refresh_ms, latest, results) == results[i],
        (forall|j: int| 0 <= j < results.len() ==> (#[trigger] results[j]) is None) ==> spec_run_latest(refresh_ms, latest, results) == latest,
    decreases results.len(),
{
    if results.len() > 0 {
        let d = results.drop_last();
        law_refresher_run(refresh_ms, latest, d);
        assert forall|i: int| 0 <= i < results.len() && (#[trigger] results[i]) is Some && (forall|j: int| i < j < results.len() ==> (#[trigger] results[j]) is None)
            implies spec_run_latest(refresh_ms, latest, results) == results[i] by {
            if results.last() is None {
                assert(results[results.len() - 1] is None);
                assert(i < results.len() - 1);
                assert forall|j: int| i < j < d.len() implies (#[trigger] d[j]) is None by {
                    assert(d[j] == results[j]);
                }
                assert(d[i] == results[i]);
            } else {
                if i < results.len() - 1 {
                    assert(results[results.len() - 1] is None);
                }
            }
        }
        if forall|j: int| 0 <= j < results.len() ==> (#[trigger] results[j]) is None {
            assert(results[results.len() - 1] is None);
            assert forall|j: int| 0 <= j < d.len() implies (#[trigger] d[j]) is None by {
                assert(d[j] == results[j]);
            }
        }
    }
}

/// A blockhash lookup answers from the cache when it holds a hash, with no fetch; on an
/// empty cache it asks for one fetch, whose hash is then returned and stays cached (a
/// later lookup finds it), while a failed fetch returns its error and leaves the cache
/// empty.
pub proof fn law_cache_then_fetch(latest: Option<Seq<u8>>, fetched: Result<Seq<u8>, Seq<char>>)
    ensures
        latest matches Some(h) ==> spec_lookup(latest) == Some(h),
        latest is None ==> spec_lookup(latest) is None,
        latest is None ==> ({
            let (after, res) = spec_after_fetch(latest, fetched);
            &&& (fetched matches Ok(h) ==> res == Ok::<Seq<u8>, Seq<char>>(h) && spec_lookup(after) == Some(h))
            &&& (fetched matches Err(e) ==> res == Err::<Seq<u8>, Seq<char>>(e) && after is None)
        }),
{
}

} // verus!
