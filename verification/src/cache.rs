//! The refreshing key cache.
//!
//! The cache pairs the current key set with an absolute refresh deadline.
//! A read at time `now` serves the cached keys while `now` lies at least a
//! safety margin before the deadline; otherwise the caller performs exactly
//! one fetch and hands the outcome back to `absorb`, which installs a
//! successful snapshot or — on failure — leaves the stale cache untouched
//! and propagates the error for that call only.
//!
//! The mutual-exclusion discipline around this state (one asynchronous lock
//! held across the whole read-or-refresh round, so that concurrent callers
//! never start a second fetch) lives with the caller that owns the lock;
//! the functions here are the complete logic executed under it.

use vstd::prelude::*;

use crate::fetch::FetchError;
use crate::fetch::FetchedKeys;
use crate::jwk::JwkKey;

verus! {

/// How long, in seconds, before the provider-declared deadline the cache
/// already counts as stale.  Refreshing proactively keeps a freshly rotated
/// key from being unknown here while tokens signed with it are presented.
pub const REFRESH_SAFETY_MARGIN: u64 = 60;

/// The mutable state of the refreshing key cache: the current key set and
/// the provider-declared refresh deadline (epoch seconds).
#[derive(Debug)]
pub struct KeyCache {
    /// The cached key descriptors; empty until the first successful fetch.
    pub keys: Vec<JwkKey>,
    /// The absolute deadline derived from the provider's cache policy.
    pub refresh_at: u64,
}

/// Whether the cache still counts as fresh at time `now`: `now` lies at
/// least the safety margin before the refresh deadline.
pub open spec fn cache_fresh(c: KeyCache, now: u64) -> bool {
    now + REFRESH_SAFETY_MARGIN <= c.refresh_at
}

/// What a read at time `now` serves: the cached keys while fresh, nothing
/// (meaning: the caller must fetch) once stale.
pub open spec fn read_spec(c: KeyCache, now: u64) -> Option<Seq<JwkKey>> {
    if cache_fresh(c, now) {
        Some(c.keys@)
    } else {
        None
    }
}

/// Copy a key set element by element.
fn copy_keys(keys: &Vec<JwkKey>) -> (r: Vec<JwkKey>)
    ensures
        r@ == keys@,
{
    let mut out: Vec<JwkKey> = Vec::new();
    let mut i: usize = 0;
    while i < keys.len()
        invariant
            i <= keys.len(),
            out@ =~= keys@.take(i as int),
        decreases keys.len() - i,
    {
        let k = JwkKey {
            kid: keys[i].kid.clone(),
            n: keys[i].n.clone(),
            e: keys[i].e.clone(),
        };
        out.push(k);
        proof {
            assert(out@ =~= keys@.take(i + 1));
        }
        i = i + 1;
    }
    proof {
        assert(keys@.take(keys@.len() as int) =~= keys@);
    }
    out
}

impl KeyCache {
    /// A cold cache, as a process starts with: no keys, and a refresh
    /// deadline already in the past of every later read, so the first read
    /// triggers a fetch.
    pub fn new(now: u64) -> (c: KeyCache)
        ensures
            c.keys@ == Seq::<JwkKey>::empty(),
            c.refresh_at == now,
            !cache_fresh(c, now),
    {
        let c = KeyCache { keys: Vec::new(), refresh_at: now };
        proof {
            assert(c.keys@ =~= Seq::<JwkKey>::empty());
        }
        c
    }

    /// Serve the cached keys at time `now`, or report that a fetch is due.
    /// No state changes either way.
    pub fn read(&self, now: u64) -> (r: Option<Vec<JwkKey>>)
        ensures
            match r {
                Some(keys) => read_spec(*self, now) == Some(keys@),
                None => read_spec(*self, now) is None,
            },
    {
        let fresh = match now.checked_add(REFRESH_SAFETY_MARGIN) {
            Some(limit) => limit <= self.refresh_at,
            None => false,
        };
        if fresh {
            Some(copy_keys(&self.keys))
        } else {
            None
        }
    }

    /// Install the outcome of the single fetch a stale read triggered.  A
    /// successful snapshot replaces keys and deadline atomically (both
    /// fields change before the enclosing lock is released) and is served
    /// to the caller; a failure leaves the stale cache untouched and is
    /// propagated for this call only.
    pub fn absorb(&mut self, outcome: Result<FetchedKeys, FetchError>) -> (r: Result<
        Vec<JwkKey>,
        FetchError,
    >)
        ensures
            match outcome {
                Ok(f) => {
                    &&& final(self).keys@ == f.keys@
                    &&& final(self).refresh_at == f.refresh_at
                    &&& r matches Ok(keys) && keys@ == f.keys@
                },
                Err(e) => {
                    &&& *final(self) == *old(self)
                    &&& r == Err::<Vec<JwkKey>, FetchError>(e)
                },
            },
    {
        match outcome {
            Ok(f) => {
                let keys = copy_keys(&f.keys);
                self.keys = f.keys;
                self.refresh_at = f.refresh_at;
                Ok(keys)
            },
            Err(e) => Err(e),
        }
    }
}

/// How many fetches a sequence of reads at the given times performs, and
/// the cache state it leaves behind, when the fetch a stale read triggers
/// returns the matching outcome of `outcomes` (an outcome is consumed only
/// by a stale read; failed fetches leave the state untouched).
pub open spec fn run_reads(
    c: KeyCache,
    nows: Seq<u64>,
    outcomes: Seq<Result<FetchedKeys, FetchError>>,
) -> (KeyCache, nat)
    decreases nows.len(),
{
    if nows.len() == 0 {
        (c, 0)
    } else if cache_fresh(c, nows[0]) {
        run_reads(c, nows.drop_first(), outcomes)
    } else {
        let c2 = match outcomes[0] {
            Ok(f) => KeyCache { keys: f.keys, refresh_at: f.refresh_at },
            Err(_) => c,
        };
        let (c3, fetches) = run_reads(c2, nows.drop_first(), outcomes.drop_first());
        (c3, fetches + 1)
    }
}

/// Idempotence of fresh-cache reads: a sequence of reads all issued while
/// the cache is fresh performs no fetch at all and leaves the cache exactly
/// as it was.
pub proof fn lemma_fresh_reads_fetch_nothing(
    c: KeyCache,
    nows: Seq<u64>,
    outcomes: Seq<Result<FetchedKeys, FetchError>>,
)
    requires
        forall|i: int| 0 <= i < nows.len() ==> cache_fresh(c, nows[i]),
    ensures
        run_reads(c, nows, outcomes) == (c, 0nat),
        forall|i: int| 0 <= i < nows.len() ==> read_spec(c, nows[i]) == Some(c.keys@),
    decreases nows.len(),
{
    if nows.len() > 0 {
        assert(cache_fresh(c, nows[0]));
        assert forall|i: int| 0 <= i < nows.drop_first().len() implies cache_fresh(
            c,
            nows.drop_first()[i],
        ) by {
            assert(nows.drop_first()[i] == nows[i + 1]);
        }
        lemma_fresh_reads_fetch_nothing(c, nows.drop_first(), outcomes);
    }
}

/// Single-flight refresh: when the first of a burst of reads finds the
/// cache stale and its fetch succeeds, the whole burst performs exactly
/// one fetch, and every read of the burst is served the one installed
/// mapping.  (That the burst really serializes into one stale read
/// followed by reads of the new state is what the caller's lock, held
/// across the whole round, provides.)
pub proof fn lemma_stale_burst_fetches_once(
    c: KeyCache,
    f: FetchedKeys,
    first: u64,
    rest: Seq<u64>,
)
    requires
        !cache_fresh(c, first),
        forall|i: int| 0 <= i < rest.len() ==> rest[i] + REFRESH_SAFETY_MARGIN <= f.refresh_at,
    ensures
        ({
            let c2 = KeyCache { keys: f.keys, refresh_at: f.refresh_at };
            &&& run_reads(c, seq![first] + rest, seq![Ok::<FetchedKeys, FetchError>(f)]) == (
                c2,
                1nat,
            )
            &&& forall|i: int| 0 <= i < rest.len() ==> read_spec(c2, rest[i]) == Some(f.keys@)
        }),
{
    let nows = seq![first] + rest;
    let outcomes = seq![Ok::<FetchedKeys, FetchError>(f)];
    let c2 = KeyCache { keys: f.keys, refresh_at: f.refresh_at };
    assert(nows[0] == first);
    assert(nows.drop_first() =~= rest);
    assert(outcomes.drop_first() =~= Seq::<Result<FetchedKeys, FetchError>>::empty());
    assert forall|i: int| 0 <= i < rest.len() implies cache_fresh(c2, rest[i]) by {}
    lemma_fresh_reads_fetch_nothing(c2, rest, Seq::empty());
    assert(run_reads(c2, rest, Seq::empty()) == (c2, 0nat));
}

} // verus!
