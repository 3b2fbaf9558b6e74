//! A single-entry cache with a time to live. The time is passed in by the
//! caller (seconds on a monotonic clock), so that every decision the cache
//! makes is a function of its entry and the time.
use vstd::prelude::*;

verus! {

/// How long the remote statistic stays fresh: six hours.
pub const REMOTE_LIFESPAN_SECS: u64 = 21600;

/// The last value produced, with the time it was produced, and the lifespan
/// fixed at construction.
pub struct TtlCache<V> {
    pub entry: Option<(V, u64)>,
    pub lifespan: u64,
}

/// Seconds from `stamp` to `now`; a time before the stamp counts as no age.
pub open spec fn age(stamp: u64, now: u64) -> nat {
    if now >= stamp {
        (now - stamp) as nat
    } else {
        0
    }
}

impl<V: Copy> TtlCache<V> {
    /// The value served at `now` without calling the source, if any.
    pub open spec fn fresh_at(self, now: u64) -> Option<V> {
        match self.entry {
            Some((v, t)) => if age(t, now) < self.lifespan {
                Some(v)
            } else {
                None
            },
            None => None,
        }
    }

    /// Whether a read at `now` calls the source.
    pub open spec fn needs_fetch(self, now: u64) -> bool {
        self.fresh_at(now) is None
    }

    /// The cache after the source's outcome at `now` is recorded: a success
    /// replaces the entry, a failure leaves it.
    pub open spec fn recorded<E>(self, now: u64, outcome: Result<V, E>) -> Self {
        match outcome {
            Ok(v) => TtlCache { entry: Some((v, now)), lifespan: self.lifespan },
            Err(_) => self,
        }
    }

    /// The cache after one read at `now`, where `outcome` is what the source
    /// gives if the read calls it.
    pub open spec fn after_read<E>(self, now: u64, outcome: Result<V, E>) -> Self {
        if self.needs_fetch(now) {
            self.recorded(now, outcome)
        } else {
            self
        }
    }

    /// An empty cache with the given lifespan.
    pub fn new(lifespan: u64) -> (r: Self)
        ensures
            r.entry is None,
            r.lifespan == lifespan,
    {
        TtlCache { entry: None, lifespan }
    }

    /// The value to serve at `now` without calling the source: `None` when the
    /// cache is empty or its entry is `lifespan` or more seconds old.
    pub fn lookup(&self, now: u64) -> (r: Option<V>)
        ensures
            r == self.fresh_at(now),
    {
        match self.entry {
            Some((v, t)) => {
                let a = if now >= t { now - t } else { 0 };
                if a < self.lifespan {
                    Some(v)
                } else {
                    None
                }
            },
            None => None,
        }
    }

    /// Records what the source gave at `now` and hands it on: a value becomes
    /// the entry, stamped `now`; an error leaves the cache as it was.
    pub fn record<E>(&mut self, now: u64, outcome: Result<V, E>) -> (r: Result<V, E>)
        ensures
            *final(self) == old(self).recorded(now, outcome),
            r == outcome,
    {
        match outcome {
            Ok(v) => {
                self.entry = Some((v, now));
                Ok(v)
            },
            Err(e) => Err(e),
        }
    }
}

/// Two reads within the lifespan call the source at most once, provided that a
/// call made by the first read succeeded.
pub proof fn lemma_at_most_one_fetch_per_window<V: Copy, E>(
    c: TtlCache<V>,
    t1: u64,
    t2: u64,
    outcome: Result<V, E>,
)
    requires
        t1 <= t2,
        t2 - t1 < c.lifespan,
        c.needs_fetch(t1) ==> outcome is Ok,
    ensures
        !(c.needs_fetch(t1) && c.after_read(t1, outcome).needs_fetch(t2)),
{
}

/// A read at or after expiry of a value recorded at `t` calls the source again;
/// a read before expiry is served that value.
pub proof fn lemma_fetch_again_at_expiry<V: Copy, E>(c: TtlCache<V>, v: V, t: u64, later: u64)
    requires
        t <= later,
    ensures
        later - t >= c.lifespan ==> c.recorded(t, Ok::<V, E>(v)).needs_fetch(later),
        later - t < c.lifespan ==> c.recorded(t, Ok::<V, E>(v)).fresh_at(later) == Some(v),
{
}

} // verus!
