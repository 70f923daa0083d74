use crate::utils::clock::{elapsed, instant_now, millis_since};
use vstd::prelude::*;

verus! {

/// The length of the sliding window, in milliseconds: one minute.
pub const WINDOW_MILLIS: u64 = 60_000;

/// The grants of `w` that lie within the window that ends at `now`, in
/// their order: those made less than a minute before `now`.
pub open spec fn recent(w: Seq<u64>, now: u64) -> Seq<u64>
    decreases w.len(),
{
    if w.len() == 0 {
        w
    } else if elapsed(now, w.last()) < WINDOW_MILLIS {
        recent(w.drop_last(), now).push(w.last())
    } else {
        recent(w.drop_last(), now)
    }
}

/// One request for admission at `now`, against a window `w` and a ceiling of
/// `limit` grants per minute: the window afterwards, and the time for which the
/// caller has to suspend, if the window is full. A full window is left as it
/// is, but for the grants that have aged out of it; the wait is the time
/// until its oldest grant leaves it.
pub open spec fn admitted(w: Seq<u64>, now: u64, limit: u32) -> (Seq<u64>, Option<u64>) {
    let kept = recent(w, now);
    if kept.len() >= limit {
        (kept, Some((WINDOW_MILLIS - elapsed(now, kept[0])) as u64))
    } else {
        (kept.push(now), None)
    }
}

/// The window after one request at each of `times`, in turn. A request that
/// has to wait leaves no grant.
pub open spec fn after_requests(w: Seq<u64>, times: Seq<u64>, limit: u32) -> Seq<u64>
    decreases times.len(),
{
    if times.len() == 0 {
        w
    } else {
        admitted(after_requests(w, times.drop_last(), limit), times.last(), limit).0
    }
}

/// What `recent` keeps: grants of the window, each inside the window that
/// ends at `now`; and it keeps every such grant.
pub proof fn lemma_recent(w: Seq<u64>, now: u64)
    ensures
        recent(w, now).len() <= w.len(),
        forall|i: int|
            0 <= i < recent(w, now).len() ==> elapsed(now, #[trigger] recent(w, now)[i])
                < WINDOW_MILLIS,
        (forall|i: int| 0 <= i < w.len() ==> elapsed(now, #[trigger] w[i]) < WINDOW_MILLIS)
            ==> recent(w, now) == w,
        forall|i: int| 0 <= i < recent(w, now).len() ==> w.contains(#[trigger] recent(w, now)[i]),
    decreases w.len(),
{
    if w.len() > 0 {
        let front = w.drop_last();
        lemma_recent(front, now);
        assert(forall|j: int| 0 <= j < front.len() ==> front[j] == w[j]);
        if forall|i: int| 0 <= i < w.len() ==> elapsed(now, #[trigger] w[i]) < WINDOW_MILLIS {
            assert(recent(front, now) == front);
            assert(elapsed(now, w[w.len() - 1]) < WINDOW_MILLIS);
            assert(front.push(w.last()) =~= w);
        }
        let inner = recent(front, now);
        assert forall|i: int| 0 <= i < recent(w, now).len() implies w.contains(
            #[trigger] recent(w, now)[i],
        ) by {
            if i < inner.len() {
                assert(recent(w, now)[i] == inner[i]);
                let j = choose|j: int| 0 <= j < front.len() && front[j] == inner[i];
                assert(w[j] == inner[i]);
            } else {
                assert(w[w.len() - 1] == recent(w, now)[i]);
            }
        }
    }
}

/// A window whose first grant has aged out keeps, of its grants, at most all
/// the others.
pub proof fn lemma_recent_drops_first(w: Seq<u64>, now: u64)
    requires
        w.len() > 0,
        elapsed(now, w[0]) >= WINDOW_MILLIS,
    ensures
        recent(w, now).len() <= w.len() - 1,
    decreases w.len(),
{
    if w.len() > 1 {
        let front = w.drop_last();
        assert(front[0] == w[0]);
        lemma_recent_drops_first(front, now);
    } else {
        assert(w.last() == w[0]);
        assert(recent(w.drop_last(), now).len() == 0);
    }
}

/// The sliding window holds. Take a window whose grants all lie at or
/// before `now`, no more than `limit` of them within the minute before `now`.
/// After a request at `now` no more than `limit` grants lie within the minute
/// before any later moment: for a request granted at once, from `now` on; for
/// one that had to wait and was granted at `resumed`, at or after the end of
/// its wait, from `resumed` on.
pub proof fn law_window_never_exceeds(
    w: Seq<u64>,
    now: u64,
    limit: u32,
    resumed: u64,
    later: u64,
)
    requires
        limit >= 1,
        forall|i: int| 0 <= i < w.len() ==> #[trigger] w[i] <= now,
        recent(w, now).len() <= limit,
    ensures
        match admitted(w, now, limit).1 {
            None => later >= now ==> recent(admitted(w, now, limit).0, later).len() <= limit,
            Some(wait) => resumed >= now + wait && later >= resumed ==> recent(
                admitted(w, now, limit).0.push(resumed),
                later,
            ).len() <= limit,
        },
{
    let kept = recent(w, now);
    lemma_recent(w, now);
    match admitted(w, now, limit).1 {
        None => {
            lemma_recent(kept.push(now), later);
        },
        Some(wait) => {
            if resumed >= now + wait && later >= resumed {
                assert(w.contains(kept[0]));
                assert(kept[0] <= now);
                assert(elapsed(later, kept[0]) >= WINDOW_MILLIS);
                lemma_recent_drops_first(kept, later);
                assert(kept.push(resumed).drop_last() =~= kept);
            }
        },
    }
}

/// Requests in a burst. Of one more than `limit` requests for one endpoint,
/// made on an empty window at times that do not go back and span less than a
/// minute, the first `limit` are granted at once, and the last one has to wait
/// until the first grant is a minute old.
pub proof fn law_burst(times: Seq<u64>, limit: u32)
    requires
        limit >= 1,
        times.len() == limit + 1,
        forall|i: int, j: int| 0 <= i <= j < times.len() ==> times[i] <= times[j],
        times[limit as int] - times[0] < WINDOW_MILLIS,
    ensures
        forall|k: int|
            0 <= k < limit ==> (#[trigger] admitted(
                after_requests(Seq::empty(), times.take(k), limit),
                times[k],
                limit,
            )).1 is None,
        admitted(
            after_requests(Seq::empty(), times.take(limit as int), limit),
            times[limit as int],
            limit,
        ).1 == Some((WINDOW_MILLIS - (times[limit as int] - times[0])) as u64),
{
    assert forall|k: int| 0 <= k < limit implies (#[trigger] admitted(
        after_requests(Seq::empty(), times.take(k), limit),
        times[k],
        limit,
    )).1 is None by {
        lemma_burst_prefix(times, limit, k);
        lemma_burst_prefix(times, limit, k + 1);
        let w = times.take(k);
        assert forall|i: int| 0 <= i < w.len() implies elapsed(times[k], #[trigger] w[i])
            < WINDOW_MILLIS by {
            assert(w[i] == times[i]);
        }
        lemma_recent(w, times[k]);
    }
    lemma_burst_prefix(times, limit, limit as int);
    let w = times.take(limit as int);
    assert forall|i: int| 0 <= i < w.len() implies elapsed(times[limit as int], #[trigger] w[i])
        < WINDOW_MILLIS by {
        assert(w[i] == times[i]);
    }
    lemma_recent(w, times[limit as int]);
    assert(w[0] == times[0]);
}

proof fn lemma_burst_prefix(times: Seq<u64>, limit: u32, k: int)
    requires
        limit >= 1,
        times.len() == limit + 1,
        forall|i: int, j: int| 0 <= i <= j < times.len() ==> times[i] <= times[j],
        times[limit as int] - times[0] < WINDOW_MILLIS,
        0 <= k <= limit,
    ensures
        after_requests(Seq::empty(), times.take(k), limit) == times.take(k),
    decreases k,
{
    if k == 0 {
        assert(times.take(0) =~= Seq::<u64>::empty());
    } else {
        lemma_burst_prefix(times, limit, k - 1);
        let w = times.take(k - 1);
        assert(times.take(k).drop_last() =~= w);
        assert(times.take(k).last() == times[k - 1]);
        assert forall|i: int| 0 <= i < w.len() implies elapsed(times[k - 1], #[trigger] w[i])
            < WINDOW_MILLIS by {
            assert(w[i] == times[i]);
        }
        lemma_recent(w, times[k - 1]);
        assert(w.push(times[k - 1]) =~= times.take(k));
    }
}

/// Backoff strategy for rate limiting. Durations are in milliseconds.
#[derive(Debug, Clone, Copy, PartialEq, Eq)]
pub enum BackoffStrategy {
    /// Constant backoff
    Constant(u64),
    /// Linear backoff
    Linear {
        /// Initial backoff duration
        initial: u64,
        /// Increment per attempt
        increment: u64,
    },
    /// Exponential backoff
    Exponential {
        /// Initial backoff duration
        initial: u64,
        /// Multiplier per attempt
        multiplier: u32,
        /// Maximum backoff duration
        max: u64,
    },
}

/// `base` to the power of `exp`.
pub open spec fn power(base: int, exp: nat) -> int
    decreases exp,
{
    if exp == 0 {
        1
    } else {
        base * power(base, (exp - 1) as nat)
    }
}

/// The wait before the retry that follows the failed attempt number
/// `attempt`: the constant; the initial wait and one increment for each
/// attempt; or the initial wait times the multiplier once for each attempt, and
/// no more than the maximum.
pub open spec fn backoff(strategy: BackoffStrategy, attempt: u32) -> int {
    match strategy {
        BackoffStrategy::Constant(duration) => duration as int,
        BackoffStrategy::Linear { initial, increment } => initial + increment * attempt,
        BackoffStrategy::Exponential { initial, multiplier, max } => {
            let grown = initial * power(multiplier as int, attempt as nat);
            if grown < max {
                grown
            } else {
                max as int
            }
        },
    }
}

proof fn lemma_power_positive(base: int, exp: nat)
    requires
        base >= 1,
    ensures
        power(base, exp) >= 1,
    decreases exp,
{
    if exp > 0 {
        lemma_power_positive(base, (exp - 1) as nat);
        assert(base * power(base, (exp - 1) as nat) >= 1) by (nonlinear_arith)
            requires
                base >= 1,
                power(base, (exp - 1) as nat) >= 1,
        ;
    }
}

impl BackoffStrategy {
    /// Get the backoff duration for an attempt.
    pub fn get_backoff_duration(&self, attempt: u32) -> (duration: u64)
        requires
            backoff(*self, attempt) <= u64::MAX,
        ensures
            duration == backoff(*self, attempt),
    {
        match *self {
            BackoffStrategy::Constant(duration) => duration,
            BackoffStrategy::Linear { initial, increment } => {
                assert(increment * attempt >= 0) by (nonlinear_arith)
                    requires
                        increment >= 0,
                        attempt >= 0,
                ;
                initial + increment * (attempt as u64)
            },
            BackoffStrategy::Exponential { initial, multiplier, max } => {
                if multiplier == 0 {
                    if attempt == 0 {
                        assert(power(0, 0) == 1);
                        return if initial < max {
                            initial
                        } else {
                            max
                        };
                    }
                    assert(power(0, attempt as nat) == 0) by {
                        assert(power(0, attempt as nat) == 0 * power(0, (attempt - 1) as nat));
                    }
                    assert(initial * power(0, attempt as nat) == 0) by (nonlinear_arith)
                        requires
                            power(0, attempt as nat) == 0,
                    ;
                    return 0;
                }
                let mut grown: u64 = initial;
                let mut done: u32 = 0;
                while done < attempt
                    invariant
                        *self == (BackoffStrategy::Exponential { initial, multiplier, max }),
                        done <= attempt,
                        multiplier >= 1,
                        grown == initial * power(multiplier as int, done as nat),
                    decreases attempt - done,
                {
                    if grown >= max {
                        proof {
                            lemma_grows(
                                initial as int,
                                multiplier as int,
                                done as nat,
                                attempt as nat,
                            );
                        }
                        return max;
                    }
                    let ghost before = grown;
                    match grown.checked_mul(multiplier as u64) {
                        Some(next) => {
                            grown = next;
                        },
                        None => {
                            proof {
                                lemma_grows(
                                    initial as int,
                                    multiplier as int,
                                    (done + 1) as nat,
                                    attempt as nat,
                                );
                                assert(initial * power(multiplier as int, (done + 1) as nat)
                                    == before * multiplier) by (nonlinear_arith)
                                    requires
                                        before == initial * power(multiplier as int, done as nat),
                                        power(multiplier as int, (done + 1) as nat) == multiplier
                                            * power(multiplier as int, done as nat),
                                ;
                            }
                            return max;
                        },
                    }
                    proof {
                        assert(initial * power(multiplier as int, (done + 1) as nat) == before
                            * multiplier) by (nonlinear_arith)
                            requires
                                before == initial * power(multiplier as int, done as nat),
                                power(multiplier as int, (done + 1) as nat) == multiplier * power(
                                    multiplier as int,
                                    done as nat,
                                ),
                        ;
                    }
                    done += 1;
                    if grown >= max {
                        proof {
                            lemma_grows(
                                initial as int,
                                multiplier as int,
                                done as nat,
                                attempt as nat,
                            );
                        }
                        return max;
                    }
                }
                if grown < max {
                    grown
                } else {
                    max
                }
            },
        }
    }
}

proof fn lemma_grows(initial: int, multiplier: int, from: nat, to: nat)
    requires
        initial >= 0,
        multiplier >= 1,
        from <= to,
    ensures
        initial * power(multiplier, from) <= initial * power(multiplier, to),
    decreases to - from,
{
    if from < to {
        lemma_grows(initial, multiplier, from, (to - 1) as nat);
        lemma_power_positive(multiplier, (to - 1) as nat);
        assert(initial * power(multiplier, (to - 1) as nat) <= initial * (multiplier * power(
            multiplier,
            (to - 1) as nat,
        ))) by (nonlinear_arith)
            requires
                initial >= 0,
                multiplier >= 1,
                power(multiplier, (to - 1) as nat) >= 1,
        ;
    }
}

impl Default for BackoffStrategy {
    fn default() -> (strategy: Self)
        ensures
            strategy == (BackoffStrategy::Exponential {
                initial: 1_000,
                multiplier: 2,
                max: 60_000,
            }),
    {
        BackoffStrategy::Exponential { initial: 1_000, multiplier: 2, max: 60_000 }
    }
}

/// The grants of one endpoint.
struct EndpointWindow {
    endpoint: String,
    grants: Vec<u64>,
}

/// The window of `endpoint` among `v`: that of the last item under its name,
/// and empty where there is none.
spec fn window_in(v: Seq<EndpointWindow>, endpoint: Seq<char>) -> Seq<u64>
    decreases v.len(),
{
    if v.len() == 0 {
        Seq::empty()
    } else if v.last().endpoint@ == endpoint {
        v.last().grants@
    } else {
        window_in(v.drop_last(), endpoint)
    }
}

proof fn lemma_window_absent(v: Seq<EndpointWindow>, endpoint: Seq<char>)
    requires
        forall|j: int| 0 <= j < v.len() ==> (#[trigger] v[j]).endpoint@ != endpoint,
    ensures
        window_in(v, endpoint) == Seq::<u64>::empty(),
    decreases v.len(),
{
    if v.len() > 0 {
        let front = v.drop_last();
        assert(forall|j: int| 0 <= j < front.len() ==> front[j] == v[j]);
        assert(v[v.len() - 1].endpoint@ != endpoint);
        lemma_window_absent(front, endpoint);
    }
}

/// Taking out the last item under a name leaves the windows of all other
/// names as they are.
proof fn lemma_window_remove(v: Seq<EndpointWindow>, at: int, other: Seq<char>)
    requires
        0 <= at < v.len(),
        v[at].endpoint@ != other,
    ensures
        window_in(v.remove(at), other) == window_in(v, other),
    decreases v.len(),
{
    let r = v.remove(at);
    if at == v.len() - 1 {
        assert(r =~= v.drop_last());
    } else {
        assert(r.drop_last() =~= v.drop_last().remove(at));
        assert(r.last() == v.last());
        assert(v.drop_last()[at] == v[at]);
        lemma_window_remove(v.drop_last(), at, other);
    }
}

/// Rate limiter for API requests: no more than a set number of grants for
/// one endpoint within any minute. Times are in milliseconds.
pub struct RateLimiter {
    /// Maximum number of requests per minute
    requests_per_minute: u32,
    /// Grant timestamps, by endpoint
    timestamps: Vec<EndpointWindow>,
    /// Backoff strategy
    backoff_strategy: BackoffStrategy,
    /// The moment from which the limiter counts its milliseconds
    origin: std::time::Instant,
}

impl RateLimiter {
    /// The ceiling on grants per minute and endpoint.
    pub closed spec fn requests_per_minute(&self) -> u32 {
        self.requests_per_minute
    }

    /// The backoff strategy in use.
    pub closed spec fn backoff_strategy(&self) -> BackoffStrategy {
        self.backoff_strategy
    }

    /// The grants on record for `endpoint`, oldest first.
    pub closed spec fn window(&self, endpoint: Seq<char>) -> Seq<u64> {
        window_in(self.timestamps@, endpoint)
    }

    /// Create a new rate limiter, with no grant on record and the default
    /// backoff: exponential from one second, doubling, up to one minute.
    pub fn new(requests_per_minute: u32) -> (limiter: Self)
        ensures
            limiter.requests_per_minute() == requests_per_minute,
            limiter.backoff_strategy() == (BackoffStrategy::Exponential {
                initial: 1_000,
                multiplier: 2,
                max: 60_000,
            }),
            forall|endpoint: Seq<char>| #[trigger] limiter.window(endpoint) == Seq::<u64>::empty(),
    {
        RateLimiter {
            requests_per_minute,
            timestamps: Vec::new(),
            backoff_strategy: BackoffStrategy::default(),
            origin: instant_now(),
        }
    }

    /// Set the backoff strategy.
    pub fn with_backoff_strategy(self, strategy: BackoffStrategy) -> (limiter: Self)
        ensures
            limiter.backoff_strategy() == strategy,
            limiter.requests_per_minute() == self.requests_per_minute(),
            forall|endpoint: Seq<char>| #[trigger]
                limiter.window(endpoint) == self.window(endpoint),
    {
        let mut limiter = self;
        limiter.backoff_strategy = strategy;
        limiter
    }

    /// Takes the window of `endpoint` out of the record.
    fn take_window(&mut self, endpoint: &String) -> (grants: Vec<u64>)
        ensures
            grants@ == old(self).window(endpoint@),
            final(self).window(endpoint@) == Seq::<u64>::empty(),
            forall|j: int|
                0 <= j < final(self).timestamps@.len()
                    ==> (#[trigger] final(self).timestamps@[j]).endpoint@ != endpoint@,
            forall|other: Seq<char>|
                other != endpoint@ ==> #[trigger] final(self).window(other) == old(self).window(
                    other,
                ),
            final(self).requests_per_minute() == old(self).requests_per_minute(),
            final(self).backoff_strategy() == old(self).backoff_strategy(),
    {
        let mut grants: Vec<u64> = Vec::new();
        let mut taken = false;
        let mut i: usize = self.timestamps.len();
        assert(self.timestamps@.take(i as int) =~= self.timestamps@);
        while i > 0
            invariant
                i <= self.timestamps.len(),
                forall|j: int|
                    i <= j < self.timestamps@.len() ==> (#[trigger] self.timestamps@[j]).endpoint@
                        != endpoint@,
                !taken ==> self.timestamps@ == old(self).timestamps@,
                taken ==> grants@ == old(self).window(endpoint@),
                !taken ==> grants@ == Seq::<u64>::empty(),
                !taken ==> window_in(self.timestamps@.take(i as int), endpoint@)
                    == old(self).window(endpoint@),
                forall|other: Seq<char>|
                    other != endpoint@ ==> #[trigger] window_in(self.timestamps@, other)
                        == old(self).window(other),
                self.requests_per_minute == old(self).requests_per_minute,
                self.backoff_strategy == old(self).backoff_strategy,
            decreases i,
        {
            i -= 1;
            let ghost before = self.timestamps@;
            proof {
                assert(before.take(i as int + 1).drop_last() =~= before.take(i as int));
                assert(before.take(i as int + 1).last() == before[i as int]);
            }
            if self.timestamps[i].endpoint == *endpoint {
                let item = self.timestamps.remove(i);
                proof {
                    assert forall|other: Seq<char>| other != endpoint@ implies #[trigger] window_in(
                        self.timestamps@,
                        other,
                    ) == old(self).window(other) by {
                        lemma_window_remove(before, i as int, other);
                    }
                    assert forall|j: int| i <= j < self.timestamps@.len() implies (
                    #[trigger] self.timestamps@[j]).endpoint@ != endpoint@ by {
                        assert(self.timestamps@[j] == before[j + 1]);
                    }
                }
                if !taken {
                    grants = item.grants;
                    taken = true;
                }
            }
        }
        proof {
            lemma_window_absent(self.timestamps@, endpoint@);
            if !taken {
                assert(self.timestamps@.take(0) =~= Seq::<EndpointWindow>::empty());
            }
        }
        grants
    }

    /// Puts `grants` on record as the window of `endpoint`, which has none.
    fn put_window(&mut self, endpoint: String, grants: Vec<u64>)
        requires
            forall|j: int|
                0 <= j < old(self).timestamps@.len()
                    ==> (#[trigger] old(self).timestamps@[j]).endpoint@ != endpoint@,
        ensures
            final(self).window(endpoint@) == grants@,
            forall|other: Seq<char>|
                other != endpoint@ ==> #[trigger] final(self).window(other) == old(self).window(
                    other,
                ),
            final(self).requests_per_minute() == old(self).requests_per_minute(),
            final(self).backoff_strategy() == old(self).backoff_strategy(),
    {
        let ghost before = self.timestamps@;
        self.timestamps.push(EndpointWindow { endpoint, grants });
        assert(self.timestamps@.drop_last() =~= before);
    }

    /// Ask for admission of a request to `endpoint` at the time `now`. With
    /// room in the window the request is granted: its time goes on record and
    /// nothing is returned. With a full window nothing is granted: the caller
    /// is to suspend for the returned time and then call `resume_at`. In both
    /// cases grants that are a minute old or older leave the record. Other
    /// endpoints are not touched.
    pub fn wait_at(&mut self, endpoint: &str, now: u64) -> (delay: Option<u64>)
        requires
            old(self).requests_per_minute() >= 1,
        ensures
            final(self).window(endpoint@) == admitted(
                old(self).window(endpoint@),
                now,
                old(self).requests_per_minute(),
            ).0,
            delay == admitted(old(self).window(endpoint@), now, old(self).requests_per_minute()).1,
            forall|other: Seq<char>|
                other != endpoint@ ==> #[trigger] final(self).window(other) == old(self).window(
                    other,
                ),
            final(self).requests_per_minute() == old(self).requests_per_minute(),
            final(self).backoff_strategy() == old(self).backoff_strategy(),
    {
        let name = endpoint.to_owned();
        let all = self.take_window(&name);
        let mut kept: Vec<u64> = Vec::new();
        let mut i: usize = 0;
        while i < all.len()
            invariant
                i <= all.len(),
                kept@ == recent(all@.take(i as int), now),
            decreases all.len() - i,
        {
            proof {
                assert(all@.take(i as int + 1).drop_last() =~= all@.take(i as int));
                assert(all@.take(i as int + 1).last() == all@[i as int]);
            }
            let at = all[i];
            if now < at || now - at < WINDOW_MILLIS {
                kept.push(at);
            }
            i += 1;
        }
        proof {
            assert(all@.take(i as int) =~= all@);
            lemma_recent(all@, now);
        }
        let delay = if kept.len() >= self.requests_per_minute as usize {
            let oldest = kept[0];
            let age = if now >= oldest {
                now - oldest
            } else {
                0
            };
            Some(WINDOW_MILLIS - age)
        } else {
            kept.push(now);
            None
        };
        self.put_window(name, kept);
        delay
    }

    /// Put on record a grant at the time `now` for the request to `endpoint`
    /// that had to wait.
    pub fn resume_at(&mut self, endpoint: &str, now: u64)
        ensures
            final(self).window(endpoint@) == old(self).window(endpoint@).push(now),
            forall|other: Seq<char>|
                other != endpoint@ ==> #[trigger] final(self).window(other) == old(self).window(
                    other,
                ),
            final(self).requests_per_minute() == old(self).requests_per_minute(),
            final(self).backoff_strategy() == old(self).backoff_strategy(),
    {
        let name = endpoint.to_owned();
        let mut grants = self.take_window(&name);
        grants.push(now);
        self.put_window(name, grants);
    }

    /// Ask for admission of a request to `endpoint`, as `wait_at` does at the
    /// time that the limiter's clock shows.
    pub fn wait(&mut self, endpoint: &str) -> (delay: Option<u64>)
        requires
            old(self).requests_per_minute() >= 1,
        ensures
            exists|now: u64|
                {
                    let outcome = #[trigger] admitted(
                        old(self).window(endpoint@),
                        now,
                        old(self).requests_per_minute(),
                    );
                    final(self).window(endpoint@) == outcome.0 && delay == outcome.1
                },
            forall|other: Seq<char>|
                other != endpoint@ ==> #[trigger] final(self).window(other) == old(self).window(
                    other,
                ),
            final(self).requests_per_minute() == old(self).requests_per_minute(),
            final(self).backoff_strategy() == old(self).backoff_strategy(),
    {
        let now = millis_since(&self.origin);
        self.wait_at(endpoint, now)
    }

    /// Put on record a grant for the request to `endpoint` that had to wait,
    /// at the time that the limiter's clock shows.
    pub fn resume(&mut self, endpoint: &str)
        ensures
            exists|now: u64| final(self).window(endpoint@) == #[trigger] old(self).window(
                endpoint@,
            ).push(now),
            forall|other: Seq<char>|
                other != endpoint@ ==> #[trigger] final(self).window(other) == old(self).window(
                    other,
                ),
            final(self).requests_per_minute() == old(self).requests_per_minute(),
            final(self).backoff_strategy() == old(self).backoff_strategy(),
    {
        let now = millis_since(&self.origin);
        self.resume_at(endpoint, now);
    }

    /// Handle a rate limit error: the time to wait before the retry that
    /// follows the failed attempt number `attempt`.
    pub fn handle_rate_limit_error(&self, attempt: u32) -> (duration: u64)
        requires
            backoff(self.backoff_strategy(), attempt) <= u64::MAX,
        ensures
            duration == backoff(self.backoff_strategy(), attempt),
    {
        self.backoff_strategy.get_backoff_duration(attempt)
    }
}

} // verus!
