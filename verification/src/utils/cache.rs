use crate::utils::clock::{elapsed, instant_now, millis_since};
use crate::utils::text::{owned_text_of, text_of};
use vstd::prelude::*;

verus! {

/// Cache entry.
#[derive(Debug, Clone)]
pub struct CacheEntry<T> {
    /// Cached value
    pub value: T,
    /// When the entry was created, in milliseconds
    pub created_at: u64,
    /// Time-to-live for the entry, in milliseconds
    pub ttl: u64,
}

impl<T> CacheEntry<T> {
    /// An entry has expired once more than its time-to-live has passed since
    /// its creation.
    pub open spec fn expired_at(&self, now: u64) -> bool {
        elapsed(now, self.created_at) > self.ttl
    }

    /// Create a new cache entry, stamped with `now`.
    pub fn new(value: T, ttl: u64, now: u64) -> (entry: Self)
        ensures
            entry == (CacheEntry { value, created_at: now, ttl }),
    {
        CacheEntry { value, created_at: now, ttl }
    }

    /// Check if the entry is expired at `now`.
    pub fn is_expired(&self, now: u64) -> (expired: bool)
        ensures
            expired == self.expired_at(now),
    {
        now >= self.created_at && now - self.created_at > self.ttl
    }
}

/// What identifies a cached response: the request's method, URL, query and
/// body. Nothing else of a request takes part.
pub struct CacheKeyView {
    pub method: Seq<char>,
    pub url: Seq<char>,
    pub query: Option<Seq<char>>,
    pub body: Option<Seq<char>>,
}

/// Cache key.
#[derive(Debug, Clone, PartialEq, Eq, Hash)]
pub struct CacheKey {
    /// Method (GET, POST, etc.)
    pub method: String,
    /// URL
    pub url: String,
    /// Query parameters
    pub query: Option<String>,
    /// Request body
    pub body: Option<String>,
}

impl View for CacheKey {
    type V = CacheKeyView;

    open spec fn view(&self) -> CacheKeyView {
        CacheKeyView {
            method: self.method@,
            url: self.url@,
            query: owned_text_of(self.query),
            body: owned_text_of(self.body),
        }
    }
}

fn owned(s: Option<&str>) -> (r: Option<String>)
    ensures
        owned_text_of(r) == text_of(s),
{
    match s {
        Some(t) => Some(t.to_owned()),
        None => None,
    }
}

fn same_text(a: &Option<String>, b: &Option<String>) -> (same: bool)
    ensures
        same == (owned_text_of(*a) == owned_text_of(*b)),
{
    match a {
        Some(x) => match b {
            Some(y) => *x == *y,
            None => false,
        },
        None => b.is_none(),
    }
}

impl CacheKey {
    /// Create a new cache key.
    pub fn new(method: &str, url: &str, query: Option<&str>, body: Option<&str>) -> (key: Self)
        ensures
            key@ == request_key(method, url, query, body),
    {
        CacheKey {
            method: method.to_owned(),
            url: url.to_owned(),
            query: owned(query),
            body: owned(body),
        }
    }

    /// Whether two keys name the same cache slot.
    pub fn matches(&self, other: &CacheKey) -> (same: bool)
        ensures
            same == (self@ == other@),
    {
        self.method == other.method && self.url == other.url && same_text(
            &self.query,
            &other.query,
        ) && same_text(&self.body, &other.body)
    }
}

/// The key of a request, as contracts see it.
pub open spec fn request_key(
    method: &str,
    url: &str,
    query: Option<&str>,
    body: Option<&str>,
) -> CacheKeyView {
    CacheKeyView { method: method@, url: url@, query: text_of(query), body: text_of(body) }
}

/// The time-to-live that was given, or else the default.
pub open spec fn ttl_or(ttl: Option<u64>, default_ttl: u64) -> u64 {
    match ttl {
        Some(t) => t,
        None => default_ttl,
    }
}

/// One slot of the cache as contracts see it: the key and the entry under it.
pub type Slot<T> = (CacheKeyView, CacheEntry<T>);

/// No two slots share a key.
pub open spec fn distinct_keys<T>(s: Seq<Slot<T>>) -> bool {
    forall|i: int, j: int| 0 <= i < j < s.len() ==> s[i].0 != s[j].0
}

/// The position of the first slot under `key`, if there is one.
pub open spec fn find<T>(s: Seq<Slot<T>>, key: CacheKeyView) -> Option<int>
    decreases s.len(),
{
    if s.len() == 0 {
        None
    } else {
        match find(s.drop_last(), key) {
            Some(i) => Some(i),
            None => if s.last().0 == key {
                Some(s.len() - 1)
            } else {
                None
            },
        }
    }
}

/// Which slots a pass over the cache keeps.
pub enum Keep {
    /// Those that have not expired at the given time
    Live(u64),
    /// Those under any key but the given one
    Other(CacheKeyView),
}

/// Whether a pass with `rule` keeps the slot `e`.
pub open spec fn keeps<T>(rule: Keep, e: Slot<T>) -> bool {
    match rule {
        Keep::Live(now) => !e.1.expired_at(now),
        Keep::Other(key) => e.0 != key,
    }
}

/// The slots that a pass with `rule` keeps, in their order.
pub open spec fn sift<T>(s: Seq<Slot<T>>, rule: Keep) -> Seq<Slot<T>>
    decreases s.len(),
{
    if s.len() == 0 {
        s
    } else if keeps(rule, s.last()) {
        sift(s.drop_last(), rule).push(s.last())
    } else {
        sift(s.drop_last(), rule)
    }
}

/// The slots that have not expired at `now`, in their order.
pub open spec fn live<T>(s: Seq<Slot<T>>, now: u64) -> Seq<Slot<T>> {
    sift(s, Keep::Live(now))
}

/// The slots under any key but `key`, in their order.
pub open spec fn without<T>(s: Seq<Slot<T>>, key: CacheKeyView) -> Seq<Slot<T>> {
    sift(s, Keep::Other(key))
}

/// The position of the oldest slot: the least creation time, and among equals
/// the one that was stored first. 0 for an empty sequence.
pub open spec fn oldest<T>(s: Seq<Slot<T>>) -> int
    decreases s.len(),
{
    if s.len() <= 1 {
        0
    } else {
        let j = oldest(s.drop_last());
        if s.last().1.created_at < s[j].1.created_at {
            s.len() - 1
        } else {
            j
        }
    }
}

/// `s` after its `n` oldest slots have left, oldest first.
pub open spec fn evict<T>(s: Seq<Slot<T>>, n: nat) -> Seq<Slot<T>>
    decreases n,
{
    if n == 0 || s.len() == 0 {
        s
    } else {
        evict(s.remove(oldest(s)), (n - 1) as nat)
    }
}

/// What is kept when room for one more slot is wanted under a bound of
/// `max_entries`: everything while there is room; else the live slots; and if
/// those still fill the cache, the live slots without the oldest of them, as
/// many as it takes to free one place.
pub open spec fn make_room<T>(s: Seq<Slot<T>>, now: u64, max_entries: usize) -> Seq<Slot<T>> {
    if s.len() < max_entries {
        s
    } else {
        let kept = live(s, now);
        if kept.len() < max_entries {
            kept
        } else {
            evict(kept, (kept.len() - max_entries + 1) as nat)
        }
    }
}

/// The cache after `entry` has been stored under `key` at `now`.
pub open spec fn stored<T>(
    s: Seq<Slot<T>>,
    key: CacheKeyView,
    entry: CacheEntry<T>,
    now: u64,
    max_entries: usize,
) -> Seq<Slot<T>> {
    without(make_room(s, now, max_entries), key).push((key, entry))
}

/// The cache after a lookup of `key` at `now`, and the value found: an
/// expired slot leaves the cache and yields nothing.
pub open spec fn fetched<T>(s: Seq<Slot<T>>, key: CacheKeyView, now: u64) -> (
    Seq<Slot<T>>,
    Option<T>,
) {
    match find(s, key) {
        None => (s, None),
        Some(i) => if s[i].1.expired_at(now) {
            (s.remove(i), None)
        } else {
            (s, Some(s[i].1.value))
        },
    }
}

/// What `find` returns: the first position under the key, or `None` when no
/// slot has it.
pub proof fn lemma_find<T>(s: Seq<Slot<T>>, key: CacheKeyView)
    ensures
        match find(s, key) {
            Some(i) => 0 <= i < s.len() && s[i].0 == key && forall|j: int|
                0 <= j < i ==> (#[trigger] s[j]).0 != key,
            None => forall|j: int| 0 <= j < s.len() ==> (#[trigger] s[j]).0 != key,
        },
    decreases s.len(),
{
    if s.len() > 0 {
        let front = s.drop_last();
        lemma_find(front, key);
        assert(forall|j: int| 0 <= j < front.len() ==> front[j] == s[j]);
    }
}

/// The oldest slot is a slot, no younger than any other, and strictly older
/// than every slot before it.
pub proof fn lemma_oldest<T>(s: Seq<Slot<T>>)
    requires
        s.len() > 0,
    ensures
        0 <= oldest(s) < s.len(),
        forall|j: int|
            0 <= j < s.len() ==> s[oldest(s)].1.created_at <= (#[trigger] s[j]).1.created_at,
        forall|j: int|
            0 <= j < oldest(s) ==> s[oldest(s)].1.created_at < (#[trigger] s[j]).1.created_at,
    decreases s.len(),
{
    if s.len() > 1 {
        let front = s.drop_last();
        lemma_oldest(front);
        assert(forall|j: int| 0 <= j < front.len() ==> front[j] == s[j]);
    }
}

/// Eviction shortens the cache by the number asked for, or empties it.
pub proof fn lemma_evict_len<T>(s: Seq<Slot<T>>, n: nat)
    ensures
        evict(s, n).len() == if n >= s.len() {
            0
        } else {
            s.len() - n
        },
    decreases n,
{
    if n > 0 && s.len() > 0 {
        lemma_oldest(s);
        lemma_evict_len(s.remove(oldest(s)), (n - 1) as nat);
    }
}

/// A pass keeps slots of the sequence, each one that its rule keeps, and
/// leaves their keys distinct.
pub proof fn lemma_sift<T>(s: Seq<Slot<T>>, rule: Keep)
    ensures
        sift(s, rule).len() <= s.len(),
        forall|i: int|
            0 <= i < sift(s, rule).len() ==> keeps(rule, #[trigger] sift(s, rule)[i])
                && s.contains(sift(s, rule)[i]),
        forall|i: int|
            0 <= i < s.len() && keeps(rule, s[i]) ==> sift(s, rule).contains(#[trigger] s[i]),
        distinct_keys(s) ==> distinct_keys(sift(s, rule)),
    decreases s.len(),
{
    if s.len() > 0 {
        let front = s.drop_last();
        let inner = sift(front, rule);
        let out = sift(s, rule);
        lemma_sift(front, rule);
        assert(forall|j: int| 0 <= j < front.len() ==> front[j] == s[j]);
        assert forall|i: int| 0 <= i < out.len() implies keeps(rule, #[trigger] out[i])
            && s.contains(out[i]) by {
            if i < inner.len() {
                assert(out[i] == inner[i]);
                let j = choose|j: int| 0 <= j < front.len() && front[j] == out[i];
                assert(s[j] == out[i]);
            } else {
                assert(out[i] == s.last());
                assert(s[s.len() - 1] == out[i]);
            }
        }
        assert forall|i: int| 0 <= i < s.len() && keeps(rule, s[i]) implies out.contains(
            #[trigger] s[i],
        ) by {
            if i < front.len() {
                assert(inner.contains(front[i]));
                let j = choose|j: int| 0 <= j < inner.len() && inner[j] == front[i];
                assert(out[j] == s[i]);
            } else {
                assert(out[out.len() - 1] == s[i]);
            }
        }
        if distinct_keys(s) {
            assert(distinct_keys(front));
            assert forall|i: int, j: int| 0 <= i < j < out.len() implies out[i].0 != out[j].0 by {
                assert(out[i] == inner[i]);
                if j < inner.len() {
                    assert(out[j] == inner[j]);
                } else {
                    assert(out[j] == s.last());
                    let a = choose|a: int| 0 <= a < front.len() && front[a] == out[i];
                    assert(s[a].0 != s[s.len() - 1].0);
                }
            }
        }
    }
}

/// Removing a slot keeps the keys distinct, and leaves no slot under the
/// removed slot's key.
pub proof fn lemma_remove_distinct<T>(s: Seq<Slot<T>>, i: int)
    requires
        distinct_keys(s),
        0 <= i < s.len(),
    ensures
        distinct_keys(s.remove(i)),
        find(s.remove(i), s[i].0) is None,
{
    let r = s.remove(i);
    assert forall|a: int, b: int| 0 <= a < b < r.len() implies r[a].0 != r[b].0 by {
        let a0 = if a < i { a } else { a + 1 };
        let b0 = if b < i { b } else { b + 1 };
        assert(r[a] == s[a0] && r[b] == s[b0]);
    }
    lemma_find(r, s[i].0);
    if find(r, s[i].0) is Some {
        let a = find(r, s[i].0)->0;
        let a0 = if a < i { a } else { a + 1 };
        assert(r[a] == s[a0]);
        if a0 < i {
            assert(s[a0].0 != s[i].0);
        } else {
            assert(s[i].0 != s[a0].0);
        }
    }
}

/// Eviction keeps slots of the sequence, and keeps their keys distinct.
pub proof fn lemma_evict_distinct<T>(s: Seq<Slot<T>>, n: nat)
    requires
        distinct_keys(s),
    ensures
        distinct_keys(evict(s, n)),
    decreases n,
{
    if n > 0 && s.len() > 0 {
        lemma_oldest(s);
        lemma_remove_distinct(s, oldest(s));
        lemma_evict_distinct(s.remove(oldest(s)), (n - 1) as nat);
    }
}

/// Storing keeps the keys distinct.
pub proof fn lemma_stored_distinct<T>(
    s: Seq<Slot<T>>,
    key: CacheKeyView,
    entry: CacheEntry<T>,
    now: u64,
    max_entries: usize,
)
    requires
        distinct_keys(s),
    ensures
        distinct_keys(stored(s, key, entry, now, max_entries)),
{
    let room = make_room(s, now, max_entries);
    lemma_sift(s, Keep::Live(now));
    lemma_evict_distinct(live(s, now), (live(s, now).len() - max_entries + 1) as nat);
    assert(distinct_keys(room));
    lemma_sift(room, Keep::Other(key));
    let rest = without(room, key);
    let out = rest.push((key, entry));
    assert(forall|i: int| 0 <= i < rest.len() ==> (#[trigger] rest[i]).0 != key);
    assert(distinct_keys(rest));
    assert forall|i: int, j: int| 0 <= i < j < out.len() implies out[i].0 != out[j].0 by {
        assert(out[i] == rest[i]);
        if j < rest.len() {
            assert(out[j] == rest[j]);
        } else {
            assert(out[j].0 == key);
            assert(rest[i].0 != key);
        }
    }
}

/// A lookup keeps the keys distinct.
pub proof fn lemma_fetched_distinct<T>(s: Seq<Slot<T>>, key: CacheKeyView, now: u64)
    requires
        distinct_keys(s),
    ensures
        distinct_keys(fetched(s, key, now).0),
{
    lemma_find(s, key);
    if find(s, key) is Some {
        lemma_remove_distinct(s, find(s, key)->0);
    }
}

/// A value that was stored is the value that a lookup of the same key
/// returns, at any time at which the entry has not expired; the time of
/// storing is such a time. The lookup leaves the cache as it is.
pub proof fn law_set_then_get<T>(
    s: Seq<Slot<T>>,
    key: CacheKeyView,
    entry: CacheEntry<T>,
    now: u64,
    max_entries: usize,
    later: u64,
)
    ensures
        !entry.expired_at(entry.created_at),
        !entry.expired_at(later) ==> fetched(stored(s, key, entry, now, max_entries), key, later)
            == (stored(s, key, entry, now, max_entries), Some(entry.value)),
{
    let room = make_room(s, now, max_entries);
    let rest = without(room, key);
    let out = stored(s, key, entry, now, max_entries);
    lemma_sift(room, Keep::Other(key));
    lemma_find(rest, key);
    assert(out.drop_last() =~= rest);
    assert(find(out, key) == Some(out.len() - 1));
}

/// Once the time-to-live of a stored value has passed, a lookup of its key
/// returns nothing and removes the entry, and no later lookup of that key
/// finds anything, whatever the time.
pub proof fn law_expired_stays_gone<T>(
    s: Seq<Slot<T>>,
    key: CacheKeyView,
    entry: CacheEntry<T>,
    now: u64,
    max_entries: usize,
    later: u64,
    again: u64,
)
    requires
        entry.expired_at(later),
    ensures
        fetched(stored(s, key, entry, now, max_entries), key, later).1 is None,
        fetched(fetched(stored(s, key, entry, now, max_entries), key, later).0, key, again)
            == (fetched(stored(s, key, entry, now, max_entries), key, later).0, None::<T>),
{
    let room = make_room(s, now, max_entries);
    let rest = without(room, key);
    let out = stored(s, key, entry, now, max_entries);
    lemma_sift(room, Keep::Other(key));
    lemma_find(rest, key);
    assert(out.drop_last() =~= rest);
    assert(find(out, key) == Some(out.len() - 1));
    assert(out.remove(out.len() - 1) =~= rest);
}

/// The first slot under a key is the same before and after a pass that
/// drops another key.
pub proof fn lemma_sift_find<T>(s: Seq<Slot<T>>, key: CacheKeyView, other: CacheKeyView)
    requires
        other != key,
    ensures
        match find(s, other) {
            Some(i) => find(without(s, key), other) matches Some(j) && 0 <= j < without(
                s,
                key,
            ).len() && 0 <= i < s.len() && without(s, key)[j] == s[i],
            None => find(without(s, key), other) is None,
        },
    decreases s.len(),
{
    if s.len() > 0 {
        let front = s.drop_last();
        lemma_sift_find(front, key, other);
        lemma_find(front, other);
        lemma_find(without(front, key), other);
        assert(forall|j: int| 0 <= j < front.len() ==> front[j] == s[j]);
        if s.last().0 != key {
            assert(without(s, key).drop_last() =~= without(front, key));
        }
    }
}

/// Keys do not collide. Storing under one key, in a cache with room for it,
/// changes nothing of what a lookup of any other key returns, whenever it is
/// made.
pub proof fn law_keys_do_not_collide<T>(
    s: Seq<Slot<T>>,
    key: CacheKeyView,
    entry: CacheEntry<T>,
    now: u64,
    max_entries: usize,
    other: CacheKeyView,
    later: u64,
)
    requires
        other != key,
        s.len() < max_entries,
    ensures
        fetched(stored(s, key, entry, now, max_entries), other, later).1 == fetched(
            s,
            other,
            later,
        ).1,
{
    let rest = without(s, key);
    let out = stored(s, key, entry, now, max_entries);
    lemma_sift_find(s, key, other);
    assert(out.drop_last() =~= rest);
    lemma_find(rest, other);
    if find(rest, other) is Some {
        assert(out[find(rest, other)->0] == rest[find(rest, other)->0]);
    }
}

/// After an insertion into a cache with a bound of at least one, the cache
/// holds no more entries than its bound, however many it held before.
pub proof fn law_capacity<T>(
    s: Seq<Slot<T>>,
    key: CacheKeyView,
    entry: CacheEntry<T>,
    now: u64,
    max_entries: usize,
)
    requires
        max_entries >= 1,
    ensures
        stored(s, key, entry, now, max_entries).len() <= max_entries,
{
    let kept = live(s, now);
    lemma_evict_len(kept, (kept.len() - max_entries + 1) as nat);
    lemma_sift(make_room(s, now, max_entries), Keep::Other(key));
}

/// Expired entries go first: where dropping them leaves room, every entry
/// that has not expired and lies under another key is still there after the
/// insertion.
pub proof fn law_purge_before_evict<T>(
    s: Seq<Slot<T>>,
    key: CacheKeyView,
    entry: CacheEntry<T>,
    now: u64,
    max_entries: usize,
    i: int,
)
    requires
        live(s, now).len() < max_entries,
        0 <= i < s.len(),
        !s[i].1.expired_at(now),
        s[i].0 != key,
    ensures
        stored(s, key, entry, now, max_entries).contains(s[i]),
{
    let room = make_room(s, now, max_entries);
    lemma_sift(s, Keep::Live(now));
    assert(room.contains(s[i]));
    let j = choose|j: int| 0 <= j < room.len() && room[j] == s[i];
    lemma_sift(room, Keep::Other(key));
    let rest = without(room, key);
    assert(rest.contains(room[j]));
    let a = choose|a: int| 0 <= a < rest.len() && rest[a] == s[i];
    assert(stored(s, key, entry, now, max_entries)[a] == s[i]);
}

/// A key that is found among the first `n` slots is found at the same place
/// in the whole sequence.
proof fn lemma_find_prefix<T>(s: Seq<Slot<T>>, key: CacheKeyView, n: int)
    requires
        0 <= n <= s.len(),
    ensures
        find(s.take(n), key) is Some ==> find(s, key) == find(s.take(n), key),
    decreases s.len() - n,
{
    if n < s.len() {
        lemma_find_prefix(s, key, n + 1);
        assert(s.take(n + 1).drop_last() =~= s.take(n));
    } else {
        assert(s.take(n) =~= s);
    }
}

/// One stored response: the key and the entry under it.
struct CacheSlot<T> {
    key: CacheKey,
    entry: CacheEntry<T>,
}

spec fn slots_model<T>(v: Seq<CacheSlot<T>>) -> Seq<Slot<T>> {
    v.map_values(|c: CacheSlot<T>| (c.key@, c.entry))
}

/// Response cache: responses under their request keys, each with a
/// time-to-live, at most `max_entries` of them after an insertion.
pub struct ResponseCache<T: Clone + Send + Sync> {
    /// Cached responses, in the order in which they were stored
    slots: Vec<CacheSlot<T>>,
    /// Default time-to-live for cache entries, in milliseconds
    default_ttl: u64,
    /// Maximum number of entries in the cache
    max_entries: usize,
    /// The moment from which the cache counts its milliseconds
    origin: std::time::Instant,
}

impl<T: Clone + Send + Sync> View for ResponseCache<T> {
    type V = Seq<Slot<T>>;

    closed spec fn view(&self) -> Seq<Slot<T>> {
        slots_model(self.slots@)
    }
}

impl<T: Clone + Send + Sync> ResponseCache<T> {
    /// The time-to-live that an entry gets when none is given.
    pub closed spec fn default_ttl(&self) -> u64 {
        self.default_ttl
    }

    /// The bound on the number of entries.
    pub closed spec fn max_entries(&self) -> usize {
        self.max_entries
    }

    /// The cache holds at most one entry under a key.
    pub open spec fn wf(&self) -> bool {
        distinct_keys(self@)
    }

    /// Create a new response cache.
    pub fn new(default_ttl: u64, max_entries: usize) -> (cache: Self)
        ensures
            cache@ == Seq::<Slot<T>>::empty(),
            cache.default_ttl() == default_ttl,
            cache.max_entries() == max_entries,
            cache.wf(),
    {
        let cache = ResponseCache {
            slots: Vec::new(),
            default_ttl,
            max_entries,
            origin: instant_now(),
        };
        assert(cache@ =~= Seq::<Slot<T>>::empty());
        cache
    }

    /// The number of entries held, expired ones included.
    pub fn len(&self) -> (n: usize)
        ensures
            n == self@.len(),
    {
        self.slots.len()
    }

    fn position(&self, key: &CacheKey) -> (found: Option<usize>)
        ensures
            match found {
                Some(i) => find(self@, key@) == Some(i as int),
                None => find(self@, key@) is None,
            },
    {
        let mut i: usize = 0;
        while i < self.slots.len()
            invariant
                i <= self.slots.len(),
                find(self@.take(i as int), key@) is None,
            decreases self.slots.len() - i,
        {
            let hit = self.slots[i].key.matches(key);
            proof {
                let next = self@.take(i as int + 1);
                assert(next.drop_last() =~= self@.take(i as int));
                assert(next.last() == self@[i as int]);
                lemma_find_prefix(self@, key@, i as int + 1);
            }
            if hit {
                return Some(i);
            }
            i += 1;
        }
        assert(self@.take(i as int) =~= self@);
        None
    }

    fn purge(&mut self, now: u64)
        ensures
            final(self)@ == live(old(self)@, now),
            final(self).default_ttl() == old(self).default_ttl(),
            final(self).max_entries() == old(self).max_entries(),
    {
        let ghost orig = self@;
        let ghost rule = Keep::Live(now);
        let ghost mut k: int = 0;
        let mut i: usize = 0;
        while i < self.slots.len()
            invariant
                0 <= k <= orig.len(),
                i <= self.slots.len(),
                self.slots.len() - i == orig.len() - k,
                self@.take(i as int) == sift(orig.take(k), rule),
                self@.skip(i as int) == orig.skip(k),
                rule == Keep::Live(now),
                self.default_ttl == old(self).default_ttl,
                self.max_entries == old(self).max_entries,
            decreases self.slots.len() - i,
        {
            let ghost before = self@;
            proof {
                assert(before[i as int] == before.skip(i as int)[0]);
                assert(orig[k] == orig.skip(k)[0]);
                assert(orig.take(k + 1).drop_last() =~= orig.take(k));
                assert(orig.take(k + 1).last() == orig[k]);
            }
            if self.slots[i].entry.is_expired(now) {
                self.slots.remove(i);
                proof {
                    assert(self@ =~= before.remove(i as int));
                    assert(self@.take(i as int) =~= before.take(i as int));
                    assert(self@.skip(i as int) =~= before.skip(i as int).skip(1));
                    assert(orig.skip(k + 1) =~= orig.skip(k).skip(1));
                }
            } else {
                proof {
                    assert(before.take(i as int + 1) =~= before.take(i as int).push(
                        before[i as int],
                    ));
                    assert(before.skip(i as int + 1) =~= before.skip(i as int).skip(1));
                    assert(orig.skip(k + 1) =~= orig.skip(k).skip(1));
                }
                i += 1;
            }
            proof {
                k = k + 1;
            }
        }
        proof {
            assert(self@.take(i as int) =~= self@);
            assert(orig.take(k) =~= orig);
        }
    }

    fn remove_key(&mut self, key: &CacheKey)
        ensures
            final(self)@ == without(old(self)@, key@),
            final(self).default_ttl() == old(self).default_ttl(),
            final(self).max_entries() == old(self).max_entries(),
    {
        let ghost orig = self@;
        let ghost rule = Keep::Other(key@);
        let ghost mut k: int = 0;
        let mut i: usize = 0;
        while i < self.slots.len()
            invariant
                0 <= k <= orig.len(),
                i <= self.slots.len(),
                self.slots.len() - i == orig.len() - k,
                self@.take(i as int) == sift(orig.take(k), rule),
                self@.skip(i as int) == orig.skip(k),
                rule == Keep::Other(key@),
                self.default_ttl == old(self).default_ttl,
                self.max_entries == old(self).max_entries,
            decreases self.slots.len() - i,
        {
            let ghost before = self@;
            proof {
                assert(before[i as int] == before.skip(i as int)[0]);
                assert(orig[k] == orig.skip(k)[0]);
                assert(orig.take(k + 1).drop_last() =~= orig.take(k));
                assert(orig.take(k + 1).last() == orig[k]);
            }
            if self.slots[i].key.matches(key) {
                self.slots.remove(i);
                proof {
                    assert(self@ =~= before.remove(i as int));
                    assert(self@.take(i as int) =~= before.take(i as int));
                    assert(self@.skip(i as int) =~= before.skip(i as int).skip(1));
                    assert(orig.skip(k + 1) =~= orig.skip(k).skip(1));
                }
            } else {
                proof {
                    assert(before.take(i as int + 1) =~= before.take(i as int).push(
                        before[i as int],
                    ));
                    assert(before.skip(i as int + 1) =~= before.skip(i as int).skip(1));
                    assert(orig.skip(k + 1) =~= orig.skip(k).skip(1));
                }
                i += 1;
            }
            proof {
                k = k + 1;
            }
        }
        proof {
            assert(self@.take(i as int) =~= self@);
            assert(orig.take(k) =~= orig);
        }
    }

    fn oldest_position(&self) -> (at: usize)
        requires
            self@.len() > 0,
        ensures
            at == oldest(self@),
            at < self@.len(),
    {
        let mut best: usize = 0;
        let mut i: usize = 1;
        assert(self@.take(1).len() == 1);
        while i < self.slots.len()
            invariant
                1 <= i <= self.slots.len(),
                best < i,
                best == oldest(self@.take(i as int)),
            decreases self.slots.len() - i,
        {
            proof {
                let next = self@.take(i as int + 1);
                assert(next.drop_last() =~= self@.take(i as int));
                assert(next.last() == self@[i as int]);
                assert(next[best as int] == self@[best as int]);
            }
            if self.slots[i].entry.created_at < self.slots[best].entry.created_at {
                best = i;
            }
            i += 1;
        }
        assert(self@.take(i as int) =~= self@);
        best
    }

    fn evict_oldest(&mut self, n: usize)
        ensures
            final(self)@ == evict(old(self)@, n as nat),
            final(self).default_ttl() == old(self).default_ttl(),
            final(self).max_entries() == old(self).max_entries(),
    {
        let mut left: usize = n;
        while left > 0 && self.slots.len() > 0
            invariant
                evict(self@, left as nat) == evict(old(self)@, n as nat),
                self.default_ttl == old(self).default_ttl,
                self.max_entries == old(self).max_entries,
            decreases left,
        {
            let ghost before = self@;
            let at = self.oldest_position();
            self.slots.remove(at);
            assert(self@ =~= before.remove(at as int));
            left -= 1;
        }
    }

    /// Get a cached response at the time `now`. An entry that has expired is
    /// a miss, and leaves the cache.
    pub fn get_at(
        &mut self,
        method: &str,
        url: &str,
        query: Option<&str>,
        body: Option<&str>,
        now: u64,
    ) -> (hit: Option<T>)
        ensures
            final(self)@ == fetched(
                old(self)@,
                request_key(method, url, query, body),
                now,
            ).0,
            match fetched(
                old(self)@,
                request_key(method, url, query, body),
                now,
            ).1 {
                Some(value) => hit is Some && cloned(value, hit->0),
                None => hit is None,
            },
            final(self).default_ttl() == old(self).default_ttl(),
            final(self).max_entries() == old(self).max_entries(),
            old(self).wf() ==> final(self).wf(),
    {
        proof {
            if self.wf() {
                lemma_fetched_distinct(
                    self@,
                    request_key(method, url, query, body),
                    now,
                );
            }
        }
        let key = CacheKey::new(method, url, query, body);
        match self.position(&key) {
            None => None,
            Some(i) => {
                proof {
                    lemma_find(self@, key@);
                }
                if self.slots[i].entry.is_expired(now) {
                    let ghost before = self@;
                    self.slots.remove(i);
                    assert(self@ =~= before.remove(i as int));
                    None
                } else {
                    Some(self.slots[i].entry.value.clone())
                }
            },
        }
    }

    /// Store a response in the cache at the time `now`, with the given
    /// time-to-live or the cache's default. A full cache first drops what has
    /// expired, then its oldest entries, until one place is free.
    pub fn set_at(
        &mut self,
        method: &str,
        url: &str,
        query: Option<&str>,
        body: Option<&str>,
        value: T,
        ttl: Option<u64>,
        now: u64,
    )
        ensures
            final(self)@ == stored(
                old(self)@,
                request_key(method, url, query, body),
                CacheEntry {
                    value,
                    created_at: now,
                    ttl: ttl_or(ttl, old(self).default_ttl()),
                },
                now,
                old(self).max_entries(),
            ),
            final(self).default_ttl() == old(self).default_ttl(),
            final(self).max_entries() == old(self).max_entries(),
            old(self).wf() ==> final(self).wf(),
    {
        proof {
            if self.wf() {
                lemma_stored_distinct(
                    self@,
                    request_key(method, url, query, body),
                    CacheEntry {
                        value,
                        created_at: now,
                        ttl: ttl_or(ttl, self.default_ttl()),
                    },
                    now,
                    self.max_entries(),
                );
            }
        }
        let key = CacheKey::new(method, url, query, body);
        let ttl = match ttl {
            Some(t) => t,
            None => self.default_ttl,
        };
        let entry = CacheEntry::new(value, ttl, now);
        if self.slots.len() >= self.max_entries {
            self.purge(now);
            if self.slots.len() >= self.max_entries {
                let excess = self.slots.len() - self.max_entries;
                if excess < usize::MAX {
                    self.evict_oldest(excess + 1);
                } else {
                    proof {
                        lemma_evict_len(self@, excess as nat);
                        lemma_evict_len(self@, (excess + 1) as nat);
                    }
                    self.evict_oldest(excess);
                }
            }
        }
        self.remove_key(&key);
        let ghost before = self@;
        self.slots.push(CacheSlot { key, entry });
        assert(self@ =~= before.push((key@, entry)));
    }

    /// Clear the cache.
    pub fn clear(&mut self)
        ensures
            final(self)@ == Seq::<Slot<T>>::empty(),
            final(self).default_ttl() == old(self).default_ttl(),
            final(self).max_entries() == old(self).max_entries(),
            final(self).wf(),
    {
        self.slots.clear();
        assert(self@ =~= Seq::<Slot<T>>::empty());
    }

    /// Remove the entries that have expired at `now` from the cache.
    pub fn cleanup_at(&mut self, now: u64)
        ensures
            final(self)@ == live(old(self)@, now),
            final(self).default_ttl() == old(self).default_ttl(),
            final(self).max_entries() == old(self).max_entries(),
            old(self).wf() ==> final(self).wf(),
    {
        proof {
            lemma_sift(self@, Keep::Live(now));
        }
        self.purge(now);
    }

    /// Get a cached response, as `get_at` does at the time that the cache's
    /// clock shows.
    pub fn get(&mut self, method: &str, url: &str, query: Option<&str>, body: Option<&str>) -> (hit:
        Option<T>)
        ensures
            exists|now: u64|
                {
                    let outcome = #[trigger] fetched(
                        old(self)@,
                        request_key(method, url, query, body),
                        now,
                    );
                    &&& final(self)@ == outcome.0
                    &&& match outcome.1 {
                        Some(value) => hit is Some && cloned(value, hit->0),
                        None => hit is None,
                    }
                },
            final(self).default_ttl() == old(self).default_ttl(),
            final(self).max_entries() == old(self).max_entries(),
            old(self).wf() ==> final(self).wf(),
    {
        let now = millis_since(&self.origin);
        self.get_at(method, url, query, body, now)
    }

    /// Store a response in the cache, as `set_at` does at the time that the
    /// cache's clock shows.
    pub fn set(
        &mut self,
        method: &str,
        url: &str,
        query: Option<&str>,
        body: Option<&str>,
        value: T,
        ttl: Option<u64>,
    )
        ensures
            exists|now: u64|
                final(self)@ == #[trigger] stored(
                    old(self)@,
                    request_key(method, url, query, body),
                    CacheEntry {
                        value,
                        created_at: now,
                        ttl: ttl_or(ttl, old(self).default_ttl()),
                    },
                    now,
                    old(self).max_entries(),
                ),
            final(self).default_ttl() == old(self).default_ttl(),
            final(self).max_entries() == old(self).max_entries(),
            old(self).wf() ==> final(self).wf(),
    {
        let now = millis_since(&self.origin);
        self.set_at(method, url, query, body, value, ttl, now);
    }

    /// Remove expired entries from the cache, as `cleanup_at` does at the time
    /// that the cache's clock shows.
    pub fn cleanup(&mut self)
        ensures
            exists|now: u64| final(self)@ == #[trigger] live(old(self)@, now),
            final(self).default_ttl() == old(self).default_ttl(),
            final(self).max_entries() == old(self).max_entries(),
            old(self).wf() ==> final(self).wf(),
    {
        let now = millis_since(&self.origin);
        self.cleanup_at(now);
    }
}

/// One registered cache: its name and the cache.
struct NamedCache<T: Clone + Send + Sync> {
    name: String,
    cache: ResponseCache<T>,
}

spec fn distinct_names<T: Clone + Send + Sync>(v: Seq<NamedCache<T>>) -> bool {
    forall|i: int, j: int| 0 <= i < j < v.len() ==> v[i].name@ != v[j].name@
}

spec fn registry<T: Clone + Send + Sync>(v: Seq<NamedCache<T>>) -> Map<
    Seq<char>,
    ResponseCache<T>,
>
    decreases v.len(),
{
    if v.len() == 0 {
        Map::empty()
    } else {
        registry(v.drop_last()).insert(v.last().name@, v.last().cache)
    }
}

proof fn lemma_registry<T: Clone + Send + Sync>(v: Seq<NamedCache<T>>)
    requires
        distinct_names(v),
    ensures
        forall|i: int|
            0 <= i < v.len() ==> registry(v).contains_key((#[trigger] v[i]).name@) && registry(
                v,
            )[v[i].name@] == v[i].cache,
        forall|name: Seq<char>| #[trigger]
            registry(v).contains_key(name) ==> exists|i: int|
                0 <= i < v.len() && (#[trigger] v[i]).name@ == name,
    decreases v.len(),
{
    if v.len() > 0 {
        let front = v.drop_last();
        lemma_registry(front);
        assert(forall|j: int| 0 <= j < front.len() ==> front[j] == v[j]);
        assert forall|name: Seq<char>| #[trigger] registry(v).contains_key(name) implies exists|
            i: int,
        |
            0 <= i < v.len() && (#[trigger] v[i]).name@ == name by {
            if name == v.last().name@ {
                assert(v[v.len() - 1].name@ == name);
            } else {
                assert(registry(front).contains_key(name));
                let i = choose|i: int| 0 <= i < front.len() && (#[trigger] front[i]).name@ == name;
                assert(v[i].name@ == name);
            }
        }
    }
}

proof fn lemma_registry_update<T: Clone + Send + Sync>(
    v: Seq<NamedCache<T>>,
    i: int,
    next: NamedCache<T>,
)
    requires
        distinct_names(v),
        0 <= i < v.len(),
        next.name@ == v[i].name@,
    ensures
        distinct_names(v.update(i, next)),
        registry(v.update(i, next)) == registry(v).insert(next.name@, next.cache),
    decreases v.len(),
{
    let w = v.update(i, next);
    if i == v.len() - 1 {
        assert(w.drop_last() =~= v.drop_last());
        assert(registry(w) =~= registry(v).insert(next.name@, next.cache));
    } else {
        let front = v.drop_last();
        assert(forall|j: int| 0 <= j < front.len() ==> front[j] == v[j]);
        lemma_registry_update(front, i, next);
        assert(w.drop_last() =~= front.update(i, next));
        assert(v[i].name@ != v[v.len() - 1].name@);
        assert(registry(w) =~= registry(v).insert(next.name@, next.cache));
    }
}

/// Cache manager for API responses: response caches of one response type,
/// each under a name.
pub struct CacheManager<T: Clone + Send + Sync> {
    /// The caches, in the order in which they were first asked for
    caches: Vec<NamedCache<T>>,
}

impl<T: Clone + Send + Sync> CacheManager<T> {
    /// The caches that the manager holds, by name.
    pub closed spec fn caches(&self) -> Map<Seq<char>, ResponseCache<T>> {
        registry(self.caches@)
    }

    /// No name is registered twice.
    pub closed spec fn wf(&self) -> bool {
        distinct_names(self.caches@)
    }

    /// Create a new cache manager, with no cache in it.
    pub fn new() -> (manager: Self)
        ensures
            manager.caches() == Map::<Seq<char>, ResponseCache<T>>::empty(),
            manager.wf(),
    {
        CacheManager { caches: Vec::new() }
    }

    fn position(&self, name: &String) -> (found: Option<usize>)
        requires
            self.wf(),
        ensures
            match found {
                Some(i) => i < self.caches@.len() && self.caches@[i as int].name@ == name@,
                None => !self.caches().contains_key(name@),
            },
    {
        let mut i: usize = 0;
        while i < self.caches.len()
            invariant
                i <= self.caches.len(),
                forall|j: int| 0 <= j < i ==> (#[trigger] self.caches@[j]).name@ != name@,
            decreases self.caches.len() - i,
        {
            if self.caches[i].name == *name {
                return Some(i);
            }
            i += 1;
        }
        proof {
            lemma_registry(self.caches@);
        }
        None
    }

    /// Get the cache under `name`. A name that is asked for the first time
    /// gets an empty cache with a time-to-live of one minute and room for a
    /// thousand entries. What the caller does to the cache is what the
    /// manager holds under the name afterwards.
    pub fn get_cache(&mut self, name: &str) -> (cache: &mut ResponseCache<T>)
        requires
            old(self).wf(),
        ensures
            old(self).caches().contains_key(name@) ==> *cache == old(self).caches()[name@],
            !old(self).caches().contains_key(name@) ==> cache@ == Seq::<Slot<T>>::empty()
                && cache.default_ttl() == 60_000 && cache.max_entries() == 1000,
            final(self).caches() == old(self).caches().insert(name@, *final(cache)),
            final(self).wf(),
    {
        let owned = name.to_owned();
        let at = match self.position(&owned) {
            Some(i) => i,
            None => {
                let ghost before = self.caches@;
                let fresh = NamedCache { name: owned, cache: ResponseCache::new(60_000, 1000) };
                self.caches.push(fresh);
                proof {
                    lemma_registry(before);
                    assert(self.caches@.drop_last() =~= before);
                    let all = self.caches@;
                    assert forall|i: int, j: int| 0 <= i < j < all.len() implies all[i].name@
                        != all[j].name@ by {
                        assert(all[i] == before[i]);
                        if j < before.len() {
                            assert(all[j] == before[j]);
                        } else {
                            assert(registry(before).contains_key(before[i].name@));
                        }
                    }
                }
                self.caches.len() - 1
            },
        };
        proof {
            lemma_registry(self.caches@);
            let mid = self.caches@;
            let held = mid[at as int];
            assert forall|c: ResponseCache<T>|
                distinct_names(mid.update(at as int, NamedCache { name: held.name, cache: c }))
                    && registry(
                    #[trigger] mid.update(at as int, NamedCache { name: held.name, cache: c }),
                ) == registry(mid).insert(name@, c) by {
                lemma_registry_update(mid, at as int, NamedCache { name: held.name, cache: c });
            }
            assert(registry(mid).insert(name@, held.cache) =~= if old(self).caches().contains_key(
                name@,
            ) {
                old(self).caches()
            } else {
                old(self).caches().insert(name@, held.cache)
            });
        }
        &mut self.caches[at].cache
    }

    /// Clear all caches: the manager forgets every name.
    pub fn clear_all(&mut self)
        ensures
            final(self).caches() == Map::<Seq<char>, ResponseCache<T>>::empty(),
            final(self).wf(),
    {
        self.caches.clear();
    }
}

} // verus!
