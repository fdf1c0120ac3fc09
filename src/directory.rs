//! The recipient directory: which messaging channel belongs to which scheduling person,
//! and back, with a cache in each direction in front of the persistent store.
use vstd::prelude::*;

use moka::sync::Cache;

verus! {

#[verifier::external_type_specification]
#[verifier::external_body]
#[verifier::reject_recursive_types(K)]
#[verifier::reject_recursive_types(V)]
#[verifier::reject_recursive_types(S)]
pub struct ExCache<K, V, S>(Cache<K, V, S>);

/// A cache from an identity to an identity or a known absence.
pub type IdCache = Cache<i64, Option<i64>>;

/// For each key, the last value stored in the cache through `cache_insert`. The cache may
/// have dropped an entry since (it expires entries that sit idle), so a read finds either
/// that value or nothing.
pub uninterp spec fn stored_in(c: IdCache) -> Map<i64, Option<i64>>;

/// The time, in seconds, that an entry of the cache may sit unread before it expires, as
/// the cache was built with.
pub uninterp spec fn idle_secs_of(c: IdCache) -> u64;

/// The mapping of an empty cache.
pub open spec fn no_entries() -> Map<i64, Option<i64>> {
    Map::empty()
}

/// How long an entry of the forward cache (channel to person) may sit unread.
pub const FORWARD_IDLE_SECS: u64 = 300;

/// How long an entry of the reverse cache (person to channel) may sit unread.
pub const REVERSE_IDLE_SECS: u64 = 21600;

/// Relies on moka's `CacheBuilder::time_to_idle` and `build`: a new, empty cache whose
/// entries expire after sitting `secs` seconds without a read or a write. `build` panics
/// beyond a thousand years.
#[verifier::external_body]
fn idle_cache(secs: u64) -> (r: IdCache)
    requires
        secs <= 1_000_000_000,
    ensures
        stored_in(r) == no_entries(),
        idle_secs_of(r) == secs,
{
    Cache::builder().time_to_idle(std::time::Duration::from_secs(secs)).build()
}

/// Relies on moka's `Cache::get`: the value of the key where the cache still holds it.
#[verifier::external_body]
fn cache_get(c: &IdCache, k: i64) -> (r: Option<Option<i64>>)
    ensures
        r matches Some(v) ==> stored_in(*c).contains_key(k) && stored_in(*c)[k] == v,
{
    c.get(&k)
}

/// Relies on moka's `Cache::insert`: the key now maps to the value.
#[verifier::external_body]
fn cache_insert(c: &mut IdCache, k: i64, v: Option<i64>)
    ensures
        stored_in(*final(c)) == stored_in(*old(c)).insert(k, v),
        idle_secs_of(*final(c)) == idle_secs_of(*old(c)),
{
    c.insert(k, v)
}

/// A person's identity as the scheduling service hands it out.
#[derive(Clone, Copy, Debug, PartialEq, Eq, Structural, Hash)]
pub struct UserId(pub u64);

/// The answer of the first step of a lookup.
#[derive(Clone, Copy, Debug, PartialEq, Eq, Structural)]
pub enum Lookup {
    /// The cache answered: the identity, or `None` for one known to be absent.
    Known(Option<i64>),
    /// The cache holds nothing for it: ask the store, then finish the lookup with its answer.
    AskStore,
}

/// The two caches of the recipient mapping. The store itself is written and read by the
/// caller; each lookup that misses its cache is finished with the store's answer.
pub struct RecipientDirectory {
    forward: IdCache,
    reverse: IdCache,
}

impl RecipientDirectory {
    /// What the forward cache (channel to person) was last told, per channel.
    pub closed spec fn forward_map(&self) -> Map<i64, Option<i64>> {
        stored_in(self.forward)
    }

    /// What the reverse cache (person to channel) was last told, per person.
    pub closed spec fn reverse_map(&self) -> Map<i64, Option<i64>> {
        stored_in(self.reverse)
    }

    /// How long an entry of the forward cache may sit unread, in seconds.
    pub closed spec fn forward_idle_secs(&self) -> u64 {
        idle_secs_of(self.forward)
    }

    /// How long an entry of the reverse cache may sit unread, in seconds.
    pub closed spec fn reverse_idle_secs(&self) -> u64 {
        idle_secs_of(self.reverse)
    }

    /// An empty directory.
    pub fn new() -> (r: RecipientDirectory)
        ensures
            r.forward_map() == no_entries(),
            r.reverse_map() == no_entries(),
            r.forward_idle_secs() == FORWARD_IDLE_SECS,
            r.reverse_idle_secs() == REVERSE_IDLE_SECS,
    {
        RecipientDirectory {
            forward: idle_cache(FORWARD_IDLE_SECS),
            reverse: idle_cache(REVERSE_IDLE_SECS),
        }
    }

    /// First step of a forward lookup (channel to person): the cache's answer, if any.
    pub fn begin_forward_lookup(&self, channel: i64) -> (r: Lookup)
        ensures
            r matches Lookup::Known(v) ==> self.forward_map().contains_key(channel)
                && self.forward_map()[channel] == v,
    {
        match cache_get(&self.forward, channel) {
            Some(v) => Lookup::Known(v),
            None => Lookup::AskStore,
        }
    }

    /// Last step of a forward lookup that missed the cache: the store's answer is cached,
    /// an absence too, and returned.
    pub fn finish_forward_lookup(&mut self, channel: i64, stored: Option<i64>) -> (r: Option<i64>)
        ensures
            r == stored,
            final(self).forward_map() == old(self).forward_map().insert(channel, stored),
            final(self).reverse_map() == old(self).reverse_map(),
            final(self).forward_idle_secs() == old(self).forward_idle_secs(),
            final(self).reverse_idle_secs() == old(self).reverse_idle_secs(),
    {
        cache_insert(&mut self.forward, channel, stored);
        stored
    }

    /// First step of a reverse lookup (person to channel): the cache's answer, if any.
    /// A miss is to be answered by the store under the lookup limiter.
    pub fn begin_reverse_lookup(&self, person: i64) -> (r: Lookup)
        ensures
            r matches Lookup::Known(v) ==> self.reverse_map().contains_key(person)
                && self.reverse_map()[person] == v,
    {
        match cache_get(&self.reverse, person) {
            Some(v) => Lookup::Known(v),
            None => Lookup::AskStore,
        }
    }

    /// Last step of a reverse lookup that missed the cache: the store's answer is cached,
    /// an absence too, and returned.
    pub fn finish_reverse_lookup(&mut self, person: i64, stored: Option<i64>) -> (r: Option<i64>)
        ensures
            r == stored,
            final(self).reverse_map() == old(self).reverse_map().insert(person, stored),
            final(self).forward_map() == old(self).forward_map(),
            final(self).forward_idle_secs() == old(self).forward_idle_secs(),
            final(self).reverse_idle_secs() == old(self).reverse_idle_secs(),
    {
        cache_insert(&mut self.reverse, person, stored);
        stored
    }

    /// Records a pair that the store has just taken: both caches learn it at once.
    pub fn register(&mut self, person: i64, channel: i64)
        ensures
            final(self).forward_map() == old(self).forward_map().insert(channel, Some(person)),
            final(self).reverse_map() == old(self).reverse_map().insert(person, Some(channel)),
            final(self).forward_idle_secs() == old(self).forward_idle_secs(),
            final(self).reverse_idle_secs() == old(self).reverse_idle_secs(),
    {
        cache_insert(&mut self.forward, channel, Some(person));
        cache_insert(&mut self.reverse, person, Some(channel));
    }
}

/// After `register(p, c)`, a lookup in either direction that the cache answers gives the
/// new pair: the person's channel is `c` and the channel's person is `p`.
pub proof fn lemma_register_then_lookup(
    before: RecipientDirectory,
    after: RecipientDirectory,
    person: i64,
    channel: i64,
    reverse_answer: Lookup,
    forward_answer: Lookup,
)
    requires
        after.forward_map() == before.forward_map().insert(channel, Some(person)),
        after.reverse_map() == before.reverse_map().insert(person, Some(channel)),
        reverse_answer matches Lookup::Known(v) ==> after.reverse_map().contains_key(person)
            && after.reverse_map()[person] == v,
        forward_answer matches Lookup::Known(v) ==> after.forward_map().contains_key(channel)
            && after.forward_map()[channel] == v,
    ensures
        reverse_answer is Known ==> reverse_answer == Lookup::Known(Some(channel)),
        forward_answer is Known ==> forward_answer == Lookup::Known(Some(person)),
{
}

/// After a reverse lookup for a person that the store does not know, a second lookup that
/// the cache answers gives `None` again, and asks the store nothing.
pub proof fn lemma_absence_is_cached(
    before: RecipientDirectory,
    after: RecipientDirectory,
    person: i64,
    second: Lookup,
)
    requires
        after.reverse_map() == before.reverse_map().insert(person, None),
        second matches Lookup::Known(v) ==> after.reverse_map().contains_key(person)
            && after.reverse_map()[person] == v,
    ensures
        second is Known ==> second == Lookup::Known(None),
{
}

} // verus!
