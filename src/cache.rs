//! A price cache whose entries expire after a strategy-dependent time.
use vstd::prelude::*;
use dashmap::DashMap;
use crate::clock::now_millis;
use crate::text::{chars_of, equals_str};

verus! {

#[verifier::external_type_specification]
#[verifier::external_body]
#[verifier::reject_recursive_types(K)]
#[verifier::reject_recursive_types(V)]
#[verifier::reject_recursive_types(S)]
pub struct ExDashMap<K, V, S>(DashMap<K, V, S>);

/// A cached price (any fixed-point quantity), the instant it was stored and
/// how long it stays valid, both in milliseconds.
#[derive(Debug, Clone, Copy, PartialEq, Eq, Structural)]
pub struct CachedPrice {
    pub price: u64,
    pub timestamp: i64,
    pub ttl: i64,
}

/// What a concurrent map of cached prices holds, keyed by the key's characters.
pub uninterp spec fn cache_entries(m: DashMap<String, CachedPrice>) -> Map<Seq<char>, CachedPrice>;

/// The empty set of entries.
pub open spec fn no_entries() -> Map<Seq<char>, CachedPrice> {
    Map::empty()
}

/// Relies on `DashMap::new`: a new map is empty.
#[verifier::external_body]
fn map_new() -> (r: DashMap<String, CachedPrice>)
    ensures
        cache_entries(r) == no_entries(),
{
    DashMap::new()
}

/// Relies on `DashMap::insert`: the key now maps to the value, replacing any
/// earlier one.
#[verifier::external_body]
fn map_insert(m: &mut DashMap<String, CachedPrice>, key: String, value: CachedPrice)
    ensures
        cache_entries(*final(m)) == cache_entries(*old(m)).insert(key@, value),
{
    m.insert(key, value);
}

/// Relies on `DashMap::get`: the value stored under the key, if any.
#[verifier::external_body]
fn map_get(m: &DashMap<String, CachedPrice>, key: &str) -> (r: Option<CachedPrice>)
    ensures
        r is Some <==> cache_entries(*m).contains_key(key@),
        r is Some ==> r->0 == cache_entries(*m)[key@],
{
    m.get(key).map(|e| *e)
}

/// Relies on `DashMap::remove`: the key no longer has an entry.
#[verifier::external_body]
fn map_remove(m: &mut DashMap<String, CachedPrice>, key: &str)
    ensures
        cache_entries(*final(m)) == cache_entries(*old(m)).remove(key@),
{
    m.remove(key);
}

/// Relies on `DashMap::clear`: no entries are left.
#[verifier::external_body]
fn map_clear(m: &mut DashMap<String, CachedPrice>)
    ensures
        cache_entries(*final(m)) == no_entries(),
{
    m.clear();
}

/// Relies on `DashMap::len`: the number of entries.
#[verifier::external_body]
fn map_len(m: &DashMap<String, CachedPrice>) -> (r: usize)
    ensures
        r == cache_entries(*m).len(),
{
    m.len()
}

/// Relies on `DashMap::is_empty`: whether there are no entries.
#[verifier::external_body]
fn map_is_empty(m: &DashMap<String, CachedPrice>) -> (r: bool)
    ensures
        r == (cache_entries(*m).dom() == Set::<Seq<char>>::empty()),
{
    m.is_empty()
}

/// Time to live, in milliseconds, of an entry inserted for a strategy:
/// half a second for sum-to-one arbitrage, five minutes for weather edge,
/// a minute otherwise.
pub open spec fn ttl_for(strategy: Seq<char>) -> i64 {
    if strategy == "sum_to_one_arb"@ {
        500
    } else if strategy == "weather_edge"@ {
        300_000
    } else {
        60_000
    }
}

/// An entry has expired once more than its time to live has passed.
pub open spec fn is_expired(e: CachedPrice, now: int) -> bool {
    now - e.timestamp > e.ttl
}

/// Entries after an insert at instant `now`.
pub open spec fn insert_spec(m: Map<Seq<char>, CachedPrice>, key: Seq<char>, price: u64, strategy: Seq<char>, now: i64) -> Map<Seq<char>, CachedPrice> {
    m.insert(key, CachedPrice { price, timestamp: now, ttl: ttl_for(strategy) })
}

/// Result of a read at instant `now`, and the entries after it: an expired
/// entry is evicted and reads as a miss.
pub open spec fn get_spec(m: Map<Seq<char>, CachedPrice>, key: Seq<char>, now: int) -> (Option<u64>, Map<Seq<char>, CachedPrice>) {
    if !m.contains_key(key) {
        (None, m)
    } else if is_expired(m[key], now) {
        (None, m.remove(key))
    } else {
        (Some(m[key].price), m)
    }
}

/// Prices keyed by string, each valid for a time that depends on the
/// strategy that stored it. Expired entries are evicted lazily, on read.
pub struct PriceCache {
    cache: DashMap<String, CachedPrice>,
}

impl View for PriceCache {
    type V = Map<Seq<char>, CachedPrice>;

    closed spec fn view(&self) -> Map<Seq<char>, CachedPrice> {
        cache_entries(self.cache)
    }
}

impl PriceCache {
    pub fn new() -> (r: Self)
        ensures
            r@ == Map::<Seq<char>, CachedPrice>::empty(),
    {
        PriceCache { cache: map_new() }
    }

    /// Store `price` under `key` at instant `now`, with the time to live of
    /// `strategy`.
    pub fn insert_at(&mut self, key: String, price: u64, strategy: &str, now: i64)
        ensures
            final(self)@ == insert_spec(old(self)@, key@, price, strategy@, now),
    {
        let s = chars_of(strategy);
        let ttl: i64 = if equals_str(&s, "sum_to_one_arb") {
            500
        } else if equals_str(&s, "weather_edge") {
            300_000
        } else {
            60_000
        };
        map_insert(&mut self.cache, key, CachedPrice { price, timestamp: now, ttl });
    }

    /// Store `price` under `key` now.
    pub fn insert(&mut self, key: String, price: u64, strategy: &str)
        ensures
            exists|now: i64| final(self)@ == insert_spec(old(self)@, key@, price, strategy@, now),
    {
        let now = now_millis();
        self.insert_at(key, price, strategy, now);
    }

    /// Read `key` at instant `now`: its price while valid; a miss, evicting
    /// the entry, once it has expired.
    pub fn get_at(&mut self, key: &str, now: i64) -> (r: Option<u64>)
        ensures
            (r, final(self)@) == get_spec(old(self)@, key@, now as int),
    {
        match map_get(&self.cache, key) {
            None => None,
            Some(e) => {
                if (now as i128) - (e.timestamp as i128) > (e.ttl as i128) {
                    map_remove(&mut self.cache, key);
                    None
                } else {
                    Some(e.price)
                }
            },
        }
    }

    /// Read `key` now.
    pub fn get(&mut self, key: &str) -> (r: Option<u64>)
        ensures
            exists|now: i64| (r, final(self)@) == get_spec(old(self)@, key@, now as int),
    {
        let now = now_millis();
        self.get_at(key, now)
    }

    pub fn clear(&mut self)
        ensures
            final(self)@ == Map::<Seq<char>, CachedPrice>::empty(),
    {
        map_clear(&mut self.cache);
    }

    pub fn len(&self) -> (r: usize)
        ensures
            r == self@.len(),
    {
        map_len(&self.cache)
    }

    pub fn is_empty(&self) -> (r: bool)
        ensures
            r == (self@.dom() == Set::<Seq<char>>::empty()),
    {
        map_is_empty(&self.cache)
    }
}

impl Default for PriceCache {
    fn default() -> (r: Self)
        ensures
            r@ == Map::<Seq<char>, CachedPrice>::empty(),
    {
        Self::new()
    }
}

/// Once more than the time to live of its strategy has passed since an
/// insert, reading the key is a miss and leaves no entry for it.
pub proof fn lemma_expired_entry_is_evicted(
    m: Map<Seq<char>, CachedPrice>,
    key: Seq<char>,
    price: u64,
    strategy: Seq<char>,
    inserted: i64,
    now: int,
)
    requires
        now - inserted > ttl_for(strategy),
    ensures
        get_spec(insert_spec(m, key, price, strategy, inserted), key, now).0 is None,
        !get_spec(insert_spec(m, key, price, strategy, inserted), key, now).1.contains_key(key),
{
}

/// Within the time to live, reading the key gives back the inserted price.
pub proof fn lemma_fresh_entry_is_kept(
    m: Map<Seq<char>, CachedPrice>,
    key: Seq<char>,
    price: u64,
    strategy: Seq<char>,
    inserted: i64,
    now: int,
)
    requires
        now - inserted <= ttl_for(strategy),
    ensures
        get_spec(insert_spec(m, key, price, strategy, inserted), key, now).0 == Some(price),
{
}

} // verus!
