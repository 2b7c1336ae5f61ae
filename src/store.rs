use vstd::prelude::*;

use frame_support::traits::ConstU32;
use frame_support::BoundedBTreeMap;

use crate::coin::Coin;

verus! {

/// The most coins the store holds at once.
pub const COIN_STORAGE_LIMIT: u32 = 10;

#[verifier::external_type_specification]
#[verifier::external_body]
#[verifier::reject_recursive_types(K)]
#[verifier::reject_recursive_types(V)]
#[verifier::reject_recursive_types(S)]
pub struct ExBoundedBTreeMap<K, V, S>(BoundedBTreeMap<K, V, S>);

#[verifier::external_type_specification]
#[verifier::external_body]
pub struct ExConstU32<const T: u32>(ConstU32<T>);

/// The bounded map that holds the coins, keyed by account.
pub type CoinMap = BoundedBTreeMap<u64, Coin, ConstU32<COIN_STORAGE_LIMIT>>;

/// What a `CoinMap` holds.
pub uninterp spec fn coins_of(m: CoinMap) -> Map<u64, Coin>;

/// Relies on `BoundedBTreeMap::new`: a map with no entries.
#[verifier::external_body]
fn map_new() -> (r: CoinMap)
    ensures
        coins_of(r).dom() == Set::<u64>::empty(),
{
    BoundedBTreeMap::new()
}

/// Relies on `BoundedBTreeMap::try_insert`: it inserts (overwriting any entry
/// under `key`) when the map holds fewer entries than its bound or already
/// holds `key`, and otherwise leaves the map as it was and fails.
#[verifier::external_body]
fn map_try_insert(m: &mut CoinMap, key: u64, value: Coin) -> (r: bool)
    ensures
        r == (coins_of(*old(m)).len() < COIN_STORAGE_LIMIT || coins_of(*old(m)).contains_key(key)),
        r ==> coins_of(*final(m)) == coins_of(*old(m)).insert(key, value),
        !r ==> coins_of(*final(m)) == coins_of(*old(m)),
{
    m.try_insert(key, value).is_ok()
}

/// Relies on `BoundedBTreeMap::get` (through `BTreeMap::get`): the value under
/// `key`, if any.
#[verifier::external_body]
fn map_get(m: &CoinMap, key: u64) -> (r: Option<Coin>)
    ensures
        r == (if coins_of(*m).contains_key(key) {
            Some(coins_of(*m)[key])
        } else {
            None
        }),
{
    m.get(&key).copied()
}

/// Relies on `BoundedBTreeMap::remove`: drops the entry under `key` and hands
/// back its value, if there was one.
#[verifier::external_body]
fn map_remove(m: &mut CoinMap, key: u64) -> (r: Option<Coin>)
    ensures
        coins_of(*final(m)) == coins_of(*old(m)).remove(key),
        r == (if coins_of(*old(m)).contains_key(key) {
            Some(coins_of(*old(m))[key])
        } else {
            None
        }),
{
    m.remove(&key)
}

/// Relies on `BoundedBTreeMap::len` (through `BTreeMap::len`): the number of
/// entries.
#[verifier::external_body]
fn map_len(m: &CoinMap) -> (r: usize)
    ensures
        r == coins_of(*m).len(),
{
    m.len()
}

/// A new account refused because the store is full.
#[derive(Clone, Copy, Debug, PartialEq, Eq, Structural)]
pub struct CapacityExceeded;

/// A store of at most `COIN_STORAGE_LIMIT` coins, one per account.
pub struct CoinStore {
    map: CoinMap,
}

impl View for CoinStore {
    type V = Map<u64, Coin>;

    closed spec fn view(&self) -> Map<u64, Coin> {
        coins_of(self.map)
    }
}

/// A map of coins that a store can hold: finitely many, within the limit.
pub open spec fn within_capacity(coins: Map<u64, Coin>) -> bool {
    coins.dom().finite() && coins.len() <= COIN_STORAGE_LIMIT
}

impl CoinStore {
    pub open spec fn wf(&self) -> bool {
        within_capacity(self@)
    }

    /// An empty store.
    pub fn new() -> (r: CoinStore)
        ensures
            r.wf(),
            r@ == Map::<u64, Coin>::empty(),
    {
        let r = CoinStore { map: map_new() };
        assert(r@ =~= Map::<u64, Coin>::empty());
        r
    }

    /// The number of accounts that hold a coin.
    pub fn len(&self) -> (r: usize)
        ensures
            r == self@.len(),
    {
        map_len(&self.map)
    }

    /// Stores `value` under `key`. A new key is refused when the store is
    /// full; an existing key is overwritten.
    pub fn try_insert(&mut self, key: u64, value: Coin) -> (r: Result<(), CapacityExceeded>)
        requires
            old(self).wf(),
        ensures
            final(self).wf(),
            r is Ok <==> (old(self)@.len() < COIN_STORAGE_LIMIT || old(self)@.contains_key(key)),
            r is Ok ==> final(self)@ == old(self)@.insert(key, value),
            r is Err ==> final(self)@ == old(self)@,
    {
        let ok = map_try_insert(&mut self.map, key, value);
        if ok {
            Ok(())
        } else {
            Err(CapacityExceeded)
        }
    }

    /// A copy of the coin under `key`, if any.
    pub fn get(&self, key: u64) -> (r: Option<Coin>)
        ensures
            r == (if self@.contains_key(key) {
                Some(self@[key])
            } else {
                None
            }),
    {
        map_get(&self.map, key)
    }

    /// Replaces the coin under an existing `key`; returns whether there was one.
    pub fn mutate(&mut self, key: u64, value: Coin) -> (r: bool)
        requires
            old(self).wf(),
        ensures
            final(self).wf(),
            r == old(self)@.contains_key(key),
            r ==> final(self)@ == old(self)@.insert(key, value),
            !r ==> final(self)@ == old(self)@,
    {
        if map_get(&self.map, key).is_some() {
            let ok = map_try_insert(&mut self.map, key, value);
            assert(ok);
            true
        } else {
            false
        }
    }

    /// Drops the coin under `key` and returns it, if there was one.
    pub fn remove(&mut self, key: u64) -> (r: Option<Coin>)
        requires
            old(self).wf(),
        ensures
            final(self).wf(),
            final(self)@ == old(self)@.remove(key),
            r == (if old(self)@.contains_key(key) {
                Some(old(self)@[key])
            } else {
                None
            }),
    {
        map_remove(&mut self.map, key)
    }
}

} // verus!
