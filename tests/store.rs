use coin_game::{CapacityExceeded, Coin, CoinSide, CoinStore, COIN_STORAGE_LIMIT};

const HEAD: Coin = Coin { side: CoinSide::Head };
const TAIL: Coin = Coin { side: CoinSide::Tail };

#[test]
fn store_insert_get_remove() {
    let mut store = CoinStore::new();
    assert_eq!(store.len(), 0);
    assert_eq!(store.get(5), None);
    assert_eq!(store.try_insert(5, HEAD), Ok(()));
    assert_eq!(store.get(5), Some(HEAD));
    assert_eq!(store.len(), 1);
    assert_eq!(store.remove(5), Some(HEAD));
    assert_eq!(store.get(5), None);
    assert_eq!(store.remove(5), None);
    assert_eq!(store.len(), 0);
}

#[test]
fn store_mutate_only_existing() {
    let mut store = CoinStore::new();
    assert!(!store.mutate(3, TAIL));
    assert_eq!(store.get(3), None);
    assert_eq!(store.try_insert(3, HEAD), Ok(()));
    assert!(store.mutate(3, TAIL));
    assert_eq!(store.get(3), Some(TAIL));
    assert_eq!(store.len(), 1);
}

#[test]
fn store_capacity_bound() {
    let mut store = CoinStore::new();
    let limit = COIN_STORAGE_LIMIT as u64;
    for key in 0..limit {
        assert_eq!(store.try_insert(key, HEAD), Ok(()));
    }
    assert_eq!(store.len(), 10);
    assert_eq!(store.try_insert(limit, TAIL), Err(CapacityExceeded));
    assert_eq!(store.get(limit), None);
    assert_eq!(store.len(), 10);
    for key in 0..limit {
        assert_eq!(store.get(key), Some(HEAD));
    }
    // An existing key may still be overwritten when full.
    assert_eq!(store.try_insert(4, TAIL), Ok(()));
    assert_eq!(store.get(4), Some(TAIL));
    assert_eq!(store.len(), 10);
}
