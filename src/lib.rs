//! A coin-flip game: one coin per account, kept in a bounded store, with
//! guarded create, toss and remove transitions.

pub mod coin;
pub mod laws;
pub mod pallet;
pub mod randomness;
pub mod store;

pub use coin::{Coin, CoinSide};
pub use pallet::{ensure_signed, Config, DispatchError, Error, Event, Origin, Pallet};
pub use randomness::seed_from_block_number;
pub use store::{CapacityExceeded, CoinStore, COIN_STORAGE_LIMIT};
