use vstd::prelude::*;

use crate::coin::{Coin, CoinSide};
use crate::pallet::{
    coins_after_create, coins_after_toss, create_outcome, presence, toss_events, Error, Event,
};
use crate::store::{within_capacity, COIN_STORAGE_LIMIT};

verus! {

/// Once `who` has created a coin, `who` holds one, and creating again fails
/// with `CoinAlreadyExists` and leaves the coins as they were.
pub proof fn lemma_create_then_create_refused(
    coins: Map<u64, Coin>,
    who: u64,
    side: CoinSide,
    again: CoinSide,
)
    requires
        within_capacity(coins),
        create_outcome(coins, who) is Ok,
    ensures
        coins_after_create(coins, who, side).contains_key(who),
        coins_after_create(coins, who, side)[who] == (Coin { side }),
        create_outcome(coins_after_create(coins, who, side), who) == Err::<(), Error>(
            Error::CoinAlreadyExists,
        ),
        coins_after_create(coins_after_create(coins, who, side), who, again) == coins_after_create(
            coins,
            who,
            side,
        ),
{
}

/// For an account without a coin, toss and remove both fail with
/// `CoinNotFound`, raise nothing, and leave the coins as they were.
pub proof fn lemma_absent_account_refused(
    coins: Map<u64, Coin>,
    who: u64,
    guess: CoinSide,
    drawn: CoinSide,
)
    requires
        !coins.contains_key(who),
    ensures
        presence(coins, who) == Err::<(), Error>(Error::CoinNotFound),
        coins_after_toss(coins, who, drawn) == coins,
        toss_events(coins, who, guess, drawn) == Seq::<Event>::empty(),
        coins.remove(who) == coins,
{
    assert(coins.remove(who) =~= coins);
}

/// Create, remove, remove: the first removal succeeds and leaves no coin, the
/// second fails with `CoinNotFound`.
pub proof fn lemma_remove_twice(coins: Map<u64, Coin>, who: u64, side: CoinSide)
    requires
        within_capacity(coins),
        create_outcome(coins, who) is Ok,
    ensures
        presence(coins_after_create(coins, who, side), who) is Ok,
        !coins_after_create(coins, who, side).remove(who).contains_key(who),
        presence(coins_after_create(coins, who, side).remove(who), who) == Err::<(), Error>(
            Error::CoinNotFound,
        ),
{
}

/// After a toss the coin shows the side drawn, whatever it showed before and
/// whatever was guessed; where it already showed that side, nothing changes.
pub proof fn lemma_toss_shows_drawn(coins: Map<u64, Coin>, who: u64, drawn: CoinSide)
    requires
        coins.contains_key(who),
    ensures
        coins_after_toss(coins, who, drawn).contains_key(who),
        coins_after_toss(coins, who, drawn)[who].side == drawn,
        coins_after_toss(coins, who, drawn) == coins.insert(who, Coin { side: drawn }),
        coins[who].side == drawn ==> coins_after_toss(coins, who, drawn) == coins,
{
    if coins[who].side == drawn {
        assert(coins.insert(who, Coin { side: drawn }) =~= coins);
    }
}

/// A full store refuses a new account with `CapacityExceeded` and keeps the
/// coins it holds.
pub proof fn lemma_full_store_refuses(coins: Map<u64, Coin>, who: u64, side: CoinSide)
    requires
        within_capacity(coins),
        coins.len() == COIN_STORAGE_LIMIT,
        !coins.contains_key(who),
    ensures
        create_outcome(coins, who) == Err::<(), Error>(Error::CapacityExceeded),
        coins_after_create(coins, who, side) == coins,
{
}

} // verus!
