use vstd::prelude::*;

use crate::coin::{Coin, CoinSide};
use crate::randomness::{
    decode_u32, drawn_side, encode_subject, random_bool, seed_from_block_number, seed_of,
    subject_bytes,
};
use crate::store::{within_capacity, CoinStore, COIN_STORAGE_LIMIT};

verus! {

/// Who a call comes from.
#[derive(Clone, Copy, Debug, PartialEq, Eq, Structural)]
pub enum Origin {
    /// The privileged system origin.
    Root,
    /// A call signed by an account.
    Signed(u64),
    /// A call that carries no signature.
    Unsigned,
}

impl Origin {
    /// A call signed by `who`.
    pub fn signed(who: u64) -> (r: Origin)
        ensures
            r == Origin::Signed(who),
    {
        Origin::Signed(who)
    }

    /// A call without a signature.
    pub fn none() -> (r: Origin)
        ensures
            r == Origin::Unsigned,
    {
        Origin::Unsigned
    }

    /// The privileged system origin.
    pub fn root() -> (r: Origin)
        ensures
            r == Origin::Root,
    {
        Origin::Root
    }
}

/// The failures of the coin transitions.
#[derive(Clone, Copy, Debug, PartialEq, Eq, Structural)]
pub enum Error {
    /// The account already holds a coin.
    CoinAlreadyExists,
    /// The account holds no coin.
    CoinNotFound,
    /// The store is full and the account holds no coin yet.
    CapacityExceeded,
}

/// Why a call was refused.
#[derive(Clone, Copy, Debug, PartialEq, Eq, Structural)]
pub enum DispatchError {
    /// The call was not signed.
    BadOrigin,
    /// The transition itself failed.
    Module(Error),
}

/// The notifications raised by the calls.
#[derive(Clone, Copy, Debug, PartialEq, Eq, Structural)]
pub enum Event {
    /// A new coin has been created.
    CoinCreated(u64),
    /// The coin has been flipped to the given side.
    CoinFlipped(u64, CoinSide),
    /// The guess matched the side drawn.
    CoinGuessed(u64, CoinSide),
    /// The guess missed the side drawn.
    CoinNotGuessed(u64, CoinSide),
    /// The coin has been removed.
    CoinRemoved(u64),
}

/// The fixed parameters of a game.
#[derive(Clone, Copy, Debug)]
pub struct Config {
    /// Separates this game's random draws from those of others.
    pub pallet_id: [u8; 8],
}

/// The account that signed `origin`, if any.
pub open spec fn signer(origin: Origin) -> Option<u64> {
    match origin {
        Origin::Signed(who) => Some(who),
        _ => None,
    }
}

/// The failure of a transition, as a call reports it.
pub open spec fn dispatched(r: Result<(), Error>) -> Result<(), DispatchError> {
    match r {
        Ok(()) => Ok(()),
        Err(e) => Err(DispatchError::Module(e)),
    }
}

/// Whether `who` may create a coin in `coins`, and if not, why.
pub open spec fn create_outcome(coins: Map<u64, Coin>, who: u64) -> Result<(), Error> {
    if coins.contains_key(who) {
        Err(Error::CoinAlreadyExists)
    } else if coins.len() >= COIN_STORAGE_LIMIT {
        Err(Error::CapacityExceeded)
    } else {
        Ok(())
    }
}

/// The coins after `who` creates a coin showing `side`.
pub open spec fn coins_after_create(coins: Map<u64, Coin>, who: u64, side: CoinSide) -> Map<
    u64,
    Coin,
> {
    if create_outcome(coins, who) is Ok {
        coins.insert(who, Coin { side })
    } else {
        coins
    }
}

/// Whether `who` holds a coin to toss or remove, and if not, why.
pub open spec fn presence(coins: Map<u64, Coin>, who: u64) -> Result<(), Error> {
    if coins.contains_key(who) {
        Ok(())
    } else {
        Err(Error::CoinNotFound)
    }
}

/// The coins after `who` tosses and `drawn` comes up: the coin turns to
/// `drawn` where it showed the other side.
pub open spec fn coins_after_toss(coins: Map<u64, Coin>, who: u64, drawn: CoinSide) -> Map<
    u64,
    Coin,
> {
    if coins.contains_key(who) && coins[who].side != drawn {
        coins.insert(who, Coin { side: drawn })
    } else {
        coins
    }
}

/// The notifications of a toss by `who` with `guess` when `drawn` comes up.
pub open spec fn toss_events(
    coins: Map<u64, Coin>,
    who: u64,
    guess: CoinSide,
    drawn: CoinSide,
) -> Seq<Event> {
    if !coins.contains_key(who) {
        Seq::empty()
    } else {
        let verdict = if guess == drawn {
            Event::CoinGuessed(who, drawn)
        } else {
            Event::CoinNotGuessed(who, drawn)
        };
        if coins[who].side != drawn {
            seq![verdict, Event::CoinFlipped(who, drawn)]
        } else {
            seq![verdict]
        }
    }
}

/// The account that signed `origin`; `BadOrigin` for any other origin.
pub fn ensure_signed(origin: Origin) -> (r: Result<u64, DispatchError>)
    ensures
        r == (match signer(origin) {
            Some(who) => Ok(who),
            None => Err(DispatchError::BadOrigin),
        }),
{
    match origin {
        Origin::Signed(who) => Ok(who),
        _ => Err(DispatchError::BadOrigin),
    }
}

/// A coin game: the coins of all accounts and the notifications raised so far.
pub struct Pallet {
    config: Config,
    coins: CoinStore,
    events: Vec<Event>,
}

impl Pallet {
    /// The coin of each account.
    pub closed spec fn coins(&self) -> Map<u64, Coin> {
        self.coins@
    }

    /// The notifications raised so far, oldest first.
    pub closed spec fn events(&self) -> Seq<Event> {
        self.events@
    }

    /// The parameters the game was made with.
    pub closed spec fn config(&self) -> Config {
        self.config
    }

    /// The store never exceeds its capacity.
    pub open spec fn wf(&self) -> bool {
        within_capacity(self.coins())
    }

    /// A game with no coins and no notifications.
    pub fn new(config: Config) -> (r: Pallet)
        ensures
            r.wf(),
            r.coins() == Map::<u64, Coin>::empty(),
            r.events() == Seq::<Event>::empty(),
            r.config() == config,
    {
        Pallet { config, coins: CoinStore::new(), events: Vec::new() }
    }

    fn deposit_event(&mut self, event: Event)
        ensures
            final(self).coins() == old(self).coins(),
            final(self).events() == old(self).events().push(event),
            final(self).config() == old(self).config(),
    {
        self.events.push(event);
    }

    /// Creates a coin for the signer, showing the side that `random` draws,
    /// and raises `CoinCreated`.
    pub fn create_coin(&mut self, origin: Origin, random: &[u8; 32]) -> (r: Result<
        (),
        DispatchError,
    >)
        requires
            old(self).wf(),
        ensures
            final(self).wf(),
            final(self).config() == old(self).config(),
            match signer(origin) {
                None => {
                    &&& r == Err::<(), DispatchError>(DispatchError::BadOrigin)
                    &&& final(self).coins() == old(self).coins()
                    &&& final(self).events() == old(self).events()
                },
                Some(who) => {
                    &&& r == dispatched(create_outcome(old(self).coins(), who))
                    &&& final(self).coins() == coins_after_create(
                        old(self).coins(),
                        who,
                        drawn_side(random@),
                    )
                    &&& final(self).events() == if r is Ok {
                        old(self).events().push(Event::CoinCreated(who))
                    } else {
                        old(self).events()
                    }
                },
            },
    {
        let who = match ensure_signed(origin) {
            Ok(who) => who,
            Err(e) => return Err(e),
        };
        match self.do_create_coin(who, random) {
            Ok(()) => {},
            Err(e) => return Err(DispatchError::Module(e)),
        }
        self.deposit_event(Event::CoinCreated(who));
        Ok(())
    }

    /// Tosses the signer's coin: `random` draws a side; `CoinGuessed` or
    /// `CoinNotGuessed` tells whether `coin_side` matched it; where the coin
    /// showed the other side it turns over and `CoinFlipped` is raised.
    pub fn toss_coin(&mut self, origin: Origin, coin_side: CoinSide, random: &[u8; 32]) -> (r:
        Result<(), DispatchError>)
        requires
            old(self).wf(),
        ensures
            final(self).wf(),
            final(self).config() == old(self).config(),
            match signer(origin) {
                None => {
                    &&& r == Err::<(), DispatchError>(DispatchError::BadOrigin)
                    &&& final(self).coins() == old(self).coins()
                    &&& final(self).events() == old(self).events()
                },
                Some(who) => {
                    &&& r == dispatched(presence(old(self).coins(), who))
                    &&& final(self).coins() == coins_after_toss(
                        old(self).coins(),
                        who,
                        drawn_side(random@),
                    )
                    &&& final(self).events() == old(self).events() + toss_events(
                        old(self).coins(),
                        who,
                        coin_side,
                        drawn_side(random@),
                    )
                },
            },
    {
        let who = match ensure_signed(origin) {
            Ok(who) => who,
            Err(e) => return Err(e),
        };
        let coin = match self.get_coin(who) {
            Ok(coin) => coin,
            Err(e) => return Err(DispatchError::Module(e)),
        };
        let toss_result = Self::random_coin_side(random);
        let ghost events0 = self.events@;
        if coin_side == toss_result {
            self.deposit_event(Event::CoinGuessed(who, toss_result));
        } else {
            self.deposit_event(Event::CoinNotGuessed(who, toss_result));
        }
        if coin.side != toss_result {
            self.mutate_coin(who, Coin { side: toss_result });
            self.deposit_event(Event::CoinFlipped(who, toss_result));
        }
        assert(self.events@ =~= events0 + toss_events(
            old(self).coins(),
            who,
            coin_side,
            toss_result,
        ));
        Ok(())
    }

    /// Removes the signer's coin and raises `CoinRemoved`.
    pub fn remove_coin(&mut self, origin: Origin) -> (r: Result<(), DispatchError>)
        requires
            old(self).wf(),
        ensures
            final(self).wf(),
            final(self).config() == old(self).config(),
            match signer(origin) {
                None => {
                    &&& r == Err::<(), DispatchError>(DispatchError::BadOrigin)
                    &&& final(self).coins() == old(self).coins()
                    &&& final(self).events() == old(self).events()
                },
                Some(who) => {
                    &&& r == dispatched(presence(old(self).coins(), who))
                    &&& final(self).coins() == old(self).coins().remove(who)
                    &&& final(self).events() == if r is Ok {
                        old(self).events().push(Event::CoinRemoved(who))
                    } else {
                        old(self).events()
                    }
                },
            },
    {
        let who = match ensure_signed(origin) {
            Ok(who) => who,
            Err(e) => return Err(e),
        };
        match self.do_remove_coin(who) {
            Ok(()) => {},
            Err(e) => return Err(DispatchError::Module(e)),
        }
        self.deposit_event(Event::CoinRemoved(who));
        Ok(())
    }

    /// Creates a coin for `who` showing the side that `random` draws. Fails
    /// with `CoinAlreadyExists` where `who` holds one, and with
    /// `CapacityExceeded` where the store is full; either way nothing changes.
    pub fn do_create_coin(&mut self, who: u64, random: &[u8; 32]) -> (r: Result<(), Error>)
        requires
            old(self).wf(),
        ensures
            final(self).wf(),
            r == create_outcome(old(self).coins(), who),
            final(self).coins() == coins_after_create(old(self).coins(), who, drawn_side(random@)),
            final(self).events() == old(self).events(),
            final(self).config() == old(self).config(),
    {
        let side = Self::random_coin_side(random);
        let coin = Coin { side };
        if self.get_coin(who).is_ok() {
            return Err(Error::CoinAlreadyExists);
        }
        self.insert_coin(who, coin)
    }

    /// Removes the coin of `who`; `CoinNotFound` where there is none.
    pub fn do_remove_coin(&mut self, who: u64) -> (r: Result<(), Error>)
        requires
            old(self).wf(),
        ensures
            final(self).wf(),
            r == presence(old(self).coins(), who),
            final(self).coins() == old(self).coins().remove(who),
            final(self).events() == old(self).events(),
            final(self).config() == old(self).config(),
    {
        if self.get_coin(who).is_err() {
            return Err(Error::CoinNotFound);
        }
        self.delete_coin(who);
        Ok(())
    }

    /// The bytes to hand the randomness source at `block_number`: the game's
    /// identifier, then the block number as a 32-bit seed (zero past 32 bits).
    pub fn random_subject(&self, block_number: u64) -> (r: Vec<u8>)
        ensures
            r@ == subject_bytes(self.config().pallet_id@, seed_of(block_number)),
    {
        let seed = seed_from_block_number(block_number);
        encode_subject(self.config.pallet_id, seed)
    }

    /// The side that a random value draws: `Head` where its leading 32-bit
    /// word is even, `Tail` where it is odd.
    pub fn random_coin_side(random: &[u8; 32]) -> (r: CoinSide)
        ensures
            r == drawn_side(random@),
    {
        if Self::generate_insecure_random_boolean(random) {
            CoinSide::Head
        } else {
            CoinSide::Tail
        }
    }

    /// Whether the leading 32-bit word (little-endian) of a random value is
    /// even. Predictable by anyone who can see the value's inputs.
    pub fn generate_insecure_random_boolean(random: &[u8; 32]) -> (r: bool)
        ensures
            r == random_bool(random@),
    {
        let bytes: &[u8] = random.as_slice();
        match decode_u32(bytes) {
            Some(random_number) => random_number % 2 == 0,
            None => false,
        }
    }

    /// Stores `coin` for `who`, overwriting any coin it holds. A new account
    /// is refused with `CapacityExceeded` when the store is full.
    pub fn insert_coin(&mut self, who: u64, coin: Coin) -> (r: Result<(), Error>)
        requires
            old(self).wf(),
        ensures
            final(self).wf(),
            r == (if old(self).coins().len() < COIN_STORAGE_LIMIT || old(self).coins().contains_key(
                who,
            ) {
                Ok(())
            } else {
                Err(Error::CapacityExceeded)
            }),
            r is Ok ==> final(self).coins() == old(self).coins().insert(who, coin),
            r is Err ==> final(self).coins() == old(self).coins(),
            final(self).events() == old(self).events(),
            final(self).config() == old(self).config(),
    {
        match self.coins.try_insert(who, coin) {
            Ok(()) => Ok(()),
            Err(_) => Err(Error::CapacityExceeded),
        }
    }

    /// Replaces the coin of `who` where there is one; otherwise does nothing.
    pub fn mutate_coin(&mut self, who: u64, coin: Coin)
        requires
            old(self).wf(),
        ensures
            final(self).wf(),
            final(self).coins() == if old(self).coins().contains_key(who) {
                old(self).coins().insert(who, coin)
            } else {
                old(self).coins()
            },
            final(self).events() == old(self).events(),
            final(self).config() == old(self).config(),
    {
        let _ = self.coins.mutate(who, coin);
    }

    /// Drops the coin of `who`, if there is one.
    pub fn delete_coin(&mut self, who: u64)
        requires
            old(self).wf(),
        ensures
            final(self).wf(),
            final(self).coins() == old(self).coins().remove(who),
            final(self).events() == old(self).events(),
            final(self).config() == old(self).config(),
    {
        let _ = self.coins.remove(who);
    }

    /// The identifier that separates this game's random draws.
    pub fn pallet_id(&self) -> (r: [u8; 8])
        ensures
            r == self.config().pallet_id,
    {
        self.config.pallet_id
    }

    /// The number of accounts that hold a coin.
    pub fn coin_count(&self) -> (r: usize)
        ensures
            r == self.coins().len(),
    {
        self.coins.len()
    }

    /// The number of notifications raised so far.
    pub fn event_count(&self) -> (r: usize)
        ensures
            r == self.events().len(),
    {
        self.events.len()
    }

    /// The notification raised at position `index`, oldest first, if any.
    pub fn event_at(&self, index: usize) -> (r: Option<Event>)
        ensures
            r == (if index < self.events().len() {
                Some(self.events()[index as int])
            } else {
                None
            }),
    {
        if index < self.events.len() {
            Some(self.events[index])
        } else {
            None
        }
    }

    /// The latest notification, if any was raised.
    pub fn last_event(&self) -> (r: Option<Event>)
        ensures
            r == (if self.events().len() > 0 {
                Some(self.events().last())
            } else {
                None
            }),
    {
        let n = self.events.len();
        if n > 0 {
            Some(self.events[n - 1])
        } else {
            None
        }
    }

    /// A copy of the coin of `who`; `CoinNotFound` where there is none.
    pub fn get_coin(&self, who: u64) -> (r: Result<Coin, Error>)
        ensures
            r == (if self.coins().contains_key(who) {
                Ok::<Coin, Error>(self.coins()[who])
            } else {
                Err(Error::CoinNotFound)
            }),
    {
        match self.coins.get(who) {
            Some(coin) => Ok(coin),
            None => Err(Error::CoinNotFound),
        }
    }
}

} // verus!
