use vstd::prelude::*;

verus! {

/// One face of a coin.
#[derive(Clone, Copy, Debug, PartialEq, Eq, Structural)]
pub enum CoinSide {
    Head,
    Tail,
}

/// The game entity stored under an account.
#[derive(Clone, Copy, Debug, PartialEq, Eq, Structural)]
pub struct Coin {
    pub side: CoinSide,
}

impl Coin {
    /// A coin showing `side`.
    pub fn new(side: CoinSide) -> (r: Coin)
        ensures
            r.side == side,
    {
        Coin { side }
    }
}

} // verus!
