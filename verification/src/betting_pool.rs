//! Instruction definitions of the betting pool program.

use vstd::prelude::*;

verus! {

/// Arguments to initialize a betting pool.
#[derive(Clone, Copy, Debug, PartialEq, Eq, Structural)]
pub struct InitializeBettingPoolArgs {
    /// Decimal count of the pool's escrow token.
    pub decimals: u8,
}

/// Arguments to record a trade.
#[derive(Clone, Copy, Debug, PartialEq, Eq, Structural)]
pub struct TradeArgs {
    /// Size of the trade.
    pub size: u64,
    /// Price the buyer pays.
    pub buy_price: u64,
    /// Price the seller receives.
    pub sell_price: u64,
}

/// Instructions supported by the betting pool program.
#[derive(Clone, Copy, Debug, PartialEq, Eq, Structural)]
pub enum BettingPoolInstruction {
    /// Initializes a betting pool.
    InitializeBettingPool(InitializeBettingPoolArgs),
    /// Records a trade between a buyer and a seller.
    Trade(TradeArgs),
    /// Settles the pool.
    Settle,
    /// Collects the proceeds.
    Collect,
}

} // verus!
