//! Verified cores of a family of on-chain programs.
//!
//! The centrepiece is the lending protocol's reserve accounting and
//! obligation health engine: fixed-point decimal math ([`decimal`],
//! [`rate`]), reserve liquidity and collateral accounting with interest
//! accrual and a kinked borrow-rate curve ([`reserve`]), borrower
//! positions and liquidation ([`obligation`]), and the fixed byte layout
//! that persists a reserve ([`reserve_pack`]).
//!
//! Around it stand the smaller state and instruction definitions of the
//! sibling programs: stake pool, token swap, betting pool, record,
//! timelock, and token utilities.

pub mod betting_pool;
pub mod constant_price;
pub mod decimal;
pub mod error;
pub mod instruction;
pub mod last_update;
pub mod math;
pub mod obligation;
pub mod proof_extraction;
pub mod pubkey;
pub mod rate;
pub mod record;
pub mod reserve;
pub mod reserve_pack;
pub mod stake_pool;
pub mod timelock;
pub mod token_instruction;
pub mod token_swap;
