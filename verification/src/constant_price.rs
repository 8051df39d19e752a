//! The token swap program's constant price curve: token B always trades
//! at a fixed price in token A, set when the pool is initialized.

use vstd::prelude::*;
use vstd::bytes::{spec_u64_to_le_bytes, u64_from_le_bytes, u64_to_le_bytes};
use vstd::slice::slice_subrange;

verus! {

/// Errors the curve can report to the swap program.
#[derive(Clone, Copy, Debug, PartialEq, Eq, Structural)]
pub enum SwapError {
    /// The curve parameters are invalid.
    InvalidCurve,
    /// The pool has no supply on the required side.
    EmptySupply,
}

/// The direction of a trade through the pool.
#[derive(Clone, Copy, Debug, PartialEq, Eq, Structural)]
pub enum TradeDirection {
    /// Token A is paid in, token B is paid out.
    AtoB,
    /// Token B is paid in, token A is paid out.
    BtoA,
}

/// The amounts moved by a swap, before fees.
#[derive(Clone, Copy, Debug, PartialEq, Eq, Structural)]
pub struct SwapWithoutFeesResult {
    /// Amount of source tokens taken from the trader.
    pub source_amount_swapped: u128,
    /// Amount of destination tokens paid out.
    pub destination_amount_swapped: u128,
}

/// The trading tokens a pool-token redemption pays out.
#[derive(Clone, Copy, Debug, PartialEq, Eq, Structural)]
pub struct TradingTokenResult {
    /// Amount of token A.
    pub token_a_amount: u128,
    /// Amount of token B.
    pub token_b_amount: u128,
}

/// A swap of token A into token B at the fixed price: the payout is the
/// source rounded down to whole units of token B, and the source charged
/// is trimmed to the amount actually converted.  `None` on a zero price,
/// or when either side of the trade would move nothing.
pub open spec fn spec_swap_a_to_b(source: nat, price: nat) -> Option<(nat, nat)> {
    if price == 0 {
        None
    } else {
        let dest = source / price;
        let charged = (source - (source % price)) as nat;
        if charged == 0 || dest == 0 {
            None
        } else {
            Some((charged, dest))
        }
    }
}

/// A swap of token B into token A at the fixed price: the payout is the
/// source times the price.  `None` on overflow, or when either side of
/// the trade would move nothing.
pub open spec fn spec_swap_b_to_a(source: nat, price: nat) -> Option<(nat, nat)> {
    if source * price > u128::MAX {
        None
    } else if source == 0 || source * price == 0 {
        None
    } else {
        Some((source, source * price))
    }
}

/// Redemption of pool tokens into trading tokens: half the pool tokens
/// redeem token A, half token B, each taking its share of the pool's
/// total value in token A units.  `None` on overflow, a zero pool
/// supply, or a zero price.
pub open spec fn spec_pool_to_trading(
    pool_tokens: nat,
    pool_token_supply: nat,
    swap_token_a_amount: nat,
    swap_token_b_amount: nat,
    price: nat,
) -> Option<(nat, nat)> {
    let a_pool_tokens = pool_tokens / 2;
    let b_pool_tokens = (pool_tokens - a_pool_tokens) as nat;
    if swap_token_b_amount * price > u128::MAX {
        None
    } else if swap_token_b_amount * price + swap_token_a_amount > u128::MAX {
        None
    } else {
        let total_value = (swap_token_b_amount * price + swap_token_a_amount) as nat;
        if a_pool_tokens * total_value > u128::MAX {
            None
        } else if pool_token_supply == 0 {
            None
        } else if b_pool_tokens * total_value > u128::MAX {
            None
        } else if price == 0 {
            None
        } else {
            Some(
                (
                    (a_pool_tokens * total_value) / pool_token_supply,
                    ((b_pool_tokens * total_value) / price) / pool_token_supply,
                ),
            )
        }
    }
}

/// Constant price swap curve, set at init.
#[derive(Clone, Copy, Debug, PartialEq, Eq, Structural)]
pub struct ConstantPriceCurve {
    /// Amount of token A required to get 1 token B.
    pub token_b_price: u64,
}

impl ConstantPriceCurve {
    /// The amounts a swap moves, before fees; the pool balances do not
    /// matter for a fixed price.
    pub fn swap_without_fees(
        &self,
        source_amount: u128,
        _swap_source_amount: u128,
        _swap_destination_amount: u128,
        trade_direction: TradeDirection,
    ) -> (r: Option<SwapWithoutFeesResult>)
        ensures
            ({
                let s = match trade_direction {
                    TradeDirection::AtoB => spec_swap_a_to_b(
                        source_amount as nat,
                        self.token_b_price as nat,
                    ),
                    TradeDirection::BtoA => spec_swap_b_to_a(
                        source_amount as nat,
                        self.token_b_price as nat,
                    ),
                };
                match s {
                    Some(t) => r matches Some(res) && res.source_amount_swapped == t.0
                        && res.destination_amount_swapped == t.1,
                    None => r is None,
                }
            }),
    {
        let token_b_price = self.token_b_price as u128;
        let (source_amount_swapped, destination_amount_swapped) = match trade_direction {
            TradeDirection::BtoA => {
                let dest = match source_amount.checked_mul(token_b_price) {
                    Some(v) => v,
                    None => {
                        return None;
                    },
                };
                (source_amount, dest)
            },
            TradeDirection::AtoB => {
                if token_b_price == 0 {
                    return None;
                }
                let destination_amount_swapped = source_amount / token_b_price;
                // If there is a remainder from buying token B, trim the
                // charged amount so no extra tokens are taken; the fee
                // was already computed on the full amount.
                let remainder = source_amount % token_b_price;
                proof {
                    vstd::arithmetic::div_mod::lemma_fundamental_div_mod(
                        source_amount as int,
                        token_b_price as int,
                    );
                    vstd::arithmetic::mul::lemma_mul_nonnegative(
                        token_b_price as int,
                        source_amount as int / token_b_price as int,
                    );
                }
                let source_amount_swapped = source_amount - remainder;
                (source_amount_swapped, destination_amount_swapped)
            },
        };
        if source_amount_swapped == 0 {
            return None;
        }
        if destination_amount_swapped == 0 {
            return None;
        }
        Some(SwapWithoutFeesResult { source_amount_swapped, destination_amount_swapped })
    }

    /// The trading tokens paid out for the given pool tokens, at the
    /// current pool balances and pool token supply.
    pub fn pool_tokens_to_trading_tokens(
        &self,
        pool_tokens: u128,
        pool_token_supply: u128,
        swap_token_a_amount: u128,
        swap_token_b_amount: u128,
    ) -> (r: Option<TradingTokenResult>)
        ensures
            ({
                let s = spec_pool_to_trading(
                    pool_tokens as nat,
                    pool_token_supply as nat,
                    swap_token_a_amount as nat,
                    swap_token_b_amount as nat,
                    self.token_b_price as nat,
                );
                match s {
                    Some(t) => r matches Some(res) && res.token_a_amount == t.0
                        && res.token_b_amount == t.1,
                    None => r is None,
                }
            }),
    {
        // Split the pool tokens in half: one half redeems token A, the
        // other token B.
        let token_a_pool_tokens = pool_tokens / 2;
        let token_b_pool_tokens = pool_tokens - token_a_pool_tokens;

        let token_b_price = self.token_b_price as u128;
        let weighted_b = match swap_token_b_amount.checked_mul(token_b_price) {
            Some(v) => v,
            None => {
                return None;
            },
        };
        let total_value = match weighted_b.checked_add(swap_token_a_amount) {
            Some(v) => v,
            None => {
                return None;
            },
        };

        let a_value = match token_a_pool_tokens.checked_mul(total_value) {
            Some(v) => v,
            None => {
                return None;
            },
        };
        if pool_token_supply == 0 {
            return None;
        }
        let token_a_amount = a_value / pool_token_supply;
        let b_value = match token_b_pool_tokens.checked_mul(total_value) {
            Some(v) => v,
            None => {
                return None;
            },
        };
        if token_b_price == 0 {
            return None;
        }
        let token_b_amount = (b_value / token_b_price) / pool_token_supply;
        Some(TradingTokenResult { token_a_amount, token_b_amount })
    }

    /// The curve is valid when the price is nonzero.
    pub fn validate(&self) -> (r: Result<(), SwapError>)
        ensures
            self.token_b_price == 0 ==> r == Err::<(), SwapError>(SwapError::InvalidCurve),
            self.token_b_price != 0 ==> r == Ok::<(), SwapError>(()),
    {
        if self.token_b_price == 0 {
            Err(SwapError::InvalidCurve)
        } else {
            Ok(())
        }
    }

    /// A pool must hold token A to trade against.
    pub fn validate_supply(&self, token_a_amount: u64, _token_b_amount: u64) -> (r: Result<
        (),
        SwapError,
    >)
        ensures
            token_a_amount == 0 ==> r == Err::<(), SwapError>(SwapError::EmptySupply),
            token_a_amount != 0 ==> r == Ok::<(), SwapError>(()),
    {
        if token_a_amount == 0 {
            return Err(SwapError::EmptySupply);
        }
        Ok(())
    }

    /// A packed curve is always initialized.
    pub fn is_initialized(&self) -> (r: bool)
        ensures
            r == true,
    {
        true
    }

    /// Pack the curve into its fixed 8-byte layout: the price as a
    /// little-endian `u64`.
    pub fn pack_into_slice(&self) -> (out: Vec<u8>)
        ensures
            out@ == spec_u64_to_le_bytes(self.token_b_price),
            out@.len() == 8,
    {
        proof {
            vstd::bytes::lemma_auto_spec_u64_to_from_le_bytes();
        }
        u64_to_le_bytes(self.token_b_price)
    }

    /// Unpack a curve from its fixed 8-byte layout.
    pub fn unpack_from_slice(input: &[u8]) -> (r: Result<ConstantPriceCurve, SwapError>)
        requires
            input@.len() >= 8,
        ensures
            r matches Ok(c) && c.token_b_price == vstd::bytes::spec_u64_from_le_bytes(
                input@.subrange(0, 8),
            ),
    {
        let token_b_price = u64_from_le_bytes(slice_subrange(input, 0, 8));
        Ok(ConstantPriceCurve { token_b_price })
    }
}

} // verus!
