//! Instruction and error definitions of the token swap program, and the
//! constant product invariant its pool math maintains.

use vstd::prelude::*;

verus! {

/// Instructions supported by the token swap program.
#[derive(Clone, Copy, Debug, PartialEq, Eq)]
pub enum Instruction {
    /// Initializes a new swap; the payload is the fee rate as a ratio.
    Init((u64, u64)),
    /// Swaps the given source amount through the pool.
    Swap(u64),
    /// Deposits the given token amount into the pool for pool tokens.
    Deposit(u64),
    /// Withdraws the given amount of pool tokens at the current ratio.
    Withdraw(u64),
}

/// Errors that may be returned by the token swap program.
#[derive(Clone, Copy, Debug, PartialEq, Eq, Structural)]
pub enum Error {
    /// The account cannot be initialized because it is already being used.
    AlreadyInUse,
    /// The program address provided doesn't match the value generated by the program.
    InvalidProgramAddress,
    /// The owner of the input isn't set to the program address generated by the program.
    InvalidOwner,
    /// The deserialization of the token state returned something besides a token.
    ExpectedToken,
    /// The deserialization of the token state returned something besides an account.
    ExpectedAccount,
    /// The initialized pool had a non zero supply.
    InvalidSupply,
    /// The initialized token has a delegate.
    InvalidDelegate,
    /// The token swap state is invalid.
    InvalidState,
    /// The input token is invalid for this swap.
    InvalidInput,
    /// The output token is invalid for this swap.
    InvalidOutput,
    /// The calculation failed.
    CalculationFailure,
}

/// A swap of `token_a` into the pool under the constant product
/// invariant: the pool keeps `a * b` constant (up to rounding), charges
/// the fee on the way out, and retains it in the pool.  The result is
/// `(new_token_a, new_token_b, amount_out)`; `None` whenever a checked
/// step overflows, a division hits zero, or the fee exceeds the payout.
pub open spec fn spec_invariant_swap(a: nat, b: nat, fee: (u64, u64), token_a: nat) -> Option<
    (nat, nat, nat),
> {
    if a * b > u64::MAX {
        None
    } else if a + token_a > u64::MAX {
        None
    } else if a + token_a == 0 {
        None
    } else {
        let new_a = (a + token_a) as nat;
        let new_b = (a * b) / new_a;
        if new_b > b {
            None
        } else {
            let removed = (b - new_b) as nat;
            if removed * fee.1 > u64::MAX {
                None
            } else if fee.0 == 0 {
                None
            } else {
                let charged = ((removed * fee.1) as nat) / (fee.0 as nat);
                if new_b + charged > u64::MAX {
                    None
                } else if charged > removed {
                    None
                } else {
                    Some((new_a, (new_b + charged) as nat, (removed - charged) as nat))
                }
            }
        }
    }
}

/// The live balances of a swap pool, on which the constant product
/// invariant is maintained.
#[derive(Clone, Copy, Debug, PartialEq, Eq)]
pub struct Invariant {
    /// Amount of token A held by the pool.
    pub token_a: u64,
    /// Amount of token B held by the pool.
    pub token_b: u64,
    /// Supply of pool tokens, once initialized.
    pub pool: Option<u64>,
    /// Fee charged on the output of a swap, as a ratio.
    pub fee: (u64, u64),
}

impl Invariant {
    /// Swap `token_a` into the pool, returning the amount of token B
    /// paid out after the fee; the pool balances advance only on
    /// success.
    pub fn swap(&mut self, token_a: u64) -> (r: Option<u64>)
        ensures
            match spec_invariant_swap(
                old(self).token_a as nat,
                old(self).token_b as nat,
                old(self).fee,
                token_a as nat,
            ) {
                Some(t) => r matches Some(out) && out == t.2 && *final(self) == (Invariant {
                    token_a: t.0 as u64,
                    token_b: t.1 as u64,
                    ..*old(self)
                }),
                None => r is None && *final(self) == *old(self),
            },
    {
        let product = match self.token_a.checked_mul(self.token_b) {
            Some(v) => v,
            None => {
                return None;
            },
        };
        let new_a = match self.token_a.checked_add(token_a) {
            Some(v) => v,
            None => {
                return None;
            },
        };
        if new_a == 0 {
            return None;
        }
        let new_b = product / new_a;
        let remove = match self.token_b.checked_sub(new_b) {
            Some(v) => v,
            None => {
                return None;
            },
        };
        let scaled = match remove.checked_mul(self.fee.1) {
            Some(v) => v,
            None => {
                return None;
            },
        };
        if self.fee.0 == 0 {
            return None;
        }
        let fee = scaled / self.fee.0;
        let new_b_with_fee = match new_b.checked_add(fee) {
            Some(v) => v,
            None => {
                return None;
            },
        };
        let remove_less_fee = match remove.checked_sub(fee) {
            Some(v) => v,
            None => {
                return None;
            },
        };
        self.token_a = new_a;
        self.token_b = new_b_with_fee;
        Some(remove_less_fee)
    }

    /// The token B value of `token_a` at the pool's current ratio.
    pub fn exchange_rate(&self, token_a: u64) -> (r: Option<u64>)
        ensures
            token_a * self.token_b > u64::MAX ==> r is None,
            token_a * self.token_b <= u64::MAX && self.token_a == 0 ==> r is None,
            token_a * self.token_b <= u64::MAX && self.token_a > 0 ==> (r matches Some(v) && v == (
            token_a * self.token_b) as nat / (self.token_a as nat)),
    {
        let scaled = match token_a.checked_mul(self.token_b) {
            Some(v) => v,
            None => {
                return None;
            },
        };
        if self.token_a == 0 {
            return None;
        }
        Some(scaled / self.token_a)
    }

    /// The share of both pool sides that `user_pool` pool tokens redeem.
    pub fn redeem(&self, user_pool: u64) -> (r: Option<(u64, u64)>)
        ensures
            self.token_a * user_pool > u64::MAX ==> r is None,
            self.token_a * user_pool <= u64::MAX && self.pool is None ==> r is None,
            self.token_a * user_pool <= u64::MAX ==> (self.pool matches Some(p) ==> {
                &&& (p == 0 ==> r is None)
                &&& (p > 0 && self.token_b * user_pool > u64::MAX ==> r is None)
                &&& (p > 0 && self.token_b * user_pool <= u64::MAX ==> (r matches Some(t) && t.0
                    == (self.token_a * user_pool) as nat / p as nat && t.1 == (self.token_b
                    * user_pool) as nat / p as nat))
            }),
    {
        let scaled_a = match self.token_a.checked_mul(user_pool) {
            Some(v) => v,
            None => {
                return None;
            },
        };
        let supply = match self.pool {
            Some(p) => p,
            None => {
                return None;
            },
        };
        if supply == 0 {
            return None;
        }
        let token_a = scaled_a / supply;
        let scaled_b = match self.token_b.checked_mul(user_pool) {
            Some(v) => v,
            None => {
                return None;
            },
        };
        let token_b = scaled_b / supply;
        Some((token_a, token_b))
    }
}

} // verus!
