//! The fixed, versioned byte layout that persists a [`Reserve`].
//!
//! Integers are little-endian, addresses are raw 32-byte arrays, the
//! optional aggregator is a 4-byte tag followed by 32 key bytes, and a
//! reserved padding tail leaves room for future fields.  Any change to
//! field order or width breaks wire compatibility with accounts already
//! persisted in this layout.

use vstd::prelude::*;
use vstd::bytes::{
    spec_u128_to_le_bytes, spec_u32_to_le_bytes, spec_u64_to_le_bytes, u128_from_le_bytes,
    u128_to_le_bytes, u32_from_le_bytes, u32_to_le_bytes, u64_from_le_bytes, u64_to_le_bytes,
    lemma_auto_spec_u128_to_from_le_bytes, lemma_auto_spec_u32_to_from_le_bytes,
    lemma_auto_spec_u64_to_from_le_bytes,
};
use vstd::slice::{slice_index_get, slice_subrange};
use crate::decimal::{Decimal, DECIMAL_RAW_CAP};
use crate::error::LendingError;
use crate::last_update::LastUpdate;
use crate::pubkey::Pubkey;
use crate::reserve::{
    Reserve, ReserveCollateral, ReserveConfig, ReserveFees, ReserveLiquidity,
};

verus! {

/// Total byte length of a packed reserve account.
pub const RESERVE_LEN: usize = 567;

/// Number of reserved padding bytes at the end of the layout.
pub const RESERVE_PADDING: usize = 256;

/// A packed boolean: one byte, `0` or `1`.
pub open spec fn spec_pack_bool(b: bool) -> Seq<u8> {
    if b {
        seq![1u8]
    } else {
        seq![0u8]
    }
}

/// A packed optional address: a 4-byte little-endian tag (`0` absent,
/// `1` present) followed by the 32 key bytes, zeroed when absent.
pub open spec fn spec_pack_coption_key(o: Option<Pubkey>) -> Seq<u8> {
    match o {
        Some(k) => spec_u32_to_le_bytes(1u32) + k@,
        None => spec_u32_to_le_bytes(0u32) + Seq::new(32, |i: int| 0u8),
    }
}

/// The packed image of a reserve: every field at its fixed offset, in
/// layout order, with the padding tail.
pub open spec fn spec_pack_reserve(r: Reserve) -> Seq<u8> {
    seq![r.version] + spec_u64_to_le_bytes(r.last_update.slot) + spec_pack_bool(
        r.last_update.stale,
    ) + r.lending_market@ + r.liquidity.mint_pubkey@ + seq![r.liquidity.mint_decimals]
        + r.liquidity.supply_pubkey@ + r.liquidity.fee_receiver@ + spec_pack_coption_key(
        r.liquidity.aggregator,
    ) + spec_u128_to_le_bytes(r.liquidity.cumulative_borrow_rate_wads@ as u128)
        + spec_u64_to_le_bytes(r.liquidity.median_price) + spec_u64_to_le_bytes(
        r.liquidity.available_amount,
    ) + spec_u128_to_le_bytes(r.liquidity.borrowed_amount_wads@ as u128)
        + r.collateral.mint_pubkey@ + spec_u64_to_le_bytes(r.collateral.mint_total_supply)
        + r.collateral.supply_pubkey@ + seq![
        r.config.optimal_utilization_rate,
        r.config.min_borrow_rate,
        r.config.optimal_borrow_rate,
        r.config.max_borrow_rate,
        r.config.loan_to_value_ratio,
        r.config.liquidation_threshold,
        r.config.liquidation_bonus,
    ] + spec_u64_to_le_bytes(r.config.fees.borrow_fee_wad) + seq![
        r.config.fees.host_fee_percentage,
    ] + Seq::new(RESERVE_PADDING as nat, |i: int| 0u8)
}

/// Wire-format round trip: every field of a reserve can be read back
/// from its packed image at its fixed offset.  Together with the
/// contracts of [`Reserve::pack`] and [`Reserve::unpack`], this says
/// that unpacking a packed reserve succeeds and recovers the reserve
/// field by field.
#[verifier::rlimit(100)]
pub proof fn lemma_pack_round_trip(r: Reserve)
    requires
        r.lending_market@.len() == 32,
        r.liquidity.mint_pubkey@.len() == 32,
        r.liquidity.supply_pubkey@.len() == 32,
        r.liquidity.fee_receiver@.len() == 32,
        r.liquidity.aggregator matches Some(k) ==> k@.len() == 32,
        r.collateral.mint_pubkey@.len() == 32,
        r.collateral.supply_pubkey@.len() == 32,
        r.liquidity.cumulative_borrow_rate_wads@ < DECIMAL_RAW_CAP,
        r.liquidity.borrowed_amount_wads@ < DECIMAL_RAW_CAP,
    ensures
        ({
            let s = spec_pack_reserve(r);
            &&& s.len() == RESERVE_LEN
            &&& s[0] == r.version
            &&& vstd::bytes::spec_u64_from_le_bytes(s.subrange(1, 9)) == r.last_update.slot
            &&& s[9] == (if r.last_update.stale {
                1u8
            } else {
                0u8
            })
            &&& s.subrange(10, 42) == r.lending_market@
            &&& s.subrange(42, 74) == r.liquidity.mint_pubkey@
            &&& s[74] == r.liquidity.mint_decimals
            &&& s.subrange(75, 107) == r.liquidity.supply_pubkey@
            &&& s.subrange(107, 139) == r.liquidity.fee_receiver@
            &&& (r.liquidity.aggregator is Some ==> vstd::bytes::spec_u32_from_le_bytes(
                s.subrange(139, 143),
            ) == 1)
            &&& (r.liquidity.aggregator is None ==> vstd::bytes::spec_u32_from_le_bytes(
                s.subrange(139, 143),
            ) == 0)
            &&& (r.liquidity.aggregator matches Some(k) ==> s.subrange(143, 175) == k@)
            &&& vstd::bytes::spec_u128_from_le_bytes(s.subrange(175, 191))
                == r.liquidity.cumulative_borrow_rate_wads@
            &&& vstd::bytes::spec_u64_from_le_bytes(s.subrange(191, 199))
                == r.liquidity.median_price
            &&& vstd::bytes::spec_u64_from_le_bytes(s.subrange(199, 207))
                == r.liquidity.available_amount
            &&& vstd::bytes::spec_u128_from_le_bytes(s.subrange(207, 223))
                == r.liquidity.borrowed_amount_wads@
            &&& s.subrange(223, 255) == r.collateral.mint_pubkey@
            &&& vstd::bytes::spec_u64_from_le_bytes(s.subrange(255, 263))
                == r.collateral.mint_total_supply
            &&& s.subrange(263, 295) == r.collateral.supply_pubkey@
            &&& s[295] == r.config.optimal_utilization_rate
            &&& s[296] == r.config.min_borrow_rate
            &&& s[297] == r.config.optimal_borrow_rate
            &&& s[298] == r.config.max_borrow_rate
            &&& s[299] == r.config.loan_to_value_ratio
            &&& s[300] == r.config.liquidation_threshold
            &&& s[301] == r.config.liquidation_bonus
            &&& vstd::bytes::spec_u64_from_le_bytes(s.subrange(302, 310))
                == r.config.fees.borrow_fee_wad
            &&& s[310] == r.config.fees.host_fee_percentage
        }),
{
    lemma_auto_spec_u64_to_from_le_bytes();
    lemma_auto_spec_u128_to_from_le_bytes();
    lemma_auto_spec_u32_to_from_le_bytes();
    let s = spec_pack_reserve(r);
    assert(spec_pack_coption_key(r.liquidity.aggregator).len() == 36);
    assert(s.subrange(1, 9) =~= spec_u64_to_le_bytes(r.last_update.slot));
    assert(s.subrange(10, 42) =~= r.lending_market@);
    assert(s.subrange(42, 74) =~= r.liquidity.mint_pubkey@);
    assert(s.subrange(75, 107) =~= r.liquidity.supply_pubkey@);
    assert(s.subrange(107, 139) =~= r.liquidity.fee_receiver@);
    assert(s.subrange(139, 175) =~= spec_pack_coption_key(r.liquidity.aggregator));
    let tagged = spec_pack_coption_key(r.liquidity.aggregator);
    assert(tagged.subrange(0, 4) =~= spec_u32_to_le_bytes(
        if r.liquidity.aggregator is Some {
            1u32
        } else {
            0u32
        },
    ));
    assert(s.subrange(139, 143) =~= tagged.subrange(0, 4));
    if r.liquidity.aggregator is Some {
        let k = r.liquidity.aggregator->Some_0;
        assert(tagged.subrange(4, 36) =~= k@);
        assert(s.subrange(143, 175) =~= tagged.subrange(4, 36));
    }
    assert(s.subrange(175, 191) =~= spec_u128_to_le_bytes(
        r.liquidity.cumulative_borrow_rate_wads@ as u128,
    ));
    assert(s.subrange(191, 199) =~= spec_u64_to_le_bytes(r.liquidity.median_price));
    assert(s.subrange(199, 207) =~= spec_u64_to_le_bytes(r.liquidity.available_amount));
    assert(s.subrange(207, 223) =~= spec_u128_to_le_bytes(
        r.liquidity.borrowed_amount_wads@ as u128,
    ));
    assert(s.subrange(223, 255) =~= r.collateral.mint_pubkey@);
    assert(s.subrange(255, 263) =~= spec_u64_to_le_bytes(r.collateral.mint_total_supply));
    assert(s.subrange(263, 295) =~= r.collateral.supply_pubkey@);
    assert(s.subrange(302, 310) =~= spec_u64_to_le_bytes(r.config.fees.borrow_fee_wad));
}

/// Append the bytes of a slice to the output buffer.
fn push_slice(out: &mut Vec<u8>, bytes: &[u8])
    ensures
        final(out)@ == old(out)@ + bytes@,
{
    let ghost start = out@;
    let mut i: usize = 0;
    while i < bytes.len()
        invariant
            i <= bytes@.len(),
            out@ == start + bytes@.subrange(0, i as int),
        decreases bytes@.len() - i,
    {
        let b = *slice_index_get(bytes, i);
        out.push(b);
        proof {
            assert(start + bytes@.subrange(0, i + 1) =~= (start + bytes@.subrange(
                0,
                i as int,
            )).push(bytes@[i as int]));
        }
        i = i + 1;
    }
    proof {
        assert(bytes@.subrange(0, bytes@.len() as int) =~= bytes@);
    }
}

/// Append a little-endian `u64` to the output buffer.
fn push_u64(out: &mut Vec<u8>, x: u64)
    ensures
        final(out)@ == old(out)@ + spec_u64_to_le_bytes(x),
{
    let mut b = u64_to_le_bytes(x);
    out.append(&mut b);
}

/// Append a little-endian `u128` to the output buffer.
fn push_u128(out: &mut Vec<u8>, x: u128)
    ensures
        final(out)@ == old(out)@ + spec_u128_to_le_bytes(x),
{
    let mut b = u128_to_le_bytes(x);
    out.append(&mut b);
}

/// Append `n` zero bytes to the output buffer.
fn push_zeros(out: &mut Vec<u8>, n: usize)
    ensures
        final(out)@ == old(out)@ + Seq::new(n as nat, |i: int| 0u8),
{
    let ghost start = out@;
    let mut i: usize = 0;
    while i < n
        invariant
            i <= n,
            out@ == start + Seq::new(i as nat, |j: int| 0u8),
        decreases n - i,
    {
        out.push(0u8);
        proof {
            assert(start + Seq::new((i + 1) as nat, |j: int| 0u8) =~= (start + Seq::new(
                i as nat,
                |j: int| 0u8,
            )).push(0u8));
        }
        i = i + 1;
    }
}

impl Reserve {
    /// Pack the reserve into its fixed byte layout.
    pub fn pack(&self) -> (out: Vec<u8>)
        ensures
            out@ == spec_pack_reserve(*self),
            out@.len() == RESERVE_LEN,
    {
        proof {
            use_type_invariant(self.liquidity.cumulative_borrow_rate_wads);
            use_type_invariant(self.liquidity.borrowed_amount_wads);
            lemma_auto_spec_u64_to_from_le_bytes();
            lemma_auto_spec_u128_to_from_le_bytes();
            lemma_auto_spec_u32_to_from_le_bytes();
            use_type_invariant(&self.lending_market);
            use_type_invariant(&self.liquidity.mint_pubkey);
            use_type_invariant(&self.liquidity.supply_pubkey);
            use_type_invariant(&self.liquidity.fee_receiver);
            use_type_invariant(&self.collateral.mint_pubkey);
            use_type_invariant(&self.collateral.supply_pubkey);
        }
        let mut out: Vec<u8> = Vec::new();
        out.push(self.version);
        push_u64(&mut out, self.last_update.slot);
        out.push(if self.last_update.stale {
            1
        } else {
            0
        });
        push_slice(&mut out, self.lending_market.as_slice());
        push_slice(&mut out, self.liquidity.mint_pubkey.as_slice());
        out.push(self.liquidity.mint_decimals);
        push_slice(&mut out, self.liquidity.supply_pubkey.as_slice());
        push_slice(&mut out, self.liquidity.fee_receiver.as_slice());
        match &self.liquidity.aggregator {
            Some(key) => {
                proof {
                    use_type_invariant(key);
                }
                let mut tag = u32_to_le_bytes(1);
                out.append(&mut tag);
                push_slice(&mut out, key.as_slice());
            },
            None => {
                let mut tag = u32_to_le_bytes(0);
                out.append(&mut tag);
                push_zeros(&mut out, 32);
            },
        }
        push_u128(&mut out, self.liquidity.cumulative_borrow_rate_wads.to_scaled_val());
        push_u64(&mut out, self.liquidity.median_price);
        push_u64(&mut out, self.liquidity.available_amount);
        push_u128(&mut out, self.liquidity.borrowed_amount_wads.to_scaled_val());
        push_slice(&mut out, self.collateral.mint_pubkey.as_slice());
        push_u64(&mut out, self.collateral.mint_total_supply);
        push_slice(&mut out, self.collateral.supply_pubkey.as_slice());
        out.push(self.config.optimal_utilization_rate);
        out.push(self.config.min_borrow_rate);
        out.push(self.config.optimal_borrow_rate);
        out.push(self.config.max_borrow_rate);
        out.push(self.config.loan_to_value_ratio);
        out.push(self.config.liquidation_threshold);
        out.push(self.config.liquidation_bonus);
        push_u64(&mut out, self.config.fees.borrow_fee_wad);
        out.push(self.config.fees.host_fee_percentage);
        push_zeros(&mut out, RESERVE_PADDING);
        proof {
            assert(out@ =~= spec_pack_reserve(*self));
        }
        out
    }

    /// Unpack a reserve from its fixed byte layout.  The input must have
    /// exactly the packed length; a malformed boolean or option tag, or
    /// a fixed-point field beyond the representable range, is rejected
    /// as invalid account input.
    pub fn unpack(input: &[u8]) -> (r: Result<Reserve, LendingError>)
        ensures
            input@.len() != RESERVE_LEN ==> r == Err::<Reserve, LendingError>(
                LendingError::InvalidAccountInput,
            ),
            input@.len() == RESERVE_LEN ==> ({
                let stale_b = input@[9];
                let tag = vstd::bytes::spec_u32_from_le_bytes(input@.subrange(139, 143));
                let cum = vstd::bytes::spec_u128_from_le_bytes(input@.subrange(175, 191));
                let bor = vstd::bytes::spec_u128_from_le_bytes(input@.subrange(207, 223));
                &&& (stale_b > 1 ==> r == Err::<Reserve, LendingError>(
                    LendingError::InvalidAccountInput,
                ))
                &&& (stale_b <= 1 && tag > 1 ==> r == Err::<Reserve, LendingError>(
                    LendingError::InvalidAccountInput,
                ))
                &&& (stale_b <= 1 && tag <= 1 && cum >= DECIMAL_RAW_CAP ==> r == Err::<
                    Reserve,
                    LendingError,
                >(LendingError::InvalidAccountInput))
                &&& (stale_b <= 1 && tag <= 1 && cum < DECIMAL_RAW_CAP && bor >= DECIMAL_RAW_CAP
                    ==> r == Err::<Reserve, LendingError>(LendingError::InvalidAccountInput))
                &&& (stale_b <= 1 && tag <= 1 && cum < DECIMAL_RAW_CAP && bor < DECIMAL_RAW_CAP
                    ==> (r matches Ok(res) && {
                    &&& res.version == input@[0]
                    &&& res.last_update.slot == vstd::bytes::spec_u64_from_le_bytes(
                        input@.subrange(1, 9),
                    )
                    &&& res.last_update.stale == (stale_b == 1)
                    &&& res.lending_market@ == input@.subrange(10, 42)
                    &&& res.liquidity.mint_pubkey@ == input@.subrange(42, 74)
                    &&& res.liquidity.mint_decimals == input@[74]
                    &&& res.liquidity.supply_pubkey@ == input@.subrange(75, 107)
                    &&& res.liquidity.fee_receiver@ == input@.subrange(107, 139)
                    &&& (tag == 0 ==> res.liquidity.aggregator is None)
                    &&& (tag == 1 ==> (res.liquidity.aggregator matches Some(k) && k@
                        == input@.subrange(143, 175)))
                    &&& res.liquidity.cumulative_borrow_rate_wads@ == cum
                    &&& res.liquidity.median_price == vstd::bytes::spec_u64_from_le_bytes(
                        input@.subrange(191, 199),
                    )
                    &&& res.liquidity.available_amount == vstd::bytes::spec_u64_from_le_bytes(
                        input@.subrange(199, 207),
                    )
                    &&& res.liquidity.borrowed_amount_wads@ == bor
                    &&& res.collateral.mint_pubkey@ == input@.subrange(223, 255)
                    &&& res.collateral.mint_total_supply == vstd::bytes::spec_u64_from_le_bytes(
                        input@.subrange(255, 263),
                    )
                    &&& res.collateral.supply_pubkey@ == input@.subrange(263, 295)
                    &&& res.config.optimal_utilization_rate == input@[295]
                    &&& res.config.min_borrow_rate == input@[296]
                    &&& res.config.optimal_borrow_rate == input@[297]
                    &&& res.config.max_borrow_rate == input@[298]
                    &&& res.config.loan_to_value_ratio == input@[299]
                    &&& res.config.liquidation_threshold == input@[300]
                    &&& res.config.liquidation_bonus == input@[301]
                    &&& res.config.fees.borrow_fee_wad == vstd::bytes::spec_u64_from_le_bytes(
                        input@.subrange(302, 310),
                    )
                    &&& res.config.fees.host_fee_percentage == input@[310]
                }))
            }),
    {
        if input.len() != RESERVE_LEN {
            return Err(LendingError::InvalidAccountInput);
        }
        let version = *slice_index_get(input, 0);
        let slot = u64_from_le_bytes(slice_subrange(input, 1, 9));
        let stale_b = *slice_index_get(input, 9);
        let stale = if stale_b == 0 {
            false
        } else if stale_b == 1 {
            true
        } else {
            return Err(LendingError::InvalidAccountInput);
        };
        let lending_market = Pubkey::new_from_slice(slice_subrange(input, 10, 42));
        let liquidity_mint = Pubkey::new_from_slice(slice_subrange(input, 42, 74));
        let mint_decimals = *slice_index_get(input, 74);
        let liquidity_supply = Pubkey::new_from_slice(slice_subrange(input, 75, 107));
        let fee_receiver = Pubkey::new_from_slice(slice_subrange(input, 107, 139));
        let tag = u32_from_le_bytes(slice_subrange(input, 139, 143));
        let aggregator = if tag == 0 {
            None
        } else if tag == 1 {
            Some(Pubkey::new_from_slice(slice_subrange(input, 143, 175)))
        } else {
            return Err(LendingError::InvalidAccountInput);
        };
        let cum_raw = u128_from_le_bytes(slice_subrange(input, 175, 191));
        if cum_raw >= DECIMAL_RAW_CAP {
            return Err(LendingError::InvalidAccountInput);
        }
        let cumulative_borrow_rate_wads = Decimal::from_scaled_val(cum_raw);
        let median_price = u64_from_le_bytes(slice_subrange(input, 191, 199));
        let available_amount = u64_from_le_bytes(slice_subrange(input, 199, 207));
        let bor_raw = u128_from_le_bytes(slice_subrange(input, 207, 223));
        if bor_raw >= DECIMAL_RAW_CAP {
            return Err(LendingError::InvalidAccountInput);
        }
        let borrowed_amount_wads = Decimal::from_scaled_val(bor_raw);
        let collateral_mint = Pubkey::new_from_slice(slice_subrange(input, 223, 255));
        let mint_total_supply = u64_from_le_bytes(slice_subrange(input, 255, 263));
        let collateral_supply = Pubkey::new_from_slice(slice_subrange(input, 263, 295));
        Ok(
            Reserve {
                version,
                last_update: LastUpdate { slot, stale },
                lending_market,
                liquidity: ReserveLiquidity {
                    mint_pubkey: liquidity_mint,
                    mint_decimals,
                    supply_pubkey: liquidity_supply,
                    fee_receiver,
                    aggregator,
                    cumulative_borrow_rate_wads,
                    median_price,
                    available_amount,
                    borrowed_amount_wads,
                },
                collateral: ReserveCollateral {
                    mint_pubkey: collateral_mint,
                    mint_total_supply,
                    supply_pubkey: collateral_supply,
                },
                config: ReserveConfig {
                    optimal_utilization_rate: *slice_index_get(input, 295),
                    min_borrow_rate: *slice_index_get(input, 296),
                    optimal_borrow_rate: *slice_index_get(input, 297),
                    max_borrow_rate: *slice_index_get(input, 298),
                    loan_to_value_ratio: *slice_index_get(input, 299),
                    liquidation_threshold: *slice_index_get(input, 300),
                    liquidation_bonus: *slice_index_get(input, 301),
                    fees: ReserveFees {
                        borrow_fee_wad: u64_from_le_bytes(slice_subrange(input, 302, 310)),
                        host_fee_percentage: *slice_index_get(input, 310),
                    },
                },
            },
        )
    }
}

} // verus!
