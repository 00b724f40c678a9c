use vstd::prelude::*;

use crate::error::{ConfigIssue, TradeError};

verus! {

/// Basis points in one whole (100%): slippage is counted in hundredths of a percent.
pub const FULL_BPS: u64 = 10000;

/// A slippage tolerance, in hundredths of a percent (`100` is 1%).
#[derive(Debug, Clone, Copy, PartialEq, Eq, Structural)]
pub struct Slippage {
    pub bps: u64,
}

/// The least output a buy or sell accepts: `floor(q * (100% - s) / 100%)`.
pub open spec fn min_acceptable_output_spec(quoted: nat, bps: nat) -> nat {
    (quoted * ((FULL_BPS - bps) as nat)) / (FULL_BPS as nat)
}

/// The most an exact-output buy may spend: `ceil(c * (100% + s) / 100%)`.
pub open spec fn max_acceptable_cost_spec(cost: nat, bps: nat) -> nat {
    ((cost * (FULL_BPS + bps) + (FULL_BPS - 1)) as nat) / (FULL_BPS as nat)
}

/// Checks a slippage that bounds a minimum (buy, sell): it lies in 0% ..= 100%.
pub fn floor_slippage(bps: i64) -> (r: Result<Slippage, TradeError>)
    ensures
        r is Ok <==> 0 <= bps <= FULL_BPS,
        r matches Ok(s) ==> s.bps == bps,
        r matches Err(e) ==> e == TradeError::Configuration(ConfigIssue::SlippageOutOfRange),
{
    if bps < 0 || bps > FULL_BPS as i64 {
        Err(TradeError::Configuration(ConfigIssue::SlippageOutOfRange))
    } else {
        Ok(Slippage { bps: bps as u64 })
    }
}

/// Checks a slippage that bounds a maximum (exact-output buy): it is not negative.
pub fn ceiling_slippage(bps: i64) -> (r: Result<Slippage, TradeError>)
    ensures
        r is Ok <==> 0 <= bps,
        r matches Ok(s) ==> s.bps == bps,
        r matches Err(e) ==> e == TradeError::Configuration(ConfigIssue::SlippageOutOfRange),
{
    if bps < 0 {
        Err(TradeError::Configuration(ConfigIssue::SlippageOutOfRange))
    } else {
        Ok(Slippage { bps: bps as u64 })
    }
}

proof fn lemma_scaled_split(q: nat, a: nat, r: nat, k: nat, add: nat)
    requires
        q == 10000 * a + r,
        r < 10000,
    ensures
        (q * k + add) / 10000 == a * k + (r * k + add) / 10000,
{
    assert(q * k + add == 10000 * (a * k) + (r * k + add)) by (nonlinear_arith)
        requires
            q == 10000 * a + r,
    ;
    vstd::arithmetic::div_mod::lemma_hoist_over_denominator((r * k + add) as int, (a * k) as int, 10000);
    assert((10000 * (a * k) + (r * k + add)) == (r * k + add) + (a * k) * 10000) by (nonlinear_arith);
}

/// The least output that a buy or sell of quoted output `quoted` accepts.
pub fn min_acceptable_output(quoted: u128, slippage: Slippage) -> (r: u128)
    requires
        slippage.bps <= FULL_BPS,
    ensures
        r == min_acceptable_output_spec(quoted as nat, slippage.bps as nat),
{
    let k: u128 = (FULL_BPS - slippage.bps) as u128;
    let a: u128 = quoted / 10000;
    let rem: u128 = quoted % 10000;
    proof {
        lemma_scaled_split(quoted as nat, a as nat, rem as nat, k as nat, 0);
        assert(a * k <= a * 10000) by (nonlinear_arith)
            requires
                k <= 10000,
        ;
        assert(rem * k <= 10000 * 10000) by (nonlinear_arith)
            requires
                k <= 10000,
                rem < 10000,
        ;
        assert((rem * k) / 10000 <= rem) by (nonlinear_arith)
            requires
                k <= 10000,
        ;
    }
    a * k + (rem * k) / 10000
}

/// The most that an exact-output buy of expected cost `cost` may spend;
/// fails where that bound does not fit in 128 bits.
pub fn max_acceptable_cost(cost: u128, slippage: Slippage) -> (r: Result<u128, TradeError>)
    ensures
        r is Ok <==> max_acceptable_cost_spec(cost as nat, slippage.bps as nat) <= u128::MAX,
        r matches Ok(v) ==> v == max_acceptable_cost_spec(cost as nat, slippage.bps as nat),
        r matches Err(e) ==> e == TradeError::Configuration(ConfigIssue::AmountOutOfRange),
{
    let b: u128 = slippage.bps as u128;
    let a: u128 = cost / 10000;
    let rem: u128 = cost % 10000;
    let ghost total = max_acceptable_cost_spec(cost as nat, slippage.bps as nat);
    proof {
        lemma_scaled_split(cost as nat, a as nat, rem as nat, (FULL_BPS + b) as nat, 9999);
        assert(a * (10000 + b) + (rem * (10000 + b) + 9999) / 10000 == cost + a * b + (rem * b + 9999) / 10000) by (nonlinear_arith)
            requires
                cost == 10000 * a + rem,
        {
            assert(a * (10000 + b) == 10000 * a + a * b) by (nonlinear_arith);
            assert(rem * (10000 + b) + 9999 == (rem * b + 9999) + rem * 10000) by (nonlinear_arith);
            vstd::arithmetic::div_mod::lemma_hoist_over_denominator((rem * b + 9999) as int, rem as int, 10000);
        }
        assert(rem * b + 9999 < 10000 * 0x1_0000_0000_0000_0000) by (nonlinear_arith)
            requires
                rem < 10000,
                b <= 0xffff_ffff_ffff_ffff,
        ;
    }
    let fraction: u128 = (rem * b + 9999) / 10000;
    match a.checked_mul(b) {
        None => Err(TradeError::Configuration(ConfigIssue::AmountOutOfRange)),
        Some(whole) => match whole.checked_add(fraction) {
            None => Err(TradeError::Configuration(ConfigIssue::AmountOutOfRange)),
            Some(extra) => match cost.checked_add(extra) {
                None => Err(TradeError::Configuration(ConfigIssue::AmountOutOfRange)),
                Some(v) => Ok(v),
            },
        },
    }
}

/// A slippage floor never asks for more than the quote; it asks for exactly the
/// quote only when the slippage is zero (for a quote above zero).
pub proof fn lemma_min_output_within_quote(quoted: nat, bps: nat)
    requires
        bps <= FULL_BPS,
    ensures
        min_acceptable_output_spec(quoted, bps) <= quoted,
        quoted > 0 ==> (min_acceptable_output_spec(quoted, bps) == quoted <==> bps == 0),
{
    let k = (FULL_BPS - bps) as nat;
    assert(quoted * k <= quoted * 10000) by (nonlinear_arith)
        requires
            k <= 10000,
    ;
    assert((quoted * 10000) / 10000 == quoted) by (nonlinear_arith);
    vstd::arithmetic::div_mod::lemma_div_is_ordered((quoted * k) as int, (quoted * 10000) as int, 10000);
    if bps > 0 && quoted > 0 {
        assert(quoted * k < 10000 * quoted) by (nonlinear_arith)
            requires
                k < 10000,
                quoted > 0,
        ;
        assert((quoted * k) / 10000 < quoted) by (nonlinear_arith)
            requires
                quoted * k < 10000 * quoted,
        ;
    }
}

/// A slippage ceiling never allows less than the expected cost; it allows exactly
/// that cost only when the slippage is zero (for a cost above zero).
pub proof fn lemma_max_cost_covers_quote(cost: nat, bps: nat)
    ensures
        max_acceptable_cost_spec(cost, bps) >= cost,
        cost > 0 ==> (max_acceptable_cost_spec(cost, bps) == cost <==> bps == 0),
{
    let n = (cost * (FULL_BPS + bps) + (FULL_BPS - 1)) as nat;
    assert(n == 10000 * cost + (cost * bps + 9999)) by (nonlinear_arith)
        requires
            n == cost * (10000 + bps) + 9999,
    ;
    vstd::arithmetic::div_mod::lemma_hoist_over_denominator((cost * bps + 9999) as int, cost as int, 10000);
    assert((cost * bps + 9999) + cost * 10000 == n) by (nonlinear_arith)
        requires
            n == 10000 * cost + (cost * bps + 9999),
    ;
    if bps > 0 && cost > 0 {
        assert(cost * bps >= 1) by (nonlinear_arith)
            requires
                bps > 0,
                cost > 0,
        ;
    }
}

} // verus!
