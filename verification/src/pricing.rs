//! Trade sizing: the minimum output scaled from the leader's trade, and the PumpSwap
//! constant-product quote.
use vstd::prelude::*;

verus! {

/// `2^64`.
pub open spec fn two_pow_64() -> int {
    0x1_0000_0000_0000_0000
}

/// `u128` multiplication that saturates at `u128::MAX`.
pub open spec fn sat_mul_u128(a: int, b: int) -> int {
    if a * b > u128::MAX { u128::MAX as int } else { a * b }
}

/// `10_000 - bps`, saturating at 0.
pub open spec fn bps_complement(bps: u16) -> int {
    if bps > 10_000 { 0 } else { 10_000 - bps }
}

/// Multiplies two `u128`s, saturating at `u128::MAX`.
fn saturating_mul_u128(a: u128, b: u128) -> (r: u128)
    ensures
        r == sat_mul_u128(a as int, b as int),
{
    match a.checked_mul(b) {
        Some(p) => p,
        None => u128::MAX,
    }
}

/// Minimum output for our buy, scaled from the leader's: `leader_min_out * our_in /
/// leader_in`, reduced by `slippage_bps`, truncated to 64 bits as the bot casts it, and at
/// least 1. When the leader's input or minimum output is 0 the answer is 1.
pub open spec fn spec_scale_min_out(leader_in: u64, leader_min_out: u64, our_in: u64, slippage_bps: u16) -> u64 {
    if leader_in == 0 || leader_min_out == 0 {
        1
    } else {
        let v = (leader_min_out as int * our_in as int) / (leader_in as int);
        let w = sat_mul_u128(v, bps_complement(slippage_bps)) / 10_000;
        let t = w % two_pow_64();
        if t < 1 { 1 } else { t as u64 }
    }
}

/// Scales the leader's minimum output to our input size, loosened by `slippage_bps`.
pub fn scale_min_out(leader_in: u64, leader_min_out: u64, our_in: u64, slippage_bps: u16) -> (r: u64)
    ensures
        r == spec_scale_min_out(leader_in, leader_min_out, our_in, slippage_bps),
        r >= 1,
{
    if leader_in == 0 || leader_min_out == 0 {
        return 1;
    }
    assert((leader_min_out as int) * (our_in as int) <= u128::MAX) by (nonlinear_arith)
        requires
            leader_min_out <= u64::MAX,
            our_in <= u64::MAX,
    ;
    let mut v: u128 = (leader_min_out as u128) * (our_in as u128) / (leader_in as u128);
    let f: u128 = 10_000u128.saturating_sub(slippage_bps as u128);
    v = saturating_mul_u128(v, f) / 10_000u128;
    let t: u128 = v % 0x1_0000_0000_0000_0000u128;
    let t64: u64 = t as u64;
    if t64 < 1 { 1 } else { t64 }
}

/// The PumpSwap buy amounts for spending `quote_in`: the constant-product estimate
/// `quote_in * base_reserve / (quote_reserve + quote_in)` reduced by `slippage_bps` (at
/// least 1 base unit), and the maximum quote input `quote_in * (10_000 + slippage_bps) /
/// 10_000` truncated to 64 bits as the bot casts it.
pub open spec fn spec_amm_buy_amounts(quote_in: u64, base_reserve: u64, quote_reserve: u64, slippage_bps: u16) -> (u64, u64) {
    let est = (quote_in as int * base_reserve as int) / (quote_reserve as int + quote_in as int);
    let min_out = (est * bps_complement(slippage_bps)) / 10_000;
    let base_out = if min_out < 1 { 1 } else { min_out };
    let max_in = (quote_in as int * (10_000 + slippage_bps as int)) / 10_000;
    (base_out as u64, (max_in % two_pow_64()) as u64)
}

/// Quotes a PumpSwap buy: (base amount out, maximum quote amount in).
pub fn amm_buy_amounts(quote_in: u64, base_reserve: u64, quote_reserve: u64, slippage_bps: u16) -> (r: (u64, u64))
    requires
        quote_in > 0,
    ensures
        r == spec_amm_buy_amounts(quote_in, base_reserve, quote_reserve, slippage_bps),
        r.0 >= 1,
        r.0 <= base_reserve || r.0 == 1,
{
    let q = quote_in as u128;
    let b = base_reserve as u128;
    let rq = quote_reserve as u128;
    assert((q as int) * (b as int) <= u64::MAX as int * u64::MAX as int) by (nonlinear_arith)
        requires
            q <= u64::MAX,
            b <= u64::MAX,
    ;
    let est: u128 = (q * b) / (rq + q);
    assert(est <= b) by (nonlinear_arith)
        requires
            est == (q * b) / (rq + q),
            q > 0,
            rq >= 0,
            b >= 0,
    {
        assert(q * b <= (rq + q) * b);
        vstd::arithmetic::div_mod::lemma_div_is_ordered((q * b) as int, ((rq + q) * b) as int, (rq + q) as int);
        vstd::arithmetic::div_mod::lemma_div_multiples_vanish(b as int, (rq + q) as int);
    }
    let f: u128 = 10_000u128.saturating_sub(slippage_bps as u128);
    assert(est * f <= b * 10_000) by (nonlinear_arith)
        requires
            est <= b,
            f <= 10_000,
    ;
    let min_out: u128 = (est * f) / 10_000u128;
    assert(min_out <= b) by (nonlinear_arith)
        requires
            min_out == (est * f) / 10_000,
            est * f <= b * 10_000,
    ;
    let base_out: u64 = if min_out < 1 { 1 } else { min_out as u64 };
    assert((q as int) * (10_000 + slippage_bps as int) <= u128::MAX) by (nonlinear_arith)
        requires
            q <= u64::MAX,
            slippage_bps <= u16::MAX,
    ;
    let max_in: u128 = (q * (10_000u128 + slippage_bps as u128)) / 10_000u128;
    let max_in64: u64 = (max_in % 0x1_0000_0000_0000_0000u128) as u64;
    (base_out, max_in64)
}

/// The PumpSwap quote: the cap on SOL spent comes from our budget alone, whatever the
/// pool holds (two pools give the same cap), grows it by exactly the slippage (rounded
/// down) when that fits in 64 bits, and is the budget itself at zero slippage; the base
/// amount asked for is at most the constant-product output `quote_in * base_reserve /
/// (quote_reserve + quote_in)` less the slippage, and never above the pool's base reserve
/// (but for the floor of one unit).
pub proof fn law_amm_quote_bounds(quote_in: u64, base_reserve: u64, quote_reserve: u64, other_base: u64, other_quote: u64, slippage_bps: u16)
    ensures
        spec_amm_buy_amounts(quote_in, base_reserve, quote_reserve, slippage_bps).1
            == spec_amm_buy_amounts(quote_in, other_base, other_quote, slippage_bps).1,
        quote_in as int * (10_000 + slippage_bps as int) < 10_000 * two_pow_64() ==> {
            let m = spec_amm_buy_amounts(quote_in, base_reserve, quote_reserve, slippage_bps).1 as int;
            &&& m * 10_000 <= quote_in as int * (10_000 + slippage_bps as int)
            &&& quote_in as int * (10_000 + slippage_bps as int) < (m + 1) * 10_000
            &&& quote_in <= m
        },
        slippage_bps == 0 ==> spec_amm_buy_amounts(quote_in, base_reserve, quote_reserve, slippage_bps).1 == quote_in,
        quote_in > 0 ==> ({
            let out = spec_amm_buy_amounts(quote_in, base_reserve, quote_reserve, slippage_bps).0 as int;
            out == 1 || (out * 10_000 * (quote_reserve as int + quote_in as int) <= quote_in as int * base_reserve as int * bps_complement(slippage_bps)
                && out <= base_reserve)
        }),
{
    let q = quote_in as int;
    let s = slippage_bps as int;
    let max_in = (q * (10_000 + s)) / 10_000;
    assert(q * (10_000 + s) >= 0) by (nonlinear_arith) requires q >= 0, s >= 0;
    assert(max_in >= 0) by (nonlinear_arith) requires max_in == (q * (10_000 + s)) / 10_000, q * (10_000 + s) >= 0;
    if q * (10_000 + s) < 10_000 * two_pow_64() {
        assert(max_in < two_pow_64()) by (nonlinear_arith)
            requires max_in == (q * (10_000 + s)) / 10_000, q * (10_000 + s) < 10_000 * two_pow_64(), q * (10_000 + s) >= 0;
        vstd::arithmetic::div_mod::lemma_small_mod(max_in as nat, two_pow_64() as nat);
        vstd::arithmetic::div_mod::lemma_fundamental_div_mod(q * (10_000 + s), 10_000);
        assert(q * (10_000 + s) >= q * 10_000) by (nonlinear_arith) requires q >= 0, s >= 0;
        assert(q <= max_in) by (nonlinear_arith)
            requires max_in == (q * (10_000 + s)) / 10_000, q * (10_000 + s) >= q * 10_000;
    }
    if s == 0 {
        assert(q * (10_000 + s) == q * 10_000);
        vstd::arithmetic::div_mod::lemma_div_by_multiple(q, 10_000);
        vstd::arithmetic::div_mod::lemma_small_mod(q as nat, two_pow_64() as nat);
    }
    let b = base_reserve as int;
    let rq = quote_reserve as int;
    let c = bps_complement(slippage_bps);
    let est = (q * b) / (rq + q);
    let min_out = (est * c) / 10_000;
    if min_out >= 1 && q > 0 {
        {
            vstd::arithmetic::div_mod::lemma_fundamental_div_mod(q * b, rq + q);
            vstd::arithmetic::div_mod::lemma_fundamental_div_mod(est * c, 10_000);
            assert(est * (rq + q) <= q * b) by (nonlinear_arith)
                requires est == (q * b) / (rq + q), rq + q > 0, q * b >= 0;
            assert(min_out * 10_000 <= est * c) by (nonlinear_arith)
                requires min_out == (est * c) / 10_000, est * c >= 0;
            assert(min_out * 10_000 * (rq + q) <= q * b * c) by (nonlinear_arith)
                requires min_out * 10_000 <= est * c, est * (rq + q) <= q * b, c >= 0, rq + q > 0, min_out >= 0, est >= 0;
            assert(est <= b) by (nonlinear_arith)
                requires est == (q * b) / (rq + q), q > 0, rq >= 0, b >= 0;
            assert(min_out <= b) by (nonlinear_arith)
                requires min_out == (est * c) / 10_000, est <= b, c <= 10_000, c >= 0, est >= 0;
            assert(min_out < two_pow_64());
        }
    }
}

/// Our minimum output is the leader's scaled to our input: with `v` the leader's minimum
/// times our input over the leader's input (rounded down, fitting in 64 bits), it is `v`
/// reduced by the slippage (rounded down), never above `v` and never below 1, and exactly
/// `v` (at least 1) at zero slippage; without a leader amount it is 1.
pub proof fn law_scale_min_out_proportional(leader_in: u64, leader_min_out: u64, our_in: u64, slippage_bps: u16)
    ensures
        spec_scale_min_out(leader_in, leader_min_out, our_in, slippage_bps) >= 1,
        leader_in == 0 || leader_min_out == 0 ==> spec_scale_min_out(leader_in, leader_min_out, our_in, slippage_bps) == 1,
        leader_in > 0 && leader_min_out > 0 ==> ({
            let v = (leader_min_out as int * our_in as int) / (leader_in as int);
            let c: int = if slippage_bps > 10_000 { 0 } else { 10_000 - slippage_bps as int };
            let r = spec_scale_min_out(leader_in, leader_min_out, our_in, slippage_bps) as int;
            v < two_pow_64() ==> {
                &&& r == if (v * c) / 10_000 < 1 { 1 } else { (v * c) / 10_000 }
                &&& r <= if v < 1 { 1 } else { v }
                &&& (slippage_bps == 0 ==> r == if v < 1 { 1 } else { v })
            }
        }),
{
    if leader_in > 0 && leader_min_out > 0 {
        let v = (leader_min_out as int * our_in as int) / (leader_in as int);
        let c = bps_complement(slippage_bps);
        assert(v >= 0) by (nonlinear_arith)
            requires v == (leader_min_out as int * our_in as int) / (leader_in as int), leader_in > 0;
        if v < two_pow_64() {
            assert(v * c <= v * 10_000) by (nonlinear_arith) requires 0 <= c <= 10_000, v >= 0;
            assert(v * c >= 0) by (nonlinear_arith) requires 0 <= c, v >= 0;
            assert(v * 10_000 < u128::MAX);
            assert(sat_mul_u128(v, c) == v * c);
            let w = (v * c) / 10_000;
            assert(w <= v) by (nonlinear_arith) requires w == (v * c) / 10_000, v * c <= v * 10_000, v * c >= 0;
            assert(w >= 0);
            vstd::arithmetic::div_mod::lemma_small_mod(w as nat, two_pow_64() as nat);
            if slippage_bps == 0 {
                assert(c == 10_000);
                vstd::arithmetic::div_mod::lemma_div_by_multiple(v, 10_000);
            }
        }
    }
}

} // verus!
