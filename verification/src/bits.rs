//! Powers of two, floor logarithm, and the bit-reversal permutation.
//!
//! The transform size of every kernel must be a power of two, the butterfly
//! network runs `floor_log2(n)` passes, and its decimation-in-time ordering
//! is the bit-reversal permutation proved involutive here.

use vstd::prelude::*;
use vstd::arithmetic::div_mod::{
    lemma_breakdown, lemma_div_denominator, lemma_fundamental_div_mod,
    lemma_fundamental_div_mod_converse_div, lemma_small_mod,
};

verus! {

/// `2^e` as a mathematical integer.
pub open spec fn exp2(e: nat) -> nat
    decreases e,
{
    if e == 0 {
        1
    } else {
        2 * exp2((e - 1) as nat)
    }
}

/// Whether `n` is a positive power of two.
pub open spec fn is_pow2(n: nat) -> bool
    decreases n,
{
    if n == 0 {
        false
    } else if n == 1 {
        true
    } else {
        n % 2 == 0 && is_pow2(n / 2)
    }
}

/// Floor of the base-two logarithm; `0` for inputs below `2`.
pub open spec fn floor_log2(n: nat) -> nat
    decreases n,
{
    if n <= 1 {
        0
    } else {
        1 + floor_log2(n / 2)
    }
}

/// The value of `i` with its low `bits` bits written in reverse order.
/// Bit `j` of the input becomes bit `bits - 1 - j` of the result.
pub open spec fn brev(i: nat, bits: nat) -> nat
    decreases bits,
{
    if bits == 0 {
        0
    } else {
        (i % 2) * exp2((bits - 1) as nat) + brev(i / 2, (bits - 1) as nat)
    }
}

/// Every power of two is positive.
pub proof fn lemma_exp2_pos(e: nat)
    ensures
        exp2(e) >= 1,
    decreases e,
{
    if e > 0 {
        lemma_exp2_pos((e - 1) as nat);
    }
}

/// Powers of two grow with their exponent.
pub proof fn lemma_exp2_le(e1: nat, e2: nat)
    requires
        e1 <= e2,
    ensures
        exp2(e1) <= exp2(e2),
    decreases e2,
{
    if e1 < e2 {
        lemma_exp2_le(e1, (e2 - 1) as nat);
        lemma_exp2_pos((e2 - 1) as nat);
    }
}

/// A power of two is exactly two to its floor logarithm.
pub proof fn lemma_pow2_log2(n: nat)
    requires
        is_pow2(n),
    ensures
        exp2(floor_log2(n)) == n,
    decreases n,
{
    if n > 1 {
        lemma_pow2_log2(n / 2);
        lemma_fundamental_div_mod(n as int, 2);
    }
}

/// The reversal of any value fits in the same number of bits.
pub proof fn lemma_brev_bound(i: nat, bits: nat)
    ensures
        brev(i, bits) < exp2(bits),
    decreases bits,
{
    if bits == 0 {
    } else {
        let b1 = (bits - 1) as nat;
        lemma_brev_bound(i / 2, b1);
        assert((i % 2) * exp2(b1) <= 1 * exp2(b1)) by (nonlinear_arith)
            requires i % 2 <= 1;
    }
}

/// Splitting off the top bit: reversing `c * 2^(bits-1) + r` prepends the
/// top bit `c` at the bottom of the reversal of `r`.
proof fn lemma_brev_split(c: nat, r: nat, bits: nat)
    requires
        bits >= 1,
        c <= 1,
        r < exp2((bits - 1) as nat),
    ensures
        brev(c * exp2((bits - 1) as nat) + r, bits) == 2 * brev(r, (bits - 1) as nat) + c,
    decreases bits,
{
    let b1 = (bits - 1) as nat;
    let p = exp2(b1);
    let x = c * p + r;
    if bits == 1 {
        assert(p == 1);
        assert(r == 0);
        assert(x == c) by (nonlinear_arith)
            requires x == c * p + r, p == 1, r == 0;
        assert(brev(c, 1) == (c % 2) * exp2(0) + brev(c / 2, 0));
        assert(c % 2 == c && c / 2 == 0) by (nonlinear_arith)
            requires c <= 1;
    } else {
        let b2 = (bits - 2) as nat;
        let h = exp2(b2);
        assert(p == 2 * h);
        lemma_exp2_pos(b2);
        // x % 2 == r % 2 and x / 2 == c * h + r / 2
        assert(x == (c * h + r / 2) * 2 + (r % 2)) by {
            lemma_fundamental_div_mod(r as int, 2);
            assert(c * p == (c * h) * 2) by (nonlinear_arith)
                requires p == 2 * h;
        };
        lemma_fundamental_div_mod_converse_div(x as int, 2, (c * h + r / 2) as int, (r % 2) as int);
        vstd::arithmetic::div_mod::lemma_fundamental_div_mod_converse_mod(
            x as int, 2, (c * h + r / 2) as int, (r % 2) as int);
        assert(x / 2 == c * h + r / 2);
        assert(x % 2 == r % 2);
        // recursive structure of brev at `bits`
        assert(brev(x, bits) == (x % 2) * p + brev(x / 2, b1));
        // induction on the shorter prefix
        assert(r / 2 < h) by {
            lemma_fundamental_div_mod(r as int, 2);
        };
        lemma_brev_split(c, r / 2, b1);
        assert(brev(c * h + r / 2, b1) == 2 * brev(r / 2, b2) + c);
        // unfold the right-hand side once
        assert(brev(r, b1) == (r % 2) * h + brev(r / 2, b2));
        assert((r % 2) * p + 2 * brev(r / 2, b2) + c == 2 * ((r % 2) * h + brev(r / 2, b2)) + c)
            by (nonlinear_arith)
            requires p == 2 * h;
    }
}

/// Reversing the bits twice gives back the original value: the bit-reversal
/// permutation is an involution, so it is its own inverse and in particular
/// a permutation of `0 .. 2^bits`.
pub proof fn lemma_brev_involution(i: nat, bits: nat)
    requires
        i < exp2(bits),
    ensures
        brev(brev(i, bits), bits) == i,
    decreases bits,
{
    if bits == 0 {
        assert(i == 0);
    } else {
        let b1 = (bits - 1) as nat;
        let p = exp2(b1);
        lemma_exp2_pos(b1);
        let c = i / p;
        let r = i % p;
        lemma_fundamental_div_mod(i as int, p as int);
        assert(i == c * p + r) by (nonlinear_arith)
            requires i == p * (i / p) + i % p, c == i / p, r == i % p;
        assert(c <= 1) by (nonlinear_arith)
            requires i < 2 * p, i == c * p + r, 0 <= r < p, p >= 1;
        let rr = brev(r, b1);
        lemma_brev_split(c, r, bits);
        assert(brev(i, bits) == 2 * rr + c);
        // one unfolding of brev at 2 * rr + c
        let x = 2 * rr + c;
        lemma_fundamental_div_mod_converse_div(x as int, 2, rr as int, c as int);
        vstd::arithmetic::div_mod::lemma_fundamental_div_mod_converse_mod(
            x as int, 2, rr as int, c as int);
        assert(x / 2 == rr && x % 2 == c);
        assert(brev(x, bits) == c * p + brev(rr, b1));
        lemma_brev_involution(r, b1);
    }
}

/// Distinct indices land in distinct slots: together with the bound, the
/// reversal maps `0 .. 2^bits` onto itself, so the reordering stage neither
/// drops nor duplicates an element.
pub proof fn lemma_brev_injective(i: nat, j: nat, bits: nat)
    requires
        i < exp2(bits),
        j < exp2(bits),
        brev(i, bits) == brev(j, bits),
    ensures
        i == j,
{
    lemma_brev_involution(i, bits);
    lemma_brev_involution(j, bits);
}

/// Whether the argument is a positive power of two.
///
/// The construction-time validity test for every transform size.
pub fn is_power_of_two(n: usize) -> (r: bool)
    ensures
        r == is_pow2(n as nat),
{
    if n == 0 {
        return false;
    }
    let mut m: usize = n;
    while m % 2 == 0
        invariant
            m >= 1,
            is_pow2(n as nat) == is_pow2(m as nat),
        decreases m,
    {
        assert(is_pow2(m as nat) == is_pow2((m / 2) as nat));
        m = m / 2;
    }
    m == 1
}

/// Floor of the base-two logarithm of a positive number; for a power of two
/// this is the number of butterfly passes of the transform.
pub fn log2_floor(n: usize) -> (r: u32)
    requires
        n >= 1,
    ensures
        r == floor_log2(n as nat),
{
    proof {
        lemma_exp2_64();
        assert(n * exp2(0) == n) by (nonlinear_arith)
            requires exp2(0) == 1;
    }
    let mut m: usize = n;
    let mut k: u32 = 0;
    while m >= 2
        invariant
            m >= 1,
            n >= 1,
            floor_log2(n as nat) == k + floor_log2(m as nat),
            m * exp2(k as nat) <= n,
            exp2(64) == 0x1_0000_0000_0000_0000,
        decreases m,
    {
        proof {
            assert(floor_log2(m as nat) == 1 + floor_log2((m / 2) as nat));
            assert(exp2((k + 1) as nat) == 2 * exp2(k as nat));
            assert((m / 2) * exp2((k + 1) as nat) <= m * exp2(k as nat)) by (nonlinear_arith)
                requires m >= 2, exp2((k + 1) as nat) == 2 * exp2(k as nat);
            lemma_exp2_pos(k as nat);
            if k + 1 >= 64 {
                lemma_exp2_le(64, (k + 1) as nat);
                assert(m * exp2(k as nat) >= 2 * exp2(k as nat)) by (nonlinear_arith)
                    requires m >= 2, exp2(k as nat) >= 1;
                assert(false);
            }
        }
        m = m / 2;
        k = k + 1;
    }
    k
}

proof fn lemma_exp2_64()
    ensures
        exp2(64) == 0x1_0000_0000_0000_0000,
{
    reveal_with_fuel(exp2, 65);
}

/// The value of `i` with its low `bits` bits reversed.
///
/// This is the index map of the decimation-in-time reordering stage: element
/// `i` of the windowed signal is written to slot `bit_reverse(i, bits)`.
pub fn bit_reverse(i: usize, bits: u32) -> (r: usize)
    requires
        i < exp2(bits as nat),
        exp2(bits as nat) <= usize::MAX as nat + 1,
    ensures
        r == brev(i as nat, bits as nat),
{
    proof {
        lemma_div_mod_by_one(i as int);
    }
    let mut m: usize = i;
    let mut r: usize = 0;
    let mut j: u32 = 0;
    while j < bits
        invariant
            j <= bits,
            m == i as nat / exp2(j as nat),
            r == brev(i as nat % exp2(j as nat), j as nat),
            r < exp2(j as nat),
            i < exp2(bits as nat),
            exp2(bits as nat) <= usize::MAX as nat + 1,
        decreases bits - j,
    {
        proof {
            let jn = j as nat;
            let pj = exp2(jn) as int;
            let ii = i as int;
            lemma_exp2_pos(jn);
            assert(exp2((j + 1) as nat) == 2 * exp2(jn));
            let c = (ii / pj) % 2;
            vstd::arithmetic::div_mod::lemma_mod_division_less_than_divisor(ii / pj, 2);
            // i % exp2(j + 1) splits into the next bit and the low part
            lemma_breakdown(ii, pj, 2);
            assert(pj * ((ii / pj) % 2) == c * pj) by (nonlinear_arith)
                requires c == (ii / pj) % 2;
            assert(pj * 2 == 2 * pj) by (nonlinear_arith);
            assert(ii % (2 * pj) == c * pj + ii % pj);
            assert(ii % pj < pj) by {
                vstd::arithmetic::div_mod::lemma_mod_division_less_than_divisor(ii, pj);
            };
            lemma_brev_split(c as nat, (ii % pj) as nat, (j + 1) as nat);
            // the running quotient steps to the next bit position
            lemma_div_denominator(ii, pj, 2);
            assert((ii / pj) / 2 == ii / (2 * pj));
            // the updated reversal still fits
            lemma_exp2_le((j + 1) as nat, bits as nat);
        }
        let bit = m % 2;
        r = 2 * r + bit;
        m = m / 2;
        j = j + 1;
    }
    proof {
        lemma_small_mod(i as nat, exp2(bits as nat));
    }
    r
}

/// Dividing by `exp2(0) == 1` leaves a value unchanged, with remainder zero.
proof fn lemma_div_mod_by_one(x: int)
    requires
        x >= 0,
    ensures
        x / exp2(0) as int == x,
        x % exp2(0) as int == 0,
{
    assert(exp2(0) == 1);
    lemma_fundamental_div_mod_converse_div(x, 1, x, 0);
    vstd::arithmetic::div_mod::lemma_fundamental_div_mod_converse_mod(x, 1, x, 0);
    assert(x == x * 1 + 0) by (nonlinear_arith);
}

} // verus!
