//! Integer-valued double-precision arithmetic.
//!
//! The engine's general numeric representation is a double.  A native
//! integer converted to a double is rounded to the nearest representable
//! value, ties to even, at the precision of a 53-bit significand.  This
//! module defines that rounding exactly, over mathematical integers, and
//! proves the facts the numeric adapters need: rounding is the identity
//! up to `2^53`, and every rounded value is representable.

use vstd::prelude::*;
use vstd::arithmetic::power2::{
    lemma2_to64, lemma2_to64_rest, lemma_pow2_pos, lemma_pow2_strictly_increases,
    lemma_pow2_unfold, pow2,
};

verus! {

/// The magnitude of an integer.
pub open spec fn mag(v: int) -> nat {
    if v >= 0 {
        v as nat
    } else {
        (-v) as nat
    }
}

/// The spacing of representable doubles at magnitude `m`: 1 below
/// `2^53`, doubling with each further binade.
pub open spec fn ulp(m: nat) -> nat
    decreases m,
{
    if m == 0 {
        1
    } else if m < pow2(53) {
        1
    } else {
        2 * ulp(m / 2)
    }
}

/// Round-to-nearest-even of magnitude `m` at the double's precision:
/// the value a double assumes when an integer of magnitude `m` is
/// converted to it.
pub open spec fn round_mag(m: nat) -> nat {
    let u = ulp(m);
    let q = m / u;
    let r = m % u;
    if 2 * r > u || (2 * r == u && q % 2 == 1) {
        (q + 1) * u
    } else {
        q * u
    }
}

/// The exact value of the double nearest to the integer `v`, ties to
/// even.
pub open spec fn to_double(v: int) -> int {
    if v >= 0 {
        round_mag(v as nat) as int
    } else {
        -(round_mag((-v) as nat) as int)
    }
}

/// Whether the integer `d` is exactly representable as a double: its
/// magnitude is a 53-bit significand scaled by a power of two.
pub open spec fn is_double_int(d: int) -> bool {
    exists|q: nat, k: nat| q < pow2(53) && mag(d) == #[trigger] (q * pow2(k))
}

/// The spacing is at least 1.
pub proof fn lemma_ulp_pos(m: nat)
    ensures
        ulp(m) >= 1,
    decreases m,
{
    if m != 0 && m >= pow2(53) {
        lemma_ulp_pos(m / 2);
    }
}

/// The spacing is a power of two.
pub proof fn lemma_ulp_pow2(m: nat)
    ensures
        exists|k: nat| ulp(m) == pow2(k),
    decreases m,
{
    if m == 0 || m < pow2(53) {
        lemma2_to64();
        assert(ulp(m) == pow2(0));
    } else {
        lemma_ulp_pow2(m / 2);
        let k0 = choose|k: nat| ulp(m / 2) == pow2(k);
        lemma_pow2_unfold(k0 + 1);
        assert(ulp(m) == pow2(k0 + 1));
    }
}

/// A magnitude is below its spacing scaled to the significand's width.
pub proof fn lemma_ulp_lt(m: nat)
    ensures
        m < ulp(m) * pow2(53),
    decreases m,
{
    lemma_pow2_pos(53);
    if m == 0 || m < pow2(53) {
        assert(ulp(m) == 1);
        assert(1 * pow2(53) == pow2(53));
    } else {
        lemma_ulp_lt(m / 2);
        assert(m <= 2 * (m / 2) + 1);
        assert(2 * (m / 2) + 1 < 2 * (ulp(m / 2) * pow2(53)));
        assert(2 * (ulp(m / 2) * pow2(53)) == (2 * ulp(m / 2)) * pow2(53)) by (nonlinear_arith);
    }
}

/// A bound on the spacing from a bound on the magnitude.
pub proof fn lemma_ulp_le(m: nat, k: nat)
    requires
        m < pow2(53 + k),
    ensures
        ulp(m) <= pow2(k),
    decreases m,
{
    lemma_pow2_pos(k);
    if m == 0 || m < pow2(53) {
    } else {
        if k == 0 {
            assert(false);
        } else {
            lemma_pow2_unfold(53 + k);
            assert(m / 2 < pow2(53 + (k - 1) as nat));
            lemma_ulp_le(m / 2, (k - 1) as nat);
            lemma_pow2_unfold(k);
        }
    }
}

/// Rounding is the identity on magnitudes up to `2^53`.
pub proof fn lemma_round_mag_small(m: nat)
    requires
        m <= pow2(53),
    ensures
        round_mag(m) == m,
{
    lemma_pow2_pos(53);
    if m < pow2(53) {
        assert(ulp(m) == 1);
        assert(m / 1 == m && m % 1 == 0);
    } else {
        lemma_pow2_unfold(53);
        lemma_pow2_strictly_increases(52, 53);
        lemma_pow2_pos(52);
        assert(m / 2 == pow2(52));
        assert(ulp(pow2(52)) == 1);
        assert(ulp(m) == 2);
        assert(m / 2 == pow2(52) && m % 2 == 0);
        assert(round_mag(m) == pow2(52) * 2);
    }
}

/// Converting an integer in the exact range of a double changes nothing.
pub proof fn lemma_to_double_exact(v: int)
    requires
        -pow2(53) <= v <= pow2(53),
    ensures
        to_double(v) == v,
{
    if v >= 0 {
        lemma_round_mag_small(v as nat);
    } else {
        lemma_round_mag_small((-v) as nat);
    }
}

/// Every rounded magnitude is representable as a double.
pub proof fn lemma_round_mag_representable(m: nat)
    ensures
        is_double_int(round_mag(m) as int),
        is_double_int(-(round_mag(m) as int)),
{
    lemma_ulp_pos(m);
    lemma_ulp_pow2(m);
    lemma_ulp_lt(m);
    let u = ulp(m);
    let ku = choose|k: nat| ulp(m) == pow2(k);
    let q = m / u;
    let r = round_mag(m);
    assert(q < pow2(53)) by (nonlinear_arith)
        requires
            u >= 1,
            m < u * pow2(53),
            q == m / u,
    ;
    lemma_pow2_pos(ku);
    if 2 * (m % u) > u || (2 * (m % u) == u && q % 2 == 1) {
        if q + 1 < pow2(53) {
            assert(mag(r as int) == (q + 1) * pow2(ku));
            assert(mag(-(r as int)) == (q + 1) * pow2(ku));
        } else {
            assert(q + 1 == pow2(53));
            lemma_pow2_unfold(53);
            lemma_pow2_unfold(ku + 1);
            lemma_pow2_strictly_increases(52, 53);
            assert(r == pow2(53) * pow2(ku));
            assert(pow2(53) * pow2(ku) == pow2(52) * pow2(ku + 1)) by (nonlinear_arith)
                requires
                    pow2(53) == 2 * pow2(52),
                    pow2(ku + 1) == 2 * pow2(ku),
            ;
            assert(mag(r as int) == pow2(52) * pow2(ku + 1));
            assert(mag(-(r as int)) == pow2(52) * pow2(ku + 1));
        }
    } else {
        assert(mag(r as int) == q * pow2(ku));
        assert(mag(-(r as int)) == q * pow2(ku));
    }
}

/// Every integer in the exact range of a double is representable.
pub proof fn lemma_double_int_small(d: int)
    requires
        -pow2(53) <= d <= pow2(53),
    ensures
        is_double_int(d),
{
    lemma2_to64();
    if mag(d) < pow2(53) {
        assert(mag(d) == mag(d) * pow2(0));
    } else {
        lemma_pow2_unfold(53);
        lemma_pow2_strictly_increases(52, 53);
        assert(mag(d) == pow2(52) * pow2(1)) by (nonlinear_arith)
            requires
                mag(d) == 2 * pow2(52),
                pow2(1) == 2,
        ;
    }
}

/// Every converted integer is representable as a double.
pub proof fn lemma_to_double_representable(v: int)
    ensures
        is_double_int(to_double(v)),
{
    if v >= 0 {
        lemma_round_mag_representable(v as nat);
    } else {
        lemma_round_mag_representable((-v) as nat);
    }
}

/// Computes the spacing of doubles at magnitude `m`.
fn ulp_exec(m: u64) -> (u: u64)
    ensures
        u as nat == ulp(m as nat),
        1 <= u <= 2048,
    decreases m,
{
    proof {
        lemma2_to64();
        lemma2_to64_rest();
        lemma_ulp_pos(m as nat);
        lemma_ulp_le(m as nat, 11);
    }
    if m < 0x20000000000000 {
        1
    } else {
        2 * ulp_exec(m / 2)
    }
}

/// Computes round-to-nearest-even of `m` at the double's precision: the
/// value a double assumes when `m` is converted to it.  The result can
/// exceed the 64-bit range by rounding up, so it is returned widened.
pub fn round_u64(m: u64) -> (r: u128)
    ensures
        r as nat == round_mag(m as nat),
        r <= 0x10000000000000000,
{
    let u = ulp_exec(m);
    let q = m / u;
    let rem = m % u;
    proof {
        lemma2_to64();
        lemma2_to64_rest();
        lemma_ulp_lt(m as nat);
        assert((q as nat) * (u as nat) <= m as nat) by (nonlinear_arith)
            requires
                1 <= u,
                q == m / u,
        ;
        assert(q < 0x20000000000000) by (nonlinear_arith)
            requires
                1 <= u,
                m < (u as nat) * pow2(53),
                pow2(53) == 0x20000000000000,
                q == m / u,
        ;
        assert((q + 1) * (u as nat) <= 0x20000000000000 * 2048) by (nonlinear_arith)
            requires
                q + 1 <= 0x20000000000000,
                u <= 2048,
        ;
    }
    if 2 * rem > u || (2 * rem == u && q % 2 == 1) {
        ((q + 1) as u128) * (u as u128)
    } else {
        (q as u128) * (u as u128)
    }
}

} // verus!
