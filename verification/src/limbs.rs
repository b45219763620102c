//! Arithmetic on the 64-bit limbs of multi-word integers: the carry chains
//! underneath the field's operations.

use crate::field_spec::{limbs_value, modulus};
use vstd::arithmetic::div_mod::{
    lemma_fundamental_div_mod, lemma_fundamental_div_mod_converse, lemma_mod_multiples_vanish,
    lemma_mul_mod_noop_general,
};
use vstd::prelude::*;

verus! {

/// The integer that eight little-endian 64-bit limbs stand for.
pub(crate) open spec fn wide_value(t: [u64; 8]) -> nat {
    limbs_value(t[0], t[1], t[2], t[3]) + limbs_value(t[4], t[5], t[6], t[7])
        * 0x1_0000_0000_0000_0000_0000_0000_0000_0000_0000_0000_0000_0000_0000_0000_0000_0000nat
}

/// Sum of two limbs and a carry bit, as a low limb and a carry bit.
pub(crate) fn adc(a: u64, b: u64, carry: u64) -> (r: (u64, u64))
    requires
        carry <= 1,
    ensures
        r.0 + r.1 * 0x1_0000_0000_0000_0000 == a + b + carry,
        r.1 <= 1,
{
    let s1 = a.wrapping_add(b);
    let c1: u64 = if s1 < a { 1 } else { 0 };
    let s2 = s1.wrapping_add(carry);
    let c2: u64 = if s2 < s1 { 1 } else { 0 };
    (s2, c1 + c2)
}

/// Difference of two limbs and a borrow bit, as a low limb and a borrow bit.
pub(crate) fn sbb(a: u64, b: u64, borrow: u64) -> (r: (u64, u64))
    requires
        borrow <= 1,
    ensures
        r.0 - r.1 * 0x1_0000_0000_0000_0000 == a - b - borrow,
        r.1 <= 1,
{
    let d1 = a.wrapping_sub(b);
    let b1: u64 = if a < b { 1 } else { 0 };
    let d2 = d1.wrapping_sub(borrow);
    let b2: u64 = if d1 < borrow { 1 } else { 0 };
    (d2, b1 + b2)
}

/// `a + b * c + carry`, as a low and a high limb.
pub(crate) fn mac(a: u64, b: u64, c: u64, carry: u64) -> (r: (u64, u64))
    ensures
        r.0 + r.1 * 0x1_0000_0000_0000_0000 == a + b * c + carry,
{
    assert(b * c <= 0xffff_ffff_ffff_fffe_0000_0000_0000_0001) by (nonlinear_arith)
        requires
            b <= 0xffff_ffff_ffff_ffff,
            c <= 0xffff_ffff_ffff_ffff,
    ;
    let t: u128 = (a as u128) + (b as u128) * (c as u128) + (carry as u128);
    let lo = #[verifier::truncate] (t as u64);
    let hi = (t >> 64) as u64;
    assert(t == (t & 0xffff_ffff_ffff_ffff) + (t >> 64) * 0x1_0000_0000_0000_0000 && (t >> 64)
        <= 0xffff_ffff_ffff_ffff) by (bit_vector);
    assert(lo == t & 0xffff_ffff_ffff_ffff) by (bit_vector)
        requires
            lo == #[verifier::truncate] (t as u64),
    ;
    (lo, hi)
}

/// The product of one limb with a four-limb integer, as the sum of its
/// four partial products.
pub(crate) open spec fn row_value(a: u64, b0: u64, b1: u64, b2: u64, b3: u64) -> int {
    a * b0 + (a * b1) * 0x1_0000_0000_0000_0000 + (a * b2)
        * 0x1_0000_0000_0000_0000_0000_0000_0000_0000 + (a * b3)
        * 0x1_0000_0000_0000_0000_0000_0000_0000_0000_0000_0000_0000_0000
}

/// The partial products of a row add up to the limb times the integer.
proof fn lemma_row_value(a: u64, b0: u64, b1: u64, b2: u64, b3: u64)
    ensures
        row_value(a, b0, b1, b2, b3) == a * limbs_value(b0, b1, b2, b3),
{
    let v = limbs_value(b0, b1, b2, b3) as int;
    assert(a * v == a * b0 + (a * b1) * 0x1_0000_0000_0000_0000 + (a * b2)
        * 0x1_0000_0000_0000_0000_0000_0000_0000_0000 + (a * b3)
        * 0x1_0000_0000_0000_0000_0000_0000_0000_0000_0000_0000_0000_0000) by (nonlinear_arith)
        requires
            v == b0 + b1 * 0x1_0000_0000_0000_0000 + b2
                * 0x1_0000_0000_0000_0000_0000_0000_0000_0000 + b3
                * 0x1_0000_0000_0000_0000_0000_0000_0000_0000_0000_0000_0000_0000,
    ;
}

/// The four rows of a product add up to the product of the two integers.
proof fn lemma_rows_value(a0: u64, a1: u64, a2: u64, a3: u64, v: int)
    ensures
        a0 * v + (a1 * v) * 0x1_0000_0000_0000_0000 + (a2 * v)
            * 0x1_0000_0000_0000_0000_0000_0000_0000_0000 + (a3 * v)
            * 0x1_0000_0000_0000_0000_0000_0000_0000_0000_0000_0000_0000_0000 == limbs_value(
            a0,
            a1,
            a2,
            a3,
        ) * v,
{
    let u = limbs_value(a0, a1, a2, a3) as int;
    assert(u * v == a0 * v + (a1 * v) * 0x1_0000_0000_0000_0000 + (a2 * v)
        * 0x1_0000_0000_0000_0000_0000_0000_0000_0000 + (a3 * v)
        * 0x1_0000_0000_0000_0000_0000_0000_0000_0000_0000_0000_0000_0000) by (nonlinear_arith)
        requires
            u == a0 + a1 * 0x1_0000_0000_0000_0000 + a2
                * 0x1_0000_0000_0000_0000_0000_0000_0000_0000 + a3
                * 0x1_0000_0000_0000_0000_0000_0000_0000_0000_0000_0000_0000_0000,
    ;
}

/// The full product of two four-limb integers, in eight limbs.
pub(crate) fn mul_wide(a: &[u64; 4], b: &[u64; 4]) -> (t: [u64; 8])
    ensures
        wide_value(t) == limbs_value(a[0], a[1], a[2], a[3]) * limbs_value(
            b[0],
            b[1],
            b[2],
            b[3],
        ),
{
    let a0 = a[0];
    let a1 = a[1];
    let a2 = a[2];
    let a3 = a[3];
    let b0 = b[0];
    let b1 = b[1];
    let b2 = b[2];
    let b3 = b[3];

    let (r0, c) = mac(0, a0, b0, 0);
    let (r1, c) = mac(0, a0, b1, c);
    let (r2, c) = mac(0, a0, b2, c);
    let (r3, r4) = mac(0, a0, b3, c);
    assert(limbs_value(r0, r1, r2, r3) + r4
        * 0x1_0000_0000_0000_0000_0000_0000_0000_0000_0000_0000_0000_0000_0000_0000_0000_0000
        == row_value(a0, b0, b1, b2, b3));

    let (s1, c) = mac(r1, a1, b0, 0);
    let (s2, c) = mac(r2, a1, b1, c);
    let (s3, c) = mac(r3, a1, b2, c);
    let (s4, s5) = mac(r4, a1, b3, c);
    assert(limbs_value(s1, s2, s3, s4) + s5
        * 0x1_0000_0000_0000_0000_0000_0000_0000_0000_0000_0000_0000_0000_0000_0000_0000_0000
        == limbs_value(r1, r2, r3, r4) + row_value(a1, b0, b1, b2, b3));

    let (u2, c) = mac(s2, a2, b0, 0);
    let (u3, c) = mac(s3, a2, b1, c);
    let (u4, c) = mac(s4, a2, b2, c);
    let (u5, u6) = mac(s5, a2, b3, c);
    assert(limbs_value(u2, u3, u4, u5) + u6
        * 0x1_0000_0000_0000_0000_0000_0000_0000_0000_0000_0000_0000_0000_0000_0000_0000_0000
        == limbs_value(s2, s3, s4, s5) + row_value(a2, b0, b1, b2, b3));

    let (v3, c) = mac(u3, a3, b0, 0);
    let (v4, c) = mac(u4, a3, b1, c);
    let (v5, c) = mac(u5, a3, b2, c);
    let (v6, v7) = mac(u6, a3, b3, c);
    assert(limbs_value(v3, v4, v5, v6) + v7
        * 0x1_0000_0000_0000_0000_0000_0000_0000_0000_0000_0000_0000_0000_0000_0000_0000_0000
        == limbs_value(u3, u4, u5, u6) + row_value(a3, b0, b1, b2, b3));

    let t = [r0, s1, u2, v3, v4, v5, v6, v7];
    proof {
        let v = limbs_value(b0, b1, b2, b3) as int;
        lemma_row_value(a0, b0, b1, b2, b3);
        lemma_row_value(a1, b0, b1, b2, b3);
        lemma_row_value(a2, b0, b1, b2, b3);
        lemma_row_value(a3, b0, b1, b2, b3);
        lemma_rows_value(a0, a1, a2, a3, v);
        assert(wide_value(t) == row_value(a0, b0, b1, b2, b3) + row_value(a1, b0, b1, b2, b3)
            * 0x1_0000_0000_0000_0000 + row_value(a2, b0, b1, b2, b3)
            * 0x1_0000_0000_0000_0000_0000_0000_0000_0000 + row_value(a3, b0, b1, b2, b3)
            * 0x1_0000_0000_0000_0000_0000_0000_0000_0000_0000_0000_0000_0000);
    }
    t
}

/// The limbs of the field's order, least significant first.
pub(crate) const ORDER_0: u64 = 0xffff_ffff_0000_0001;

pub(crate) const ORDER_1: u64 = 0x53bd_a402_fffe_5bfe;

pub(crate) const ORDER_2: u64 = 0x3339_d808_09a1_d805;

pub(crate) const ORDER_3: u64 = 0x73ed_a753_299d_7d48;

/// The negative of the inverse of the order's lowest limb, modulo `2^64`.
const NEG_INV: u64 = 0xffff_fffe_ffff_ffff;

/// The radix of Montgomery reduction, `2^256`.
pub(crate) open spec fn radix() -> nat {
    0x1_0000_0000_0000_0000_0000_0000_0000_0000_0000_0000_0000_0000_0000_0000_0000_0000nat
}

/// Adding `k` times the order, with `k` chosen from the lowest limb,
/// clears that limb.
proof fn lemma_clears_low_limb(low: u64, k: u64, z: u64, carry: u64)
    requires
        k == (low * 0xffff_fffe_ffff_ffff) % 0x1_0000_0000_0000_0000,
        z + carry * 0x1_0000_0000_0000_0000 == low + k * 0xffff_ffff_0000_0001,
    ensures
        z == 0,
{
    let x = low * 0xffff_fffe_ffff_ffff;
    lemma_fundamental_div_mod(x, 0x1_0000_0000_0000_0000);
    let q = x / 0x1_0000_0000_0000_0000;
    // 1 + NEG_INV * ORDER_0 is a multiple of 2^64
    assert(low + k * 0xffff_ffff_0000_0001 == 0x1_0000_0000_0000_0000 * (low * 0xffff_fffe_0000_0001
        - q * 0xffff_ffff_0000_0001));
    lemma_fundamental_div_mod_converse(
        low + k * 0xffff_ffff_0000_0001,
        0x1_0000_0000_0000_0000,
        carry as int,
        z as int,
    );
    vstd::arithmetic::div_mod::lemma_mod_multiples_basic(
        low * 0xffff_fffe_0000_0001 - q * 0xffff_ffff_0000_0001,
        0x1_0000_0000_0000_0000,
    );
}

/// `k` times the field's order, by the order's limbs.
pub(crate) open spec fn times_modulus(k: u64) -> int {
    k * 0xffff_ffff_0000_0001 + (k * 0x53bd_a402_fffe_5bfe) * 0x1_0000_0000_0000_0000 + (k
        * 0x3339_d808_09a1_d805) * 0x1_0000_0000_0000_0000_0000_0000_0000_0000 + (k
        * 0x73ed_a753_299d_7d48)
        * 0x1_0000_0000_0000_0000_0000_0000_0000_0000_0000_0000_0000_0000
}

/// One round of Montgomery reduction: adds the multiple `k` of the order
/// that clears the lowest limb, and drops that limb. `next` is the limb
/// that enters at the top, `carry` the carry bit of the round before.
fn reduce_round(l0: u64, l1: u64, l2: u64, l3: u64, next: u64, carry: u64) -> (r: (
    u64,
    u64,
    u64,
    u64,
    u64,
    u64,
))
    requires
        carry <= 1,
    ensures
        r.4 <= 1,
        (limbs_value(r.0, r.1, r.2, r.3) + r.4
            * 0x1_0000_0000_0000_0000_0000_0000_0000_0000_0000_0000_0000_0000_0000_0000_0000_0000)
            * 0x1_0000_0000_0000_0000 == limbs_value(l0, l1, l2, l3) + (next + carry)
            * 0x1_0000_0000_0000_0000_0000_0000_0000_0000_0000_0000_0000_0000_0000_0000_0000_0000
            + times_modulus(r.5),
{
    let k = l0.wrapping_mul(NEG_INV);
    let (z, c0) = mac(l0, k, ORDER_0, 0);
    let (s1, c1) = mac(l1, k, ORDER_1, c0);
    let (s2, c2) = mac(l2, k, ORDER_2, c1);
    let (s3, c3) = mac(l3, k, ORDER_3, c2);
    let (s4, e) = adc(next, c3, carry);
    proof {
        lemma_clears_low_limb(l0, k, z, c0);
    }
    (s1, s2, s3, s4, e, k)
}

/// Montgomery reduction: four limbs whose value, times `2^256`, is
/// congruent to the value of the eight given, and which lies below twice
/// the field's order.
pub(crate) fn montgomery_reduce(t: &[u64; 8]) -> (r: [u64; 4])
    requires
        wide_value(*t) < modulus() * radix(),
    ensures
        limbs_value(r[0], r[1], r[2], r[3]) < 2 * modulus(),
        (limbs_value(r[0], r[1], r[2], r[3]) * radix()) % modulus() == wide_value(*t)
            % modulus(),
{
    let (s1, s2, s3, s4, e0, k0) = reduce_round(t[0], t[1], t[2], t[3], t[4], 0);
    let (u2, u3, u4, u5, e1, k1) = reduce_round(s1, s2, s3, s4, t[5], e0);
    let (v3, v4, v5, v6, e2, k2) = reduce_round(u2, u3, u4, u5, t[6], e1);
    let (w4, w5, w6, w7, e3, k3) = reduce_round(v3, v4, v5, v6, t[7], e2);
    let r = [w4, w5, w6, w7];
    proof {
        let k = limbs_value(k0, k1, k2, k3);
        let u = limbs_value(w4, w5, w6, w7);
        let p = 0x73eda753299d7d483339d80809a1d80553bda402fffe5bfeffffffff00000001int;
        assert(times_modulus(k0) == k0 * p);
        assert(times_modulus(k1) == k1 * p);
        assert(times_modulus(k2) == k2 * p);
        assert(times_modulus(k3) == k3 * p);
        assert((u + e3
            * 0x1_0000_0000_0000_0000_0000_0000_0000_0000_0000_0000_0000_0000_0000_0000_0000_0000)
            * 0x1_0000_0000_0000_0000_0000_0000_0000_0000_0000_0000_0000_0000_0000_0000_0000_0000
            == wide_value(*t) + k * p);
        assert(e3 == 0);
        assert(u < 2 * modulus());
        assert(u * radix() == modulus() * k + wide_value(*t));
        lemma_mod_multiples_vanish(k as int, wide_value(*t) as int, modulus() as int);
    }
    r
}

/// `2^512` reduced modulo the field's order: the factor that undoes a
/// Montgomery reduction.
pub(crate) open spec fn radix_squared() -> nat {
    0x0748d9d99f59ff1105d314967254398f2b6cedcb87925c23c999e990f3f29c6dnat
}

const RADIX_SQUARED: [u64; 4] = [
    0xc999_e990_f3f2_9c6d,
    0x2b6c_edcb_8792_5c23,
    0x05d3_1496_7254_398f,
    0x0748_d9d9_9f59_ff11,
];

/// Two Montgomery reductions give the plain product: with `x` the
/// reduction of `ab`, and `y` that of `x` times `2^512 mod p`, `y` is
/// congruent to `ab`.
proof fn lemma_montgomery_product(ab: nat, x: nat, y: nat)
    requires
        (x * radix()) % modulus() == ab % modulus(),
        (y * radix()) % modulus() == (x * radix_squared()) % modulus(),
    ensures
        y % modulus() == ab % modulus(),
{
    let p = modulus() as int;
    let r = radix() as int;
    let r2 = radix_squared() as int;
    let r_inv = 0x1bbe869330009d577204078a4f77266aab6fca8f09dc705f13f75b69fe75c040int;
    assert((r * r) % p == r2) by {
        assert(r * r == 0x2355094edfede377c38b5dcb707e08ed365043eb4be4bad7142737a020c0d6393int
            * p + r2);
        lemma_fundamental_div_mod_converse(
            r * r,
            p,
            0x2355094edfede377c38b5dcb707e08ed365043eb4be4bad7142737a020c0d6393int,
            r2,
        );
    }
    assert((r * r_inv) % p == 1) by {
        assert(r * r_inv == 0x3d443ab0d7bf2839181b2c170004ec0653ba5bfffffe5bfdfffffffeffffffffint
            * p + 1);
        lemma_fundamental_div_mod_converse(
            r * r_inv,
            p,
            0x3d443ab0d7bf2839181b2c170004ec0653ba5bfffffe5bfdfffffffeffffffffint,
            1,
        );
    }
    // y * r = x * r2 = (x * r) * r = ab * r, modulo p
    assert((y * r) % p == (ab * r) % p) by {
        lemma_mul_mod_noop_general(x as int, r * r, p);
        assert(x * (r * r) == (x * r) * r) by (nonlinear_arith);
        lemma_mul_mod_noop_general(x * r, r, p);
        lemma_mul_mod_noop_general(ab as int, r, p);
    }
    // and r cancels
    assert((y as int) % p == ((y * r) * r_inv) % p) by {
        lemma_mul_mod_noop_general(y as int, r * r_inv, p);
        assert(y * (r * r_inv) == (y * r) * r_inv) by (nonlinear_arith);
        assert(y * 1 == y) by (nonlinear_arith);
    }
    assert((ab as int) % p == ((ab * r) * r_inv) % p) by {
        lemma_mul_mod_noop_general(ab as int, r * r_inv, p);
        assert(ab * (r * r_inv) == (ab * r) * r_inv) by (nonlinear_arith);
        assert(ab * 1 == ab) by (nonlinear_arith);
    }
    lemma_mul_mod_noop_general(y * r, r_inv, p);
    lemma_mul_mod_noop_general(ab * r, r_inv, p);
}

/// The product of two integers below the field's order, modulo that order,
/// up to one subtraction: the result is congruent to the product and lies
/// below twice the order. Two Montgomery reductions do it, the second of
/// them on the first one's result times `2^512 mod p`.
pub(crate) fn mul_mod(a: &[u64; 4], b: &[u64; 4]) -> (r: [u64; 4])
    requires
        limbs_value(a[0], a[1], a[2], a[3]) < modulus(),
        limbs_value(b[0], b[1], b[2], b[3]) < modulus(),
    ensures
        limbs_value(r[0], r[1], r[2], r[3]) < 2 * modulus(),
        limbs_value(r[0], r[1], r[2], r[3]) % modulus() == (limbs_value(a[0], a[1], a[2], a[3])
            * limbs_value(b[0], b[1], b[2], b[3])) % modulus(),
{
    let ghost av = limbs_value(a[0], a[1], a[2], a[3]);
    let ghost bv = limbs_value(b[0], b[1], b[2], b[3]);
    proof {
        assert(av * bv < modulus() * radix()) by (nonlinear_arith)
            requires
                av < modulus(),
                bv < modulus(),
                modulus() < radix(),
        ;
    }
    let t = mul_wide(a, b);
    let x = montgomery_reduce(&t);
    proof {
        let xv = limbs_value(x[0], x[1], x[2], x[3]);
        assert(xv * radix_squared() < modulus() * radix()) by (nonlinear_arith)
            requires
                xv < 2 * modulus(),
                radix_squared() < modulus(),
                2 * modulus() < radix(),
        ;
    }
    let t = mul_wide(&x, &RADIX_SQUARED);
    let y = montgomery_reduce(&t);
    proof {
        lemma_montgomery_product(
            av * bv,
            limbs_value(x[0], x[1], x[2], x[3]),
            limbs_value(y[0], y[1], y[2], y[3]),
        );
    }
    y
}

/// Whether four limbs hold a value at or above the modulus.
pub(crate) fn at_least_modulus(l0: u64, l1: u64, l2: u64, l3: u64) -> (r: bool)
    ensures
        r == (limbs_value(l0, l1, l2, l3) >= modulus()),
{
    if l3 != ORDER_3 {
        l3 > ORDER_3
    } else if l2 != ORDER_2 {
        l2 > ORDER_2
    } else if l1 != ORDER_1 {
        l1 > ORDER_1
    } else {
        l0 >= ORDER_0
    }
}

} // verus!
