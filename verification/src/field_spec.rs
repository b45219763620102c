//! The scalar field of the BLS12-381 curve as mathematics: its order, its
//! operations on residues, and the laws of inversion.

use crate::modulus_certificate::lemma_modulus_generator;
use crate::primality::{lemma_generator_fermat, lemma_pow_mod_bound};
use vstd::arithmetic::div_mod::{lemma_mod_bound, lemma_mul_mod_noop_general, lemma_small_mod};
use vstd::arithmetic::power::{lemma_pow1, lemma_pow_adds, pow};
use vstd::prelude::*;

verus! {

/// The order of the field, a 255-bit prime.
pub open spec fn modulus() -> nat {
    0x73eda753299d7d483339d80809a1d80553bda402fffe5bfeffffffff00000001nat
}

/// Addition in the field.
pub open spec fn field_add(a: nat, b: nat) -> nat {
    (a + b) % modulus()
}

/// Subtraction in the field.
pub open spec fn field_sub(a: nat, b: nat) -> nat {
    ((a - b) % (modulus() as int)) as nat
}

/// Multiplication in the field.
pub open spec fn field_mul(a: nat, b: nat) -> nat {
    (a * b) % modulus()
}

/// Exponentiation in the field.
pub open spec fn field_pow(a: nat, e: nat) -> nat {
    (pow(a as int, e) % (modulus() as int)) as nat
}

/// The exponent that inverts: two less than the field's order.
pub open spec fn inverse_exponent() -> nat {
    (modulus() - 2) as nat
}

/// The multiplicative inverse in the field, as Fermat's little theorem
/// gives it. It is 0 for 0, which has no inverse.
pub open spec fn field_inv(a: nat) -> nat {
    field_pow(a, inverse_exponent())
}

/// The integer that four 64-bit words spell, least significant word first.
pub open spec fn limbs_value(l0: u64, l1: u64, l2: u64, l3: u64) -> nat {
    (l0 as nat) + (l1 as nat) * 0x1_0000_0000_0000_0000nat
        + (l2 as nat) * 0x1_0000_0000_0000_0000_0000_0000_0000_0000nat
        + (l3 as nat) * 0x1_0000_0000_0000_0000_0000_0000_0000_0000_0000_0000_0000_0000nat
}

/// The inverse law of the field: a nonzero residue times its inverse is 1.
pub proof fn lemma_field_inv(a: nat)
    requires
        0 < a < modulus(),
    ensures
        field_mul(a, field_inv(a)) == 1,
        field_inv(a) != 0,
{
    let p = modulus();
    let m = p as int;
    let e = inverse_exponent();
    lemma_modulus_generator();
    lemma_generator_fermat(7, p, a);
    lemma_pow_mod_bound(a, (p - 1) as nat, p);
    lemma_pow_adds(a as int, 1, e);
    lemma_pow1(a as int);
    lemma_mul_mod_noop_general(a as int, pow(a as int, e), m);
    if field_inv(a) == 0 {
        assert(a * 0 == 0) by (nonlinear_arith);
        lemma_small_mod(0, p);
    }
}

/// Nothing but the inverse inverts: a residue whose product with a nonzero
/// `a` is 1 is `field_inv(a)`.
pub proof fn lemma_field_inv_unique(a: nat, b: nat)
    requires
        0 < a < modulus(),
        b < modulus(),
        field_mul(a, b) == 1,
    ensures
        b == field_inv(a),
{
    let p = modulus();
    let m = p as int;
    let i = field_inv(a);
    lemma_field_inv(a);
    // b = b * (a * i) = (b * a) * i = i, modulo p
    lemma_mul_mod_noop_general(b as int, (a * i) as int, m);
    lemma_mul_mod_noop_general((a * b) as int, i as int, m);
    assert(b * (a * i) == (a * b) * i) by (nonlinear_arith);
    assert(b * 1 == b && 1 * i == i) by (nonlinear_arith);
    lemma_small_mod(b, p);
    lemma_mod_bound(pow(a as int, inverse_exponent()), m);
    lemma_small_mod(i, p);
}

/// A nonzero factor cancels in the field.
pub proof fn lemma_field_cancel(x: nat, y: nat, c: nat)
    requires
        x < modulus(),
        y < modulus(),
        0 < c < modulus(),
        (x * c) % modulus() == (y * c) % modulus(),
    ensures
        x == y,
{
    let p = modulus();
    let m = p as int;
    let i = field_inv(c);
    lemma_field_inv(c);
    assert(x == ((x * c) * i) % p) by {
        lemma_mul_mod_noop_general(x as int, (c * i) as int, m);
        assert(x * (c * i) == (x * c) * i) by (nonlinear_arith);
        assert(x * 1 == x) by (nonlinear_arith);
        lemma_small_mod(x, p);
    }
    assert(y == ((y * c) * i) % p) by {
        lemma_mul_mod_noop_general(y as int, (c * i) as int, m);
        assert(y * (c * i) == (y * c) * i) by (nonlinear_arith);
        assert(y * 1 == y) by (nonlinear_arith);
        lemma_small_mod(y, p);
    }
    lemma_mul_mod_noop_general((x * c) as int, i as int, m);
    lemma_mul_mod_noop_general((y * c) as int, i as int, m);
}

} // verus!
