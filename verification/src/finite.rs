//! Elements of the scalar field: each is held as four 64-bit limbs in
//! canonical form, its value below the field's order.

use crate::error::Error;
use crate::field_spec::{
    field_add, field_inv, field_mul, field_pow, field_sub, lemma_field_inv, limbs_value, modulus,
};
use crate::limbs::{
    adc, at_least_modulus, mul_mod, sbb, ORDER_0, ORDER_1, ORDER_2, ORDER_3,
};
use std::hash::{BuildHasher, RandomState};
use vstd::arithmetic::div_mod::{
    lemma_fundamental_div_mod_converse, lemma_mod_multiples_vanish, lemma_mod_twice,
    lemma_mul_mod_noop_general, lemma_small_mod,
};
use vstd::arithmetic::power::{
    lemma_pow0, lemma_pow1, lemma_pow_adds, lemma_pow_mod_noop, lemma_pow_multiplies, pow,
};
use vstd::prelude::*;

verus! {

/// One element of the field. The limbs always hold a value below the
/// modulus, so two elements are equal exactly when their limbs are.
#[derive(Clone, Copy, Debug, PartialEq, Eq, Structural)]
pub struct Fr {
    l0: u64,
    l1: u64,
    l2: u64,
    l3: u64,
}

impl View for Fr {
    type V = nat;

    /// The residue in `[0, modulus())` that the element stands for.
    closed spec fn view(&self) -> nat {
        limbs_value(self.l0, self.l1, self.l2, self.l3)
    }
}

impl Fr {
    /// Every element's value lies below the modulus.
    #[verifier::type_invariant]
    pub open spec fn canonical(self) -> bool {
        self@ < modulus()
    }
}

/// The element for limbs whose value is below twice the modulus.
fn reduce_once(l0: u64, l1: u64, l2: u64, l3: u64) -> (r: Fr)
    requires
        limbs_value(l0, l1, l2, l3) < 2 * modulus(),
    ensures
        r@ == limbs_value(l0, l1, l2, l3) % modulus(),
{
    if at_least_modulus(l0, l1, l2, l3) {
        let (d0, b) = sbb(l0, ORDER_0, 0);
        let (d1, b) = sbb(l1, ORDER_1, b);
        let (d2, b) = sbb(l2, ORDER_2, b);
        let (d3, b) = sbb(l3, ORDER_3, b);
        assert(limbs_value(d0, d1, d2, d3) == limbs_value(l0, l1, l2, l3) - modulus());
        assert(limbs_value(l0, l1, l2, l3) % modulus() == limbs_value(d0, d1, d2, d3)) by {
            lemma_fundamental_div_mod_converse(
                limbs_value(l0, l1, l2, l3) as int,
                modulus() as int,
                1,
                limbs_value(d0, d1, d2, d3) as int,
            );
        }
        Fr { l0: d0, l1: d1, l2: d2, l3: d3 }
    } else {
        assert(limbs_value(l0, l1, l2, l3) % modulus() == limbs_value(l0, l1, l2, l3)) by {
            lemma_small_mod(limbs_value(l0, l1, l2, l3), modulus());
        }
        Fr { l0, l1, l2, l3 }
    }
}

/// The sum of two elements.
pub fn add_fr(a: &Fr, b: &Fr) -> (r: Fr)
    ensures
        r@ == field_add(a@, b@),
{
    proof {
        use_type_invariant(a);
        use_type_invariant(b);
    }
    let (s0, c) = adc(a.l0, b.l0, 0);
    let (s1, c) = adc(a.l1, b.l1, c);
    let (s2, c) = adc(a.l2, b.l2, c);
    let (s3, c) = adc(a.l3, b.l3, c);
    assert(c == 0);
    reduce_once(s0, s1, s2, s3)
}

/// The difference of two elements.
pub fn sub_fr(a: &Fr, b: &Fr) -> (r: Fr)
    ensures
        r@ == field_sub(a@, b@),
{
    proof {
        use_type_invariant(a);
        use_type_invariant(b);
    }
    let (d0, w) = sbb(a.l0, b.l0, 0);
    let (d1, w) = sbb(a.l1, b.l1, w);
    let (d2, w) = sbb(a.l2, b.l2, w);
    let (d3, w) = sbb(a.l3, b.l3, w);
    if w == 0 {
        assert(limbs_value(d0, d1, d2, d3) == a@ - b@);
        assert(field_sub(a@, b@) == limbs_value(d0, d1, d2, d3)) by {
            lemma_small_mod((a@ - b@) as nat, modulus());
        }
        Fr { l0: d0, l1: d1, l2: d2, l3: d3 }
    } else {
        let (s0, c) = adc(d0, ORDER_0, 0);
        let (s1, c) = adc(d1, ORDER_1, c);
        let (s2, c) = adc(d2, ORDER_2, c);
        let (s3, c) = adc(d3, ORDER_3, c);
        assert(limbs_value(s0, s1, s2, s3) == a@ + modulus() - b@);
        assert(field_sub(a@, b@) == limbs_value(s0, s1, s2, s3)) by {
            lemma_fundamental_div_mod_converse(
                a@ - b@,
                modulus() as int,
                -1,
                limbs_value(s0, s1, s2, s3) as int,
            );
        }
        Fr { l0: s0, l1: s1, l2: s2, l3: s3 }
    }
}

/// The element congruent to `n` modulo the field's order.
pub fn u64_to_fr(n: u64) -> (r: Fr)
    ensures
        r@ == n,
        r@ == n as nat % modulus(),
{
    assert(n as nat % modulus() == n) by {
        lemma_small_mod(n as nat, modulus());
    }
    Fr { l0: n, l1: 0, l2: 0, l3: 0 }
}

/// Whether an element is the additive identity.
pub fn is_zero_fr(a: &Fr) -> (r: bool)
    ensures
        r == (a@ == 0),
{
    a.l0 == 0 && a.l1 == 0 && a.l2 == 0 && a.l3 == 0
}

/// The element congruent, modulo the field's order, to the integer that
/// four 64-bit words spell, least significant word first.
pub fn fr_from_uint64s(words: &[u64; 4]) -> (r: Fr)
    ensures
        r@ == limbs_value(words[0], words[1], words[2], words[3]) % modulus(),
{
    let l0 = words[0];
    let l1 = words[1];
    let l2 = words[2];
    let l3 = words[3];
    if at_least_modulus(l0, l1, l2, l3) {
        let (d0, b) = sbb(l0, ORDER_0, 0);
        let (d1, b) = sbb(l1, ORDER_1, b);
        let (d2, b) = sbb(l2, ORDER_2, b);
        let (d3, b) = sbb(l3, ORDER_3, b);
        assert(limbs_value(d0, d1, d2, d3) == limbs_value(l0, l1, l2, l3) - modulus());
        assert(limbs_value(l0, l1, l2, l3) % modulus() == limbs_value(d0, d1, d2, d3) % modulus())
            by {
            lemma_mod_multiples_vanish(
                -1,
                limbs_value(l0, l1, l2, l3) as int,
                modulus() as int,
            );
        }
        reduce_once(d0, d1, d2, d3)
    } else {
        reduce_once(l0, l1, l2, l3)
    }
}

/// The four 64-bit words that spell an element's value, least significant
/// word first.
pub fn fr_to_uint64s(a: &Fr) -> (words: [u64; 4])
    ensures
        limbs_value(words[0], words[1], words[2], words[3]) == a@,
{
    [a.l0, a.l1, a.l2, a.l3]
}

/// The product of two elements.
pub fn mul_fr(a: &Fr, b: &Fr) -> (r: Fr)
    ensures
        r@ == field_mul(a@, b@),
{
    proof {
        use_type_invariant(a);
        use_type_invariant(b);
    }
    let product = mul_mod(&[a.l0, a.l1, a.l2, a.l3], &[b.l0, b.l1, b.l2, b.l3]);
    let r = reduce_once(product[0], product[1], product[2], product[3]);
    proof {
        lemma_mod_twice((a@ * b@) as int, modulus() as int);
    }
    r
}

/// One halving step of exponentiation by repeated squaring: the pair
/// `(acc2, cur2)` with the halved `w` stands for the same power modulo `p`
/// as `(acc, cur)` with `w`.
proof fn lemma_square_and_multiply_step(acc: nat, cur: nat, w: nat, acc2: nat, cur2: nat, p: nat)
    requires
        p > 0,
        acc2 == (acc * pow(cur as int, w % 2)) % (p as int),
        cur2 == (cur * cur) % p,
    ensures
        (acc2 * pow(cur2 as int, w / 2)) % (p as int) == (acc * pow(cur as int, w)) % (p as int),
{
    let bit = w % 2;
    let half = w / 2;
    let m = p as int;
    let c = cur as int;
    let sq = pow(c * c, half);
    assert(pow(c, w) == pow(c, bit) * sq) by {
        lemma_pow_adds(c, bit, 2 * half);
        lemma_pow_multiplies(c, 2, half);
        lemma_pow_adds(c, 1, 1);
        lemma_pow1(c);
    }
    assert(pow(cur2 as int, half) % m == sq % m) by {
        lemma_pow_mod_noop(c * c, half, m);
    }
    let x = acc * pow(c, bit);
    lemma_mul_mod_noop_general(x, sq, m);
    lemma_mul_mod_noop_general(x, pow(cur2 as int, half), m);
    assert(acc * pow(c, w) == x * sq) by (nonlinear_arith)
        requires
            pow(c, w) == pow(c, bit) * sq,
            x == acc * pow(c, bit),
    ;
}

/// Squaring a residue of `c^k` gives the residue of `c^(2k)`.
proof fn lemma_square_weight(c: nat, k: nat, cur: nat, cur2: nat, p: nat)
    requires
        p > 0,
        cur == pow(c as int, k) % (p as int),
        cur2 == (cur * cur) % p,
    ensures
        cur2 == pow(c as int, 2 * k) % (p as int),
{
    lemma_pow_adds(c as int, k, k);
    lemma_mul_mod_noop_general(pow(c as int, k), pow(c as int, k), p as int);
}

/// Multiplies `acc` by `cur^w`, and raises `cur` to the power `2^64`.
fn pow_limb(acc: Fr, cur: Fr, w: u64) -> (r: (Fr, Fr))
    ensures
        r.0@ == (acc@ * pow(cur@ as int, w as nat)) % (modulus() as int),
        r.1@ == pow(cur@ as int, 0x1_0000_0000_0000_0000nat) % (modulus() as int),
{
    let mut acc_i = acc;
    let mut cur_i = cur;
    let mut w_i = w;
    let ghost mut k: nat = 1;
    let ghost target = (acc@ * pow(cur@ as int, w as nat)) % (modulus() as int);
    proof {
        use_type_invariant(&acc);
        use_type_invariant(&cur);
        lemma_small_mod(cur@, modulus());
        lemma_pow1(cur@ as int);
        vstd::arithmetic::power2::lemma2_to64();
    }
    for i in 0..64u32
        invariant
            k == vstd::arithmetic::power2::pow2(i as nat),
            w_i * k <= w,
            cur_i@ == pow(cur@ as int, k) % (modulus() as int),
            (acc_i@ * pow(cur_i@ as int, w_i as nat)) % (modulus() as int) == target,
    {
        let ghost acc_old = acc_i@;
        let ghost cur_old = cur_i@;
        let ghost w_old = w_i as nat;
        let ghost bit = w_old % 2;
        if w_i % 2 == 1 {
            acc_i = mul_fr(&acc_i, &cur_i);
            proof {
                lemma_pow1(cur_old as int);
            }
        } else {
            proof {
                use_type_invariant(&acc_i);
                lemma_small_mod(acc_i@, modulus());
                lemma_pow0(cur_old as int);
                assert(acc_old * 1 == acc_old) by (nonlinear_arith);
            }
        }
        assert(acc_i@ == (acc_old * pow(cur_old as int, bit)) % (modulus() as int));
        cur_i = mul_fr(&cur_i, &cur_i);
        w_i = w_i / 2;
        proof {
            lemma_square_and_multiply_step(acc_old, cur_old, w_old, acc_i@, cur_i@, modulus());
            lemma_square_weight(cur@, k, cur_old, cur_i@, modulus());
            vstd::arithmetic::power2::lemma_pow2_unfold((i + 1) as nat);
            assert(w_i * (2 * k) <= w_old * k) by (nonlinear_arith)
                requires
                    2 * w_i <= w_old,
            ;
            k = 2 * k;
        }
    }
    proof {
        vstd::arithmetic::power2::lemma2_to64_rest();
        assert(w_i == 0) by (nonlinear_arith)
            requires
                w_i * k <= w,
                k == 0x1_0000_0000_0000_0000nat,
                w < 0x1_0000_0000_0000_0000nat,
        ;
        use_type_invariant(&acc_i);
        lemma_small_mod(acc_i@, modulus());
        lemma_pow0(cur_i@ as int);
        assert(acc_i@ * 1 == acc_i@) by (nonlinear_arith);
    }
    (acc_i, cur_i)
}

/// What one call of `pow_limb` does to a partial power of `a`: with
/// `acc` the residue of `a^s` and `cur` that of `a^t`, the new pair holds
/// the residues of `a^(s + t*w)` and `a^(t * 2^64)`.
proof fn lemma_pow_limb_compose(
    a: nat,
    s: nat,
    t: nat,
    w: nat,
    acc: nat,
    cur: nat,
    acc2: nat,
    cur2: nat,
    p: nat,
)
    requires
        p > 0,
        acc == pow(a as int, s) % (p as int),
        cur == pow(a as int, t) % (p as int),
        acc2 == (acc * pow(cur as int, w)) % (p as int),
        cur2 == pow(cur as int, 0x1_0000_0000_0000_0000nat) % (p as int),
    ensures
        acc2 == pow(a as int, s + t * w) % (p as int),
        cur2 == pow(a as int, t * 0x1_0000_0000_0000_0000nat) % (p as int),
{
    let m = p as int;
    let b = a as int;
    lemma_pow_mod_noop(pow(b, t), w, m);
    lemma_pow_multiplies(b, t, w);
    lemma_pow_mod_noop(pow(b, t), 0x1_0000_0000_0000_0000nat, m);
    lemma_pow_multiplies(b, t, 0x1_0000_0000_0000_0000nat);
    lemma_pow_adds(b, s, t * w);
    lemma_mul_mod_noop_general(pow(b, s), pow(b, t * w), m);
    lemma_mul_mod_noop_general(acc as int, pow(cur as int, w), m);
}

/// An element raised to the power that four 64-bit words spell, least
/// significant word first.
pub fn pow_fr(base: &Fr, exponent: &[u64; 4]) -> (r: Fr)
    ensures
        r@ == field_pow(
            base@,
            limbs_value(exponent[0], exponent[1], exponent[2], exponent[3]),
        ),
{
    let one = Fr { l0: 1, l1: 0, l2: 0, l3: 0 };
    let (acc1, cur1) = pow_limb(one, *base, exponent[0]);
    let (acc2, cur2) = pow_limb(acc1, cur1, exponent[1]);
    let (acc3, cur3) = pow_limb(acc2, cur2, exponent[2]);
    let (acc4, cur4) = pow_limb(acc3, cur3, exponent[3]);
    proof {
        let p = modulus();
        let a = base@;
        use_type_invariant(base);
        lemma_pow0(a as int);
        lemma_pow1(a as int);
        lemma_small_mod(1, p);
        lemma_small_mod(a, p);
        let e0 = exponent[0] as nat;
        let e1 = exponent[1] as nat;
        let e2 = exponent[2] as nat;
        let e3 = exponent[3] as nat;
        let t1: nat = 0x1_0000_0000_0000_0000nat;
        let t2: nat = 0x1_0000_0000_0000_0000_0000_0000_0000_0000nat;
        let t3: nat = 0x1_0000_0000_0000_0000_0000_0000_0000_0000_0000_0000_0000_0000nat;
        lemma_pow_limb_compose(a, 0, 1, e0, 1, a, acc1@, cur1@, p);
        assert(0 + 1 * e0 == e0) by (nonlinear_arith);
        lemma_pow_limb_compose(a, e0, t1, e1, acc1@, cur1@, acc2@, cur2@, p);
        lemma_pow_limb_compose(a, e0 + t1 * e1, t2, e2, acc2@, cur2@, acc3@, cur3@, p);
        lemma_pow_limb_compose(a, e0 + t1 * e1 + t2 * e2, t3, e3, acc3@, cur3@, acc4@, cur4@, p);
        assert(e0 + t1 * e1 + t2 * e2 + t3 * e3 == limbs_value(
            exponent[0],
            exponent[1],
            exponent[2],
            exponent[3],
        )) by (nonlinear_arith)
            requires
                t1 == 0x1_0000_0000_0000_0000nat,
                t2 == 0x1_0000_0000_0000_0000_0000_0000_0000_0000nat,
                t3 == 0x1_0000_0000_0000_0000_0000_0000_0000_0000_0000_0000_0000_0000nat,
                e0 == exponent[0],
                e1 == exponent[1],
                e2 == exponent[2],
                e3 == exponent[3],
        ;
    }
    acc4
}

/// The multiplicative inverse of an element; zero has none.
pub fn inverse_fr(a: &Fr) -> (r: Result<Fr, Error>)
    ensures
        a@ == 0 ==> r == Err::<Fr, Error>(Error::DivisionByZero),
        a@ != 0 ==> r is Ok && r->Ok_0@ == field_inv(a@) && field_mul(a@, r->Ok_0@) == 1,
{
    if is_zero_fr(a) {
        return Err(Error::DivisionByZero);
    }
    let exponent: [u64; 4] = [ORDER_0 - 2, ORDER_1, ORDER_2, ORDER_3];
    let inv = pow_fr(a, &exponent);
    proof {
        use_type_invariant(a);
        lemma_field_inv(a@);
    }
    Ok(inv)
}

/// A freshly keyed hasher state, from `std::hash::RandomState::new`. The
/// keys differ from call to call and from process to process, so nothing
/// is claimed of the result.
#[verifier::external_body]
fn new_random_state() -> (state: RandomState) {
    RandomState::new()
}

/// The 64-bit hash of `n` under the keys of `state`, from
/// `std::hash::BuildHasher::hash_one`. Nothing is claimed of the result.
#[verifier::external_body]
fn hash_word(state: &RandomState, n: u64) -> (word: u64) {
    state.hash_one(n)
}

/// 256 random bits, as four words.
pub(crate) fn random_words() -> (words: [u64; 4]) {
    let state = new_random_state();
    [hash_word(&state, 0), hash_word(&state, 1), hash_word(&state, 2), hash_word(&state, 3)]
}

/// A field element sampled by reducing 256 random bits modulo the field's
/// order.
pub fn rand_fr() -> (r: Fr)
    ensures
        r@ < modulus(),
{
    let words = random_words();
    let r = fr_from_uint64s(&words);
    proof {
        use_type_invariant(&r);
    }
    r
}

impl Default for Fr {
    /// The additive identity.
    fn default() -> (r: Fr)
        ensures
            r@ == 0,
    {
        Fr { l0: 0, l1: 0, l2: 0, l3: 0 }
    }
}

} // verus!
