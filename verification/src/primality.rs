//! Primality by the Lucas test: a number `n` is prime as soon as some `g`
//! has multiplicative order exactly `n - 1` modulo `n`. The same witness
//! shows that every nonzero residue is a power of `g`, which gives Fermat's
//! little theorem for `n` without any further number theory.

use vstd::arithmetic::div_mod::{
    lemma_fundamental_div_mod, lemma_mod_bound, lemma_mod_multiples_basic,
    lemma_mod_multiples_vanish, lemma_mul_mod_noop_general, lemma_small_mod,
};
use vstd::arithmetic::power::{
    lemma1_pow, lemma_pow1, lemma_pow_adds, lemma_pow_mod_noop, lemma_pow_multiplies, pow,
};
use vstd::prelude::*;
use vstd::set_lib::{lemma_int_range, lemma_subset_equality, set_int_range};

verus! {

/// `p` is at least 2 and no number strictly between 1 and `p` divides it.
pub open spec fn is_prime(p: nat) -> bool {
    p >= 2 && forall|d: nat| 1 < d < p ==> #[trigger] (p % d) != 0
}

/// `g^e` reduced modulo `n`.
#[verifier::opaque]
pub open spec fn pow_mod(g: nat, e: nat, n: nat) -> nat {
    (pow(g as int, e) % (n as int)) as nat
}

/// `k` is positive and divides `m`.
pub open spec fn divides(k: nat, m: nat) -> bool {
    k >= 1 && m % k == 0
}

/// No member of `qs` divides `k`.
pub open spec fn avoids(k: nat, qs: Set<nat>) -> bool {
    forall|q: nat| #[trigger] qs.contains(q) ==> k % q != 0
}

/// Every divisor of `m` other than 1 is a multiple of some member of `qs`.
pub open spec fn covered(m: nat, qs: Set<nat>) -> bool {
    forall|k: nat| #[trigger] divides(k, m) && avoids(k, qs) ==> k == 1
}

/// `g^(n-1)` is 1 modulo `n`, and no smaller positive power of `g` is.
pub open spec fn is_generator(g: nat, n: nat) -> bool {
    &&& n >= 2
    &&& pow_mod(g, (n - 1) as nat, n) == 1
    &&& forall|j: nat| 0 < j < n - 1 ==> #[trigger] pow_mod(g, j, n) != 1
}

/// The greatest common divisor, by Euclid's algorithm.
spec fn gcd(a: nat, b: nat) -> nat
    decreases b,
{
    if b == 0 {
        a
    } else {
        gcd(b, a % b)
    }
}

/// A power reduced modulo `n` lies below `n`.
pub proof fn lemma_pow_mod_bound(g: nat, e: nat, n: nat)
    requires
        n > 0,
    ensures
        pow_mod(g, e, n) < n,
        pow_mod(g, e, n) == pow(g as int, e) % (n as int),
{
    reveal(pow_mod);
    lemma_mod_bound(pow(g as int, e), n as int);
}

/// `g^1` is `g`, modulo `n`.
pub proof fn lemma_pow_mod_one_exponent(g: nat, n: nat)
    requires
        n > 0,
    ensures
        pow_mod(g, 1, n) == g % n,
{
    reveal(pow_mod);
    lemma_pow1(g as int);
}

/// `g^(a+b)` is `g^a * g^b`, modulo `n`.
pub proof fn lemma_pow_mod_add(g: nat, a: nat, b: nat, n: nat)
    requires
        n > 0,
    ensures
        pow_mod(g, a + b, n) == (pow_mod(g, a, n) * pow_mod(g, b, n)) % n,
{
    reveal(pow_mod);
    lemma_pow_adds(g as int, a, b);
    lemma_mul_mod_noop_general(pow(g as int, a), pow(g as int, b), n as int);
}

/// `g^(a*b)` is `(g^a)^b`, modulo `n`.
pub proof fn lemma_pow_mod_mul(g: nat, a: nat, b: nat, n: nat)
    requires
        n > 0,
    ensures
        pow_mod(g, a * b, n) == pow_mod(pow_mod(g, a, n), b, n),
{
    reveal(pow_mod);
    lemma_pow_multiplies(g as int, a, b);
    lemma_pow_mod_noop(pow(g as int, a), b, n as int);
}

/// Every power of 1 is 1.
pub proof fn lemma_pow_mod_of_one(e: nat, n: nat)
    requires
        n > 1,
    ensures
        pow_mod(1, e, n) == 1,
{
    reveal(pow_mod);
    lemma1_pow(e);
    lemma_small_mod(1, n);
}

/// A power of `g` whose exponent is a multiple of an exponent that sends
/// `g` to 1 is 1 as well.
proof fn lemma_pow_mod_multiple(g: nat, d: nat, c: nat, n: nat)
    requires
        n > 1,
        pow_mod(g, d, n) == 1,
    ensures
        pow_mod(g, d * c, n) == 1,
{
    lemma_pow_mod_mul(g, d, c, n);
    lemma_pow_mod_of_one(c, n);
}

/// `x` leaves the remainder `r` modulo `n` when it is `q * n + r` with
/// `r` below `n`.
proof fn lemma_remainder(x: nat, q: nat, n: nat, r: nat)
    requires
        x == q * n + r,
        r < n,
    ensures
        x % n == r,
{
    lemma_mod_multiples_vanish(q as int, r as int, n as int);
    lemma_small_mod(r, n);
    assert(n * q + r == q * n + r) by (nonlinear_arith);
}

/// One squaring step of a chain that computes a power by its exponent's
/// binary digits; `q` is the quotient that the reduction leaves behind.
pub proof fn lemma_pow_mod_square(g: nat, e: nat, n: nat, v: nat, q: nat, r: nat)
    requires
        pow_mod(g, e, n) == v,
        v * v == q * n + r,
        r < n,
    ensures
        pow_mod(g, 2 * e, n) == r,
{
    lemma_pow_mod_add(g, e, e, n);
    lemma_remainder(v * v, q, n, r);
}

/// One squaring step of such a chain, followed by a multiplication by the
/// base.
pub proof fn lemma_pow_mod_square_times(g: nat, e: nat, n: nat, v: nat, q: nat, r: nat)
    requires
        pow_mod(g, e, n) == v,
        v * v * g == q * n + r,
        r < n,
    ensures
        pow_mod(g, 2 * e + 1, n) == r,
{
    lemma_pow_mod_add(g, e, e, n);
    lemma_pow_mod_add(g, 2 * e, 1, n);
    lemma_pow_mod_one_exponent(g, n);
    lemma_mul_mod_noop_general((v * v) as int, g as int, n as int);
    lemma_remainder(v * v * g, q, n, r);
}

/// The start of such a chain.
pub proof fn lemma_pow_mod_start(g: nat, n: nat)
    requires
        g < n,
    ensures
        pow_mod(g, 1, n) == g,
{
    lemma_pow_mod_one_exponent(g, n);
    lemma_small_mod(g, n);
}

/// A power of a power: with `v` the residue of `g^a` and `r` that of
/// `v^b`, `r` is the residue of `g^(a*b)`.
pub proof fn lemma_pow_mod_compose(g: nat, a: nat, b: nat, n: nat, v: nat, r: nat)
    requires
        n > 0,
        pow_mod(g, a, n) == v,
        pow_mod(v, b, n) == r,
    ensures
        pow_mod(g, a * b, n) == r,
{
    lemma_pow_mod_mul(g, a, b, n);
}

/// A divisor times the quotient gives the number back.
proof fn lemma_divides_witness(k: nat, m: nat)
    requires
        divides(k, m),
    ensures
        m == k * (m / k),
{
    lemma_fundamental_div_mod(m as int, k as int);
}

/// A number divides its multiples.
proof fn lemma_multiple_divides(k: nat, c: nat, m: nat)
    requires
        k >= 1,
        m == k * c,
    ensures
        divides(k, m),
        k * c / k == c,
{
    lemma_mod_multiples_basic(c as int, k as int);
    assert(c * k == k * c) by (nonlinear_arith);
    vstd::arithmetic::div_mod::lemma_div_multiples_vanish(c as int, k as int);
}

/// The least positive exponent, from `lo` on, that sends `g` to 1.
proof fn lemma_least_power(g: nat, n: nat, lo: nat, bound: nat) -> (d: nat)
    requires
        0 < lo <= bound,
        pow_mod(g, bound, n) == 1,
        forall|j: nat| 0 < j < lo ==> #[trigger] pow_mod(g, j, n) != 1,
    ensures
        0 < d <= bound,
        pow_mod(g, d, n) == 1,
        forall|j: nat| 0 < j < d ==> #[trigger] pow_mod(g, j, n) != 1,
    decreases bound - lo,
{
    if pow_mod(g, lo, n) == 1 {
        lo
    } else {
        lemma_least_power(g, n, lo + 1, bound)
    }
}

/// The least positive exponent that sends `g` to 1 divides every other one.
proof fn lemma_order_divides(g: nat, d: nat, e: nat, n: nat)
    requires
        n > 1,
        d > 0,
        pow_mod(g, d, n) == 1,
        forall|j: nat| 0 < j < d ==> #[trigger] pow_mod(g, j, n) != 1,
        pow_mod(g, e, n) == 1,
    ensures
        divides(d, e),
{
    let c = e / d;
    let r = e % d;
    lemma_fundamental_div_mod(e as int, d as int);
    lemma_mod_bound(e as int, d as int);
    lemma_pow_mod_multiple(g, d, c, n);
    lemma_pow_mod_add(g, d * c, r, n);
    lemma_pow_mod_bound(g, r, n);
    lemma_small_mod(pow_mod(g, r, n), n);
    assert(1 * pow_mod(g, r, n) == pow_mod(g, r, n)) by (nonlinear_arith);
    assert(pow_mod(g, r, n) == 1);
}

/// Bezout's identity: the greatest common divisor is an integer
/// combination of the two numbers.
proof fn lemma_bezout(a: nat, b: nat) -> (xy: (int, int))
    ensures
        a * xy.0 + b * xy.1 == gcd(a, b),
    decreases b,
{
    if b == 0 {
        (1, 0)
    } else {
        let (x, y) = lemma_bezout(b, a % b);
        let q = (a / b) as int;
        let r = (a % b) as int;
        lemma_fundamental_div_mod(a as int, b as int);
        assert(a * y + b * (x - q * y) == b * x + r * y) by (nonlinear_arith)
            requires
                a == b * q + r,
        ;
        (y, x - q * y)
    }
}

/// The greatest common divisor divides both numbers.
proof fn lemma_gcd_divides(a: nat, b: nat)
    requires
        a > 0 || b > 0,
    ensures
        divides(gcd(a, b), a),
        divides(gcd(a, b), b),
    decreases b,
{
    if b == 0 {
        lemma_mod_multiples_basic(1, a as int);
        lemma_small_mod(0, a);
    } else {
        let r = a % b;
        let g = gcd(b, r);
        lemma_mod_bound(a as int, b as int);
        lemma_gcd_divides(b, r);
        lemma_divides_witness(g, b);
        lemma_divides_witness(g, r);
        lemma_fundamental_div_mod(a as int, b as int);
        let cb = b / g;
        let cr = r / g;
        let q = a / b;
        assert(a == g * (cb * q + cr)) by (nonlinear_arith)
            requires
                a == b * q + r,
                b == g * cb,
                r == g * cr,
        ;
        lemma_multiple_divides(g, cb * q + cr, a);
    }
}

/// Euclid's lemma in the form used here: a number that divides `q * m`,
/// and is not a multiple of the prime `q`, divides `m`.
proof fn lemma_coprime_cancel(k: nat, q: nat, m: nat)
    requires
        is_prime(q),
        divides(k, q * m),
        k % q != 0,
    ensures
        divides(k, m),
{
    let g = gcd(k, q);
    lemma_gcd_divides(k, q);
    assert(g == 1) by {
        lemma_divides_witness(g, q);
        let c = q / g;
        assert(g <= q) by (nonlinear_arith)
            requires
                q == g * c,
                q >= 2,
                g >= 1,
        ;
        if g == q {
            assert(false);
        }
    }
    let (x, y) = lemma_bezout(k, q);
    lemma_divides_witness(k, q * m);
    let c = ((q * m) / k) as int;
    let w = m * x + c * y;
    assert(m == k * w) by (nonlinear_arith)
        requires
            k * x + q * y == 1,
            q * m == k * c,
            w == m * x + c * y,
    ;
    assert(w >= 0) by (nonlinear_arith)
        requires
            m == k * w,
            k >= 1,
            m >= 0,
    ;
    lemma_multiple_divides(k, w as nat, m);
}

/// 2 is prime.
pub proof fn lemma_two_is_prime()
    ensures
        is_prime(2),
{
}

/// Only 1 divides 1.
pub proof fn lemma_covered_one(qs: Set<nat>)
    ensures
        covered(1, qs),
{
    assert forall|k: nat| #[trigger] divides(k, 1) && avoids(k, qs) implies k == 1 by {
        if k > 1 {
            lemma_small_mod(1, k);
        }
    }
}

/// Multiplying by a prime of `qs` keeps a number covered by `qs`.
pub proof fn lemma_covered_step(m: nat, q: nat, qs: Set<nat>)
    requires
        covered(m, qs),
        is_prime(q),
        qs.contains(q),
    ensures
        covered(q * m, qs),
{
    assert forall|k: nat| #[trigger] divides(k, q * m) && avoids(k, qs) implies k == 1 by {
        assert(qs.contains(q));
        lemma_coprime_cancel(k, q, m);
        assert(divides(k, m));
    }
}

/// `q` divides `n - 1`, and `g^((n-1)/q)` is not 1 modulo `n`.
pub open spec fn is_witness(g: nat, n: nat, q: nat) -> bool {
    divides(q, (n - 1) as nat) && pow_mod(g, ((n - 1) as nat) / q, n) != 1
}

/// The Lucas test: if `g^(n-1)` is 1 modulo `n`, while `g^((n-1)/q)` is not
/// for any `q` of a set that covers `n - 1`, the order of `g` is `n - 1`.
pub proof fn lemma_lucas(n: nat, g: nat, qs: Set<nat>)
    requires
        n >= 2,
        pow_mod(g, (n - 1) as nat, n) == 1,
        covered((n - 1) as nat, qs),
        forall|q: nat| #[trigger] qs.contains(q) ==> is_witness(g, n, q),
    ensures
        is_generator(g, n),
{
    let e = (n - 1) as nat;
    let d = lemma_least_power(g, n, 1, e);
    lemma_order_divides(g, d, e, n);
    lemma_divides_witness(d, e);
    let k = e / d;
    lemma_multiple_divides(k, d, e);
    assert(k >= 1) by (nonlinear_arith)
        requires
            e == d * k,
            e >= 1,
            d >= 1,
    ;
    assert(d * k == k * d) by (nonlinear_arith);
    if k != 1 {
        assert(divides(k, e));
        assert(!avoids(k, qs));
        let q = choose|q: nat| #[trigger] qs.contains(q) && k % q == 0;
        assert(divides(q, e));
        assert(divides(q, k));
        lemma_divides_witness(q, k);
        let c = k / q;
        assert(e == q * (d * c)) by (nonlinear_arith)
            requires
                e == d * k,
                k == q * c,
        ;
        lemma_multiple_divides(q, d * c, e);
        lemma_pow_mod_multiple(g, d, c, n);
        assert(false);
    }
    assert(d * 1 == d) by (nonlinear_arith);
}

/// Distinct exponents below `n - 1` give distinct powers of a generator.
proof fn lemma_generator_injective(g: nat, n: nat, i: nat, j: nat)
    requires
        is_generator(g, n),
        i < j < n - 1,
    ensures
        pow_mod(g, i, n) != pow_mod(g, j, n),
{
    if pow_mod(g, i, n) == pow_mod(g, j, n) {
        let rest = (n - 1 - j) as nat;
        lemma_pow_mod_add(g, i, rest, n);
        lemma_pow_mod_add(g, j, rest, n);
        assert(j + rest == n - 1);
        assert(pow_mod(g, i + rest, n) == 1);
        assert(0 < i + rest < n - 1);
        assert(false);
    }
}

/// No power of a generator is 0, and each has a power that inverts it.
proof fn lemma_generator_power_unit(g: nat, n: nat, i: nat)
    requires
        is_generator(g, n),
        i <= n - 1,
    ensures
        0 < pow_mod(g, i, n) < n,
        (pow_mod(g, i, n) * pow_mod(g, (n - 1 - i) as nat, n)) % n == 1,
{
    let rest = (n - 1 - i) as nat;
    lemma_pow_mod_add(g, i, rest, n);
    lemma_pow_mod_bound(g, i, n);
    assert(i + rest == n - 1);
    if pow_mod(g, i, n) == 0 {
        assert(0 * pow_mod(g, rest, n) == 0) by (nonlinear_arith);
        lemma_small_mod(0, n);
        assert(false);
    }
}

/// The first `m` powers of `g` modulo `n`, as a set.
spec fn powers(g: nat, n: nat, m: nat) -> Set<int>
    decreases m,
{
    if m == 0 {
        Set::empty()
    } else {
        powers(g, n, (m - 1) as nat).insert(pow_mod(g, (m - 1) as nat, n) as int)
    }
}

/// The first `m` powers of a generator are `m` different nonzero residues.
proof fn lemma_powers(g: nat, n: nat, m: nat)
    requires
        is_generator(g, n),
        m <= n - 1,
    ensures
        powers(g, n, m).finite(),
        powers(g, n, m).len() == m,
        powers(g, n, m).subset_of(set_int_range(1, n as int)),
        forall|a: int| #[trigger]
            powers(g, n, m).contains(a) ==> exists|k: nat| k < m && pow_mod(g, k, n) == a,
    decreases m,
{
    if m > 0 {
        let prev = powers(g, n, (m - 1) as nat);
        let v = pow_mod(g, (m - 1) as nat, n) as int;
        lemma_powers(g, n, (m - 1) as nat);
        lemma_generator_power_unit(g, n, (m - 1) as nat);
        if prev.contains(v) {
            let k = choose|k: nat| k < m - 1 && pow_mod(g, k, n) == v;
            lemma_generator_injective(g, n, k, (m - 1) as nat);
            assert(false);
        }
        assert forall|a: int| #[trigger] powers(g, n, m).contains(a) implies exists|k: nat|
            k < m && pow_mod(g, k, n) == a by {
            if a == v {
                let k0 = (m - 1) as nat;
                assert(k0 < m && pow_mod(g, k0, n) == a);
            } else {
                assert(prev.contains(a));
                let k = choose|k: nat| k < m - 1 && pow_mod(g, k, n) == a;
                assert(k < m && pow_mod(g, k, n) == a);
            }
        }
    }
}

/// Every nonzero residue is a power of a generator.
pub proof fn lemma_generator_reaches(g: nat, n: nat, a: nat) -> (k: nat)
    requires
        is_generator(g, n),
        0 < a < n,
    ensures
        k < n - 1,
        pow_mod(g, k, n) == a,
{
    let m = (n - 1) as nat;
    lemma_powers(g, n, m);
    lemma_int_range(1, n as int);
    lemma_subset_equality(powers(g, n, m), set_int_range(1, n as int));
    assert(set_int_range(1, n as int).contains(a as int));
    assert(powers(g, n, m).contains(a as int));
    choose|k: nat| k < m && pow_mod(g, k, n) == a
}

/// Fermat's little theorem for a modulus that has a generator.
pub proof fn lemma_generator_fermat(g: nat, n: nat, a: nat)
    requires
        is_generator(g, n),
        0 < a < n,
    ensures
        pow_mod(a, (n - 1) as nat, n) == 1,
{
    let e = (n - 1) as nat;
    let k = lemma_generator_reaches(g, n, a);
    lemma_pow_mod_mul(g, k, e, n);
    lemma_pow_mod_mul(g, e, k, n);
    lemma_pow_mod_of_one(k, n);
    assert(k * e == e * k) by (nonlinear_arith);
}

/// A modulus that has a generator is prime.
pub proof fn lemma_generator_prime(g: nat, n: nat)
    requires
        is_generator(g, n),
    ensures
        is_prime(n),
{
    assert forall|d: nat| 1 < d < n implies #[trigger] (n % d) != 0 by {
        if n % d == 0 {
            let k = lemma_generator_reaches(g, n, d);
            lemma_generator_power_unit(g, n, k);
            let u = pow_mod(g, (n - 1 - k) as nat, n);
            lemma_divides_witness(d, n);
            let c = n / d;
            assert(0 < c < n) by (nonlinear_arith)
                requires
                    n == d * c,
                    1 < d < n,
            ;
            // c = c * (d * u) = n * u = 0, modulo n
            lemma_mul_mod_noop_general(c as int, (d * u) as int, n as int);
            assert(c * 1 == c) by (nonlinear_arith);
            assert(c * (d * u) == n * u) by (nonlinear_arith)
                requires
                    n == d * c,
            ;
            lemma_mod_multiples_basic(u as int, n as int);
            assert(u * n == n * u) by (nonlinear_arith);
            lemma_small_mod(c, n);
            assert(false);
        }
    }
}

} // verus!
