//! Dense polynomials over the scalar field: creation, coefficient access,
//! evaluation and long division.

use crate::error::Error;
use crate::field_spec::{field_mul, field_sub, limbs_value, modulus};
use crate::finite::{
    add_fr, fr_from_uint64s, inverse_fr, is_zero_fr, mul_fr, random_words, sub_fr, u64_to_fr, Fr,
};
use crate::poly_spec::{
    coeff, eval_sum, is_division, is_quotient, is_reduced, lemma_conv_sum_difference,
    lemma_conv_sum_zero, normalized, poly_eval, product_coeff,
};
use vstd::arithmetic::div_mod::{
    lemma_add_mod_noop, lemma_fundamental_div_mod, lemma_mod_bound, lemma_mod_multiples_vanish,
    lemma_mod_twice, lemma_mul_mod_noop_general, lemma_small_mod,
};
use vstd::arithmetic::power::{lemma_pow0, lemma_pow1, lemma_pow_adds, pow};
use vstd::prelude::*;

verus! {

/// The residues that a sequence of elements stands for.
spec fn values(v: Seq<Fr>) -> Seq<nat> {
    Seq::new(v.len(), |i: int| v[i]@)
}

/// The largest number of coefficients that a polynomial can be created
/// with.
pub const MAX_POLY_LENGTH: u64 = 0x100_0000;

/// A polynomial: its coefficients, that of the lowest degree first. The
/// number of coefficients is fixed when the polynomial is created.
#[derive(Debug)]
pub struct Poly {
    coeffs: Vec<Fr>,
}

impl View for Poly {
    type V = Seq<nat>;

    /// The coefficients' values, that of the lowest degree first.
    closed spec fn view(&self) -> Seq<nat> {
        values(self.coeffs@)
    }
}

impl Poly {
    /// Every coefficient is an element of the field.
    #[verifier::type_invariant]
    pub open spec fn reduced(self) -> bool {
        is_reduced(self@)
    }

    /// The number of coefficients.
    pub fn length(&self) -> (n: u64)
        ensures
            n == self@.len(),
    {
        self.coeffs.len() as u64
    }
}

impl Default for Poly {
    /// The polynomial without coefficients.
    fn default() -> (p: Poly)
        ensures
            p@ == Seq::<nat>::empty(),
    {
        Poly { coeffs: Vec::new() }
    }
}

/// Replaces the coefficient at index `i` by `value`.
fn store(poly: &mut Poly, i: usize, value: Fr)
    requires
        i < old(poly)@.len(),
    ensures
        final(poly)@ == old(poly)@.update(i as int, value@),
{
    proof {
        use_type_invariant(&*poly);
        use_type_invariant(&value);
    }
    let mut coeffs: Vec<Fr> = Vec::new();
    core::mem::swap(&mut coeffs, &mut poly.coeffs);
    coeffs.set(i, value);
    assert(values(coeffs@) =~= old(poly)@.update(i as int, value@));
    core::mem::swap(&mut coeffs, &mut poly.coeffs);
}

/// A polynomial of `length` coefficients, all of them zero.
pub fn create_poly(length: u64) -> (r: Result<Poly, Error>)
    ensures
        1 <= length <= MAX_POLY_LENGTH ==> r is Ok && r->Ok_0@ == Seq::new(
            length as nat,
            |i: int| 0nat,
        ),
        !(1 <= length <= MAX_POLY_LENGTH) ==> r == Err::<Poly, Error>(Error::AllocationError),
{
    if length == 0 || length > MAX_POLY_LENGTH {
        return Err(Error::AllocationError);
    }
    let n = length as usize;
    let zero = u64_to_fr(0);
    let mut coeffs: Vec<Fr> = Vec::with_capacity(n);
    while coeffs.len() < n
        invariant
            coeffs@.len() <= n,
            zero@ == 0,
            forall|i: int| 0 <= i < coeffs@.len() ==> (#[trigger] coeffs@[i])@ == 0,
        decreases n - coeffs@.len(),
    {
        coeffs.push(zero);
    }
    let p = Poly { coeffs };
    assert(p@ =~= Seq::new(length as nat, |i: int| 0nat));
    Ok(p)
}

/// Releases a polynomial's storage; what is left has no coefficients.
pub fn destroy_poly(poly: &mut Poly)
    ensures
        final(poly)@ == Seq::<nat>::empty(),
{
    poly.coeffs = Vec::new();
}

/// The coefficient at `index`.
pub fn poly_coeff_at(poly: &Poly, index: isize) -> (r: Result<Fr, Error>)
    ensures
        0 <= index < poly@.len() ==> r is Ok && r->Ok_0@ == poly@[index as int],
        !(0 <= index < poly@.len()) ==> r == Err::<Fr, Error>(Error::IndexOutOfRange),
{
    if index < 0 || index as usize >= poly.coeffs.len() {
        return Err(Error::IndexOutOfRange);
    }
    Ok(poly.coeffs[index as usize])
}

/// Replaces the coefficient at `index` by `point`.
pub fn change_poly_coeff(poly: &mut Poly, index: isize, point: Fr) -> (r: Result<(), Error>)
    ensures
        0 <= index < old(poly)@.len() ==> r is Ok && final(poly)@ == old(poly)@.update(
            index as int,
            point@,
        ),
        !(0 <= index < old(poly)@.len()) ==> r == Err::<(), Error>(Error::IndexOutOfRange)
            && final(poly)@ == old(poly)@,
{
    if index < 0 || index as usize >= poly.coeffs.len() {
        return Err(Error::IndexOutOfRange);
    }
    store(poly, index as usize, point);
    Ok(())
}

/// Replaces each of the first `length` coefficients by the element that
/// the four words at the same index of `words` spell, least significant
/// word first.
pub fn set_poly_coefficients(poly: &mut Poly, length: u64, words: &Vec<[u64; 4]>) -> (r: Result<
    (),
    Error,
>)
    ensures
        length <= old(poly)@.len() && length <= words@.len() ==> {
            &&& r is Ok
            &&& final(poly)@.len() == old(poly)@.len()
            &&& forall|i: int|
                0 <= i < length ==> #[trigger] final(poly)@[i] == limbs_value(
                    words@[i][0],
                    words@[i][1],
                    words@[i][2],
                    words@[i][3],
                ) % modulus()
            &&& forall|i: int|
                length <= i < old(poly)@.len() ==> #[trigger] final(poly)@[i] == old(poly)@[i]
        },
        !(length <= old(poly)@.len() && length <= words@.len()) ==> {
            &&& r == Err::<(), Error>(Error::IndexOutOfRange)
            &&& final(poly)@ == old(poly)@
        },
{
    if length > poly.coeffs.len() as u64 || length > words.len() as u64 {
        return Err(Error::IndexOutOfRange);
    }
    let n = length as usize;
    let mut i: usize = 0;
    while i < n
        invariant
            i <= n <= poly@.len(),
            n <= words@.len(),
            poly@.len() == old(poly)@.len(),
            forall|j: int|
                0 <= j < i ==> #[trigger] poly@[j] == limbs_value(
                    words@[j][0],
                    words@[j][1],
                    words@[j][2],
                    words@[j][3],
                ) % modulus(),
            forall|j: int| i <= j < poly@.len() ==> #[trigger] poly@[j] == old(poly)@[j],
        decreases n - i,
    {
        let value = fr_from_uint64s(&words[i]);
        store(poly, i, value);
        i = i + 1;
    }
    Ok(())
}

/// Replaces each of the first `length` coefficients by a random element of
/// the field: 256 random bits, reduced modulo the field's order.
pub fn randomize_poly_coefficients(poly: &mut Poly, length: u64) -> (r: Result<(), Error>)
    ensures
        length <= old(poly)@.len() ==> {
            &&& r is Ok
            &&& final(poly)@.len() == old(poly)@.len()
            &&& forall|i: int| 0 <= i < length ==> #[trigger] final(poly)@[i] < modulus()
            &&& forall|i: int|
                length <= i < old(poly)@.len() ==> #[trigger] final(poly)@[i] == old(poly)@[i]
        },
        length > old(poly)@.len() ==> {
            &&& r == Err::<(), Error>(Error::IndexOutOfRange)
            &&& final(poly)@ == old(poly)@
        },
{
    if length > poly.coeffs.len() as u64 {
        return Err(Error::IndexOutOfRange);
    }
    let n = length as usize;
    let mut words: Vec<[u64; 4]> = Vec::with_capacity(n);
    while words.len() < n
        invariant
            words@.len() <= n,
        decreases n - words@.len(),
    {
        words.push(random_words());
    }
    proof {
        assert forall|i: int| 0 <= i < length implies limbs_value(
            #[trigger] words@[i][0],
            words@[i][1],
            words@[i][2],
            words@[i][3],
        ) % modulus() < modulus() by {
            lemma_mod_bound(
                limbs_value(words@[i][0], words@[i][1], words@[i][2], words@[i][3]) as int,
                modulus() as int,
            );
        }
    }
    set_poly_coefficients(poly, length, &words)
}

/// Makes the coefficient at `length - 1` nonzero: a zero there becomes 1,
/// so that the polynomial's degree is `length - 1`.
pub fn check_poly_order(poly: &mut Poly, length: u64) -> (r: Result<(), Error>)
    ensures
        1 <= length <= old(poly)@.len() ==> r is Ok && final(poly)@ == normalized(
            old(poly)@,
            length as int,
        ),
        !(1 <= length <= old(poly)@.len()) ==> r == Err::<(), Error>(Error::IndexOutOfRange)
            && final(poly)@ == old(poly)@,
{
    if length == 0 || length > poly.coeffs.len() as u64 {
        return Err(Error::IndexOutOfRange);
    }
    let top = (length - 1) as usize;
    if is_zero_fr(&poly.coeffs[top]) {
        store(poly, top, u64_to_fr(1));
    }
    Ok(())
}

/// One step of Horner's rule leaves the value unchanged: with `acc2` the
/// residue of `acc * x + c`, where `c` is the coefficient of `x^i`.
proof fn lemma_horner_step(coeffs: Seq<nat>, x: nat, i: nat, acc: nat, acc2: nat)
    requires
        i < coeffs.len(),
        acc2 == (acc * x + coeffs[i as int]) % modulus(),
    ensures
        (eval_sum(coeffs, x, i) + pow(x as int, i) * acc2) % (modulus() as int) == (eval_sum(
            coeffs,
            x,
            i + 1,
        ) + pow(x as int, i + 1) * acc) % (modulus() as int),
{
    let m = modulus() as int;
    let xi = pow(x as int, i);
    let c = coeffs[i as int] as int;
    let low = eval_sum(coeffs, x, i);
    let t = (acc * x + c) as int;
    assert(pow(x as int, i + 1) == xi * x) by {
        lemma_pow_adds(x as int, i, 1);
        lemma_pow1(x as int);
    }
    assert(eval_sum(coeffs, x, i + 1) == low + c * xi);
    assert(low + c * xi + (xi * x) * acc == low + xi * t) by (nonlinear_arith)
        requires
            t == acc * x + c,
    ;
    lemma_mul_mod_noop_general(xi, t, m);
    lemma_add_mod_noop(low, xi * t, m);
    lemma_add_mod_noop(low, xi * (t % m), m);
}

/// The value of a polynomial at `point`, by Horner's rule.
pub fn eval_poly_at(poly: &Poly, point: &Fr) -> (r: Fr)
    ensures
        r@ == poly_eval(poly@, point@),
{
    let n = poly.coeffs.len();
    let mut acc = u64_to_fr(0);
    let mut i = n;
    proof {
        assert(pow(point@ as int, n as nat) * 0 == 0) by (nonlinear_arith);
    }
    while i > 0
        invariant
            i <= n == poly.coeffs@.len(),
            (eval_sum(poly@, point@, i as nat) + pow(point@ as int, i as nat) * acc@) % (
            modulus() as int) == poly_eval(poly@, point@),
        decreases i,
    {
        i = i - 1;
        let ghost before = acc@;
        let scaled = mul_fr(&acc, point);
        let c = poly.coeffs[i];
        acc = add_fr(&scaled, &c);
        proof {
            lemma_add_mod_noop(
                (before * point@) as int,
                poly@[i as int] as int,
                modulus() as int,
            );
            use_type_invariant(&c);
            lemma_small_mod(poly@[i as int], modulus());
            lemma_horner_step(poly@, point@, i as nat, before, acc@);
        }
    }
    proof {
        lemma_pow0(point@ as int);
        use_type_invariant(&acc);
        lemma_small_mod(acc@, modulus());
    }
    acc
}

/// Subtracting `t` times the divisor's coefficient from the remainder,
/// while adding it to the product, keeps their sum: `rk2` is the new
/// remainder coefficient.
proof fn lemma_division_step(pc: int, t: nat, rk: nat, rk2: nat)
    requires
        rk2 == field_sub(rk, t % modulus()),
    ensures
        (pc + t + rk2) % (modulus() as int) == (pc + rk) % (modulus() as int),
{
    let m = modulus() as int;
    let tm = (t % modulus()) as int;
    lemma_add_mod_noop(pc + t, rk - tm, m);
    lemma_add_mod_noop(pc + t, (rk - tm) % m, m);
    lemma_mod_twice(rk - tm, m);
    lemma_fundamental_div_mod(t as int, m);
    lemma_mod_multiples_vanish(t as int / m, pc + rk, m);
}

/// The quotient coefficient clears the remainder's top coefficient `x`:
/// with `c` the residue of `x / lead`, `x - c * lead` is 0 in the field.
proof fn lemma_top_cancels(x: nat, lead: nat, inv: nat, c: nat)
    requires
        x < modulus(),
        field_mul(lead, inv) == 1,
        c == field_mul(x, inv),
    ensures
        field_sub(x, field_mul(c, lead)) == 0,
{
    let m = modulus() as int;
    lemma_mul_mod_noop_general((x * inv) as int, lead as int, m);
    lemma_mul_mod_noop_general(x as int, (lead * inv) as int, m);
    assert((x * inv) * lead == x * (lead * inv)) by (nonlinear_arith);
    assert(x * 1 == x) by (nonlinear_arith);
    lemma_small_mod(x, modulus());
    lemma_small_mod(0, modulus());
}

/// The quotient of `dividend` by `divisor`, by long division. The
/// remainder is dropped. A divisor whose leading coefficient is zero is
/// refused: its degree is not what its length says.
#[verifier::loop_isolation(false)]
pub fn create_divided_poly(dividend: &Poly, divisor: &Poly) -> (r: Result<Poly, Error>)
    ensures
        divisor@.len() == 0 || dividend@.len() < divisor@.len() ==> r == Err::<Poly, Error>(
            Error::InvalidDivision,
        ),
        1 <= divisor@.len() <= dividend@.len() && divisor@.last() == 0 ==> r == Err::<
            Poly,
            Error,
        >(Error::DivisionByZero),
        1 <= divisor@.len() <= dividend@.len() && divisor@.last() != 0 ==> {
            &&& r is Ok
            &&& r->Ok_0@.len() == dividend@.len() - divisor@.len() + 1
            &&& is_quotient(dividend@, divisor@, r->Ok_0@)
        },
{
    let n = dividend.coeffs.len();
    let m = divisor.coeffs.len();
    if m == 0 || n < m {
        return Err(Error::InvalidDivision);
    }
    let lead = divisor.coeffs[m - 1];
    let inv = match inverse_fr(&lead) {
        Ok(inv) => inv,
        Err(_) => {
            return Err(Error::DivisionByZero);
        },
    };
    let len = n - m + 1;
    let ghost a = dividend@;
    let ghost b = divisor@;
    let ghost p = modulus() as int;

    let zero = u64_to_fr(0);
    let mut quot: Vec<Fr> = Vec::with_capacity(len);
    while quot.len() < len
        invariant
            quot@.len() <= len,
            forall|i: int| 0 <= i < quot@.len() ==> (#[trigger] quot@[i])@ == 0,
        decreases len - quot@.len(),
    {
        quot.push(zero);
    }
    let mut rem: Vec<Fr> = Vec::with_capacity(n);
    while rem.len() < n
        invariant
            rem@.len() <= n,
            forall|i: int| 0 <= i < rem@.len() ==> (#[trigger] rem@[i])@ == a[i],
            forall|i: int| 0 <= i < rem@.len() ==> (#[trigger] rem@[i])@ < modulus(),
        decreases n - rem@.len(),
    {
        let c = dividend.coeffs[rem.len()];
        proof {
            use_type_invariant(&c);
        }
        rem.push(c);
    }
    proof {
        assert forall|k: int| 0 <= k < n implies #[trigger] a[k] == (product_coeff(
            values(quot@),
            b,
            k,
        ) + values(rem@)[k]) % p by {
            lemma_conv_sum_zero(values(quot@), b, k, len as nat);
            assert(rem@[k]@ == a[k]);
            lemma_small_mod(a[k], modulus());
        }
    }
    let mut t = len;
    while t > 0
        invariant
            t <= len,
            quot@.len() == len,
            rem@.len() == n,
            is_reduced(values(quot@)),
            is_reduced(values(rem@)),
            forall|k: int|
                0 <= k < n ==> #[trigger] a[k] == (product_coeff(values(quot@), b, k) + values(
                    rem@,
                )[k]) % p,
            forall|k: int| t + m - 1 <= k < n ==> #[trigger] values(rem@)[k] == 0,
            forall|i: int| 0 <= i < t ==> #[trigger] values(quot@)[i] == 0,
        decreases t,
    {
        let d = t - 1;
        let ghost q0 = values(quot@);
        let ghost r0 = values(rem@);
        let top = rem[d + m - 1];
        let c = mul_fr(&top, &inv);
        quot.set(d, c);
        let ghost q1 = values(quot@);
        proof {
            use_type_invariant(&c);
            use_type_invariant(&top);
            assert(q1 =~= q0.update(d as int, c@));
        }
        let mut i: usize = 0;
        while i < m
            invariant
                i <= m,
                rem@.len() == n,
                is_reduced(values(rem@)),
                forall|k: int|
                    d <= k < d + i ==> #[trigger] values(rem@)[k] == field_sub(
                        r0[k],
                        field_mul(c@, b[k - d]),
                    ),
                forall|k: int|
                    0 <= k < d || d + i <= k < n ==> #[trigger] values(rem@)[k] == r0[k],
            decreases m - i,
        {
            let ghost before = values(rem@);
            let bi = divisor.coeffs[i];
            let prod = mul_fr(&c, &bi);
            let cur = rem[d + i];
            let next = sub_fr(&cur, &prod);
            rem.set(d + i, next);
            proof {
                use_type_invariant(&next);
                assert(values(rem@) =~= before.update(d + i, next@));
                assert(bi@ == b[i as int]);
                assert(cur@ == before[d + i]);
                assert(before[d + i] == r0[d + i]);
            }
            i = i + 1;
        }
        proof {
            let r1 = values(rem@);
            assert forall|k: int| 0 <= k < n implies #[trigger] a[k] == (product_coeff(q1, b, k)
                + r1[k]) % p by {
                lemma_conv_sum_difference(q1, q0, b, k, d as int, len as nat);
                let cb = coeff(b, k - d);
                assert((c@ - 0) * cb == c@ * cb) by (nonlinear_arith);
                assert(a[k] == (product_coeff(q0, b, k) + r0[k]) % p);
                if d <= k < d + m {
                    lemma_division_step(product_coeff(q0, b, k), c@ * cb, r0[k], r1[k]);
                } else {
                    assert(c@ * cb == 0) by (nonlinear_arith)
                        requires
                            cb == 0,
                    ;
                }
            }
            assert forall|k: int| d + m - 1 <= k < n implies #[trigger] r1[k] == 0 by {
                if k == d + m - 1 {
                    lemma_top_cancels(r0[k], lead@, inv@, c@);
                } else {
                    assert(r0[k] == 0);
                }
            }
        }
        t = d;
    }
    let quotient = Poly { coeffs: quot };
    proof {
        let q = quotient@;
        let r1 = values(rem@);
        let r = r1.subrange(0, m - 1);
        assert forall|k: int| 0 <= k < a.len() implies #[trigger] a[k] == (product_coeff(q, b, k)
            + coeff(r, k)) % p by {
            if k >= m - 1 {
                assert(r1[k] == 0);
            }
        }
        assert(is_division(a, b, q, r));
    }
    Ok(quotient)
}

/// The largest `scale` for which a polynomial of `2^scale` coefficients can
/// be created.
pub const MAX_SCALE: u64 = 24;

/// Divides a random polynomial of `2^scale` coefficients by a random one of
/// half that length, both normalized to their full degree, and says
/// whether that went through. It does for every scale from 1 to
/// [`MAX_SCALE`]; outside of that one of the two polynomials cannot be
/// created.
pub fn poly_division_in_finite_field(scale: u64) -> (r: Result<(), Error>)
    ensures
        1 <= scale <= MAX_SCALE ==> r is Ok,
        !(1 <= scale <= MAX_SCALE) ==> r == Err::<(), Error>(Error::AllocationError),
{
    if scale == 0 || scale > MAX_SCALE {
        return Err(Error::AllocationError);
    }
    let dividend_length: u64 = 1u64 << scale;
    let divisor_length: u64 = dividend_length / 2;
    assert(2 <= dividend_length <= 0x100_0000) by (bit_vector)
        requires
            1 <= scale <= 24,
            dividend_length == 1u64 << scale,
    ;
    let mut dividend = match create_poly(dividend_length) {
        Ok(p) => p,
        Err(e) => {
            return Err(e);
        },
    };
    let mut divisor = match create_poly(divisor_length) {
        Ok(p) => p,
        Err(e) => {
            return Err(e);
        },
    };
    match randomize_poly_coefficients(&mut dividend, dividend_length) {
        Ok(()) => {},
        Err(e) => {
            return Err(e);
        },
    }
    match randomize_poly_coefficients(&mut divisor, divisor_length) {
        Ok(()) => {},
        Err(e) => {
            return Err(e);
        },
    }
    match check_poly_order(&mut dividend, dividend_length) {
        Ok(()) => {},
        Err(e) => {
            return Err(e);
        },
    }
    match check_poly_order(&mut divisor, divisor_length) {
        Ok(()) => {},
        Err(e) => {
            return Err(e);
        },
    }
    let outcome = create_divided_poly(&dividend, &divisor);
    destroy_poly(&mut dividend);
    destroy_poly(&mut divisor);
    match outcome {
        Ok(mut quotient) => {
            destroy_poly(&mut quotient);
            Ok(())
        },
        Err(e) => Err(e),
    }
}

} // verus!
