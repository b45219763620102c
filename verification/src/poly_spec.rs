//! What the operations on polynomials compute, over sequences of residues:
//! coefficient `i` of a sequence multiplies `x^i`.

use crate::field_spec::{lemma_field_cancel, modulus};
use vstd::arithmetic::div_mod::lemma_mod_equivalence;
use vstd::arithmetic::power::pow;
use vstd::prelude::*;

verus! {

/// Every coefficient lies below the field's order.
pub open spec fn is_reduced(c: Seq<nat>) -> bool {
    forall|i: int| 0 <= i < c.len() ==> #[trigger] c[i] < modulus()
}

/// Coefficient `i` of a polynomial: 0 beyond its length.
pub open spec fn coeff(c: Seq<nat>, i: int) -> nat {
    if 0 <= i < c.len() {
        c[i]
    } else {
        0
    }
}

/// The integer `c[0] + c[1] * x + ... + c[n-1] * x^(n-1)`.
pub open spec fn eval_sum(c: Seq<nat>, x: nat, n: nat) -> int
    decreases n,
{
    if n == 0 {
        0
    } else {
        eval_sum(c, x, (n - 1) as nat) + c[n - 1] * pow(x as int, (n - 1) as nat)
    }
}

/// The value of a polynomial at `x`, in the field.
pub open spec fn poly_eval(c: Seq<nat>, x: nat) -> nat {
    (eval_sum(c, x, c.len()) % (modulus() as int)) as nat
}

/// What normalization makes of a polynomial's first `length` coefficients:
/// a zero at index `length - 1` becomes 1.
pub open spec fn normalized(c: Seq<nat>, length: int) -> Seq<nat> {
    if c[length - 1] == 0 {
        c.update(length - 1, 1)
    } else {
        c
    }
}

/// Normalizing twice is normalizing once.
pub proof fn lemma_normalized_idempotent(c: Seq<nat>, length: int)
    requires
        1 <= length <= c.len(),
    ensures
        normalized(normalized(c, length), length) == normalized(c, length),
        normalized(c, length)[length - 1] != 0,
        normalized(c, length).len() == c.len(),
{
}

/// The sum of `a[i] * b[k - i]` over the indices `i` below `n`.
pub open spec fn conv_sum(a: Seq<nat>, b: Seq<nat>, k: int, n: nat) -> int
    decreases n,
{
    if n == 0 {
        0
    } else {
        conv_sum(a, b, k, (n - 1) as nat) + coeff(a, n - 1) * coeff(b, k - (n - 1))
    }
}

/// Coefficient `k` of the product of two polynomials, as an integer.
pub open spec fn product_coeff(a: Seq<nat>, b: Seq<nat>, k: int) -> int {
    conv_sum(a, b, k, a.len())
}

/// `q` and `r` are the quotient and the remainder of `a` by `b`: in the
/// field `a = q * b + r`, and `r` is one coefficient shorter than `b`.
pub open spec fn is_division(a: Seq<nat>, b: Seq<nat>, q: Seq<nat>, r: Seq<nat>) -> bool {
    &&& 1 <= b.len() <= a.len()
    &&& q.len() == a.len() - b.len() + 1
    &&& r.len() == b.len() - 1
    &&& is_reduced(q)
    &&& is_reduced(r)
    &&& forall|k: int|
        0 <= k < a.len() ==> #[trigger] a[k] == (product_coeff(q, b, k) + coeff(r, k)) % (
        modulus() as int)
}

/// `q` is the quotient of `a` by `b`, whatever the remainder.
pub open spec fn is_quotient(a: Seq<nat>, b: Seq<nat>, q: Seq<nat>) -> bool {
    exists|r: Seq<nat>| is_division(a, b, q, r)
}

/// `b` times `q` is `a`, coefficient by coefficient, in the field.
pub open spec fn is_exact_quotient(a: Seq<nat>, b: Seq<nat>, q: Seq<nat>) -> bool {
    &&& 1 <= b.len() <= a.len()
    &&& q.len() == a.len() - b.len() + 1
    &&& is_reduced(q)
    &&& forall|k: int|
        0 <= k < a.len() ==> #[trigger] a[k] == product_coeff(q, b, k) % (modulus() as int)
}

/// Two polynomials that differ at index `j` alone, as far as `b` can see,
/// have products with `b` that differ by that one term.
pub proof fn lemma_conv_sum_difference(
    q1: Seq<nat>,
    q2: Seq<nat>,
    b: Seq<nat>,
    k: int,
    j: int,
    n: nat,
)
    requires
        q1.len() == q2.len(),
        0 <= j < q1.len(),
        n <= q1.len(),
        forall|i: int|
            0 <= i < n && i != j ==> #[trigger] q1[i] == q2[i] || coeff(b, k - i) == 0,
    ensures
        conv_sum(q1, b, k, n) - conv_sum(q2, b, k, n) == if j < n {
            (q1[j] - q2[j]) * coeff(b, k - j)
        } else {
            0
        },
    decreases n,
{
    if n > 0 {
        let i = n - 1;
        lemma_conv_sum_difference(q1, q2, b, k, j, (n - 1) as nat);
        let cb = coeff(b, k - i) as int;
        if i == j {
            assert(q1[i] * cb - q2[i] * cb == (q1[i] - q2[i]) * cb) by (nonlinear_arith);
        } else {
            assert(q1[i] == q2[i] || coeff(b, k - i) == 0);
            assert(q1[i] * cb == q2[i] * cb) by (nonlinear_arith)
                requires
                    q1[i] == q2[i] || cb == 0,
            ;
        }
    }
}

/// The product of the zero polynomial with any other is zero.
pub proof fn lemma_conv_sum_zero(q: Seq<nat>, b: Seq<nat>, k: int, n: nat)
    requires
        n <= q.len(),
        forall|i: int| 0 <= i < n ==> #[trigger] q[i] == 0,
    ensures
        conv_sum(q, b, k, n) == 0,
    decreases n,
{
    if n > 0 {
        lemma_conv_sum_zero(q, b, k, (n - 1) as nat);
        assert(q[n - 1] == 0);
        assert(0 * coeff(b, k - (n - 1)) == 0) by (nonlinear_arith);
    }
}

/// Two divisions of `a` by `b` have the same quotient coefficients from
/// index `j` on.
proof fn lemma_quotients_agree(
    a: Seq<nat>,
    b: Seq<nat>,
    q1: Seq<nat>,
    r1: Seq<nat>,
    q2: Seq<nat>,
    r2: Seq<nat>,
    j: int,
)
    requires
        is_division(a, b, q1, r1),
        is_division(a, b, q2, r2),
        0 < b.last() < modulus(),
        0 <= j <= q1.len(),
    ensures
        forall|i: int| j <= i < q1.len() ==> #[trigger] q1[i] == q2[i],
    decreases q1.len() - j,
{
    if j < q1.len() {
        lemma_quotients_agree(a, b, q1, r1, q2, r2, j + 1);
        let m = modulus() as int;
        let k = j + b.len() - 1;
        let lead = b.last();
        let len = q1.len();
        assert forall|i: int| 0 <= i < len && i != j implies #[trigger] q1[i] == q2[i] || coeff(
            b,
            k - i,
        ) == 0 by {
            if i > j {
                assert(q1[i] == q2[i]);
            }
        }
        lemma_conv_sum_difference(q1, q2, b, k, j, len);
        let pc1 = product_coeff(q1, b, k);
        let pc2 = product_coeff(q2, b, k);
        assert(coeff(b, k - j) == lead);
        assert(a[k] == (pc1 + coeff(r1, k)) % m);
        assert(a[k] == (pc2 + coeff(r2, k)) % m);
        assert(pc1 % m == pc2 % m);
        let x = q1[j];
        let y = q2[j];
        assert(pc1 - pc2 == x * lead - y * lead) by (nonlinear_arith)
            requires
                pc1 - pc2 == (x - y) * lead,
        ;
        lemma_mod_equivalence(pc1, pc2, m);
        lemma_mod_equivalence((x * lead) as int, (y * lead) as int, m);
        lemma_field_cancel(x, y, lead);
    }
}

/// Division leaves one quotient: two quotients of `a` by `b`, whose
/// leading coefficient is not zero, are equal.
pub proof fn lemma_quotient_unique(a: Seq<nat>, b: Seq<nat>, q1: Seq<nat>, q2: Seq<nat>)
    requires
        is_quotient(a, b, q1),
        is_quotient(a, b, q2),
        0 < b.last() < modulus(),
    ensures
        q1 == q2,
{
    let r1 = choose|r: Seq<nat>| is_division(a, b, q1, r);
    let r2 = choose|r: Seq<nat>| is_division(a, b, q2, r);
    lemma_quotients_agree(a, b, q1, r1, q2, r2, 0);
    assert(q1 =~= q2);
}

/// Where `b` divides `a` exactly, the quotient times `b` gives `a` back:
/// whatever `q0` makes `q0 * b = a` is the quotient, and multiplying the
/// quotient by `b` reproduces every coefficient of `a`.
pub proof fn lemma_exact_division_round_trip(
    a: Seq<nat>,
    b: Seq<nat>,
    q0: Seq<nat>,
    q: Seq<nat>,
)
    requires
        is_exact_quotient(a, b, q0),
        is_quotient(a, b, q),
        0 < b.last() < modulus(),
    ensures
        q == q0,
        is_exact_quotient(a, b, q),
{
    let zeros = Seq::new((b.len() - 1) as nat, |i: int| 0nat);
    assert(is_division(a, b, q0, zeros)) by {
        assert forall|k: int| 0 <= k < a.len() implies #[trigger] a[k] == (product_coeff(
            q0,
            b,
            k,
        ) + coeff(zeros, k)) % (modulus() as int) by {
            assert(coeff(zeros, k) == 0);
        }
    }
    lemma_quotient_unique(a, b, q0, q);
}

} // verus!
