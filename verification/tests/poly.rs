use kzg::finite::{
    add_fr, fr_from_uint64s, fr_to_uint64s, is_zero_fr, mul_fr, rand_fr, sub_fr, u64_to_fr,
};
use kzg::poly::{
    change_poly_coeff, check_poly_order, create_divided_poly, create_poly, destroy_poly,
    eval_poly_at, poly_coeff_at, poly_division_in_finite_field, randomize_poly_coefficients,
    set_poly_coefficients, MAX_POLY_LENGTH, MAX_SCALE,
};
use kzg::{Error, Fr, Poly};

fn poly_of(coeffs: &[Fr]) -> Poly {
    let mut p = create_poly(coeffs.len() as u64).unwrap();
    for (i, c) in coeffs.iter().enumerate() {
        change_poly_coeff(&mut p, i as isize, *c).unwrap();
    }
    p
}

fn poly_of_u64(coeffs: &[u64]) -> Poly {
    let elements: Vec<Fr> = coeffs.iter().map(|n| u64_to_fr(*n)).collect();
    poly_of(&elements)
}

fn coeffs_of(p: &Poly) -> Vec<Fr> {
    (0..p.length())
        .map(|i| poly_coeff_at(p, i as isize).unwrap())
        .collect()
}

fn product(a: &Poly, b: &Poly) -> Vec<Fr> {
    let a = coeffs_of(a);
    let b = coeffs_of(b);
    let mut out = vec![u64_to_fr(0); a.len() + b.len() - 1];
    for (i, x) in a.iter().enumerate() {
        for (j, y) in b.iter().enumerate() {
            out[i + j] = add_fr(&out[i + j], &mul_fr(x, y));
        }
    }
    out
}

fn minus(n: u64) -> Fr {
    sub_fr(&u64_to_fr(0), &u64_to_fr(n))
}

#[test]
fn create_gives_zero_coefficients() {
    let p = create_poly(5).unwrap();
    assert_eq!(p.length(), 5);
    for i in 0..5 {
        assert!(is_zero_fr(&poly_coeff_at(&p, i).unwrap()));
    }
}

#[test]
fn create_refuses_zero_and_oversized_lengths() {
    assert_eq!(create_poly(0).err(), Some(Error::AllocationError));
    assert_eq!(
        create_poly(MAX_POLY_LENGTH + 1).err(),
        Some(Error::AllocationError)
    );
    assert_eq!(create_poly(u64::MAX).err(), Some(Error::AllocationError));
    assert_eq!(create_poly(1).unwrap().length(), 1);
}

#[test]
fn default_has_no_coefficients() {
    let p = Poly::default();
    assert_eq!(p.length(), 0);
    assert_eq!(poly_coeff_at(&p, 0), Err(Error::IndexOutOfRange));
    assert!(is_zero_fr(&eval_poly_at(&p, &u64_to_fr(3))));
}

#[test]
fn destroy_releases_and_can_be_repeated() {
    let mut p = poly_of_u64(&[1, 2, 3]);
    destroy_poly(&mut p);
    assert_eq!(p.length(), 0);
    assert_eq!(poly_coeff_at(&p, 0), Err(Error::IndexOutOfRange));
    destroy_poly(&mut p);
    assert_eq!(p.length(), 0);
}

#[test]
fn set_then_get() {
    let mut p = create_poly(4).unwrap();
    assert_eq!(change_poly_coeff(&mut p, 2, u64_to_fr(9)), Ok(()));
    assert_eq!(poly_coeff_at(&p, 2), Ok(u64_to_fr(9)));
    assert_eq!(poly_coeff_at(&p, 0), Ok(u64_to_fr(0)));
    assert_eq!(poly_coeff_at(&p, 1), Ok(u64_to_fr(0)));
    assert_eq!(poly_coeff_at(&p, 3), Ok(u64_to_fr(0)));
    assert_eq!(p.length(), 4);
}

#[test]
fn get_out_of_range_fails() {
    let p = poly_of_u64(&[1, 2, 3]);
    assert_eq!(poly_coeff_at(&p, 3), Err(Error::IndexOutOfRange));
    assert_eq!(poly_coeff_at(&p, 4), Err(Error::IndexOutOfRange));
    assert_eq!(poly_coeff_at(&p, isize::MAX), Err(Error::IndexOutOfRange));
    assert_eq!(poly_coeff_at(&p, -1), Err(Error::IndexOutOfRange));
    assert_eq!(poly_coeff_at(&p, isize::MIN), Err(Error::IndexOutOfRange));
    assert_eq!(poly_coeff_at(&p, 2), Ok(u64_to_fr(3)));
}

#[test]
fn set_out_of_range_fails_and_changes_nothing() {
    let mut p = poly_of_u64(&[1, 2, 3]);
    assert_eq!(
        change_poly_coeff(&mut p, 3, u64_to_fr(7)),
        Err(Error::IndexOutOfRange)
    );
    assert_eq!(
        change_poly_coeff(&mut p, -1, u64_to_fr(7)),
        Err(Error::IndexOutOfRange)
    );
    assert_eq!(coeffs_of(&p), vec![u64_to_fr(1), u64_to_fr(2), u64_to_fr(3)]);
}

#[test]
fn evaluate_one_plus_x_squared_at_two() {
    let p = poly_of_u64(&[1, 0, 1]);
    assert_eq!(eval_poly_at(&p, &u64_to_fr(2)), u64_to_fr(5));
}

#[test]
fn evaluate_exact_values() {
    let p = poly_of_u64(&[3, 1, 4, 1, 5]);
    assert_eq!(eval_poly_at(&p, &u64_to_fr(10)), u64_to_fr(51413));
    assert_eq!(eval_poly_at(&p, &u64_to_fr(0)), u64_to_fr(3));
    assert_eq!(eval_poly_at(&p, &u64_to_fr(1)), u64_to_fr(14));
    let x = fr_from_uint64s(&[
        0x2233445566778899,
        0xaabbccddeeff0011,
        0xfedcba9876543210,
        0x123456789abcdef0,
    ]);
    assert_eq!(
        fr_to_uint64s(&eval_poly_at(&p, &x)),
        [
            0xa206aa6832c3688a,
            0x57b9b8e9326c937d,
            0x54d9ee2811361b54,
            0x503ece03547cb0d8,
        ]
    );
}

#[test]
fn evaluate_constant_polynomial() {
    let p = poly_of_u64(&[42]);
    assert_eq!(eval_poly_at(&p, &rand_fr()), u64_to_fr(42));
}

#[test]
fn evaluate_matches_the_sum_of_terms() {
    let mut p = create_poly(6).unwrap();
    randomize_poly_coefficients(&mut p, 6).unwrap();
    let x = rand_fr();
    let mut sum = u64_to_fr(0);
    let mut power = u64_to_fr(1);
    for c in coeffs_of(&p) {
        sum = add_fr(&sum, &mul_fr(&c, &power));
        power = mul_fr(&power, &x);
    }
    assert_eq!(eval_poly_at(&p, &x), sum);
}

#[test]
fn normalize_replaces_a_zero_leading_coefficient() {
    let mut p = poly_of_u64(&[4, 5, 0]);
    assert_eq!(check_poly_order(&mut p, 3), Ok(()));
    assert_eq!(coeffs_of(&p), vec![u64_to_fr(4), u64_to_fr(5), u64_to_fr(1)]);
}

#[test]
fn normalize_keeps_a_nonzero_leading_coefficient() {
    let mut p = poly_of_u64(&[4, 5, 6]);
    assert_eq!(check_poly_order(&mut p, 3), Ok(()));
    assert_eq!(coeffs_of(&p), vec![u64_to_fr(4), u64_to_fr(5), u64_to_fr(6)]);
}

#[test]
fn normalize_twice_is_normalize_once() {
    for coeffs in [[4u64, 5, 0], [4, 5, 6], [0, 0, 0]] {
        let mut once = poly_of_u64(&coeffs);
        check_poly_order(&mut once, 3).unwrap();
        let mut twice = poly_of_u64(&coeffs);
        check_poly_order(&mut twice, 3).unwrap();
        check_poly_order(&mut twice, 3).unwrap();
        assert_eq!(coeffs_of(&once), coeffs_of(&twice));
    }
}

#[test]
fn normalize_at_a_shorter_length() {
    let mut p = poly_of_u64(&[4, 0, 0]);
    assert_eq!(check_poly_order(&mut p, 2), Ok(()));
    assert_eq!(coeffs_of(&p), vec![u64_to_fr(4), u64_to_fr(1), u64_to_fr(0)]);
}

#[test]
fn normalize_refuses_lengths_out_of_range() {
    let mut p = poly_of_u64(&[4, 5, 0]);
    assert_eq!(check_poly_order(&mut p, 0), Err(Error::IndexOutOfRange));
    assert_eq!(check_poly_order(&mut p, 4), Err(Error::IndexOutOfRange));
    assert_eq!(coeffs_of(&p), vec![u64_to_fr(4), u64_to_fr(5), u64_to_fr(0)]);
}

#[test]
fn set_coefficients_from_words() {
    let mut p = poly_of_u64(&[9, 9, 9, 9]);
    let words = vec![
        [5, 0, 0, 0],
        // the field's order
        [
            0xffffffff00000001,
            0x53bda402fffe5bfe,
            0x3339d80809a1d805,
            0x73eda753299d7d48,
        ],
        [u64::MAX, u64::MAX, u64::MAX, u64::MAX],
    ];
    assert_eq!(set_poly_coefficients(&mut p, 3, &words), Ok(()));
    assert_eq!(poly_coeff_at(&p, 0), Ok(u64_to_fr(5)));
    assert_eq!(poly_coeff_at(&p, 1), Ok(u64_to_fr(0)));
    assert_eq!(
        fr_to_uint64s(&poly_coeff_at(&p, 2).unwrap()),
        [
            0x00000001fffffffd,
            0x5884b7fa00034802,
            0x998c4fefecbc4ff5,
            0x1824b159acc5056f,
        ]
    );
    assert_eq!(poly_coeff_at(&p, 3), Ok(u64_to_fr(9)));
}

#[test]
fn set_coefficients_refuses_lengths_out_of_range() {
    let mut p = poly_of_u64(&[1, 2]);
    let words = vec![[5, 0, 0, 0]; 3];
    assert_eq!(
        set_poly_coefficients(&mut p, 3, &words),
        Err(Error::IndexOutOfRange)
    );
    let few = vec![[5, 0, 0, 0]; 1];
    assert_eq!(
        set_poly_coefficients(&mut p, 2, &few),
        Err(Error::IndexOutOfRange)
    );
    assert_eq!(coeffs_of(&p), vec![u64_to_fr(1), u64_to_fr(2)]);
    assert_eq!(set_poly_coefficients(&mut p, 1, &few), Ok(()));
    assert_eq!(coeffs_of(&p), vec![u64_to_fr(5), u64_to_fr(2)]);
}

#[test]
fn randomize_fills_the_given_prefix() {
    let mut p = poly_of_u64(&[0, 0, 0, 0, 0, 0, 7, 8]);
    assert_eq!(randomize_poly_coefficients(&mut p, 6), Ok(()));
    assert_eq!(p.length(), 8);
    assert_eq!(poly_coeff_at(&p, 6), Ok(u64_to_fr(7)));
    assert_eq!(poly_coeff_at(&p, 7), Ok(u64_to_fr(8)));
    let head = coeffs_of(&p);
    assert!(head[..6].iter().any(|c| !is_zero_fr(c)));
    assert!(head[..6].iter().any(|c| *c != head[0]));
}

#[test]
fn randomize_refuses_a_length_beyond_the_polynomial() {
    let mut p = poly_of_u64(&[1, 2, 3]);
    assert_eq!(
        randomize_poly_coefficients(&mut p, 4),
        Err(Error::IndexOutOfRange)
    );
    assert_eq!(coeffs_of(&p), vec![u64_to_fr(1), u64_to_fr(2), u64_to_fr(3)]);
    assert_eq!(randomize_poly_coefficients(&mut p, 0), Ok(()));
    assert_eq!(coeffs_of(&p), vec![u64_to_fr(1), u64_to_fr(2), u64_to_fr(3)]);
}

#[test]
fn divide_x_cubed_minus_one_by_x_minus_one() {
    let dividend = poly_of(&[minus(1), u64_to_fr(0), u64_to_fr(0), u64_to_fr(1)]);
    let divisor = poly_of(&[minus(1), u64_to_fr(1)]);
    let q = create_divided_poly(&dividend, &divisor).unwrap();
    assert_eq!(coeffs_of(&q), vec![u64_to_fr(1), u64_to_fr(1), u64_to_fr(1)]);
}

#[test]
fn divide_with_a_remainder_gives_the_quotient() {
    // 2x^2 + 3x + 5 = (x + 1)(2x + 1) + 4
    let dividend = poly_of_u64(&[5, 3, 2]);
    let divisor = poly_of_u64(&[1, 1]);
    let q = create_divided_poly(&dividend, &divisor).unwrap();
    assert_eq!(coeffs_of(&q), vec![u64_to_fr(1), u64_to_fr(2)]);
}

#[test]
fn divide_exact_values() {
    let dividend = poly_of_u64(&[1, 2, 3, 4, 5, 6, 7, 8]);
    let divisor = poly_of_u64(&[1, 2, 3, 4]);
    let q = create_divided_poly(&dividend, &divisor).unwrap();
    let words: Vec<[u64; 4]> = coeffs_of(&q).iter().map(fr_to_uint64s).collect();
    assert_eq!(
        words,
        vec![
            [
                0x7cffffff7d000001,
                0xb9da0aed88ff2913,
                0xf236998c1cedd18a,
                0x3b529c9f8e4b971b,
            ],
            [
                0x63ffffff64000001,
                0x3f078ff1d3ff000f,
                0xff373fa4e5de9fa3,
                0x46a4d1f6ad5bf857,
            ],
            [
                0x4fffffff50000001,
                0xa99260c20ffedf3f,
                0xa337c485869f4483,
                0x4fb363092c9c4621,
            ],
            [
                0x3fffffff40000001,
                0xfece3b023ffec4ff,
                0x266b620607396203,
                0x56f23d7e5f361df6,
            ],
            [2, 0, 0, 0],
        ]
    );
}

#[test]
fn divide_by_a_constant() {
    let dividend = poly_of_u64(&[6, 0, 4]);
    let divisor = poly_of_u64(&[2]);
    let q = create_divided_poly(&dividend, &divisor).unwrap();
    assert_eq!(coeffs_of(&q), vec![u64_to_fr(3), u64_to_fr(0), u64_to_fr(2)]);
}

#[test]
fn divide_equal_lengths() {
    let dividend = poly_of_u64(&[7, 9, 6]);
    let divisor = poly_of_u64(&[1, 1, 3]);
    let q = create_divided_poly(&dividend, &divisor).unwrap();
    assert_eq!(coeffs_of(&q), vec![u64_to_fr(2)]);
}

#[test]
fn divide_then_multiply_gives_the_dividend_back() {
    let mut quotient = create_poly(5).unwrap();
    randomize_poly_coefficients(&mut quotient, 5).unwrap();
    let mut divisor = create_poly(4).unwrap();
    randomize_poly_coefficients(&mut divisor, 4).unwrap();
    check_poly_order(&mut divisor, 4).unwrap();
    let dividend = poly_of(&product(&quotient, &divisor));
    assert_eq!(dividend.length(), 8);
    let q = create_divided_poly(&dividend, &divisor).unwrap();
    assert_eq!(coeffs_of(&q), coeffs_of(&quotient));
    assert_eq!(product(&q, &divisor), coeffs_of(&dividend));
}

#[test]
fn quotient_length_is_the_difference_plus_one() {
    for (n, m) in [(8u64, 4u64), (8, 1), (8, 8), (5, 2), (1, 1)] {
        let mut dividend = create_poly(n).unwrap();
        randomize_poly_coefficients(&mut dividend, n).unwrap();
        let mut divisor = create_poly(m).unwrap();
        randomize_poly_coefficients(&mut divisor, m).unwrap();
        check_poly_order(&mut divisor, m).unwrap();
        let q = create_divided_poly(&dividend, &divisor).unwrap();
        assert_eq!(q.length(), n - m + 1);
    }
}

#[test]
fn divide_leaves_its_operands_alone() {
    let dividend = poly_of_u64(&[1, 2, 3, 4]);
    let divisor = poly_of_u64(&[5, 6]);
    create_divided_poly(&dividend, &divisor).unwrap();
    assert_eq!(
        coeffs_of(&dividend),
        vec![u64_to_fr(1), u64_to_fr(2), u64_to_fr(3), u64_to_fr(4)]
    );
    assert_eq!(coeffs_of(&divisor), vec![u64_to_fr(5), u64_to_fr(6)]);
}

#[test]
fn divide_refuses_a_longer_divisor() {
    let dividend = poly_of_u64(&[1, 2]);
    let divisor = poly_of_u64(&[1, 2, 3]);
    assert_eq!(
        create_divided_poly(&dividend, &divisor).err(),
        Some(Error::InvalidDivision)
    );
}

#[test]
fn divide_refuses_empty_operands() {
    let empty = Poly::default();
    let some = poly_of_u64(&[1, 2]);
    assert_eq!(
        create_divided_poly(&some, &empty).err(),
        Some(Error::InvalidDivision)
    );
    assert_eq!(
        create_divided_poly(&empty, &some).err(),
        Some(Error::InvalidDivision)
    );
    assert_eq!(
        create_divided_poly(&empty, &empty).err(),
        Some(Error::InvalidDivision)
    );
}

#[test]
fn divide_refuses_a_zero_leading_coefficient() {
    let dividend = poly_of_u64(&[1, 2, 3]);
    let divisor = poly_of_u64(&[1, 0]);
    assert_eq!(
        create_divided_poly(&dividend, &divisor).err(),
        Some(Error::DivisionByZero)
    );
}

#[test]
fn division_scenario_of_scale_three() {
    let mut dividend = create_poly(8).unwrap();
    let mut divisor = create_poly(4).unwrap();
    randomize_poly_coefficients(&mut dividend, 8).unwrap();
    randomize_poly_coefficients(&mut divisor, 4).unwrap();
    check_poly_order(&mut dividend, 8).unwrap();
    check_poly_order(&mut divisor, 4).unwrap();
    let q = create_divided_poly(&dividend, &divisor).unwrap();
    assert_eq!(q.length(), 5);
    assert_eq!(poly_division_in_finite_field(3), Ok(()));
}

#[test]
fn division_scenario_by_scale() {
    assert_eq!(poly_division_in_finite_field(1), Ok(()));
    assert_eq!(poly_division_in_finite_field(5), Ok(()));
    assert_eq!(
        poly_division_in_finite_field(0),
        Err(Error::AllocationError)
    );
    assert_eq!(
        poly_division_in_finite_field(MAX_SCALE + 1),
        Err(Error::AllocationError)
    );
    assert_eq!(
        poly_division_in_finite_field(64),
        Err(Error::AllocationError)
    );
}
