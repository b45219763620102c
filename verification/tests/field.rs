use kzg::finite::{
    add_fr, fr_from_uint64s, fr_to_uint64s, inverse_fr, is_zero_fr, mul_fr, pow_fr, rand_fr,
    sub_fr, u64_to_fr,
};
use kzg::{Error, Fr};

const MODULUS: [u64; 4] = [
    0xffffffff00000001,
    0x53bda402fffe5bfe,
    0x3339d80809a1d805,
    0x73eda753299d7d48,
];
const MODULUS_MINUS_ONE: [u64; 4] = [
    0xffffffff00000000,
    0x53bda402fffe5bfe,
    0x3339d80809a1d805,
    0x73eda753299d7d48,
];
const A: [u64; 4] = [
    0x2233445566778899,
    0xaabbccddeeff0011,
    0xfedcba9876543210,
    0x123456789abcdef0,
];
const B: [u64; 4] = [
    0x1100ffeeddccbbaa,
    0x9988776655443322,
    0x123456789abcdef0,
    0x0fedcba987654321,
];

#[test]
fn from_u64_keeps_small_values() {
    assert_eq!(fr_to_uint64s(&u64_to_fr(0)), [0, 0, 0, 0]);
    assert_eq!(fr_to_uint64s(&u64_to_fr(5)), [5, 0, 0, 0]);
    assert_eq!(fr_to_uint64s(&u64_to_fr(u64::MAX)), [u64::MAX, 0, 0, 0]);
}

#[test]
fn default_is_zero() {
    assert_eq!(Fr::default(), u64_to_fr(0));
    assert!(is_zero_fr(&Fr::default()));
}

#[test]
fn is_zero_only_for_zero() {
    assert!(is_zero_fr(&u64_to_fr(0)));
    assert!(!is_zero_fr(&u64_to_fr(1)));
    assert!(!is_zero_fr(&fr_from_uint64s(&[0, 1, 0, 0])));
    assert!(!is_zero_fr(&fr_from_uint64s(&[0, 0, 0, 1])));
    assert!(is_zero_fr(&fr_from_uint64s(&MODULUS)));
}

#[test]
fn words_are_reduced_modulo_the_order() {
    assert_eq!(fr_to_uint64s(&fr_from_uint64s(&A)), A);
    assert_eq!(fr_to_uint64s(&fr_from_uint64s(&MODULUS_MINUS_ONE)), MODULUS_MINUS_ONE);
    assert_eq!(fr_to_uint64s(&fr_from_uint64s(&MODULUS)), [0, 0, 0, 0]);
    assert_eq!(
        fr_to_uint64s(&fr_from_uint64s(&[
            0xffffffff00000002,
            0x53bda402fffe5bfe,
            0x3339d80809a1d805,
            0x73eda753299d7d48,
        ])),
        [1, 0, 0, 0]
    );
    // 2^256 - 1 is more than twice the order
    assert_eq!(
        fr_to_uint64s(&fr_from_uint64s(&[u64::MAX, u64::MAX, u64::MAX, u64::MAX])),
        [
            0x00000001fffffffd,
            0x5884b7fa00034802,
            0x998c4fefecbc4ff5,
            0x1824b159acc5056f,
        ]
    );
}

#[test]
fn addition_exact_value() {
    let a = fr_from_uint64s(&A);
    let b = fr_from_uint64s(&B);
    assert_eq!(
        fr_to_uint64s(&add_fr(&a, &b)),
        [
            0x3334444444444443,
            0x4444444444433333,
            0x1111111111111101,
            0x2222222222222212,
        ]
    );
    assert_eq!(add_fr(&a, &b), add_fr(&b, &a));
}

#[test]
fn addition_wraps_at_the_order() {
    let top = fr_from_uint64s(&MODULUS_MINUS_ONE);
    assert!(is_zero_fr(&add_fr(&top, &u64_to_fr(1))));
    assert_eq!(add_fr(&top, &u64_to_fr(3)), u64_to_fr(2));
    assert_eq!(
        fr_to_uint64s(&add_fr(&top, &top)),
        [
            0xfffffffeffffffff,
            0x53bda402fffe5bfe,
            0x3339d80809a1d805,
            0x73eda753299d7d48,
        ]
    );
}

#[test]
fn subtraction_exact_value() {
    let a = fr_from_uint64s(&A);
    let b = fr_from_uint64s(&B);
    assert_eq!(
        fr_to_uint64s(&sub_fr(&a, &b)),
        [
            0x1132446688aaccef,
            0x1133557799baccef,
            0xeca8641fdb975320,
            0x02468acf13579bcf,
        ]
    );
    assert_eq!(
        fr_to_uint64s(&sub_fr(&b, &a)),
        [
            0xeecdbb9877553312,
            0x428a4e8b66438f0f,
            0x469173e82e0a84e5,
            0x71a71c841645e178,
        ]
    );
}

#[test]
fn subtraction_wraps_below_zero() {
    assert_eq!(
        fr_to_uint64s(&sub_fr(&u64_to_fr(0), &u64_to_fr(1))),
        MODULUS_MINUS_ONE
    );
    assert!(is_zero_fr(&sub_fr(&u64_to_fr(7), &u64_to_fr(7))));
    assert_eq!(sub_fr(&u64_to_fr(9), &u64_to_fr(4)), u64_to_fr(5));
}

#[test]
fn subtraction_undoes_addition() {
    let a = fr_from_uint64s(&A);
    let b = fr_from_uint64s(&B);
    assert_eq!(sub_fr(&add_fr(&a, &b), &b), a);
}

#[test]
fn multiplication_exact_value() {
    let a = fr_from_uint64s(&A);
    let b = fr_from_uint64s(&B);
    assert_eq!(
        fr_to_uint64s(&mul_fr(&a, &b)),
        [
            0xf475733b93f6442d,
            0x73124dcd62cd9b64,
            0x1868f3c338bcc655,
            0x25418fb581deeaa3,
        ]
    );
    assert_eq!(mul_fr(&a, &b), mul_fr(&b, &a));
}

#[test]
fn multiplication_small_and_edge_values() {
    assert_eq!(mul_fr(&u64_to_fr(6), &u64_to_fr(7)), u64_to_fr(42));
    let a = fr_from_uint64s(&A);
    assert_eq!(mul_fr(&a, &u64_to_fr(1)), a);
    assert!(is_zero_fr(&mul_fr(&a, &u64_to_fr(0))));
    // (-1) * (-1) = 1
    let top = fr_from_uint64s(&MODULUS_MINUS_ONE);
    assert_eq!(mul_fr(&top, &top), u64_to_fr(1));
    // 2^64 * 2^64 = 2^128
    let w = fr_from_uint64s(&[0, 1, 0, 0]);
    assert_eq!(fr_to_uint64s(&mul_fr(&w, &w)), [0, 0, 1, 0]);
}

#[test]
fn multiplication_distributes_over_addition() {
    let a = fr_from_uint64s(&A);
    let b = fr_from_uint64s(&B);
    let c = u64_to_fr(0xdeadbeef);
    assert_eq!(
        mul_fr(&a, &add_fr(&b, &c)),
        add_fr(&mul_fr(&a, &b), &mul_fr(&a, &c))
    );
}

#[test]
fn power_exact_values() {
    let a = fr_from_uint64s(&A);
    assert_eq!(pow_fr(&a, &[0, 0, 0, 0]), u64_to_fr(1));
    assert_eq!(pow_fr(&a, &[1, 0, 0, 0]), a);
    assert_eq!(pow_fr(&u64_to_fr(2), &[10, 0, 0, 0]), u64_to_fr(1024));
    assert_eq!(
        fr_to_uint64s(&pow_fr(&a, &[0x10001, 0, 0, 0])),
        [
            0x473820f0a1af682d,
            0xc6f5025d43e56fc4,
            0x3116d734de862877,
            0x56bed45606701adc,
        ]
    );
    // 2^(2^64) is the square of 2^(2^63)
    let half = pow_fr(&u64_to_fr(2), &[1u64 << 63, 0, 0, 0]);
    assert_eq!(pow_fr(&u64_to_fr(2), &[0, 1, 0, 0]), mul_fr(&half, &half));
}

#[test]
fn seven_is_not_a_square() {
    // 7^((p-1)/2) = -1
    let e = [
        0x7fffffff80000000,
        0xa9ded2017fff2dff,
        0x199cec0404d0ec02,
        0x39f6d3a994cebea4,
    ];
    assert_eq!(fr_to_uint64s(&pow_fr(&u64_to_fr(7), &e)), MODULUS_MINUS_ONE);
    assert_eq!(pow_fr(&u64_to_fr(7), &MODULUS_MINUS_ONE), u64_to_fr(1));
}

#[test]
fn inverse_of_zero_is_refused() {
    assert_eq!(inverse_fr(&u64_to_fr(0)), Err(Error::DivisionByZero));
    assert_eq!(inverse_fr(&fr_from_uint64s(&MODULUS)), Err(Error::DivisionByZero));
}

#[test]
fn inverse_exact_values() {
    assert_eq!(inverse_fr(&u64_to_fr(1)), Ok(u64_to_fr(1)));
    assert_eq!(
        fr_to_uint64s(&inverse_fr(&u64_to_fr(2)).unwrap()),
        [
            0x7fffffff80000001,
            0xa9ded2017fff2dff,
            0x199cec0404d0ec02,
            0x39f6d3a994cebea4,
        ]
    );
    assert_eq!(
        fr_to_uint64s(&inverse_fr(&fr_from_uint64s(&A)).unwrap()),
        [
            0x3060172ca57a8910,
            0xb5f569b2941415ed,
            0xc4a82eb798975bf6,
            0x17c7b988ba7c9e5d,
        ]
    );
}

#[test]
fn inverse_law_on_samples() {
    let one = u64_to_fr(1);
    for n in [1u64, 2, 3, 7, 255, 65537, u64::MAX] {
        let a = u64_to_fr(n);
        let inv = inverse_fr(&a).unwrap();
        assert_eq!(mul_fr(&a, &inv), one);
    }
    for words in [A, B, MODULUS_MINUS_ONE] {
        let a = fr_from_uint64s(&words);
        let inv = inverse_fr(&a).unwrap();
        assert_eq!(mul_fr(&a, &inv), one);
        assert_eq!(inverse_fr(&inv), Ok(a));
    }
}

#[test]
fn inverse_law_on_random_elements() {
    let one = u64_to_fr(1);
    for _ in 0..8 {
        let a = rand_fr();
        if !is_zero_fr(&a) {
            assert_eq!(mul_fr(&a, &inverse_fr(&a).unwrap()), one);
        }
    }
}

#[test]
fn random_elements_differ() {
    let a = rand_fr();
    let b = rand_fr();
    let c = rand_fr();
    assert!(a != b || b != c);
    let words = fr_to_uint64s(&a);
    assert_eq!(fr_from_uint64s(&words), a);
}
