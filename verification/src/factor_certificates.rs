//! Certificates of primality for the primes that divide `modulus() - 1`,
//! and for those that their own certificates rest on. Each gives a
//! generator and, as a chain of squarings, the powers of it that the Lucas
//! test asks for.

use crate::primality::{
    is_generator, is_prime, is_witness, lemma_covered_one, lemma_covered_step,
    lemma_generator_prime, lemma_lucas, lemma_pow_mod_compose, lemma_pow_mod_square,
    lemma_pow_mod_square_times, lemma_pow_mod_start, lemma_two_is_prime, pow_mod,
};
use vstd::prelude::*;

verus! {

proof fn squarings_3_1_0()
    ensures
        pow_mod(2, 2, 3) == 1,
{
    lemma_pow_mod_start(2, 3);
    lemma_pow_mod_square(2, 1, 3, 2, 1, 1);
}

/// A power of the generator 2, from a lower one raised to the power 2.
proof fn power_3_0()
    ensures
        pow_mod(2, 2, 3) == 1,
{
    lemma_pow_mod_start(2, 3);
    squarings_3_1_0();
    lemma_pow_mod_compose(2, 1, 2, 3, 2, 1);
}

/// 3 is prime: 2 has order 2 modulo it.
pub proof fn lemma_prime_3()
    ensures
        is_generator(2, 3),
        is_prime(3),
{
    let qs: Set<nat> = set![2];
    lemma_two_is_prime();
    lemma_covered_one(qs);
    lemma_covered_step(1, 2, qs);
    lemma_pow_mod_start(2, 3);
    assert(is_witness(2, 3, 2));
    power_3_0();
    lemma_lucas(3, 2, qs);
    lemma_generator_prime(2, 3);
}

proof fn squarings_5_0_0()
    ensures
        pow_mod(2, 2, 5) == 4,
{
    lemma_pow_mod_start(2, 5);
    lemma_pow_mod_square(2, 1, 5, 2, 0, 4);
}

proof fn squarings_5_2_0()
    ensures
        pow_mod(4, 2, 5) == 1,
{
    lemma_pow_mod_start(4, 5);
    lemma_pow_mod_square(4, 1, 5, 4, 3, 1);
}

/// A power of the generator 2, from a lower one raised to the power 2.
proof fn power_5_1()
    ensures
        pow_mod(2, 4, 5) == 1,
{
    squarings_5_0_0();
    squarings_5_2_0();
    lemma_pow_mod_compose(2, 2, 2, 5, 4, 1);
}

/// 5 is prime: 2 has order 4 modulo it.
pub proof fn lemma_prime_5()
    ensures
        is_generator(2, 5),
        is_prime(5),
{
    let qs: Set<nat> = set![2];
    lemma_two_is_prime();
    lemma_covered_one(qs);
    lemma_covered_step(1, 2, qs);
    lemma_covered_step(2, 2, qs);
    squarings_5_0_0();
    assert(is_witness(2, 5, 2));
    power_5_1();
    lemma_lucas(5, 2, qs);
    lemma_generator_prime(2, 5);
}

proof fn squarings_11_1_0()
    ensures
        pow_mod(2, 2, 11) == 4,
{
    lemma_pow_mod_start(2, 11);
    lemma_pow_mod_square(2, 1, 11, 2, 0, 4);
}

/// A power of the generator 2, from a lower one raised to the power 2.
proof fn power_11_0()
    ensures
        pow_mod(2, 2, 11) == 4,
{
    lemma_pow_mod_start(2, 11);
    squarings_11_1_0();
    lemma_pow_mod_compose(2, 1, 2, 11, 2, 4);
}

proof fn squarings_11_3_0()
    ensures
        pow_mod(2, 5, 11) == 10,
{
    lemma_pow_mod_start(2, 11);
    lemma_pow_mod_square(2, 1, 11, 2, 0, 4);
    lemma_pow_mod_square_times(2, 2, 11, 4, 2, 10);
}

/// A power of the generator 2, from a lower one raised to the power 5.
proof fn power_11_2()
    ensures
        pow_mod(2, 5, 11) == 10,
{
    lemma_pow_mod_start(2, 11);
    squarings_11_3_0();
    lemma_pow_mod_compose(2, 1, 5, 11, 2, 10);
}

proof fn squarings_11_5_0()
    ensures
        pow_mod(10, 2, 11) == 1,
{
    lemma_pow_mod_start(10, 11);
    lemma_pow_mod_square(10, 1, 11, 10, 9, 1);
}

/// A power of the generator 2, from a lower one raised to the power 2.
proof fn power_11_4()
    ensures
        pow_mod(2, 10, 11) == 1,
{
    power_11_2();
    squarings_11_5_0();
    lemma_pow_mod_compose(2, 5, 2, 11, 10, 1);
}

/// 11 is prime: 2 has order 10 modulo it.
pub proof fn lemma_prime_11()
    ensures
        is_generator(2, 11),
        is_prime(11),
{
    let qs: Set<nat> = set![2, 5];
    lemma_two_is_prime();
    lemma_prime_5();
    lemma_covered_one(qs);
    lemma_covered_step(1, 2, qs);
    lemma_covered_step(2, 5, qs);
    power_11_2();
    assert(is_witness(2, 11, 2));
    power_11_0();
    assert(is_witness(2, 11, 5));
    power_11_4();
    lemma_lucas(11, 2, qs);
    lemma_generator_prime(2, 11);
}

proof fn squarings_19_0_0()
    ensures
        pow_mod(2, 3, 19) == 8,
{
    lemma_pow_mod_start(2, 19);
    lemma_pow_mod_square_times(2, 1, 19, 2, 0, 8);
}

proof fn squarings_19_2_0()
    ensures
        pow_mod(8, 2, 19) == 7,
{
    lemma_pow_mod_start(8, 19);
    lemma_pow_mod_square(8, 1, 19, 8, 3, 7);
}

/// A power of the generator 2, from a lower one raised to the power 2.
proof fn power_19_1()
    ensures
        pow_mod(2, 6, 19) == 7,
{
    squarings_19_0_0();
    squarings_19_2_0();
    lemma_pow_mod_compose(2, 3, 2, 19, 8, 7);
}

proof fn squarings_19_4_0()
    ensures
        pow_mod(8, 3, 19) == 18,
{
    lemma_pow_mod_start(8, 19);
    lemma_pow_mod_square_times(8, 1, 19, 8, 26, 18);
}

/// A power of the generator 2, from a lower one raised to the power 3.
proof fn power_19_3()
    ensures
        pow_mod(2, 9, 19) == 18,
{
    squarings_19_0_0();
    squarings_19_4_0();
    lemma_pow_mod_compose(2, 3, 3, 19, 8, 18);
}

proof fn squarings_19_6_0()
    ensures
        pow_mod(18, 2, 19) == 1,
{
    lemma_pow_mod_start(18, 19);
    lemma_pow_mod_square(18, 1, 19, 18, 17, 1);
}

/// A power of the generator 2, from a lower one raised to the power 2.
proof fn power_19_5()
    ensures
        pow_mod(2, 18, 19) == 1,
{
    power_19_3();
    squarings_19_6_0();
    lemma_pow_mod_compose(2, 9, 2, 19, 18, 1);
}

/// 19 is prime: 2 has order 18 modulo it.
pub proof fn lemma_prime_19()
    ensures
        is_generator(2, 19),
        is_prime(19),
{
    let qs: Set<nat> = set![2, 3];
    lemma_two_is_prime();
    lemma_prime_3();
    lemma_covered_one(qs);
    lemma_covered_step(1, 2, qs);
    lemma_covered_step(2, 3, qs);
    lemma_covered_step(6, 3, qs);
    power_19_3();
    assert(is_witness(2, 19, 2));
    power_19_1();
    assert(is_witness(2, 19, 3));
    power_19_5();
    lemma_lucas(19, 2, qs);
    lemma_generator_prime(2, 19);
}

proof fn squarings_13_0_0()
    ensures
        pow_mod(2, 2, 13) == 4,
{
    lemma_pow_mod_start(2, 13);
    lemma_pow_mod_square(2, 1, 13, 2, 0, 4);
}

proof fn squarings_13_2_0()
    ensures
        pow_mod(4, 2, 13) == 3,
{
    lemma_pow_mod_start(4, 13);
    lemma_pow_mod_square(4, 1, 13, 4, 1, 3);
}

/// A power of the generator 2, from a lower one raised to the power 2.
proof fn power_13_1()
    ensures
        pow_mod(2, 4, 13) == 3,
{
    squarings_13_0_0();
    squarings_13_2_0();
    lemma_pow_mod_compose(2, 2, 2, 13, 4, 3);
}

proof fn squarings_13_4_0()
    ensures
        pow_mod(4, 3, 13) == 12,
{
    lemma_pow_mod_start(4, 13);
    lemma_pow_mod_square_times(4, 1, 13, 4, 4, 12);
}

/// A power of the generator 2, from a lower one raised to the power 3.
proof fn power_13_3()
    ensures
        pow_mod(2, 6, 13) == 12,
{
    squarings_13_0_0();
    squarings_13_4_0();
    lemma_pow_mod_compose(2, 2, 3, 13, 4, 12);
}

proof fn squarings_13_6_0()
    ensures
        pow_mod(12, 2, 13) == 1,
{
    lemma_pow_mod_start(12, 13);
    lemma_pow_mod_square(12, 1, 13, 12, 11, 1);
}

/// A power of the generator 2, from a lower one raised to the power 2.
proof fn power_13_5()
    ensures
        pow_mod(2, 12, 13) == 1,
{
    power_13_3();
    squarings_13_6_0();
    lemma_pow_mod_compose(2, 6, 2, 13, 12, 1);
}

/// 13 is prime: 2 has order 12 modulo it.
pub proof fn lemma_prime_13()
    ensures
        is_generator(2, 13),
        is_prime(13),
{
    let qs: Set<nat> = set![2, 3];
    lemma_two_is_prime();
    lemma_prime_3();
    lemma_covered_one(qs);
    lemma_covered_step(1, 2, qs);
    lemma_covered_step(2, 2, qs);
    lemma_covered_step(4, 3, qs);
    power_13_3();
    assert(is_witness(2, 13, 2));
    power_13_1();
    assert(is_witness(2, 13, 3));
    power_13_5();
    lemma_lucas(13, 2, qs);
    lemma_generator_prime(2, 13);
}

proof fn squarings_53_0_0()
    ensures
        pow_mod(2, 2, 53) == 4,
{
    lemma_pow_mod_start(2, 53);
    lemma_pow_mod_square(2, 1, 53, 2, 0, 4);
}

proof fn squarings_53_2_0()
    ensures
        pow_mod(4, 2, 53) == 16,
{
    lemma_pow_mod_start(4, 53);
    lemma_pow_mod_square(4, 1, 53, 4, 0, 16);
}

/// A power of the generator 2, from a lower one raised to the power 2.
proof fn power_53_1()
    ensures
        pow_mod(2, 4, 53) == 16,
{
    squarings_53_0_0();
    squarings_53_2_0();
    lemma_pow_mod_compose(2, 2, 2, 53, 4, 16);
}

proof fn squarings_53_4_0()
    ensures
        pow_mod(4, 13, 53) == 52,
{
    lemma_pow_mod_start(4, 53);
    lemma_pow_mod_square_times(4, 1, 53, 4, 1, 11);
    lemma_pow_mod_square(4, 3, 53, 11, 2, 15);
    lemma_pow_mod_square_times(4, 6, 53, 15, 16, 52);
}

/// A power of the generator 2, from a lower one raised to the power 13.
proof fn power_53_3()
    ensures
        pow_mod(2, 26, 53) == 52,
{
    squarings_53_0_0();
    squarings_53_4_0();
    lemma_pow_mod_compose(2, 2, 13, 53, 4, 52);
}

proof fn squarings_53_6_0()
    ensures
        pow_mod(52, 2, 53) == 1,
{
    lemma_pow_mod_start(52, 53);
    lemma_pow_mod_square(52, 1, 53, 52, 51, 1);
}

/// A power of the generator 2, from a lower one raised to the power 2.
proof fn power_53_5()
    ensures
        pow_mod(2, 52, 53) == 1,
{
    power_53_3();
    squarings_53_6_0();
    lemma_pow_mod_compose(2, 26, 2, 53, 52, 1);
}

/// 53 is prime: 2 has order 52 modulo it.
pub proof fn lemma_prime_53()
    ensures
        is_generator(2, 53),
        is_prime(53),
{
    let qs: Set<nat> = set![2, 13];
    lemma_two_is_prime();
    lemma_prime_13();
    lemma_covered_one(qs);
    lemma_covered_step(1, 2, qs);
    lemma_covered_step(2, 2, qs);
    lemma_covered_step(4, 13, qs);
    power_53_3();
    assert(is_witness(2, 53, 2));
    power_53_1();
    assert(is_witness(2, 53, 13));
    power_53_5();
    lemma_lucas(53, 2, qs);
    lemma_generator_prime(2, 53);
}

proof fn squarings_10177_0_0()
    ensures
        pow_mod(7, 32, 10177) == 8422,
{
    lemma_pow_mod_start(7, 10177);
    lemma_pow_mod_square(7, 1, 10177, 7, 0, 49);
    lemma_pow_mod_square(7, 2, 10177, 49, 0, 2401);
    lemma_pow_mod_square(7, 4, 10177, 2401, 566, 4619);
    lemma_pow_mod_square(7, 8, 10177, 4619, 2096, 4169);
    lemma_pow_mod_square(7, 16, 10177, 4169, 1707, 8422);
}

proof fn squarings_10177_2_0()
    ensures
        pow_mod(8422, 6, 10177) == 3616,
{
    lemma_pow_mod_start(8422, 10177);
    lemma_pow_mod_square_times(8422, 1, 10177, 8422, 58698355, 8613);
    lemma_pow_mod_square(8422, 3, 10177, 8613, 7289, 3616);
}

/// A power of the generator 7, from a lower one raised to the power 6.
proof fn power_10177_1()
    ensures
        pow_mod(7, 192, 10177) == 3616,
{
    squarings_10177_0_0();
    squarings_10177_2_0();
    lemma_pow_mod_compose(7, 32, 6, 10177, 8422, 3616);
}

proof fn squarings_10177_4_0()
    ensures
        pow_mod(8422, 53, 10177) == 4774,
{
    lemma_pow_mod_start(8422, 10177);
    lemma_pow_mod_square_times(8422, 1, 10177, 8422, 58698355, 8613);
    lemma_pow_mod_square(8422, 3, 10177, 8613, 7289, 3616);
    lemma_pow_mod_square_times(8422, 6, 10177, 3616, 10820623, 10161);
    lemma_pow_mod_square(8422, 13, 10177, 10161, 10145, 256);
    lemma_pow_mod_square_times(8422, 26, 10177, 256, 54234, 4774);
}

/// A power of the generator 7, from a lower one raised to the power 53.
proof fn power_10177_3()
    ensures
        pow_mod(7, 1696, 10177) == 4774,
{
    squarings_10177_0_0();
    squarings_10177_4_0();
    lemma_pow_mod_compose(7, 32, 53, 10177, 8422, 4774);
}

proof fn squarings_10177_6_0()
    ensures
        pow_mod(4774, 2, 10177) == 4773,
{
    lemma_pow_mod_start(4774, 10177);
    lemma_pow_mod_square(4774, 1, 10177, 4774, 2239, 4773);
}

/// A power of the generator 7, from a lower one raised to the power 2.
proof fn power_10177_5()
    ensures
        pow_mod(7, 3392, 10177) == 4773,
{
    power_10177_3();
    squarings_10177_6_0();
    lemma_pow_mod_compose(7, 1696, 2, 10177, 4774, 4773);
}

proof fn squarings_10177_8_0()
    ensures
        pow_mod(4774, 3, 10177) == 10176,
{
    lemma_pow_mod_start(4774, 10177);
    lemma_pow_mod_square_times(4774, 1, 10177, 4774, 10691224, 10176);
}

/// A power of the generator 7, from a lower one raised to the power 3.
proof fn power_10177_7()
    ensures
        pow_mod(7, 5088, 10177) == 10176,
{
    power_10177_3();
    squarings_10177_8_0();
    lemma_pow_mod_compose(7, 1696, 3, 10177, 4774, 10176);
}

proof fn squarings_10177_10_0()
    ensures
        pow_mod(10176, 2, 10177) == 1,
{
    lemma_pow_mod_start(10176, 10177);
    lemma_pow_mod_square(10176, 1, 10177, 10176, 10175, 1);
}

/// A power of the generator 7, from a lower one raised to the power 2.
proof fn power_10177_9()
    ensures
        pow_mod(7, 10176, 10177) == 1,
{
    power_10177_7();
    squarings_10177_10_0();
    lemma_pow_mod_compose(7, 5088, 2, 10177, 10176, 1);
}

/// 10177 is prime: 7 has order 10176 modulo it.
pub proof fn lemma_prime_10177()
    ensures
        is_generator(7, 10177),
        is_prime(10177),
{
    let qs: Set<nat> = set![2, 3, 53];
    lemma_two_is_prime();
    lemma_prime_3();
    lemma_prime_53();
    lemma_covered_one(qs);
    lemma_covered_step(1, 2, qs);
    lemma_covered_step(2, 2, qs);
    lemma_covered_step(4, 2, qs);
    lemma_covered_step(8, 2, qs);
    lemma_covered_step(16, 2, qs);
    lemma_covered_step(32, 2, qs);
    lemma_covered_step(64, 3, qs);
    lemma_covered_step(192, 53, qs);
    power_10177_7();
    assert(is_witness(7, 10177, 2));
    power_10177_5();
    assert(is_witness(7, 10177, 3));
    power_10177_1();
    assert(is_witness(7, 10177, 53));
    power_10177_9();
    lemma_lucas(10177, 7, qs);
    lemma_generator_prime(7, 10177);
}

proof fn squarings_7_1_0()
    ensures
        pow_mod(3, 2, 7) == 2,
{
    lemma_pow_mod_start(3, 7);
    lemma_pow_mod_square(3, 1, 7, 3, 1, 2);
}

/// A power of the generator 3, from a lower one raised to the power 2.
proof fn power_7_0()
    ensures
        pow_mod(3, 2, 7) == 2,
{
    lemma_pow_mod_start(3, 7);
    squarings_7_1_0();
    lemma_pow_mod_compose(3, 1, 2, 7, 3, 2);
}

proof fn squarings_7_3_0()
    ensures
        pow_mod(3, 3, 7) == 6,
{
    lemma_pow_mod_start(3, 7);
    lemma_pow_mod_square_times(3, 1, 7, 3, 3, 6);
}

/// A power of the generator 3, from a lower one raised to the power 3.
proof fn power_7_2()
    ensures
        pow_mod(3, 3, 7) == 6,
{
    lemma_pow_mod_start(3, 7);
    squarings_7_3_0();
    lemma_pow_mod_compose(3, 1, 3, 7, 3, 6);
}

proof fn squarings_7_5_0()
    ensures
        pow_mod(6, 2, 7) == 1,
{
    lemma_pow_mod_start(6, 7);
    lemma_pow_mod_square(6, 1, 7, 6, 5, 1);
}

/// A power of the generator 3, from a lower one raised to the power 2.
proof fn power_7_4()
    ensures
        pow_mod(3, 6, 7) == 1,
{
    power_7_2();
    squarings_7_5_0();
    lemma_pow_mod_compose(3, 3, 2, 7, 6, 1);
}

/// 7 is prime: 3 has order 6 modulo it.
pub proof fn lemma_prime_7()
    ensures
        is_generator(3, 7),
        is_prime(7),
{
    let qs: Set<nat> = set![2, 3];
    lemma_two_is_prime();
    lemma_prime_3();
    lemma_covered_one(qs);
    lemma_covered_step(1, 2, qs);
    lemma_covered_step(2, 3, qs);
    power_7_2();
    assert(is_witness(3, 7, 2));
    power_7_0();
    assert(is_witness(3, 7, 3));
    power_7_4();
    lemma_lucas(7, 3, qs);
    lemma_generator_prime(3, 7);
}

proof fn squarings_29_0_0()
    ensures
        pow_mod(2, 2, 29) == 4,
{
    lemma_pow_mod_start(2, 29);
    lemma_pow_mod_square(2, 1, 29, 2, 0, 4);
}

proof fn squarings_29_2_0()
    ensures
        pow_mod(4, 2, 29) == 16,
{
    lemma_pow_mod_start(4, 29);
    lemma_pow_mod_square(4, 1, 29, 4, 0, 16);
}

/// A power of the generator 2, from a lower one raised to the power 2.
proof fn power_29_1()
    ensures
        pow_mod(2, 4, 29) == 16,
{
    squarings_29_0_0();
    squarings_29_2_0();
    lemma_pow_mod_compose(2, 2, 2, 29, 4, 16);
}

proof fn squarings_29_4_0()
    ensures
        pow_mod(4, 7, 29) == 28,
{
    lemma_pow_mod_start(4, 29);
    lemma_pow_mod_square_times(4, 1, 29, 4, 2, 6);
    lemma_pow_mod_square_times(4, 3, 29, 6, 4, 28);
}

/// A power of the generator 2, from a lower one raised to the power 7.
proof fn power_29_3()
    ensures
        pow_mod(2, 14, 29) == 28,
{
    squarings_29_0_0();
    squarings_29_4_0();
    lemma_pow_mod_compose(2, 2, 7, 29, 4, 28);
}

proof fn squarings_29_6_0()
    ensures
        pow_mod(28, 2, 29) == 1,
{
    lemma_pow_mod_start(28, 29);
    lemma_pow_mod_square(28, 1, 29, 28, 27, 1);
}

/// A power of the generator 2, from a lower one raised to the power 2.
proof fn power_29_5()
    ensures
        pow_mod(2, 28, 29) == 1,
{
    power_29_3();
    squarings_29_6_0();
    lemma_pow_mod_compose(2, 14, 2, 29, 28, 1);
}

/// 29 is prime: 2 has order 28 modulo it.
pub proof fn lemma_prime_29()
    ensures
        is_generator(2, 29),
        is_prime(29),
{
    let qs: Set<nat> = set![2, 7];
    lemma_two_is_prime();
    lemma_prime_7();
    lemma_covered_one(qs);
    lemma_covered_step(1, 2, qs);
    lemma_covered_step(2, 2, qs);
    lemma_covered_step(4, 7, qs);
    power_29_3();
    assert(is_witness(2, 29, 2));
    power_29_1();
    assert(is_witness(2, 29, 7));
    power_29_5();
    lemma_lucas(29, 2, qs);
    lemma_generator_prime(2, 29);
}

proof fn squarings_523_0_0()
    ensures
        pow_mod(2, 3, 523) == 8,
{
    lemma_pow_mod_start(2, 523);
    lemma_pow_mod_square_times(2, 1, 523, 2, 0, 8);
}

proof fn squarings_523_2_0()
    ensures
        pow_mod(8, 6, 523) == 121,
{
    lemma_pow_mod_start(8, 523);
    lemma_pow_mod_square_times(8, 1, 523, 8, 0, 512);
    lemma_pow_mod_square(8, 3, 523, 512, 501, 121);
}

/// A power of the generator 2, from a lower one raised to the power 6.
proof fn power_523_1()
    ensures
        pow_mod(2, 18, 523) == 121,
{
    squarings_523_0_0();
    squarings_523_2_0();
    lemma_pow_mod_compose(2, 3, 6, 523, 8, 121);
}

proof fn squarings_523_4_0()
    ensures
        pow_mod(8, 29, 523) == 463,
{
    lemma_pow_mod_start(8, 523);
    lemma_pow_mod_square_times(8, 1, 523, 8, 0, 512);
    lemma_pow_mod_square_times(8, 3, 523, 512, 4009, 445);
    lemma_pow_mod_square(8, 7, 523, 445, 378, 331);
    lemma_pow_mod_square_times(8, 14, 523, 331, 1675, 463);
}

/// A power of the generator 2, from a lower one raised to the power 29.
proof fn power_523_3()
    ensures
        pow_mod(2, 87, 523) == 463,
{
    squarings_523_0_0();
    squarings_523_4_0();
    lemma_pow_mod_compose(2, 3, 29, 523, 8, 463);
}

proof fn squarings_523_6_0()
    ensures
        pow_mod(463, 2, 523) == 462,
{
    lemma_pow_mod_start(463, 523);
    lemma_pow_mod_square(463, 1, 523, 463, 409, 462);
}

/// A power of the generator 2, from a lower one raised to the power 2.
proof fn power_523_5()
    ensures
        pow_mod(2, 174, 523) == 462,
{
    power_523_3();
    squarings_523_6_0();
    lemma_pow_mod_compose(2, 87, 2, 523, 463, 462);
}

proof fn squarings_523_8_0()
    ensures
        pow_mod(463, 3, 523) == 522,
{
    lemma_pow_mod_start(463, 523);
    lemma_pow_mod_square_times(463, 1, 523, 463, 189775, 522);
}

/// A power of the generator 2, from a lower one raised to the power 3.
proof fn power_523_7()
    ensures
        pow_mod(2, 261, 523) == 522,
{
    power_523_3();
    squarings_523_8_0();
    lemma_pow_mod_compose(2, 87, 3, 523, 463, 522);
}

proof fn squarings_523_10_0()
    ensures
        pow_mod(522, 2, 523) == 1,
{
    lemma_pow_mod_start(522, 523);
    lemma_pow_mod_square(522, 1, 523, 522, 521, 1);
}

/// A power of the generator 2, from a lower one raised to the power 2.
proof fn power_523_9()
    ensures
        pow_mod(2, 522, 523) == 1,
{
    power_523_7();
    squarings_523_10_0();
    lemma_pow_mod_compose(2, 261, 2, 523, 522, 1);
}

/// 523 is prime: 2 has order 522 modulo it.
pub proof fn lemma_prime_523()
    ensures
        is_generator(2, 523),
        is_prime(523),
{
    let qs: Set<nat> = set![2, 3, 29];
    lemma_two_is_prime();
    lemma_prime_3();
    lemma_prime_29();
    lemma_covered_one(qs);
    lemma_covered_step(1, 2, qs);
    lemma_covered_step(2, 3, qs);
    lemma_covered_step(6, 3, qs);
    lemma_covered_step(18, 29, qs);
    power_523_7();
    assert(is_witness(2, 523, 2));
    power_523_5();
    assert(is_witness(2, 523, 3));
    power_523_1();
    assert(is_witness(2, 523, 29));
    power_523_9();
    lemma_lucas(523, 2, qs);
    lemma_generator_prime(2, 523);
}

proof fn squarings_20921_0_0()
    ensures
        pow_mod(3, 4, 20921) == 81,
{
    lemma_pow_mod_start(3, 20921);
    lemma_pow_mod_square(3, 1, 20921, 3, 0, 9);
    lemma_pow_mod_square(3, 2, 20921, 9, 0, 81);
}

proof fn squarings_20921_2_0()
    ensures
        pow_mod(81, 10, 20921) == 8962,
{
    lemma_pow_mod_start(81, 20921);
    lemma_pow_mod_square(81, 1, 20921, 81, 0, 6561);
    lemma_pow_mod_square_times(81, 2, 20921, 6561, 166664, 6857);
    lemma_pow_mod_square(81, 5, 20921, 6857, 2247, 8962);
}

/// A power of the generator 3, from a lower one raised to the power 10.
proof fn power_20921_1()
    ensures
        pow_mod(3, 40, 20921) == 8962,
{
    squarings_20921_0_0();
    squarings_20921_2_0();
    lemma_pow_mod_compose(3, 4, 10, 20921, 81, 8962);
}

proof fn squarings_20921_4_0()
    ensures
        pow_mod(81, 523, 20921) == 2850,
{
    lemma_pow_mod_start(81, 20921);
    lemma_pow_mod_square(81, 1, 20921, 81, 0, 6561);
    lemma_pow_mod_square(81, 2, 20921, 6561, 2057, 12224);
    lemma_pow_mod_square(81, 4, 20921, 12224, 7142, 8394);
    lemma_pow_mod_square(81, 8, 20921, 8394, 3367, 18229);
    lemma_pow_mod_square(81, 16, 20921, 18229, 15883, 8198);
    lemma_pow_mod_square_times(81, 32, 20921, 8198, 260206, 13798);
    lemma_pow_mod_square(81, 65, 20921, 13798, 9100, 3704);
    lemma_pow_mod_square_times(81, 130, 20921, 3704, 53118, 7218);
    lemma_pow_mod_square_times(81, 261, 20921, 7218, 201714, 2850);
}

/// A power of the generator 3, from a lower one raised to the power 523.
proof fn power_20921_3()
    ensures
        pow_mod(3, 2092, 20921) == 2850,
{
    squarings_20921_0_0();
    squarings_20921_4_0();
    lemma_pow_mod_compose(3, 4, 523, 20921, 81, 2850);
}

proof fn squarings_20921_6_0()
    ensures
        pow_mod(2850, 2, 20921) == 5152,
{
    lemma_pow_mod_start(2850, 20921);
    lemma_pow_mod_square(2850, 1, 20921, 2850, 388, 5152);
}

/// A power of the generator 3, from a lower one raised to the power 2.
proof fn power_20921_5()
    ensures
        pow_mod(3, 4184, 20921) == 5152,
{
    power_20921_3();
    squarings_20921_6_0();
    lemma_pow_mod_compose(3, 2092, 2, 20921, 2850, 5152);
}

proof fn squarings_20921_8_0()
    ensures
        pow_mod(2850, 5, 20921) == 20920,
{
    lemma_pow_mod_start(2850, 20921);
    lemma_pow_mod_square(2850, 1, 20921, 2850, 388, 5152);
    lemma_pow_mod_square_times(2850, 2, 20921, 5152, 3615880, 20920);
}

/// A power of the generator 3, from a lower one raised to the power 5.
proof fn power_20921_7()
    ensures
        pow_mod(3, 10460, 20921) == 20920,
{
    power_20921_3();
    squarings_20921_8_0();
    lemma_pow_mod_compose(3, 2092, 5, 20921, 2850, 20920);
}

proof fn squarings_20921_10_0()
    ensures
        pow_mod(20920, 2, 20921) == 1,
{
    lemma_pow_mod_start(20920, 20921);
    lemma_pow_mod_square(20920, 1, 20921, 20920, 20919, 1);
}

/// A power of the generator 3, from a lower one raised to the power 2.
proof fn power_20921_9()
    ensures
        pow_mod(3, 20920, 20921) == 1,
{
    power_20921_7();
    squarings_20921_10_0();
    lemma_pow_mod_compose(3, 10460, 2, 20921, 20920, 1);
}

/// 20921 is prime: 3 has order 20920 modulo it.
pub proof fn lemma_prime_20921()
    ensures
        is_generator(3, 20921),
        is_prime(20921),
{
    let qs: Set<nat> = set![2, 5, 523];
    lemma_two_is_prime();
    lemma_prime_5();
    lemma_prime_523();
    lemma_covered_one(qs);
    lemma_covered_step(1, 2, qs);
    lemma_covered_step(2, 2, qs);
    lemma_covered_step(4, 2, qs);
    lemma_covered_step(8, 5, qs);
    lemma_covered_step(40, 523, qs);
    power_20921_7();
    assert(is_witness(3, 20921, 2));
    power_20921_5();
    assert(is_witness(3, 20921, 5));
    power_20921_1();
    assert(is_witness(3, 20921, 523));
    power_20921_9();
    lemma_lucas(20921, 3, qs);
    lemma_generator_prime(3, 20921);
}

proof fn squarings_125527_1_0()
    ensures
        pow_mod(5, 6, 125527) == 15625,
{
    lemma_pow_mod_start(5, 125527);
    lemma_pow_mod_square_times(5, 1, 125527, 5, 0, 125);
    lemma_pow_mod_square(5, 3, 125527, 125, 0, 15625);
}

/// A power of the generator 5, from a lower one raised to the power 6.
proof fn power_125527_0()
    ensures
        pow_mod(5, 6, 125527) == 15625,
{
    lemma_pow_mod_start(5, 125527);
    squarings_125527_1_0();
    lemma_pow_mod_compose(5, 1, 6, 125527, 5, 15625);
}

proof fn squarings_125527_3_0()
    ensures
        pow_mod(5, 20921, 125527) == 5362,
{
    lemma_pow_mod_start(5, 125527);
    lemma_pow_mod_square(5, 1, 125527, 5, 0, 25);
    lemma_pow_mod_square_times(5, 2, 125527, 25, 0, 3125);
    lemma_pow_mod_square(5, 5, 125527, 3125, 77, 100046);
    lemma_pow_mod_square(5, 10, 125527, 100046, 79737, 55717);
    lemma_pow_mod_square(5, 20, 125527, 55717, 24730, 101379);
    lemma_pow_mod_square_times(5, 40, 125527, 101379, 409382, 13891);
    lemma_pow_mod_square_times(5, 81, 125527, 13891, 7685, 124410);
    lemma_pow_mod_square(5, 163, 125527, 124410, 123302, 117946);
    lemma_pow_mod_square_times(5, 326, 125527, 117946, 554114, 26502);
    lemma_pow_mod_square_times(5, 653, 125527, 26502, 27976, 36668);
    lemma_pow_mod_square_times(5, 1307, 125527, 36668, 53555, 112635);
    lemma_pow_mod_square(5, 2615, 125527, 112635, 101067, 5916);
    lemma_pow_mod_square(5, 5230, 125527, 5916, 278, 102550);
    lemma_pow_mod_square_times(5, 10460, 125527, 102550, 418894, 5362);
}

/// A power of the generator 5, from a lower one raised to the power 20921.
proof fn power_125527_2()
    ensures
        pow_mod(5, 20921, 125527) == 5362,
{
    lemma_pow_mod_start(5, 125527);
    squarings_125527_3_0();
    lemma_pow_mod_compose(5, 1, 20921, 125527, 5, 5362);
}

proof fn squarings_125527_5_0()
    ensures
        pow_mod(5362, 2, 125527) == 5361,
{
    lemma_pow_mod_start(5362, 125527);
    lemma_pow_mod_square(5362, 1, 125527, 5362, 229, 5361);
}

/// A power of the generator 5, from a lower one raised to the power 2.
proof fn power_125527_4()
    ensures
        pow_mod(5, 41842, 125527) == 5361,
{
    power_125527_2();
    squarings_125527_5_0();
    lemma_pow_mod_compose(5, 20921, 2, 125527, 5362, 5361);
}

proof fn squarings_125527_7_0()
    ensures
        pow_mod(5362, 3, 125527) == 125526,
{
    lemma_pow_mod_start(5362, 125527);
    lemma_pow_mod_square_times(5362, 1, 125527, 5362, 1228126, 125526);
}

/// A power of the generator 5, from a lower one raised to the power 3.
proof fn power_125527_6()
    ensures
        pow_mod(5, 62763, 125527) == 125526,
{
    power_125527_2();
    squarings_125527_7_0();
    lemma_pow_mod_compose(5, 20921, 3, 125527, 5362, 125526);
}

proof fn squarings_125527_9_0()
    ensures
        pow_mod(125526, 2, 125527) == 1,
{
    lemma_pow_mod_start(125526, 125527);
    lemma_pow_mod_square(125526, 1, 125527, 125526, 125525, 1);
}

/// A power of the generator 5, from a lower one raised to the power 2.
proof fn power_125527_8()
    ensures
        pow_mod(5, 125526, 125527) == 1,
{
    power_125527_6();
    squarings_125527_9_0();
    lemma_pow_mod_compose(5, 62763, 2, 125527, 125526, 1);
}

/// 125527 is prime: 5 has order 125526 modulo it.
pub proof fn lemma_prime_125527()
    ensures
        is_generator(5, 125527),
        is_prime(125527),
{
    let qs: Set<nat> = set![2, 3, 20921];
    lemma_two_is_prime();
    lemma_prime_3();
    lemma_prime_20921();
    lemma_covered_one(qs);
    lemma_covered_step(1, 2, qs);
    lemma_covered_step(2, 3, qs);
    lemma_covered_step(6, 20921, qs);
    power_125527_6();
    assert(is_witness(5, 125527, 2));
    power_125527_4();
    assert(is_witness(5, 125527, 3));
    power_125527_0();
    assert(is_witness(5, 125527, 20921));
    power_125527_8();
    lemma_lucas(125527, 5, qs);
    lemma_generator_prime(5, 125527);
}

proof fn squarings_17_0_0()
    ensures
        pow_mod(3, 8, 17) == 16,
{
    lemma_pow_mod_start(3, 17);
    lemma_pow_mod_square(3, 1, 17, 3, 0, 9);
    lemma_pow_mod_square(3, 2, 17, 9, 4, 13);
    lemma_pow_mod_square(3, 4, 17, 13, 9, 16);
}

proof fn squarings_17_2_0()
    ensures
        pow_mod(16, 2, 17) == 1,
{
    lemma_pow_mod_start(16, 17);
    lemma_pow_mod_square(16, 1, 17, 16, 15, 1);
}

/// A power of the generator 3, from a lower one raised to the power 2.
proof fn power_17_1()
    ensures
        pow_mod(3, 16, 17) == 1,
{
    squarings_17_0_0();
    squarings_17_2_0();
    lemma_pow_mod_compose(3, 8, 2, 17, 16, 1);
}

/// 17 is prime: 3 has order 16 modulo it.
pub proof fn lemma_prime_17()
    ensures
        is_generator(3, 17),
        is_prime(17),
{
    let qs: Set<nat> = set![2];
    lemma_two_is_prime();
    lemma_covered_one(qs);
    lemma_covered_step(1, 2, qs);
    lemma_covered_step(2, 2, qs);
    lemma_covered_step(4, 2, qs);
    lemma_covered_step(8, 2, qs);
    squarings_17_0_0();
    assert(is_witness(3, 17, 2));
    power_17_1();
    lemma_lucas(17, 3, qs);
    lemma_generator_prime(3, 17);
}

proof fn squarings_47737_0_0()
    ensures
        pow_mod(5, 36, 47737) == 25523,
{
    lemma_pow_mod_start(5, 47737);
    lemma_pow_mod_square(5, 1, 47737, 5, 0, 25);
    lemma_pow_mod_square(5, 2, 47737, 25, 0, 625);
    lemma_pow_mod_square_times(5, 4, 47737, 625, 40, 43645);
    lemma_pow_mod_square(5, 9, 47737, 43645, 39903, 36514);
    lemma_pow_mod_square(5, 18, 47737, 36514, 27929, 25523);
}

proof fn squarings_47737_2_0()
    ensures
        pow_mod(25523, 39, 47737) == 22657,
{
    lemma_pow_mod_start(25523, 47737);
    lemma_pow_mod_square(25523, 1, 47737, 25523, 13646, 4427);
    lemma_pow_mod_square(25523, 2, 47737, 4427, 410, 26159);
    lemma_pow_mod_square_times(25523, 4, 47737, 26159, 365863322, 8649);
    lemma_pow_mod_square_times(25523, 9, 47737, 8649, 39995247, 39084);
    lemma_pow_mod_square_times(25523, 19, 47737, 39084, 816722663, 22657);
}

/// A power of the generator 5, from a lower one raised to the power 39.
proof fn power_47737_1()
    ensures
        pow_mod(5, 1404, 47737) == 22657,
{
    squarings_47737_0_0();
    squarings_47737_2_0();
    lemma_pow_mod_compose(5, 36, 39, 47737, 25523, 22657);
}

proof fn squarings_47737_4_0()
    ensures
        pow_mod(22657, 2, 47737) == 23688,
{
    lemma_pow_mod_start(22657, 47737);
    lemma_pow_mod_square(22657, 1, 47737, 22657, 10753, 23688);
}

/// A power of the generator 5, from a lower one raised to the power 2.
proof fn power_47737_3()
    ensures
        pow_mod(5, 2808, 47737) == 23688,
{
    power_47737_1();
    squarings_47737_4_0();
    lemma_pow_mod_compose(5, 1404, 2, 47737, 22657, 23688);
}

proof fn squarings_47737_6_0()
    ensures
        pow_mod(22657, 17, 47737) == 47736,
{
    lemma_pow_mod_start(22657, 47737);
    lemma_pow_mod_square(22657, 1, 47737, 22657, 10753, 23688);
    lemma_pow_mod_square(22657, 2, 47737, 23688, 11754, 20646);
    lemma_pow_mod_square(22657, 4, 47737, 20646, 8929, 13643);
    lemma_pow_mod_square_times(22657, 8, 47737, 13643, 88341961, 47736);
}

/// A power of the generator 5, from a lower one raised to the power 17.
proof fn power_47737_5()
    ensures
        pow_mod(5, 23868, 47737) == 47736,
{
    power_47737_1();
    squarings_47737_6_0();
    lemma_pow_mod_compose(5, 1404, 17, 47737, 22657, 47736);
}

proof fn squarings_47737_8_0()
    ensures
        pow_mod(25523, 34, 47737) == 27385,
{
    lemma_pow_mod_start(25523, 47737);
    lemma_pow_mod_square(25523, 1, 47737, 25523, 13646, 4427);
    lemma_pow_mod_square(25523, 2, 47737, 4427, 410, 26159);
    lemma_pow_mod_square(25523, 4, 47737, 26159, 14334, 31123);
    lemma_pow_mod_square_times(25523, 8, 47737, 31123, 517892358, 41621);
    lemma_pow_mod_square(25523, 17, 47737, 41621, 36288, 27385);
}

/// A power of the generator 5, from a lower one raised to the power 34.
proof fn power_47737_7()
    ensures
        pow_mod(5, 1224, 47737) == 27385,
{
    squarings_47737_0_0();
    squarings_47737_8_0();
    lemma_pow_mod_compose(5, 36, 34, 47737, 25523, 27385);
}

proof fn squarings_47737_10_0()
    ensures
        pow_mod(27385, 3, 47737) == 26006,
{
    lemma_pow_mod_start(27385, 47737);
    lemma_pow_mod_square_times(27385, 1, 47737, 27385, 430212587, 26006);
}

/// A power of the generator 5, from a lower one raised to the power 3.
proof fn power_47737_9()
    ensures
        pow_mod(5, 3672, 47737) == 26006,
{
    power_47737_7();
    squarings_47737_10_0();
    lemma_pow_mod_compose(5, 1224, 3, 47737, 27385, 26006);
}

proof fn squarings_47737_12_0()
    ensures
        pow_mod(27385, 13, 47737) == 42905,
{
    lemma_pow_mod_start(27385, 47737);
    lemma_pow_mod_square_times(27385, 1, 47737, 27385, 430212587, 26006);
    lemma_pow_mod_square(27385, 3, 47737, 26006, 14167, 21957);
    lemma_pow_mod_square_times(27385, 6, 47737, 21957, 276569080, 42905);
}

/// A power of the generator 5, from a lower one raised to the power 13.
proof fn power_47737_11()
    ensures
        pow_mod(5, 15912, 47737) == 42905,
{
    power_47737_7();
    squarings_47737_12_0();
    lemma_pow_mod_compose(5, 1224, 13, 47737, 27385, 42905);
}

proof fn squarings_47737_14_0()
    ensures
        pow_mod(47736, 2, 47737) == 1,
{
    lemma_pow_mod_start(47736, 47737);
    lemma_pow_mod_square(47736, 1, 47737, 47736, 47735, 1);
}

/// A power of the generator 5, from a lower one raised to the power 2.
proof fn power_47737_13()
    ensures
        pow_mod(5, 47736, 47737) == 1,
{
    power_47737_5();
    squarings_47737_14_0();
    lemma_pow_mod_compose(5, 23868, 2, 47737, 47736, 1);
}

/// 47737 is prime: 5 has order 47736 modulo it.
pub proof fn lemma_prime_47737()
    ensures
        is_generator(5, 47737),
        is_prime(47737),
{
    let qs: Set<nat> = set![2, 3, 13, 17];
    lemma_two_is_prime();
    lemma_prime_3();
    lemma_prime_13();
    lemma_prime_17();
    lemma_covered_one(qs);
    lemma_covered_step(1, 2, qs);
    lemma_covered_step(2, 2, qs);
    lemma_covered_step(4, 2, qs);
    lemma_covered_step(8, 3, qs);
    lemma_covered_step(24, 3, qs);
    lemma_covered_step(72, 3, qs);
    lemma_covered_step(216, 13, qs);
    lemma_covered_step(2808, 17, qs);
    power_47737_5();
    assert(is_witness(5, 47737, 2));
    power_47737_11();
    assert(is_witness(5, 47737, 3));
    power_47737_9();
    assert(is_witness(5, 47737, 13));
    power_47737_3();
    assert(is_witness(5, 47737, 17));
    power_47737_13();
    lemma_lucas(47737, 5, qs);
    lemma_generator_prime(5, 47737);
}

proof fn squarings_859267_0_0()
    ensures
        pow_mod(2, 3, 859267) == 8,
{
    lemma_pow_mod_start(2, 859267);
    lemma_pow_mod_square_times(2, 1, 859267, 2, 0, 8);
}

proof fn squarings_859267_2_0()
    ensures
        pow_mod(8, 6, 859267) == 262144,
{
    lemma_pow_mod_start(8, 859267);
    lemma_pow_mod_square_times(8, 1, 859267, 8, 0, 512);
    lemma_pow_mod_square(8, 3, 859267, 512, 0, 262144);
}

/// A power of the generator 2, from a lower one raised to the power 6.
proof fn power_859267_1()
    ensures
        pow_mod(2, 18, 859267) == 262144,
{
    squarings_859267_0_0();
    squarings_859267_2_0();
    lemma_pow_mod_compose(2, 3, 6, 859267, 8, 262144);
}

proof fn squarings_859267_4_0()
    ensures
        pow_mod(8, 47737, 859267) == 119572,
{
    lemma_pow_mod_start(8, 859267);
    lemma_pow_mod_square(8, 1, 859267, 8, 0, 64);
    lemma_pow_mod_square_times(8, 2, 859267, 64, 0, 32768);
    lemma_pow_mod_square_times(8, 5, 859267, 32768, 9996, 701660);
    lemma_pow_mod_square_times(8, 11, 859267, 701660, 4583690, 489570);
    lemma_pow_mod_square(8, 23, 859267, 489570, 278934, 3522);
    lemma_pow_mod_square_times(8, 46, 859267, 3522, 115, 420167);
    lemma_pow_mod_square(8, 93, 859267, 420167, 205454, 465671);
    lemma_pow_mod_square(8, 186, 859267, 465671, 252365, 563786);
    lemma_pow_mod_square_times(8, 372, 859267, 563786, 2959309, 663865);
    lemma_pow_mod_square_times(8, 745, 859267, 663865, 4103187, 721871);
    lemma_pow_mod_square_times(8, 1491, 859267, 721871, 4851555, 814943);
    lemma_pow_mod_square_times(8, 2983, 859267, 814943, 6183243, 83111);
    lemma_pow_mod_square(8, 5967, 859267, 83111, 8038, 650175);
    lemma_pow_mod_square(8, 11934, 859267, 650175, 491962, 818771);
    lemma_pow_mod_square_times(8, 23868, 859267, 818771, 6241468, 119572);
}

/// A power of the generator 2, from a lower one raised to the power 47737.
proof fn power_859267_3()
    ensures
        pow_mod(2, 143211, 859267) == 119572,
{
    squarings_859267_0_0();
    squarings_859267_4_0();
    lemma_pow_mod_compose(2, 3, 47737, 859267, 8, 119572);
}

proof fn squarings_859267_6_0()
    ensures
        pow_mod(119572, 2, 859267) == 119571,
{
    lemma_pow_mod_start(119572, 859267);
    lemma_pow_mod_square(119572, 1, 859267, 119572, 16639, 119571);
}

/// A power of the generator 2, from a lower one raised to the power 2.
proof fn power_859267_5()
    ensures
        pow_mod(2, 286422, 859267) == 119571,
{
    power_859267_3();
    squarings_859267_6_0();
    lemma_pow_mod_compose(2, 143211, 2, 859267, 119572, 119571);
}

proof fn squarings_859267_8_0()
    ensures
        pow_mod(119572, 3, 859267) == 859266,
{
    lemma_pow_mod_start(119572, 859267);
    lemma_pow_mod_square_times(119572, 1, 859267, 119572, 1989575146, 859266);
}

/// A power of the generator 2, from a lower one raised to the power 3.
proof fn power_859267_7()
    ensures
        pow_mod(2, 429633, 859267) == 859266,
{
    power_859267_3();
    squarings_859267_8_0();
    lemma_pow_mod_compose(2, 143211, 3, 859267, 119572, 859266);
}

proof fn squarings_859267_10_0()
    ensures
        pow_mod(859266, 2, 859267) == 1,
{
    lemma_pow_mod_start(859266, 859267);
    lemma_pow_mod_square(859266, 1, 859267, 859266, 859265, 1);
}

/// A power of the generator 2, from a lower one raised to the power 2.
proof fn power_859267_9()
    ensures
        pow_mod(2, 859266, 859267) == 1,
{
    power_859267_7();
    squarings_859267_10_0();
    lemma_pow_mod_compose(2, 429633, 2, 859267, 859266, 1);
}

/// 859267 is prime: 2 has order 859266 modulo it.
pub proof fn lemma_prime_859267()
    ensures
        is_generator(2, 859267),
        is_prime(859267),
{
    let qs: Set<nat> = set![2, 3, 47737];
    lemma_two_is_prime();
    lemma_prime_3();
    lemma_prime_47737();
    lemma_covered_one(qs);
    lemma_covered_step(1, 2, qs);
    lemma_covered_step(2, 3, qs);
    lemma_covered_step(6, 3, qs);
    lemma_covered_step(18, 47737, qs);
    power_859267_7();
    assert(is_witness(2, 859267, 2));
    power_859267_5();
    assert(is_witness(2, 859267, 3));
    power_859267_1();
    assert(is_witness(2, 859267, 47737));
    power_859267_9();
    lemma_lucas(859267, 2, qs);
    lemma_generator_prime(2, 859267);
}

proof fn squarings_23_1_0()
    ensures
        pow_mod(5, 2, 23) == 2,
{
    lemma_pow_mod_start(5, 23);
    lemma_pow_mod_square(5, 1, 23, 5, 1, 2);
}

/// A power of the generator 5, from a lower one raised to the power 2.
proof fn power_23_0()
    ensures
        pow_mod(5, 2, 23) == 2,
{
    lemma_pow_mod_start(5, 23);
    squarings_23_1_0();
    lemma_pow_mod_compose(5, 1, 2, 23, 5, 2);
}

proof fn squarings_23_3_0()
    ensures
        pow_mod(5, 11, 23) == 22,
{
    lemma_pow_mod_start(5, 23);
    lemma_pow_mod_square(5, 1, 23, 5, 1, 2);
    lemma_pow_mod_square_times(5, 2, 23, 2, 0, 20);
    lemma_pow_mod_square_times(5, 5, 23, 20, 86, 22);
}

/// A power of the generator 5, from a lower one raised to the power 11.
proof fn power_23_2()
    ensures
        pow_mod(5, 11, 23) == 22,
{
    lemma_pow_mod_start(5, 23);
    squarings_23_3_0();
    lemma_pow_mod_compose(5, 1, 11, 23, 5, 22);
}

proof fn squarings_23_5_0()
    ensures
        pow_mod(22, 2, 23) == 1,
{
    lemma_pow_mod_start(22, 23);
    lemma_pow_mod_square(22, 1, 23, 22, 21, 1);
}

/// A power of the generator 5, from a lower one raised to the power 2.
proof fn power_23_4()
    ensures
        pow_mod(5, 22, 23) == 1,
{
    power_23_2();
    squarings_23_5_0();
    lemma_pow_mod_compose(5, 11, 2, 23, 22, 1);
}

/// 23 is prime: 5 has order 22 modulo it.
pub proof fn lemma_prime_23()
    ensures
        is_generator(5, 23),
        is_prime(23),
{
    let qs: Set<nat> = set![2, 11];
    lemma_two_is_prime();
    lemma_prime_11();
    lemma_covered_one(qs);
    lemma_covered_step(1, 2, qs);
    lemma_covered_step(2, 11, qs);
    power_23_2();
    assert(is_witness(5, 23, 2));
    power_23_0();
    assert(is_witness(5, 23, 11));
    power_23_4();
    lemma_lucas(23, 5, qs);
    lemma_generator_prime(5, 23);
}

proof fn squarings_47_1_0()
    ensures
        pow_mod(5, 2, 47) == 25,
{
    lemma_pow_mod_start(5, 47);
    lemma_pow_mod_square(5, 1, 47, 5, 0, 25);
}

/// A power of the generator 5, from a lower one raised to the power 2.
proof fn power_47_0()
    ensures
        pow_mod(5, 2, 47) == 25,
{
    lemma_pow_mod_start(5, 47);
    squarings_47_1_0();
    lemma_pow_mod_compose(5, 1, 2, 47, 5, 25);
}

proof fn squarings_47_3_0()
    ensures
        pow_mod(5, 23, 47) == 46,
{
    lemma_pow_mod_start(5, 47);
    lemma_pow_mod_square(5, 1, 47, 5, 0, 25);
    lemma_pow_mod_square_times(5, 2, 47, 25, 66, 23);
    lemma_pow_mod_square_times(5, 5, 47, 23, 56, 13);
    lemma_pow_mod_square_times(5, 11, 47, 13, 17, 46);
}

/// A power of the generator 5, from a lower one raised to the power 23.
proof fn power_47_2()
    ensures
        pow_mod(5, 23, 47) == 46,
{
    lemma_pow_mod_start(5, 47);
    squarings_47_3_0();
    lemma_pow_mod_compose(5, 1, 23, 47, 5, 46);
}

proof fn squarings_47_5_0()
    ensures
        pow_mod(46, 2, 47) == 1,
{
    lemma_pow_mod_start(46, 47);
    lemma_pow_mod_square(46, 1, 47, 46, 45, 1);
}

/// A power of the generator 5, from a lower one raised to the power 2.
proof fn power_47_4()
    ensures
        pow_mod(5, 46, 47) == 1,
{
    power_47_2();
    squarings_47_5_0();
    lemma_pow_mod_compose(5, 23, 2, 47, 46, 1);
}

/// 47 is prime: 5 has order 46 modulo it.
pub proof fn lemma_prime_47()
    ensures
        is_generator(5, 47),
        is_prime(47),
{
    let qs: Set<nat> = set![2, 23];
    lemma_two_is_prime();
    lemma_prime_23();
    lemma_covered_one(qs);
    lemma_covered_step(1, 2, qs);
    lemma_covered_step(2, 23, qs);
    power_47_2();
    assert(is_witness(5, 47, 2));
    power_47_0();
    assert(is_witness(5, 47, 23));
    power_47_4();
    lemma_lucas(47, 5, qs);
    lemma_generator_prime(5, 47);
}

proof fn squarings_73_0_0()
    ensures
        pow_mod(5, 12, 73) == 9,
{
    lemma_pow_mod_start(5, 73);
    lemma_pow_mod_square_times(5, 1, 73, 5, 1, 52);
    lemma_pow_mod_square(5, 3, 73, 52, 37, 3);
    lemma_pow_mod_square(5, 6, 73, 3, 0, 9);
}

proof fn squarings_73_2_0()
    ensures
        pow_mod(9, 2, 73) == 8,
{
    lemma_pow_mod_start(9, 73);
    lemma_pow_mod_square(9, 1, 73, 9, 1, 8);
}

/// A power of the generator 5, from a lower one raised to the power 2.
proof fn power_73_1()
    ensures
        pow_mod(5, 24, 73) == 8,
{
    squarings_73_0_0();
    squarings_73_2_0();
    lemma_pow_mod_compose(5, 12, 2, 73, 9, 8);
}

proof fn squarings_73_4_0()
    ensures
        pow_mod(9, 3, 73) == 72,
{
    lemma_pow_mod_start(9, 73);
    lemma_pow_mod_square_times(9, 1, 73, 9, 9, 72);
}

/// A power of the generator 5, from a lower one raised to the power 3.
proof fn power_73_3()
    ensures
        pow_mod(5, 36, 73) == 72,
{
    squarings_73_0_0();
    squarings_73_4_0();
    lemma_pow_mod_compose(5, 12, 3, 73, 9, 72);
}

proof fn squarings_73_6_0()
    ensures
        pow_mod(72, 2, 73) == 1,
{
    lemma_pow_mod_start(72, 73);
    lemma_pow_mod_square(72, 1, 73, 72, 71, 1);
}

/// A power of the generator 5, from a lower one raised to the power 2.
proof fn power_73_5()
    ensures
        pow_mod(5, 72, 73) == 1,
{
    power_73_3();
    squarings_73_6_0();
    lemma_pow_mod_compose(5, 36, 2, 73, 72, 1);
}

/// 73 is prime: 5 has order 72 modulo it.
pub proof fn lemma_prime_73()
    ensures
        is_generator(5, 73),
        is_prime(73),
{
    let qs: Set<nat> = set![2, 3];
    lemma_two_is_prime();
    lemma_prime_3();
    lemma_covered_one(qs);
    lemma_covered_step(1, 2, qs);
    lemma_covered_step(2, 2, qs);
    lemma_covered_step(4, 2, qs);
    lemma_covered_step(8, 3, qs);
    lemma_covered_step(24, 3, qs);
    power_73_3();
    assert(is_witness(5, 73, 2));
    power_73_1();
    assert(is_witness(5, 73, 3));
    power_73_5();
    lemma_lucas(73, 5, qs);
    lemma_generator_prime(5, 73);
}

proof fn squarings_1607_1_0()
    ensures
        pow_mod(5, 22, 1607) == 286,
{
    lemma_pow_mod_start(5, 1607);
    lemma_pow_mod_square(5, 1, 1607, 5, 0, 25);
    lemma_pow_mod_square_times(5, 2, 1607, 25, 1, 1518);
    lemma_pow_mod_square_times(5, 5, 1607, 1518, 7169, 1037);
    lemma_pow_mod_square(5, 11, 1607, 1037, 669, 286);
}

/// A power of the generator 5, from a lower one raised to the power 22.
proof fn power_1607_0()
    ensures
        pow_mod(5, 22, 1607) == 286,
{
    lemma_pow_mod_start(5, 1607);
    squarings_1607_1_0();
    lemma_pow_mod_compose(5, 1, 22, 1607, 5, 286);
}

proof fn squarings_1607_3_0()
    ensures
        pow_mod(5, 73, 1607) == 1279,
{
    lemma_pow_mod_start(5, 1607);
    lemma_pow_mod_square(5, 1, 1607, 5, 0, 25);
    lemma_pow_mod_square(5, 2, 1607, 25, 0, 625);
    lemma_pow_mod_square_times(5, 4, 1607, 625, 1215, 620);
    lemma_pow_mod_square(5, 9, 1607, 620, 239, 327);
    lemma_pow_mod_square(5, 18, 1607, 327, 66, 867);
    lemma_pow_mod_square_times(5, 36, 1607, 867, 2338, 1279);
}

/// A power of the generator 5, from a lower one raised to the power 73.
proof fn power_1607_2()
    ensures
        pow_mod(5, 73, 1607) == 1279,
{
    lemma_pow_mod_start(5, 1607);
    squarings_1607_3_0();
    lemma_pow_mod_compose(5, 1, 73, 1607, 5, 1279);
}

proof fn squarings_1607_5_0()
    ensures
        pow_mod(1279, 2, 1607) == 1522,
{
    lemma_pow_mod_start(1279, 1607);
    lemma_pow_mod_square(1279, 1, 1607, 1279, 1017, 1522);
}

/// A power of the generator 5, from a lower one raised to the power 2.
proof fn power_1607_4()
    ensures
        pow_mod(5, 146, 1607) == 1522,
{
    power_1607_2();
    squarings_1607_5_0();
    lemma_pow_mod_compose(5, 73, 2, 1607, 1279, 1522);
}

proof fn squarings_1607_7_0()
    ensures
        pow_mod(1279, 11, 1607) == 1606,
{
    lemma_pow_mod_start(1279, 1607);
    lemma_pow_mod_square(1279, 1, 1607, 1279, 1017, 1522);
    lemma_pow_mod_square_times(1279, 2, 1607, 1522, 1843673, 525);
    lemma_pow_mod_square_times(1279, 5, 1607, 525, 219367, 1606);
}

/// A power of the generator 5, from a lower one raised to the power 11.
proof fn power_1607_6()
    ensures
        pow_mod(5, 803, 1607) == 1606,
{
    power_1607_2();
    squarings_1607_7_0();
    lemma_pow_mod_compose(5, 73, 11, 1607, 1279, 1606);
}

proof fn squarings_1607_9_0()
    ensures
        pow_mod(1606, 2, 1607) == 1,
{
    lemma_pow_mod_start(1606, 1607);
    lemma_pow_mod_square(1606, 1, 1607, 1606, 1605, 1);
}

/// A power of the generator 5, from a lower one raised to the power 2.
proof fn power_1607_8()
    ensures
        pow_mod(5, 1606, 1607) == 1,
{
    power_1607_6();
    squarings_1607_9_0();
    lemma_pow_mod_compose(5, 803, 2, 1607, 1606, 1);
}

/// 1607 is prime: 5 has order 1606 modulo it.
pub proof fn lemma_prime_1607()
    ensures
        is_generator(5, 1607),
        is_prime(1607),
{
    let qs: Set<nat> = set![2, 11, 73];
    lemma_two_is_prime();
    lemma_prime_11();
    lemma_prime_73();
    lemma_covered_one(qs);
    lemma_covered_step(1, 2, qs);
    lemma_covered_step(2, 11, qs);
    lemma_covered_step(22, 73, qs);
    power_1607_6();
    assert(is_witness(5, 1607, 2));
    power_1607_4();
    assert(is_witness(5, 1607, 11));
    power_1607_0();
    assert(is_witness(5, 1607, 73));
    power_1607_8();
    lemma_lucas(1607, 5, qs);
    lemma_generator_prime(5, 1607);
}

proof fn squarings_906349_0_0()
    ensures
        pow_mod(2, 2, 906349) == 4,
{
    lemma_pow_mod_start(2, 906349);
    lemma_pow_mod_square(2, 1, 906349, 2, 0, 4);
}

proof fn squarings_906349_2_0()
    ensures
        pow_mod(4, 282, 906349) == 210417,
{
    lemma_pow_mod_start(4, 906349);
    lemma_pow_mod_square(4, 1, 906349, 4, 0, 16);
    lemma_pow_mod_square(4, 2, 906349, 16, 0, 256);
    lemma_pow_mod_square(4, 4, 906349, 256, 0, 65536);
    lemma_pow_mod_square_times(4, 8, 906349, 65536, 18955, 23889);
    lemma_pow_mod_square_times(4, 17, 906349, 23889, 2518, 550502);
    lemma_pow_mod_square(4, 35, 906349, 550502, 334366, 162270);
    lemma_pow_mod_square_times(4, 70, 906349, 162270, 116209, 300659);
    lemma_pow_mod_square(4, 141, 906349, 300659, 99736, 210417);
}

/// A power of the generator 2, from a lower one raised to the power 282.
proof fn power_906349_1()
    ensures
        pow_mod(2, 564, 906349) == 210417,
{
    squarings_906349_0_0();
    squarings_906349_2_0();
    lemma_pow_mod_compose(2, 2, 282, 906349, 4, 210417);
}

proof fn squarings_906349_4_0()
    ensures
        pow_mod(4, 1607, 906349) == 41972,
{
    lemma_pow_mod_start(4, 906349);
    lemma_pow_mod_square_times(4, 1, 906349, 4, 0, 64);
    lemma_pow_mod_square(4, 3, 906349, 64, 0, 4096);
    lemma_pow_mod_square(4, 6, 906349, 4096, 18, 462934);
    lemma_pow_mod_square_times(4, 12, 906349, 462934, 945807, 324781);
    lemma_pow_mod_square(4, 25, 906349, 324781, 116381, 894992);
    lemma_pow_mod_square(4, 50, 906349, 894992, 883777, 279891);
    lemma_pow_mod_square(4, 100, 906349, 279891, 86433, 508764);
    lemma_pow_mod_square_times(4, 200, 906349, 508764, 1142344, 888728);
    lemma_pow_mod_square_times(4, 401, 906349, 888728, 3485798, 300434);
    lemma_pow_mod_square_times(4, 803, 906349, 300434, 398348, 41972);
}

/// A power of the generator 2, from a lower one raised to the power 1607.
proof fn power_906349_3()
    ensures
        pow_mod(2, 3214, 906349) == 41972,
{
    squarings_906349_0_0();
    squarings_906349_4_0();
    lemma_pow_mod_compose(2, 2, 1607, 906349, 4, 41972);
}

proof fn squarings_906349_6_0()
    ensures
        pow_mod(41972, 6, 906349) == 69344,
{
    lemma_pow_mod_start(41972, 906349);
    lemma_pow_mod_square_times(41972, 1, 906349, 41972, 81579968, 345216);
    lemma_pow_mod_square(41972, 3, 906349, 345216, 131488, 69344);
}

/// A power of the generator 2, from a lower one raised to the power 6.
proof fn power_906349_5()
    ensures
        pow_mod(2, 19284, 906349) == 69344,
{
    power_906349_3();
    squarings_906349_6_0();
    lemma_pow_mod_compose(2, 3214, 6, 906349, 41972, 69344);
}

proof fn squarings_906349_8_0()
    ensures
        pow_mod(41972, 47, 906349) == 161247,
{
    lemma_pow_mod_start(41972, 906349);
    lemma_pow_mod_square(41972, 1, 906349, 41972, 1943, 612677);
    lemma_pow_mod_square_times(41972, 2, 906349, 612677, 17383105204nat, 300592);
    lemma_pow_mod_square_times(41972, 5, 906349, 300592, 4184263638nat, 37346);
    lemma_pow_mod_square_times(41972, 11, 906349, 37346, 64588082, 275334);
    lemma_pow_mod_square_times(41972, 23, 906349, 275334, 3510620565nat, 161247);
}

/// A power of the generator 2, from a lower one raised to the power 47.
proof fn power_906349_7()
    ensures
        pow_mod(2, 151058, 906349) == 161247,
{
    power_906349_3();
    squarings_906349_8_0();
    lemma_pow_mod_compose(2, 3214, 47, 906349, 41972, 161247);
}

proof fn squarings_906349_10_0()
    ensures
        pow_mod(161247, 2, 906349) == 161246,
{
    lemma_pow_mod_start(161247, 906349);
    lemma_pow_mod_square(161247, 1, 906349, 161247, 28687, 161246);
}

/// A power of the generator 2, from a lower one raised to the power 2.
proof fn power_906349_9()
    ensures
        pow_mod(2, 302116, 906349) == 161246,
{
    power_906349_7();
    squarings_906349_10_0();
    lemma_pow_mod_compose(2, 151058, 2, 906349, 161247, 161246);
}

proof fn squarings_906349_12_0()
    ensures
        pow_mod(161247, 3, 906349) == 906348,
{
    lemma_pow_mod_start(161247, 906349);
    lemma_pow_mod_square_times(161247, 1, 906349, 161247, 4625721375nat, 906348);
}

/// A power of the generator 2, from a lower one raised to the power 3.
proof fn power_906349_11()
    ensures
        pow_mod(2, 453174, 906349) == 906348,
{
    power_906349_7();
    squarings_906349_12_0();
    lemma_pow_mod_compose(2, 151058, 3, 906349, 161247, 906348);
}

proof fn squarings_906349_14_0()
    ensures
        pow_mod(906348, 2, 906349) == 1,
{
    lemma_pow_mod_start(906348, 906349);
    lemma_pow_mod_square(906348, 1, 906349, 906348, 906347, 1);
}

/// A power of the generator 2, from a lower one raised to the power 2.
proof fn power_906349_13()
    ensures
        pow_mod(2, 906348, 906349) == 1,
{
    power_906349_11();
    squarings_906349_14_0();
    lemma_pow_mod_compose(2, 453174, 2, 906349, 906348, 1);
}

/// 906349 is prime: 2 has order 906348 modulo it.
pub proof fn lemma_prime_906349()
    ensures
        is_generator(2, 906349),
        is_prime(906349),
{
    let qs: Set<nat> = set![2, 3, 47, 1607];
    lemma_two_is_prime();
    lemma_prime_3();
    lemma_prime_47();
    lemma_prime_1607();
    lemma_covered_one(qs);
    lemma_covered_step(1, 2, qs);
    lemma_covered_step(2, 2, qs);
    lemma_covered_step(4, 3, qs);
    lemma_covered_step(12, 47, qs);
    lemma_covered_step(564, 1607, qs);
    power_906349_11();
    assert(is_witness(2, 906349, 2));
    power_906349_9();
    assert(is_witness(2, 906349, 3));
    power_906349_5();
    assert(is_witness(2, 906349, 47));
    power_906349_1();
    assert(is_witness(2, 906349, 1607));
    power_906349_13();
    lemma_lucas(906349, 2, qs);
    lemma_generator_prime(2, 906349);
}

proof fn squarings_79_1_0()
    ensures
        pow_mod(3, 6, 79) == 18,
{
    lemma_pow_mod_start(3, 79);
    lemma_pow_mod_square_times(3, 1, 79, 3, 0, 27);
    lemma_pow_mod_square(3, 3, 79, 27, 9, 18);
}

/// A power of the generator 3, from a lower one raised to the power 6.
proof fn power_79_0()
    ensures
        pow_mod(3, 6, 79) == 18,
{
    lemma_pow_mod_start(3, 79);
    squarings_79_1_0();
    lemma_pow_mod_compose(3, 1, 6, 79, 3, 18);
}

proof fn squarings_79_3_0()
    ensures
        pow_mod(3, 13, 79) == 24,
{
    lemma_pow_mod_start(3, 79);
    lemma_pow_mod_square_times(3, 1, 79, 3, 0, 27);
    lemma_pow_mod_square(3, 3, 79, 27, 9, 18);
    lemma_pow_mod_square_times(3, 6, 79, 18, 12, 24);
}

/// A power of the generator 3, from a lower one raised to the power 13.
proof fn power_79_2()
    ensures
        pow_mod(3, 13, 79) == 24,
{
    lemma_pow_mod_start(3, 79);
    squarings_79_3_0();
    lemma_pow_mod_compose(3, 1, 13, 79, 3, 24);
}

proof fn squarings_79_5_0()
    ensures
        pow_mod(24, 2, 79) == 23,
{
    lemma_pow_mod_start(24, 79);
    lemma_pow_mod_square(24, 1, 79, 24, 7, 23);
}

/// A power of the generator 3, from a lower one raised to the power 2.
proof fn power_79_4()
    ensures
        pow_mod(3, 26, 79) == 23,
{
    power_79_2();
    squarings_79_5_0();
    lemma_pow_mod_compose(3, 13, 2, 79, 24, 23);
}

proof fn squarings_79_7_0()
    ensures
        pow_mod(24, 3, 79) == 78,
{
    lemma_pow_mod_start(24, 79);
    lemma_pow_mod_square_times(24, 1, 79, 24, 174, 78);
}

/// A power of the generator 3, from a lower one raised to the power 3.
proof fn power_79_6()
    ensures
        pow_mod(3, 39, 79) == 78,
{
    power_79_2();
    squarings_79_7_0();
    lemma_pow_mod_compose(3, 13, 3, 79, 24, 78);
}

proof fn squarings_79_9_0()
    ensures
        pow_mod(78, 2, 79) == 1,
{
    lemma_pow_mod_start(78, 79);
    lemma_pow_mod_square(78, 1, 79, 78, 77, 1);
}

/// A power of the generator 3, from a lower one raised to the power 2.
proof fn power_79_8()
    ensures
        pow_mod(3, 78, 79) == 1,
{
    power_79_6();
    squarings_79_9_0();
    lemma_pow_mod_compose(3, 39, 2, 79, 78, 1);
}

/// 79 is prime: 3 has order 78 modulo it.
pub proof fn lemma_prime_79()
    ensures
        is_generator(3, 79),
        is_prime(79),
{
    let qs: Set<nat> = set![2, 3, 13];
    lemma_two_is_prime();
    lemma_prime_3();
    lemma_prime_13();
    lemma_covered_one(qs);
    lemma_covered_step(1, 2, qs);
    lemma_covered_step(2, 3, qs);
    lemma_covered_step(6, 13, qs);
    power_79_6();
    assert(is_witness(3, 79, 2));
    power_79_4();
    assert(is_witness(3, 79, 3));
    power_79_0();
    assert(is_witness(3, 79, 13));
    power_79_8();
    lemma_lucas(79, 3, qs);
    lemma_generator_prime(3, 79);
}

proof fn squarings_2508409_0_0()
    ensures
        pow_mod(11, 756, 2508409) == 1247970,
{
    lemma_pow_mod_start(11, 2508409);
    lemma_pow_mod_square(11, 1, 2508409, 11, 0, 121);
    lemma_pow_mod_square_times(11, 2, 2508409, 121, 0, 161051);
    lemma_pow_mod_square_times(11, 5, 2508409, 161051, 113742, 214133);
    lemma_pow_mod_square_times(11, 11, 2508409, 214133, 201076, 1510495);
    lemma_pow_mod_square_times(11, 23, 2508409, 1510495, 10005364, 1489399);
    lemma_pow_mod_square(11, 47, 2508409, 1489399, 884349, 390460);
    lemma_pow_mod_square_times(11, 94, 2508409, 390460, 668570, 2122470);
    lemma_pow_mod_square(11, 189, 2508409, 2122470, 1795910, 2093710);
    lemma_pow_mod_square(11, 378, 2508409, 2093710, 1747570, 1247970);
}

proof fn squarings_2508409_2_0()
    ensures
        pow_mod(1247970, 42, 2508409) == 2251273,
{
    lemma_pow_mod_start(1247970, 2508409);
    lemma_pow_mod_square(1247970, 1, 2508409, 1247970, 620883, 615753);
    lemma_pow_mod_square_times(1247970, 2, 2508409, 615753, 188633519571nat, 949191);
    lemma_pow_mod_square(1247970, 5, 2508409, 949191, 359177, 735088);
    lemma_pow_mod_square_times(1247970, 10, 2508409, 735088, 268834165526nat, 571546);
    lemma_pow_mod_square(1247970, 21, 2508409, 571546, 130227, 2251273);
}

/// A power of the generator 11, from a lower one raised to the power 42.
proof fn power_2508409_1()
    ensures
        pow_mod(11, 31752, 2508409) == 2251273,
{
    squarings_2508409_0_0();
    squarings_2508409_2_0();
    lemma_pow_mod_compose(11, 756, 42, 2508409, 1247970, 2251273);
}

proof fn squarings_2508409_4_0()
    ensures
        pow_mod(1247970, 79, 2508409) == 41363,
{
    lemma_pow_mod_start(1247970, 2508409);
    lemma_pow_mod_square(1247970, 1, 2508409, 1247970, 620883, 615753);
    lemma_pow_mod_square(1247970, 2, 2508409, 615753, 151152, 719841);
    lemma_pow_mod_square_times(1247970, 4, 2508409, 719841, 257797649561nat, 1071121);
    lemma_pow_mod_square_times(1247970, 9, 2508409, 1071121, 570798552549nat, 1184229);
    lemma_pow_mod_square_times(1247970, 19, 2508409, 1184229, 697713585365nat, 800485);
    lemma_pow_mod_square_times(1247970, 39, 2508409, 800485, 318795506743nat, 41363);
}

/// A power of the generator 11, from a lower one raised to the power 79.
proof fn power_2508409_3()
    ensures
        pow_mod(11, 59724, 2508409) == 41363,
{
    squarings_2508409_0_0();
    squarings_2508409_4_0();
    lemma_pow_mod_compose(11, 756, 79, 2508409, 1247970, 41363);
}

proof fn squarings_2508409_6_0()
    ensures
        pow_mod(41363, 6, 2508409) == 1491919,
{
    lemma_pow_mod_start(41363, 2508409);
    lemma_pow_mod_square_times(41363, 1, 2508409, 41363, 28212251, 100488);
    lemma_pow_mod_square(41363, 3, 2508409, 100488, 4025, 1491919);
}

/// A power of the generator 11, from a lower one raised to the power 6.
proof fn power_2508409_5()
    ensures
        pow_mod(11, 358344, 2508409) == 1491919,
{
    power_2508409_3();
    squarings_2508409_6_0();
    lemma_pow_mod_compose(11, 59724, 6, 2508409, 41363, 1491919);
}

proof fn squarings_2508409_8_0()
    ensures
        pow_mod(41363, 7, 2508409) == 875788,
{
    lemma_pow_mod_start(41363, 2508409);
    lemma_pow_mod_square_times(41363, 1, 2508409, 41363, 28212251, 100488);
    lemma_pow_mod_square_times(41363, 3, 2508409, 100488, 166510676, 875788);
}

/// A power of the generator 11, from a lower one raised to the power 7.
proof fn power_2508409_7()
    ensures
        pow_mod(11, 418068, 2508409) == 875788,
{
    power_2508409_3();
    squarings_2508409_8_0();
    lemma_pow_mod_compose(11, 59724, 7, 2508409, 41363, 875788);
}

proof fn squarings_2508409_10_0()
    ensures
        pow_mod(875788, 2, 2508409) == 875787,
{
    lemma_pow_mod_start(875788, 2508409);
    lemma_pow_mod_square(875788, 1, 2508409, 875788, 305773, 875787);
}

/// A power of the generator 11, from a lower one raised to the power 2.
proof fn power_2508409_9()
    ensures
        pow_mod(11, 836136, 2508409) == 875787,
{
    power_2508409_7();
    squarings_2508409_10_0();
    lemma_pow_mod_compose(11, 418068, 2, 2508409, 875788, 875787);
}

proof fn squarings_2508409_12_0()
    ensures
        pow_mod(875788, 3, 2508409) == 2508408,
{
    lemma_pow_mod_start(875788, 2508409);
    lemma_pow_mod_square_times(875788, 1, 2508409, 875788, 267792629896nat, 2508408);
}

/// A power of the generator 11, from a lower one raised to the power 3.
proof fn power_2508409_11()
    ensures
        pow_mod(11, 1254204, 2508409) == 2508408,
{
    power_2508409_7();
    squarings_2508409_12_0();
    lemma_pow_mod_compose(11, 418068, 3, 2508409, 875788, 2508408);
}

proof fn squarings_2508409_14_0()
    ensures
        pow_mod(2508408, 2, 2508409) == 1,
{
    lemma_pow_mod_start(2508408, 2508409);
    lemma_pow_mod_square(2508408, 1, 2508409, 2508408, 2508407, 1);
}

/// A power of the generator 11, from a lower one raised to the power 2.
proof fn power_2508409_13()
    ensures
        pow_mod(11, 2508408, 2508409) == 1,
{
    power_2508409_11();
    squarings_2508409_14_0();
    lemma_pow_mod_compose(11, 1254204, 2, 2508409, 2508408, 1);
}

/// 2508409 is prime: 11 has order 2508408 modulo it.
pub proof fn lemma_prime_2508409()
    ensures
        is_generator(11, 2508409),
        is_prime(2508409),
{
    let qs: Set<nat> = set![2, 3, 7, 79];
    lemma_two_is_prime();
    lemma_prime_3();
    lemma_prime_7();
    lemma_prime_79();
    lemma_covered_one(qs);
    lemma_covered_step(1, 2, qs);
    lemma_covered_step(2, 2, qs);
    lemma_covered_step(4, 2, qs);
    lemma_covered_step(8, 3, qs);
    lemma_covered_step(24, 3, qs);
    lemma_covered_step(72, 3, qs);
    lemma_covered_step(216, 3, qs);
    lemma_covered_step(648, 7, qs);
    lemma_covered_step(4536, 7, qs);
    lemma_covered_step(31752, 79, qs);
    power_2508409_11();
    assert(is_witness(11, 2508409, 2));
    power_2508409_9();
    assert(is_witness(11, 2508409, 3));
    power_2508409_5();
    assert(is_witness(11, 2508409, 7));
    power_2508409_1();
    assert(is_witness(11, 2508409, 79));
    power_2508409_13();
    lemma_lucas(2508409, 11, qs);
    lemma_generator_prime(11, 2508409);
}

proof fn squarings_18329_0_0()
    ensures
        pow_mod(3, 4, 18329) == 81,
{
    lemma_pow_mod_start(3, 18329);
    lemma_pow_mod_square(3, 1, 18329, 3, 0, 9);
    lemma_pow_mod_square(3, 2, 18329, 9, 0, 81);
}

proof fn squarings_18329_2_0()
    ensures
        pow_mod(81, 58, 18329) == 16492,
{
    lemma_pow_mod_start(81, 18329);
    lemma_pow_mod_square_times(81, 1, 18329, 81, 28, 18229);
    lemma_pow_mod_square_times(81, 3, 18329, 18229, 1468493, 3524);
    lemma_pow_mod_square(81, 7, 18329, 3524, 677, 9843);
    lemma_pow_mod_square_times(81, 14, 18329, 9843, 428155, 3574);
    lemma_pow_mod_square(81, 29, 18329, 3574, 696, 16492);
}

/// A power of the generator 3, from a lower one raised to the power 58.
proof fn power_18329_1()
    ensures
        pow_mod(3, 232, 18329) == 16492,
{
    squarings_18329_0_0();
    squarings_18329_2_0();
    lemma_pow_mod_compose(3, 4, 58, 18329, 81, 16492);
}

proof fn squarings_18329_4_0()
    ensures
        pow_mod(81, 79, 18329) == 13773,
{
    lemma_pow_mod_start(81, 18329);
    lemma_pow_mod_square(81, 1, 18329, 81, 0, 6561);
    lemma_pow_mod_square(81, 2, 18329, 6561, 2348, 10229);
    lemma_pow_mod_square_times(81, 4, 18329, 10229, 462394, 8095);
    lemma_pow_mod_square_times(81, 9, 18329, 8095, 289587, 10902);
    lemma_pow_mod_square_times(81, 19, 18329, 10902, 525240, 17964);
    lemma_pow_mod_square_times(81, 39, 18329, 17964, 1426107, 13773);
}

/// A power of the generator 3, from a lower one raised to the power 79.
proof fn power_18329_3()
    ensures
        pow_mod(3, 316, 18329) == 13773,
{
    squarings_18329_0_0();
    squarings_18329_4_0();
    lemma_pow_mod_compose(3, 4, 79, 18329, 81, 13773);
}

proof fn squarings_18329_6_0()
    ensures
        pow_mod(13773, 2, 18329) == 8708,
{
    lemma_pow_mod_start(13773, 18329);
    lemma_pow_mod_square(13773, 1, 18329, 13773, 10349, 8708);
}

/// A power of the generator 3, from a lower one raised to the power 2.
proof fn power_18329_5()
    ensures
        pow_mod(3, 632, 18329) == 8708,
{
    power_18329_3();
    squarings_18329_6_0();
    lemma_pow_mod_compose(3, 316, 2, 18329, 13773, 8708);
}

proof fn squarings_18329_8_0()
    ensures
        pow_mod(13773, 29, 18329) == 18328,
{
    lemma_pow_mod_start(13773, 18329);
    lemma_pow_mod_square_times(13773, 1, 18329, 13773, 142543320, 8637);
    lemma_pow_mod_square_times(13773, 3, 18329, 8637, 56055162, 8139);
    lemma_pow_mod_square(13773, 7, 18329, 8139, 3614, 2315);
    lemma_pow_mod_square_times(13773, 14, 18329, 2315, 4027093, 18328);
}

/// A power of the generator 3, from a lower one raised to the power 29.
proof fn power_18329_7()
    ensures
        pow_mod(3, 9164, 18329) == 18328,
{
    power_18329_3();
    squarings_18329_8_0();
    lemma_pow_mod_compose(3, 316, 29, 18329, 13773, 18328);
}

proof fn squarings_18329_10_0()
    ensures
        pow_mod(18328, 2, 18329) == 1,
{
    lemma_pow_mod_start(18328, 18329);
    lemma_pow_mod_square(18328, 1, 18329, 18328, 18327, 1);
}

/// A power of the generator 3, from a lower one raised to the power 2.
proof fn power_18329_9()
    ensures
        pow_mod(3, 18328, 18329) == 1,
{
    power_18329_7();
    squarings_18329_10_0();
    lemma_pow_mod_compose(3, 9164, 2, 18329, 18328, 1);
}

/// 18329 is prime: 3 has order 18328 modulo it.
pub proof fn lemma_prime_18329()
    ensures
        is_generator(3, 18329),
        is_prime(18329),
{
    let qs: Set<nat> = set![2, 29, 79];
    lemma_two_is_prime();
    lemma_prime_29();
    lemma_prime_79();
    lemma_covered_one(qs);
    lemma_covered_step(1, 2, qs);
    lemma_covered_step(2, 2, qs);
    lemma_covered_step(4, 2, qs);
    lemma_covered_step(8, 29, qs);
    lemma_covered_step(232, 79, qs);
    power_18329_7();
    assert(is_witness(3, 18329, 2));
    power_18329_5();
    assert(is_witness(3, 18329, 29));
    power_18329_1();
    assert(is_witness(3, 18329, 79));
    power_18329_9();
    lemma_lucas(18329, 3, qs);
    lemma_generator_prime(3, 18329);
}

proof fn squarings_2529403_1_0()
    ensures
        pow_mod(2, 138, 2529403) == 1443810,
{
    lemma_pow_mod_start(2, 2529403);
    lemma_pow_mod_square(2, 1, 2529403, 2, 0, 4);
    lemma_pow_mod_square(2, 2, 2529403, 4, 0, 16);
    lemma_pow_mod_square(2, 4, 2529403, 16, 0, 256);
    lemma_pow_mod_square_times(2, 8, 2529403, 256, 0, 131072);
    lemma_pow_mod_square(2, 17, 2529403, 131072, 6792, 164008);
    lemma_pow_mod_square_times(2, 34, 2529403, 164008, 21268, 1905124);
    lemma_pow_mod_square(2, 69, 2529403, 1905124, 1434922, 1443810);
}

/// A power of the generator 2, from a lower one raised to the power 138.
proof fn power_2529403_0()
    ensures
        pow_mod(2, 138, 2529403) == 1443810,
{
    lemma_pow_mod_start(2, 2529403);
    squarings_2529403_1_0();
    lemma_pow_mod_compose(2, 1, 138, 2529403, 2, 1443810);
}

proof fn squarings_2529403_3_0()
    ensures
        pow_mod(2, 18329, 2529403) == 212652,
{
    lemma_pow_mod_start(2, 2529403);
    lemma_pow_mod_square(2, 1, 2529403, 2, 0, 4);
    lemma_pow_mod_square(2, 2, 2529403, 4, 0, 16);
    lemma_pow_mod_square(2, 4, 2529403, 16, 0, 256);
    lemma_pow_mod_square_times(2, 8, 2529403, 256, 0, 131072);
    lemma_pow_mod_square_times(2, 17, 2529403, 131072, 13584, 328016);
    lemma_pow_mod_square_times(2, 35, 2529403, 328016, 85075, 32287);
    lemma_pow_mod_square_times(2, 71, 2529403, 32287, 824, 672666);
    lemma_pow_mod_square(2, 143, 2529403, 672666, 178887, 2233095);
    lemma_pow_mod_square(2, 286, 2529403, 2233095, 1971498, 323331);
    lemma_pow_mod_square_times(2, 572, 2529403, 323331, 82662, 360336);
    lemma_pow_mod_square_times(2, 1145, 2529403, 360336, 102666, 377394);
    lemma_pow_mod_square(2, 2291, 2529403, 377394, 56308, 607112);
    lemma_pow_mod_square(2, 4582, 2529403, 607112, 145720, 375384);
    lemma_pow_mod_square_times(2, 9164, 2529403, 375384, 111420, 212652);
}

/// A power of the generator 2, from a lower one raised to the power 18329.
proof fn power_2529403_2()
    ensures
        pow_mod(2, 18329, 2529403) == 212652,
{
    lemma_pow_mod_start(2, 2529403);
    squarings_2529403_3_0();
    lemma_pow_mod_compose(2, 1, 18329, 2529403, 2, 212652);
}

proof fn squarings_2529403_5_0()
    ensures
        pow_mod(212652, 6, 2529403) == 1307537,
{
    lemma_pow_mod_start(212652, 2529403);
    lemma_pow_mod_square_times(212652, 1, 2529403, 212652, 3801809797nat, 1350617);
    lemma_pow_mod_square(212652, 3, 2529403, 1350617, 721184, 1307537);
}

/// A power of the generator 2, from a lower one raised to the power 6.
proof fn power_2529403_4()
    ensures
        pow_mod(2, 109974, 2529403) == 1307537,
{
    power_2529403_2();
    squarings_2529403_5_0();
    lemma_pow_mod_compose(2, 18329, 6, 2529403, 212652, 1307537);
}

proof fn squarings_2529403_7_0()
    ensures
        pow_mod(212652, 23, 2529403) == 2159617,
{
    lemma_pow_mod_start(212652, 2529403);
    lemma_pow_mod_square(212652, 1, 2529403, 212652, 17878, 206270);
    lemma_pow_mod_square_times(212652, 2, 2529403, 206270, 3577038211nat, 792767);
    lemma_pow_mod_square_times(212652, 5, 2529403, 792767, 52837537592nat, 70852);
    lemma_pow_mod_square_times(212652, 11, 2529403, 70852, 422041997, 2159617);
}

/// A power of the generator 2, from a lower one raised to the power 23.
proof fn power_2529403_6()
    ensures
        pow_mod(2, 421567, 2529403) == 2159617,
{
    power_2529403_2();
    squarings_2529403_7_0();
    lemma_pow_mod_compose(2, 18329, 23, 2529403, 212652, 2159617);
}

proof fn squarings_2529403_9_0()
    ensures
        pow_mod(2159617, 2, 2529403) == 2159616,
{
    lemma_pow_mod_start(2159617, 2529403);
    lemma_pow_mod_square(2159617, 1, 2529403, 2159617, 1843891, 2159616);
}

/// A power of the generator 2, from a lower one raised to the power 2.
proof fn power_2529403_8()
    ensures
        pow_mod(2, 843134, 2529403) == 2159616,
{
    power_2529403_6();
    squarings_2529403_9_0();
    lemma_pow_mod_compose(2, 421567, 2, 2529403, 2159617, 2159616);
}

proof fn squarings_2529403_11_0()
    ensures
        pow_mod(2159617, 3, 2529403) == 2529402,
{
    lemma_pow_mod_start(2159617, 2529403);
    lemma_pow_mod_square_times(2159617, 1, 2529403, 2159617, 3982100193637nat, 2529402);
}

/// A power of the generator 2, from a lower one raised to the power 3.
proof fn power_2529403_10()
    ensures
        pow_mod(2, 1264701, 2529403) == 2529402,
{
    power_2529403_6();
    squarings_2529403_11_0();
    lemma_pow_mod_compose(2, 421567, 3, 2529403, 2159617, 2529402);
}

proof fn squarings_2529403_13_0()
    ensures
        pow_mod(2529402, 2, 2529403) == 1,
{
    lemma_pow_mod_start(2529402, 2529403);
    lemma_pow_mod_square(2529402, 1, 2529403, 2529402, 2529401, 1);
}

/// A power of the generator 2, from a lower one raised to the power 2.
proof fn power_2529403_12()
    ensures
        pow_mod(2, 2529402, 2529403) == 1,
{
    power_2529403_10();
    squarings_2529403_13_0();
    lemma_pow_mod_compose(2, 1264701, 2, 2529403, 2529402, 1);
}

/// 2529403 is prime: 2 has order 2529402 modulo it.
pub proof fn lemma_prime_2529403()
    ensures
        is_generator(2, 2529403),
        is_prime(2529403),
{
    let qs: Set<nat> = set![2, 3, 23, 18329];
    lemma_two_is_prime();
    lemma_prime_3();
    lemma_prime_23();
    lemma_prime_18329();
    lemma_covered_one(qs);
    lemma_covered_step(1, 2, qs);
    lemma_covered_step(2, 3, qs);
    lemma_covered_step(6, 23, qs);
    lemma_covered_step(138, 18329, qs);
    power_2529403_10();
    assert(is_witness(2, 2529403, 2));
    power_2529403_8();
    assert(is_witness(2, 2529403, 3));
    power_2529403_4();
    assert(is_witness(2, 2529403, 23));
    power_2529403_0();
    assert(is_witness(2, 2529403, 18329));
    power_2529403_12();
    lemma_lucas(2529403, 2, qs);
    lemma_generator_prime(2, 2529403);
}

proof fn squarings_43_1_0()
    ensures
        pow_mod(3, 6, 43) == 41,
{
    lemma_pow_mod_start(3, 43);
    lemma_pow_mod_square_times(3, 1, 43, 3, 0, 27);
    lemma_pow_mod_square(3, 3, 43, 27, 16, 41);
}

/// A power of the generator 3, from a lower one raised to the power 6.
proof fn power_43_0()
    ensures
        pow_mod(3, 6, 43) == 41,
{
    lemma_pow_mod_start(3, 43);
    squarings_43_1_0();
    lemma_pow_mod_compose(3, 1, 6, 43, 3, 41);
}

proof fn squarings_43_3_0()
    ensures
        pow_mod(3, 7, 43) == 37,
{
    lemma_pow_mod_start(3, 43);
    lemma_pow_mod_square_times(3, 1, 43, 3, 0, 27);
    lemma_pow_mod_square_times(3, 3, 43, 27, 50, 37);
}

/// A power of the generator 3, from a lower one raised to the power 7.
proof fn power_43_2()
    ensures
        pow_mod(3, 7, 43) == 37,
{
    lemma_pow_mod_start(3, 43);
    squarings_43_3_0();
    lemma_pow_mod_compose(3, 1, 7, 43, 3, 37);
}

proof fn squarings_43_5_0()
    ensures
        pow_mod(37, 2, 43) == 36,
{
    lemma_pow_mod_start(37, 43);
    lemma_pow_mod_square(37, 1, 43, 37, 31, 36);
}

/// A power of the generator 3, from a lower one raised to the power 2.
proof fn power_43_4()
    ensures
        pow_mod(3, 14, 43) == 36,
{
    power_43_2();
    squarings_43_5_0();
    lemma_pow_mod_compose(3, 7, 2, 43, 37, 36);
}

proof fn squarings_43_7_0()
    ensures
        pow_mod(37, 3, 43) == 42,
{
    lemma_pow_mod_start(37, 43);
    lemma_pow_mod_square_times(37, 1, 43, 37, 1177, 42);
}

/// A power of the generator 3, from a lower one raised to the power 3.
proof fn power_43_6()
    ensures
        pow_mod(3, 21, 43) == 42,
{
    power_43_2();
    squarings_43_7_0();
    lemma_pow_mod_compose(3, 7, 3, 43, 37, 42);
}

proof fn squarings_43_9_0()
    ensures
        pow_mod(42, 2, 43) == 1,
{
    lemma_pow_mod_start(42, 43);
    lemma_pow_mod_square(42, 1, 43, 42, 41, 1);
}

/// A power of the generator 3, from a lower one raised to the power 2.
proof fn power_43_8()
    ensures
        pow_mod(3, 42, 43) == 1,
{
    power_43_6();
    squarings_43_9_0();
    lemma_pow_mod_compose(3, 21, 2, 43, 42, 1);
}

/// 43 is prime: 3 has order 42 modulo it.
pub proof fn lemma_prime_43()
    ensures
        is_generator(3, 43),
        is_prime(43),
{
    let qs: Set<nat> = set![2, 3, 7];
    lemma_two_is_prime();
    lemma_prime_3();
    lemma_prime_7();
    lemma_covered_one(qs);
    lemma_covered_step(1, 2, qs);
    lemma_covered_step(2, 3, qs);
    lemma_covered_step(6, 7, qs);
    power_43_6();
    assert(is_witness(3, 43, 2));
    power_43_4();
    assert(is_witness(3, 43, 3));
    power_43_0();
    assert(is_witness(3, 43, 7));
    power_43_8();
    lemma_lucas(43, 3, qs);
    lemma_generator_prime(3, 43);
}

proof fn squarings_97_0_0()
    ensures
        pow_mod(5, 16, 97) == 36,
{
    lemma_pow_mod_start(5, 97);
    lemma_pow_mod_square(5, 1, 97, 5, 0, 25);
    lemma_pow_mod_square(5, 2, 97, 25, 6, 43);
    lemma_pow_mod_square(5, 4, 97, 43, 19, 6);
    lemma_pow_mod_square(5, 8, 97, 6, 0, 36);
}

proof fn squarings_97_2_0()
    ensures
        pow_mod(36, 2, 97) == 35,
{
    lemma_pow_mod_start(36, 97);
    lemma_pow_mod_square(36, 1, 97, 36, 13, 35);
}

/// A power of the generator 5, from a lower one raised to the power 2.
proof fn power_97_1()
    ensures
        pow_mod(5, 32, 97) == 35,
{
    squarings_97_0_0();
    squarings_97_2_0();
    lemma_pow_mod_compose(5, 16, 2, 97, 36, 35);
}

proof fn squarings_97_4_0()
    ensures
        pow_mod(36, 3, 97) == 96,
{
    lemma_pow_mod_start(36, 97);
    lemma_pow_mod_square_times(36, 1, 97, 36, 480, 96);
}

/// A power of the generator 5, from a lower one raised to the power 3.
proof fn power_97_3()
    ensures
        pow_mod(5, 48, 97) == 96,
{
    squarings_97_0_0();
    squarings_97_4_0();
    lemma_pow_mod_compose(5, 16, 3, 97, 36, 96);
}

proof fn squarings_97_6_0()
    ensures
        pow_mod(96, 2, 97) == 1,
{
    lemma_pow_mod_start(96, 97);
    lemma_pow_mod_square(96, 1, 97, 96, 95, 1);
}

/// A power of the generator 5, from a lower one raised to the power 2.
proof fn power_97_5()
    ensures
        pow_mod(5, 96, 97) == 1,
{
    power_97_3();
    squarings_97_6_0();
    lemma_pow_mod_compose(5, 48, 2, 97, 96, 1);
}

/// 97 is prime: 5 has order 96 modulo it.
pub proof fn lemma_prime_97()
    ensures
        is_generator(5, 97),
        is_prime(97),
{
    let qs: Set<nat> = set![2, 3];
    lemma_two_is_prime();
    lemma_prime_3();
    lemma_covered_one(qs);
    lemma_covered_step(1, 2, qs);
    lemma_covered_step(2, 2, qs);
    lemma_covered_step(4, 2, qs);
    lemma_covered_step(8, 2, qs);
    lemma_covered_step(16, 2, qs);
    lemma_covered_step(32, 3, qs);
    power_97_3();
    assert(is_witness(5, 97, 2));
    power_97_1();
    assert(is_witness(5, 97, 3));
    power_97_5();
    lemma_lucas(97, 5, qs);
    lemma_generator_prime(5, 97);
}

proof fn squarings_449_0_0()
    ensures
        pow_mod(3, 32, 449) == 431,
{
    lemma_pow_mod_start(3, 449);
    lemma_pow_mod_square(3, 1, 449, 3, 0, 9);
    lemma_pow_mod_square(3, 2, 449, 9, 0, 81);
    lemma_pow_mod_square(3, 4, 449, 81, 14, 275);
    lemma_pow_mod_square(3, 8, 449, 275, 168, 193);
    lemma_pow_mod_square(3, 16, 449, 193, 82, 431);
}

proof fn squarings_449_2_0()
    ensures
        pow_mod(431, 2, 449) == 324,
{
    lemma_pow_mod_start(431, 449);
    lemma_pow_mod_square(431, 1, 449, 431, 413, 324);
}

/// A power of the generator 3, from a lower one raised to the power 2.
proof fn power_449_1()
    ensures
        pow_mod(3, 64, 449) == 324,
{
    squarings_449_0_0();
    squarings_449_2_0();
    lemma_pow_mod_compose(3, 32, 2, 449, 431, 324);
}

proof fn squarings_449_4_0()
    ensures
        pow_mod(431, 7, 449) == 448,
{
    lemma_pow_mod_start(431, 449);
    lemma_pow_mod_square_times(431, 1, 449, 431, 178314, 5);
    lemma_pow_mod_square_times(431, 3, 449, 5, 23, 448);
}

/// A power of the generator 3, from a lower one raised to the power 7.
proof fn power_449_3()
    ensures
        pow_mod(3, 224, 449) == 448,
{
    squarings_449_0_0();
    squarings_449_4_0();
    lemma_pow_mod_compose(3, 32, 7, 449, 431, 448);
}

proof fn squarings_449_6_0()
    ensures
        pow_mod(448, 2, 449) == 1,
{
    lemma_pow_mod_start(448, 449);
    lemma_pow_mod_square(448, 1, 449, 448, 447, 1);
}

/// A power of the generator 3, from a lower one raised to the power 2.
proof fn power_449_5()
    ensures
        pow_mod(3, 448, 449) == 1,
{
    power_449_3();
    squarings_449_6_0();
    lemma_pow_mod_compose(3, 224, 2, 449, 448, 1);
}

/// 449 is prime: 3 has order 448 modulo it.
pub proof fn lemma_prime_449()
    ensures
        is_generator(3, 449),
        is_prime(449),
{
    let qs: Set<nat> = set![2, 7];
    lemma_two_is_prime();
    lemma_prime_7();
    lemma_covered_one(qs);
    lemma_covered_step(1, 2, qs);
    lemma_covered_step(2, 2, qs);
    lemma_covered_step(4, 2, qs);
    lemma_covered_step(8, 2, qs);
    lemma_covered_step(16, 2, qs);
    lemma_covered_step(32, 2, qs);
    lemma_covered_step(64, 7, qs);
    power_449_3();
    assert(is_witness(3, 449, 2));
    power_449_1();
    assert(is_witness(3, 449, 7));
    power_449_5();
    lemma_lucas(449, 3, qs);
    lemma_generator_prime(3, 449);
}

proof fn squarings_609743_1_0()
    ensures
        pow_mod(5, 679, 609743) == 149340,
{
    lemma_pow_mod_start(5, 609743);
    lemma_pow_mod_square(5, 1, 609743, 5, 0, 25);
    lemma_pow_mod_square_times(5, 2, 609743, 25, 0, 3125);
    lemma_pow_mod_square(5, 5, 609743, 3125, 16, 9737);
    lemma_pow_mod_square_times(5, 10, 609743, 9737, 777, 275534);
    lemma_pow_mod_square(5, 21, 609743, 275534, 124509, 493969);
    lemma_pow_mod_square(5, 42, 609743, 493969, 400177, 248450);
    lemma_pow_mod_square_times(5, 84, 609743, 248450, 506175, 349475);
    lemma_pow_mod_square_times(5, 169, 609743, 349475, 1001510, 166195);
    lemma_pow_mod_square_times(5, 339, 609743, 166195, 226495, 149340);
}

/// A power of the generator 5, from a lower one raised to the power 679.
proof fn power_609743_0()
    ensures
        pow_mod(5, 679, 609743) == 149340,
{
    lemma_pow_mod_start(5, 609743);
    squarings_609743_1_0();
    lemma_pow_mod_compose(5, 1, 679, 609743, 5, 149340);
}

proof fn squarings_609743_3_0()
    ensures
        pow_mod(149340, 2, 609743) == 475632,
{
    lemma_pow_mod_start(149340, 609743);
    lemma_pow_mod_square(149340, 1, 609743, 149340, 36576, 475632);
}

/// A power of the generator 5, from a lower one raised to the power 2.
proof fn power_609743_2()
    ensures
        pow_mod(5, 1358, 609743) == 475632,
{
    power_609743_0();
    squarings_609743_3_0();
    lemma_pow_mod_compose(5, 679, 2, 609743, 149340, 475632);
}

proof fn squarings_609743_5_0()
    ensures
        pow_mod(149340, 449, 609743) == 609742,
{
    lemma_pow_mod_start(149340, 609743);
    lemma_pow_mod_square_times(149340, 1, 609743, 149340, 5462376333nat, 91581);
    lemma_pow_mod_square_times(149340, 3, 609743, 91581, 2054187521, 22637);
    lemma_pow_mod_square(149340, 7, 609743, 22637, 840, 249649);
    lemma_pow_mod_square(149340, 14, 609743, 249649, 102214, 352199);
    lemma_pow_mod_square(149340, 28, 609743, 352199, 203436, 458653);
    lemma_pow_mod_square(149340, 56, 609743, 458653, 345002, 19923);
    lemma_pow_mod_square(149340, 112, 609743, 19923, 650, 592979);
    lemma_pow_mod_square_times(149340, 224, 609743, 592979, 86120779186nat, 609742);
}

/// A power of the generator 5, from a lower one raised to the power 449.
proof fn power_609743_4()
    ensures
        pow_mod(5, 304871, 609743) == 609742,
{
    power_609743_0();
    squarings_609743_5_0();
    lemma_pow_mod_compose(5, 679, 449, 609743, 149340, 609742);
}

proof fn squarings_609743_7_0()
    ensures
        pow_mod(5, 898, 609743) == 235668,
{
    lemma_pow_mod_start(5, 609743);
    lemma_pow_mod_square_times(5, 1, 609743, 5, 0, 125);
    lemma_pow_mod_square_times(5, 3, 609743, 125, 0, 78125);
    lemma_pow_mod_square(5, 7, 609743, 78125, 10009, 597938);
    lemma_pow_mod_square(5, 14, 609743, 597938, 586361, 336621);
    lemma_pow_mod_square(5, 28, 609743, 336621, 185838, 278007);
    lemma_pow_mod_square(5, 56, 609743, 278007, 126754, 527827);
    lemma_pow_mod_square(5, 112, 609743, 527827, 456916, 9341);
    lemma_pow_mod_square_times(5, 224, 609743, 9341, 715, 305160);
    lemma_pow_mod_square(5, 449, 609743, 305160, 152724, 235668);
}

/// A power of the generator 5, from a lower one raised to the power 898.
proof fn power_609743_6()
    ensures
        pow_mod(5, 898, 609743) == 235668,
{
    lemma_pow_mod_start(5, 609743);
    squarings_609743_7_0();
    lemma_pow_mod_compose(5, 1, 898, 609743, 5, 235668);
}

proof fn squarings_609743_9_0()
    ensures
        pow_mod(235668, 7, 609743) == 544069,
{
    lemma_pow_mod_start(235668, 609743);
    lemma_pow_mod_square_times(235668, 1, 609743, 235668, 21466192782nat, 522606);
    lemma_pow_mod_square_times(235668, 3, 609743, 522606, 105560776453nat, 544069);
}

/// A power of the generator 5, from a lower one raised to the power 7.
proof fn power_609743_8()
    ensures
        pow_mod(5, 6286, 609743) == 544069,
{
    power_609743_6();
    squarings_609743_9_0();
    lemma_pow_mod_compose(5, 898, 7, 609743, 235668, 544069);
}

proof fn squarings_609743_11_0()
    ensures
        pow_mod(235668, 97, 609743) == 207533,
{
    lemma_pow_mod_start(235668, 609743);
    lemma_pow_mod_square_times(235668, 1, 609743, 235668, 21466192782nat, 522606);
    lemma_pow_mod_square(235668, 3, 609743, 522606, 447921, 336933);
    lemma_pow_mod_square(235668, 6, 609743, 336933, 186183, 65520);
    lemma_pow_mod_square(235668, 12, 609743, 65520, 7040, 279680);
    lemma_pow_mod_square(235668, 24, 609743, 279680, 128285, 21645);
    lemma_pow_mod_square_times(235668, 48, 609743, 21645, 181079369, 207533);
}

/// A power of the generator 5, from a lower one raised to the power 97.
proof fn power_609743_10()
    ensures
        pow_mod(5, 87106, 609743) == 207533,
{
    power_609743_6();
    squarings_609743_11_0();
    lemma_pow_mod_compose(5, 898, 97, 609743, 235668, 207533);
}

proof fn squarings_609743_13_0()
    ensures
        pow_mod(609742, 2, 609743) == 1,
{
    lemma_pow_mod_start(609742, 609743);
    lemma_pow_mod_square(609742, 1, 609743, 609742, 609741, 1);
}

/// A power of the generator 5, from a lower one raised to the power 2.
proof fn power_609743_12()
    ensures
        pow_mod(5, 609742, 609743) == 1,
{
    power_609743_4();
    squarings_609743_13_0();
    lemma_pow_mod_compose(5, 304871, 2, 609743, 609742, 1);
}

/// 609743 is prime: 5 has order 609742 modulo it.
pub proof fn lemma_prime_609743()
    ensures
        is_generator(5, 609743),
        is_prime(609743),
{
    let qs: Set<nat> = set![2, 7, 97, 449];
    lemma_two_is_prime();
    lemma_prime_7();
    lemma_prime_97();
    lemma_prime_449();
    lemma_covered_one(qs);
    lemma_covered_step(1, 2, qs);
    lemma_covered_step(2, 7, qs);
    lemma_covered_step(14, 97, qs);
    lemma_covered_step(1358, 449, qs);
    power_609743_4();
    assert(is_witness(5, 609743, 2));
    power_609743_10();
    assert(is_witness(5, 609743, 7));
    power_609743_8();
    assert(is_witness(5, 609743, 97));
    power_609743_2();
    assert(is_witness(5, 609743, 449));
    power_609743_12();
    lemma_lucas(609743, 5, qs);
    lemma_generator_prime(5, 609743);
}

proof fn squarings_52437899_1_0()
    ensures
        pow_mod(2, 86, 52437899) == 27034091,
{
    lemma_pow_mod_start(2, 52437899);
    lemma_pow_mod_square(2, 1, 52437899, 2, 0, 4);
    lemma_pow_mod_square_times(2, 2, 52437899, 4, 0, 32);
    lemma_pow_mod_square(2, 5, 52437899, 32, 0, 1024);
    lemma_pow_mod_square_times(2, 10, 52437899, 1024, 0, 2097152);
    lemma_pow_mod_square_times(2, 21, 52437899, 2097152, 167743, 2530251);
    lemma_pow_mod_square(2, 43, 52437899, 2530251, 122090, 27034091);
}

/// A power of the generator 2, from a lower one raised to the power 86.
proof fn power_52437899_0()
    ensures
        pow_mod(2, 86, 52437899) == 27034091,
{
    lemma_pow_mod_start(2, 52437899);
    squarings_52437899_1_0();
    lemma_pow_mod_compose(2, 1, 86, 52437899, 2, 27034091);
}

proof fn squarings_52437899_3_0()
    ensures
        pow_mod(2, 76217, 52437899) == 44656330,
{
    lemma_pow_mod_start(2, 52437899);
    lemma_pow_mod_square(2, 1, 52437899, 2, 0, 4);
    lemma_pow_mod_square(2, 2, 52437899, 4, 0, 16);
    lemma_pow_mod_square_times(2, 4, 52437899, 16, 0, 512);
    lemma_pow_mod_square(2, 9, 52437899, 512, 0, 262144);
    lemma_pow_mod_square_times(2, 18, 52437899, 262144, 2620, 51658092);
    lemma_pow_mod_square(2, 37, 52437899, 51658092, 50889881, 29080445);
    lemma_pow_mod_square(2, 74, 52437899, 29080445, 16127119, 44115044);
    lemma_pow_mod_square_times(2, 148, 52437899, 44115044, 74226357, 2739929);
    lemma_pow_mod_square_times(2, 297, 52437899, 2739929, 286327, 35543109);
    lemma_pow_mod_square(2, 595, 52437899, 35543109, 24091594, 24464875);
    lemma_pow_mod_square_times(2, 1190, 52437899, 24464875, 22828149, 45912299);
    lemma_pow_mod_square_times(2, 2381, 52437899, 45912299, 80397546, 1934948);
    lemma_pow_mod_square_times(2, 4763, 52437899, 1934948, 142798, 20424006);
    lemma_pow_mod_square(2, 9527, 52437899, 20424006, 7954933, 47882269);
    lemma_pow_mod_square(2, 19054, 52437899, 47882269, 43722416, 50344377);
    lemma_pow_mod_square_times(2, 38108, 52437899, 50344377, 96668872, 44656330);
}

proof fn squarings_52437899_3_1()
    ensures
        pow_mod(2, 609743, 52437899) == 31460904,
{
    squarings_52437899_3_0();
    lemma_pow_mod_square_times(2, 76217, 52437899, 44656330, 76059027, 42273527);
    lemma_pow_mod_square_times(2, 152435, 52437899, 42273527, 68158759, 49632117);
    lemma_pow_mod_square_times(2, 304871, 52437899, 49632117, 93952926, 31460904);
}

/// A power of the generator 2, from a lower one raised to the power 609743.
proof fn power_52437899_2()
    ensures
        pow_mod(2, 609743, 52437899) == 31460904,
{
    lemma_pow_mod_start(2, 52437899);
    squarings_52437899_3_1();
    lemma_pow_mod_compose(2, 1, 609743, 52437899, 2, 31460904);
}

proof fn squarings_52437899_5_0()
    ensures
        pow_mod(31460904, 2, 52437899) == 11758757,
{
    lemma_pow_mod_start(31460904, 52437899);
    lemma_pow_mod_square(31460904, 1, 52437899, 31460904, 18875441, 11758757);
}

/// A power of the generator 2, from a lower one raised to the power 2.
proof fn power_52437899_4()
    ensures
        pow_mod(2, 1219486, 52437899) == 11758757,
{
    power_52437899_2();
    squarings_52437899_5_0();
    lemma_pow_mod_compose(2, 609743, 2, 52437899, 31460904, 11758757);
}

proof fn squarings_52437899_7_0()
    ensures
        pow_mod(31460904, 43, 52437899) == 52437898,
{
    lemma_pow_mod_start(31460904, 52437899);
    lemma_pow_mod_square(31460904, 1, 52437899, 31460904, 18875441, 11758757);
    lemma_pow_mod_square_times(31460904, 2, 52437899, 11758757, 82956180124315nat, 35410111);
    lemma_pow_mod_square(31460904, 5, 52437899, 35410111, 23911636, 7539557);
    lemma_pow_mod_square_times(31460904, 10, 52437899, 7539557, 34104962201842nat, 44779138);
    lemma_pow_mod_square_times(31460904, 21, 52437899, 44779138, 1203032536209922nat, 52437898);
}

/// A power of the generator 2, from a lower one raised to the power 43.
proof fn power_52437899_6()
    ensures
        pow_mod(2, 26218949, 52437899) == 52437898,
{
    power_52437899_2();
    squarings_52437899_7_0();
    lemma_pow_mod_compose(2, 609743, 43, 52437899, 31460904, 52437898);
}

proof fn squarings_52437899_9_0()
    ensures
        pow_mod(52437898, 2, 52437899) == 1,
{
    lemma_pow_mod_start(52437898, 52437899);
    lemma_pow_mod_square(52437898, 1, 52437899, 52437898, 52437897, 1);
}

/// A power of the generator 2, from a lower one raised to the power 2.
proof fn power_52437899_8()
    ensures
        pow_mod(2, 52437898, 52437899) == 1,
{
    power_52437899_6();
    squarings_52437899_9_0();
    lemma_pow_mod_compose(2, 26218949, 2, 52437899, 52437898, 1);
}

/// 52437899 is prime: 2 has order 52437898 modulo it.
pub proof fn lemma_prime_52437899()
    ensures
        is_generator(2, 52437899),
        is_prime(52437899),
{
    let qs: Set<nat> = set![2, 43, 609743];
    lemma_two_is_prime();
    lemma_prime_43();
    lemma_prime_609743();
    lemma_covered_one(qs);
    lemma_covered_step(1, 2, qs);
    lemma_covered_step(2, 43, qs);
    lemma_covered_step(86, 609743, qs);
    power_52437899_6();
    assert(is_witness(2, 52437899, 2));
    power_52437899_4();
    assert(is_witness(2, 52437899, 43));
    power_52437899_0();
    assert(is_witness(2, 52437899, 609743));
    power_52437899_8();
    lemma_lucas(52437899, 2, qs);
    lemma_generator_prime(2, 52437899);
}

proof fn squarings_89_0_0()
    ensures
        pow_mod(3, 4, 89) == 81,
{
    lemma_pow_mod_start(3, 89);
    lemma_pow_mod_square(3, 1, 89, 3, 0, 9);
    lemma_pow_mod_square(3, 2, 89, 9, 0, 81);
}

proof fn squarings_89_2_0()
    ensures
        pow_mod(81, 2, 89) == 64,
{
    lemma_pow_mod_start(81, 89);
    lemma_pow_mod_square(81, 1, 89, 81, 73, 64);
}

/// A power of the generator 3, from a lower one raised to the power 2.
proof fn power_89_1()
    ensures
        pow_mod(3, 8, 89) == 64,
{
    squarings_89_0_0();
    squarings_89_2_0();
    lemma_pow_mod_compose(3, 4, 2, 89, 81, 64);
}

proof fn squarings_89_4_0()
    ensures
        pow_mod(81, 11, 89) == 88,
{
    lemma_pow_mod_start(81, 89);
    lemma_pow_mod_square(81, 1, 89, 81, 73, 64);
    lemma_pow_mod_square_times(81, 2, 89, 64, 3727, 73);
    lemma_pow_mod_square_times(81, 5, 89, 73, 4849, 88);
}

/// A power of the generator 3, from a lower one raised to the power 11.
proof fn power_89_3()
    ensures
        pow_mod(3, 44, 89) == 88,
{
    squarings_89_0_0();
    squarings_89_4_0();
    lemma_pow_mod_compose(3, 4, 11, 89, 81, 88);
}

proof fn squarings_89_6_0()
    ensures
        pow_mod(88, 2, 89) == 1,
{
    lemma_pow_mod_start(88, 89);
    lemma_pow_mod_square(88, 1, 89, 88, 87, 1);
}

/// A power of the generator 3, from a lower one raised to the power 2.
proof fn power_89_5()
    ensures
        pow_mod(3, 88, 89) == 1,
{
    power_89_3();
    squarings_89_6_0();
    lemma_pow_mod_compose(3, 44, 2, 89, 88, 1);
}

/// 89 is prime: 3 has order 88 modulo it.
pub proof fn lemma_prime_89()
    ensures
        is_generator(3, 89),
        is_prime(89),
{
    let qs: Set<nat> = set![2, 11];
    lemma_two_is_prime();
    lemma_prime_11();
    lemma_covered_one(qs);
    lemma_covered_step(1, 2, qs);
    lemma_covered_step(2, 2, qs);
    lemma_covered_step(4, 2, qs);
    lemma_covered_step(8, 11, qs);
    power_89_3();
    assert(is_witness(3, 89, 2));
    power_89_1();
    assert(is_witness(3, 89, 11));
    power_89_5();
    lemma_lucas(89, 3, qs);
    lemma_generator_prime(3, 89);
}

proof fn squarings_179_1_0()
    ensures
        pow_mod(2, 2, 179) == 4,
{
    lemma_pow_mod_start(2, 179);
    lemma_pow_mod_square(2, 1, 179, 2, 0, 4);
}

/// A power of the generator 2, from a lower one raised to the power 2.
proof fn power_179_0()
    ensures
        pow_mod(2, 2, 179) == 4,
{
    lemma_pow_mod_start(2, 179);
    squarings_179_1_0();
    lemma_pow_mod_compose(2, 1, 2, 179, 2, 4);
}

proof fn squarings_179_3_0()
    ensures
        pow_mod(2, 89, 179) == 178,
{
    lemma_pow_mod_start(2, 179);
    lemma_pow_mod_square(2, 1, 179, 2, 0, 4);
    lemma_pow_mod_square_times(2, 2, 179, 4, 0, 32);
    lemma_pow_mod_square_times(2, 5, 179, 32, 11, 79);
    lemma_pow_mod_square(2, 11, 179, 79, 34, 155);
    lemma_pow_mod_square(2, 22, 179, 155, 134, 39);
    lemma_pow_mod_square_times(2, 44, 179, 39, 16, 178);
}

/// A power of the generator 2, from a lower one raised to the power 89.
proof fn power_179_2()
    ensures
        pow_mod(2, 89, 179) == 178,
{
    lemma_pow_mod_start(2, 179);
    squarings_179_3_0();
    lemma_pow_mod_compose(2, 1, 89, 179, 2, 178);
}

proof fn squarings_179_5_0()
    ensures
        pow_mod(178, 2, 179) == 1,
{
    lemma_pow_mod_start(178, 179);
    lemma_pow_mod_square(178, 1, 179, 178, 177, 1);
}

/// A power of the generator 2, from a lower one raised to the power 2.
proof fn power_179_4()
    ensures
        pow_mod(2, 178, 179) == 1,
{
    power_179_2();
    squarings_179_5_0();
    lemma_pow_mod_compose(2, 89, 2, 179, 178, 1);
}

/// 179 is prime: 2 has order 178 modulo it.
pub proof fn lemma_prime_179()
    ensures
        is_generator(2, 179),
        is_prime(179),
{
    let qs: Set<nat> = set![2, 89];
    lemma_two_is_prime();
    lemma_prime_89();
    lemma_covered_one(qs);
    lemma_covered_step(1, 2, qs);
    lemma_covered_step(2, 89, qs);
    power_179_2();
    assert(is_witness(2, 179, 2));
    power_179_0();
    assert(is_witness(2, 179, 89));
    power_179_4();
    lemma_lucas(179, 2, qs);
    lemma_generator_prime(2, 179);
}

proof fn squarings_359_1_0()
    ensures
        pow_mod(7, 2, 359) == 49,
{
    lemma_pow_mod_start(7, 359);
    lemma_pow_mod_square(7, 1, 359, 7, 0, 49);
}

/// A power of the generator 7, from a lower one raised to the power 2.
proof fn power_359_0()
    ensures
        pow_mod(7, 2, 359) == 49,
{
    lemma_pow_mod_start(7, 359);
    squarings_359_1_0();
    lemma_pow_mod_compose(7, 1, 2, 359, 7, 49);
}

proof fn squarings_359_3_0()
    ensures
        pow_mod(7, 179, 359) == 358,
{
    lemma_pow_mod_start(7, 359);
    lemma_pow_mod_square(7, 1, 359, 7, 0, 49);
    lemma_pow_mod_square_times(7, 2, 359, 49, 46, 293);
    lemma_pow_mod_square_times(7, 5, 359, 293, 1673, 336);
    lemma_pow_mod_square(7, 11, 359, 336, 314, 170);
    lemma_pow_mod_square(7, 22, 359, 170, 80, 180);
    lemma_pow_mod_square_times(7, 44, 359, 180, 631, 271);
    lemma_pow_mod_square_times(7, 89, 359, 271, 1431, 358);
}

/// A power of the generator 7, from a lower one raised to the power 179.
proof fn power_359_2()
    ensures
        pow_mod(7, 179, 359) == 358,
{
    lemma_pow_mod_start(7, 359);
    squarings_359_3_0();
    lemma_pow_mod_compose(7, 1, 179, 359, 7, 358);
}

proof fn squarings_359_5_0()
    ensures
        pow_mod(358, 2, 359) == 1,
{
    lemma_pow_mod_start(358, 359);
    lemma_pow_mod_square(358, 1, 359, 358, 357, 1);
}

/// A power of the generator 7, from a lower one raised to the power 2.
proof fn power_359_4()
    ensures
        pow_mod(7, 358, 359) == 1,
{
    power_359_2();
    squarings_359_5_0();
    lemma_pow_mod_compose(7, 179, 2, 359, 358, 1);
}

/// 359 is prime: 7 has order 358 modulo it.
pub proof fn lemma_prime_359()
    ensures
        is_generator(7, 359),
        is_prime(359),
{
    let qs: Set<nat> = set![2, 179];
    lemma_two_is_prime();
    lemma_prime_179();
    lemma_covered_one(qs);
    lemma_covered_step(1, 2, qs);
    lemma_covered_step(2, 179, qs);
    power_359_2();
    assert(is_witness(7, 359, 2));
    power_359_0();
    assert(is_witness(7, 359, 179));
    power_359_4();
    lemma_lucas(359, 7, qs);
    lemma_generator_prime(7, 359);
}

proof fn squarings_110573_0_0()
    ensures
        pow_mod(3, 2, 110573) == 9,
{
    lemma_pow_mod_start(3, 110573);
    lemma_pow_mod_square(3, 1, 110573, 3, 0, 9);
}

proof fn squarings_110573_2_0()
    ensures
        pow_mod(9, 154, 110573) == 48848,
{
    lemma_pow_mod_start(9, 110573);
    lemma_pow_mod_square(9, 1, 110573, 9, 0, 81);
    lemma_pow_mod_square(9, 2, 110573, 81, 0, 6561);
    lemma_pow_mod_square_times(9, 4, 110573, 6561, 3503, 83270);
    lemma_pow_mod_square_times(9, 9, 110573, 83270, 564378, 67506);
    lemma_pow_mod_square(9, 19, 110573, 67506, 41213, 14987);
    lemma_pow_mod_square_times(9, 38, 110573, 14987, 18281, 106508);
    lemma_pow_mod_square(9, 77, 110573, 106508, 102592, 48848);
}

/// A power of the generator 3, from a lower one raised to the power 154.
proof fn power_110573_1()
    ensures
        pow_mod(3, 308, 110573) == 48848,
{
    squarings_110573_0_0();
    squarings_110573_2_0();
    lemma_pow_mod_compose(3, 2, 154, 110573, 9, 48848);
}

proof fn squarings_110573_4_0()
    ensures
        pow_mod(9, 359, 110573) == 83505,
{
    lemma_pow_mod_start(9, 110573);
    lemma_pow_mod_square(9, 1, 110573, 9, 0, 81);
    lemma_pow_mod_square_times(9, 2, 110573, 81, 0, 59049);
    lemma_pow_mod_square_times(9, 5, 110573, 59049, 283803, 110490);
    lemma_pow_mod_square(9, 11, 110573, 110490, 110407, 6889);
    lemma_pow_mod_square(9, 22, 110573, 6889, 429, 22504);
    lemma_pow_mod_square_times(9, 44, 110573, 22504, 41220, 51084);
    lemma_pow_mod_square_times(9, 89, 110573, 51084, 212404, 28012);
    lemma_pow_mod_square_times(9, 179, 110573, 28012, 63867, 83505);
}

/// A power of the generator 3, from a lower one raised to the power 359.
proof fn power_110573_3()
    ensures
        pow_mod(3, 718, 110573) == 83505,
{
    squarings_110573_0_0();
    squarings_110573_4_0();
    lemma_pow_mod_compose(3, 2, 359, 110573, 9, 83505);
}

proof fn squarings_110573_6_0()
    ensures
        pow_mod(83505, 14, 110573) == 59068,
{
    lemma_pow_mod_start(83505, 110573);
    lemma_pow_mod_square_times(83505, 1, 110573, 83505, 5266090863nat, 18126);
    lemma_pow_mod_square_times(83505, 3, 110573, 18126, 248123180, 23240);
    lemma_pow_mod_square(83505, 7, 110573, 23240, 4884, 59068);
}

/// A power of the generator 3, from a lower one raised to the power 14.
proof fn power_110573_5()
    ensures
        pow_mod(3, 10052, 110573) == 59068,
{
    power_110573_3();
    squarings_110573_6_0();
    lemma_pow_mod_compose(3, 718, 14, 110573, 83505, 59068);
}

proof fn squarings_110573_8_0()
    ensures
        pow_mod(83505, 11, 110573) == 109100,
{
    lemma_pow_mod_start(83505, 110573);
    lemma_pow_mod_square(83505, 1, 110573, 83505, 63063, 19926);
    lemma_pow_mod_square_times(83505, 2, 110573, 19926, 299849714, 47258);
    lemma_pow_mod_square_times(83505, 5, 110573, 47258, 1686607640, 109100);
}

/// A power of the generator 3, from a lower one raised to the power 11.
proof fn power_110573_7()
    ensures
        pow_mod(3, 7898, 110573) == 109100,
{
    power_110573_3();
    squarings_110573_8_0();
    lemma_pow_mod_compose(3, 718, 11, 110573, 83505, 109100);
}

proof fn squarings_110573_10_0()
    ensures
        pow_mod(109100, 2, 110573) == 68842,
{
    lemma_pow_mod_start(109100, 110573);
    lemma_pow_mod_square(109100, 1, 110573, 109100, 107646, 68842);
}

/// A power of the generator 3, from a lower one raised to the power 2.
proof fn power_110573_9()
    ensures
        pow_mod(3, 15796, 110573) == 68842,
{
    power_110573_7();
    squarings_110573_10_0();
    lemma_pow_mod_compose(3, 7898, 2, 110573, 109100, 68842);
}

proof fn squarings_110573_12_0()
    ensures
        pow_mod(109100, 7, 110573) == 110572,
{
    lemma_pow_mod_start(109100, 110573);
    lemma_pow_mod_square_times(109100, 1, 110573, 109100, 11744246524nat, 101748);
    lemma_pow_mod_square_times(109100, 3, 110573, 101748, 10214742436nat, 110572);
}

/// A power of the generator 3, from a lower one raised to the power 7.
proof fn power_110573_11()
    ensures
        pow_mod(3, 55286, 110573) == 110572,
{
    power_110573_7();
    squarings_110573_12_0();
    lemma_pow_mod_compose(3, 7898, 7, 110573, 109100, 110572);
}

proof fn squarings_110573_14_0()
    ensures
        pow_mod(110572, 2, 110573) == 1,
{
    lemma_pow_mod_start(110572, 110573);
    lemma_pow_mod_square(110572, 1, 110573, 110572, 110571, 1);
}

/// A power of the generator 3, from a lower one raised to the power 2.
proof fn power_110573_13()
    ensures
        pow_mod(3, 110572, 110573) == 1,
{
    power_110573_11();
    squarings_110573_14_0();
    lemma_pow_mod_compose(3, 55286, 2, 110573, 110572, 1);
}

/// 110573 is prime: 3 has order 110572 modulo it.
pub proof fn lemma_prime_110573()
    ensures
        is_generator(3, 110573),
        is_prime(110573),
{
    let qs: Set<nat> = set![2, 7, 11, 359];
    lemma_two_is_prime();
    lemma_prime_7();
    lemma_prime_11();
    lemma_prime_359();
    lemma_covered_one(qs);
    lemma_covered_step(1, 2, qs);
    lemma_covered_step(2, 2, qs);
    lemma_covered_step(4, 7, qs);
    lemma_covered_step(28, 11, qs);
    lemma_covered_step(308, 359, qs);
    power_110573_11();
    assert(is_witness(3, 110573, 2));
    power_110573_9();
    assert(is_witness(3, 110573, 7));
    power_110573_5();
    assert(is_witness(3, 110573, 11));
    power_110573_1();
    assert(is_witness(3, 110573, 359));
    power_110573_13();
    lemma_lucas(110573, 3, qs);
    lemma_generator_prime(3, 110573);
}

proof fn squarings_2653753_0_0()
    ensures
        pow_mod(5, 4, 2653753) == 625,
{
    lemma_pow_mod_start(5, 2653753);
    lemma_pow_mod_square(5, 1, 2653753, 5, 0, 25);
    lemma_pow_mod_square(5, 2, 2653753, 25, 0, 625);
}

proof fn squarings_2653753_2_0()
    ensures
        pow_mod(625, 6, 2653753) == 401777,
{
    lemma_pow_mod_start(625, 2653753);
    lemma_pow_mod_square_times(625, 1, 2653753, 625, 91, 2649102);
    lemma_pow_mod_square(625, 3, 2653753, 2649102, 2644459, 401777);
}

/// A power of the generator 5, from a lower one raised to the power 6.
proof fn power_2653753_1()
    ensures
        pow_mod(5, 24, 2653753) == 401777,
{
    squarings_2653753_0_0();
    squarings_2653753_2_0();
    lemma_pow_mod_compose(5, 4, 6, 2653753, 625, 401777);
}

proof fn squarings_2653753_4_0()
    ensures
        pow_mod(625, 110573, 2653753) == 2076728,
{
    lemma_pow_mod_start(625, 2653753);
    lemma_pow_mod_square_times(625, 1, 2653753, 625, 91, 2649102);
    lemma_pow_mod_square(625, 3, 2653753, 2649102, 2644459, 401777);
    lemma_pow_mod_square_times(625, 6, 2653753, 401777, 38018034, 1799023);
    lemma_pow_mod_square(625, 13, 2653753, 1799023, 1219587, 1094518);
    lemma_pow_mod_square_times(625, 26, 2653753, 1094518, 282140437, 1592439);
    lemma_pow_mod_square_times(625, 53, 2653753, 1592439, 597234833, 672376);
    lemma_pow_mod_square_times(625, 107, 2653753, 672376, 106474087, 561489);
    lemma_pow_mod_square_times(625, 215, 2653753, 561489, 74250951, 1731522);
    lemma_pow_mod_square_times(625, 431, 2653753, 1731522, 706115178, 839466);
    lemma_pow_mod_square_times(625, 863, 2653753, 839466, 165968527, 1790669);
    lemma_pow_mod_square_times(625, 1727, 2653753, 1790669, 755179425, 2593600);
    lemma_pow_mod_square(625, 3455, 2653753, 2593600, 2534810, 1318070);
    lemma_pow_mod_square_times(625, 6910, 2653753, 1318070, 409163109, 64423);
    lemma_pow_mod_square_times(625, 13821, 2653753, 64423, 977465, 1154480);
    lemma_pow_mod_square(625, 27643, 2653753, 1154480, 502241, 509927);
    lemma_pow_mod_square_times(625, 55286, 2653753, 509927, 61240049, 2076728);
}

/// A power of the generator 5, from a lower one raised to the power 110573.
proof fn power_2653753_3()
    ensures
        pow_mod(5, 442292, 2653753) == 2076728,
{
    squarings_2653753_0_0();
    squarings_2653753_4_0();
    lemma_pow_mod_compose(5, 4, 110573, 2653753, 625, 2076728);
}

proof fn squarings_2653753_6_0()
    ensures
        pow_mod(2076728, 2, 2653753) == 2076727,
{
    lemma_pow_mod_start(2076728, 2653753);
    lemma_pow_mod_square(2076728, 1, 2653753, 2076728, 1625169, 2076727);
}

/// A power of the generator 5, from a lower one raised to the power 2.
proof fn power_2653753_5()
    ensures
        pow_mod(5, 884584, 2653753) == 2076727,
{
    power_2653753_3();
    squarings_2653753_6_0();
    lemma_pow_mod_compose(5, 442292, 2, 2653753, 2076728, 2076727);
}

proof fn squarings_2653753_8_0()
    ensures
        pow_mod(2076728, 3, 2653753) == 2653752,
{
    lemma_pow_mod_start(2076728, 2653753);
    lemma_pow_mod_square_times(2076728, 1, 2653753, 2076728, 3375035592200nat, 2653752);
}

/// A power of the generator 5, from a lower one raised to the power 3.
proof fn power_2653753_7()
    ensures
        pow_mod(5, 1326876, 2653753) == 2653752,
{
    power_2653753_3();
    squarings_2653753_8_0();
    lemma_pow_mod_compose(5, 442292, 3, 2653753, 2076728, 2653752);
}

proof fn squarings_2653753_10_0()
    ensures
        pow_mod(2653752, 2, 2653753) == 1,
{
    lemma_pow_mod_start(2653752, 2653753);
    lemma_pow_mod_square(2653752, 1, 2653753, 2653752, 2653751, 1);
}

/// A power of the generator 5, from a lower one raised to the power 2.
proof fn power_2653753_9()
    ensures
        pow_mod(5, 2653752, 2653753) == 1,
{
    power_2653753_7();
    squarings_2653753_10_0();
    lemma_pow_mod_compose(5, 1326876, 2, 2653753, 2653752, 1);
}

/// 2653753 is prime: 5 has order 2653752 modulo it.
pub proof fn lemma_prime_2653753()
    ensures
        is_generator(5, 2653753),
        is_prime(2653753),
{
    let qs: Set<nat> = set![2, 3, 110573];
    lemma_two_is_prime();
    lemma_prime_3();
    lemma_prime_110573();
    lemma_covered_one(qs);
    lemma_covered_step(1, 2, qs);
    lemma_covered_step(2, 2, qs);
    lemma_covered_step(4, 2, qs);
    lemma_covered_step(8, 3, qs);
    lemma_covered_step(24, 110573, qs);
    power_2653753_7();
    assert(is_witness(5, 2653753, 2));
    power_2653753_5();
    assert(is_witness(5, 2653753, 3));
    power_2653753_1();
    assert(is_witness(5, 2653753, 110573));
    power_2653753_9();
    lemma_lucas(2653753, 5, qs);
    lemma_generator_prime(5, 2653753);
}

proof fn squarings_63690073_0_0()
    ensures
        pow_mod(7, 4, 63690073) == 2401,
{
    lemma_pow_mod_start(7, 63690073);
    lemma_pow_mod_square(7, 1, 63690073, 7, 0, 49);
    lemma_pow_mod_square(7, 2, 63690073, 49, 0, 2401);
}

proof fn squarings_63690073_2_0()
    ensures
        pow_mod(2401, 6, 63690073) == 36433797,
{
    lemma_pow_mod_start(2401, 63690073);
    lemma_pow_mod_square_times(2401, 1, 63690073, 2401, 217, 20541360);
    lemma_pow_mod_square(2401, 3, 63690073, 20541360, 6625011, 36433797);
}

/// A power of the generator 7, from a lower one raised to the power 6.
proof fn power_63690073_1()
    ensures
        pow_mod(7, 24, 63690073) == 36433797,
{
    squarings_63690073_0_0();
    squarings_63690073_2_0();
    lemma_pow_mod_compose(7, 4, 6, 63690073, 2401, 36433797);
}

proof fn squarings_63690073_4_0()
    ensures
        pow_mod(2401, 82929, 63690073) == 30748879,
{
    lemma_pow_mod_start(2401, 63690073);
    lemma_pow_mod_square(2401, 1, 63690073, 2401, 0, 5764801);
    lemma_pow_mod_square_times(2401, 2, 63690073, 5764801, 1252821084, 1712869);
    lemma_pow_mod_square(2401, 5, 63690073, 1712869, 46065, 36998416);
    lemma_pow_mod_square(2401, 10, 63690073, 36998416, 21492875, 8779181);
    lemma_pow_mod_square(2401, 20, 63690073, 8779181, 1210141, 50400468);
    lemma_pow_mod_square(2401, 40, 63690073, 50400468, 39883879, 9585857);
    lemma_pow_mod_square_times(2401, 80, 63690073, 9585857, 3464035270nat, 52227339);
    lemma_pow_mod_square_times(2401, 161, 63690073, 52227339, 102829141812nat, 55599045);
    lemma_pow_mod_square_times(2401, 323, 63690073, 55599045, 116534650315nat, 1949030);
    lemma_pow_mod_square_times(2401, 647, 63690073, 1949030, 143204762, 30373274);
    lemma_pow_mod_square_times(2401, 1295, 63690073, 30373274, 34777922018nat, 8534162);
    lemma_pow_mod_square_times(2401, 2591, 63690073, 8534162, 2745631056nat, 34720756);
    lemma_pow_mod_square(2401, 5183, 63690073, 34720756, 18928081, 36571623);
    lemma_pow_mod_square(2401, 10366, 63690073, 36571623, 20999875, 37113254);
    lemma_pow_mod_square(2401, 20732, 63690073, 37113254, 21626504, 3973724);
    lemma_pow_mod_square_times(2401, 41464, 63690073, 3973724, 595272489, 30748879);
}

proof fn squarings_63690073_4_1()
    ensures
        pow_mod(2401, 2653753, 63690073) == 2527737,
{
    squarings_63690073_4_0();
    lemma_pow_mod_square_times(2401, 82929, 63690073, 30748879, 35643388836nat, 43470013);
    lemma_pow_mod_square_times(2401, 165859, 63690073, 43470013, 71236070251nat, 39307446);
    lemma_pow_mod_square(2401, 331719, 63690073, 39307446, 24259279, 60605549);
    lemma_pow_mod_square(2401, 663438, 63690073, 60605549, 57670409, 10441544);
    lemma_pow_mod_square_times(2401, 1326876, 63690073, 10441544, 4110076063nat, 2527737);
}

/// A power of the generator 7, from a lower one raised to the power 2653753.
proof fn power_63690073_3()
    ensures
        pow_mod(7, 10615012, 63690073) == 2527737,
{
    squarings_63690073_0_0();
    squarings_63690073_4_1();
    lemma_pow_mod_compose(7, 4, 2653753, 63690073, 2401, 2527737);
}

proof fn squarings_63690073_6_0()
    ensures
        pow_mod(2527737, 2, 63690073) == 2527736,
{
    lemma_pow_mod_start(2527737, 63690073);
    lemma_pow_mod_square(2527737, 1, 63690073, 2527737, 100321, 2527736);
}

/// A power of the generator 7, from a lower one raised to the power 2.
proof fn power_63690073_5()
    ensures
        pow_mod(7, 21230024, 63690073) == 2527736,
{
    power_63690073_3();
    squarings_63690073_6_0();
    lemma_pow_mod_compose(7, 10615012, 2, 63690073, 2527737, 2527736);
}

proof fn squarings_63690073_8_0()
    ensures
        pow_mod(2527737, 3, 63690073) == 63690072,
{
    lemma_pow_mod_start(2527737, 63690073);
    lemma_pow_mod_square_times(2527737, 1, 63690073, 2527737, 253585203897nat, 63690072);
}

/// A power of the generator 7, from a lower one raised to the power 3.
proof fn power_63690073_7()
    ensures
        pow_mod(7, 31845036, 63690073) == 63690072,
{
    power_63690073_3();
    squarings_63690073_8_0();
    lemma_pow_mod_compose(7, 10615012, 3, 63690073, 2527737, 63690072);
}

proof fn squarings_63690073_10_0()
    ensures
        pow_mod(63690072, 2, 63690073) == 1,
{
    lemma_pow_mod_start(63690072, 63690073);
    lemma_pow_mod_square(63690072, 1, 63690073, 63690072, 63690071, 1);
}

/// A power of the generator 7, from a lower one raised to the power 2.
proof fn power_63690073_9()
    ensures
        pow_mod(7, 63690072, 63690073) == 1,
{
    power_63690073_7();
    squarings_63690073_10_0();
    lemma_pow_mod_compose(7, 31845036, 2, 63690073, 63690072, 1);
}

/// 63690073 is prime: 7 has order 63690072 modulo it.
pub proof fn lemma_prime_63690073()
    ensures
        is_generator(7, 63690073),
        is_prime(63690073),
{
    let qs: Set<nat> = set![2, 3, 2653753];
    lemma_two_is_prime();
    lemma_prime_3();
    lemma_prime_2653753();
    lemma_covered_one(qs);
    lemma_covered_step(1, 2, qs);
    lemma_covered_step(2, 2, qs);
    lemma_covered_step(4, 2, qs);
    lemma_covered_step(8, 3, qs);
    lemma_covered_step(24, 2653753, qs);
    power_63690073_7();
    assert(is_witness(7, 63690073, 2));
    power_63690073_5();
    assert(is_witness(7, 63690073, 3));
    power_63690073_1();
    assert(is_witness(7, 63690073, 2653753));
    power_63690073_9();
    lemma_lucas(63690073, 7, qs);
    lemma_generator_prime(7, 63690073);
}

proof fn squarings_254760293_0_0()
    ensures
        pow_mod(2, 2, 254760293) == 4,
{
    lemma_pow_mod_start(2, 254760293);
    lemma_pow_mod_square(2, 1, 254760293, 2, 0, 4);
}

proof fn squarings_254760293_2_0()
    ensures
        pow_mod(4, 2, 254760293) == 16,
{
    lemma_pow_mod_start(4, 254760293);
    lemma_pow_mod_square(4, 1, 254760293, 4, 0, 16);
}

/// A power of the generator 2, from a lower one raised to the power 2.
proof fn power_254760293_1()
    ensures
        pow_mod(2, 4, 254760293) == 16,
{
    squarings_254760293_0_0();
    squarings_254760293_2_0();
    lemma_pow_mod_compose(2, 2, 2, 254760293, 4, 16);
}

proof fn squarings_254760293_4_0()
    ensures
        pow_mod(4, 124394, 254760293) == 204597954,
{
    lemma_pow_mod_start(4, 254760293);
    lemma_pow_mod_square_times(4, 1, 254760293, 4, 0, 64);
    lemma_pow_mod_square_times(4, 3, 254760293, 64, 0, 16384);
    lemma_pow_mod_square_times(4, 7, 254760293, 16384, 4, 54700652);
    lemma_pow_mod_square(4, 15, 254760293, 54700652, 11745006, 159378346);
    lemma_pow_mod_square(4, 30, 254760293, 159378346, 99707285, 32861211);
    lemma_pow_mod_square_times(4, 60, 254760293, 32861211, 16954905, 187958919);
    lemma_pow_mod_square(4, 121, 254760293, 187958919, 138673710, 240651531);
    lemma_pow_mod_square_times(4, 242, 254760293, 240651531, 909296479, 76667497);
    lemma_pow_mod_square_times(4, 485, 254760293, 76667497, 92289187, 64128245);
    lemma_pow_mod_square_times(4, 971, 254760293, 64128245, 64569431, 66716817);
    lemma_pow_mod_square_times(4, 1943, 254760293, 66716817, 69887400, 181437756);
    lemma_pow_mod_square(4, 3887, 254760293, 181437756, 129218171, 197431433);
    lemma_pow_mod_square_times(4, 7774, 254760293, 197431433, 612013281, 158282623);
    lemma_pow_mod_square(4, 15549, 254760293, 158282623, 98341026, 146079511);
    lemma_pow_mod_square_times(4, 31098, 254760293, 146079511, 335047872, 96249988);
    lemma_pow_mod_square(4, 62197, 254760293, 96249988, 36363830, 204597954);
}

proof fn squarings_254760293_4_1()
    ensures
        pow_mod(4, 63690073, 254760293) == 254760292,
{
    squarings_254760293_4_0();
    lemma_pow_mod_square_times(4, 124394, 254760293, 204597954, 657250347, 147872793);
    lemma_pow_mod_square(4, 248789, 254760293, 147872793, 85831126, 101340931);
    lemma_pow_mod_square_times(4, 497578, 254760293, 101340931, 161249371, 181761341);
    lemma_pow_mod_square(4, 995157, 254760293, 181761341, 129679490, 213627711);
    lemma_pow_mod_square_times(4, 1990314, 254760293, 213627711, 716544927, 78214473);
    lemma_pow_mod_square_times(4, 3980629, 254760293, 78214473, 96051134, 105848654);
    lemma_pow_mod_square(4, 7961259, 254760293, 105848654, 43978350, 221955166);
    lemma_pow_mod_square(4, 15922518, 254760293, 221955166, 193374309, 94575019);
    lemma_pow_mod_square_times(4, 31845036, 254760293, 94575019, 140436864, 254760292);
}

/// A power of the generator 2, from a lower one raised to the power 63690073.
proof fn power_254760293_3()
    ensures
        pow_mod(2, 127380146, 254760293) == 254760292,
{
    squarings_254760293_0_0();
    squarings_254760293_4_1();
    lemma_pow_mod_compose(2, 2, 63690073, 254760293, 4, 254760292);
}

proof fn squarings_254760293_6_0()
    ensures
        pow_mod(254760292, 2, 254760293) == 1,
{
    lemma_pow_mod_start(254760292, 254760293);
    lemma_pow_mod_square(254760292, 1, 254760293, 254760292, 254760291, 1);
}

/// A power of the generator 2, from a lower one raised to the power 2.
proof fn power_254760293_5()
    ensures
        pow_mod(2, 254760292, 254760293) == 1,
{
    power_254760293_3();
    squarings_254760293_6_0();
    lemma_pow_mod_compose(2, 127380146, 2, 254760293, 254760292, 1);
}

/// 254760293 is prime: 2 has order 254760292 modulo it.
pub proof fn lemma_prime_254760293()
    ensures
        is_generator(2, 254760293),
        is_prime(254760293),
{
    let qs: Set<nat> = set![2, 63690073];
    lemma_two_is_prime();
    lemma_prime_63690073();
    lemma_covered_one(qs);
    lemma_covered_step(1, 2, qs);
    lemma_covered_step(2, 2, qs);
    lemma_covered_step(4, 63690073, qs);
    power_254760293_3();
    assert(is_witness(2, 254760293, 2));
    power_254760293_1();
    assert(is_witness(2, 254760293, 63690073));
    power_254760293_5();
    lemma_lucas(254760293, 2, qs);
    lemma_generator_prime(2, 254760293);
}

} // verus!
