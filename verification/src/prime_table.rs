//! The published prime counts of the small limits, checked: primes counted by
//! trial division, step by step, and trial division shown to decide primality.
use vstd::prelude::*;
use crate::sieve::{is_prime, lemma_small_divisor, prime_count, spec_known_pi};

verus! {

/// Whether `n` has a divisor in `[d, n)` whose square is at most `n` (trial
/// division from `d` on).
spec fn has_divisor_from(n: nat, d: nat) -> bool
    decreases n + 1 - d,
{
    if d > n || d * d > n {
        false
    } else if n % d == 0 {
        true
    } else {
        has_divisor_from(n, d + 1)
    }
}

/// The number of primes in `[2, n]`, found by trial division.
spec fn count_by_division(n: nat) -> nat
    decreases n,
{
    if n < 2 {
        0
    } else {
        count_by_division((n - 1) as nat) + if has_divisor_from(n, 2) { 0nat } else { 1nat }
    }
}

/// A divisor found by trial division makes `n` composite.
proof fn lemma_divisor_found(n: nat, d: nat)
    requires
        d >= 2,
        has_divisor_from(n, d),
    ensures
        !is_prime(n as int),
    decreases n + 1 - d,
{
    if !(d > n || d * d > n) {
        if n % d == 0 {
            assert(d < n) by (nonlinear_arith) requires d >= 2, d * d <= n;
            assert((n as int) % (d as int) == 0);
        } else {
            lemma_divisor_found(n, d + 1);
        }
    }
}

/// Trial division from `d0` finds a divisor `d >= d0` whose square is at most `n`.
proof fn lemma_divisor_reached(n: nat, d0: nat, d: nat)
    requires
        2 <= d0 <= d,
        d * d <= n,
        n % d == 0,
    ensures
        has_divisor_from(n, d0),
    decreases d - d0,
{
    assert(d0 * d0 <= d * d) by (nonlinear_arith) requires 2 <= d0 <= d;
    assert(d0 <= n) by (nonlinear_arith) requires 2 <= d0, d0 * d0 <= n;
    if d0 < d && n % d0 != 0 {
        lemma_divisor_reached(n, d0 + 1, d);
    }
}

/// Trial division decides primality.
proof fn lemma_division_decides(n: nat)
    requires n >= 2,
    ensures has_divisor_from(n, 2) == !is_prime(n as int),
{
    if has_divisor_from(n, 2) {
        lemma_divisor_found(n, 2);
    } else if !is_prime(n as int) {
        let d = lemma_small_divisor(n as int);
        lemma_divisor_reached(n, 2, d as nat);
    }
}

/// Counting by trial division gives the prime count.
proof fn lemma_count_by_division(n: nat)
    ensures count_by_division(n) == prime_count(n as int),
    decreases n,
{
    if n >= 2 {
        lemma_count_by_division((n - 1) as nat);
        lemma_division_decides(n);
    }
}

/// Trial division up to 100.
proof fn lemma_count_100()
    ensures count_by_division(100) == 25, count_by_division(10) == 4,
{
    assert(count_by_division(0) == 0);
    assert(count_by_division(1) == 0);
    assert(!has_divisor_from(2, 2));
    assert(count_by_division(2) == 1);
    assert(!has_divisor_from(3, 2));
    assert(count_by_division(3) == 2);
    assert(has_divisor_from(4, 2));
    assert(count_by_division(4) == 2);
    assert(!has_divisor_from(5, 3));
    assert(!has_divisor_from(5, 2));
    assert(count_by_division(5) == 3);
    assert(has_divisor_from(6, 2));
    assert(count_by_division(6) == 3);
    assert(!has_divisor_from(7, 3));
    assert(!has_divisor_from(7, 2));
    assert(count_by_division(7) == 4);
    assert(has_divisor_from(8, 2));
    assert(count_by_division(8) == 4);
    assert(has_divisor_from(9, 3));
    assert(has_divisor_from(9, 2));
    assert(count_by_division(9) == 4);
    assert(has_divisor_from(10, 2));
    assert(count_by_division(10) == 4);
    assert(!has_divisor_from(11, 4));
    assert(!has_divisor_from(11, 3));
    assert(!has_divisor_from(11, 2));
    assert(count_by_division(11) == 5);
    assert(has_divisor_from(12, 2));
    assert(count_by_division(12) == 5);
    assert(!has_divisor_from(13, 4));
    assert(!has_divisor_from(13, 3));
    assert(!has_divisor_from(13, 2));
    assert(count_by_division(13) == 6);
    assert(has_divisor_from(14, 2));
    assert(count_by_division(14) == 6);
    assert(has_divisor_from(15, 3));
    assert(has_divisor_from(15, 2));
    assert(count_by_division(15) == 6);
    assert(has_divisor_from(16, 2));
    assert(count_by_division(16) == 6);
    assert(!has_divisor_from(17, 5));
    assert(!has_divisor_from(17, 4));
    assert(!has_divisor_from(17, 3));
    assert(!has_divisor_from(17, 2));
    assert(count_by_division(17) == 7);
    assert(has_divisor_from(18, 2));
    assert(count_by_division(18) == 7);
    assert(!has_divisor_from(19, 5));
    assert(!has_divisor_from(19, 4));
    assert(!has_divisor_from(19, 3));
    assert(!has_divisor_from(19, 2));
    assert(count_by_division(19) == 8);
    assert(has_divisor_from(20, 2));
    assert(count_by_division(20) == 8);
    assert(has_divisor_from(21, 3));
    assert(has_divisor_from(21, 2));
    assert(count_by_division(21) == 8);
    assert(has_divisor_from(22, 2));
    assert(count_by_division(22) == 8);
    assert(!has_divisor_from(23, 5));
    assert(!has_divisor_from(23, 4));
    assert(!has_divisor_from(23, 3));
    assert(!has_divisor_from(23, 2));
    assert(count_by_division(23) == 9);
    assert(has_divisor_from(24, 2));
    assert(count_by_division(24) == 9);
    assert(has_divisor_from(25, 5));
    assert(has_divisor_from(25, 4));
    assert(has_divisor_from(25, 3));
    assert(has_divisor_from(25, 2));
    assert(count_by_division(25) == 9);
    assert(has_divisor_from(26, 2));
    assert(count_by_division(26) == 9);
    assert(has_divisor_from(27, 3));
    assert(has_divisor_from(27, 2));
    assert(count_by_division(27) == 9);
    assert(has_divisor_from(28, 2));
    assert(count_by_division(28) == 9);
    assert(!has_divisor_from(29, 6));
    assert(!has_divisor_from(29, 5));
    assert(!has_divisor_from(29, 4));
    assert(!has_divisor_from(29, 3));
    assert(!has_divisor_from(29, 2));
    assert(count_by_division(29) == 10);
    assert(has_divisor_from(30, 2));
    assert(count_by_division(30) == 10);
    assert(!has_divisor_from(31, 6));
    assert(!has_divisor_from(31, 5));
    assert(!has_divisor_from(31, 4));
    assert(!has_divisor_from(31, 3));
    assert(!has_divisor_from(31, 2));
    assert(count_by_division(31) == 11);
    assert(has_divisor_from(32, 2));
    assert(count_by_division(32) == 11);
    assert(has_divisor_from(33, 3));
    assert(has_divisor_from(33, 2));
    assert(count_by_division(33) == 11);
    assert(has_divisor_from(34, 2));
    assert(count_by_division(34) == 11);
    assert(has_divisor_from(35, 5));
    assert(has_divisor_from(35, 4));
    assert(has_divisor_from(35, 3));
    assert(has_divisor_from(35, 2));
    assert(count_by_division(35) == 11);
    assert(has_divisor_from(36, 2));
    assert(count_by_division(36) == 11);
    assert(!has_divisor_from(37, 7));
    assert(!has_divisor_from(37, 6));
    assert(!has_divisor_from(37, 5));
    assert(!has_divisor_from(37, 4));
    assert(!has_divisor_from(37, 3));
    assert(!has_divisor_from(37, 2));
    assert(count_by_division(37) == 12);
    assert(has_divisor_from(38, 2));
    assert(count_by_division(38) == 12);
    assert(has_divisor_from(39, 3));
    assert(has_divisor_from(39, 2));
    assert(count_by_division(39) == 12);
    assert(has_divisor_from(40, 2));
    assert(count_by_division(40) == 12);
    assert(!has_divisor_from(41, 7));
    assert(!has_divisor_from(41, 6));
    assert(!has_divisor_from(41, 5));
    assert(!has_divisor_from(41, 4));
    assert(!has_divisor_from(41, 3));
    assert(!has_divisor_from(41, 2));
    assert(count_by_division(41) == 13);
    assert(has_divisor_from(42, 2));
    assert(count_by_division(42) == 13);
    assert(!has_divisor_from(43, 7));
    assert(!has_divisor_from(43, 6));
    assert(!has_divisor_from(43, 5));
    assert(!has_divisor_from(43, 4));
    assert(!has_divisor_from(43, 3));
    assert(!has_divisor_from(43, 2));
    assert(count_by_division(43) == 14);
    assert(has_divisor_from(44, 2));
    assert(count_by_division(44) == 14);
    assert(has_divisor_from(45, 3));
    assert(has_divisor_from(45, 2));
    assert(count_by_division(45) == 14);
    assert(has_divisor_from(46, 2));
    assert(count_by_division(46) == 14);
    assert(!has_divisor_from(47, 7));
    assert(!has_divisor_from(47, 6));
    assert(!has_divisor_from(47, 5));
    assert(!has_divisor_from(47, 4));
    assert(!has_divisor_from(47, 3));
    assert(!has_divisor_from(47, 2));
    assert(count_by_division(47) == 15);
    assert(has_divisor_from(48, 2));
    assert(count_by_division(48) == 15);
    assert(has_divisor_from(49, 7));
    assert(has_divisor_from(49, 6));
    assert(has_divisor_from(49, 5));
    assert(has_divisor_from(49, 4));
    assert(has_divisor_from(49, 3));
    assert(has_divisor_from(49, 2));
    assert(count_by_division(49) == 15);
    assert(has_divisor_from(50, 2));
    assert(count_by_division(50) == 15);
    assert(has_divisor_from(51, 3));
    assert(has_divisor_from(51, 2));
    assert(count_by_division(51) == 15);
    assert(has_divisor_from(52, 2));
    assert(count_by_division(52) == 15);
    assert(!has_divisor_from(53, 8));
    assert(!has_divisor_from(53, 7));
    assert(!has_divisor_from(53, 6));
    assert(!has_divisor_from(53, 5));
    assert(!has_divisor_from(53, 4));
    assert(!has_divisor_from(53, 3));
    assert(!has_divisor_from(53, 2));
    assert(count_by_division(53) == 16);
    assert(has_divisor_from(54, 2));
    assert(count_by_division(54) == 16);
    assert(has_divisor_from(55, 5));
    assert(has_divisor_from(55, 4));
    assert(has_divisor_from(55, 3));
    assert(has_divisor_from(55, 2));
    assert(count_by_division(55) == 16);
    assert(has_divisor_from(56, 2));
    assert(count_by_division(56) == 16);
    assert(has_divisor_from(57, 3));
    assert(has_divisor_from(57, 2));
    assert(count_by_division(57) == 16);
    assert(has_divisor_from(58, 2));
    assert(count_by_division(58) == 16);
    assert(!has_divisor_from(59, 8));
    assert(!has_divisor_from(59, 7));
    assert(!has_divisor_from(59, 6));
    assert(!has_divisor_from(59, 5));
    assert(!has_divisor_from(59, 4));
    assert(!has_divisor_from(59, 3));
    assert(!has_divisor_from(59, 2));
    assert(count_by_division(59) == 17);
    assert(has_divisor_from(60, 2));
    assert(count_by_division(60) == 17);
    assert(!has_divisor_from(61, 8));
    assert(!has_divisor_from(61, 7));
    assert(!has_divisor_from(61, 6));
    assert(!has_divisor_from(61, 5));
    assert(!has_divisor_from(61, 4));
    assert(!has_divisor_from(61, 3));
    assert(!has_divisor_from(61, 2));
    assert(count_by_division(61) == 18);
    assert(has_divisor_from(62, 2));
    assert(count_by_division(62) == 18);
    assert(has_divisor_from(63, 3));
    assert(has_divisor_from(63, 2));
    assert(count_by_division(63) == 18);
    assert(has_divisor_from(64, 2));
    assert(count_by_division(64) == 18);
    assert(has_divisor_from(65, 5));
    assert(has_divisor_from(65, 4));
    assert(has_divisor_from(65, 3));
    assert(has_divisor_from(65, 2));
    assert(count_by_division(65) == 18);
    assert(has_divisor_from(66, 2));
    assert(count_by_division(66) == 18);
    assert(!has_divisor_from(67, 9));
    assert(!has_divisor_from(67, 8));
    assert(!has_divisor_from(67, 7));
    assert(!has_divisor_from(67, 6));
    assert(!has_divisor_from(67, 5));
    assert(!has_divisor_from(67, 4));
    assert(!has_divisor_from(67, 3));
    assert(!has_divisor_from(67, 2));
    assert(count_by_division(67) == 19);
    assert(has_divisor_from(68, 2));
    assert(count_by_division(68) == 19);
    assert(has_divisor_from(69, 3));
    assert(has_divisor_from(69, 2));
    assert(count_by_division(69) == 19);
    assert(has_divisor_from(70, 2));
    assert(count_by_division(70) == 19);
    assert(!has_divisor_from(71, 9));
    assert(!has_divisor_from(71, 8));
    assert(!has_divisor_from(71, 7));
    assert(!has_divisor_from(71, 6));
    assert(!has_divisor_from(71, 5));
    assert(!has_divisor_from(71, 4));
    assert(!has_divisor_from(71, 3));
    assert(!has_divisor_from(71, 2));
    assert(count_by_division(71) == 20);
    assert(has_divisor_from(72, 2));
    assert(count_by_division(72) == 20);
    assert(!has_divisor_from(73, 9));
    assert(!has_divisor_from(73, 8));
    assert(!has_divisor_from(73, 7));
    assert(!has_divisor_from(73, 6));
    assert(!has_divisor_from(73, 5));
    assert(!has_divisor_from(73, 4));
    assert(!has_divisor_from(73, 3));
    assert(!has_divisor_from(73, 2));
    assert(count_by_division(73) == 21);
    assert(has_divisor_from(74, 2));
    assert(count_by_division(74) == 21);
    assert(has_divisor_from(75, 3));
    assert(has_divisor_from(75, 2));
    assert(count_by_division(75) == 21);
    assert(has_divisor_from(76, 2));
    assert(count_by_division(76) == 21);
    assert(has_divisor_from(77, 7));
    assert(has_divisor_from(77, 6));
    assert(has_divisor_from(77, 5));
    assert(has_divisor_from(77, 4));
    assert(has_divisor_from(77, 3));
    assert(has_divisor_from(77, 2));
    assert(count_by_division(77) == 21);
    assert(has_divisor_from(78, 2));
    assert(count_by_division(78) == 21);
    assert(!has_divisor_from(79, 9));
    assert(!has_divisor_from(79, 8));
    assert(!has_divisor_from(79, 7));
    assert(!has_divisor_from(79, 6));
    assert(!has_divisor_from(79, 5));
    assert(!has_divisor_from(79, 4));
    assert(!has_divisor_from(79, 3));
    assert(!has_divisor_from(79, 2));
    assert(count_by_division(79) == 22);
    assert(has_divisor_from(80, 2));
    assert(count_by_division(80) == 22);
    assert(has_divisor_from(81, 3));
    assert(has_divisor_from(81, 2));
    assert(count_by_division(81) == 22);
    assert(has_divisor_from(82, 2));
    assert(count_by_division(82) == 22);
    assert(!has_divisor_from(83, 10));
    assert(!has_divisor_from(83, 9));
    assert(!has_divisor_from(83, 8));
    assert(!has_divisor_from(83, 7));
    assert(!has_divisor_from(83, 6));
    assert(!has_divisor_from(83, 5));
    assert(!has_divisor_from(83, 4));
    assert(!has_divisor_from(83, 3));
    assert(!has_divisor_from(83, 2));
    assert(count_by_division(83) == 23);
    assert(has_divisor_from(84, 2));
    assert(count_by_division(84) == 23);
    assert(has_divisor_from(85, 5));
    assert(has_divisor_from(85, 4));
    assert(has_divisor_from(85, 3));
    assert(has_divisor_from(85, 2));
    assert(count_by_division(85) == 23);
    assert(has_divisor_from(86, 2));
    assert(count_by_division(86) == 23);
    assert(has_divisor_from(87, 3));
    assert(has_divisor_from(87, 2));
    assert(count_by_division(87) == 23);
    assert(has_divisor_from(88, 2));
    assert(count_by_division(88) == 23);
    assert(!has_divisor_from(89, 10));
    assert(!has_divisor_from(89, 9));
    assert(!has_divisor_from(89, 8));
    assert(!has_divisor_from(89, 7));
    assert(!has_divisor_from(89, 6));
    assert(!has_divisor_from(89, 5));
    assert(!has_divisor_from(89, 4));
    assert(!has_divisor_from(89, 3));
    assert(!has_divisor_from(89, 2));
    assert(count_by_division(89) == 24);
    assert(has_divisor_from(90, 2));
    assert(count_by_division(90) == 24);
    assert(has_divisor_from(91, 7));
    assert(has_divisor_from(91, 6));
    assert(has_divisor_from(91, 5));
    assert(has_divisor_from(91, 4));
    assert(has_divisor_from(91, 3));
    assert(has_divisor_from(91, 2));
    assert(count_by_division(91) == 24);
    assert(has_divisor_from(92, 2));
    assert(count_by_division(92) == 24);
    assert(has_divisor_from(93, 3));
    assert(has_divisor_from(93, 2));
    assert(count_by_division(93) == 24);
    assert(has_divisor_from(94, 2));
    assert(count_by_division(94) == 24);
    assert(has_divisor_from(95, 5));
    assert(has_divisor_from(95, 4));
    assert(has_divisor_from(95, 3));
    assert(has_divisor_from(95, 2));
    assert(count_by_division(95) == 24);
    assert(has_divisor_from(96, 2));
    assert(count_by_division(96) == 24);
    assert(!has_divisor_from(97, 10));
    assert(!has_divisor_from(97, 9));
    assert(!has_divisor_from(97, 8));
    assert(!has_divisor_from(97, 7));
    assert(!has_divisor_from(97, 6));
    assert(!has_divisor_from(97, 5));
    assert(!has_divisor_from(97, 4));
    assert(!has_divisor_from(97, 3));
    assert(!has_divisor_from(97, 2));
    assert(count_by_division(97) == 25);
    assert(has_divisor_from(98, 2));
    assert(count_by_division(98) == 25);
    assert(has_divisor_from(99, 3));
    assert(has_divisor_from(99, 2));
    assert(count_by_division(99) == 25);
    assert(has_divisor_from(100, 2));
    assert(count_by_division(100) == 25);
}

/// Trial division up to 200.
proof fn lemma_count_200()
    requires count_by_division(100) == 25,
    ensures count_by_division(200) == 46,
{
    assert(!has_divisor_from(101, 11));
    assert(!has_divisor_from(101, 10));
    assert(!has_divisor_from(101, 9));
    assert(!has_divisor_from(101, 8));
    assert(!has_divisor_from(101, 7));
    assert(!has_divisor_from(101, 6));
    assert(!has_divisor_from(101, 5));
    assert(!has_divisor_from(101, 4));
    assert(!has_divisor_from(101, 3));
    assert(!has_divisor_from(101, 2));
    assert(count_by_division(101) == 26);
    assert(has_divisor_from(102, 2));
    assert(count_by_division(102) == 26);
    assert(!has_divisor_from(103, 11));
    assert(!has_divisor_from(103, 10));
    assert(!has_divisor_from(103, 9));
    assert(!has_divisor_from(103, 8));
    assert(!has_divisor_from(103, 7));
    assert(!has_divisor_from(103, 6));
    assert(!has_divisor_from(103, 5));
    assert(!has_divisor_from(103, 4));
    assert(!has_divisor_from(103, 3));
    assert(!has_divisor_from(103, 2));
    assert(count_by_division(103) == 27);
    assert(has_divisor_from(104, 2));
    assert(count_by_division(104) == 27);
    assert(has_divisor_from(105, 3));
    assert(has_divisor_from(105, 2));
    assert(count_by_division(105) == 27);
    assert(has_divisor_from(106, 2));
    assert(count_by_division(106) == 27);
    assert(!has_divisor_from(107, 11));
    assert(!has_divisor_from(107, 10));
    assert(!has_divisor_from(107, 9));
    assert(!has_divisor_from(107, 8));
    assert(!has_divisor_from(107, 7));
    assert(!has_divisor_from(107, 6));
    assert(!has_divisor_from(107, 5));
    assert(!has_divisor_from(107, 4));
    assert(!has_divisor_from(107, 3));
    assert(!has_divisor_from(107, 2));
    assert(count_by_division(107) == 28);
    assert(has_divisor_from(108, 2));
    assert(count_by_division(108) == 28);
    assert(!has_divisor_from(109, 11));
    assert(!has_divisor_from(109, 10));
    assert(!has_divisor_from(109, 9));
    assert(!has_divisor_from(109, 8));
    assert(!has_divisor_from(109, 7));
    assert(!has_divisor_from(109, 6));
    assert(!has_divisor_from(109, 5));
    assert(!has_divisor_from(109, 4));
    assert(!has_divisor_from(109, 3));
    assert(!has_divisor_from(109, 2));
    assert(count_by_division(109) == 29);
    assert(has_divisor_from(110, 2));
    assert(count_by_division(110) == 29);
    assert(has_divisor_from(111, 3));
    assert(has_divisor_from(111, 2));
    assert(count_by_division(111) == 29);
    assert(has_divisor_from(112, 2));
    assert(count_by_division(112) == 29);
    assert(!has_divisor_from(113, 11));
    assert(!has_divisor_from(113, 10));
    assert(!has_divisor_from(113, 9));
    assert(!has_divisor_from(113, 8));
    assert(!has_divisor_from(113, 7));
    assert(!has_divisor_from(113, 6));
    assert(!has_divisor_from(113, 5));
    assert(!has_divisor_from(113, 4));
    assert(!has_divisor_from(113, 3));
    assert(!has_divisor_from(113, 2));
    assert(count_by_division(113) == 30);
    assert(has_divisor_from(114, 2));
    assert(count_by_division(114) == 30);
    assert(has_divisor_from(115, 5));
    assert(has_divisor_from(115, 4));
    assert(has_divisor_from(115, 3));
    assert(has_divisor_from(115, 2));
    assert(count_by_division(115) == 30);
    assert(has_divisor_from(116, 2));
    assert(count_by_division(116) == 30);
    assert(has_divisor_from(117, 3));
    assert(has_divisor_from(117, 2));
    assert(count_by_division(117) == 30);
    assert(has_divisor_from(118, 2));
    assert(count_by_division(118) == 30);
    assert(has_divisor_from(119, 7));
    assert(has_divisor_from(119, 6));
    assert(has_divisor_from(119, 5));
    assert(has_divisor_from(119, 4));
    assert(has_divisor_from(119, 3));
    assert(has_divisor_from(119, 2));
    assert(count_by_division(119) == 30);
    assert(has_divisor_from(120, 2));
    assert(count_by_division(120) == 30);
    assert(has_divisor_from(121, 11));
    assert(has_divisor_from(121, 10));
    assert(has_divisor_from(121, 9));
    assert(has_divisor_from(121, 8));
    assert(has_divisor_from(121, 7));
    assert(has_divisor_from(121, 6));
    assert(has_divisor_from(121, 5));
    assert(has_divisor_from(121, 4));
    assert(has_divisor_from(121, 3));
    assert(has_divisor_from(121, 2));
    assert(count_by_division(121) == 30);
    assert(has_divisor_from(122, 2));
    assert(count_by_division(122) == 30);
    assert(has_divisor_from(123, 3));
    assert(has_divisor_from(123, 2));
    assert(count_by_division(123) == 30);
    assert(has_divisor_from(124, 2));
    assert(count_by_division(124) == 30);
    assert(has_divisor_from(125, 5));
    assert(has_divisor_from(125, 4));
    assert(has_divisor_from(125, 3));
    assert(has_divisor_from(125, 2));
    assert(count_by_division(125) == 30);
    assert(has_divisor_from(126, 2));
    assert(count_by_division(126) == 30);
    assert(!has_divisor_from(127, 12));
    assert(!has_divisor_from(127, 11));
    assert(!has_divisor_from(127, 10));
    assert(!has_divisor_from(127, 9));
    assert(!has_divisor_from(127, 8));
    assert(!has_divisor_from(127, 7));
    assert(!has_divisor_from(127, 6));
    assert(!has_divisor_from(127, 5));
    assert(!has_divisor_from(127, 4));
    assert(!has_divisor_from(127, 3));
    assert(!has_divisor_from(127, 2));
    assert(count_by_division(127) == 31);
    assert(has_divisor_from(128, 2));
    assert(count_by_division(128) == 31);
    assert(has_divisor_from(129, 3));
    assert(has_divisor_from(129, 2));
    assert(count_by_division(129) == 31);
    assert(has_divisor_from(130, 2));
    assert(count_by_division(130) == 31);
    assert(!has_divisor_from(131, 12));
    assert(!has_divisor_from(131, 11));
    assert(!has_divisor_from(131, 10));
    assert(!has_divisor_from(131, 9));
    assert(!has_divisor_from(131, 8));
    assert(!has_divisor_from(131, 7));
    assert(!has_divisor_from(131, 6));
    assert(!has_divisor_from(131, 5));
    assert(!has_divisor_from(131, 4));
    assert(!has_divisor_from(131, 3));
    assert(!has_divisor_from(131, 2));
    assert(count_by_division(131) == 32);
    assert(has_divisor_from(132, 2));
    assert(count_by_division(132) == 32);
    assert(has_divisor_from(133, 7));
    assert(has_divisor_from(133, 6));
    assert(has_divisor_from(133, 5));
    assert(has_divisor_from(133, 4));
    assert(has_divisor_from(133, 3));
    assert(has_divisor_from(133, 2));
    assert(count_by_division(133) == 32);
    assert(has_divisor_from(134, 2));
    assert(count_by_division(134) == 32);
    assert(has_divisor_from(135, 3));
    assert(has_divisor_from(135, 2));
    assert(count_by_division(135) == 32);
    assert(has_divisor_from(136, 2));
    assert(count_by_division(136) == 32);
    assert(!has_divisor_from(137, 12));
    assert(!has_divisor_from(137, 11));
    assert(!has_divisor_from(137, 10));
    assert(!has_divisor_from(137, 9));
    assert(!has_divisor_from(137, 8));
    assert(!has_divisor_from(137, 7));
    assert(!has_divisor_from(137, 6));
    assert(!has_divisor_from(137, 5));
    assert(!has_divisor_from(137, 4));
    assert(!has_divisor_from(137, 3));
    assert(!has_divisor_from(137, 2));
    assert(count_by_division(137) == 33);
    assert(has_divisor_from(138, 2));
    assert(count_by_division(138) == 33);
    assert(!has_divisor_from(139, 12));
    assert(!has_divisor_from(139, 11));
    assert(!has_divisor_from(139, 10));
    assert(!has_divisor_from(139, 9));
    assert(!has_divisor_from(139, 8));
    assert(!has_divisor_from(139, 7));
    assert(!has_divisor_from(139, 6));
    assert(!has_divisor_from(139, 5));
    assert(!has_divisor_from(139, 4));
    assert(!has_divisor_from(139, 3));
    assert(!has_divisor_from(139, 2));
    assert(count_by_division(139) == 34);
    assert(has_divisor_from(140, 2));
    assert(count_by_division(140) == 34);
    assert(has_divisor_from(141, 3));
    assert(has_divisor_from(141, 2));
    assert(count_by_division(141) == 34);
    assert(has_divisor_from(142, 2));
    assert(count_by_division(142) == 34);
    assert(has_divisor_from(143, 11));
    assert(has_divisor_from(143, 10));
    assert(has_divisor_from(143, 9));
    assert(has_divisor_from(143, 8));
    assert(has_divisor_from(143, 7));
    assert(has_divisor_from(143, 6));
    assert(has_divisor_from(143, 5));
    assert(has_divisor_from(143, 4));
    assert(has_divisor_from(143, 3));
    assert(has_divisor_from(143, 2));
    assert(count_by_division(143) == 34);
    assert(has_divisor_from(144, 2));
    assert(count_by_division(144) == 34);
    assert(has_divisor_from(145, 5));
    assert(has_divisor_from(145, 4));
    assert(has_divisor_from(145, 3));
    assert(has_divisor_from(145, 2));
    assert(count_by_division(145) == 34);
    assert(has_divisor_from(146, 2));
    assert(count_by_division(146) == 34);
    assert(has_divisor_from(147, 3));
    assert(has_divisor_from(147, 2));
    assert(count_by_division(147) == 34);
    assert(has_divisor_from(148, 2));
    assert(count_by_division(148) == 34);
    assert(!has_divisor_from(149, 13));
    assert(!has_divisor_from(149, 12));
    assert(!has_divisor_from(149, 11));
    assert(!has_divisor_from(149, 10));
    assert(!has_divisor_from(149, 9));
    assert(!has_divisor_from(149, 8));
    assert(!has_divisor_from(149, 7));
    assert(!has_divisor_from(149, 6));
    assert(!has_divisor_from(149, 5));
    assert(!has_divisor_from(149, 4));
    assert(!has_divisor_from(149, 3));
    assert(!has_divisor_from(149, 2));
    assert(count_by_division(149) == 35);
    assert(has_divisor_from(150, 2));
    assert(count_by_division(150) == 35);
    assert(!has_divisor_from(151, 13));
    assert(!has_divisor_from(151, 12));
    assert(!has_divisor_from(151, 11));
    assert(!has_divisor_from(151, 10));
    assert(!has_divisor_from(151, 9));
    assert(!has_divisor_from(151, 8));
    assert(!has_divisor_from(151, 7));
    assert(!has_divisor_from(151, 6));
    assert(!has_divisor_from(151, 5));
    assert(!has_divisor_from(151, 4));
    assert(!has_divisor_from(151, 3));
    assert(!has_divisor_from(151, 2));
    assert(count_by_division(151) == 36);
    assert(has_divisor_from(152, 2));
    assert(count_by_division(152) == 36);
    assert(has_divisor_from(153, 3));
    assert(has_divisor_from(153, 2));
    assert(count_by_division(153) == 36);
    assert(has_divisor_from(154, 2));
    assert(count_by_division(154) == 36);
    assert(has_divisor_from(155, 5));
    assert(has_divisor_from(155, 4));
    assert(has_divisor_from(155, 3));
    assert(has_divisor_from(155, 2));
    assert(count_by_division(155) == 36);
    assert(has_divisor_from(156, 2));
    assert(count_by_division(156) == 36);
    assert(!has_divisor_from(157, 13));
    assert(!has_divisor_from(157, 12));
    assert(!has_divisor_from(157, 11));
    assert(!has_divisor_from(157, 10));
    assert(!has_divisor_from(157, 9));
    assert(!has_divisor_from(157, 8));
    assert(!has_divisor_from(157, 7));
    assert(!has_divisor_from(157, 6));
    assert(!has_divisor_from(157, 5));
    assert(!has_divisor_from(157, 4));
    assert(!has_divisor_from(157, 3));
    assert(!has_divisor_from(157, 2));
    assert(count_by_division(157) == 37);
    assert(has_divisor_from(158, 2));
    assert(count_by_division(158) == 37);
    assert(has_divisor_from(159, 3));
    assert(has_divisor_from(159, 2));
    assert(count_by_division(159) == 37);
    assert(has_divisor_from(160, 2));
    assert(count_by_division(160) == 37);
    assert(has_divisor_from(161, 7));
    assert(has_divisor_from(161, 6));
    assert(has_divisor_from(161, 5));
    assert(has_divisor_from(161, 4));
    assert(has_divisor_from(161, 3));
    assert(has_divisor_from(161, 2));
    assert(count_by_division(161) == 37);
    assert(has_divisor_from(162, 2));
    assert(count_by_division(162) == 37);
    assert(!has_divisor_from(163, 13));
    assert(!has_divisor_from(163, 12));
    assert(!has_divisor_from(163, 11));
    assert(!has_divisor_from(163, 10));
    assert(!has_divisor_from(163, 9));
    assert(!has_divisor_from(163, 8));
    assert(!has_divisor_from(163, 7));
    assert(!has_divisor_from(163, 6));
    assert(!has_divisor_from(163, 5));
    assert(!has_divisor_from(163, 4));
    assert(!has_divisor_from(163, 3));
    assert(!has_divisor_from(163, 2));
    assert(count_by_division(163) == 38);
    assert(has_divisor_from(164, 2));
    assert(count_by_division(164) == 38);
    assert(has_divisor_from(165, 3));
    assert(has_divisor_from(165, 2));
    assert(count_by_division(165) == 38);
    assert(has_divisor_from(166, 2));
    assert(count_by_division(166) == 38);
    assert(!has_divisor_from(167, 13));
    assert(!has_divisor_from(167, 12));
    assert(!has_divisor_from(167, 11));
    assert(!has_divisor_from(167, 10));
    assert(!has_divisor_from(167, 9));
    assert(!has_divisor_from(167, 8));
    assert(!has_divisor_from(167, 7));
    assert(!has_divisor_from(167, 6));
    assert(!has_divisor_from(167, 5));
    assert(!has_divisor_from(167, 4));
    assert(!has_divisor_from(167, 3));
    assert(!has_divisor_from(167, 2));
    assert(count_by_division(167) == 39);
    assert(has_divisor_from(168, 2));
    assert(count_by_division(168) == 39);
    assert(has_divisor_from(169, 13));
    assert(has_divisor_from(169, 12));
    assert(has_divisor_from(169, 11));
    assert(has_divisor_from(169, 10));
    assert(has_divisor_from(169, 9));
    assert(has_divisor_from(169, 8));
    assert(has_divisor_from(169, 7));
    assert(has_divisor_from(169, 6));
    assert(has_divisor_from(169, 5));
    assert(has_divisor_from(169, 4));
    assert(has_divisor_from(169, 3));
    assert(has_divisor_from(169, 2));
    assert(count_by_division(169) == 39);
    assert(has_divisor_from(170, 2));
    assert(count_by_division(170) == 39);
    assert(has_divisor_from(171, 3));
    assert(has_divisor_from(171, 2));
    assert(count_by_division(171) == 39);
    assert(has_divisor_from(172, 2));
    assert(count_by_division(172) == 39);
    assert(!has_divisor_from(173, 14));
    assert(!has_divisor_from(173, 13));
    assert(!has_divisor_from(173, 12));
    assert(!has_divisor_from(173, 11));
    assert(!has_divisor_from(173, 10));
    assert(!has_divisor_from(173, 9));
    assert(!has_divisor_from(173, 8));
    assert(!has_divisor_from(173, 7));
    assert(!has_divisor_from(173, 6));
    assert(!has_divisor_from(173, 5));
    assert(!has_divisor_from(173, 4));
    assert(!has_divisor_from(173, 3));
    assert(!has_divisor_from(173, 2));
    assert(count_by_division(173) == 40);
    assert(has_divisor_from(174, 2));
    assert(count_by_division(174) == 40);
    assert(has_divisor_from(175, 5));
    assert(has_divisor_from(175, 4));
    assert(has_divisor_from(175, 3));
    assert(has_divisor_from(175, 2));
    assert(count_by_division(175) == 40);
    assert(has_divisor_from(176, 2));
    assert(count_by_division(176) == 40);
    assert(has_divisor_from(177, 3));
    assert(has_divisor_from(177, 2));
    assert(count_by_division(177) == 40);
    assert(has_divisor_from(178, 2));
    assert(count_by_division(178) == 40);
    assert(!has_divisor_from(179, 14));
    assert(!has_divisor_from(179, 13));
    assert(!has_divisor_from(179, 12));
    assert(!has_divisor_from(179, 11));
    assert(!has_divisor_from(179, 10));
    assert(!has_divisor_from(179, 9));
    assert(!has_divisor_from(179, 8));
    assert(!has_divisor_from(179, 7));
    assert(!has_divisor_from(179, 6));
    assert(!has_divisor_from(179, 5));
    assert(!has_divisor_from(179, 4));
    assert(!has_divisor_from(179, 3));
    assert(!has_divisor_from(179, 2));
    assert(count_by_division(179) == 41);
    assert(has_divisor_from(180, 2));
    assert(count_by_division(180) == 41);
    assert(!has_divisor_from(181, 14));
    assert(!has_divisor_from(181, 13));
    assert(!has_divisor_from(181, 12));
    assert(!has_divisor_from(181, 11));
    assert(!has_divisor_from(181, 10));
    assert(!has_divisor_from(181, 9));
    assert(!has_divisor_from(181, 8));
    assert(!has_divisor_from(181, 7));
    assert(!has_divisor_from(181, 6));
    assert(!has_divisor_from(181, 5));
    assert(!has_divisor_from(181, 4));
    assert(!has_divisor_from(181, 3));
    assert(!has_divisor_from(181, 2));
    assert(count_by_division(181) == 42);
    assert(has_divisor_from(182, 2));
    assert(count_by_division(182) == 42);
    assert(has_divisor_from(183, 3));
    assert(has_divisor_from(183, 2));
    assert(count_by_division(183) == 42);
    assert(has_divisor_from(184, 2));
    assert(count_by_division(184) == 42);
    assert(has_divisor_from(185, 5));
    assert(has_divisor_from(185, 4));
    assert(has_divisor_from(185, 3));
    assert(has_divisor_from(185, 2));
    assert(count_by_division(185) == 42);
    assert(has_divisor_from(186, 2));
    assert(count_by_division(186) == 42);
    assert(has_divisor_from(187, 11));
    assert(has_divisor_from(187, 10));
    assert(has_divisor_from(187, 9));
    assert(has_divisor_from(187, 8));
    assert(has_divisor_from(187, 7));
    assert(has_divisor_from(187, 6));
    assert(has_divisor_from(187, 5));
    assert(has_divisor_from(187, 4));
    assert(has_divisor_from(187, 3));
    assert(has_divisor_from(187, 2));
    assert(count_by_division(187) == 42);
    assert(has_divisor_from(188, 2));
    assert(count_by_division(188) == 42);
    assert(has_divisor_from(189, 3));
    assert(has_divisor_from(189, 2));
    assert(count_by_division(189) == 42);
    assert(has_divisor_from(190, 2));
    assert(count_by_division(190) == 42);
    assert(!has_divisor_from(191, 14));
    assert(!has_divisor_from(191, 13));
    assert(!has_divisor_from(191, 12));
    assert(!has_divisor_from(191, 11));
    assert(!has_divisor_from(191, 10));
    assert(!has_divisor_from(191, 9));
    assert(!has_divisor_from(191, 8));
    assert(!has_divisor_from(191, 7));
    assert(!has_divisor_from(191, 6));
    assert(!has_divisor_from(191, 5));
    assert(!has_divisor_from(191, 4));
    assert(!has_divisor_from(191, 3));
    assert(!has_divisor_from(191, 2));
    assert(count_by_division(191) == 43);
    assert(has_divisor_from(192, 2));
    assert(count_by_division(192) == 43);
    assert(!has_divisor_from(193, 14));
    assert(!has_divisor_from(193, 13));
    assert(!has_divisor_from(193, 12));
    assert(!has_divisor_from(193, 11));
    assert(!has_divisor_from(193, 10));
    assert(!has_divisor_from(193, 9));
    assert(!has_divisor_from(193, 8));
    assert(!has_divisor_from(193, 7));
    assert(!has_divisor_from(193, 6));
    assert(!has_divisor_from(193, 5));
    assert(!has_divisor_from(193, 4));
    assert(!has_divisor_from(193, 3));
    assert(!has_divisor_from(193, 2));
    assert(count_by_division(193) == 44);
    assert(has_divisor_from(194, 2));
    assert(count_by_division(194) == 44);
    assert(has_divisor_from(195, 3));
    assert(has_divisor_from(195, 2));
    assert(count_by_division(195) == 44);
    assert(has_divisor_from(196, 2));
    assert(count_by_division(196) == 44);
    assert(!has_divisor_from(197, 15));
    assert(!has_divisor_from(197, 14));
    assert(!has_divisor_from(197, 13));
    assert(!has_divisor_from(197, 12));
    assert(!has_divisor_from(197, 11));
    assert(!has_divisor_from(197, 10));
    assert(!has_divisor_from(197, 9));
    assert(!has_divisor_from(197, 8));
    assert(!has_divisor_from(197, 7));
    assert(!has_divisor_from(197, 6));
    assert(!has_divisor_from(197, 5));
    assert(!has_divisor_from(197, 4));
    assert(!has_divisor_from(197, 3));
    assert(!has_divisor_from(197, 2));
    assert(count_by_division(197) == 45);
    assert(has_divisor_from(198, 2));
    assert(count_by_division(198) == 45);
    assert(!has_divisor_from(199, 15));
    assert(!has_divisor_from(199, 14));
    assert(!has_divisor_from(199, 13));
    assert(!has_divisor_from(199, 12));
    assert(!has_divisor_from(199, 11));
    assert(!has_divisor_from(199, 10));
    assert(!has_divisor_from(199, 9));
    assert(!has_divisor_from(199, 8));
    assert(!has_divisor_from(199, 7));
    assert(!has_divisor_from(199, 6));
    assert(!has_divisor_from(199, 5));
    assert(!has_divisor_from(199, 4));
    assert(!has_divisor_from(199, 3));
    assert(!has_divisor_from(199, 2));
    assert(count_by_division(199) == 46);
    assert(has_divisor_from(200, 2));
    assert(count_by_division(200) == 46);
}

/// Trial division up to 300.
proof fn lemma_count_300()
    requires count_by_division(200) == 46,
    ensures count_by_division(300) == 62,
{
    assert(has_divisor_from(201, 3));
    assert(has_divisor_from(201, 2));
    assert(count_by_division(201) == 46);
    assert(has_divisor_from(202, 2));
    assert(count_by_division(202) == 46);
    assert(has_divisor_from(203, 7));
    assert(has_divisor_from(203, 6));
    assert(has_divisor_from(203, 5));
    assert(has_divisor_from(203, 4));
    assert(has_divisor_from(203, 3));
    assert(has_divisor_from(203, 2));
    assert(count_by_division(203) == 46);
    assert(has_divisor_from(204, 2));
    assert(count_by_division(204) == 46);
    assert(has_divisor_from(205, 5));
    assert(has_divisor_from(205, 4));
    assert(has_divisor_from(205, 3));
    assert(has_divisor_from(205, 2));
    assert(count_by_division(205) == 46);
    assert(has_divisor_from(206, 2));
    assert(count_by_division(206) == 46);
    assert(has_divisor_from(207, 3));
    assert(has_divisor_from(207, 2));
    assert(count_by_division(207) == 46);
    assert(has_divisor_from(208, 2));
    assert(count_by_division(208) == 46);
    assert(has_divisor_from(209, 11));
    assert(has_divisor_from(209, 10));
    assert(has_divisor_from(209, 9));
    assert(has_divisor_from(209, 8));
    assert(has_divisor_from(209, 7));
    assert(has_divisor_from(209, 6));
    assert(has_divisor_from(209, 5));
    assert(has_divisor_from(209, 4));
    assert(has_divisor_from(209, 3));
    assert(has_divisor_from(209, 2));
    assert(count_by_division(209) == 46);
    assert(has_divisor_from(210, 2));
    assert(count_by_division(210) == 46);
    assert(!has_divisor_from(211, 15));
    assert(!has_divisor_from(211, 14));
    assert(!has_divisor_from(211, 13));
    assert(!has_divisor_from(211, 12));
    assert(!has_divisor_from(211, 11));
    assert(!has_divisor_from(211, 10));
    assert(!has_divisor_from(211, 9));
    assert(!has_divisor_from(211, 8));
    assert(!has_divisor_from(211, 7));
    assert(!has_divisor_from(211, 6));
    assert(!has_divisor_from(211, 5));
    assert(!has_divisor_from(211, 4));
    assert(!has_divisor_from(211, 3));
    assert(!has_divisor_from(211, 2));
    assert(count_by_division(211) == 47);
    assert(has_divisor_from(212, 2));
    assert(count_by_division(212) == 47);
    assert(has_divisor_from(213, 3));
    assert(has_divisor_from(213, 2));
    assert(count_by_division(213) == 47);
    assert(has_divisor_from(214, 2));
    assert(count_by_division(214) == 47);
    assert(has_divisor_from(215, 5));
    assert(has_divisor_from(215, 4));
    assert(has_divisor_from(215, 3));
    assert(has_divisor_from(215, 2));
    assert(count_by_division(215) == 47);
    assert(has_divisor_from(216, 2));
    assert(count_by_division(216) == 47);
    assert(has_divisor_from(217, 7));
    assert(has_divisor_from(217, 6));
    assert(has_divisor_from(217, 5));
    assert(has_divisor_from(217, 4));
    assert(has_divisor_from(217, 3));
    assert(has_divisor_from(217, 2));
    assert(count_by_division(217) == 47);
    assert(has_divisor_from(218, 2));
    assert(count_by_division(218) == 47);
    assert(has_divisor_from(219, 3));
    assert(has_divisor_from(219, 2));
    assert(count_by_division(219) == 47);
    assert(has_divisor_from(220, 2));
    assert(count_by_division(220) == 47);
    assert(has_divisor_from(221, 13));
    assert(has_divisor_from(221, 12));
    assert(has_divisor_from(221, 11));
    assert(has_divisor_from(221, 10));
    assert(has_divisor_from(221, 9));
    assert(has_divisor_from(221, 8));
    assert(has_divisor_from(221, 7));
    assert(has_divisor_from(221, 6));
    assert(has_divisor_from(221, 5));
    assert(has_divisor_from(221, 4));
    assert(has_divisor_from(221, 3));
    assert(has_divisor_from(221, 2));
    assert(count_by_division(221) == 47);
    assert(has_divisor_from(222, 2));
    assert(count_by_division(222) == 47);
    assert(!has_divisor_from(223, 15));
    assert(!has_divisor_from(223, 14));
    assert(!has_divisor_from(223, 13));
    assert(!has_divisor_from(223, 12));
    assert(!has_divisor_from(223, 11));
    assert(!has_divisor_from(223, 10));
    assert(!has_divisor_from(223, 9));
    assert(!has_divisor_from(223, 8));
    assert(!has_divisor_from(223, 7));
    assert(!has_divisor_from(223, 6));
    assert(!has_divisor_from(223, 5));
    assert(!has_divisor_from(223, 4));
    assert(!has_divisor_from(223, 3));
    assert(!has_divisor_from(223, 2));
    assert(count_by_division(223) == 48);
    assert(has_divisor_from(224, 2));
    assert(count_by_division(224) == 48);
    assert(has_divisor_from(225, 3));
    assert(has_divisor_from(225, 2));
    assert(count_by_division(225) == 48);
    assert(has_divisor_from(226, 2));
    assert(count_by_division(226) == 48);
    assert(!has_divisor_from(227, 16));
    assert(!has_divisor_from(227, 15));
    assert(!has_divisor_from(227, 14));
    assert(!has_divisor_from(227, 13));
    assert(!has_divisor_from(227, 12));
    assert(!has_divisor_from(227, 11));
    assert(!has_divisor_from(227, 10));
    assert(!has_divisor_from(227, 9));
    assert(!has_divisor_from(227, 8));
    assert(!has_divisor_from(227, 7));
    assert(!has_divisor_from(227, 6));
    assert(!has_divisor_from(227, 5));
    assert(!has_divisor_from(227, 4));
    assert(!has_divisor_from(227, 3));
    assert(!has_divisor_from(227, 2));
    assert(count_by_division(227) == 49);
    assert(has_divisor_from(228, 2));
    assert(count_by_division(228) == 49);
    assert(!has_divisor_from(229, 16));
    assert(!has_divisor_from(229, 15));
    assert(!has_divisor_from(229, 14));
    assert(!has_divisor_from(229, 13));
    assert(!has_divisor_from(229, 12));
    assert(!has_divisor_from(229, 11));
    assert(!has_divisor_from(229, 10));
    assert(!has_divisor_from(229, 9));
    assert(!has_divisor_from(229, 8));
    assert(!has_divisor_from(229, 7));
    assert(!has_divisor_from(229, 6));
    assert(!has_divisor_from(229, 5));
    assert(!has_divisor_from(229, 4));
    assert(!has_divisor_from(229, 3));
    assert(!has_divisor_from(229, 2));
    assert(count_by_division(229) == 50);
    assert(has_divisor_from(230, 2));
    assert(count_by_division(230) == 50);
    assert(has_divisor_from(231, 3));
    assert(has_divisor_from(231, 2));
    assert(count_by_division(231) == 50);
    assert(has_divisor_from(232, 2));
    assert(count_by_division(232) == 50);
    assert(!has_divisor_from(233, 16));
    assert(!has_divisor_from(233, 15));
    assert(!has_divisor_from(233, 14));
    assert(!has_divisor_from(233, 13));
    assert(!has_divisor_from(233, 12));
    assert(!has_divisor_from(233, 11));
    assert(!has_divisor_from(233, 10));
    assert(!has_divisor_from(233, 9));
    assert(!has_divisor_from(233, 8));
    assert(!has_divisor_from(233, 7));
    assert(!has_divisor_from(233, 6));
    assert(!has_divisor_from(233, 5));
    assert(!has_divisor_from(233, 4));
    assert(!has_divisor_from(233, 3));
    assert(!has_divisor_from(233, 2));
    assert(count_by_division(233) == 51);
    assert(has_divisor_from(234, 2));
    assert(count_by_division(234) == 51);
    assert(has_divisor_from(235, 5));
    assert(has_divisor_from(235, 4));
    assert(has_divisor_from(235, 3));
    assert(has_divisor_from(235, 2));
    assert(count_by_division(235) == 51);
    assert(has_divisor_from(236, 2));
    assert(count_by_division(236) == 51);
    assert(has_divisor_from(237, 3));
    assert(has_divisor_from(237, 2));
    assert(count_by_division(237) == 51);
    assert(has_divisor_from(238, 2));
    assert(count_by_division(238) == 51);
    assert(!has_divisor_from(239, 16));
    assert(!has_divisor_from(239, 15));
    assert(!has_divisor_from(239, 14));
    assert(!has_divisor_from(239, 13));
    assert(!has_divisor_from(239, 12));
    assert(!has_divisor_from(239, 11));
    assert(!has_divisor_from(239, 10));
    assert(!has_divisor_from(239, 9));
    assert(!has_divisor_from(239, 8));
    assert(!has_divisor_from(239, 7));
    assert(!has_divisor_from(239, 6));
    assert(!has_divisor_from(239, 5));
    assert(!has_divisor_from(239, 4));
    assert(!has_divisor_from(239, 3));
    assert(!has_divisor_from(239, 2));
    assert(count_by_division(239) == 52);
    assert(has_divisor_from(240, 2));
    assert(count_by_division(240) == 52);
    assert(!has_divisor_from(241, 16));
    assert(!has_divisor_from(241, 15));
    assert(!has_divisor_from(241, 14));
    assert(!has_divisor_from(241, 13));
    assert(!has_divisor_from(241, 12));
    assert(!has_divisor_from(241, 11));
    assert(!has_divisor_from(241, 10));
    assert(!has_divisor_from(241, 9));
    assert(!has_divisor_from(241, 8));
    assert(!has_divisor_from(241, 7));
    assert(!has_divisor_from(241, 6));
    assert(!has_divisor_from(241, 5));
    assert(!has_divisor_from(241, 4));
    assert(!has_divisor_from(241, 3));
    assert(!has_divisor_from(241, 2));
    assert(count_by_division(241) == 53);
    assert(has_divisor_from(242, 2));
    assert(count_by_division(242) == 53);
    assert(has_divisor_from(243, 3));
    assert(has_divisor_from(243, 2));
    assert(count_by_division(243) == 53);
    assert(has_divisor_from(244, 2));
    assert(count_by_division(244) == 53);
    assert(has_divisor_from(245, 5));
    assert(has_divisor_from(245, 4));
    assert(has_divisor_from(245, 3));
    assert(has_divisor_from(245, 2));
    assert(count_by_division(245) == 53);
    assert(has_divisor_from(246, 2));
    assert(count_by_division(246) == 53);
    assert(has_divisor_from(247, 13));
    assert(has_divisor_from(247, 12));
    assert(has_divisor_from(247, 11));
    assert(has_divisor_from(247, 10));
    assert(has_divisor_from(247, 9));
    assert(has_divisor_from(247, 8));
    assert(has_divisor_from(247, 7));
    assert(has_divisor_from(247, 6));
    assert(has_divisor_from(247, 5));
    assert(has_divisor_from(247, 4));
    assert(has_divisor_from(247, 3));
    assert(has_divisor_from(247, 2));
    assert(count_by_division(247) == 53);
    assert(has_divisor_from(248, 2));
    assert(count_by_division(248) == 53);
    assert(has_divisor_from(249, 3));
    assert(has_divisor_from(249, 2));
    assert(count_by_division(249) == 53);
    assert(has_divisor_from(250, 2));
    assert(count_by_division(250) == 53);
    assert(!has_divisor_from(251, 16));
    assert(!has_divisor_from(251, 15));
    assert(!has_divisor_from(251, 14));
    assert(!has_divisor_from(251, 13));
    assert(!has_divisor_from(251, 12));
    assert(!has_divisor_from(251, 11));
    assert(!has_divisor_from(251, 10));
    assert(!has_divisor_from(251, 9));
    assert(!has_divisor_from(251, 8));
    assert(!has_divisor_from(251, 7));
    assert(!has_divisor_from(251, 6));
    assert(!has_divisor_from(251, 5));
    assert(!has_divisor_from(251, 4));
    assert(!has_divisor_from(251, 3));
    assert(!has_divisor_from(251, 2));
    assert(count_by_division(251) == 54);
    assert(has_divisor_from(252, 2));
    assert(count_by_division(252) == 54);
    assert(has_divisor_from(253, 11));
    assert(has_divisor_from(253, 10));
    assert(has_divisor_from(253, 9));
    assert(has_divisor_from(253, 8));
    assert(has_divisor_from(253, 7));
    assert(has_divisor_from(253, 6));
    assert(has_divisor_from(253, 5));
    assert(has_divisor_from(253, 4));
    assert(has_divisor_from(253, 3));
    assert(has_divisor_from(253, 2));
    assert(count_by_division(253) == 54);
    assert(has_divisor_from(254, 2));
    assert(count_by_division(254) == 54);
    assert(has_divisor_from(255, 3));
    assert(has_divisor_from(255, 2));
    assert(count_by_division(255) == 54);
    assert(has_divisor_from(256, 2));
    assert(count_by_division(256) == 54);
    assert(!has_divisor_from(257, 17));
    assert(!has_divisor_from(257, 16));
    assert(!has_divisor_from(257, 15));
    assert(!has_divisor_from(257, 14));
    assert(!has_divisor_from(257, 13));
    assert(!has_divisor_from(257, 12));
    assert(!has_divisor_from(257, 11));
    assert(!has_divisor_from(257, 10));
    assert(!has_divisor_from(257, 9));
    assert(!has_divisor_from(257, 8));
    assert(!has_divisor_from(257, 7));
    assert(!has_divisor_from(257, 6));
    assert(!has_divisor_from(257, 5));
    assert(!has_divisor_from(257, 4));
    assert(!has_divisor_from(257, 3));
    assert(!has_divisor_from(257, 2));
    assert(count_by_division(257) == 55);
    assert(has_divisor_from(258, 2));
    assert(count_by_division(258) == 55);
    assert(has_divisor_from(259, 7));
    assert(has_divisor_from(259, 6));
    assert(has_divisor_from(259, 5));
    assert(has_divisor_from(259, 4));
    assert(has_divisor_from(259, 3));
    assert(has_divisor_from(259, 2));
    assert(count_by_division(259) == 55);
    assert(has_divisor_from(260, 2));
    assert(count_by_division(260) == 55);
    assert(has_divisor_from(261, 3));
    assert(has_divisor_from(261, 2));
    assert(count_by_division(261) == 55);
    assert(has_divisor_from(262, 2));
    assert(count_by_division(262) == 55);
    assert(!has_divisor_from(263, 17));
    assert(!has_divisor_from(263, 16));
    assert(!has_divisor_from(263, 15));
    assert(!has_divisor_from(263, 14));
    assert(!has_divisor_from(263, 13));
    assert(!has_divisor_from(263, 12));
    assert(!has_divisor_from(263, 11));
    assert(!has_divisor_from(263, 10));
    assert(!has_divisor_from(263, 9));
    assert(!has_divisor_from(263, 8));
    assert(!has_divisor_from(263, 7));
    assert(!has_divisor_from(263, 6));
    assert(!has_divisor_from(263, 5));
    assert(!has_divisor_from(263, 4));
    assert(!has_divisor_from(263, 3));
    assert(!has_divisor_from(263, 2));
    assert(count_by_division(263) == 56);
    assert(has_divisor_from(264, 2));
    assert(count_by_division(264) == 56);
    assert(has_divisor_from(265, 5));
    assert(has_divisor_from(265, 4));
    assert(has_divisor_from(265, 3));
    assert(has_divisor_from(265, 2));
    assert(count_by_division(265) == 56);
    assert(has_divisor_from(266, 2));
    assert(count_by_division(266) == 56);
    assert(has_divisor_from(267, 3));
    assert(has_divisor_from(267, 2));
    assert(count_by_division(267) == 56);
    assert(has_divisor_from(268, 2));
    assert(count_by_division(268) == 56);
    assert(!has_divisor_from(269, 17));
    assert(!has_divisor_from(269, 16));
    assert(!has_divisor_from(269, 15));
    assert(!has_divisor_from(269, 14));
    assert(!has_divisor_from(269, 13));
    assert(!has_divisor_from(269, 12));
    assert(!has_divisor_from(269, 11));
    assert(!has_divisor_from(269, 10));
    assert(!has_divisor_from(269, 9));
    assert(!has_divisor_from(269, 8));
    assert(!has_divisor_from(269, 7));
    assert(!has_divisor_from(269, 6));
    assert(!has_divisor_from(269, 5));
    assert(!has_divisor_from(269, 4));
    assert(!has_divisor_from(269, 3));
    assert(!has_divisor_from(269, 2));
    assert(count_by_division(269) == 57);
    assert(has_divisor_from(270, 2));
    assert(count_by_division(270) == 57);
    assert(!has_divisor_from(271, 17));
    assert(!has_divisor_from(271, 16));
    assert(!has_divisor_from(271, 15));
    assert(!has_divisor_from(271, 14));
    assert(!has_divisor_from(271, 13));
    assert(!has_divisor_from(271, 12));
    assert(!has_divisor_from(271, 11));
    assert(!has_divisor_from(271, 10));
    assert(!has_divisor_from(271, 9));
    assert(!has_divisor_from(271, 8));
    assert(!has_divisor_from(271, 7));
    assert(!has_divisor_from(271, 6));
    assert(!has_divisor_from(271, 5));
    assert(!has_divisor_from(271, 4));
    assert(!has_divisor_from(271, 3));
    assert(!has_divisor_from(271, 2));
    assert(count_by_division(271) == 58);
    assert(has_divisor_from(272, 2));
    assert(count_by_division(272) == 58);
    assert(has_divisor_from(273, 3));
    assert(has_divisor_from(273, 2));
    assert(count_by_division(273) == 58);
    assert(has_divisor_from(274, 2));
    assert(count_by_division(274) == 58);
    assert(has_divisor_from(275, 5));
    assert(has_divisor_from(275, 4));
    assert(has_divisor_from(275, 3));
    assert(has_divisor_from(275, 2));
    assert(count_by_division(275) == 58);
    assert(has_divisor_from(276, 2));
    assert(count_by_division(276) == 58);
    assert(!has_divisor_from(277, 17));
    assert(!has_divisor_from(277, 16));
    assert(!has_divisor_from(277, 15));
    assert(!has_divisor_from(277, 14));
    assert(!has_divisor_from(277, 13));
    assert(!has_divisor_from(277, 12));
    assert(!has_divisor_from(277, 11));
    assert(!has_divisor_from(277, 10));
    assert(!has_divisor_from(277, 9));
    assert(!has_divisor_from(277, 8));
    assert(!has_divisor_from(277, 7));
    assert(!has_divisor_from(277, 6));
    assert(!has_divisor_from(277, 5));
    assert(!has_divisor_from(277, 4));
    assert(!has_divisor_from(277, 3));
    assert(!has_divisor_from(277, 2));
    assert(count_by_division(277) == 59);
    assert(has_divisor_from(278, 2));
    assert(count_by_division(278) == 59);
    assert(has_divisor_from(279, 3));
    assert(has_divisor_from(279, 2));
    assert(count_by_division(279) == 59);
    assert(has_divisor_from(280, 2));
    assert(count_by_division(280) == 59);
    assert(!has_divisor_from(281, 17));
    assert(!has_divisor_from(281, 16));
    assert(!has_divisor_from(281, 15));
    assert(!has_divisor_from(281, 14));
    assert(!has_divisor_from(281, 13));
    assert(!has_divisor_from(281, 12));
    assert(!has_divisor_from(281, 11));
    assert(!has_divisor_from(281, 10));
    assert(!has_divisor_from(281, 9));
    assert(!has_divisor_from(281, 8));
    assert(!has_divisor_from(281, 7));
    assert(!has_divisor_from(281, 6));
    assert(!has_divisor_from(281, 5));
    assert(!has_divisor_from(281, 4));
    assert(!has_divisor_from(281, 3));
    assert(!has_divisor_from(281, 2));
    assert(count_by_division(281) == 60);
    assert(has_divisor_from(282, 2));
    assert(count_by_division(282) == 60);
    assert(!has_divisor_from(283, 17));
    assert(!has_divisor_from(283, 16));
    assert(!has_divisor_from(283, 15));
    assert(!has_divisor_from(283, 14));
    assert(!has_divisor_from(283, 13));
    assert(!has_divisor_from(283, 12));
    assert(!has_divisor_from(283, 11));
    assert(!has_divisor_from(283, 10));
    assert(!has_divisor_from(283, 9));
    assert(!has_divisor_from(283, 8));
    assert(!has_divisor_from(283, 7));
    assert(!has_divisor_from(283, 6));
    assert(!has_divisor_from(283, 5));
    assert(!has_divisor_from(283, 4));
    assert(!has_divisor_from(283, 3));
    assert(!has_divisor_from(283, 2));
    assert(count_by_division(283) == 61);
    assert(has_divisor_from(284, 2));
    assert(count_by_division(284) == 61);
    assert(has_divisor_from(285, 3));
    assert(has_divisor_from(285, 2));
    assert(count_by_division(285) == 61);
    assert(has_divisor_from(286, 2));
    assert(count_by_division(286) == 61);
    assert(has_divisor_from(287, 7));
    assert(has_divisor_from(287, 6));
    assert(has_divisor_from(287, 5));
    assert(has_divisor_from(287, 4));
    assert(has_divisor_from(287, 3));
    assert(has_divisor_from(287, 2));
    assert(count_by_division(287) == 61);
    assert(has_divisor_from(288, 2));
    assert(count_by_division(288) == 61);
    assert(has_divisor_from(289, 17));
    assert(has_divisor_from(289, 16));
    assert(has_divisor_from(289, 15));
    assert(has_divisor_from(289, 14));
    assert(has_divisor_from(289, 13));
    assert(has_divisor_from(289, 12));
    assert(has_divisor_from(289, 11));
    assert(has_divisor_from(289, 10));
    assert(has_divisor_from(289, 9));
    assert(has_divisor_from(289, 8));
    assert(has_divisor_from(289, 7));
    assert(has_divisor_from(289, 6));
    assert(has_divisor_from(289, 5));
    assert(has_divisor_from(289, 4));
    assert(has_divisor_from(289, 3));
    assert(has_divisor_from(289, 2));
    assert(count_by_division(289) == 61);
    assert(has_divisor_from(290, 2));
    assert(count_by_division(290) == 61);
    assert(has_divisor_from(291, 3));
    assert(has_divisor_from(291, 2));
    assert(count_by_division(291) == 61);
    assert(has_divisor_from(292, 2));
    assert(count_by_division(292) == 61);
    assert(!has_divisor_from(293, 18));
    assert(!has_divisor_from(293, 17));
    assert(!has_divisor_from(293, 16));
    assert(!has_divisor_from(293, 15));
    assert(!has_divisor_from(293, 14));
    assert(!has_divisor_from(293, 13));
    assert(!has_divisor_from(293, 12));
    assert(!has_divisor_from(293, 11));
    assert(!has_divisor_from(293, 10));
    assert(!has_divisor_from(293, 9));
    assert(!has_divisor_from(293, 8));
    assert(!has_divisor_from(293, 7));
    assert(!has_divisor_from(293, 6));
    assert(!has_divisor_from(293, 5));
    assert(!has_divisor_from(293, 4));
    assert(!has_divisor_from(293, 3));
    assert(!has_divisor_from(293, 2));
    assert(count_by_division(293) == 62);
    assert(has_divisor_from(294, 2));
    assert(count_by_division(294) == 62);
    assert(has_divisor_from(295, 5));
    assert(has_divisor_from(295, 4));
    assert(has_divisor_from(295, 3));
    assert(has_divisor_from(295, 2));
    assert(count_by_division(295) == 62);
    assert(has_divisor_from(296, 2));
    assert(count_by_division(296) == 62);
    assert(has_divisor_from(297, 3));
    assert(has_divisor_from(297, 2));
    assert(count_by_division(297) == 62);
    assert(has_divisor_from(298, 2));
    assert(count_by_division(298) == 62);
    assert(has_divisor_from(299, 13));
    assert(has_divisor_from(299, 12));
    assert(has_divisor_from(299, 11));
    assert(has_divisor_from(299, 10));
    assert(has_divisor_from(299, 9));
    assert(has_divisor_from(299, 8));
    assert(has_divisor_from(299, 7));
    assert(has_divisor_from(299, 6));
    assert(has_divisor_from(299, 5));
    assert(has_divisor_from(299, 4));
    assert(has_divisor_from(299, 3));
    assert(has_divisor_from(299, 2));
    assert(count_by_division(299) == 62);
    assert(has_divisor_from(300, 2));
    assert(count_by_division(300) == 62);
}

/// Trial division up to 400.
proof fn lemma_count_400()
    requires count_by_division(300) == 62,
    ensures count_by_division(400) == 78,
{
    assert(has_divisor_from(301, 7));
    assert(has_divisor_from(301, 6));
    assert(has_divisor_from(301, 5));
    assert(has_divisor_from(301, 4));
    assert(has_divisor_from(301, 3));
    assert(has_divisor_from(301, 2));
    assert(count_by_division(301) == 62);
    assert(has_divisor_from(302, 2));
    assert(count_by_division(302) == 62);
    assert(has_divisor_from(303, 3));
    assert(has_divisor_from(303, 2));
    assert(count_by_division(303) == 62);
    assert(has_divisor_from(304, 2));
    assert(count_by_division(304) == 62);
    assert(has_divisor_from(305, 5));
    assert(has_divisor_from(305, 4));
    assert(has_divisor_from(305, 3));
    assert(has_divisor_from(305, 2));
    assert(count_by_division(305) == 62);
    assert(has_divisor_from(306, 2));
    assert(count_by_division(306) == 62);
    assert(!has_divisor_from(307, 18));
    assert(!has_divisor_from(307, 17));
    assert(!has_divisor_from(307, 16));
    assert(!has_divisor_from(307, 15));
    assert(!has_divisor_from(307, 14));
    assert(!has_divisor_from(307, 13));
    assert(!has_divisor_from(307, 12));
    assert(!has_divisor_from(307, 11));
    assert(!has_divisor_from(307, 10));
    assert(!has_divisor_from(307, 9));
    assert(!has_divisor_from(307, 8));
    assert(!has_divisor_from(307, 7));
    assert(!has_divisor_from(307, 6));
    assert(!has_divisor_from(307, 5));
    assert(!has_divisor_from(307, 4));
    assert(!has_divisor_from(307, 3));
    assert(!has_divisor_from(307, 2));
    assert(count_by_division(307) == 63);
    assert(has_divisor_from(308, 2));
    assert(count_by_division(308) == 63);
    assert(has_divisor_from(309, 3));
    assert(has_divisor_from(309, 2));
    assert(count_by_division(309) == 63);
    assert(has_divisor_from(310, 2));
    assert(count_by_division(310) == 63);
    assert(!has_divisor_from(311, 18));
    assert(!has_divisor_from(311, 17));
    assert(!has_divisor_from(311, 16));
    assert(!has_divisor_from(311, 15));
    assert(!has_divisor_from(311, 14));
    assert(!has_divisor_from(311, 13));
    assert(!has_divisor_from(311, 12));
    assert(!has_divisor_from(311, 11));
    assert(!has_divisor_from(311, 10));
    assert(!has_divisor_from(311, 9));
    assert(!has_divisor_from(311, 8));
    assert(!has_divisor_from(311, 7));
    assert(!has_divisor_from(311, 6));
    assert(!has_divisor_from(311, 5));
    assert(!has_divisor_from(311, 4));
    assert(!has_divisor_from(311, 3));
    assert(!has_divisor_from(311, 2));
    assert(count_by_division(311) == 64);
    assert(has_divisor_from(312, 2));
    assert(count_by_division(312) == 64);
    assert(!has_divisor_from(313, 18));
    assert(!has_divisor_from(313, 17));
    assert(!has_divisor_from(313, 16));
    assert(!has_divisor_from(313, 15));
    assert(!has_divisor_from(313, 14));
    assert(!has_divisor_from(313, 13));
    assert(!has_divisor_from(313, 12));
    assert(!has_divisor_from(313, 11));
    assert(!has_divisor_from(313, 10));
    assert(!has_divisor_from(313, 9));
    assert(!has_divisor_from(313, 8));
    assert(!has_divisor_from(313, 7));
    assert(!has_divisor_from(313, 6));
    assert(!has_divisor_from(313, 5));
    assert(!has_divisor_from(313, 4));
    assert(!has_divisor_from(313, 3));
    assert(!has_divisor_from(313, 2));
    assert(count_by_division(313) == 65);
    assert(has_divisor_from(314, 2));
    assert(count_by_division(314) == 65);
    assert(has_divisor_from(315, 3));
    assert(has_divisor_from(315, 2));
    assert(count_by_division(315) == 65);
    assert(has_divisor_from(316, 2));
    assert(count_by_division(316) == 65);
    assert(!has_divisor_from(317, 18));
    assert(!has_divisor_from(317, 17));
    assert(!has_divisor_from(317, 16));
    assert(!has_divisor_from(317, 15));
    assert(!has_divisor_from(317, 14));
    assert(!has_divisor_from(317, 13));
    assert(!has_divisor_from(317, 12));
    assert(!has_divisor_from(317, 11));
    assert(!has_divisor_from(317, 10));
    assert(!has_divisor_from(317, 9));
    assert(!has_divisor_from(317, 8));
    assert(!has_divisor_from(317, 7));
    assert(!has_divisor_from(317, 6));
    assert(!has_divisor_from(317, 5));
    assert(!has_divisor_from(317, 4));
    assert(!has_divisor_from(317, 3));
    assert(!has_divisor_from(317, 2));
    assert(count_by_division(317) == 66);
    assert(has_divisor_from(318, 2));
    assert(count_by_division(318) == 66);
    assert(has_divisor_from(319, 11));
    assert(has_divisor_from(319, 10));
    assert(has_divisor_from(319, 9));
    assert(has_divisor_from(319, 8));
    assert(has_divisor_from(319, 7));
    assert(has_divisor_from(319, 6));
    assert(has_divisor_from(319, 5));
    assert(has_divisor_from(319, 4));
    assert(has_divisor_from(319, 3));
    assert(has_divisor_from(319, 2));
    assert(count_by_division(319) == 66);
    assert(has_divisor_from(320, 2));
    assert(count_by_division(320) == 66);
    assert(has_divisor_from(321, 3));
    assert(has_divisor_from(321, 2));
    assert(count_by_division(321) == 66);
    assert(has_divisor_from(322, 2));
    assert(count_by_division(322) == 66);
    assert(has_divisor_from(323, 17));
    assert(has_divisor_from(323, 16));
    assert(has_divisor_from(323, 15));
    assert(has_divisor_from(323, 14));
    assert(has_divisor_from(323, 13));
    assert(has_divisor_from(323, 12));
    assert(has_divisor_from(323, 11));
    assert(has_divisor_from(323, 10));
    assert(has_divisor_from(323, 9));
    assert(has_divisor_from(323, 8));
    assert(has_divisor_from(323, 7));
    assert(has_divisor_from(323, 6));
    assert(has_divisor_from(323, 5));
    assert(has_divisor_from(323, 4));
    assert(has_divisor_from(323, 3));
    assert(has_divisor_from(323, 2));
    assert(count_by_division(323) == 66);
    assert(has_divisor_from(324, 2));
    assert(count_by_division(324) == 66);
    assert(has_divisor_from(325, 5));
    assert(has_divisor_from(325, 4));
    assert(has_divisor_from(325, 3));
    assert(has_divisor_from(325, 2));
    assert(count_by_division(325) == 66);
    assert(has_divisor_from(326, 2));
    assert(count_by_division(326) == 66);
    assert(has_divisor_from(327, 3));
    assert(has_divisor_from(327, 2));
    assert(count_by_division(327) == 66);
    assert(has_divisor_from(328, 2));
    assert(count_by_division(328) == 66);
    assert(has_divisor_from(329, 7));
    assert(has_divisor_from(329, 6));
    assert(has_divisor_from(329, 5));
    assert(has_divisor_from(329, 4));
    assert(has_divisor_from(329, 3));
    assert(has_divisor_from(329, 2));
    assert(count_by_division(329) == 66);
    assert(has_divisor_from(330, 2));
    assert(count_by_division(330) == 66);
    assert(!has_divisor_from(331, 19));
    assert(!has_divisor_from(331, 18));
    assert(!has_divisor_from(331, 17));
    assert(!has_divisor_from(331, 16));
    assert(!has_divisor_from(331, 15));
    assert(!has_divisor_from(331, 14));
    assert(!has_divisor_from(331, 13));
    assert(!has_divisor_from(331, 12));
    assert(!has_divisor_from(331, 11));
    assert(!has_divisor_from(331, 10));
    assert(!has_divisor_from(331, 9));
    assert(!has_divisor_from(331, 8));
    assert(!has_divisor_from(331, 7));
    assert(!has_divisor_from(331, 6));
    assert(!has_divisor_from(331, 5));
    assert(!has_divisor_from(331, 4));
    assert(!has_divisor_from(331, 3));
    assert(!has_divisor_from(331, 2));
    assert(count_by_division(331) == 67);
    assert(has_divisor_from(332, 2));
    assert(count_by_division(332) == 67);
    assert(has_divisor_from(333, 3));
    assert(has_divisor_from(333, 2));
    assert(count_by_division(333) == 67);
    assert(has_divisor_from(334, 2));
    assert(count_by_division(334) == 67);
    assert(has_divisor_from(335, 5));
    assert(has_divisor_from(335, 4));
    assert(has_divisor_from(335, 3));
    assert(has_divisor_from(335, 2));
    assert(count_by_division(335) == 67);
    assert(has_divisor_from(336, 2));
    assert(count_by_division(336) == 67);
    assert(!has_divisor_from(337, 19));
    assert(!has_divisor_from(337, 18));
    assert(!has_divisor_from(337, 17));
    assert(!has_divisor_from(337, 16));
    assert(!has_divisor_from(337, 15));
    assert(!has_divisor_from(337, 14));
    assert(!has_divisor_from(337, 13));
    assert(!has_divisor_from(337, 12));
    assert(!has_divisor_from(337, 11));
    assert(!has_divisor_from(337, 10));
    assert(!has_divisor_from(337, 9));
    assert(!has_divisor_from(337, 8));
    assert(!has_divisor_from(337, 7));
    assert(!has_divisor_from(337, 6));
    assert(!has_divisor_from(337, 5));
    assert(!has_divisor_from(337, 4));
    assert(!has_divisor_from(337, 3));
    assert(!has_divisor_from(337, 2));
    assert(count_by_division(337) == 68);
    assert(has_divisor_from(338, 2));
    assert(count_by_division(338) == 68);
    assert(has_divisor_from(339, 3));
    assert(has_divisor_from(339, 2));
    assert(count_by_division(339) == 68);
    assert(has_divisor_from(340, 2));
    assert(count_by_division(340) == 68);
    assert(has_divisor_from(341, 11));
    assert(has_divisor_from(341, 10));
    assert(has_divisor_from(341, 9));
    assert(has_divisor_from(341, 8));
    assert(has_divisor_from(341, 7));
    assert(has_divisor_from(341, 6));
    assert(has_divisor_from(341, 5));
    assert(has_divisor_from(341, 4));
    assert(has_divisor_from(341, 3));
    assert(has_divisor_from(341, 2));
    assert(count_by_division(341) == 68);
    assert(has_divisor_from(342, 2));
    assert(count_by_division(342) == 68);
    assert(has_divisor_from(343, 7));
    assert(has_divisor_from(343, 6));
    assert(has_divisor_from(343, 5));
    assert(has_divisor_from(343, 4));
    assert(has_divisor_from(343, 3));
    assert(has_divisor_from(343, 2));
    assert(count_by_division(343) == 68);
    assert(has_divisor_from(344, 2));
    assert(count_by_division(344) == 68);
    assert(has_divisor_from(345, 3));
    assert(has_divisor_from(345, 2));
    assert(count_by_division(345) == 68);
    assert(has_divisor_from(346, 2));
    assert(count_by_division(346) == 68);
    assert(!has_divisor_from(347, 19));
    assert(!has_divisor_from(347, 18));
    assert(!has_divisor_from(347, 17));
    assert(!has_divisor_from(347, 16));
    assert(!has_divisor_from(347, 15));
    assert(!has_divisor_from(347, 14));
    assert(!has_divisor_from(347, 13));
    assert(!has_divisor_from(347, 12));
    assert(!has_divisor_from(347, 11));
    assert(!has_divisor_from(347, 10));
    assert(!has_divisor_from(347, 9));
    assert(!has_divisor_from(347, 8));
    assert(!has_divisor_from(347, 7));
    assert(!has_divisor_from(347, 6));
    assert(!has_divisor_from(347, 5));
    assert(!has_divisor_from(347, 4));
    assert(!has_divisor_from(347, 3));
    assert(!has_divisor_from(347, 2));
    assert(count_by_division(347) == 69);
    assert(has_divisor_from(348, 2));
    assert(count_by_division(348) == 69);
    assert(!has_divisor_from(349, 19));
    assert(!has_divisor_from(349, 18));
    assert(!has_divisor_from(349, 17));
    assert(!has_divisor_from(349, 16));
    assert(!has_divisor_from(349, 15));
    assert(!has_divisor_from(349, 14));
    assert(!has_divisor_from(349, 13));
    assert(!has_divisor_from(349, 12));
    assert(!has_divisor_from(349, 11));
    assert(!has_divisor_from(349, 10));
    assert(!has_divisor_from(349, 9));
    assert(!has_divisor_from(349, 8));
    assert(!has_divisor_from(349, 7));
    assert(!has_divisor_from(349, 6));
    assert(!has_divisor_from(349, 5));
    assert(!has_divisor_from(349, 4));
    assert(!has_divisor_from(349, 3));
    assert(!has_divisor_from(349, 2));
    assert(count_by_division(349) == 70);
    assert(has_divisor_from(350, 2));
    assert(count_by_division(350) == 70);
    assert(has_divisor_from(351, 3));
    assert(has_divisor_from(351, 2));
    assert(count_by_division(351) == 70);
    assert(has_divisor_from(352, 2));
    assert(count_by_division(352) == 70);
    assert(!has_divisor_from(353, 19));
    assert(!has_divisor_from(353, 18));
    assert(!has_divisor_from(353, 17));
    assert(!has_divisor_from(353, 16));
    assert(!has_divisor_from(353, 15));
    assert(!has_divisor_from(353, 14));
    assert(!has_divisor_from(353, 13));
    assert(!has_divisor_from(353, 12));
    assert(!has_divisor_from(353, 11));
    assert(!has_divisor_from(353, 10));
    assert(!has_divisor_from(353, 9));
    assert(!has_divisor_from(353, 8));
    assert(!has_divisor_from(353, 7));
    assert(!has_divisor_from(353, 6));
    assert(!has_divisor_from(353, 5));
    assert(!has_divisor_from(353, 4));
    assert(!has_divisor_from(353, 3));
    assert(!has_divisor_from(353, 2));
    assert(count_by_division(353) == 71);
    assert(has_divisor_from(354, 2));
    assert(count_by_division(354) == 71);
    assert(has_divisor_from(355, 5));
    assert(has_divisor_from(355, 4));
    assert(has_divisor_from(355, 3));
    assert(has_divisor_from(355, 2));
    assert(count_by_division(355) == 71);
    assert(has_divisor_from(356, 2));
    assert(count_by_division(356) == 71);
    assert(has_divisor_from(357, 3));
    assert(has_divisor_from(357, 2));
    assert(count_by_division(357) == 71);
    assert(has_divisor_from(358, 2));
    assert(count_by_division(358) == 71);
    assert(!has_divisor_from(359, 19));
    assert(!has_divisor_from(359, 18));
    assert(!has_divisor_from(359, 17));
    assert(!has_divisor_from(359, 16));
    assert(!has_divisor_from(359, 15));
    assert(!has_divisor_from(359, 14));
    assert(!has_divisor_from(359, 13));
    assert(!has_divisor_from(359, 12));
    assert(!has_divisor_from(359, 11));
    assert(!has_divisor_from(359, 10));
    assert(!has_divisor_from(359, 9));
    assert(!has_divisor_from(359, 8));
    assert(!has_divisor_from(359, 7));
    assert(!has_divisor_from(359, 6));
    assert(!has_divisor_from(359, 5));
    assert(!has_divisor_from(359, 4));
    assert(!has_divisor_from(359, 3));
    assert(!has_divisor_from(359, 2));
    assert(count_by_division(359) == 72);
    assert(has_divisor_from(360, 2));
    assert(count_by_division(360) == 72);
    assert(has_divisor_from(361, 19));
    assert(has_divisor_from(361, 18));
    assert(has_divisor_from(361, 17));
    assert(has_divisor_from(361, 16));
    assert(has_divisor_from(361, 15));
    assert(has_divisor_from(361, 14));
    assert(has_divisor_from(361, 13));
    assert(has_divisor_from(361, 12));
    assert(has_divisor_from(361, 11));
    assert(has_divisor_from(361, 10));
    assert(has_divisor_from(361, 9));
    assert(has_divisor_from(361, 8));
    assert(has_divisor_from(361, 7));
    assert(has_divisor_from(361, 6));
    assert(has_divisor_from(361, 5));
    assert(has_divisor_from(361, 4));
    assert(has_divisor_from(361, 3));
    assert(has_divisor_from(361, 2));
    assert(count_by_division(361) == 72);
    assert(has_divisor_from(362, 2));
    assert(count_by_division(362) == 72);
    assert(has_divisor_from(363, 3));
    assert(has_divisor_from(363, 2));
    assert(count_by_division(363) == 72);
    assert(has_divisor_from(364, 2));
    assert(count_by_division(364) == 72);
    assert(has_divisor_from(365, 5));
    assert(has_divisor_from(365, 4));
    assert(has_divisor_from(365, 3));
    assert(has_divisor_from(365, 2));
    assert(count_by_division(365) == 72);
    assert(has_divisor_from(366, 2));
    assert(count_by_division(366) == 72);
    assert(!has_divisor_from(367, 20));
    assert(!has_divisor_from(367, 19));
    assert(!has_divisor_from(367, 18));
    assert(!has_divisor_from(367, 17));
    assert(!has_divisor_from(367, 16));
    assert(!has_divisor_from(367, 15));
    assert(!has_divisor_from(367, 14));
    assert(!has_divisor_from(367, 13));
    assert(!has_divisor_from(367, 12));
    assert(!has_divisor_from(367, 11));
    assert(!has_divisor_from(367, 10));
    assert(!has_divisor_from(367, 9));
    assert(!has_divisor_from(367, 8));
    assert(!has_divisor_from(367, 7));
    assert(!has_divisor_from(367, 6));
    assert(!has_divisor_from(367, 5));
    assert(!has_divisor_from(367, 4));
    assert(!has_divisor_from(367, 3));
    assert(!has_divisor_from(367, 2));
    assert(count_by_division(367) == 73);
    assert(has_divisor_from(368, 2));
    assert(count_by_division(368) == 73);
    assert(has_divisor_from(369, 3));
    assert(has_divisor_from(369, 2));
    assert(count_by_division(369) == 73);
    assert(has_divisor_from(370, 2));
    assert(count_by_division(370) == 73);
    assert(has_divisor_from(371, 7));
    assert(has_divisor_from(371, 6));
    assert(has_divisor_from(371, 5));
    assert(has_divisor_from(371, 4));
    assert(has_divisor_from(371, 3));
    assert(has_divisor_from(371, 2));
    assert(count_by_division(371) == 73);
    assert(has_divisor_from(372, 2));
    assert(count_by_division(372) == 73);
    assert(!has_divisor_from(373, 20));
    assert(!has_divisor_from(373, 19));
    assert(!has_divisor_from(373, 18));
    assert(!has_divisor_from(373, 17));
    assert(!has_divisor_from(373, 16));
    assert(!has_divisor_from(373, 15));
    assert(!has_divisor_from(373, 14));
    assert(!has_divisor_from(373, 13));
    assert(!has_divisor_from(373, 12));
    assert(!has_divisor_from(373, 11));
    assert(!has_divisor_from(373, 10));
    assert(!has_divisor_from(373, 9));
    assert(!has_divisor_from(373, 8));
    assert(!has_divisor_from(373, 7));
    assert(!has_divisor_from(373, 6));
    assert(!has_divisor_from(373, 5));
    assert(!has_divisor_from(373, 4));
    assert(!has_divisor_from(373, 3));
    assert(!has_divisor_from(373, 2));
    assert(count_by_division(373) == 74);
    assert(has_divisor_from(374, 2));
    assert(count_by_division(374) == 74);
    assert(has_divisor_from(375, 3));
    assert(has_divisor_from(375, 2));
    assert(count_by_division(375) == 74);
    assert(has_divisor_from(376, 2));
    assert(count_by_division(376) == 74);
    assert(has_divisor_from(377, 13));
    assert(has_divisor_from(377, 12));
    assert(has_divisor_from(377, 11));
    assert(has_divisor_from(377, 10));
    assert(has_divisor_from(377, 9));
    assert(has_divisor_from(377, 8));
    assert(has_divisor_from(377, 7));
    assert(has_divisor_from(377, 6));
    assert(has_divisor_from(377, 5));
    assert(has_divisor_from(377, 4));
    assert(has_divisor_from(377, 3));
    assert(has_divisor_from(377, 2));
    assert(count_by_division(377) == 74);
    assert(has_divisor_from(378, 2));
    assert(count_by_division(378) == 74);
    assert(!has_divisor_from(379, 20));
    assert(!has_divisor_from(379, 19));
    assert(!has_divisor_from(379, 18));
    assert(!has_divisor_from(379, 17));
    assert(!has_divisor_from(379, 16));
    assert(!has_divisor_from(379, 15));
    assert(!has_divisor_from(379, 14));
    assert(!has_divisor_from(379, 13));
    assert(!has_divisor_from(379, 12));
    assert(!has_divisor_from(379, 11));
    assert(!has_divisor_from(379, 10));
    assert(!has_divisor_from(379, 9));
    assert(!has_divisor_from(379, 8));
    assert(!has_divisor_from(379, 7));
    assert(!has_divisor_from(379, 6));
    assert(!has_divisor_from(379, 5));
    assert(!has_divisor_from(379, 4));
    assert(!has_divisor_from(379, 3));
    assert(!has_divisor_from(379, 2));
    assert(count_by_division(379) == 75);
    assert(has_divisor_from(380, 2));
    assert(count_by_division(380) == 75);
    assert(has_divisor_from(381, 3));
    assert(has_divisor_from(381, 2));
    assert(count_by_division(381) == 75);
    assert(has_divisor_from(382, 2));
    assert(count_by_division(382) == 75);
    assert(!has_divisor_from(383, 20));
    assert(!has_divisor_from(383, 19));
    assert(!has_divisor_from(383, 18));
    assert(!has_divisor_from(383, 17));
    assert(!has_divisor_from(383, 16));
    assert(!has_divisor_from(383, 15));
    assert(!has_divisor_from(383, 14));
    assert(!has_divisor_from(383, 13));
    assert(!has_divisor_from(383, 12));
    assert(!has_divisor_from(383, 11));
    assert(!has_divisor_from(383, 10));
    assert(!has_divisor_from(383, 9));
    assert(!has_divisor_from(383, 8));
    assert(!has_divisor_from(383, 7));
    assert(!has_divisor_from(383, 6));
    assert(!has_divisor_from(383, 5));
    assert(!has_divisor_from(383, 4));
    assert(!has_divisor_from(383, 3));
    assert(!has_divisor_from(383, 2));
    assert(count_by_division(383) == 76);
    assert(has_divisor_from(384, 2));
    assert(count_by_division(384) == 76);
    assert(has_divisor_from(385, 5));
    assert(has_divisor_from(385, 4));
    assert(has_divisor_from(385, 3));
    assert(has_divisor_from(385, 2));
    assert(count_by_division(385) == 76);
    assert(has_divisor_from(386, 2));
    assert(count_by_division(386) == 76);
    assert(has_divisor_from(387, 3));
    assert(has_divisor_from(387, 2));
    assert(count_by_division(387) == 76);
    assert(has_divisor_from(388, 2));
    assert(count_by_division(388) == 76);
    assert(!has_divisor_from(389, 20));
    assert(!has_divisor_from(389, 19));
    assert(!has_divisor_from(389, 18));
    assert(!has_divisor_from(389, 17));
    assert(!has_divisor_from(389, 16));
    assert(!has_divisor_from(389, 15));
    assert(!has_divisor_from(389, 14));
    assert(!has_divisor_from(389, 13));
    assert(!has_divisor_from(389, 12));
    assert(!has_divisor_from(389, 11));
    assert(!has_divisor_from(389, 10));
    assert(!has_divisor_from(389, 9));
    assert(!has_divisor_from(389, 8));
    assert(!has_divisor_from(389, 7));
    assert(!has_divisor_from(389, 6));
    assert(!has_divisor_from(389, 5));
    assert(!has_divisor_from(389, 4));
    assert(!has_divisor_from(389, 3));
    assert(!has_divisor_from(389, 2));
    assert(count_by_division(389) == 77);
    assert(has_divisor_from(390, 2));
    assert(count_by_division(390) == 77);
    assert(has_divisor_from(391, 17));
    assert(has_divisor_from(391, 16));
    assert(has_divisor_from(391, 15));
    assert(has_divisor_from(391, 14));
    assert(has_divisor_from(391, 13));
    assert(has_divisor_from(391, 12));
    assert(has_divisor_from(391, 11));
    assert(has_divisor_from(391, 10));
    assert(has_divisor_from(391, 9));
    assert(has_divisor_from(391, 8));
    assert(has_divisor_from(391, 7));
    assert(has_divisor_from(391, 6));
    assert(has_divisor_from(391, 5));
    assert(has_divisor_from(391, 4));
    assert(has_divisor_from(391, 3));
    assert(has_divisor_from(391, 2));
    assert(count_by_division(391) == 77);
    assert(has_divisor_from(392, 2));
    assert(count_by_division(392) == 77);
    assert(has_divisor_from(393, 3));
    assert(has_divisor_from(393, 2));
    assert(count_by_division(393) == 77);
    assert(has_divisor_from(394, 2));
    assert(count_by_division(394) == 77);
    assert(has_divisor_from(395, 5));
    assert(has_divisor_from(395, 4));
    assert(has_divisor_from(395, 3));
    assert(has_divisor_from(395, 2));
    assert(count_by_division(395) == 77);
    assert(has_divisor_from(396, 2));
    assert(count_by_division(396) == 77);
    assert(!has_divisor_from(397, 20));
    assert(!has_divisor_from(397, 19));
    assert(!has_divisor_from(397, 18));
    assert(!has_divisor_from(397, 17));
    assert(!has_divisor_from(397, 16));
    assert(!has_divisor_from(397, 15));
    assert(!has_divisor_from(397, 14));
    assert(!has_divisor_from(397, 13));
    assert(!has_divisor_from(397, 12));
    assert(!has_divisor_from(397, 11));
    assert(!has_divisor_from(397, 10));
    assert(!has_divisor_from(397, 9));
    assert(!has_divisor_from(397, 8));
    assert(!has_divisor_from(397, 7));
    assert(!has_divisor_from(397, 6));
    assert(!has_divisor_from(397, 5));
    assert(!has_divisor_from(397, 4));
    assert(!has_divisor_from(397, 3));
    assert(!has_divisor_from(397, 2));
    assert(count_by_division(397) == 78);
    assert(has_divisor_from(398, 2));
    assert(count_by_division(398) == 78);
    assert(has_divisor_from(399, 3));
    assert(has_divisor_from(399, 2));
    assert(count_by_division(399) == 78);
    assert(has_divisor_from(400, 2));
    assert(count_by_division(400) == 78);
}

/// Trial division up to 500.
proof fn lemma_count_500()
    requires count_by_division(400) == 78,
    ensures count_by_division(500) == 95,
{
    assert(!has_divisor_from(401, 21));
    assert(!has_divisor_from(401, 20));
    assert(!has_divisor_from(401, 19));
    assert(!has_divisor_from(401, 18));
    assert(!has_divisor_from(401, 17));
    assert(!has_divisor_from(401, 16));
    assert(!has_divisor_from(401, 15));
    assert(!has_divisor_from(401, 14));
    assert(!has_divisor_from(401, 13));
    assert(!has_divisor_from(401, 12));
    assert(!has_divisor_from(401, 11));
    assert(!has_divisor_from(401, 10));
    assert(!has_divisor_from(401, 9));
    assert(!has_divisor_from(401, 8));
    assert(!has_divisor_from(401, 7));
    assert(!has_divisor_from(401, 6));
    assert(!has_divisor_from(401, 5));
    assert(!has_divisor_from(401, 4));
    assert(!has_divisor_from(401, 3));
    assert(!has_divisor_from(401, 2));
    assert(count_by_division(401) == 79);
    assert(has_divisor_from(402, 2));
    assert(count_by_division(402) == 79);
    assert(has_divisor_from(403, 13));
    assert(has_divisor_from(403, 12));
    assert(has_divisor_from(403, 11));
    assert(has_divisor_from(403, 10));
    assert(has_divisor_from(403, 9));
    assert(has_divisor_from(403, 8));
    assert(has_divisor_from(403, 7));
    assert(has_divisor_from(403, 6));
    assert(has_divisor_from(403, 5));
    assert(has_divisor_from(403, 4));
    assert(has_divisor_from(403, 3));
    assert(has_divisor_from(403, 2));
    assert(count_by_division(403) == 79);
    assert(has_divisor_from(404, 2));
    assert(count_by_division(404) == 79);
    assert(has_divisor_from(405, 3));
    assert(has_divisor_from(405, 2));
    assert(count_by_division(405) == 79);
    assert(has_divisor_from(406, 2));
    assert(count_by_division(406) == 79);
    assert(has_divisor_from(407, 11));
    assert(has_divisor_from(407, 10));
    assert(has_divisor_from(407, 9));
    assert(has_divisor_from(407, 8));
    assert(has_divisor_from(407, 7));
    assert(has_divisor_from(407, 6));
    assert(has_divisor_from(407, 5));
    assert(has_divisor_from(407, 4));
    assert(has_divisor_from(407, 3));
    assert(has_divisor_from(407, 2));
    assert(count_by_division(407) == 79);
    assert(has_divisor_from(408, 2));
    assert(count_by_division(408) == 79);
    assert(!has_divisor_from(409, 21));
    assert(!has_divisor_from(409, 20));
    assert(!has_divisor_from(409, 19));
    assert(!has_divisor_from(409, 18));
    assert(!has_divisor_from(409, 17));
    assert(!has_divisor_from(409, 16));
    assert(!has_divisor_from(409, 15));
    assert(!has_divisor_from(409, 14));
    assert(!has_divisor_from(409, 13));
    assert(!has_divisor_from(409, 12));
    assert(!has_divisor_from(409, 11));
    assert(!has_divisor_from(409, 10));
    assert(!has_divisor_from(409, 9));
    assert(!has_divisor_from(409, 8));
    assert(!has_divisor_from(409, 7));
    assert(!has_divisor_from(409, 6));
    assert(!has_divisor_from(409, 5));
    assert(!has_divisor_from(409, 4));
    assert(!has_divisor_from(409, 3));
    assert(!has_divisor_from(409, 2));
    assert(count_by_division(409) == 80);
    assert(has_divisor_from(410, 2));
    assert(count_by_division(410) == 80);
    assert(has_divisor_from(411, 3));
    assert(has_divisor_from(411, 2));
    assert(count_by_division(411) == 80);
    assert(has_divisor_from(412, 2));
    assert(count_by_division(412) == 80);
    assert(has_divisor_from(413, 7));
    assert(has_divisor_from(413, 6));
    assert(has_divisor_from(413, 5));
    assert(has_divisor_from(413, 4));
    assert(has_divisor_from(413, 3));
    assert(has_divisor_from(413, 2));
    assert(count_by_division(413) == 80);
    assert(has_divisor_from(414, 2));
    assert(count_by_division(414) == 80);
    assert(has_divisor_from(415, 5));
    assert(has_divisor_from(415, 4));
    assert(has_divisor_from(415, 3));
    assert(has_divisor_from(415, 2));
    assert(count_by_division(415) == 80);
    assert(has_divisor_from(416, 2));
    assert(count_by_division(416) == 80);
    assert(has_divisor_from(417, 3));
    assert(has_divisor_from(417, 2));
    assert(count_by_division(417) == 80);
    assert(has_divisor_from(418, 2));
    assert(count_by_division(418) == 80);
    assert(!has_divisor_from(419, 21));
    assert(!has_divisor_from(419, 20));
    assert(!has_divisor_from(419, 19));
    assert(!has_divisor_from(419, 18));
    assert(!has_divisor_from(419, 17));
    assert(!has_divisor_from(419, 16));
    assert(!has_divisor_from(419, 15));
    assert(!has_divisor_from(419, 14));
    assert(!has_divisor_from(419, 13));
    assert(!has_divisor_from(419, 12));
    assert(!has_divisor_from(419, 11));
    assert(!has_divisor_from(419, 10));
    assert(!has_divisor_from(419, 9));
    assert(!has_divisor_from(419, 8));
    assert(!has_divisor_from(419, 7));
    assert(!has_divisor_from(419, 6));
    assert(!has_divisor_from(419, 5));
    assert(!has_divisor_from(419, 4));
    assert(!has_divisor_from(419, 3));
    assert(!has_divisor_from(419, 2));
    assert(count_by_division(419) == 81);
    assert(has_divisor_from(420, 2));
    assert(count_by_division(420) == 81);
    assert(!has_divisor_from(421, 21));
    assert(!has_divisor_from(421, 20));
    assert(!has_divisor_from(421, 19));
    assert(!has_divisor_from(421, 18));
    assert(!has_divisor_from(421, 17));
    assert(!has_divisor_from(421, 16));
    assert(!has_divisor_from(421, 15));
    assert(!has_divisor_from(421, 14));
    assert(!has_divisor_from(421, 13));
    assert(!has_divisor_from(421, 12));
    assert(!has_divisor_from(421, 11));
    assert(!has_divisor_from(421, 10));
    assert(!has_divisor_from(421, 9));
    assert(!has_divisor_from(421, 8));
    assert(!has_divisor_from(421, 7));
    assert(!has_divisor_from(421, 6));
    assert(!has_divisor_from(421, 5));
    assert(!has_divisor_from(421, 4));
    assert(!has_divisor_from(421, 3));
    assert(!has_divisor_from(421, 2));
    assert(count_by_division(421) == 82);
    assert(has_divisor_from(422, 2));
    assert(count_by_division(422) == 82);
    assert(has_divisor_from(423, 3));
    assert(has_divisor_from(423, 2));
    assert(count_by_division(423) == 82);
    assert(has_divisor_from(424, 2));
    assert(count_by_division(424) == 82);
    assert(has_divisor_from(425, 5));
    assert(has_divisor_from(425, 4));
    assert(has_divisor_from(425, 3));
    assert(has_divisor_from(425, 2));
    assert(count_by_division(425) == 82);
    assert(has_divisor_from(426, 2));
    assert(count_by_division(426) == 82);
    assert(has_divisor_from(427, 7));
    assert(has_divisor_from(427, 6));
    assert(has_divisor_from(427, 5));
    assert(has_divisor_from(427, 4));
    assert(has_divisor_from(427, 3));
    assert(has_divisor_from(427, 2));
    assert(count_by_division(427) == 82);
    assert(has_divisor_from(428, 2));
    assert(count_by_division(428) == 82);
    assert(has_divisor_from(429, 3));
    assert(has_divisor_from(429, 2));
    assert(count_by_division(429) == 82);
    assert(has_divisor_from(430, 2));
    assert(count_by_division(430) == 82);
    assert(!has_divisor_from(431, 21));
    assert(!has_divisor_from(431, 20));
    assert(!has_divisor_from(431, 19));
    assert(!has_divisor_from(431, 18));
    assert(!has_divisor_from(431, 17));
    assert(!has_divisor_from(431, 16));
    assert(!has_divisor_from(431, 15));
    assert(!has_divisor_from(431, 14));
    assert(!has_divisor_from(431, 13));
    assert(!has_divisor_from(431, 12));
    assert(!has_divisor_from(431, 11));
    assert(!has_divisor_from(431, 10));
    assert(!has_divisor_from(431, 9));
    assert(!has_divisor_from(431, 8));
    assert(!has_divisor_from(431, 7));
    assert(!has_divisor_from(431, 6));
    assert(!has_divisor_from(431, 5));
    assert(!has_divisor_from(431, 4));
    assert(!has_divisor_from(431, 3));
    assert(!has_divisor_from(431, 2));
    assert(count_by_division(431) == 83);
    assert(has_divisor_from(432, 2));
    assert(count_by_division(432) == 83);
    assert(!has_divisor_from(433, 21));
    assert(!has_divisor_from(433, 20));
    assert(!has_divisor_from(433, 19));
    assert(!has_divisor_from(433, 18));
    assert(!has_divisor_from(433, 17));
    assert(!has_divisor_from(433, 16));
    assert(!has_divisor_from(433, 15));
    assert(!has_divisor_from(433, 14));
    assert(!has_divisor_from(433, 13));
    assert(!has_divisor_from(433, 12));
    assert(!has_divisor_from(433, 11));
    assert(!has_divisor_from(433, 10));
    assert(!has_divisor_from(433, 9));
    assert(!has_divisor_from(433, 8));
    assert(!has_divisor_from(433, 7));
    assert(!has_divisor_from(433, 6));
    assert(!has_divisor_from(433, 5));
    assert(!has_divisor_from(433, 4));
    assert(!has_divisor_from(433, 3));
    assert(!has_divisor_from(433, 2));
    assert(count_by_division(433) == 84);
    assert(has_divisor_from(434, 2));
    assert(count_by_division(434) == 84);
    assert(has_divisor_from(435, 3));
    assert(has_divisor_from(435, 2));
    assert(count_by_division(435) == 84);
    assert(has_divisor_from(436, 2));
    assert(count_by_division(436) == 84);
    assert(has_divisor_from(437, 19));
    assert(has_divisor_from(437, 18));
    assert(has_divisor_from(437, 17));
    assert(has_divisor_from(437, 16));
    assert(has_divisor_from(437, 15));
    assert(has_divisor_from(437, 14));
    assert(has_divisor_from(437, 13));
    assert(has_divisor_from(437, 12));
    assert(has_divisor_from(437, 11));
    assert(has_divisor_from(437, 10));
    assert(has_divisor_from(437, 9));
    assert(has_divisor_from(437, 8));
    assert(has_divisor_from(437, 7));
    assert(has_divisor_from(437, 6));
    assert(has_divisor_from(437, 5));
    assert(has_divisor_from(437, 4));
    assert(has_divisor_from(437, 3));
    assert(has_divisor_from(437, 2));
    assert(count_by_division(437) == 84);
    assert(has_divisor_from(438, 2));
    assert(count_by_division(438) == 84);
    assert(!has_divisor_from(439, 21));
    assert(!has_divisor_from(439, 20));
    assert(!has_divisor_from(439, 19));
    assert(!has_divisor_from(439, 18));
    assert(!has_divisor_from(439, 17));
    assert(!has_divisor_from(439, 16));
    assert(!has_divisor_from(439, 15));
    assert(!has_divisor_from(439, 14));
    assert(!has_divisor_from(439, 13));
    assert(!has_divisor_from(439, 12));
    assert(!has_divisor_from(439, 11));
    assert(!has_divisor_from(439, 10));
    assert(!has_divisor_from(439, 9));
    assert(!has_divisor_from(439, 8));
    assert(!has_divisor_from(439, 7));
    assert(!has_divisor_from(439, 6));
    assert(!has_divisor_from(439, 5));
    assert(!has_divisor_from(439, 4));
    assert(!has_divisor_from(439, 3));
    assert(!has_divisor_from(439, 2));
    assert(count_by_division(439) == 85);
    assert(has_divisor_from(440, 2));
    assert(count_by_division(440) == 85);
    assert(has_divisor_from(441, 3));
    assert(has_divisor_from(441, 2));
    assert(count_by_division(441) == 85);
    assert(has_divisor_from(442, 2));
    assert(count_by_division(442) == 85);
    assert(!has_divisor_from(443, 22));
    assert(!has_divisor_from(443, 21));
    assert(!has_divisor_from(443, 20));
    assert(!has_divisor_from(443, 19));
    assert(!has_divisor_from(443, 18));
    assert(!has_divisor_from(443, 17));
    assert(!has_divisor_from(443, 16));
    assert(!has_divisor_from(443, 15));
    assert(!has_divisor_from(443, 14));
    assert(!has_divisor_from(443, 13));
    assert(!has_divisor_from(443, 12));
    assert(!has_divisor_from(443, 11));
    assert(!has_divisor_from(443, 10));
    assert(!has_divisor_from(443, 9));
    assert(!has_divisor_from(443, 8));
    assert(!has_divisor_from(443, 7));
    assert(!has_divisor_from(443, 6));
    assert(!has_divisor_from(443, 5));
    assert(!has_divisor_from(443, 4));
    assert(!has_divisor_from(443, 3));
    assert(!has_divisor_from(443, 2));
    assert(count_by_division(443) == 86);
    assert(has_divisor_from(444, 2));
    assert(count_by_division(444) == 86);
    assert(has_divisor_from(445, 5));
    assert(has_divisor_from(445, 4));
    assert(has_divisor_from(445, 3));
    assert(has_divisor_from(445, 2));
    assert(count_by_division(445) == 86);
    assert(has_divisor_from(446, 2));
    assert(count_by_division(446) == 86);
    assert(has_divisor_from(447, 3));
    assert(has_divisor_from(447, 2));
    assert(count_by_division(447) == 86);
    assert(has_divisor_from(448, 2));
    assert(count_by_division(448) == 86);
    assert(!has_divisor_from(449, 22));
    assert(!has_divisor_from(449, 21));
    assert(!has_divisor_from(449, 20));
    assert(!has_divisor_from(449, 19));
    assert(!has_divisor_from(449, 18));
    assert(!has_divisor_from(449, 17));
    assert(!has_divisor_from(449, 16));
    assert(!has_divisor_from(449, 15));
    assert(!has_divisor_from(449, 14));
    assert(!has_divisor_from(449, 13));
    assert(!has_divisor_from(449, 12));
    assert(!has_divisor_from(449, 11));
    assert(!has_divisor_from(449, 10));
    assert(!has_divisor_from(449, 9));
    assert(!has_divisor_from(449, 8));
    assert(!has_divisor_from(449, 7));
    assert(!has_divisor_from(449, 6));
    assert(!has_divisor_from(449, 5));
    assert(!has_divisor_from(449, 4));
    assert(!has_divisor_from(449, 3));
    assert(!has_divisor_from(449, 2));
    assert(count_by_division(449) == 87);
    assert(has_divisor_from(450, 2));
    assert(count_by_division(450) == 87);
    assert(has_divisor_from(451, 11));
    assert(has_divisor_from(451, 10));
    assert(has_divisor_from(451, 9));
    assert(has_divisor_from(451, 8));
    assert(has_divisor_from(451, 7));
    assert(has_divisor_from(451, 6));
    assert(has_divisor_from(451, 5));
    assert(has_divisor_from(451, 4));
    assert(has_divisor_from(451, 3));
    assert(has_divisor_from(451, 2));
    assert(count_by_division(451) == 87);
    assert(has_divisor_from(452, 2));
    assert(count_by_division(452) == 87);
    assert(has_divisor_from(453, 3));
    assert(has_divisor_from(453, 2));
    assert(count_by_division(453) == 87);
    assert(has_divisor_from(454, 2));
    assert(count_by_division(454) == 87);
    assert(has_divisor_from(455, 5));
    assert(has_divisor_from(455, 4));
    assert(has_divisor_from(455, 3));
    assert(has_divisor_from(455, 2));
    assert(count_by_division(455) == 87);
    assert(has_divisor_from(456, 2));
    assert(count_by_division(456) == 87);
    assert(!has_divisor_from(457, 22));
    assert(!has_divisor_from(457, 21));
    assert(!has_divisor_from(457, 20));
    assert(!has_divisor_from(457, 19));
    assert(!has_divisor_from(457, 18));
    assert(!has_divisor_from(457, 17));
    assert(!has_divisor_from(457, 16));
    assert(!has_divisor_from(457, 15));
    assert(!has_divisor_from(457, 14));
    assert(!has_divisor_from(457, 13));
    assert(!has_divisor_from(457, 12));
    assert(!has_divisor_from(457, 11));
    assert(!has_divisor_from(457, 10));
    assert(!has_divisor_from(457, 9));
    assert(!has_divisor_from(457, 8));
    assert(!has_divisor_from(457, 7));
    assert(!has_divisor_from(457, 6));
    assert(!has_divisor_from(457, 5));
    assert(!has_divisor_from(457, 4));
    assert(!has_divisor_from(457, 3));
    assert(!has_divisor_from(457, 2));
    assert(count_by_division(457) == 88);
    assert(has_divisor_from(458, 2));
    assert(count_by_division(458) == 88);
    assert(has_divisor_from(459, 3));
    assert(has_divisor_from(459, 2));
    assert(count_by_division(459) == 88);
    assert(has_divisor_from(460, 2));
    assert(count_by_division(460) == 88);
    assert(!has_divisor_from(461, 22));
    assert(!has_divisor_from(461, 21));
    assert(!has_divisor_from(461, 20));
    assert(!has_divisor_from(461, 19));
    assert(!has_divisor_from(461, 18));
    assert(!has_divisor_from(461, 17));
    assert(!has_divisor_from(461, 16));
    assert(!has_divisor_from(461, 15));
    assert(!has_divisor_from(461, 14));
    assert(!has_divisor_from(461, 13));
    assert(!has_divisor_from(461, 12));
    assert(!has_divisor_from(461, 11));
    assert(!has_divisor_from(461, 10));
    assert(!has_divisor_from(461, 9));
    assert(!has_divisor_from(461, 8));
    assert(!has_divisor_from(461, 7));
    assert(!has_divisor_from(461, 6));
    assert(!has_divisor_from(461, 5));
    assert(!has_divisor_from(461, 4));
    assert(!has_divisor_from(461, 3));
    assert(!has_divisor_from(461, 2));
    assert(count_by_division(461) == 89);
    assert(has_divisor_from(462, 2));
    assert(count_by_division(462) == 89);
    assert(!has_divisor_from(463, 22));
    assert(!has_divisor_from(463, 21));
    assert(!has_divisor_from(463, 20));
    assert(!has_divisor_from(463, 19));
    assert(!has_divisor_from(463, 18));
    assert(!has_divisor_from(463, 17));
    assert(!has_divisor_from(463, 16));
    assert(!has_divisor_from(463, 15));
    assert(!has_divisor_from(463, 14));
    assert(!has_divisor_from(463, 13));
    assert(!has_divisor_from(463, 12));
    assert(!has_divisor_from(463, 11));
    assert(!has_divisor_from(463, 10));
    assert(!has_divisor_from(463, 9));
    assert(!has_divisor_from(463, 8));
    assert(!has_divisor_from(463, 7));
    assert(!has_divisor_from(463, 6));
    assert(!has_divisor_from(463, 5));
    assert(!has_divisor_from(463, 4));
    assert(!has_divisor_from(463, 3));
    assert(!has_divisor_from(463, 2));
    assert(count_by_division(463) == 90);
    assert(has_divisor_from(464, 2));
    assert(count_by_division(464) == 90);
    assert(has_divisor_from(465, 3));
    assert(has_divisor_from(465, 2));
    assert(count_by_division(465) == 90);
    assert(has_divisor_from(466, 2));
    assert(count_by_division(466) == 90);
    assert(!has_divisor_from(467, 22));
    assert(!has_divisor_from(467, 21));
    assert(!has_divisor_from(467, 20));
    assert(!has_divisor_from(467, 19));
    assert(!has_divisor_from(467, 18));
    assert(!has_divisor_from(467, 17));
    assert(!has_divisor_from(467, 16));
    assert(!has_divisor_from(467, 15));
    assert(!has_divisor_from(467, 14));
    assert(!has_divisor_from(467, 13));
    assert(!has_divisor_from(467, 12));
    assert(!has_divisor_from(467, 11));
    assert(!has_divisor_from(467, 10));
    assert(!has_divisor_from(467, 9));
    assert(!has_divisor_from(467, 8));
    assert(!has_divisor_from(467, 7));
    assert(!has_divisor_from(467, 6));
    assert(!has_divisor_from(467, 5));
    assert(!has_divisor_from(467, 4));
    assert(!has_divisor_from(467, 3));
    assert(!has_divisor_from(467, 2));
    assert(count_by_division(467) == 91);
    assert(has_divisor_from(468, 2));
    assert(count_by_division(468) == 91);
    assert(has_divisor_from(469, 7));
    assert(has_divisor_from(469, 6));
    assert(has_divisor_from(469, 5));
    assert(has_divisor_from(469, 4));
    assert(has_divisor_from(469, 3));
    assert(has_divisor_from(469, 2));
    assert(count_by_division(469) == 91);
    assert(has_divisor_from(470, 2));
    assert(count_by_division(470) == 91);
    assert(has_divisor_from(471, 3));
    assert(has_divisor_from(471, 2));
    assert(count_by_division(471) == 91);
    assert(has_divisor_from(472, 2));
    assert(count_by_division(472) == 91);
    assert(has_divisor_from(473, 11));
    assert(has_divisor_from(473, 10));
    assert(has_divisor_from(473, 9));
    assert(has_divisor_from(473, 8));
    assert(has_divisor_from(473, 7));
    assert(has_divisor_from(473, 6));
    assert(has_divisor_from(473, 5));
    assert(has_divisor_from(473, 4));
    assert(has_divisor_from(473, 3));
    assert(has_divisor_from(473, 2));
    assert(count_by_division(473) == 91);
    assert(has_divisor_from(474, 2));
    assert(count_by_division(474) == 91);
    assert(has_divisor_from(475, 5));
    assert(has_divisor_from(475, 4));
    assert(has_divisor_from(475, 3));
    assert(has_divisor_from(475, 2));
    assert(count_by_division(475) == 91);
    assert(has_divisor_from(476, 2));
    assert(count_by_division(476) == 91);
    assert(has_divisor_from(477, 3));
    assert(has_divisor_from(477, 2));
    assert(count_by_division(477) == 91);
    assert(has_divisor_from(478, 2));
    assert(count_by_division(478) == 91);
    assert(!has_divisor_from(479, 22));
    assert(!has_divisor_from(479, 21));
    assert(!has_divisor_from(479, 20));
    assert(!has_divisor_from(479, 19));
    assert(!has_divisor_from(479, 18));
    assert(!has_divisor_from(479, 17));
    assert(!has_divisor_from(479, 16));
    assert(!has_divisor_from(479, 15));
    assert(!has_divisor_from(479, 14));
    assert(!has_divisor_from(479, 13));
    assert(!has_divisor_from(479, 12));
    assert(!has_divisor_from(479, 11));
    assert(!has_divisor_from(479, 10));
    assert(!has_divisor_from(479, 9));
    assert(!has_divisor_from(479, 8));
    assert(!has_divisor_from(479, 7));
    assert(!has_divisor_from(479, 6));
    assert(!has_divisor_from(479, 5));
    assert(!has_divisor_from(479, 4));
    assert(!has_divisor_from(479, 3));
    assert(!has_divisor_from(479, 2));
    assert(count_by_division(479) == 92);
    assert(has_divisor_from(480, 2));
    assert(count_by_division(480) == 92);
    assert(has_divisor_from(481, 13));
    assert(has_divisor_from(481, 12));
    assert(has_divisor_from(481, 11));
    assert(has_divisor_from(481, 10));
    assert(has_divisor_from(481, 9));
    assert(has_divisor_from(481, 8));
    assert(has_divisor_from(481, 7));
    assert(has_divisor_from(481, 6));
    assert(has_divisor_from(481, 5));
    assert(has_divisor_from(481, 4));
    assert(has_divisor_from(481, 3));
    assert(has_divisor_from(481, 2));
    assert(count_by_division(481) == 92);
    assert(has_divisor_from(482, 2));
    assert(count_by_division(482) == 92);
    assert(has_divisor_from(483, 3));
    assert(has_divisor_from(483, 2));
    assert(count_by_division(483) == 92);
    assert(has_divisor_from(484, 2));
    assert(count_by_division(484) == 92);
    assert(has_divisor_from(485, 5));
    assert(has_divisor_from(485, 4));
    assert(has_divisor_from(485, 3));
    assert(has_divisor_from(485, 2));
    assert(count_by_division(485) == 92);
    assert(has_divisor_from(486, 2));
    assert(count_by_division(486) == 92);
    assert(!has_divisor_from(487, 23));
    assert(!has_divisor_from(487, 22));
    assert(!has_divisor_from(487, 21));
    assert(!has_divisor_from(487, 20));
    assert(!has_divisor_from(487, 19));
    assert(!has_divisor_from(487, 18));
    assert(!has_divisor_from(487, 17));
    assert(!has_divisor_from(487, 16));
    assert(!has_divisor_from(487, 15));
    assert(!has_divisor_from(487, 14));
    assert(!has_divisor_from(487, 13));
    assert(!has_divisor_from(487, 12));
    assert(!has_divisor_from(487, 11));
    assert(!has_divisor_from(487, 10));
    assert(!has_divisor_from(487, 9));
    assert(!has_divisor_from(487, 8));
    assert(!has_divisor_from(487, 7));
    assert(!has_divisor_from(487, 6));
    assert(!has_divisor_from(487, 5));
    assert(!has_divisor_from(487, 4));
    assert(!has_divisor_from(487, 3));
    assert(!has_divisor_from(487, 2));
    assert(count_by_division(487) == 93);
    assert(has_divisor_from(488, 2));
    assert(count_by_division(488) == 93);
    assert(has_divisor_from(489, 3));
    assert(has_divisor_from(489, 2));
    assert(count_by_division(489) == 93);
    assert(has_divisor_from(490, 2));
    assert(count_by_division(490) == 93);
    assert(!has_divisor_from(491, 23));
    assert(!has_divisor_from(491, 22));
    assert(!has_divisor_from(491, 21));
    assert(!has_divisor_from(491, 20));
    assert(!has_divisor_from(491, 19));
    assert(!has_divisor_from(491, 18));
    assert(!has_divisor_from(491, 17));
    assert(!has_divisor_from(491, 16));
    assert(!has_divisor_from(491, 15));
    assert(!has_divisor_from(491, 14));
    assert(!has_divisor_from(491, 13));
    assert(!has_divisor_from(491, 12));
    assert(!has_divisor_from(491, 11));
    assert(!has_divisor_from(491, 10));
    assert(!has_divisor_from(491, 9));
    assert(!has_divisor_from(491, 8));
    assert(!has_divisor_from(491, 7));
    assert(!has_divisor_from(491, 6));
    assert(!has_divisor_from(491, 5));
    assert(!has_divisor_from(491, 4));
    assert(!has_divisor_from(491, 3));
    assert(!has_divisor_from(491, 2));
    assert(count_by_division(491) == 94);
    assert(has_divisor_from(492, 2));
    assert(count_by_division(492) == 94);
    assert(has_divisor_from(493, 17));
    assert(has_divisor_from(493, 16));
    assert(has_divisor_from(493, 15));
    assert(has_divisor_from(493, 14));
    assert(has_divisor_from(493, 13));
    assert(has_divisor_from(493, 12));
    assert(has_divisor_from(493, 11));
    assert(has_divisor_from(493, 10));
    assert(has_divisor_from(493, 9));
    assert(has_divisor_from(493, 8));
    assert(has_divisor_from(493, 7));
    assert(has_divisor_from(493, 6));
    assert(has_divisor_from(493, 5));
    assert(has_divisor_from(493, 4));
    assert(has_divisor_from(493, 3));
    assert(has_divisor_from(493, 2));
    assert(count_by_division(493) == 94);
    assert(has_divisor_from(494, 2));
    assert(count_by_division(494) == 94);
    assert(has_divisor_from(495, 3));
    assert(has_divisor_from(495, 2));
    assert(count_by_division(495) == 94);
    assert(has_divisor_from(496, 2));
    assert(count_by_division(496) == 94);
    assert(has_divisor_from(497, 7));
    assert(has_divisor_from(497, 6));
    assert(has_divisor_from(497, 5));
    assert(has_divisor_from(497, 4));
    assert(has_divisor_from(497, 3));
    assert(has_divisor_from(497, 2));
    assert(count_by_division(497) == 94);
    assert(has_divisor_from(498, 2));
    assert(count_by_division(498) == 94);
    assert(!has_divisor_from(499, 23));
    assert(!has_divisor_from(499, 22));
    assert(!has_divisor_from(499, 21));
    assert(!has_divisor_from(499, 20));
    assert(!has_divisor_from(499, 19));
    assert(!has_divisor_from(499, 18));
    assert(!has_divisor_from(499, 17));
    assert(!has_divisor_from(499, 16));
    assert(!has_divisor_from(499, 15));
    assert(!has_divisor_from(499, 14));
    assert(!has_divisor_from(499, 13));
    assert(!has_divisor_from(499, 12));
    assert(!has_divisor_from(499, 11));
    assert(!has_divisor_from(499, 10));
    assert(!has_divisor_from(499, 9));
    assert(!has_divisor_from(499, 8));
    assert(!has_divisor_from(499, 7));
    assert(!has_divisor_from(499, 6));
    assert(!has_divisor_from(499, 5));
    assert(!has_divisor_from(499, 4));
    assert(!has_divisor_from(499, 3));
    assert(!has_divisor_from(499, 2));
    assert(count_by_division(499) == 95);
    assert(has_divisor_from(500, 2));
    assert(count_by_division(500) == 95);
}

/// Trial division up to 600.
proof fn lemma_count_600()
    requires count_by_division(500) == 95,
    ensures count_by_division(600) == 109,
{
    assert(has_divisor_from(501, 3));
    assert(has_divisor_from(501, 2));
    assert(count_by_division(501) == 95);
    assert(has_divisor_from(502, 2));
    assert(count_by_division(502) == 95);
    assert(!has_divisor_from(503, 23));
    assert(!has_divisor_from(503, 22));
    assert(!has_divisor_from(503, 21));
    assert(!has_divisor_from(503, 20));
    assert(!has_divisor_from(503, 19));
    assert(!has_divisor_from(503, 18));
    assert(!has_divisor_from(503, 17));
    assert(!has_divisor_from(503, 16));
    assert(!has_divisor_from(503, 15));
    assert(!has_divisor_from(503, 14));
    assert(!has_divisor_from(503, 13));
    assert(!has_divisor_from(503, 12));
    assert(!has_divisor_from(503, 11));
    assert(!has_divisor_from(503, 10));
    assert(!has_divisor_from(503, 9));
    assert(!has_divisor_from(503, 8));
    assert(!has_divisor_from(503, 7));
    assert(!has_divisor_from(503, 6));
    assert(!has_divisor_from(503, 5));
    assert(!has_divisor_from(503, 4));
    assert(!has_divisor_from(503, 3));
    assert(!has_divisor_from(503, 2));
    assert(count_by_division(503) == 96);
    assert(has_divisor_from(504, 2));
    assert(count_by_division(504) == 96);
    assert(has_divisor_from(505, 5));
    assert(has_divisor_from(505, 4));
    assert(has_divisor_from(505, 3));
    assert(has_divisor_from(505, 2));
    assert(count_by_division(505) == 96);
    assert(has_divisor_from(506, 2));
    assert(count_by_division(506) == 96);
    assert(has_divisor_from(507, 3));
    assert(has_divisor_from(507, 2));
    assert(count_by_division(507) == 96);
    assert(has_divisor_from(508, 2));
    assert(count_by_division(508) == 96);
    assert(!has_divisor_from(509, 23));
    assert(!has_divisor_from(509, 22));
    assert(!has_divisor_from(509, 21));
    assert(!has_divisor_from(509, 20));
    assert(!has_divisor_from(509, 19));
    assert(!has_divisor_from(509, 18));
    assert(!has_divisor_from(509, 17));
    assert(!has_divisor_from(509, 16));
    assert(!has_divisor_from(509, 15));
    assert(!has_divisor_from(509, 14));
    assert(!has_divisor_from(509, 13));
    assert(!has_divisor_from(509, 12));
    assert(!has_divisor_from(509, 11));
    assert(!has_divisor_from(509, 10));
    assert(!has_divisor_from(509, 9));
    assert(!has_divisor_from(509, 8));
    assert(!has_divisor_from(509, 7));
    assert(!has_divisor_from(509, 6));
    assert(!has_divisor_from(509, 5));
    assert(!has_divisor_from(509, 4));
    assert(!has_divisor_from(509, 3));
    assert(!has_divisor_from(509, 2));
    assert(count_by_division(509) == 97);
    assert(has_divisor_from(510, 2));
    assert(count_by_division(510) == 97);
    assert(has_divisor_from(511, 7));
    assert(has_divisor_from(511, 6));
    assert(has_divisor_from(511, 5));
    assert(has_divisor_from(511, 4));
    assert(has_divisor_from(511, 3));
    assert(has_divisor_from(511, 2));
    assert(count_by_division(511) == 97);
    assert(has_divisor_from(512, 2));
    assert(count_by_division(512) == 97);
    assert(has_divisor_from(513, 3));
    assert(has_divisor_from(513, 2));
    assert(count_by_division(513) == 97);
    assert(has_divisor_from(514, 2));
    assert(count_by_division(514) == 97);
    assert(has_divisor_from(515, 5));
    assert(has_divisor_from(515, 4));
    assert(has_divisor_from(515, 3));
    assert(has_divisor_from(515, 2));
    assert(count_by_division(515) == 97);
    assert(has_divisor_from(516, 2));
    assert(count_by_division(516) == 97);
    assert(has_divisor_from(517, 11));
    assert(has_divisor_from(517, 10));
    assert(has_divisor_from(517, 9));
    assert(has_divisor_from(517, 8));
    assert(has_divisor_from(517, 7));
    assert(has_divisor_from(517, 6));
    assert(has_divisor_from(517, 5));
    assert(has_divisor_from(517, 4));
    assert(has_divisor_from(517, 3));
    assert(has_divisor_from(517, 2));
    assert(count_by_division(517) == 97);
    assert(has_divisor_from(518, 2));
    assert(count_by_division(518) == 97);
    assert(has_divisor_from(519, 3));
    assert(has_divisor_from(519, 2));
    assert(count_by_division(519) == 97);
    assert(has_divisor_from(520, 2));
    assert(count_by_division(520) == 97);
    assert(!has_divisor_from(521, 23));
    assert(!has_divisor_from(521, 22));
    assert(!has_divisor_from(521, 21));
    assert(!has_divisor_from(521, 20));
    assert(!has_divisor_from(521, 19));
    assert(!has_divisor_from(521, 18));
    assert(!has_divisor_from(521, 17));
    assert(!has_divisor_from(521, 16));
    assert(!has_divisor_from(521, 15));
    assert(!has_divisor_from(521, 14));
    assert(!has_divisor_from(521, 13));
    assert(!has_divisor_from(521, 12));
    assert(!has_divisor_from(521, 11));
    assert(!has_divisor_from(521, 10));
    assert(!has_divisor_from(521, 9));
    assert(!has_divisor_from(521, 8));
    assert(!has_divisor_from(521, 7));
    assert(!has_divisor_from(521, 6));
    assert(!has_divisor_from(521, 5));
    assert(!has_divisor_from(521, 4));
    assert(!has_divisor_from(521, 3));
    assert(!has_divisor_from(521, 2));
    assert(count_by_division(521) == 98);
    assert(has_divisor_from(522, 2));
    assert(count_by_division(522) == 98);
    assert(!has_divisor_from(523, 23));
    assert(!has_divisor_from(523, 22));
    assert(!has_divisor_from(523, 21));
    assert(!has_divisor_from(523, 20));
    assert(!has_divisor_from(523, 19));
    assert(!has_divisor_from(523, 18));
    assert(!has_divisor_from(523, 17));
    assert(!has_divisor_from(523, 16));
    assert(!has_divisor_from(523, 15));
    assert(!has_divisor_from(523, 14));
    assert(!has_divisor_from(523, 13));
    assert(!has_divisor_from(523, 12));
    assert(!has_divisor_from(523, 11));
    assert(!has_divisor_from(523, 10));
    assert(!has_divisor_from(523, 9));
    assert(!has_divisor_from(523, 8));
    assert(!has_divisor_from(523, 7));
    assert(!has_divisor_from(523, 6));
    assert(!has_divisor_from(523, 5));
    assert(!has_divisor_from(523, 4));
    assert(!has_divisor_from(523, 3));
    assert(!has_divisor_from(523, 2));
    assert(count_by_division(523) == 99);
    assert(has_divisor_from(524, 2));
    assert(count_by_division(524) == 99);
    assert(has_divisor_from(525, 3));
    assert(has_divisor_from(525, 2));
    assert(count_by_division(525) == 99);
    assert(has_divisor_from(526, 2));
    assert(count_by_division(526) == 99);
    assert(has_divisor_from(527, 17));
    assert(has_divisor_from(527, 16));
    assert(has_divisor_from(527, 15));
    assert(has_divisor_from(527, 14));
    assert(has_divisor_from(527, 13));
    assert(has_divisor_from(527, 12));
    assert(has_divisor_from(527, 11));
    assert(has_divisor_from(527, 10));
    assert(has_divisor_from(527, 9));
    assert(has_divisor_from(527, 8));
    assert(has_divisor_from(527, 7));
    assert(has_divisor_from(527, 6));
    assert(has_divisor_from(527, 5));
    assert(has_divisor_from(527, 4));
    assert(has_divisor_from(527, 3));
    assert(has_divisor_from(527, 2));
    assert(count_by_division(527) == 99);
    assert(has_divisor_from(528, 2));
    assert(count_by_division(528) == 99);
    assert(has_divisor_from(529, 23));
    assert(has_divisor_from(529, 22));
    assert(has_divisor_from(529, 21));
    assert(has_divisor_from(529, 20));
    assert(has_divisor_from(529, 19));
    assert(has_divisor_from(529, 18));
    assert(has_divisor_from(529, 17));
    assert(has_divisor_from(529, 16));
    assert(has_divisor_from(529, 15));
    assert(has_divisor_from(529, 14));
    assert(has_divisor_from(529, 13));
    assert(has_divisor_from(529, 12));
    assert(has_divisor_from(529, 11));
    assert(has_divisor_from(529, 10));
    assert(has_divisor_from(529, 9));
    assert(has_divisor_from(529, 8));
    assert(has_divisor_from(529, 7));
    assert(has_divisor_from(529, 6));
    assert(has_divisor_from(529, 5));
    assert(has_divisor_from(529, 4));
    assert(has_divisor_from(529, 3));
    assert(has_divisor_from(529, 2));
    assert(count_by_division(529) == 99);
    assert(has_divisor_from(530, 2));
    assert(count_by_division(530) == 99);
    assert(has_divisor_from(531, 3));
    assert(has_divisor_from(531, 2));
    assert(count_by_division(531) == 99);
    assert(has_divisor_from(532, 2));
    assert(count_by_division(532) == 99);
    assert(has_divisor_from(533, 13));
    assert(has_divisor_from(533, 12));
    assert(has_divisor_from(533, 11));
    assert(has_divisor_from(533, 10));
    assert(has_divisor_from(533, 9));
    assert(has_divisor_from(533, 8));
    assert(has_divisor_from(533, 7));
    assert(has_divisor_from(533, 6));
    assert(has_divisor_from(533, 5));
    assert(has_divisor_from(533, 4));
    assert(has_divisor_from(533, 3));
    assert(has_divisor_from(533, 2));
    assert(count_by_division(533) == 99);
    assert(has_divisor_from(534, 2));
    assert(count_by_division(534) == 99);
    assert(has_divisor_from(535, 5));
    assert(has_divisor_from(535, 4));
    assert(has_divisor_from(535, 3));
    assert(has_divisor_from(535, 2));
    assert(count_by_division(535) == 99);
    assert(has_divisor_from(536, 2));
    assert(count_by_division(536) == 99);
    assert(has_divisor_from(537, 3));
    assert(has_divisor_from(537, 2));
    assert(count_by_division(537) == 99);
    assert(has_divisor_from(538, 2));
    assert(count_by_division(538) == 99);
    assert(has_divisor_from(539, 7));
    assert(has_divisor_from(539, 6));
    assert(has_divisor_from(539, 5));
    assert(has_divisor_from(539, 4));
    assert(has_divisor_from(539, 3));
    assert(has_divisor_from(539, 2));
    assert(count_by_division(539) == 99);
    assert(has_divisor_from(540, 2));
    assert(count_by_division(540) == 99);
    assert(!has_divisor_from(541, 24));
    assert(!has_divisor_from(541, 23));
    assert(!has_divisor_from(541, 22));
    assert(!has_divisor_from(541, 21));
    assert(!has_divisor_from(541, 20));
    assert(!has_divisor_from(541, 19));
    assert(!has_divisor_from(541, 18));
    assert(!has_divisor_from(541, 17));
    assert(!has_divisor_from(541, 16));
    assert(!has_divisor_from(541, 15));
    assert(!has_divisor_from(541, 14));
    assert(!has_divisor_from(541, 13));
    assert(!has_divisor_from(541, 12));
    assert(!has_divisor_from(541, 11));
    assert(!has_divisor_from(541, 10));
    assert(!has_divisor_from(541, 9));
    assert(!has_divisor_from(541, 8));
    assert(!has_divisor_from(541, 7));
    assert(!has_divisor_from(541, 6));
    assert(!has_divisor_from(541, 5));
    assert(!has_divisor_from(541, 4));
    assert(!has_divisor_from(541, 3));
    assert(!has_divisor_from(541, 2));
    assert(count_by_division(541) == 100);
    assert(has_divisor_from(542, 2));
    assert(count_by_division(542) == 100);
    assert(has_divisor_from(543, 3));
    assert(has_divisor_from(543, 2));
    assert(count_by_division(543) == 100);
    assert(has_divisor_from(544, 2));
    assert(count_by_division(544) == 100);
    assert(has_divisor_from(545, 5));
    assert(has_divisor_from(545, 4));
    assert(has_divisor_from(545, 3));
    assert(has_divisor_from(545, 2));
    assert(count_by_division(545) == 100);
    assert(has_divisor_from(546, 2));
    assert(count_by_division(546) == 100);
    assert(!has_divisor_from(547, 24));
    assert(!has_divisor_from(547, 23));
    assert(!has_divisor_from(547, 22));
    assert(!has_divisor_from(547, 21));
    assert(!has_divisor_from(547, 20));
    assert(!has_divisor_from(547, 19));
    assert(!has_divisor_from(547, 18));
    assert(!has_divisor_from(547, 17));
    assert(!has_divisor_from(547, 16));
    assert(!has_divisor_from(547, 15));
    assert(!has_divisor_from(547, 14));
    assert(!has_divisor_from(547, 13));
    assert(!has_divisor_from(547, 12));
    assert(!has_divisor_from(547, 11));
    assert(!has_divisor_from(547, 10));
    assert(!has_divisor_from(547, 9));
    assert(!has_divisor_from(547, 8));
    assert(!has_divisor_from(547, 7));
    assert(!has_divisor_from(547, 6));
    assert(!has_divisor_from(547, 5));
    assert(!has_divisor_from(547, 4));
    assert(!has_divisor_from(547, 3));
    assert(!has_divisor_from(547, 2));
    assert(count_by_division(547) == 101);
    assert(has_divisor_from(548, 2));
    assert(count_by_division(548) == 101);
    assert(has_divisor_from(549, 3));
    assert(has_divisor_from(549, 2));
    assert(count_by_division(549) == 101);
    assert(has_divisor_from(550, 2));
    assert(count_by_division(550) == 101);
    assert(has_divisor_from(551, 19));
    assert(has_divisor_from(551, 18));
    assert(has_divisor_from(551, 17));
    assert(has_divisor_from(551, 16));
    assert(has_divisor_from(551, 15));
    assert(has_divisor_from(551, 14));
    assert(has_divisor_from(551, 13));
    assert(has_divisor_from(551, 12));
    assert(has_divisor_from(551, 11));
    assert(has_divisor_from(551, 10));
    assert(has_divisor_from(551, 9));
    assert(has_divisor_from(551, 8));
    assert(has_divisor_from(551, 7));
    assert(has_divisor_from(551, 6));
    assert(has_divisor_from(551, 5));
    assert(has_divisor_from(551, 4));
    assert(has_divisor_from(551, 3));
    assert(has_divisor_from(551, 2));
    assert(count_by_division(551) == 101);
    assert(has_divisor_from(552, 2));
    assert(count_by_division(552) == 101);
    assert(has_divisor_from(553, 7));
    assert(has_divisor_from(553, 6));
    assert(has_divisor_from(553, 5));
    assert(has_divisor_from(553, 4));
    assert(has_divisor_from(553, 3));
    assert(has_divisor_from(553, 2));
    assert(count_by_division(553) == 101);
    assert(has_divisor_from(554, 2));
    assert(count_by_division(554) == 101);
    assert(has_divisor_from(555, 3));
    assert(has_divisor_from(555, 2));
    assert(count_by_division(555) == 101);
    assert(has_divisor_from(556, 2));
    assert(count_by_division(556) == 101);
    assert(!has_divisor_from(557, 24));
    assert(!has_divisor_from(557, 23));
    assert(!has_divisor_from(557, 22));
    assert(!has_divisor_from(557, 21));
    assert(!has_divisor_from(557, 20));
    assert(!has_divisor_from(557, 19));
    assert(!has_divisor_from(557, 18));
    assert(!has_divisor_from(557, 17));
    assert(!has_divisor_from(557, 16));
    assert(!has_divisor_from(557, 15));
    assert(!has_divisor_from(557, 14));
    assert(!has_divisor_from(557, 13));
    assert(!has_divisor_from(557, 12));
    assert(!has_divisor_from(557, 11));
    assert(!has_divisor_from(557, 10));
    assert(!has_divisor_from(557, 9));
    assert(!has_divisor_from(557, 8));
    assert(!has_divisor_from(557, 7));
    assert(!has_divisor_from(557, 6));
    assert(!has_divisor_from(557, 5));
    assert(!has_divisor_from(557, 4));
    assert(!has_divisor_from(557, 3));
    assert(!has_divisor_from(557, 2));
    assert(count_by_division(557) == 102);
    assert(has_divisor_from(558, 2));
    assert(count_by_division(558) == 102);
    assert(has_divisor_from(559, 13));
    assert(has_divisor_from(559, 12));
    assert(has_divisor_from(559, 11));
    assert(has_divisor_from(559, 10));
    assert(has_divisor_from(559, 9));
    assert(has_divisor_from(559, 8));
    assert(has_divisor_from(559, 7));
    assert(has_divisor_from(559, 6));
    assert(has_divisor_from(559, 5));
    assert(has_divisor_from(559, 4));
    assert(has_divisor_from(559, 3));
    assert(has_divisor_from(559, 2));
    assert(count_by_division(559) == 102);
    assert(has_divisor_from(560, 2));
    assert(count_by_division(560) == 102);
    assert(has_divisor_from(561, 3));
    assert(has_divisor_from(561, 2));
    assert(count_by_division(561) == 102);
    assert(has_divisor_from(562, 2));
    assert(count_by_division(562) == 102);
    assert(!has_divisor_from(563, 24));
    assert(!has_divisor_from(563, 23));
    assert(!has_divisor_from(563, 22));
    assert(!has_divisor_from(563, 21));
    assert(!has_divisor_from(563, 20));
    assert(!has_divisor_from(563, 19));
    assert(!has_divisor_from(563, 18));
    assert(!has_divisor_from(563, 17));
    assert(!has_divisor_from(563, 16));
    assert(!has_divisor_from(563, 15));
    assert(!has_divisor_from(563, 14));
    assert(!has_divisor_from(563, 13));
    assert(!has_divisor_from(563, 12));
    assert(!has_divisor_from(563, 11));
    assert(!has_divisor_from(563, 10));
    assert(!has_divisor_from(563, 9));
    assert(!has_divisor_from(563, 8));
    assert(!has_divisor_from(563, 7));
    assert(!has_divisor_from(563, 6));
    assert(!has_divisor_from(563, 5));
    assert(!has_divisor_from(563, 4));
    assert(!has_divisor_from(563, 3));
    assert(!has_divisor_from(563, 2));
    assert(count_by_division(563) == 103);
    assert(has_divisor_from(564, 2));
    assert(count_by_division(564) == 103);
    assert(has_divisor_from(565, 5));
    assert(has_divisor_from(565, 4));
    assert(has_divisor_from(565, 3));
    assert(has_divisor_from(565, 2));
    assert(count_by_division(565) == 103);
    assert(has_divisor_from(566, 2));
    assert(count_by_division(566) == 103);
    assert(has_divisor_from(567, 3));
    assert(has_divisor_from(567, 2));
    assert(count_by_division(567) == 103);
    assert(has_divisor_from(568, 2));
    assert(count_by_division(568) == 103);
    assert(!has_divisor_from(569, 24));
    assert(!has_divisor_from(569, 23));
    assert(!has_divisor_from(569, 22));
    assert(!has_divisor_from(569, 21));
    assert(!has_divisor_from(569, 20));
    assert(!has_divisor_from(569, 19));
    assert(!has_divisor_from(569, 18));
    assert(!has_divisor_from(569, 17));
    assert(!has_divisor_from(569, 16));
    assert(!has_divisor_from(569, 15));
    assert(!has_divisor_from(569, 14));
    assert(!has_divisor_from(569, 13));
    assert(!has_divisor_from(569, 12));
    assert(!has_divisor_from(569, 11));
    assert(!has_divisor_from(569, 10));
    assert(!has_divisor_from(569, 9));
    assert(!has_divisor_from(569, 8));
    assert(!has_divisor_from(569, 7));
    assert(!has_divisor_from(569, 6));
    assert(!has_divisor_from(569, 5));
    assert(!has_divisor_from(569, 4));
    assert(!has_divisor_from(569, 3));
    assert(!has_divisor_from(569, 2));
    assert(count_by_division(569) == 104);
    assert(has_divisor_from(570, 2));
    assert(count_by_division(570) == 104);
    assert(!has_divisor_from(571, 24));
    assert(!has_divisor_from(571, 23));
    assert(!has_divisor_from(571, 22));
    assert(!has_divisor_from(571, 21));
    assert(!has_divisor_from(571, 20));
    assert(!has_divisor_from(571, 19));
    assert(!has_divisor_from(571, 18));
    assert(!has_divisor_from(571, 17));
    assert(!has_divisor_from(571, 16));
    assert(!has_divisor_from(571, 15));
    assert(!has_divisor_from(571, 14));
    assert(!has_divisor_from(571, 13));
    assert(!has_divisor_from(571, 12));
    assert(!has_divisor_from(571, 11));
    assert(!has_divisor_from(571, 10));
    assert(!has_divisor_from(571, 9));
    assert(!has_divisor_from(571, 8));
    assert(!has_divisor_from(571, 7));
    assert(!has_divisor_from(571, 6));
    assert(!has_divisor_from(571, 5));
    assert(!has_divisor_from(571, 4));
    assert(!has_divisor_from(571, 3));
    assert(!has_divisor_from(571, 2));
    assert(count_by_division(571) == 105);
    assert(has_divisor_from(572, 2));
    assert(count_by_division(572) == 105);
    assert(has_divisor_from(573, 3));
    assert(has_divisor_from(573, 2));
    assert(count_by_division(573) == 105);
    assert(has_divisor_from(574, 2));
    assert(count_by_division(574) == 105);
    assert(has_divisor_from(575, 5));
    assert(has_divisor_from(575, 4));
    assert(has_divisor_from(575, 3));
    assert(has_divisor_from(575, 2));
    assert(count_by_division(575) == 105);
    assert(has_divisor_from(576, 2));
    assert(count_by_division(576) == 105);
    assert(!has_divisor_from(577, 25));
    assert(!has_divisor_from(577, 24));
    assert(!has_divisor_from(577, 23));
    assert(!has_divisor_from(577, 22));
    assert(!has_divisor_from(577, 21));
    assert(!has_divisor_from(577, 20));
    assert(!has_divisor_from(577, 19));
    assert(!has_divisor_from(577, 18));
    assert(!has_divisor_from(577, 17));
    assert(!has_divisor_from(577, 16));
    assert(!has_divisor_from(577, 15));
    assert(!has_divisor_from(577, 14));
    assert(!has_divisor_from(577, 13));
    assert(!has_divisor_from(577, 12));
    assert(!has_divisor_from(577, 11));
    assert(!has_divisor_from(577, 10));
    assert(!has_divisor_from(577, 9));
    assert(!has_divisor_from(577, 8));
    assert(!has_divisor_from(577, 7));
    assert(!has_divisor_from(577, 6));
    assert(!has_divisor_from(577, 5));
    assert(!has_divisor_from(577, 4));
    assert(!has_divisor_from(577, 3));
    assert(!has_divisor_from(577, 2));
    assert(count_by_division(577) == 106);
    assert(has_divisor_from(578, 2));
    assert(count_by_division(578) == 106);
    assert(has_divisor_from(579, 3));
    assert(has_divisor_from(579, 2));
    assert(count_by_division(579) == 106);
    assert(has_divisor_from(580, 2));
    assert(count_by_division(580) == 106);
    assert(has_divisor_from(581, 7));
    assert(has_divisor_from(581, 6));
    assert(has_divisor_from(581, 5));
    assert(has_divisor_from(581, 4));
    assert(has_divisor_from(581, 3));
    assert(has_divisor_from(581, 2));
    assert(count_by_division(581) == 106);
    assert(has_divisor_from(582, 2));
    assert(count_by_division(582) == 106);
    assert(has_divisor_from(583, 11));
    assert(has_divisor_from(583, 10));
    assert(has_divisor_from(583, 9));
    assert(has_divisor_from(583, 8));
    assert(has_divisor_from(583, 7));
    assert(has_divisor_from(583, 6));
    assert(has_divisor_from(583, 5));
    assert(has_divisor_from(583, 4));
    assert(has_divisor_from(583, 3));
    assert(has_divisor_from(583, 2));
    assert(count_by_division(583) == 106);
    assert(has_divisor_from(584, 2));
    assert(count_by_division(584) == 106);
    assert(has_divisor_from(585, 3));
    assert(has_divisor_from(585, 2));
    assert(count_by_division(585) == 106);
    assert(has_divisor_from(586, 2));
    assert(count_by_division(586) == 106);
    assert(!has_divisor_from(587, 25));
    assert(!has_divisor_from(587, 24));
    assert(!has_divisor_from(587, 23));
    assert(!has_divisor_from(587, 22));
    assert(!has_divisor_from(587, 21));
    assert(!has_divisor_from(587, 20));
    assert(!has_divisor_from(587, 19));
    assert(!has_divisor_from(587, 18));
    assert(!has_divisor_from(587, 17));
    assert(!has_divisor_from(587, 16));
    assert(!has_divisor_from(587, 15));
    assert(!has_divisor_from(587, 14));
    assert(!has_divisor_from(587, 13));
    assert(!has_divisor_from(587, 12));
    assert(!has_divisor_from(587, 11));
    assert(!has_divisor_from(587, 10));
    assert(!has_divisor_from(587, 9));
    assert(!has_divisor_from(587, 8));
    assert(!has_divisor_from(587, 7));
    assert(!has_divisor_from(587, 6));
    assert(!has_divisor_from(587, 5));
    assert(!has_divisor_from(587, 4));
    assert(!has_divisor_from(587, 3));
    assert(!has_divisor_from(587, 2));
    assert(count_by_division(587) == 107);
    assert(has_divisor_from(588, 2));
    assert(count_by_division(588) == 107);
    assert(has_divisor_from(589, 19));
    assert(has_divisor_from(589, 18));
    assert(has_divisor_from(589, 17));
    assert(has_divisor_from(589, 16));
    assert(has_divisor_from(589, 15));
    assert(has_divisor_from(589, 14));
    assert(has_divisor_from(589, 13));
    assert(has_divisor_from(589, 12));
    assert(has_divisor_from(589, 11));
    assert(has_divisor_from(589, 10));
    assert(has_divisor_from(589, 9));
    assert(has_divisor_from(589, 8));
    assert(has_divisor_from(589, 7));
    assert(has_divisor_from(589, 6));
    assert(has_divisor_from(589, 5));
    assert(has_divisor_from(589, 4));
    assert(has_divisor_from(589, 3));
    assert(has_divisor_from(589, 2));
    assert(count_by_division(589) == 107);
    assert(has_divisor_from(590, 2));
    assert(count_by_division(590) == 107);
    assert(has_divisor_from(591, 3));
    assert(has_divisor_from(591, 2));
    assert(count_by_division(591) == 107);
    assert(has_divisor_from(592, 2));
    assert(count_by_division(592) == 107);
    assert(!has_divisor_from(593, 25));
    assert(!has_divisor_from(593, 24));
    assert(!has_divisor_from(593, 23));
    assert(!has_divisor_from(593, 22));
    assert(!has_divisor_from(593, 21));
    assert(!has_divisor_from(593, 20));
    assert(!has_divisor_from(593, 19));
    assert(!has_divisor_from(593, 18));
    assert(!has_divisor_from(593, 17));
    assert(!has_divisor_from(593, 16));
    assert(!has_divisor_from(593, 15));
    assert(!has_divisor_from(593, 14));
    assert(!has_divisor_from(593, 13));
    assert(!has_divisor_from(593, 12));
    assert(!has_divisor_from(593, 11));
    assert(!has_divisor_from(593, 10));
    assert(!has_divisor_from(593, 9));
    assert(!has_divisor_from(593, 8));
    assert(!has_divisor_from(593, 7));
    assert(!has_divisor_from(593, 6));
    assert(!has_divisor_from(593, 5));
    assert(!has_divisor_from(593, 4));
    assert(!has_divisor_from(593, 3));
    assert(!has_divisor_from(593, 2));
    assert(count_by_division(593) == 108);
    assert(has_divisor_from(594, 2));
    assert(count_by_division(594) == 108);
    assert(has_divisor_from(595, 5));
    assert(has_divisor_from(595, 4));
    assert(has_divisor_from(595, 3));
    assert(has_divisor_from(595, 2));
    assert(count_by_division(595) == 108);
    assert(has_divisor_from(596, 2));
    assert(count_by_division(596) == 108);
    assert(has_divisor_from(597, 3));
    assert(has_divisor_from(597, 2));
    assert(count_by_division(597) == 108);
    assert(has_divisor_from(598, 2));
    assert(count_by_division(598) == 108);
    assert(!has_divisor_from(599, 25));
    assert(!has_divisor_from(599, 24));
    assert(!has_divisor_from(599, 23));
    assert(!has_divisor_from(599, 22));
    assert(!has_divisor_from(599, 21));
    assert(!has_divisor_from(599, 20));
    assert(!has_divisor_from(599, 19));
    assert(!has_divisor_from(599, 18));
    assert(!has_divisor_from(599, 17));
    assert(!has_divisor_from(599, 16));
    assert(!has_divisor_from(599, 15));
    assert(!has_divisor_from(599, 14));
    assert(!has_divisor_from(599, 13));
    assert(!has_divisor_from(599, 12));
    assert(!has_divisor_from(599, 11));
    assert(!has_divisor_from(599, 10));
    assert(!has_divisor_from(599, 9));
    assert(!has_divisor_from(599, 8));
    assert(!has_divisor_from(599, 7));
    assert(!has_divisor_from(599, 6));
    assert(!has_divisor_from(599, 5));
    assert(!has_divisor_from(599, 4));
    assert(!has_divisor_from(599, 3));
    assert(!has_divisor_from(599, 2));
    assert(count_by_division(599) == 109);
    assert(has_divisor_from(600, 2));
    assert(count_by_division(600) == 109);
}

/// Trial division up to 700.
proof fn lemma_count_700()
    requires count_by_division(600) == 109,
    ensures count_by_division(700) == 125,
{
    assert(!has_divisor_from(601, 25));
    assert(!has_divisor_from(601, 24));
    assert(!has_divisor_from(601, 23));
    assert(!has_divisor_from(601, 22));
    assert(!has_divisor_from(601, 21));
    assert(!has_divisor_from(601, 20));
    assert(!has_divisor_from(601, 19));
    assert(!has_divisor_from(601, 18));
    assert(!has_divisor_from(601, 17));
    assert(!has_divisor_from(601, 16));
    assert(!has_divisor_from(601, 15));
    assert(!has_divisor_from(601, 14));
    assert(!has_divisor_from(601, 13));
    assert(!has_divisor_from(601, 12));
    assert(!has_divisor_from(601, 11));
    assert(!has_divisor_from(601, 10));
    assert(!has_divisor_from(601, 9));
    assert(!has_divisor_from(601, 8));
    assert(!has_divisor_from(601, 7));
    assert(!has_divisor_from(601, 6));
    assert(!has_divisor_from(601, 5));
    assert(!has_divisor_from(601, 4));
    assert(!has_divisor_from(601, 3));
    assert(!has_divisor_from(601, 2));
    assert(count_by_division(601) == 110);
    assert(has_divisor_from(602, 2));
    assert(count_by_division(602) == 110);
    assert(has_divisor_from(603, 3));
    assert(has_divisor_from(603, 2));
    assert(count_by_division(603) == 110);
    assert(has_divisor_from(604, 2));
    assert(count_by_division(604) == 110);
    assert(has_divisor_from(605, 5));
    assert(has_divisor_from(605, 4));
    assert(has_divisor_from(605, 3));
    assert(has_divisor_from(605, 2));
    assert(count_by_division(605) == 110);
    assert(has_divisor_from(606, 2));
    assert(count_by_division(606) == 110);
    assert(!has_divisor_from(607, 25));
    assert(!has_divisor_from(607, 24));
    assert(!has_divisor_from(607, 23));
    assert(!has_divisor_from(607, 22));
    assert(!has_divisor_from(607, 21));
    assert(!has_divisor_from(607, 20));
    assert(!has_divisor_from(607, 19));
    assert(!has_divisor_from(607, 18));
    assert(!has_divisor_from(607, 17));
    assert(!has_divisor_from(607, 16));
    assert(!has_divisor_from(607, 15));
    assert(!has_divisor_from(607, 14));
    assert(!has_divisor_from(607, 13));
    assert(!has_divisor_from(607, 12));
    assert(!has_divisor_from(607, 11));
    assert(!has_divisor_from(607, 10));
    assert(!has_divisor_from(607, 9));
    assert(!has_divisor_from(607, 8));
    assert(!has_divisor_from(607, 7));
    assert(!has_divisor_from(607, 6));
    assert(!has_divisor_from(607, 5));
    assert(!has_divisor_from(607, 4));
    assert(!has_divisor_from(607, 3));
    assert(!has_divisor_from(607, 2));
    assert(count_by_division(607) == 111);
    assert(has_divisor_from(608, 2));
    assert(count_by_division(608) == 111);
    assert(has_divisor_from(609, 3));
    assert(has_divisor_from(609, 2));
    assert(count_by_division(609) == 111);
    assert(has_divisor_from(610, 2));
    assert(count_by_division(610) == 111);
    assert(has_divisor_from(611, 13));
    assert(has_divisor_from(611, 12));
    assert(has_divisor_from(611, 11));
    assert(has_divisor_from(611, 10));
    assert(has_divisor_from(611, 9));
    assert(has_divisor_from(611, 8));
    assert(has_divisor_from(611, 7));
    assert(has_divisor_from(611, 6));
    assert(has_divisor_from(611, 5));
    assert(has_divisor_from(611, 4));
    assert(has_divisor_from(611, 3));
    assert(has_divisor_from(611, 2));
    assert(count_by_division(611) == 111);
    assert(has_divisor_from(612, 2));
    assert(count_by_division(612) == 111);
    assert(!has_divisor_from(613, 25));
    assert(!has_divisor_from(613, 24));
    assert(!has_divisor_from(613, 23));
    assert(!has_divisor_from(613, 22));
    assert(!has_divisor_from(613, 21));
    assert(!has_divisor_from(613, 20));
    assert(!has_divisor_from(613, 19));
    assert(!has_divisor_from(613, 18));
    assert(!has_divisor_from(613, 17));
    assert(!has_divisor_from(613, 16));
    assert(!has_divisor_from(613, 15));
    assert(!has_divisor_from(613, 14));
    assert(!has_divisor_from(613, 13));
    assert(!has_divisor_from(613, 12));
    assert(!has_divisor_from(613, 11));
    assert(!has_divisor_from(613, 10));
    assert(!has_divisor_from(613, 9));
    assert(!has_divisor_from(613, 8));
    assert(!has_divisor_from(613, 7));
    assert(!has_divisor_from(613, 6));
    assert(!has_divisor_from(613, 5));
    assert(!has_divisor_from(613, 4));
    assert(!has_divisor_from(613, 3));
    assert(!has_divisor_from(613, 2));
    assert(count_by_division(613) == 112);
    assert(has_divisor_from(614, 2));
    assert(count_by_division(614) == 112);
    assert(has_divisor_from(615, 3));
    assert(has_divisor_from(615, 2));
    assert(count_by_division(615) == 112);
    assert(has_divisor_from(616, 2));
    assert(count_by_division(616) == 112);
    assert(!has_divisor_from(617, 25));
    assert(!has_divisor_from(617, 24));
    assert(!has_divisor_from(617, 23));
    assert(!has_divisor_from(617, 22));
    assert(!has_divisor_from(617, 21));
    assert(!has_divisor_from(617, 20));
    assert(!has_divisor_from(617, 19));
    assert(!has_divisor_from(617, 18));
    assert(!has_divisor_from(617, 17));
    assert(!has_divisor_from(617, 16));
    assert(!has_divisor_from(617, 15));
    assert(!has_divisor_from(617, 14));
    assert(!has_divisor_from(617, 13));
    assert(!has_divisor_from(617, 12));
    assert(!has_divisor_from(617, 11));
    assert(!has_divisor_from(617, 10));
    assert(!has_divisor_from(617, 9));
    assert(!has_divisor_from(617, 8));
    assert(!has_divisor_from(617, 7));
    assert(!has_divisor_from(617, 6));
    assert(!has_divisor_from(617, 5));
    assert(!has_divisor_from(617, 4));
    assert(!has_divisor_from(617, 3));
    assert(!has_divisor_from(617, 2));
    assert(count_by_division(617) == 113);
    assert(has_divisor_from(618, 2));
    assert(count_by_division(618) == 113);
    assert(!has_divisor_from(619, 25));
    assert(!has_divisor_from(619, 24));
    assert(!has_divisor_from(619, 23));
    assert(!has_divisor_from(619, 22));
    assert(!has_divisor_from(619, 21));
    assert(!has_divisor_from(619, 20));
    assert(!has_divisor_from(619, 19));
    assert(!has_divisor_from(619, 18));
    assert(!has_divisor_from(619, 17));
    assert(!has_divisor_from(619, 16));
    assert(!has_divisor_from(619, 15));
    assert(!has_divisor_from(619, 14));
    assert(!has_divisor_from(619, 13));
    assert(!has_divisor_from(619, 12));
    assert(!has_divisor_from(619, 11));
    assert(!has_divisor_from(619, 10));
    assert(!has_divisor_from(619, 9));
    assert(!has_divisor_from(619, 8));
    assert(!has_divisor_from(619, 7));
    assert(!has_divisor_from(619, 6));
    assert(!has_divisor_from(619, 5));
    assert(!has_divisor_from(619, 4));
    assert(!has_divisor_from(619, 3));
    assert(!has_divisor_from(619, 2));
    assert(count_by_division(619) == 114);
    assert(has_divisor_from(620, 2));
    assert(count_by_division(620) == 114);
    assert(has_divisor_from(621, 3));
    assert(has_divisor_from(621, 2));
    assert(count_by_division(621) == 114);
    assert(has_divisor_from(622, 2));
    assert(count_by_division(622) == 114);
    assert(has_divisor_from(623, 7));
    assert(has_divisor_from(623, 6));
    assert(has_divisor_from(623, 5));
    assert(has_divisor_from(623, 4));
    assert(has_divisor_from(623, 3));
    assert(has_divisor_from(623, 2));
    assert(count_by_division(623) == 114);
    assert(has_divisor_from(624, 2));
    assert(count_by_division(624) == 114);
    assert(has_divisor_from(625, 5));
    assert(has_divisor_from(625, 4));
    assert(has_divisor_from(625, 3));
    assert(has_divisor_from(625, 2));
    assert(count_by_division(625) == 114);
    assert(has_divisor_from(626, 2));
    assert(count_by_division(626) == 114);
    assert(has_divisor_from(627, 3));
    assert(has_divisor_from(627, 2));
    assert(count_by_division(627) == 114);
    assert(has_divisor_from(628, 2));
    assert(count_by_division(628) == 114);
    assert(has_divisor_from(629, 17));
    assert(has_divisor_from(629, 16));
    assert(has_divisor_from(629, 15));
    assert(has_divisor_from(629, 14));
    assert(has_divisor_from(629, 13));
    assert(has_divisor_from(629, 12));
    assert(has_divisor_from(629, 11));
    assert(has_divisor_from(629, 10));
    assert(has_divisor_from(629, 9));
    assert(has_divisor_from(629, 8));
    assert(has_divisor_from(629, 7));
    assert(has_divisor_from(629, 6));
    assert(has_divisor_from(629, 5));
    assert(has_divisor_from(629, 4));
    assert(has_divisor_from(629, 3));
    assert(has_divisor_from(629, 2));
    assert(count_by_division(629) == 114);
    assert(has_divisor_from(630, 2));
    assert(count_by_division(630) == 114);
    assert(!has_divisor_from(631, 26));
    assert(!has_divisor_from(631, 25));
    assert(!has_divisor_from(631, 24));
    assert(!has_divisor_from(631, 23));
    assert(!has_divisor_from(631, 22));
    assert(!has_divisor_from(631, 21));
    assert(!has_divisor_from(631, 20));
    assert(!has_divisor_from(631, 19));
    assert(!has_divisor_from(631, 18));
    assert(!has_divisor_from(631, 17));
    assert(!has_divisor_from(631, 16));
    assert(!has_divisor_from(631, 15));
    assert(!has_divisor_from(631, 14));
    assert(!has_divisor_from(631, 13));
    assert(!has_divisor_from(631, 12));
    assert(!has_divisor_from(631, 11));
    assert(!has_divisor_from(631, 10));
    assert(!has_divisor_from(631, 9));
    assert(!has_divisor_from(631, 8));
    assert(!has_divisor_from(631, 7));
    assert(!has_divisor_from(631, 6));
    assert(!has_divisor_from(631, 5));
    assert(!has_divisor_from(631, 4));
    assert(!has_divisor_from(631, 3));
    assert(!has_divisor_from(631, 2));
    assert(count_by_division(631) == 115);
    assert(has_divisor_from(632, 2));
    assert(count_by_division(632) == 115);
    assert(has_divisor_from(633, 3));
    assert(has_divisor_from(633, 2));
    assert(count_by_division(633) == 115);
    assert(has_divisor_from(634, 2));
    assert(count_by_division(634) == 115);
    assert(has_divisor_from(635, 5));
    assert(has_divisor_from(635, 4));
    assert(has_divisor_from(635, 3));
    assert(has_divisor_from(635, 2));
    assert(count_by_division(635) == 115);
    assert(has_divisor_from(636, 2));
    assert(count_by_division(636) == 115);
    assert(has_divisor_from(637, 7));
    assert(has_divisor_from(637, 6));
    assert(has_divisor_from(637, 5));
    assert(has_divisor_from(637, 4));
    assert(has_divisor_from(637, 3));
    assert(has_divisor_from(637, 2));
    assert(count_by_division(637) == 115);
    assert(has_divisor_from(638, 2));
    assert(count_by_division(638) == 115);
    assert(has_divisor_from(639, 3));
    assert(has_divisor_from(639, 2));
    assert(count_by_division(639) == 115);
    assert(has_divisor_from(640, 2));
    assert(count_by_division(640) == 115);
    assert(!has_divisor_from(641, 26));
    assert(!has_divisor_from(641, 25));
    assert(!has_divisor_from(641, 24));
    assert(!has_divisor_from(641, 23));
    assert(!has_divisor_from(641, 22));
    assert(!has_divisor_from(641, 21));
    assert(!has_divisor_from(641, 20));
    assert(!has_divisor_from(641, 19));
    assert(!has_divisor_from(641, 18));
    assert(!has_divisor_from(641, 17));
    assert(!has_divisor_from(641, 16));
    assert(!has_divisor_from(641, 15));
    assert(!has_divisor_from(641, 14));
    assert(!has_divisor_from(641, 13));
    assert(!has_divisor_from(641, 12));
    assert(!has_divisor_from(641, 11));
    assert(!has_divisor_from(641, 10));
    assert(!has_divisor_from(641, 9));
    assert(!has_divisor_from(641, 8));
    assert(!has_divisor_from(641, 7));
    assert(!has_divisor_from(641, 6));
    assert(!has_divisor_from(641, 5));
    assert(!has_divisor_from(641, 4));
    assert(!has_divisor_from(641, 3));
    assert(!has_divisor_from(641, 2));
    assert(count_by_division(641) == 116);
    assert(has_divisor_from(642, 2));
    assert(count_by_division(642) == 116);
    assert(!has_divisor_from(643, 26));
    assert(!has_divisor_from(643, 25));
    assert(!has_divisor_from(643, 24));
    assert(!has_divisor_from(643, 23));
    assert(!has_divisor_from(643, 22));
    assert(!has_divisor_from(643, 21));
    assert(!has_divisor_from(643, 20));
    assert(!has_divisor_from(643, 19));
    assert(!has_divisor_from(643, 18));
    assert(!has_divisor_from(643, 17));
    assert(!has_divisor_from(643, 16));
    assert(!has_divisor_from(643, 15));
    assert(!has_divisor_from(643, 14));
    assert(!has_divisor_from(643, 13));
    assert(!has_divisor_from(643, 12));
    assert(!has_divisor_from(643, 11));
    assert(!has_divisor_from(643, 10));
    assert(!has_divisor_from(643, 9));
    assert(!has_divisor_from(643, 8));
    assert(!has_divisor_from(643, 7));
    assert(!has_divisor_from(643, 6));
    assert(!has_divisor_from(643, 5));
    assert(!has_divisor_from(643, 4));
    assert(!has_divisor_from(643, 3));
    assert(!has_divisor_from(643, 2));
    assert(count_by_division(643) == 117);
    assert(has_divisor_from(644, 2));
    assert(count_by_division(644) == 117);
    assert(has_divisor_from(645, 3));
    assert(has_divisor_from(645, 2));
    assert(count_by_division(645) == 117);
    assert(has_divisor_from(646, 2));
    assert(count_by_division(646) == 117);
    assert(!has_divisor_from(647, 26));
    assert(!has_divisor_from(647, 25));
    assert(!has_divisor_from(647, 24));
    assert(!has_divisor_from(647, 23));
    assert(!has_divisor_from(647, 22));
    assert(!has_divisor_from(647, 21));
    assert(!has_divisor_from(647, 20));
    assert(!has_divisor_from(647, 19));
    assert(!has_divisor_from(647, 18));
    assert(!has_divisor_from(647, 17));
    assert(!has_divisor_from(647, 16));
    assert(!has_divisor_from(647, 15));
    assert(!has_divisor_from(647, 14));
    assert(!has_divisor_from(647, 13));
    assert(!has_divisor_from(647, 12));
    assert(!has_divisor_from(647, 11));
    assert(!has_divisor_from(647, 10));
    assert(!has_divisor_from(647, 9));
    assert(!has_divisor_from(647, 8));
    assert(!has_divisor_from(647, 7));
    assert(!has_divisor_from(647, 6));
    assert(!has_divisor_from(647, 5));
    assert(!has_divisor_from(647, 4));
    assert(!has_divisor_from(647, 3));
    assert(!has_divisor_from(647, 2));
    assert(count_by_division(647) == 118);
    assert(has_divisor_from(648, 2));
    assert(count_by_division(648) == 118);
    assert(has_divisor_from(649, 11));
    assert(has_divisor_from(649, 10));
    assert(has_divisor_from(649, 9));
    assert(has_divisor_from(649, 8));
    assert(has_divisor_from(649, 7));
    assert(has_divisor_from(649, 6));
    assert(has_divisor_from(649, 5));
    assert(has_divisor_from(649, 4));
    assert(has_divisor_from(649, 3));
    assert(has_divisor_from(649, 2));
    assert(count_by_division(649) == 118);
    assert(has_divisor_from(650, 2));
    assert(count_by_division(650) == 118);
    assert(has_divisor_from(651, 3));
    assert(has_divisor_from(651, 2));
    assert(count_by_division(651) == 118);
    assert(has_divisor_from(652, 2));
    assert(count_by_division(652) == 118);
    assert(!has_divisor_from(653, 26));
    assert(!has_divisor_from(653, 25));
    assert(!has_divisor_from(653, 24));
    assert(!has_divisor_from(653, 23));
    assert(!has_divisor_from(653, 22));
    assert(!has_divisor_from(653, 21));
    assert(!has_divisor_from(653, 20));
    assert(!has_divisor_from(653, 19));
    assert(!has_divisor_from(653, 18));
    assert(!has_divisor_from(653, 17));
    assert(!has_divisor_from(653, 16));
    assert(!has_divisor_from(653, 15));
    assert(!has_divisor_from(653, 14));
    assert(!has_divisor_from(653, 13));
    assert(!has_divisor_from(653, 12));
    assert(!has_divisor_from(653, 11));
    assert(!has_divisor_from(653, 10));
    assert(!has_divisor_from(653, 9));
    assert(!has_divisor_from(653, 8));
    assert(!has_divisor_from(653, 7));
    assert(!has_divisor_from(653, 6));
    assert(!has_divisor_from(653, 5));
    assert(!has_divisor_from(653, 4));
    assert(!has_divisor_from(653, 3));
    assert(!has_divisor_from(653, 2));
    assert(count_by_division(653) == 119);
    assert(has_divisor_from(654, 2));
    assert(count_by_division(654) == 119);
    assert(has_divisor_from(655, 5));
    assert(has_divisor_from(655, 4));
    assert(has_divisor_from(655, 3));
    assert(has_divisor_from(655, 2));
    assert(count_by_division(655) == 119);
    assert(has_divisor_from(656, 2));
    assert(count_by_division(656) == 119);
    assert(has_divisor_from(657, 3));
    assert(has_divisor_from(657, 2));
    assert(count_by_division(657) == 119);
    assert(has_divisor_from(658, 2));
    assert(count_by_division(658) == 119);
    assert(!has_divisor_from(659, 26));
    assert(!has_divisor_from(659, 25));
    assert(!has_divisor_from(659, 24));
    assert(!has_divisor_from(659, 23));
    assert(!has_divisor_from(659, 22));
    assert(!has_divisor_from(659, 21));
    assert(!has_divisor_from(659, 20));
    assert(!has_divisor_from(659, 19));
    assert(!has_divisor_from(659, 18));
    assert(!has_divisor_from(659, 17));
    assert(!has_divisor_from(659, 16));
    assert(!has_divisor_from(659, 15));
    assert(!has_divisor_from(659, 14));
    assert(!has_divisor_from(659, 13));
    assert(!has_divisor_from(659, 12));
    assert(!has_divisor_from(659, 11));
    assert(!has_divisor_from(659, 10));
    assert(!has_divisor_from(659, 9));
    assert(!has_divisor_from(659, 8));
    assert(!has_divisor_from(659, 7));
    assert(!has_divisor_from(659, 6));
    assert(!has_divisor_from(659, 5));
    assert(!has_divisor_from(659, 4));
    assert(!has_divisor_from(659, 3));
    assert(!has_divisor_from(659, 2));
    assert(count_by_division(659) == 120);
    assert(has_divisor_from(660, 2));
    assert(count_by_division(660) == 120);
    assert(!has_divisor_from(661, 26));
    assert(!has_divisor_from(661, 25));
    assert(!has_divisor_from(661, 24));
    assert(!has_divisor_from(661, 23));
    assert(!has_divisor_from(661, 22));
    assert(!has_divisor_from(661, 21));
    assert(!has_divisor_from(661, 20));
    assert(!has_divisor_from(661, 19));
    assert(!has_divisor_from(661, 18));
    assert(!has_divisor_from(661, 17));
    assert(!has_divisor_from(661, 16));
    assert(!has_divisor_from(661, 15));
    assert(!has_divisor_from(661, 14));
    assert(!has_divisor_from(661, 13));
    assert(!has_divisor_from(661, 12));
    assert(!has_divisor_from(661, 11));
    assert(!has_divisor_from(661, 10));
    assert(!has_divisor_from(661, 9));
    assert(!has_divisor_from(661, 8));
    assert(!has_divisor_from(661, 7));
    assert(!has_divisor_from(661, 6));
    assert(!has_divisor_from(661, 5));
    assert(!has_divisor_from(661, 4));
    assert(!has_divisor_from(661, 3));
    assert(!has_divisor_from(661, 2));
    assert(count_by_division(661) == 121);
    assert(has_divisor_from(662, 2));
    assert(count_by_division(662) == 121);
    assert(has_divisor_from(663, 3));
    assert(has_divisor_from(663, 2));
    assert(count_by_division(663) == 121);
    assert(has_divisor_from(664, 2));
    assert(count_by_division(664) == 121);
    assert(has_divisor_from(665, 5));
    assert(has_divisor_from(665, 4));
    assert(has_divisor_from(665, 3));
    assert(has_divisor_from(665, 2));
    assert(count_by_division(665) == 121);
    assert(has_divisor_from(666, 2));
    assert(count_by_division(666) == 121);
    assert(has_divisor_from(667, 23));
    assert(has_divisor_from(667, 22));
    assert(has_divisor_from(667, 21));
    assert(has_divisor_from(667, 20));
    assert(has_divisor_from(667, 19));
    assert(has_divisor_from(667, 18));
    assert(has_divisor_from(667, 17));
    assert(has_divisor_from(667, 16));
    assert(has_divisor_from(667, 15));
    assert(has_divisor_from(667, 14));
    assert(has_divisor_from(667, 13));
    assert(has_divisor_from(667, 12));
    assert(has_divisor_from(667, 11));
    assert(has_divisor_from(667, 10));
    assert(has_divisor_from(667, 9));
    assert(has_divisor_from(667, 8));
    assert(has_divisor_from(667, 7));
    assert(has_divisor_from(667, 6));
    assert(has_divisor_from(667, 5));
    assert(has_divisor_from(667, 4));
    assert(has_divisor_from(667, 3));
    assert(has_divisor_from(667, 2));
    assert(count_by_division(667) == 121);
    assert(has_divisor_from(668, 2));
    assert(count_by_division(668) == 121);
    assert(has_divisor_from(669, 3));
    assert(has_divisor_from(669, 2));
    assert(count_by_division(669) == 121);
    assert(has_divisor_from(670, 2));
    assert(count_by_division(670) == 121);
    assert(has_divisor_from(671, 11));
    assert(has_divisor_from(671, 10));
    assert(has_divisor_from(671, 9));
    assert(has_divisor_from(671, 8));
    assert(has_divisor_from(671, 7));
    assert(has_divisor_from(671, 6));
    assert(has_divisor_from(671, 5));
    assert(has_divisor_from(671, 4));
    assert(has_divisor_from(671, 3));
    assert(has_divisor_from(671, 2));
    assert(count_by_division(671) == 121);
    assert(has_divisor_from(672, 2));
    assert(count_by_division(672) == 121);
    assert(!has_divisor_from(673, 26));
    assert(!has_divisor_from(673, 25));
    assert(!has_divisor_from(673, 24));
    assert(!has_divisor_from(673, 23));
    assert(!has_divisor_from(673, 22));
    assert(!has_divisor_from(673, 21));
    assert(!has_divisor_from(673, 20));
    assert(!has_divisor_from(673, 19));
    assert(!has_divisor_from(673, 18));
    assert(!has_divisor_from(673, 17));
    assert(!has_divisor_from(673, 16));
    assert(!has_divisor_from(673, 15));
    assert(!has_divisor_from(673, 14));
    assert(!has_divisor_from(673, 13));
    assert(!has_divisor_from(673, 12));
    assert(!has_divisor_from(673, 11));
    assert(!has_divisor_from(673, 10));
    assert(!has_divisor_from(673, 9));
    assert(!has_divisor_from(673, 8));
    assert(!has_divisor_from(673, 7));
    assert(!has_divisor_from(673, 6));
    assert(!has_divisor_from(673, 5));
    assert(!has_divisor_from(673, 4));
    assert(!has_divisor_from(673, 3));
    assert(!has_divisor_from(673, 2));
    assert(count_by_division(673) == 122);
    assert(has_divisor_from(674, 2));
    assert(count_by_division(674) == 122);
    assert(has_divisor_from(675, 3));
    assert(has_divisor_from(675, 2));
    assert(count_by_division(675) == 122);
    assert(has_divisor_from(676, 2));
    assert(count_by_division(676) == 122);
    assert(!has_divisor_from(677, 27));
    assert(!has_divisor_from(677, 26));
    assert(!has_divisor_from(677, 25));
    assert(!has_divisor_from(677, 24));
    assert(!has_divisor_from(677, 23));
    assert(!has_divisor_from(677, 22));
    assert(!has_divisor_from(677, 21));
    assert(!has_divisor_from(677, 20));
    assert(!has_divisor_from(677, 19));
    assert(!has_divisor_from(677, 18));
    assert(!has_divisor_from(677, 17));
    assert(!has_divisor_from(677, 16));
    assert(!has_divisor_from(677, 15));
    assert(!has_divisor_from(677, 14));
    assert(!has_divisor_from(677, 13));
    assert(!has_divisor_from(677, 12));
    assert(!has_divisor_from(677, 11));
    assert(!has_divisor_from(677, 10));
    assert(!has_divisor_from(677, 9));
    assert(!has_divisor_from(677, 8));
    assert(!has_divisor_from(677, 7));
    assert(!has_divisor_from(677, 6));
    assert(!has_divisor_from(677, 5));
    assert(!has_divisor_from(677, 4));
    assert(!has_divisor_from(677, 3));
    assert(!has_divisor_from(677, 2));
    assert(count_by_division(677) == 123);
    assert(has_divisor_from(678, 2));
    assert(count_by_division(678) == 123);
    assert(has_divisor_from(679, 7));
    assert(has_divisor_from(679, 6));
    assert(has_divisor_from(679, 5));
    assert(has_divisor_from(679, 4));
    assert(has_divisor_from(679, 3));
    assert(has_divisor_from(679, 2));
    assert(count_by_division(679) == 123);
    assert(has_divisor_from(680, 2));
    assert(count_by_division(680) == 123);
    assert(has_divisor_from(681, 3));
    assert(has_divisor_from(681, 2));
    assert(count_by_division(681) == 123);
    assert(has_divisor_from(682, 2));
    assert(count_by_division(682) == 123);
    assert(!has_divisor_from(683, 27));
    assert(!has_divisor_from(683, 26));
    assert(!has_divisor_from(683, 25));
    assert(!has_divisor_from(683, 24));
    assert(!has_divisor_from(683, 23));
    assert(!has_divisor_from(683, 22));
    assert(!has_divisor_from(683, 21));
    assert(!has_divisor_from(683, 20));
    assert(!has_divisor_from(683, 19));
    assert(!has_divisor_from(683, 18));
    assert(!has_divisor_from(683, 17));
    assert(!has_divisor_from(683, 16));
    assert(!has_divisor_from(683, 15));
    assert(!has_divisor_from(683, 14));
    assert(!has_divisor_from(683, 13));
    assert(!has_divisor_from(683, 12));
    assert(!has_divisor_from(683, 11));
    assert(!has_divisor_from(683, 10));
    assert(!has_divisor_from(683, 9));
    assert(!has_divisor_from(683, 8));
    assert(!has_divisor_from(683, 7));
    assert(!has_divisor_from(683, 6));
    assert(!has_divisor_from(683, 5));
    assert(!has_divisor_from(683, 4));
    assert(!has_divisor_from(683, 3));
    assert(!has_divisor_from(683, 2));
    assert(count_by_division(683) == 124);
    assert(has_divisor_from(684, 2));
    assert(count_by_division(684) == 124);
    assert(has_divisor_from(685, 5));
    assert(has_divisor_from(685, 4));
    assert(has_divisor_from(685, 3));
    assert(has_divisor_from(685, 2));
    assert(count_by_division(685) == 124);
    assert(has_divisor_from(686, 2));
    assert(count_by_division(686) == 124);
    assert(has_divisor_from(687, 3));
    assert(has_divisor_from(687, 2));
    assert(count_by_division(687) == 124);
    assert(has_divisor_from(688, 2));
    assert(count_by_division(688) == 124);
    assert(has_divisor_from(689, 13));
    assert(has_divisor_from(689, 12));
    assert(has_divisor_from(689, 11));
    assert(has_divisor_from(689, 10));
    assert(has_divisor_from(689, 9));
    assert(has_divisor_from(689, 8));
    assert(has_divisor_from(689, 7));
    assert(has_divisor_from(689, 6));
    assert(has_divisor_from(689, 5));
    assert(has_divisor_from(689, 4));
    assert(has_divisor_from(689, 3));
    assert(has_divisor_from(689, 2));
    assert(count_by_division(689) == 124);
    assert(has_divisor_from(690, 2));
    assert(count_by_division(690) == 124);
    assert(!has_divisor_from(691, 27));
    assert(!has_divisor_from(691, 26));
    assert(!has_divisor_from(691, 25));
    assert(!has_divisor_from(691, 24));
    assert(!has_divisor_from(691, 23));
    assert(!has_divisor_from(691, 22));
    assert(!has_divisor_from(691, 21));
    assert(!has_divisor_from(691, 20));
    assert(!has_divisor_from(691, 19));
    assert(!has_divisor_from(691, 18));
    assert(!has_divisor_from(691, 17));
    assert(!has_divisor_from(691, 16));
    assert(!has_divisor_from(691, 15));
    assert(!has_divisor_from(691, 14));
    assert(!has_divisor_from(691, 13));
    assert(!has_divisor_from(691, 12));
    assert(!has_divisor_from(691, 11));
    assert(!has_divisor_from(691, 10));
    assert(!has_divisor_from(691, 9));
    assert(!has_divisor_from(691, 8));
    assert(!has_divisor_from(691, 7));
    assert(!has_divisor_from(691, 6));
    assert(!has_divisor_from(691, 5));
    assert(!has_divisor_from(691, 4));
    assert(!has_divisor_from(691, 3));
    assert(!has_divisor_from(691, 2));
    assert(count_by_division(691) == 125);
    assert(has_divisor_from(692, 2));
    assert(count_by_division(692) == 125);
    assert(has_divisor_from(693, 3));
    assert(has_divisor_from(693, 2));
    assert(count_by_division(693) == 125);
    assert(has_divisor_from(694, 2));
    assert(count_by_division(694) == 125);
    assert(has_divisor_from(695, 5));
    assert(has_divisor_from(695, 4));
    assert(has_divisor_from(695, 3));
    assert(has_divisor_from(695, 2));
    assert(count_by_division(695) == 125);
    assert(has_divisor_from(696, 2));
    assert(count_by_division(696) == 125);
    assert(has_divisor_from(697, 17));
    assert(has_divisor_from(697, 16));
    assert(has_divisor_from(697, 15));
    assert(has_divisor_from(697, 14));
    assert(has_divisor_from(697, 13));
    assert(has_divisor_from(697, 12));
    assert(has_divisor_from(697, 11));
    assert(has_divisor_from(697, 10));
    assert(has_divisor_from(697, 9));
    assert(has_divisor_from(697, 8));
    assert(has_divisor_from(697, 7));
    assert(has_divisor_from(697, 6));
    assert(has_divisor_from(697, 5));
    assert(has_divisor_from(697, 4));
    assert(has_divisor_from(697, 3));
    assert(has_divisor_from(697, 2));
    assert(count_by_division(697) == 125);
    assert(has_divisor_from(698, 2));
    assert(count_by_division(698) == 125);
    assert(has_divisor_from(699, 3));
    assert(has_divisor_from(699, 2));
    assert(count_by_division(699) == 125);
    assert(has_divisor_from(700, 2));
    assert(count_by_division(700) == 125);
}

/// Trial division up to 800.
proof fn lemma_count_800()
    requires count_by_division(700) == 125,
    ensures count_by_division(800) == 139,
{
    assert(!has_divisor_from(701, 27));
    assert(!has_divisor_from(701, 26));
    assert(!has_divisor_from(701, 25));
    assert(!has_divisor_from(701, 24));
    assert(!has_divisor_from(701, 23));
    assert(!has_divisor_from(701, 22));
    assert(!has_divisor_from(701, 21));
    assert(!has_divisor_from(701, 20));
    assert(!has_divisor_from(701, 19));
    assert(!has_divisor_from(701, 18));
    assert(!has_divisor_from(701, 17));
    assert(!has_divisor_from(701, 16));
    assert(!has_divisor_from(701, 15));
    assert(!has_divisor_from(701, 14));
    assert(!has_divisor_from(701, 13));
    assert(!has_divisor_from(701, 12));
    assert(!has_divisor_from(701, 11));
    assert(!has_divisor_from(701, 10));
    assert(!has_divisor_from(701, 9));
    assert(!has_divisor_from(701, 8));
    assert(!has_divisor_from(701, 7));
    assert(!has_divisor_from(701, 6));
    assert(!has_divisor_from(701, 5));
    assert(!has_divisor_from(701, 4));
    assert(!has_divisor_from(701, 3));
    assert(!has_divisor_from(701, 2));
    assert(count_by_division(701) == 126);
    assert(has_divisor_from(702, 2));
    assert(count_by_division(702) == 126);
    assert(has_divisor_from(703, 19));
    assert(has_divisor_from(703, 18));
    assert(has_divisor_from(703, 17));
    assert(has_divisor_from(703, 16));
    assert(has_divisor_from(703, 15));
    assert(has_divisor_from(703, 14));
    assert(has_divisor_from(703, 13));
    assert(has_divisor_from(703, 12));
    assert(has_divisor_from(703, 11));
    assert(has_divisor_from(703, 10));
    assert(has_divisor_from(703, 9));
    assert(has_divisor_from(703, 8));
    assert(has_divisor_from(703, 7));
    assert(has_divisor_from(703, 6));
    assert(has_divisor_from(703, 5));
    assert(has_divisor_from(703, 4));
    assert(has_divisor_from(703, 3));
    assert(has_divisor_from(703, 2));
    assert(count_by_division(703) == 126);
    assert(has_divisor_from(704, 2));
    assert(count_by_division(704) == 126);
    assert(has_divisor_from(705, 3));
    assert(has_divisor_from(705, 2));
    assert(count_by_division(705) == 126);
    assert(has_divisor_from(706, 2));
    assert(count_by_division(706) == 126);
    assert(has_divisor_from(707, 7));
    assert(has_divisor_from(707, 6));
    assert(has_divisor_from(707, 5));
    assert(has_divisor_from(707, 4));
    assert(has_divisor_from(707, 3));
    assert(has_divisor_from(707, 2));
    assert(count_by_division(707) == 126);
    assert(has_divisor_from(708, 2));
    assert(count_by_division(708) == 126);
    assert(!has_divisor_from(709, 27));
    assert(!has_divisor_from(709, 26));
    assert(!has_divisor_from(709, 25));
    assert(!has_divisor_from(709, 24));
    assert(!has_divisor_from(709, 23));
    assert(!has_divisor_from(709, 22));
    assert(!has_divisor_from(709, 21));
    assert(!has_divisor_from(709, 20));
    assert(!has_divisor_from(709, 19));
    assert(!has_divisor_from(709, 18));
    assert(!has_divisor_from(709, 17));
    assert(!has_divisor_from(709, 16));
    assert(!has_divisor_from(709, 15));
    assert(!has_divisor_from(709, 14));
    assert(!has_divisor_from(709, 13));
    assert(!has_divisor_from(709, 12));
    assert(!has_divisor_from(709, 11));
    assert(!has_divisor_from(709, 10));
    assert(!has_divisor_from(709, 9));
    assert(!has_divisor_from(709, 8));
    assert(!has_divisor_from(709, 7));
    assert(!has_divisor_from(709, 6));
    assert(!has_divisor_from(709, 5));
    assert(!has_divisor_from(709, 4));
    assert(!has_divisor_from(709, 3));
    assert(!has_divisor_from(709, 2));
    assert(count_by_division(709) == 127);
    assert(has_divisor_from(710, 2));
    assert(count_by_division(710) == 127);
    assert(has_divisor_from(711, 3));
    assert(has_divisor_from(711, 2));
    assert(count_by_division(711) == 127);
    assert(has_divisor_from(712, 2));
    assert(count_by_division(712) == 127);
    assert(has_divisor_from(713, 23));
    assert(has_divisor_from(713, 22));
    assert(has_divisor_from(713, 21));
    assert(has_divisor_from(713, 20));
    assert(has_divisor_from(713, 19));
    assert(has_divisor_from(713, 18));
    assert(has_divisor_from(713, 17));
    assert(has_divisor_from(713, 16));
    assert(has_divisor_from(713, 15));
    assert(has_divisor_from(713, 14));
    assert(has_divisor_from(713, 13));
    assert(has_divisor_from(713, 12));
    assert(has_divisor_from(713, 11));
    assert(has_divisor_from(713, 10));
    assert(has_divisor_from(713, 9));
    assert(has_divisor_from(713, 8));
    assert(has_divisor_from(713, 7));
    assert(has_divisor_from(713, 6));
    assert(has_divisor_from(713, 5));
    assert(has_divisor_from(713, 4));
    assert(has_divisor_from(713, 3));
    assert(has_divisor_from(713, 2));
    assert(count_by_division(713) == 127);
    assert(has_divisor_from(714, 2));
    assert(count_by_division(714) == 127);
    assert(has_divisor_from(715, 5));
    assert(has_divisor_from(715, 4));
    assert(has_divisor_from(715, 3));
    assert(has_divisor_from(715, 2));
    assert(count_by_division(715) == 127);
    assert(has_divisor_from(716, 2));
    assert(count_by_division(716) == 127);
    assert(has_divisor_from(717, 3));
    assert(has_divisor_from(717, 2));
    assert(count_by_division(717) == 127);
    assert(has_divisor_from(718, 2));
    assert(count_by_division(718) == 127);
    assert(!has_divisor_from(719, 27));
    assert(!has_divisor_from(719, 26));
    assert(!has_divisor_from(719, 25));
    assert(!has_divisor_from(719, 24));
    assert(!has_divisor_from(719, 23));
    assert(!has_divisor_from(719, 22));
    assert(!has_divisor_from(719, 21));
    assert(!has_divisor_from(719, 20));
    assert(!has_divisor_from(719, 19));
    assert(!has_divisor_from(719, 18));
    assert(!has_divisor_from(719, 17));
    assert(!has_divisor_from(719, 16));
    assert(!has_divisor_from(719, 15));
    assert(!has_divisor_from(719, 14));
    assert(!has_divisor_from(719, 13));
    assert(!has_divisor_from(719, 12));
    assert(!has_divisor_from(719, 11));
    assert(!has_divisor_from(719, 10));
    assert(!has_divisor_from(719, 9));
    assert(!has_divisor_from(719, 8));
    assert(!has_divisor_from(719, 7));
    assert(!has_divisor_from(719, 6));
    assert(!has_divisor_from(719, 5));
    assert(!has_divisor_from(719, 4));
    assert(!has_divisor_from(719, 3));
    assert(!has_divisor_from(719, 2));
    assert(count_by_division(719) == 128);
    assert(has_divisor_from(720, 2));
    assert(count_by_division(720) == 128);
    assert(has_divisor_from(721, 7));
    assert(has_divisor_from(721, 6));
    assert(has_divisor_from(721, 5));
    assert(has_divisor_from(721, 4));
    assert(has_divisor_from(721, 3));
    assert(has_divisor_from(721, 2));
    assert(count_by_division(721) == 128);
    assert(has_divisor_from(722, 2));
    assert(count_by_division(722) == 128);
    assert(has_divisor_from(723, 3));
    assert(has_divisor_from(723, 2));
    assert(count_by_division(723) == 128);
    assert(has_divisor_from(724, 2));
    assert(count_by_division(724) == 128);
    assert(has_divisor_from(725, 5));
    assert(has_divisor_from(725, 4));
    assert(has_divisor_from(725, 3));
    assert(has_divisor_from(725, 2));
    assert(count_by_division(725) == 128);
    assert(has_divisor_from(726, 2));
    assert(count_by_division(726) == 128);
    assert(!has_divisor_from(727, 27));
    assert(!has_divisor_from(727, 26));
    assert(!has_divisor_from(727, 25));
    assert(!has_divisor_from(727, 24));
    assert(!has_divisor_from(727, 23));
    assert(!has_divisor_from(727, 22));
    assert(!has_divisor_from(727, 21));
    assert(!has_divisor_from(727, 20));
    assert(!has_divisor_from(727, 19));
    assert(!has_divisor_from(727, 18));
    assert(!has_divisor_from(727, 17));
    assert(!has_divisor_from(727, 16));
    assert(!has_divisor_from(727, 15));
    assert(!has_divisor_from(727, 14));
    assert(!has_divisor_from(727, 13));
    assert(!has_divisor_from(727, 12));
    assert(!has_divisor_from(727, 11));
    assert(!has_divisor_from(727, 10));
    assert(!has_divisor_from(727, 9));
    assert(!has_divisor_from(727, 8));
    assert(!has_divisor_from(727, 7));
    assert(!has_divisor_from(727, 6));
    assert(!has_divisor_from(727, 5));
    assert(!has_divisor_from(727, 4));
    assert(!has_divisor_from(727, 3));
    assert(!has_divisor_from(727, 2));
    assert(count_by_division(727) == 129);
    assert(has_divisor_from(728, 2));
    assert(count_by_division(728) == 129);
    assert(has_divisor_from(729, 3));
    assert(has_divisor_from(729, 2));
    assert(count_by_division(729) == 129);
    assert(has_divisor_from(730, 2));
    assert(count_by_division(730) == 129);
    assert(has_divisor_from(731, 17));
    assert(has_divisor_from(731, 16));
    assert(has_divisor_from(731, 15));
    assert(has_divisor_from(731, 14));
    assert(has_divisor_from(731, 13));
    assert(has_divisor_from(731, 12));
    assert(has_divisor_from(731, 11));
    assert(has_divisor_from(731, 10));
    assert(has_divisor_from(731, 9));
    assert(has_divisor_from(731, 8));
    assert(has_divisor_from(731, 7));
    assert(has_divisor_from(731, 6));
    assert(has_divisor_from(731, 5));
    assert(has_divisor_from(731, 4));
    assert(has_divisor_from(731, 3));
    assert(has_divisor_from(731, 2));
    assert(count_by_division(731) == 129);
    assert(has_divisor_from(732, 2));
    assert(count_by_division(732) == 129);
    assert(!has_divisor_from(733, 28));
    assert(!has_divisor_from(733, 27));
    assert(!has_divisor_from(733, 26));
    assert(!has_divisor_from(733, 25));
    assert(!has_divisor_from(733, 24));
    assert(!has_divisor_from(733, 23));
    assert(!has_divisor_from(733, 22));
    assert(!has_divisor_from(733, 21));
    assert(!has_divisor_from(733, 20));
    assert(!has_divisor_from(733, 19));
    assert(!has_divisor_from(733, 18));
    assert(!has_divisor_from(733, 17));
    assert(!has_divisor_from(733, 16));
    assert(!has_divisor_from(733, 15));
    assert(!has_divisor_from(733, 14));
    assert(!has_divisor_from(733, 13));
    assert(!has_divisor_from(733, 12));
    assert(!has_divisor_from(733, 11));
    assert(!has_divisor_from(733, 10));
    assert(!has_divisor_from(733, 9));
    assert(!has_divisor_from(733, 8));
    assert(!has_divisor_from(733, 7));
    assert(!has_divisor_from(733, 6));
    assert(!has_divisor_from(733, 5));
    assert(!has_divisor_from(733, 4));
    assert(!has_divisor_from(733, 3));
    assert(!has_divisor_from(733, 2));
    assert(count_by_division(733) == 130);
    assert(has_divisor_from(734, 2));
    assert(count_by_division(734) == 130);
    assert(has_divisor_from(735, 3));
    assert(has_divisor_from(735, 2));
    assert(count_by_division(735) == 130);
    assert(has_divisor_from(736, 2));
    assert(count_by_division(736) == 130);
    assert(has_divisor_from(737, 11));
    assert(has_divisor_from(737, 10));
    assert(has_divisor_from(737, 9));
    assert(has_divisor_from(737, 8));
    assert(has_divisor_from(737, 7));
    assert(has_divisor_from(737, 6));
    assert(has_divisor_from(737, 5));
    assert(has_divisor_from(737, 4));
    assert(has_divisor_from(737, 3));
    assert(has_divisor_from(737, 2));
    assert(count_by_division(737) == 130);
    assert(has_divisor_from(738, 2));
    assert(count_by_division(738) == 130);
    assert(!has_divisor_from(739, 28));
    assert(!has_divisor_from(739, 27));
    assert(!has_divisor_from(739, 26));
    assert(!has_divisor_from(739, 25));
    assert(!has_divisor_from(739, 24));
    assert(!has_divisor_from(739, 23));
    assert(!has_divisor_from(739, 22));
    assert(!has_divisor_from(739, 21));
    assert(!has_divisor_from(739, 20));
    assert(!has_divisor_from(739, 19));
    assert(!has_divisor_from(739, 18));
    assert(!has_divisor_from(739, 17));
    assert(!has_divisor_from(739, 16));
    assert(!has_divisor_from(739, 15));
    assert(!has_divisor_from(739, 14));
    assert(!has_divisor_from(739, 13));
    assert(!has_divisor_from(739, 12));
    assert(!has_divisor_from(739, 11));
    assert(!has_divisor_from(739, 10));
    assert(!has_divisor_from(739, 9));
    assert(!has_divisor_from(739, 8));
    assert(!has_divisor_from(739, 7));
    assert(!has_divisor_from(739, 6));
    assert(!has_divisor_from(739, 5));
    assert(!has_divisor_from(739, 4));
    assert(!has_divisor_from(739, 3));
    assert(!has_divisor_from(739, 2));
    assert(count_by_division(739) == 131);
    assert(has_divisor_from(740, 2));
    assert(count_by_division(740) == 131);
    assert(has_divisor_from(741, 3));
    assert(has_divisor_from(741, 2));
    assert(count_by_division(741) == 131);
    assert(has_divisor_from(742, 2));
    assert(count_by_division(742) == 131);
    assert(!has_divisor_from(743, 28));
    assert(!has_divisor_from(743, 27));
    assert(!has_divisor_from(743, 26));
    assert(!has_divisor_from(743, 25));
    assert(!has_divisor_from(743, 24));
    assert(!has_divisor_from(743, 23));
    assert(!has_divisor_from(743, 22));
    assert(!has_divisor_from(743, 21));
    assert(!has_divisor_from(743, 20));
    assert(!has_divisor_from(743, 19));
    assert(!has_divisor_from(743, 18));
    assert(!has_divisor_from(743, 17));
    assert(!has_divisor_from(743, 16));
    assert(!has_divisor_from(743, 15));
    assert(!has_divisor_from(743, 14));
    assert(!has_divisor_from(743, 13));
    assert(!has_divisor_from(743, 12));
    assert(!has_divisor_from(743, 11));
    assert(!has_divisor_from(743, 10));
    assert(!has_divisor_from(743, 9));
    assert(!has_divisor_from(743, 8));
    assert(!has_divisor_from(743, 7));
    assert(!has_divisor_from(743, 6));
    assert(!has_divisor_from(743, 5));
    assert(!has_divisor_from(743, 4));
    assert(!has_divisor_from(743, 3));
    assert(!has_divisor_from(743, 2));
    assert(count_by_division(743) == 132);
    assert(has_divisor_from(744, 2));
    assert(count_by_division(744) == 132);
    assert(has_divisor_from(745, 5));
    assert(has_divisor_from(745, 4));
    assert(has_divisor_from(745, 3));
    assert(has_divisor_from(745, 2));
    assert(count_by_division(745) == 132);
    assert(has_divisor_from(746, 2));
    assert(count_by_division(746) == 132);
    assert(has_divisor_from(747, 3));
    assert(has_divisor_from(747, 2));
    assert(count_by_division(747) == 132);
    assert(has_divisor_from(748, 2));
    assert(count_by_division(748) == 132);
    assert(has_divisor_from(749, 7));
    assert(has_divisor_from(749, 6));
    assert(has_divisor_from(749, 5));
    assert(has_divisor_from(749, 4));
    assert(has_divisor_from(749, 3));
    assert(has_divisor_from(749, 2));
    assert(count_by_division(749) == 132);
    assert(has_divisor_from(750, 2));
    assert(count_by_division(750) == 132);
    assert(!has_divisor_from(751, 28));
    assert(!has_divisor_from(751, 27));
    assert(!has_divisor_from(751, 26));
    assert(!has_divisor_from(751, 25));
    assert(!has_divisor_from(751, 24));
    assert(!has_divisor_from(751, 23));
    assert(!has_divisor_from(751, 22));
    assert(!has_divisor_from(751, 21));
    assert(!has_divisor_from(751, 20));
    assert(!has_divisor_from(751, 19));
    assert(!has_divisor_from(751, 18));
    assert(!has_divisor_from(751, 17));
    assert(!has_divisor_from(751, 16));
    assert(!has_divisor_from(751, 15));
    assert(!has_divisor_from(751, 14));
    assert(!has_divisor_from(751, 13));
    assert(!has_divisor_from(751, 12));
    assert(!has_divisor_from(751, 11));
    assert(!has_divisor_from(751, 10));
    assert(!has_divisor_from(751, 9));
    assert(!has_divisor_from(751, 8));
    assert(!has_divisor_from(751, 7));
    assert(!has_divisor_from(751, 6));
    assert(!has_divisor_from(751, 5));
    assert(!has_divisor_from(751, 4));
    assert(!has_divisor_from(751, 3));
    assert(!has_divisor_from(751, 2));
    assert(count_by_division(751) == 133);
    assert(has_divisor_from(752, 2));
    assert(count_by_division(752) == 133);
    assert(has_divisor_from(753, 3));
    assert(has_divisor_from(753, 2));
    assert(count_by_division(753) == 133);
    assert(has_divisor_from(754, 2));
    assert(count_by_division(754) == 133);
    assert(has_divisor_from(755, 5));
    assert(has_divisor_from(755, 4));
    assert(has_divisor_from(755, 3));
    assert(has_divisor_from(755, 2));
    assert(count_by_division(755) == 133);
    assert(has_divisor_from(756, 2));
    assert(count_by_division(756) == 133);
    assert(!has_divisor_from(757, 28));
    assert(!has_divisor_from(757, 27));
    assert(!has_divisor_from(757, 26));
    assert(!has_divisor_from(757, 25));
    assert(!has_divisor_from(757, 24));
    assert(!has_divisor_from(757, 23));
    assert(!has_divisor_from(757, 22));
    assert(!has_divisor_from(757, 21));
    assert(!has_divisor_from(757, 20));
    assert(!has_divisor_from(757, 19));
    assert(!has_divisor_from(757, 18));
    assert(!has_divisor_from(757, 17));
    assert(!has_divisor_from(757, 16));
    assert(!has_divisor_from(757, 15));
    assert(!has_divisor_from(757, 14));
    assert(!has_divisor_from(757, 13));
    assert(!has_divisor_from(757, 12));
    assert(!has_divisor_from(757, 11));
    assert(!has_divisor_from(757, 10));
    assert(!has_divisor_from(757, 9));
    assert(!has_divisor_from(757, 8));
    assert(!has_divisor_from(757, 7));
    assert(!has_divisor_from(757, 6));
    assert(!has_divisor_from(757, 5));
    assert(!has_divisor_from(757, 4));
    assert(!has_divisor_from(757, 3));
    assert(!has_divisor_from(757, 2));
    assert(count_by_division(757) == 134);
    assert(has_divisor_from(758, 2));
    assert(count_by_division(758) == 134);
    assert(has_divisor_from(759, 3));
    assert(has_divisor_from(759, 2));
    assert(count_by_division(759) == 134);
    assert(has_divisor_from(760, 2));
    assert(count_by_division(760) == 134);
    assert(!has_divisor_from(761, 28));
    assert(!has_divisor_from(761, 27));
    assert(!has_divisor_from(761, 26));
    assert(!has_divisor_from(761, 25));
    assert(!has_divisor_from(761, 24));
    assert(!has_divisor_from(761, 23));
    assert(!has_divisor_from(761, 22));
    assert(!has_divisor_from(761, 21));
    assert(!has_divisor_from(761, 20));
    assert(!has_divisor_from(761, 19));
    assert(!has_divisor_from(761, 18));
    assert(!has_divisor_from(761, 17));
    assert(!has_divisor_from(761, 16));
    assert(!has_divisor_from(761, 15));
    assert(!has_divisor_from(761, 14));
    assert(!has_divisor_from(761, 13));
    assert(!has_divisor_from(761, 12));
    assert(!has_divisor_from(761, 11));
    assert(!has_divisor_from(761, 10));
    assert(!has_divisor_from(761, 9));
    assert(!has_divisor_from(761, 8));
    assert(!has_divisor_from(761, 7));
    assert(!has_divisor_from(761, 6));
    assert(!has_divisor_from(761, 5));
    assert(!has_divisor_from(761, 4));
    assert(!has_divisor_from(761, 3));
    assert(!has_divisor_from(761, 2));
    assert(count_by_division(761) == 135);
    assert(has_divisor_from(762, 2));
    assert(count_by_division(762) == 135);
    assert(has_divisor_from(763, 7));
    assert(has_divisor_from(763, 6));
    assert(has_divisor_from(763, 5));
    assert(has_divisor_from(763, 4));
    assert(has_divisor_from(763, 3));
    assert(has_divisor_from(763, 2));
    assert(count_by_division(763) == 135);
    assert(has_divisor_from(764, 2));
    assert(count_by_division(764) == 135);
    assert(has_divisor_from(765, 3));
    assert(has_divisor_from(765, 2));
    assert(count_by_division(765) == 135);
    assert(has_divisor_from(766, 2));
    assert(count_by_division(766) == 135);
    assert(has_divisor_from(767, 13));
    assert(has_divisor_from(767, 12));
    assert(has_divisor_from(767, 11));
    assert(has_divisor_from(767, 10));
    assert(has_divisor_from(767, 9));
    assert(has_divisor_from(767, 8));
    assert(has_divisor_from(767, 7));
    assert(has_divisor_from(767, 6));
    assert(has_divisor_from(767, 5));
    assert(has_divisor_from(767, 4));
    assert(has_divisor_from(767, 3));
    assert(has_divisor_from(767, 2));
    assert(count_by_division(767) == 135);
    assert(has_divisor_from(768, 2));
    assert(count_by_division(768) == 135);
    assert(!has_divisor_from(769, 28));
    assert(!has_divisor_from(769, 27));
    assert(!has_divisor_from(769, 26));
    assert(!has_divisor_from(769, 25));
    assert(!has_divisor_from(769, 24));
    assert(!has_divisor_from(769, 23));
    assert(!has_divisor_from(769, 22));
    assert(!has_divisor_from(769, 21));
    assert(!has_divisor_from(769, 20));
    assert(!has_divisor_from(769, 19));
    assert(!has_divisor_from(769, 18));
    assert(!has_divisor_from(769, 17));
    assert(!has_divisor_from(769, 16));
    assert(!has_divisor_from(769, 15));
    assert(!has_divisor_from(769, 14));
    assert(!has_divisor_from(769, 13));
    assert(!has_divisor_from(769, 12));
    assert(!has_divisor_from(769, 11));
    assert(!has_divisor_from(769, 10));
    assert(!has_divisor_from(769, 9));
    assert(!has_divisor_from(769, 8));
    assert(!has_divisor_from(769, 7));
    assert(!has_divisor_from(769, 6));
    assert(!has_divisor_from(769, 5));
    assert(!has_divisor_from(769, 4));
    assert(!has_divisor_from(769, 3));
    assert(!has_divisor_from(769, 2));
    assert(count_by_division(769) == 136);
    assert(has_divisor_from(770, 2));
    assert(count_by_division(770) == 136);
    assert(has_divisor_from(771, 3));
    assert(has_divisor_from(771, 2));
    assert(count_by_division(771) == 136);
    assert(has_divisor_from(772, 2));
    assert(count_by_division(772) == 136);
    assert(!has_divisor_from(773, 28));
    assert(!has_divisor_from(773, 27));
    assert(!has_divisor_from(773, 26));
    assert(!has_divisor_from(773, 25));
    assert(!has_divisor_from(773, 24));
    assert(!has_divisor_from(773, 23));
    assert(!has_divisor_from(773, 22));
    assert(!has_divisor_from(773, 21));
    assert(!has_divisor_from(773, 20));
    assert(!has_divisor_from(773, 19));
    assert(!has_divisor_from(773, 18));
    assert(!has_divisor_from(773, 17));
    assert(!has_divisor_from(773, 16));
    assert(!has_divisor_from(773, 15));
    assert(!has_divisor_from(773, 14));
    assert(!has_divisor_from(773, 13));
    assert(!has_divisor_from(773, 12));
    assert(!has_divisor_from(773, 11));
    assert(!has_divisor_from(773, 10));
    assert(!has_divisor_from(773, 9));
    assert(!has_divisor_from(773, 8));
    assert(!has_divisor_from(773, 7));
    assert(!has_divisor_from(773, 6));
    assert(!has_divisor_from(773, 5));
    assert(!has_divisor_from(773, 4));
    assert(!has_divisor_from(773, 3));
    assert(!has_divisor_from(773, 2));
    assert(count_by_division(773) == 137);
    assert(has_divisor_from(774, 2));
    assert(count_by_division(774) == 137);
    assert(has_divisor_from(775, 5));
    assert(has_divisor_from(775, 4));
    assert(has_divisor_from(775, 3));
    assert(has_divisor_from(775, 2));
    assert(count_by_division(775) == 137);
    assert(has_divisor_from(776, 2));
    assert(count_by_division(776) == 137);
    assert(has_divisor_from(777, 3));
    assert(has_divisor_from(777, 2));
    assert(count_by_division(777) == 137);
    assert(has_divisor_from(778, 2));
    assert(count_by_division(778) == 137);
    assert(has_divisor_from(779, 19));
    assert(has_divisor_from(779, 18));
    assert(has_divisor_from(779, 17));
    assert(has_divisor_from(779, 16));
    assert(has_divisor_from(779, 15));
    assert(has_divisor_from(779, 14));
    assert(has_divisor_from(779, 13));
    assert(has_divisor_from(779, 12));
    assert(has_divisor_from(779, 11));
    assert(has_divisor_from(779, 10));
    assert(has_divisor_from(779, 9));
    assert(has_divisor_from(779, 8));
    assert(has_divisor_from(779, 7));
    assert(has_divisor_from(779, 6));
    assert(has_divisor_from(779, 5));
    assert(has_divisor_from(779, 4));
    assert(has_divisor_from(779, 3));
    assert(has_divisor_from(779, 2));
    assert(count_by_division(779) == 137);
    assert(has_divisor_from(780, 2));
    assert(count_by_division(780) == 137);
    assert(has_divisor_from(781, 11));
    assert(has_divisor_from(781, 10));
    assert(has_divisor_from(781, 9));
    assert(has_divisor_from(781, 8));
    assert(has_divisor_from(781, 7));
    assert(has_divisor_from(781, 6));
    assert(has_divisor_from(781, 5));
    assert(has_divisor_from(781, 4));
    assert(has_divisor_from(781, 3));
    assert(has_divisor_from(781, 2));
    assert(count_by_division(781) == 137);
    assert(has_divisor_from(782, 2));
    assert(count_by_division(782) == 137);
    assert(has_divisor_from(783, 3));
    assert(has_divisor_from(783, 2));
    assert(count_by_division(783) == 137);
    assert(has_divisor_from(784, 2));
    assert(count_by_division(784) == 137);
    assert(has_divisor_from(785, 5));
    assert(has_divisor_from(785, 4));
    assert(has_divisor_from(785, 3));
    assert(has_divisor_from(785, 2));
    assert(count_by_division(785) == 137);
    assert(has_divisor_from(786, 2));
    assert(count_by_division(786) == 137);
    assert(!has_divisor_from(787, 29));
    assert(!has_divisor_from(787, 28));
    assert(!has_divisor_from(787, 27));
    assert(!has_divisor_from(787, 26));
    assert(!has_divisor_from(787, 25));
    assert(!has_divisor_from(787, 24));
    assert(!has_divisor_from(787, 23));
    assert(!has_divisor_from(787, 22));
    assert(!has_divisor_from(787, 21));
    assert(!has_divisor_from(787, 20));
    assert(!has_divisor_from(787, 19));
    assert(!has_divisor_from(787, 18));
    assert(!has_divisor_from(787, 17));
    assert(!has_divisor_from(787, 16));
    assert(!has_divisor_from(787, 15));
    assert(!has_divisor_from(787, 14));
    assert(!has_divisor_from(787, 13));
    assert(!has_divisor_from(787, 12));
    assert(!has_divisor_from(787, 11));
    assert(!has_divisor_from(787, 10));
    assert(!has_divisor_from(787, 9));
    assert(!has_divisor_from(787, 8));
    assert(!has_divisor_from(787, 7));
    assert(!has_divisor_from(787, 6));
    assert(!has_divisor_from(787, 5));
    assert(!has_divisor_from(787, 4));
    assert(!has_divisor_from(787, 3));
    assert(!has_divisor_from(787, 2));
    assert(count_by_division(787) == 138);
    assert(has_divisor_from(788, 2));
    assert(count_by_division(788) == 138);
    assert(has_divisor_from(789, 3));
    assert(has_divisor_from(789, 2));
    assert(count_by_division(789) == 138);
    assert(has_divisor_from(790, 2));
    assert(count_by_division(790) == 138);
    assert(has_divisor_from(791, 7));
    assert(has_divisor_from(791, 6));
    assert(has_divisor_from(791, 5));
    assert(has_divisor_from(791, 4));
    assert(has_divisor_from(791, 3));
    assert(has_divisor_from(791, 2));
    assert(count_by_division(791) == 138);
    assert(has_divisor_from(792, 2));
    assert(count_by_division(792) == 138);
    assert(has_divisor_from(793, 13));
    assert(has_divisor_from(793, 12));
    assert(has_divisor_from(793, 11));
    assert(has_divisor_from(793, 10));
    assert(has_divisor_from(793, 9));
    assert(has_divisor_from(793, 8));
    assert(has_divisor_from(793, 7));
    assert(has_divisor_from(793, 6));
    assert(has_divisor_from(793, 5));
    assert(has_divisor_from(793, 4));
    assert(has_divisor_from(793, 3));
    assert(has_divisor_from(793, 2));
    assert(count_by_division(793) == 138);
    assert(has_divisor_from(794, 2));
    assert(count_by_division(794) == 138);
    assert(has_divisor_from(795, 3));
    assert(has_divisor_from(795, 2));
    assert(count_by_division(795) == 138);
    assert(has_divisor_from(796, 2));
    assert(count_by_division(796) == 138);
    assert(!has_divisor_from(797, 29));
    assert(!has_divisor_from(797, 28));
    assert(!has_divisor_from(797, 27));
    assert(!has_divisor_from(797, 26));
    assert(!has_divisor_from(797, 25));
    assert(!has_divisor_from(797, 24));
    assert(!has_divisor_from(797, 23));
    assert(!has_divisor_from(797, 22));
    assert(!has_divisor_from(797, 21));
    assert(!has_divisor_from(797, 20));
    assert(!has_divisor_from(797, 19));
    assert(!has_divisor_from(797, 18));
    assert(!has_divisor_from(797, 17));
    assert(!has_divisor_from(797, 16));
    assert(!has_divisor_from(797, 15));
    assert(!has_divisor_from(797, 14));
    assert(!has_divisor_from(797, 13));
    assert(!has_divisor_from(797, 12));
    assert(!has_divisor_from(797, 11));
    assert(!has_divisor_from(797, 10));
    assert(!has_divisor_from(797, 9));
    assert(!has_divisor_from(797, 8));
    assert(!has_divisor_from(797, 7));
    assert(!has_divisor_from(797, 6));
    assert(!has_divisor_from(797, 5));
    assert(!has_divisor_from(797, 4));
    assert(!has_divisor_from(797, 3));
    assert(!has_divisor_from(797, 2));
    assert(count_by_division(797) == 139);
    assert(has_divisor_from(798, 2));
    assert(count_by_division(798) == 139);
    assert(has_divisor_from(799, 17));
    assert(has_divisor_from(799, 16));
    assert(has_divisor_from(799, 15));
    assert(has_divisor_from(799, 14));
    assert(has_divisor_from(799, 13));
    assert(has_divisor_from(799, 12));
    assert(has_divisor_from(799, 11));
    assert(has_divisor_from(799, 10));
    assert(has_divisor_from(799, 9));
    assert(has_divisor_from(799, 8));
    assert(has_divisor_from(799, 7));
    assert(has_divisor_from(799, 6));
    assert(has_divisor_from(799, 5));
    assert(has_divisor_from(799, 4));
    assert(has_divisor_from(799, 3));
    assert(has_divisor_from(799, 2));
    assert(count_by_division(799) == 139);
    assert(has_divisor_from(800, 2));
    assert(count_by_division(800) == 139);
}

/// Trial division up to 900.
proof fn lemma_count_900()
    requires count_by_division(800) == 139,
    ensures count_by_division(900) == 154,
{
    assert(has_divisor_from(801, 3));
    assert(has_divisor_from(801, 2));
    assert(count_by_division(801) == 139);
    assert(has_divisor_from(802, 2));
    assert(count_by_division(802) == 139);
    assert(has_divisor_from(803, 11));
    assert(has_divisor_from(803, 10));
    assert(has_divisor_from(803, 9));
    assert(has_divisor_from(803, 8));
    assert(has_divisor_from(803, 7));
    assert(has_divisor_from(803, 6));
    assert(has_divisor_from(803, 5));
    assert(has_divisor_from(803, 4));
    assert(has_divisor_from(803, 3));
    assert(has_divisor_from(803, 2));
    assert(count_by_division(803) == 139);
    assert(has_divisor_from(804, 2));
    assert(count_by_division(804) == 139);
    assert(has_divisor_from(805, 5));
    assert(has_divisor_from(805, 4));
    assert(has_divisor_from(805, 3));
    assert(has_divisor_from(805, 2));
    assert(count_by_division(805) == 139);
    assert(has_divisor_from(806, 2));
    assert(count_by_division(806) == 139);
    assert(has_divisor_from(807, 3));
    assert(has_divisor_from(807, 2));
    assert(count_by_division(807) == 139);
    assert(has_divisor_from(808, 2));
    assert(count_by_division(808) == 139);
    assert(!has_divisor_from(809, 29));
    assert(!has_divisor_from(809, 28));
    assert(!has_divisor_from(809, 27));
    assert(!has_divisor_from(809, 26));
    assert(!has_divisor_from(809, 25));
    assert(!has_divisor_from(809, 24));
    assert(!has_divisor_from(809, 23));
    assert(!has_divisor_from(809, 22));
    assert(!has_divisor_from(809, 21));
    assert(!has_divisor_from(809, 20));
    assert(!has_divisor_from(809, 19));
    assert(!has_divisor_from(809, 18));
    assert(!has_divisor_from(809, 17));
    assert(!has_divisor_from(809, 16));
    assert(!has_divisor_from(809, 15));
    assert(!has_divisor_from(809, 14));
    assert(!has_divisor_from(809, 13));
    assert(!has_divisor_from(809, 12));
    assert(!has_divisor_from(809, 11));
    assert(!has_divisor_from(809, 10));
    assert(!has_divisor_from(809, 9));
    assert(!has_divisor_from(809, 8));
    assert(!has_divisor_from(809, 7));
    assert(!has_divisor_from(809, 6));
    assert(!has_divisor_from(809, 5));
    assert(!has_divisor_from(809, 4));
    assert(!has_divisor_from(809, 3));
    assert(!has_divisor_from(809, 2));
    assert(count_by_division(809) == 140);
    assert(has_divisor_from(810, 2));
    assert(count_by_division(810) == 140);
    assert(!has_divisor_from(811, 29));
    assert(!has_divisor_from(811, 28));
    assert(!has_divisor_from(811, 27));
    assert(!has_divisor_from(811, 26));
    assert(!has_divisor_from(811, 25));
    assert(!has_divisor_from(811, 24));
    assert(!has_divisor_from(811, 23));
    assert(!has_divisor_from(811, 22));
    assert(!has_divisor_from(811, 21));
    assert(!has_divisor_from(811, 20));
    assert(!has_divisor_from(811, 19));
    assert(!has_divisor_from(811, 18));
    assert(!has_divisor_from(811, 17));
    assert(!has_divisor_from(811, 16));
    assert(!has_divisor_from(811, 15));
    assert(!has_divisor_from(811, 14));
    assert(!has_divisor_from(811, 13));
    assert(!has_divisor_from(811, 12));
    assert(!has_divisor_from(811, 11));
    assert(!has_divisor_from(811, 10));
    assert(!has_divisor_from(811, 9));
    assert(!has_divisor_from(811, 8));
    assert(!has_divisor_from(811, 7));
    assert(!has_divisor_from(811, 6));
    assert(!has_divisor_from(811, 5));
    assert(!has_divisor_from(811, 4));
    assert(!has_divisor_from(811, 3));
    assert(!has_divisor_from(811, 2));
    assert(count_by_division(811) == 141);
    assert(has_divisor_from(812, 2));
    assert(count_by_division(812) == 141);
    assert(has_divisor_from(813, 3));
    assert(has_divisor_from(813, 2));
    assert(count_by_division(813) == 141);
    assert(has_divisor_from(814, 2));
    assert(count_by_division(814) == 141);
    assert(has_divisor_from(815, 5));
    assert(has_divisor_from(815, 4));
    assert(has_divisor_from(815, 3));
    assert(has_divisor_from(815, 2));
    assert(count_by_division(815) == 141);
    assert(has_divisor_from(816, 2));
    assert(count_by_division(816) == 141);
    assert(has_divisor_from(817, 19));
    assert(has_divisor_from(817, 18));
    assert(has_divisor_from(817, 17));
    assert(has_divisor_from(817, 16));
    assert(has_divisor_from(817, 15));
    assert(has_divisor_from(817, 14));
    assert(has_divisor_from(817, 13));
    assert(has_divisor_from(817, 12));
    assert(has_divisor_from(817, 11));
    assert(has_divisor_from(817, 10));
    assert(has_divisor_from(817, 9));
    assert(has_divisor_from(817, 8));
    assert(has_divisor_from(817, 7));
    assert(has_divisor_from(817, 6));
    assert(has_divisor_from(817, 5));
    assert(has_divisor_from(817, 4));
    assert(has_divisor_from(817, 3));
    assert(has_divisor_from(817, 2));
    assert(count_by_division(817) == 141);
    assert(has_divisor_from(818, 2));
    assert(count_by_division(818) == 141);
    assert(has_divisor_from(819, 3));
    assert(has_divisor_from(819, 2));
    assert(count_by_division(819) == 141);
    assert(has_divisor_from(820, 2));
    assert(count_by_division(820) == 141);
    assert(!has_divisor_from(821, 29));
    assert(!has_divisor_from(821, 28));
    assert(!has_divisor_from(821, 27));
    assert(!has_divisor_from(821, 26));
    assert(!has_divisor_from(821, 25));
    assert(!has_divisor_from(821, 24));
    assert(!has_divisor_from(821, 23));
    assert(!has_divisor_from(821, 22));
    assert(!has_divisor_from(821, 21));
    assert(!has_divisor_from(821, 20));
    assert(!has_divisor_from(821, 19));
    assert(!has_divisor_from(821, 18));
    assert(!has_divisor_from(821, 17));
    assert(!has_divisor_from(821, 16));
    assert(!has_divisor_from(821, 15));
    assert(!has_divisor_from(821, 14));
    assert(!has_divisor_from(821, 13));
    assert(!has_divisor_from(821, 12));
    assert(!has_divisor_from(821, 11));
    assert(!has_divisor_from(821, 10));
    assert(!has_divisor_from(821, 9));
    assert(!has_divisor_from(821, 8));
    assert(!has_divisor_from(821, 7));
    assert(!has_divisor_from(821, 6));
    assert(!has_divisor_from(821, 5));
    assert(!has_divisor_from(821, 4));
    assert(!has_divisor_from(821, 3));
    assert(!has_divisor_from(821, 2));
    assert(count_by_division(821) == 142);
    assert(has_divisor_from(822, 2));
    assert(count_by_division(822) == 142);
    assert(!has_divisor_from(823, 29));
    assert(!has_divisor_from(823, 28));
    assert(!has_divisor_from(823, 27));
    assert(!has_divisor_from(823, 26));
    assert(!has_divisor_from(823, 25));
    assert(!has_divisor_from(823, 24));
    assert(!has_divisor_from(823, 23));
    assert(!has_divisor_from(823, 22));
    assert(!has_divisor_from(823, 21));
    assert(!has_divisor_from(823, 20));
    assert(!has_divisor_from(823, 19));
    assert(!has_divisor_from(823, 18));
    assert(!has_divisor_from(823, 17));
    assert(!has_divisor_from(823, 16));
    assert(!has_divisor_from(823, 15));
    assert(!has_divisor_from(823, 14));
    assert(!has_divisor_from(823, 13));
    assert(!has_divisor_from(823, 12));
    assert(!has_divisor_from(823, 11));
    assert(!has_divisor_from(823, 10));
    assert(!has_divisor_from(823, 9));
    assert(!has_divisor_from(823, 8));
    assert(!has_divisor_from(823, 7));
    assert(!has_divisor_from(823, 6));
    assert(!has_divisor_from(823, 5));
    assert(!has_divisor_from(823, 4));
    assert(!has_divisor_from(823, 3));
    assert(!has_divisor_from(823, 2));
    assert(count_by_division(823) == 143);
    assert(has_divisor_from(824, 2));
    assert(count_by_division(824) == 143);
    assert(has_divisor_from(825, 3));
    assert(has_divisor_from(825, 2));
    assert(count_by_division(825) == 143);
    assert(has_divisor_from(826, 2));
    assert(count_by_division(826) == 143);
    assert(!has_divisor_from(827, 29));
    assert(!has_divisor_from(827, 28));
    assert(!has_divisor_from(827, 27));
    assert(!has_divisor_from(827, 26));
    assert(!has_divisor_from(827, 25));
    assert(!has_divisor_from(827, 24));
    assert(!has_divisor_from(827, 23));
    assert(!has_divisor_from(827, 22));
    assert(!has_divisor_from(827, 21));
    assert(!has_divisor_from(827, 20));
    assert(!has_divisor_from(827, 19));
    assert(!has_divisor_from(827, 18));
    assert(!has_divisor_from(827, 17));
    assert(!has_divisor_from(827, 16));
    assert(!has_divisor_from(827, 15));
    assert(!has_divisor_from(827, 14));
    assert(!has_divisor_from(827, 13));
    assert(!has_divisor_from(827, 12));
    assert(!has_divisor_from(827, 11));
    assert(!has_divisor_from(827, 10));
    assert(!has_divisor_from(827, 9));
    assert(!has_divisor_from(827, 8));
    assert(!has_divisor_from(827, 7));
    assert(!has_divisor_from(827, 6));
    assert(!has_divisor_from(827, 5));
    assert(!has_divisor_from(827, 4));
    assert(!has_divisor_from(827, 3));
    assert(!has_divisor_from(827, 2));
    assert(count_by_division(827) == 144);
    assert(has_divisor_from(828, 2));
    assert(count_by_division(828) == 144);
    assert(!has_divisor_from(829, 29));
    assert(!has_divisor_from(829, 28));
    assert(!has_divisor_from(829, 27));
    assert(!has_divisor_from(829, 26));
    assert(!has_divisor_from(829, 25));
    assert(!has_divisor_from(829, 24));
    assert(!has_divisor_from(829, 23));
    assert(!has_divisor_from(829, 22));
    assert(!has_divisor_from(829, 21));
    assert(!has_divisor_from(829, 20));
    assert(!has_divisor_from(829, 19));
    assert(!has_divisor_from(829, 18));
    assert(!has_divisor_from(829, 17));
    assert(!has_divisor_from(829, 16));
    assert(!has_divisor_from(829, 15));
    assert(!has_divisor_from(829, 14));
    assert(!has_divisor_from(829, 13));
    assert(!has_divisor_from(829, 12));
    assert(!has_divisor_from(829, 11));
    assert(!has_divisor_from(829, 10));
    assert(!has_divisor_from(829, 9));
    assert(!has_divisor_from(829, 8));
    assert(!has_divisor_from(829, 7));
    assert(!has_divisor_from(829, 6));
    assert(!has_divisor_from(829, 5));
    assert(!has_divisor_from(829, 4));
    assert(!has_divisor_from(829, 3));
    assert(!has_divisor_from(829, 2));
    assert(count_by_division(829) == 145);
    assert(has_divisor_from(830, 2));
    assert(count_by_division(830) == 145);
    assert(has_divisor_from(831, 3));
    assert(has_divisor_from(831, 2));
    assert(count_by_division(831) == 145);
    assert(has_divisor_from(832, 2));
    assert(count_by_division(832) == 145);
    assert(has_divisor_from(833, 7));
    assert(has_divisor_from(833, 6));
    assert(has_divisor_from(833, 5));
    assert(has_divisor_from(833, 4));
    assert(has_divisor_from(833, 3));
    assert(has_divisor_from(833, 2));
    assert(count_by_division(833) == 145);
    assert(has_divisor_from(834, 2));
    assert(count_by_division(834) == 145);
    assert(has_divisor_from(835, 5));
    assert(has_divisor_from(835, 4));
    assert(has_divisor_from(835, 3));
    assert(has_divisor_from(835, 2));
    assert(count_by_division(835) == 145);
    assert(has_divisor_from(836, 2));
    assert(count_by_division(836) == 145);
    assert(has_divisor_from(837, 3));
    assert(has_divisor_from(837, 2));
    assert(count_by_division(837) == 145);
    assert(has_divisor_from(838, 2));
    assert(count_by_division(838) == 145);
    assert(!has_divisor_from(839, 29));
    assert(!has_divisor_from(839, 28));
    assert(!has_divisor_from(839, 27));
    assert(!has_divisor_from(839, 26));
    assert(!has_divisor_from(839, 25));
    assert(!has_divisor_from(839, 24));
    assert(!has_divisor_from(839, 23));
    assert(!has_divisor_from(839, 22));
    assert(!has_divisor_from(839, 21));
    assert(!has_divisor_from(839, 20));
    assert(!has_divisor_from(839, 19));
    assert(!has_divisor_from(839, 18));
    assert(!has_divisor_from(839, 17));
    assert(!has_divisor_from(839, 16));
    assert(!has_divisor_from(839, 15));
    assert(!has_divisor_from(839, 14));
    assert(!has_divisor_from(839, 13));
    assert(!has_divisor_from(839, 12));
    assert(!has_divisor_from(839, 11));
    assert(!has_divisor_from(839, 10));
    assert(!has_divisor_from(839, 9));
    assert(!has_divisor_from(839, 8));
    assert(!has_divisor_from(839, 7));
    assert(!has_divisor_from(839, 6));
    assert(!has_divisor_from(839, 5));
    assert(!has_divisor_from(839, 4));
    assert(!has_divisor_from(839, 3));
    assert(!has_divisor_from(839, 2));
    assert(count_by_division(839) == 146);
    assert(has_divisor_from(840, 2));
    assert(count_by_division(840) == 146);
    assert(has_divisor_from(841, 29));
    assert(has_divisor_from(841, 28));
    assert(has_divisor_from(841, 27));
    assert(has_divisor_from(841, 26));
    assert(has_divisor_from(841, 25));
    assert(has_divisor_from(841, 24));
    assert(has_divisor_from(841, 23));
    assert(has_divisor_from(841, 22));
    assert(has_divisor_from(841, 21));
    assert(has_divisor_from(841, 20));
    assert(has_divisor_from(841, 19));
    assert(has_divisor_from(841, 18));
    assert(has_divisor_from(841, 17));
    assert(has_divisor_from(841, 16));
    assert(has_divisor_from(841, 15));
    assert(has_divisor_from(841, 14));
    assert(has_divisor_from(841, 13));
    assert(has_divisor_from(841, 12));
    assert(has_divisor_from(841, 11));
    assert(has_divisor_from(841, 10));
    assert(has_divisor_from(841, 9));
    assert(has_divisor_from(841, 8));
    assert(has_divisor_from(841, 7));
    assert(has_divisor_from(841, 6));
    assert(has_divisor_from(841, 5));
    assert(has_divisor_from(841, 4));
    assert(has_divisor_from(841, 3));
    assert(has_divisor_from(841, 2));
    assert(count_by_division(841) == 146);
    assert(has_divisor_from(842, 2));
    assert(count_by_division(842) == 146);
    assert(has_divisor_from(843, 3));
    assert(has_divisor_from(843, 2));
    assert(count_by_division(843) == 146);
    assert(has_divisor_from(844, 2));
    assert(count_by_division(844) == 146);
    assert(has_divisor_from(845, 5));
    assert(has_divisor_from(845, 4));
    assert(has_divisor_from(845, 3));
    assert(has_divisor_from(845, 2));
    assert(count_by_division(845) == 146);
    assert(has_divisor_from(846, 2));
    assert(count_by_division(846) == 146);
    assert(has_divisor_from(847, 7));
    assert(has_divisor_from(847, 6));
    assert(has_divisor_from(847, 5));
    assert(has_divisor_from(847, 4));
    assert(has_divisor_from(847, 3));
    assert(has_divisor_from(847, 2));
    assert(count_by_division(847) == 146);
    assert(has_divisor_from(848, 2));
    assert(count_by_division(848) == 146);
    assert(has_divisor_from(849, 3));
    assert(has_divisor_from(849, 2));
    assert(count_by_division(849) == 146);
    assert(has_divisor_from(850, 2));
    assert(count_by_division(850) == 146);
    assert(has_divisor_from(851, 23));
    assert(has_divisor_from(851, 22));
    assert(has_divisor_from(851, 21));
    assert(has_divisor_from(851, 20));
    assert(has_divisor_from(851, 19));
    assert(has_divisor_from(851, 18));
    assert(has_divisor_from(851, 17));
    assert(has_divisor_from(851, 16));
    assert(has_divisor_from(851, 15));
    assert(has_divisor_from(851, 14));
    assert(has_divisor_from(851, 13));
    assert(has_divisor_from(851, 12));
    assert(has_divisor_from(851, 11));
    assert(has_divisor_from(851, 10));
    assert(has_divisor_from(851, 9));
    assert(has_divisor_from(851, 8));
    assert(has_divisor_from(851, 7));
    assert(has_divisor_from(851, 6));
    assert(has_divisor_from(851, 5));
    assert(has_divisor_from(851, 4));
    assert(has_divisor_from(851, 3));
    assert(has_divisor_from(851, 2));
    assert(count_by_division(851) == 146);
    assert(has_divisor_from(852, 2));
    assert(count_by_division(852) == 146);
    assert(!has_divisor_from(853, 30));
    assert(!has_divisor_from(853, 29));
    assert(!has_divisor_from(853, 28));
    assert(!has_divisor_from(853, 27));
    assert(!has_divisor_from(853, 26));
    assert(!has_divisor_from(853, 25));
    assert(!has_divisor_from(853, 24));
    assert(!has_divisor_from(853, 23));
    assert(!has_divisor_from(853, 22));
    assert(!has_divisor_from(853, 21));
    assert(!has_divisor_from(853, 20));
    assert(!has_divisor_from(853, 19));
    assert(!has_divisor_from(853, 18));
    assert(!has_divisor_from(853, 17));
    assert(!has_divisor_from(853, 16));
    assert(!has_divisor_from(853, 15));
    assert(!has_divisor_from(853, 14));
    assert(!has_divisor_from(853, 13));
    assert(!has_divisor_from(853, 12));
    assert(!has_divisor_from(853, 11));
    assert(!has_divisor_from(853, 10));
    assert(!has_divisor_from(853, 9));
    assert(!has_divisor_from(853, 8));
    assert(!has_divisor_from(853, 7));
    assert(!has_divisor_from(853, 6));
    assert(!has_divisor_from(853, 5));
    assert(!has_divisor_from(853, 4));
    assert(!has_divisor_from(853, 3));
    assert(!has_divisor_from(853, 2));
    assert(count_by_division(853) == 147);
    assert(has_divisor_from(854, 2));
    assert(count_by_division(854) == 147);
    assert(has_divisor_from(855, 3));
    assert(has_divisor_from(855, 2));
    assert(count_by_division(855) == 147);
    assert(has_divisor_from(856, 2));
    assert(count_by_division(856) == 147);
    assert(!has_divisor_from(857, 30));
    assert(!has_divisor_from(857, 29));
    assert(!has_divisor_from(857, 28));
    assert(!has_divisor_from(857, 27));
    assert(!has_divisor_from(857, 26));
    assert(!has_divisor_from(857, 25));
    assert(!has_divisor_from(857, 24));
    assert(!has_divisor_from(857, 23));
    assert(!has_divisor_from(857, 22));
    assert(!has_divisor_from(857, 21));
    assert(!has_divisor_from(857, 20));
    assert(!has_divisor_from(857, 19));
    assert(!has_divisor_from(857, 18));
    assert(!has_divisor_from(857, 17));
    assert(!has_divisor_from(857, 16));
    assert(!has_divisor_from(857, 15));
    assert(!has_divisor_from(857, 14));
    assert(!has_divisor_from(857, 13));
    assert(!has_divisor_from(857, 12));
    assert(!has_divisor_from(857, 11));
    assert(!has_divisor_from(857, 10));
    assert(!has_divisor_from(857, 9));
    assert(!has_divisor_from(857, 8));
    assert(!has_divisor_from(857, 7));
    assert(!has_divisor_from(857, 6));
    assert(!has_divisor_from(857, 5));
    assert(!has_divisor_from(857, 4));
    assert(!has_divisor_from(857, 3));
    assert(!has_divisor_from(857, 2));
    assert(count_by_division(857) == 148);
    assert(has_divisor_from(858, 2));
    assert(count_by_division(858) == 148);
    assert(!has_divisor_from(859, 30));
    assert(!has_divisor_from(859, 29));
    assert(!has_divisor_from(859, 28));
    assert(!has_divisor_from(859, 27));
    assert(!has_divisor_from(859, 26));
    assert(!has_divisor_from(859, 25));
    assert(!has_divisor_from(859, 24));
    assert(!has_divisor_from(859, 23));
    assert(!has_divisor_from(859, 22));
    assert(!has_divisor_from(859, 21));
    assert(!has_divisor_from(859, 20));
    assert(!has_divisor_from(859, 19));
    assert(!has_divisor_from(859, 18));
    assert(!has_divisor_from(859, 17));
    assert(!has_divisor_from(859, 16));
    assert(!has_divisor_from(859, 15));
    assert(!has_divisor_from(859, 14));
    assert(!has_divisor_from(859, 13));
    assert(!has_divisor_from(859, 12));
    assert(!has_divisor_from(859, 11));
    assert(!has_divisor_from(859, 10));
    assert(!has_divisor_from(859, 9));
    assert(!has_divisor_from(859, 8));
    assert(!has_divisor_from(859, 7));
    assert(!has_divisor_from(859, 6));
    assert(!has_divisor_from(859, 5));
    assert(!has_divisor_from(859, 4));
    assert(!has_divisor_from(859, 3));
    assert(!has_divisor_from(859, 2));
    assert(count_by_division(859) == 149);
    assert(has_divisor_from(860, 2));
    assert(count_by_division(860) == 149);
    assert(has_divisor_from(861, 3));
    assert(has_divisor_from(861, 2));
    assert(count_by_division(861) == 149);
    assert(has_divisor_from(862, 2));
    assert(count_by_division(862) == 149);
    assert(!has_divisor_from(863, 30));
    assert(!has_divisor_from(863, 29));
    assert(!has_divisor_from(863, 28));
    assert(!has_divisor_from(863, 27));
    assert(!has_divisor_from(863, 26));
    assert(!has_divisor_from(863, 25));
    assert(!has_divisor_from(863, 24));
    assert(!has_divisor_from(863, 23));
    assert(!has_divisor_from(863, 22));
    assert(!has_divisor_from(863, 21));
    assert(!has_divisor_from(863, 20));
    assert(!has_divisor_from(863, 19));
    assert(!has_divisor_from(863, 18));
    assert(!has_divisor_from(863, 17));
    assert(!has_divisor_from(863, 16));
    assert(!has_divisor_from(863, 15));
    assert(!has_divisor_from(863, 14));
    assert(!has_divisor_from(863, 13));
    assert(!has_divisor_from(863, 12));
    assert(!has_divisor_from(863, 11));
    assert(!has_divisor_from(863, 10));
    assert(!has_divisor_from(863, 9));
    assert(!has_divisor_from(863, 8));
    assert(!has_divisor_from(863, 7));
    assert(!has_divisor_from(863, 6));
    assert(!has_divisor_from(863, 5));
    assert(!has_divisor_from(863, 4));
    assert(!has_divisor_from(863, 3));
    assert(!has_divisor_from(863, 2));
    assert(count_by_division(863) == 150);
    assert(has_divisor_from(864, 2));
    assert(count_by_division(864) == 150);
    assert(has_divisor_from(865, 5));
    assert(has_divisor_from(865, 4));
    assert(has_divisor_from(865, 3));
    assert(has_divisor_from(865, 2));
    assert(count_by_division(865) == 150);
    assert(has_divisor_from(866, 2));
    assert(count_by_division(866) == 150);
    assert(has_divisor_from(867, 3));
    assert(has_divisor_from(867, 2));
    assert(count_by_division(867) == 150);
    assert(has_divisor_from(868, 2));
    assert(count_by_division(868) == 150);
    assert(has_divisor_from(869, 11));
    assert(has_divisor_from(869, 10));
    assert(has_divisor_from(869, 9));
    assert(has_divisor_from(869, 8));
    assert(has_divisor_from(869, 7));
    assert(has_divisor_from(869, 6));
    assert(has_divisor_from(869, 5));
    assert(has_divisor_from(869, 4));
    assert(has_divisor_from(869, 3));
    assert(has_divisor_from(869, 2));
    assert(count_by_division(869) == 150);
    assert(has_divisor_from(870, 2));
    assert(count_by_division(870) == 150);
    assert(has_divisor_from(871, 13));
    assert(has_divisor_from(871, 12));
    assert(has_divisor_from(871, 11));
    assert(has_divisor_from(871, 10));
    assert(has_divisor_from(871, 9));
    assert(has_divisor_from(871, 8));
    assert(has_divisor_from(871, 7));
    assert(has_divisor_from(871, 6));
    assert(has_divisor_from(871, 5));
    assert(has_divisor_from(871, 4));
    assert(has_divisor_from(871, 3));
    assert(has_divisor_from(871, 2));
    assert(count_by_division(871) == 150);
    assert(has_divisor_from(872, 2));
    assert(count_by_division(872) == 150);
    assert(has_divisor_from(873, 3));
    assert(has_divisor_from(873, 2));
    assert(count_by_division(873) == 150);
    assert(has_divisor_from(874, 2));
    assert(count_by_division(874) == 150);
    assert(has_divisor_from(875, 5));
    assert(has_divisor_from(875, 4));
    assert(has_divisor_from(875, 3));
    assert(has_divisor_from(875, 2));
    assert(count_by_division(875) == 150);
    assert(has_divisor_from(876, 2));
    assert(count_by_division(876) == 150);
    assert(!has_divisor_from(877, 30));
    assert(!has_divisor_from(877, 29));
    assert(!has_divisor_from(877, 28));
    assert(!has_divisor_from(877, 27));
    assert(!has_divisor_from(877, 26));
    assert(!has_divisor_from(877, 25));
    assert(!has_divisor_from(877, 24));
    assert(!has_divisor_from(877, 23));
    assert(!has_divisor_from(877, 22));
    assert(!has_divisor_from(877, 21));
    assert(!has_divisor_from(877, 20));
    assert(!has_divisor_from(877, 19));
    assert(!has_divisor_from(877, 18));
    assert(!has_divisor_from(877, 17));
    assert(!has_divisor_from(877, 16));
    assert(!has_divisor_from(877, 15));
    assert(!has_divisor_from(877, 14));
    assert(!has_divisor_from(877, 13));
    assert(!has_divisor_from(877, 12));
    assert(!has_divisor_from(877, 11));
    assert(!has_divisor_from(877, 10));
    assert(!has_divisor_from(877, 9));
    assert(!has_divisor_from(877, 8));
    assert(!has_divisor_from(877, 7));
    assert(!has_divisor_from(877, 6));
    assert(!has_divisor_from(877, 5));
    assert(!has_divisor_from(877, 4));
    assert(!has_divisor_from(877, 3));
    assert(!has_divisor_from(877, 2));
    assert(count_by_division(877) == 151);
    assert(has_divisor_from(878, 2));
    assert(count_by_division(878) == 151);
    assert(has_divisor_from(879, 3));
    assert(has_divisor_from(879, 2));
    assert(count_by_division(879) == 151);
    assert(has_divisor_from(880, 2));
    assert(count_by_division(880) == 151);
    assert(!has_divisor_from(881, 30));
    assert(!has_divisor_from(881, 29));
    assert(!has_divisor_from(881, 28));
    assert(!has_divisor_from(881, 27));
    assert(!has_divisor_from(881, 26));
    assert(!has_divisor_from(881, 25));
    assert(!has_divisor_from(881, 24));
    assert(!has_divisor_from(881, 23));
    assert(!has_divisor_from(881, 22));
    assert(!has_divisor_from(881, 21));
    assert(!has_divisor_from(881, 20));
    assert(!has_divisor_from(881, 19));
    assert(!has_divisor_from(881, 18));
    assert(!has_divisor_from(881, 17));
    assert(!has_divisor_from(881, 16));
    assert(!has_divisor_from(881, 15));
    assert(!has_divisor_from(881, 14));
    assert(!has_divisor_from(881, 13));
    assert(!has_divisor_from(881, 12));
    assert(!has_divisor_from(881, 11));
    assert(!has_divisor_from(881, 10));
    assert(!has_divisor_from(881, 9));
    assert(!has_divisor_from(881, 8));
    assert(!has_divisor_from(881, 7));
    assert(!has_divisor_from(881, 6));
    assert(!has_divisor_from(881, 5));
    assert(!has_divisor_from(881, 4));
    assert(!has_divisor_from(881, 3));
    assert(!has_divisor_from(881, 2));
    assert(count_by_division(881) == 152);
    assert(has_divisor_from(882, 2));
    assert(count_by_division(882) == 152);
    assert(!has_divisor_from(883, 30));
    assert(!has_divisor_from(883, 29));
    assert(!has_divisor_from(883, 28));
    assert(!has_divisor_from(883, 27));
    assert(!has_divisor_from(883, 26));
    assert(!has_divisor_from(883, 25));
    assert(!has_divisor_from(883, 24));
    assert(!has_divisor_from(883, 23));
    assert(!has_divisor_from(883, 22));
    assert(!has_divisor_from(883, 21));
    assert(!has_divisor_from(883, 20));
    assert(!has_divisor_from(883, 19));
    assert(!has_divisor_from(883, 18));
    assert(!has_divisor_from(883, 17));
    assert(!has_divisor_from(883, 16));
    assert(!has_divisor_from(883, 15));
    assert(!has_divisor_from(883, 14));
    assert(!has_divisor_from(883, 13));
    assert(!has_divisor_from(883, 12));
    assert(!has_divisor_from(883, 11));
    assert(!has_divisor_from(883, 10));
    assert(!has_divisor_from(883, 9));
    assert(!has_divisor_from(883, 8));
    assert(!has_divisor_from(883, 7));
    assert(!has_divisor_from(883, 6));
    assert(!has_divisor_from(883, 5));
    assert(!has_divisor_from(883, 4));
    assert(!has_divisor_from(883, 3));
    assert(!has_divisor_from(883, 2));
    assert(count_by_division(883) == 153);
    assert(has_divisor_from(884, 2));
    assert(count_by_division(884) == 153);
    assert(has_divisor_from(885, 3));
    assert(has_divisor_from(885, 2));
    assert(count_by_division(885) == 153);
    assert(has_divisor_from(886, 2));
    assert(count_by_division(886) == 153);
    assert(!has_divisor_from(887, 30));
    assert(!has_divisor_from(887, 29));
    assert(!has_divisor_from(887, 28));
    assert(!has_divisor_from(887, 27));
    assert(!has_divisor_from(887, 26));
    assert(!has_divisor_from(887, 25));
    assert(!has_divisor_from(887, 24));
    assert(!has_divisor_from(887, 23));
    assert(!has_divisor_from(887, 22));
    assert(!has_divisor_from(887, 21));
    assert(!has_divisor_from(887, 20));
    assert(!has_divisor_from(887, 19));
    assert(!has_divisor_from(887, 18));
    assert(!has_divisor_from(887, 17));
    assert(!has_divisor_from(887, 16));
    assert(!has_divisor_from(887, 15));
    assert(!has_divisor_from(887, 14));
    assert(!has_divisor_from(887, 13));
    assert(!has_divisor_from(887, 12));
    assert(!has_divisor_from(887, 11));
    assert(!has_divisor_from(887, 10));
    assert(!has_divisor_from(887, 9));
    assert(!has_divisor_from(887, 8));
    assert(!has_divisor_from(887, 7));
    assert(!has_divisor_from(887, 6));
    assert(!has_divisor_from(887, 5));
    assert(!has_divisor_from(887, 4));
    assert(!has_divisor_from(887, 3));
    assert(!has_divisor_from(887, 2));
    assert(count_by_division(887) == 154);
    assert(has_divisor_from(888, 2));
    assert(count_by_division(888) == 154);
    assert(has_divisor_from(889, 7));
    assert(has_divisor_from(889, 6));
    assert(has_divisor_from(889, 5));
    assert(has_divisor_from(889, 4));
    assert(has_divisor_from(889, 3));
    assert(has_divisor_from(889, 2));
    assert(count_by_division(889) == 154);
    assert(has_divisor_from(890, 2));
    assert(count_by_division(890) == 154);
    assert(has_divisor_from(891, 3));
    assert(has_divisor_from(891, 2));
    assert(count_by_division(891) == 154);
    assert(has_divisor_from(892, 2));
    assert(count_by_division(892) == 154);
    assert(has_divisor_from(893, 19));
    assert(has_divisor_from(893, 18));
    assert(has_divisor_from(893, 17));
    assert(has_divisor_from(893, 16));
    assert(has_divisor_from(893, 15));
    assert(has_divisor_from(893, 14));
    assert(has_divisor_from(893, 13));
    assert(has_divisor_from(893, 12));
    assert(has_divisor_from(893, 11));
    assert(has_divisor_from(893, 10));
    assert(has_divisor_from(893, 9));
    assert(has_divisor_from(893, 8));
    assert(has_divisor_from(893, 7));
    assert(has_divisor_from(893, 6));
    assert(has_divisor_from(893, 5));
    assert(has_divisor_from(893, 4));
    assert(has_divisor_from(893, 3));
    assert(has_divisor_from(893, 2));
    assert(count_by_division(893) == 154);
    assert(has_divisor_from(894, 2));
    assert(count_by_division(894) == 154);
    assert(has_divisor_from(895, 5));
    assert(has_divisor_from(895, 4));
    assert(has_divisor_from(895, 3));
    assert(has_divisor_from(895, 2));
    assert(count_by_division(895) == 154);
    assert(has_divisor_from(896, 2));
    assert(count_by_division(896) == 154);
    assert(has_divisor_from(897, 3));
    assert(has_divisor_from(897, 2));
    assert(count_by_division(897) == 154);
    assert(has_divisor_from(898, 2));
    assert(count_by_division(898) == 154);
    assert(has_divisor_from(899, 29));
    assert(has_divisor_from(899, 28));
    assert(has_divisor_from(899, 27));
    assert(has_divisor_from(899, 26));
    assert(has_divisor_from(899, 25));
    assert(has_divisor_from(899, 24));
    assert(has_divisor_from(899, 23));
    assert(has_divisor_from(899, 22));
    assert(has_divisor_from(899, 21));
    assert(has_divisor_from(899, 20));
    assert(has_divisor_from(899, 19));
    assert(has_divisor_from(899, 18));
    assert(has_divisor_from(899, 17));
    assert(has_divisor_from(899, 16));
    assert(has_divisor_from(899, 15));
    assert(has_divisor_from(899, 14));
    assert(has_divisor_from(899, 13));
    assert(has_divisor_from(899, 12));
    assert(has_divisor_from(899, 11));
    assert(has_divisor_from(899, 10));
    assert(has_divisor_from(899, 9));
    assert(has_divisor_from(899, 8));
    assert(has_divisor_from(899, 7));
    assert(has_divisor_from(899, 6));
    assert(has_divisor_from(899, 5));
    assert(has_divisor_from(899, 4));
    assert(has_divisor_from(899, 3));
    assert(has_divisor_from(899, 2));
    assert(count_by_division(899) == 154);
    assert(has_divisor_from(900, 2));
    assert(count_by_division(900) == 154);
}

/// Trial division up to 1000.
proof fn lemma_count_1000()
    requires count_by_division(900) == 154,
    ensures count_by_division(1000) == 168,
{
    assert(has_divisor_from(901, 17));
    assert(has_divisor_from(901, 16));
    assert(has_divisor_from(901, 15));
    assert(has_divisor_from(901, 14));
    assert(has_divisor_from(901, 13));
    assert(has_divisor_from(901, 12));
    assert(has_divisor_from(901, 11));
    assert(has_divisor_from(901, 10));
    assert(has_divisor_from(901, 9));
    assert(has_divisor_from(901, 8));
    assert(has_divisor_from(901, 7));
    assert(has_divisor_from(901, 6));
    assert(has_divisor_from(901, 5));
    assert(has_divisor_from(901, 4));
    assert(has_divisor_from(901, 3));
    assert(has_divisor_from(901, 2));
    assert(count_by_division(901) == 154);
    assert(has_divisor_from(902, 2));
    assert(count_by_division(902) == 154);
    assert(has_divisor_from(903, 3));
    assert(has_divisor_from(903, 2));
    assert(count_by_division(903) == 154);
    assert(has_divisor_from(904, 2));
    assert(count_by_division(904) == 154);
    assert(has_divisor_from(905, 5));
    assert(has_divisor_from(905, 4));
    assert(has_divisor_from(905, 3));
    assert(has_divisor_from(905, 2));
    assert(count_by_division(905) == 154);
    assert(has_divisor_from(906, 2));
    assert(count_by_division(906) == 154);
    assert(!has_divisor_from(907, 31));
    assert(!has_divisor_from(907, 30));
    assert(!has_divisor_from(907, 29));
    assert(!has_divisor_from(907, 28));
    assert(!has_divisor_from(907, 27));
    assert(!has_divisor_from(907, 26));
    assert(!has_divisor_from(907, 25));
    assert(!has_divisor_from(907, 24));
    assert(!has_divisor_from(907, 23));
    assert(!has_divisor_from(907, 22));
    assert(!has_divisor_from(907, 21));
    assert(!has_divisor_from(907, 20));
    assert(!has_divisor_from(907, 19));
    assert(!has_divisor_from(907, 18));
    assert(!has_divisor_from(907, 17));
    assert(!has_divisor_from(907, 16));
    assert(!has_divisor_from(907, 15));
    assert(!has_divisor_from(907, 14));
    assert(!has_divisor_from(907, 13));
    assert(!has_divisor_from(907, 12));
    assert(!has_divisor_from(907, 11));
    assert(!has_divisor_from(907, 10));
    assert(!has_divisor_from(907, 9));
    assert(!has_divisor_from(907, 8));
    assert(!has_divisor_from(907, 7));
    assert(!has_divisor_from(907, 6));
    assert(!has_divisor_from(907, 5));
    assert(!has_divisor_from(907, 4));
    assert(!has_divisor_from(907, 3));
    assert(!has_divisor_from(907, 2));
    assert(count_by_division(907) == 155);
    assert(has_divisor_from(908, 2));
    assert(count_by_division(908) == 155);
    assert(has_divisor_from(909, 3));
    assert(has_divisor_from(909, 2));
    assert(count_by_division(909) == 155);
    assert(has_divisor_from(910, 2));
    assert(count_by_division(910) == 155);
    assert(!has_divisor_from(911, 31));
    assert(!has_divisor_from(911, 30));
    assert(!has_divisor_from(911, 29));
    assert(!has_divisor_from(911, 28));
    assert(!has_divisor_from(911, 27));
    assert(!has_divisor_from(911, 26));
    assert(!has_divisor_from(911, 25));
    assert(!has_divisor_from(911, 24));
    assert(!has_divisor_from(911, 23));
    assert(!has_divisor_from(911, 22));
    assert(!has_divisor_from(911, 21));
    assert(!has_divisor_from(911, 20));
    assert(!has_divisor_from(911, 19));
    assert(!has_divisor_from(911, 18));
    assert(!has_divisor_from(911, 17));
    assert(!has_divisor_from(911, 16));
    assert(!has_divisor_from(911, 15));
    assert(!has_divisor_from(911, 14));
    assert(!has_divisor_from(911, 13));
    assert(!has_divisor_from(911, 12));
    assert(!has_divisor_from(911, 11));
    assert(!has_divisor_from(911, 10));
    assert(!has_divisor_from(911, 9));
    assert(!has_divisor_from(911, 8));
    assert(!has_divisor_from(911, 7));
    assert(!has_divisor_from(911, 6));
    assert(!has_divisor_from(911, 5));
    assert(!has_divisor_from(911, 4));
    assert(!has_divisor_from(911, 3));
    assert(!has_divisor_from(911, 2));
    assert(count_by_division(911) == 156);
    assert(has_divisor_from(912, 2));
    assert(count_by_division(912) == 156);
    assert(has_divisor_from(913, 11));
    assert(has_divisor_from(913, 10));
    assert(has_divisor_from(913, 9));
    assert(has_divisor_from(913, 8));
    assert(has_divisor_from(913, 7));
    assert(has_divisor_from(913, 6));
    assert(has_divisor_from(913, 5));
    assert(has_divisor_from(913, 4));
    assert(has_divisor_from(913, 3));
    assert(has_divisor_from(913, 2));
    assert(count_by_division(913) == 156);
    assert(has_divisor_from(914, 2));
    assert(count_by_division(914) == 156);
    assert(has_divisor_from(915, 3));
    assert(has_divisor_from(915, 2));
    assert(count_by_division(915) == 156);
    assert(has_divisor_from(916, 2));
    assert(count_by_division(916) == 156);
    assert(has_divisor_from(917, 7));
    assert(has_divisor_from(917, 6));
    assert(has_divisor_from(917, 5));
    assert(has_divisor_from(917, 4));
    assert(has_divisor_from(917, 3));
    assert(has_divisor_from(917, 2));
    assert(count_by_division(917) == 156);
    assert(has_divisor_from(918, 2));
    assert(count_by_division(918) == 156);
    assert(!has_divisor_from(919, 31));
    assert(!has_divisor_from(919, 30));
    assert(!has_divisor_from(919, 29));
    assert(!has_divisor_from(919, 28));
    assert(!has_divisor_from(919, 27));
    assert(!has_divisor_from(919, 26));
    assert(!has_divisor_from(919, 25));
    assert(!has_divisor_from(919, 24));
    assert(!has_divisor_from(919, 23));
    assert(!has_divisor_from(919, 22));
    assert(!has_divisor_from(919, 21));
    assert(!has_divisor_from(919, 20));
    assert(!has_divisor_from(919, 19));
    assert(!has_divisor_from(919, 18));
    assert(!has_divisor_from(919, 17));
    assert(!has_divisor_from(919, 16));
    assert(!has_divisor_from(919, 15));
    assert(!has_divisor_from(919, 14));
    assert(!has_divisor_from(919, 13));
    assert(!has_divisor_from(919, 12));
    assert(!has_divisor_from(919, 11));
    assert(!has_divisor_from(919, 10));
    assert(!has_divisor_from(919, 9));
    assert(!has_divisor_from(919, 8));
    assert(!has_divisor_from(919, 7));
    assert(!has_divisor_from(919, 6));
    assert(!has_divisor_from(919, 5));
    assert(!has_divisor_from(919, 4));
    assert(!has_divisor_from(919, 3));
    assert(!has_divisor_from(919, 2));
    assert(count_by_division(919) == 157);
    assert(has_divisor_from(920, 2));
    assert(count_by_division(920) == 157);
    assert(has_divisor_from(921, 3));
    assert(has_divisor_from(921, 2));
    assert(count_by_division(921) == 157);
    assert(has_divisor_from(922, 2));
    assert(count_by_division(922) == 157);
    assert(has_divisor_from(923, 13));
    assert(has_divisor_from(923, 12));
    assert(has_divisor_from(923, 11));
    assert(has_divisor_from(923, 10));
    assert(has_divisor_from(923, 9));
    assert(has_divisor_from(923, 8));
    assert(has_divisor_from(923, 7));
    assert(has_divisor_from(923, 6));
    assert(has_divisor_from(923, 5));
    assert(has_divisor_from(923, 4));
    assert(has_divisor_from(923, 3));
    assert(has_divisor_from(923, 2));
    assert(count_by_division(923) == 157);
    assert(has_divisor_from(924, 2));
    assert(count_by_division(924) == 157);
    assert(has_divisor_from(925, 5));
    assert(has_divisor_from(925, 4));
    assert(has_divisor_from(925, 3));
    assert(has_divisor_from(925, 2));
    assert(count_by_division(925) == 157);
    assert(has_divisor_from(926, 2));
    assert(count_by_division(926) == 157);
    assert(has_divisor_from(927, 3));
    assert(has_divisor_from(927, 2));
    assert(count_by_division(927) == 157);
    assert(has_divisor_from(928, 2));
    assert(count_by_division(928) == 157);
    assert(!has_divisor_from(929, 31));
    assert(!has_divisor_from(929, 30));
    assert(!has_divisor_from(929, 29));
    assert(!has_divisor_from(929, 28));
    assert(!has_divisor_from(929, 27));
    assert(!has_divisor_from(929, 26));
    assert(!has_divisor_from(929, 25));
    assert(!has_divisor_from(929, 24));
    assert(!has_divisor_from(929, 23));
    assert(!has_divisor_from(929, 22));
    assert(!has_divisor_from(929, 21));
    assert(!has_divisor_from(929, 20));
    assert(!has_divisor_from(929, 19));
    assert(!has_divisor_from(929, 18));
    assert(!has_divisor_from(929, 17));
    assert(!has_divisor_from(929, 16));
    assert(!has_divisor_from(929, 15));
    assert(!has_divisor_from(929, 14));
    assert(!has_divisor_from(929, 13));
    assert(!has_divisor_from(929, 12));
    assert(!has_divisor_from(929, 11));
    assert(!has_divisor_from(929, 10));
    assert(!has_divisor_from(929, 9));
    assert(!has_divisor_from(929, 8));
    assert(!has_divisor_from(929, 7));
    assert(!has_divisor_from(929, 6));
    assert(!has_divisor_from(929, 5));
    assert(!has_divisor_from(929, 4));
    assert(!has_divisor_from(929, 3));
    assert(!has_divisor_from(929, 2));
    assert(count_by_division(929) == 158);
    assert(has_divisor_from(930, 2));
    assert(count_by_division(930) == 158);
    assert(has_divisor_from(931, 7));
    assert(has_divisor_from(931, 6));
    assert(has_divisor_from(931, 5));
    assert(has_divisor_from(931, 4));
    assert(has_divisor_from(931, 3));
    assert(has_divisor_from(931, 2));
    assert(count_by_division(931) == 158);
    assert(has_divisor_from(932, 2));
    assert(count_by_division(932) == 158);
    assert(has_divisor_from(933, 3));
    assert(has_divisor_from(933, 2));
    assert(count_by_division(933) == 158);
    assert(has_divisor_from(934, 2));
    assert(count_by_division(934) == 158);
    assert(has_divisor_from(935, 5));
    assert(has_divisor_from(935, 4));
    assert(has_divisor_from(935, 3));
    assert(has_divisor_from(935, 2));
    assert(count_by_division(935) == 158);
    assert(has_divisor_from(936, 2));
    assert(count_by_division(936) == 158);
    assert(!has_divisor_from(937, 31));
    assert(!has_divisor_from(937, 30));
    assert(!has_divisor_from(937, 29));
    assert(!has_divisor_from(937, 28));
    assert(!has_divisor_from(937, 27));
    assert(!has_divisor_from(937, 26));
    assert(!has_divisor_from(937, 25));
    assert(!has_divisor_from(937, 24));
    assert(!has_divisor_from(937, 23));
    assert(!has_divisor_from(937, 22));
    assert(!has_divisor_from(937, 21));
    assert(!has_divisor_from(937, 20));
    assert(!has_divisor_from(937, 19));
    assert(!has_divisor_from(937, 18));
    assert(!has_divisor_from(937, 17));
    assert(!has_divisor_from(937, 16));
    assert(!has_divisor_from(937, 15));
    assert(!has_divisor_from(937, 14));
    assert(!has_divisor_from(937, 13));
    assert(!has_divisor_from(937, 12));
    assert(!has_divisor_from(937, 11));
    assert(!has_divisor_from(937, 10));
    assert(!has_divisor_from(937, 9));
    assert(!has_divisor_from(937, 8));
    assert(!has_divisor_from(937, 7));
    assert(!has_divisor_from(937, 6));
    assert(!has_divisor_from(937, 5));
    assert(!has_divisor_from(937, 4));
    assert(!has_divisor_from(937, 3));
    assert(!has_divisor_from(937, 2));
    assert(count_by_division(937) == 159);
    assert(has_divisor_from(938, 2));
    assert(count_by_division(938) == 159);
    assert(has_divisor_from(939, 3));
    assert(has_divisor_from(939, 2));
    assert(count_by_division(939) == 159);
    assert(has_divisor_from(940, 2));
    assert(count_by_division(940) == 159);
    assert(!has_divisor_from(941, 31));
    assert(!has_divisor_from(941, 30));
    assert(!has_divisor_from(941, 29));
    assert(!has_divisor_from(941, 28));
    assert(!has_divisor_from(941, 27));
    assert(!has_divisor_from(941, 26));
    assert(!has_divisor_from(941, 25));
    assert(!has_divisor_from(941, 24));
    assert(!has_divisor_from(941, 23));
    assert(!has_divisor_from(941, 22));
    assert(!has_divisor_from(941, 21));
    assert(!has_divisor_from(941, 20));
    assert(!has_divisor_from(941, 19));
    assert(!has_divisor_from(941, 18));
    assert(!has_divisor_from(941, 17));
    assert(!has_divisor_from(941, 16));
    assert(!has_divisor_from(941, 15));
    assert(!has_divisor_from(941, 14));
    assert(!has_divisor_from(941, 13));
    assert(!has_divisor_from(941, 12));
    assert(!has_divisor_from(941, 11));
    assert(!has_divisor_from(941, 10));
    assert(!has_divisor_from(941, 9));
    assert(!has_divisor_from(941, 8));
    assert(!has_divisor_from(941, 7));
    assert(!has_divisor_from(941, 6));
    assert(!has_divisor_from(941, 5));
    assert(!has_divisor_from(941, 4));
    assert(!has_divisor_from(941, 3));
    assert(!has_divisor_from(941, 2));
    assert(count_by_division(941) == 160);
    assert(has_divisor_from(942, 2));
    assert(count_by_division(942) == 160);
    assert(has_divisor_from(943, 23));
    assert(has_divisor_from(943, 22));
    assert(has_divisor_from(943, 21));
    assert(has_divisor_from(943, 20));
    assert(has_divisor_from(943, 19));
    assert(has_divisor_from(943, 18));
    assert(has_divisor_from(943, 17));
    assert(has_divisor_from(943, 16));
    assert(has_divisor_from(943, 15));
    assert(has_divisor_from(943, 14));
    assert(has_divisor_from(943, 13));
    assert(has_divisor_from(943, 12));
    assert(has_divisor_from(943, 11));
    assert(has_divisor_from(943, 10));
    assert(has_divisor_from(943, 9));
    assert(has_divisor_from(943, 8));
    assert(has_divisor_from(943, 7));
    assert(has_divisor_from(943, 6));
    assert(has_divisor_from(943, 5));
    assert(has_divisor_from(943, 4));
    assert(has_divisor_from(943, 3));
    assert(has_divisor_from(943, 2));
    assert(count_by_division(943) == 160);
    assert(has_divisor_from(944, 2));
    assert(count_by_division(944) == 160);
    assert(has_divisor_from(945, 3));
    assert(has_divisor_from(945, 2));
    assert(count_by_division(945) == 160);
    assert(has_divisor_from(946, 2));
    assert(count_by_division(946) == 160);
    assert(!has_divisor_from(947, 31));
    assert(!has_divisor_from(947, 30));
    assert(!has_divisor_from(947, 29));
    assert(!has_divisor_from(947, 28));
    assert(!has_divisor_from(947, 27));
    assert(!has_divisor_from(947, 26));
    assert(!has_divisor_from(947, 25));
    assert(!has_divisor_from(947, 24));
    assert(!has_divisor_from(947, 23));
    assert(!has_divisor_from(947, 22));
    assert(!has_divisor_from(947, 21));
    assert(!has_divisor_from(947, 20));
    assert(!has_divisor_from(947, 19));
    assert(!has_divisor_from(947, 18));
    assert(!has_divisor_from(947, 17));
    assert(!has_divisor_from(947, 16));
    assert(!has_divisor_from(947, 15));
    assert(!has_divisor_from(947, 14));
    assert(!has_divisor_from(947, 13));
    assert(!has_divisor_from(947, 12));
    assert(!has_divisor_from(947, 11));
    assert(!has_divisor_from(947, 10));
    assert(!has_divisor_from(947, 9));
    assert(!has_divisor_from(947, 8));
    assert(!has_divisor_from(947, 7));
    assert(!has_divisor_from(947, 6));
    assert(!has_divisor_from(947, 5));
    assert(!has_divisor_from(947, 4));
    assert(!has_divisor_from(947, 3));
    assert(!has_divisor_from(947, 2));
    assert(count_by_division(947) == 161);
    assert(has_divisor_from(948, 2));
    assert(count_by_division(948) == 161);
    assert(has_divisor_from(949, 13));
    assert(has_divisor_from(949, 12));
    assert(has_divisor_from(949, 11));
    assert(has_divisor_from(949, 10));
    assert(has_divisor_from(949, 9));
    assert(has_divisor_from(949, 8));
    assert(has_divisor_from(949, 7));
    assert(has_divisor_from(949, 6));
    assert(has_divisor_from(949, 5));
    assert(has_divisor_from(949, 4));
    assert(has_divisor_from(949, 3));
    assert(has_divisor_from(949, 2));
    assert(count_by_division(949) == 161);
    assert(has_divisor_from(950, 2));
    assert(count_by_division(950) == 161);
    assert(has_divisor_from(951, 3));
    assert(has_divisor_from(951, 2));
    assert(count_by_division(951) == 161);
    assert(has_divisor_from(952, 2));
    assert(count_by_division(952) == 161);
    assert(!has_divisor_from(953, 31));
    assert(!has_divisor_from(953, 30));
    assert(!has_divisor_from(953, 29));
    assert(!has_divisor_from(953, 28));
    assert(!has_divisor_from(953, 27));
    assert(!has_divisor_from(953, 26));
    assert(!has_divisor_from(953, 25));
    assert(!has_divisor_from(953, 24));
    assert(!has_divisor_from(953, 23));
    assert(!has_divisor_from(953, 22));
    assert(!has_divisor_from(953, 21));
    assert(!has_divisor_from(953, 20));
    assert(!has_divisor_from(953, 19));
    assert(!has_divisor_from(953, 18));
    assert(!has_divisor_from(953, 17));
    assert(!has_divisor_from(953, 16));
    assert(!has_divisor_from(953, 15));
    assert(!has_divisor_from(953, 14));
    assert(!has_divisor_from(953, 13));
    assert(!has_divisor_from(953, 12));
    assert(!has_divisor_from(953, 11));
    assert(!has_divisor_from(953, 10));
    assert(!has_divisor_from(953, 9));
    assert(!has_divisor_from(953, 8));
    assert(!has_divisor_from(953, 7));
    assert(!has_divisor_from(953, 6));
    assert(!has_divisor_from(953, 5));
    assert(!has_divisor_from(953, 4));
    assert(!has_divisor_from(953, 3));
    assert(!has_divisor_from(953, 2));
    assert(count_by_division(953) == 162);
    assert(has_divisor_from(954, 2));
    assert(count_by_division(954) == 162);
    assert(has_divisor_from(955, 5));
    assert(has_divisor_from(955, 4));
    assert(has_divisor_from(955, 3));
    assert(has_divisor_from(955, 2));
    assert(count_by_division(955) == 162);
    assert(has_divisor_from(956, 2));
    assert(count_by_division(956) == 162);
    assert(has_divisor_from(957, 3));
    assert(has_divisor_from(957, 2));
    assert(count_by_division(957) == 162);
    assert(has_divisor_from(958, 2));
    assert(count_by_division(958) == 162);
    assert(has_divisor_from(959, 7));
    assert(has_divisor_from(959, 6));
    assert(has_divisor_from(959, 5));
    assert(has_divisor_from(959, 4));
    assert(has_divisor_from(959, 3));
    assert(has_divisor_from(959, 2));
    assert(count_by_division(959) == 162);
    assert(has_divisor_from(960, 2));
    assert(count_by_division(960) == 162);
    assert(has_divisor_from(961, 31));
    assert(has_divisor_from(961, 30));
    assert(has_divisor_from(961, 29));
    assert(has_divisor_from(961, 28));
    assert(has_divisor_from(961, 27));
    assert(has_divisor_from(961, 26));
    assert(has_divisor_from(961, 25));
    assert(has_divisor_from(961, 24));
    assert(has_divisor_from(961, 23));
    assert(has_divisor_from(961, 22));
    assert(has_divisor_from(961, 21));
    assert(has_divisor_from(961, 20));
    assert(has_divisor_from(961, 19));
    assert(has_divisor_from(961, 18));
    assert(has_divisor_from(961, 17));
    assert(has_divisor_from(961, 16));
    assert(has_divisor_from(961, 15));
    assert(has_divisor_from(961, 14));
    assert(has_divisor_from(961, 13));
    assert(has_divisor_from(961, 12));
    assert(has_divisor_from(961, 11));
    assert(has_divisor_from(961, 10));
    assert(has_divisor_from(961, 9));
    assert(has_divisor_from(961, 8));
    assert(has_divisor_from(961, 7));
    assert(has_divisor_from(961, 6));
    assert(has_divisor_from(961, 5));
    assert(has_divisor_from(961, 4));
    assert(has_divisor_from(961, 3));
    assert(has_divisor_from(961, 2));
    assert(count_by_division(961) == 162);
    assert(has_divisor_from(962, 2));
    assert(count_by_division(962) == 162);
    assert(has_divisor_from(963, 3));
    assert(has_divisor_from(963, 2));
    assert(count_by_division(963) == 162);
    assert(has_divisor_from(964, 2));
    assert(count_by_division(964) == 162);
    assert(has_divisor_from(965, 5));
    assert(has_divisor_from(965, 4));
    assert(has_divisor_from(965, 3));
    assert(has_divisor_from(965, 2));
    assert(count_by_division(965) == 162);
    assert(has_divisor_from(966, 2));
    assert(count_by_division(966) == 162);
    assert(!has_divisor_from(967, 32));
    assert(!has_divisor_from(967, 31));
    assert(!has_divisor_from(967, 30));
    assert(!has_divisor_from(967, 29));
    assert(!has_divisor_from(967, 28));
    assert(!has_divisor_from(967, 27));
    assert(!has_divisor_from(967, 26));
    assert(!has_divisor_from(967, 25));
    assert(!has_divisor_from(967, 24));
    assert(!has_divisor_from(967, 23));
    assert(!has_divisor_from(967, 22));
    assert(!has_divisor_from(967, 21));
    assert(!has_divisor_from(967, 20));
    assert(!has_divisor_from(967, 19));
    assert(!has_divisor_from(967, 18));
    assert(!has_divisor_from(967, 17));
    assert(!has_divisor_from(967, 16));
    assert(!has_divisor_from(967, 15));
    assert(!has_divisor_from(967, 14));
    assert(!has_divisor_from(967, 13));
    assert(!has_divisor_from(967, 12));
    assert(!has_divisor_from(967, 11));
    assert(!has_divisor_from(967, 10));
    assert(!has_divisor_from(967, 9));
    assert(!has_divisor_from(967, 8));
    assert(!has_divisor_from(967, 7));
    assert(!has_divisor_from(967, 6));
    assert(!has_divisor_from(967, 5));
    assert(!has_divisor_from(967, 4));
    assert(!has_divisor_from(967, 3));
    assert(!has_divisor_from(967, 2));
    assert(count_by_division(967) == 163);
    assert(has_divisor_from(968, 2));
    assert(count_by_division(968) == 163);
    assert(has_divisor_from(969, 3));
    assert(has_divisor_from(969, 2));
    assert(count_by_division(969) == 163);
    assert(has_divisor_from(970, 2));
    assert(count_by_division(970) == 163);
    assert(!has_divisor_from(971, 32));
    assert(!has_divisor_from(971, 31));
    assert(!has_divisor_from(971, 30));
    assert(!has_divisor_from(971, 29));
    assert(!has_divisor_from(971, 28));
    assert(!has_divisor_from(971, 27));
    assert(!has_divisor_from(971, 26));
    assert(!has_divisor_from(971, 25));
    assert(!has_divisor_from(971, 24));
    assert(!has_divisor_from(971, 23));
    assert(!has_divisor_from(971, 22));
    assert(!has_divisor_from(971, 21));
    assert(!has_divisor_from(971, 20));
    assert(!has_divisor_from(971, 19));
    assert(!has_divisor_from(971, 18));
    assert(!has_divisor_from(971, 17));
    assert(!has_divisor_from(971, 16));
    assert(!has_divisor_from(971, 15));
    assert(!has_divisor_from(971, 14));
    assert(!has_divisor_from(971, 13));
    assert(!has_divisor_from(971, 12));
    assert(!has_divisor_from(971, 11));
    assert(!has_divisor_from(971, 10));
    assert(!has_divisor_from(971, 9));
    assert(!has_divisor_from(971, 8));
    assert(!has_divisor_from(971, 7));
    assert(!has_divisor_from(971, 6));
    assert(!has_divisor_from(971, 5));
    assert(!has_divisor_from(971, 4));
    assert(!has_divisor_from(971, 3));
    assert(!has_divisor_from(971, 2));
    assert(count_by_division(971) == 164);
    assert(has_divisor_from(972, 2));
    assert(count_by_division(972) == 164);
    assert(has_divisor_from(973, 7));
    assert(has_divisor_from(973, 6));
    assert(has_divisor_from(973, 5));
    assert(has_divisor_from(973, 4));
    assert(has_divisor_from(973, 3));
    assert(has_divisor_from(973, 2));
    assert(count_by_division(973) == 164);
    assert(has_divisor_from(974, 2));
    assert(count_by_division(974) == 164);
    assert(has_divisor_from(975, 3));
    assert(has_divisor_from(975, 2));
    assert(count_by_division(975) == 164);
    assert(has_divisor_from(976, 2));
    assert(count_by_division(976) == 164);
    assert(!has_divisor_from(977, 32));
    assert(!has_divisor_from(977, 31));
    assert(!has_divisor_from(977, 30));
    assert(!has_divisor_from(977, 29));
    assert(!has_divisor_from(977, 28));
    assert(!has_divisor_from(977, 27));
    assert(!has_divisor_from(977, 26));
    assert(!has_divisor_from(977, 25));
    assert(!has_divisor_from(977, 24));
    assert(!has_divisor_from(977, 23));
    assert(!has_divisor_from(977, 22));
    assert(!has_divisor_from(977, 21));
    assert(!has_divisor_from(977, 20));
    assert(!has_divisor_from(977, 19));
    assert(!has_divisor_from(977, 18));
    assert(!has_divisor_from(977, 17));
    assert(!has_divisor_from(977, 16));
    assert(!has_divisor_from(977, 15));
    assert(!has_divisor_from(977, 14));
    assert(!has_divisor_from(977, 13));
    assert(!has_divisor_from(977, 12));
    assert(!has_divisor_from(977, 11));
    assert(!has_divisor_from(977, 10));
    assert(!has_divisor_from(977, 9));
    assert(!has_divisor_from(977, 8));
    assert(!has_divisor_from(977, 7));
    assert(!has_divisor_from(977, 6));
    assert(!has_divisor_from(977, 5));
    assert(!has_divisor_from(977, 4));
    assert(!has_divisor_from(977, 3));
    assert(!has_divisor_from(977, 2));
    assert(count_by_division(977) == 165);
    assert(has_divisor_from(978, 2));
    assert(count_by_division(978) == 165);
    assert(has_divisor_from(979, 11));
    assert(has_divisor_from(979, 10));
    assert(has_divisor_from(979, 9));
    assert(has_divisor_from(979, 8));
    assert(has_divisor_from(979, 7));
    assert(has_divisor_from(979, 6));
    assert(has_divisor_from(979, 5));
    assert(has_divisor_from(979, 4));
    assert(has_divisor_from(979, 3));
    assert(has_divisor_from(979, 2));
    assert(count_by_division(979) == 165);
    assert(has_divisor_from(980, 2));
    assert(count_by_division(980) == 165);
    assert(has_divisor_from(981, 3));
    assert(has_divisor_from(981, 2));
    assert(count_by_division(981) == 165);
    assert(has_divisor_from(982, 2));
    assert(count_by_division(982) == 165);
    assert(!has_divisor_from(983, 32));
    assert(!has_divisor_from(983, 31));
    assert(!has_divisor_from(983, 30));
    assert(!has_divisor_from(983, 29));
    assert(!has_divisor_from(983, 28));
    assert(!has_divisor_from(983, 27));
    assert(!has_divisor_from(983, 26));
    assert(!has_divisor_from(983, 25));
    assert(!has_divisor_from(983, 24));
    assert(!has_divisor_from(983, 23));
    assert(!has_divisor_from(983, 22));
    assert(!has_divisor_from(983, 21));
    assert(!has_divisor_from(983, 20));
    assert(!has_divisor_from(983, 19));
    assert(!has_divisor_from(983, 18));
    assert(!has_divisor_from(983, 17));
    assert(!has_divisor_from(983, 16));
    assert(!has_divisor_from(983, 15));
    assert(!has_divisor_from(983, 14));
    assert(!has_divisor_from(983, 13));
    assert(!has_divisor_from(983, 12));
    assert(!has_divisor_from(983, 11));
    assert(!has_divisor_from(983, 10));
    assert(!has_divisor_from(983, 9));
    assert(!has_divisor_from(983, 8));
    assert(!has_divisor_from(983, 7));
    assert(!has_divisor_from(983, 6));
    assert(!has_divisor_from(983, 5));
    assert(!has_divisor_from(983, 4));
    assert(!has_divisor_from(983, 3));
    assert(!has_divisor_from(983, 2));
    assert(count_by_division(983) == 166);
    assert(has_divisor_from(984, 2));
    assert(count_by_division(984) == 166);
    assert(has_divisor_from(985, 5));
    assert(has_divisor_from(985, 4));
    assert(has_divisor_from(985, 3));
    assert(has_divisor_from(985, 2));
    assert(count_by_division(985) == 166);
    assert(has_divisor_from(986, 2));
    assert(count_by_division(986) == 166);
    assert(has_divisor_from(987, 3));
    assert(has_divisor_from(987, 2));
    assert(count_by_division(987) == 166);
    assert(has_divisor_from(988, 2));
    assert(count_by_division(988) == 166);
    assert(has_divisor_from(989, 23));
    assert(has_divisor_from(989, 22));
    assert(has_divisor_from(989, 21));
    assert(has_divisor_from(989, 20));
    assert(has_divisor_from(989, 19));
    assert(has_divisor_from(989, 18));
    assert(has_divisor_from(989, 17));
    assert(has_divisor_from(989, 16));
    assert(has_divisor_from(989, 15));
    assert(has_divisor_from(989, 14));
    assert(has_divisor_from(989, 13));
    assert(has_divisor_from(989, 12));
    assert(has_divisor_from(989, 11));
    assert(has_divisor_from(989, 10));
    assert(has_divisor_from(989, 9));
    assert(has_divisor_from(989, 8));
    assert(has_divisor_from(989, 7));
    assert(has_divisor_from(989, 6));
    assert(has_divisor_from(989, 5));
    assert(has_divisor_from(989, 4));
    assert(has_divisor_from(989, 3));
    assert(has_divisor_from(989, 2));
    assert(count_by_division(989) == 166);
    assert(has_divisor_from(990, 2));
    assert(count_by_division(990) == 166);
    assert(!has_divisor_from(991, 32));
    assert(!has_divisor_from(991, 31));
    assert(!has_divisor_from(991, 30));
    assert(!has_divisor_from(991, 29));
    assert(!has_divisor_from(991, 28));
    assert(!has_divisor_from(991, 27));
    assert(!has_divisor_from(991, 26));
    assert(!has_divisor_from(991, 25));
    assert(!has_divisor_from(991, 24));
    assert(!has_divisor_from(991, 23));
    assert(!has_divisor_from(991, 22));
    assert(!has_divisor_from(991, 21));
    assert(!has_divisor_from(991, 20));
    assert(!has_divisor_from(991, 19));
    assert(!has_divisor_from(991, 18));
    assert(!has_divisor_from(991, 17));
    assert(!has_divisor_from(991, 16));
    assert(!has_divisor_from(991, 15));
    assert(!has_divisor_from(991, 14));
    assert(!has_divisor_from(991, 13));
    assert(!has_divisor_from(991, 12));
    assert(!has_divisor_from(991, 11));
    assert(!has_divisor_from(991, 10));
    assert(!has_divisor_from(991, 9));
    assert(!has_divisor_from(991, 8));
    assert(!has_divisor_from(991, 7));
    assert(!has_divisor_from(991, 6));
    assert(!has_divisor_from(991, 5));
    assert(!has_divisor_from(991, 4));
    assert(!has_divisor_from(991, 3));
    assert(!has_divisor_from(991, 2));
    assert(count_by_division(991) == 167);
    assert(has_divisor_from(992, 2));
    assert(count_by_division(992) == 167);
    assert(has_divisor_from(993, 3));
    assert(has_divisor_from(993, 2));
    assert(count_by_division(993) == 167);
    assert(has_divisor_from(994, 2));
    assert(count_by_division(994) == 167);
    assert(has_divisor_from(995, 5));
    assert(has_divisor_from(995, 4));
    assert(has_divisor_from(995, 3));
    assert(has_divisor_from(995, 2));
    assert(count_by_division(995) == 167);
    assert(has_divisor_from(996, 2));
    assert(count_by_division(996) == 167);
    assert(!has_divisor_from(997, 32));
    assert(!has_divisor_from(997, 31));
    assert(!has_divisor_from(997, 30));
    assert(!has_divisor_from(997, 29));
    assert(!has_divisor_from(997, 28));
    assert(!has_divisor_from(997, 27));
    assert(!has_divisor_from(997, 26));
    assert(!has_divisor_from(997, 25));
    assert(!has_divisor_from(997, 24));
    assert(!has_divisor_from(997, 23));
    assert(!has_divisor_from(997, 22));
    assert(!has_divisor_from(997, 21));
    assert(!has_divisor_from(997, 20));
    assert(!has_divisor_from(997, 19));
    assert(!has_divisor_from(997, 18));
    assert(!has_divisor_from(997, 17));
    assert(!has_divisor_from(997, 16));
    assert(!has_divisor_from(997, 15));
    assert(!has_divisor_from(997, 14));
    assert(!has_divisor_from(997, 13));
    assert(!has_divisor_from(997, 12));
    assert(!has_divisor_from(997, 11));
    assert(!has_divisor_from(997, 10));
    assert(!has_divisor_from(997, 9));
    assert(!has_divisor_from(997, 8));
    assert(!has_divisor_from(997, 7));
    assert(!has_divisor_from(997, 6));
    assert(!has_divisor_from(997, 5));
    assert(!has_divisor_from(997, 4));
    assert(!has_divisor_from(997, 3));
    assert(!has_divisor_from(997, 2));
    assert(count_by_division(997) == 168);
    assert(has_divisor_from(998, 2));
    assert(count_by_division(998) == 168);
    assert(has_divisor_from(999, 3));
    assert(has_divisor_from(999, 2));
    assert(count_by_division(999) == 168);
    assert(has_divisor_from(1000, 2));
    assert(count_by_division(1000) == 168);
}

/// The published prime counts that the table holds for the small limits are the
/// numbers of primes up to those limits, so checks against them never reject a
/// correct count: for 10, 100 and 1000, a table entry is the prime count.
pub proof fn law_small_known_counts_are_prime_counts(limit: u64)
    requires
        limit <= 1000,
    ensures
        spec_known_pi(limit) is Some ==> spec_known_pi(limit)->0 == prime_count(limit as int),
{
    if spec_known_pi(limit) is Some {
        lemma_count_by_division(limit as nat);
        lemma_count_100();
        lemma_count_200();
        lemma_count_300();
        lemma_count_400();
        lemma_count_500();
        lemma_count_600();
        lemma_count_700();
        lemma_count_800();
        lemma_count_900();
        lemma_count_1000();
    }
}

} // verus!
