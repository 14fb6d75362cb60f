use fleetbench::sieve::{
    check_prime_count, chunk_bounds, count_primes_between, known_pi, segmented_sieve_count, simple_sieve,
    total_count, SEGMENT_SIZE,
};

#[test]
fn both_sieves_agree() {
    for &n in &[0u64, 1, 2, 3, 97, 1_000, 65_536, 65_537, 100_003] {
        assert_eq!(simple_sieve(n).len() as u64, segmented_sieve_count(n), "pi({n})");
    }
}

#[test]
fn segment_edges_are_counted_once() {
    let seg = SEGMENT_SIZE as u64;
    // the segments start at 2, so a segment ends at seg + 1
    for &n in &[seg, seg + 1, seg + 2, 2 * seg + 1, 2 * seg + 2] {
        assert_eq!(segmented_sieve_count(n), simple_sieve(n).len() as u64, "pi({n})");
    }
}

#[test]
fn primes_between_bounds() {
    assert_eq!(count_primes_between(2, 10), 4);
    assert_eq!(count_primes_between(10, 20), 4);
    assert_eq!(count_primes_between(11, 11), 1);
    assert_eq!(count_primes_between(12, 12), 0);
    assert_eq!(count_primes_between(20, 10), 0);
    assert_eq!(count_primes_between(100_001, 200_000), 17_984 - 9_592);
}

#[test]
fn chunk_bounds_split_the_range_evenly() {
    assert_eq!(chunk_bounds(100, 4), vec![1, 25, 50, 75, 100]);
    assert_eq!(chunk_bounds(10, 1), vec![1, 10]);
    assert_eq!(chunk_bounds(3, 4), vec![1, 1, 2, 2, 3]);
    assert_eq!(chunk_bounds(1, 3), vec![1, 1, 1, 1]);
    assert_eq!(chunk_bounds(u64::MAX - 0x2_0000_0000, 2).last().copied(), Some(u64::MAX - 0x2_0000_0000));
}

#[test]
fn chunked_counts_add_up_to_pi() {
    for &(limit, parts) in &[(1_000_000u64, 7u32), (100, 3), (2, 5), (1, 2), (10_000_000, 16)] {
        let b = chunk_bounds(limit, parts);
        let counts: Vec<u64> = b.windows(2).map(|w| count_primes_between(w[0] + 1, w[1])).collect();
        assert_eq!(counts.len(), parts as usize);
        assert_eq!(total_count(&counts), Some(segmented_sieve_count(limit)), "limit {limit} parts {parts}");
    }
}

#[test]
fn total_count_detects_overflow() {
    assert_eq!(total_count(&vec![]), Some(0));
    assert_eq!(total_count(&vec![1, 2, 3]), Some(6));
    assert_eq!(total_count(&vec![u64::MAX, 0]), Some(u64::MAX));
    assert_eq!(total_count(&vec![u64::MAX, 1]), None);
}

#[test]
fn published_counts_are_checked() {
    assert_eq!(known_pi(100_000_000), Some(5_761_455));
    assert_eq!(known_pi(12_345), None);
    assert!(check_prime_count(1_000, 0, 168).is_ok());
    assert!(check_prime_count(12_345, 0, 7).is_ok());
    let e = check_prime_count(1_000, 2, 167).unwrap_err();
    assert_eq!(e.kind, "correctness_check_failed");
    assert_eq!(e.message, "prime count mismatch for limit 1000 on iteration 2: expected 168, got 167");
}

fn is_prime_by_division(n: u64) -> bool {
    if n < 2 {
        return false;
    }
    let mut d = 2u64;
    while d * d <= n {
        if n % d == 0 {
            return false;
        }
        d += 1;
    }
    true
}

#[test]
fn counts_primes_in_a_window_of_large_numbers() {
    let low = 1_000_000_000_000u64;
    let high = low + 2_000;
    let expected = (low..=high).filter(|&n| is_prime_by_division(n)).count() as u64;
    assert_eq!(count_primes_between(low, high), expected);
}

#[test]
fn first_multiple_near_the_top_of_u64() {
    use_first_multiple();
}

fn use_first_multiple() {
    assert_eq!(fleetbench::sieve::first_multiple_in_range(3, u64::MAX - 1), u64::MAX);
    assert_eq!(fleetbench::sieve::first_multiple_in_range(5, u64::MAX - 4), u64::MAX);
}
