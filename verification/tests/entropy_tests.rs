use rustlib::entropy::byte_counts;
use rustlib::entropy::positive_counts;

/// The floating-point half of the entropy computation: fold the verified
/// frequency table with the Shannon formula, in ascending byte-value order,
/// skipping empty slots.
fn entropy_from_counts(counts: &[usize], len: usize) -> f64 {
    if len == 0 {
        return 0.0;
    }
    let n = len as f64;
    let mut entropy = 0.0;
    for &count in counts {
        if count > 0 {
            let p = count as f64 / n;
            entropy -= p * p.log2();
        }
    }
    entropy
}

fn entropy_of(bytes: &[u8]) -> f64 {
    let counts = byte_counts(bytes);
    entropy_from_counts(&counts, bytes.len())
}

#[test]
fn counts_of_empty_are_zero() {
    let counts = byte_counts(&[]);
    assert_eq!(counts.len(), 256);
    assert!(counts.iter().all(|&c| c == 0));
}

#[test]
fn counts_tally_each_value() {
    let counts = byte_counts(b"hello world");
    assert_eq!(counts[b'h' as usize], 1);
    assert_eq!(counts[b'e' as usize], 1);
    assert_eq!(counts[b'l' as usize], 3);
    assert_eq!(counts[b'o' as usize], 2);
    assert_eq!(counts[b' ' as usize], 1);
    assert_eq!(counts[b'w' as usize], 1);
    assert_eq!(counts[b'r' as usize], 1);
    assert_eq!(counts[b'd' as usize], 1);
    assert_eq!(counts[b'z' as usize], 0);
}

#[test]
fn counts_sum_to_length() {
    let inputs: [&[u8]; 4] = [b"", b"a", b"hello world", &[0, 0, 7, 255, 255, 255]];
    for bytes in inputs {
        let counts = byte_counts(bytes);
        assert_eq!(counts.iter().sum::<usize>(), bytes.len());
    }
}

#[test]
fn positive_counts_lists_occupied_slots_in_order() {
    let pairs = positive_counts(b"hello world");
    let expected: Vec<(u8, usize)> = vec![
        (b' ', 1),
        (b'd', 1),
        (b'e', 1),
        (b'h', 1),
        (b'l', 3),
        (b'o', 2),
        (b'r', 1),
        (b'w', 1),
    ];
    assert_eq!(pairs, expected);
}

#[test]
fn positive_counts_of_two_bytes() {
    let pairs = positive_counts(&[0x00, 0x01]);
    assert_eq!(pairs, vec![(0x00, 1), (0x01, 1)]);
}

#[test]
fn entropy_of_empty_is_exactly_zero() {
    assert_eq!(entropy_of(&[]), 0.0);
}

#[test]
fn entropy_of_repeated_byte_is_exactly_zero() {
    assert_eq!(entropy_of(&[7u8; 1]), 0.0);
    assert_eq!(entropy_of(&[7u8; 100]), 0.0);
    assert_eq!(entropy_of(&[0u8; 1000]), 0.0);
    assert_eq!(entropy_of(&[255u8; 3]), 0.0);
}

#[test]
fn entropy_of_all_byte_values_is_eight() {
    let bytes: Vec<u8> = (0u8..=255u8).collect();
    let e = entropy_of(&bytes);
    assert!((e - 8.0).abs() < 1e-9, "entropy was {e}");
}

#[test]
fn entropy_of_two_distinct_bytes_is_one() {
    let e = entropy_of(&[0x00, 0x01]);
    assert!((e - 1.0).abs() < 1e-9, "entropy was {e}");
}

#[test]
fn entropy_of_hello_world_matches_reference_formula() {
    // "hello world": length 11; l occurs 3 times, o twice, and h, e, space,
    // w, r, d once each.
    let n = 11.0f64;
    let mut expected = 0.0f64;
    for c in [3.0f64, 2.0, 1.0, 1.0, 1.0, 1.0, 1.0, 1.0] {
        let p = c / n;
        expected -= p * p.log2();
    }
    let e = entropy_of(b"hello world");
    assert!((e - expected).abs() < 1e-9, "entropy was {e}, expected {expected}");
    // Pinned regression value of the same formula.
    assert!((e - 2.845_350_936_622_436_8).abs() < 1e-9, "entropy was {e}");
}

#[test]
fn entropy_is_in_range_for_nonempty_inputs() {
    let inputs: [&[u8]; 5] = [
        b"a",
        b"hello world",
        &[0, 1, 2, 3, 4, 5, 6, 7],
        &[9, 9, 9, 1],
        &[0, 255],
    ];
    for bytes in inputs {
        let e = entropy_of(bytes);
        assert!(0.0 <= e && e <= 8.0, "entropy {e} out of range");
    }
}

#[test]
fn entropy_is_order_independent() {
    let forward: Vec<u8> = b"hello world".to_vec();
    let mut reversed = forward.clone();
    reversed.reverse();
    let mut interleaved = forward.clone();
    interleaved.swap(0, 10);
    interleaved.swap(3, 7);
    assert_eq!(byte_counts(&forward), byte_counts(&reversed));
    assert_eq!(byte_counts(&forward), byte_counts(&interleaved));
    assert_eq!(
        entropy_of(&forward).to_bits(),
        entropy_of(&reversed).to_bits()
    );
    assert_eq!(
        entropy_of(&forward).to_bits(),
        entropy_of(&interleaved).to_bits()
    );
}

#[test]
fn entropy_is_deterministic() {
    let bytes: Vec<u8> = (0u8..=255u8).cycle().take(1000).collect();
    assert_eq!(byte_counts(&bytes), byte_counts(&bytes));
    assert_eq!(entropy_of(&bytes).to_bits(), entropy_of(&bytes).to_bits());
}

#[test]
fn entropy_from_positive_counts_matches_table() {
    let bytes = b"mississippi river";
    let pairs = positive_counts(bytes);
    let n = bytes.len() as f64;
    let mut from_pairs = 0.0f64;
    for &(_, count) in &pairs {
        let p = count as f64 / n;
        from_pairs -= p * p.log2();
    }
    assert_eq!(from_pairs.to_bits(), entropy_of(bytes).to_bits());
}
