use hamming::hamming_ascend;
use hamming::hamming_iter;
use hamming::hamming_weight_iter;

/// Drain the bit-width enumerator, panicking if it overruns `cap` values.
fn drain_width(bits: u32, cap: usize) -> Vec<u64> {
    let mut it = hamming_iter(bits);
    let mut out: Vec<u64> = Vec::new();
    while let Some(v) = it.next() {
        out.push(v);
        if out.len() > cap {
            panic!("enumeration did not stop");
        }
    }
    out
}

/// Drain the weight-class enumerator, panicking if it overruns `cap`.
fn drain_weight(weight: u32, cap: usize) -> Vec<u64> {
    let mut it = hamming_weight_iter(weight);
    let mut out: Vec<u64> = Vec::new();
    while let Some(v) = it.next() {
        out.push(v);
        if out.len() > cap {
            panic!("enumeration did not stop");
        }
    }
    out
}

/// Take the first `n` values of the weight-class enumerator.
fn take_weight(weight: u32, n: usize) -> Vec<u64> {
    let mut it = hamming_weight_iter(weight);
    let mut out: Vec<u64> = Vec::new();
    while out.len() < n {
        match it.next() {
            Some(v) => out.push(v),
            None => break,
        }
    }
    out
}

/// Weight-major, value-minor: (popcount, value) strictly increases.
fn assert_weight_major(vals: &[u64]) {
    for i in 1..vals.len() {
        let a = (vals[i - 1].count_ones(), vals[i - 1]);
        let b = (vals[i].count_ones(), vals[i]);
        assert!(a < b, "not weight-major ordered at {}: {:?} vs {:?}", i, a, b);
    }
}

#[test]
fn width_zero_single_value() {
    assert_eq!(drain_width(0, 10), vec![0]);
}

#[test]
fn width_two_scenario() {
    assert_eq!(drain_width(2, 10), vec![0, 1, 2, 3]);
}

#[test]
fn width_three_scenario() {
    assert_eq!(drain_width(3, 20), vec![0, 1, 2, 4, 3, 5, 6, 7]);
}

#[test]
fn width_eight_complete_and_ordered() {
    let vals = drain_width(8, 300);
    assert_eq!(vals.len(), 256);
    assert_weight_major(&vals);
    let mut sorted = vals.clone();
    sorted.sort();
    let expect: Vec<u64> = (0..256).collect();
    assert_eq!(sorted, expect);
}

#[test]
fn width_eleven_crosses_into_fallback_classes() {
    // weight 11 is generated by the unbounded fallback; the width bound
    // must still stop it.
    let vals = drain_width(11, 3000);
    assert_eq!(vals.len(), 2048);
    assert_weight_major(&vals);
    let mut sorted = vals.clone();
    sorted.sort();
    let expect: Vec<u64> = (0..2048).collect();
    assert_eq!(sorted, expect);
}

#[test]
fn width_sixtyfour_prefix() {
    let mut it = hamming_iter(64);
    let mut vals: Vec<u64> = Vec::new();
    for _ in 0..69 {
        vals.push(it.next().expect("the 64-bit enumeration is far from over"));
    }
    assert_eq!(vals[0], 0);
    for b in 0..64 {
        assert_eq!(vals[1 + b as usize], 1u64 << b);
    }
    assert_eq!(&vals[65..69], &[3, 5, 6, 9]);
}

#[test]
fn weight_zero_single_value() {
    assert_eq!(drain_weight(0, 10), vec![0]);
}

#[test]
fn weight_one_powers_of_two() {
    let vals = drain_weight(1, 100);
    assert_eq!(vals.len(), 64);
    for b in 0..64 {
        assert_eq!(vals[b as usize], 1u64 << b);
    }
}

#[test]
fn weight_two_exact_class() {
    let vals = drain_weight(2, 3000);
    assert_eq!(vals.len(), 2016);
    assert_eq!(&vals[0..3], &[3, 5, 6]);
    assert_eq!(*vals.last().unwrap(), 3u64 << 62);
    for i in 0..vals.len() {
        assert_eq!(vals[i].count_ones(), 2);
        if i > 0 {
            assert!(vals[i - 1] < vals[i]);
        }
    }
}

#[test]
fn weight_four_exact_class() {
    let vals = drain_weight(4, 700_000);
    assert_eq!(vals.len(), 635_376);
    assert_eq!(vals[0], 0xF);
    assert_eq!(*vals.last().unwrap(), 0xFu64 << 60);
    for i in 0..vals.len() {
        assert_eq!(vals[i].count_ones(), 4);
        if i > 0 {
            assert!(vals[i - 1] < vals[i]);
        }
    }
}

#[test]
fn weight_eleven_fallback_prefix() {
    assert_eq!(take_weight(11, 5), vec![2047, 3071, 3583, 3839, 3967]);
}

#[test]
fn weight_sixtythree_exact_class() {
    // weight 63 uses the fallback strategy; it must still end by itself
    // after the class's top element.
    let vals = drain_weight(63, 100);
    assert_eq!(vals.len(), 64);
    assert_eq!(vals[0], 0x7FFF_FFFF_FFFF_FFFF);
    assert_eq!(vals[1], 0xBFFF_FFFF_FFFF_FFFF);
    assert_eq!(*vals.last().unwrap(), u64::MAX - 1);
    for i in 0..vals.len() {
        assert_eq!(vals[i].count_ones(), 63);
        if i > 0 {
            assert!(vals[i - 1] < vals[i]);
        }
    }
}

#[test]
fn weight_sixtyfour_single_possible_value() {
    assert_eq!(drain_weight(64, 10), vec![u64::MAX]);
}

#[test]
fn ascender_successor_values() {
    let mut asc = hamming_ascend(0b1011);
    let mut vals: Vec<u64> = Vec::new();
    for _ in 0..5 {
        vals.push(asc.next());
    }
    assert_eq!(vals, vec![0b1011, 0b1101, 0b1110, 0b10011, 0b10101]);
}

#[test]
fn repeat_width_enumeration_is_identical() {
    let a = drain_width(5, 100);
    let b = drain_width(5, 100);
    assert_eq!(a, b);
    assert_eq!(a.len(), 32);
}

#[test]
fn repeat_weight_enumeration_is_identical() {
    let a = drain_weight(3, 50_000);
    let b = drain_weight(3, 50_000);
    assert_eq!(a, b);
    assert_eq!(a.len(), 41_664);
}

#[test]
fn independent_cursors_do_not_interfere() {
    let mut x = hamming_weight_iter(2);
    let mut y = hamming_weight_iter(2);
    assert_eq!(x.next(), Some(3));
    assert_eq!(x.next(), Some(5));
    assert_eq!(y.next(), Some(3));
    assert_eq!(x.next(), Some(6));
    assert_eq!(y.next(), Some(5));
}
