use freebsd_nfs_exporter::bintime::{
    bintime_to_ns, fraction_to_ns, Bintime, FRAC_PER_UNIT, MAX_FRACTION_NS, NS_PER_SEC,
    UNITS_PER_NS,
};

#[test]
fn fraction_zero_is_zero_ns() {
    assert_eq!(fraction_to_ns(0), 0);
}

#[test]
fn one_second_is_a_billion_ns() {
    assert_eq!(bintime_to_ns(&Bintime { sec: 1, frac: 0 }), 1_000_000_000);
}

#[test]
fn zero_time_is_zero_ns() {
    assert_eq!(bintime_to_ns(&Bintime { sec: 0, frac: 0 }), 0);
}

#[test]
fn largest_fraction_does_not_panic() {
    assert_eq!(fraction_to_ns(u64::MAX), MAX_FRACTION_NS);
    assert_eq!(fraction_to_ns(u64::MAX), 1_010_580_540);
}

#[test]
fn half_a_second() {
    // 2^63 / 2^30 = 2^33 = 8_589_934_592, and 8_589_934_592 / 17 = 505_290_270
    assert_eq!(fraction_to_ns(1 << 63), 505_290_270);
    assert_eq!(bintime_to_ns(&Bintime { sec: 2, frac: 1 << 63 }), 2_505_290_270);
}

#[test]
fn fraction_is_truncated() {
    assert_eq!(fraction_to_ns(FRAC_PER_UNIT * UNITS_PER_NS - 1), 0);
    assert_eq!(fraction_to_ns(FRAC_PER_UNIT * UNITS_PER_NS), 1);
    assert_eq!(fraction_to_ns(FRAC_PER_UNIT * UNITS_PER_NS * 2 - 1), 1);
    assert_eq!(fraction_to_ns(FRAC_PER_UNIT * UNITS_PER_NS * 2), 2);
}

#[test]
fn fraction_is_monotonic_on_samples() {
    let samples: [u64; 9] =
        [0, 1, 1 << 30, (1 << 30) * 17, 1 << 40, 1 << 62, 1 << 63, u64::MAX - 1, u64::MAX];
    for pair in samples.windows(2) {
        assert!(fraction_to_ns(pair[0]) <= fraction_to_ns(pair[1]));
        assert!(fraction_to_ns(pair[1]) <= MAX_FRACTION_NS);
    }
}

#[test]
fn conversion_is_repeatable() {
    let bt = Bintime { sec: 123_456, frac: 0xdead_beef_0000_0000 };
    assert_eq!(bintime_to_ns(&bt), bintime_to_ns(&bt));
    assert_eq!(
        bintime_to_ns(&bt),
        123_456 * NS_PER_SEC + fraction_to_ns(0xdead_beef_0000_0000)
    );
}

#[test]
fn seconds_wrap_at_64_bits() {
    // 18_446_744_074 s * 10^9 = 2^64 + 290_448_384
    assert_eq!(bintime_to_ns(&Bintime { sec: 18_446_744_074, frac: 0 }), 290_448_384);
    assert_eq!(
        bintime_to_ns(&Bintime { sec: i64::MAX, frac: u64::MAX }),
        (i64::MAX as u64).wrapping_mul(1_000_000_000).wrapping_add(1_010_580_540)
    );
}

#[test]
fn negative_seconds_wrap() {
    // -1 s is 2^64 - 1 as a word; times 10^9 modulo 2^64 that is 2^64 - 10^9
    assert_eq!(
        bintime_to_ns(&Bintime { sec: -1, frac: 0 }),
        18_446_744_072_709_551_616
    );
    assert_eq!(
        bintime_to_ns(&Bintime { sec: i64::MIN, frac: 0 }),
        (i64::MIN as u64).wrapping_mul(1_000_000_000)
    );
}

#[test]
fn fraction_stays_close_to_the_binary_fraction() {
    let samples: [u64; 10] = [
        0,
        1,
        (1 << 30) * 17 - 1,
        (1 << 30) * 17,
        1 << 40,
        0x0123_4567_89ab_cdef,
        1 << 62,
        1 << 63,
        u64::MAX - 1,
        u64::MAX,
    ];
    for frac in samples {
        let ns = fraction_to_ns(frac) as u128;
        let exact_floor = (frac as u128 * 1_000_000_000) >> 64;
        assert!(exact_floor <= ns);
        assert!((ns << 64) * 1000 <= frac as u128 * 1_000_000_000 * 1011);
    }
    // A quarter of a second: exactly 250_000_000 ns, read as 252_645_135.
    assert_eq!(fraction_to_ns(1 << 62), 252_645_135);
}
