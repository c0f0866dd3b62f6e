use reconnect_t::strategies::ExpBackoffStrategy;

#[test]
fn test_reset() {
    let strategy = ExpBackoffStrategy::default();
    let mut iter = strategy.into_iter();

    // Simulate some retry operations
    for _ in 0..3 {
        println!("{:?}", iter.next());
    }

    // Reset the iterator
    iter.reset();

    // Retry operations again from the start
    for _ in 0..3 {
        println!("{:?}", iter.next());
    }
}

#[test]
fn ceiling_bounds_every_delay() {
    // P: with a ceiling configured, every produced duration stays under it.
    let strategy = ExpBackoffStrategy::new(10_000_000, 300, 500)
        .with_max(25_000_000)
        .with_seed(7);
    let mut iter = strategy.into_iter();
    for _ in 0..40 {
        let d = iter.next();
        assert!(d <= 25_000_000);
    }
}

#[test]
fn ceiling_bounds_with_large_jitter_fraction() {
    // A jitter fraction above 1 can no longer go negative: delays stay in
    // [0, ceiling].
    let strategy = ExpBackoffStrategy::new(1_000_000, 200, 2_000)
        .with_max(10_000_000)
        .with_seed(99);
    let mut iter = strategy.into_iter();
    for _ in 0..40 {
        let d = iter.next();
        assert!(d <= 10_000_000);
    }
}

#[test]
fn reset_replays_the_sequence_without_jitter() {
    // P: with zero jitter, reset() then next() n times reproduces the same
    // sequence as a freshly built iterator of the same strategy.
    let strategy = ExpBackoffStrategy::new(10_000_000, 200, 0).with_seed(42);

    let mut fresh = strategy.into_iter();
    let first: Vec<u64> = (0..5).map(|_| fresh.next()).collect();

    let mut used = strategy.into_iter();
    for _ in 0..5 {
        used.next();
    }
    used.reset();
    let replayed: Vec<u64> = (0..5).map(|_| used.next()).collect();

    assert_eq!(first, replayed);
    assert_eq!(first, vec![10_000_000, 20_000_000, 40_000_000, 80_000_000, 160_000_000]);
}

#[test]
fn growth_formula_exact_values() {
    // min 1000ns, factor 2.5, no jitter: 1000, 2500, 6250, 15625.
    let strategy = ExpBackoffStrategy::new(1_000, 250, 0);
    let mut iter = strategy.into_iter();
    assert_eq!(iter.next(), 1_000);
    assert_eq!(iter.next(), 2_500);
    assert_eq!(iter.next(), 6_250);
    assert_eq!(iter.next(), 15_625);
}

#[test]
fn jitter_displaces_within_the_configured_fraction() {
    // +-50% jitter around a 1ms base: every delay lands in [0.5ms, 1.5ms],
    // and with factor 1.0 the base never grows.
    let strategy = ExpBackoffStrategy::new(1_000_000, 100, 500).with_seed(3);
    let mut iter = strategy.into_iter();
    let mut all_equal = true;
    let mut previous: Option<u64> = None;
    for _ in 0..60 {
        let d = iter.next();
        assert!(d >= 500_000);
        assert!(d <= 1_500_000);
        if let Some(p) = previous {
            if p != d {
                all_equal = false;
            }
        }
        previous = Some(d);
    }
    // the sampling source really displaces the base
    assert!(!all_equal);
}

#[test]
fn default_strategy_values() {
    let s = ExpBackoffStrategy::default();
    assert_eq!(s.min_nanos, 4_000_000_000);
    assert_eq!(s.max_nanos, Some(60_000_000_000));
    assert_eq!(s.factor_centi, 200);
    assert_eq!(s.jitter_milli, 50);
    assert_eq!(s.seed, None);
}

#[test]
fn fresh_iterators_with_the_same_seed_agree() {
    // The jitter source is a function of the seed alone: two freshly built
    // iterators of one seeded strategy produce identical sequences.
    let strategy = ExpBackoffStrategy::new(2_000_000, 150, 500).with_seed(5);
    let mut a = strategy.into_iter();
    let mut b = strategy.into_iter();
    let seq_a: Vec<u64> = (0..10).map(|_| a.next()).collect();
    let seq_b: Vec<u64> = (0..10).map(|_| b.next()).collect();
    assert_eq!(seq_a, seq_b);
}
