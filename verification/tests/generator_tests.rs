use ycsb_rs::fixed::{fp_mul, fp_pow, fp_sqrt, ppm_to_fp, FP_ONE};
use ycsb_rs::generator::{
    discrete_gen, uniform_gen, zipfian_gen, ConstGenerator, CounterGenerator, Generator,
    SkewedLatestGenerator, ZipfDistribution,
};
use ycsb_rs::Error;
use ycsb_rs::Operation;

#[test]
fn test_const_generator() {
    let gen = ConstGenerator::new(100);

    assert_eq!(gen.next(), 100);
}

#[test]
fn test_counter_generator() {
    let gen = CounterGenerator::new(0);

    for i in 0..10 {
        assert_eq!(gen.next(), i);
    }
}

#[test]
fn test_const_generator_clones_value() {
    let gen = ConstGenerator::new("abc".to_string());
    assert_eq!(gen.next(), "abc");
    assert_eq!(gen.next(), "abc");
}

#[test]
fn test_uniform_single_point() {
    let gen = uniform_gen(9, 9).unwrap();
    for _ in 0..100 {
        assert_eq!(gen.next_value(), 9);
    }
}

#[test]
fn test_counter_generator_from_offset() {
    let gen = CounterGenerator::new(5);
    for i in 5..15 {
        assert_eq!(gen.next(), i);
    }
    assert_eq!(gen.last_value(), 15);
}

#[test]
fn test_counter_last_value_does_not_advance() {
    let gen = CounterGenerator::new(7);
    assert_eq!(gen.last_value(), 7);
    assert_eq!(gen.last_value(), 7);
    assert_eq!(gen.next(), 7);
    assert_eq!(gen.last_value(), 8);
}

#[test]
fn test_uniform_range() {
    let gen = uniform_gen(3, 7).unwrap();
    let mut seen_low = false;
    let mut seen_high = false;
    for _ in 0..2000 {
        let v = gen.next_value();
        assert!((3..=7).contains(&v));
        if v == 3 {
            seen_low = true;
        }
        if v == 7 {
            seen_high = true;
        }
    }
    assert!(seen_low && seen_high);
}

#[test]
fn test_uniform_gen_rejects_reversed_bounds() {
    assert!(matches!(uniform_gen(7, 3), Err(Error::InvalidArgument(_))));
}

#[test]
fn test_discrete_frequency_ratio() {
    let gen = discrete_gen(vec![(Operation::Read, 3u64), (Operation::Update, 1u64)]).unwrap();
    let mut reads = 0u64;
    let mut updates = 0u64;
    for _ in 0..100_000 {
        match gen.next_value().unwrap() {
            Operation::Read => reads += 1,
            Operation::Update => updates += 1,
            other => panic!("unexpected operation {:?}", other),
        }
    }
    // Expected 75000 reads; allow a wide statistical margin.
    assert!(reads > 70_000 && reads < 80_000, "reads = {}", reads);
    assert_eq!(reads + updates, 100_000);
}

#[test]
fn test_discrete_selection_windows() {
    let gen = discrete_gen(vec![(Operation::Read, 3u64), (Operation::Update, 1u64)]).unwrap();
    assert_eq!(gen.sample_at(0), Operation::Read);
    assert_eq!(gen.sample_at(2), Operation::Read);
    assert_eq!(gen.sample_at(3), Operation::Update);
}

#[test]
fn test_discrete_empty_mix() {
    let gen = discrete_gen::<Operation>(vec![]).unwrap();
    assert!(gen.next_value().is_none());
}

#[test]
fn test_discrete_weight_overflow_rejected() {
    let r = discrete_gen(vec![(Operation::Read, u64::MAX), (Operation::Update, 1u64)]);
    assert!(matches!(r, Err(Error::InvalidArgument(_))));
}

#[test]
fn test_zipfian_frequency_ordering_low_theta() {
    // Skew below one: ranks over [0, 3].
    let z = zipfian_gen(3, 990_000).unwrap();
    let mut counts = [0u64; 4];
    for _ in 0..40_000 {
        let k = z.sample();
        counts[k as usize] += 1;
    }
    for i in 0..3 {
        assert!(
            counts[i] >= counts[i + 1],
            "rank {} below rank {}: {:?}",
            i,
            i + 1,
            counts
        );
    }
}

#[test]
fn test_zipfian_frequency_ordering_high_theta() {
    // Skew above one.
    let z = zipfian_gen(3, 1_500_000).unwrap();
    let mut counts = [0u64; 4];
    for _ in 0..20_000 {
        let k = z.sample();
        counts[k as usize] += 1;
    }
    for i in 0..3 {
        assert!(
            counts[i] >= counts[i + 1],
            "rank {} below rank {}: {:?}",
            i,
            i + 1,
            counts
        );
    }
}

#[test]
fn test_zipfian_rejects_theta_one() {
    assert!(matches!(
        zipfian_gen(10, 1_000_000),
        Err(Error::InvalidArgument(_))
    ));
}

#[test]
fn test_zipfian_rejects_degenerate_domain() {
    assert!(matches!(
        ZipfDistribution::new(0, 0, 990_000),
        Err(Error::InvalidArgument(_))
    ));
    assert!(matches!(
        ZipfDistribution::new(5, 4, 990_000),
        Err(Error::InvalidArgument(_))
    ));
}

#[test]
fn test_zipfian_sample_stays_in_domain() {
    let z = ZipfDistribution::new(10, 20, 500_000).unwrap();
    for _ in 0..5_000 {
        let k = z.sample();
        assert!((10..=20).contains(&k));
    }
}

#[test]
fn test_zipfian_lowest_draw_gives_base() {
    let z = ZipfDistribution::new(10, 20, 990_000).unwrap();
    assert_eq!(z.sample_at(0), 10);
}

#[test]
fn test_skewed_latest_tracks_counter() {
    let basis = std::sync::Arc::new(CounterGenerator::new(10));
    let gen = SkewedLatestGenerator::new(basis.clone()).unwrap();
    for _ in 0..1_000 {
        assert!(gen.next_value() <= 10);
    }
    // Advance the frontier; draws stay at or below the live value.
    for _ in 0..5 {
        basis.next();
    }
    for _ in 0..1_000 {
        assert!(gen.next_value() <= 15);
    }
}

#[test]
fn test_skewed_latest_rejects_empty_frontier() {
    let basis = std::sync::Arc::new(CounterGenerator::new(0));
    assert!(matches!(
        SkewedLatestGenerator::new(basis),
        Err(Error::InvalidArgument(_))
    ));
}

#[test]
fn test_fixed_point_exact_values() {
    assert_eq!(fp_mul(FP_ONE, FP_ONE), FP_ONE);
    assert_eq!(fp_sqrt(4 * FP_ONE), 2 * FP_ONE);
    assert_eq!(ppm_to_fp(1_000_000), FP_ONE);
    // 4 ^ 0.5 computed through the square-root chain.
    assert_eq!(fp_pow(4 * FP_ONE, FP_ONE / 2), 2 * FP_ONE);
}
