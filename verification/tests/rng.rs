use stuntcopter::rng::Rng;

#[test]
fn range_stays_within_bounds() {
    let mut rng = Rng::new(1);
    for _ in 0..10_000 {
        let v = rng.range(-2, 3);
        assert!((-2..3).contains(&v));
    }
}

#[test]
fn same_seed_reproduces_the_sequence() {
    let mut a = Rng::new(42);
    let mut b = Rng::new(42);
    for _ in 0..100 {
        assert_eq!(a.range(0, 1000), b.range(0, 1000));
    }
}

#[test]
fn zero_seed_behaves_as_the_default_seed() {
    let mut a = Rng::new(0);
    let mut b = Rng::default();
    for _ in 0..50 {
        assert_eq!(a.range(-1000, 1000), b.range(-1000, 1000));
    }
}

#[test]
fn first_draw_matches_one_xorshift_step() {
    // Seed 1: x = 1; x ^= x << 13 -> 0x2001; x ^= x >> 7 -> 0x2041;
    // x ^= x << 17 -> 0x4082_2041.
    let mut rng = Rng::new(1);
    let expected = (0x4082_2041u64 % 1000) as i32;
    assert_eq!(rng.range(0, 1000), expected);
}

#[test]
fn a_one_wide_range_always_gives_its_low_end() {
    let mut rng = Rng::new(7);
    for _ in 0..20 {
        assert_eq!(rng.range(5, 6), 5);
    }
}
