use voxbox::{AspirationNoise, LinearCongruentialGenerator, LCG_MAX};

fn reference_noise(state: u32) -> u32 {
    ((state as u64 * 1103515245 + 12345) % 2147483648) as u32
}

fn reference_lcg(state: u32) -> u32 {
    (((state as u64 * 1103515245 + 12345) % 4294967296) % 4294967295) as u32
}

#[test]
fn noise_first_values_from_seed_zero() {
    let mut g = AspirationNoise::new();
    assert_eq!(g.rand(), 12345);
    assert_eq!(g.rand(), 1406932606);
    assert_eq!(g.rand(), 654583775);
}

#[test]
fn noise_first_value_from_seed_one() {
    let mut g = AspirationNoise::new();
    g.srand(1);
    assert_eq!(g.rand(), 1103527590);
}

#[test]
fn noise_follows_the_recurrence() {
    for seed in [0u32, 1, 42, 12345, 2147483647, 2147483648, u32::MAX] {
        let mut g = AspirationNoise::new();
        g.srand(seed);
        let mut state = seed;
        for _ in 0..10000 {
            let expected = reference_noise(state);
            let got = g.rand();
            assert_eq!(got, expected);
            assert!(got < LCG_MAX);
            state = got;
        }
    }
}

#[test]
fn noise_is_reproducible_from_its_seed() {
    let mut a = AspirationNoise::new();
    let mut b = AspirationNoise::new();
    a.srand(20240608);
    b.srand(20240608);
    for _ in 0..5000 {
        assert_eq!(a.rand(), b.rand());
    }
    // reseeding starts the same sequence again
    let mut first = Vec::new();
    a.srand(7);
    for _ in 0..100 {
        first.push(a.rand());
    }
    a.srand(7);
    for x in first {
        assert_eq!(a.rand(), x);
    }
}

#[test]
fn lcg_first_values() {
    let mut g = LinearCongruentialGenerator::new();
    assert_eq!(g.rand(), 12345);
    assert_eq!(g.rand(), 3554416254);
    let mut h = LinearCongruentialGenerator::new();
    h.seed(1);
    assert_eq!(h.rand(), 1103527590);
}

#[test]
fn lcg_follows_the_recurrence() {
    for seed in [0u32, 1, 99, 4294967294, u32::MAX] {
        let mut g = LinearCongruentialGenerator::new();
        g.seed(seed);
        let mut state = seed;
        for _ in 0..10000 {
            let expected = reference_lcg(state);
            let got = g.rand();
            assert_eq!(got, expected);
            assert!(got < u32::MAX);
            state = got;
        }
    }
}

#[test]
fn lcg_seed_replaces_the_state() {
    let mut a = LinearCongruentialGenerator::new();
    let mut b = LinearCongruentialGenerator::new();
    a.rand();
    a.rand();
    a.seed(5);
    b.seed(5);
    for _ in 0..100 {
        assert_eq!(a.rand(), b.rand());
    }
}
