use oorandom::Rand32;
use snake::rng::Rng;

#[test]
fn seeded_generator_has_the_words_of_rand32() {
    let seeds: [u64; 5] = [0, 1, 42, 0xdead_beef, u64::MAX];
    for seed in seeds {
        let rng = Rng::new(seed);
        assert_eq!((rng.state, rng.inc), Rand32::new(seed).state());
    }
}

#[test]
fn seeds_give_different_generators() {
    assert_ne!(Rng::new(1), Rng::new(2));
    assert_eq!(Rng::new(1), Rng::new(1));
}

#[test]
fn draws_follow_rand32() {
    let mut ours = Rng::new(31337);
    let mut theirs = Rand32::new(31337);
    let ranges: [(u32, u32); 6] = [(0, 1), (0, 30), (0, 20), (5, 6), (10, 1000), (0, u32::MAX)];
    let mut round: u32 = 0;
    while round < 50 {
        for (low, high) in ranges {
            let number = ours.rand_range(low, high);
            assert_eq!(number, theirs.rand_range(low..high));
            assert!(low <= number && number < high);
            assert_eq!((ours.state, ours.inc), theirs.state());
        }
        round += 1;
    }
}

#[test]
fn a_draw_advances_the_state_and_keeps_the_increment() {
    let mut rng = Rng::new(9);
    let before = rng;
    let _ = rng.rand_range(0, 30);
    assert_ne!(rng.state, before.state);
    assert_eq!(rng.inc, before.inc);
}

#[test]
fn equal_generators_draw_equal_numbers() {
    let mut a = Rng::new(77);
    let mut b = a;
    let mut n: u32 = 0;
    while n < 20 {
        assert_eq!(a.rand_range(0, 600), b.rand_range(0, 600));
        assert_eq!(a, b);
        n += 1;
    }
}

#[test]
fn seeded_generator_has_the_stated_words() {
    let cases: [(u64, u64); 4] = [
        (0, 10116158231463745938),
        (1, 16480294455310538943),
        (42, 708718527385777908),
        (u64::MAX, 3752022007616952933),
    ];
    for (seed, state) in cases {
        let rng = Rng::new(seed);
        assert_eq!(rng.state, state);
        assert_eq!(rng.inc, 2885390081777926815);
    }
}

#[test]
fn seeded_generator_can_be_drawn_from() {
    let seeds: [u64; 4] = [0, 1, 42, u64::MAX];
    for seed in seeds {
        assert!(Rng::new(seed).is_valid());
    }
}

#[test]
fn generator_stays_valid_over_draws() {
    let mut rng = Rng::new(5);
    let mut n: u32 = 0;
    while n < 100 {
        let _ = rng.rand_range(0, 30);
        assert!(rng.is_valid());
        n += 1;
    }
}

#[test]
fn generator_with_even_increment_is_not_valid() {
    assert!(!Rng { state: 0, inc: 0 }.is_valid());
    assert!(!Rng { state: 17, inc: 2885390081777926814 }.is_valid());
    assert!(Rng { state: 0, inc: 1 }.is_valid());
    assert!(Rng { state: 17, inc: u64::MAX }.is_valid());
}

#[test]
fn generator_with_another_odd_increment_follows_rand32() {
    let mut ours = Rng { state: 12345, inc: 77 };
    let mut theirs = Rand32::from_state((12345, 77));
    let mut n: u32 = 0;
    while n < 200 {
        assert_eq!(ours.rand_range(0, 30), theirs.rand_range(0..30));
        assert_eq!((ours.state, ours.inc), theirs.state());
        n += 1;
    }
}
