use pulsegrid::{Prob, Rng};

const RNG_SEED: u64 = 0;

#[test]
fn rng_it_randomly_chooses_a_bool_p100() {
    let mut rng = Rng::new(RNG_SEED);

    assert!(rng.rand_bool(Prob::P100));
}

#[test]
fn rng_it_randomly_chooses_a_bool_p50() {
    let mut rng = Rng::new(RNG_SEED);

    assert!(rng.rand_bool(Prob::P50));
}

#[test]
fn rng_it_randomly_chooses_a_bool_p10() {
    let mut rng = Rng::new(RNG_SEED);

    assert!(!rng.rand_bool(Prob::P10));
}

#[test]
fn it_reproduces_the_same_draws_across_runs() {
    let mut first = Rng::new(RNG_SEED);
    let mut second = Rng::new(RNG_SEED);

    for _ in 0..100 {
        assert_eq!(first.rand_bool(Prob::P50), second.rand_bool(Prob::P50));
    }
}

#[test]
fn it_draws_both_outcomes_at_even_odds() {
    let mut rng = Rng::new(RNG_SEED);
    let mut fired = 0;
    let mut skipped = 0;

    for _ in 0..100 {
        if rng.rand_bool(Prob::P50) {
            fired += 1;
        } else {
            skipped += 1;
        }
    }

    assert!(fired > 0);
    assert!(skipped > 0);
}

#[test]
fn it_never_draws_at_full_probability() {
    let mut always = Rng::new(RNG_SEED);
    let untouched = Rng::new(RNG_SEED);

    for _ in 0..10 {
        assert!(always.rand_bool(Prob::P100));
    }

    assert_eq!(untouched, always);
}
