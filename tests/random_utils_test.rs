use sms_manager::random_utils::{
    chance_from_roll, effective_failure_percentage, generate_random_string,
    get_random_wait_time, jittered_wait, random_chance, JITTER_BOUND,
};

#[test]
fn test_random_chance() {
    let mut true_count = 0;
    let trials = 1000;

    for _ in 0..trials {
        if random_chance(-10) {
            true_count += 1;
        }
    }
    assert!(
        (400..600).contains(&true_count),
        "random_chance(-10) should default to ~50% true rate"
    );

    true_count = 0;
    for _ in 0..trials {
        if random_chance(150) {
            true_count += 1;
        }
    }
    assert!(
        (400..600).contains(&true_count),
        "random_chance(150) should default to ~50% true rate"
    );

    for _ in 0..100 {
        assert!(
            random_chance(100),
            "random_chance(100) should always return true"
        );
    }

    for _ in 0..100 {
        assert!(
            !random_chance(0),
            "random_chance(0) should always return false"
        );
    }
}

#[test]
fn random_chance_rate_follows_the_percentage() {
    let trials = 4000;
    let mut true_count = 0;
    for _ in 0..trials {
        if random_chance(25) {
            true_count += 1;
        }
    }
    assert!((800..1200).contains(&true_count), "25% should come up about 1000 times");
}

#[test]
fn test_generate_random_string() {
    for _ in 0..100 {
        let generated = generate_random_string();
        assert!(
            generated.len() <= 100,
            "Generated string length should not exceed 100"
        );
        assert!(
            generated.chars().all(|c| c.is_alphanumeric()),
            "Generated string should only contain alphanumeric characters"
        );
    }
}

#[test]
fn generated_strings_vary_in_length() {
    let mut lengths = std::collections::BTreeSet::new();
    for _ in 0..200 {
        lengths.insert(generate_random_string().len());
    }
    assert!(lengths.len() > 1);
}

#[test]
fn test_get_random_wait_time() {
    let average = 10;
    let trials = 1000;
    for _ in 0..trials {
        let wait_time = get_random_wait_time(&average);
        assert!(
            (5..=15).contains(&wait_time),
            "Wait time should be within 5 of the average"
        );
    }
}

#[test]
fn random_wait_never_negative_for_small_average() {
    for _ in 0..500 {
        let wait_time = get_random_wait_time(&1);
        assert!(wait_time <= 6);
    }
    for _ in 0..100 {
        assert!(get_random_wait_time(&0) <= 5);
    }
}

#[test]
fn effective_percentage_keeps_range_and_defaults_to_fifty() {
    assert_eq!(effective_failure_percentage(0), 0);
    assert_eq!(effective_failure_percentage(37), 37);
    assert_eq!(effective_failure_percentage(100), 100);
    assert_eq!(effective_failure_percentage(101), 50);
    assert_eq!(effective_failure_percentage(-1), 50);
}

#[test]
fn coin_comes_up_under_the_percentage() {
    assert!(chance_from_roll(30, 29));
    assert!(!chance_from_roll(30, 30));
    assert!(!chance_from_roll(0, 0));
    assert!(chance_from_roll(100, 99));
    assert!(chance_from_roll(-10, 49));
    assert!(!chance_from_roll(150, 50));
}

#[test]
fn jittered_wait_exact_values() {
    assert_eq!(jittered_wait(10, -1, 5), 5);
    assert_eq!(jittered_wait(10, 0, 5), 10);
    assert_eq!(jittered_wait(10, 1, 3), 13);
    assert_eq!(jittered_wait(2, -1, 5), 2);
    assert_eq!(jittered_wait(5, -1, 5), 0);
    assert_eq!(jittered_wait(0, 1, JITTER_BOUND), 5);
}
