use sensocto::client::{backoff_delay_ms, calculate_backoff};

fn base_for(attempt: u32) -> u64 {
    let raw = 1000u64.saturating_mul(1u64 << (attempt - 1).min(62));
    raw.min(30000)
}

#[test]
fn delay_lies_in_jitter_interval_for_every_entropy_sample() {
    for attempt in 1..=12u32 {
        let base = base_for(attempt);
        for entropy in [0u64, 1, 7, 1000, u64::MAX / 2, u64::MAX - 1, u64::MAX] {
            let d = backoff_delay_ms(attempt, entropy);
            assert!(5 * d >= 4 * base, "attempt {attempt} entropy {entropy}: {d} < 0.8 * {base}");
            assert!(5 * d <= 6 * base, "attempt {attempt} entropy {entropy}: {d} > 1.2 * {base}");
        }
    }
}

#[test]
fn base_doubles_then_caps() {
    assert_eq!(base_for(1), 1000);
    assert_eq!(base_for(2), 2000);
    assert_eq!(base_for(3), 4000);
    assert_eq!(base_for(4), 8000);
    assert_eq!(base_for(5), 16000);
    assert_eq!(base_for(6), 30000);
    assert_eq!(base_for(7), 30000);
    // The extreme entropies reach both ends of the interval.
    assert_eq!(backoff_delay_ms(1, 0), 800);
    assert_eq!(backoff_delay_ms(1, 400), 1200);
    assert_eq!(backoff_delay_ms(6, 0), 24000);
    assert_eq!(backoff_delay_ms(6, 12000), 36000);
}

#[test]
fn random_backoff_stays_in_interval() {
    for attempt in 1..=8u32 {
        let base = base_for(attempt);
        for _ in 0..50 {
            let d = calculate_backoff(attempt);
            assert!(5 * d >= 4 * base);
            assert!(5 * d <= 6 * base);
        }
    }
}
