//! The backoff interval: exact values, monotonicity and the jitter range.
use npcnix::config::Config;
use npcnix::sched::{base_sleep_secs, jittered_sleep_secs};

#[test]
fn base_interval_ramps_linearly_from_min_to_max() {
    // Defaults: 5 s .. 120 s over 24 h (86400 s).
    assert_eq!(base_sleep_secs(5, 120, 24, 1), 5);
    assert_eq!(base_sleep_secs(5, 120, 24, 43200), 62); // 5 + (43200 * 115) / 86400
    assert_eq!(base_sleep_secs(5, 120, 24, 86400), 120);
    assert_eq!(base_sleep_secs(5, 120, 24, u64::MAX), 120);
}

#[test]
fn base_interval_is_capped_at_an_hour() {
    assert_eq!(base_sleep_secs(10_000, 20_000, 1, 0), 3600);
    assert_eq!(base_sleep_secs(5, u64::MAX, 1, 3600), 3600);
}

#[test]
fn degenerate_ramp_window_means_max_interval_at_once() {
    assert_eq!(base_sleep_secs(5, 120, 0, 1), 120);
}

#[test]
fn inverted_bounds_collapse_the_span() {
    assert_eq!(base_sleep_secs(120, 5, 24, 86400), 120);
}

#[test]
fn jitter_spans_half_to_one_and_a_half_of_the_base() {
    // Saturated ramp: base 120.
    assert_eq!(jittered_sleep_secs(5, 120, 24, 86400, 0), 60);
    assert_eq!(jittered_sleep_secs(5, 120, 24, 86400, 500), 120);
    assert_eq!(jittered_sleep_secs(5, 120, 24, 86400, 1000), 180);
}

#[test]
fn jittered_interval_never_drops_below_the_minimum() {
    // Fresh ramp: base 5, naked jitter range 2..=7.
    assert_eq!(jittered_sleep_secs(5, 120, 24, 1, 0), 5);
    assert_eq!(jittered_sleep_secs(5, 120, 24, 1, 1000), 7);
}

#[test]
fn backoff_is_monotone_in_elapsed_time_for_a_fixed_jitter() {
    let elapsed = [0u64, 1, 10, 1000, 43200, 86400, 100000, u64::MAX];
    for jitter in [0u64, 250, 500, 750, 1000] {
        for w in elapsed.windows(2) {
            assert!(
                jittered_sleep_secs(5, 120, 24, w[0], jitter)
                    <= jittered_sleep_secs(5, 120, 24, w[1], jitter)
            );
        }
    }
}

#[test]
fn drawn_sleep_time_stays_within_the_jitter_bounds() {
    // Right after a reconfiguration the base is the minimum.
    let c = Config::default_at(0);
    for _ in 0..32 {
        let s = c.cur_rng_sleep_time(0);
        assert!((5..=7).contains(&s));
    }
    // Long after it, the base has ramped to the maximum.
    let c = Config::default_at(0);
    for _ in 0..32 {
        let s = c.cur_rng_sleep_time(86_400_000);
        assert!((60..=180).contains(&s));
    }
}

#[test]
fn sleep_time_is_computed_from_the_last_reconfiguration() {
    let c = Config::default_at(0).with_updated_last_reconfiguration("host", "etag", 86_400_000);
    // Elapsed is clamped to at least a second: fresh again.
    let s = c.cur_rng_sleep_time(86_400_000);
    assert!((5..=7).contains(&s));
}
