use entropy_krypton_core::{
    EntropyMetrics, Ratio, SentryConfig, SentryDecision, SentryEngine, SentrySignals,
};
use entropy_krypton_core::sentry::decision_str;

#[test]
fn low_signals_should_keep() {
    let engine = SentryEngine::with_default_config();

    // Samples 0.01, 0.0, -0.01, 0.02 as hundredths; load 0.2.
    let metrics = EntropyMetrics::from_samples(&vec![1, 0, -1, 2], 100);
    let signals = SentrySignals::from_metrics(&metrics, Ratio::new(1, 5));

    let decision = engine.decide("job-low", &signals);
    assert_eq!(decision, SentryDecision::Keep);
}

#[test]
fn slightly_high_signals_should_throttle() {
    let mut config = SentryConfig::default();
    config.entropy_limit = Ratio::new(3, 20); // 0.15
    let engine = SentryEngine::new(config);

    // Samples 0.5, -0.5, 0.4, -0.4 as tenths; load 0.5.
    let metrics = EntropyMetrics::from_samples(&vec![5, -5, 4, -4], 10);
    let signals = SentrySignals::from_metrics(&metrics, Ratio::new(1, 2));

    let decision = engine.decide("job-mid", &signals);
    assert_eq!(decision, SentryDecision::Throttle);
}

#[test]
fn extreme_signals_should_kill() {
    let config = SentryConfig {
        entropy_limit: Ratio::new(1, 2),     // 0.5
        jitter_limit: Ratio::new(1, 2),      // 0.5
        load_limit: Ratio::new(4, 5),        // 0.8
        hard_excess_factor: Ratio::new(2, 1),
    };
    let engine = SentryEngine::new(config);

    // Deliberately large variance and load: samples 10, -10, 8, -8; load 2.
    let metrics = EntropyMetrics::from_samples(&vec![10, -10, 8, -8], 1);
    // Population variance is exactly 82 = 5248/64.
    assert_eq!(metrics.variance, Ratio::new(5248, 64));
    let signals = SentrySignals::from_metrics(&metrics, Ratio::new(2, 1));

    let decision = SentryDecision::Kill;
    assert_eq!(engine.decide("job-high", &signals), decision);
}

#[test]
fn empty_window_is_all_zero() {
    let metrics = EntropyMetrics::from_samples(&vec![], 1);
    assert_eq!(metrics.sample_count, 0);
    assert_eq!(metrics.mean, Ratio::new(0, 1));
    assert_eq!(metrics.variance, Ratio::new(0, 1));
    assert_eq!(metrics.jitter, Ratio::new(0, 1));
}

#[test]
fn variance_and_jitter_are_nonnegative() {
    let metrics = EntropyMetrics::from_samples(&vec![3, -7, 5], 10);
    assert!(metrics.variance.num >= 0 && metrics.variance.den > 0);
    assert!(metrics.jitter.num >= 0 && metrics.jitter.den > 0);
}

#[test]
fn exact_statistics_of_a_quiet_window() {
    // Samples 0.01, 0.0, -0.01, 0.02 as hundredths: total 2 over 4 samples.
    let metrics = EntropyMetrics::from_samples(&vec![1, 0, -1, 2], 100);
    assert_eq!(metrics.sample_count, 4);
    assert_eq!(metrics.mean, Ratio::new(2, 400)); // 0.005
    assert_eq!(metrics.variance, Ratio::new(80, 640_000)); // 0.000125
    assert_eq!(metrics.jitter, Ratio::new(16, 1_600)); // 0.01
}

#[test]
fn disabled_limits_always_keep() {
    let config = SentryConfig {
        entropy_limit: Ratio::new(0, 1),
        jitter_limit: Ratio::new(-3, 4),
        load_limit: Ratio::new(0, 1),
        hard_excess_factor: Ratio::new(2, 1),
    };
    let engine = SentryEngine::new(config);
    let signals = SentrySignals::from_raw(
        Ratio::new(1_000_000, 1),
        Ratio::new(1_000_000, 1),
        Ratio::new(1_000_000, 1),
    );
    assert_eq!(engine.decide("job-any", &signals), SentryDecision::Keep);
}

#[test]
fn boundary_ratio_of_one_keeps() {
    let engine = SentryEngine::with_default_config();
    // Every ratio exactly 1.0 against the defaults 1.0 / 0.5 / 0.85.
    let signals = SentrySignals::from_raw(Ratio::new(1, 1), Ratio::new(1, 2), Ratio::new(17, 20));
    assert_eq!(engine.decide("job-edge", &signals), SentryDecision::Keep);
}

#[test]
fn just_above_one_throttles() {
    let engine = SentryEngine::with_default_config();
    let signals = SentrySignals::from_raw(Ratio::new(101, 100), Ratio::new(0, 1), Ratio::new(0, 1));
    assert_eq!(engine.decide("job-edge", &signals), SentryDecision::Throttle);
}

#[test]
fn boundary_ratio_of_factor_kills() {
    let engine = SentryEngine::with_default_config();
    // Entropy ratio exactly 2.0: the hard boundary is inclusive.
    let signals = SentrySignals::from_raw(Ratio::new(2, 1), Ratio::new(0, 1), Ratio::new(0, 1));
    assert_eq!(engine.decide("job-edge", &signals), SentryDecision::Kill);
}

#[test]
fn raising_one_score_never_softens() {
    let engine = SentryEngine::with_default_config();
    let low = SentrySignals::from_raw(Ratio::new(1, 2), Ratio::new(0, 1), Ratio::new(0, 1));
    let mid = SentrySignals::from_raw(Ratio::new(3, 2), Ratio::new(0, 1), Ratio::new(0, 1));
    let high = SentrySignals::from_raw(Ratio::new(3, 1), Ratio::new(0, 1), Ratio::new(0, 1));
    assert_eq!(engine.decide("job-a", &low), SentryDecision::Keep);
    assert_eq!(engine.decide("job-a", &mid), SentryDecision::Throttle);
    assert_eq!(engine.decide("job-a", &high), SentryDecision::Kill);
}

#[test]
fn identical_inputs_decide_identically() {
    let engine = SentryEngine::with_default_config();
    let signals = SentrySignals::from_raw(Ratio::new(3, 2), Ratio::new(1, 4), Ratio::new(1, 10));
    let first = engine.decide("job-x", &signals);
    let second = engine.decide("job-x", &signals);
    assert_eq!(first, second);
    // The job identifier plays no part in the decision.
    let other = engine.decide("job-y", &signals);
    assert_eq!(first, other);
}

#[test]
fn default_engine_uses_default_config() {
    let engine = SentryEngine::default();
    let signals = SentrySignals::from_raw(Ratio::new(2, 1), Ratio::new(0, 1), Ratio::new(0, 1));
    assert_eq!(engine.decide("job-default", &signals), SentryDecision::Kill);
}

#[test]
fn decision_names() {
    assert_eq!(decision_str(SentryDecision::Keep), "Keep");
    assert_eq!(decision_str(SentryDecision::Throttle), "Throttle");
    assert_eq!(decision_str(SentryDecision::Kill), "Kill");
}

#[test]
fn signals_carry_metrics_through() {
    let metrics = EntropyMetrics::from_samples(&vec![10, -10, 8, -8], 1);
    let signals = SentrySignals::from_metrics(&metrics, Ratio::new(7, 10));
    assert_eq!(signals.entropy_score, metrics.variance);
    assert_eq!(signals.jitter_score, metrics.jitter);
    assert_eq!(signals.load_score, Ratio::new(7, 10));
}
