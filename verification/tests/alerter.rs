use fee_alert::alerter::AlertEvent;
use fee_alert::alerter::AlertState;
use fee_alert::alerter::FetchError;
use fee_alert::alerter::ThresholdAlerter;
use fee_alert::alerter::classify;

#[test]
fn first_sample_never_alerts() {
    for threshold in [0u64, 1, 5, 1000, u64::MAX] {
        for metric in [0u64, 1, 5, 6, 1000, u64::MAX] {
            let mut alerter = ThresholdAlerter::new(threshold, 1);
            assert_eq!(alerter.get_state(), AlertState::Unset);
            assert_eq!(alerter.observe(metric), None);
            assert_ne!(alerter.get_state(), AlertState::Unset);
        }
    }
}

#[test]
fn construction_keeps_configuration() {
    let alerter = ThresholdAlerter::new(5, 600_000);
    assert_eq!(alerter.get_threshold(), 5);
    assert_eq!(alerter.get_poll_interval_ms(), 600_000);
    assert_eq!(alerter.get_state(), AlertState::Unset);
}

#[test]
fn classify_uses_inclusive_bound() {
    assert_eq!(classify(5, 4), AlertState::BelowThreshold);
    assert_eq!(classify(5, 5), AlertState::BelowThreshold);
    assert_eq!(classify(5, 6), AlertState::AboveThreshold);
    assert_eq!(classify(0, 0), AlertState::BelowThreshold);
    assert_eq!(classify(0, 1), AlertState::AboveThreshold);
}

#[test]
fn single_alert_per_crossing() {
    let mut alerter = ThresholdAlerter::new(10, 1);
    assert_eq!(alerter.observe(20), None);
    // A run below the threshold: only its first sample alerts.
    assert_eq!(
        alerter.observe(7),
        Some(AlertEvent { side: AlertState::BelowThreshold, metric: 7 })
    );
    assert_eq!(alerter.observe(3), None);
    assert_eq!(alerter.observe(10), None);
    assert_eq!(alerter.observe(0), None);
    // Back above: again exactly one alert.
    assert_eq!(
        alerter.observe(11),
        Some(AlertEvent { side: AlertState::AboveThreshold, metric: 11 })
    );
    assert_eq!(alerter.observe(999), None);
}

#[test]
fn oscillation_alerts_on_each_crossing() {
    let threshold = 5u64;
    let mut alerter = ThresholdAlerter::new(threshold, 1);
    assert_eq!(alerter.observe(threshold + 1), None);
    assert_eq!(
        alerter.observe(threshold - 1),
        Some(AlertEvent { side: AlertState::BelowThreshold, metric: threshold - 1 })
    );
    assert_eq!(
        alerter.observe(threshold + 1),
        Some(AlertEvent { side: AlertState::AboveThreshold, metric: threshold + 1 })
    );
}

#[test]
fn boundary_sample_counts_as_below() {
    let threshold = 5u64;

    let mut alerter = ThresholdAlerter::new(threshold, 1);
    assert_eq!(alerter.observe(threshold + 1), None);
    assert_eq!(
        alerter.observe(threshold),
        Some(AlertEvent { side: AlertState::BelowThreshold, metric: threshold })
    );

    let mut alerter = ThresholdAlerter::new(threshold, 1);
    assert_eq!(alerter.observe(threshold), None);
    assert_eq!(alerter.get_state(), AlertState::BelowThreshold);
    assert_eq!(
        alerter.observe(threshold + 1),
        Some(AlertEvent { side: AlertState::AboveThreshold, metric: threshold + 1 })
    );
}

#[test]
fn fetch_failures_are_transparent() {
    let failures = [
        FetchError::NetworkError,
        FetchError::DecodeError,
        FetchError::Timeout,
    ];
    let mut alerter = ThresholdAlerter::new(10, 1);
    // Failures before the first sample keep the state unset.
    for failure in failures {
        assert_eq!(alerter.tick(Err(failure)), None);
        assert_eq!(alerter.get_state(), AlertState::Unset);
    }
    assert_eq!(alerter.tick(Ok(20)), None);
    // A failed tick between two samples neither adds nor suppresses an alert.
    for failure in failures {
        assert_eq!(alerter.tick(Err(failure)), None);
        assert_eq!(alerter.get_state(), AlertState::AboveThreshold);
    }
    assert_eq!(
        alerter.tick(Ok(4)),
        Some(AlertEvent { side: AlertState::BelowThreshold, metric: 4 })
    );
    assert_eq!(alerter.tick(Err(FetchError::Timeout)), None);
    assert_eq!(alerter.tick(Ok(4)), None);
}

#[test]
fn end_to_end_scenario() {
    let mut alerter = ThresholdAlerter::new(5, 1);
    let stream = [10u64, 10, 3, 3, 6];
    let expected = [
        None,
        None,
        Some(AlertEvent { side: AlertState::BelowThreshold, metric: 3 }),
        None,
        Some(AlertEvent { side: AlertState::AboveThreshold, metric: 6 }),
    ];
    for (metric, want) in stream.iter().zip(expected.iter()) {
        assert_eq!(alerter.observe(*metric), *want);
    }
}

#[test]
fn run_ticks_collects_one_result_per_tick() {
    let mut alerter = ThresholdAlerter::new(5, 1);
    let outcomes = vec![
        Ok(10),
        Err(FetchError::Timeout),
        Ok(10),
        Ok(3),
        Err(FetchError::NetworkError),
        Ok(3),
        Ok(6),
        Err(FetchError::DecodeError),
    ];
    let results = alerter.run_ticks(&outcomes);
    assert_eq!(
        results,
        vec![
            None,
            None,
            None,
            Some(AlertEvent { side: AlertState::BelowThreshold, metric: 3 }),
            None,
            None,
            Some(AlertEvent { side: AlertState::AboveThreshold, metric: 6 }),
            None,
        ]
    );
    assert_eq!(alerter.get_state(), AlertState::AboveThreshold);
}

#[test]
fn delivery_failure_does_not_roll_back() {
    let mut alerter = ThresholdAlerter::new(5, 1);
    assert_eq!(alerter.observe(10), None);
    let event = alerter.observe(3);
    assert_eq!(
        event,
        Some(AlertEvent { side: AlertState::BelowThreshold, metric: 3 })
    );
    // The delivery of `event` fails; nothing is handed back to the alerter,
    // so its state still reflects the crossing and the next same-side
    // sample stays silent.
    assert_eq!(alerter.get_state(), AlertState::BelowThreshold);
    assert_eq!(alerter.observe(3), None);
    assert_eq!(alerter.observe(5), None);
}
