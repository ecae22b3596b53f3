use printer_monitor::detection::{
    DetectionResult, DetectionState, FrameInputs, FrameNumbers, BASELINE_WINDOW, GRACE_FRAMES,
    THRESHOLD_FAILING, THRESHOLD_WARNING,
};
use printer_monitor::scalar::Scalar;

const EWM_ALPHA: f64 = 2.0 / (12.0 + 1.0);

fn scalar(x: f64) -> Scalar {
    Scalar { bits: x.to_bits() }
}

fn value(x: Scalar) -> f64 {
    f64::from_bits(x.bits)
}

fn numbers(inputs: FrameInputs, confidences: &[f64]) -> FrameNumbers {
    let p: f64 = confidences.iter().sum();
    let ewm = p * EWM_ALPHA + value(inputs.ewm_mean) * (1.0 - EWM_ALPHA);
    let old = value(inputs.baseline_mean);
    let baseline = old + (p - old) / inputs.divisor as f64;
    FrameNumbers {
        ewm_mean: scalar(ewm),
        baseline_mean: scalar(baseline),
        score: scalar(((ewm - baseline) * value(inputs.sensitivity)).max(0.0) + 0.0),
    }
}

fn update(state: &mut DetectionState, confidences: &[f64], job: Option<u64>) -> DetectionResult {
    let n = numbers(state.frame_inputs(job), confidences);
    state.update(job, n)
}

fn new_state(sensitivity: f64) -> DetectionState {
    DetectionState::new(scalar(sensitivity))
}

#[test]
fn grace_period_returns_safe() {
    let mut state = new_state(1.0);
    for _ in 0..200 {
        update(&mut state, &[], None);
    }
    state.reset_per_print();

    let high = [0.85, 0.85, 0.80];
    for _ in 0..10 {
        assert_eq!(update(&mut state, &high, None), DetectionResult::Safe);
    }
    assert_ne!(update(&mut state, &high, None), DetectionResult::Safe);
}

#[test]
fn ewm_update_math() {
    let mut state = new_state(1.0);
    update(&mut state, &[0.9], None);
    let expected = 0.9 * EWM_ALPHA;
    assert!((value(state.ewm_mean) - expected).abs() < 1e-10);

    update(&mut state, &[0.9], None);
    let expected = 0.9 * EWM_ALPHA + expected * (1.0 - EWM_ALPHA);
    assert!((value(state.ewm_mean) - expected).abs() < 1e-10);
}

#[test]
fn baseline_mean_math() {
    let mut state = new_state(1.0);
    update(&mut state, &[0.6], None);
    assert!((value(state.baseline_mean) - 0.6).abs() < 1e-10);
    update(&mut state, &[0.4], None);
    assert!((value(state.baseline_mean) - 0.5).abs() < 1e-10);
    update(&mut state, &[0.8], None);
    assert!((value(state.baseline_mean) - 0.6).abs() < 1e-10);
}

#[test]
fn sustained_high_confidence_triggers_warning_then_failing() {
    let mut state = new_state(1.0);
    for _ in 0..200 {
        update(&mut state, &[], None);
    }
    state.reset_per_print();

    let mut saw_warning = false;
    for _ in 0..60 {
        if matches!(
            update(&mut state, &[0.3, 0.3], None),
            DetectionResult::Warning { .. }
        ) {
            saw_warning = true;
            break;
        }
    }
    assert!(saw_warning, "should have seen Warning with p=0.6");

    let mut saw_failing = false;
    for _ in 0..60 {
        if matches!(
            update(&mut state, &[0.85, 0.85, 0.80], None),
            DetectionResult::Failing { .. }
        ) {
            saw_failing = true;
            break;
        }
    }
    assert!(saw_failing, "should have seen Failing with p=2.5");
}

#[test]
fn single_spike_then_low_returns_to_safe() {
    let mut state = new_state(1.0);
    for _ in 0..15 {
        update(&mut state, &[], None);
    }
    assert_eq!(update(&mut state, &[0.95], None), DetectionResult::Safe);
    for _ in 0..10 {
        assert_eq!(update(&mut state, &[], None), DetectionResult::Safe);
    }
}

#[test]
fn job_id_change_resets_per_print() {
    let mut state = new_state(1.0);
    for _ in 0..40 {
        update(&mut state, &[0.8], Some(1));
    }
    assert!(value(state.ewm_mean) > 0.5);
    let long_before = value(state.baseline_mean);

    update(&mut state, &[], Some(2));
    assert!(
        value(state.ewm_mean) < 0.01,
        "ewm should be near 0 after reset + zero input, got {}",
        value(state.ewm_mean)
    );
    assert_eq!(state.frame_count, 1);
    assert!(
        (value(state.baseline_mean) - long_before).abs() < 0.1,
        "baseline_mean should be approximately preserved"
    );
    assert_eq!(state.lifetime_frame_count, 41);
    assert_eq!(state.current_job_id, Some(2));
}

#[test]
fn reset_per_print_clears_state() {
    let mut state = new_state(1.0);
    for _ in 0..40 {
        update(&mut state, &[0.8], Some(1));
    }
    assert!(value(state.ewm_mean) > 0.5);

    let before = state;
    state.reset_per_print();
    assert!(
        value(state.ewm_mean) < 0.01,
        "ewm should be reset, got {}",
        value(state.ewm_mean)
    );
    assert_eq!(state.baseline_mean, before.baseline_mean);
    assert_eq!(state.lifetime_frame_count, before.lifetime_frame_count);

    let result = update(&mut state, &[0.9], Some(1));
    assert_eq!(result, DetectionResult::Safe);
    assert_eq!(state.frame_count, 1);
}

#[test]
fn no_prusalink_mode_no_reset() {
    let mut state = new_state(1.0);
    for _ in 0..40 {
        update(&mut state, &[0.7], None);
    }
    let ewm = value(state.ewm_mean);
    assert!(ewm > 0.4, "should have built up ewm, got {ewm}");
    assert_eq!(state.frame_count, 40);
}

#[test]
fn high_baseline_needs_bigger_spike() {
    let mut state = new_state(1.0);
    for _ in 0..1000 {
        update(&mut state, &[0.3], None);
    }
    assert!(
        (value(state.baseline_mean) - 0.3).abs() < 0.05,
        "long mean should be ~0.3, got {}",
        value(state.baseline_mean)
    );
    state.reset_per_print();
    for _ in 0..50 {
        update(&mut state, &[0.5], None);
    }
    assert_eq!(
        update(&mut state, &[0.5], None),
        DetectionResult::Safe,
        "should be safe because baseline is high"
    );
}

#[test]
fn sensitivity_multiplier() {
    let mut high = new_state(1.2);
    let mut normal = new_state(1.0);
    for _ in 0..200 {
        update(&mut high, &[], None);
        update(&mut normal, &[], None);
    }
    high.reset_per_print();
    normal.reset_per_print();

    let dets = [0.7, 0.7];
    let mut high_warn_frame: Option<u32> = None;
    let mut normal_warn_frame: Option<u32> = None;
    for i in 0..80 {
        if update(&mut high, &dets, None) != DetectionResult::Safe && high_warn_frame.is_none() {
            high_warn_frame = Some(i);
        }
        if update(&mut normal, &dets, None) != DetectionResult::Safe && normal_warn_frame.is_none()
        {
            normal_warn_frame = Some(i);
        }
    }
    assert!(high_warn_frame.is_some(), "high sensitivity should have warned");
    assert!(
        high_warn_frame.unwrap() <= normal_warn_frame.unwrap_or(u32::MAX),
        "high sensitivity should warn at or before normal"
    );
}

#[test]
fn thresholds_are_the_nearest_doubles() {
    assert_eq!(THRESHOLD_WARNING, 0.35f64.to_bits());
    assert_eq!(THRESHOLD_FAILING, 0.55f64.to_bits());
    assert_eq!(GRACE_FRAMES, 10);
}

fn verdict_at(score: f64) -> DetectionResult {
    let mut state = new_state(1.0);
    let zero = scalar(0.0);
    for _ in 0..10 {
        let n = FrameNumbers { ewm_mean: zero, baseline_mean: zero, score: zero };
        state.update(None, n);
    }
    let n = FrameNumbers { ewm_mean: zero, baseline_mean: zero, score: scalar(score) };
    state.update(None, n)
}

#[test]
fn thresholds_are_included() {
    assert_eq!(verdict_at(0.35), DetectionResult::Warning { score: scalar(0.35) });
    assert_eq!(verdict_at(0.55), DetectionResult::Failing { score: scalar(0.55) });
    assert_eq!(verdict_at(0.3499999999999999), DetectionResult::Safe);
    assert_eq!(
        verdict_at(0.5499999999999999),
        DetectionResult::Warning { score: scalar(0.5499999999999999) }
    );
    assert_eq!(
        verdict_at(f64::INFINITY),
        DetectionResult::Failing { score: scalar(f64::INFINITY) }
    );
}

#[test]
fn odd_scores_are_safe() {
    assert_eq!(verdict_at(f64::NAN), DetectionResult::Safe);
    assert_eq!(verdict_at(-1.0), DetectionResult::Safe);
    assert_eq!(verdict_at(-0.0), DetectionResult::Safe);
    assert_eq!(verdict_at(f64::NEG_INFINITY), DetectionResult::Safe);
}

#[test]
fn baseline_divisor_is_capped() {
    let mut state = new_state(1.0);
    assert_eq!(state.frame_inputs(None).divisor, 1);
    state.lifetime_frame_count = 7198;
    assert_eq!(state.frame_inputs(None).divisor, 7199);
    state.lifetime_frame_count = 7199;
    assert_eq!(state.frame_inputs(None).divisor, 7200);
    state.lifetime_frame_count = 1_000_000;
    assert_eq!(state.frame_inputs(None).divisor, BASELINE_WINDOW);
}

#[test]
fn inputs_of_another_job_start_from_zero() {
    let mut state = new_state(1.0);
    update(&mut state, &[0.8], Some(1));
    assert_eq!(state.frame_inputs(Some(1)).ewm_mean, state.ewm_mean);
    assert_eq!(state.frame_inputs(None).ewm_mean, state.ewm_mean);
    assert_eq!(state.frame_inputs(Some(2)).ewm_mean, scalar(0.0));
    assert_eq!(state.frame_inputs(Some(2)).baseline_mean, state.baseline_mean);
}

#[test]
fn a_more_sensitive_watch_is_never_milder() {
    let rank = |r: DetectionResult| match r {
        DetectionResult::Safe => 0,
        DetectionResult::Warning { .. } => 1,
        DetectionResult::Failing { .. } => 2,
    };
    let mut low = new_state(0.5);
    let mut high = new_state(2.0);
    for i in 0..300 {
        if i % 90 == 0 {
            low.reset_per_print();
            high.reset_per_print();
        }
        let frame = if i % 7 < 4 { [0.6, 0.5] } else { [0.1, 0.0] };
        let mild = rank(update(&mut low, &frame, Some(i / 120)));
        let severe = rank(update(&mut high, &frame, Some(i / 120)));
        assert!(mild <= severe);
        assert_eq!(low.ewm_mean, high.ewm_mean);
        assert_eq!(low.frame_count, high.frame_count);
    }
}
