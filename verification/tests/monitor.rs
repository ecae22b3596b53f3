use printer_monitor::detection::{DetectionResult, DetectionState, FrameInputs, FrameNumbers};
use printer_monitor::monitor::{
    check_escalation, monitor_cycle, poll_printer, poll_sleep, process_detection, run_turn,
    should_pause, try_pause, AlertLevel, CycleAction, CycleEvent, CycleState, MonitorState,
    RunAction, RunEvent, RunState, Toggle,
};
use printer_monitor::prusalink::PrinterState;
use printer_monitor::scalar::Scalar;
use printer_monitor::schedule::{ScheduleAction, StealthSchedule, TimeOfDay, Window};
use printer_monitor::settings::{Settings, SettingsFile};

fn scalar(x: f64) -> Scalar {
    Scalar { bits: x.to_bits() }
}

fn mon(monitoring_enabled: bool, auto_pause: bool) -> MonitorState {
    MonitorState {
        detection: DetectionState::new(scalar(1.0)),
        printer_state: PrinterState::Idle,
        alert_level: AlertLevel::Safe,
        monitoring_enabled,
        auto_pause,
        stealth_schedule: StealthSchedule::default(),
        stealth_applied: None,
    }
}

#[test]
fn alert_level_ordering() {
    assert!(AlertLevel::Safe < AlertLevel::Warning);
    assert!(AlertLevel::Warning < AlertLevel::Failing);
    assert!(AlertLevel::Safe < AlertLevel::Failing);
}

#[test]
fn alert_level_no_escalation_when_equal() {
    assert!(AlertLevel::Warning <= AlertLevel::Warning);
    assert!(AlertLevel::Failing <= AlertLevel::Failing);
}

#[test]
fn escalation_safe_resets_alert_level() {
    let mut m = mon(true, true);
    m.alert_level = AlertLevel::Warning;
    let result = check_escalation(&mut m, DetectionResult::Safe);
    assert!(result.is_none());
    assert_eq!(m.alert_level, AlertLevel::Safe);
}

#[test]
fn escalation_safe_to_warning() {
    let mut m = mon(true, true);
    let result = check_escalation(&mut m, DetectionResult::Warning { score: scalar(0.4) });
    assert!(result.is_some());
    let (alert, score, _) = result.unwrap();
    assert_eq!(alert, AlertLevel::Warning);
    assert_eq!(score, scalar(0.4));
    assert_eq!(m.alert_level, AlertLevel::Warning);
}

#[test]
fn escalation_warning_to_failing() {
    let mut m = mon(true, true);
    m.alert_level = AlertLevel::Warning;
    let result = check_escalation(&mut m, DetectionResult::Failing { score: scalar(0.7) });
    assert!(result.is_some());
    let (alert, _, _) = result.unwrap();
    assert_eq!(alert, AlertLevel::Failing);
    assert_eq!(m.alert_level, AlertLevel::Failing);
}

#[test]
fn escalation_suppressed_at_same_level() {
    let mut m = mon(true, true);
    m.alert_level = AlertLevel::Warning;
    let result = check_escalation(&mut m, DetectionResult::Warning { score: scalar(0.5) });
    assert!(result.is_none());
    // alert_level unchanged
    assert_eq!(m.alert_level, AlertLevel::Warning);
}

#[test]
fn escalation_suppressed_at_higher_level() {
    let mut m = mon(true, true);
    m.alert_level = AlertLevel::Failing;
    let result = check_escalation(&mut m, DetectionResult::Warning { score: scalar(0.4) });
    assert!(result.is_none());
    // stays at Failing, not downgraded
    assert_eq!(m.alert_level, AlertLevel::Failing);
}

#[test]
fn escalation_returns_auto_pause_setting() {
    let mut m = mon(true, false);
    let result = check_escalation(&mut m, DetectionResult::Failing { score: scalar(0.8) });
    let (_, _, auto_pause) = result.unwrap();
    assert!(!auto_pause);

    let mut m = mon(true, true);
    let result = check_escalation(&mut m, DetectionResult::Failing { score: scalar(0.8) });
    let (_, _, auto_pause) = result.unwrap();
    assert!(auto_pause);
}

#[test]
fn should_pause_only_on_failing_with_auto_pause() {
    assert!(should_pause(AlertLevel::Failing, true));
    assert!(!should_pause(AlertLevel::Failing, false));
    assert!(!should_pause(AlertLevel::Warning, true));
    assert!(!should_pause(AlertLevel::Warning, false));
    assert!(!should_pause(AlertLevel::Safe, true));
}

#[test]
fn full_flow_safe_to_warning_to_failing() {
    let mut m = mon(true, true);

    // First: safe
    let result = check_escalation(&mut m, DetectionResult::Safe);
    assert!(result.is_none());
    assert_eq!(m.alert_level, AlertLevel::Safe);

    // Escalate to warning
    let result = check_escalation(&mut m, DetectionResult::Warning { score: scalar(0.4) });
    assert!(result.is_some());
    assert_eq!(m.alert_level, AlertLevel::Warning);

    // Repeated warning suppressed
    let result = check_escalation(&mut m, DetectionResult::Warning { score: scalar(0.45) });
    assert!(result.is_none());

    // Escalate to failing
    let result = check_escalation(&mut m, DetectionResult::Failing { score: scalar(0.7) });
    assert!(result.is_some());
    assert_eq!(m.alert_level, AlertLevel::Failing);
    let (_, _, auto_pause) = result.unwrap();
    assert!(should_pause(AlertLevel::Failing, auto_pause));

    // Repeated failing suppressed
    let result = check_escalation(&mut m, DetectionResult::Failing { score: scalar(0.8) });
    assert!(result.is_none());

    // Back to safe resets
    let result = check_escalation(&mut m, DetectionResult::Safe);
    assert!(result.is_none());
    assert_eq!(m.alert_level, AlertLevel::Safe);

    // Can escalate again after reset
    let result = check_escalation(&mut m, DetectionResult::Warning { score: scalar(0.35) });
    assert!(result.is_some());
}

#[test]
fn full_flow_auto_pause_off_still_alerts_but_no_pause() {
    let mut m = mon(true, false);

    let result = check_escalation(&mut m, DetectionResult::Failing { score: scalar(0.8) });
    assert!(result.is_some());
    let (alert, _, auto_pause) = result.unwrap();
    assert_eq!(alert, AlertLevel::Failing);
    assert!(!should_pause(alert, auto_pause));
}

fn numbers(score: f64) -> FrameNumbers {
    FrameNumbers { ewm_mean: scalar(score), baseline_mean: scalar(0.0), score: scalar(score) }
}

/// A state in the midst of a print: the grace period is over.
fn printing(auto_pause: bool) -> MonitorState {
    let mut m = mon(true, auto_pause);
    m.printer_state = PrinterState::Printing;
    for _ in 0..10 {
        assert_eq!(process_detection(&mut m, Some(7), numbers(0.9)), None);
    }
    m
}

fn status(state: PrinterState, job: Option<u64>) -> CycleEvent {
    CycleEvent::Status { state, job }
}

#[test]
fn alert_levels_compare_as_they_rank() {
    let levels = [AlertLevel::Safe, AlertLevel::Warning, AlertLevel::Failing];
    for i in 0..3 {
        for j in 0..3 {
            assert_eq!(levels[i].above(levels[j]), i > j);
            assert_eq!(levels[i] < levels[j], i < j);
            assert_eq!(levels[i].partial_cmp(&levels[j]), Some(i.cmp(&j)));
        }
    }
}

#[test]
fn cycle_pauses_a_failing_print_and_reports_it() {
    let mut m = printing(true);
    let (at, action) = monitor_cycle(&mut m, true, CycleState::Start, CycleEvent::Begin);
    assert_eq!(action, CycleAction::QueryStatus);
    let (at, action) = monitor_cycle(&mut m, true, at, status(PrinterState::Printing, Some(7)));
    assert_eq!(action, CycleAction::CaptureFrame);
    let (at, action) = monitor_cycle(&mut m, true, at, CycleEvent::FrameCaptured);
    assert_eq!(action, CycleAction::Detect);
    let (at, action) = monitor_cycle(&mut m, true, at, CycleEvent::Detected);
    assert_eq!(
        action,
        CycleAction::Score(FrameInputs {
            ewm_mean: scalar(0.9),
            baseline_mean: scalar(0.0),
            divisor: 11,
            sensitivity: scalar(1.0),
        })
    );
    let (at, action) = monitor_cycle(&mut m, true, at, CycleEvent::Scored(numbers(0.7)));
    assert_eq!(action, CycleAction::Pause(7));
    assert_eq!(m.alert_level, AlertLevel::Failing);
    let (at, action) = monitor_cycle(&mut m, true, at, CycleEvent::PauseDone(true));
    assert_eq!(action, CycleAction::SendAlert { score: scalar(0.7), paused: true, job: Some(7) });
    let (at, action) = monitor_cycle(&mut m, true, at, CycleEvent::AlertSent);
    assert_eq!((at, action), (CycleState::Finished, CycleAction::Finish));
}

#[test]
fn cycle_says_when_the_printer_did_not_pause() {
    let mut m = printing(true);
    let at = CycleState::Pausing { score: scalar(0.6), job_id: 7 };
    let (_, action) = monitor_cycle(&mut m, true, at, CycleEvent::PauseDone(false));
    assert_eq!(action, CycleAction::SendAlert { score: scalar(0.6), paused: false, job: Some(7) });
}

#[test]
fn cycle_only_reports_without_auto_pause() {
    let mut m = printing(false);
    let at = CycleState::Scoring { job: Some(7) };
    let (_, action) = monitor_cycle(&mut m, true, at, CycleEvent::Scored(numbers(0.7)));
    assert_eq!(action, CycleAction::SendAlert { score: scalar(0.7), paused: false, job: Some(7) });
    let at = CycleState::Scoring { job: Some(7) };
    let (_, action) = monitor_cycle(&mut m, true, at, CycleEvent::Scored(numbers(0.9)));
    assert_eq!(action, CycleAction::Finish);
}

#[test]
fn cycle_only_reports_warnings() {
    let mut m = printing(true);
    let at = CycleState::Scoring { job: Some(7) };
    let (_, action) = monitor_cycle(&mut m, true, at, CycleEvent::Scored(numbers(0.4)));
    assert_eq!(action, CycleAction::SendAlert { score: scalar(0.4), paused: false, job: Some(7) });
    assert_eq!(m.alert_level, AlertLevel::Warning);
}

#[test]
fn cycle_without_printer_goes_straight_to_the_camera() {
    let mut m = mon(true, true);
    let (at, action) = monitor_cycle(&mut m, false, CycleState::Start, CycleEvent::Begin);
    assert_eq!(at, CycleState::Capturing { job: None });
    assert_eq!(action, CycleAction::CaptureFrame);
}

#[test]
fn cycle_with_monitoring_off_still_follows_the_printer() {
    let mut m = mon(false, true);
    let (at, action) = monitor_cycle(&mut m, true, CycleState::Start, CycleEvent::Begin);
    assert_eq!(action, CycleAction::QueryStatus);
    let (_, action) = monitor_cycle(&mut m, true, at, status(PrinterState::Printing, Some(3)));
    assert_eq!(action, CycleAction::Finish);
    assert_eq!(m.printer_state, PrinterState::Printing);
    let (_, action) = monitor_cycle(&mut m, false, CycleState::Start, CycleEvent::Begin);
    assert_eq!(action, CycleAction::Finish);
}

#[test]
fn cycle_announces_the_end_of_a_print_once() {
    let mut m = printing(true);
    m.alert_level = AlertLevel::Failing;
    let before = m.detection;
    let (at, action) =
        monitor_cycle(&mut m, true, CycleState::Polling, status(PrinterState::Finished, Some(7)));
    assert_eq!(action, CycleAction::NotifyStopped(PrinterState::Finished));
    assert_eq!(m.alert_level, AlertLevel::Safe);
    assert_eq!(m.detection.frame_count, 0);
    assert_eq!(m.detection.lifetime_frame_count, before.lifetime_frame_count);
    let (at, action) = monitor_cycle(&mut m, true, at, CycleEvent::NoticeSent);
    assert_eq!(at, CycleState::Capturing { job: None });
    assert_eq!(action, CycleAction::CaptureFrame);
    let (at, action) =
        monitor_cycle(&mut m, true, CycleState::Polling, status(PrinterState::Finished, Some(7)));
    assert_eq!(at, CycleState::Capturing { job: None });
    assert_eq!(action, CycleAction::CaptureFrame);
}

#[test]
fn no_frame_of_an_idle_printer_raises_an_alert() {
    let mut m = mon(true, true);
    for _ in 0..50 {
        let (_, _) =
            monitor_cycle(&mut m, true, CycleState::Polling, status(PrinterState::Idle, None));
        let at = CycleState::Scoring { job: None };
        let (_, action) = monitor_cycle(&mut m, true, at, CycleEvent::Scored(numbers(2.0)));
        assert_eq!(action, CycleAction::Finish);
        assert_eq!(m.alert_level, AlertLevel::Safe);
    }
}

#[test]
fn a_failure_ends_the_cycle() {
    for at in [
        CycleState::Polling,
        CycleState::Notifying,
        CycleState::Capturing { job: Some(1) },
        CycleState::Detecting { job: Some(1) },
        CycleState::Alerting,
    ] {
        let mut m = printing(true);
        let end = monitor_cycle(&mut m, true, at, CycleEvent::Failed);
        assert_eq!(end, (CycleState::Finished, CycleAction::Finish));
        assert_eq!(m.detection.lifetime_frame_count, 10);
    }
}

#[test]
fn pausing_needs_a_printer_and_a_job() {
    assert_eq!(try_pause(AlertLevel::Failing, true, true, Some(9)), Some(9));
    assert_eq!(try_pause(AlertLevel::Failing, true, true, None), None);
    assert_eq!(try_pause(AlertLevel::Failing, true, false, Some(9)), None);
    assert_eq!(try_pause(AlertLevel::Failing, false, true, Some(9)), None);
    assert_eq!(try_pause(AlertLevel::Warning, true, true, Some(9)), None);
}

#[test]
fn polling_tells_the_end_of_a_print() {
    let mut m = mon(true, true);
    assert!(!poll_printer(&mut m, PrinterState::Printing));
    assert!(!poll_printer(&mut m, PrinterState::Printing));
    assert!(poll_printer(&mut m, PrinterState::Paused));
    assert!(!poll_printer(&mut m, PrinterState::Idle));
    assert_eq!(m.printer_state, PrinterState::Idle);
}

#[test]
fn the_wait_fills_the_cycle_up() {
    assert_eq!(poll_sleep(0), 10_000_000_000);
    assert_eq!(poll_sleep(2_500_000_000), 7_500_000_000);
    assert_eq!(poll_sleep(8_999_999_999), 1_000_000_001);
    assert_eq!(poll_sleep(9_000_000_000), 1_000_000_000);
    assert_eq!(poll_sleep(10_000_000_000), 1_000_000_000);
    assert_eq!(poll_sleep(30_000_000_000), 1_000_000_000);
    assert_eq!(poll_sleep(u128::MAX), 1_000_000_000);
}

#[test]
fn a_switch_changes_alone() {
    let toggles = [Toggle::Monitor, Toggle::Autopause, Toggle::StealthSchedule];
    for toggle in toggles {
        for enable in [true, false] {
            let mut m = mon(!enable, !enable);
            m.stealth_schedule.enabled = !enable;
            m.set(toggle, enable);
            for other in toggles {
                assert_eq!(m.enabled(other), if other == toggle { enable } else { !enable });
            }
        }
    }
}

#[test]
fn a_switch_starts_alerts_over_only_while_monitoring() {
    let mut m = mon(true, true);
    m.alert_level = AlertLevel::Failing;
    m.set(Toggle::Autopause, false);
    assert_eq!(m.alert_level, AlertLevel::Safe);
    m.alert_level = AlertLevel::Failing;
    m.set(Toggle::Monitor, false);
    assert_eq!(m.alert_level, AlertLevel::Failing);
    m.set(Toggle::Autopause, true);
    assert_eq!(m.alert_level, AlertLevel::Failing);
    m.set(Toggle::Monitor, true);
    assert_eq!(m.alert_level, AlertLevel::Safe);
}

#[test]
fn settings_survive_a_restart() {
    let mut m = mon(false, true);
    m.stealth_schedule =
        StealthSchedule { enabled: true, off_at: "6:30".to_string(), on_at: "22:15".to_string() };
    m.stealth_applied = Some(Window::Night);
    let next = MonitorState::new(scalar(2.0), m.save_settings());
    assert!(!next.monitoring_enabled);
    assert!(next.auto_pause);
    assert_eq!(next.stealth_schedule, m.stealth_schedule);
    assert_eq!(next.stealth_applied, None);
    assert_eq!(next.save_settings(), m.save_settings());
    assert_eq!(next.printer_state, PrinterState::Idle);
    assert_eq!(next.detection.sensitivity, scalar(2.0));
}

#[test]
fn startup_takes_the_switches_from_the_file() {
    let file = SettingsFile {
        settings: Settings { monitoring_enabled: true, auto_pause: false },
        stealth_schedule: StealthSchedule::default(),
    };
    let m = MonitorState::new(scalar(1.0), file);
    assert!(m.monitoring_enabled);
    assert!(!m.auto_pause);
    assert_eq!(m.alert_level, AlertLevel::Safe);
}

#[test]
fn schedule_is_followed_and_retried() {
    let mut m = mon(true, true);
    m.stealth_schedule.enabled = true;
    let noon = TimeOfDay { secs: 43200, nanos: 0 };
    let night = TimeOfDay { secs: 75600, nanos: 0 };
    assert_eq!(m.stealth_tick(false, noon), ScheduleAction::NoOp);
    assert_eq!(m.stealth_tick(true, noon), ScheduleAction::Apply(Window::Day));
    assert_eq!(m.stealth_tick(true, noon), ScheduleAction::Apply(Window::Day));
    m.stealth_answered(Window::Day, false);
    assert_eq!(m.stealth_applied, None);
    assert_eq!(m.stealth_tick(true, noon), ScheduleAction::Apply(Window::Day));
    m.stealth_answered(Window::Day, true);
    assert_eq!(m.stealth_tick(true, noon), ScheduleAction::NoOp);
    assert_eq!(m.stealth_tick(true, night), ScheduleAction::Apply(Window::Night));
    m.stealth_schedule.enabled = false;
    assert_eq!(m.stealth_tick(true, night), ScheduleAction::NoOp);
}

#[test]
fn an_alert_without_a_printer_names_no_job() {
    let mut m = mon(true, true);
    for _ in 0..10 {
        assert_eq!(process_detection(&mut m, None, numbers(0.9)), None);
    }
    let at = CycleState::Scoring { job: None };
    let (_, action) = monitor_cycle(&mut m, false, at, CycleEvent::Scored(numbers(0.7)));
    assert_eq!(
        action,
        CycleAction::SendAlert { score: scalar(0.7), paused: false, job: None }
    );
}

#[test]
fn the_service_runs_until_it_is_told_to_end() {
    let mut at = RunState::Running;
    for failed in [false, true, true, false] {
        let over = RunEvent::CycleOver { failed, elapsed: 4_000_000_000 };
        let (next, action) = run_turn(at, over);
        assert_eq!(action, RunAction::Wait(6_000_000_000));
        let (next, action) = run_turn(next, RunEvent::WaitOver);
        assert_eq!((next, action), (RunState::Running, RunAction::Cycle));
        at = next;
    }
    let (at, action) = run_turn(at, RunEvent::Cancelled);
    assert_eq!((at, action), (RunState::Ended, RunAction::ShutDown));
    for event in [
        RunEvent::WaitOver,
        RunEvent::CycleOver { failed: false, elapsed: 0 },
        RunEvent::Cancelled,
    ] {
        assert_eq!(run_turn(at, event), (RunState::Ended, RunAction::ShutDown));
    }
}
