use printer_monitor::schedule::{
    current_window, parse_hhmm, schedule_action, validate_schedule_times, ScheduleAction,
    ScheduleConfigStatus, StealthSchedule, TimeOfDay, Window,
};


fn t(h: u32, m: u32) -> TimeOfDay {
    TimeOfDay::from_hms_opt(h, m, 0).unwrap()
}

fn sched(enabled: bool, off: &str, on: &str) -> StealthSchedule {
    StealthSchedule {
        enabled,
        off_at: off.to_string(),
        on_at: on.to_string(),
    }
}

// --- parse_hhmm ---

#[test]
fn parse_valid() {
    assert_eq!(parse_hhmm("08:00"), Some(t(8, 0)));
    assert_eq!(parse_hhmm("8:00"), Some(t(8, 0)));
    assert_eq!(parse_hhmm("0:00"), Some(t(0, 0)));
    assert_eq!(parse_hhmm("00:00"), Some(t(0, 0)));
    assert_eq!(parse_hhmm("23:59"), Some(t(23, 59)));
    assert_eq!(parse_hhmm("  20:30  "), Some(t(20, 30)));
}

#[test]
fn parse_invalid() {
    assert_eq!(parse_hhmm(""), None);
    assert_eq!(parse_hhmm("08:0"), None); // single-digit minute is ambiguous (08:5 vs 08:50)
    assert_eq!(parse_hhmm("8:5"), None);
    assert_eq!(parse_hhmm("123:00"), None); // 3-digit hour
    assert_eq!(parse_hhmm("24:00"), None);
    assert_eq!(parse_hhmm("12:60"), None);
    assert_eq!(parse_hhmm("08-00"), None);
    assert_eq!(parse_hhmm("abcde"), None);
    assert_eq!(parse_hhmm("08:00:00"), None);
    assert_eq!(parse_hhmm(":00"), None);
    assert_eq!(parse_hhmm("08:"), None);
}

// --- Window::stealth_on ---

#[test]
fn window_stealth_mapping() {
    assert!(Window::Night.stealth_on());
    assert!(!Window::Day.stealth_on());
}

// --- current_window: typical case (off=08:00, on=20:00) ---

#[test]
fn window_typical_before_off() {
    assert_eq!(current_window(t(7, 59), t(8, 0), t(20, 0)), Window::Night);
}

#[test]
fn window_typical_at_off_boundary() {
    assert_eq!(current_window(t(8, 0), t(8, 0), t(20, 0)), Window::Day);
}

#[test]
fn window_typical_midday() {
    assert_eq!(current_window(t(14, 30), t(8, 0), t(20, 0)), Window::Day);
}

#[test]
fn window_typical_just_before_on() {
    assert_eq!(current_window(t(19, 59), t(8, 0), t(20, 0)), Window::Day);
}

#[test]
fn window_typical_at_on_boundary() {
    assert_eq!(current_window(t(20, 0), t(8, 0), t(20, 0)), Window::Night);
}

#[test]
fn window_typical_late_night() {
    assert_eq!(current_window(t(23, 30), t(8, 0), t(20, 0)), Window::Night);
    assert_eq!(current_window(t(2, 0), t(8, 0), t(20, 0)), Window::Night);
}

// --- current_window: inverted case (off=22:00, on=06:00) — Day crosses midnight ---

#[test]
fn window_inverted_in_day_before_midnight() {
    assert_eq!(current_window(t(23, 0), t(22, 0), t(6, 0)), Window::Day);
}

#[test]
fn window_inverted_in_day_after_midnight() {
    assert_eq!(current_window(t(3, 0), t(22, 0), t(6, 0)), Window::Day);
}

#[test]
fn window_inverted_at_on_boundary() {
    assert_eq!(current_window(t(6, 0), t(22, 0), t(6, 0)), Window::Night);
}

#[test]
fn window_inverted_midday_night() {
    assert_eq!(current_window(t(12, 0), t(22, 0), t(6, 0)), Window::Night);
}

#[test]
fn window_inverted_at_off_boundary() {
    assert_eq!(current_window(t(22, 0), t(22, 0), t(6, 0)), Window::Day);
}

// --- current_window: degenerate case (off == on) ---

#[test]
fn window_degenerate_always_day() {
    assert_eq!(current_window(t(0, 0), t(8, 0), t(8, 0)), Window::Day);
    assert_eq!(current_window(t(8, 0), t(8, 0), t(8, 0)), Window::Day);
    assert_eq!(current_window(t(15, 0), t(8, 0), t(8, 0)), Window::Day);
}

// --- schedule_action ---

#[test]
fn action_disabled_is_noop() {
    let s = sched(false, "08:00", "20:00");
    assert_eq!(schedule_action(&s, None, t(10, 0)), ScheduleAction::NoOp);
}

#[test]
fn action_parse_failure_is_noop() {
    let s = sched(true, "garbage", "20:00");
    assert_eq!(schedule_action(&s, None, t(10, 0)), ScheduleAction::NoOp);
}

#[test]
fn action_fresh_state_applies_current_window() {
    let s = sched(true, "08:00", "20:00");
    assert_eq!(
        schedule_action(&s, None, t(10, 0)),
        ScheduleAction::Apply(Window::Day)
    );
    assert_eq!(
        schedule_action(&s, None, t(22, 0)),
        ScheduleAction::Apply(Window::Night)
    );
}

#[test]
fn action_same_window_is_noop() {
    let s = sched(true, "08:00", "20:00");
    assert_eq!(
        schedule_action(&s, Some(Window::Day), t(10, 0)),
        ScheduleAction::NoOp
    );
    assert_eq!(
        schedule_action(&s, Some(Window::Night), t(22, 0)),
        ScheduleAction::NoOp
    );
}

#[test]
fn action_window_change_triggers_apply() {
    let s = sched(true, "08:00", "20:00");
    assert_eq!(
        schedule_action(&s, Some(Window::Night), t(8, 0)),
        ScheduleAction::Apply(Window::Day)
    );
    assert_eq!(
        schedule_action(&s, Some(Window::Day), t(20, 0)),
        ScheduleAction::Apply(Window::Night)
    );
}

// --- validate_schedule_times ---

#[test]
fn validate_disabled() {
    let s = sched(false, "garbage", "also bad");
    assert_eq!(validate_schedule_times(&s), ScheduleConfigStatus::Disabled);
}

#[test]
fn validate_ok() {
    let s = sched(true, "08:00", "20:00");
    assert_eq!(validate_schedule_times(&s), ScheduleConfigStatus::Valid);
}

#[test]
fn validate_invalid_off() {
    let s = sched(true, "nope", "20:00");
    assert_eq!(
        validate_schedule_times(&s),
        ScheduleConfigStatus::InvalidTimes
    );
}

#[test]
fn validate_invalid_on() {
    let s = sched(true, "08:00", "nope");
    assert_eq!(
        validate_schedule_times(&s),
        ScheduleConfigStatus::InvalidTimes
    );
}

// --- default ---

#[test]
fn default_schedule_disabled_with_sensible_times() {
    let s = StealthSchedule::default();
    assert!(!s.enabled);
    assert_eq!(parse_hhmm(&s.off_at), Some(t(8, 0)));
    assert_eq!(parse_hhmm(&s.on_at), Some(t(20, 0)));
}

// --- further cases ---

#[test]
fn parse_takes_digits_only() {
    assert_eq!(parse_hhmm("+8:00"), None);
    assert_eq!(parse_hhmm("8:+5"), None);
    assert_eq!(parse_hhmm("-8:00"), None);
    assert_eq!(parse_hhmm("8 :00"), None);
    assert_eq!(parse_hhmm("\u{ff18}:00"), None);
}

#[test]
fn parse_takes_any_white_space_round_it() {
    assert_eq!(parse_hhmm("\t9:07\u{a0}\n"), Some(t(9, 7)));
}

#[test]
fn parse_reads_every_time_of_day() {
    for h in 0..24 {
        for m in 0..60 {
            assert_eq!(parse_hhmm(&format!("{h:02}:{m:02}")), Some(t(h, m)));
            assert_eq!(parse_hhmm(&format!(" {h}:{m:02} ")), Some(t(h, m)));
        }
    }
}

#[test]
fn time_of_day_counts_seconds() {
    assert_eq!(
        TimeOfDay::from_hms_opt(23, 59, 58),
        Some(TimeOfDay { secs: 86398, nanos: 0 })
    );
    assert_eq!(TimeOfDay::from_hms_opt(1, 2, 3), Some(TimeOfDay { secs: 3723, nanos: 0 }));
    assert_eq!(TimeOfDay::from_hms_opt(24, 0, 0), None);
    assert_eq!(TimeOfDay::from_hms_opt(0, 60, 0), None);
    assert_eq!(TimeOfDay::from_hms_opt(0, 0, 60), None);
}

#[test]
fn times_are_ordered_to_the_nanosecond() {
    let early = TimeOfDay { secs: 28799, nanos: 1_999_999_999 };
    assert!(early.before(t(8, 0)));
    assert!(!t(8, 0).before(t(8, 0)));
    assert_eq!(current_window(early, t(8, 0), t(20, 0)), Window::Night);
    let late = TimeOfDay { secs: 28800, nanos: 1 };
    assert!(t(8, 0).before(late));
    assert_eq!(current_window(late, t(20, 0), t(8, 0)), Window::Night);
}

#[test]
fn exchanged_boundaries_exchange_the_windows() {
    for h in 0..24 {
        let day = current_window(t(h, 0), t(8, 0), t(20, 0));
        let night = current_window(t(h, 0), t(20, 0), t(8, 0));
        assert_ne!(day, night);
    }
}

#[test]
fn window_holds_over_midnight() {
    assert_eq!(
        current_window(t(23, 59), t(8, 0), t(20, 0)),
        current_window(t(0, 0), t(8, 0), t(20, 0))
    );
}

#[test]
fn failed_window_is_asked_for_again() {
    let s = sched(true, "08:00", "20:00");
    let first = schedule_action(&s, Some(Window::Night), t(8, 0));
    assert_eq!(first, ScheduleAction::Apply(Window::Day));
    assert_eq!(schedule_action(&s, Some(Window::Night), t(12, 0)), first);
    assert_eq!(schedule_action(&s, Some(Window::Day), t(12, 0)), ScheduleAction::NoOp);
}

#[test]
fn broken_schedule_never_acts() {
    for s in [sched(true, "8:5", "20:00"), sched(false, "08:00", "20:00")] {
        assert_ne!(validate_schedule_times(&s), ScheduleConfigStatus::Valid);
        for last in [None, Some(Window::Day), Some(Window::Night)] {
            assert_eq!(schedule_action(&s, last, t(9, 0)), ScheduleAction::NoOp);
        }
    }
}

#[test]
fn a_clone_of_a_schedule_says_the_same() {
    let s = sched(true, "7:15", "21:45");
    assert_eq!(s.clone(), s);
}
