//! The watch over a print: what is remembered from cycle to cycle, when an alert is raised, when
//! the print is paused, and the order of things within a cycle.

use crate::detection::{DetectionResult, DetectionState, FrameInputs, FrameNumbers};
use crate::prusalink::PrinterState;
use crate::scalar::Scalar;
use crate::schedule::{schedule_action, ScheduleAction, StealthSchedule, TimeOfDay, Window};
use crate::settings::{Settings, SettingsFile};
use vstd::prelude::*;
use vstd::string::*;

verus! {

/// How long a cycle is meant to take with the wait after it, in nanoseconds.
pub const POLL_TARGET: u64 = 10_000_000_000;

/// How long the wait after a cycle is at least, in nanoseconds.
pub const POLL_MIN_SLEEP: u64 = 1_000_000_000;

/// How bad the print looks, as far as it was reported.
#[derive(Debug, Clone, Copy, PartialEq, Eq, Structural)]
pub enum AlertLevel {
    Safe,
    Warning,
    Failing,
}

impl AlertLevel {
    /// The place of the level in their order.
    pub open spec fn rank(self) -> int {
        match self {
            AlertLevel::Safe => 0,
            AlertLevel::Warning => 1,
            AlertLevel::Failing => 2,
        }
    }

    /// Whether this level is worse than `other`.
    pub fn above(self, other: AlertLevel) -> (r: bool)
        ensures
            r == (self.rank() > other.rank()),
    {
        match (self, other) {
            (AlertLevel::Warning, AlertLevel::Safe) => true,
            (AlertLevel::Failing, AlertLevel::Safe) => true,
            (AlertLevel::Failing, AlertLevel::Warning) => true,
            _ => false,
        }
    }
}

impl vstd::std_specs::cmp::PartialOrdSpecImpl for AlertLevel {
    open spec fn obeys_partial_cmp_spec() -> bool {
        true
    }

    open spec fn partial_cmp_spec(&self, other: &AlertLevel) -> Option<std::cmp::Ordering> {
        if self.rank() < other.rank() {
            Some(std::cmp::Ordering::Less)
        } else if self.rank() > other.rank() {
            Some(std::cmp::Ordering::Greater)
        } else {
            Some(std::cmp::Ordering::Equal)
        }
    }
}

impl PartialOrd for AlertLevel {
    fn partial_cmp(&self, other: &AlertLevel) -> (r: Option<std::cmp::Ordering>) {
        if self.above(*other) {
            Some(std::cmp::Ordering::Greater)
        } else if other.above(*self) {
            Some(std::cmp::Ordering::Less)
        } else {
            Some(std::cmp::Ordering::Equal)
        }
    }
}

/// What the service remembers from cycle to cycle.
#[derive(Debug)]
pub struct MonitorState {
    pub detection: DetectionState,
    pub printer_state: PrinterState,
    pub alert_level: AlertLevel,
    pub monitoring_enabled: bool,
    pub auto_pause: bool,
    pub stealth_schedule: StealthSchedule,
    /// The window of the schedule that the printer was last set to.
    pub stealth_applied: Option<Window>,
}

/// A switch that can be flipped while the service runs.
#[derive(Debug, Clone, Copy, PartialEq, Eq, Structural)]
pub enum Toggle {
    /// Whether frames are looked at.
    Monitor,
    /// Whether a failing print is paused.
    Autopause,
    /// Whether the stealth schedule is followed.
    StealthSchedule,
}

impl MonitorState {
    /// The detection state is consistent.
    pub open spec fn wf(self) -> bool {
        self.detection.wf()
    }

    /// There is room to count one more frame.
    pub open spec fn can_count(self) -> bool {
        self.detection.lifetime_frame_count < u64::MAX
    }

    /// Whether a switch is on.
    pub open spec fn is_on(self, toggle: Toggle) -> bool {
        match toggle {
            Toggle::Monitor => self.monitoring_enabled,
            Toggle::Autopause => self.auto_pause,
            Toggle::StealthSchedule => self.stealth_schedule.enabled,
        }
    }

    /// The state with one switch set, and nothing else changed.
    pub open spec fn with(self, toggle: Toggle, enable: bool) -> MonitorState {
        match toggle {
            Toggle::Monitor => MonitorState { monitoring_enabled: enable, ..self },
            Toggle::Autopause => MonitorState { auto_pause: enable, ..self },
            Toggle::StealthSchedule => MonitorState {
                stealth_schedule: StealthSchedule { enabled: enable, ..self.stealth_schedule },
                ..self
            },
        }
    }

    /// The state after a switch was set: while frames are looked at, alerts then start over.
    pub open spec fn toggled(self, toggle: Toggle, enable: bool) -> MonitorState {
        let next = self.with(toggle, enable);
        if next.monitoring_enabled {
            MonitorState { alert_level: AlertLevel::Safe, ..next }
        } else {
            next
        }
    }

    /// The state after the printer reported what it is doing: unless it prints, what was known
    /// of the print is forgotten.
    pub open spec fn polled(self, current: PrinterState) -> MonitorState {
        if current == PrinterState::Printing {
            MonitorState { printer_state: current, ..self }
        } else {
            MonitorState {
                printer_state: current,
                detection: self.detection.fresh_print(),
                alert_level: AlertLevel::Safe,
                ..self
            }
        }
    }

    /// The state at startup.
    pub open spec fn startup(sensitivity: Scalar, file: SettingsFile) -> MonitorState {
        MonitorState {
            detection: DetectionState {
                ewm_mean: Scalar::spec_zero(),
                baseline_mean: Scalar::spec_zero(),
                frame_count: 0,
                lifetime_frame_count: 0,
                current_job_id: None,
                sensitivity,
            },
            printer_state: PrinterState::Idle,
            alert_level: AlertLevel::Safe,
            monitoring_enabled: file.settings.monitoring_enabled,
            auto_pause: file.settings.auto_pause,
            stealth_schedule: file.stealth_schedule,
            stealth_applied: None,
        }
    }

    /// What the settings file is to hold.
    pub open spec fn saved(self) -> SettingsFile {
        SettingsFile {
            settings: Settings {
                monitoring_enabled: self.monitoring_enabled,
                auto_pause: self.auto_pause,
            },
            stealth_schedule: self.stealth_schedule,
        }
    }

    /// The state at startup.
    pub fn new(sensitivity: Scalar, file: SettingsFile) -> (r: MonitorState)
        ensures
            r == MonitorState::startup(sensitivity, file),
            r.wf(),
    {
        MonitorState {
            detection: DetectionState::new(sensitivity),
            printer_state: PrinterState::Idle,
            alert_level: AlertLevel::Safe,
            monitoring_enabled: file.settings.monitoring_enabled,
            auto_pause: file.settings.auto_pause,
            stealth_schedule: file.stealth_schedule,
            stealth_applied: None,
        }
    }

    /// What the settings file is to hold.
    pub fn save_settings(&self) -> (r: SettingsFile)
        ensures
            r == self.saved(),
    {
        Settings {
            monitoring_enabled: self.monitoring_enabled,
            auto_pause: self.auto_pause,
        }.save(&self.stealth_schedule)
    }

    /// Whether a switch is on.
    pub fn enabled(&self, toggle: Toggle) -> (r: bool)
        ensures
            r == self.is_on(toggle),
    {
        match toggle {
            Toggle::Monitor => self.monitoring_enabled,
            Toggle::Autopause => self.auto_pause,
            Toggle::StealthSchedule => self.stealth_schedule.enabled,
        }
    }

    /// Sets a switch.
    pub fn set(&mut self, toggle: Toggle, enable: bool)
        ensures
            *final(self) == old(self).toggled(toggle, enable),
    {
        match toggle {
            Toggle::Monitor => {
                self.monitoring_enabled = enable;
            },
            Toggle::Autopause => {
                self.auto_pause = enable;
            },
            Toggle::StealthSchedule => {
                self.stealth_schedule.enabled = enable;
            },
        }
        if self.monitoring_enabled {
            self.alert_level = AlertLevel::Safe;
        }
    }

    /// What the stealth schedule asks for now. A printer that cannot be reached at all is left
    /// alone.
    pub fn stealth_tick(&self, has_prusa: bool, now: TimeOfDay) -> (r: ScheduleAction)
        ensures
            r == if has_prusa {
                crate::schedule::action_at(self.stealth_schedule, self.stealth_applied, now)
            } else {
                ScheduleAction::NoOp
            },
    {
        if has_prusa {
            schedule_action(&self.stealth_schedule, self.stealth_applied, now)
        } else {
            ScheduleAction::NoOp
        }
    }

    /// The state after the printer was told what a window of the schedule says: the window counts
    /// as applied once the printer obeyed.
    pub open spec fn told(self, window: Window, obeyed: bool) -> MonitorState {
        if obeyed {
            MonitorState { stealth_applied: Some(window), ..self }
        } else {
            self
        }
    }

    /// Notes whether the printer obeyed when it was told what a window of the schedule says.
    pub fn stealth_answered(&mut self, window: Window, obeyed: bool)
        ensures
            *final(self) == old(self).told(window, obeyed),
    {
        if obeyed {
            self.stealth_applied = Some(window);
        }
    }
}

/// How long to wait after a cycle that took this long, in nanoseconds: what is left of the
/// target, but no less than the minimum.
pub open spec fn sleep_after(elapsed: nat) -> int {
    if POLL_TARGET - elapsed > POLL_MIN_SLEEP {
        POLL_TARGET - elapsed
    } else {
        POLL_MIN_SLEEP as int
    }
}

/// How long to wait after a cycle that took this long, in nanoseconds.
pub fn poll_sleep(elapsed: u128) -> (r: u64)
    ensures
        r == sleep_after(elapsed as nat),
{
    if elapsed < (POLL_TARGET - POLL_MIN_SLEEP) as u128 {
        POLL_TARGET - elapsed as u64
    } else {
        POLL_MIN_SLEEP
    }
}

/// Whether the service goes on.
#[derive(Debug, Clone, Copy, PartialEq, Eq, Structural)]
pub enum RunState {
    Running,
    Ended,
}

/// What happened to the service.
#[derive(Debug, Clone, Copy, PartialEq, Eq, Structural)]
pub enum RunEvent {
    /// A cycle is over, whether it failed or not, and took this long, in nanoseconds.
    CycleOver { failed: bool, elapsed: u128 },
    /// The wait after a cycle is over.
    WaitOver,
    /// The service was told to end.
    Cancelled,
}

/// What the service does next.
#[derive(Debug, Clone, Copy, PartialEq, Eq, Structural)]
pub enum RunAction {
    /// Run a cycle.
    Cycle,
    /// Wait this long, in nanoseconds, unless told to end.
    Wait(u64),
    /// End the listener for commands, and then the service.
    ShutDown,
}

/// How the service goes on: cycles and waits take turns, whether cycles fail or not, until it is
/// told to end.
pub open spec fn next_turn(at: RunState, event: RunEvent) -> (RunState, RunAction) {
    match (at, event) {
        (RunState::Ended, _) => (RunState::Ended, RunAction::ShutDown),
        (RunState::Running, RunEvent::Cancelled) => (RunState::Ended, RunAction::ShutDown),
        (RunState::Running, RunEvent::CycleOver { elapsed, .. }) => (
            RunState::Running,
            RunAction::Wait(sleep_after(elapsed as nat) as u64),
        ),
        (RunState::Running, RunEvent::WaitOver) => (RunState::Running, RunAction::Cycle),
    }
}

/// How the service goes on.
pub fn run_turn(at: RunState, event: RunEvent) -> (r: (RunState, RunAction))
    ensures
        r == next_turn(at, event),
{
    match (at, event) {
        (RunState::Ended, _) => (RunState::Ended, RunAction::ShutDown),
        (RunState::Running, RunEvent::Cancelled) => (RunState::Ended, RunAction::ShutDown),
        (RunState::Running, RunEvent::CycleOver { elapsed, .. }) => (
            RunState::Running,
            RunAction::Wait(poll_sleep(elapsed)),
        ),
        (RunState::Running, RunEvent::WaitOver) => (RunState::Running, RunAction::Cycle),
    }
}

/// Where a sequence of events leaves a service that was running.
pub open spec fn run_after(events: Seq<RunEvent>) -> RunState
    decreases events.len(),
{
    if events.len() == 0 {
        RunState::Running
    } else {
        next_turn(run_after(events.drop_last()), events.last()).0
    }
}

/// The level that a verdict calls for.
pub open spec fn level_of(result: DetectionResult) -> AlertLevel {
    match result {
        DetectionResult::Safe => AlertLevel::Safe,
        DetectionResult::Warning { .. } => AlertLevel::Warning,
        DetectionResult::Failing { .. } => AlertLevel::Failing,
    }
}

/// The level once a verdict is in: safe brings it down, anything else only up.
pub open spec fn next_level(level: AlertLevel, result: DetectionResult) -> AlertLevel {
    if result == DetectionResult::Safe || level_of(result).rank() > level.rank() {
        level_of(result)
    } else {
        level
    }
}

/// The alert that a verdict raises, if it calls for a worse level than was reported.
pub open spec fn escalation(level: AlertLevel, result: DetectionResult) -> Option<
    (AlertLevel, Scalar),
> {
    if level_of(result).rank() > level.rank() {
        match result {
            DetectionResult::Safe => None,
            DetectionResult::Warning { score } => Some((AlertLevel::Warning, score)),
            DetectionResult::Failing { score } => Some((AlertLevel::Failing, score)),
        }
    } else {
        None
    }
}

/// Holds a verdict against the level that was last reported. Gives the new level, the score and
/// whether to pause, where there is something new to report.
pub fn check_escalation(
    mon: &mut MonitorState,
    result: DetectionResult,
) -> (r: Option<(AlertLevel, Scalar, bool)>)
    ensures
        *final(mon) == (MonitorState {
            alert_level: next_level(old(mon).alert_level, result),
            ..*old(mon)
        }),
        r == match escalation(old(mon).alert_level, result) {
            Some((level, score)) => Some((level, score, old(mon).auto_pause)),
            None => None,
        },
{
    let (alert, score) = match result {
        DetectionResult::Safe => {
            mon.alert_level = AlertLevel::Safe;
            return None;
        },
        DetectionResult::Warning { score } => (AlertLevel::Warning, score),
        DetectionResult::Failing { score } => (AlertLevel::Failing, score),
    };
    if !alert.above(mon.alert_level) {
        return None;
    }
    mon.alert_level = alert;
    Some((alert, score, mon.auto_pause))
}

/// Whether an alert is one to pause the print for.
pub fn should_pause(alert: AlertLevel, auto_pause: bool) -> (r: bool)
    ensures
        r == (alert == AlertLevel::Failing && auto_pause),
{
    alert == AlertLevel::Failing && auto_pause
}

/// The job to pause on an alert, if there is one to pause and a way to do it.
pub open spec fn pause_target(
    alert: AlertLevel,
    auto_pause: bool,
    has_prusa: bool,
    job: Option<u64>,
) -> Option<u64> {
    if alert == AlertLevel::Failing && auto_pause && has_prusa {
        job
    } else {
        None
    }
}

/// The job to pause on an alert, if there is one to pause and a way to do it.
pub fn try_pause(
    alert: AlertLevel,
    auto_pause: bool,
    has_prusa: bool,
    job: Option<u64>,
) -> (r: Option<u64>)
    ensures
        r == pause_target(alert, auto_pause, has_prusa, job),
{
    if !should_pause(alert, auto_pause) || !has_prusa {
        return None;
    }
    job
}

/// Takes in what the printer reports. Says whether a print came to its end with it.
pub fn poll_printer(mon: &mut MonitorState, current: PrinterState) -> (r: bool)
    ensures
        *final(mon) == old(mon).polled(current),
        old(mon).wf() ==> final(mon).wf(),
        r == (old(mon).printer_state == PrinterState::Printing && current
            != PrinterState::Printing),
{
    let was_printing = mon.printer_state == PrinterState::Printing;
    mon.printer_state = current;
    if current != PrinterState::Printing {
        mon.detection.reset_per_print();
        mon.alert_level = AlertLevel::Safe;
        was_printing
    } else {
        false
    }
}

/// Takes in the numbers of a frame. Gives the new level, the score and whether to pause, where
/// there is something new to report.
pub fn process_detection(
    mon: &mut MonitorState,
    job: Option<u64>,
    numbers: FrameNumbers,
) -> (r: Option<(AlertLevel, Scalar, bool)>)
    requires
        old(mon).wf(),
        old(mon).can_count(),
    ensures
        *final(mon) == old(mon).scored(job, numbers),
        final(mon).wf(),
        r == match escalation(old(mon).alert_level, old(mon).frame_verdict(job, numbers)) {
            Some((level, score)) => Some((level, score, old(mon).auto_pause)),
            None => None,
        },
{
    let result = mon.detection.update(job, numbers);
    check_escalation(mon, result)
}

impl MonitorState {
    /// The verdict on a frame of this job with these numbers.
    pub open spec fn frame_verdict(
        self,
        job: Option<u64>,
        numbers: FrameNumbers,
    ) -> DetectionResult {
        crate::detection::verdict(
            self.detection.after_frame(job, numbers).frame_count as nat,
            numbers.score,
        )
    }

    /// The state after a frame of this job with these numbers.
    pub open spec fn scored(self, job: Option<u64>, numbers: FrameNumbers) -> MonitorState {
        MonitorState {
            detection: self.detection.after_frame(job, numbers),
            alert_level: next_level(self.alert_level, self.frame_verdict(job, numbers)),
            ..self
        }
    }
}

/// Where a cycle stands: what it waits for.
#[derive(Debug, Clone, Copy, PartialEq, Eq, Structural)]
pub enum CycleState {
    Start,
    Polling,
    Notifying,
    Capturing { job: Option<u64> },
    Detecting { job: Option<u64> },
    Scoring { job: Option<u64> },
    Pausing { score: Scalar, job_id: u64 },
    Alerting,
    Finished,
}

/// What happened outside.
#[derive(Debug, Clone, Copy, PartialEq, Eq, Structural)]
pub enum CycleEvent {
    /// It is time for a cycle.
    Begin,
    /// The printer reported its state, and the job it has.
    Status { state: PrinterState, job: Option<u64> },
    /// The end of the print was announced.
    NoticeSent,
    /// The camera gave a frame.
    FrameCaptured,
    /// The detection service looked at the frame.
    Detected,
    /// The numbers of the frame were computed.
    Scored(FrameNumbers),
    /// The printer was told to pause, and did or did not.
    PauseDone(bool),
    /// The alert was sent.
    AlertSent,
    /// What was to be done failed.
    Failed,
}

/// What is to be done next.
#[derive(Debug, Clone, Copy, PartialEq, Eq, Structural)]
pub enum CycleAction {
    /// Ask the printer for its status.
    QueryStatus,
    /// Announce that the print came to its end, and what the printer is doing now.
    NotifyStopped(PrinterState),
    /// Take a frame from the camera.
    CaptureFrame,
    /// Serve the frame, and ask the detection service to look at it.
    Detect,
    /// Compute the numbers of the frame.
    Score(FrameInputs),
    /// Tell the printer to pause the job.
    Pause(u64),
    /// Send the frame with an alert about the job, where there is one.
    SendAlert { score: Scalar, paused: bool, job: Option<u64> },
    /// The cycle is over.
    Finish,
}

/// A cycle that is over.
pub open spec fn cycle_over() -> (CycleState, CycleAction) {
    (CycleState::Finished, CycleAction::Finish)
}

/// How a cycle goes on once the printer was asked: with a frame, unless monitoring is off.
pub open spec fn after_poll(mon: MonitorState, job: Option<u64>) -> (CycleState, CycleAction) {
    if mon.monitoring_enabled {
        (CycleState::Capturing { job }, CycleAction::CaptureFrame)
    } else {
        cycle_over()
    }
}

/// How a cycle goes on after an escalation.
pub open spec fn after_escalation(
    raised: Option<(AlertLevel, Scalar)>,
    auto_pause: bool,
    has_prusa: bool,
    job: Option<u64>,
) -> (CycleState, CycleAction) {
    match raised {
        Some((level, score)) => match pause_target(level, auto_pause, has_prusa, job) {
            Some(id) => (CycleState::Pausing { score, job_id: id }, CycleAction::Pause(id)),
            None => (CycleState::Alerting, CycleAction::SendAlert { score, paused: false, job }),
        },
        None => cycle_over(),
    }
}

/// One step of a cycle: the memory after it, where the cycle then stands, and what is to be
/// done. An event that does not belong to where the cycle stands ends it.
pub open spec fn cycle_step(
    mon: MonitorState,
    has_prusa: bool,
    at: CycleState,
    event: CycleEvent,
) -> (MonitorState, (CycleState, CycleAction)) {
    match (at, event) {
        (CycleState::Start, CycleEvent::Begin) => (
            mon,
            if has_prusa {
                (CycleState::Polling, CycleAction::QueryStatus)
            } else {
                after_poll(mon, None)
            },
        ),
        (CycleState::Polling, CycleEvent::Status { state, job }) => (
            mon.polled(state),
            if state == PrinterState::Printing {
                after_poll(mon, job)
            } else if mon.printer_state == PrinterState::Printing {
                (CycleState::Notifying, CycleAction::NotifyStopped(state))
            } else {
                after_poll(mon, None)
            },
        ),
        (CycleState::Notifying, CycleEvent::NoticeSent) => (mon, after_poll(mon, None)),
        (CycleState::Capturing { job }, CycleEvent::FrameCaptured) => (
            mon,
            (CycleState::Detecting { job }, CycleAction::Detect),
        ),
        (CycleState::Detecting { job }, CycleEvent::Detected) => (
            mon,
            (CycleState::Scoring { job }, CycleAction::Score(mon.detection.inputs(job))),
        ),
        (CycleState::Scoring { job }, CycleEvent::Scored(numbers)) => (
            mon.scored(job, numbers),
            after_escalation(
                escalation(mon.alert_level, mon.frame_verdict(job, numbers)),
                mon.auto_pause,
                has_prusa,
                job,
            ),
        ),
        (CycleState::Pausing { score, job_id }, CycleEvent::PauseDone(paused)) => (
            mon,
            (CycleState::Alerting, CycleAction::SendAlert { score, paused, job: Some(job_id) }),
        ),
        _ => (mon, cycle_over()),
    }
}

/// Takes a cycle one step further.
pub fn monitor_cycle(
    mon: &mut MonitorState,
    has_prusa: bool,
    at: CycleState,
    event: CycleEvent,
) -> (r: (CycleState, CycleAction))
    requires
        old(mon).wf(),
        old(mon).can_count(),
    ensures
        *final(mon) == cycle_step(*old(mon), has_prusa, at, event).0,
        r == cycle_step(*old(mon), has_prusa, at, event).1,
        final(mon).wf(),
{
    match (at, event) {
        (CycleState::Start, CycleEvent::Begin) => if has_prusa {
            (CycleState::Polling, CycleAction::QueryStatus)
        } else {
            next_frame(mon, None)
        },
        (CycleState::Polling, CycleEvent::Status { state, job }) => {
            let stopped = poll_printer(mon, state);
            if stopped {
                (CycleState::Notifying, CycleAction::NotifyStopped(state))
            } else if state == PrinterState::Printing {
                next_frame(mon, job)
            } else {
                next_frame(mon, None)
            }
        },
        (CycleState::Notifying, CycleEvent::NoticeSent) => next_frame(mon, None),
        (CycleState::Capturing { job }, CycleEvent::FrameCaptured) => (
            CycleState::Detecting { job },
            CycleAction::Detect,
        ),
        (CycleState::Detecting { job }, CycleEvent::Detected) => (
            CycleState::Scoring { job },
            CycleAction::Score(mon.detection.frame_inputs(job)),
        ),
        (CycleState::Scoring { job }, CycleEvent::Scored(numbers)) => {
            match process_detection(mon, job, numbers) {
                Some((alert, score, auto_pause)) => match try_pause(
                    alert,
                    auto_pause,
                    has_prusa,
                    job,
                ) {
                    Some(id) => (CycleState::Pausing { score, job_id: id }, CycleAction::Pause(id)),
                    None => (
                        CycleState::Alerting,
                        CycleAction::SendAlert { score, paused: false, job },
                    ),
                },
                None => (CycleState::Finished, CycleAction::Finish),
            }
        },
        (CycleState::Pausing { score, job_id }, CycleEvent::PauseDone(paused)) => (
            CycleState::Alerting,
            CycleAction::SendAlert { score, paused, job: Some(job_id) },
        ),
        _ => (CycleState::Finished, CycleAction::Finish),
    }
}

/// How a cycle goes on once the printer was asked.
fn next_frame(mon: &MonitorState, job: Option<u64>) -> (r: (CycleState, CycleAction))
    ensures
        r == after_poll(*mon, job),
{
    if mon.monitoring_enabled {
        (CycleState::Capturing { job }, CycleAction::CaptureFrame)
    } else {
        (CycleState::Finished, CycleAction::Finish)
    }
}

/// The level that a sequence of verdicts leaves.
pub open spec fn level_after(level: AlertLevel, results: Seq<DetectionResult>) -> AlertLevel
    decreases results.len(),
{
    if results.len() == 0 {
        level
    } else {
        next_level(level_after(level, results.drop_last()), results.last())
    }
}

/// How many alerts a sequence of verdicts raises.
pub open spec fn alerts(level: AlertLevel, results: Seq<DetectionResult>) -> nat
    decreases results.len(),
{
    if results.len() == 0 {
        0
    } else {
        let before = level_after(level, results.drop_last());
        alerts(level, results.drop_last()) + if escalation(before, results.last()) is Some {
            1nat
        } else {
            0nat
        }
    }
}

/// However long a print looks bad, it is reported at most once as a warning and once as
/// failing: until a verdict is safe, there are at most as many alerts as there are levels left.
pub proof fn law_alerts_are_not_repeated(level: AlertLevel, results: Seq<DetectionResult>)
    requires
        forall|i: int| 0 <= i < results.len() ==> #[trigger] results[i] != DetectionResult::Safe,
    ensures
        alerts(level, results) <= level_after(level, results).rank() - level.rank(),
        level_after(level, results).rank() <= 2,
    decreases results.len(),
{
    if results.len() > 0 {
        let rest = results.drop_last();
        assert forall|i: int| 0 <= i < rest.len() implies #[trigger] rest[i]
            != DetectionResult::Safe by {
            assert(rest[i] == results[i]);
        }
        law_alerts_are_not_repeated(level, rest);
        assert(results.last() == results[results.len() - 1]);
    }
}

/// Until a verdict is safe, the reported level never goes down.
pub proof fn law_level_holds_until_safe(level: AlertLevel, result: DetectionResult)
    requires
        result != DetectionResult::Safe,
    ensures
        next_level(level, result).rank() >= level.rank(),
        next_level(level, result).rank() >= level_of(result).rank(),
{
}

/// A safe verdict raises no alert, and after it every other one raises one again.
pub proof fn law_safe_rearms_alerts(level: AlertLevel, result: DetectionResult)
    ensures
        escalation(level, DetectionResult::Safe) is None,
        next_level(level, DetectionResult::Safe) == AlertLevel::Safe,
        result != DetectionResult::Safe ==> escalation(
            next_level(level, DetectionResult::Safe),
            result,
        ) is Some,
{
}

/// The same verdict again raises no alert.
pub proof fn law_same_verdict_is_silent(level: AlertLevel, result: DetectionResult)
    ensures
        escalation(next_level(level, result), result) is None,
        next_level(next_level(level, result), result) == next_level(level, result),
{
}

/// A print is paused only on a frame that newly shows it failing, only with auto-pause on, and
/// only the job of that frame, through a printer that can be reached.
pub proof fn law_pauses_only_failing_prints(
    mon: MonitorState,
    has_prusa: bool,
    at: CycleState,
    event: CycleEvent,
)
    ensures
        cycle_step(mon, has_prusa, at, event).1.1 matches CycleAction::Pause(id) ==> {
            &&& has_prusa
            &&& mon.auto_pause
            &&& mon.alert_level != AlertLevel::Failing
            &&& at == CycleState::Scoring { job: Some(id) }
            &&& event matches CycleEvent::Scored(numbers)
            &&& mon.frame_verdict(Some(id), numbers) is Failing
        },
{
}

/// A frame that newly shows a print failing is always followed by an alert, whether the print is
/// paused or not: with auto-pause off, without a printer to reach or without a job at once, else
/// once the printer was told, and whether it obeyed is in the alert. The alert is about the job of
/// the frame.
pub proof fn law_failing_prints_are_reported(
    mon: MonitorState,
    has_prusa: bool,
    job: Option<u64>,
    numbers: FrameNumbers,
    later: MonitorState,
    obeyed: bool,
)
    requires
        mon.alert_level != AlertLevel::Failing,
        mon.frame_verdict(job, numbers) is Failing,
    ensures
        ({
            let (at, action) = cycle_step(
                mon,
                has_prusa,
                CycleState::Scoring { job },
                CycleEvent::Scored(numbers),
            ).1;
            if mon.auto_pause && has_prusa && job is Some {
                &&& action == CycleAction::Pause(job->0)
                &&& cycle_step(later, has_prusa, at, CycleEvent::PauseDone(obeyed)).1.1
                    == CycleAction::SendAlert { score: numbers.score, paused: obeyed, job }
            } else {
                action == CycleAction::SendAlert { score: numbers.score, paused: false, job }
            }
        }),
{
}

/// A warning is reported and nothing more: no print is paused for it.
pub proof fn law_warnings_only_notify(
    mon: MonitorState,
    has_prusa: bool,
    job: Option<u64>,
    numbers: FrameNumbers,
)
    requires
        mon.frame_verdict(job, numbers) is Warning,
    ensures
        cycle_step(
            mon,
            has_prusa,
            CycleState::Scoring { job },
            CycleEvent::Scored(numbers),
        ).1.1 == if mon.alert_level == AlertLevel::Safe {
            CycleAction::SendAlert { score: numbers.score, paused: false, job }
        } else {
            CycleAction::Finish
        },
{
}

/// With monitoring off, a cycle asks the printer for its status and does nothing with a frame.
pub proof fn law_monitoring_off_takes_no_frames(
    mon: MonitorState,
    has_prusa: bool,
    at: CycleState,
    event: CycleEvent,
)
    requires
        !mon.monitoring_enabled,
    ensures
        cycle_step(mon, has_prusa, at, event).1.1 != CycleAction::CaptureFrame,
        !cycle_step(mon, has_prusa, at, event).0.monitoring_enabled,
{
}

/// While the printer reports that it is not printing, no frame raises an alert, whatever its
/// numbers: the cycle that took in the report ends without one.
pub proof fn law_no_alert_unless_printing(
    mon: MonitorState,
    state: PrinterState,
    job: Option<u64>,
    numbers: FrameNumbers,
)
    requires
        mon.wf(),
        mon.can_count(),
        state != PrinterState::Printing,
    ensures
        ({
            let polled = cycle_step(
                mon,
                true,
                CycleState::Polling,
                CycleEvent::Status { state, job },
            ).0;
            let (scored, (_, action)) = cycle_step(
                polled,
                true,
                CycleState::Scoring { job: None },
                CycleEvent::Scored(numbers),
            );
            action == CycleAction::Finish && scored.alert_level == AlertLevel::Safe
        }),
{
}

/// The end of a print is announced exactly when the printer had been printing and reports that
/// it no longer does.
pub proof fn law_end_of_print_is_announced(
    mon: MonitorState,
    state: PrinterState,
    job: Option<u64>,
)
    ensures
        cycle_step(mon, true, CycleState::Polling, CycleEvent::Status { state, job }).1.1
            == CycleAction::NotifyStopped(state) <==> mon.printer_state == PrinterState::Printing
            && state != PrinterState::Printing,
        cycle_step(mon, true, CycleState::Polling, CycleEvent::Status { state, job }).0.printer_state
            == state,
{
}

impl CycleState {
    /// How many steps a cycle has before it at most.
    pub open spec fn steps_left(self) -> nat {
        match self {
            CycleState::Start => 8,
            CycleState::Polling => 7,
            CycleState::Notifying => 6,
            CycleState::Capturing { .. } => 5,
            CycleState::Detecting { .. } => 4,
            CycleState::Scoring { .. } => 3,
            CycleState::Pausing { .. } => 2,
            CycleState::Alerting => 1,
            CycleState::Finished => 0,
        }
    }
}

/// Every step brings a cycle nearer to its end, whatever happens outside.
pub proof fn law_cycles_end(
    mon: MonitorState,
    has_prusa: bool,
    at: CycleState,
    event: CycleEvent,
)
    requires
        at != CycleState::Finished,
    ensures
        cycle_step(mon, has_prusa, at, event).1.0.steps_left() < at.steps_left(),
        cycle_step(mon, has_prusa, at, event).1.0 == CycleState::Finished <==> cycle_step(
            mon,
            has_prusa,
            at,
            event,
        ).1.1 == CycleAction::Finish,
{
}

/// No step of a cycle touches the switches, the schedule or what was applied of it.
pub proof fn law_cycles_leave_settings_alone(
    mon: MonitorState,
    has_prusa: bool,
    at: CycleState,
    event: CycleEvent,
)
    ensures
        cycle_step(mon, has_prusa, at, event).0.saved() == mon.saved(),
        cycle_step(mon, has_prusa, at, event).0.stealth_applied == mon.stealth_applied,
{
}

/// Setting a switch sets just that one.
pub proof fn law_toggle_sets_one_switch(
    mon: MonitorState,
    toggle: Toggle,
    other: Toggle,
    enable: bool,
)
    ensures
        mon.toggled(toggle, enable).is_on(toggle) == enable,
        other != toggle ==> mon.toggled(toggle, enable).is_on(other) == mon.is_on(other),
        mon.toggled(toggle, enable).detection == mon.detection,
        mon.toggled(toggle, enable).stealth_applied == mon.stealth_applied,
        mon.toggled(toggle, enable).stealth_schedule.times() == mon.stealth_schedule.times(),
{
}

/// The switches and the schedule survive a restart: the service starts with what it last saved.
pub proof fn law_settings_survive_restart(mon: MonitorState, sensitivity: Scalar, toggle: Toggle)
    ensures
        MonitorState::startup(sensitivity, mon.saved()).is_on(toggle) == mon.is_on(toggle),
        MonitorState::startup(sensitivity, mon.saved()).stealth_schedule == mon.stealth_schedule,
        MonitorState::startup(sensitivity, mon.saved()).saved() == mon.saved(),
{
}

/// A cycle that fails does not end the service: as after any other, it waits for what is left of
/// the target time, but no less than the minimum, and then runs the next cycle.
pub proof fn law_cycles_follow_each_other(failed: bool, elapsed: u128)
    ensures
        next_turn(RunState::Running, RunEvent::CycleOver { failed, elapsed }).0 == RunState::Running,
        next_turn(RunState::Running, RunEvent::CycleOver { failed, elapsed }).1 matches RunAction::Wait(
            nanos,
        ) && nanos == sleep_after(elapsed as nat),
        next_turn(RunState::Running, RunEvent::WaitOver) == (RunState::Running, RunAction::Cycle),
{
}

/// The service ends when it is told to and for no other reason, whatever its cycles come to; and
/// from then on it starts no cycle, whatever else happens.
pub proof fn law_only_cancellation_ends_the_service(events: Seq<RunEvent>, event: RunEvent)
    ensures
        run_after(events) == RunState::Ended <==> events.contains(RunEvent::Cancelled),
        events.contains(RunEvent::Cancelled) ==> next_turn(run_after(events), event)
            == (RunState::Ended, RunAction::ShutDown),
    decreases events.len(),
{
    if events.len() > 0 {
        let rest = events.drop_last();
        law_only_cancellation_ends_the_service(rest, events.last());
        assert(events.contains(RunEvent::Cancelled) == (rest.contains(RunEvent::Cancelled)
            || events.last() == RunEvent::Cancelled)) by {
            if rest.contains(RunEvent::Cancelled) {
                let i = choose|i: int| 0 <= i < rest.len() && rest[i] == RunEvent::Cancelled;
                assert(events[i] == RunEvent::Cancelled);
            }
            if events.contains(RunEvent::Cancelled) && events.last() != RunEvent::Cancelled {
                let i = choose|i: int| 0 <= i < events.len() && events[i] == RunEvent::Cancelled;
                assert(rest[i] == RunEvent::Cancelled);
            }
        }
    }
}

/// While the printer does not obey, the schedule asks for the same again for as long as the window
/// lasts; once it obeys, nothing more is asked in that window.
pub proof fn law_stealth_is_retried(
    mon: MonitorState,
    now: TimeOfDay,
    later: TimeOfDay,
    window: Window,
)
    requires
        crate::schedule::action_at(mon.stealth_schedule, mon.stealth_applied, now)
            == ScheduleAction::Apply(window),
        mon.stealth_schedule.times() matches Some((off, on)) && crate::schedule::window_at(
            later,
            off,
            on,
        ) == window,
    ensures
        ({
            let failed = mon.told(window, false);
            crate::schedule::action_at(failed.stealth_schedule, failed.stealth_applied, later)
                == ScheduleAction::Apply(window)
        }),
        ({
            let done = mon.told(window, true);
            crate::schedule::action_at(done.stealth_schedule, done.stealth_applied, later)
                == ScheduleAction::NoOp
        }),
{
}

/// A cycle and the wait after it together take the target time, or longer only where the cycle
/// itself leaves less than the minimum wait.
pub proof fn law_cycles_keep_the_pace(elapsed: nat)
    ensures
        POLL_MIN_SLEEP <= sleep_after(elapsed) <= POLL_TARGET,
        elapsed + sleep_after(elapsed) >= POLL_TARGET,
        elapsed + POLL_MIN_SLEEP <= POLL_TARGET ==> elapsed + sleep_after(elapsed) == POLL_TARGET,
{
}

/// A failing print is worse than one to warn of, and that is worse than a safe one.
pub proof fn law_levels_are_ordered(a: AlertLevel, b: AlertLevel)
    ensures
        AlertLevel::Safe.rank() < AlertLevel::Warning.rank() < AlertLevel::Failing.rank(),
        a.rank() == b.rank() <==> a == b,
{
}

/// A verdict is reported exactly where it is worse than the level so far, with its score, and is
/// then the level; a safe verdict brings the level down to safe, and any other leaves it.
pub proof fn law_levels_rise_with_reports(level: AlertLevel, score: Scalar)
    ensures
        ({
            let warning = DetectionResult::Warning { score };
            &&& level == AlertLevel::Safe ==> escalation(level, warning) == Some(
                (AlertLevel::Warning, score),
            )
            &&& level != AlertLevel::Safe ==> escalation(level, warning) is None
            &&& level != AlertLevel::Failing ==> next_level(level, warning) == AlertLevel::Warning
            &&& level == AlertLevel::Failing ==> next_level(level, warning) == AlertLevel::Failing
        }),
        ({
            let failing = DetectionResult::Failing { score };
            &&& level != AlertLevel::Failing ==> escalation(level, failing) == Some(
                (AlertLevel::Failing, score),
            )
            &&& level == AlertLevel::Failing ==> escalation(level, failing) is None
            &&& next_level(level, failing) == AlertLevel::Failing
        }),
        escalation(level, DetectionResult::Safe) is None,
        next_level(level, DetectionResult::Safe) == AlertLevel::Safe,
{
}

/// A job is paused exactly where it is failing, auto-pause is on, the printer can be reached and the
/// job is known; and then that very job.
pub proof fn law_pause_has_its_reasons(
    alert: AlertLevel,
    auto_pause: bool,
    has_prusa: bool,
    job: Option<u64>,
    id: u64,
)
    ensures
        pause_target(alert, auto_pause, has_prusa, job) == Some(id) <==> alert
            == AlertLevel::Failing && auto_pause && has_prusa && job == Some(id),
{
}

/// While the printer keeps printing, asking it changes nothing that is known of the print: neither
/// the level that was reported, nor the frames. Once it does not print, both are forgotten, but for
/// what spans prints. The switches and the schedule stay either way.
pub proof fn law_polls_keep_a_running_print(
    mon: MonitorState,
    state: PrinterState,
    job: Option<u64>,
)
    ensures
        ({
            let after = cycle_step(
                mon,
                true,
                CycleState::Polling,
                CycleEvent::Status { state, job },
            ).0;
            &&& after == mon.polled(state)
            &&& after.printer_state == state
            &&& state == PrinterState::Printing ==> after.alert_level == mon.alert_level
                && after.detection == mon.detection
            &&& state != PrinterState::Printing ==> after.alert_level == AlertLevel::Safe
                && after.detection.frame_count == 0 && after.detection.ewm_mean.bits == 0
            &&& after.detection.baseline_mean == mon.detection.baseline_mean
            &&& after.detection.lifetime_frame_count == mon.detection.lifetime_frame_count
            &&& after.detection.current_job_id == mon.detection.current_job_id
            &&& after.detection.sensitivity == mon.detection.sensitivity
            &&& after.monitoring_enabled == mon.monitoring_enabled
            &&& after.auto_pause == mon.auto_pause
            &&& after.stealth_schedule == mon.stealth_schedule
            &&& after.stealth_applied == mon.stealth_applied
        }),
{
}

/// What a scored frame comes to: a safe one ends the cycle and the alarm; a warning is sent where
/// none was, and a failing one where none was sent as failing, or the job is paused first. Besides
/// the level and the frames nothing changes.
pub proof fn law_scored_frames_are_acted_on(
    mon: MonitorState,
    has_prusa: bool,
    job: Option<u64>,
    numbers: FrameNumbers,
)
    ensures
        ({
            let (after, (at, action)) = cycle_step(
                mon,
                has_prusa,
                CycleState::Scoring { job },
                CycleEvent::Scored(numbers),
            );
            let score = numbers.score;
            let frame = mon.detection.after_frame(job, numbers).frame_count as nat;
            let alert = CycleAction::SendAlert { score, paused: false, job };
            &&& match crate::detection::verdict(frame, score) {
                DetectionResult::Safe => action == CycleAction::Finish && after.alert_level
                    == AlertLevel::Safe,
                DetectionResult::Warning { .. } => if mon.alert_level == AlertLevel::Safe {
                    action == alert && after.alert_level == AlertLevel::Warning
                } else {
                    action == CycleAction::Finish && after.alert_level == mon.alert_level
                },
                DetectionResult::Failing { .. } => after.alert_level == AlertLevel::Failing
                    && if mon.alert_level == AlertLevel::Failing {
                    action == CycleAction::Finish
                } else if mon.auto_pause && has_prusa && job is Some {
                    action == CycleAction::Pause(job->0) && at == (CycleState::Pausing {
                        score,
                        job_id: job->0,
                    })
                } else {
                    action == alert
                },
            }
            &&& after.detection == mon.detection.after_frame(job, numbers)
            &&& after.printer_state == mon.printer_state
            &&& after.saved() == mon.saved()
            &&& after.stealth_applied == mon.stealth_applied
        }),
{
}

/// A cycle takes its course: the printer is asked first, where there is one; then, with monitoring
/// on, a frame is taken, looked at and scored, for the job of a printer that prints and for none
/// otherwise; the end of a print is announced before that. A pause is followed by the alert.
pub proof fn law_cycles_take_their_course(
    mon: MonitorState,
    has_prusa: bool,
    job: Option<u64>,
    state: PrinterState,
    score: Scalar,
    job_id: u64,
    obeyed: bool,
)
    ensures
        ({
            let capture = |about: Option<u64>|
                if mon.monitoring_enabled {
                    (CycleState::Capturing { job: about }, CycleAction::CaptureFrame)
                } else {
                    (CycleState::Finished, CycleAction::Finish)
                };
            &&& cycle_step(mon, true, CycleState::Start, CycleEvent::Begin).1 == (
                CycleState::Polling,
                CycleAction::QueryStatus,
            )
            &&& cycle_step(mon, false, CycleState::Start, CycleEvent::Begin).1 == capture(None)
            &&& cycle_step(
                mon,
                has_prusa,
                CycleState::Polling,
                CycleEvent::Status { state, job },
            ).1 == if state == PrinterState::Printing {
                capture(job)
            } else if mon.printer_state == PrinterState::Printing {
                (CycleState::Notifying, CycleAction::NotifyStopped(state))
            } else {
                capture(None)
            }
            &&& cycle_step(mon, has_prusa, CycleState::Notifying, CycleEvent::NoticeSent).1
                == capture(None)
            &&& cycle_step(
                mon,
                has_prusa,
                CycleState::Capturing { job },
                CycleEvent::FrameCaptured,
            ).1 == (CycleState::Detecting { job }, CycleAction::Detect)
            &&& cycle_step(
                mon,
                has_prusa,
                CycleState::Detecting { job },
                CycleEvent::Detected,
            ).1 == (CycleState::Scoring { job }, CycleAction::Score(mon.detection.inputs(job)))
            &&& cycle_step(
                mon,
                has_prusa,
                CycleState::Pausing { score, job_id },
                CycleEvent::PauseDone(obeyed),
            ).1 == (
                CycleState::Alerting,
                CycleAction::SendAlert { score, paused: obeyed, job: Some(job_id) },
            )
            &&& cycle_step(mon, has_prusa, CycleState::Alerting, CycleEvent::AlertSent).1 == (
                CycleState::Finished,
                CycleAction::Finish,
            )
        }),
{
}

/// Only a report of the printer and a scored frame change what is remembered; and a failure, like
/// anything else that a cycle does not wait for, ends it.
pub proof fn law_failures_end_cycles_and_change_nothing(
    mon: MonitorState,
    has_prusa: bool,
    at: CycleState,
    event: CycleEvent,
)
    ensures
        !(event is Status && at is Polling) && !(event is Scored && at is Scoring) ==> cycle_step(
            mon,
            has_prusa,
            at,
            event,
        ).0 == mon,
        event is Failed || at is Finished ==> cycle_step(mon, has_prusa, at, event).1 == (
            CycleState::Finished,
            CycleAction::Finish,
        ),
        match (at, event) {
            (CycleState::Start, CycleEvent::Begin) => true,
            (CycleState::Polling, CycleEvent::Status { .. }) => true,
            (CycleState::Notifying, CycleEvent::NoticeSent) => true,
            (CycleState::Capturing { .. }, CycleEvent::FrameCaptured) => true,
            (CycleState::Detecting { .. }, CycleEvent::Detected) => true,
            (CycleState::Scoring { .. }, CycleEvent::Scored(_)) => true,
            (CycleState::Pausing { .. }, CycleEvent::PauseDone(_)) => true,
            _ => cycle_step(mon, has_prusa, at, event).1.1 == CycleAction::Finish,
        },
{
}

/// A cycle in the midst of a print: the printer reports that it prints this job, and the frame is
/// scored. What is remembered after it, and what is done about the frame.
pub open spec fn print_cycle(mon: MonitorState, job: u64, numbers: FrameNumbers) -> (
    MonitorState,
    CycleAction,
) {
    let polled = cycle_step(
        mon,
        true,
        CycleState::Polling,
        CycleEvent::Status { state: PrinterState::Printing, job: Some(job) },
    ).0;
    let (after, (_, action)) = cycle_step(
        polled,
        true,
        CycleState::Scoring { job: Some(job) },
        CycleEvent::Scored(numbers),
    );
    (after, action)
}

/// What is remembered after a sequence of such cycles.
pub open spec fn print_cycles(mon: MonitorState, job: u64, frames: Seq<FrameNumbers>) -> MonitorState
    decreases frames.len(),
{
    if frames.len() == 0 {
        mon
    } else {
        print_cycle(print_cycles(mon, job, frames.drop_last()), job, frames.last()).0
    }
}

/// How many of such cycles report this level, by pausing the print or by an alert.
pub open spec fn reports_of(
    mon: MonitorState,
    job: u64,
    frames: Seq<FrameNumbers>,
    level: AlertLevel,
) -> nat
    decreases frames.len(),
{
    if frames.len() == 0 {
        0
    } else {
        let before = print_cycles(mon, job, frames.drop_last());
        let (after, action) = print_cycle(before, job, frames.last());
        reports_of(mon, job, frames.drop_last(), level) + if action != CycleAction::Finish
            && after.alert_level == level {
            1nat
        } else {
            0nat
        }
    }
}

/// Over whole cycles in which the printer keeps printing the same job and no verdict is safe, each
/// level is reported at most once, and not at all where it or a worse one was reported before.
pub proof fn law_each_level_is_reported_once(
    mon: MonitorState,
    job: u64,
    frames: Seq<FrameNumbers>,
    level: AlertLevel,
)
    requires
        mon.wf(),
        mon.detection.lifetime_frame_count + frames.len() <= u64::MAX,
        forall|i: int|
            0 <= i < frames.len() ==> print_cycles(mon, job, frames.take(i)).frame_verdict(
                Some(job),
                #[trigger] frames[i],
            ) != DetectionResult::Safe,
    ensures
        reports_of(mon, job, frames, level) <= 1,
        mon.alert_level.rank() >= level.rank() ==> reports_of(mon, job, frames, level) == 0,
        print_cycles(mon, job, frames).alert_level.rank() >= mon.alert_level.rank(),
        reports_of(mon, job, frames, level) > 0 ==> print_cycles(
            mon,
            job,
            frames,
        ).alert_level.rank() >= level.rank(),
    decreases frames.len(),
{
    if frames.len() > 0 {
        let rest = frames.drop_last();
        assert forall|i: int| 0 <= i < rest.len() implies print_cycles(
            mon,
            job,
            rest.take(i),
        ).frame_verdict(Some(job), #[trigger] rest[i]) != DetectionResult::Safe by {
            assert(rest.take(i) =~= frames.take(i));
            assert(rest[i] == frames[i]);
        }
        law_each_level_is_reported_once(mon, job, rest, level);
        let before = print_cycles(mon, job, rest);
        assert(frames.take(frames.len() - 1) =~= rest);
        assert(frames.last() == frames[frames.len() - 1]);
        assert(before.frame_verdict(Some(job), frames.last()) != DetectionResult::Safe);
        law_polls_keep_a_running_print(before, PrinterState::Printing, Some(job));
        law_scored_frames_are_acted_on(
            before.polled(PrinterState::Printing),
            true,
            Some(job),
            frames.last(),
        );
    }
}

/// A print that was reported as failing and still looks so is not reported again, cycle after cycle.
pub proof fn law_known_failures_stay_silent(mon: MonitorState, job: u64, numbers: FrameNumbers)
    requires
        mon.alert_level == AlertLevel::Failing,
        mon.frame_verdict(Some(job), numbers) != DetectionResult::Safe,
    ensures
        print_cycle(mon, job, numbers).1 == CycleAction::Finish,
        print_cycle(mon, job, numbers).0.alert_level == AlertLevel::Failing,
{
}

/// The verdict on a frame is that on its number in its print, and its score.
pub proof fn law_frames_are_judged_by_their_number(
    mon: MonitorState,
    job: Option<u64>,
    numbers: FrameNumbers,
)
    requires
        mon.wf(),
        mon.can_count(),
    ensures
        job is None || job == mon.detection.current_job_id ==> mon.frame_verdict(job, numbers)
            == crate::detection::verdict(mon.detection.frame_count as nat + 1, numbers.score),
        job is Some && job != mon.detection.current_job_id ==> mon.frame_verdict(job, numbers)
            == DetectionResult::Safe,
{
}

/// Setting a switch starts alerts over while frames are looked at, and else leaves the level; what
/// is known of the printer and the times of the schedule stay.
pub proof fn law_toggles_rearm_alerts(mon: MonitorState, toggle: Toggle, enable: bool)
    ensures
        ({
            let after = mon.toggled(toggle, enable);
            &&& after.monitoring_enabled ==> after.alert_level == AlertLevel::Safe
            &&& !after.monitoring_enabled ==> after.alert_level == mon.alert_level
            &&& after.printer_state == mon.printer_state
            &&& after.stealth_schedule.off_at == mon.stealth_schedule.off_at
            &&& after.stealth_schedule.on_at == mon.stealth_schedule.on_at
            &&& after.monitoring_enabled == if toggle == Toggle::Monitor {
                enable
            } else {
                mon.monitoring_enabled
            }
            &&& after.auto_pause == if toggle == Toggle::Autopause {
                enable
            } else {
                mon.auto_pause
            }
            &&& after.stealth_schedule.enabled == if toggle == Toggle::StealthSchedule {
                enable
            } else {
                mon.stealth_schedule.enabled
            }
        }),
        mon.is_on(Toggle::Monitor) == mon.monitoring_enabled,
        mon.is_on(Toggle::Autopause) == mon.auto_pause,
        mon.is_on(Toggle::StealthSchedule) == mon.stealth_schedule.enabled,
{
}

/// The settings file holds the switches and the schedule as they are, and the service starts with
/// what the file holds, knowing of no print, no alert and no window that was applied.
pub proof fn law_startup_takes_the_file(mon: MonitorState, sensitivity: Scalar, file: SettingsFile)
    ensures
        mon.saved().settings.monitoring_enabled == mon.monitoring_enabled,
        mon.saved().settings.auto_pause == mon.auto_pause,
        mon.saved().stealth_schedule == mon.stealth_schedule,
        ({
            let start = MonitorState::startup(sensitivity, file);
            &&& start.monitoring_enabled == file.settings.monitoring_enabled
            &&& start.auto_pause == file.settings.auto_pause
            &&& start.stealth_schedule == file.stealth_schedule
            &&& start.stealth_applied is None
            &&& start.alert_level == AlertLevel::Safe
            &&& start.printer_state == PrinterState::Idle
            &&& start.detection.sensitivity == sensitivity
            &&& start.detection.frame_count == 0
            &&& start.detection.lifetime_frame_count == 0
            &&& start.detection.current_job_id is None
            &&& start.detection.ewm_mean.bits == 0
            &&& start.detection.baseline_mean.bits == 0
        }),
{
}

/// A window counts as applied once the printer obeyed, and only then; nothing else changes.
pub proof fn law_only_obeyed_windows_count(mon: MonitorState, window: Window, obeyed: bool)
    ensures
        mon.told(window, obeyed).stealth_applied == if obeyed {
            Some(window)
        } else {
            mon.stealth_applied
        },
        mon.told(window, obeyed).saved() == mon.saved(),
        mon.told(window, obeyed).detection == mon.detection,
        mon.told(window, obeyed).alert_level == mon.alert_level,
        mon.told(window, obeyed).printer_state == mon.printer_state,
{
}

/// The wait after a cycle is what the cycle leaves of ten seconds, and a second where it leaves less.
pub proof fn law_waits_fill_ten_seconds(elapsed: nat)
    ensures
        elapsed <= 9_000_000_000 ==> elapsed + sleep_after(elapsed) == 10_000_000_000,
        elapsed > 9_000_000_000 ==> sleep_after(elapsed) == 1_000_000_000,
{
}

} // verus!
