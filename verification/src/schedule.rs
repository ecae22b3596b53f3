//! The stealth schedule: when the printer is to be quiet, and when it is told so.

use crate::text;
use chrono::Timelike;
use vstd::prelude::*;
use vstd::string::*;

verus! {

/// A time of day: whole seconds since midnight, and nanoseconds past the second.
///
/// A leap second is written as the second before it with a billion nanoseconds or more.
#[derive(Debug, Clone, Copy, PartialEq, Eq, Structural)]
pub struct TimeOfDay {
    pub secs: u32,
    pub nanos: u32,
}

/// The time of day at an hour, a minute and a second, if there is one.
pub open spec fn time_at(hour: int, min: int, sec: int) -> Option<TimeOfDay> {
    if 0 <= hour < 24 && 0 <= min < 60 && 0 <= sec < 60 {
        Some(TimeOfDay { secs: (hour * 3600 + min * 60 + sec) as u32, nanos: 0 })
    } else {
        None
    }
}

/// `chrono::NaiveTime::from_hms_opt`, read back with `num_seconds_from_midnight` and
/// `nanosecond`: there is a time exactly for an hour below 24, a minute below 60 and a second
/// below 60, and it is that many seconds after midnight, with no fraction.
#[verifier::external_body]
fn naive_time(hour: u32, min: u32, sec: u32) -> (r: Option<TimeOfDay>)
    ensures
        r == time_at(hour as int, min as int, sec as int),
{
    let t = chrono::NaiveTime::from_hms_opt(hour, min, sec)?;
    Some(TimeOfDay { secs: t.num_seconds_from_midnight(), nanos: t.nanosecond() })
}

impl TimeOfDay {
    /// A number that orders the times of day: earlier is smaller.
    pub open spec fn instant(self) -> int {
        self.secs * 0x1_0000_0000 + self.nanos
    }

    /// The time of day at an hour, a minute and a second, if there is one.
    pub fn from_hms_opt(hour: u32, min: u32, sec: u32) -> (r: Option<TimeOfDay>)
        ensures
            r == time_at(hour as int, min as int, sec as int),
    {
        naive_time(hour, min, sec)
    }

    /// Whether this time is earlier in the day than `other`.
    pub fn before(self, other: TimeOfDay) -> (r: bool)
        ensures
            r == (self.instant() < other.instant()),
    {
        self.secs < other.secs || (self.secs == other.secs && self.nanos < other.nanos)
    }
}

/// The schedule as it is configured. Times are written `HH:MM`, in local time.
#[derive(Debug, PartialEq)]
pub struct StealthSchedule {
    pub enabled: bool,
    pub off_at: String,
    pub on_at: String,
}

impl StealthSchedule {
    /// The times at which stealth goes off and on, where both are readable.
    pub open spec fn times(self) -> Option<(TimeOfDay, TimeOfDay)> {
        match (clock_time(self.off_at@), clock_time(self.on_at@)) {
            (Some(off), Some(on)) => Some((off, on)),
            _ => None,
        }
    }

    /// The times at which stealth goes off and on, where both are readable.
    pub fn parsed_times(&self) -> (r: Option<(TimeOfDay, TimeOfDay)>)
        ensures
            r == self.times(),
    {
        match (parse_hhmm(&self.off_at), parse_hhmm(&self.on_at)) {
            (Some(off), Some(on)) => Some((off, on)),
            _ => None,
        }
    }
}

impl Clone for StealthSchedule {
    fn clone(&self) -> (r: StealthSchedule)
        ensures
            r == *self,
    {
        StealthSchedule {
            enabled: self.enabled,
            off_at: self.off_at.clone(),
            on_at: self.on_at.clone(),
        }
    }
}

impl Default for StealthSchedule {
    fn default() -> (r: StealthSchedule)
        ensures
            !r.enabled,
            r.off_at@ == "08:00"@,
            r.on_at@ == "20:00"@,
    {
        StealthSchedule {
            enabled: false,
            off_at: "08:00".to_owned(),
            on_at: "20:00".to_owned(),
        }
    }
}

/// The time that a text denotes: white space aside, an hour of one or two digits, a colon, and
/// a minute of two digits. (With one digit, `8:5` could mean `8:05` or `8:50`.)
pub open spec fn clock_time(s: Seq<char>) -> Option<TimeOfDay> {
    let t = text::trimmed(s);
    let colon = t.len() - 3;
    if 1 <= colon <= 2 && t[colon] == ':' && text::all_digits(t.subrange(0, colon)) && text::all_digits(
        t.subrange(colon + 1, t.len() as int),
    ) {
        time_at(
            text::number(t.subrange(0, colon)) as int,
            text::number(t.subrange(colon + 1, t.len() as int)) as int,
            0,
        )
    } else {
        None
    }
}

/// The value of a digit.
fn digit_value(c: char) -> (r: Option<u32>)
    ensures
        match r {
            Some(d) => text::is_digit(c) && d < 10 && d == c as u32 - 48,
            None => !text::is_digit(c),
        },
{
    if '0' <= c && c <= '9' {
        Some(c as u32 - 48)
    } else {
        None
    }
}

/// One digit, as a number.
proof fn lemma_number_of_one(s: Seq<char>)
    requires
        s.len() == 1,
    ensures
        text::all_digits(s) == text::is_digit(s[0]),
        text::is_digit(s[0]) ==> text::number(s) == s[0] as u32 - 48,
{
    reveal_with_fuel(text::number, 2);
    assert(s.drop_last() =~= Seq::<char>::empty());
}

/// Two digits, as a number.
proof fn lemma_number_of_two(s: Seq<char>)
    requires
        s.len() == 2,
    ensures
        text::all_digits(s) == (text::is_digit(s[0]) && text::is_digit(s[1])),
        text::all_digits(s) ==> text::number(s) == (s[0] as u32 - 48) * 10 + (s[1] as u32 - 48),
{
    lemma_number_of_one(s.drop_last());
    assert(s.drop_last()[0] == s[0]);
    if text::is_digit(s[0]) && text::is_digit(s[1]) {
        assert forall|i: int| 0 <= i < s.len() implies text::is_digit(#[trigger] s[i]) by {
            assert(i == 0 || i == 1);
        }
    }
}

/// The number that two digits of `s` from position `i` on denote.
fn two_digits(s: &str, i: usize) -> (r: Option<u32>)
    requires
        i + 2 <= s@.len(),
        i + 2 <= usize::MAX,
    ensures
        match r {
            Some(v) => text::all_digits(s@.subrange(i as int, i + 2)) && v == text::number(
                s@.subrange(i as int, i + 2),
            ),
            None => !text::all_digits(s@.subrange(i as int, i + 2)),
        },
{
    proof {
        lemma_number_of_two(s@.subrange(i as int, i + 2));
    }
    match (digit_value(s.get_char(i)), digit_value(s.get_char(i + 1))) {
        (Some(tens), Some(ones)) => Some(tens * 10 + ones),
        _ => None,
    }
}

/// Reads a time written `H:MM` or `HH:MM`, with white space round it or not.
pub fn parse_hhmm(s: &str) -> (r: Option<TimeOfDay>)
    ensures
        r == clock_time(s@),
{
    let t = text::trim(s);
    let n: usize = t.unicode_len();
    if n != 4 && n != 5 {
        return None;
    }
    let colon: usize = n - 3;
    if t.get_char(colon) != ':' {
        return None;
    }
    let hour = if colon == 1 {
        proof {
            lemma_number_of_one(t@.subrange(0, 1));
        }
        digit_value(t.get_char(0))
    } else {
        two_digits(t, 0)
    };
    match (hour, two_digits(t, colon + 1)) {
        (Some(h), Some(m)) => naive_time(h, m, 0),
        _ => None,
    }
}

/// The phase of the schedule at a given time of day.
#[derive(Debug, Clone, Copy, PartialEq, Eq, Structural)]
pub enum Window {
    /// From `off_at` on, up to `on_at`: stealth is to be off.
    Day,
    /// From `on_at` on, up to `off_at`: stealth is to be on.
    Night,
}

impl Window {
    /// Whether stealth is to be on in this window.
    pub open spec fn is_quiet(self) -> bool {
        self == Window::Night
    }

    /// Whether stealth is to be on in this window.
    pub fn stealth_on(self) -> (r: bool)
        ensures
            r == self.is_quiet(),
    {
        matches!(self, Window::Night)
    }
}

/// Whether the clock, started at `from`, shows `now` before it shows `to`, across midnight where
/// `to` comes before `from` in the day.
pub open spec fn in_span(now: TimeOfDay, from: TimeOfDay, to: TimeOfDay) -> bool {
    if from.instant() <= to.instant() {
        from.instant() <= now.instant() < to.instant()
    } else {
        from.instant() <= now.instant() || now.instant() < to.instant()
    }
}

/// The window that a time of day falls into. A schedule that goes off and on at the same time
/// does nothing: it is day all along.
pub open spec fn window_at(now: TimeOfDay, off_at: TimeOfDay, on_at: TimeOfDay) -> Window {
    if off_at == on_at || in_span(now, off_at, on_at) {
        Window::Day
    } else {
        Window::Night
    }
}

/// The window that `now` falls into.
pub fn current_window(now: TimeOfDay, off_at: TimeOfDay, on_at: TimeOfDay) -> (r: Window)
    ensures
        r == window_at(now, off_at, on_at),
{
    if off_at == on_at {
        return Window::Day;
    }
    if off_at.before(on_at) {
        if !now.before(off_at) && now.before(on_at) {
            Window::Day
        } else {
            Window::Night
        }
    } else if !now.before(on_at) && now.before(off_at) {
        Window::Night
    } else {
        Window::Day
    }
}

/// What is to be done about stealth now.
#[derive(Debug, Clone, Copy, PartialEq, Eq, Structural)]
pub enum ScheduleAction {
    /// The schedule is disabled or unreadable, or its present window is already applied.
    NoOp,
    /// Set stealth as the window says and, once that succeeded, note the window as applied.
    Apply(Window),
}

/// What a schedule asks for at a time of day, where `last_applied` is already in effect.
pub open spec fn action_at(
    schedule: StealthSchedule,
    last_applied: Option<Window>,
    now: TimeOfDay,
) -> ScheduleAction {
    match schedule.times() {
        Some((off, on)) if schedule.enabled && last_applied != Some(window_at(now, off, on)) =>
            ScheduleAction::Apply(window_at(now, off, on)),
        _ => ScheduleAction::NoOp,
    }
}

/// Decides whether stealth has to be set now.
pub fn schedule_action(
    schedule: &StealthSchedule,
    last_applied: Option<Window>,
    now: TimeOfDay,
) -> (r: ScheduleAction)
    ensures
        r == action_at(*schedule, last_applied, now),
{
    if !schedule.enabled {
        return ScheduleAction::NoOp;
    }
    match schedule.parsed_times() {
        Some((off, on)) => {
            let window = current_window(now, off, on);
            match last_applied {
                Some(last) if last == window => ScheduleAction::NoOp,
                _ => ScheduleAction::Apply(window),
            }
        },
        None => ScheduleAction::NoOp,
    }
}

/// Whether the configured times are of use: it tells a schedule that is off from one that is
/// on but broken.
#[derive(Debug, Clone, Copy, PartialEq, Eq, Structural)]
pub enum ScheduleConfigStatus {
    Disabled,
    Valid,
    InvalidTimes,
}

/// The status of a schedule.
pub open spec fn config_status(schedule: StealthSchedule) -> ScheduleConfigStatus {
    if !schedule.enabled {
        ScheduleConfigStatus::Disabled
    } else if schedule.times() is Some {
        ScheduleConfigStatus::Valid
    } else {
        ScheduleConfigStatus::InvalidTimes
    }
}

/// Checks whether the configured times are readable.
pub fn validate_schedule_times(schedule: &StealthSchedule) -> (r: ScheduleConfigStatus)
    ensures
        r == config_status(*schedule),
{
    if !schedule.enabled {
        return ScheduleConfigStatus::Disabled;
    }
    match schedule.parsed_times() {
        Some(_) => ScheduleConfigStatus::Valid,
        None => ScheduleConfigStatus::InvalidTimes,
    }
}

/// Times written with a two-digit hour and a two-digit minute are read as they are meant, also
/// with white space round them.
pub proof fn law_reads_hh_mm(hour: nat, min: nat, before: Seq<char>, after: Seq<char>)
    requires
        hour < 24,
        min < 60,
        forall|i: int| 0 <= i < before.len() ==> text::is_space(#[trigger] before[i]),
        forall|i: int| 0 <= i < after.len() ==> text::is_space(#[trigger] after[i]),
    ensures
        clock_time(
            before + seq![
                text::digit(hour / 10),
                text::digit(hour % 10),
                ':',
                text::digit(min / 10),
                text::digit(min % 10),
            ] + after,
        ) == time_at(hour as int, min as int, 0),
{
    let s = seq![
        text::digit(hour / 10),
        text::digit(hour % 10),
        ':',
        text::digit(min / 10),
        text::digit(min % 10),
    ];
    text::law_trimmed_of_padded(before, s, after);
    assert(text::trimmed(s) == s);
    lemma_number_of_two(s.subrange(0, 2));
    lemma_number_of_two(s.subrange(3, 5));
}

/// Times written with a one-digit hour are read as they are meant, also with white space round
/// them.
pub proof fn law_reads_h_mm(hour: nat, min: nat, before: Seq<char>, after: Seq<char>)
    requires
        hour < 10,
        min < 60,
        forall|i: int| 0 <= i < before.len() ==> text::is_space(#[trigger] before[i]),
        forall|i: int| 0 <= i < after.len() ==> text::is_space(#[trigger] after[i]),
    ensures
        clock_time(
            before + seq![text::digit(hour), ':', text::digit(min / 10), text::digit(min % 10)] + after,
        ) == time_at(hour as int, min as int, 0),
{
    let s = seq![text::digit(hour), ':', text::digit(min / 10), text::digit(min % 10)];
    text::law_trimmed_of_padded(before, s, after);
    assert(text::trimmed(s) == s);
    lemma_number_of_one(s.subrange(0, 1));
    lemma_number_of_two(s.subrange(2, 4));
}

/// It is day from `off_at` on, that time included, and night from `on_at` on, that time
/// included.
pub proof fn law_windows_begin_at_their_boundaries(off_at: TimeOfDay, on_at: TimeOfDay)
    ensures
        window_at(off_at, off_at, on_at) == Window::Day,
        off_at != on_at ==> window_at(on_at, off_at, on_at) == Window::Night,
{
}

/// Day and night share out the clock: with the boundaries exchanged, every time of day falls
/// into the other window.
pub proof fn law_day_and_night_partition(now: TimeOfDay, off_at: TimeOfDay, on_at: TimeOfDay)
    requires
        off_at != on_at,
    ensures
        window_at(now, off_at, on_at) != window_at(now, on_at, off_at),
{
}

/// The window changes only at a boundary: between two times of a day with no boundary after the
/// first and up to the second, it stays.
pub proof fn law_window_holds_between_boundaries(
    first: TimeOfDay,
    second: TimeOfDay,
    off_at: TimeOfDay,
    on_at: TimeOfDay,
)
    requires
        first.instant() <= second.instant(),
        !(first.instant() < off_at.instant() <= second.instant()),
        !(first.instant() < on_at.instant() <= second.instant()),
    ensures
        window_at(first, off_at, on_at) == window_at(second, off_at, on_at),
{
}

/// Midnight is no boundary: from a time late in the day to one early on the next, with no
/// boundary in between, the window stays.
pub proof fn law_window_holds_over_midnight(
    late: TimeOfDay,
    early: TimeOfDay,
    off_at: TimeOfDay,
    on_at: TimeOfDay,
)
    requires
        early.instant() < off_at.instant() <= late.instant(),
        early.instant() < on_at.instant() <= late.instant(),
    ensures
        window_at(late, off_at, on_at) == window_at(early, off_at, on_at),
{
}

/// A window that was applied is not applied again until the window changes.
pub proof fn law_applied_window_is_left_alone(
    schedule: StealthSchedule,
    last_applied: Option<Window>,
    now: TimeOfDay,
    later: TimeOfDay,
)
    ensures
        action_at(schedule, last_applied, now) matches ScheduleAction::Apply(window) ==> {
            &&& action_at(schedule, Some(window), now) == ScheduleAction::NoOp
            &&& action_at(schedule, Some(window), later) matches ScheduleAction::Apply(next) ==> next
                != window
        },
{
}

/// A window that could not be applied is asked for again, at every later time in the same
/// window.
pub proof fn law_failed_window_is_retried(
    schedule: StealthSchedule,
    last_applied: Option<Window>,
    now: TimeOfDay,
    later: TimeOfDay,
)
    requires
        schedule.times() matches Some((off, on)) ==> window_at(now, off, on) == window_at(
            later,
            off,
            on,
        ),
    ensures
        action_at(schedule, last_applied, later) == action_at(schedule, last_applied, now),
{
}

/// A schedule acts exactly where its status is good: a disabled or unreadable one never does
/// anything, and a good one applies its window when nothing is in effect yet.
pub proof fn law_only_good_schedules_act(schedule: StealthSchedule, now: TimeOfDay)
    ensures
        config_status(schedule) == ScheduleConfigStatus::Valid <==> action_at(
            schedule,
            None,
            now,
        ) is Apply,
        config_status(schedule) != ScheduleConfigStatus::Valid ==> forall|last: Option<Window>|
            action_at(schedule, last, now) == ScheduleAction::NoOp,
{
}

/// Times of day are ordered by their seconds and, within a second, by their nanoseconds.
pub proof fn law_times_are_ordered(a: TimeOfDay, b: TimeOfDay)
    ensures
        a.instant() < b.instant() <==> a.secs < b.secs || (a.secs == b.secs && a.nanos < b.nanos),
        a.instant() == b.instant() <==> a == b,
{
}

/// There is a time of day for every hour below 24 with a minute and a second below 60, and for no
/// other: as many seconds after midnight as they make up, without a fraction.
pub proof fn law_clock_has_its_times(hour: int, min: int, sec: int)
    ensures
        time_at(hour, min, sec) is Some <==> 0 <= hour <= 23 && 0 <= min <= 59 && 0 <= sec <= 59,
        time_at(hour, min, sec) matches Some(t) ==> t.secs == hour * 3600 + min * 60 + sec
            && t.nanos == 0,
{
}

/// Nothing but a time is read as one: what is read, white space aside, is an hour of one or two
/// digits, a colon and a minute of two digits.
pub proof fn law_reads_only_times(s: Seq<char>)
    ensures
        clock_time(s) matches Some(t) ==> exists|hour: nat, min: nat|
            hour <= 23 && min <= 59 && t.secs == hour * 3600 + min * 60 && t.nanos == 0 && (
            text::trimmed(s) == #[trigger] two_digit_time(hour, min) || (hour <= 9 && text::trimmed(s)
                == one_digit_time(hour, min))),
{
    if clock_time(s) is Some {
        let t = text::trimmed(s);
        let colon = t.len() - 3;
        let h = t.subrange(0, colon);
        let m = t.subrange(colon + 1, t.len() as int);
        lemma_number_of_two(m);
        if colon == 1 {
            lemma_number_of_one(h);
        } else {
            lemma_number_of_two(h);
        }
        let hour = text::number(h);
        let min = text::number(m);
        if colon == 1 {
            assert(t =~= one_digit_time(hour, min));
        } else {
            assert(t =~= two_digit_time(hour, min));
        }
        assert(two_digit_time(hour, min) == two_digit_time(hour, min));
    }
}

/// A time written with two digits for the hour.
pub open spec fn two_digit_time(hour: nat, min: nat) -> Seq<char> {
    seq![
        text::digit(hour / 10),
        text::digit(hour % 10),
        ':',
        text::digit(min / 10),
        text::digit(min % 10),
    ]
}

/// A time written with one digit for the hour.
pub open spec fn one_digit_time(hour: nat, min: nat) -> Seq<char> {
    seq![text::digit(hour), ':', text::digit(min / 10), text::digit(min % 10)]
}

/// A schedule has its times where both are readable: it goes off at what `off_at` says, and on at
/// what `on_at` says.
pub proof fn law_schedules_keep_their_times(schedule: StealthSchedule)
    ensures
        schedule.times() is Some <==> clock_time(schedule.off_at@) is Some && clock_time(
            schedule.on_at@,
        ) is Some,
        schedule.times() matches Some((off, on)) ==> clock_time(schedule.off_at@) == Some(off)
            && clock_time(schedule.on_at@) == Some(on),
{
}

/// An enabled schedule with readable times, whatever their order, asks for the window that it is now
/// unless that very window is the one last applied, also where the other window was applied before;
/// any other schedule asks for nothing.
pub proof fn law_every_boundary_is_followed(
    schedule: StealthSchedule,
    last_applied: Option<Window>,
    now: TimeOfDay,
    off: TimeOfDay,
    on: TimeOfDay,
)
    requires
        clock_time(schedule.off_at@) == Some(off),
        clock_time(schedule.on_at@) == Some(on),
    ensures
        schedule.enabled && last_applied != Some(window_at(now, off, on)) ==> action_at(
            schedule,
            last_applied,
            now,
        ) == ScheduleAction::Apply(window_at(now, off, on)),
        schedule.enabled && last_applied == Some(window_at(now, off, on)) ==> action_at(
            schedule,
            last_applied,
            now,
        ) == ScheduleAction::NoOp,
        !schedule.enabled ==> action_at(schedule, last_applied, now) == ScheduleAction::NoOp,
{
}

/// Stealth follows the clock, also over midnight: from the time at which it goes off up to that at
/// which it goes on, and nowhere else, the window is the one with stealth off; where both times are
/// the same, stealth is off all along.
pub proof fn law_windows_follow_the_clock(now: TimeOfDay, off: TimeOfDay, on: TimeOfDay)
    ensures
        off == on ==> window_at(now, off, on) == Window::Day,
        off.instant() < on.instant() ==> (window_at(now, off, on) == Window::Day <==> off.instant()
            <= now.instant() < on.instant()),
        on.instant() < off.instant() ==> (window_at(now, off, on) == Window::Night <==> on.instant()
            <= now.instant() < off.instant()),
        Window::Night.is_quiet(),
        !Window::Day.is_quiet(),
{
}

/// A schedule that flipped at one boundary flips back at the other: whatever was applied in one
/// window, the other is asked for once it has come.
pub proof fn law_schedules_flip_back(
    schedule: StealthSchedule,
    now: TimeOfDay,
    later: TimeOfDay,
    last_applied: Option<Window>,
)
    requires
        schedule.enabled,
        schedule.times() matches Some((off, on)) && window_at(now, off, on) != window_at(
            later,
            off,
            on,
        ),
    ensures
        action_at(schedule, last_applied, now) matches ScheduleAction::Apply(window) ==> (action_at(
            schedule,
            Some(window),
            later,
        ) matches ScheduleAction::Apply(next) && next != window),
        action_at(schedule, last_applied, now) is NoOp ==> (action_at(
            schedule,
            last_applied,
            later,
        ) matches ScheduleAction::Apply(next) && Some(next) != last_applied),
{
}

/// A schedule is broken exactly where it is enabled and one of its times is not readable.
pub proof fn law_status_tells_broken_from_disabled(schedule: StealthSchedule)
    ensures
        config_status(schedule) == ScheduleConfigStatus::Disabled <==> !schedule.enabled,
        config_status(schedule) == ScheduleConfigStatus::InvalidTimes <==> schedule.enabled && (
        clock_time(schedule.off_at@) is None || clock_time(schedule.on_at@) is None),
{
}

} // verus!
