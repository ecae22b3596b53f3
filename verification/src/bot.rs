//! The conversation with the user: what a command or a button asks for, and what is answered.

use crate::messages::{button, Button};
use crate::monitor::{MonitorState, Toggle};
use crate::schedule::{validate_schedule_times, ScheduleConfigStatus, StealthSchedule};
use crate::settings::SettingsFile;
use crate::text;
use vstd::prelude::*;
use vstd::string::*;

verus! {

/// A command, with what stands behind it.
#[derive(Debug)]
pub enum Command {
    Pause,
    Resume,
    Status,
    Stealth(String),
    Monitor(String),
    Autopause(String),
    StealthSchedule(String),
}

/// A command that takes `on` or `off`.
#[derive(Debug, Clone, Copy, PartialEq, Eq, Structural)]
pub enum SwitchCommand {
    Stealth,
    Toggle(Toggle),
}

/// What a command or a button asks for.
#[derive(Debug, Clone, Copy, PartialEq, Eq, Structural)]
pub enum Request {
    /// Pause the print, or resume it.
    PauseResume { pause: bool },
    /// A photo, and the state of things.
    Report,
    SetStealth(bool),
    QueryStealth,
    SetToggle(Toggle, bool),
    QueryToggle(Toggle),
    /// The words behind the command make no sense.
    Usage(SwitchCommand),
    /// The button is none of ours.
    Ignore,
}

/// What the words behind a switch command mean: on, off, nothing (a question), or no sense.
/// Case does not matter, and neither does white space round them.
pub open spec fn switch_words(arg: Seq<char>) -> Option<Option<bool>> {
    let word = text::folded(text::trimmed(arg));
    if word == "on"@ || word == "1"@ || word == "true"@ {
        Some(Some(true))
    } else if word == "off"@ || word == "0"@ || word == "false"@ {
        Some(Some(false))
    } else if word == ""@ {
        Some(None)
    } else {
        None
    }
}

/// Reads the words behind a switch command.
///
/// Only the letters A to Z are folded: no other letter has one of those in `on`, `off`, `true`
/// and `false` as its small form.
pub fn parse_toggle(arg: &str) -> (r: Option<Option<bool>>)
    ensures
        r == switch_words(arg@),
{
    let word = text::trim(arg);
    if text::same_folded(word, "on") || text::same_folded(word, "1") || text::same_folded(
        word,
        "true",
    ) {
        Some(Some(true))
    } else if text::same_folded(word, "off") || text::same_folded(word, "0") || text::same_folded(
        word,
        "false",
    ) {
        Some(Some(false))
    } else if text::same_folded(word, "") {
        Some(None)
    } else {
        None
    }
}

impl SwitchCommand {
    /// What a switch command asks for, given the words behind it.
    pub open spec fn asks(self, arg: Seq<char>) -> Request {
        match (switch_words(arg), self) {
            (None, _) => Request::Usage(self),
            (Some(Some(enable)), SwitchCommand::Stealth) => Request::SetStealth(enable),
            (Some(None), SwitchCommand::Stealth) => Request::QueryStealth,
            (Some(Some(enable)), SwitchCommand::Toggle(t)) => Request::SetToggle(t, enable),
            (Some(None), SwitchCommand::Toggle(t)) => Request::QueryToggle(t),
        }
    }

    /// The name of the command.
    pub open spec fn spec_name(self) -> Seq<char> {
        match self {
            SwitchCommand::Stealth => "stealth"@,
            SwitchCommand::Toggle(t) => t.spec_name(),
        }
    }

    /// What a switch command asks for, given the words behind it.
    fn request(self, arg: &str) -> (r: Request)
        ensures
            r == self.asks(arg@),
    {
        match (parse_toggle(arg), self) {
            (None, _) => Request::Usage(self),
            (Some(Some(enable)), SwitchCommand::Stealth) => Request::SetStealth(enable),
            (Some(None), SwitchCommand::Stealth) => Request::QueryStealth,
            (Some(Some(enable)), SwitchCommand::Toggle(t)) => Request::SetToggle(t, enable),
            (Some(None), SwitchCommand::Toggle(t)) => Request::QueryToggle(t),
        }
    }

    /// The name of the command.
    pub fn name(self) -> (r: &'static str)
        ensures
            r@ == self.spec_name(),
    {
        match self {
            SwitchCommand::Stealth => "stealth",
            SwitchCommand::Toggle(t) => t.name(),
        }
    }
}

impl Toggle {
    /// The name of the command that sets the switch.
    pub open spec fn spec_name(self) -> Seq<char> {
        match self {
            Toggle::Monitor => "monitor"@,
            Toggle::Autopause => "autopause"@,
            Toggle::StealthSchedule => "stealthschedule"@,
        }
    }

    /// What the switch is called in messages.
    pub open spec fn spec_label(self) -> Seq<char> {
        match self {
            Toggle::Monitor => "Failure monitoring"@,
            Toggle::Autopause => "Auto-pause"@,
            Toggle::StealthSchedule => "Stealth schedule"@,
        }
    }

    /// The name of the command that sets the switch.
    pub fn name(self) -> (r: &'static str)
        ensures
            r@ == self.spec_name(),
    {
        match self {
            Toggle::Monitor => "monitor",
            Toggle::Autopause => "autopause",
            Toggle::StealthSchedule => "stealthschedule",
        }
    }

    /// What the switch is called in messages.
    pub fn label(self) -> (r: &'static str)
        ensures
            r@ == self.spec_label(),
    {
        match self {
            Toggle::Monitor => "Failure monitoring",
            Toggle::Autopause => "Auto-pause",
            Toggle::StealthSchedule => "Stealth schedule",
        }
    }
}

impl Command {
    /// What the command asks for.
    pub open spec fn asks(self) -> Request {
        match self {
            Command::Pause => Request::PauseResume { pause: true },
            Command::Resume => Request::PauseResume { pause: false },
            Command::Status => Request::Report,
            Command::Stealth(arg) => SwitchCommand::Stealth.asks(arg@),
            Command::Monitor(arg) => SwitchCommand::Toggle(Toggle::Monitor).asks(arg@),
            Command::Autopause(arg) => SwitchCommand::Toggle(Toggle::Autopause).asks(arg@),
            Command::StealthSchedule(arg) => SwitchCommand::Toggle(Toggle::StealthSchedule).asks(
                arg@,
            ),
        }
    }

    /// What the command asks for.
    pub fn request(&self) -> (r: Request)
        ensures
            r == self.asks(),
    {
        match self {
            Command::Pause => Request::PauseResume { pause: true },
            Command::Resume => Request::PauseResume { pause: false },
            Command::Status => Request::Report,
            Command::Stealth(arg) => SwitchCommand::Stealth.request(arg),
            Command::Monitor(arg) => SwitchCommand::Toggle(Toggle::Monitor).request(arg),
            Command::Autopause(arg) => SwitchCommand::Toggle(Toggle::Autopause).request(arg),
            Command::StealthSchedule(arg) => SwitchCommand::Toggle(
                Toggle::StealthSchedule,
            ).request(arg),
        }
    }
}

/// What a button that sends `data` asks for.
pub open spec fn button_asks(data: Seq<char>) -> Request {
    if data == "pause"@ {
        Request::PauseResume { pause: true }
    } else if data == "resume"@ {
        Request::PauseResume { pause: false }
    } else if data == "stealth on"@ {
        Request::SetStealth(true)
    } else if data == "stealth off"@ {
        Request::SetStealth(false)
    } else if data == "monitor on"@ {
        Request::SetToggle(Toggle::Monitor, true)
    } else if data == "monitor off"@ {
        Request::SetToggle(Toggle::Monitor, false)
    } else if data == "autopause on"@ {
        Request::SetToggle(Toggle::Autopause, true)
    } else if data == "autopause off"@ {
        Request::SetToggle(Toggle::Autopause, false)
    } else if data == "stealthschedule on"@ {
        Request::SetToggle(Toggle::StealthSchedule, true)
    } else if data == "stealthschedule off"@ {
        Request::SetToggle(Toggle::StealthSchedule, false)
    } else {
        Request::Ignore
    }
}

/// What a button asks for. One that sends nothing is none of ours.
pub fn callback_request(data: Option<&str>) -> (r: Request)
    ensures
        r == match data {
            Some(data) => button_asks(data@),
            None => Request::Ignore,
        },
{
    let data = match data {
        Some(data) => data,
        None => {
            return Request::Ignore;
        },
    };
    if text::same(data, "pause") {
        Request::PauseResume { pause: true }
    } else if text::same(data, "resume") {
        Request::PauseResume { pause: false }
    } else if text::same(data, "stealth on") {
        Request::SetStealth(true)
    } else if text::same(data, "stealth off") {
        Request::SetStealth(false)
    } else if text::same(data, "monitor on") {
        Request::SetToggle(Toggle::Monitor, true)
    } else if text::same(data, "monitor off") {
        Request::SetToggle(Toggle::Monitor, false)
    } else if text::same(data, "autopause on") {
        Request::SetToggle(Toggle::Autopause, true)
    } else if text::same(data, "autopause off") {
        Request::SetToggle(Toggle::Autopause, false)
    } else if text::same(data, "stealthschedule on") {
        Request::SetToggle(Toggle::StealthSchedule, true)
    } else if text::same(data, "stealthschedule off") {
        Request::SetToggle(Toggle::StealthSchedule, false)
    } else {
        Request::Ignore
    }
}

/// Whether a message comes from the one chat that is listened to.
pub fn message_allowed(allowed_chat: i64, chat: i64) -> (r: bool)
    ensures
        r == (chat == allowed_chat),
{
    chat == allowed_chat
}

/// Whether a button was pressed in the one chat that is listened to. `chat` is that of the
/// message with the button, where it is known.
pub fn callback_allowed(allowed_chat: i64, chat: Option<i64>) -> (r: bool)
    ensures
        r == (chat == Some(allowed_chat)),
{
    match chat {
        Some(chat) => chat == allowed_chat,
        None => false,
    }
}

/// What is carried out of a request: all of it where it comes from the one chat that is listened
/// to, and nothing where it comes from another, or from none that is known.
pub open spec fn admitted(allowed_chat: i64, chat: Option<i64>, request: Request) -> Request {
    if chat == Some(allowed_chat) {
        request
    } else {
        Request::Ignore
    }
}

/// What is carried out of a request that comes from `chat`.
pub fn let_in(allowed_chat: i64, chat: Option<i64>, request: Request) -> (r: Request)
    ensures
        r == admitted(allowed_chat, chat, request),
{
    if callback_allowed(allowed_chat, chat) {
        request
    } else {
        Request::Ignore
    }
}

/// What the chat shows while a command is carried out.
#[derive(Debug, Clone, Copy, PartialEq, Eq, Structural)]
pub enum ChatSign {
    Typing,
    UploadingPhoto,
}

impl Request {
    /// What the chat is to show while the request is carried out, if anything: typing where the
    /// printer is involved, a photo coming where there will be one.
    pub fn sign(self) -> (r: Option<ChatSign>)
        ensures
            r == match self {
                Request::PauseResume { .. } => Some(ChatSign::Typing),
                Request::SetStealth(_) => Some(ChatSign::Typing),
                Request::QueryStealth => Some(ChatSign::Typing),
                Request::Report => Some(ChatSign::UploadingPhoto),
                _ => None,
            },
    {
        match self {
            Request::PauseResume { .. } => Some(ChatSign::Typing),
            Request::SetStealth(_) => Some(ChatSign::Typing),
            Request::QueryStealth => Some(ChatSign::Typing),
            Request::Report => Some(ChatSign::UploadingPhoto),
            _ => None,
        }
    }
}

/// What the printer is asked in the course of a request.
#[derive(Debug, Clone, Copy, PartialEq, Eq, Structural)]
pub enum Question {
    /// Which job it has, to pause or resume it.
    Job { pause: bool },
    /// To pause or resume the job.
    Act { pause: bool, job_id: u64 },
    /// To set stealth mode.
    SetStealth(bool),
    /// Whether stealth mode is on.
    Stealth,
}

/// An answer to the user.
#[derive(Debug)]
pub struct Reply {
    pub text: String,
    pub buttons: Vec<Button>,
    /// What the settings file is to be written with, where the settings changed.
    pub save: Option<SettingsFile>,
}

/// What is to be done next about a request.
#[derive(Debug)]
pub enum Step {
    /// Ask the printer, and go on with what it answers.
    Ask(Question),
    /// Answer the user.
    Reply(Reply),
    /// Take a photo and ask the printer for its status, and send both.
    Report,
    /// Nothing.
    Nothing,
}

impl Reply {
    /// Whether the reply is just this text, without buttons, and no setting changed.
    pub open spec fn says(self, text: Seq<char>) -> bool {
        self.text@ == text && self.buttons@.len() == 0 && self.save is None
    }

    /// A reply that is just a text.
    pub fn plain(text: String) -> (r: Reply)
        ensures
            r.says(text@),
    {
        Reply { text, buttons: Vec::new(), save: None }
    }
}

/// What the printer has to be asked first for a request, if it can be reached.
pub open spec fn question_for(request: Request, has_prusa: bool) -> Option<Question> {
    if !has_prusa {
        None
    } else {
        match request {
            Request::PauseResume { pause } => Some(Question::Job { pause }),
            Request::SetStealth(enable) => Some(Question::SetStealth(enable)),
            Request::QueryStealth => Some(Question::Stealth),
            _ => None,
        }
    }
}

/// A remark on a schedule that is on but cannot be followed.
pub open spec fn schedule_remark(toggle: Toggle, schedule: StealthSchedule) -> Seq<char> {
    if toggle == Toggle::StealthSchedule && crate::schedule::config_status(schedule)
        == ScheduleConfigStatus::InvalidTimes {
        " Its times are not valid: write them as HH:MM."@
    } else {
        Seq::empty()
    }
}

/// The answer that a switch was set.
pub open spec fn toggle_set_text(toggle: Toggle, enable: bool, schedule: StealthSchedule) -> Seq<
    char,
> {
    toggle.spec_label() + (if enable {
        " enabled."@
    } else {
        " disabled."@
    }) + schedule_remark(toggle, schedule)
}

/// The answer to how a switch is set.
pub open spec fn toggle_text(toggle: Toggle, enabled: bool, schedule: StealthSchedule) -> Seq<
    char,
> {
    toggle.spec_label() + (if enabled {
        " is ON."@
    } else {
        " is OFF."@
    }) + schedule_remark(toggle, schedule)
}

/// The buttons that set what the command with this name sets.
pub open spec fn switch_faces(name: Seq<char>) -> Seq<(Seq<char>, Seq<char>)> {
    seq![("On"@, name + " on"@), ("Off"@, name + " off"@)]
}

/// The buttons that set what the command with this name sets.
fn switch_buttons(name: &str) -> (r: Vec<Button>)
    ensures
        crate::messages::faces(r@) == switch_faces(name@),
{
    let buttons: Vec<Button> = vec![
        button("On", &name.to_owned().concat(" on")),
        button("Off", &name.to_owned().concat(" off")),
    ];
    assert(crate::messages::faces(buttons@) =~= switch_faces(name@));
    buttons
}

/// A remark on a schedule that is on but cannot be followed.
fn remark(toggle: Toggle, schedule: &StealthSchedule) -> (r: &'static str)
    ensures
        r@ == schedule_remark(toggle, *schedule),
{
    proof {
        reveal_strlit("");
        assert(""@ =~= Seq::<char>::empty());
    }
    if toggle == Toggle::StealthSchedule && validate_schedule_times(schedule)
        == ScheduleConfigStatus::InvalidTimes {
        " Its times are not valid: write them as HH:MM."
    } else {
        ""
    }
}

/// Sets a switch, and says so.
pub fn set_toggle(mon: &mut MonitorState, toggle: Toggle, enable: bool) -> (r: Reply)
    ensures
        *final(mon) == old(mon).toggled(toggle, enable),
        r.text@ == toggle_set_text(toggle, enable, final(mon).stealth_schedule),
        r.buttons@.len() == 0,
        r.save == Some(final(mon).saved()),
{
    mon.set(toggle, enable);
    let action: &str = if enable {
        " enabled."
    } else {
        " disabled."
    };
    let text = toggle.label().to_owned().concat(action).concat(
        remark(toggle, &mon.stealth_schedule),
    );
    Reply { text, buttons: Vec::new(), save: Some(mon.save_settings()) }
}

/// Says how a switch is set, and offers to set it.
pub fn show_toggle(mon: &MonitorState, toggle: Toggle) -> (r: Reply)
    ensures
        r.text@ == toggle_text(toggle, mon.is_on(toggle), mon.stealth_schedule),
        crate::messages::faces(r.buttons@) == switch_faces(toggle.spec_name()),
        r.save is None,
{
    let status: &str = if mon.enabled(toggle) {
        " is ON."
    } else {
        " is OFF."
    };
    let text = toggle.label().to_owned().concat(status).concat(
        remark(toggle, &mon.stealth_schedule),
    );
    Reply { text, buttons: switch_buttons(toggle.name()), save: None }
}

/// Whether `after` and `r` are what begins to be done about a request: a switch is set, and
/// nothing else changes; whatever can be answered without the printer is; where it is needed it is
/// asked and, where it cannot be reached, the answer says that.
pub open spec fn begins(
    before: MonitorState,
    after: MonitorState,
    has_prusa: bool,
    request: Request,
    r: Step,
) -> bool {
    &&& after == match request {
        Request::SetToggle(toggle, enable) => before.toggled(toggle, enable),
        _ => before,
    }
    &&& match question_for(request, has_prusa) {
        Some(question) => r == Step::Ask(question),
        None => match request {
            Request::SetToggle(toggle, enable) => r matches Step::Reply(reply) && reply.text@
                == toggle_set_text(toggle, enable, after.stealth_schedule) && reply.buttons@.len()
                == 0 && reply.save == Some(after.saved()),
            Request::QueryToggle(toggle) => r matches Step::Reply(reply) && reply.text@
                == toggle_text(toggle, before.is_on(toggle), before.stealth_schedule)
                && crate::messages::faces(reply.buttons@) == switch_faces(toggle.spec_name())
                && reply.save is None,
            Request::Usage(command) => r matches Step::Reply(reply) && reply.says(
                "Usage: /"@ + command.spec_name() + " [on|off|1|0|true|false]"@,
            ),
            Request::Report => r is Report,
            Request::Ignore => r is Nothing,
            _ => r matches Step::Reply(reply) && reply.says("PrusaLink not configured."@),
        },
    }
}

/// Begins to carry out a request that comes from `chat`, as far as it is let in.
pub fn handle_update(
    mon: &mut MonitorState,
    has_prusa: bool,
    allowed_chat: i64,
    chat: Option<i64>,
    request: Request,
) -> (r: Step)
    ensures
        begins(*old(mon), *final(mon), has_prusa, admitted(allowed_chat, chat, request), r),
{
    handle_request(mon, has_prusa, let_in(allowed_chat, chat, request))
}

/// Begins to carry out a request.
pub fn handle_request(mon: &mut MonitorState, has_prusa: bool, request: Request) -> (r: Step)
    ensures
        begins(*old(mon), *final(mon), has_prusa, request, r),
{
    match request {
        Request::PauseResume { pause } => if has_prusa {
            Step::Ask(Question::Job { pause })
        } else {
            not_configured()
        },
        Request::SetStealth(enable) => if has_prusa {
            Step::Ask(Question::SetStealth(enable))
        } else {
            not_configured()
        },
        Request::QueryStealth => if has_prusa {
            Step::Ask(Question::Stealth)
        } else {
            not_configured()
        },
        Request::Report => Step::Report,
        Request::SetToggle(toggle, enable) => Step::Reply(set_toggle(mon, toggle, enable)),
        Request::QueryToggle(toggle) => Step::Reply(show_toggle(mon, toggle)),
        Request::Usage(command) => Step::Reply(
            Reply::plain(
                "Usage: /".to_owned().concat(command.name()).concat(" [on|off|1|0|true|false]"),
            ),
        ),
        Request::Ignore => Step::Nothing,
    }
}

/// The answer where there is no printer to reach.
fn not_configured() -> (r: Step)
    ensures
        r matches Step::Reply(reply) && reply.says("PrusaLink not configured."@),
{
    Step::Reply(Reply::plain("PrusaLink not configured.".to_owned()))
}

/// What a request to pause or resume is called.
pub open spec fn action_name(pause: bool) -> Seq<char> {
    if pause {
        "pause"@
    } else {
        "resume"@
    }
}

/// What a request to pause or resume is called.
fn action_text(pause: bool) -> (r: &'static str)
    ensures
        r@ == action_name(pause),
{
    if pause {
        "pause"
    } else {
        "resume"
    }
}

/// Goes on with pausing or resuming, once the printer said which job it has, or why it did not.
pub fn handle_pause_resume(pause: bool, job: Result<Option<u64>, String>) -> (r: Step)
    ensures
        match job {
            Ok(Some(job_id)) => r == Step::Ask(Question::Act { pause, job_id }),
            Ok(None) => r matches Step::Reply(reply) && reply.says(
                "No active job to "@ + action_name(pause) + "."@,
            ),
            Err(e) => r matches Step::Reply(reply) && reply.says("Failed to get status: "@ + e@),
        },
{
    match job {
        Ok(Some(job_id)) => Step::Ask(Question::Act { pause, job_id }),
        Ok(None) => Step::Reply(
            Reply::plain("No active job to ".to_owned().concat(action_text(pause)).concat(".")),
        ),
        Err(e) => Step::Reply(Reply::plain("Failed to get status: ".to_owned().concat(&e))),
    }
}

/// The answer to pausing or resuming, once the printer was told to.
pub fn pause_resume_reply(pause: bool, done: Result<(), String>) -> (r: Reply)
    ensures
        match done {
            Ok(()) => r.says("Print "@ + action_name(pause) + "d."@),
            Err(e) => r.says("Failed to "@ + action_name(pause) + ": "@ + e@),
        },
{
    match done {
        Ok(()) => Reply::plain("Print ".to_owned().concat(action_text(pause)).concat("d.")),
        Err(e) => Reply::plain(
            "Failed to ".to_owned().concat(action_text(pause)).concat(": ").concat(&e),
        ),
    }
}

/// The answer to setting stealth mode, once the printer was told to.
pub fn set_stealth_message(enable: bool, done: Result<(), String>) -> (r: Reply)
    ensures
        match done {
            Ok(()) => r.says(
                "Stealth mode "@ + (if enable {
                    "enabled"@
                } else {
                    "disabled"@
                }) + "."@,
            ),
            Err(e) => r.says("Failed to set stealth: "@ + e@),
        },
{
    match done {
        Ok(()) => {
            let label: &str = if enable {
                "enabled"
            } else {
                "disabled"
            };
            Reply::plain("Stealth mode ".to_owned().concat(label).concat("."))
        },
        Err(e) => Reply::plain("Failed to set stealth: ".to_owned().concat(&e)),
    }
}

/// The answer to whether stealth mode is on, once the printer said so, or why it did not.
pub fn handle_stealth(enabled: Result<bool, String>) -> (r: Reply)
    ensures
        match enabled {
            Ok(on) => r.text@ == "Stealth mode is "@ + (if on {
                "ON"@
            } else {
                "OFF"@
            }) + "."@ && crate::messages::faces(r.buttons@) == switch_faces("stealth"@)
                && r.save is None,
            Err(e) => r.says("Failed to get stealth state: "@ + e@),
        },
{
    match enabled {
        Ok(on) => {
            let status: &str = if on {
                "ON"
            } else {
                "OFF"
            };
            Reply {
                text: "Stealth mode is ".to_owned().concat(status).concat("."),
                buttons: switch_buttons("stealth"),
                save: None,
            }
        },
        Err(e) => Reply::plain("Failed to get stealth state: ".to_owned().concat(&e)),
    }
}

/// What the printer answered to a question: what was asked for, or why it failed.
#[derive(Debug)]
pub enum Answer {
    /// Which job it has, if any.
    Job(Result<Option<u64>, String>),
    /// That it did what it was told.
    Done(Result<(), String>),
    /// Whether stealth mode is on.
    Stealth(Result<bool, String>),
}

impl Question {
    /// How many questions are left to ask at most, with this one.
    pub open spec fn questions_left(self) -> nat {
        match self {
            Question::Job { .. } => 2,
            _ => 1,
        }
    }
}

/// Whether `r` is how a request goes on once the printer answered a question. An answer to another
/// question than was asked ends it.
pub open spec fn goes_on(question: Question, answer: Answer, r: Step) -> bool {
    match (question, answer) {
        (Question::Job { pause }, Answer::Job(Ok(Some(job_id)))) => r == Step::Ask(
            Question::Act { pause, job_id },
        ),
        (Question::Job { pause }, Answer::Job(Ok(None))) => r matches Step::Reply(reply)
            && reply.says("No active job to "@ + action_name(pause) + "."@),
        (Question::Job { .. }, Answer::Job(Err(e))) => r matches Step::Reply(reply) && reply.says(
            "Failed to get status: "@ + e@,
        ),
        (Question::Act { pause, .. }, Answer::Done(Ok(_))) => r matches Step::Reply(reply)
            && reply.says("Print "@ + action_name(pause) + "d."@),
        (Question::Act { pause, .. }, Answer::Done(Err(e))) => r matches Step::Reply(reply)
            && reply.says("Failed to "@ + action_name(pause) + ": "@ + e@),
        (Question::SetStealth(enable), Answer::Done(Ok(_))) => r matches Step::Reply(reply)
            && reply.says(
            "Stealth mode "@ + (if enable {
                "enabled"@
            } else {
                "disabled"@
            }) + "."@,
        ),
        (Question::SetStealth(_), Answer::Done(Err(e))) => r matches Step::Reply(reply)
            && reply.says("Failed to set stealth: "@ + e@),
        (Question::Stealth, Answer::Stealth(Ok(on))) => r matches Step::Reply(reply) && reply.text@
            == "Stealth mode is "@ + (if on {
            "ON"@
        } else {
            "OFF"@
        }) + "."@ && crate::messages::faces(reply.buttons@) == switch_faces("stealth"@)
            && reply.save is None,
        (Question::Stealth, Answer::Stealth(Err(e))) => r matches Step::Reply(reply) && reply.says(
            "Failed to get stealth state: "@ + e@,
        ),
        _ => r is Nothing,
    }
}

/// Goes on with a request once the printer answered a question.
pub fn go_on(question: Question, answer: Answer) -> (r: Step)
    ensures
        goes_on(question, answer, r),
{
    match (question, answer) {
        (Question::Job { pause }, Answer::Job(job)) => handle_pause_resume(pause, job),
        (Question::Act { pause, .. }, Answer::Done(done)) => Step::Reply(
            pause_resume_reply(pause, done),
        ),
        (Question::SetStealth(enable), Answer::Done(done)) => Step::Reply(
            set_stealth_message(enable, done),
        ),
        (Question::Stealth, Answer::Stealth(enabled)) => Step::Reply(handle_stealth(enabled)),
        _ => Step::Nothing,
    }
}

/// How the press of a button is answered.
#[derive(Debug)]
pub struct CallbackAnswer {
    /// What the user is shown, if anything.
    pub text: Option<String>,
    /// Whether the buttons are taken off the message.
    pub clear_buttons: bool,
}

/// How the press of a button is answered, once there is nothing more to ask: with the reply, and
/// the buttons are taken off; where there is no reply, the press is just acknowledged.
pub fn callback_answer(step: Step) -> (r: CallbackAnswer)
    ensures
        match step {
            Step::Reply(reply) => r.clear_buttons && r.text == Some(reply.text),
            _ => !r.clear_buttons && r.text is None,
        },
{
    match step {
        Step::Reply(reply) => CallbackAnswer { text: Some(reply.text), clear_buttons: true },
        _ => CallbackAnswer { text: None, clear_buttons: false },
    }
}

/// What is wrong with the configuration at startup, without keeping the service from running.
pub open spec fn startup_remarks(has_prusa: bool, schedule: StealthSchedule) -> Seq<Seq<char>> {
    (if has_prusa {
        Seq::empty()
    } else {
        seq!["PrusaLink not configured — pause/resume and print status disabled"@]
    }) + (if crate::schedule::config_status(schedule) == ScheduleConfigStatus::InvalidTimes {
        seq!["Stealth schedule is enabled, but its times are not valid: write them as HH:MM"@]
    } else {
        Seq::empty()
    })
}

/// What to warn of at startup.
pub fn startup_warnings(has_prusa: bool, schedule: &StealthSchedule) -> (r: Vec<&'static str>)
    ensures
        r@.map_values(|s: &'static str| s@) == startup_remarks(has_prusa, *schedule),
{
    let mut warnings: Vec<&'static str> = Vec::new();
    if !has_prusa {
        warnings.push("PrusaLink not configured — pause/resume and print status disabled");
    }
    if validate_schedule_times(schedule) == ScheduleConfigStatus::InvalidTimes {
        warnings.push(
            "Stealth schedule is enabled, but its times are not valid: write them as HH:MM",
        );
    }
    assert(warnings@.map_values(|s: &'static str| s@) =~= startup_remarks(has_prusa, *schedule));
    warnings
}

/// For how many seconds the listener waits before it starts again.
pub const RESTART_DELAY_SECS: u64 = 5;

/// What to do when the listener for commands has ended: nothing where the service itself is
/// ending, else say so and start it again.
pub fn listener_ended(cancelled: bool, panic: Option<&str>) -> (r: Option<String>)
    ensures
        match r {
            Some(report) => !cancelled && report@ == match panic {
                Some(e) => "Telegram dispatcher panicked: "@ + e@ + ", restarting in 5s..."@,
                None => "Telegram dispatcher stopped, restarting in 5s..."@,
            },
            None => cancelled,
        },
{
    if cancelled {
        return None;
    }
    match panic {
        Some(e) => Some(
            "Telegram dispatcher panicked: ".to_owned().concat(e).concat(
                ", restarting in 5s...",
            ),
        ),
        None => Some("Telegram dispatcher stopped, restarting in 5s...".to_owned()),
    }
}

/// The words that buttons send, letter by letter.
proof fn lemma_button_words()
    ensures
        "stealth"@ + " on"@ == "stealth on"@,
        "stealth"@ + " off"@ == "stealth off"@,
        "monitor"@ + " on"@ == "monitor on"@,
        "monitor"@ + " off"@ == "monitor off"@,
        "autopause"@ + " on"@ == "autopause on"@,
        "autopause"@ + " off"@ == "autopause off"@,
        "stealthschedule"@ + " on"@ == "stealthschedule on"@,
        "stealthschedule"@ + " off"@ == "stealthschedule off"@,
{
    reveal_strlit(" on");
    reveal_strlit(" off");
    reveal_strlit("stealth");
    reveal_strlit("monitor");
    reveal_strlit("autopause");
    reveal_strlit("stealthschedule");
    reveal_strlit("stealth on");
    reveal_strlit("stealth off");
    reveal_strlit("monitor on");
    reveal_strlit("monitor off");
    reveal_strlit("autopause on");
    reveal_strlit("autopause off");
    reveal_strlit("stealthschedule on");
    reveal_strlit("stealthschedule off");
    assert("stealth"@ + " on"@ =~= "stealth on"@);
    assert("stealth"@ + " off"@ =~= "stealth off"@);
    assert("monitor"@ + " on"@ =~= "monitor on"@);
    assert("monitor"@ + " off"@ =~= "monitor off"@);
    assert("autopause"@ + " on"@ =~= "autopause on"@);
    assert("autopause"@ + " off"@ =~= "autopause off"@);
    assert("stealthschedule"@ + " on"@ =~= "stealthschedule on"@);
    assert("stealthschedule"@ + " off"@ =~= "stealthschedule off"@);
}

/// No two of the words that buttons send are the same: each differs from the others in length,
/// or in a letter.
proof fn lemma_button_words_differ()
    ensures
        button_asks("pause"@) == (Request::PauseResume { pause: true }),
        button_asks("resume"@) == (Request::PauseResume { pause: false }),
        button_asks("stealth on"@) == Request::SetStealth(true),
        button_asks("stealth off"@) == Request::SetStealth(false),
        button_asks("monitor on"@) == Request::SetToggle(Toggle::Monitor, true),
        button_asks("monitor off"@) == Request::SetToggle(Toggle::Monitor, false),
        button_asks("autopause on"@) == Request::SetToggle(Toggle::Autopause, true),
        button_asks("autopause off"@) == Request::SetToggle(Toggle::Autopause, false),
        button_asks("stealthschedule on"@) == Request::SetToggle(Toggle::StealthSchedule, true),
        button_asks("stealthschedule off"@) == Request::SetToggle(Toggle::StealthSchedule, false),
{
    reveal_strlit("pause");
    reveal_strlit("resume");
    reveal_strlit("stealth on");
    reveal_strlit("stealth off");
    reveal_strlit("monitor on");
    reveal_strlit("monitor off");
    reveal_strlit("autopause on");
    reveal_strlit("autopause off");
    reveal_strlit("stealthschedule on");
    reveal_strlit("stealthschedule off");
    assert("pause"@.len() == 5);
    assert("resume"@.len() == 6);
    assert("stealth on"@.len() == 10);
    assert("stealth off"@.len() == 11);
    assert("monitor on"@.len() == 10);
    assert("monitor off"@.len() == 11);
    assert("autopause on"@.len() == 12);
    assert("autopause off"@.len() == 13);
    assert("stealthschedule on"@.len() == 18);
    assert("stealthschedule off"@.len() == 19);
    assert("stealth on"@[0] == 's' && "monitor on"@[0] == 'm');
    assert("stealth off"@[0] == 's' && "monitor off"@[0] == 'm');
}

/// The buttons that set a switch ask for just that when they are pressed.
pub proof fn law_switch_buttons_work(toggle: Toggle)
    ensures
        switch_faces(toggle.spec_name()).len() == 2,
        button_asks(switch_faces(toggle.spec_name())[0].1) == Request::SetToggle(toggle, true),
        button_asks(switch_faces(toggle.spec_name())[1].1) == Request::SetToggle(toggle, false),
{
    lemma_button_words();
    lemma_button_words_differ();
}

/// The buttons that set stealth mode ask for just that when they are pressed.
pub proof fn law_stealth_buttons_work()
    ensures
        button_asks(switch_faces("stealth"@)[0].1) == Request::SetStealth(true),
        button_asks(switch_faces("stealth"@)[1].1) == Request::SetStealth(false),
{
    lemma_button_words();
    lemma_button_words_differ();
}

/// The button under an alert undoes what was done: it resumes a print that was paused, and
/// pauses one that was not.
pub proof fn law_alert_button_undoes(paused: bool, has_prusa: bool)
    ensures
        ({
            let faces = crate::messages::alert_faces(paused, has_prusa);
            faces.len() > 0 ==> button_asks(faces[0].1) == (Request::PauseResume {
                pause: !paused,
            })
        }),
{
    lemma_button_words_differ();
}

/// Nothing that comes from another chat than the one that is listened to is carried out: it
/// changes nothing, asks the printer nothing, and is not answered.
pub proof fn law_other_chats_are_ignored(
    before: MonitorState,
    after: MonitorState,
    has_prusa: bool,
    allowed_chat: i64,
    chat: Option<i64>,
    request: Request,
    r: Step,
)
    requires
        chat != Some(allowed_chat),
        begins(before, after, has_prusa, admitted(allowed_chat, chat, request), r),
    ensures
        after == before,
        r is Nothing,
{
}

/// The conversation with the printer comes to an end: each question that follows another leaves
/// fewer to ask, and only to pause or resume a job is more than one asked, for the same purpose and
/// about the job that the printer named.
pub proof fn law_conversations_end(question: Question, answer: Answer, r: Step)
    requires
        goes_on(question, answer, r),
    ensures
        r matches Step::Ask(next) ==> next.questions_left() < question.questions_left(),
        r matches Step::Ask(next) ==> {
            &&& question matches Question::Job { pause }
            &&& answer matches Answer::Job(Ok(Some(job_id)))
            &&& next == Question::Act { pause, job_id }
        },
{
}

/// Where no printer is configured, no request ever asks one for anything.
pub proof fn law_no_questions_without_printer(request: Request)
    ensures
        question_for(request, false) is None,
{
}

/// A capital letter is no white space, and neither is the small letter it becomes.
proof fn lemma_folding_keeps_spaces(c: char)
    ensures
        text::is_space(text::small(c)) == text::is_space(c),
{
}

/// Folding and trimming the start do not get into each other's way.
proof fn lemma_fold_trim_start(s: Seq<char>)
    ensures
        text::folded(text::trim_start(s)) == text::trim_start(text::folded(s)),
    decreases s.len(),
{
    if s.len() > 0 {
        lemma_folding_keeps_spaces(s[0]);
        if text::is_space(s[0]) {
            lemma_fold_trim_start(s.drop_first());
            assert(text::folded(s).drop_first() =~= text::folded(s.drop_first()));
        }
    } else {
        assert(text::folded(s) =~= s);
    }
}

/// Folding and trimming the end do not get into each other's way.
proof fn lemma_fold_trim_end(s: Seq<char>)
    ensures
        text::folded(text::trim_end(s)) == text::trim_end(text::folded(s)),
    decreases s.len(),
{
    if s.len() > 0 {
        lemma_folding_keeps_spaces(s.last());
        if text::is_space(s.last()) {
            lemma_fold_trim_end(s.drop_last());
            assert(text::folded(s).drop_last() =~= text::folded(s.drop_last()));
        }
    } else {
        assert(text::folded(s) =~= s);
    }
}

/// Case makes no difference to the words behind a switch command.
pub proof fn law_switch_words_ignore_case(s: Seq<char>, t: Seq<char>)
    requires
        text::folded(s) == text::folded(t),
    ensures
        switch_words(s) == switch_words(t),
{
    lemma_fold_trim_start(s);
    lemma_fold_trim_end(text::trim_start(s));
    lemma_fold_trim_start(t);
    lemma_fold_trim_end(text::trim_start(t));
}

/// White space round the words behind a switch command makes no difference.
pub proof fn law_switch_words_ignore_padding(before: Seq<char>, s: Seq<char>, after: Seq<char>)
    requires
        forall|i: int| 0 <= i < before.len() ==> text::is_space(#[trigger] before[i]),
        forall|i: int| 0 <= i < after.len() ==> text::is_space(#[trigger] after[i]),
    ensures
        switch_words(before + s + after) == switch_words(s),
{
    text::law_trimmed_of_padded(before, s, after);
}

/// The words of a switch command, case and white space aside: `on`, `1` and `true` mean on, `off`,
/// `0` and `false` mean off, nothing at all is a question, and anything else makes no sense.
pub proof fn law_switch_words_have_their_meaning(arg: Seq<char>)
    ensures
        ({
            let word = text::folded(text::trimmed(arg));
            &&& switch_words(arg) == Some(Some(true)) <==> word == seq!['o', 'n'] || word
                == seq!['1'] || word == seq!['t', 'r', 'u', 'e']
            &&& switch_words(arg) == Some(Some(false)) <==> word == seq!['o', 'f', 'f'] || word
                == seq!['0'] || word == seq!['f', 'a', 'l', 's', 'e']
            &&& switch_words(arg) == Some(None::<bool>) <==> word.len() == 0
        }),
{
    reveal_strlit("on");
    reveal_strlit("1");
    reveal_strlit("true");
    reveal_strlit("off");
    reveal_strlit("0");
    reveal_strlit("false");
    reveal_strlit("");
    assert("on"@ =~= seq!['o', 'n']);
    assert("1"@ =~= seq!['1']);
    assert("true"@ =~= seq!['t', 'r', 'u', 'e']);
    assert("off"@ =~= seq!['o', 'f', 'f']);
    assert("0"@ =~= seq!['0']);
    assert("false"@ =~= seq!['f', 'a', 'l', 's', 'e']);
    let word = text::folded(text::trimmed(arg));
    if word.len() == 0 {
        assert(word =~= ""@);
    }
    assert(seq!['1'][0] == '1' && seq!['0'][0] == '0');
    assert(seq!['o', 'n'].len() == 2 && seq!['o', 'f', 'f'].len() == 3);
    assert(seq!['t', 'r', 'u', 'e'].len() == 4 && seq!['f', 'a', 'l', 's', 'e'].len() == 5);
}

/// A switch command sets exactly what it names to exactly what its words mean; so `name off` asks
/// for the same as the button that sends `name off`. Without words it asks how the switch is set,
/// and with words that make no sense it shows its own usage.
pub proof fn law_switch_commands_set_what_they_name(
    command: SwitchCommand,
    toggle: Toggle,
    arg: Seq<char>,
    enable: bool,
)
    ensures
        switch_words(arg) == Some(Some(enable)) ==> {
            &&& command.asks(arg) == button_asks(
                command.spec_name() + if enable {
                    " on"@
                } else {
                    " off"@
                },
            )
            &&& SwitchCommand::Stealth.asks(arg) == Request::SetStealth(enable)
            &&& SwitchCommand::Toggle(toggle).asks(arg) == Request::SetToggle(toggle, enable)
        },
        switch_words(arg) == Some(None::<bool>) ==> {
            &&& SwitchCommand::Stealth.asks(arg) == Request::QueryStealth
            &&& SwitchCommand::Toggle(toggle).asks(arg) == Request::QueryToggle(toggle)
        },
        switch_words(arg) is None ==> command.asks(arg) == Request::Usage(command),
{
    lemma_button_words();
    lemma_button_words_differ();
}

/// Each command asks for what its name says: to pause, to resume or for the state of things, as the
/// buttons with these names do, or to set the switch that it is named after.
pub proof fn law_commands_ask_for_what_they_name(arg: String)
    ensures
        Command::Pause.asks() == (Request::PauseResume { pause: true }),
        Command::Resume.asks() == (Request::PauseResume { pause: false }),
        Command::Pause.asks() == button_asks("pause"@),
        Command::Resume.asks() == button_asks("resume"@),
        Command::Status.asks() == Request::Report,
        Command::Stealth(arg).asks() == SwitchCommand::Stealth.asks(arg@),
        Command::Monitor(arg).asks() == SwitchCommand::Toggle(Toggle::Monitor).asks(arg@),
        Command::Autopause(arg).asks() == SwitchCommand::Toggle(Toggle::Autopause).asks(arg@),
        Command::StealthSchedule(arg).asks() == SwitchCommand::Toggle(Toggle::StealthSchedule).asks(
            arg@,
        ),
        SwitchCommand::Stealth.spec_name() == "stealth"@,
        SwitchCommand::Toggle(Toggle::Monitor).spec_name() == "monitor"@,
        SwitchCommand::Toggle(Toggle::Autopause).spec_name() == "autopause"@,
        SwitchCommand::Toggle(Toggle::StealthSchedule).spec_name() == "stealthschedule"@,
{
    lemma_button_words_differ();
}

/// A button asks for what it sends, and one that sends anything else for nothing.
pub proof fn law_buttons_ask_for_what_they_send(data: Seq<char>)
    ensures
        button_asks(data) == (Request::PauseResume { pause: true }) <==> data == "pause"@,
        button_asks(data) == (Request::PauseResume { pause: false }) <==> data == "resume"@,
        button_asks(data) == Request::SetStealth(true) <==> data == "stealth on"@,
        button_asks(data) == Request::SetStealth(false) <==> data == "stealth off"@,
        button_asks(data) == Request::SetToggle(Toggle::Monitor, true) <==> data == "monitor on"@,
        button_asks(data) == Request::SetToggle(Toggle::Monitor, false) <==> data == "monitor off"@,
        button_asks(data) == Request::SetToggle(Toggle::Autopause, true) <==> data
            == "autopause on"@,
        button_asks(data) == Request::SetToggle(Toggle::Autopause, false) <==> data
            == "autopause off"@,
        button_asks(data) == Request::SetToggle(Toggle::StealthSchedule, true) <==> data
            == "stealthschedule on"@,
        button_asks(data) == Request::SetToggle(Toggle::StealthSchedule, false) <==> data
            == "stealthschedule off"@,
        button_asks(data) is PauseResume || button_asks(data) is SetStealth || button_asks(
            data,
        ) is SetToggle || button_asks(data) is Ignore,
{
    lemma_button_words_differ();
}

/// What comes from the one chat that is listened to is let in as it is, and from no other.
pub proof fn law_one_chat_is_let_in(allowed_chat: i64, chat: i64, request: Request)
    ensures
        admitted(allowed_chat, Some(allowed_chat), request) == request,
        chat != allowed_chat ==> admitted(allowed_chat, Some(chat), request) == Request::Ignore,
        admitted(allowed_chat, None, request) == Request::Ignore,
{
}

/// The printer, where there is one, is asked for what it is needed for: its job to pause or resume
/// it, or stealth mode; and for nothing else.
pub proof fn law_printer_is_asked_what_it_is_needed_for(request: Request, pause: bool, enable: bool)
    ensures
        question_for(Request::PauseResume { pause }, true) == Some(Question::Job { pause }),
        question_for(Request::SetStealth(enable), true) == Some(Question::SetStealth(enable)),
        question_for(Request::QueryStealth, true) == Some(Question::Stealth),
        request is Report || request is SetToggle || request is QueryToggle || request is Usage
            || request is Ignore ==> question_for(request, true) is None,
{
}

/// What begins to be done about a request changes nothing but the switch that it sets, and a switch
/// that is set is saved as it is set and confirmed by its name.
pub proof fn law_only_set_switches_change(
    before: MonitorState,
    after: MonitorState,
    has_prusa: bool,
    request: Request,
    r: Step,
)
    requires
        begins(before, after, has_prusa, request, r),
    ensures
        request !is SetToggle ==> after == before,
        request matches Request::SetToggle(toggle, enable) ==> {
            &&& after.is_on(toggle) == enable
            &&& forall|other: Toggle| other != toggle ==> #[trigger] after.is_on(other)
                == before.is_on(other)
            &&& r matches Step::Reply(reply)
            &&& reply.save matches Some(file)
            &&& file.settings.monitoring_enabled == after.monitoring_enabled
            &&& file.settings.auto_pause == after.auto_pause
            &&& file.stealth_schedule == after.stealth_schedule
            &&& (toggle.spec_label() + if enable {
                " enabled."@
            } else {
                " disabled."@
            }).is_prefix_of(reply.text@)
        },
        request matches Request::QueryToggle(toggle) ==> {
            &&& r matches Step::Reply(reply)
            &&& reply.save is None
            &&& (toggle.spec_label() + if before.is_on(toggle) {
                " is ON."@
            } else {
                " is OFF."@
            }).is_prefix_of(reply.text@)
            &&& reply.buttons@.len() == 2
            &&& button_asks(reply.buttons@[0].data@) == Request::SetToggle(toggle, true)
            &&& button_asks(reply.buttons@[1].data@) == Request::SetToggle(toggle, false)
        },
{
    match request {
        Request::SetToggle(toggle, enable) => {
            let head = toggle.spec_label() + if enable {
                " enabled."@
            } else {
                " disabled."@
            };
            let whole = toggle_set_text(toggle, enable, after.stealth_schedule);
            assert(whole.subrange(0, head.len() as int) =~= head);
        },
        Request::QueryToggle(toggle) => {
            let head = toggle.spec_label() + if before.is_on(toggle) {
                " is ON."@
            } else {
                " is OFF."@
            };
            let whole = toggle_text(toggle, before.is_on(toggle), before.stealth_schedule);
            assert(whole.subrange(0, head.len() as int) =~= head);
            law_switch_buttons_work(toggle);
            let buttons = r->Reply_0.buttons@;
            let faces = crate::messages::faces(buttons);
            assert(faces.len() == buttons.len());
            assert(faces[0].1 == buttons[0].data@);
            assert(faces[1].1 == buttons[1].data@);
        },
        _ => {},
    }
}

/// A request is answered in its own way: a photo and the state of things where they are asked for,
/// the usage of the command whose words make no sense, nothing where the request is none of ours,
/// and that there is no printer where one is needed.
pub proof fn law_requests_are_answered(
    before: MonitorState,
    after: MonitorState,
    has_prusa: bool,
    request: Request,
    r: Step,
)
    requires
        begins(before, after, has_prusa, request, r),
    ensures
        request is Report <==> r is Report,
        request is Ignore <==> r is Nothing,
        r is Ask <==> has_prusa && (request is PauseResume || request is SetStealth
            || request is QueryStealth),
        request matches Request::Usage(command) ==> (r matches Step::Reply(reply) && reply.text@
            == "Usage: /"@ + command.spec_name() + " [on|off|1|0|true|false]"@
            && reply.buttons@.len() == 0 && reply.save is None),
        !has_prusa && (request is PauseResume || request is SetStealth || request is QueryStealth)
            ==> (r matches Step::Reply(reply) && reply.text@ == "PrusaLink not configured."@
            && reply.buttons@.len() == 0 && reply.save is None),
{
}

/// A switch is called by its name, and a reply about the schedule remarks on it exactly where it is
/// enabled and one of its times is not readable.
pub proof fn law_broken_schedules_are_remarked_on(
    toggle: Toggle,
    schedule: StealthSchedule,
    has_prusa: bool,
)
    ensures
        Toggle::Monitor.spec_label() == "Failure monitoring"@,
        Toggle::Autopause.spec_label() == "Auto-pause"@,
        Toggle::StealthSchedule.spec_label() == "Stealth schedule"@,
        ({
            let broken = schedule.enabled && (crate::schedule::clock_time(schedule.off_at@) is None
                || crate::schedule::clock_time(schedule.on_at@) is None);
            &&& schedule_remark(toggle, schedule).len() > 0 <==> toggle == Toggle::StealthSchedule
                && broken
            &&& startup_remarks(has_prusa, schedule).len() == (if has_prusa {
                0int
            } else {
                1int
            }) + (if broken {
                1int
            } else {
                0int
            })
        }),
{
    reveal_strlit(" Its times are not valid: write them as HH:MM.");
}

/// What the printer says is passed on: a job is acted on as it was asked, success is confirmed, and
/// what went wrong is told in the printer's own words.
pub proof fn law_answers_are_passed_on(pause: bool, enable: bool, job_id: u64, e: String, r: Step)
    ensures
        goes_on(Question::Job { pause }, Answer::Job(Ok(Some(job_id))), r) ==> r == Step::Ask(
            Question::Act { pause, job_id },
        ),
        goes_on(Question::Job { pause }, Answer::Job(Ok(None)), r) ==> (r matches Step::Reply(reply)
            && reply.text@ == "No active job to "@ + (if pause {
            "pause"@
        } else {
            "resume"@
        }) + "."@),
        goes_on(Question::Job { pause }, Answer::Job(Err(e)), r) ==> (r matches Step::Reply(reply)
            && reply.text@ == "Failed to get status: "@ + e@),
        goes_on(Question::Act { pause, job_id }, Answer::Done(Ok(())), r) ==> (
        r matches Step::Reply(reply) && reply.text@ == "Print "@ + (if pause {
            "pause"@
        } else {
            "resume"@
        }) + "d."@),
        goes_on(Question::Act { pause, job_id }, Answer::Done(Err(e)), r) ==> (
        r matches Step::Reply(reply) && reply.text@ == "Failed to "@ + (if pause {
            "pause"@
        } else {
            "resume"@
        }) + ": "@ + e@),
        goes_on(Question::SetStealth(enable), Answer::Done(Ok(())), r) ==> (r matches Step::Reply(
            reply,
        ) && reply.text@ == "Stealth mode "@ + (if enable {
            "enabled"@
        } else {
            "disabled"@
        }) + "."@),
        goes_on(Question::SetStealth(enable), Answer::Done(Err(e)), r) ==> (r matches Step::Reply(
            reply,
        ) && reply.text@ == "Failed to set stealth: "@ + e@),
        goes_on(Question::Stealth, Answer::Stealth(Ok(enable)), r) ==> (r matches Step::Reply(reply)
            && reply.text@ == "Stealth mode is "@ + (if enable {
            "ON"@
        } else {
            "OFF"@
        }) + "."@),
        goes_on(Question::Stealth, Answer::Stealth(Err(e)), r) ==> (r matches Step::Reply(reply)
            && reply.text@ == "Failed to get stealth state: "@ + e@),
{
}

/// A plain reply is its text, without buttons and without anything to save; and the buttons of a
/// switch say `On` and `Off` and send the name of the switch with `on` and `off` behind it.
pub proof fn law_replies_are_what_they_say(reply: Reply, words: Seq<char>, name: Seq<char>)
    ensures
        reply.says(words) ==> reply.text@ == words && reply.buttons@.len() == 0
            && reply.save is None,
        switch_faces(name) == seq![("On"@, name + " on"@), ("Off"@, name + " off"@)],
{
}

} // verus!
