//! What the service writes to its user.

use crate::prusalink::{format_job_info, JobStatus, PrinterState, StatusResponse};
use vstd::prelude::*;
use vstd::string::*;

verus! {

/// A button under a message. Pressing it sends `data` back.
#[derive(Debug, PartialEq, Eq)]
pub struct Button {
    pub text: String,
    pub data: String,
}

/// The labels of buttons, with what they send.
pub open spec fn faces(buttons: Seq<Button>) -> Seq<(Seq<char>, Seq<char>)> {
    buttons.map_values(|b: Button| (b.text@, b.data@))
}

/// A button.
pub fn button(text: &str, data: &str) -> (r: Button)
    ensures
        r.text@ == text@,
        r.data@ == data@,
{
    Button { text: text.to_owned(), data: data.to_owned() }
}

/// The message that a print came to its end.
pub open spec fn stopped_text(state: PrinterState) -> Seq<char> {
    "Print stopped — printer is now "@ + state.spec_label()
}

/// The message that a print came to its end.
pub fn stopped_message(state: PrinterState) -> (r: String)
    ensures
        r@ == stopped_text(state),
{
    "Print stopped — printer is now ".to_owned().concat(state.label())
}

/// What was done about a failure.
pub open spec fn alert_outcome(paused: bool) -> Seq<char> {
    if paused {
        "Print has been paused."@
    } else {
        "Print is still running — monitor closely."@
    }
}

/// The line about the job in an alert, where the job is known.
pub open spec fn job_line(job: Option<&JobStatus>) -> Seq<char> {
    match job {
        Some(job) => job.info() + "\n"@,
        None => Seq::empty(),
    }
}

/// The text of an alert.
pub open spec fn alert_text(score: Seq<char>, paused: bool, job: Option<&JobStatus>) -> Seq<char> {
    "Print failure detected!\n"@ + job_line(job) + "Score: "@ + score + "\n"@ + alert_outcome(
        paused,
    )
}

/// The text of an alert. `score` is written with two decimal places.
pub fn build_alert_caption(score: &str, paused: bool, job: Option<&JobStatus>) -> (r: String)
    ensures
        r@ == alert_text(score@, paused, job),
{
    let action: &str = if paused {
        "Print has been paused."
    } else {
        "Print is still running — monitor closely."
    };
    let line = match job {
        Some(job) => format_job_info(job).concat("\n"),
        None => String::new(),
    };
    "Print failure detected!\n".to_owned().concat(&line).concat("Score: ").concat(score).concat(
        "\n",
    ).concat(action)
}

/// The buttons under an alert: to resume a print that was paused, or else to pause it, where
/// that can be done.
pub open spec fn alert_faces(paused: bool, has_prusa: bool) -> Seq<(Seq<char>, Seq<char>)> {
    if paused {
        seq![("Resume"@, "resume"@)]
    } else if has_prusa {
        seq![("Pause"@, "pause"@)]
    } else {
        Seq::empty()
    }
}

/// The buttons under an alert.
pub fn alert_buttons(paused: bool, has_prusa: bool) -> (r: Vec<Button>)
    ensures
        faces(r@) == alert_faces(paused, has_prusa),
{
    let mut buttons: Vec<Button> = Vec::new();
    if paused {
        buttons.push(button("Resume", "resume"));
    } else if has_prusa {
        buttons.push(button("Pause", "pause"));
    }
    assert(faces(buttons@) =~= alert_faces(paused, has_prusa));
    buttons
}

/// The report on the printer and its job.
pub open spec fn status_report(state: PrinterState, job: Option<&JobStatus>, score: Seq<char>) -> Seq<
    char,
> {
    "State: "@ + state.spec_label() + "\n"@ + (match job {
        Some(job) => job.info(),
        None => "No active job"@,
    }) + "\nDetection score: "@ + score
}

/// The report on the printer and its job. `score` is written with two decimal places.
pub fn format_status_caption(
    state: PrinterState,
    job: Option<&JobStatus>,
    score: &str,
) -> (r: String)
    ensures
        r@ == status_report(state, job, score@),
{
    let info = match job {
        Some(job) => format_job_info(job),
        None => "No active job".to_owned(),
    };
    "State: ".to_owned().concat(state.label()).concat("\n").concat(&info).concat(
        "\nDetection score: ",
    ).concat(score)
}

/// What is sent to the chat.
#[derive(Debug)]
pub enum Outgoing {
    /// A JPEG image under a name, with a caption and buttons.
    Photo { jpeg: Vec<u8>, file_name: &'static str, caption: String, buttons: Vec<Button> },
    /// A text.
    Text(String),
}

impl Outgoing {
    /// Whether this is the photo with these bytes, this caption and these buttons.
    pub open spec fn is_photo(
        self,
        bytes: Seq<u8>,
        text: Seq<char>,
        under: Seq<(Seq<char>, Seq<char>)>,
    ) -> bool {
        self matches Outgoing::Photo { jpeg, file_name, caption, buttons } && jpeg@ == bytes
            && file_name@ == "snapshot.jpg"@ && caption@ == text && faces(buttons@) == under
    }

    /// Whether this is just this text.
    pub open spec fn is_text(self, text: Seq<char>) -> bool {
        self matches Outgoing::Text(s) && s@ == text
    }
}

/// A photo with a caption and buttons.
fn photo(jpeg: Vec<u8>, caption: String, buttons: Vec<Button>) -> (r: Outgoing)
    ensures
        r.is_photo(jpeg@, caption@, faces(buttons@)),
{
    Outgoing::Photo { jpeg, file_name: "snapshot.jpg", caption, buttons }
}

/// What is sent for a request for the status: a photo with the caption or, where the camera
/// failed, the caption behind what it says. `shot` is what the camera gave.
pub fn outgoing(shot: Result<Vec<u8>, String>, caption: String) -> (r: Outgoing)
    ensures
        match shot {
            Ok(jpeg) => r.is_photo(jpeg@, caption@, Seq::empty()),
            Err(e) => r.is_text("Camera error: "@ + e@ + "\n\n"@ + caption@),
        },
{
    match shot {
        Ok(jpeg) => plain_photo(jpeg, caption),
        Err(e) => Outgoing::Text(camera_error_message(&e, &caption)),
    }
}

/// What is sent when a print came to its end: a photo with the message or, where the camera
/// failed, just the message. `shot` is what the camera gave.
pub fn stopped_notice(shot: Result<Vec<u8>, String>, state: PrinterState) -> (r: Outgoing)
    ensures
        match shot {
            Ok(jpeg) => r.is_photo(jpeg@, stopped_text(state), Seq::empty()),
            Err(_) => r.is_text(stopped_text(state)),
        },
{
    match shot {
        Ok(jpeg) => plain_photo(jpeg, stopped_message(state)),
        Err(_) => Outgoing::Text(stopped_message(state)),
    }
}

/// A photo with a caption and no buttons.
fn plain_photo(jpeg: Vec<u8>, caption: String) -> (r: Outgoing)
    ensures
        r.is_photo(jpeg@, caption@, Seq::empty()),
{
    let buttons: Vec<Button> = Vec::new();
    assert(faces(buttons@) =~= Seq::empty());
    photo(jpeg, caption, buttons)
}

/// The job that an alert is about, where it is the one that the printer reported.
pub open spec fn job_about(id: Option<u64>, reported: Option<&JobStatus>) -> Option<&JobStatus> {
    match (id, reported) {
        (Some(id), Some(job)) if job.id == id => Some(job),
        _ => None,
    }
}

/// What is sent as an alert: the frame with the text and the buttons. `score` is written with two
/// decimal places, `job` is what the alert is about, and `reported` is the job that the printer
/// reported.
pub fn alert(
    jpeg: Vec<u8>,
    score: &str,
    paused: bool,
    job: Option<u64>,
    reported: Option<&JobStatus>,
    has_prusa: bool,
) -> (r: Outgoing)
    ensures
        r.is_photo(
            jpeg@,
            alert_text(score@, paused, job_about(job, reported)),
            alert_faces(paused, has_prusa),
        ),
{
    let about = match (job, reported) {
        (Some(id), Some(job)) => if job.id == id {
            Some(job)
        } else {
            None
        },
        _ => None,
    };
    photo(jpeg, build_alert_caption(score, paused, about), alert_buttons(paused, has_prusa))
}

/// The job of a status, if it has one.
pub open spec fn job_of(status: &StatusResponse) -> Option<&JobStatus> {
    match status.job {
        Some(job) => Some(&job),
        None => None,
    }
}

/// The answer to a request for the status: the report, or why there is none. `status` is what
/// the printer answered, where there is a printer to ask.
pub fn status_caption(
    status: Option<&Result<StatusResponse, String>>,
    score: &str,
) -> (r: String)
    ensures
        r@ == match status {
            None => "PrusaLink not configured.\nDetection score: "@ + score@,
            Some(Ok(status)) => status_report(status.printer.state, job_of(status), score@),
            Some(Err(e)) => "PrusaLink error: "@ + e@ + "\nDetection score: "@ + score@,
        },
{
    match status {
        None => "PrusaLink not configured.\nDetection score: ".to_owned().concat(score),
        Some(Ok(status)) => format_status_caption(
            status.printer.state,
            status.job.as_ref(),
            score,
        ),
        Some(Err(e)) => "PrusaLink error: ".to_owned().concat(e).concat(
            "\nDetection score: ",
        ).concat(score),
    }
}

/// The status without a photo, where the camera failed.
pub fn camera_error_message(error: &str, caption: &str) -> (r: String)
    ensures
        r@ == "Camera error: "@ + error@ + "\n\n"@ + caption@,
{
    "Camera error: ".to_owned().concat(error).concat("\n\n").concat(caption)
}

/// An alert has every part in its place: the job, where it is known, the score, and whether the
/// print was paused.
pub proof fn law_alerts_tell_all(score: Seq<char>, job: &JobStatus)
    ensures
        alert_text(score, true, None) == "Print failure detected!\n"@ + "Score: "@ + score + "\n"@
            + "Print has been paused."@,
        alert_text(score, false, None) == "Print failure detected!\n"@ + "Score: "@ + score + "\n"@
            + "Print is still running — monitor closely."@,
        alert_text(score, true, Some(job)) == "Print failure detected!\n"@ + (job.info() + "\n"@)
            + "Score: "@ + score + "\n"@ + "Print has been paused."@,
        alert_text(score, false, Some(job)) == "Print failure detected!\n"@ + (job.info() + "\n"@)
            + "Score: "@ + score + "\n"@ + "Print is still running — monitor closely."@,
{
    assert("Print failure detected!\n"@ + Seq::<char>::empty() =~= "Print failure detected!\n"@);
}

/// An alert is about a job exactly where that is the job that the printer reported.
pub proof fn law_alerts_are_about_the_reported_job(id: Option<u64>, job: &JobStatus)
    ensures
        job_about(id, Some(job)) == (if id == Some(job.id) {
            Some(job)
        } else {
            None
        }),
        job_about(id, None) is None,
{
}

/// Under an alert there is a button to resume a print that was paused, one to pause a print that
/// was not, where there is a printer to do it, and none else.
pub proof fn law_alerts_have_the_right_button(has_prusa: bool)
    ensures
        alert_faces(true, has_prusa) == seq![("Resume"@, "resume"@)],
        alert_faces(false, true) == seq![("Pause"@, "pause"@)],
        alert_faces(false, false).len() == 0,
{
}

/// A report on the printer names its state and its job, or that it has none, and the score; the
/// message that a print came to its end names the state.
pub proof fn law_reports_tell_all(state: PrinterState, job: &JobStatus, score: Seq<char>)
    ensures
        status_report(state, Some(job), score) == "State: "@ + state.spec_label() + "\n"@ + job.info()
            + "\nDetection score: "@ + score,
        status_report(state, None, score) == "State: "@ + state.spec_label() + "\n"@
            + "No active job"@ + "\nDetection score: "@ + score,
        stopped_text(state) == "Print stopped — printer is now "@ + state.spec_label(),
{
}

/// A photo is sent with all of its bytes, under its name, with its caption and with its buttons in
/// their order; a text is sent as it is.
pub proof fn law_messages_are_sent_whole(
    sent: Outgoing,
    bytes: Seq<u8>,
    text: Seq<char>,
    under: Seq<(Seq<char>, Seq<char>)>,
)
    ensures
        sent.is_photo(bytes, text, under) ==> {
            &&& sent matches Outgoing::Photo { jpeg, file_name, caption, buttons }
            &&& jpeg@ == bytes
            &&& file_name@ == "snapshot.jpg"@
            &&& caption@ == text
            &&& buttons@.len() == under.len()
            &&& forall|i: int|
                0 <= i < under.len() ==> (#[trigger] buttons@[i]).text@ == under[i].0
                    && buttons@[i].data@ == under[i].1
        },
        sent.is_text(text) ==> (sent matches Outgoing::Text(s) && s@ == text),
{
    if sent.is_photo(bytes, text, under) {
        let buttons = sent->buttons@;
        assert forall|i: int| 0 <= i < under.len() implies (#[trigger] buttons[i]).text@
            == under[i].0 && buttons[i].data@ == under[i].1 by {
            assert(faces(buttons)[i] == (buttons[i].text@, buttons[i].data@));
        }
    }
}

} // verus!
