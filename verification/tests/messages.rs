use printer_monitor::messages::{
    alert, alert_buttons, build_alert_caption, camera_error_message, format_status_caption,
    outgoing, status_caption, stopped_message, stopped_notice, Button, Outgoing,
};
use printer_monitor::prusalink::{
    format_job_info, JobStatus, PrinterState, PrinterStatus, StatusResponse,
};

fn job(id: u64, progress: Option<f64>) -> JobStatus {
    JobStatus {
        id,
        progress: progress.map(|p| format!("{p:.1}")),
        time_remaining: None,
        time_printing: None,
    }
}

fn two(score: f64) -> String {
    format!("{score:.2}")
}

#[test]
fn format_job_info_with_progress() {
    let j = job(42, Some(73.456));
    assert_eq!(format_job_info(&j), "Job #42, progress: 73.5%");
}

#[test]
fn format_job_info_no_progress() {
    let j = job(1, None);
    assert_eq!(format_job_info(&j), "Job #1, progress: 0.0%");
}

#[test]
fn alert_caption_paused_with_job() {
    let j = job(5, Some(50.0));
    let caption = build_alert_caption(&two(0.72), true, Some(&j));
    assert!(caption.contains("Print failure detected!"));
    assert!(caption.contains("Job #5, progress: 50.0%"));
    assert!(caption.contains("Score: 0.72"));
    assert!(caption.contains("Print has been paused."));
}

#[test]
fn alert_caption_not_paused_no_job() {
    let caption = build_alert_caption(&two(0.40), false, None);
    assert!(caption.contains("Score: 0.40"));
    assert!(caption.contains("Print is still running"));
    assert!(!caption.contains("Job #"));
}

#[test]
fn alert_buttons_paused() {
    let buttons = alert_buttons(true, true);
    assert_eq!(buttons.len(), 1);
    assert_eq!(buttons[0].text, "Resume");
}

#[test]
fn alert_buttons_not_paused_with_prusa() {
    let buttons = alert_buttons(false, true);
    assert_eq!(buttons.len(), 1);
    assert_eq!(buttons[0].text, "Pause");
}

#[test]
fn alert_buttons_not_paused_no_prusa() {
    let buttons = alert_buttons(false, false);
    assert!(buttons.is_empty());
}

#[test]
fn status_caption_formatting() {
    let j = job(10, Some(25.0));
    let caption = format_status_caption(PrinterState::Printing, Some(&j), &two(0.15));
    assert!(caption.contains("State: Printing"));
    assert!(caption.contains("Job #10, progress: 25.0%"));
    assert!(caption.contains("Detection score: 0.15"));
}

#[test]
fn status_caption_no_job() {
    let caption = format_status_caption(PrinterState::Idle, None, &two(0.0));
    assert!(caption.contains("State: Idle"));
    assert!(caption.contains("No active job"));
    assert!(caption.contains("Detection score: 0.00"));
}

#[test]
fn alert_captions_in_full() {
    assert_eq!(
        build_alert_caption("0.72", true, Some(&job(5, Some(50.0)))),
        "Print failure detected!\nJob #5, progress: 50.0%\nScore: 0.72\nPrint has been paused."
    );
    assert_eq!(
        build_alert_caption("0.40", false, None),
        "Print failure detected!\nScore: 0.40\nPrint is still running \u{2014} monitor closely."
    );
}

#[test]
fn alert_buttons_send_what_they_say() {
    let resume = Button { text: "Resume".to_string(), data: "resume".to_string() };
    let pause = Button { text: "Pause".to_string(), data: "pause".to_string() };
    assert_eq!(alert_buttons(true, true), vec![resume]);
    assert_eq!(alert_buttons(true, false).len(), 1);
    assert_eq!(alert_buttons(false, true), vec![pause]);
}

#[test]
fn status_captions_in_full() {
    assert_eq!(
        status_caption(None, "0.10"),
        "PrusaLink not configured.\nDetection score: 0.10"
    );
    let failed: Result<StatusResponse, String> = Err("connection refused".to_string());
    assert_eq!(
        status_caption(Some(&failed), "0.10"),
        "PrusaLink error: connection refused\nDetection score: 0.10"
    );
    let idle: Result<StatusResponse, String> = Ok(StatusResponse {
        printer: PrinterStatus { state: PrinterState::Ready },
        job: None,
    });
    assert_eq!(
        status_caption(Some(&idle), "0.00"),
        "State: Ready\nNo active job\nDetection score: 0.00"
    );
    let busy: Result<StatusResponse, String> = Ok(StatusResponse {
        printer: PrinterStatus { state: PrinterState::Printing },
        job: Some(job(u64::MAX, None)),
    });
    assert_eq!(
        status_caption(Some(&busy), "1.25"),
        "State: Printing\nJob #18446744073709551615, progress: 0.0%\nDetection score: 1.25"
    );
}

#[test]
fn the_end_of_a_print_in_words() {
    assert_eq!(
        stopped_message(PrinterState::Finished),
        "Print stopped \u{2014} printer is now Finished"
    );
}

#[test]
fn a_camera_error_keeps_the_status() {
    assert_eq!(
        camera_error_message("timed out", "State: Idle"),
        "Camera error: timed out\n\nState: Idle"
    );
}

#[test]
fn job_zero_has_a_number() {
    assert_eq!(format_job_info(&job(0, Some(100.0))), "Job #0, progress: 100.0%");
}

/// The bytes, the caption and the buttons of a photo.
fn photo(sent: Outgoing) -> (Vec<u8>, String, Vec<Button>) {
    match sent {
        Outgoing::Photo { jpeg, file_name, caption, buttons } => {
            assert_eq!(file_name, "snapshot.jpg");
            (jpeg, caption, buttons)
        }
        Outgoing::Text(text) => panic!("no photo: {text}"),
    }
}

fn text(sent: Outgoing) -> String {
    match sent {
        Outgoing::Text(text) => text,
        other => panic!("no text: {other:?}"),
    }
}

#[test]
fn the_status_comes_with_a_photo_or_the_camera_error() {
    let sent = outgoing(Ok(vec![1, 2, 3]), "State: Idle".to_string());
    assert_eq!(photo(sent), (vec![1, 2, 3], "State: Idle".to_string(), vec![]));
    let sent = outgoing(Err("timed out".to_string()), "State: Idle".to_string());
    assert_eq!(text(sent), "Camera error: timed out\n\nState: Idle");
}

#[test]
fn the_end_of_a_print_comes_with_a_photo_if_there_is_one() {
    let words = "Print stopped \u{2014} printer is now Stopped";
    let sent = stopped_notice(Ok(vec![4]), PrinterState::Stopped);
    assert_eq!(photo(sent), (vec![4], words.to_string(), vec![]));
    let sent = stopped_notice(Err("timed out".to_string()), PrinterState::Stopped);
    assert_eq!(text(sent), words);
}

#[test]
fn alerts_are_about_their_job() {
    let job = job(7, Some(12.5));
    let (jpeg, caption, buttons) = photo(alert(vec![9], "0.60", true, Some(7), Some(&job), true));
    assert_eq!(jpeg, [9]);
    assert_eq!(
        caption,
        "Print failure detected!\nJob #7, progress: 12.5%\nScore: 0.60\nPrint has been paused."
    );
    assert_eq!(buttons, alert_buttons(true, true));
    for about in [None, Some(8)] {
        let (_, caption, _) = photo(alert(vec![9], "0.60", false, about, Some(&job), true));
        assert!(!caption.contains("Job #"));
    }
}
