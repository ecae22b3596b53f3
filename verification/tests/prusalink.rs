use printer_monitor::prusalink::{Method, PrinterState, PrusaLink};

#[test]
fn deserialize_all_printer_states() {
    for (state_str, expected) in [
        ("IDLE", PrinterState::Idle),
        ("BUSY", PrinterState::Busy),
        ("PRINTING", PrinterState::Printing),
        ("PAUSED", PrinterState::Paused),
        ("FINISHED", PrinterState::Finished),
        ("STOPPED", PrinterState::Stopped),
        ("ERROR", PrinterState::Error),
        ("ATTENTION", PrinterState::Attention),
        ("READY", PrinterState::Ready),
    ] {
        assert_eq!(PrinterState::from_name(state_str), expected);
    }
}

#[test]
fn deserialize_unknown_state() {
    assert_eq!(PrinterState::from_name("CALIBRATING"), PrinterState::Unknown);
}

#[test]
fn state_names_are_taken_letter_by_letter() {
    assert_eq!(PrinterState::from_name("idle"), PrinterState::Unknown);
    assert_eq!(PrinterState::from_name(" IDLE"), PrinterState::Unknown);
    assert_eq!(PrinterState::from_name(""), PrinterState::Unknown);
    assert_eq!(PrinterState::from_name("UNKNOWN"), PrinterState::Unknown);
}

#[test]
fn states_are_labelled_by_their_names() {
    for state in [
        PrinterState::Idle,
        PrinterState::Busy,
        PrinterState::Printing,
        PrinterState::Paused,
        PrinterState::Finished,
        PrinterState::Stopped,
        PrinterState::Error,
        PrinterState::Attention,
        PrinterState::Ready,
        PrinterState::Unknown,
    ] {
        assert_eq!(state.label(), format!("{state:?}"));
    }
}

#[test]
fn requests_go_to_the_printer_with_its_key() {
    let prusa = PrusaLink::new("http://192.168.0.10".to_string(), "key".to_string());

    let status = prusa.status();
    assert_eq!(status.method, Method::Get);
    assert_eq!(status.url, "http://192.168.0.10/api/v1/status");
    assert_eq!(status.api_key, "key");

    let pause = prusa.pause(42);
    assert_eq!(pause.method, Method::Put);
    assert_eq!(pause.url, "http://192.168.0.10/api/v1/job/42/pause");
    assert_eq!(pause.api_key, "key");

    let resume = prusa.resume(0);
    assert_eq!(resume.method, Method::Put);
    assert_eq!(resume.url, "http://192.168.0.10/api/v1/job/0/resume");

    assert_eq!(prusa.url("/x"), "http://192.168.0.10/x");
    assert_eq!(prusa.get("/x").method, Method::Get);
    assert_eq!(prusa.put("/x").url, "http://192.168.0.10/x");
}
