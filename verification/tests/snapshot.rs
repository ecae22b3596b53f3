use printer_monitor::snapshot::{FfmpegRun, Snapshot};

#[test]
fn cameras_have_rtsp_addresses() {
    assert!(Snapshot::accepts("rtsp://cam/live"));
    assert!(Snapshot::accepts("rtsps://cam/live"));
    assert!(Snapshot::accepts("rtsp://"));
    assert!(!Snapshot::accepts("rtsp:/cam"));
    assert!(!Snapshot::accepts("RTSP://cam"));
    assert!(!Snapshot::accepts("http://cam"));
    assert!(!Snapshot::accepts(""));
}

#[test]
fn ffmpeg_is_told_what_to_do() {
    let camera = Snapshot::new("rtsp://cam/live".to_string());
    assert_eq!(
        camera.capture_args(),
        [
            "-y",
            "-loglevel",
            "error",
            "-rtsp_transport",
            "tcp",
            "-timeout",
            "10000000",
            "-i",
            "rtsp://cam/live",
            "-frames:v",
            "1",
            "-q:v",
            "2",
        ]
    );
}

#[test]
fn runs_of_ffmpeg_succeed_or_say_why_not() {
    let camera = Snapshot::new("rtsps://cam/live".to_string());
    let stderr = "no route".to_string();
    assert_eq!(
        camera.capture(FfmpegRun::Exited { success: true, stderr: stderr.clone() }),
        Ok(())
    );
    assert_eq!(
        camera.capture(FfmpegRun::Exited { success: false, stderr }),
        Err("ffmpeg failed: no route".to_string())
    );
    assert_eq!(camera.capture(FfmpegRun::TimedOut), Err("ffmpeg timed out".to_string()));
}
