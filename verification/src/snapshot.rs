//! Snapshots taken by an external `ffmpeg`.

use crate::text;
use vstd::prelude::*;
use vstd::string::*;

verus! {

/// A camera that `ffmpeg` takes snapshots from.
#[derive(Debug)]
pub struct Snapshot {
    rtsp_url: String,
}

/// Whether an address is one of an RTSP stream.
pub open spec fn is_rtsp_address(url: Seq<char>) -> bool {
    "rtsp://"@.is_prefix_of(url) || "rtsps://"@.is_prefix_of(url)
}

/// How a run of `ffmpeg` ended.
#[derive(Debug)]
pub enum FfmpegRun {
    /// It did not end in time.
    TimedOut,
    /// It ended, successfully or not, and wrote this to its error output.
    Exited { success: bool, stderr: String },
}

impl Snapshot {
    /// The address of the stream.
    pub closed spec fn url(self) -> Seq<char> {
        self.rtsp_url@
    }

    /// Whether an address is one that a camera can be made of.
    pub fn accepts(rtsp_url: &str) -> (r: bool)
        ensures
            r == is_rtsp_address(rtsp_url@),
    {
        text::starts_with(rtsp_url, "rtsp://") || text::starts_with(rtsp_url, "rtsps://")
    }

    /// The camera with this stream.
    pub fn new(rtsp_url: String) -> (r: Snapshot)
        requires
            is_rtsp_address(rtsp_url@),
        ensures
            r.url() == rtsp_url@,
    {
        Snapshot { rtsp_url }
    }

    /// The arguments with which `ffmpeg` writes one frame of the stream to the file whose path
    /// follows them: over TCP, with ten seconds to do it, overwriting what is there.
    pub fn capture_args(&self) -> (r: Vec<String>)
        ensures
            r@.map_values(|s: String| s@) == seq![
                "-y"@,
                "-loglevel"@,
                "error"@,
                "-rtsp_transport"@,
                "tcp"@,
                "-timeout"@,
                "10000000"@,
                "-i"@,
                self.url(),
                "-frames:v"@,
                "1"@,
                "-q:v"@,
                "2"@,
            ],
    {
        let args: Vec<String> = vec![
            "-y".to_owned(),
            "-loglevel".to_owned(),
            "error".to_owned(),
            "-rtsp_transport".to_owned(),
            "tcp".to_owned(),
            "-timeout".to_owned(),
            "10000000".to_owned(),
            "-i".to_owned(),
            self.rtsp_url.clone(),
            "-frames:v".to_owned(),
            "1".to_owned(),
            "-q:v".to_owned(),
            "2".to_owned(),
        ];
        args
    }

    /// What a run of `ffmpeg` comes to: a snapshot, or a text that says what went wrong.
    pub fn capture(&self, run: FfmpegRun) -> (r: Result<(), String>)
        ensures
            match run {
                FfmpegRun::TimedOut => r matches Err(e) && e@ == "ffmpeg timed out"@,
                FfmpegRun::Exited { success: true, .. } => r is Ok,
                FfmpegRun::Exited { success: false, stderr } => r matches Err(e) && e@
                    == "ffmpeg failed: "@ + stderr@,
            },
    {
        match run {
            FfmpegRun::TimedOut => Err("ffmpeg timed out".to_owned()),
            FfmpegRun::Exited { success, stderr } => if success {
                Ok(())
            } else {
                Err("ffmpeg failed: ".to_owned().concat(&stderr))
            },
        }
    }
}

/// An address is one of an RTSP stream exactly where it begins with one of the two schemes, written
/// in small letters.
pub proof fn law_streams_have_rtsp_addresses(rest: Seq<char>, url: Seq<char>)
    ensures
        is_rtsp_address("rtsp://"@ + rest),
        is_rtsp_address("rtsps://"@ + rest),
        is_rtsp_address(url) ==> url =~= "rtsp://"@ + url.skip("rtsp://"@.len() as int) || url
            =~= "rtsps://"@ + url.skip("rtsps://"@.len() as int),
{
    assert(("rtsp://"@ + rest).subrange(0, "rtsp://"@.len() as int) =~= "rtsp://"@);
    assert(("rtsps://"@ + rest).subrange(0, "rtsps://"@.len() as int) =~= "rtsps://"@);
}

} // verus!
