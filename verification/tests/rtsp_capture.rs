use openh264::encoder::Encoder;
use openh264::formats::YUVBuffer;
use printer_monitor::rtsp_capture::{
    encode_picture, finish_frame, pick_video_stream, CaptureError, Decoded, FrameDecoder,
    FrameShape, ParsedUrl, Picture, RtspCapture, RtspUrlError, StreamInfo, StreamItem, CAPTURE_TIMEOUT_SECS,
    JPEG_QUALITY,
};

/// The camera at an address, or a panic that says what is wrong with it.
fn camera(address: &str) -> RtspCapture {
    match RtspCapture::new(address) {
        Ok(camera) => camera,
        Err(error) => {
            let cause = match &error {
                RtspUrlError::Invalid(e) => e.to_string(),
                RtspUrlError::NotRtsp => String::new(),
            };
            panic!("{}", error.message(&cause, address))
        }
    }
}

#[test]
fn valid_url() {
    let cap = camera("rtsp://192.168.0.10/live");
    assert_eq!(cap.scheme(), "rtsp");
}

#[test]
#[should_panic(expected = "rtsp://")]
fn rejects_http_url() {
    camera("http://192.168.0.10/live");
}

#[test]
#[should_panic(expected = "Invalid RTSP URL")]
fn rejects_garbage() {
    camera("not a url");
}

#[test]
fn addresses_are_brought_into_their_normal_form() {
    let cap = camera("  RTSPS://cam/a/../live ");
    assert_eq!(cap.scheme(), "rtsps");
    assert_eq!(cap.url(), "rtsps://cam/live");
}

#[test]
fn wrong_addresses_are_told_apart() {
    assert!(matches!(RtspCapture::new("http://cam"), Err(RtspUrlError::NotRtsp)));
    assert!(matches!(RtspCapture::new("rtspx://cam"), Err(RtspUrlError::NotRtsp)));
    assert!(matches!(RtspCapture::new(""), Err(RtspUrlError::Invalid(_))));
    assert!(matches!(RtspCapture::new("rtsp"), Err(RtspUrlError::Invalid(_))));
}

#[test]
fn the_scheme_decides() {
    for (scheme, good) in [("rtsp", true), ("rtsps", true), ("http", false), ("RTSP", false)] {
        let url = ParsedUrl { scheme: scheme.to_string(), text: format!("{scheme}://cam") };
        match RtspCapture::at(url) {
            Ok(cap) => {
                assert!(good);
                assert_eq!(cap.url(), format!("{scheme}://cam"));
            }
            Err(_) => assert!(!good),
        }
    }
}

fn stream(media: &str, encoding_name: &str) -> StreamInfo {
    StreamInfo { media: media.to_string(), encoding_name: encoding_name.to_string() }
}

#[test]
fn the_first_video_stream_is_taken() {
    let streams = vec![
        stream("audio", "aac"),
        stream("video", "h265"),
        stream("audio", "h264"),
        stream("video", "h264"),
        stream("video", "h264"),
    ];
    assert!(matches!(pick_video_stream(&streams), Ok(3)));
    let streams = vec![stream("audio", "aac")];
    assert!(matches!(pick_video_stream(&streams), Err(CaptureError::NoVideoStream)));
    assert!(matches!(pick_video_stream(&Vec::new()), Err(CaptureError::NoVideoStream)));
}

fn picture(width: usize, height: usize) -> Picture {
    Picture { width, height, rgb: vec![200; width * height * 3] }
}

/// The size that the header of a JPEG image tells.
fn jpeg_size(jpeg: &[u8]) -> (usize, usize) {
    let at = jpeg
        .windows(2)
        .position(|w| w[0] == 0xFF && (w[1] == 0xC0 || w[1] == 0xC1))
        .unwrap();
    let word = |i: usize| jpeg[i] as usize * 256 + jpeg[i + 1] as usize;
    (word(at + 7), word(at + 5))
}

#[test]
fn pictures_become_jpeg_images() {
    let jpeg = encode_picture(&picture(20, 12)).unwrap();
    assert_eq!(jpeg[..2], [0xFF, 0xD8]);
    assert_eq!(jpeg[jpeg.len() - 2..], [0xFF, 0xD9]);
    assert_eq!(jpeg_size(&jpeg), (20, 12));
    assert_eq!(jpeg, encode_picture(&picture(20, 12)).unwrap());
    assert_eq!(JPEG_QUALITY, 85);
}

#[test]
fn empty_pictures_are_an_error() {
    assert!(matches!(encode_picture(&picture(0, 0)), Err(CaptureError::Jpeg(_))));
    assert!(matches!(encode_picture(&picture(65536, 1)), Err(CaptureError::Jpeg(_))));
}

#[test]
fn a_bad_packet_matters_only_in_a_keyframe() {
    let bad = || Decoded::Failed(openh264::Error::msg("bad"));
    assert!(matches!(finish_frame(false, bad()), Ok(None)));
    assert!(matches!(finish_frame(true, bad()), Err(CaptureError::Decode(_))));
    assert!(matches!(finish_frame(true, Decoded::Nothing), Ok(None)));
    assert!(matches!(finish_frame(false, Decoded::Misfit), Err(CaptureError::BadFrame)));
    assert!(matches!(finish_frame(false, Decoded::Frame(picture(8, 8))), Ok(Some(_))));
    assert!(matches!(
        finish_frame(false, Decoded::Frame(picture(0, 8))),
        Err(CaptureError::Jpeg(_))
    ));
}

fn shape(width: usize, height: usize) -> FrameShape {
    FrameShape {
        width,
        height,
        y_stride: 64,
        u_stride: 32,
        v_stride: 32,
        y_len: 64 * 48,
        u_len: 32 * 24,
        v_len: 32 * 24,
    }
}

#[test]
fn frames_fit_their_planes_or_not() {
    assert!(shape(64, 48).check());
    assert!(shape(63, 47).check());
    assert!(shape(2, 2).check());
    assert!(shape(0, 0).check());
    assert!(!shape(65, 48).check());
    assert!(!shape(64, 49).check());
    assert!(!shape(-16i32 as usize, 48).check());
    assert!(!shape(64, -2i32 as usize).check());
    assert!(!shape(usize::MAX, 0).check());
    let mut short = shape(64, 48);
    short.v_len -= 1;
    assert!(!short.check());
    let mut far = shape(64, 48);
    far.y_stride = usize::MAX;
    assert!(!far.check());
}

fn keyframe(width: usize, height: usize) -> Vec<u8> {
    let mut encoder = Encoder::new().unwrap();
    encoder.encode(&YUVBuffer::new(width, height)).unwrap().to_vec()
}

#[test]
fn a_keyframe_gives_an_image() {
    let mut decoder = FrameDecoder::new().unwrap();
    let jpeg = decoder.feed(true, &keyframe(64, 48)).unwrap().unwrap();
    assert_eq!(jpeg[..2], [0xFF, 0xD8]);
    assert_eq!(jpeg_size(&jpeg), (64, 48));
}

#[test]
fn packets_before_the_first_keyframe_are_passed_over() {
    let packet = keyframe(64, 48);
    let mut decoder = FrameDecoder::new().unwrap();
    assert!(matches!(decoder.feed(false, &packet), Ok(None)));
    assert!(matches!(decoder.feed(false, &[1, 2, 3]), Ok(None)));
    assert!(matches!(decoder.feed(true, &packet), Ok(Some(_))));
}

#[test]
fn errors_in_words() {
    let decode = CaptureError::Decode(openh264::Error::msg("bad"));
    for (error, words) in [
        (CaptureError::Timeout, "timed out"),
        (CaptureError::NoVideoStream, "no H.264 video stream found"),
        (CaptureError::NoFrame, "stream ended without producing a frame"),
        (CaptureError::Rtsp("gone".to_string()), "RTSP: gone"),
        (decode, "H.264 decode: cause"),
        (encode_picture(&picture(0, 1)).unwrap_err(), "JPEG encode: cause"),
        (CaptureError::PacketTooLong, "H.264 packet too long"),
        (CaptureError::BadFrame, "H.264 frame does not fit its planes"),
    ] {
        assert_eq!(error.message("cause"), words);
    }
    assert_eq!(CAPTURE_TIMEOUT_SECS, 10);
}

#[test]
fn wrong_addresses_in_words() {
    let error = RtspCapture::new("http://cam/x").unwrap_err();
    assert_eq!(
        error.message("", "http://cam/x"),
        "URL must use rtsp:// or rtsps://, got: http://cam/x"
    );
    let error = RtspCapture::new("not a url").unwrap_err();
    assert_eq!(error.message("cause", "not a url"), "Invalid RTSP URL: cause");
}

#[test]
fn a_stream_gives_its_first_image() {
    let packet = keyframe(32, 16);
    let mut decoder = FrameDecoder::new().unwrap();
    assert!(matches!(decoder.take(StreamItem::Other), Ok(None)));
    let early = StreamItem::Video { random_access: false, packet: &packet };
    assert!(matches!(decoder.take(early), Ok(None)));
    let key = StreamItem::Video { random_access: true, packet: &packet };
    assert_eq!(jpeg_size(&decoder.take(key).unwrap().unwrap()), (32, 16));
}

#[test]
fn a_stream_fails_or_ends() {
    let mut decoder = FrameDecoder::new().unwrap();
    let error = decoder.take(StreamItem::Failed("gone".to_string())).unwrap_err();
    assert_eq!(error.message(""), "RTSP: gone");
    assert!(matches!(decoder.take(StreamItem::Ended), Err(CaptureError::NoFrame)));
}

#[test]
fn a_capture_has_its_time() {
    let cap = camera("rtsp://cam");
    assert!(matches!(cap.capture(None), Err(CaptureError::Timeout)));
    assert!(matches!(cap.capture(Some(Err(CaptureError::NoFrame))), Err(CaptureError::NoFrame)));
    assert_eq!(cap.capture(Some(Ok(vec![1, 2]))).unwrap(), [1, 2]);
}

#[test]
fn a_stream_is_decoded_from_its_first_keyframe_on() {
    let mut encoder = Encoder::new().unwrap();
    let key = encoder.encode(&YUVBuffer::new(48, 32)).unwrap().to_vec();
    let mut decoder = FrameDecoder::new().unwrap();
    let mut outcome = None;
    for item in [
        StreamItem::Video { random_access: false, packet: &[9; 40] },
        StreamItem::Other,
        StreamItem::Video { random_access: true, packet: &key },
        StreamItem::Ended,
    ] {
        if outcome.is_none() {
            outcome = match decoder.take(item) {
                Ok(None) => None,
                other => Some(other),
            };
        }
    }
    assert_eq!(jpeg_size(&outcome.unwrap().unwrap().unwrap()), (48, 32));
}

#[test]
fn a_frame_keeps_its_colours() {
    let white = vec![235u8; 16 * 16];
    let grey = vec![128u8; 16 * 16 / 2];
    let frame = YUVBuffer::from_vec([white, grey].concat(), 16, 16);
    let mut encoder = Encoder::new().unwrap();
    let bright = encoder.encode(&frame).unwrap().to_vec();
    let mut decoder = FrameDecoder::new().unwrap();
    let image = decoder.feed(true, &bright).unwrap().unwrap();
    let mut decoder = FrameDecoder::new().unwrap();
    let dark = decoder.feed(true, &keyframe(16, 16)).unwrap().unwrap();
    assert_ne!(image, dark);
}
