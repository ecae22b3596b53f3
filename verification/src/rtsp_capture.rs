//! Single frames out of the camera's video stream.

use crate::text;
use openh264::formats::YUVSource;
use vstd::prelude::*;
use vstd::string::*;

verus! {

/// For how many seconds a capture may take.
pub const CAPTURE_TIMEOUT_SECS: u64 = 10;

/// The quality of the images, from 1 to 100.
pub const JPEG_QUALITY: u8 = 85;

/// Why an address is not one of a URL.
#[verifier::external_type_specification]
#[verifier::external_body]
pub struct ExUrlParseError(url::ParseError);

/// The H.264 decoder.
#[verifier::external_type_specification]
#[verifier::external_body]
pub struct ExDecoder(openh264::decoder::Decoder);

/// A frame that the decoder gave, as it keeps it: one plane for the light and two for the colours.
#[verifier::external_type_specification]
#[verifier::external_body]
pub struct ExDecodedYuv<'a>(openh264::decoder::DecodedYUV<'a>);

/// Why the decoder gave up.
#[verifier::external_type_specification]
#[verifier::external_body]
pub struct ExDecoderError(openh264::Error);

/// Why there is no image.
#[verifier::external_type_specification]
#[verifier::external_body]
pub struct ExEncodingError(jpeg_encoder::EncodingError);

/// A URL in its normal form.
#[derive(Debug)]
pub struct ParsedUrl {
    /// What stands before the first colon.
    pub scheme: String,
    /// All of it.
    pub text: String,
}

/// The scheme and the whole of the URL that a text denotes, or why it denotes none.
pub uninterp spec fn url_of(text: Seq<char>) -> Result<(Seq<char>, Seq<char>), url::ParseError>;

/// `url::Url::parse`, with `scheme` and `as_str` of what it returns. Which texts denote a URL,
/// and which one, is for the crate to say; the URL it returns begins with its scheme and a
/// colon.
#[verifier::external_body]
fn parse_url(text: &str) -> (r: Result<ParsedUrl, url::ParseError>)
    ensures
        match r {
            Ok(u) => url_of(text@) == Ok::<(Seq<char>, Seq<char>), url::ParseError>(
                (u.scheme@, u.text@),
            ) && u.scheme@.push(':').is_prefix_of(u.text@),
            Err(e) => url_of(text@) == Err::<(Seq<char>, Seq<char>), url::ParseError>(e),
        },
{
    match url::Url::parse(text) {
        Ok(u) => Ok(ParsedUrl { scheme: u.scheme().to_owned(), text: u.as_str().to_owned() }),
        Err(e) => Err(e),
    }
}

/// Why an address is not one of a camera.
#[derive(Debug)]
pub enum RtspUrlError {
    /// It is no URL.
    Invalid(url::ParseError),
    /// It is a URL with another scheme than `rtsp` or `rtsps`.
    NotRtsp,
}

impl RtspUrlError {
    /// What the error says of an address, where `cause` is what is wrong with it as a URL.
    pub fn message(&self, cause: &str, address: &str) -> (r: String)
        ensures
            r@ == match *self {
                RtspUrlError::Invalid(_) => "Invalid RTSP URL: "@ + cause@,
                RtspUrlError::NotRtsp => "URL must use rtsp:// or rtsps://, got: "@ + address@,
            },
    {
        match self {
            RtspUrlError::Invalid(_) => "Invalid RTSP URL: ".to_owned().concat(cause),
            RtspUrlError::NotRtsp => "URL must use rtsp:// or rtsps://, got: ".to_owned().concat(
                address,
            ),
        }
    }
}

/// Whether a scheme is one of RTSP.
pub open spec fn is_rtsp_scheme(scheme: Seq<char>) -> bool {
    scheme == "rtsp"@ || scheme == "rtsps"@
}

/// A camera.
#[derive(Debug)]
pub struct RtspCapture {
    url: ParsedUrl,
}

impl RtspCapture {
    /// The address of the stream.
    pub closed spec fn address(self) -> Seq<char> {
        self.url.text@
    }

    /// The scheme of the address.
    pub closed spec fn address_scheme(self) -> Seq<char> {
        self.url.scheme@
    }

    /// The camera at an address.
    pub fn new(rtsp_url: &str) -> (r: Result<RtspCapture, RtspUrlError>)
        ensures
            match url_of(rtsp_url@) {
                Ok((scheme, text)) => if is_rtsp_scheme(scheme) {
                    r matches Ok(camera) && camera.address_scheme() == scheme && camera.address()
                        == text && ("rtsp:"@.is_prefix_of(text) || "rtsps:"@.is_prefix_of(text))
                } else {
                    r matches Err(e) && e is NotRtsp
                },
                Err(e) => r == Err::<RtspCapture, RtspUrlError>(RtspUrlError::Invalid(e)),
            },
    {
        proof {
            reveal_strlit("rtsp");
            reveal_strlit("rtsps");
            reveal_strlit("rtsp:");
            reveal_strlit("rtsps:");
            assert("rtsp"@.push(':') =~= "rtsp:"@);
            assert("rtsps"@.push(':') =~= "rtsps:"@);
        }
        match parse_url(rtsp_url) {
            Ok(url) => RtspCapture::at(url),
            Err(e) => Err(RtspUrlError::Invalid(e)),
        }
    }

    /// The camera at a URL, which has to be one of RTSP.
    pub fn at(url: ParsedUrl) -> (r: Result<RtspCapture, RtspUrlError>)
        ensures
            if is_rtsp_scheme(url.scheme@) {
                r matches Ok(camera) && camera.address_scheme() == url.scheme@ && camera.address()
                    == url.text@
            } else {
                r matches Err(e) && e is NotRtsp
            },
    {
        if text::same(&url.scheme, "rtsp") || text::same(&url.scheme, "rtsps") {
            Ok(RtspCapture { url })
        } else {
            Err(RtspUrlError::NotRtsp)
        }
    }

    /// What an attempt at a frame comes to; `run` is `None` where it took too long.
    pub fn capture(&self, run: Option<Result<Vec<u8>, CaptureError>>) -> (r: Result<
        Vec<u8>,
        CaptureError,
    >)
        ensures
            r == match run {
                Some(result) => result,
                None => Err(CaptureError::Timeout),
            },
    {
        match run {
            Some(result) => result,
            None => Err(CaptureError::Timeout),
        }
    }

    /// The address of the stream.
    pub fn url(&self) -> (r: &str)
        ensures
            r@ == self.address(),
    {
        self.url.text.as_str()
    }

    /// The scheme of the address.
    pub fn scheme(&self) -> (r: &str)
        ensures
            r@ == self.address_scheme(),
    {
        self.url.scheme.as_str()
    }
}

/// Why there is no frame.
#[derive(Debug)]
pub enum CaptureError {
    Timeout,
    NoVideoStream,
    NoFrame,
    /// The stream failed; the text says how.
    Rtsp(String),
    Decode(openh264::Error),
    Jpeg(jpeg_encoder::EncodingError),
    /// A packet has more bytes than the decoder can count.
    PacketTooLong,
    /// A frame claims a size that its planes have no room for.
    BadFrame,
}

impl CaptureError {
    /// What the error says, where `cause` is what the decoder or the encoder says of it.
    pub fn message(&self, cause: &str) -> (r: String)
        ensures
            r@ == match *self {
                CaptureError::Timeout => "timed out"@,
                CaptureError::NoVideoStream => "no H.264 video stream found"@,
                CaptureError::NoFrame => "stream ended without producing a frame"@,
                CaptureError::Rtsp(text) => "RTSP: "@ + text@,
                CaptureError::Decode(_) => "H.264 decode: "@ + cause@,
                CaptureError::Jpeg(_) => "JPEG encode: "@ + cause@,
                CaptureError::PacketTooLong => "H.264 packet too long"@,
                CaptureError::BadFrame => "H.264 frame does not fit its planes"@,
            },
    {
        match self {
            CaptureError::Timeout => "timed out".to_owned(),
            CaptureError::NoVideoStream => "no H.264 video stream found".to_owned(),
            CaptureError::NoFrame => "stream ended without producing a frame".to_owned(),
            CaptureError::Rtsp(text) => "RTSP: ".to_owned().concat(text),
            CaptureError::Decode(_) => "H.264 decode: ".to_owned().concat(cause),
            CaptureError::Jpeg(_) => "JPEG encode: ".to_owned().concat(cause),
            CaptureError::PacketTooLong => "H.264 packet too long".to_owned(),
            CaptureError::BadFrame => "H.264 frame does not fit its planes".to_owned(),
        }
    }
}

/// What the camera says of one of its streams.
#[derive(Debug)]
pub struct StreamInfo {
    pub media: String,
    pub encoding_name: String,
}

impl StreamInfo {
    /// Whether this is video that can be decoded.
    pub open spec fn is_h264(self) -> bool {
        self.media@ == "video"@ && self.encoding_name@ == "h264"@
    }
}

/// The number of the first stream with video that can be decoded.
pub fn pick_video_stream(streams: &Vec<StreamInfo>) -> (r: Result<usize, CaptureError>)
    ensures
        match r {
            Ok(i) => i < streams@.len() && streams@[i as int].is_h264() && forall|k: int|
                0 <= k < i ==> !(#[trigger] streams@[k]).is_h264(),
            Err(e) => e is NoVideoStream && forall|k: int|
                0 <= k < streams@.len() ==> !(#[trigger] streams@[k]).is_h264(),
        },
{
    let mut i: usize = 0;
    while i < streams.len()
        invariant
            i <= streams@.len(),
            forall|k: int| 0 <= k < i ==> !(#[trigger] streams@[k]).is_h264(),
        decreases streams@.len() - i,
    {
        if text::same(&streams[i].media, "video") && text::same(&streams[i].encoding_name, "h264") {
            return Ok(i);
        }
        i = i + 1;
    }
    Err(CaptureError::NoVideoStream)
}

/// A decoded frame: red, green and blue of each pixel, row by row.
#[derive(Debug)]
pub struct Picture {
    pub width: usize,
    pub height: usize,
    pub rgb: Vec<u8>,
}

impl Picture {
    /// There are as many bytes as the size says.
    pub open spec fn wf(self) -> bool {
        self.rgb@.len() == self.width * self.height * 3
    }

    /// Neither number is zero in its low 16 bits, which are all that the encoder is handed of it.
    pub open spec fn encodable(self) -> bool {
        self.width as u16 > 0 && self.height as u16 > 0
    }

    /// The picture as a JPEG image, or why there is none.
    pub open spec fn jpeg(self) -> Result<Seq<u8>, jpeg_encoder::EncodingError> {
        jpeg_of(self.rgb@, self.width as u16, self.height as u16, JPEG_QUALITY)
    }
}

/// The JPEG image of the given size and quality with these pixels, or why there is none.
pub uninterp spec fn jpeg_of(rgb: Seq<u8>, width: u16, height: u16, quality: u8) -> Result<
    Seq<u8>,
    jpeg_encoder::EncodingError,
>;

/// Whether bytes begin and end as a JPEG image does.
pub open spec fn is_jpeg(bytes: Seq<u8>) -> bool {
    &&& bytes.len() >= 4
    &&& bytes[0] == 0xFF && bytes[1] == 0xD8
    &&& bytes[bytes.len() - 2] == 0xFF && bytes[bytes.len() - 1] == 0xD9
}

/// `jpeg_encoder::Encoder::encode` on RGB pixels, into memory. It fails exactly where the size
/// is zero or there are too few pixels; else it gives an image, from the marker that begins one
/// to the marker that ends it. The arguments alone decide which image, or which error.
#[verifier::external_body]
fn encode_jpeg(rgb: &[u8], width: u16, height: u16, quality: u8) -> (r: Result<
    Vec<u8>,
    jpeg_encoder::EncodingError,
>)
    requires
        width * height * 3 <= usize::MAX,
        1 <= quality <= 100,
    ensures
        match r {
            Ok(jpeg) => width > 0 && height > 0 && rgb@.len() >= width * height * 3 && jpeg_of(
                rgb@,
                width,
                height,
                quality,
            ) == Ok::<Seq<u8>, jpeg_encoder::EncodingError>(jpeg@) && is_jpeg(jpeg@),
            Err(e) => (width == 0 || height == 0 || rgb@.len() < width * height * 3) && jpeg_of(
                rgb@,
                width,
                height,
                quality,
            ) == Err::<Seq<u8>, jpeg_encoder::EncodingError>(e),
        },
{
    let mut jpeg = Vec::new();
    let encoder = jpeg_encoder::Encoder::new(&mut jpeg, quality);
    encoder.encode(rgb, width, height, jpeg_encoder::ColorType::Rgb)?;
    Ok(jpeg)
}

/// The packets that a decoder was handed, in their order.
pub uninterp spec fn packets_in(decoder: openh264::decoder::Decoder) -> Seq<Seq<u8>>;

/// What a decoder answered to the packets that it was handed, in their order.
pub uninterp spec fn answers_in(decoder: openh264::decoder::Decoder) -> Seq<
    Result<Option<openh264::decoder::DecodedYUV<'static>>, openh264::Error>,
>;

/// The sizes of a frame and of its planes.
#[derive(Debug, Clone, Copy, PartialEq, Eq, Structural)]
pub struct FrameShape {
    pub width: usize,
    pub height: usize,
    /// How many bytes it is from one row of a plane to the next.
    pub y_stride: usize,
    pub u_stride: usize,
    pub v_stride: usize,
    /// How many bytes a plane has.
    pub y_len: usize,
    pub u_len: usize,
    pub v_len: usize,
}

/// Whether a plane with this many bytes has as many rows of this width, this many bytes apart.
pub open spec fn has_rows(len: nat, stride: nat, rows: nat, width: nat) -> bool {
    rows > 0 ==> (rows - 1) * stride + width <= len
}

impl FrameShape {
    /// The size is one that a decoder can count and memory can hold in colours, and each plane has
    /// room for it: a byte for each pixel in the first, one for each two by two in the others.
    pub open spec fn fits(self) -> bool {
        let rows = (self.height as nat + 1) / 2;
        let columns = (self.width as nat + 1) / 2;
        &&& self.width <= i32::MAX
        &&& self.height <= i32::MAX
        &&& self.width * self.height * 3 <= isize::MAX
        &&& has_rows(
            self.y_len as nat,
            self.y_stride as nat,
            self.height as nat,
            self.width as nat,
        )
        &&& has_rows(self.u_len as nat, self.u_stride as nat, rows, columns)
        &&& has_rows(self.v_len as nat, self.v_stride as nat, rows, columns)
    }

    /// Whether each plane has room for the size of the frame.
    pub fn check(self) -> (r: bool)
        ensures
            r == self.fits(),
    {
        if self.width > i32::MAX as usize || self.height > i32::MAX as usize {
            return false;
        }
        let rows: usize = (self.height + 1) / 2;
        let columns: usize = (self.width + 1) / 2;
        proof {
            let (w, h) = (self.width, self.height);
            assert(0 <= w * h <= 0x7FFF_FFFF * 0x7FFF_FFFF) by (nonlinear_arith)
                requires
                    0 <= w <= 0x7FFF_FFFF,
                    0 <= h <= 0x7FFF_FFFF,
            ;
        }
        let bytes: u128 = self.width as u128 * self.height as u128 * 3;
        bytes <= isize::MAX as u128 && rows_fit(
            self.y_len,
            self.y_stride,
            self.height,
            self.width,
        ) && rows_fit(self.u_len, self.u_stride, rows, columns) && rows_fit(
            self.v_len,
            self.v_stride,
            rows,
            columns,
        )
    }
}

/// Whether a plane with this many bytes has as many rows of this width, this many bytes apart.
fn rows_fit(len: usize, stride: usize, rows: usize, width: usize) -> (r: bool)
    requires
        rows <= i32::MAX,
        width <= i32::MAX,
    ensures
        r == has_rows(len as nat, stride as nat, rows as nat, width as nat),
{
    if rows == 0 {
        return true;
    }
    proof {
        assert(0 <= (rows - 1) * stride <= 0x7FFF_FFFF * 0xFFFF_FFFF_FFFF_FFFF) by (nonlinear_arith)
            requires
                1 <= rows <= 0x7FFF_FFFF,
                0 <= stride <= 0xFFFF_FFFF_FFFF_FFFF,
        ;
    }
    (rows - 1) as u128 * stride as u128 + width as u128 <= len as u128
}

/// The sizes of a frame and of its planes.
pub uninterp spec fn shape_of(frame: openh264::decoder::DecodedYUV<'_>) -> FrameShape;

/// Whether these are colours that a frame was converted to. Machines with other instructions
/// convert a frame to slightly other colours, so there may be more than one answer.
pub uninterp spec fn shows(frame: openh264::decoder::DecodedYUV<'_>, rgb: Seq<u8>) -> bool;

/// `dimensions`, `strides`, `y`, `u` and `v` of `openh264::decoder::DecodedYUV`: the sizes of the
/// frame, and the lengths of its planes.
#[verifier::external_body]
fn frame_shape(frame: &openh264::decoder::DecodedYUV<'_>) -> (r: FrameShape)
    ensures
        r == shape_of(*frame),
{
    let (width, height) = frame.dimensions();
    let (y_stride, u_stride, v_stride) = frame.strides();
    let (y_len, u_len, v_len) = (frame.y().len(), frame.u().len(), frame.v().len());
    FrameShape { width, height, y_stride, u_stride, v_stride, y_len, u_len, v_len }
}

/// `openh264::decoder::DecodedYUV::write_rgb8`, into as many bytes as `rgb8_len` says: three for
/// each pixel, of the colours that the frame shows. It reads each plane row by row, so the frame
/// has to fit its planes. Which colours they are is left unsaid: the conversion rests on the
/// instructions that the machine has for it.
#[verifier::external_body]
fn frame_rgb(frame: &openh264::decoder::DecodedYUV<'_>) -> (r: Vec<u8>)
    requires
        shape_of(*frame).fits(),
    ensures
        r@.len() == shape_of(*frame).width * shape_of(*frame).height * 3,
        shows(*frame, r@),
{
    let mut rgb = vec![0u8; frame.rgb8_len()];
    frame.write_rgb8(&mut rgb);
    rgb
}

/// `openh264::decoder::Decoder::new`. A new decoder was handed no packet, and has answered none.
/// Whether there is one is left unsaid: that is for the native decoder to say, and for how much
/// memory the machine has for it.
#[verifier::external_body]
fn new_decoder() -> (r: Result<openh264::decoder::Decoder, openh264::Error>)
    ensures
        match r {
            Ok(decoder) => packets_in(decoder).len() == 0 && answers_in(decoder).len() == 0,
            Err(_) => true,
        },
{
    openh264::decoder::Decoder::new()
}

/// `openh264::decoder::Decoder::decode`. The decoder is handed this packet after those before it,
/// and what it answers is the latest of its answers. Which frame it is, if there is one, is left
/// unsaid: that rests on what the native decoder keeps of earlier packets.
#[verifier::external_body]
fn decode_frame<'a>(decoder: &'a mut openh264::decoder::Decoder, packet: &[u8]) -> (r: Result<
    Option<openh264::decoder::DecodedYUV<'a>>,
    openh264::Error,
>)
    requires
        packet@.len() <= i32::MAX,
    ensures
        packets_in(*final(decoder)) == packets_in(*old(decoder)).push(packet@),
        answers_in(*final(decoder)) == answers_in(*old(decoder)).push(r),
{
    decoder.decode(packet)
}

/// What was made of the decoder's answer to a packet.
#[derive(Debug)]
pub enum Decoded {
    /// There is no frame yet.
    Nothing,
    /// There is a frame.
    Frame(Picture),
    /// There is a frame, but it does not fit its planes.
    Misfit,
    /// The packet could not be decoded.
    Failed(openh264::Error),
}

impl Decoded {
    /// A picture has as many bytes as its size says.
    pub open spec fn wf(self) -> bool {
        self matches Decoded::Frame(picture) ==> picture.wf()
    }

    /// Whether this is what is made of an answer of the decoder: of a frame that fits its planes, a
    /// picture of its size in the colours that it shows.
    pub open spec fn made_of(
        self,
        answer: Result<Option<openh264::decoder::DecodedYUV<'_>>, openh264::Error>,
    ) -> bool {
        match answer {
            Ok(Some(frame)) => if shape_of(frame).fits() {
                self matches Decoded::Frame(picture) && picture.wf() && picture.width == shape_of(
                    frame,
                ).width && picture.height == shape_of(frame).height && shows(frame, picture.rgb@)
            } else {
                self is Misfit
            },
            Ok(None) => self is Nothing,
            Err(e) => self == Decoded::Failed(e),
        }
    }
}

/// Hands a packet to the decoder, and makes a picture of the frame that it gives.
fn decode_packet(decoder: &mut openh264::decoder::Decoder, packet: &[u8]) -> (r: Decoded)
    requires
        packet@.len() <= i32::MAX,
    ensures
        packets_in(*final(decoder)) == packets_in(*old(decoder)).push(packet@),
        answers_in(*final(decoder)).len() == answers_in(*old(decoder)).len() + 1,
        answers_in(*final(decoder)).drop_last() == answers_in(*old(decoder)),
        r.made_of(answers_in(*final(decoder)).last()),
{
    match decode_frame(decoder, packet) {
        Ok(Some(frame)) => {
            let shape = frame_shape(&frame);
            if shape.check() {
                Decoded::Frame(
                    Picture { width: shape.width, height: shape.height, rgb: frame_rgb(&frame) },
                )
            } else {
                Decoded::Misfit
            }
        },
        Ok(None) => Decoded::Nothing,
        Err(e) => Decoded::Failed(e),
    }
}

/// A picture as a JPEG image.
pub fn encode_picture(picture: &Picture) -> (r: Result<Vec<u8>, CaptureError>)
    requires
        picture.wf(),
    ensures
        match r {
            Ok(jpeg) => picture.encodable() && picture.jpeg() == Ok::<
                Seq<u8>,
                jpeg_encoder::EncodingError,
            >(jpeg@) && is_jpeg(jpeg@),
            Err(e) => !picture.encodable() && (e matches CaptureError::Jpeg(cause)
                && picture.jpeg() == Err::<Seq<u8>, jpeg_encoder::EncodingError>(cause)),
        },
{
    let bytes: usize = picture.rgb.len();
    let width: u16 = #[verifier::truncate]
    (picture.width as u16);
    let height: u16 = #[verifier::truncate]
    (picture.height as u16);
    proof {
        let w = picture.width;
        let h = picture.height;
        assert(w as u16 <= w) by (bit_vector);
        assert(h as u16 <= h) by (bit_vector);
        assert(width * height <= w * h) by (nonlinear_arith)
            requires
                0 <= width <= w,
                0 <= height <= h,
        ;
    }
    match encode_jpeg(picture.rgb.as_slice(), width, height, JPEG_QUALITY) {
        Ok(jpeg) => Ok(jpeg),
        Err(e) => Err(CaptureError::Jpeg(e)),
    }
}

/// Whether `r` is what comes of a packet that was decoded: the image, nothing yet, or an error.
/// A packet in the midst of the stream that cannot be decoded is passed over; a keyframe that
/// cannot be decoded is an error.
pub open spec fn comes_of(
    random_access: bool,
    decoded: Decoded,
    r: Result<Option<Vec<u8>>, CaptureError>,
) -> bool {
    match decoded {
        Decoded::Frame(picture) => match r {
            Ok(Some(jpeg)) => picture.encodable() && picture.jpeg() == Ok::<
                Seq<u8>,
                jpeg_encoder::EncodingError,
            >(jpeg@) && is_jpeg(jpeg@),
            Ok(None) => false,
            Err(e) => !picture.encodable() && (e matches CaptureError::Jpeg(cause)
                && picture.jpeg() == Err::<Seq<u8>, jpeg_encoder::EncodingError>(cause)),
        },
        Decoded::Nothing => r matches Ok(none) && none is None,
        Decoded::Misfit => r matches Err(e) && e is BadFrame,
        Decoded::Failed(e) => if random_access {
            r == Err::<Option<Vec<u8>>, CaptureError>(CaptureError::Decode(e))
        } else {
            r matches Ok(none) && none is None
        },
    }
}

/// What comes of a packet that was decoded.
pub fn finish_frame(random_access: bool, decoded: Decoded) -> (r: Result<
    Option<Vec<u8>>,
    CaptureError,
>)
    requires
        decoded.wf(),
    ensures
        comes_of(random_access, decoded, r),
{
    match decoded {
        Decoded::Frame(picture) => match encode_picture(&picture) {
            Ok(jpeg) => Ok(Some(jpeg)),
            Err(e) => Err(e),
        },
        Decoded::Nothing => Ok(None),
        Decoded::Misfit => Err(CaptureError::BadFrame),
        Decoded::Failed(e) => if random_access {
            Err(CaptureError::Decode(e))
        } else {
            Ok(None)
        },
    }
}

/// What comes next of a stream.
#[derive(Debug)]
pub enum StreamItem<'a> {
    /// A packet of video, and whether it is a keyframe.
    Video { random_access: bool, packet: &'a [u8] },
    /// Anything else.
    Other,
    /// The stream failed; the text says how.
    Failed(String),
    /// There is no more.
    Ended,
}

/// Looks for the first whole frame in a stream of packets.
pub struct FrameDecoder {
    decoder: openh264::decoder::Decoder,
    got_keyframe: bool,
}

impl FrameDecoder {
    /// Whether a keyframe has come by.
    pub closed spec fn seen_keyframe(self) -> bool {
        self.got_keyframe
    }

    /// The packets that were decoded.
    pub closed spec fn packets(self) -> Seq<Seq<u8>> {
        packets_in(self.decoder)
    }

    /// What the decoder answered to them.
    pub closed spec fn answers(self) -> Seq<
        Result<Option<openh264::decoder::DecodedYUV<'static>>, openh264::Error>,
    > {
        answers_in(self.decoder)
    }

    /// Whether nothing has come by yet.
    pub open spec fn is_new(self) -> bool {
        !self.seen_keyframe() && self.packets().len() == 0 && self.answers().len() == 0
    }

    /// Whether `after` and `r` are what comes of a packet of video: from the first keyframe on it
    /// is handed to the decoder, and `r` is what comes of the answer; before that it is not. A
    /// packet that the decoder cannot count the bytes of is an error instead.
    pub open spec fn fed(
        self,
        after: FrameDecoder,
        random_access: bool,
        packet: Seq<u8>,
        r: Result<Option<Vec<u8>>, CaptureError>,
    ) -> bool {
        &&& after.seen_keyframe() == (self.seen_keyframe() || random_access)
        &&& if after.seen_keyframe() && packet.len() <= i32::MAX {
            &&& after.packets() == self.packets().push(packet)
            &&& after.answers().len() == self.answers().len() + 1
            &&& after.answers().drop_last() == self.answers()
            &&& exists|decoded: Decoded|
                #![trigger comes_of(random_access, decoded, r)]
                decoded.made_of(after.answers().last()) && comes_of(random_access, decoded, r)
        } else {
            &&& after.packets() == self.packets()
            &&& after.answers() == self.answers()
            &&& if after.seen_keyframe() {
                r matches Err(e) && e is PacketTooLong
            } else {
                r matches Ok(none) && none is None
            }
        }
    }

    /// Whether `after` and `r` are what comes of the next item of a stream.
    pub open spec fn took(
        self,
        after: FrameDecoder,
        item: StreamItem<'_>,
        r: Result<Option<Vec<u8>>, CaptureError>,
    ) -> bool {
        match item {
            StreamItem::Video { random_access, packet } => self.fed(
                after,
                random_access,
                packet@,
                r,
            ),
            StreamItem::Other => after == self && (r matches Ok(none) && none is None),
            StreamItem::Failed(e) => after == self && r == Err::<Option<Vec<u8>>, CaptureError>(
                CaptureError::Rtsp(e),
            ),
            StreamItem::Ended => after == self && r == Err::<Option<Vec<u8>>, CaptureError>(
                CaptureError::NoFrame,
            ),
        }
    }

    /// A decoder that has seen nothing.
    pub fn new() -> (r: Result<FrameDecoder, CaptureError>)
        ensures
            match r {
                Ok(d) => d.is_new(),
                Err(e) => e is Decode,
            },
    {
        match new_decoder() {
            Ok(decoder) => Ok(FrameDecoder { decoder, got_keyframe: false }),
            Err(e) => Err(CaptureError::Decode(e)),
        }
    }

    /// Takes in the next video packet, and gives the image once there is one. Packets before
    /// the first keyframe (`random_access`) are not even decoded.
    pub fn feed(
        &mut self,
        random_access: bool,
        packet: &[u8],
    ) -> (r: Result<Option<Vec<u8>>, CaptureError>)
        ensures
            old(self).fed(*final(self), random_access, packet@, r),
    {
        if random_access {
            self.got_keyframe = true;
        }
        if !self.got_keyframe {
            return Ok(None);
        }
        if packet.len() > i32::MAX as usize {
            return Err(CaptureError::PacketTooLong);
        }
        let decoded = decode_packet(&mut self.decoder, packet);
        finish_frame(random_access, decoded)
    }

    /// Takes in what comes next of the stream, and gives the image once there is one. What is no
    /// video is passed over; a stream that fails or ends before there is an image is an error.
    pub fn take(&mut self, item: StreamItem) -> (r: Result<Option<Vec<u8>>, CaptureError>)
        ensures
            old(self).took(*final(self), item, r),
    {
        match item {
            StreamItem::Video { random_access, packet } => self.feed(random_access, packet),
            StreamItem::Other => Ok(None),
            StreamItem::Failed(e) => Err(CaptureError::Rtsp(e)),
            StreamItem::Ended => Err(CaptureError::NoFrame),
        }
    }
}

/// Whether an item of a stream is a keyframe.
pub open spec fn is_keyframe(item: StreamItem<'_>) -> bool {
    item matches StreamItem::Video { random_access, .. } && random_access
}

/// Whether there is a keyframe in a stream.
pub open spec fn has_keyframe(items: Seq<StreamItem<'_>>) -> bool {
    exists|i: int| 0 <= i < items.len() && is_keyframe(#[trigger] items[i])
}

/// The packets of video in a stream from its first keyframe on.
pub open spec fn from_keyframe(items: Seq<StreamItem<'_>>) -> Seq<Seq<u8>>
    decreases items.len(),
{
    if items.len() == 0 {
        Seq::empty()
    } else {
        let before = from_keyframe(items.drop_last());
        match items.last() {
            StreamItem::Video { packet, .. } if has_keyframe(items) => before.push(packet@),
            _ => before,
        }
    }
}

/// Whether a new decoder went through these states and gave these results as it took in a stream.
pub open spec fn is_capture(
    items: Seq<StreamItem<'_>>,
    states: Seq<FrameDecoder>,
    results: Seq<Result<Option<Vec<u8>>, CaptureError>>,
) -> bool {
    &&& states.len() == items.len() + 1
    &&& results.len() == items.len()
    &&& states[0].is_new()
    &&& forall|i: int|
        #![trigger results[i]]
        0 <= i < items.len() ==> states[i].took(states[i + 1], items[i], results[i])
}

/// Whether a result leaves the capture undecided.
pub open spec fn undecided(r: Result<Option<Vec<u8>>, CaptureError>) -> bool {
    r matches Ok(none) && none is None
}

/// As long as a capture is undecided, the packets that were decoded are exactly the packets of video
/// from the first keyframe on, each was answered, and the stream has neither failed nor ended.
pub proof fn law_decodes_from_the_first_keyframe(
    items: Seq<StreamItem<'_>>,
    states: Seq<FrameDecoder>,
    results: Seq<Result<Option<Vec<u8>>, CaptureError>>,
    n: int,
)
    requires
        is_capture(items, states, results),
        0 <= n <= items.len(),
        forall|i: int| 0 <= i < n ==> undecided(#[trigger] results[i]),
    ensures
        states[n].seen_keyframe() == has_keyframe(items.take(n)),
        states[n].packets() == from_keyframe(items.take(n)),
        states[n].answers().len() == states[n].packets().len(),
        forall|i: int|
            0 <= i < n ==> (#[trigger] items[i] is Video || items[i] is Other),
    decreases n,
{
    let now = items.take(n);
    if n > 0 {
        law_decodes_from_the_first_keyframe(items, states, results, n - 1);
        let before = items.take(n - 1);
        assert(now.drop_last() =~= before);
        assert(now.last() == items[n - 1]);
        assert(undecided(results[n - 1]));
        assert(has_keyframe(now) == (has_keyframe(before) || is_keyframe(items[n - 1]))) by {
            if has_keyframe(before) {
                let i = choose|i: int| 0 <= i < before.len() && is_keyframe(#[trigger] before[i]);
                assert(now[i] == before[i]);
            }
            if is_keyframe(items[n - 1]) {
                assert(is_keyframe(now[n - 1]));
            }
            if has_keyframe(now) && !is_keyframe(items[n - 1]) {
                let i = choose|i: int| 0 <= i < now.len() && is_keyframe(#[trigger] now[i]);
                assert(before[i] == now[i]);
            }
        }
    } else {
        assert(states[0].packets() =~= Seq::<Seq<u8>>::empty());
    }
}

/// The first item of a stream that decides a capture decides it for good: an image, or that there
/// can be none, is what comes of the decoder's answer to that very packet; a stream that ends gives
/// no frame, and one that fails its error. Before it, the packets of video from the first keyframe
/// on were decoded, in their order, and no other.
pub proof fn law_first_result_decides(
    items: Seq<StreamItem<'_>>,
    states: Seq<FrameDecoder>,
    results: Seq<Result<Option<Vec<u8>>, CaptureError>>,
    k: int,
)
    requires
        is_capture(items, states, results),
        0 <= k < items.len(),
        forall|i: int| 0 <= i < k ==> undecided(#[trigger] results[i]),
        !undecided(results[k]),
    ensures
        states[k].packets() == from_keyframe(items.take(k)),
        match items[k] {
            StreamItem::Video { random_access, packet } => {
                &&& has_keyframe(items.take(k + 1))
                &&& if packet@.len() <= i32::MAX {
                    &&& states[k + 1].packets() == from_keyframe(items.take(k + 1))
                    &&& exists|decoded: Decoded|
                        #![trigger comes_of(random_access, decoded, results[k])]
                        decoded.made_of(states[k + 1].answers().last()) && comes_of(
                            random_access,
                            decoded,
                            results[k],
                        )
                } else {
                    results[k] matches Err(e) && e is PacketTooLong
                }
            },
            StreamItem::Other => false,
            StreamItem::Failed(e) => results[k] == Err::<Option<Vec<u8>>, CaptureError>(
                CaptureError::Rtsp(e),
            ),
            StreamItem::Ended => results[k] == Err::<Option<Vec<u8>>, CaptureError>(
                CaptureError::NoFrame,
            ),
        },
{
    law_decodes_from_the_first_keyframe(items, states, results, k);
    let before = items.take(k);
    let now = items.take(k + 1);
    assert(now.drop_last() =~= before);
    assert(now.last() == items[k]);
    assert(states[k].took(states[k + 1], items[k], results[k]));
    if states[k + 1].seen_keyframe() {
        if states[k].seen_keyframe() {
            let i = choose|i: int| 0 <= i < before.len() && is_keyframe(#[trigger] before[i]);
            assert(now[i] == before[i]);
        } else {
            assert(is_keyframe(now[k]));
        }
    }
}

/// Two schemes are those of a camera, and one kind of stream can be decoded.
pub proof fn law_cameras_and_their_streams(scheme: Seq<char>, stream: StreamInfo)
    ensures
        is_rtsp_scheme(scheme) <==> scheme == "rtsp"@ || scheme == "rtsps"@,
        stream.is_h264() <==> stream.media@ == "video"@ && stream.encoding_name@ == "h264"@,
{
}

/// A frame that fits its planes has every pixel in them: its light in a byte of its own, and its
/// colours in bytes that it shares with its neighbours; and one that has its last pixel in them
/// fits.
pub proof fn law_frames_that_fit_have_their_pixels(shape: FrameShape, x: int, y: int)
    requires
        0 <= x < shape.width,
        0 <= y < shape.height,
    ensures
        shape.fits() ==> {
            &&& y * shape.y_stride + x < shape.y_len
            &&& (y / 2) * shape.u_stride + x / 2 < shape.u_len
            &&& (y / 2) * shape.v_stride + x / 2 < shape.v_len
            &&& shape.width * shape.height * 3 <= isize::MAX
        },
        x == shape.width - 1 && y == shape.height - 1 && shape.width <= i32::MAX && shape.height
            <= i32::MAX && shape.width * shape.height * 3 <= isize::MAX && y * shape.y_stride + x
            < shape.y_len && (y / 2) * shape.u_stride + x / 2 < shape.u_len && (y / 2)
            * shape.v_stride + x / 2 < shape.v_len ==> shape.fits(),
{
    let rows = (shape.height as nat + 1) / 2;
    assert(y / 2 <= rows - 1);
    let (h, ys, us, vs) = (shape.height, shape.y_stride, shape.u_stride, shape.v_stride);
    assert(y * ys <= (h - 1) * ys) by (nonlinear_arith)
        requires
            y <= h - 1,
            ys >= 0,
    ;
    let half = y / 2;
    assert(half * us <= (rows - 1) * us) by (nonlinear_arith)
        requires
            half <= rows - 1,
            us >= 0,
    ;
    assert(half * vs <= (rows - 1) * vs) by (nonlinear_arith)
        requires
            half <= rows - 1,
            vs >= 0,
    ;
    if y == h - 1 {
        assert(half == rows - 1);
    }
}

/// What comes of a packet of video once a keyframe has come by: of a frame that fits its planes, the
/// image of its size in the colours that it shows, unless its size is zero in the low 16 bits; of
/// one that does not, an error; of no frame, nothing yet; and of a packet that cannot be decoded, an
/// error where it is a keyframe, and nothing where it is not.
pub proof fn law_answers_decide(
    before: FrameDecoder,
    after: FrameDecoder,
    random_access: bool,
    packet: Seq<u8>,
    r: Result<Option<Vec<u8>>, CaptureError>,
)
    requires
        before.fed(after, random_access, packet, r),
        before.seen_keyframe() || random_access,
        packet.len() <= i32::MAX,
    ensures
        after.seen_keyframe(),
        after.packets() == before.packets().push(packet),
        after.answers().len() == before.answers().len() + 1,
        match after.answers().last() {
            Ok(Some(frame)) => {
                let shape = shape_of(frame);
                if !shape.fits() {
                    r matches Err(e) && e is BadFrame
                } else if (shape.width as int) % 0x1_0000 == 0 || (shape.height as int) % 0x1_0000
                    == 0 {
                    r matches Err(e) && e is Jpeg
                } else {
                    r matches Ok(Some(jpeg)) && exists|rgb: Seq<u8>| #[trigger]
                        shows(frame, rgb) && rgb.len() == shape.width * shape.height * 3 && jpeg_of(
                            rgb,
                            shape.width as u16,
                            shape.height as u16,
                            85,
                        ) == Ok::<Seq<u8>, jpeg_encoder::EncodingError>(jpeg@)
                }
            },
            Ok(None) => undecided(r),
            Err(e) => if random_access {
                r == Err::<Option<Vec<u8>>, CaptureError>(CaptureError::Decode(e))
            } else {
                undecided(r)
            },
        },
{
    let decoded = choose|decoded: Decoded|
        #![trigger comes_of(random_access, decoded, r)]
        decoded.made_of(after.answers().last()) && comes_of(random_access, decoded, r);
    match decoded {
        Decoded::Frame(picture) => {
            let (w, h) = (picture.width, picture.height);
            assert((w as u16 == 0) == (w % 0x1_0000 == 0)) by (bit_vector);
            assert((h as u16 == 0) == (h % 0x1_0000 == 0)) by (bit_vector);
        },
        _ => {},
    }
}

/// Before the first keyframe nothing is decoded and nothing comes of a packet; a keyframe is known
/// from then on; and a packet that is too long for the decoder is not handed to it.
pub proof fn law_early_packets_are_passed_over(
    before: FrameDecoder,
    after: FrameDecoder,
    random_access: bool,
    packet: Seq<u8>,
    r: Result<Option<Vec<u8>>, CaptureError>,
)
    requires
        before.fed(after, random_access, packet, r),
    ensures
        after.seen_keyframe() <==> before.seen_keyframe() || random_access,
        !before.seen_keyframe() && !random_access ==> undecided(r) && after.packets()
            == before.packets() && after.answers() == before.answers(),
        (before.seen_keyframe() || random_access) && packet.len() > i32::MAX ==> after.packets()
            == before.packets() && after.answers() == before.answers() && (r matches Err(e)
            && e is PacketTooLong),
{
}

/// What is no video decides nothing, and a stream that fails or ends decides the capture.
pub proof fn law_streams_end_captures(
    before: FrameDecoder,
    after: FrameDecoder,
    e: String,
    r: Result<Option<Vec<u8>>, CaptureError>,
)
    ensures
        before.took(after, StreamItem::Other, r) ==> after == before && undecided(r),
        before.took(after, StreamItem::Failed(e), r) ==> after == before && r == Err::<
            Option<Vec<u8>>,
            CaptureError,
        >(CaptureError::Rtsp(e)),
        before.took(after, StreamItem::Ended, r) ==> after == before && r == Err::<
            Option<Vec<u8>>,
            CaptureError,
        >(CaptureError::NoFrame),
{
}

} // verus!
