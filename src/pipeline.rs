//! The device's frame pipeline: when to capture, which frames to encode, how
//! a frame becomes an encoded packet, and the frame-rate window.
use vstd::prelude::*;
use crate::device::ConnState;
use crate::wire::same_text;

verus! {

/// Frames older than this many milliseconds when they reach the encoder are
/// dropped.
pub const THRESHOLD_MILLIS: u128 = 1000;

/// Interval between two looks at the connectivity state while waiting.
pub const WAIT_MILLIS: u64 = 1200;

/// Interval between two packets written to the media track.
pub const PACE_MILLIS: u64 = 33;

/// Quality of the per-frame JPEG codec.
pub const JPEG_QUALITY: u8 = 80;

/// Length of the frame-rate window.
pub const FPS_WINDOW_MILLIS: u128 = 1000;

/// Codec of the outgoing stream.
#[derive(Debug, Clone, Copy, PartialEq, Eq, Structural)]
pub enum Encoder {
    MJPEG,
    AV1,
}

pub open spec fn encoder_named(s: Seq<char>) -> Option<Encoder> {
    if s == "MJPEG"@ {
        Some(Encoder::MJPEG)
    } else if s == "AV1"@ {
        Some(Encoder::AV1)
    } else {
        None
    }
}

impl Encoder {
    /// The codec of a name: `MJPEG` or `AV1`.
    pub fn from_name(input: &str) -> (r: Result<Encoder, ()>)
        ensures
            match encoder_named(input@) {
                Some(e) => r == Ok::<Encoder, ()>(e),
                None => r is Err,
            },
    {
        if same_text(input, "MJPEG") {
            Ok(Encoder::MJPEG)
        } else if same_text(input, "AV1") {
            Ok(Encoder::AV1)
        } else {
            Err(())
        }
    }
}

impl std::str::FromStr for Encoder {
    type Err = ();

    fn from_str(input: &str) -> (r: Result<Encoder, ()>)
        ensures
            match encoder_named(input@) {
                Some(e) => r == Ok::<Encoder, ()>(e),
                None => r is Err,
            },
    {
        Encoder::from_name(input)
    }
}

/// A captured frame: packed 8-bit RGB rows and the capture time in epoch
/// milliseconds.
#[derive(Debug, Clone, PartialEq, Eq)]
pub struct RawFrame {
    pub width: u32,
    pub height: u32,
    pub rgb: Vec<u8>,
    pub captured_ms: u128,
}

impl RawFrame {
    pub open spec fn wf(&self) -> bool {
        &&& self.rgb@.len() == 3 * (self.width as int) * (self.height as int)
    }
}

/// An encoded frame: payload, key/delta tag for the stateful codec, stamp in
/// epoch milliseconds and codec.
#[allow(non_snake_case)]
#[derive(Debug, Clone, PartialEq, Eq)]
pub struct VideoPacket {
    pub data: Vec<u8>,
    pub frameType: Option<String>,
    pub epochTime: u128,
    pub encoding: Encoder,
}

#[verifier::external_type_specification]
#[verifier::external_body]
pub struct ExSystemTime(std::time::SystemTime);

/// Relies on `SystemTime::now`: the time of the system clock.
#[verifier::external_body]
fn system_now() -> (r: std::time::SystemTime)
{
    std::time::SystemTime::now()
}

/// Relies on `SystemTime::duration_since` against `UNIX_EPOCH`: the time
/// elapsed since the epoch, `None` for a time before it.
#[verifier::external_body]
fn elapsed_since_epoch(t: &std::time::SystemTime) -> (r: Option<std::time::Duration>)
{
    t.duration_since(std::time::UNIX_EPOCH).ok()
}

/// Relies on `Duration`'s `Default`: the zero duration.
pub assume_specification[ <core::time::Duration as core::default::Default>::default ]() -> core::time::Duration;

/// Time since the Unix epoch; zero for a clock set before it.
pub fn since_the_epoch() -> (r: std::time::Duration)
{
    match elapsed_since_epoch(&system_now()) {
        Some(d) => d,
        None => core::time::Duration::default(),
    }
}

/// Relies on `Duration::as_millis`.
pub assume_specification[ core::time::Duration::as_millis ](d: &core::time::Duration) -> u128;

/// Whether a frame captured at `captured` is too old to encode at `now`.
pub open spec fn stale(now: u128, captured: u128) -> bool {
    now as int - captured as int > THRESHOLD_MILLIS as int
}

pub fn is_stale(now_ms: u128, captured_ms: u128) -> (r: bool)
    ensures
        r == stale(now_ms, captured_ms),
{
    now_ms > captured_ms && now_ms - captured_ms > THRESHOLD_MILLIS
}

/// `n / d` rounded to the nearest integer, halves up.
pub open spec fn round_ratio(n: int, d: int) -> int {
    (2 * n + d) / (2 * d)
}

pub open spec fn clamp_byte(x: int) -> int {
    if x < 0 {
        0
    } else if x > 255 {
        255
    } else {
        x
    }
}

/// Scale of the conversion coefficients.
pub open spec fn coef_scale() -> int {
    255000
}

/// Y = 16 + (65.481 R + 128.553 G + 24.966 B) / 255.
pub open spec fn luma(r: int, g: int, b: int) -> int {
    clamp_byte(round_ratio(16 * 255000 + 65481 * r + 128553 * g + 24966 * b, coef_scale()))
}

/// Cb = 128 + (-37.797 R - 74.203 G + 112 B) / 255.
pub open spec fn chroma_blue(r: int, g: int, b: int) -> int {
    clamp_byte(round_ratio(128 * 255000 - 37797 * r - 74203 * g + 112000 * b, coef_scale()))
}

/// Cr = 128 + (112 R - 93.786 G - 18.214 B) / 255.
pub open spec fn chroma_red(r: int, g: int, b: int) -> int {
    clamp_byte(round_ratio(128 * 255000 + 112000 * r - 93786 * g - 18214 * b, coef_scale()))
}

fn scaled_to_byte(n: u64) -> (r: u8)
    requires
        n <= 64 * 255000 * 255,
    ensures
        r as int == clamp_byte(round_ratio(n as int, coef_scale())),
{
    let v: u64 = (2 * n + 255000) / 510000;
    if v > 255 {
        255
    } else {
        v as u8
    }
}

/// One RGB pixel in YCbCr, each channel rounded and clamped to a byte.
pub fn to_ycbcr(r: u8, g: u8, b: u8) -> (res: (u8, u8, u8))
    ensures
        res.0 as int == luma(r as int, g as int, b as int),
        res.1 as int == chroma_blue(r as int, g as int, b as int),
        res.2 as int == chroma_red(r as int, g as int, b as int),
{
    let (r, g, b) = (r as u64, g as u64, b as u64);
    let y = 16 * 255000 + 65481 * r + 128553 * g + 24966 * b;
    let cb = (128 * 255000 + 112000 * b) - (37797 * r + 74203 * g);
    let cr = (128 * 255000 + 112000 * r) - (93786 * g + 18214 * b);
    (scaled_to_byte(y), scaled_to_byte(cb), scaled_to_byte(cr))
}

/// The three planes of a frame in YCbCr, one byte per pixel each.
#[derive(Debug, Clone, PartialEq, Eq)]
pub struct Planes {
    pub y: Vec<u8>,
    pub cb: Vec<u8>,
    pub cr: Vec<u8>,
}

pub open spec fn pixel_count(rgb: Seq<u8>) -> int {
    rgb.len() as int / 3
}

pub open spec fn planes_of(rgb: Seq<u8>, p: Planes) -> bool {
    &&& p.y@.len() == pixel_count(rgb)
    &&& p.cb@.len() == pixel_count(rgb)
    &&& p.cr@.len() == pixel_count(rgb)
    &&& forall|i: int|
        0 <= i < pixel_count(rgb) ==> {
            &&& #[trigger] p.y@[i] as int == luma(
                rgb[3 * i] as int,
                rgb[3 * i + 1] as int,
                rgb[3 * i + 2] as int,
            )
            &&& p.cb@[i] as int == chroma_blue(
                rgb[3 * i] as int,
                rgb[3 * i + 1] as int,
                rgb[3 * i + 2] as int,
            )
            &&& p.cr@[i] as int == chroma_red(
                rgb[3 * i] as int,
                rgb[3 * i + 1] as int,
                rgb[3 * i + 2] as int,
            )
        }
}

/// Converts packed RGB to three YCbCr planes.
pub fn ycbcr_planes(rgb: &Vec<u8>) -> (r: Planes)
    ensures
        planes_of(rgb@, r),
{
    let len = rgb.len();
    let n = len / 3;
    let mut p = Planes { y: Vec::new(), cb: Vec::new(), cr: Vec::new() };
    let mut i: usize = 0;
    while i < n
        invariant
            n == pixel_count(rgb@),
            len == rgb@.len(),
            3 * n <= len,
            i <= n,
            p.y@.len() == i,
            p.cb@.len() == i,
            p.cr@.len() == i,
            forall|k: int|
                0 <= k < i ==> {
                    &&& #[trigger] p.y@[k] as int == luma(
                        rgb@[3 * k] as int,
                        rgb@[3 * k + 1] as int,
                        rgb@[3 * k + 2] as int,
                    )
                    &&& p.cb@[k] as int == chroma_blue(
                        rgb@[3 * k] as int,
                        rgb@[3 * k + 1] as int,
                        rgb@[3 * k + 2] as int,
                    )
                    &&& p.cr@[k] as int == chroma_red(
                        rgb@[3 * k] as int,
                        rgb@[3 * k + 1] as int,
                        rgb@[3 * k + 2] as int,
                    )
                },
        decreases n - i,
    {
        let (y, cb, cr) = to_ycbcr(rgb[3 * i], rgb[3 * i + 1], rgb[3 * i + 2]);
        p.y.push(y);
        p.cb.push(cb);
        p.cr.push(cr);
        i += 1;
    }
    p
}

/// The bytes of a JPEG image of the given size and quality written from
/// packed RGB.
pub uninterp spec fn jpeg_of(rgb: Seq<u8>, width: u32, height: u32, quality: u8) -> Seq<u8>;

/// Largest side a JPEG image can have.
pub const JPEG_MAX_SIDE: u32 = 65535;

/// Relies on `image::codecs::jpeg::JpegEncoder::encode` with an RGB colour
/// type, writing into a `Vec`: it fails only on a side over 65535 (writes to
/// a `Vec` do not fail); on success the buffer holds the image. It panics
/// unless the input holds three bytes per pixel.
#[verifier::external_body]
fn jpeg_encode(rgb: &Vec<u8>, width: u32, height: u32, quality: u8) -> (r: Option<Vec<u8>>)
    requires
        rgb@.len() == 3 * (width as int) * (height as int),
    ensures
        r is Some <==> (width <= JPEG_MAX_SIDE && height <= JPEG_MAX_SIDE),
        r matches Some(b) ==> b@ == jpeg_of(rgb@, width, height, quality),
{
    let mut buf: Vec<u8> = Vec::new();
    match image::codecs::jpeg::JpegEncoder::new_with_quality(&mut buf, quality).encode(
        rgb,
        width,
        height,
        image::ColorType::Rgb8,
    ) {
        Ok(()) => Some(buf),
        Err(_) => None,
    }
}

/// Tag of a packet of the stateful codec.
pub open spec fn frame_tag(key: bool) -> Seq<char> {
    if key {
        "key"@
    } else {
        "delta"@
    }
}

fn frame_tag_text(key: bool) -> (r: String)
    ensures
        r@ == frame_tag(key),
{
    if key {
        String::from_str("key")
    } else {
        String::from_str("delta")
    }
}

/// The packet of the per-frame JPEG codec for one frame.
pub open spec fn is_mjpeg_packet(frame: &RawFrame, stamp_ms: u128, p: VideoPacket) -> bool {
    &&& p.data@ == jpeg_of(frame.rgb@, frame.width, frame.height, JPEG_QUALITY)
    &&& p.frameType is None
    &&& p.epochTime == stamp_ms
    &&& p.encoding == Encoder::MJPEG
}

/// Whether the per-frame JPEG codec takes a frame of this size.
pub open spec fn jpeg_fits(frame: &RawFrame) -> bool {
    frame.width <= JPEG_MAX_SIDE && frame.height <= JPEG_MAX_SIDE
}

/// Encodes one frame with the per-frame JPEG codec; `None` exactly where a
/// side is too long for it.
pub fn encode_mjpeg(frame: &RawFrame, stamp_ms: u128) -> (r: Option<VideoPacket>)
    requires
        frame.wf(),
    ensures
        r is Some <==> jpeg_fits(frame),
        r matches Some(p) ==> is_mjpeg_packet(frame, stamp_ms, p),
{
    match jpeg_encode(&frame.rgb, frame.width, frame.height, JPEG_QUALITY) {
        Some(data) => Some(
            VideoPacket { data, frameType: None, epochTime: stamp_ms, encoding: Encoder::MJPEG },
        ),
        None => None,
    }
}

/// The packet of the stateful AV1 codec for one submitted frame, from what
/// the codec gave back: its bytes and whether the frame is a key frame, or
/// nothing where it refused the frame or had no packet for it.
pub fn av1_packet(encoded: Option<(Vec<u8>, bool)>, stamp_ms: u128) -> (r: Option<VideoPacket>)
    ensures
        match encoded {
            None => r is None,
            Some((data, key)) => r matches Some(p) && p.data@ == data@ && (p.frameType matches Some(
                t,
            ) && t@ == frame_tag(key)) && p.epochTime == stamp_ms && p.encoding == Encoder::AV1,
        },
{
    match encoded {
        None => None,
        Some((data, key)) => Some(
            VideoPacket {
                data,
                frameType: Some(frame_tag_text(key)),
                epochTime: stamp_ms,
                encoding: Encoder::AV1,
            },
        ),
    }
}

/// What the encode stage does with one frame.
#[derive(Debug, Clone, PartialEq, Eq)]
pub enum FramePlan {
    /// The frame is stale: dropped, never encoded.
    Drop,
    /// The per-frame codec failed on the frame: dropped.
    Failed,
    /// The finished packet of the per-frame codec.
    Packet(VideoPacket),
    /// The planes to submit to the stateful codec.
    Av1(Planes),
}

/// The encode stage for one frame at time `now_ms`: a stale frame is dropped
/// and never encoded; a fresh one goes to the configured codec, and a frame
/// too large for the per-frame codec is dropped.
pub fn encode_frame(frame: &RawFrame, encoder: Encoder, now_ms: u128, stamp_ms: u128) -> (r:
    FramePlan)
    requires
        frame.wf(),
    ensures
        stale(now_ms, frame.captured_ms) <==> r is Drop,
        !stale(now_ms, frame.captured_ms) && encoder == Encoder::MJPEG && jpeg_fits(frame) ==> (
        r matches FramePlan::Packet(p) && is_mjpeg_packet(frame, stamp_ms, p)),
        !stale(now_ms, frame.captured_ms) && encoder == Encoder::MJPEG && !jpeg_fits(frame) ==> r is Failed,
        !stale(now_ms, frame.captured_ms) && encoder == Encoder::AV1 ==> (r matches FramePlan::Av1(p)
            && planes_of(frame.rgb@, p)),
{
    if is_stale(now_ms, frame.captured_ms) {
        return FramePlan::Drop;
    }
    match encoder {
        Encoder::MJPEG => match encode_mjpeg(frame, stamp_ms) {
            Some(p) => FramePlan::Packet(p),
            None => FramePlan::Failed,
        },
        Encoder::AV1 => FramePlan::Av1(ycbcr_planes(&frame.rgb)),
    }
}

/// The encode stage for one frame, reading the clock for the frame's age and
/// the packet's stamp, which comes back beside the plan.
pub fn encoder_step(frame: &RawFrame, encoder: Encoder) -> (r: (FramePlan, u128))
    requires
        frame.wf(),
    ensures
        stale(r.1, frame.captured_ms) <==> r.0 is Drop,
        !stale(r.1, frame.captured_ms) && encoder == Encoder::MJPEG && jpeg_fits(frame) ==> (
        r.0 matches FramePlan::Packet(p) && is_mjpeg_packet(frame, r.1, p)),
        !stale(r.1, frame.captured_ms) && encoder == Encoder::MJPEG && !jpeg_fits(frame) ==> r.0 is Failed,
        !stale(r.1, frame.captured_ms) && encoder == Encoder::AV1 ==> (r.0 matches FramePlan::Av1(p)
            && planes_of(frame.rgb@, p)),
{
    let now = since_the_epoch().as_millis();
    (encode_frame(frame, encoder, now, now), now)
}

/// Settings of the stateful AV1 codec, as plain values.
#[derive(Debug, Clone, Copy, PartialEq, Eq)]
pub struct EncoderSettings {
    pub width: usize,
    pub height: usize,
    pub bit_depth: usize,
    pub error_resilient: bool,
    pub min_key_frame_interval: u64,
    pub max_key_frame_interval: u64,
    pub low_latency: bool,
    pub min_quantizer: u8,
    pub quantizer: usize,
    pub still_picture: bool,
    pub tiles: usize,
    /// Chroma planes at full resolution (4:4:4).
    pub full_chroma: bool,
    pub speed_preset: u8,
    pub lookahead_frames: usize,
    pub threads: usize,
}

/// The low-latency settings for a stream of the given size.
pub fn encoder_config(width: usize, height: usize) -> (r: EncoderSettings)
    ensures
        r == (EncoderSettings {
            width,
            height,
            bit_depth: 8,
            error_resilient: true,
            min_key_frame_interval: 20,
            max_key_frame_interval: 50,
            low_latency: true,
            min_quantizer: 50,
            quantizer: 100,
            still_picture: false,
            tiles: 4,
            full_chroma: true,
            speed_preset: 1,
            lookahead_frames: 1,
            threads: 4,
        }),
{
    EncoderSettings {
        width,
        height,
        bit_depth: 8,
        error_resilient: true,
        min_key_frame_interval: 20,
        max_key_frame_interval: 50,
        low_latency: true,
        min_quantizer: 50,
        quantizer: 100,
        still_picture: false,
        tiles: 4,
        full_chroma: true,
        speed_preset: 1,
        lookahead_frames: 1,
        threads: 4,
    }
}

/// Frames counted in the current one-second window.
#[derive(Debug, Clone, PartialEq, Eq)]
pub struct FpsWindow {
    pub frames: u64,
    pub deadline_ms: u128,
}

impl FpsWindow {
    pub fn new(now_ms: u128) -> (r: Self)
        requires
            now_ms <= u128::MAX - FPS_WINDOW_MILLIS,
        ensures
            r.frames == 0,
            r.deadline_ms == now_ms + FPS_WINDOW_MILLIS,
    {
        FpsWindow { frames: 0, deadline_ms: now_ms + FPS_WINDOW_MILLIS }
    }

    /// Takes the stamp of one produced packet. A stamp past the window's end
    /// closes the window, reports its count and opens a new one from
    /// `now_ms`; any other stamp is counted.
    pub fn on_sample(&mut self, sample_ms: u128, now_ms: u128) -> (r: Option<u64>)
        requires
            now_ms <= u128::MAX - FPS_WINDOW_MILLIS,
        ensures
            old(self).deadline_ms < sample_ms ==> r == Some(old(self).frames) && final(self).frames
                == 0 && final(self).deadline_ms == now_ms + FPS_WINDOW_MILLIS,
            old(self).deadline_ms >= sample_ms ==> r is None && final(self).deadline_ms == old(
                self,
            ).deadline_ms && final(self).frames == if old(self).frames < u64::MAX {
                old(self).frames + 1
            } else {
                old(self).frames as int
            },
    {
        if self.deadline_ms < sample_ms {
            let n = self.frames;
            self.frames = 0;
            self.deadline_ms = now_ms + FPS_WINDOW_MILLIS;
            Some(n)
        } else {
            if self.frames < u64::MAX {
                self.frames = self.frames + 1;
            }
            None
        }
    }
}

/// Where the capture loop stands.
#[derive(Debug, Clone, Copy, PartialEq, Eq, Structural)]
pub enum CapturePhase {
    /// No device open; looking at the connectivity state every
    /// `WAIT_MILLIS`.
    Waiting,
    /// Device open; pulling frames.
    Streaming,
}

/// What the capture loop does next.
#[derive(Debug, Clone, Copy, PartialEq, Eq, Structural)]
pub enum CaptureAction {
    /// Sleep `WAIT_MILLIS`, then look again.
    Wait,
    /// Open the device at its highest frame rate.
    OpenDevice,
    /// Pull one frame, stamp it and hand it to the encoder.
    PullFrame,
    /// Release the device and go back to waiting.
    Release,
}

/// The capture loop's decision given the connectivity state; `device_failed`
/// reports that opening the device or reading a frame failed, which releases
/// the device and goes back to waiting instead of ending the process.
pub fn capture_next(phase: CapturePhase, state: ConnState, device_failed: bool) -> (r: (
    CapturePhase,
    CaptureAction,
))
    ensures
        device_failed && phase == CapturePhase::Streaming ==> r == (
            CapturePhase::Waiting,
            CaptureAction::Release,
        ),
        !(device_failed && phase == CapturePhase::Streaming) ==> r == match (phase, state) {
            (CapturePhase::Waiting, ConnState::Connected) => (
                CapturePhase::Streaming,
                CaptureAction::OpenDevice,
            ),
            (CapturePhase::Waiting, _) => (CapturePhase::Waiting, CaptureAction::Wait),
            (CapturePhase::Streaming, ConnState::Connected) => (
                CapturePhase::Streaming,
                CaptureAction::PullFrame,
            ),
            (CapturePhase::Streaming, _) => (CapturePhase::Waiting, CaptureAction::Release),
        },
        r.1 == CaptureAction::PullFrame ==> state == ConnState::Connected,
{
    if device_failed && phase == CapturePhase::Streaming {
        return (CapturePhase::Waiting, CaptureAction::Release);
    }
    match phase {
        CapturePhase::Waiting => if state.is_live() {
            (CapturePhase::Streaming, CaptureAction::OpenDevice)
        } else {
            (CapturePhase::Waiting, CaptureAction::Wait)
        },
        CapturePhase::Streaming => if state.is_live() {
            (CapturePhase::Streaming, CaptureAction::PullFrame)
        } else {
            (CapturePhase::Waiting, CaptureAction::Release)
        },
    }
}

} // verus!
