//! The stereo pair: two tightly packed grey frames of one instant.

use crate::frame::ImgFrame;
use crate::graph::{
    has_pair, has_socket, plan_h264, CameraBoardSocket, H264Plan, ImgFrameType, ImgResizeMode,
    OutputRequest,
};
use crate::policy::Knobs;
use crate::stamp::FrameMeta;
use crate::text::decimal_text;
use vstd::prelude::*;
use vstd::string::*;

verus! {

// ---------------------------------------------------------------------------
// Opening
// ---------------------------------------------------------------------------

/// The encoded colour stream beside a stereo pair.
#[derive(Debug, Clone, Copy, PartialEq, Eq)]
pub enum VideoPlan {
    /// Not asked for.
    Off,
    /// Asked for, but the board has no colour camera.
    NoColourCamera,
    /// Encode with these settings; it may fail.
    Encode(H264Plan),
}

/// The camera of an eye.
pub open spec fn eye_socket(right: bool) -> CameraBoardSocket {
    if right {
        CameraBoardSocket::CamC
    } else {
        CameraBoardSocket::CamB
    }
}

/// The pictures of an eye: grey, and raw. The device could only undistort them, not rectify
/// them, and a rectifier on the host would then correct them twice.
pub open spec fn eye_request(right: bool, width: u32, height: u32, fps: u32) -> OutputRequest {
    OutputRequest {
        socket: eye_socket(right),
        width,
        height,
        format: Some(ImgFrameType::Gray8),
        resize: ImgResizeMode::Crop,
        fps,
        undistort: Some(false),
    }
}

/// The pictures of an eye.
fn request_eye(right: bool, width: u32, height: u32, fps: u32) -> (r: OutputRequest)
    ensures
        r == eye_request(right, width, height, fps),
{
    OutputRequest {
        socket: if right {
            CameraBoardSocket::CamC
        } else {
            CameraBoardSocket::CamB
        },
        width,
        height,
        format: Some(ImgFrameType::Gray8),
        resize: ImgResizeMode::Crop,
        fps,
        undistort: Some(false),
    }
}

/// What is built when a device is opened for stereo.
#[derive(Debug, Clone, Copy, PartialEq, Eq)]
pub struct StereoPlan {
    /// Rate of the pair.
    pub fps: u32,
    /// The pictures of the left eye.
    pub left: OutputRequest,
    /// The pictures of the right eye.
    pub right: OutputRequest,
    /// How far apart the two eyes of a pair may be: half a frame.
    pub sync_threshold_ns: u64,
    /// How many pairs wait for the host.
    pub queue_depth: u32,
    pub video: VideoPlan,
}

/// What to build for a stereo pair, if the device has one. There is no meaningful way to go
/// without one eye.
pub open spec fn stereo_plan(
    cams: Seq<CameraBoardSocket>,
    width: u32,
    height: u32,
    fps: u32,
    h264: bool,
    knobs: Knobs,
) -> Option<StereoPlan> {
    let fps = crate::policy::effective_fps(fps);
    if !has_pair(cams) {
        None
    } else {
        Some(
            StereoPlan {
                fps,
                left: eye_request(false, width, height, fps),
                right: eye_request(true, width, height, fps),
                sync_threshold_ns: (1_000_000_000int / fps as int / 2) as u64,
                queue_depth: 4,
                video: if !h264 {
                    VideoPlan::Off
                } else if !cams.contains(CameraBoardSocket::CamA) {
                    VideoPlan::NoColourCamera
                } else {
                    VideoPlan::Encode(crate::graph::encoder_plan(width, height, fps, knobs))
                },
            },
        )
    }
}

/// What to build for a stereo pair, or why it cannot be built.
pub fn plan_stereo(
    cams: &[CameraBoardSocket],
    width: u32,
    height: u32,
    fps: u32,
    h264: bool,
    knobs: &Knobs,
) -> (r: Result<StereoPlan, &'static str>)
    ensures
        match stereo_plan(cams@, width, height, fps, h264, *knobs) {
            Some(plan) => r == Ok::<_, &'static str>(plan),
            None => r matches Err(why) && why@
                == "device has no stereo pair (CAM_B/CAM_C) — open_stereo needs both"@,
        },
{
    if !has_socket(cams, CameraBoardSocket::CamB) || !has_socket(cams, CameraBoardSocket::CamC) {
        return Err("device has no stereo pair (CAM_B/CAM_C) — open_stereo needs both");
    }
    let rate: u32 = crate::policy::fps_or_default(fps);
    let video: VideoPlan = if !h264 {
        VideoPlan::Off
    } else if !has_socket(cams, CameraBoardSocket::CamA) {
        VideoPlan::NoColourCamera
    } else {
        VideoPlan::Encode(plan_h264(width, height, rate, knobs))
    };
    let sync_threshold_ns: u64 = 1_000_000_000 / rate as u64 / 2;
    Ok(
        StereoPlan {
            fps: rate,
            left: request_eye(false, width, height, rate),
            right: request_eye(true, width, height, rate),
            sync_threshold_ns,
            queue_depth: 4,
            video,
        },
    )
}

/// The two eyes of a pair are closer to one another than to any other frame: the threshold
/// is at most half the time from one frame to the next.
pub proof fn law_threshold_is_half_a_frame(
    cams: Seq<CameraBoardSocket>,
    width: u32,
    height: u32,
    fps: u32,
    h264: bool,
    knobs: Knobs,
)
    requires
        has_pair(cams),
    ensures
        ({
            let plan = stereo_plan(cams, width, height, fps, h264, knobs)->Some_0;
            &&& plan.fps > 0
            &&& 2 * plan.sync_threshold_ns * plan.fps <= 1_000_000_000
        }),
{
    let plan = stereo_plan(cams, width, height, fps, h264, knobs)->Some_0;
    let rate = plan.fps as int;
    let interval = 1_000_000_000int / rate;
    vstd::arithmetic::div_mod::lemma_fundamental_div_mod(1_000_000_000int, rate);
    vstd::arithmetic::div_mod::lemma_mod_bound(1_000_000_000int, rate);
    assert(0 <= interval <= 1_000_000_000int) by (nonlinear_arith)
        requires
            rate >= 1,
            interval == 1_000_000_000int / rate,
    ;
    let t = interval / 2;
    assert(plan.sync_threshold_ns == t);
    assert(2 * t * rate <= 1_000_000_000) by (nonlinear_arith)
        requires
            2 * t <= interval,
            0 <= t,
            rate >= 1,
            rate * interval <= 1_000_000_000,
    ;
}

// ---------------------------------------------------------------------------
// Checking a pair
// ---------------------------------------------------------------------------

/// What is wrong with a pair of frames.
#[derive(Debug, Clone, Copy, PartialEq, Eq, Structural)]
pub enum EyeFault {
    /// A frame without pixels.
    Degenerate,
    /// The eyes differ in size.
    SizesDiffer,
    /// The rows of an eye are padded.
    Padded { right: bool, stride: u32, width: u32 },
    /// An eye has fewer bytes than pixels.
    Short { right: bool },
}

/// The name of an eye.
pub open spec fn eye_name(right: bool) -> Seq<char> {
    if right {
        "right"@
    } else {
        "left"@
    }
}

/// The name of an eye.
fn name_of_eye(right: bool) -> (r: &'static str)
    ensures
        r@ == eye_name(right),
{
    if right {
        "right"
    } else {
        "left"
    }
}

impl EyeFault {
    /// The fault in words.
    pub open spec fn text(self) -> Seq<char> {
        match self {
            EyeFault::Degenerate => "degenerate frame"@,
            EyeFault::SizesDiffer => "eyes differ in size"@,
            EyeFault::Padded { right, stride, width } => eye_name(right)
                + " eye is not tightly packed GRAY8 (stride "@ + crate::text::decimal(
                stride as nat,
            ) + " != w "@ + crate::text::decimal(width as nat) + ")"@,
            EyeFault::Short { right } => eye_name(right) + " eye buffer is shorter than w*h"@,
        }
    }

    /// The fault in words.
    pub fn message(&self) -> (r: String)
        ensures
            r@ == self.text(),
            self is Degenerate ==> r@ == "degenerate frame"@,
            self is SizesDiffer ==> r@ == "eyes differ in size"@,
            *self == (EyeFault::Short { right: false }) ==> r@ == "left"@
                + " eye buffer is shorter than w*h"@,
            *self == (EyeFault::Short { right: true }) ==> r@ == "right"@
                + " eye buffer is shorter than w*h"@,
    {
        match self {
            EyeFault::Degenerate => String::from_str("degenerate frame"),
            EyeFault::SizesDiffer => String::from_str("eyes differ in size"),
            EyeFault::Padded { right, stride, width } => {
                let mut r: String = String::from_str(name_of_eye(*right));
                r.append(" eye is not tightly packed GRAY8 (stride ");
                r.append(decimal_text(*stride as u64).as_str());
                r.append(" != w ");
                r.append(decimal_text(*width as u64).as_str());
                r.append(")");
                r
            },
            EyeFault::Short { right } => {
                let mut r: String = String::from_str(name_of_eye(*right));
                r.append(" eye buffer is shorter than w*h");
                r
            },
        }
    }
}

/// What is wrong with one eye of a pair of `w` by `h` pixels.
pub open spec fn eye_fault(f: ImgFrame<'_>, right: bool, w: u32, h: u32) -> Option<EyeFault> {
    if f.stride != 0 && f.stride != w {
        Some(EyeFault::Padded { right, stride: f.stride, width: w })
    } else if f.data@.len() < w * h {
        Some(EyeFault::Short { right })
    } else {
        None
    }
}

/// The size of a pair, or what is wrong with it.
pub open spec fn pair_size(l: ImgFrame<'_>, r: ImgFrame<'_>) -> Result<(u32, u32), EyeFault> {
    if l.width == 0 || l.height == 0 {
        Err(EyeFault::Degenerate)
    } else if r.width != l.width || r.height != l.height {
        Err(EyeFault::SizesDiffer)
    } else {
        match (eye_fault(l, false, l.width, l.height), eye_fault(r, true, l.width, l.height)) {
            (Some(e), _) => Err(e),
            (None, Some(e)) => Err(e),
            (None, None) => Ok((l.width, l.height)),
        }
    }
}

/// What is wrong with one eye of a pair of `w` by `h` pixels.
fn check_eye(f: &ImgFrame<'_>, right: bool, w: u32, h: u32) -> (r: Option<EyeFault>)
    ensures
        r == eye_fault(*f, right, w, h),
{
    if f.stride != 0 && f.stride != w {
        return Some(EyeFault::Padded { right, stride: f.stride, width: w });
    }
    proof {
        crate::frame::lemma_area(w, h);
    }
    let pixels: u64 = w as u64 * h as u64;
    if (f.data.len() as u64) < pixels {
        Some(EyeFault::Short { right })
    } else {
        None
    }
}

/// Check that both eyes are tightly packed grey frames of one size, one byte per pixel.
pub fn check_tight_gray8(l: &ImgFrame<'_>, r: &ImgFrame<'_>) -> (res: Result<(u32, u32), EyeFault>)
    ensures
        res == pair_size(*l, *r),
        res is Ok <==> l.width > 0 && l.height > 0 && r.width == l.width && r.height == l.height && (
        l.stride == 0 || l.stride == l.width) && (r.stride == 0 || r.stride == l.width)
            && l.data@.len() >= l.width * l.height && r.data@.len() >= l.width * l.height,
        res matches Ok((w, h)) ==> w == l.width && h == l.height,
{
    let w: u32 = l.width;
    let h: u32 = l.height;
    if w == 0 || h == 0 {
        return Err(EyeFault::Degenerate);
    }
    if r.width != w || r.height != h {
        return Err(EyeFault::SizesDiffer);
    }
    match check_eye(l, false, w, h) {
        Some(e) => return Err(e),
        None => {},
    }
    match check_eye(r, true, w, h) {
        Some(e) => Err(e),
        None => Ok((w, h)),
    }
}

// ---------------------------------------------------------------------------
// Waiting for a pair
// ---------------------------------------------------------------------------

/// What one poll of the device, of at most a second, brought.
#[derive(Debug, Clone, Copy)]
pub enum StereoPoll<'a> {
    /// Nothing, for the whole second.
    Empty,
    /// The device reports an error.
    Failed,
    /// A group of frames without a left or a right eye, or one that cannot be read.
    NoEye,
    /// A left and a right frame.
    Pair(ImgFrame<'a>, ImgFrame<'a>),
}

/// How waiting goes on.
#[derive(Debug, Clone, Copy, PartialEq, Eq)]
pub enum StereoWait {
    /// Poll again; so much time has passed without a pair.
    Again { waited_ns: u64 },
    /// The stream has ended.
    End,
    /// The stream has ended because a pair cannot be used.
    Unusable(EyeFault),
    /// A good pair of this size.
    Deliver { width: u32, height: u32 },
}

/// How long a poll waits before it is empty.
pub const POLL_NS: u64 = 1_000_000_000;

/// After so much time without a pair the stream is taken to have ended.
pub const MAX_WAIT_NS: u64 = 5_000_000_000;

/// The time that a poll which brought nothing has cost: an empty poll its whole second, a pair
/// without pixels the time that the poll took.
pub open spec fn time_lost(took_ns: u64, poll: StereoPoll<'_>) -> int {
    match poll {
        StereoPoll::Empty => POLL_NS as int,
        _ => took_ns as int,
    }
}

/// How waiting goes on after `waited_ns` without a pair, when a poll that took `took_ns`
/// brought `poll`. A pair without pixels is skipped: it ends the stream no sooner than the
/// passing of time does.
pub open spec fn wait_on(waited_ns: u64, took_ns: u64, poll: StereoPoll<'_>) -> StereoWait {
    let waited = waited_ns + time_lost(took_ns, poll);
    let again = if waited >= MAX_WAIT_NS {
        StereoWait::End
    } else {
        StereoWait::Again { waited_ns: waited as u64 }
    };
    match poll {
        StereoPoll::Empty => again,
        StereoPoll::Failed => StereoWait::End,
        StereoPoll::NoEye => StereoWait::End,
        StereoPoll::Pair(l, r) => match pair_size(l, r) {
            Ok((width, height)) => StereoWait::Deliver { width, height },
            Err(e) => if e == EyeFault::Degenerate {
                again
            } else {
                StereoWait::Unusable(e)
            },
        },
    }
}

/// Decide what a poll that took `took_ns` means after `waited_ns` without a pair.
pub fn judge_poll(waited_ns: u64, took_ns: u64, poll: &StereoPoll<'_>) -> (r: StereoWait)
    ensures
        r == wait_on(waited_ns, took_ns, *poll),
        poll matches StereoPoll::Pair(left, right) ==> (left.width > 0 && left.height > 0
            && right.width == left.width && right.height == left.height && (left.stride == 0
            || left.stride == left.width) && (right.stride == 0 || right.stride == left.width)
            && left.data@.len() >= left.width * left.height && right.data@.len() >= left.width
            * left.height ==> r == (StereoWait::Deliver {
            width: left.width,
            height: left.height,
        })),
        r is Deliver ==> poll is Pair,
{
    let lost: u64 = match poll {
        StereoPoll::Empty => POLL_NS,
        _ => took_ns,
    };
    let again: StereoWait = if waited_ns >= MAX_WAIT_NS || lost >= MAX_WAIT_NS - waited_ns {
        StereoWait::End
    } else {
        StereoWait::Again { waited_ns: waited_ns + lost }
    };
    match poll {
        StereoPoll::Empty => again,
        StereoPoll::Failed => StereoWait::End,
        StereoPoll::NoEye => StereoWait::End,
        StereoPoll::Pair(l, r) => match check_tight_gray8(l, r) {
            Ok((width, height)) => StereoWait::Deliver { width, height },
            Err(e) => match e {
                EyeFault::Degenerate => again,
                _ => StereoWait::Unusable(e),
            },
        },
    }
}

/// Whether a poll brought nothing to deliver and nothing that ends the stream.
pub open spec fn brings_nothing(poll: StereoPoll<'_>) -> bool {
    match poll {
        StereoPoll::Empty => true,
        StereoPoll::Pair(l, r) => pair_size(l, r) == Err::<(u32, u32), _>(EyeFault::Degenerate),
        _ => false,
    }
}

/// How waiting stands after a row of polls, each with the time that it took.
pub open spec fn waited(polls: Seq<(u64, StereoPoll<'_>)>) -> StereoWait
    decreases polls.len(),
{
    if polls.len() == 0 {
        StereoWait::Again { waited_ns: 0 }
    } else {
        match waited(polls.drop_last()) {
            StereoWait::Again { waited_ns } => wait_on(
                waited_ns,
                polls.last().0,
                polls.last().1,
            ),
            ended => ended,
        }
    }
}

/// The time that a row of polls which brought nothing has cost.
pub open spec fn total_lost(polls: Seq<(u64, StereoPoll<'_>)>) -> int
    decreases polls.len(),
{
    if polls.len() == 0 {
        0
    } else {
        total_lost(polls.drop_last()) + time_lost(polls.last().0, polls.last().1)
    }
}

/// A camera that warms up is waited for, but not for ever: as long as polls bring nothing the
/// stream goes on until five seconds have passed, and then ends. Only time counts, not the
/// number of polls.
pub proof fn law_five_seconds_without_a_pair_end(polls: Seq<(u64, StereoPoll<'_>)>)
    requires
        forall|i: int| 0 <= i < polls.len() ==> brings_nothing((#[trigger] polls[i]).1),
    ensures
        total_lost(polls) >= 0,
        waited(polls) == (if total_lost(polls) < MAX_WAIT_NS {
            StereoWait::Again { waited_ns: total_lost(polls) as u64 }
        } else {
            StereoWait::End
        }),
    decreases polls.len(),
{
    if polls.len() > 0 {
        let before = polls.drop_last();
        assert forall|i: int| 0 <= i < before.len() implies brings_nothing(
            (#[trigger] before[i]).1,
        ) by {
            assert(before[i] == polls[i]);
        }
        law_five_seconds_without_a_pair_end(before);
        assert(brings_nothing(polls[polls.len() - 1].1));
    }
}

/// A good pair is delivered, however many polls brought nothing before it, if they did so for
/// less than five seconds.
pub proof fn law_a_good_pair_is_delivered(
    polls: Seq<(u64, StereoPoll<'_>)>,
    took_ns: u64,
    l: ImgFrame<'_>,
    r: ImgFrame<'_>,
)
    requires
        forall|i: int| 0 <= i < polls.len() ==> brings_nothing((#[trigger] polls[i]).1),
        total_lost(polls) < MAX_WAIT_NS,
        pair_size(l, r) is Ok,
    ensures
        waited(polls.push((took_ns, StereoPoll::Pair(l, r)))) == (StereoWait::Deliver {
            width: l.width,
            height: l.height,
        }),
{
    law_five_seconds_without_a_pair_end(polls);
    assert(polls.push((took_ns, StereoPoll::Pair(l, r))).drop_last() =~= polls);
}

// ---------------------------------------------------------------------------
// A delivered pair
// ---------------------------------------------------------------------------

/// A one-channel image of the image crate.
#[verifier::external_type_specification]
#[verifier::external_body]
#[verifier::reject_recursive_types(T)]
pub struct ExImage<T, const C: usize>(kornia_image::Image<T, C>);

/// The errors of the image crate.
#[verifier::external_type_specification]
#[verifier::external_body]
pub struct ExImageError(kornia_image::ImageError);

/// The pixels of a one-channel image, row after row.
pub uninterp spec fn image_pixels(img: kornia_image::Image<u8, 1>) -> Seq<u8>;

/// The width and the height of a one-channel image.
pub uninterp spec fn image_size(img: kornia_image::Image<u8, 1>) -> (nat, nat);

/// `kornia_image::Image::from_size_slice`: an image of the given size that owns a copy of the
/// pixels, or an error if there are not exactly as many pixels as the size has.
#[verifier::external_body]
fn gray_image(width: usize, height: usize, pixels: &[u8]) -> (res: Result<
    kornia_image::Image<u8, 1>,
    kornia_image::ImageError,
>)
    ensures
        res is Ok <==> pixels@.len() == width * height,
        res matches Ok(img) ==> image_pixels(img) == pixels@ && image_size(img) == (
            width as nat,
            height as nat,
        ),
{
    let size = kornia_image::ImageSize { width, height };
    kornia_image::Image::<u8, 1>::from_size_slice(size, pixels)
}

/// An eye could not be made into an image. It always can, because a pair holds as many pixels
/// as its size says; the image crate's error is mapped all the same.
#[derive(Debug, Clone, Copy, PartialEq, Eq, Structural)]
pub enum ImageFault {
    /// The image crate refuses the size.
    Refused,
}

/// An eye as an image that can be looked at and not changed. It holds its pixels by itself,
/// so it is independent of the frame that it was made from.
pub struct EyeImage {
    image: kornia_image::Image<u8, 1>,
}

impl EyeImage {
    /// The pixels, row after row.
    pub closed spec fn pixels(self) -> Seq<u8> {
        image_pixels(self.image)
    }

    /// Width and height.
    pub closed spec fn size(self) -> (nat, nat) {
        image_size(self.image)
    }

    /// The image, to read.
    pub fn as_image(&self) -> (r: &kornia_image::Image<u8, 1>)
        ensures
            image_pixels(*r) == self.pixels(),
            image_size(*r) == self.size(),
    {
        &self.image
    }
}

/// How the pixels of an eye lie in memory, for an image that shares them instead.
#[derive(Debug, Clone, Copy, PartialEq, Eq)]
pub struct EyeLayout {
    /// Rows, columns, channels.
    pub shape: [usize; 3],
    /// How many elements lie between neighbours along each of these.
    pub strides: [usize; 3],
    /// How many elements there are, from the start of the buffer on.
    pub len: usize,
}

/// One stereo pair of one instant, both eyes grey and tightly packed.
pub struct OakStereoFrame<'a> {
    left: &'a [u8],
    right: &'a [u8],
    width: u32,
    height: u32,
    meta: FrameMeta,
}

impl<'a> OakStereoFrame<'a> {
    #[verifier::type_invariant]
    spec fn inv(self) -> bool {
        &&& self.left@.len() >= self.width * self.height
        &&& self.right@.len() >= self.width * self.height
    }

    /// Width of each eye.
    pub closed spec fn columns(self) -> u32 {
        self.width
    }

    /// Height of each eye.
    pub closed spec fn rows(self) -> u32 {
        self.height
    }

    /// The pixels of the left eye.
    pub closed spec fn left_pixels(self) -> Seq<u8> {
        self.left@.take(self.width * self.height)
    }

    /// The pixels of the right eye.
    pub closed spec fn right_pixels(self) -> Seq<u8> {
        self.right@.take(self.width * self.height)
    }

    /// Sequence number and capture time.
    pub closed spec fn stamp(self) -> FrameMeta {
        self.meta
    }

    /// A pair that passed [`check_tight_gray8`].
    pub fn new(l: &ImgFrame<'a>, r: &ImgFrame<'a>, meta: FrameMeta) -> (res: Self)
        requires
            pair_size(*l, *r) is Ok,
        ensures
            res.columns() == l.width,
            res.rows() == l.height,
            res.left_pixels() == l.data@.take(l.width * l.height),
            res.right_pixels() == r.data@.take(l.width * l.height),
            res.stamp() == meta,
    {
        OakStereoFrame { left: l.data, right: r.data, width: l.width, height: l.height, meta }
    }

    /// The leading pixels of an eye.
    fn span(data: &'a [u8], width: u32, height: u32) -> (r: &'a [u8])
        requires
            data@.len() >= width * height,
        ensures
            r@ == data@.take(width * height),
            r@.len() == width * height,
    {
        proof {
            crate::frame::lemma_area(width, height);
        }
        let len: usize = data.len();
        let pixels: u64 = width as u64 * height as u64;
        assert(pixels <= len);
        let r: &'a [u8] = vstd::slice::slice_subrange(data, 0, pixels as usize);
        assert(r@ =~= data@.take(width * height));
        r
    }

    /// Left eye, one byte per pixel: the reference frame of the pair.
    pub fn left(&self) -> (r: &[u8])
        ensures
            r@ == self.left_pixels(),
            r@.len() == self.columns() * self.rows(),
    {
        proof {
            use_type_invariant(self);
        }
        Self::span(self.left, self.width, self.height)
    }

    /// Right eye, one byte per pixel, of the same size as the left.
    pub fn right(&self) -> (r: &[u8])
        ensures
            r@ == self.right_pixels(),
            r@.len() == self.columns() * self.rows(),
    {
        proof {
            use_type_invariant(self);
        }
        Self::span(self.right, self.width, self.height)
    }

    /// Width of each eye.
    pub fn width(&self) -> (r: u32)
        ensures
            r == self.columns(),
    {
        self.width
    }

    /// Height of each eye.
    pub fn height(&self) -> (r: u32)
        ensures
            r == self.rows(),
    {
        self.height
    }

    /// How the pixels of either eye lie in memory: the pixel in row `y` and column `x` is
    /// element `y * strides[0] + x * strides[1]`.
    pub fn eye_layout(&self) -> (r: EyeLayout)
        ensures
            r.shape@ == seq![self.rows() as usize, self.columns() as usize, 1usize],
            r.strides@ == seq![self.columns() as usize, 1usize, 1usize],
            r.len == self.columns() * self.rows(),
    {
        let pixels: &[u8] = self.left();
        let (w, h): (usize, usize) = (self.width as usize, self.height as usize);
        EyeLayout { shape: [h, w, 1], strides: [w, 1, 1], len: pixels.len() }
    }

    /// Sequence number and capture time (of the left eye).
    pub fn meta(&self) -> (r: &FrameMeta)
        ensures
            *r == self.stamp(),
    {
        &self.meta
    }

    /// Left eye as a read-only image that outlives this frame.
    pub fn left_image(&self) -> (r: Result<EyeImage, ImageFault>)
        ensures
            r matches Ok(img) && img.pixels() == self.left_pixels() && img.size() == (
                self.columns() as nat,
                self.rows() as nat,
            ),
    {
        Self::eye_image(self.left(), self.width, self.height)
    }

    /// Right eye as a read-only image that outlives this frame.
    pub fn right_image(&self) -> (r: Result<EyeImage, ImageFault>)
        ensures
            r matches Ok(img) && img.pixels() == self.right_pixels() && img.size() == (
                self.columns() as nat,
                self.rows() as nat,
            ),
    {
        Self::eye_image(self.right(), self.width, self.height)
    }

    /// The pixels of an eye as an image.
    fn eye_image(pixels: &[u8], width: u32, height: u32) -> (r: Result<EyeImage, ImageFault>)
        ensures
            r is Ok <==> pixels@.len() == width * height,
            r matches Ok(img) ==> img.pixels() == pixels@ && img.size() == (
                width as nat,
                height as nat,
            ),
    {
        match gray_image(width as usize, height as usize, pixels) {
            Ok(image) => Ok(EyeImage { image }),
            Err(_) => Err(ImageFault::Refused),
        }
    }
}

/// A pair is good exactly if its eyes have pixels, are of one size, have tight rows and hold
/// all of their bytes; its size is then that of its eyes.
pub proof fn law_good_pairs_are_accepted(l: ImgFrame<'_>, r: ImgFrame<'_>)
    ensures
        pair_size(l, r) is Ok <==> l.width > 0 && l.height > 0 && r.width == l.width && r.height
            == l.height && (l.stride == 0 || l.stride == l.width) && (r.stride == 0 || r.stride
            == l.width) && l.data@.len() >= l.width * l.height && r.data@.len() >= l.width
            * l.height,
        pair_size(l, r) is Ok ==> pair_size(l, r) == Ok::<_, EyeFault>((l.width, l.height)),
{
}

/// What is wrong with a bad pair is told by its first fault: no pixels before different sizes,
/// sizes before the left eye, the left eye before the right, padding before missing bytes.
pub proof fn law_bad_pairs_tell_their_first_fault(l: ImgFrame<'_>, r: ImgFrame<'_>, e: EyeFault)
    requires
        pair_size(l, r) == Err::<(u32, u32), _>(e),
    ensures
        e is Degenerate <==> l.width == 0 || l.height == 0,
        e is SizesDiffer <==> l.width > 0 && l.height > 0 && (r.width != l.width || r.height
            != l.height),
        e matches EyeFault::Padded { right, stride, width } ==> width == l.width && r.width
            == l.width && stride != 0 && stride != width && (if right {
            stride == r.stride && (l.stride == 0 || l.stride == l.width) && l.data@.len() >= l.width
                * l.height
        } else {
            stride == l.stride
        }),
        e matches EyeFault::Short { right } ==> r.width == l.width && r.height == l.height && (
        if right {
            r.data@.len() < l.width * l.height && l.data@.len() >= l.width * l.height && (r.stride
                == 0 || r.stride == l.width) && (l.stride == 0 || l.stride == l.width)
        } else {
            l.data@.len() < l.width * l.height && (l.stride == 0 || l.stride == l.width)
        }),
{
}

/// One step of waiting, for every poll: an empty poll costs a second and a pair without pixels
/// the time that it took; five seconds in all end the stream, and so do a device error, a
/// missing eye and a pair that cannot be used.
pub proof fn law_one_poll(waited_ns: u64, took_ns: u64, poll: StereoPoll<'_>)
    ensures
        poll is Failed || poll is NoEye ==> wait_on(waited_ns, took_ns, poll) is End,
        poll is Empty && waited_ns + 1_000_000_000 >= 5_000_000_000 ==> wait_on(
            waited_ns,
            took_ns,
            poll,
        ) is End,
        poll is Empty && waited_ns + 1_000_000_000 < 5_000_000_000 ==> wait_on(
            waited_ns,
            took_ns,
            poll,
        ) == (StereoWait::Again { waited_ns: (waited_ns + 1_000_000_000) as u64 }),
        poll matches StereoPoll::Pair(l, r) ==> {
            let blank = l.width == 0 || l.height == 0;
            let good = l.width > 0 && l.height > 0 && r.width == l.width && r.height == l.height && (
            l.stride == 0 || l.stride == l.width) && (r.stride == 0 || r.stride == l.width)
                && l.data@.len() >= l.width * l.height && r.data@.len() >= l.width * l.height;
            let next = wait_on(waited_ns, took_ns, poll);
            &&& good ==> next == (StereoWait::Deliver { width: l.width, height: l.height })
            &&& blank && waited_ns + took_ns >= 5_000_000_000 ==> next is End
            &&& blank && waited_ns + took_ns < 5_000_000_000 ==> next == (StereoWait::Again {
                waited_ns: (waited_ns + took_ns) as u64,
            })
            &&& !good && !blank ==> next is Unusable && Err::<(u32, u32), _>(next->Unusable_0)
                == pair_size(l, r)
        },
{
}

/// A device with both eyes is opened for them as they were asked for: CAM_B is the left eye and
/// CAM_C the right, both raw, grey and cropped to the requested size at the requested rate,
/// which is thirty where none was requested. A device without both is not opened.
pub proof fn law_both_eyes_as_requested(
    cams: Seq<CameraBoardSocket>,
    width: u32,
    height: u32,
    fps: u32,
    h264: bool,
    knobs: Knobs,
)
    ensures
        stereo_plan(cams, width, height, fps, h264, knobs) is Some <==> cams.contains(
            CameraBoardSocket::CamB,
        ) && cams.contains(CameraBoardSocket::CamC),
        stereo_plan(cams, width, height, fps, h264, knobs) matches Some(plan) ==> {
            &&& fps > 0 ==> plan.fps == fps
            &&& fps == 0 ==> plan.fps == 30
            &&& plan.left.socket == CameraBoardSocket::CamB
            &&& plan.right.socket == CameraBoardSocket::CamC
            &&& plan.right == (OutputRequest { socket: CameraBoardSocket::CamC, ..plan.left })
            &&& plan.left.width == width
            &&& plan.left.height == height
            &&& plan.left.fps == plan.fps
            &&& plan.left.format == Some(ImgFrameType::Gray8)
            &&& plan.left.resize == ImgResizeMode::Crop
            &&& plan.left.undistort == Some(false)
            &&& 2 * plan.sync_threshold_ns * plan.fps <= 1_000_000_000
            &&& 1_000_000_000 < 2 * (plan.sync_threshold_ns + 1) * plan.fps
            &&& plan.queue_depth == 4
            &&& plan.video is Off <==> !h264
            &&& plan.video is NoColourCamera <==> h264 && !cams.contains(CameraBoardSocket::CamA)
            &&& plan.video matches VideoPlan::Encode(video) ==> video.colour.width == width
                && video.colour.height == height && video.fps == plan.fps && video.bitrate_kbps
                == knobs.h264_kbps && video.starts_closed == knobs.video_gated
        },
{
    if let Some(plan) = stereo_plan(cams, width, height, fps, h264, knobs) {
        law_threshold_is_half_a_frame(cams, width, height, fps, h264, knobs);
        let rate = plan.fps as int;
        let interval = 1_000_000_000int / rate;
        vstd::arithmetic::div_mod::lemma_fundamental_div_mod(1_000_000_000int, rate);
        vstd::arithmetic::div_mod::lemma_mod_bound(1_000_000_000int, rate);
        assert(0 <= interval <= 1_000_000_000int) by (nonlinear_arith)
            requires
                rate >= 1,
                interval == 1_000_000_000int / rate,
        ;
        let t = interval / 2;
        assert(plan.sync_threshold_ns == t);
        assert(1_000_000_000 < 2 * (t + 1) * rate) by (nonlinear_arith)
            requires
                interval + 1 <= 2 * (t + 1),
                rate >= 1,
                1_000_000_000 < rate * interval + rate,
        ;
    }
}

/// What is wrong with a pair, in words: the eye is named, and so are the two numbers that should
/// agree, digit for digit.
pub proof fn law_faults_name_the_eye(stride: u32, width: u32)
    ensures
        EyeFault::Degenerate.text() == "degenerate frame"@,
        EyeFault::SizesDiffer.text() == "eyes differ in size"@,
        (EyeFault::Padded { right: false, stride, width }).text() == "left"@
            + " eye is not tightly packed GRAY8 (stride "@ + crate::text::decimal(stride as nat)
            + " != w "@ + crate::text::decimal(width as nat) + ")"@,
        (EyeFault::Padded { right: true, stride, width }).text() == "right"@
            + " eye is not tightly packed GRAY8 (stride "@ + crate::text::decimal(stride as nat)
            + " != w "@ + crate::text::decimal(width as nat) + ")"@,
        (EyeFault::Short { right: false }).text() == "left"@ + " eye buffer is shorter than w*h"@,
        (EyeFault::Short { right: true }).text() == "right"@ + " eye buffer is shorter than w*h"@,
{
}

} // verus!
