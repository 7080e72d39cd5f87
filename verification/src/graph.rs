//! What is built on a device: the settings of each stage, and the rules by which a stage
//! that cannot be had is left out.

use crate::ieee::Float32;
use crate::policy::{clamp_rate, clamped_rate, depth_output_size, even_extent, Knobs};
use crate::text::same_text;
use vstd::prelude::*;
use vstd::string::*;

verus! {

/// A camera socket of the board.
#[derive(Debug, Clone, Copy, PartialEq, Eq, Structural)]
pub enum CameraBoardSocket {
    /// The colour camera.
    CamA,
    /// The left camera of the stereo pair.
    CamB,
    /// The right camera of the stereo pair.
    CamC,
    /// Any other socket, by its number.
    Other(i32),
}

/// How the pixels of a requested picture are stored.
#[derive(Debug, Clone, Copy, PartialEq, Eq, Structural)]
pub enum ImgFrameType {
    /// Luma and interleaved chroma, which the encoder takes.
    Nv12,
    /// Interleaved colour, three bytes a pixel.
    Rgb888i,
    /// One byte a pixel, which is the whole signal of a monochrome sensor.
    Gray8,
}

/// How a picture is brought to the requested size.
#[derive(Debug, Clone, Copy, PartialEq, Eq, Structural)]
pub enum ImgResizeMode {
    /// Cut to the shape that was asked for.
    Crop,
}

/// What is asked of a camera.
#[derive(Debug, Clone, Copy, PartialEq, Eq)]
pub struct OutputRequest {
    pub socket: CameraBoardSocket,
    pub width: u32,
    pub height: u32,
    /// `None` leaves the choice to the device.
    pub format: Option<ImgFrameType>,
    pub resize: ImgResizeMode,
    pub fps: u32,
    /// Whether the device corrects the lens; `None` leaves the choice to it.
    pub undistort: Option<bool>,
}

/// Whether a camera is plugged into the socket.
pub fn has_socket(cams: &[CameraBoardSocket], socket: CameraBoardSocket) -> (r: bool)
    ensures
        r == cams@.contains(socket),
{
    let mut i: usize = 0;
    while i < cams.len()
        invariant
            i <= cams@.len(),
            forall|j: int| 0 <= j < i ==> #[trigger] cams@[j] != socket,
        decreases cams@.len() - i,
    {
        if cams[i] == socket {
            return true;
        }
        i += 1;
    }
    false
}

/// Whether both cameras of the stereo pair are there.
pub open spec fn has_pair(cams: Seq<CameraBoardSocket>) -> bool {
    cams.contains(CameraBoardSocket::CamB) && cams.contains(CameraBoardSocket::CamC)
}

/// Whether a number is greater than zero.
pub open spec fn positive(v: Float32) -> bool {
    !v.nan() && v.rank() > 0
}

/// True only if the device can produce aligned depth: it has both cameras of the stereo pair
/// and a calibration that is not blank. A wiped calibration reads back a focal length of
/// zero, which would make every depth garbage.
pub fn can_do_depth(cams: &[CameraBoardSocket], fx: Float32) -> (r: bool)
    ensures
        r == (has_pair(cams@) && positive(fx)),
        r == (cams@.contains(CameraBoardSocket::CamB) && cams@.contains(CameraBoardSocket::CamC)
            && 0 < fx.bits <= 0x7f80_0000),
{
    has_socket(cams, CameraBoardSocket::CamB) && has_socket(cams, CameraBoardSocket::CamC)
        && fx.exceeds(Float32::zero())
}

// ---------------------------------------------------------------------------
// H.264
// ---------------------------------------------------------------------------

/// What the encoder writes.
#[derive(Debug, Clone, Copy, PartialEq, Eq, Structural)]
pub enum VideoEncoderProfile {
    /// H.264 without what simple viewers cannot decode.
    H264Baseline,
}

/// The encoded pictures: undistorted, in the format that the encoder takes.
pub open spec fn video_request(width: u32, height: u32, fps: u32) -> OutputRequest {
    OutputRequest {
        socket: CameraBoardSocket::CamA,
        width,
        height,
        format: Some(ImgFrameType::Nv12),
        resize: ImgResizeMode::Crop,
        fps,
        undistort: Some(true),
    }
}

/// The settings of the encoder and of the valve in front of it. One set for every way of
/// opening a device, so that they cannot drift apart.
#[derive(Debug, Clone, Copy, PartialEq, Eq)]
pub struct H264Plan {
    /// The pictures of the colour camera that are encoded.
    pub colour: OutputRequest,
    pub profile: VideoEncoderProfile,
    /// Rate that the encoder is set up for.
    pub fps: u32,
    /// Frames from one keyframe to the next: four keyframes a second, so that a viewer can
    /// join quickly, but no fewer than four frames.
    pub keyframe_frequency: i32,
    pub bitrate_kbps: i32,
    /// Whether the valve starts closed.
    pub starts_closed: bool,
    /// How many frames wait in front of the valve; the camera is held up by a full queue.
    pub gate_depth: u32,
    /// Whether a full queue in front of the valve holds the camera up, rather than frames
    /// being dropped.
    pub gate_blocking: bool,
    /// How many encoded frames wait for the host.
    pub queue_depth: u32,
    /// How many commands wait for the valve.
    pub control_depth: u32,
}

/// The settings of the encoder for a size and a rate.
pub open spec fn encoder_plan(width: u32, height: u32, fps: u32, knobs: Knobs) -> H264Plan {
    H264Plan {
        colour: video_request(width, height, fps),
        profile: VideoEncoderProfile::H264Baseline,
        fps,
        keyframe_frequency: if fps / 4 < 4 {
            4
        } else {
            (fps / 4) as i32
        },
        bitrate_kbps: knobs.h264_kbps,
        starts_closed: knobs.video_gated,
        gate_depth: 3,
        gate_blocking: true,
        queue_depth: 30,
        control_depth: 4,
    }
}

/// The settings of the encoder for a size and a rate.
pub fn plan_h264(width: u32, height: u32, fps: u32, knobs: &Knobs) -> (r: H264Plan)
    ensures
        r == encoder_plan(width, height, fps, *knobs),
        r.colour.width == width && r.colour.height == height && r.colour.fps == fps && r.fps == fps,
        fps >= 16 ==> 4 * r.keyframe_frequency <= fps < 4 * (r.keyframe_frequency + 1),
        fps < 16 ==> r.keyframe_frequency == 4,
        r.bitrate_kbps == knobs.h264_kbps,
        r.starts_closed == knobs.video_gated,
{
    let quarter: u32 = fps / 4;
    H264Plan {
        colour: OutputRequest {
            socket: CameraBoardSocket::CamA,
            width,
            height,
            format: Some(ImgFrameType::Nv12),
            resize: ImgResizeMode::Crop,
            fps,
            undistort: Some(true),
        },
        profile: VideoEncoderProfile::H264Baseline,
        fps,
        keyframe_frequency: if quarter < 4 {
            4
        } else {
            quarter as i32
        },
        bitrate_kbps: knobs.h264_kbps,
        starts_closed: knobs.video_gated,
        gate_depth: 3,
        gate_blocking: true,
        queue_depth: 30,
        control_depth: 4,
    }
}

/// Where an optional encoder takes its pictures from.
#[derive(Debug, Clone, Copy, PartialEq, Eq, Structural)]
pub enum ColourNode {
    /// There is no colour camera: the stream is left out.
    Missing,
    /// The colour camera that was built already.
    Given,
    /// A colour camera that has to be built.
    Create,
}

/// Where an optional encoder takes its pictures from. A board without a colour camera goes
/// without the stream rather than fail to open.
pub fn colour_node(cams: &[CameraBoardSocket], given: bool) -> (r: ColourNode)
    ensures
        r == (if !cams@.contains(CameraBoardSocket::CamA) {
            ColourNode::Missing
        } else if given {
            ColourNode::Given
        } else {
            ColourNode::Create
        }),
{
    if !has_socket(cams, CameraBoardSocket::CamA) {
        ColourNode::Missing
    } else if given {
        ColourNode::Given
    } else {
        ColourNode::Create
    }
}

// ---------------------------------------------------------------------------
// Depth
// ---------------------------------------------------------------------------

/// What the depth stage is tuned for.
#[derive(Debug, Clone, Copy, PartialEq, Eq, Structural)]
pub enum StereoPresetMode {
    /// People and obstacles around a mobile robot.
    Robotics,
}

/// What depth frames are aligned to.
#[derive(Debug, Clone, Copy, PartialEq, Eq, Structural)]
pub enum AlignTo {
    /// The colour output itself, not only its camera, so that a depth pixel and a colour pixel
    /// of the same place show the same point.
    ColourOutput,
}

/// The pictures of a mono camera that depth is computed from.
pub open spec fn mono_request(socket: CameraBoardSocket, dfps: u32) -> OutputRequest {
    OutputRequest {
        socket,
        width: 640,
        height: 400,
        format: None,
        resize: ImgResizeMode::Crop,
        fps: dfps,
        undistort: None,
    }
}

/// The pictures of a mono camera that depth is computed from.
fn mono(socket: CameraBoardSocket, dfps: u32) -> (r: OutputRequest)
    ensures
        r == mono_request(socket, dfps),
{
    OutputRequest {
        socket,
        width: 640,
        height: 400,
        format: None,
        resize: ImgResizeMode::Crop,
        fps: dfps,
        undistort: None,
    }
}

/// The settings of the depth stage.
#[derive(Debug, Clone, Copy, PartialEq, Eq)]
pub struct DepthPlan {
    /// Rate of the two mono cameras.
    pub fps: u32,
    /// The pictures of the left camera.
    pub left: OutputRequest,
    /// The pictures of the right camera.
    pub right: OutputRequest,
    pub preset: StereoPresetMode,
    pub align_to: AlignTo,
    /// Check left against right, for occlusions.
    pub left_right_check: bool,
    /// Finer disparity, at about half the rate.
    pub subpixel: bool,
    /// Fill holes but keep edges.
    pub spatial_filter: bool,
    /// Average over time.
    pub temporal_filter: bool,
    /// Nearest and farthest depth that is kept, in millimetres.
    pub threshold_mm: (u32, u32),
    /// Size of the depth frames, which are brought down on the device.
    pub output: (u32, u32),
    /// How many depth frames wait for the host.
    pub queue_depth: u32,
}

/// The settings of the depth stage for an image size and a depth rate.
pub open spec fn depth_stage(width: u32, height: u32, dfps: u32, knobs: Knobs) -> DepthPlan {
    DepthPlan {
        fps: dfps,
        left: mono_request(CameraBoardSocket::CamB, dfps),
        right: mono_request(CameraBoardSocket::CamC, dfps),
        preset: StereoPresetMode::Robotics,
        align_to: AlignTo::ColourOutput,
        left_right_check: true,
        subpixel: knobs.subpixel,
        spatial_filter: true,
        temporal_filter: true,
        threshold_mm: (400, 8000),
        output: (even_extent(width, knobs.depth_div), even_extent(height, knobs.depth_div)),
        queue_depth: 4,
    }
}

/// The settings of the depth stage for an image size and a depth rate.
pub fn plan_stereo_depth(width: u32, height: u32, dfps: u32, knobs: &Knobs) -> (r: DepthPlan)
    ensures
        r == depth_stage(width, height, dfps, *knobs),
        r.fps == dfps && r.left.fps == dfps && r.right.fps == dfps,
        r.left.socket == CameraBoardSocket::CamB && r.right.socket == CameraBoardSocket::CamC,
        r.subpixel == knobs.subpixel,
{
    DepthPlan {
        fps: dfps,
        left: mono(CameraBoardSocket::CamB, dfps),
        right: mono(CameraBoardSocket::CamC, dfps),
        preset: StereoPresetMode::Robotics,
        align_to: AlignTo::ColourOutput,
        left_right_check: true,
        subpixel: knobs.subpixel,
        spatial_filter: true,
        temporal_filter: true,
        threshold_mm: (400, 8000),
        output: depth_output_size(width, height, knobs.depth_div),
        queue_depth: 4,
    }
}

/// What a depth stage sends can cross the link: both sides of its frames are even.
pub proof fn law_depth_frames_are_even(width: u32, height: u32, dfps: u32, knobs: Knobs)
    ensures
        depth_stage(width, height, dfps, knobs).output.0 % 2 == 0,
        depth_stage(width, height, dfps, knobs).output.1 % 2 == 0,
        depth_stage(width, height, dfps, knobs).output.0 >= 2,
        depth_stage(width, height, dfps, knobs).output.1 >= 2,
{
    crate::policy::law_depth_extent_is_even(width, knobs.depth_div);
    crate::policy::law_depth_extent_is_even(height, knobs.depth_div);
}

// ---------------------------------------------------------------------------
// Stages that fail half way
// ---------------------------------------------------------------------------

/// The nodes that an optional stage has added to the pipeline so far. A stage that fails
/// takes them out again, or they would keep the pipeline from starting.
pub struct Stage<N> {
    made: Vec<N>,
}

impl<N> Stage<N> {
    /// The nodes added so far, in order.
    pub closed spec fn nodes(self) -> Seq<N> {
        self.made@
    }

    /// A stage without nodes.
    pub fn new() -> (r: Self)
        ensures
            r.nodes() == Seq::<N>::empty(),
    {
        Stage { made: Vec::new() }
    }

    /// A node was added.
    pub fn add_node(&mut self, node: N)
        ensures
            final(self).nodes() == old(self).nodes().push(node),
    {
        self.made.push(node);
    }

    /// The stage is complete, or has failed: the nodes that have to be removed again.
    pub fn settle(self, complete: bool) -> (r: Vec<N>)
        ensures
            r@ == (if complete {
                Seq::empty()
            } else {
                self.nodes()
            }),
    {
        if complete {
            Vec::new()
        } else {
            self.made
        }
    }
}

/// The nodes of a pipeline after a stage added `made` and `removed` were taken out again.
pub open spec fn pipeline_after<N>(before: Set<N>, made: Seq<N>, removed: Seq<N>) -> Set<N> {
    before.union(made.to_set()).difference(removed.to_set())
}

/// A stage that fails leaves the pipeline as it was: taking out what [`Stage::settle`] names
/// removes every node that the stage added and no other.
pub proof fn law_failed_stage_leaves_no_trace<N>(before: Set<N>, made: Seq<N>)
    requires
        forall|i: int| 0 <= i < made.len() ==> !before.contains(#[trigger] made[i]),
    ensures
        pipeline_after(before, made, made) == before,
        pipeline_after(before, made, Seq::empty()) == before.union(made.to_set()),
{
    let added = made.to_set();
    assert forall|n: N| added.contains(n) implies !before.contains(n) by {
        let i = choose|i: int| 0 <= i < made.len() && made[i] == n;
        assert(made[i] == n);
    }
    assert(pipeline_after(before, made, made) =~= before);
    assert(pipeline_after(before, made, Seq::empty()) =~= before.union(added));
}

// ---------------------------------------------------------------------------
// IMU
// ---------------------------------------------------------------------------

/// How the inertial stream is set up.
#[derive(Debug, Clone, Copy, PartialEq, Eq, Structural)]
pub struct ImuPlan {
    /// Reports per second of each sensor.
    pub hz: u32,
    /// Reports that are sent together: few transfers, but fresh data.
    pub batch_threshold: u32,
    /// The most that are sent together.
    pub max_batch: u32,
    /// How many batches wait for the host.
    pub queue_depth: u32,
}

/// Whether the board has an IMU, by the name that it gives it. `None` means that it could
/// not be asked.
pub open spec fn imu_present(name: Option<&str>) -> bool {
    match name {
        Some(n) => n@.len() > 0 && n@ != "NONE"@,
        None => false,
    }
}

/// How the inertial stream is set up, if it is: not at a rate of zero, and not on a board
/// without an IMU, which must not cost the image streams.
pub fn plan_imu(imu_hz: u32, name: Option<&str>) -> (r: Option<ImuPlan>)
    ensures
        r == (if imu_hz != 0 && imu_present(name) {
            Some(ImuPlan { hz: imu_hz, batch_threshold: 5, max_batch: 5, queue_depth: 50 })
        } else {
            None
        }),
        r is Some <==> imu_hz > 0 && name is Some && name->0@ != ""@ && name->0@ != "NONE"@,
        r matches Some(p) ==> p.hz == imu_hz,
{
    proof {
        reveal_strlit("");
        assert(""@ =~= Seq::empty());
        if let Some(n) = name {
            if n@.len() == 0 {
                assert(n@ =~= ""@);
            }
        }
    }
    if imu_hz == 0 {
        return None;
    }
    match name {
        Some(n) => {
            let empty: bool = same_text(n, "");
            proof {
                reveal_strlit("");
                assert(empty == (n@.len() == 0)) by {
                    assert(""@ =~= Seq::empty());
                    if n@.len() == 0 {
                        assert(n@ =~= ""@);
                    }
                }
            }
            if empty || same_text(n, "NONE") {
                None
            } else {
                Some(ImuPlan { hz: imu_hz, batch_threshold: 5, max_batch: 5, queue_depth: 50 })
            }
        },
        None => None,
    }
}

// ---------------------------------------------------------------------------
// Opening for colour and depth
// ---------------------------------------------------------------------------

/// Raw colour frames: undistorted, so that depth aligns with them pixel by pixel and the
/// intrinsics are those of an exact pinhole.
pub open spec fn rgb_request(width: u32, height: u32, fps: u32) -> OutputRequest {
    OutputRequest {
        socket: CameraBoardSocket::CamA,
        width,
        height,
        format: Some(ImgFrameType::Rgb888i),
        resize: ImgResizeMode::Crop,
        fps,
        undistort: Some(true),
    }
}

/// What is built when a device is opened for colour and depth.
#[derive(Debug, Clone, Copy, PartialEq, Eq)]
pub enum RgbdPlan {
    /// Only the encoded stream, which must not fail: it is all there is.
    VideoOnly { h264: H264Plan },
    /// Colour, depth and encoded video, each in its own queue.
    Decoupled {
        /// Raw colour frames, at a rate of their own.
        rgb: OutputRequest,
        /// How many colour frames wait for the host.
        rgb_queue_depth: u32,
        /// The depth stage, if depth is wanted. It may fail.
        depth: Option<DepthPlan>,
        /// The encoder. It may fail.
        h264: H264Plan,
        /// The intensity to set the infrared projector to, once the device runs.
        ir: Option<Float32>,
    },
}

/// What to build on a device for colour and depth.
pub open spec fn rgbd_plan(
    cams: Seq<CameraBoardSocket>,
    fx: Float32,
    width: u32,
    height: u32,
    fps: u32,
    depth: bool,
    video_only: bool,
    knobs: Knobs,
) -> RgbdPlan {
    let fps = crate::policy::effective_fps(fps);
    let h264 = encoder_plan(width, height, fps, knobs);
    if video_only || (depth && !(has_pair(cams) && positive(fx))) {
        RgbdPlan::VideoOnly { h264 }
    } else {
        RgbdPlan::Decoupled {
            rgb: rgb_request(
                width,
                height,
                clamped_rate(knobs.rgb_fps, crate::policy::DEFAULT_RGB_FPS, fps),
            ),
            rgb_queue_depth: 4,
            depth: if depth {
                Some(
                    depth_stage(width, height, clamped_rate(knobs.depth_fps, fps, fps), knobs),
                )
            } else {
                None
            },
            h264,
            ir: if positive(knobs.ir) {
                Some(knobs.ir)
            } else {
                None
            },
        }
    }
}

/// What to build on a device for colour and depth. `fx` is the focal length that the
/// calibration gives the colour camera.
///
/// A device that is asked for depth and cannot produce it is opened for video only: raw
/// colour beside garbage depth would only take bandwidth from the encoded stream.
pub fn plan_rgbd(
    cams: &[CameraBoardSocket],
    fx: Float32,
    width: u32,
    height: u32,
    fps: u32,
    depth: bool,
    video_only: bool,
    knobs: &Knobs,
) -> (r: RgbdPlan)
    ensures
        r == rgbd_plan(cams@, fx, width, height, fps, depth, video_only, *knobs),
        r is VideoOnly <==> video_only || (depth && !(cams@.contains(CameraBoardSocket::CamB)
            && cams@.contains(CameraBoardSocket::CamC) && 0 < fx.bits <= 0x7f80_0000)),
{
    let rate: u32 = crate::policy::fps_or_default(fps);
    if video_only || (depth && !can_do_depth(cams, fx)) {
        plan_video_only(width, height, rate, knobs)
    } else {
        plan_decoupled(width, height, rate, depth, knobs)
    }
}

/// The plan for video only.
pub fn plan_video_only(width: u32, height: u32, fps: u32, knobs: &Knobs) -> (r: RgbdPlan)
    ensures
        r == (RgbdPlan::VideoOnly { h264: encoder_plan(width, height, fps, *knobs) }),
{
    RgbdPlan::VideoOnly { h264: plan_h264(width, height, fps, knobs) }
}

/// The plan for colour, depth and video in queues of their own.
pub fn plan_decoupled(width: u32, height: u32, fps: u32, depth: bool, knobs: &Knobs) -> (r: RgbdPlan)
    ensures
        r == (RgbdPlan::Decoupled {
            rgb: rgb_request(
                width,
                height,
                clamped_rate(knobs.rgb_fps, crate::policy::DEFAULT_RGB_FPS, fps),
            ),
            rgb_queue_depth: 4,
            depth: if depth {
                Some(
                    depth_stage(width, height, clamped_rate(knobs.depth_fps, fps, fps), *knobs),
                )
            } else {
                None
            },
            h264: encoder_plan(width, height, fps, *knobs),
            ir: if positive(knobs.ir) {
                Some(knobs.ir)
            } else {
                None
            },
        }),
{
    let stage: Option<DepthPlan> = if depth {
        let dfps: u32 = clamp_rate(knobs.depth_fps, fps, fps);
        Some(plan_stereo_depth(width, height, dfps, knobs))
    } else {
        None
    };
    let ir: Option<Float32> = if knobs.ir.exceeds(Float32::zero()) {
        Some(knobs.ir)
    } else {
        None
    };
    RgbdPlan::Decoupled {
        rgb: OutputRequest {
            socket: CameraBoardSocket::CamA,
            width,
            height,
            format: Some(ImgFrameType::Rgb888i),
            resize: ImgResizeMode::Crop,
            fps: clamp_rate(knobs.rgb_fps, crate::policy::DEFAULT_RGB_FPS, fps),
            undistort: Some(true),
        },
        rgb_queue_depth: 4,
        depth: stage,
        h264: plan_h264(width, height, fps, knobs),
        ir,
    }
}

/// Compressed video is always part of the plan, raw frames only where depth works or was not
/// asked for, and depth only where the device can produce it.
pub proof fn law_video_always_depth_only_where_it_works(
    cams: Seq<CameraBoardSocket>,
    fx: Float32,
    width: u32,
    height: u32,
    fps: u32,
    depth: bool,
    video_only: bool,
    knobs: Knobs,
)
    ensures
        match rgbd_plan(cams, fx, width, height, fps, depth, video_only, knobs) {
            RgbdPlan::VideoOnly { h264 } => {
                &&& h264 == encoder_plan(width, height, crate::policy::effective_fps(fps), knobs)
                &&& video_only || depth
            },
            RgbdPlan::Decoupled { rgb, depth: stage, h264, .. } => {
                &&& h264 == encoder_plan(width, height, crate::policy::effective_fps(fps), knobs)
                &&& !video_only
                &&& stage is Some <==> depth
                &&& stage is Some ==> has_pair(cams) && positive(fx)
                &&& 1 <= rgb.fps <= crate::policy::effective_fps(fps)
                &&& stage matches Some(d) ==> 1 <= d.fps <= crate::policy::effective_fps(fps)
            },
        },
{
}

/// Why a device that is opened for video only cannot be opened: it is also where a request
/// for depth lands on a device without it.
pub open spec fn nothing_to_stream(e: Seq<char>) -> Seq<char> {
    "H.264 encoder unavailable and this device cannot produce depth ("@ + e
        + ") — nothing left to stream"@
}

/// Why a device that is opened for video only cannot be opened.
pub fn video_only_failure(e: &str) -> (r: String)
    ensures
        r@ == nothing_to_stream(e@),
        r@ == "H.264 encoder unavailable and this device cannot produce depth ("@ + e@
            + ") — nothing left to stream"@,
{
    let mut r: String = String::from_str(
        "H.264 encoder unavailable and this device cannot produce depth (",
    );
    r.append(e);
    r.append(") — nothing left to stream");
    r
}

/// The encoder is set up for the size and the rate that were asked for, on undistorted pictures
/// of the colour camera. It writes four keyframes a second, rounded to whole frames, but none
/// closer than four frames to the one before.
pub proof fn law_the_encoder_follows_the_request(width: u32, height: u32, fps: u32, knobs: Knobs)
    ensures
        ({
            let p = encoder_plan(width, height, fps, knobs);
            &&& p.colour.socket == CameraBoardSocket::CamA
            &&& p.colour.width == width
            &&& p.colour.height == height
            &&& p.colour.fps == fps
            &&& p.colour.format == Some(ImgFrameType::Nv12)
            &&& p.colour.undistort == Some(true)
            &&& p.fps == fps
            &&& fps >= 16 ==> 4 * p.keyframe_frequency <= fps < 4 * (p.keyframe_frequency + 1)
            &&& fps < 16 ==> p.keyframe_frequency == 4
            &&& p.bitrate_kbps == knobs.h264_kbps
            &&& p.starts_closed == knobs.video_gated
            &&& p.gate_blocking
            &&& (p.gate_depth, p.queue_depth, p.control_depth) == (3u32, 30u32, 4u32)
        }),
{
}

/// The depth stage takes the left and the right picture at the rate that was asked for, leaves
/// the lens to the device, and keeps what lies from 0.4 to 8 metres away. Its frames are the
/// largest even part of the image that the divisor leaves.
pub proof fn law_the_depth_stage_follows_the_request(
    width: u32,
    height: u32,
    dfps: u32,
    knobs: Knobs,
)
    ensures
        ({
            let p = depth_stage(width, height, dfps, knobs);
            let div = knobs.depth_div;
            &&& p.fps == dfps
            &&& p.left.socket == CameraBoardSocket::CamB
            &&& p.right.socket == CameraBoardSocket::CamC
            &&& p.left == (OutputRequest { socket: CameraBoardSocket::CamB, ..p.right })
            &&& p.left.fps == dfps
            &&& (p.left.width, p.left.height) == (640u32, 400u32)
            &&& p.left.format is None
            &&& p.left.undistort is None
            &&& p.left_right_check && p.spatial_filter && p.temporal_filter
            &&& p.subpixel == knobs.subpixel
            &&& p.threshold_mm == (400u32, 8000u32)
            &&& p.queue_depth == 4
            &&& p.output.0 % 2 == 0 && p.output.1 % 2 == 0
            &&& div >= 1 && width >= 2 * div ==> p.output.0 * div <= width < (p.output.0 + 2) * div
            &&& div >= 1 && height >= 2 * div ==> p.output.1 * div <= height < (p.output.1 + 2)
                * div
            &&& div >= 1 && width < 2 * div ==> p.output.0 == 2
            &&& div >= 1 && height < 2 * div ==> p.output.1 == 2
        }),
{
    crate::policy::law_depth_extent_is_the_largest_that_fits(width, knobs.depth_div);
    crate::policy::law_depth_extent_is_the_largest_that_fits(height, knobs.depth_div);
}

/// What is built for colour and depth, and at which rates. Only video is built where that was
/// asked for, or where depth was and the device lacks a camera of the pair or has a blank
/// calibration. Otherwise colour comes at the rate that was set for it, or ten a second, and
/// depth at its own rate or that of the device, neither faster than the device.
pub proof fn law_what_is_built_for_colour_and_depth(
    cams: Seq<CameraBoardSocket>,
    fx: Float32,
    width: u32,
    height: u32,
    fps: u32,
    depth: bool,
    video_only: bool,
    knobs: Knobs,
)
    requires
        fps > 0,
    ensures
        ({
            let plan = rgbd_plan(cams, fx, width, height, fps, depth, video_only, knobs);
            &&& plan is VideoOnly <==> video_only || (depth && !(cams.contains(
                CameraBoardSocket::CamB,
            ) && cams.contains(CameraBoardSocket::CamC) && 0 < fx.bits <= 0x7f80_0000))
            &&& plan matches RgbdPlan::VideoOnly { h264 } ==> h264.fps == fps && h264.colour.width
                == width && h264.colour.height == height
            &&& plan matches RgbdPlan::Decoupled {
                rgb,
                rgb_queue_depth,
                depth: stage,
                h264,
                ir,
            } ==> {
                &&& rgb.socket == CameraBoardSocket::CamA
                &&& rgb.width == width && rgb.height == height
                &&& rgb.format == Some(ImgFrameType::Rgb888i)
                &&& rgb.undistort == Some(true)
                &&& rgb_queue_depth == 4
                &&& (knobs.rgb_fps is None ==> rgb.fps == (if fps < 10 {
                    fps
                } else {
                    10
                }))
                &&& (knobs.rgb_fps is Some && 1 <= knobs.rgb_fps->0 <= fps ==> rgb.fps
                    == knobs.rgb_fps->0)
                &&& (knobs.rgb_fps is Some && knobs.rgb_fps->0 > fps ==> rgb.fps == fps)
                &&& (stage is Some <==> depth)
                &&& (stage is Some && knobs.depth_fps is None ==> stage->0.fps == fps)
                &&& (stage is Some && knobs.depth_fps is Some && 1 <= knobs.depth_fps->0 <= fps
                    ==> stage->0.fps == knobs.depth_fps->0)
                &&& (stage is Some && knobs.depth_fps is Some && knobs.depth_fps->0 > fps
                    ==> stage->0.fps == fps)
                &&& h264.fps == fps && h264.colour.width == width && h264.colour.height == height
                &&& (ir is Some <==> 0 < knobs.ir.bits <= 0x7f80_0000)
                &&& (ir is Some ==> ir->0 == knobs.ir)
            }
        }),
        rgbd_plan(cams, fx, width, height, 0, depth, video_only, knobs) == rgbd_plan(
            cams,
            fx,
            width,
            height,
            30,
            depth,
            video_only,
            knobs,
        ),
{
}

/// Whether a number is above zero shows in its bits: they are above those of zero and no
/// larger than those of infinity.
pub proof fn law_positive_numbers_by_their_bits(v: Float32)
    ensures
        positive(v) <==> 0 < v.bits <= 0x7f80_0000,
{
}

/// An inertial stream is there exactly if the board names a sensor: not with an empty name,
/// and not by the name of none.
pub proof fn law_which_boards_have_an_imu(name: &str)
    ensures
        imu_present(Some(name)) <==> name@ != ""@ && name@ != "NONE"@,
        !imu_present(None),
{
    reveal_strlit("");
    assert(""@ =~= Seq::empty());
    if name@.len() == 0 {
        assert(name@ =~= ""@);
    }
}

} // verus!
