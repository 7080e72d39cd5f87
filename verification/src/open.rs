//! Opening a camera: the order of the outside work, and the errors that it can end in.
//!
//! First the device is reached and asked what it has; from the answers the plan is made (see
//! [`crate::graph`] and [`crate::stereo`]); then the planned graph is built and started.

use crate::calib::{read_stereo_calib, OakStereoCalib, StereoCalibError, StereoReads};
use crate::graph::{nothing_to_stream, video_only_failure, CameraBoardSocket, RgbdPlan};
use crate::source::Streams;
use crate::stereo::{StereoPlan, VideoPlan};
use vstd::prelude::*;
use vstd::string::*;

verus! {

/// A failure, with what was being done at the time.
pub open spec fn in_context(what: Seq<char>, why: Seq<char>) -> Seq<char> {
    what + ": "@ + why
}

/// A failure, with what was being done at the time.
pub fn ctx(what: &str, why: &str) -> (r: String)
    ensures
        r@ == in_context(what@, why@),
        r@ == what@ + ": "@ + why@,
{
    let mut r: String = String::from_str(what);
    r.append(": ");
    r.append(why);
    r
}

/// What a device is opened for.
#[derive(Debug, Clone, Copy, PartialEq, Eq, Structural)]
pub enum Modality {
    /// The stereo pair.
    Stereo,
    /// Colour, depth and video.
    Rgbd,
    /// Video only.
    RgbdVideo,
}

impl Modality {
    /// The name of the call that opens a device for this.
    pub open spec fn call(self) -> Seq<char> {
        match self {
            Modality::Stereo => "open_stereo"@,
            Modality::Rgbd => "open_rgbd"@,
            Modality::RgbdVideo => "open_rgbd_video"@,
        }
    }

    /// The camera that IMU samples are rotated into and whose intrinsics are reported: the left
    /// eye of a stereo pair, the colour camera otherwise.
    pub fn reference(self) -> (r: CameraBoardSocket)
        ensures
            r == (if self is Stereo {
                CameraBoardSocket::CamB
            } else {
                CameraBoardSocket::CamA
            }),
    {
        match self {
            Modality::Stereo => CameraBoardSocket::CamB,
            Modality::Rgbd => CameraBoardSocket::CamA,
            Modality::RgbdVideo => CameraBoardSocket::CamA,
        }
    }

    /// The calibration of the stereo pair, which only a device that is opened for stereo has.
    pub fn stereo_calib(self, read: Result<StereoReads, String>, width: u32, height: u32) -> (r:
        Result<OakStereoCalib, StereoCalibError>)
        ensures
            !(self is Stereo) ==> r == Err::<OakStereoCalib, _>(StereoCalibError::NotStereo),
            self is Stereo ==> match (read, r) {
                (Err(why), _) => r == Err::<OakStereoCalib, _>(StereoCalibError::Unreadable(why)),
                (Ok(c), Err(e)) => c.blank() && e == StereoCalibError::ZeroBaseline,
                (Ok(c), Ok(calib)) => !c.blank() && c.assembled(width, height, calib),
            },
    {
        match self {
            Modality::Stereo => read_stereo_calib(read, width, height),
            _ => Err(StereoCalibError::NotStereo),
        }
    }

    /// What the caller is told when opening fails.
    pub fn failure(self, why: &str) -> (r: String)
        ensures
            r@ == self.call() + " failed: "@ + why@,
            self is Stereo ==> r@ == "open_stereo"@ + " failed: "@ + why@,
            self is Rgbd ==> r@ == "open_rgbd"@ + " failed: "@ + why@,
            self is RgbdVideo ==> r@ == "open_rgbd_video"@ + " failed: "@ + why@,
    {
        let mut r: String = match self {
            Modality::Stereo => String::from_str("open_stereo"),
            Modality::Rgbd => String::from_str("open_rgbd"),
            Modality::RgbdVideo => String::from_str("open_rgbd_video"),
        };
        r.append(" failed: ");
        r.append(why);
        r
    }
}

/// The outside work of reaching a device, in the order in which it is done.
#[derive(Debug, Clone, Copy, PartialEq, Eq, Structural)]
pub enum SessionStep {
    /// Open the device.
    OpenDevice,
    /// Create an empty pipeline on it.
    CreatePipeline,
    /// Ask which cameras it has.
    ConnectedCameras,
    /// Read its calibration, once for all uses.
    ReadCalibration,
}

/// The outside work of building the planned graph.
#[derive(Debug, Clone, Copy, PartialEq, Eq, Structural)]
pub enum BuildStep {
    /// Build the colour camera for video only.
    ColourCamera,
    /// Build the encoder for video only.
    Encoder,
    /// Build colour, depth and video.
    Decoupled,
    /// Build the stereo pair.
    StereoPair,
    /// Build the inertial stream.
    ImuNode,
    /// Start the pipeline.
    Start,
    /// Set the infrared projector, which needs a running device.
    IrProjector,
}

/// What to do next.
#[derive(Debug, PartialEq, Eq)]
pub enum OpenAction<S> {
    /// Do this step and report how it went.
    Do(S),
    /// Give up, for this reason.
    Fail(String),
    /// All done.
    Done,
}

impl SessionStep {
    /// The step behind this one.
    pub open spec fn behind(self) -> Option<SessionStep> {
        match self {
            SessionStep::OpenDevice => Some(SessionStep::CreatePipeline),
            SessionStep::CreatePipeline => Some(SessionStep::ConnectedCameras),
            SessionStep::ConnectedCameras => Some(SessionStep::ReadCalibration),
            SessionStep::ReadCalibration => None,
        }
    }

    /// What is being done.
    pub open spec fn what(self) -> Seq<char> {
        match self {
            SessionStep::OpenDevice => "open device"@,
            SessionStep::CreatePipeline => "create pipeline"@,
            SessionStep::ConnectedCameras => "getConnectedCameras"@,
            SessionStep::ReadCalibration => "readCalibration"@,
        }
    }

    /// What is being done.
    fn name(self) -> (r: &'static str)
        ensures
            r@ == self.what(),
    {
        match self {
            SessionStep::OpenDevice => "open device",
            SessionStep::CreatePipeline => "create pipeline",
            SessionStep::ConnectedCameras => "getConnectedCameras",
            SessionStep::ReadCalibration => "readCalibration",
        }
    }

    /// Go on with reaching a device: `outcome` is how this step went.
    pub fn next(self, outcome: Result<(), String>) -> (r: OpenAction<SessionStep>)
        ensures
            match outcome {
                Err(why) => r matches OpenAction::Fail(text) && text@ == in_context(
                    self.what(),
                    why@,
                ),
                Ok(_) => match self.behind() {
                    Some(step) => r == OpenAction::Do(step),
                    None => r is Done,
                },
            },
    {
        match outcome {
            Err(why) => OpenAction::Fail(ctx(self.name(), why.as_str())),
            Ok(_) => match self {
                SessionStep::OpenDevice => OpenAction::Do(SessionStep::CreatePipeline),
                SessionStep::CreatePipeline => OpenAction::Do(SessionStep::ConnectedCameras),
                SessionStep::ConnectedCameras => OpenAction::Do(SessionStep::ReadCalibration),
                SessionStep::ReadCalibration => OpenAction::Done,
            },
        }
    }
}

/// Which graph is built, and what goes with it.
#[derive(Debug, Clone, Copy, PartialEq, Eq, Structural)]
pub struct Build {
    /// Where building begins.
    pub first: BuildStep,
    /// Whether an inertial stream is planned.
    pub imu: bool,
    /// Whether the infrared projector is to be set.
    pub ir: bool,
}

impl Build {
    /// The step behind a step that went well. The inertial stream is attached last, so that
    /// a missing one never reaches the start of the pipeline.
    pub open spec fn behind(self, step: BuildStep) -> Option<BuildStep> {
        match step {
            BuildStep::ColourCamera => Some(BuildStep::Encoder),
            BuildStep::Encoder | BuildStep::Decoupled | BuildStep::StereoPair => if self.imu {
                Some(BuildStep::ImuNode)
            } else {
                Some(BuildStep::Start)
            },
            BuildStep::ImuNode => Some(BuildStep::Start),
            BuildStep::Start => if self.ir {
                Some(BuildStep::IrProjector)
            } else {
                None
            },
            BuildStep::IrProjector => None,
        }
    }

    /// What the failure of a step is called.
    pub open spec fn failure(self, step: BuildStep, why: Seq<char>) -> Seq<char> {
        match step {
            BuildStep::ColourCamera => in_context("colour camera"@, why),
            BuildStep::Encoder => nothing_to_stream(why),
            BuildStep::Decoupled => in_context("build RGBD graph"@, why),
            BuildStep::StereoPair => why,
            BuildStep::ImuNode => in_context("IMU node"@, why),
            BuildStep::Start => in_context("pipeline start"@, why),
            BuildStep::IrProjector => in_context("IR dot projector"@, why),
        }
    }

    /// Go on with building: `outcome` is how `step` went.
    pub fn next(&self, step: BuildStep, outcome: Result<(), String>) -> (r: OpenAction<BuildStep>)
        ensures
            match outcome {
                Err(why) => r matches OpenAction::Fail(text) && text@ == self.failure(step, why@),
                Ok(_) => match self.behind(step) {
                    Some(next) => r == OpenAction::Do(next),
                    None => r is Done,
                },
            },
    {
        match outcome {
            Err(why) => OpenAction::Fail(
                match step {
                    BuildStep::ColourCamera => ctx("colour camera", why.as_str()),
                    BuildStep::Encoder => video_only_failure(why.as_str()),
                    BuildStep::Decoupled => ctx("build RGBD graph", why.as_str()),
                    BuildStep::StereoPair => why,
                    BuildStep::ImuNode => ctx("IMU node", why.as_str()),
                    BuildStep::Start => ctx("pipeline start", why.as_str()),
                    BuildStep::IrProjector => ctx("IR dot projector", why.as_str()),
                },
            ),
            Ok(_) => match step {
                BuildStep::ColourCamera => OpenAction::Do(BuildStep::Encoder),
                BuildStep::Encoder | BuildStep::Decoupled | BuildStep::StereoPair => if self.imu {
                    OpenAction::Do(BuildStep::ImuNode)
                } else {
                    OpenAction::Do(BuildStep::Start)
                },
                BuildStep::ImuNode => OpenAction::Do(BuildStep::Start),
                BuildStep::Start => if self.ir {
                    OpenAction::Do(BuildStep::IrProjector)
                } else {
                    OpenAction::Done
                },
                BuildStep::IrProjector => OpenAction::Done,
            },
        }
    }

    /// The steps that are done, in order, when the first `n` steps go well.
    pub open spec fn steps(self, n: nat) -> Seq<BuildStep>
        decreases n,
    {
        if n == 0 {
            seq![self.first]
        } else {
            let before = self.steps((n - 1) as nat);
            match self.behind(before.last()) {
                Some(step) => before.push(step),
                None => before,
            }
        }
    }

    /// Whether building begins with one of the three graphs.
    pub open spec fn begins_with_a_graph(self) -> bool {
        self.first == BuildStep::ColourCamera || self.first == BuildStep::Decoupled || self.first
            == BuildStep::StereoPair
    }
}

/// How a plan for colour and depth is built, with or without an inertial stream.
pub fn build_of(plan: &RgbdPlan, imu: bool) -> (b: Build)
    ensures
        b.imu == imu,
        b.begins_with_a_graph(),
        plan is VideoOnly ==> b.first == BuildStep::ColourCamera && !b.ir,
        plan matches RgbdPlan::Decoupled { ir, .. } ==> b.first == BuildStep::Decoupled && b.ir == (
        ir is Some),
{
    match plan {
        RgbdPlan::VideoOnly { .. } => Build { first: BuildStep::ColourCamera, imu, ir: false },
        RgbdPlan::Decoupled { ir, .. } => Build {
            first: BuildStep::Decoupled,
            imu,
            ir: ir.is_some(),
        },
    }
}

/// How a plan for a stereo pair is built, with or without an inertial stream. The projector
/// is left alone.
pub fn build_of_stereo(plan: &StereoPlan, imu: bool) -> (b: Build)
    ensures
        b == (Build { first: BuildStep::StereoPair, imu, ir: false }),
        b.begins_with_a_graph(),
{
    Build { first: BuildStep::StereoPair, imu, ir: false }
}

/// Which optional stages of a plan could be built.
#[derive(Debug, Clone, Copy, PartialEq, Eq, Structural)]
pub struct Outcomes {
    /// The depth stage.
    pub depth: bool,
    /// The encoder.
    pub video: bool,
    /// The inertial stream.
    pub imu: bool,
}

/// What a device delivers that was opened for colour and depth.
pub open spec fn rgbd_streams(plan: RgbdPlan, built: Outcomes) -> Streams {
    match plan {
        RgbdPlan::VideoOnly { .. } => Streams {
            stereo: false,
            rgb: false,
            depth: false,
            video: true,
            imu: built.imu,
        },
        RgbdPlan::Decoupled { depth, .. } => Streams {
            stereo: false,
            rgb: true,
            depth: depth is Some && built.depth,
            video: built.video,
            imu: built.imu,
        },
    }
}

/// What a device delivers that was opened for colour and depth. Where only video is planned
/// the encoder is no optional stage: without it the device is not opened.
pub fn streams_of(plan: &RgbdPlan, built: Outcomes) -> (r: Streams)
    ensures
        r == rgbd_streams(*plan, built),
        !r.stereo && r.imu == built.imu && r.rgb == (plan is Decoupled),
        r.video == (plan is VideoOnly || built.video),
        plan is VideoOnly ==> !r.depth,
        plan matches RgbdPlan::Decoupled { depth, .. } ==> r.depth == (depth is Some
            && built.depth),
{
    match plan {
        RgbdPlan::VideoOnly { .. } => Streams {
            stereo: false,
            rgb: false,
            depth: false,
            video: true,
            imu: built.imu,
        },
        RgbdPlan::Decoupled { depth, .. } => Streams {
            stereo: false,
            rgb: true,
            depth: depth.is_some() && built.depth,
            video: built.video,
            imu: built.imu,
        },
    }
}

/// What a device delivers that was opened for stereo.
pub open spec fn stereo_streams(plan: StereoPlan, built: Outcomes) -> Streams {
    Streams {
        stereo: true,
        rgb: false,
        depth: false,
        video: plan.video is Encode && built.video,
        imu: built.imu,
    }
}

/// What a device delivers that was opened for stereo.
pub fn streams_of_stereo(plan: &StereoPlan, built: Outcomes) -> (r: Streams)
    ensures
        r == stereo_streams(*plan, built),
        r.stereo && !r.rgb && !r.depth && r.imu == built.imu,
        r.video == (plan.video is Encode && built.video),
{
    let planned: bool = match plan.video {
        VideoPlan::Encode(_) => true,
        _ => false,
    };
    Streams { stereo: true, rgb: false, depth: false, video: planned && built.video, imu: built.imu }
}

/// An optional stage that fails costs only its own stream: what a device delivers with and
/// without the stage differs in nothing else. Whatever fails, raw colour where it is planned
/// and the stereo pair are delivered, and where only video is planned, video is.
pub proof fn law_failed_stage_costs_only_its_stream(
    rgbd: RgbdPlan,
    pair: StereoPlan,
    built: Outcomes,
)
    ensures
        rgbd_streams(rgbd, Outcomes { depth: false, ..built }) == (Streams {
            depth: false,
            ..rgbd_streams(rgbd, built)
        }),
        rgbd is Decoupled ==> rgbd_streams(rgbd, Outcomes { video: false, ..built }) == (Streams {
            video: false,
            ..rgbd_streams(rgbd, built)
        }),
        rgbd_streams(rgbd, Outcomes { imu: false, ..built }) == (Streams {
            imu: false,
            ..rgbd_streams(rgbd, built)
        }),
        rgbd is Decoupled ==> rgbd_streams(rgbd, built).rgb,
        rgbd is VideoOnly ==> rgbd_streams(rgbd, built).video,
        stereo_streams(pair, Outcomes { video: false, ..built }) == (Streams {
            video: false,
            ..stereo_streams(pair, built)
        }),
        stereo_streams(pair, Outcomes { imu: false, ..built }) == (Streams {
            imu: false,
            ..stereo_streams(pair, built)
        }),
        stereo_streams(pair, built).stereo,
{
}

/// The pipeline is started exactly once, after everything that is part of it and before
/// anything that needs it running: an inertial stream is attached before the start if there
/// is one and never otherwise, and the projector is set after it if it is set at all.
pub proof fn law_start_comes_in_between(b: Build)
    requires
        b.begins_with_a_graph(),
    ensures
        ({
            let graph = if b.first == BuildStep::ColourCamera {
                seq![BuildStep::ColourCamera, BuildStep::Encoder]
            } else {
                seq![b.first]
            };
            let imu = if b.imu {
                seq![BuildStep::ImuNode]
            } else {
                Seq::empty()
            };
            let ir = if b.ir {
                seq![BuildStep::IrProjector]
            } else {
                Seq::empty()
            };
            b.steps(4) == graph + imu + seq![BuildStep::Start] + ir
        }),
        b.behind(b.steps(4).last()) is None,
{
    reveal_with_fuel(Build::steps, 5);
    let graph = if b.first == BuildStep::ColourCamera {
        seq![BuildStep::ColourCamera, BuildStep::Encoder]
    } else {
        seq![b.first]
    };
    let imu = if b.imu {
        seq![BuildStep::ImuNode]
    } else {
        Seq::empty()
    };
    let ir = if b.ir {
        seq![BuildStep::IrProjector]
    } else {
        Seq::empty()
    };
    assert(b.steps(4) =~= graph + imu + seq![BuildStep::Start] + ir);
}

/// The way to a device that can be asked: it is opened, given a pipeline, and asked for its
/// cameras and its calibration. A failure says at which of these it happened, and why.
pub proof fn law_the_way_to_a_device(why: Seq<char>)
    ensures
        SessionStep::OpenDevice.behind() == Some(SessionStep::CreatePipeline),
        SessionStep::CreatePipeline.behind() == Some(SessionStep::ConnectedCameras),
        SessionStep::ConnectedCameras.behind() == Some(SessionStep::ReadCalibration),
        SessionStep::ReadCalibration.behind() is None,
        in_context(SessionStep::OpenDevice.what(), why) == "open device"@ + ": "@ + why,
        in_context(SessionStep::CreatePipeline.what(), why) == "create pipeline"@ + ": "@ + why,
        in_context(SessionStep::ConnectedCameras.what(), why) == "getConnectedCameras"@ + ": "@
            + why,
        in_context(SessionStep::ReadCalibration.what(), why) == "readCalibration"@ + ": "@ + why,
{
}

/// A step of building that fails is told with its reason, and by its name where it has one of
/// its own; a stereo pair tells the reason alone.
pub proof fn law_failures_of_building_carry_their_reason(b: Build, why: Seq<char>)
    ensures
        b.failure(BuildStep::ColourCamera, why) == "colour camera"@ + ": "@ + why,
        b.failure(BuildStep::Encoder, why)
            == "H.264 encoder unavailable and this device cannot produce depth ("@ + why
            + ") — nothing left to stream"@,
        b.failure(BuildStep::Decoupled, why) == "build RGBD graph"@ + ": "@ + why,
        b.failure(BuildStep::StereoPair, why) == why,
        b.failure(BuildStep::ImuNode, why) == "IMU node"@ + ": "@ + why,
        b.failure(BuildStep::Start, why) == "pipeline start"@ + ": "@ + why,
        b.failure(BuildStep::IrProjector, why) == "IR dot projector"@ + ": "@ + why,
{
}

/// What building goes on to, whichever graph it began with: the encoder behind its camera, the
/// inertial stream behind a graph if there is one, the start behind both, and the projector
/// last if it is set.
pub proof fn law_what_building_goes_on_to(b: Build)
    ensures
        b.behind(BuildStep::ColourCamera) == Some(BuildStep::Encoder),
        b.imu ==> b.behind(BuildStep::Encoder) == Some(BuildStep::ImuNode) && b.behind(
            BuildStep::Decoupled,
        ) == Some(BuildStep::ImuNode) && b.behind(BuildStep::StereoPair) == Some(
            BuildStep::ImuNode,
        ),
        !b.imu ==> b.behind(BuildStep::Encoder) == Some(BuildStep::Start) && b.behind(
            BuildStep::Decoupled,
        ) == Some(BuildStep::Start) && b.behind(BuildStep::StereoPair) == Some(BuildStep::Start),
        b.behind(BuildStep::ImuNode) == Some(BuildStep::Start),
        b.ir ==> b.behind(BuildStep::Start) == Some(BuildStep::IrProjector),
        !b.ir ==> b.behind(BuildStep::Start) is None,
        b.behind(BuildStep::IrProjector) is None,
{
}

/// What a device delivers, stream by stream: what was planned and could be built.
pub proof fn law_what_a_device_delivers(rgbd: RgbdPlan, pair: StereoPlan, built: Outcomes)
    ensures
        ({
            let s = rgbd_streams(rgbd, built);
            &&& !s.stereo
            &&& s.rgb <==> rgbd is Decoupled
            &&& s.depth <==> rgbd is Decoupled && rgbd->Decoupled_depth is Some && built.depth
            &&& s.video <==> rgbd is VideoOnly || built.video
            &&& s.imu <==> built.imu
        }),
        ({
            let s = stereo_streams(pair, built);
            &&& s.stereo && !s.rgb && !s.depth
            &&& s.video <==> pair.video is Encode && built.video
            &&& s.imu <==> built.imu
        }),
{
}

} // verus!
