use sensor_rt::device::{kick_wedged_oak, DeviceInfo, DeviceState};
use sensor_rt::graph::{
    can_do_depth, colour_node, has_socket, plan_h264, plan_imu, plan_rgbd, plan_stereo_depth,
    video_only_failure, AlignTo, CameraBoardSocket, ColourNode, ImgFrameType, ImgResizeMode,
    ImuPlan, OutputRequest, RgbdPlan, Stage, StereoPresetMode, VideoEncoderProfile,
};
use sensor_rt::ieee::Float32;
use sensor_rt::open::{
    build_of, build_of_stereo, ctx, streams_of, streams_of_stereo, Build, BuildStep, Modality,
    OpenAction, Outcomes, SessionStep,
};
use sensor_rt::policy::{KnobVars, Knobs};
use sensor_rt::source::Streams;
use sensor_rt::stereo::plan_stereo;

fn bits(v: f32) -> Float32 {
    Float32 { bits: v.to_bits() }
}

fn knobs() -> Knobs {
    let vars = KnobVars {
        usb_speed: None,
        h264_kbps: None,
        depth_fps: None,
        rgb_fps: None,
        depth_div: None,
        subpixel: None,
        video_gated: None,
    };
    Knobs::from_vars(&vars, None)
}

const ALL: [CameraBoardSocket; 3] =
    [CameraBoardSocket::CamA, CameraBoardSocket::CamB, CameraBoardSocket::CamC];

#[test]
fn sockets_are_found() {
    assert!(has_socket(&ALL, CameraBoardSocket::CamC));
    assert!(!has_socket(&ALL, CameraBoardSocket::Other(3)));
    assert!(has_socket(&[CameraBoardSocket::Other(3)], CameraBoardSocket::Other(3)));
    assert!(!has_socket(&[], CameraBoardSocket::CamA));
}

#[test]
fn depth_needs_a_pair_and_a_calibration() {
    assert!(can_do_depth(&ALL, bits(450.0)));
    assert!(!can_do_depth(&ALL, bits(0.0)));
    assert!(!can_do_depth(&ALL, bits(-1.0)));
    assert!(!can_do_depth(&ALL, bits(f32::NAN)));
    assert!(!can_do_depth(&ALL[..2], bits(450.0)));
    assert!(can_do_depth(&ALL[1..], bits(450.0)));
}

#[test]
fn keyframes_come_four_times_a_second() {
    let plan = plan_h264(640, 360, 30, &knobs());
    assert_eq!(plan.keyframe_frequency, 7);
    assert_eq!(plan_h264(640, 360, 5, &knobs()).keyframe_frequency, 4);
    assert_eq!(plan_h264(1, 1, u32::MAX, &knobs()).keyframe_frequency, 1_073_741_823);
    assert_eq!(plan.fps, 30);
    assert_eq!(plan.profile, VideoEncoderProfile::H264Baseline);
    assert!(plan.gate_blocking);
    assert_eq!(
        plan.colour,
        OutputRequest {
            socket: CameraBoardSocket::CamA,
            width: 640,
            height: 360,
            format: Some(ImgFrameType::Nv12),
            resize: ImgResizeMode::Crop,
            fps: 30,
            undistort: Some(true),
        }
    );
    assert_eq!(plan.bitrate_kbps, 2000);
    assert!(!plan.starts_closed);
    assert_eq!((plan.gate_depth, plan.queue_depth, plan.control_depth), (3, 30, 4));
    let gated = Knobs { video_gated: true, h264_kbps: 750, ..knobs() };
    assert!(plan_h264(640, 360, 30, &gated).starts_closed);
    assert_eq!(plan_h264(640, 360, 30, &gated).bitrate_kbps, 750);
}

#[test]
fn the_encoder_shares_a_colour_camera() {
    assert_eq!(colour_node(&ALL, true), ColourNode::Given);
    assert_eq!(colour_node(&ALL, false), ColourNode::Create);
    assert_eq!(colour_node(&ALL[1..], false), ColourNode::Missing);
    assert_eq!(colour_node(&ALL[1..], true), ColourNode::Missing);
}

#[test]
fn depth_frames_are_even() {
    let k = Knobs { depth_div: 3, subpixel: false, ..knobs() };
    let plan = plan_stereo_depth(640, 360, 15, &k);
    assert_eq!(plan.output, (212, 120));
    for (eye, socket) in
        [(plan.left, CameraBoardSocket::CamB), (plan.right, CameraBoardSocket::CamC)]
    {
        assert_eq!(
            eye,
            OutputRequest {
                socket,
                width: 640,
                height: 400,
                format: None,
                resize: ImgResizeMode::Crop,
                fps: 15,
                undistort: None,
            }
        );
    }
    assert_eq!((plan.preset, plan.align_to), (StereoPresetMode::Robotics, AlignTo::ColourOutput));
    assert_eq!(plan.threshold_mm, (400, 8000));
    assert_eq!((plan.fps, plan.queue_depth), (15, 4));
    assert!(plan.left_right_check && plan.spatial_filter && plan.temporal_filter);
    assert!(!plan.subpixel);
}

#[test]
fn a_failed_stage_takes_its_nodes_out() {
    let mut stage = Stage::new();
    stage.add_node("left");
    stage.add_node("right");
    assert_eq!(stage.settle(false), vec!["left", "right"]);
    let mut stage = Stage::new();
    stage.add_node("left");
    assert!(stage.settle(true).is_empty());
    assert!(Stage::<u8>::new().settle(false).is_empty());
}

#[test]
fn an_imu_is_set_up_where_there_is_one() {
    let plan = Some(ImuPlan { hz: 200, batch_threshold: 5, max_batch: 5, queue_depth: 50 });
    assert_eq!(plan_imu(200, Some("BMI270")), plan);
    assert_eq!(plan_imu(0, Some("BMI270")), None);
    assert_eq!(plan_imu(200, Some("")), None);
    assert_eq!(plan_imu(200, Some("NONE")), None);
    assert_eq!(plan_imu(200, Some("none")), plan);
    assert_eq!(plan_imu(200, None), None);
}

#[test]
fn depth_is_planned_where_it_works() {
    match plan_rgbd(&ALL, bits(450.0), 640, 360, 0, true, false, &knobs()) {
        RgbdPlan::Decoupled { rgb, rgb_queue_depth, depth, h264, ir } => {
            assert_eq!(
                rgb,
                OutputRequest { format: Some(ImgFrameType::Rgb888i), fps: 10, ..h264.colour }
            );
            assert_eq!(rgb_queue_depth, 4);
            assert_eq!(depth, Some(plan_stereo_depth(640, 360, 30, &knobs())));
            assert_eq!(h264, plan_h264(640, 360, 30, &knobs()));
            assert_eq!(ir, Some(bits(0.8)));
        }
        other => panic!("{other:?}"),
    }
    let slow = Knobs { depth_fps: Some(12), rgb_fps: Some(99), ir: bits(0.0), ..knobs() };
    match plan_rgbd(&ALL, bits(450.0), 640, 360, 20, true, false, &slow) {
        RgbdPlan::Decoupled { rgb, depth, ir, .. } => {
            assert_eq!(rgb.fps, 20);
            assert_eq!(depth.unwrap().fps, 12);
            assert_eq!(ir, None);
        }
        other => panic!("{other:?}"),
    }
}

#[test]
fn a_device_without_depth_is_opened_for_video() {
    let h264 = plan_h264(640, 360, 30, &knobs());
    let video = RgbdPlan::VideoOnly { h264 };
    assert_eq!(plan_rgbd(&ALL[..1], bits(450.0), 640, 360, 30, true, false, &knobs()), video);
    assert_eq!(plan_rgbd(&ALL, bits(0.0), 640, 360, 30, true, false, &knobs()), video);
    assert_eq!(plan_rgbd(&ALL, bits(450.0), 640, 360, 30, true, true, &knobs()), video);
    match plan_rgbd(&ALL[..1], bits(0.0), 640, 360, 30, false, false, &knobs()) {
        RgbdPlan::Decoupled { depth, .. } => assert_eq!(depth, None),
        other => panic!("{other:?}"),
    }
    assert_eq!(
        video_only_failure("no encoder"),
        "H.264 encoder unavailable and this device cannot produce depth (no encoder) — nothing \
         left to stream"
    );
}

#[test]
fn a_session_is_opened_in_order() {
    let steps = [
        (SessionStep::OpenDevice, "open device: boom"),
        (SessionStep::CreatePipeline, "create pipeline: boom"),
        (SessionStep::ConnectedCameras, "getConnectedCameras: boom"),
        (SessionStep::ReadCalibration, "readCalibration: boom"),
    ];
    for (i, (step, text)) in steps.iter().enumerate() {
        let next = match steps.get(i + 1) {
            Some((s, _)) => OpenAction::Do(*s),
            None => OpenAction::Done,
        };
        assert_eq!(step.next(Ok(())), next);
        assert_eq!(step.next(Err("boom".to_string())), OpenAction::Fail(text.to_string()));
    }
    assert_eq!(ctx("a", "b"), "a: b");
}

fn walk(b: Build) -> Vec<BuildStep> {
    let mut done = vec![b.first];
    loop {
        match b.next(done[done.len() - 1], Ok(())) {
            OpenAction::Do(step) => done.push(step),
            OpenAction::Done => return done,
            OpenAction::Fail(e) => panic!("{e}"),
        }
    }
}

#[test]
fn the_pipeline_starts_after_the_imu_and_before_the_projector() {
    assert_eq!(
        walk(Build { first: BuildStep::Decoupled, imu: true, ir: true }),
        [BuildStep::Decoupled, BuildStep::ImuNode, BuildStep::Start, BuildStep::IrProjector]
    );
    assert_eq!(
        walk(Build { first: BuildStep::StereoPair, imu: false, ir: false }),
        [BuildStep::StereoPair, BuildStep::Start]
    );
    assert_eq!(
        walk(Build { first: BuildStep::ColourCamera, imu: true, ir: false }),
        [BuildStep::ColourCamera, BuildStep::Encoder, BuildStep::ImuNode, BuildStep::Start]
    );
}

#[test]
fn plans_are_built_from_their_first_step() {
    let video = plan_rgbd(&ALL, bits(450.0), 640, 360, 30, true, true, &knobs());
    assert_eq!(
        build_of(&video, true),
        Build { first: BuildStep::ColourCamera, imu: true, ir: false }
    );
    let full = plan_rgbd(&ALL, bits(450.0), 640, 360, 30, true, false, &knobs());
    assert_eq!(
        build_of(&full, false),
        Build { first: BuildStep::Decoupled, imu: false, ir: true }
    );
    let dark = Knobs { ir: bits(0.0), ..knobs() };
    let full = plan_rgbd(&ALL, bits(450.0), 640, 360, 30, true, false, &dark);
    assert!(!build_of(&full, false).ir);
    let pair = plan_stereo(&ALL, 640, 400, 30, false, &knobs()).unwrap();
    assert_eq!(
        build_of_stereo(&pair, true),
        Build { first: BuildStep::StereoPair, imu: true, ir: false }
    );
}

#[test]
fn a_failed_stage_costs_only_its_stream() {
    let all = Outcomes { depth: true, video: true, imu: true };
    let none = Outcomes { depth: false, video: false, imu: false };
    let full = plan_rgbd(&ALL, bits(450.0), 640, 360, 30, true, false, &knobs());
    let everything =
        Streams { stereo: false, rgb: true, depth: true, video: true, imu: true };
    assert_eq!(streams_of(&full, all), everything);
    assert_eq!(
        streams_of(&full, Outcomes { depth: false, ..all }),
        Streams { depth: false, ..everything }
    );
    assert_eq!(
        streams_of(&full, Outcomes { video: false, ..all }),
        Streams { video: false, ..everything }
    );
    assert!(streams_of(&full, none).rgb);
    let colour = plan_rgbd(&ALL, bits(450.0), 640, 360, 30, false, false, &knobs());
    assert!(!streams_of(&colour, all).depth);
    let video = plan_rgbd(&ALL, bits(450.0), 640, 360, 30, true, true, &knobs());
    assert_eq!(
        streams_of(&video, none),
        Streams { stereo: false, rgb: false, depth: false, video: true, imu: false }
    );
    let pair = plan_stereo(&ALL, 640, 400, 30, true, &knobs()).unwrap();
    assert_eq!(
        streams_of_stereo(&pair, all),
        Streams { stereo: true, rgb: false, depth: false, video: true, imu: true }
    );
    assert!(!streams_of_stereo(&pair, none).video);
    let bare = plan_stereo(&ALL, 640, 400, 30, false, &knobs()).unwrap();
    assert!(!streams_of_stereo(&bare, all).video);
    assert!(streams_of_stereo(&bare, none).stereo);
}

#[test]
fn every_build_step_has_its_error() {
    let b = Build { first: BuildStep::Decoupled, imu: true, ir: true };
    let cases = [
        (BuildStep::ColourCamera, "colour camera: boom"),
        (
            BuildStep::Encoder,
            "H.264 encoder unavailable and this device cannot produce depth (boom) — nothing left \
             to stream",
        ),
        (BuildStep::Decoupled, "build RGBD graph: boom"),
        (BuildStep::StereoPair, "boom"),
        (BuildStep::ImuNode, "IMU node: boom"),
        (BuildStep::Start, "pipeline start: boom"),
        (BuildStep::IrProjector, "IR dot projector: boom"),
    ];
    for (step, text) in cases {
        assert_eq!(b.next(step, Err("boom".to_string())), OpenAction::Fail(text.to_string()));
    }
    assert_eq!(Modality::Stereo.failure("x"), "open_stereo failed: x");
    assert_eq!(Modality::Rgbd.failure("x"), "open_rgbd failed: x");
    assert_eq!(Modality::RgbdVideo.failure("x"), "open_rgbd_video failed: x");
}

fn info(name: &str, id: &str, state: DeviceState) -> DeviceInfo {
    DeviceInfo { name: name.to_string(), device_id: id.to_string(), state }
}

#[test]
fn only_a_wedged_device_is_kicked() {
    let infos = [
        info("10.0.0.1", "A", DeviceState::Healthy),
        info("10.0.0.2", "B", DeviceState::Bootloader),
        info("10.0.0.3", "C", DeviceState::Bootloader),
    ];
    assert_eq!(kick_wedged_oak(&infos, None), Some(1));
    assert_eq!(kick_wedged_oak(&infos, Some("")), Some(1));
    assert_eq!(kick_wedged_oak(&infos, Some("C")), Some(2));
    assert_eq!(kick_wedged_oak(&infos, Some("10.0.0.3")), Some(2));
    assert_eq!(kick_wedged_oak(&infos, Some("A")), None);
    assert_eq!(kick_wedged_oak(&infos, Some("nobody")), None);
    assert_eq!(kick_wedged_oak(&infos[..1], None), None);
    assert_eq!(kick_wedged_oak(&[], None), None);
}
