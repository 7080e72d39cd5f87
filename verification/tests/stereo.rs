use sensor_rt::calib::{OakIntrinsics, StereoCalibError};
use sensor_rt::frame::ImgFrame;
use sensor_rt::graph::{
    plan_h264, CameraBoardSocket, ImgFrameType, ImgResizeMode, OutputRequest,
};
use sensor_rt::ieee::Float32;
use sensor_rt::imu::{ImuPacket, ImuVecReport, RawTimestamp};
use sensor_rt::policy::{EpochOffset, KnobVars, Knobs};
use sensor_rt::source::{GateCommand, OakSource, PollLatch, StereoNext, Streams, Which};
use sensor_rt::stamp::FrameMeta;
use sensor_rt::stereo::{
    check_tight_gray8, judge_poll, plan_stereo, EyeFault, OakStereoFrame, StereoPoll, StereoWait,
    VideoPlan, MAX_WAIT_NS, POLL_NS,
};

fn knobs() -> Knobs {
    let vars = KnobVars {
        usb_speed: None,
        h264_kbps: None,
        depth_fps: None,
        rgb_fps: None,
        depth_div: None,
        subpixel: None,
        video_gated: None,
    };
    Knobs::from_vars(&vars, None)
}

const ALL: [CameraBoardSocket; 3] =
    [CameraBoardSocket::CamA, CameraBoardSocket::CamB, CameraBoardSocket::CamC];

fn frame(width: u32, height: u32, stride: u32, data: &[u8]) -> ImgFrame<'_> {
    ImgFrame { width, height, stride, timestamp_ns: 1_000, data }
}

#[test]
fn a_stereo_plan_needs_both_eyes() {
    let plan = plan_stereo(&ALL, 640, 400, 30, true, &knobs()).unwrap();
    assert_eq!((plan.fps, plan.queue_depth), (30, 4));
    assert_eq!(plan.sync_threshold_ns, 16_666_666);
    for (eye, socket) in
        [(plan.left, CameraBoardSocket::CamB), (plan.right, CameraBoardSocket::CamC)]
    {
        assert_eq!(
            eye,
            OutputRequest {
                socket,
                width: 640,
                height: 400,
                format: Some(ImgFrameType::Gray8),
                resize: ImgResizeMode::Crop,
                fps: 30,
                undistort: Some(false),
            }
        );
    }
    assert_eq!(plan.video, VideoPlan::Encode(plan_h264(640, 400, 30, &knobs())));
    assert_eq!(plan_stereo(&ALL, 640, 400, 30, false, &knobs()).unwrap().video, VideoPlan::Off);
    assert_eq!(
        plan_stereo(&ALL[1..], 640, 400, 30, true, &knobs()).unwrap().video,
        VideoPlan::NoColourCamera
    );
    for cams in [&ALL[..2], &ALL[..1], &[], &[ALL[2]]] {
        assert_eq!(
            plan_stereo(cams, 640, 400, 30, false, &knobs()),
            Err("device has no stereo pair (CAM_B/CAM_C) — open_stereo needs both")
        );
    }
}

#[test]
fn the_threshold_is_half_a_frame() {
    for fps in [0u32, 1, 7, 30, 60, 999, u32::MAX] {
        let plan = plan_stereo(&ALL, 640, 400, fps, false, &knobs()).unwrap();
        assert!(2 * plan.sync_threshold_ns as u128 * plan.fps as u128 <= 1_000_000_000);
    }
    assert_eq!(plan_stereo(&ALL, 1, 1, 0, false, &knobs()).unwrap().fps, 30);
}

#[test]
fn a_pair_is_tight_and_of_one_size() {
    let six = [0u8; 6];
    assert_eq!(check_tight_gray8(&frame(3, 2, 0, &six), &frame(3, 2, 3, &six)), Ok((3, 2)));
    let faults = [
        (frame(0, 2, 0, &six), frame(0, 2, 0, &six), "degenerate frame"),
        (frame(3, 0, 0, &six), frame(3, 2, 0, &six), "degenerate frame"),
        (frame(3, 2, 0, &six), frame(2, 3, 0, &six), "eyes differ in size"),
        (
            frame(3, 2, 4, &six),
            frame(3, 2, 5, &six),
            "left eye is not tightly packed GRAY8 (stride 4 != w 3)",
        ),
        (
            frame(3, 2, 3, &six),
            frame(3, 2, 64, &six),
            "right eye is not tightly packed GRAY8 (stride 64 != w 3)",
        ),
        (frame(3, 2, 0, &six[..5]), frame(3, 2, 0, &six), "left eye buffer is shorter than w*h"),
        (frame(3, 2, 0, &six), frame(3, 2, 0, &six[..5]), "right eye buffer is shorter than w*h"),
        (
            frame(u32::MAX, u32::MAX, 0, &six),
            frame(u32::MAX, u32::MAX, 0, &six),
            "left eye buffer is shorter than w*h",
        ),
    ];
    for (l, r, text) in faults {
        assert_eq!(check_tight_gray8(&l, &r).unwrap_err().message(), text);
    }
}

#[test]
fn five_seconds_without_a_pair_end_the_stream() {
    let mut waited_ns = 0;
    for n in 1..5 {
        assert_eq!(
            judge_poll(waited_ns, 3, &StereoPoll::Empty),
            StereoWait::Again { waited_ns: n * POLL_NS }
        );
        waited_ns = n * POLL_NS;
    }
    assert_eq!(judge_poll(waited_ns, 0, &StereoPoll::Empty), StereoWait::End);
    assert_eq!(judge_poll(u64::MAX, 0, &StereoPoll::Empty), StereoWait::End);
    assert_eq!(judge_poll(0, 0, &StereoPoll::Failed), StereoWait::End);
    assert_eq!(judge_poll(0, 0, &StereoPoll::NoEye), StereoWait::End);
    let one = [0u8; 1];
    let mixed = StereoPoll::Pair(frame(1, 1, 0, &one), frame(1, 2, 0, &one));
    assert_eq!(judge_poll(0, 0, &mixed), StereoWait::Unusable(EyeFault::SizesDiffer));
    let good = StereoPoll::Pair(frame(1, 1, 0, &one), frame(1, 1, 0, &one));
    assert_eq!(
        judge_poll(waited_ns, u64::MAX, &good),
        StereoWait::Deliver { width: 1, height: 1 }
    );
}

#[test]
fn pairs_without_pixels_are_skipped() {
    let none = [0u8; 0];
    let one = [9u8; 1];
    let blank = StereoPoll::Pair(frame(0, 2, 0, &none), frame(0, 2, 0, &none));
    let good = StereoPoll::Pair(frame(1, 1, 0, &one), frame(1, 1, 0, &one));
    let mut full = source(EVERYTHING);
    let mut waited_ns = 0;
    // Far more than five of them, in less than a second.
    for n in 1..=20 {
        match full.next_stereo(waited_ns, 33_000_000, &blank, &mut EpochOffset::new(), 0) {
            StereoNext::Again { waited_ns: more } => waited_ns = more,
            _ => panic!("ended"),
        }
        assert_eq!(waited_ns, n * 33_000_000);
    }
    match full.next_stereo(waited_ns, 33_000_000, &good, &mut EpochOffset::new(), 0) {
        StereoNext::Frame(pair) => {
            assert_eq!(pair.left(), &one);
            assert_eq!(pair.meta().seq, 1);
        }
        _ => panic!("no pair"),
    }
    // But an endless row of them ends too.
    assert_eq!(judge_poll(MAX_WAIT_NS - 1, 1, &blank), StereoWait::End);
    assert_eq!(judge_poll(0, u64::MAX, &blank), StereoWait::End);
    assert_eq!(
        judge_poll(MAX_WAIT_NS - 1, 0, &blank),
        StereoWait::Again { waited_ns: MAX_WAIT_NS - 1 }
    );
}

#[test]
fn an_eye_becomes_an_image() {
    let l = [1u8, 2, 3, 4, 5, 6, 99];
    let r = [11u8, 12, 13, 14, 15, 16];
    let meta = FrameMeta { seq: 3, pts_ns: Some(8), source_id: None };
    let pair = OakStereoFrame::new(&frame(3, 2, 0, &l), &frame(3, 2, 3, &r), meta);
    assert_eq!((pair.width(), pair.height()), (3, 2));
    assert_eq!(pair.left(), &l[..6]);
    assert_eq!(pair.right(), &r);
    assert_eq!(*pair.meta(), meta);
    let layout = pair.eye_layout();
    assert_eq!((layout.shape, layout.strides, layout.len), ([2, 3, 1], [3, 1, 1], 6));
    assert_eq!(pair.left()[layout.strides[0] + 2 * layout.strides[1]], 6);
    let left = pair.left_image().ok().unwrap();
    let right = pair.right_image().ok().unwrap();
    drop(pair);
    let (left, right) = (left.as_image(), right.as_image());
    assert_eq!(left.as_slice(), &l[..6]);
    assert_eq!(right.as_slice(), &r);
    assert_eq!((left.size().width, left.size().height), (3, 2));
    assert_eq!((right.size().width, right.size().height), (3, 2));
    assert_eq!(left.get_pixel(1, 1, 0).unwrap(), &5);
}

fn source(streams: Streams) -> OakSource {
    source_with(streams, StereoCalibError::NotStereo)
}

fn source_with(streams: Streams, fault: StereoCalibError) -> OakSource {
    let turn = [0.0f32, -1.0, 0.0, 1.0, 0.0, 0.0, 0.0, 0.0, 1.0]
        .map(|v| Float32 { bits: v.to_bits() });
    OakSource::from_parts(
        640,
        360,
        streams,
        OakIntrinsics::default(),
        Some(turn),
        Err(fault),
    )
}

const EVERYTHING: Streams =
    Streams { stereo: true, rgb: true, depth: true, video: true, imu: true };

const NOTHING: Streams =
    Streams { stereo: false, rgb: false, depth: false, video: false, imu: false };

#[test]
fn a_source_tells_what_it_has() {
    let full = source(EVERYTHING);
    assert!(full.has_imu() && full.imu_aligned() && full.has_depth());
    assert!(full.has_video() && full.has_sync());
    assert_eq!((full.width(), full.height()), (640, 360));
    assert_eq!(full.intrinsics().fx.bits, 0);
    assert_eq!(full.stereo_calib().unwrap_err(), StereoCalibError::NotStereo);
    let bare = source(NOTHING);
    assert!(!bare.has_imu() && !bare.imu_aligned() && !bare.has_depth());
    assert!(!bare.has_video() && !bare.has_sync());
    assert_eq!(bare.imu_rotation(), None);
    assert_eq!(full.imu_rotation().unwrap()[3].bits, 1.0f32.to_bits());
    assert_eq!((full.seq(), full.imu_pending_len(), full.imu_skip_count()), (0, 0, 0));
    for fault in
        [StereoCalibError::Unreadable("torn".to_string()), StereoCalibError::ZeroBaseline]
    {
        let blank = source_with(NOTHING, fault.clone());
        assert_eq!(blank.stereo_calib().unwrap_err(), fault);
    }
}

#[test]
fn the_gate_takes_commands_where_there_is_video() {
    let full = source(EVERYTHING);
    assert_eq!(full.set_video_streaming(true), Ok(GateCommand::Switch { open: true }));
    assert_eq!(full.set_video_streaming(false), Ok(GateCommand::Switch { open: false }));
    assert_eq!(full.video_burst(5, Some(2)), Ok(GateCommand::Burst { frames: 5, fps: Some(2) }));
    let bare = source(NOTHING);
    assert_eq!(bare.set_video_streaming(true), Err("this source has no H.264 stream"));
    assert_eq!(bare.video_burst(1, None), Err("this source has no H.264 stream"));
}

#[test]
fn a_failing_queue_is_reported_once() {
    let mut latch = PollLatch::new();
    let queues = [Which::Stereo, Which::Rgb, Which::Depth, Which::Video, Which::Imu];
    for q in queues {
        assert!(latch.poll_failed(q));
        assert!(!latch.poll_failed(q));
    }
    for q in queues {
        assert!(!latch.poll_failed(q));
    }
    let mut full = source(EVERYTHING);
    assert!(full.poll_failed(Which::Video));
    assert!(!full.poll_failed(Which::Video));
    assert!(full.poll_failed(Which::Rgb));
    assert_eq!(queues.map(|q| q.name()), ["stereo", "rgb", "depth", "video", "IMU"]);
}

#[test]
fn colour_frames_are_packed() {
    let full = source(EVERYTHING);
    let data = [1u8, 2, 3, 4, 5, 6, 0xee, 0xee, 7, 8, 9, 10, 11, 12];
    assert_eq!(
        full.next_rgb(Some(frame(2, 2, 8, &data)), &mut EpochOffset::new(), 500),
        Some(((1..=12).collect(), 2, 2, 1_500))
    );
    assert_eq!(full.next_rgb(Some(frame(2, 2, 8, &data[..13])), &mut EpochOffset::new(), 0), None);
    assert_eq!(full.next_rgb(Some(frame(u32::MAX, 1, 0, &data)), &mut EpochOffset::new(), 0), None);
    assert_eq!(full.next_rgb(Some(frame(0, 2, 0, &data)), &mut EpochOffset::new(), 0), None);
    assert_eq!(full.next_rgb(None, &mut EpochOffset::new(), 0), None);
    assert_eq!(source(NOTHING).next_rgb(Some(frame(2, 2, 8, &data)), &mut EpochOffset::new(), 0), None);
}

#[test]
fn depth_frames_are_packed() {
    let full = source(EVERYTHING);
    let data = [1u8, 0, 2, 0, 0xee, 3, 0, 0, 1];
    assert_eq!(
        full.next_depth(Some(frame(2, 2, 5, &data)), &mut EpochOffset::new(), -400),
        Some((vec![1, 2, 3, 256], 2, 2, 600))
    );
    assert_eq!(full.next_depth(Some(frame(2, 2, 5, &data[..8])), &mut EpochOffset::new(), 0), None);
    assert_eq!(full.next_depth(None, &mut EpochOffset::new(), 0), None);
    assert_eq!(source(NOTHING).next_depth(Some(frame(2, 2, 5, &data)), &mut EpochOffset::new(), 0), None);
}

#[test]
fn encoded_frames_are_copied() {
    let full = source(EVERYTHING);
    let data = [0u8, 0, 1, 0x65];
    assert_eq!(
        full.next_video(Some(frame(640, 360, 0, &data)), &mut EpochOffset::new(), 1),
        Some((data.to_vec(), 1_001))
    );
    assert_eq!(full.next_video(Some(frame(640, 360, 0, &[])), &mut EpochOffset::new(), 1), None);
    assert_eq!(full.next_video(None, &mut EpochOffset::new(), 1), None);
    assert_eq!(source(NOTHING).next_video(Some(frame(1, 1, 0, &data)), &mut EpochOffset::new(), 1), None);
}

#[test]
fn all_frames_share_one_clock() {
    let mut full = source(EVERYTHING);
    let mut clock = EpochOffset::new();
    let data = [1u8; 3];
    // A frame that is skipped does not set the clock.
    assert!(full.next_rgb(Some(frame(1, 2, 0, &data)), &mut clock, 77).is_none());
    assert_eq!(full.next_rgb(Some(frame(1, 1, 0, &data)), &mut clock, 500).unwrap().3, 1_500);
    assert_eq!(full.next_depth(Some(frame(1, 1, 0, &data)), &mut clock, 900).unwrap().3, 1_500);
    assert_eq!(full.next_video(Some(frame(1, 1, 0, &data)), &mut clock, 0).unwrap().1, 1_500);
    let pair = StereoPoll::Pair(frame(1, 1, 0, &data), frame(1, 1, 0, &data));
    match full.next_stereo(0, 0, &pair, &mut clock, -1) {
        StereoNext::Frame(f) => assert_eq!(f.meta().pts_ns, Some(1_500)),
        _ => panic!("no pair"),
    }
}

#[test]
fn inertial_samples_flow_where_there_is_an_imu() {
    let mut out = Vec::new();
    assert!(source(NOTHING).next_imu(&mut out, 4).is_none());
    let mut full = source(EVERYTHING);
    let report = ImuVecReport {
        xyz: [Float32 { bits: 0 }; 3],
        turned: [Float32 { bits: 7 }; 3],
        timestamp: RawTimestamp { sec: 1, nsec: 2 },
    };
    let packet = ImuPacket { accelerometer: report, gyroscope: report };
    let mut drain = full.next_imu(&mut out, 1).unwrap();
    full.absorb_imu(&mut drain, &[packet, packet], 10, &mut out);
    assert_eq!(full.end_imu(drain), (1, None));
    assert_eq!(full.imu_pending_len(), 1);
    let drain = full.next_imu(&mut out, 4).unwrap();
    assert_eq!(full.end_imu(drain), (1, None));
    assert_eq!(out.len(), 2);
    assert_eq!(out[1].ts_ns, 1_000_000_012);
    // The source has a rotation, so its samples are in the frame of the camera.
    assert_eq!((out[0].accel[2].bits, out[0].gyro[0].bits), (7, 7));
}

#[test]
fn pairs_are_numbered_and_stamped() {
    let mut full = source(EVERYTHING);
    let l = [1u8, 2];
    let r = [3u8, 4];
    let left = ImgFrame { timestamp_ns: 40, ..frame(2, 1, 0, &l) };
    let right = ImgFrame { timestamp_ns: 41, ..frame(2, 1, 0, &r) };
    for n in 1..4 {
        match full.next_stereo(0, 5, &StereoPoll::Pair(left, right), &mut EpochOffset::new(), 1_000) {
            StereoNext::Frame(pair) => {
                assert_eq!(
                    *pair.meta(),
                    FrameMeta { seq: n, pts_ns: Some(1_040), source_id: None }
                );
                assert_eq!((pair.left(), pair.right()), (&l[..], &r[..]));
            }
            _ => panic!("no pair"),
        }
    }
    assert!(matches!(
        full.next_stereo(2 * POLL_NS, 0, &StereoPoll::Empty, &mut EpochOffset::new(), 0),
        StereoNext::Again { waited_ns: 3_000_000_000 }
    ));
    assert!(matches!(
        full.next_stereo(4 * POLL_NS, 0, &StereoPoll::Empty, &mut EpochOffset::new(), 0),
        StereoNext::End(None)
    ));
    let short = ImgFrame { data: &r[..1], ..right };
    assert!(matches!(
        full.next_stereo(0, 5, &StereoPoll::Pair(left, short), &mut EpochOffset::new(), 0),
        StereoNext::End(Some(EyeFault::Short { right: true }))
    ));
    assert_eq!(full.seq(), 3);
    assert!(matches!(
        source(NOTHING).next_stereo(0, 5, &StereoPoll::Pair(left, right), &mut EpochOffset::new(), 0),
        StereoNext::End(None)
    ));
}
