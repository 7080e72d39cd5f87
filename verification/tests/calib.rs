use sensor_rt::calib::{
    eye, imu_extrinsic, pinhole, read_imu_rotation, read_intrinsics, read_stereo_calib, rotation_block,
    stereo_extrinsic, translation, CameraModel, ExtrinsicRequest, LengthUnit, OakCameraCalib, OakCameraModel, OakIntrinsics, StereoCalibError,
    StereoReads,
};
use sensor_rt::graph::CameraBoardSocket;
use sensor_rt::ieee::{Float32, Float64};
use sensor_rt::open::Modality;

fn f32b(v: f32) -> Float32 {
    Float32 { bits: v.to_bits() }
}

fn f64b(v: f64) -> Float64 {
    Float64 { bits: v.to_bits() }
}

fn num(v: Float64) -> f64 {
    f64::from_bits(v.bits)
}

fn blank_eye() -> OakCameraCalib {
    OakCameraCalib {
        fx: f64b(440.0),
        fy: f64b(440.0),
        cx: f64b(320.0),
        cy: f64b(200.0),
        dist: [f64b(0.0); 14],
        n_dist: 14,
        model: OakCameraModel::Perspective,
    }
}

#[test]
fn brown_conrady_gate_rejects_prism_and_tilt() {
    let mut c = blank_eye();
    c.dist[2] = f64b(1e-3); // p1: representable
    assert!(c.is_brown_conrady());
    c.dist[8] = f64b(1e-6); // s1: thin prism, not representable
    assert!(!c.is_brown_conrady());

    c.dist[8] = f64b(0.0);
    c.model = OakCameraModel::Fisheye;
    assert!(!c.is_brown_conrady());
}

#[test]
fn brown_conrady_reads_every_prism_and_tilt_term() {
    for i in 0..14 {
        let mut c = blank_eye();
        c.dist[i] = f64b(-0.0);
        assert!(c.is_brown_conrady());
        c.dist[i] = f64b(f64::NAN);
        assert_eq!(c.is_brown_conrady(), i < 8);
    }
}

#[test]
fn camera_model_maps_unknowns_to_other() {
    assert_eq!(
        OakCameraModel::from_depthai(CameraModel::Perspective),
        OakCameraModel::Perspective
    );
    assert_eq!(
        OakCameraModel::from_depthai(CameraModel::Fisheye),
        OakCameraModel::Fisheye
    );
    assert_eq!(
        OakCameraModel::from_depthai(CameraModel::Equirectangular),
        OakCameraModel::Other(2)
    );
    assert_eq!(
        OakCameraModel::from_depthai(CameraModel::Unknown(-7)),
        OakCameraModel::Other(-7)
    );
    assert_eq!(CameraModel::Perspective.to_raw(), 0);
    assert_eq!(CameraModel::Fisheye.to_raw(), 1);
}

#[test]
fn pinhole_terms_sit_on_the_diagonal_and_in_the_last_column() {
    let k = [
        [f32b(800.0), f32b(1.0), f32b(320.5)],
        [f32b(2.0), f32b(801.0), f32b(200.5)],
        [f32b(3.0), f32b(4.0), f32b(1.0)],
    ];
    let p = pinhole(&k);
    assert_eq!(p.fx, f32b(800.0));
    assert_eq!(p.fy, f32b(801.0));
    assert_eq!(p.cx, f32b(320.5));
    assert_eq!(p.cy, f32b(200.5));
    let q = read_intrinsics(Some(k));
    assert_eq!((q.fx, q.fy, q.cx, q.cy), (p.fx, p.fy, p.cx, p.cy));
    let none = read_intrinsics(None);
    let zero = OakIntrinsics::default();
    assert_eq!((none.fx, none.fy, none.cx, none.cy), (zero.fx, zero.fy, zero.cx, zero.cy));
    assert_eq!(none.fx, f32b(0.0));
}

#[test]
fn an_eye_keeps_fourteen_coefficients() {
    let k = [
        [f64b(440.0), f64b(0.0), f64b(320.0)],
        [f64b(0.0), f64b(441.0), f64b(200.0)],
        [f64b(0.0), f64b(0.0), f64b(1.0)],
    ];
    let few: Vec<Float64> = (1..=5).map(|i| f64b(i as f64)).collect();
    let e = eye(&k, &few, CameraModel::Perspective);
    assert_eq!((num(e.fx), num(e.fy), num(e.cx), num(e.cy)), (440.0, 441.0, 320.0, 200.0));
    assert_eq!(e.n_dist, 5);
    assert_eq!(num(e.dist[4]), 5.0);
    assert_eq!(num(e.dist[5]), 0.0);
    assert!(e.is_brown_conrady());

    let many: Vec<Float64> = (1..=16).map(|i| f64b(i as f64)).collect();
    let e = eye(&k, &many, CameraModel::Unknown(9));
    assert_eq!(e.n_dist, 14);
    assert_eq!(num(e.dist[13]), 14.0);
    assert_eq!(e.model, OakCameraModel::Other(9));

    assert_eq!(eye(&k, &[], CameraModel::Fisheye).n_dist, 0);
}

fn reads(baseline: f64) -> StereoReads {
    let mut extrinsic = [[f64b(0.0); 4]; 4];
    for (i, row) in extrinsic.iter_mut().enumerate() {
        for (j, v) in row.iter_mut().enumerate() {
            *v = f64b((10 * i + j) as f64);
        }
    }
    StereoReads {
        left: blank_eye(),
        right: OakCameraCalib { fx: f64b(450.0), ..blank_eye() },
        extrinsic,
        baseline_m: f64b(baseline),
    }
}

#[test]
fn stereo_calibration_is_assembled_from_what_was_read() {
    let c = read_stereo_calib(Ok(reads(0.075)), 640, 400).unwrap();
    assert_eq!((c.width, c.height), (640, 400));
    assert_eq!(num(c.left.fx), 440.0);
    assert_eq!(num(c.right.fx), 450.0);
    assert_eq!(c.r_left_right.map(|r| r.map(num)), [
        [0.0, 1.0, 2.0],
        [10.0, 11.0, 12.0],
        [20.0, 21.0, 22.0]
    ]);
    assert_eq!(c.t_left_right.map(num), [3.0, 13.0, 23.0]);
    assert_eq!(num(c.baseline_m), 0.075);
    assert_eq!(translation(&reads(1.0).extrinsic).map(num), [3.0, 13.0, 23.0]);
}

#[test]
fn a_blank_extrinsic_is_an_error() {
    for blank in [0.0, -0.0, -1.0, f64::NEG_INFINITY] {
        assert_eq!(
            read_stereo_calib(Ok(reads(blank)), 640, 400).unwrap_err(),
            StereoCalibError::ZeroBaseline
        );
    }
    // The comparison is an ordinary one: a NaN is not at most zero.
    assert!(read_stereo_calib(Ok(reads(f64::NAN)), 640, 400).is_ok());
    assert_eq!(
        read_stereo_calib(Err("no EEPROM".to_string()), 1, 1).unwrap_err(),
        StereoCalibError::Unreadable("no EEPROM".to_string())
    );
}

#[test]
fn a_baseline_needs_a_translation() {
    let mut still = reads(0.075);
    for row in 0..3 {
        still.extrinsic[row][3] = f64b(-0.0);
    }
    assert_eq!(
        read_stereo_calib(Ok(still), 640, 400).unwrap_err(),
        StereoCalibError::ZeroBaseline
    );
    still.extrinsic[1][3] = f64b(0.075);
    assert!(read_stereo_calib(Ok(still), 640, 400).is_ok());
}

#[test]
fn extrinsics_are_the_calibrated_ones_in_metres() {
    assert_eq!(
        stereo_extrinsic(),
        ExtrinsicRequest {
            from: Some(CameraBoardSocket::CamB),
            to: CameraBoardSocket::CamC,
            spec_translation: false,
            unit: LengthUnit::Meter,
        }
    );
    let imu = imu_extrinsic(Modality::Stereo.reference());
    assert_eq!((imu.from, imu.to), (None, CameraBoardSocket::CamB));
    assert!(!imu.spec_translation);
    assert_eq!(imu.unit, LengthUnit::Meter);
    assert_eq!(Modality::Rgbd.reference(), CameraBoardSocket::CamA);
    assert_eq!(Modality::RgbdVideo.reference(), CameraBoardSocket::CamA);
}

#[test]
fn only_a_stereo_device_has_a_stereo_calibration() {
    for m in [Modality::Rgbd, Modality::RgbdVideo] {
        assert_eq!(
            m.stereo_calib(Ok(reads(0.075)), 640, 400).unwrap_err(),
            StereoCalibError::NotStereo
        );
    }
    let c = Modality::Stereo.stereo_calib(Ok(reads(0.075)), 640, 400).unwrap();
    assert!(c == read_stereo_calib(Ok(reads(0.075)), 640, 400).unwrap());
    assert_eq!(
        Modality::Stereo.stereo_calib(Err("torn".to_string()), 1, 1).unwrap_err(),
        StereoCalibError::Unreadable("torn".to_string())
    );
}

#[test]
fn calibrations_are_equal_as_numbers() {
    let c = read_stereo_calib(Ok(reads(0.075)), 640, 400).unwrap();
    let mut d = c;
    d.r_left_right[0][0] = f64b(-0.0);
    assert!(c == d);
    d.r_left_right[2][1] = f64b(1.5);
    assert!(c != d);
    let mut d = c;
    d.left.dist[13] = f64b(f64::NAN);
    assert!(d != d);
    assert!(d.left != c.left && d.right == c.right);
    let i = OakIntrinsics::default();
    assert!(i == OakIntrinsics { cx: f32b(-0.0), ..i });
    assert!(i != OakIntrinsics { cy: f32b(1.0), ..i });
}

#[test]
fn stereo_calibration_errors_in_words() {
    assert_eq!(
        StereoCalibError::NotStereo.message(),
        "not a stereo device (opened with open_rgbd)"
    );
    assert_eq!(
        StereoCalibError::Unreadable("x".to_string()).message(),
        "stereo calibration unavailable: x"
    );
    assert_eq!(
        StereoCalibError::ZeroBaseline.message(),
        "stereo calibration has a zero baseline (extrinsic present but blank)"
    );
}

#[test]
fn imu_rotation_is_the_leading_block() {
    let mut t = [[f32b(9.0); 4]; 4];
    let turn = [0.0f32, -1.0, 0.0, 1.0, 0.0, 0.0, 0.0, 0.0, 1.0];
    for (i, v) in turn.iter().enumerate() {
        t[i / 3][i % 3] = f32b(*v);
    }
    let block = rotation_block(&t);
    assert_eq!(block, turn.map(f32b));
    assert_eq!(read_imu_rotation(Ok((block, f32b(1.0), f32b(0.0)))), Ok(block));
    assert_eq!(
        read_imu_rotation(Ok((block, f32b(-1.0), f32b(0.0)))),
        Err("determinant <= 0: a reflection, not a rotation".to_string())
    );
    assert_eq!(read_imu_rotation(Err("absent".to_string())), Err("absent".to_string()));
}
