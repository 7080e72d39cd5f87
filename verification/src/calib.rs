//! Factory calibration: lens models, intrinsics, the stereo pair, the IMU rotation.
//!
//! Numbers are bit patterns here (see [`crate::ieee`]). Two conventions hold of every stereo
//! calibration: the translation is the calibrated one, not the board-design one, and it is in
//! metres.

use crate::graph::CameraBoardSocket;
use crate::ieee::{all_equal64, all_same64, Float32, Float64};
use crate::policy::validate_rotation;
use vstd::array::array_as_slice;
use vstd::prelude::*;
use vstd::std_specs::cmp::{PartialEqSpec, PartialEqSpecImpl};
use vstd::string::*;

verus! {

/// Why a stereo calibration is not available.
#[derive(Debug, Clone, PartialEq, Eq)]
pub enum StereoCalibError {
    /// The device was not opened for stereo.
    NotStereo,
    /// The calibration could not be read.
    Unreadable(String),
    /// The extrinsic is there but blank.
    ZeroBaseline,
}

impl StereoCalibError {
    /// The error in words.
    pub open spec fn text(self) -> Seq<char> {
        match self {
            StereoCalibError::NotStereo => "not a stereo device (opened with open_rgbd)"@,
            StereoCalibError::Unreadable(why) => "stereo calibration unavailable: "@ + why@,
            StereoCalibError::ZeroBaseline =>
                "stereo calibration has a zero baseline (extrinsic present but blank)"@,
        }
    }

    /// The error in words.
    pub fn message(&self) -> (r: String)
        ensures
            r@ == self.text(),
            self is NotStereo ==> r@ == "not a stereo device (opened with open_rgbd)"@,
            self matches StereoCalibError::Unreadable(why) ==> r@
                == "stereo calibration unavailable: "@ + why@,
            self is ZeroBaseline ==> r@
                == "stereo calibration has a zero baseline (extrinsic present but blank)"@,
    {
        match self {
            StereoCalibError::NotStereo => String::from_str(
                "not a stereo device (opened with open_rgbd)",
            ),
            StereoCalibError::Unreadable(why) => {
                let mut r: String = String::from_str("stereo calibration unavailable: ");
                r.append(why.as_str());
                r
            },
            StereoCalibError::ZeroBaseline => String::from_str(
                "stereo calibration has a zero baseline (extrinsic present but blank)",
            ),
        }
    }
}

/// The lens model that a device reports.
#[derive(Debug, Clone, Copy, PartialEq, Eq, Structural)]
pub enum CameraModel {
    Perspective,
    Fisheye,
    Equirectangular,
    /// Any other model, by its number.
    Unknown(i32),
}

impl CameraModel {
    /// The number of the model.
    pub open spec fn raw(self) -> i32 {
        match self {
            CameraModel::Perspective => 0,
            CameraModel::Fisheye => 1,
            CameraModel::Equirectangular => 2,
            CameraModel::Unknown(n) => n,
        }
    }

    /// The number of the model.
    pub fn to_raw(self) -> (r: i32)
        ensures
            r == self.raw(),
    {
        match self {
            CameraModel::Perspective => 0,
            CameraModel::Fisheye => 1,
            CameraModel::Equirectangular => 2,
            CameraModel::Unknown(n) => n,
        }
    }
}

/// Lens model that a calibration was fitted with.
#[derive(Debug, Clone, Copy, PartialEq, Eq, Structural)]
pub enum OakCameraModel {
    /// Brown-Conrady pinhole, the only model that a rectifier with polynomial distortion can
    /// use.
    Perspective,
    /// Fisheye.
    Fisheye,
    /// A model that this crate does not know, carried through as its number so that a
    /// consumer can refuse it rather than mistake it for a pinhole.
    Other(i32),
}

impl OakCameraModel {
    /// The model of a calibration, from what the device reports.
    pub open spec fn of(m: CameraModel) -> OakCameraModel {
        match m {
            CameraModel::Perspective => OakCameraModel::Perspective,
            CameraModel::Fisheye => OakCameraModel::Fisheye,
            other => OakCameraModel::Other(other.raw()),
        }
    }

    /// The model of a calibration, from what the device reports.
    pub fn from_depthai(m: CameraModel) -> (r: Self)
        ensures
            r == OakCameraModel::of(m),
    {
        match m {
            CameraModel::Perspective => OakCameraModel::Perspective,
            CameraModel::Fisheye => OakCameraModel::Fisheye,
            other => OakCameraModel::Other(other.to_raw()),
        }
    }
}

/// Pinhole intrinsics of a camera, in pixels, at the requested resolution.
///
/// A wiped calibration yields all zeros without an error, so check for a positive `fx`.
#[derive(Debug, Clone, Copy)]
pub struct OakIntrinsics {
    pub fx: Float32,
    pub fy: Float32,
    pub cx: Float32,
    pub cy: Float32,
}

impl Default for OakIntrinsics {
    /// All zeros.
    fn default() -> (r: Self)
        ensures
            r.fx.bits == 0,
            r.fy.bits == 0,
            r.cx.bits == 0,
            r.cy.bits == 0,
    {
        OakIntrinsics {
            fx: Float32::zero(),
            fy: Float32::zero(),
            cx: Float32::zero(),
            cy: Float32::zero(),
        }
    }
}

impl PartialEq for OakIntrinsics {
    /// Numerically equal.
    fn eq(&self, other: &Self) -> (r: bool) {
        self.fx.equals(other.fx) && self.fy.equals(other.fy) && self.cx.equals(other.cx)
            && self.cy.equals(other.cy)
    }
}

impl PartialEqSpecImpl for OakIntrinsics {
    open spec fn obeys_eq_spec() -> bool {
        true
    }

    open spec fn eq_spec(&self, other: &Self) -> bool {
        self.fx.same(other.fx) && self.fy.same(other.fy) && self.cx.same(other.cx)
            && self.cy.same(other.cy)
    }
}

/// Pinhole terms of a 3x3 camera matrix.
pub fn pinhole(k: &[[Float32; 3]; 3]) -> (r: OakIntrinsics)
    ensures
        r.fx == k@[0]@[0],
        r.fy == k@[1]@[1],
        r.cx == k@[0]@[2],
        r.cy == k@[1]@[2],
{
    OakIntrinsics { fx: k[0][0], fy: k[1][1], cx: k[0][2], cy: k[1][2] }
}

/// The intrinsics of a camera from its matrix; zeros where the matrix could not be read,
/// which is good enough for viewing.
pub fn read_intrinsics(k: Option<[[Float32; 3]; 3]>) -> (r: OakIntrinsics)
    ensures
        k matches Some(m) ==> r == (OakIntrinsics {
            fx: m@[0]@[0],
            fy: m@[1]@[1],
            cx: m@[0]@[2],
            cy: m@[1]@[2],
        }),
        k is None ==> r == (OakIntrinsics {
            fx: Float32 { bits: 0 },
            fy: Float32 { bits: 0 },
            cx: Float32 { bits: 0 },
            cy: Float32 { bits: 0 },
        }),
{
    match k {
        Some(m) => pinhole(&m),
        None => OakIntrinsics::default(),
    }
}

/// How many distortion coefficients a calibration has room for.
pub const MAX_DIST: usize = 14;

/// The place of the first coefficient that a plain Brown-Conrady model lacks.
pub const FIRST_PRISM_TERM: usize = 8;

/// One eye's factory calibration at the streamed resolution.
#[derive(Debug, Clone, Copy)]
pub struct OakCameraCalib {
    /// Focal length x, pixels.
    pub fx: Float64,
    /// Focal length y, pixels.
    pub fy: Float64,
    /// Principal point x, pixels.
    pub cx: Float64,
    /// Principal point y, pixels.
    pub cy: Float64,
    /// Distortion coefficients in OpenCV order:
    /// `[k1, k2, p1, p2, k3, k4, k5, k6, s1, s2, s3, s4, taux, tauy]`.
    ///
    /// The tangential terms sit at indices 2 and 3. Entries past `n_dist` are zero.
    pub dist: [Float64; 14],
    /// How many coefficients were read (the remainder of `dist` is zero).
    pub n_dist: usize,
    /// The lens model that these coefficients belong to.
    pub model: OakCameraModel,
}

impl OakCameraCalib {
    /// Numerically equal.
    pub open spec fn same(self, other: OakCameraCalib) -> bool {
        self.fx.same(other.fx) && self.fy.same(other.fy) && self.cx.same(other.cx)
            && self.cy.same(other.cy) && all_same64(self.dist@, other.dist@) && self.n_dist
            == other.n_dist && self.model == other.model
    }

    /// Whether the thin-prism (`s1..s4`) and tilt (`taux, tauy`) terms are all zero.
    pub open spec fn no_prism_or_tilt(self) -> bool {
        forall|i: int| FIRST_PRISM_TERM <= i < MAX_DIST ==> (#[trigger] self.dist@[i]).zero_valued()
    }

    /// True when a plain `k1..k6, p1, p2` model represents this calibration. A rectifier that
    /// supports only those eight coefficients must check this: dropping the other terms
    /// silently biases every rectified pixel.
    pub fn is_brown_conrady(&self) -> (r: bool)
        ensures
            r == (self.model == OakCameraModel::Perspective && self.no_prism_or_tilt()),
            r <==> self.model == OakCameraModel::Perspective && forall|i: int|
                8 <= i < 14 ==> (#[trigger] self.dist@[i]).bits == 0 || self.dist@[i].bits
                    == 0x8000_0000_0000_0000,
    {
        if self.model != OakCameraModel::Perspective {
            return false;
        }
        let mut i: usize = FIRST_PRISM_TERM;
        while i < MAX_DIST
            invariant
                FIRST_PRISM_TERM <= i <= MAX_DIST,
                forall|j: int| FIRST_PRISM_TERM <= j < i ==> (#[trigger] self.dist@[j]).zero_valued(),
            decreases MAX_DIST - i,
        {
            if !self.dist[i].is_zero() {
                return false;
            }
            i += 1;
        }
        true
    }
}

impl PartialEq for OakCameraCalib {
    /// Numerically equal.
    fn eq(&self, other: &Self) -> (r: bool) {
        self.fx.equals(other.fx) && self.fy.equals(other.fy) && self.cx.equals(other.cx)
            && self.cy.equals(other.cy) && all_equal64(
            array_as_slice(&self.dist),
            array_as_slice(&other.dist),
        ) && self.n_dist == other.n_dist && self.model == other.model
    }
}

impl PartialEqSpecImpl for OakCameraCalib {
    open spec fn obeys_eq_spec() -> bool {
        true
    }

    open spec fn eq_spec(&self, other: &Self) -> bool {
        self.same(*other)
    }
}

/// The calibration of one eye, from its camera matrix and its distortion coefficients.
/// Coefficients past the fourteenth are left out, missing ones are zero.
pub fn eye(k: &[[Float64; 3]; 3], d: &[Float64], model: CameraModel) -> (r: OakCameraCalib)
    ensures
        r.fx == k@[0]@[0],
        r.fy == k@[1]@[1],
        r.cx == k@[0]@[2],
        r.cy == k@[1]@[2],
        forall|i: int|
            0 <= i < MAX_DIST ==> #[trigger] r.dist@[i] == (if i < d@.len() {
                d@[i]
            } else {
                Float64 { bits: 0 }
            }),
        r.n_dist == (if d@.len() < MAX_DIST {
            d@.len() as int
        } else {
            MAX_DIST as int
        }),
        d@.len() <= 14 ==> r.n_dist == d@.len(),
        d@.len() > 14 ==> r.n_dist == 14,
        r.dist@.len() == 14,
        forall|i: int| 0 <= i < 14 && i < d@.len() ==> #[trigger] r.dist@[i] == d@[i],
        forall|i: int| d@.len() <= i < 14 ==> (#[trigger] r.dist@[i]).bits == 0,
        r.model == OakCameraModel::of(model),
{
    let zero: Float64 = Float64::zero();
    let mut dist: [Float64; 14] = [zero; 14];
    let n: usize = if d.len() < MAX_DIST {
        d.len()
    } else {
        MAX_DIST
    };
    let mut i: usize = 0;
    while i < n
        invariant
            i <= n <= MAX_DIST,
            n <= d@.len(),
            zero.bits == 0,
            forall|j: int|
                0 <= j < MAX_DIST ==> #[trigger] dist@[j] == (if j < i {
                    d@[j]
                } else {
                    Float64 { bits: 0 }
                }),
        decreases n - i,
    {
        dist[i] = d[i];
        i += 1;
    }
    OakCameraCalib {
        fx: k[0][0],
        fy: k[1][1],
        cx: k[0][2],
        cy: k[1][2],
        dist,
        n_dist: n,
        model: OakCameraModel::from_depthai(model),
    }
}

/// Factory calibration of the whole stereo pair.
#[derive(Debug, Clone, Copy)]
pub struct OakStereoCalib {
    /// Resolution that the intrinsics are valid at. Compare it against a frame's own size
    /// before rectifying: a device may crop to a size other than the request.
    pub width: u32,
    /// See `width`.
    pub height: u32,
    /// Left eye, the reference camera of the pair.
    pub left: OakCameraCalib,
    /// Right eye.
    pub right: OakCameraCalib,
    /// Rotation of `X_right = R * X_left + t`, row by row.
    pub r_left_right: [[Float64; 3]; 3],
    /// Translation of `X_right = R * X_left + t`, metres.
    pub t_left_right: [Float64; 3],
    /// Length of `t_left_right`, metres.
    pub baseline_m: Float64,
}

impl PartialEq for OakStereoCalib {
    /// Numerically equal.
    fn eq(&self, other: &Self) -> (r: bool) {
        self.width == other.width && self.height == other.height && self.left == other.left
            && self.right == other.right && all_equal64(
            array_as_slice(&self.r_left_right[0]),
            array_as_slice(&other.r_left_right[0]),
        ) && all_equal64(
            array_as_slice(&self.r_left_right[1]),
            array_as_slice(&other.r_left_right[1]),
        ) && all_equal64(
            array_as_slice(&self.r_left_right[2]),
            array_as_slice(&other.r_left_right[2]),
        ) && all_equal64(
            array_as_slice(&self.t_left_right),
            array_as_slice(&other.t_left_right),
        ) && self.baseline_m.equals(other.baseline_m)
    }
}

impl PartialEqSpecImpl for OakStereoCalib {
    open spec fn obeys_eq_spec() -> bool {
        true
    }

    open spec fn eq_spec(&self, other: &Self) -> bool {
        self.width == other.width && self.height == other.height && self.left.same(other.left)
            && self.right.same(other.right) && all_same64(
            self.r_left_right@[0]@,
            other.r_left_right@[0]@,
        ) && all_same64(self.r_left_right@[1]@, other.r_left_right@[1]@) && all_same64(
            self.r_left_right@[2]@,
            other.r_left_right@[2]@,
        ) && all_same64(self.t_left_right@, other.t_left_right@) && self.baseline_m.same(
            other.baseline_m,
        )
    }
}

/// In what a translation is measured.
#[derive(Debug, Clone, Copy, PartialEq, Eq, Structural)]
pub enum LengthUnit {
    Meter,
}

/// Which extrinsic is read of a calibration. The device would otherwise choose the source of
/// the translation and its unit by itself, and differently from one getter to the next.
#[derive(Debug, Clone, Copy, PartialEq, Eq)]
pub struct ExtrinsicRequest {
    /// The camera that it leads from; `None` is the IMU chip.
    pub from: Option<CameraBoardSocket>,
    /// The camera that it leads to.
    pub to: CameraBoardSocket,
    /// Whether the translation is that of the board's design rather than the calibrated one.
    pub spec_translation: bool,
    pub unit: LengthUnit,
}

/// The extrinsic of a stereo pair: from the left eye to the right, calibrated, in metres. The
/// rotation, the translation and the baseline all come from it.
pub fn stereo_extrinsic() -> (r: ExtrinsicRequest)
    ensures
        r == (ExtrinsicRequest {
            from: Some(CameraBoardSocket::CamB),
            to: CameraBoardSocket::CamC,
            spec_translation: false,
            unit: LengthUnit::Meter,
        }),
{
    ExtrinsicRequest {
        from: Some(CameraBoardSocket::CamB),
        to: CameraBoardSocket::CamC,
        spec_translation: false,
        unit: LengthUnit::Meter,
    }
}

/// The extrinsic from the IMU chip to the camera that samples are rotated into.
pub fn imu_extrinsic(reference: CameraBoardSocket) -> (r: ExtrinsicRequest)
    ensures
        r == (ExtrinsicRequest {
            from: None,
            to: reference,
            spec_translation: false,
            unit: LengthUnit::Meter,
        }),
{
    ExtrinsicRequest {
        from: None,
        to: reference,
        spec_translation: false,
        unit: LengthUnit::Meter,
    }
}

/// What was read of a stereo pair.
#[derive(Debug, Clone, Copy)]
pub struct StereoReads {
    pub left: OakCameraCalib,
    pub right: OakCameraCalib,
    /// The calibrated left-to-right extrinsic in metres, row by row.
    pub extrinsic: [[Float64; 4]; 4],
    /// The length of its translation.
    pub baseline_m: Float64,
}

impl StereoReads {
    /// Whether the two eyes are in one place: the translation is zero, or its length is not
    /// above zero.
    pub open spec fn blank(self) -> bool {
        ||| self.baseline_m.non_positive()
        ||| forall|i: int| 0 <= i < 3 ==> (#[trigger] self.extrinsic@[i]@[3]).zero_valued()
    }

    /// Whether `calib` holds, at the given size, exactly what was read.
    pub open spec fn assembled(self, width: u32, height: u32, calib: OakStereoCalib) -> bool {
        &&& calib.width == width
        &&& calib.height == height
        &&& calib.left == self.left
        &&& calib.right == self.right
        &&& forall|i: int, j: int|
            0 <= i < 3 && 0 <= j < 3 ==> #[trigger] calib.r_left_right@[i]@[j]
                == self.extrinsic@[i]@[j]
        &&& forall|i: int|
            0 <= i < 3 ==> #[trigger] calib.t_left_right@[i] == self.extrinsic@[i]@[3]
        &&& calib.baseline_m == self.baseline_m
    }
}

/// The translation of an extrinsic: its last column.
pub fn translation(e: &[[Float64; 4]; 4]) -> (r: [Float64; 3])
    ensures
        forall|i: int| 0 <= i < 3 ==> #[trigger] r@[i] == e@[i]@[3],
{
    [e[0][3], e[1][3], e[2][3]]
}

/// The rotation of an extrinsic: its leading 3x3 block.
fn rotation(e: &[[Float64; 4]; 4]) -> (r: [[Float64; 3]; 3])
    ensures
        forall|i: int, j: int| 0 <= i < 3 && 0 <= j < 3 ==> #[trigger] r@[i]@[j] == e@[i]@[j],
{
    [[e[0][0], e[0][1], e[0][2]], [e[1][0], e[1][1], e[1][2]], [e[2][0], e[2][1], e[2][2]]]
}

/// The calibration of a stereo pair at the streamed size, from what was read of it. A
/// translation of zero, or a length of it of at most zero, is an error: it would reach a
/// rectifier as tables of NaN.
pub fn read_stereo_calib(
    read: Result<StereoReads, String>,
    width: u32,
    height: u32,
) -> (r: Result<OakStereoCalib, StereoCalibError>)
    ensures
        match (read, r) {
            (Err(why), _) => r == Err::<OakStereoCalib, _>(StereoCalibError::Unreadable(why)),
            (Ok(c), Err(e)) => c.blank() && e == StereoCalibError::ZeroBaseline,
            (Ok(c), Ok(calib)) => !c.blank() && c.assembled(width, height, calib),
        },
        r matches Ok(c) ==> !c.baseline_m.non_positive() && !(c.t_left_right@[0].zero_valued()
            && c.t_left_right@[1].zero_valued() && c.t_left_right@[2].zero_valued()),
        (read matches Ok(c) ==> (r is Err <==> {
            let b = c.baseline_m.bits;
            let x = c.extrinsic@[0]@[3].bits;
            let y = c.extrinsic@[1]@[3].bits;
            let z = c.extrinsic@[2]@[3].bits;
            ||| b == 0
            ||| 0x8000_0000_0000_0000 <= b <= 0xfff0_0000_0000_0000
            ||| (x == 0 || x == 0x8000_0000_0000_0000) && (y == 0 || y == 0x8000_0000_0000_0000)
                && (z == 0 || z == 0x8000_0000_0000_0000)
        })),
{
    match read {
        Err(why) => Err(StereoCalibError::Unreadable(why)),
        Ok(c) => {
            let t: [Float64; 3] = translation(&c.extrinsic);
            let still: bool = t[0].is_zero() && t[1].is_zero() && t[2].is_zero();
            proof {
                assert(t@[0] == c.extrinsic@[0]@[3]);
                assert(t@[1] == c.extrinsic@[1]@[3]);
                assert(t@[2] == c.extrinsic@[2]@[3]);
            }
            if c.baseline_m.at_most_zero() || still {
                Err(StereoCalibError::ZeroBaseline)
            } else {
                Ok(
                    OakStereoCalib {
                        width,
                        height,
                        left: c.left,
                        right: c.right,
                        r_left_right: rotation(&c.extrinsic),
                        t_left_right: t,
                        baseline_m: c.baseline_m,
                    },
                )
            }
        },
    }
}

/// The rotation of an IMU extrinsic, row by row: the leading 3x3 block.
pub fn rotation_block(t: &[[Float32; 4]; 4]) -> (r: [Float32; 9])
    ensures
        forall|i: int| 0 <= i < 9 ==> #[trigger] r@[i] == t@[i / 3]@[i % 3],
{
    [t[0][0], t[0][1], t[0][2], t[1][0], t[1][1], t[1][2], t[2][0], t[2][1], t[2][2]]
}

/// The rotation from the IMU chip to the camera, as far as it can be used: `read` is the
/// rotation that was read, with its determinant and its distance from orthonormal. The error
/// says why samples stay in the frame of the chip.
pub fn read_imu_rotation(read: Result<([Float32; 9], Float32, Float32), String>) -> (r: Result<
    [Float32; 9],
    String,
>)
    ensures
        read matches Err(why) ==> r == Err::<[Float32; 9], _>(why),
        read matches Ok(m) ==> match crate::policy::rotation_verdict(m.0@, m.1, m.2) {
            Ok(_) => r == Ok::<_, String>(m.0),
            Err(text) => r is Err && r->Err_0@ == text,
        },
{
    match read {
        Err(why) => Err(why),
        Ok(m) => match validate_rotation(&m.0, m.1, m.2) {
            Ok(_) => Ok(m.0),
            Err(text) => Err(String::from_str(text)),
        },
    }
}

/// A lens model is carried through: the two that are told apart keep their names, and every
/// other one keeps its number.
pub proof fn law_lens_models_are_carried_through(n: i32)
    ensures
        OakCameraModel::of(CameraModel::Perspective) == OakCameraModel::Perspective,
        OakCameraModel::of(CameraModel::Fisheye) == OakCameraModel::Fisheye,
        OakCameraModel::of(CameraModel::Equirectangular) == OakCameraModel::Other(2),
        OakCameraModel::of(CameraModel::Unknown(n)) == OakCameraModel::Other(n),
        CameraModel::Perspective.raw() == 0,
        CameraModel::Fisheye.raw() == 1,
        CameraModel::Equirectangular.raw() == 2,
        CameraModel::Unknown(n).raw() == n,
{
}

/// Why a stereo calibration is not available, in words that carry the reason.
pub proof fn law_calibration_errors_carry_their_reason(why: String)
    ensures
        StereoCalibError::Unreadable(why).text() == "stereo calibration unavailable: "@ + why@,
        StereoCalibError::NotStereo.text() == "not a stereo device (opened with open_rgbd)"@,
        StereoCalibError::ZeroBaseline.text()
            == "stereo calibration has a zero baseline (extrinsic present but blank)"@,
{
}

/// A calibration is refused as blank exactly if its baseline is a number of at most zero or
/// its translation is zero in all three directions, whatever the signs of the zeros.
pub proof fn law_which_calibrations_are_blank(c: StereoReads)
    ensures
        c.blank() <==> {
            let b = c.baseline_m.bits;
            let x = c.extrinsic@[0]@[3].bits;
            let y = c.extrinsic@[1]@[3].bits;
            let z = c.extrinsic@[2]@[3].bits;
            ||| b == 0
            ||| 0x8000_0000_0000_0000 <= b <= 0xfff0_0000_0000_0000
            ||| (x == 0 || x == 0x8000_0000_0000_0000) && (y == 0 || y == 0x8000_0000_0000_0000)
                && (z == 0 || z == 0x8000_0000_0000_0000)
        },
{
    assert(c.extrinsic@[0]@[3].zero_valued() && c.extrinsic@[1]@[3].zero_valued()
        && c.extrinsic@[2]@[3].zero_valued() ==> forall|i: int|
        0 <= i < 3 ==> (#[trigger] c.extrinsic@[i]@[3]).zero_valued());
}

/// A calibration that is accepted holds what was read, number for number, and nothing else: the
/// rotation and the translation of the extrinsic, both eyes, and the baseline, at the size that
/// was asked for.
pub proof fn law_a_calibration_is_what_was_read(
    read: StereoReads,
    width: u32,
    height: u32,
    calib: OakStereoCalib,
)
    requires
        read.assembled(width, height, calib),
    ensures
        calib.width == width && calib.height == height,
        calib.left == read.left && calib.right == read.right,
        calib.baseline_m.bits == read.baseline_m.bits,
        forall|i: int, j: int|
            0 <= i < 3 && 0 <= j < 3 ==> (#[trigger] calib.r_left_right@[i]@[j]).bits
                == read.extrinsic@[i]@[j].bits,
        forall|i: int|
            0 <= i < 3 ==> (#[trigger] calib.t_left_right@[i]).bits == read.extrinsic@[i]@[3].bits,
{
}

/// Two sets of intrinsics are equal exactly if each of their four numbers is.
pub proof fn law_intrinsics_are_compared_number_by_number(a: OakIntrinsics, b: OakIntrinsics)
    ensures
        PartialEqSpec::eq_spec(&a, &b) <==> a.fx.same(b.fx) && a.fy.same(b.fy) && a.cx.same(b.cx) && a.cy.same(b.cy),
{
}

/// Two calibrations of an eye are equal exactly if each of their numbers is, and they agree in
/// how many coefficients were read and in the lens model.
pub proof fn law_eyes_are_compared_number_by_number(a: OakCameraCalib, b: OakCameraCalib)
    ensures
        PartialEqSpec::eq_spec(&a, &b) <==> {
            &&& a.fx.same(b.fx) && a.fy.same(b.fy) && a.cx.same(b.cx) && a.cy.same(b.cy)
            &&& forall|i: int| 0 <= i < 14 ==> (#[trigger] a.dist@[i]).same(b.dist@[i])
            &&& a.n_dist == b.n_dist
            &&& a.model == b.model
        },
{
}

/// Two calibrations of a pair are equal exactly if they agree in size, in both eyes, and in each
/// number of the rotation, of the translation and of the baseline.
pub proof fn law_pairs_are_compared_number_by_number(a: OakStereoCalib, b: OakStereoCalib)
    ensures
        PartialEqSpec::eq_spec(&a, &b) <==> {
            &&& a.width == b.width && a.height == b.height
            &&& a.left.same(b.left) && a.right.same(b.right)
            &&& forall|i: int, j: int|
                0 <= i < 3 && 0 <= j < 3 ==> (#[trigger] a.r_left_right@[i]@[j]).same(
                    b.r_left_right@[i]@[j],
                )
            &&& forall|i: int|
                0 <= i < 3 ==> (#[trigger] a.t_left_right@[i]).same(b.t_left_right@[i])
            &&& a.baseline_m.same(b.baseline_m)
        },
{
    let same = forall|i: int, j: int|
        0 <= i < 3 && 0 <= j < 3 ==> (#[trigger] a.r_left_right@[i]@[j]).same(
            b.r_left_right@[i]@[j],
        );
    if same {
        assert forall|i: int| 0 <= i < 3 implies all_same64(
            #[trigger] a.r_left_right@[i]@,
            b.r_left_right@[i]@,
        ) by {
            assert forall|j: int| 0 <= j < 3 implies (#[trigger] a.r_left_right@[i]@[j]).same(
                b.r_left_right@[i]@[j],
            ) by {}
        }
        assert(all_same64(a.r_left_right@[0]@, b.r_left_right@[0]@));
        assert(all_same64(a.r_left_right@[1]@, b.r_left_right@[1]@));
        assert(all_same64(a.r_left_right@[2]@, b.r_left_right@[2]@));
    }
}

} // verus!
