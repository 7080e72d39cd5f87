//! Policy: settings and their defaults, the shift of the device clock onto the epoch timeline,
//! and the test that an IMU rotation has to pass.

use crate::ieee::{Float32, ONE_F32};
use crate::text::{chars_of, parse_i32, same_text, trim_chars};
use vstd::prelude::*;

verus! {

// ---------------------------------------------------------------------------
// Settings
// ---------------------------------------------------------------------------

/// A frame rate of zero means "default", never one frame per second: it would poison the
/// encoder preset, the requested output rate and the threshold of the stereo pairing.
pub const DEFAULT_FPS: u32 = 30;

/// Encoder bitrate where none is set, in kilobits per second.
pub const DEFAULT_H264_KBPS: i32 = 2000;

/// Rate of raw colour frames where none is set.
pub const DEFAULT_RGB_FPS: u32 = 10;

/// Downscale of the depth frames where none is set.
pub const DEFAULT_DEPTH_DIV: u32 = 2;

/// The text of a setting, if it is set.
pub open spec fn setting(v: Option<&str>) -> Option<Seq<char>> {
    match v {
        Some(s) => Some(s@),
        None => None,
    }
}

/// Whether a setting is set to the given text.
pub open spec fn set_to(v: Option<&str>, text: Seq<char>) -> bool {
    setting(v) == Some(text)
}

/// Whether a setting is set to the given text.
fn is_set_to(v: Option<&str>, text: &str) -> (r: bool)
    ensures
        r == set_to(v, text@),
{
    match v {
        Some(s) => same_text(s, text),
        None => false,
    }
}

/// The frame rate that a requested one stands for.
pub open spec fn effective_fps(fps: u32) -> u32 {
    if fps == 0 {
        DEFAULT_FPS
    } else {
        fps
    }
}

/// The requested frame rate, or the default for zero.
pub fn fps_or_default(fps: u32) -> (r: u32)
    ensures
        r == effective_fps(fps),
        fps > 0 ==> r == fps,
        fps == 0 ==> r == 30,
        r > 0,
{
    if fps == 0 {
        DEFAULT_FPS
    } else {
        fps
    }
}

/// The speed at which a USB link is opened.
#[derive(Debug, Clone, Copy, PartialEq, Eq, Structural)]
pub enum UsbSpeed {
    /// USB 2.
    High,
    /// USB 3.
    Super,
}

/// `OAK_USB_SPEED`: cap the USB link. USB 2 unless the setting asks for `super`, because a
/// device that booted into a USB 3 descriptor cannot be reached again over a USB 2 link.
pub fn parse_usb_speed(v: Option<&str>) -> (r: UsbSpeed)
    ensures
        r == (if set_to(v, "super"@) || set_to(v, "SUPER"@) {
            UsbSpeed::Super
        } else {
            UsbSpeed::High
        }),
        r is Super <==> (v matches Some(s) && (s@ == "super"@ || s@ == "SUPER"@)),
{
    if is_set_to(v, "super") || is_set_to(v, "SUPER") {
        UsbSpeed::Super
    } else {
        UsbSpeed::High
    }
}

/// The number that a setting writes, where that is a positive decimal number of 32 bits,
/// white space around it aside.
pub open spec fn positive_number(text: Option<Seq<char>>) -> Option<i32> {
    match text {
        Some(s) => match crate::text::decimal_i32(crate::text::trimmed(s)) {
            Some(x) => if x >= 1 {
                Some(x)
            } else {
                None
            },
            None => None,
        },
        None => None,
    }
}

/// Read a setting as a positive number; anything else is as good as unset.
pub fn parse_positive(v: Option<&str>) -> (r: Option<i32>)
    ensures
        r == positive_number(setting(v)),
{
    match v {
        Some(s) => {
            let chars: Vec<char> = chars_of(s);
            match parse_i32(trim_chars(chars.as_slice())) {
                Some(x) => if x >= 1 {
                    Some(x)
                } else {
                    None
                },
                None => None,
            }
        },
        None => None,
    }
}

/// `OAK_H264_KBPS`: the encoder's target bitrate.
pub fn h264_kbps(v: Option<&str>) -> (r: i32)
    ensures
        r == (match positive_number(setting(v)) {
            Some(x) => x,
            None => DEFAULT_H264_KBPS,
        }),
        r >= 1,
        v is None ==> r == 2000,
{
    match parse_positive(v) {
        Some(x) => x,
        None => DEFAULT_H264_KBPS,
    }
}

/// The rate that is meant by an optional request: the request, or `default` where there is
/// none, brought down to `max` and then up to one. A negative request counts as its 32-bit
/// two's complement, that is, as a very large rate.
pub open spec fn clamped_rate(requested: Option<i32>, default: u32, max: u32) -> u32 {
    let v = match requested {
        Some(x) => if x < 0 {
            x + 0x1_0000_0000
        } else {
            x as int
        },
        None => default as int,
    };
    let capped = if v <= max {
        v
    } else {
        max as int
    };
    if capped < 1 {
        1
    } else {
        capped as u32
    }
}

/// Clamp an optional requested rate.
pub fn clamp_rate(requested: Option<i32>, default: u32, max: u32) -> (r: u32)
    ensures
        r == clamped_rate(requested, default, max),
        requested matches Some(x) ==> (1 <= x <= max ==> r == x),
        requested is None && 1 <= default <= max ==> r == default,
        1 <= r,
        max >= 1 ==> r <= max,
{
    let v: u32 = match requested {
        Some(x) => if x < 0 {
            (x as i64 + 0x1_0000_0000) as u32
        } else {
            x as u32
        },
        None => default,
    };
    let capped: u32 = if v <= max {
        v
    } else {
        max
    };
    if capped < 1 {
        1
    } else {
        capped
    }
}

/// A clamped rate is at least one, and at most `max` wherever `max` is a rate at all.
pub proof fn law_rate_is_bounded(requested: Option<i32>, default: u32, max: u32)
    ensures
        clamped_rate(requested, default, max) >= 1,
        max >= 1 ==> clamped_rate(requested, default, max) <= max,
{
}

/// `OAK_DEPTH_FPS`: the depth rate, the colour rate by default and never above it.
pub fn depth_fps(v: Option<&str>, fps: u32) -> (r: u32)
    ensures
        r == clamped_rate(positive_number(setting(v)), fps, fps),
        v is None && fps >= 1 ==> r == fps,
        1 <= r,
        fps >= 1 ==> r <= fps,
{
    clamp_rate(parse_positive(v), fps, fps)
}

/// `OAK_RGB_FPS`: the rate of raw colour frames, never above the colour rate.
pub fn rgb_fps(v: Option<&str>, fps: u32) -> (r: u32)
    ensures
        r == clamped_rate(positive_number(setting(v)), DEFAULT_RGB_FPS, fps),
        v is None && fps >= 10 ==> r == 10,
        1 <= r,
        fps >= 1 ==> r <= fps,
{
    clamp_rate(parse_positive(v), DEFAULT_RGB_FPS, fps)
}

/// `OAK_DEPTH_DIV`: the downscale of the aligned depth on the device.
pub fn depth_div(v: Option<&str>) -> (r: u32)
    ensures
        r == (match positive_number(setting(v)) {
            Some(x) => x as u32,
            None => DEFAULT_DEPTH_DIV,
        }),
        r >= 1,
        v is None ==> r == 2,
{
    match parse_positive(v) {
        Some(x) => x as u32,
        None => DEFAULT_DEPTH_DIV,
    }
}

/// One side of the depth frame: the divided side rounded down to an even number, at least 2.
pub open spec fn even_extent(extent: u32, div: u32) -> u32 {
    let divisor = if div == 0 {
        1
    } else {
        div as int
    };
    let q = extent as int / divisor;
    if q < 2 {
        2
    } else {
        (q - q % 2) as u32
    }
}

/// One side of the depth frame.
fn depth_extent(extent: u32, div: u32) -> (r: u32)
    ensures
        r == even_extent(extent, div),
{
    let divisor: u32 = if div == 0 {
        1
    } else {
        div
    };
    let q: u32 = extent / divisor;
    if q < 2 {
        2
    } else {
        q - q % 2
    }
}

/// The size of the depth frames. The link needs even sides: an odd one tears the connection
/// to the device down.
pub fn depth_output_size(width: u32, height: u32, div: u32) -> (r: (u32, u32))
    ensures
        r == (even_extent(width, div), even_extent(height, div)),
        r.0 % 2 == 0 && r.1 % 2 == 0,
        div >= 1 && width >= 2 * div ==> r.0 * div <= width < (r.0 + 2) * div,
        div >= 1 && height >= 2 * div ==> r.1 * div <= height < (r.1 + 2) * div,
        div >= 1 && width < 2 * div ==> r.0 == 2,
        div >= 1 && height < 2 * div ==> r.1 == 2,
{
    proof {
        law_depth_extent_is_the_largest_that_fits(width, div);
        law_depth_extent_is_the_largest_that_fits(height, div);
    }
    (depth_extent(width, div), depth_extent(height, div))
}

/// A side of the depth frame is even and at least 2, and it is no longer than the side of
/// the image wherever that has two pixels.
pub proof fn law_depth_extent_is_even(extent: u32, div: u32)
    ensures
        even_extent(extent, div) % 2 == 0,
        even_extent(extent, div) >= 2,
        extent >= 2 ==> even_extent(extent, div) <= extent,
{
    let divisor = if div == 0 {
        1
    } else {
        div as int
    };
    let q = extent as int / divisor;
    assert(q <= extent) by (nonlinear_arith)
        requires
            q == extent as int / divisor,
            divisor >= 1,
            extent >= 0,
    ;
}

/// A switch that is on unless it is set to `0` or `false`.
pub fn parse_bool_default_true(v: Option<&str>) -> (r: bool)
    ensures
        r == !(set_to(v, "0"@) || set_to(v, "false"@)),
        !r <==> (v matches Some(s) && (s@ == "0"@ || s@ == "false"@)),
{
    !(is_set_to(v, "0") || is_set_to(v, "false"))
}

/// `OAK_SUBPIXEL`: subpixel disparity. Off trades precision for rate.
pub fn subpixel(v: Option<&str>) -> (r: bool)
    ensures
        r == !(set_to(v, "0"@) || set_to(v, "false"@)),
        !r <==> (v matches Some(s) && (s@ == "0"@ || s@ == "false"@)),
{
    parse_bool_default_true(v)
}

/// `OAK_VIDEO_GATED`: whether the encoded stream starts switched off.
pub fn video_gated(v: Option<&str>) -> (r: bool)
    ensures
        r == set_to(v, "1"@),
        r <==> (v matches Some(s) && s@ == "1"@),
{
    is_set_to(v, "1")
}

/// Intensity of the infrared projector where none is set: the encoding of `0.8`.
pub const DEFAULT_IR: u32 = 0x3f4c_cccd;

/// The intensity that a setting stands for: clamped to 0 to 1, and the default where it does
/// not read as a number, which a NaN is not either.
pub open spec fn ir_setting(number: Option<Float32>) -> Float32 {
    match number {
        None => Float32 { bits: DEFAULT_IR },
        Some(x) => if x.nan() {
            Float32 { bits: DEFAULT_IR }
        } else if x.rank() < 0 {
            Float32 { bits: 0 }
        } else if x.rank() > ONE_F32 {
            Float32 { bits: ONE_F32 }
        } else {
            x
        },
    }
}

/// `OAK_IR`: intensity of the infrared dot projector; 0 switches it off. `number` is what the
/// trimmed text of the setting reads as, if it is set and reads as a number.
pub fn parse_ir(number: Option<Float32>) -> (r: Float32)
    ensures
        r == ir_setting(number),
        number matches Some(x) ==> (x.bits <= 0x3f80_0000 ==> r == x),
        number is None ==> r.bits == 0x3f4c_cccd,
        !r.nan(),
        0 <= r.rank() <= ONE_F32,
{
    let one: Float32 = Float32 { bits: ONE_F32 };
    match number {
        None => Float32 { bits: DEFAULT_IR },
        Some(x) => if x.is_nan() {
            Float32 { bits: DEFAULT_IR }
        } else if Float32::zero().exceeds(x) {
            Float32::zero()
        } else if x.exceeds(one) {
            one
        } else {
            x
        },
    }
}

/// Whatever the setting reads as, the projector is driven between off and full.
pub proof fn law_ir_is_in_range(number: Option<Float32>)
    ensures
        !ir_setting(number).nan(),
        0 <= ir_setting(number).rank() <= (Float32 { bits: ONE_F32 }).rank(),
{
}

/// The device that a request names: an empty name is no name, and means the first device
/// found.
pub fn device_id(id: Option<&str>) -> (r: Option<&str>)
    ensures
        setting(r) == (if set_to(id, Seq::empty()) {
            None
        } else {
            setting(id)
        }),
        r is None <==> (id matches Some(s) ==> s@.len() == 0),
        r matches Some(name) ==> (id matches Some(s) && name@ == s@),
{
    match id {
        Some(s) => if chars_of(s).len() == 0 {
            proof {
                assert(s@ =~= Seq::empty());
            }
            None
        } else {
            Some(s)
        },
        None => None,
    }
}

/// The texts of the settings, where they are set.
#[derive(Debug, Clone, Copy)]
pub struct KnobVars<'a> {
    pub usb_speed: Option<&'a str>,
    pub h264_kbps: Option<&'a str>,
    pub depth_fps: Option<&'a str>,
    pub rgb_fps: Option<&'a str>,
    pub depth_div: Option<&'a str>,
    pub subpixel: Option<&'a str>,
    pub video_gated: Option<&'a str>,
}

/// The settings of one open device.
#[derive(Debug, Clone, Copy)]
pub struct Knobs {
    pub usb_speed: UsbSpeed,
    pub h264_kbps: i32,
    pub depth_fps: Option<i32>,
    pub rgb_fps: Option<i32>,
    pub depth_div: u32,
    pub subpixel: bool,
    pub video_gated: bool,
    /// Intensity of the infrared dot projector, between 0 and 1.
    pub ir: Float32,
}

impl Knobs {
    /// Read the settings; `ir` is what the text of the projector intensity reads as, if it is
    /// set and reads as a number.
    pub fn from_vars(vars: &KnobVars<'_>, ir: Option<Float32>) -> (r: Knobs)
        ensures
            r.usb_speed == (if set_to(vars.usb_speed, "super"@) || set_to(
                vars.usb_speed,
                "SUPER"@,
            ) {
                UsbSpeed::Super
            } else {
                UsbSpeed::High
            }),
            r.h264_kbps == (match positive_number(setting(vars.h264_kbps)) {
                Some(x) => x,
                None => DEFAULT_H264_KBPS,
            }),
            r.depth_fps == positive_number(setting(vars.depth_fps)),
            r.rgb_fps == positive_number(setting(vars.rgb_fps)),
            r.depth_div == (match positive_number(setting(vars.depth_div)) {
                Some(x) => x as u32,
                None => DEFAULT_DEPTH_DIV,
            }),
            r.subpixel == !(set_to(vars.subpixel, "0"@) || set_to(vars.subpixel, "false"@)),
            r.video_gated == set_to(vars.video_gated, "1"@),
            r.ir == ir_setting(ir),
            !r.ir.nan(),
            0 <= r.ir.rank() <= ONE_F32,
    {
        Knobs {
            usb_speed: parse_usb_speed(vars.usb_speed),
            h264_kbps: h264_kbps(vars.h264_kbps),
            depth_fps: parse_positive(vars.depth_fps),
            rgb_fps: parse_positive(vars.rgb_fps),
            depth_div: depth_div(vars.depth_div),
            subpixel: subpixel(vars.subpixel),
            video_gated: video_gated(vars.video_gated),
            ir: parse_ir(ir),
        }
    }
}

// ---------------------------------------------------------------------------
// Clock
// ---------------------------------------------------------------------------

/// The longest duration that a clock reading can stand for, in nanoseconds.
pub const MAX_CLOCK_NS: u128 = 18446744073709551615999999999;

/// Whether a number can be the difference of two clock readings.
pub open spec fn clock_offset(offset: int) -> bool {
    -(MAX_CLOCK_NS as int) <= offset <= MAX_CLOCK_NS
}

/// What has to be added to a steady-clock time to put it on the epoch timeline: the system
/// time less the steady time, both read now. A clock that cannot be read counts as zero.
pub fn steady_epoch_offset(steady_ns: Option<u128>, system_ns: Option<u128>) -> (r: i128)
    requires
        steady_ns matches Some(t) ==> t <= MAX_CLOCK_NS,
        system_ns matches Some(t) ==> t <= MAX_CLOCK_NS,
    ensures
        clock_offset(r as int),
        r == (match system_ns {
            Some(t) => t as int,
            None => 0,
        }) - (match steady_ns {
            Some(t) => t as int,
            None => 0,
        }),
{
    let steady: i128 = match steady_ns {
        Some(t) => t as i128,
        None => 0,
    };
    let system: i128 = match system_ns {
        Some(t) => t as i128,
        None => 0,
    };
    system - steady
}

/// The offset in use when `now` is offered: the first one ever offered stays.
pub open spec fn in_use(fixed: Option<i128>, now: i128) -> i128 {
    match fixed {
        Some(first) => first,
        None => now,
    }
}

/// The offset that is fixed after a row of offers.
pub open spec fn fixed_after(fixed: Option<i128>, offers: Seq<i128>) -> Option<i128>
    decreases offers.len(),
{
    if offers.len() == 0 {
        fixed
    } else {
        Some(in_use(fixed_after(fixed, offers.drop_last()), offers.last()))
    }
}

/// All stamps of a row are made with one offset, that of the first, whatever the clocks say
/// when the others are made.
pub proof fn law_the_first_offset_stays(fixed: Option<i128>, offers: Seq<i128>, i: int)
    requires
        0 <= i < offers.len(),
    ensures
        in_use(fixed_after(fixed, offers.take(i)), offers[i]) == in_use(fixed, offers[0]),
    decreases i,
{
    if i == 0 {
        assert(offers.take(0) =~= Seq::empty());
    } else {
        law_the_first_offset_stays(fixed, offers, i - 1);
        assert(offers.take(i).drop_last() =~= offers.take(i - 1));
        assert(offers.take(i).last() == offers[i - 1]);
    }
}

/// One offset for all frames of a process: taken anew for each frame it would let the jitter
/// between the two clocks separate stamps of one instant.
#[derive(Debug, Clone, Copy)]
pub struct EpochOffset {
    cached: Option<i128>,
}

impl EpochOffset {
    #[verifier::type_invariant]
    spec fn inv(self) -> bool {
        self.cached matches Some(offset) ==> clock_offset(offset as int)
    }

    /// The offset in use, once there is one.
    pub closed spec fn fixed(self) -> Option<i128> {
        self.cached
    }

    /// No offset taken yet.
    pub fn new() -> (r: Self)
        ensures
            r.fixed() is None,
    {
        EpochOffset { cached: None }
    }

    /// The offset of the process: the first one that was ever handed in.
    pub fn steady_epoch_offset_cached(&mut self, now: i128) -> (r: i128)
        requires
            clock_offset(now as int),
        ensures
            r == in_use(old(self).fixed(), now),
            old(self).fixed() is None ==> r == now,
            old(self).fixed() matches Some(first) ==> r == first,
            clock_offset(r as int),
            final(self).fixed() == Some(r),
    {
        proof {
            use_type_invariant(&*self);
        }
        match self.cached {
            Some(first) => first,
            None => {
                self.cached = Some(now);
                now
            },
        }
    }
}

/// A time on the epoch timeline, as 64-bit nanoseconds: clamped at both ends.
pub open spec fn epoch_ns(steady_ns: int, offset: int) -> u64 {
    if steady_ns + offset < 0 {
        0
    } else if steady_ns + offset > u64::MAX {
        u64::MAX
    } else {
        (steady_ns + offset) as u64
    }
}

/// Bring a time on the epoch timeline into 64 bits.
pub(crate) fn clamp_epoch_ns(t: i128) -> (r: u64)
    ensures
        r == epoch_ns(t as int, 0),
{
    if t < 0 {
        0
    } else if t > u64::MAX as i128 {
        u64::MAX
    } else {
        t as u64
    }
}

/// Shift a steady-clock time onto the epoch timeline.
pub fn steady_to_epoch_ns(steady_ns: i64, offset: i128) -> (r: u64)
    requires
        i128::MIN <= steady_ns + offset <= i128::MAX,
    ensures
        r == epoch_ns(steady_ns as int, offset as int),
        0 <= steady_ns + offset <= u64::MAX ==> r == steady_ns + offset,
        steady_ns + offset < 0 ==> r == 0,
        steady_ns + offset > u64::MAX ==> r == u64::MAX,
{
    clamp_epoch_ns(steady_ns as i128 + offset)
}

/// Stamps made with one offset keep the order of the times that they stand for, and where
/// neither is clamped, the distance between them as well.
pub proof fn law_one_timeline(a: int, b: int, offset: int)
    requires
        a <= b,
    ensures
        epoch_ns(a, offset) <= epoch_ns(b, offset),
        0 <= a + offset && b + offset <= u64::MAX ==> epoch_ns(b, offset) - epoch_ns(a, offset)
            == b - a,
{
}

// ---------------------------------------------------------------------------
// IMU rotation gate
// ---------------------------------------------------------------------------

/// The encoding of `1e-3` in binary32: how far a rotation may be from orthonormal.
pub const ORTHO_LIMIT: u32 = 0x3a83_126f;

/// Whether every entry is finite.
pub open spec fn all_finite(r: Seq<Float32>) -> bool {
    forall|i: int| 0 <= i < r.len() ==> (#[trigger] r[i]).finite()
}

/// Whether a 3x3 matrix, row by row, is exactly the identity.
pub open spec fn exact_identity(r: Seq<Float32>) -> bool {
    forall|i: int|
        0 <= i < r.len() ==> {
            &&& !(#[trigger] r[i]).nan()
            &&& r[i].rank() == (if i % 4 == 0 { ONE_F32 as int } else { 0 })
        }
}

/// What the rotation test says of a matrix whose determinant is `det` and which is `ortho_err` away
/// from orthonormal.
pub open spec fn rotation_verdict(r: Seq<Float32>, det: Float32, ortho_err: Float32) -> Result<
    (),
    Seq<char>,
> {
    if !all_finite(r) {
        Err("non-finite entry"@)
    } else if !det.nan() && det.rank() <= 0 {
        Err("determinant <= 0: a reflection, not a rotation"@)
    } else if det.nan() || ortho_err.nan() || ortho_err.rank() > ORTHO_LIMIT {
        Err("not orthonormal: |R*Rt - I| exceeds 1e-3, so it scales or shears"@)
    } else if exact_identity(r) {
        Err("exact identity: depthai's not-calibrated sentinel, not a measured pose"@)
    } else {
        Ok(())
    }
}

/// Whether a 3x3 matrix, row by row, can be used to rotate IMU samples into the camera
/// frame, and why not.
///
/// `det` is its determinant and `ortho_err` the largest magnitude among the entries of
/// `R*Rt - I`. In this order: all entries finite; a positive determinant (no reflection);
/// orthonormal, which also rules out shears and scales; and not the exact identity, which
/// stands for "no calibration". Where either number is a NaN nothing shows the matrix to be
/// orthonormal, so it is not.
pub fn validate_rotation(r: &[Float32; 9], det: Float32, ortho_err: Float32) -> (res: Result<
    (),
    &'static str,
>)
    ensures
        match (res, rotation_verdict(r@, det, ortho_err)) {
            (Ok(_), Ok(_)) => true,
            (Err(why), Err(text)) => why@ == text,
            _ => false,
        },
{
    let one: Float32 = Float32 { bits: ONE_F32 };
    let zero: Float32 = Float32::zero();
    let mut finite: bool = true;
    let mut identity: bool = true;
    let mut i: usize = 0;
    while i < 9
        invariant
            i <= 9,
            one.bits == ONE_F32,
            zero.bits == 0,
            finite == all_finite(r@.take(i as int)),
            identity == exact_identity(r@.take(i as int)),
        decreases 9 - i,
    {
        let target: Float32 = if i % 4 == 0 {
            one
        } else {
            zero
        };
        let ghost before = r@.take(i as int);
        let ghost after = r@.take(i + 1);
        let entry: Float32 = r[i];
        proof {
            assert(after[i as int] == entry);
            assert(forall|k: int| 0 <= k < i ==> after[k] == before[k]);
        }
        finite = finite && entry.is_finite();
        identity = identity && entry.equals(target);
        i += 1;
    }
    proof {
        assert(r@.take(9) =~= r@);
    }
    if !finite {
        return Err("non-finite entry");
    }
    if det.at_most_zero() {
        return Err("determinant <= 0: a reflection, not a rotation");
    }
    if det.is_nan() || ortho_err.is_nan() || ortho_err.exceeds(Float32 { bits: ORTHO_LIMIT }) {
        return Err("not orthonormal: |R*Rt - I| exceeds 1e-3, so it scales or shears");
    }
    if identity {
        return Err("exact identity: depthai's not-calibrated sentinel, not a measured pose");
    }
    Ok(())
}

/// A matrix and its negative are never both accepted: negating all entries of a 3x3 negates
/// its determinant, so the negative of an accepted matrix is a reflection, however far from
/// orthonormal it is found to be.
pub proof fn law_negative_is_refused(
    r: Seq<Float32>,
    negative: Seq<Float32>,
    det: Float32,
    ortho_err: Float32,
    other_err: Float32,
)
    requires
        rotation_verdict(r, det, ortho_err) is Ok,
        negative.len() == r.len(),
        forall|i: int| 0 <= i < r.len() ==> #[trigger] negative[i] == r[i].negated(),
    ensures
        rotation_verdict(negative, det.negated(), other_err) == Err::<(), Seq<char>>(
            "determinant <= 0: a reflection, not a rotation"@,
        ),
{
    assert forall|i: int| 0 <= i < negative.len() implies (#[trigger] negative[i]).finite() by {
        assert(r[i].finite());
    }
}

/// The offset that is used is the very one that was offered first: on a fresh clock the one at
/// hand, later the one that is fixed; and that is the one which is fixed from then on.
pub proof fn law_a_fresh_clock_takes_what_it_is_offered(first: i128, now: i128, offers: Seq<i128>)
    ensures
        in_use(None, now) == now,
        in_use(Some(first), now) == first,
        offers.len() > 0 ==> fixed_after(None, offers) == Some(offers[0]),
        fixed_after(Some(first), offers) == Some(first),
    decreases offers.len(),
{
    if offers.len() > 0 {
        law_a_fresh_clock_takes_what_it_is_offered(first, now, offers.drop_last());
    }
}

/// A setting is its text, and it is set to a text if it is that text to the letter.
pub proof fn law_a_setting_is_its_text(s: &str, text: Seq<char>)
    ensures
        setting(Some(s)) == Some(s@),
        setting(None) is None,
        set_to(Some(s), text) <==> s@ == text,
        !set_to(None, text),
{
}

/// A requested frame rate is taken as it is; where none is requested it is thirty.
pub proof fn law_a_requested_rate_is_taken(fps: u32)
    ensures
        fps > 0 ==> effective_fps(fps) == fps,
        effective_fps(0) == 30,
{
}

/// A rate that is asked for, or the default where none is, is kept wherever it is at least one
/// and at most `max`; a larger one is brought down to `max`, and nothing else is changed.
pub proof fn law_a_rate_in_range_is_kept(x: i32, default: u32, max: u32)
    ensures
        1 <= x <= max ==> clamped_rate(Some(x), default, max) == x,
        x > max && max >= 1 ==> clamped_rate(Some(x), default, max) == max,
        x < 0 && 1 <= max <= i32::MAX ==> clamped_rate(Some(x), default, max) == max,
        x < 0 && 0x1_0000_0000 + x <= max ==> clamped_rate(Some(x), default, max) == 0x1_0000_0000
            + x,
        x < 0 && 1 <= max < 0x1_0000_0000 + x ==> clamped_rate(Some(x), default, max) == max,
        x == 0 || max == 0 ==> clamped_rate(Some(x), default, max) == 1,
        1 <= default <= max ==> clamped_rate(None, default, max) == default,
        default > max && max >= 1 ==> clamped_rate(None, default, max) == max,
        default == 0 || max == 0 ==> clamped_rate(None, default, max) == 1,
{
}

/// A side of the depth frame is the largest even number of which `div` times as many pixels are
/// there, but no smaller than 2. A divisor of zero counts as one.
pub proof fn law_depth_extent_is_the_largest_that_fits(extent: u32, div: u32)
    ensures
        even_extent(extent, div) % 2 == 0,
        div >= 1 && extent >= 2 * div ==> even_extent(extent, div) * div <= extent < (even_extent(
            extent,
            div,
        ) + 2) * div,
        div >= 1 && extent < 2 * div ==> even_extent(extent, div) == 2,
        even_extent(extent, 0) == even_extent(extent, 1),
{
    law_depth_extent_is_even(extent, div);
    if div >= 1 {
        let d = div as int;
        let e = extent as int;
        let q = e / d;
        vstd::arithmetic::div_mod::lemma_fundamental_div_mod(e, d);
        vstd::arithmetic::div_mod::lemma_mod_bound(e, d);
        if e >= 2 * d {
            assert(q >= 2) by (nonlinear_arith)
                requires
                    e == d * q + e % d,
                    0 <= e % d < d,
                    e >= 2 * d,
            ;
            assert(q <= e) by (nonlinear_arith)
                requires
                    q == e / d,
                    d >= 1,
                    e >= 0,
            ;
            let r = q - q % 2;
            assert(r * d <= e < (r + 2) * d) by (nonlinear_arith)
                requires
                    e == d * q + e % d,
                    0 <= e % d < d,
                    r <= q < r + 2,
                    d >= 1,
            ;
        } else {
            assert(q < 2) by (nonlinear_arith)
                requires
                    e == d * q + e % d,
                    0 <= e % d,
                    e < 2 * d,
                    d >= 1,
            ;
        }
    }
}

/// A number from 0 to 1 is the intensity itself, a larger one is full, a smaller one is off, and
/// what is no number is the default of 0.8.
pub proof fn law_an_intensity_in_range_is_kept(x: Float32)
    ensures
        x.bits <= 0x3f80_0000 || x.bits == 0x8000_0000 ==> ir_setting(Some(x)) == x,
        0x3f80_0000 < x.bits <= 0x7f80_0000 ==> ir_setting(Some(x)).bits == 0x3f80_0000,
        0x8000_0000 < x.bits <= 0xff80_0000 ==> ir_setting(Some(x)).bits == 0,
        0x7f80_0000 < x.bits < 0x8000_0000 || x.bits > 0xff80_0000 ==> ir_setting(Some(x)).bits
            == 0x3f4c_cccd,
        ir_setting(None).bits == 0x3f4c_cccd,
{
}

/// A time on the epoch timeline is the steady time and the offset together, wherever that fits
/// 64 bits; it stops at either end.
pub proof fn law_epoch_time_is_the_sum(steady_ns: int, offset: int)
    ensures
        0 <= steady_ns + offset <= u64::MAX ==> epoch_ns(steady_ns, offset) == steady_ns + offset,
        steady_ns + offset < 0 ==> epoch_ns(steady_ns, offset) == 0,
        steady_ns + offset > u64::MAX ==> epoch_ns(steady_ns, offset) == u64::MAX,
{
}

/// A matrix is accepted exactly if all of its entries are finite, its determinant is above zero,
/// it is at most `1e-3` away from orthonormal, and some entry differs from the identity's.
pub proof fn law_what_a_rotation_is(r: Seq<Float32>, det: Float32, ortho_err: Float32)
    requires
        r.len() == 9,
    ensures
        rotation_verdict(r, det, ortho_err) is Ok <==> {
            &&& forall|i: int|
                0 <= i < 9 ==> (#[trigger] r[i]).bits < 0x7f80_0000 || 0x8000_0000 <= r[i].bits
                    < 0xff80_0000
            &&& 0 < det.bits <= 0x7f80_0000
            &&& ortho_err.bits <= 0x3a83_126f || 0x8000_0000 <= ortho_err.bits <= 0xff80_0000
            &&& exists|i: int|
                0 <= i < 9 && (if i % 4 == 0 {
                    (#[trigger] r[i]).bits != 0x3f80_0000
                } else {
                    r[i].bits != 0 && r[i].bits != 0x8000_0000
                })
        },
{
    let finite = forall|i: int|
        0 <= i < 9 ==> (#[trigger] r[i]).bits < 0x7f80_0000 || 0x8000_0000 <= r[i].bits
            < 0xff80_0000;
    assert(all_finite(r) <==> finite) by {
        if finite {
            assert forall|i: int| 0 <= i < r.len() implies (#[trigger] r[i]).finite() by {
                lemma_finite_bits(r[i]);
            }
        }
        if all_finite(r) {
            assert forall|i: int| 0 <= i < 9 implies (#[trigger] r[i]).bits < 0x7f80_0000
                || 0x8000_0000 <= r[i].bits < 0xff80_0000 by {
                lemma_finite_bits(r[i]);
            }
        }
    }
    if exact_identity(r) {
        assert forall|i: int| 0 <= i < 9 implies !(if i % 4 == 0 {
            (#[trigger] r[i]).bits != 0x3f80_0000
        } else {
            r[i].bits != 0 && r[i].bits != 0x8000_0000
        }) by {
            assert(!r[i].nan());
        }
    } else {
        let i = choose|i: int|
            0 <= i < r.len() && !({
                &&& !(#[trigger] r[i]).nan()
                &&& r[i].rank() == (if i % 4 == 0 { ONE_F32 as int } else { 0 })
            });
        assert(if i % 4 == 0 {
            r[i].bits != 0x3f80_0000
        } else {
            r[i].bits != 0 && r[i].bits != 0x8000_0000
        });
    }
}

/// Which encodings are finite.
proof fn lemma_finite_bits(x: Float32)
    ensures
        x.finite() <==> x.bits < 0x7f80_0000 || 0x8000_0000 <= x.bits < 0xff80_0000,
{
}

/// Why a matrix is refused, in the order of the tests: an entry that is not finite, then a
/// determinant of at most zero, then the distance from orthonormal, then the identity.
pub proof fn law_why_a_rotation_is_refused(r: Seq<Float32>, det: Float32, ortho_err: Float32)
    requires
        rotation_verdict(r, det, ortho_err) is Err,
    ensures
        ({
            let why = rotation_verdict(r, det, ortho_err)->Err_0;
            let finite = forall|i: int|
                0 <= i < r.len() ==> (#[trigger] r[i]).bits < 0x7f80_0000 || 0x8000_0000
                    <= r[i].bits < 0xff80_0000;
            let turned_over = det.bits == 0 || 0x8000_0000 <= det.bits <= 0xff80_0000;
            let det_nan = 0x7f80_0000 < det.bits < 0x8000_0000 || det.bits > 0xff80_0000;
            let far = 0x3a83_126f < ortho_err.bits < 0x8000_0000 || ortho_err.bits > 0xff80_0000
                || det_nan;
            &&& !finite ==> why == "non-finite entry"@
            &&& finite && turned_over ==> why == "determinant <= 0: a reflection, not a rotation"@
            &&& finite && !turned_over && far ==> why
                == "not orthonormal: |R*Rt - I| exceeds 1e-3, so it scales or shears"@
            &&& finite && !turned_over && !far ==> why
                == "exact identity: depthai's not-calibrated sentinel, not a measured pose"@
        }),
{
    let finite = forall|i: int|
        0 <= i < r.len() ==> (#[trigger] r[i]).bits < 0x7f80_0000 || 0x8000_0000 <= r[i].bits
            < 0xff80_0000;
    assert(all_finite(r) <==> finite) by {
        if finite {
            assert forall|i: int| 0 <= i < r.len() implies (#[trigger] r[i]).finite() by {
                lemma_finite_bits(r[i]);
            }
        }
        if all_finite(r) {
            assert forall|i: int| 0 <= i < r.len() implies (#[trigger] r[i]).bits < 0x7f80_0000
                || 0x8000_0000 <= r[i].bits < 0xff80_0000 by {
                lemma_finite_bits(r[i]);
            }
        }
    }
}

/// A setting is read as the number that its digits count up to, whatever white space stands
/// around them and with or without a plus sign, wherever that number is positive and fits 32
/// bits.
pub proof fn law_numbers_in_settings_are_read(
    before: Seq<char>,
    digits: Seq<char>,
    behind: Seq<char>,
)
    requires
        forall|i: int| 0 <= i < before.len() ==> crate::text::white_space(#[trigger] before[i]),
        forall|i: int| 0 <= i < behind.len() ==> crate::text::white_space(#[trigger] behind[i]),
        digits.len() > 0,
        forall|i: int| 0 <= i < digits.len() ==> '0' <= #[trigger] digits[i] <= '9',
    ensures
        ({
            let v = crate::text::digits_value(digits);
            let plain = positive_number(Some(before + digits + behind));
            let plus = positive_number(Some(before + (seq!['+'] + digits) + behind));
            let minus = positive_number(Some(before + (seq!['-'] + digits) + behind));
            &&& 1 <= v <= i32::MAX ==> plain == Some(v as i32)
            &&& v < 1 || v > i32::MAX ==> plain is None
            &&& plus == plain
            &&& minus is None
        }),
{
    let plus = seq!['+'] + digits;
    let minus = seq!['-'] + digits;
    assert('0' <= digits[0] <= '9' && '0' <= digits[digits.len() - 1] <= '9');
    assert(plus.first() == '+' && plus.last() == digits.last());
    assert(minus.first() == '-' && minus.last() == digits.last());
    crate::text::law_trimming_leaves_what_stands_between(before, digits, behind);
    crate::text::law_trimming_leaves_what_stands_between(before, plus, behind);
    crate::text::law_trimming_leaves_what_stands_between(before, minus, behind);
    crate::text::law_digits_are_read(digits);
}

/// Nothing else is read as a number: a setting that is read as one holds nothing but digits,
/// white space and a plus sign.
pub proof fn law_other_settings_are_as_good_as_unset(text: Seq<char>, i: int)
    requires
        positive_number(Some(text)) is Some,
        0 <= i < text.len(),
    ensures
        crate::text::white_space(text[i]) || '0' <= text[i] <= '9' || text[i] == '+',
        positive_number(None) is None,
        positive_number(Some(text))->Some_0 >= 1,
{
    let s = crate::text::trimmed(text);
    crate::text::law_only_digits_are_read(s);
    if !crate::text::white_space(text[i]) {
        crate::text::lemma_trimmed_away(text, i);
        let k = choose|k: int| 0 <= k < s.len() && #[trigger] s[k] == text[i];
        if k > 0 {
            assert('0' <= s[k] <= '9');
        } else if s[0] == '-' {
            assert(crate::text::all_digits(s.skip(1)));
        }
    }
}

/// Whatever two clocks read, their difference can be an offset: a reading has seconds that fit
/// 64 bits and less than one second beyond them.
pub proof fn law_two_readings_make_an_offset(sec: u64, nsec: int, other_sec: u64, other_nsec: int)
    requires
        0 <= nsec < 1_000_000_000,
        0 <= other_nsec < 1_000_000_000,
    ensures
        sec * 1_000_000_000 + nsec <= MAX_CLOCK_NS,
        clock_offset(
            sec * 1_000_000_000 + nsec - (other_sec * 1_000_000_000 + other_nsec),
        ),
{
}

} // verus!
