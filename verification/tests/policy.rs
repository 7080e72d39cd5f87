use sensor_rt::ieee::Float32;
use sensor_rt::policy::{
    clamp_rate, depth_div, depth_fps, depth_output_size, device_id, fps_or_default, h264_kbps,
    parse_bool_default_true, parse_ir, parse_positive, parse_usb_speed, rgb_fps, steady_epoch_offset,
    steady_to_epoch_ns, subpixel, validate_rotation, video_gated, EpochOffset, KnobVars, Knobs,
    UsbSpeed, MAX_CLOCK_NS,
};

const IDENTITY: [f32; 9] = [1.0, 0.0, 0.0, 0.0, 1.0, 0.0, 0.0, 0.0, 1.0];

/// The rotation test on numbers: the determinant and the distance from orthonormal are
/// computed here.
fn gate(r: &[f32; 9]) -> Result<(), &'static str> {
    let det = r[0] * (r[4] * r[8] - r[5] * r[7]) - r[1] * (r[3] * r[8] - r[5] * r[6])
        + r[2] * (r[3] * r[7] - r[4] * r[6]);
    let mut ortho_err = 0f32;
    for i in 0..3 {
        for j in 0..3 {
            let dot =
                r[i * 3] * r[j * 3] + r[i * 3 + 1] * r[j * 3 + 1] + r[i * 3 + 2] * r[j * 3 + 2];
            let target = if i == j { 1.0 } else { 0.0 };
            ortho_err = ortho_err.max((dot - target).abs());
        }
    }
    let bits: [Float32; 9] = r.map(|v| Float32 { bits: v.to_bits() });
    validate_rotation(
        &bits,
        Float32 { bits: det.to_bits() },
        Float32 { bits: ortho_err.to_bits() },
    )
}

/// The projector intensity that a setting stands for; the number is read here.
fn ir(v: Option<&str>) -> f32 {
    let number = v.and_then(|s| s.trim().parse::<f32>().ok());
    f32::from_bits(parse_ir(number.map(|x| Float32 { bits: x.to_bits() })).bits)
}

#[test]
fn projector_intensity_stays_in_range() {
    for text in ["0", "1", "0.5", "-0.0", "1e9", "-1e9", "inf", "-inf", " 0.25 ", "1.0000001"] {
        let x: f32 = text.trim().parse().unwrap();
        assert_eq!(ir(Some(text)).to_bits(), x.clamp(0.0, 1.0).to_bits(), "{text}");
    }
    // A NaN is no intensity.
    assert_eq!(ir(Some("nan")), 0.8);
    assert_eq!(ir(Some("-NaN")), 0.8);
    assert_eq!(f32::from_bits(parse_ir(Some(Float32 { bits: 0xffff_ffff })).bits), 0.8);
    assert_eq!(ir(Some("")), 0.8);
}

#[test]
fn rotation_gate_rejects_each_reason() {
    let mut m = IDENTITY;
    assert_eq!(
        gate(&m),
        Err("exact identity: depthai's not-calibrated sentinel, not a measured pose")
    );
    m[0] = f32::NAN;
    assert_eq!(gate(&m), Err("non-finite entry"));
    // Reflection: flip one axis.
    let refl = [-1.0, 0.0, 0.0, 0.0, 1.0, 0.0, 0.0, 0.0, 1.0];
    assert!(gate(&refl).unwrap_err().starts_with("determinant <= 0"));
    // Shear with det = 1.
    let shear = [1.0, 100.0, 0.0, 0.0, 1.0, 0.0, 0.0, 0.0, 1.0];
    assert!(gate(&shear).unwrap_err().starts_with("not orthonormal"));
    // 3% scale.
    let scale = [1.03, 0.0, 0.0, 0.0, 1.03, 0.0, 0.0, 0.0, 1.03];
    assert!(gate(&scale).unwrap_err().starts_with("not orthonormal"));
}

#[test]
fn rotation_gate_accepts_a_real_mounting() {
    // 90 degrees about z: x -> y, y -> -x.
    let r = [0.0, -1.0, 0.0, 1.0, 0.0, 0.0, 0.0, 0.0, 1.0];
    assert_eq!(gate(&r), Ok(()));
    // A slightly noisy rotation still passes.
    let r2 = [0.0, -1.0, 0.0002, 1.0, 0.0, 0.0, 0.0, 0.0001, 1.0];
    assert_eq!(gate(&r2), Ok(()));
}

#[test]
fn rotation_gate_reads_the_numbers_not_the_patterns() {
    // A negative zero is still the zero of the identity.
    let mut m = IDENTITY;
    m[1] = -0.0;
    assert!(gate(&m).unwrap_err().starts_with("exact identity"));
    m[1] = f32::INFINITY;
    assert_eq!(gate(&m), Err("non-finite entry"));
    // An undefined determinant is not a negative one; the distance decides.
    let wild: [Float32; 9] = [3e38f32, 0.0, 0.0, 0.0, 1.0, 0.0, 0.0, 0.0, 1.0]
        .map(|v| Float32 { bits: v.to_bits() });
    assert!(validate_rotation(
        &wild,
        Float32 { bits: f32::NAN.to_bits() },
        Float32 { bits: f32::INFINITY.to_bits() }
    )
    .unwrap_err()
    .starts_with("not orthonormal"));
    // The limit itself passes, the next number above it does not.
    let limit = 1e-3f32.to_bits();
    let turn: [Float32; 9] = [0.0f32, -1.0, 0.0, 1.0, 0.0, 0.0, 0.0, 0.0, 1.0]
        .map(|v| Float32 { bits: v.to_bits() });
    let one = Float32 { bits: 1.0f32.to_bits() };
    assert_eq!(validate_rotation(&turn, one, Float32 { bits: limit }), Ok(()));
    assert!(validate_rotation(&turn, one, Float32 { bits: limit + 1 }).is_err());
    // Nothing shows a matrix to be orthonormal where a number is undefined.
    let nan = Float32 { bits: f32::NAN.to_bits() };
    let zero = Float32 { bits: 0 };
    assert!(validate_rotation(&turn, nan, zero).unwrap_err().starts_with("not orthonormal"));
    assert!(validate_rotation(&turn, one, nan).unwrap_err().starts_with("not orthonormal"));
}

#[test]
fn a_matrix_and_its_negative_are_never_both_accepted() {
    let s = 0.5f32.sqrt();
    for r in [
        [0.0, -1.0, 0.0, 1.0, 0.0, 0.0, 0.0, 0.0, 1.0],
        [0.0, 0.0, 1.0, 1.0, 0.0, 0.0, 0.0, 1.0, 0.0],
        [s, -s, 0.0, s, s, 0.0, 0.0, 0.0, 1.0],
    ] {
        assert_eq!(gate(&r), Ok(()));
        assert_eq!(
            gate(&r.map(|v| -v)),
            Err("determinant <= 0: a reflection, not a rotation")
        );
    }
}

#[test]
fn depth_output_size_is_even_and_floored() {
    assert_eq!(depth_output_size(640, 360, 2), (320, 180));
    assert_eq!(depth_output_size(640, 360, 3), (212, 120)); // 213 -> 212
    assert_eq!(depth_output_size(2, 2, 100), (2, 2));
    assert_eq!(depth_output_size(640, 360, 0), (640, 360));
}

#[test]
fn env_parsers_have_the_shim_defaults() {
    assert_eq!(parse_usb_speed(None), UsbSpeed::High);
    assert_eq!(parse_usb_speed(Some("super")), UsbSpeed::Super);
    assert_eq!(parse_usb_speed(Some("nonsense")), UsbSpeed::High);
    assert!(parse_bool_default_true(None));
    assert!(!parse_bool_default_true(Some("0")));
    assert!(!parse_bool_default_true(Some("false")));
    assert_eq!(ir(None), 0.8);
    assert_eq!(ir(Some("5")), 1.0);
    assert_eq!(ir(Some("-1")), 0.0);
    assert_eq!(ir(Some("abc")), 0.8);
    assert_eq!(clamp_rate(None, 10, 30), 10);
    assert_eq!(clamp_rate(Some(60), 10, 30), 30);
    assert_eq!(clamp_rate(None, 30, 15), 15);
    assert_eq!(parse_positive(Some("0")), None);
    assert_eq!(parse_positive(Some(" 7 ")), Some(7));
}

#[test]
fn zero_fps_means_thirty() {
    assert_eq!(fps_or_default(0), 30);
    assert_eq!(fps_or_default(15), 15);
}

#[test]
fn epoch_conversion_clamps() {
    assert_eq!(steady_to_epoch_ns(100, 50), 150);
    assert_eq!(steady_to_epoch_ns(100, -500), 0);
}

#[test]
fn epoch_conversion_keeps_distances() {
    let offset = 1_700_000_000_000_000_000i128;
    let a = steady_to_epoch_ns(5_000, offset);
    let b = steady_to_epoch_ns(8_000, offset);
    assert_eq!(b - a, 3_000);
    assert_eq!(steady_to_epoch_ns(i64::MAX, MAX_CLOCK_NS as i128), u64::MAX);
    assert_eq!(steady_to_epoch_ns(1, u64::MAX as i128 - 1), u64::MAX);
    assert_eq!(steady_to_epoch_ns(-1, 0), 0);
}

#[test]
fn offset_is_system_minus_steady() {
    assert_eq!(steady_epoch_offset(Some(40), Some(100)), 60);
    assert_eq!(steady_epoch_offset(Some(100), Some(40)), -60);
    assert_eq!(steady_epoch_offset(None, Some(40)), 40);
    assert_eq!(steady_epoch_offset(Some(40), None), -40);
    assert_eq!(steady_epoch_offset(None, None), 0);
}

#[test]
fn offset_is_taken_once() {
    let mut clock = EpochOffset::new();
    assert_eq!(clock.steady_epoch_offset_cached(17), 17);
    assert_eq!(clock.steady_epoch_offset_cached(99), 17);
}

#[test]
fn positive_numbers_are_read_in_decimal() {
    assert_eq!(parse_positive(None), None);
    assert_eq!(parse_positive(Some("")), None);
    assert_eq!(parse_positive(Some("   ")), None);
    assert_eq!(parse_positive(Some("+")), None);
    assert_eq!(parse_positive(Some("-3")), None);
    assert_eq!(parse_positive(Some("+3")), Some(3));
    assert_eq!(parse_positive(Some("0012")), Some(12));
    assert_eq!(parse_positive(Some("1 2")), None);
    assert_eq!(parse_positive(Some("12x")), None);
    assert_eq!(parse_positive(Some("2147483647")), Some(2147483647));
    assert_eq!(parse_positive(Some("2147483648")), None);
    assert_eq!(parse_positive(Some("99999999999999999999999999")), None);
    assert_eq!(parse_positive(Some("\u{3000}\t5\r\n\u{a0}")), Some(5));
    assert_eq!(parse_positive(Some("\u{200b}5")), None);
}

#[test]
fn trimming_and_reading_agree_with_the_standard_library() {
    let texts = [
        "7", " 7", "7 ", "\u{85}7\u{2028}", "\u{1680}7\u{202f}", "\u{205f}7\u{2007}", "\u{180e}7",
        "\u{feff}7", "\u{1f}7", "\u{b}7\u{c}", "--7", "+-7", "7.0", "٣", "1_000",
    ];
    for text in texts {
        let expected = text.trim().parse::<i32>().ok().filter(|&x| x >= 1);
        assert_eq!(parse_positive(Some(text)), expected, "{text:?}");
    }
    // Every character either is white space to both or to neither.
    for code in 0..=0x10ffffu32 {
        if let Some(c) = char::from_u32(code) {
            if c.is_whitespace() {
                let mut text = String::from("1");
                text.push(c);
                assert_eq!(parse_positive(Some(&text)), Some(1), "{code:x}");
            }
        }
    }
}

#[test]
fn rates_and_bitrate() {
    assert_eq!(h264_kbps(None), 2000);
    assert_eq!(h264_kbps(Some("500")), 500);
    assert_eq!(depth_fps(None, 30), 30);
    assert_eq!(depth_fps(Some("45"), 30), 30);
    assert_eq!(depth_fps(Some("5"), 30), 5);
    assert_eq!(rgb_fps(None, 30), 10);
    assert_eq!(rgb_fps(None, 5), 5);
    assert_eq!(rgb_fps(Some("20"), 30), 20);
    assert_eq!(depth_div(None), 2);
    assert_eq!(depth_div(Some("3")), 3);
    assert_eq!(depth_div(Some("0")), 2);
    assert_eq!(clamp_rate(Some(-1), 10, 30), 30);
    assert_eq!(clamp_rate(Some(5), 10, 0), 1);
}

#[test]
fn switches_and_names() {
    assert_eq!(parse_usb_speed(Some("SUPER")), UsbSpeed::Super);
    assert_eq!(parse_usb_speed(Some("Super")), UsbSpeed::High);
    assert!(subpixel(Some("no")));
    assert!(!subpixel(Some("0")));
    assert!(video_gated(Some("1")));
    assert!(!video_gated(Some("true")));
    assert!(!video_gated(None));
    assert_eq!(device_id(None), None);
    assert_eq!(device_id(Some("")), None);
    assert_eq!(device_id(Some("10.0.0.5")), Some("10.0.0.5"));
}

#[test]
fn knobs_read_every_setting() {
    let vars = KnobVars {
        usb_speed: Some("super"),
        h264_kbps: Some("900"),
        depth_fps: Some("12"),
        rgb_fps: None,
        depth_div: Some("4"),
        subpixel: Some("false"),
        video_gated: Some("1"),
    };
    let k = Knobs::from_vars(&vars, Some(Float32 { bits: 7.5f32.to_bits() }));
    assert_eq!(k.usb_speed, UsbSpeed::Super);
    assert_eq!(k.h264_kbps, 900);
    assert_eq!(k.depth_fps, Some(12));
    assert_eq!(k.rgb_fps, None);
    assert_eq!(k.depth_div, 4);
    assert!(!k.subpixel);
    assert!(k.video_gated);
    assert_eq!(k.ir.bits, 1.0f32.to_bits());
    assert_eq!(Knobs::from_vars(&vars, None).ir.bits, 0.8f32.to_bits());
}
