use sensor_rt::ieee::Float32;
use sensor_rt::imu::{convert_packet, ImuBuffer, ImuPacket, ImuSample, ImuVecReport, RawTimestamp};

const NEVER: RawTimestamp = RawTimestamp { sec: 0, nsec: 0 };

fn bits(v: [f32; 3]) -> [Float32; 3] {
    v.map(|x| Float32 { bits: x.to_bits() })
}

fn numbers(v: [Float32; 3]) -> [f32; 3] {
    v.map(|x| f32::from_bits(x.bits))
}

fn packet(acc: [f32; 3], gyr: [f32; 3], ts: RawTimestamp) -> ImuPacket {
    ImuPacket {
        accelerometer: ImuVecReport { xyz: bits(acc), turned: bits([7.0; 3]), timestamp: ts },
        gyroscope: ImuVecReport { xyz: bits(gyr), turned: bits([7.0; 3]), timestamp: ts },
    }
}

/// A packet that is told apart by its time.
fn tick(n: i64) -> ImuPacket {
    packet([n as f32, 0.0, 0.0], [0.0; 3], RawTimestamp { sec: 0, nsec: n })
}

fn times(samples: &[ImuSample]) -> Vec<u64> {
    samples.iter().map(|s| s.ts_ns).collect()
}

#[test]
fn hole_gate_drops_zero_timestamp_reports_only() {
    let ts = RawTimestamp { sec: 10, nsec: 5 };
    let ok = packet([0.0, 0.0, 9.81], [0.1, 0.0, 0.0], ts);
    let s = convert_packet(&ok, false, 1_000).unwrap();
    assert_eq!(s.ts_ns, 10_000_000_005 + 1_000);
    assert_eq!(numbers(s.accel), [0.0, 0.0, 9.81]);
    assert_eq!(numbers(s.gyro), [0.1, 0.0, 0.0]);

    let mut hole = ok;
    hole.gyroscope.timestamp = NEVER;
    assert!(convert_packet(&hole, false, 0).is_none());

    assert!(convert_packet(&ok, false, 0).is_some());
}

#[test]
fn a_missing_accelerometer_is_a_hole_too() {
    let mut hole = tick(5);
    hole.accelerometer.timestamp = NEVER;
    assert!(convert_packet(&hole, false, 0).is_none());
    // One part of a time may be zero.
    let second = RawTimestamp { sec: 1, nsec: 0 };
    assert!(convert_packet(&packet([0.0; 3], [0.0; 3], second), false, 0).is_some());
}

#[test]
fn samples_are_stamped_with_the_accelerometer() {
    let mut p = tick(5);
    p.gyroscope.timestamp = RawTimestamp { sec: 0, nsec: 900 };
    assert_eq!(convert_packet(&p, false, 10).unwrap().ts_ns, 15);
    assert_eq!(convert_packet(&p, false, -10).unwrap().ts_ns, 0);
    let far = packet([0.0; 3], [0.0; 3], RawTimestamp { sec: i64::MAX, nsec: i64::MAX });
    assert_eq!(convert_packet(&far, false, 0).unwrap().ts_ns, u64::MAX);
}

#[test]
fn rotation_is_applied_to_both_vectors() {
    // 90 degrees about z: x -> y.
    let mut p = packet([1.0, 0.0, 0.0], [0.0, 2.0, 0.0], RawTimestamp { sec: 1, nsec: 0 });
    p.accelerometer.turned = bits([0.0, 1.0, 0.0]);
    p.gyroscope.turned = bits([-2.0, 0.0, 0.0]);
    let s = convert_packet(&p, true, 0).unwrap();
    assert_eq!(numbers(s.accel), [0.0, 1.0, 0.0]);
    assert_eq!(numbers(s.gyro), [-2.0, 0.0, 0.0]);
    // And to neither where samples stay in the frame of the chip.
    let s = convert_packet(&p, false, 0).unwrap();
    assert_eq!(numbers(s.accel), [1.0, 0.0, 0.0]);
    assert_eq!(numbers(s.gyro), [0.0, 2.0, 0.0]);
}

#[test]
fn one_call_has_one_clock() {
    let mut imu = ImuBuffer::new();
    let mut out = Vec::new();
    let mut drain = imu.begin(&mut out, 8);
    imu.absorb(&mut drain, &[tick(1)], false, 100, &mut out);
    imu.absorb(&mut drain, &[tick(2)], false, 900, &mut out);
    imu.end(drain);
    assert_eq!(times(&out), [101, 102]);
    let mut drain = imu.begin(&mut out, 8);
    imu.absorb(&mut drain, &[tick(3)], false, 900, &mut out);
    imu.end(drain);
    assert_eq!(times(&out), [101, 102, 903]);
}

#[test]
fn samples_are_equal_as_numbers() {
    let s = convert_packet(&tick(5), false, 0).unwrap();
    let zeros = ImuSample { gyro: bits([-0.0, 0.0, -0.0]), ..s };
    assert!(s == zeros);
    assert!(s != ImuSample { ts_ns: 6, ..s });
    assert!(s != ImuSample { accel: bits([4.0, 0.0, 0.0]), ..s });
    let nan = ImuSample { gyro: bits([f32::NAN, 0.0, 0.0]), ..s };
    assert!(nan != nan);
}

#[test]
fn what_does_not_fit_waits_in_order() {
    let mut imu = ImuBuffer::new();
    let mut out = Vec::new();

    let mut drain = imu.begin(&mut out, 3);
    assert!(drain.wants_batch());
    imu.absorb(&mut drain, &[tick(1), tick(2)], false, 0, &mut out);
    assert!(drain.wants_batch());
    imu.absorb(&mut drain, &[tick(3), tick(4), tick(5), tick(6), tick(7)], false, 0, &mut out);
    assert!(!drain.wants_batch());
    assert_eq!(imu.end(drain), (3, None));
    assert_eq!(imu.pending_len(), 4);
    assert_eq!(times(&out), [1, 2, 3]);

    // Two of those that wait.
    let drain = imu.begin(&mut out, 2);
    assert!(!drain.wants_batch());
    assert_eq!(imu.end(drain), (2, None));
    assert_eq!(times(&out), [1, 2, 3, 4, 5]);

    // The remainder goes before a fresh batch.
    let mut drain = imu.begin(&mut out, 10);
    imu.absorb(&mut drain, &[tick(8)], false, 0, &mut out);
    assert_eq!(imu.end(drain), (3, None));
    assert_eq!(times(&out), [1, 2, 3, 4, 5, 6, 7, 8]);

    let drain = imu.begin(&mut out, 0);
    assert!(!drain.wants_batch());
    assert_eq!(imu.end(drain), (0, None));
}

#[test]
fn holes_are_counted_and_reported_seldom() {
    let mut imu = ImuBuffer::new();
    let mut out = Vec::new();
    let hole = packet([0.0; 3], [0.0; 3], NEVER);

    let mut drain = imu.begin(&mut out, 8);
    imu.absorb(&mut drain, &[tick(1), hole, tick(2), hole], false, 0, &mut out);
    assert_eq!(drain.hole_count(), 2);
    assert_eq!(imu.end(drain), (2, Some(2)));
    assert_eq!(imu.skip_count(), 2);
    assert_eq!(times(&out), [1, 2]);

    let mut drain = imu.begin(&mut out, 8);
    imu.absorb(&mut drain, &[hole], false, 0, &mut out);
    assert_eq!(imu.end(drain), (0, None));

    assert_eq!(imu.note_ts_skipped(996), None); // 999
    assert_eq!(imu.note_ts_skipped(1), Some(1000));
    assert_eq!(imu.note_ts_skipped(1), None);
    assert_eq!(imu.note_ts_skipped(2500), Some(3501));
}
