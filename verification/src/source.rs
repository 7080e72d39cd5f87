//! An open camera: what it can deliver, and what becomes of the frames that it does.
//!
//! The queues, the pipeline and the device itself stay outside; this is the state that the
//! driver's own rules read and change.

use crate::calib::{OakIntrinsics, OakStereoCalib, StereoCalibError};
use crate::frame::{
    depth_fits, law_rows_are_taken_by_their_stride, packed_depth, packed_rows, pitch_of,
    repack_depth, repack_rows, rows_fit, ImgFrame,
};
use crate::ieee::Float32;
use crate::imu::{readings, report_due, Flow, ImuBuffer, ImuDrain, ImuPacket, ImuSample};
use crate::policy::{clock_offset, epoch_ns, in_use, steady_to_epoch_ns, EpochOffset};
use crate::stamp::FrameMeta;
use crate::stereo::{judge_poll, wait_on, EyeFault, OakStereoFrame, StereoPoll, StereoWait};
use vstd::prelude::*;

verus! {

/// A queue of the device.
#[derive(Debug, Clone, Copy, PartialEq, Eq, Structural)]
pub enum Which {
    Stereo,
    Rgb,
    Depth,
    Video,
    Imu,
}

impl Which {
    /// The name of the queue in messages.
    pub fn name(self) -> (r: &'static str)
        ensures
            r@ == (match self {
                Which::Stereo => "stereo"@,
                Which::Rgb => "rgb"@,
                Which::Depth => "depth"@,
                Which::Video => "video"@,
                Which::Imu => "IMU"@,
            }),
    {
        match self {
            Which::Stereo => "stereo",
            Which::Rgb => "rgb",
            Which::Depth => "depth",
            Which::Video => "video",
            Which::Imu => "IMU",
        }
    }

    /// The bit that stands for the queue.
    spec fn spec_bit(self) -> u8 {
        match self {
            Which::Stereo => 1,
            Which::Rgb => 2,
            Which::Depth => 4,
            Which::Video => 8,
            Which::Imu => 16,
        }
    }

    /// The bit that stands for the queue.
    fn bit(self) -> (r: u8)
        ensures
            r == self.spec_bit(),
    {
        match self {
            Which::Stereo => 1,
            Which::Rgb => 2,
            Which::Depth => 4,
            Which::Video => 8,
            Which::Imu => 16,
        }
    }
}

/// Setting one of five bits sets that bit and leaves the others.
proof fn lemma_set_bit(mask: u8, b: u8, c: u8)
    by (bit_vector)
    requires
        b == 1 || b == 2 || b == 4 || b == 8 || b == 16,
        c == 1 || c == 2 || c == 4 || c == 8 || c == 16,
    ensures
        b == c ==> (mask | b) & c != 0,
        b != c ==> (mask | b) & c == mask & c,
{
}

/// No bit is set in zero.
proof fn lemma_no_bit(c: u8)
    by (bit_vector)
    ensures
        0u8 & c == 0,
{
}

/// The queues whose failure was reported already, so that a dying device does not fill the
/// log.
#[derive(Debug, Clone, Copy)]
pub struct PollLatch {
    warned: u8,
}

impl PollLatch {
    /// The queues whose failure was reported.
    pub closed spec fn reported(self) -> Set<Which> {
        Set::new(|w: Which| self.warned & w.spec_bit() != 0)
    }

    /// Nothing reported yet.
    pub fn new() -> (r: Self)
        ensures
            r.reported() == Set::<Which>::empty(),
    {
        let r: PollLatch = PollLatch { warned: 0 };
        proof {
            assert forall|w: Which| !(#[trigger] r.reported().contains(w)) by {
                lemma_no_bit(w.spec_bit());
            }
            assert(r.reported() =~= Set::empty());
        }
        r
    }

    /// A poll of the queue failed: whether to report it, which is so the first time.
    pub fn poll_failed(&mut self, which: Which) -> (r: bool)
        ensures
            r == !old(self).reported().contains(which),
            final(self).reported() == old(self).reported().insert(which),
    {
        let bit: u8 = which.bit();
        let first: bool = self.warned & bit == 0;
        self.warned = self.warned | bit;
        proof {
            assert forall|w: Which| #[trigger] self.reported().contains(w) == old(
                self,
            ).reported().insert(which).contains(w) by {
                lemma_set_bit(old(self).warned, bit, w.spec_bit());
                assert(w.spec_bit() == bit ==> w == which);
            }
            assert(self.reported() =~= old(self).reported().insert(which));
        }
        first
    }
}

/// Which streams an open device delivers: a stream that its board cannot produce, or that
/// was not asked for, is missing.
#[derive(Debug, Clone, Copy, PartialEq, Eq, Structural)]
pub struct Streams {
    /// Pairs of the two mono cameras.
    pub stereo: bool,
    /// Raw colour frames.
    pub rgb: bool,
    /// Depth frames aligned to the colour frames.
    pub depth: bool,
    /// Encoded colour video, with the valve in front of it.
    pub video: bool,
    /// Inertial samples.
    pub imu: bool,
}

/// A command to the valve in front of the encoder.
#[derive(Debug, Clone, Copy, PartialEq, Eq)]
pub enum GateCommand {
    /// Open or close it.
    Switch { open: bool },
    /// Let so many frames through, at most so many a second, and close it again.
    Burst { frames: u32, fps: Option<u32> },
}

/// What waiting for a stereo pair came to.
pub enum StereoNext<'a> {
    /// Poll again; so much time has passed without a pair.
    Again { waited_ns: u64 },
    /// The stream has ended; the fault, if a pair could not be used.
    End(Option<EyeFault>),
    /// The next pair.
    Frame(OakStereoFrame<'a>),
}

/// What of an open camera its behaviour depends on.
#[verifier::ext_equal]
pub struct SourceView {
    /// What it delivers.
    pub streams: Streams,
    /// The requested size. Each frame tells its own.
    pub width: u32,
    /// See `width`.
    pub height: u32,
    /// Number of the last pair that was delivered.
    pub seq: u64,
    /// Intrinsics of the reference camera.
    pub intr: OakIntrinsics,
    /// Rotation from the IMU chip to the camera, where the calibration has a usable one.
    pub imu_rot: Option<[Float32; 9]>,
    /// Samples that wait for the caller.
    pub waiting: Seq<ImuSample>,
    /// Packets dropped for a hole so far.
    pub skipped: nat,
    /// Calibration of the stereo pair.
    pub calib: Result<OakStereoCalib, StereoCalibError>,
    /// Queues whose failure was reported.
    pub reported: Set<Which>,
}

impl SourceView {
    /// The flow of inertial samples during a call.
    pub open spec fn flow(self, out: Seq<ImuSample>, drain: ImuDrain) -> Flow {
        Flow { out, waiting: self.waiting, room: drain.room() }
    }
}

/// An open camera.
#[derive(Debug)]
pub struct OakSource {
    streams: Streams,
    width: u32,
    height: u32,
    seq: u64,
    intr: OakIntrinsics,
    imu_rot: Option<[Float32; 9]>,
    imu: ImuBuffer,
    calib: Result<OakStereoCalib, StereoCalibError>,
    latch: PollLatch,
}

impl View for OakSource {
    type V = SourceView;

    closed spec fn view(&self) -> SourceView {
        SourceView {
            streams: self.streams,
            width: self.width,
            height: self.height,
            seq: self.seq,
            intr: self.intr,
            imu_rot: self.imu_rot,
            waiting: self.imu.waiting(),
            skipped: self.imu.skipped(),
            calib: self.calib,
            reported: self.latch.reported(),
        }
    }
}

impl OakSource {
    /// A camera that was just opened. Its capabilities are whatever streams the opening
    /// managed to create. An IMU rotation means nothing without an IMU.
    pub fn from_parts(
        width: u32,
        height: u32,
        streams: Streams,
        intr: OakIntrinsics,
        imu_rot: Option<[Float32; 9]>,
        calib: Result<OakStereoCalib, StereoCalibError>,
    ) -> (r: Self)
        ensures
            r@ == (SourceView {
                streams,
                width,
                height,
                seq: 0,
                intr,
                imu_rot: if streams.imu {
                    imu_rot
                } else {
                    None
                },
                waiting: Seq::empty(),
                skipped: 0,
                calib,
                reported: Set::empty(),
            }),
    {
        OakSource {
            streams,
            width,
            height,
            seq: 0,
            intr,
            imu_rot: if streams.imu {
                imu_rot
            } else {
                None
            },
            imu: ImuBuffer::new(),
            calib,
            latch: PollLatch::new(),
        }
    }

    /// Whether the IMU runs.
    pub fn has_imu(&self) -> (r: bool)
        ensures
            r == self@.streams.imu,
    {
        self.streams.imu
    }

    /// Whether IMU samples are rotated into the frame of the reference camera. If not, they
    /// are in the frame of the chip.
    pub fn imu_aligned(&self) -> (r: bool)
        ensures
            r == (self@.imu_rot is Some),
    {
        self.imu_rot.is_some()
    }

    /// Whether aligned depth is delivered.
    pub fn has_depth(&self) -> (r: bool)
        ensures
            r == self@.streams.depth,
    {
        self.streams.depth
    }

    /// Whether encoded video is delivered.
    pub fn has_video(&self) -> (r: bool)
        ensures
            r == self@.streams.video,
    {
        self.streams.video
    }

    /// Whether raw colour is delivered. If not, the device was opened for video only.
    pub fn has_sync(&self) -> (r: bool)
        ensures
            r == self@.streams.rgb,
    {
        self.streams.rgb
    }

    /// Intrinsics of the reference camera.
    pub fn intrinsics(&self) -> (r: OakIntrinsics)
        ensures
            r == self@.intr,
    {
        self.intr
    }

    /// The requested width.
    pub fn width(&self) -> (r: u32)
        ensures
            r == self@.width,
    {
        self.width
    }

    /// The requested height.
    pub fn height(&self) -> (r: u32)
        ensures
            r == self@.height,
    {
        self.height
    }

    /// The factory calibration of the stereo pair. An error, not zeros: a metric consumer has
    /// no use for a blank one.
    pub fn stereo_calib(&self) -> (r: Result<OakStereoCalib, StereoCalibError>)
        ensures
            match (self@.calib, r) {
                (Ok(a), Ok(b)) => a == b,
                (Err(a), Err(b)) => match (a, b) {
                    (StereoCalibError::NotStereo, StereoCalibError::NotStereo) => true,
                    (StereoCalibError::Unreadable(x), StereoCalibError::Unreadable(y)) => x@ == y@,
                    (StereoCalibError::ZeroBaseline, StereoCalibError::ZeroBaseline) => true,
                    _ => false,
                },
                _ => false,
            },
    {
        match &self.calib {
            Ok(c) => Ok(*c),
            Err(e) => Err(
                match e {
                    StereoCalibError::NotStereo => StereoCalibError::NotStereo,
                    StereoCalibError::Unreadable(why) => StereoCalibError::Unreadable(why.clone()),
                    StereoCalibError::ZeroBaseline => StereoCalibError::ZeroBaseline,
                },
            ),
        }
    }

    /// Switch the encoded stream on or off: the command for the valve.
    pub fn set_video_streaming(&self, on: bool) -> (r: Result<GateCommand, &'static str>)
        ensures
            self@.streams.video ==> r == Ok::<_, &'static str>(GateCommand::Switch { open: on }),
            !self@.streams.video ==> (r matches Err(why) && why@
                == "this source has no H.264 stream"@),
    {
        self.send_gate(GateCommand::Switch { open: on })
    }

    /// Pass the next `frames` encoded frames, at most `fps` a second, and switch the stream
    /// off again: the command for the valve.
    pub fn video_burst(&self, frames: u32, fps: Option<u32>) -> (r: Result<
        GateCommand,
        &'static str,
    >)
        ensures
            self@.streams.video ==> r == Ok::<_, &'static str>(GateCommand::Burst { frames, fps }),
            !self@.streams.video ==> (r matches Err(why) && why@
                == "this source has no H.264 stream"@),
    {
        self.send_gate(GateCommand::Burst { frames, fps })
    }

    /// A command for the valve, if there is one.
    fn send_gate(&self, control: GateCommand) -> (r: Result<GateCommand, &'static str>)
        ensures
            self@.streams.video ==> r == Ok::<_, &'static str>(control),
            !self@.streams.video ==> (r matches Err(why) && why@
                == "this source has no H.264 stream"@),
    {
        if self.streams.video {
            Ok(control)
        } else {
            Err("this source has no H.264 stream")
        }
    }

    /// A colour frame as tight RGB bytes with its size and capture time. `frame` is what the
    /// queue held, and `now` the offset between the clocks, of which `clock` keeps the first
    /// for all frames. A malformed frame is skipped.
    pub fn next_rgb(
        &self,
        frame: Option<ImgFrame<'_>>,
        clock: &mut EpochOffset,
        now: i128,
    ) -> (r: Option<
        (Vec<u8>, u32, u32, u64),
    >)
        requires
            clock_offset(now as int),
        ensures
            final(clock).fixed() == (if r is Some {
                Some(in_use(old(clock).fixed(), now))
            } else {
                old(clock).fixed()
            }),
            r is Some <==> self@.streams.rgb && frame is Some && rgb_fits(frame->Some_0),
            r matches Some((bytes, w, h, ts)) ==> {
                let f = frame->Some_0;
                &&& bytes@ == packed_rows(
                    f.data@,
                    3 * f.width,
                    f.height as int,
                    pitch_of(3 * f.width, f.stride as int),
                )
                &&& w == f.width
                &&& h == f.height
                &&& ts == epoch_ns(
                    f.timestamp_ns as int,
                    in_use(old(clock).fixed(), now) as int,
                )
            },
            r matches Some((_, _, _, ts)) ==> {
                let t = frame->Some_0.timestamp_ns + (match old(clock).fixed() {
                    Some(first) => first,
                    None => now,
                });
                &&& 0 <= t <= u64::MAX ==> ts == t
                &&& t < 0 ==> ts == 0
                &&& t > u64::MAX ==> ts == u64::MAX
            },
            r is Some <==> self@.streams.rgb && (frame matches Some(f) && f.width > 0 && f.height
                > 0 && (f.stride == 0 || f.stride >= 3 * f.width) && (if f.stride == 0 {
                (f.height - 1) * (3 * f.width) + 3 * f.width <= f.data@.len()
            } else {
                (f.height - 1) * f.stride + 3 * f.width <= f.data@.len()
            })),
            r matches Some((bytes, w, h, _)) ==> {
                let f = frame->Some_0;
                &&& w == f.width && h == f.height
                &&& bytes@.len() == 3 * f.width * f.height
                &&& forall|y: int, x: int|
                    0 <= y < f.height && 0 <= x < 3 * f.width ==> #[trigger] bytes@[y * (3
                        * f.width) + x] == (if f.stride == 0 {
                        f.data@[y * (3 * f.width) + x]
                    } else {
                        f.data@[y * f.stride + x]
                    })
            },
    {
        proof {
            if let Some(f) = frame {
                law_rows_are_taken_by_their_stride(
                    f.data@,
                    3 * f.width,
                    f.height as int,
                    f.stride as int,
                );
            }
        }
        if !self.streams.rgb {
            return None;
        }
        match frame {
            None => None,
            Some(f) => {
                let row: u64 = f.width as u64 * 3;
                if row > f.data.len() as u64 {
                    // Not even one row is there.
                    proof {
                        let pitch = pitch_of(3 * f.width, f.stride as int);
                        assert(f.height > 0 ==> (f.height - 1) * pitch >= 0) by (nonlinear_arith)
                            requires
                                pitch >= 0,
                        ;
                    }
                    return None;
                }
                match repack_rows(f.data, row as usize, f.height as usize, f.stride as usize) {
                    Some(bytes) => {
                        let offset: i128 = clock.steady_epoch_offset_cached(now);
                        Some((bytes, f.width, f.height, steady_to_epoch_ns(f.timestamp_ns, offset)))
                    },
                    None => None,
                }
            },
        }
    }

    /// A depth frame in millimetres with its size and capture time, which is made as in
    /// [`next_rgb`](Self::next_rgb). `frame` is what the queue held. A malformed frame is
    /// skipped.
    pub fn next_depth(
        &self,
        frame: Option<ImgFrame<'_>>,
        clock: &mut EpochOffset,
        now: i128,
    ) -> (r: Option<
        (Vec<u16>, u32, u32, u64),
    >)
        requires
            clock_offset(now as int),
        ensures
            final(clock).fixed() == (if r is Some {
                Some(in_use(old(clock).fixed(), now))
            } else {
                old(clock).fixed()
            }),
            r is Some <==> self@.streams.depth && frame is Some && depth_fits(
                frame->Some_0.width,
                frame->Some_0.height,
                frame->Some_0.stride,
                frame->Some_0.data@.len() as int,
            ),
            r matches Some((vals, w, h, ts)) ==> {
                let f = frame->Some_0;
                &&& vals@ == packed_depth(
                    f.data@,
                    f.width as int,
                    f.height as int,
                    pitch_of(2 * f.width, f.stride as int),
                )
                &&& w == f.width
                &&& h == f.height
                &&& ts == epoch_ns(
                    f.timestamp_ns as int,
                    in_use(old(clock).fixed(), now) as int,
                )
            },
            r matches Some((_, _, _, ts)) ==> {
                let t = frame->Some_0.timestamp_ns + (match old(clock).fixed() {
                    Some(first) => first,
                    None => now,
                });
                &&& 0 <= t <= u64::MAX ==> ts == t
                &&& t < 0 ==> ts == 0
                &&& t > u64::MAX ==> ts == u64::MAX
            },
            r is Some <==> self@.streams.depth && (frame matches Some(f) && f.width > 0 && f.height
                > 0 && (f.stride == 0 || f.stride >= 2 * f.width) && (if f.stride == 0 {
                (f.height - 1) * (2 * f.width) + 2 * f.width <= f.data@.len()
            } else {
                (f.height - 1) * f.stride + 2 * f.width <= f.data@.len()
            })),
            r matches Some((vals, w, h, _)) ==> {
                let f = frame->Some_0;
                &&& w == f.width && h == f.height
                &&& vals@.len() == f.width * f.height
                &&& forall|y: int, x: int|
                    0 <= y < f.height && 0 <= x < f.width ==> #[trigger] vals@[y * f.width + x] == (
                    if f.stride == 0 {
                        f.data@[y * (2 * f.width) + 2 * x] + 256 * f.data@[y * (2 * f.width) + 2 * x
                            + 1]
                    } else {
                        f.data@[y * f.stride + 2 * x] + 256 * f.data@[y * f.stride + 2 * x + 1]
                    })
            },
    {
        if !self.streams.depth {
            return None;
        }
        match frame {
            None => None,
            Some(f) => match repack_depth(f.data, f.width, f.height, f.stride) {
                Some(vals) => {
                    let offset: i128 = clock.steady_epoch_offset_cached(now);
                    Some((vals, f.width, f.height, steady_to_epoch_ns(f.timestamp_ns, offset)))
                },
                None => None,
            },
        }
    }

    /// An encoded frame with its capture time, which is made as in
    /// [`next_rgb`](Self::next_rgb). `frame` is what the queue held.
    pub fn next_video(
        &self,
        frame: Option<ImgFrame<'_>>,
        clock: &mut EpochOffset,
        now: i128,
    ) -> (r: Option<
        (Vec<u8>, u64),
    >)
        requires
            clock_offset(now as int),
        ensures
            final(clock).fixed() == (if r is Some {
                Some(in_use(old(clock).fixed(), now))
            } else {
                old(clock).fixed()
            }),
            r is Some <==> self@.streams.video && frame is Some && frame->Some_0.data@.len() > 0,
            r matches Some((bytes, ts)) ==> bytes@ == frame->Some_0.data@ && ts == epoch_ns(
                frame->Some_0.timestamp_ns as int,
                in_use(old(clock).fixed(), now) as int,
            ),
            r matches Some((_, ts)) ==> {
                let t = frame->Some_0.timestamp_ns + (match old(clock).fixed() {
                    Some(first) => first,
                    None => now,
                });
                &&& 0 <= t <= u64::MAX ==> ts == t
                &&& t < 0 ==> ts == 0
                &&& t > u64::MAX ==> ts == u64::MAX
            },
    {
        if !self.streams.video {
            return None;
        }
        match frame {
            None => None,
            Some(f) => if f.data.len() == 0 {
                None
            } else {
                let bytes: Vec<u8> = vstd::slice::slice_to_vec(f.data);
                let offset: i128 = clock.steady_epoch_offset_cached(now);
                Some((bytes, steady_to_epoch_ns(f.timestamp_ns, offset)))
            },
        }
    }

    /// Number of the last pair that was delivered; 0 before the first.
    pub fn seq(&self) -> (r: u64)
        ensures
            r == self@.seq,
    {
        self.seq
    }

    /// Rotation from the IMU chip to the camera, which is applied to the reports of the device
    /// before they are taken in.
    pub fn imu_rotation(&self) -> (r: Option<[Float32; 9]>)
        ensures
            r == self@.imu_rot,
    {
        self.imu_rot
    }

    /// How many inertial samples wait for the next call.
    pub fn imu_pending_len(&self) -> (r: usize)
        ensures
            r == self@.waiting.len(),
    {
        self.imu.pending_len()
    }

    /// How many packets were dropped for a hole so far.
    pub fn imu_skip_count(&self) -> (r: u64)
        ensures
            r == self@.skipped,
    {
        self.imu.skip_count()
    }

    /// A poll of the queue failed: whether to report it, which is so the first time.
    pub fn poll_failed(&mut self, which: Which) -> (r: bool)
        ensures
            r == !old(self)@.reported.contains(which),
            final(self)@ == (SourceView {
                reported: old(self)@.reported.insert(which),
                ..old(self)@
            }),
    {
        self.latch.poll_failed(which)
    }

    /// Begin to hand out inertial samples, at most `cap` of them: those that wait go first.
    /// `None` where no IMU runs. The call goes on with [`absorb_imu`](Self::absorb_imu) for as
    /// long as it wants batches and there are any, and ends with [`end_imu`](Self::end_imu).
    pub fn next_imu(&mut self, out: &mut Vec<ImuSample>, cap: usize) -> (r: Option<ImuDrain>)
        ensures
            r is Some <==> old(self)@.streams.imu,
            final(self)@ == (SourceView { waiting: final(self)@.waiting, ..old(self)@ }),
            r is None ==> final(self)@ == old(self)@ && final(out)@ == old(out)@,
            r matches Some(drain) ==> {
                &&& final(self)@.flow(final(out)@, drain) == (Flow {
                    out: old(out)@,
                    waiting: old(self)@.waiting,
                    room: 0,
                }).called(cap as nat)
                &&& final(self)@.flow(final(out)@, drain).in_order()
                &&& drain.handed_out() == final(out)@.len() - old(out)@.len()
                &&& drain.holes() == 0
                &&& drain.offset() is None
                &&& drain.handed_out() + drain.room() == cap
                &&& drain.handed_out() == (if old(self)@.waiting.len() < cap {
                    old(self)@.waiting.len()
                } else {
                    cap as nat
                })
                &&& final(out)@ + final(self)@.waiting == old(out)@ + old(self)@.waiting
            },
    {
        if self.streams.imu {
            Some(self.imu.begin(out, cap))
        } else {
            None
        }
    }

    /// Take in one batch: hand out what fits, keep the remainder for the next call. Samples
    /// are in the frame of the camera exactly where [`imu_aligned`](Self::imu_aligned) says
    /// so. `now` is the offset between the clocks; the first one of a call is used for all of
    /// its samples.
    pub fn absorb_imu(
        &mut self,
        drain: &mut ImuDrain,
        packets: &[ImuPacket],
        now: i128,
        out: &mut Vec<ImuSample>,
    )
        requires
            clock_offset(now as int),
            old(self)@.flow(old(out)@, *old(drain)).in_order(),
            old(drain).holes() + packets@.len() <= u64::MAX,
        ensures
            final(self)@ == (SourceView { waiting: final(self)@.waiting, ..old(self)@ }),
            final(drain).offset() == Some(in_use(old(drain).offset(), now)),
            final(self)@.flow(final(out)@, *final(drain)) == old(self)@.flow(
                old(out)@,
                *old(drain),
            ).fed(
                readings(
                    packets@,
                    old(self)@.imu_rot is Some,
                    in_use(old(drain).offset(), now) as int,
                ),
            ),
            final(self)@.flow(final(out)@, *final(drain)).in_order(),
            final(out)@ + final(self)@.waiting == old(out)@ + old(self)@.waiting + readings(
                packets@,
                old(self)@.imu_rot is Some,
                in_use(old(drain).offset(), now) as int,
            ),
            final(drain).handed_out() + final(drain).room() == old(drain).handed_out() + old(
                drain,
            ).room(),
            final(drain).room() > 0 ==> final(self)@.waiting.len() == 0,
            final(drain).handed_out() == old(drain).handed_out() + (final(out)@.len() - old(
                out,
            )@.len()),
            final(drain).holes() == old(drain).holes() + packets@.len() - readings(
                packets@,
                old(self)@.imu_rot is Some,
                in_use(old(drain).offset(), now) as int,
            ).len(),
    {
        let aligned: bool = self.imu_rot.is_some();
        self.imu.absorb(drain, packets, aligned, now, out);
    }

    /// End a call: how many samples it handed out, and, where the running number of dropped
    /// packets is due to be reported, that number.
    pub fn end_imu(&mut self, drain: ImuDrain) -> (r: (usize, Option<u64>))
        requires
            old(self)@.skipped + drain.holes() <= u64::MAX,
        ensures
            r.0 == drain.handed_out(),
            final(self)@ == (SourceView {
                skipped: old(self)@.skipped + drain.holes(),
                ..old(self)@
            }),
            r.1 == (if drain.holes() > 0 && report_due(old(self)@.skipped, final(self)@.skipped) {
                Some(final(self)@.skipped as u64)
            } else {
                None
            }),
    {
        self.imu.end(drain)
    }

    /// Go on waiting for a stereo pair: `poll` is what the last poll brought, which took
    /// `took_ns`, after `waited_ns` without a pair. A good pair is numbered and stamped with
    /// the capture time of its left eye, which is made as in [`next_rgb`](Self::next_rgb).
    pub fn next_stereo<'a>(
        &mut self,
        waited_ns: u64,
        took_ns: u64,
        poll: &StereoPoll<'a>,
        clock: &mut EpochOffset,
        now: i128,
    ) -> (r: StereoNext<'a>)
        requires
            clock_offset(now as int),
            old(self)@.streams.stereo && wait_on(waited_ns, took_ns, *poll) is Deliver ==> old(
                self,
            )@.seq < u64::MAX,
        ensures
            final(clock).fixed() == (if r is Frame {
                Some(in_use(old(clock).fixed(), now))
            } else {
                old(clock).fixed()
            }),
            final(self)@ == (SourceView {
                seq: if r is Frame {
                    (old(self)@.seq + 1) as u64
                } else {
                    old(self)@.seq
                },
                ..old(self)@
            }),
            !old(self)@.streams.stereo ==> r == StereoNext::End(None),
            old(self)@.streams.stereo ==> match wait_on(waited_ns, took_ns, *poll) {
                StereoWait::Again { waited_ns: more } => r == StereoNext::Again { waited_ns: more },
                StereoWait::End => r == StereoNext::End(None),
                StereoWait::Unusable(e) => r == StereoNext::End(Some(e)),
                StereoWait::Deliver { width, height } => r matches StereoNext::Frame(frame)
                    && poll matches StereoPoll::Pair(left, right) && {
                    &&& frame.columns() == width
                    &&& frame.rows() == height
                    &&& frame.left_pixels() == left.data@.take(width * height)
                    &&& frame.right_pixels() == right.data@.take(width * height)
                    &&& frame.stamp() == (FrameMeta {
                        seq: (old(self)@.seq + 1) as u64,
                        pts_ns: Some(
                            epoch_ns(
                                left.timestamp_ns as int,
                                in_use(old(clock).fixed(), now) as int,
                            ),
                        ),
                        source_id: None,
                    })
                },
            },
            old(self)@.streams.stereo && poll is Pair ==> {
                let l = poll->Pair_0;
                let right = poll->Pair_1;
                l.width > 0 && l.height > 0 && right.width == l.width && right.height == l.height
                    && (l.stride == 0 || l.stride == l.width) && (right.stride == 0 || right.stride
                    == l.width) && l.data@.len() >= l.width * l.height && right.data@.len()
                    >= l.width * l.height ==> r is Frame
            },
            r matches StereoNext::Frame(frame) ==> poll is Pair && {
                let l = poll->Pair_0;
                let right = poll->Pair_1;
                let t = l.timestamp_ns + (match old(clock).fixed() {
                    Some(first) => first,
                    None => now,
                });
                &&& frame.columns() == l.width && frame.rows() == l.height
                &&& frame.left_pixels() == l.data@.take(l.width * l.height)
                &&& frame.right_pixels() == right.data@.take(l.width * l.height)
                &&& frame.stamp().seq == old(self)@.seq + 1
                &&& frame.stamp().source_id is None
                &&& 0 <= t <= u64::MAX ==> frame.stamp().pts_ns == Some(t as u64)
                &&& t < 0 ==> frame.stamp().pts_ns == Some(0u64)
                &&& t > u64::MAX ==> frame.stamp().pts_ns == Some(u64::MAX)
            },
    {
        if !self.streams.stereo {
            return StereoNext::End(None);
        }
        match judge_poll(waited_ns, took_ns, poll) {
            StereoWait::Again { waited_ns: more } => StereoNext::Again { waited_ns: more },
            StereoWait::End => StereoNext::End(None),
            StereoWait::Unusable(e) => StereoNext::End(Some(e)),
            StereoWait::Deliver { .. } => match poll {
                StereoPoll::Pair(left, right) => {
                    let offset: i128 = clock.steady_epoch_offset_cached(now);
                    let ts: u64 = steady_to_epoch_ns(left.timestamp_ns, offset);
                    self.seq = self.seq + 1;
                    let meta: FrameMeta = FrameMeta {
                        seq: self.seq,
                        pts_ns: Some(ts),
                        source_id: None,
                    };
                    StereoNext::Frame(OakStereoFrame::new(left, right, meta))
                },
                _ => StereoNext::End(None),
            },
        }
    }
}

/// Whether a colour frame holds all of its rows of three bytes a pixel.
pub open spec fn rgb_fits(f: ImgFrame<'_>) -> bool {
    rows_fit(
        3 * f.width,
        f.height as int,
        pitch_of(3 * f.width, f.stride as int),
        f.data@.len() as int,
    )
}

/// A frame that is delivered has as many bytes or samples as its size says: three bytes a
/// pixel of colour, one sample a pixel of depth.
pub proof fn law_delivered_frames_are_tight(f: ImgFrame<'_>)
    ensures
        rgb_fits(f) ==> packed_rows(
            f.data@,
            3 * f.width,
            f.height as int,
            pitch_of(3 * f.width, f.stride as int),
        ).len() == f.width * f.height * 3,
        depth_fits(f.width, f.height, f.stride, f.data@.len() as int) ==> packed_depth(
            f.data@,
            f.width as int,
            f.height as int,
            pitch_of(2 * f.width, f.stride as int),
        ).len() == f.width * f.height,
{
    assert(f.width * f.height * 3 == 3 * f.width * f.height) by (nonlinear_arith);
    assert(0 <= 3 * f.width * f.height && 0 <= f.width * f.height) by (nonlinear_arith);
}

} // verus!
