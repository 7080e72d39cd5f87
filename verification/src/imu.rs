//! The inertial stream: accelerometer and gyroscope, drained apart from the frames.
//!
//! The IMU reports hundreds of times a second against some thirty frames, so the caller
//! drains it at whatever rate it likes and pairs samples with frames by time.

use crate::ieee::{all_equal32, all_same32, Float32};
use crate::policy::{clamp_epoch_ns, clock_offset, epoch_ns, in_use, EpochOffset};
use std::collections::VecDeque;
use vstd::array::array_as_slice;
use vstd::prelude::*;
use vstd::std_specs::cmp::{PartialEqSpec, PartialEqSpecImpl};

verus! {

/// A time on the steady clock as the device reports it.
#[derive(Debug, Clone, Copy, PartialEq, Eq, Structural)]
pub struct RawTimestamp {
    pub sec: i64,
    pub nsec: i64,
}

impl RawTimestamp {
    /// The time in nanoseconds.
    pub open spec fn nanos(self) -> int {
        self.sec * 1_000_000_000 + self.nsec
    }

    /// Whether both parts are zero, which is what a report that was never filled in holds.
    pub fn is_zero(self) -> (r: bool)
        ensures
            r == (self.sec == 0 && self.nsec == 0),
    {
        self.sec == 0 && self.nsec == 0
    }
}

/// One three-axis report.
#[derive(Debug, Clone, Copy)]
pub struct ImuVecReport {
    /// The three axes, in the frame of the chip.
    pub xyz: [Float32; 3],
    /// The same, rotated into the frame of the camera; read only where samples are aligned.
    pub turned: [Float32; 3],
    /// When it was taken, on the steady clock.
    pub timestamp: RawTimestamp,
}

/// The reports that the device sends together.
#[derive(Debug, Clone, Copy)]
pub struct ImuPacket {
    pub accelerometer: ImuVecReport,
    pub gyroscope: ImuVecReport,
}

/// One IMU reading: accelerometer and gyroscope, sampled together.
///
/// `ts_ns` is on the same timeline as the image frames, so that samples can be interpolated
/// against a frame's time directly.
#[derive(Debug, Clone, Copy)]
pub struct ImuSample {
    /// Capture time, epoch nanoseconds.
    pub ts_ns: u64,
    /// Accelerometer, metres per second squared.
    pub accel: [Float32; 3],
    /// Gyroscope, radians per second.
    pub gyro: [Float32; 3],
}

impl PartialEq for ImuSample {
    /// Numerically equal.
    fn eq(&self, other: &Self) -> (r: bool) {
        self.ts_ns == other.ts_ns && all_equal32(
            array_as_slice(&self.accel),
            array_as_slice(&other.accel),
        ) && all_equal32(array_as_slice(&self.gyro), array_as_slice(&other.gyro))
    }
}

impl PartialEqSpecImpl for ImuSample {
    open spec fn obeys_eq_spec() -> bool {
        true
    }

    open spec fn eq_spec(&self, other: &Self) -> bool {
        self.ts_ns == other.ts_ns && all_same32(self.accel@, other.accel@) && all_same32(
            self.gyro@,
            other.gyro@,
        )
    }
}

/// Whether a packet lacks one of its reports: a report that was never filled in has a zero
/// timestamp, and its zeros must not pass for "not rotating".
pub open spec fn hole(p: ImuPacket) -> bool {
    ||| p.accelerometer.timestamp == (RawTimestamp { sec: 0, nsec: 0 })
    ||| p.gyroscope.timestamp == (RawTimestamp { sec: 0, nsec: 0 })
}

/// The axes of a report in the frame in which samples are handed out.
pub open spec fn axes(r: ImuVecReport, aligned: bool) -> [Float32; 3] {
    if aligned {
        r.turned
    } else {
        r.xyz
    }
}

/// The reading that a packet without a hole carries, stamped with the accelerometer's time.
/// `aligned` says whether samples are in the frame of the camera.
pub open spec fn reading(p: ImuPacket, aligned: bool, offset: int) -> ImuSample {
    ImuSample {
        ts_ns: epoch_ns(p.accelerometer.timestamp.nanos(), offset),
        accel: axes(p.accelerometer, aligned),
        gyro: axes(p.gyroscope, aligned),
    }
}

/// Samples are rotated exactly where they are said to be aligned, and then both vectors are:
/// a sample never mixes the frame of the chip with that of the camera.
pub proof fn law_both_vectors_are_turned_or_neither(p: ImuPacket, offset: int)
    ensures
        reading(p, true, offset).accel == p.accelerometer.turned,
        reading(p, true, offset).gyro == p.gyroscope.turned,
        reading(p, false, offset).accel == p.accelerometer.xyz,
        reading(p, false, offset).gyro == p.gyroscope.xyz,
        reading(p, true, offset).ts_ns == reading(p, false, offset).ts_ns,
{
}

/// Convert one packet into a sample on the epoch timeline; `None` is a hole.
pub fn convert_packet(p: &ImuPacket, aligned: bool, offset: i128) -> (r: Option<ImuSample>)
    requires
        !hole(*p) ==> i128::MIN <= p.accelerometer.timestamp.nanos() + offset <= i128::MAX,
    ensures
        r == (if hole(*p) {
            None
        } else {
            Some(reading(*p, aligned, offset as int))
        }),
        r is None <==> (p.accelerometer.timestamp.sec == 0 && p.accelerometer.timestamp.nsec == 0)
            || (p.gyroscope.timestamp.sec == 0 && p.gyroscope.timestamp.nsec == 0),
        r matches Some(s) ==> s.accel == (if aligned {
            p.accelerometer.turned
        } else {
            p.accelerometer.xyz
        }) && s.gyro == (if aligned {
            p.gyroscope.turned
        } else {
            p.gyroscope.xyz
        }),
        r matches Some(s) ==> {
            let t = p.accelerometer.timestamp.sec * 1_000_000_000 + p.accelerometer.timestamp.nsec
                + offset;
            &&& 0 <= t <= u64::MAX ==> s.ts_ns == t
            &&& t < 0 ==> s.ts_ns == 0
            &&& t > u64::MAX ==> s.ts_ns == u64::MAX
        },
{
    if p.accelerometer.timestamp.is_zero() || p.gyroscope.timestamp.is_zero() {
        return None;
    }
    let taken: RawTimestamp = p.accelerometer.timestamp;
    let steady: i128 = taken.sec as i128 * 1_000_000_000 + taken.nsec as i128;
    let (accel, gyro): ([Float32; 3], [Float32; 3]) = if aligned {
        (p.accelerometer.turned, p.gyroscope.turned)
    } else {
        (p.accelerometer.xyz, p.gyroscope.xyz)
    };
    Some(ImuSample { ts_ns: clamp_epoch_ns(steady + offset), accel, gyro })
}

/// The readings of a batch, in order, holes left out.
pub open spec fn readings(packets: Seq<ImuPacket>, aligned: bool, offset: int) -> Seq<ImuSample> {
    packets.filter(|p: ImuPacket| !hole(p)).map_values(
        |p: ImuPacket| reading(p, aligned, offset),
    )
}

/// The readings of a batch with one more packet.
proof fn lemma_readings_step(packets: Seq<ImuPacket>, i: int, aligned: bool, offset: int)
    requires
        0 <= i < packets.len(),
    ensures
        readings(packets.take(i + 1), aligned, offset) == (if hole(packets[i]) {
            readings(packets.take(i), aligned, offset)
        } else {
            readings(packets.take(i), aligned, offset).push(reading(packets[i], aligned, offset))
        }),
{
    reveal(Seq::filter);
    assert(packets.take(i + 1).drop_last() =~= packets.take(i));
    assert(packets.take(i + 1).last() == packets[i]);
    assert(readings(packets.take(i + 1), aligned, offset) =~= (if hole(packets[i]) {
        readings(packets.take(i), aligned, offset)
    } else {
        readings(packets.take(i), aligned, offset).push(reading(packets[i], aligned, offset))
    }));
}

/// No reading comes from nowhere: a batch has at most as many as it has packets.
proof fn lemma_readings_len(packets: Seq<ImuPacket>, i: int, aligned: bool, offset: int)
    requires
        0 <= i <= packets.len(),
    ensures
        readings(packets.take(i), aligned, offset).len() <= i,
    decreases i,
{
    if i == 0 {
        reveal(Seq::filter);
    } else {
        lemma_readings_len(packets, i - 1, aligned, offset);
        lemma_readings_step(packets, i - 1, aligned, offset);
    }
}

/// The samples on their way to the caller: those handed out, those waiting, and how many
/// more the current call may hand out.
#[verifier::ext_equal]
pub struct Flow {
    pub out: Seq<ImuSample>,
    pub waiting: Seq<ImuSample>,
    pub room: nat,
}

impl Flow {
    /// Samples wait only while the current call can hand out no more.
    pub open spec fn in_order(self) -> bool {
        self.room > 0 ==> self.waiting.len() == 0
    }

    /// All samples, in the order in which they reach the caller.
    pub open spec fn line(self) -> Seq<ImuSample> {
        self.out + self.waiting
    }

    /// A call that may hand out `cap` samples begins: those that waited go first.
    pub open spec fn called(self, cap: nat) -> Flow {
        let n = if self.waiting.len() < cap { self.waiting.len() } else { cap };
        Flow {
            out: self.out + self.waiting.take(n as int),
            waiting: self.waiting.skip(n as int),
            room: (cap - n) as nat,
        }
    }

    /// A batch of readings arrives: what fits is handed out, the remainder waits.
    pub open spec fn fed(self, fresh: Seq<ImuSample>) -> Flow {
        let n = if fresh.len() < self.room { fresh.len() } else { self.room };
        Flow {
            out: self.out + fresh.take(n as int),
            waiting: self.waiting + fresh.skip(n as int),
            room: (self.room - n) as nat,
        }
    }
}

/// What moves the flow on.
pub enum FlowStep {
    /// The caller asks for at most so many samples.
    Call { cap: nat },
    /// The device delivers a batch of readings.
    Batch { fresh: Seq<ImuSample> },
}

/// The flow after a history of calls and batches.
pub open spec fn flow_after(start: Flow, steps: Seq<FlowStep>) -> Flow
    decreases steps.len(),
{
    if steps.len() == 0 {
        start
    } else {
        let before = flow_after(start, steps.drop_last());
        match steps.last() {
            FlowStep::Call { cap } => before.called(cap),
            FlowStep::Batch { fresh } => before.fed(fresh),
        }
    }
}

/// All readings that the device delivered in a history, in order.
pub open spec fn delivered(steps: Seq<FlowStep>) -> Seq<ImuSample>
    decreases steps.len(),
{
    if steps.len() == 0 {
        Seq::empty()
    } else {
        let before = delivered(steps.drop_last());
        match steps.last() {
            FlowStep::Call { .. } => before,
            FlowStep::Batch { fresh } => before + fresh,
        }
    }
}

/// Nothing is dropped and nothing is reordered: whatever the caller asks for and however the
/// batches fall, the samples handed out followed by those that wait are the readings that
/// the device delivered, in the order in which it delivered them.
pub proof fn law_nothing_is_dropped(start: Flow, steps: Seq<FlowStep>)
    requires
        start.in_order(),
    ensures
        flow_after(start, steps).in_order(),
        flow_after(start, steps).line() == start.line() + delivered(steps),
    decreases steps.len(),
{
    if steps.len() == 0 {
        assert(start.line() + delivered(steps) =~= start.line());
    } else {
        law_nothing_is_dropped(start, steps.drop_last());
        let before = flow_after(start, steps.drop_last());
        let after = flow_after(start, steps);
        match steps.last() {
            FlowStep::Call { cap } => {
                assert(after.line() =~= before.line());
            },
            FlowStep::Batch { fresh } => {
                assert(after.line() =~= before.line() + fresh);
                assert(start.line() + delivered(steps) =~= start.line() + delivered(
                    steps.drop_last(),
                ) + fresh);
            },
        }
    }
}

/// One call in progress: how many samples it has handed out of those that it may.
#[derive(Debug)]
pub struct ImuDrain {
    cap: usize,
    appended: usize,
    skipped: u64,
    clock: EpochOffset,
}

impl ImuDrain {
    /// How many samples the call has handed out.
    pub closed spec fn handed_out(self) -> nat {
        self.appended as nat
    }

    /// How many more it may hand out.
    pub closed spec fn room(self) -> nat {
        if self.appended <= self.cap {
            (self.cap - self.appended) as nat
        } else {
            0
        }
    }

    /// The offset between the clocks that its samples are stamped with, once there is one.
    pub closed spec fn offset(self) -> Option<i128> {
        self.clock.fixed()
    }

    /// How many packets with a hole it has met.
    pub closed spec fn holes(self) -> nat {
        self.skipped as nat
    }

    /// How many packets with a hole the call has met.
    pub fn hole_count(&self) -> (r: u64)
        ensures
            r == self.holes(),
    {
        self.skipped
    }

    /// Whether the call has room for another batch.
    pub fn wants_batch(&self) -> (r: bool)
        ensures
            r == (self.room() > 0),
    {
        self.appended < self.cap
    }
}

/// The inertial side of an open device: samples that were taken off the queue and not yet
/// handed out, and the number of packets dropped for a hole.
#[derive(Debug)]
pub struct ImuBuffer {
    pending: VecDeque<ImuSample>,
    ts_skipped: u64,
}

impl ImuBuffer {
    /// The samples that wait for the next call.
    pub closed spec fn waiting(self) -> Seq<ImuSample> {
        self.pending@
    }

    /// Packets dropped so far.
    pub closed spec fn skipped(self) -> nat {
        self.ts_skipped as nat
    }

    /// The flow of samples through this buffer during a call.
    pub open spec fn flow(self, out: Seq<ImuSample>, drain: ImuDrain) -> Flow {
        Flow { out, waiting: self.waiting(), room: drain.room() }
    }

    /// Nothing waiting, nothing dropped.
    pub fn new() -> (r: Self)
        ensures
            r.waiting() == Seq::<ImuSample>::empty(),
            r.skipped() == 0,
    {
        ImuBuffer { pending: VecDeque::new(), ts_skipped: 0 }
    }

    /// How many samples wait for the next call.
    pub fn pending_len(&self) -> (r: usize)
        ensures
            r == self.waiting().len(),
    {
        self.pending.len()
    }

    /// Packets dropped so far.
    pub fn skip_count(&self) -> (r: u64)
        ensures
            r == self.skipped(),
    {
        self.ts_skipped
    }

    /// Begin a call that may append `cap` samples to `out`: samples that did not fit an
    /// earlier call go first, in order.
    pub fn begin(&mut self, out: &mut Vec<ImuSample>, cap: usize) -> (drain: ImuDrain)
        ensures
            final(self).flow(final(out)@, drain) == (Flow {
                out: old(out)@,
                waiting: old(self).waiting(),
                room: 0,
            }).called(cap as nat),
            drain.handed_out() == final(out)@.len() - old(out)@.len(),
            drain.holes() == 0,
            drain.offset() is None,
            drain.handed_out() + drain.room() == cap,
            drain.handed_out() == (if old(self).waiting().len() < cap {
                old(self).waiting().len()
            } else {
                cap as nat
            }),
            final(out)@ + final(self).waiting() == old(out)@ + old(self).waiting(),
            final(self).skipped() == old(self).skipped(),
            final(self).flow(final(out)@, drain).in_order(),
    {
        let waiting: usize = self.pending.len();
        let n: usize = if waiting < cap {
            waiting
        } else {
            cap
        };
        let ghost w = self.pending@;
        let ghost o = out@;
        let mut taken: usize = 0;
        while taken < n
            invariant
                taken <= n <= w.len(),
                self.pending@ == w.skip(taken as int),
                self.ts_skipped == old(self).ts_skipped,
                out@ == o + w.take(taken as int),
            decreases n - taken,
        {
            match self.pending.pop_front() {
                Some(s) => {
                    out.push(s);
                    proof {
                        assert(w.skip(taken as int).drop_first() =~= w.skip(taken + 1));
                        assert(o + w.take(taken + 1) =~= (o + w.take(taken as int)).push(s));
                    }
                },
                None => {},
            }
            taken += 1;
        }
        let drain: ImuDrain = ImuDrain { cap, appended: n, skipped: 0, clock: EpochOffset::new() };
        proof {
            assert(self.flow(out@, drain) =~= (Flow { out: o, waiting: w, room: 0 }).called(
                cap as nat,
            ));
            assert(out@ + self.waiting() =~= o + w);
        }
        drain
    }

    /// Take in one batch: hand out what fits, keep the remainder for the next call. `now` is
    /// the offset between the clocks; the first one of a call is used for all of its samples.
    pub fn absorb(
        &mut self,
        drain: &mut ImuDrain,
        packets: &[ImuPacket],
        aligned: bool,
        now: i128,
        out: &mut Vec<ImuSample>,
    )
        requires
            clock_offset(now as int),
            old(self).flow(old(out)@, *old(drain)).in_order(),
            old(drain).holes() + packets@.len() <= u64::MAX,
        ensures
            final(drain).offset() == Some(in_use(old(drain).offset(), now)),
            final(self).flow(final(out)@, *final(drain)) == old(self).flow(
                old(out)@,
                *old(drain),
            ).fed(readings(packets@, aligned, in_use(old(drain).offset(), now) as int)),
            final(self).flow(final(out)@, *final(drain)).in_order(),
            final(out)@ + final(self).waiting() == old(out)@ + old(self).waiting() + readings(
                packets@,
                aligned,
                in_use(old(drain).offset(), now) as int,
            ),
            final(drain).handed_out() + final(drain).room() == old(drain).handed_out() + old(
                drain,
            ).room(),
            final(drain).room() > 0 ==> final(self).waiting().len() == 0,
            final(drain).handed_out() == old(drain).handed_out() + (final(out)@.len() - old(
                out,
            )@.len()),
            final(drain).holes() == old(drain).holes() + packets@.len() - readings(
                packets@,
                aligned,
                in_use(old(drain).offset(), now) as int,
            ).len(),
            final(self).skipped() == old(self).skipped(),
    {
        let ghost start = self.flow(out@, *drain);
        let ghost all = packets@;
        let offset: i128 = drain.clock.steady_epoch_offset_cached(now);
        let mut i: usize = 0;
        proof {
            reveal(Seq::filter);
            let none = readings(all.take(0), aligned, offset as int);
            assert(none =~= Seq::empty());
            assert(start.fed(none) =~= start);
        }
        while i < packets.len()
            invariant
                i <= all.len(),
                all == packets@,
                clock_offset(offset as int),
                drain.clock.fixed() == Some(offset),
                self.ts_skipped == old(self).ts_skipped,
                self.flow(out@, *drain) == start.fed(
                    readings(all.take(i as int), aligned, offset as int),
                ),
                drain.appended - old(drain).appended == out@.len() - old(out)@.len(),
                drain.cap == old(drain).cap,
                old(drain).skipped + all.len() <= u64::MAX,
                readings(all.take(i as int), aligned, offset as int).len() <= i,
                drain.skipped == old(drain).skipped + i - readings(
                    all.take(i as int),
                    aligned,
                    offset as int,
                ).len(),
            decreases all.len() - i,
        {
            let ghost seen = readings(all.take(i as int), aligned, offset as int);
            proof {
                lemma_readings_step(all, i as int, aligned, offset as int);
                lemma_readings_len(all, i as int, aligned, offset as int);
            }
            match convert_packet(&packets[i], aligned, offset) {
                Some(s) => {
                    if drain.appended < drain.cap {
                        out.push(s);
                        drain.appended = drain.appended + 1;
                    } else {
                        self.pending.push_back(s);
                    }
                    proof {
                        assert(self.flow(out@, *drain) =~= start.fed(seen.push(s)));
                    }
                },
                None => {
                    drain.skipped = drain.skipped + 1;
                },
            }
            i += 1;
        }
        proof {
            assert(all.take(i as int) =~= all);
            assert(out@ + self.waiting() =~= old(out)@ + old(self).waiting() + readings(
                all,
                aligned,
                offset as int,
            ));
        }
    }

    /// End a call: how many samples it handed out, and, where the running number of dropped
    /// packets is due to be reported, that number. It is due at the first dropped packet and
    /// then at every thousandth.
    pub fn end(&mut self, drain: ImuDrain) -> (r: (usize, Option<u64>))
        requires
            old(self).skipped() + drain.holes() <= u64::MAX,
        ensures
            r.0 == drain.handed_out(),
            final(self).waiting() == old(self).waiting(),
            final(self).skipped() == old(self).skipped() + drain.holes(),
            r.1 == (if drain.holes() > 0 && report_due(
                old(self).skipped(),
                final(self).skipped(),
            ) {
                Some(final(self).skipped() as u64)
            } else {
                None
            }),
    {
        let report: Option<u64> = if drain.skipped > 0 {
            self.note_ts_skipped(drain.skipped)
        } else {
            None
        };
        (drain.appended, report)
    }

    /// Add to the number of dropped packets, and tell it where it is due to be reported.
    pub fn note_ts_skipped(&mut self, n: u64) -> (r: Option<u64>)
        requires
            old(self).skipped() + n <= u64::MAX,
        ensures
            final(self).waiting() == old(self).waiting(),
            final(self).skipped() == old(self).skipped() + n,
            r == (if report_due(old(self).skipped(), final(self).skipped()) {
                Some(final(self).skipped() as u64)
            } else {
                None
            }),
    {
        let before: u64 = self.ts_skipped;
        self.ts_skipped = before + n;
        if before == 0 || self.ts_skipped / 1000 != before / 1000 {
            Some(self.ts_skipped)
        } else {
            None
        }
    }
}

/// Whether a number of dropped packets that grew from `before` to `after` is to be reported:
/// the first time, and whenever it passes a multiple of a thousand.
pub open spec fn report_due(before: nat, after: nat) -> bool {
    before == 0 || before / 1000 != after / 1000
}

/// A call hands out as many of the samples that wait as it may, in order, and may then hand out
/// just as many more as are missing: together they are what was asked for.
pub proof fn law_a_call_hands_out_what_it_may(start: Flow, cap: nat)
    ensures
        ({
            let after = start.called(cap);
            let given = after.out.len() - start.out.len();
            &&& given + after.room == cap
            &&& given == start.waiting.len() || given == cap
            &&& 0 <= given <= start.waiting.len()
            &&& after.out == start.out + start.waiting.take(given)
            &&& after.waiting == start.waiting.skip(given)
            &&& after.room > 0 ==> after.waiting.len() == 0
        }),
{
}

/// A batch is handed out as far as there is room, in order, and room is used up by nothing
/// else; what does not fit waits behind what waits already.
pub proof fn law_a_batch_fills_the_room(start: Flow, fresh: Seq<ImuSample>)
    ensures
        ({
            let after = start.fed(fresh);
            let given = after.out.len() - start.out.len();
            &&& given + after.room == start.room
            &&& given == fresh.len() || after.room == 0
            &&& 0 <= given <= fresh.len()
            &&& after.out == start.out + fresh.take(given)
            &&& after.waiting == start.waiting + fresh.skip(given)
        }),
{
}

/// A packet is a hole exactly if one of its reports has no time; otherwise its reading is that
/// of its own two reports, at the time of the accelerometer on the epoch timeline.
pub proof fn law_reading_of_a_packet(p: ImuPacket, aligned: bool, offset: int)
    ensures
        hole(p) <==> (p.accelerometer.timestamp.sec == 0 && p.accelerometer.timestamp.nsec == 0) || (
        p.gyroscope.timestamp.sec == 0 && p.gyroscope.timestamp.nsec == 0),
        ({
            let s = reading(p, aligned, offset);
            let t = p.accelerometer.timestamp.sec * 1_000_000_000 + p.accelerometer.timestamp.nsec
                + offset;
            &&& 0 <= t <= u64::MAX ==> s.ts_ns == t
            &&& t < 0 ==> s.ts_ns == 0
            &&& t > u64::MAX ==> s.ts_ns == u64::MAX
            &&& aligned ==> s.accel == p.accelerometer.turned && s.gyro == p.gyroscope.turned
            &&& !aligned ==> s.accel == p.accelerometer.xyz && s.gyro == p.gyroscope.xyz
        }),
{
}

/// The readings of a batch are those of its packets one after the other: a packet with a hole
/// gives none, any other gives one, and how a stream falls into batches makes no difference.
pub proof fn law_readings_come_packet_by_packet(
    a: Seq<ImuPacket>,
    p: ImuPacket,
    b: Seq<ImuPacket>,
    aligned: bool,
    offset: int,
)
    ensures
        readings(Seq::empty(), aligned, offset).len() == 0,
        hole(p) ==> readings(seq![p], aligned, offset).len() == 0,
        !hole(p) ==> readings(seq![p], aligned, offset) == seq![reading(p, aligned, offset)],
        readings(a + b, aligned, offset) == readings(a, aligned, offset) + readings(
            b,
            aligned,
            offset,
        ),
{
    reveal(Seq::filter);
    let kept = |q: ImuPacket| !hole(q);
    assert(seq![p].drop_last() =~= Seq::<ImuPacket>::empty());
    assert(Seq::<ImuPacket>::empty().filter(kept).len() == 0);
    assert(!hole(p) ==> seq![p].filter(kept) =~= seq![p]);
    assert(!hole(p) ==> readings(seq![p], aligned, offset) =~= seq![reading(p, aligned, offset)]);
    Seq::filter_distributes_over_add(a, b, kept);
    assert(readings(a + b, aligned, offset) =~= readings(a, aligned, offset) + readings(
        b,
        aligned,
        offset,
    ));
}

/// Dropped packets are reported when the first ones are dropped, and later exactly when their
/// number reaches or passes a multiple of a thousand.
pub proof fn law_drops_are_reported_by_the_thousand(before: nat, after: nat)
    requires
        before <= after,
    ensures
        before == 0 ==> report_due(before, after),
        before > 0 ==> (report_due(before, after) <==> exists|k: int|
            before < #[trigger] (k * 1000) <= after),
{
    if before > 0 {
        let k = after as int / 1000;
        assert(k * 1000 <= after < k * 1000 + 1000);
        if report_due(before, after) {
            assert(before < k * 1000 <= after);
        }
        if exists|k: int| before < #[trigger] (k * 1000) <= after {
            let m = choose|k: int| before < #[trigger] (k * 1000) <= after;
            assert(before as int / 1000 < m && m <= after as int / 1000);
        }
    }
}

/// Two samples are equal exactly if they were taken at the same time and agree in each of their
/// six numbers.
pub proof fn law_samples_are_compared_number_by_number(a: ImuSample, b: ImuSample)
    ensures
        PartialEqSpec::eq_spec(&a, &b) <==> {
            &&& a.ts_ns == b.ts_ns
            &&& forall|i: int| 0 <= i < 3 ==> (#[trigger] a.accel@[i]).same(b.accel@[i])
            &&& forall|i: int| 0 <= i < 3 ==> (#[trigger] a.gyro@[i]).same(b.gyro@[i])
        },
{
}

} // verus!
