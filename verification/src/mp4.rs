//! Background MP4 writer: RGBA frames in, an H.264 file out.
//!
//! The pipeline is built on the first frame, because it needs the size. Every frame lasts
//! equally long; the file is finished when no more frames come or one cannot be pushed.

use crate::rtsp::as_signed;
use vstd::prelude::*;
use vstd::string::*;

verus! {

/// The description of the encoding pipeline that writes to a path.
pub open spec fn pipeline_text(out_path: Seq<char>) -> Seq<char> {
    "appsrc name=src is-live=true format=time do-timestamp=false ! videoconvert ! x264enc speed-preset=ultrafast tune=zerolatency bitrate=8000 ! mp4mux ! filesink location="@
        + out_path
}

/// The description of the encoding pipeline that writes to a path.
pub fn pipeline_description(out_path: &str) -> (r: String)
    ensures
        r@ == pipeline_text(out_path@),
        r@
            == "appsrc name=src is-live=true format=time do-timestamp=false ! videoconvert ! x264enc speed-preset=ultrafast tune=zerolatency bitrate=8000 ! mp4mux ! filesink location="@
            + out_path@,
{
    let mut r: String = String::from_str(
        "appsrc name=src is-live=true format=time do-timestamp=false ! videoconvert ! x264enc speed-preset=ultrafast tune=zerolatency bitrate=8000 ! mp4mux ! filesink location=",
    );
    r.append(out_path);
    r
}

/// What the pipeline is told of the frames, in the signed numbers that it takes.
#[derive(Debug, Clone, Copy, PartialEq, Eq, Structural)]
pub struct Caps {
    pub width: i32,
    pub height: i32,
    /// Frames per second.
    pub framerate: i32,
}

/// The low half of a 64-bit number.
pub open spec fn low_half(v: u64) -> u32 {
    (v as int % 0x1_0000_0000) as u32
}

/// What the pipeline is told of frames of a size at a rate.
pub fn caps(w: u32, h: u32, fps: u64) -> (r: Caps)
    ensures
        r == (Caps {
            width: as_signed(w),
            height: as_signed(h),
            framerate: as_signed(low_half(fps)),
        }),
        w <= i32::MAX ==> r.width == w,
        h <= i32::MAX ==> r.height == h,
        fps <= i32::MAX ==> r.framerate == fps,
        (fps - r.framerate) % 0x1_0000_0000 == 0,
        (w - r.width) % 0x1_0000_0000 == 0,
        (h - r.height) % 0x1_0000_0000 == 0,
{
    let rate: u32 = (fps % 0x1_0000_0000) as u32;
    Caps {
        width: crate::rtsp::signed(w),
        height: crate::rtsp::signed(h),
        framerate: crate::rtsp::signed(rate),
    }
}

/// How long a frame lasts at a rate, in nanoseconds; a rate of zero counts as one.
pub open spec fn frame_ns(fps: u64) -> u64 {
    let rate: int = if fps == 0 {
        1
    } else {
        fps as int
    };
    (1_000_000_000int / rate) as u64
}

/// Where the writer stands.
#[derive(Debug, Clone, Copy, PartialEq, Eq, Structural)]
pub enum Phase {
    /// Waiting for a frame.
    Waiting,
    /// Waiting for the pipeline to be built for the frame at hand.
    Building,
    /// Waiting for the frame at hand to be taken.
    Pushing,
    /// Done.
    Ended,
}

/// What happens to the writer.
#[derive(Debug, Clone, Copy, PartialEq, Eq, Structural)]
pub enum Event {
    /// A frame of this size is there.
    Frame { width: u32, height: u32 },
    /// The pipeline was built, or could not be.
    Built(bool),
    /// The frame was taken, or could not be.
    Pushed(bool),
    /// No more frames will come.
    Closed,
}

/// What the writer has to do.
#[derive(Debug, Clone, Copy, PartialEq, Eq, Structural)]
pub enum Action {
    /// Build the pipeline for frames of this size.
    Build { width: u32, height: u32 },
    /// Push the frame at hand with this time and duration, in nanoseconds.
    Push { pts: u64, duration: u64 },
    /// Wait for a frame.
    Wait,
    /// Finish the file, which has so many frames.
    Finish { frames: u64 },
    /// Stop; there is no file to finish.
    Stop,
    /// Nothing: the event does not fit.
    Ignore,
}

/// The writer's bookkeeping.
#[derive(Debug)]
pub struct Mp4Writer {
    frame_ns: u64,
    phase: Phase,
    has_pipe: bool,
    idx: u64,
}

/// What of the writer its behaviour depends on.
pub struct WriterState {
    /// How long a frame lasts.
    pub frame_ns: u64,
    pub phase: Phase,
    /// Whether the pipeline was built.
    pub has_pipe: bool,
    /// How many frames were taken.
    pub taken: u64,
}

impl WriterState {
    /// Push the frame at hand: frame number `n` begins when `n` frames have passed.
    pub open spec fn push(self) -> (WriterState, Action) {
        (
            WriterState { phase: Phase::Pushing, has_pipe: true, ..self },
            Action::Push { pts: (self.taken * self.frame_ns) as u64, duration: self.frame_ns },
        )
    }

    /// Come to an end, with a file to finish if there is a pipeline.
    pub open spec fn finish(self) -> (WriterState, Action) {
        (
            WriterState { phase: Phase::Ended, ..self },
            if self.has_pipe {
                Action::Finish { frames: self.taken }
            } else {
                Action::Stop
            },
        )
    }

    /// What an event leads to.
    pub open spec fn next(self, event: Event) -> (WriterState, Action) {
        match (self.phase, event) {
            (Phase::Waiting, Event::Frame { width, height }) => if self.has_pipe {
                self.push()
            } else {
                (
                    WriterState { phase: Phase::Building, ..self },
                    Action::Build { width, height },
                )
            },
            (Phase::Waiting, Event::Closed) => self.finish(),
            (Phase::Building, Event::Built(ok)) => if ok {
                self.push()
            } else {
                self.finish()
            },
            (Phase::Pushing, Event::Pushed(ok)) => if ok {
                (
                    WriterState { phase: Phase::Waiting, taken: (self.taken + 1) as u64, ..self },
                    Action::Wait,
                )
            } else {
                self.finish()
            },
            _ => (self, Action::Ignore),
        }
    }

    /// Whether the time of the next frame can be told in 64 bits.
    pub open spec fn within_clock(self) -> bool {
        self.taken * self.frame_ns < u64::MAX
    }

    /// Whether there is a time for the frame that an event has pushed, and a number for one
    /// that it counts. All other events can always happen.
    pub open spec fn room_for(self, event: Event) -> bool {
        match (self.phase, event) {
            (Phase::Waiting, Event::Frame { .. }) => self.has_pipe ==> self.within_clock(),
            (Phase::Building, Event::Built(ok)) => ok ==> self.within_clock(),
            (Phase::Pushing, Event::Pushed(ok)) => ok ==> self.taken < u64::MAX,
            _ => true,
        }
    }

    /// A pipeline is there in all phases but the first two.
    pub open spec fn sound(self) -> bool {
        &&& self.phase == Phase::Building ==> !self.has_pipe
        &&& self.phase == Phase::Pushing ==> self.has_pipe
        &&& !self.has_pipe ==> self.taken == 0
    }
}

impl Mp4Writer {
    /// The writer's state.
    pub closed spec fn state(self) -> WriterState {
        WriterState {
            frame_ns: self.frame_ns,
            phase: self.phase,
            has_pipe: self.has_pipe,
            taken: self.idx,
        }
    }

    /// A writer of files at a rate.
    pub fn new(fps: u64) -> (r: Self)
        ensures
            r.state() == (WriterState {
                frame_ns: frame_ns(fps),
                phase: Phase::Waiting,
                has_pipe: false,
                taken: 0,
            }),
    {
        let rate: u64 = if fps == 0 {
            1
        } else {
            fps
        };
        Mp4Writer {
            frame_ns: 1_000_000_000 / rate,
            phase: Phase::Waiting,
            has_pipe: false,
            idx: 0,
        }
    }

    /// Push the frame at hand.
    fn push(&mut self) -> (r: Action)
        requires
            old(self).state().within_clock(),
        ensures
            (final(self).state(), r) == old(self).state().push(),
    {
        self.phase = Phase::Pushing;
        self.has_pipe = true;
        Action::Push { pts: self.idx * self.frame_ns, duration: self.frame_ns }
    }

    /// Come to an end.
    fn finish(&mut self) -> (r: Action)
        ensures
            (final(self).state(), r) == old(self).state().finish(),
    {
        self.phase = Phase::Ended;
        if self.has_pipe {
            Action::Finish { frames: self.idx }
        } else {
            Action::Stop
        }
    }

    /// Whether the time of the next frame can be told.
    fn in_time(&self) -> (r: bool)
        ensures
            r == self.state().within_clock(),
    {
        match self.idx.checked_mul(self.frame_ns) {
            Some(pts) => pts < u64::MAX,
            None => false,
        }
    }

    /// Whether there is room for an event, which there is for some centuries.
    pub fn can_step(&self, event: Event) -> (r: bool)
        ensures
            r == self.state().room_for(event),
            self.state().taken * self.state().frame_ns < u64::MAX && self.state().taken < u64::MAX
                ==> r,
    {
        match (self.phase, event) {
            (Phase::Waiting, Event::Frame { .. }) => !self.has_pipe || self.in_time(),
            (Phase::Building, Event::Built(ok)) => !ok || self.in_time(),
            (Phase::Pushing, Event::Pushed(ok)) => !ok || self.idx < u64::MAX,
            _ => true,
        }
    }

    /// What to do now that `event` has happened.
    pub fn step(&mut self, event: Event) -> (r: Action)
        requires
            old(self).state().room_for(event),
        ensures
            (final(self).state(), r) == old(self).state().next(event),
    {
        match (self.phase, event) {
            (Phase::Waiting, Event::Frame { width, height }) => if self.has_pipe {
                self.push()
            } else {
                self.phase = Phase::Building;
                Action::Build { width, height }
            },
            (Phase::Waiting, Event::Closed) => self.finish(),
            (Phase::Building, Event::Built(ok)) => if ok {
                self.push()
            } else {
                self.finish()
            },
            (Phase::Pushing, Event::Pushed(ok)) => if ok {
                self.phase = Phase::Waiting;
                self.idx = self.idx + 1;
                Action::Wait
            } else {
                self.finish()
            },
            _ => Action::Ignore,
        }
    }
}

/// The state after a history of events.
pub open spec fn state_after(start: WriterState, events: Seq<Event>) -> WriterState
    decreases events.len(),
{
    if events.len() == 0 {
        start
    } else {
        state_after(start, events.drop_last()).next(events.last()).0
    }
}

/// How many frames a history of events saw taken while one was being pushed.
pub open spec fn frames_taken(start: WriterState, events: Seq<Event>) -> nat
    decreases events.len(),
{
    if events.len() == 0 {
        0
    } else {
        let before = frames_taken(start, events.drop_last());
        if state_after(start, events.drop_last()).phase == Phase::Pushing && events.last()
            == Event::Pushed(true) {
            before + 1
        } else {
            before
        }
    }
}

/// A file has as many frames as were taken, whatever else happened, and a file is finished
/// only where a pipeline was built.
pub proof fn law_every_taken_frame_counts(fps: u64, events: Seq<Event>)
    requires
        frames_taken(
            WriterState { frame_ns: frame_ns(fps), phase: Phase::Waiting, has_pipe: false, taken: 0 },
            events,
        ) <= u64::MAX,
    ensures
        ({
            let start = WriterState {
                frame_ns: frame_ns(fps),
                phase: Phase::Waiting,
                has_pipe: false,
                taken: 0,
            };
            let end = state_after(start, events);
            &&& end.sound()
            &&& end.frame_ns == frame_ns(fps)
            &&& end.taken == frames_taken(start, events)
        }),
    decreases events.len(),
{
    if events.len() > 0 {
        law_every_taken_frame_counts(fps, events.drop_last());
    }
}

/// Frames follow one another without a gap: a frame begins where the one before it ends.
pub proof fn law_frames_are_contiguous(s: WriterState, width: u32, height: u32)
    requires
        s.phase == Phase::Waiting,
        s.has_pipe,
        s.taken < u64::MAX,
        (s.taken + 1) * s.frame_ns < u64::MAX,
    ensures
        ({
            let frame = Event::Frame { width, height };
            let (pushing, first) = s.next(frame);
            let (waiting, _) = pushing.next(Event::Pushed(true));
            let (_, second) = waiting.next(frame);
            first matches Action::Push { pts: p, duration: d } && second matches Action::Push {
                pts: q,
                ..
            } && q == p + d
        }),
{
    assert((s.taken + 1) * s.frame_ns == s.taken * s.frame_ns + s.frame_ns) by (nonlinear_arith);
}

/// A frame lasts as long as makes `fps` of them fill a second, to within the nanosecond that
/// each is rounded down by. A rate of zero counts as one.
pub proof fn law_frames_fill_a_second(fps: u64)
    ensures
        fps > 0 ==> frame_ns(fps) * fps <= 1_000_000_000 < (frame_ns(fps) + 1) * fps,
        frame_ns(0) == 1_000_000_000,
{
    if fps > 0 {
        let f = fps as int;
        let t = 1_000_000_000int / f;
        vstd::arithmetic::div_mod::lemma_fundamental_div_mod(1_000_000_000int, f);
        vstd::arithmetic::div_mod::lemma_mod_bound(1_000_000_000int, f);
        assert(0 <= t <= 1_000_000_000int) by (nonlinear_arith)
            requires
                f >= 1,
                t == 1_000_000_000int / f,
        ;
        assert(t * f <= 1_000_000_000int < (t + 1) * f) by (nonlinear_arith)
            requires
                1_000_000_000int == f * t + 1_000_000_000int % f,
                0 <= 1_000_000_000int % f < f,
        ;
    }
}

/// What the writer does with each event. The first frame has the pipeline built for its own
/// size; once there is one, frame number `n` is pushed at `n` frame times and lasts one; a frame
/// that is taken is counted and the next one waited for; the end of the frames, a pipeline that
/// cannot be built and a frame that is not taken end the file, with all frames that were taken,
/// if there is one; and nothing happens behind the end.
pub proof fn law_what_the_writer_does(s: WriterState, event: Event, width: u32, height: u32)
    ensures
        ({
            let frame = Event::Frame { width, height };
            let waiting = WriterState { phase: Phase::Waiting, ..s };
            let building = WriterState { phase: Phase::Building, ..s };
            let pushing = WriterState { phase: Phase::Pushing, ..s };
            let ended = WriterState { phase: Phase::Ended, ..s };
            let push = Action::Push {
                pts: (s.taken * s.frame_ns) as u64,
                duration: s.frame_ns,
            };
            let finish = Action::Finish { frames: s.taken };
            &&& !s.has_pipe ==> waiting.next(frame) == (building, Action::Build { width, height })
            &&& s.has_pipe ==> waiting.next(frame) == (pushing, push)
            &&& building.next(Event::Built(true)) == (
                WriterState { has_pipe: true, ..pushing },
                push,
            )
            &&& s.taken < u64::MAX ==> pushing.next(Event::Pushed(true)) == (
                WriterState { taken: (s.taken + 1) as u64, ..waiting },
                Action::Wait,
            )
            &&& s.has_pipe ==> waiting.next(Event::Closed) == (ended, finish)
            &&& s.has_pipe ==> pushing.next(Event::Pushed(false)) == (ended, finish)
            &&& !s.has_pipe ==> waiting.next(Event::Closed) == (ended, Action::Stop)
            &&& !s.has_pipe ==> building.next(Event::Built(false)) == (ended, Action::Stop)
            &&& ended.next(event) == (ended, Action::Ignore)
            &&& event is Built || event is Pushed ==> waiting.next(event) == (
                waiting,
                Action::Ignore,
            )
            &&& !(event is Built) ==> building.next(event) == (building, Action::Ignore)
            &&& !(event is Pushed) ==> pushing.next(event) == (pushing, Action::Ignore)
        }),
{
}

/// The events of a recording of `n` frames, each of which is taken.
pub open spec fn recording(width: u32, height: u32, n: nat) -> Seq<Event>
    decreases n,
{
    if n == 0 {
        Seq::empty()
    } else if n == 1 {
        seq![Event::Frame { width, height }, Event::Built(true), Event::Pushed(true)]
    } else {
        recording(width, height, (n - 1) as nat) + seq![
            Event::Frame { width, height },
            Event::Pushed(true),
        ]
    }
}

/// A recording of `n` frames ends as a file of `n` frames, whatever their number, size and
/// rate: each has been taken, and the one behind it would begin where they end.
pub proof fn law_a_recording_holds_its_frames(fps: u64, width: u32, height: u32, n: nat)
    requires
        0 < n < u64::MAX,
        n * frame_ns(fps) <= u64::MAX,
    ensures
        ({
            let start = WriterState {
                frame_ns: frame_ns(fps),
                phase: Phase::Waiting,
                has_pipe: false,
                taken: 0,
            };
            let end = state_after(start, recording(width, height, n));
            &&& end == (WriterState {
                phase: Phase::Waiting,
                has_pipe: true,
                taken: n as u64,
                ..start
            })
            &&& end.next(Event::Closed).1 == (Action::Finish { frames: n as u64 })
            &&& end.next(Event::Frame { width, height }).1 == (Action::Push {
                pts: (n * frame_ns(fps)) as u64,
                duration: frame_ns(fps),
            })
        }),
    decreases n,
{
    let start = WriterState {
        frame_ns: frame_ns(fps),
        phase: Phase::Waiting,
        has_pipe: false,
        taken: 0,
    };
    let frame = Event::Frame { width, height };
    let all = recording(width, height, n);
    if n == 1 {
        reveal_with_fuel(state_after, 4);
        assert(all.drop_last() =~= seq![frame, Event::Built(true)]);
        assert(all.drop_last().drop_last() =~= seq![frame]);
        assert(all.drop_last().drop_last().drop_last() =~= Seq::empty());
    } else {
        let m = (n - 1) as nat;
        assert(m * frame_ns(fps) <= n * frame_ns(fps)) by (nonlinear_arith)
            requires
                m <= n,
        ;
        law_a_recording_holds_its_frames(fps, width, height, m);
        let before = recording(width, height, m);
        assert(all.last() == Event::Pushed(true));
        assert(all.drop_last() =~= before + seq![frame]);
        assert(all.drop_last().last() == frame);
        assert(all.drop_last().drop_last() =~= before);
        reveal_with_fuel(state_after, 3);
    }
}

/// There is room for an event wherever the next frame has a time and a number. It lacks only for
/// a frame to be pushed without a time, and for one to be counted without a number.
pub proof fn law_there_is_room_while_the_clock_lasts(s: WriterState, event: Event)
    ensures
        s.taken < u64::MAX && s.taken * s.frame_ns < u64::MAX ==> s.room_for(event),
        event is Closed || event == Event::Built(false) || event == Event::Pushed(false)
            ==> s.room_for(event),
        s.phase == Phase::Waiting && event is Frame ==> (s.room_for(event) <==> !s.has_pipe
            || s.taken * s.frame_ns < u64::MAX),
        s.phase == Phase::Building && event == Event::Built(true) ==> (s.room_for(event) <==> s.taken
            * s.frame_ns < u64::MAX),
        s.phase == Phase::Pushing && event == Event::Pushed(true) ==> (s.room_for(event) <==> s.taken
            < u64::MAX),
{
}

} // verus!
