//! RTSP source: the pipeline that is built for a URL, and the frames that come out of it.

use crate::stamp::{FrameMeta, Stamped};
use crate::text::{decimal_text, same_text, signed_decimal_text};
use crate::url::check_url;
use vstd::prelude::*;
use vstd::string::*;

verus! {

/// Errors of the source.
#[derive(Debug, Clone, PartialEq, Eq)]
pub enum GstSourceError {
    /// The media framework reports an error.
    Glib(String),
    /// The pipeline could not change its state.
    StateChange(String),
    /// The pipeline could not be set up.
    Setup(&'static str),
    /// The GPU reports an error.
    Cuda(String),
    /// The stream ended before its first frame.
    NoFirstFrame,
    /// A decoded buffer could not be imported into GPU memory.
    NvmmImport { fd: i32, size: u64, code: i32 },
    /// The URL was refused; it is given without its credentials.
    BadUrl { reason: &'static str, url: String },
}

impl GstSourceError {
    /// The error in words.
    pub open spec fn text(self) -> Seq<char> {
        match self {
            GstSourceError::Glib(e) => "GStreamer: "@ + e@,
            GstSourceError::StateChange(e) => "GStreamer state change: "@ + e@,
            GstSourceError::Setup(what) => "pipeline setup: "@ + what@,
            GstSourceError::Cuda(e) => "CUDA: "@ + e@,
            GstSourceError::NoFirstFrame =>
                "stream ended before first frame — check RTSP URL and H.264 codec"@,
            GstSourceError::NvmmImport { fd, size, code } =>
                "cudaImportExternalMemory failed (fd="@ + crate::text::signed_text(fd as int)
                    + ", size="@ + crate::text::decimal(size as nat) + ", err="@
                    + crate::text::signed_text(code as int) + ")"@,
            GstSourceError::BadUrl { reason, url } =>
                "invalid RTSP URL ("@ + reason@ + "): "@ + url@,
        }
    }

    /// The error in words.
    pub fn message(&self) -> (r: String)
        ensures
            r@ == self.text(),
    {
        match self {
            GstSourceError::Glib(e) => {
                let mut r: String = String::from_str("GStreamer: ");
                r.append(e.as_str());
                r
            },
            GstSourceError::StateChange(e) => {
                let mut r: String = String::from_str("GStreamer state change: ");
                r.append(e.as_str());
                r
            },
            GstSourceError::Setup(what) => {
                let mut r: String = String::from_str("pipeline setup: ");
                r.append(what);
                r
            },
            GstSourceError::Cuda(e) => {
                let mut r: String = String::from_str("CUDA: ");
                r.append(e.as_str());
                r
            },
            GstSourceError::NoFirstFrame => String::from_str(
                "stream ended before first frame — check RTSP URL and H.264 codec",
            ),
            GstSourceError::NvmmImport { fd, size, code } => {
                let mut r: String = String::from_str("cudaImportExternalMemory failed (fd=");
                r.append(signed_decimal_text(*fd as i64).as_str());
                r.append(", size=");
                r.append(decimal_text(*size).as_str());
                r.append(", err=");
                r.append(signed_decimal_text(*code as i64).as_str());
                r.append(")");
                r
            },
            GstSourceError::BadUrl { reason, url } => {
                let mut r: String = String::from_str("invalid RTSP URL (");
                r.append(reason);
                r.append("): ");
                r.append(url.as_str());
                r
            },
        }
    }
}

// ---------------------------------------------------------------------------
// The pipeline
// ---------------------------------------------------------------------------

/// The format in which decoded frames stay in device memory, with the size that the scaler
/// brings them to, if any.
pub open spec fn nvmm_caps_text(resize: Option<(u32, u32)>) -> Seq<char> {
    match resize {
        None => "video/x-raw(memory:NVMM),format=RGBA"@,
        Some((w, h)) => "video/x-raw(memory:NVMM),format=RGBA,width="@ + crate::text::decimal(
            w as nat,
        ) + ",height="@ + crate::text::decimal(h as nat),
    }
}

/// That format in words of the media framework.
pub fn nvmm_caps(resize: Option<(u32, u32)>) -> (r: String)
    ensures
        r@ == nvmm_caps_text(resize),
{
    match resize {
        None => String::from_str("video/x-raw(memory:NVMM),format=RGBA"),
        Some((w, h)) => {
            let mut r: String = String::from_str("video/x-raw(memory:NVMM),format=RGBA,width=");
            r.append(decimal_text(w as u64).as_str());
            r.append(",height=");
            r.append(decimal_text(h as u64).as_str());
            r
        },
    }
}

/// What stands before the format in the description of the downstream chain.
pub open spec fn bin_head() -> Seq<char> {
    "rtph264depay name=depay ! h264parse ! nvv4l2decoder enable-max-performance=1 disable-dpb=true ! nvvidconv ! "@
}

/// What stands behind it: one branch for device memory, one for snapshots on the host. Each
/// drops frames rather than hold the decoder up.
pub open spec fn bin_tail() -> Seq<char> {
    " ! tee name=t t. ! queue max-size-buffers=2 leaky=upstream ! appsink name=sink max-buffers=1 drop=true sync=false t. ! queue max-size-buffers=2 leaky=upstream ! nvvidconv ! video/x-raw,format=RGBA ! appsink name=sink_cpu max-buffers=1 drop=true sync=false"@
}

/// The description of everything downstream of the network source. It holds no part of the
/// URL, which is handed to the source element as a property and never parsed as part of a
/// description.
pub fn bin_description(resize: Option<(u32, u32)>) -> (r: String)
    ensures
        r@ == bin_head() + nvmm_caps_text(resize) + bin_tail(),
        resize is None ==> r@
            == "rtph264depay name=depay ! h264parse ! nvv4l2decoder enable-max-performance=1 disable-dpb=true ! nvvidconv ! "@
            + "video/x-raw(memory:NVMM),format=RGBA"@
            + " ! tee name=t t. ! queue max-size-buffers=2 leaky=upstream ! appsink name=sink max-buffers=1 drop=true sync=false t. ! queue max-size-buffers=2 leaky=upstream ! nvvidconv ! video/x-raw,format=RGBA ! appsink name=sink_cpu max-buffers=1 drop=true sync=false"@,
{
    let mut r: String = String::from_str(
        "rtph264depay name=depay ! h264parse ! nvv4l2decoder enable-max-performance=1 disable-dpb=true ! nvvidconv ! ",
    );
    r.append(nvmm_caps(resize).as_str());
    r.append(
        " ! tee name=t t. ! queue max-size-buffers=2 leaky=upstream ! appsink name=sink max-buffers=1 drop=true sync=false t. ! queue max-size-buffers=2 leaky=upstream ! nvvidconv ! video/x-raw,format=RGBA ! appsink name=sink_cpu max-buffers=1 drop=true sync=false",
    );
    r
}

/// How the network source is set up.
#[derive(Debug, Clone, PartialEq, Eq)]
pub struct SourceSettings {
    /// The URL, as a property of its own.
    pub location: String,
    /// How long frames are held back to even out the network, in milliseconds.
    pub latency_ms: u32,
    /// How media data is carried: inside the control connection, which firewalls let through
    /// and which loses nothing. Many cameras never get a datagram out.
    pub protocols: &'static str,
}

/// How the network source is set up for a URL.
pub fn source_settings(url: &str) -> (r: SourceSettings)
    ensures
        r.location@ == url@,
        r.latency_ms == 100,
        r.protocols@ == "tcp"@,
{
    SourceSettings { location: String::from_str(url), latency_ms: 100, protocols: "tcp" }
}

/// Whether a stream or a pad of the network source is kept: video is, and so is one that
/// does not say what it carries.
pub fn is_video(media: Option<&str>) -> (r: bool)
    ensures
        r == (match media {
            None => true,
            Some(m) => m@ == "video"@,
        }),
{
    match media {
        None => true,
        Some(m) => same_text(m, "video"),
    }
}

/// Whether a pad of the network source is linked to the downstream chain. `sink_linked` is
/// `None` where the chain or its sink pad is gone.
pub fn links_pad(sink_linked: Option<bool>, media: Option<&str>) -> (r: bool)
    ensures
        r == (sink_linked == Some(false) && (match media {
            None => true,
            Some(m) => m@ == "video"@,
        })),
{
    match sink_linked {
        Some(linked) => !linked && is_video(media),
        None => false,
    }
}

/// The outside work of opening a source, in the order in which it is done.
#[derive(Debug, Clone, Copy, PartialEq, Eq, Structural)]
pub enum ConnectStep {
    /// Start the media framework.
    Init,
    /// Create the network source with the URL as its location.
    MakeSource,
    /// Parse the description of the downstream chain.
    ParseBin,
    /// Add the network source to the pipeline.
    AddSource,
    /// Add the downstream chain to the pipeline.
    AddBin,
    /// Find the sink of frames in device memory.
    FindSink,
    /// Take it as a sink.
    CastSink,
    /// Find the sink of host snapshots.
    FindCpuSink,
    /// Take it as a sink.
    CastCpuSink,
    /// Set the pipeline playing.
    Play,
    /// Wait for the size of the first frame.
    FirstFrame,
    /// Compile the kernel that packs frames.
    CompileKernel,
}

/// What to do next.
#[derive(Debug)]
pub enum ConnectAction {
    /// Do this step and report how it went.
    Do(ConnectStep),
    /// Give up.
    Fail(GstSourceError),
    /// The source is open.
    Ready,
}

/// The step behind a step that went well; `None` when the source is open, or, after the
/// first step, when the URL is refused.
pub open spec fn step_behind(step: ConnectStep, url: Seq<char>) -> Option<ConnectStep> {
    match step {
        ConnectStep::Init => if crate::url::url_fault(url) is None {
            Some(ConnectStep::MakeSource)
        } else {
            None
        },
        ConnectStep::MakeSource => Some(ConnectStep::ParseBin),
        ConnectStep::ParseBin => Some(ConnectStep::AddSource),
        ConnectStep::AddSource => Some(ConnectStep::AddBin),
        ConnectStep::AddBin => Some(ConnectStep::FindSink),
        ConnectStep::FindSink => Some(ConnectStep::CastSink),
        ConnectStep::CastSink => Some(ConnectStep::FindCpuSink),
        ConnectStep::FindCpuSink => Some(ConnectStep::CastCpuSink),
        ConnectStep::CastCpuSink => Some(ConnectStep::Play),
        ConnectStep::Play => Some(ConnectStep::FirstFrame),
        ConnectStep::FirstFrame => Some(ConnectStep::CompileKernel),
        ConnectStep::CompileKernel => None,
    }
}

/// Whether `e` is the error of a step that failed for the reason `why`.
pub open spec fn fails_as(step: ConnectStep, why: Seq<char>, e: GstSourceError) -> bool {
    match step {
        ConnectStep::Init | ConnectStep::ParseBin => e matches GstSourceError::Glib(w) && w@ == why,
        ConnectStep::MakeSource => e matches GstSourceError::Setup(w) && w@
            == "failed to create rtspsrc"@,
        ConnectStep::AddSource => e matches GstSourceError::Setup(w) && w@ == "add rtspsrc"@,
        ConnectStep::AddBin => e matches GstSourceError::Setup(w) && w@ == "add bin"@,
        ConnectStep::FindSink => e matches GstSourceError::Setup(w) && w@ == "no appsink"@,
        ConnectStep::CastSink => e matches GstSourceError::Setup(w) && w@
            == "element is not AppSink"@,
        ConnectStep::FindCpuSink => e matches GstSourceError::Setup(w) && w@ == "no sink_cpu"@,
        ConnectStep::CastCpuSink => e matches GstSourceError::Setup(w) && w@
            == "sink_cpu is not AppSink"@,
        ConnectStep::Play => e matches GstSourceError::StateChange(w) && w@ == why,
        ConnectStep::FirstFrame => e is NoFirstFrame,
        ConnectStep::CompileKernel => e matches GstSourceError::Cuda(w) && w@
            == "compile pack kernel: "@ + why,
    }
}

/// The error of a step that failed.
fn step_error(step: ConnectStep, why: String) -> (e: GstSourceError)
    ensures
        fails_as(step, why@, e),
{
    match step {
        ConnectStep::Init => GstSourceError::Glib(why),
        ConnectStep::ParseBin => GstSourceError::Glib(why),
        ConnectStep::MakeSource => GstSourceError::Setup("failed to create rtspsrc"),
        ConnectStep::AddSource => GstSourceError::Setup("add rtspsrc"),
        ConnectStep::AddBin => GstSourceError::Setup("add bin"),
        ConnectStep::FindSink => GstSourceError::Setup("no appsink"),
        ConnectStep::CastSink => GstSourceError::Setup("element is not AppSink"),
        ConnectStep::FindCpuSink => GstSourceError::Setup("no sink_cpu"),
        ConnectStep::CastCpuSink => GstSourceError::Setup("sink_cpu is not AppSink"),
        ConnectStep::Play => GstSourceError::StateChange(why),
        ConnectStep::FirstFrame => GstSourceError::NoFirstFrame,
        ConnectStep::CompileKernel => {
            let mut text: String = String::from_str("compile pack kernel: ");
            text.append(why.as_str());
            GstSourceError::Cuda(text)
        },
    }
}

/// Go on with opening a source: `outcome` is how `step` went. The URL is checked once the
/// media framework runs and before anything is built.
pub fn connect_next(step: ConnectStep, url: &str, outcome: Result<(), String>) -> (r: ConnectAction)
    ensures
        match outcome {
            Err(why) => r matches ConnectAction::Fail(e) && fails_as(step, why@, e),
            Ok(_) => match step_behind(step, url@) {
                Some(next) => r == ConnectAction::Do(next),
                None => match (step, crate::url::url_fault(url@)) {
                    (ConnectStep::Init, Some(why)) => r matches ConnectAction::Fail(
                        GstSourceError::BadUrl { reason, url: shown },
                    ) && reason@ == why && shown@ == crate::url::redacted(url@),
                    _ => r is Ready,
                },
            },
        },
{
    match outcome {
        Err(why) => ConnectAction::Fail(step_error(step, why)),
        Ok(_) => match step {
            ConnectStep::Init => match check_url(url) {
                Ok(_) => ConnectAction::Do(ConnectStep::MakeSource),
                Err(e) => ConnectAction::Fail(e),
            },
            ConnectStep::MakeSource => ConnectAction::Do(ConnectStep::ParseBin),
            ConnectStep::ParseBin => ConnectAction::Do(ConnectStep::AddSource),
            ConnectStep::AddSource => ConnectAction::Do(ConnectStep::AddBin),
            ConnectStep::AddBin => ConnectAction::Do(ConnectStep::FindSink),
            ConnectStep::FindSink => ConnectAction::Do(ConnectStep::CastSink),
            ConnectStep::CastSink => ConnectAction::Do(ConnectStep::FindCpuSink),
            ConnectStep::FindCpuSink => ConnectAction::Do(ConnectStep::CastCpuSink),
            ConnectStep::CastCpuSink => ConnectAction::Do(ConnectStep::Play),
            ConnectStep::Play => ConnectAction::Do(ConnectStep::FirstFrame),
            ConnectStep::FirstFrame => ConnectAction::Do(ConnectStep::CompileKernel),
            ConnectStep::CompileKernel => ConnectAction::Ready,
        },
    }
}

/// The step at work after the given outcomes of the steps before it; `None` once opening
/// has ended.
pub open spec fn step_at_work(url: Seq<char>, outcomes: Seq<bool>) -> Option<ConnectStep>
    decreases outcomes.len(),
{
    if outcomes.len() == 0 {
        Some(ConnectStep::Init)
    } else {
        match step_at_work(url, outcomes.drop_last()) {
            Some(step) => if outcomes.last() {
                step_behind(step, url)
            } else {
                None
            },
            None => None,
        }
    }
}

/// The steps in their order.
pub open spec fn step_number(step: ConnectStep) -> int {
    match step {
        ConnectStep::Init => 0,
        ConnectStep::MakeSource => 1,
        ConnectStep::ParseBin => 2,
        ConnectStep::AddSource => 3,
        ConnectStep::AddBin => 4,
        ConnectStep::FindSink => 5,
        ConnectStep::CastSink => 6,
        ConnectStep::FindCpuSink => 7,
        ConnectStep::CastCpuSink => 8,
        ConnectStep::Play => 9,
        ConnectStep::FirstFrame => 10,
        ConnectStep::CompileKernel => 11,
    }
}

/// A refused URL never comes near a pipeline: whatever the outside work does, nothing is
/// done after the media framework was started.
pub proof fn law_refused_url_builds_nothing(url: Seq<char>, outcomes: Seq<bool>)
    requires
        crate::url::url_fault(url) is Some,
        outcomes.len() > 0,
    ensures
        step_at_work(url, outcomes) is None,
    decreases outcomes.len(),
{
    if outcomes.len() > 1 {
        law_refused_url_builds_nothing(url, outcomes.drop_last());
    }
    reveal_with_fuel(step_at_work, 2);
}

/// An accepted URL takes every step once and in order for as long as all goes well, and the
/// first step that fails is the last one done.
pub proof fn law_steps_are_taken_in_order(url: Seq<char>, outcomes: Seq<bool>)
    requires
        crate::url::url_fault(url) is None,
    ensures
        match step_at_work(url, outcomes) {
            Some(step) => step_number(step) == outcomes.len() && forall|i: int|
                0 <= i < outcomes.len() ==> #[trigger] outcomes[i],
            None => outcomes.len() >= 12 || exists|i: int|
                0 <= i < outcomes.len() && !(#[trigger] outcomes[i]),
        },
    decreases outcomes.len(),
{
    if outcomes.len() > 0 {
        let before = outcomes.drop_last();
        law_steps_are_taken_in_order(url, before);
        assert forall|i: int| 0 <= i < before.len() implies before[i] == #[trigger] outcomes[i] by {}
        if step_at_work(url, before) is None && outcomes.len() < 13 {
            if exists|i: int| 0 <= i < before.len() && !(#[trigger] before[i]) {
                let i = choose|i: int| 0 <= i < before.len() && !(#[trigger] before[i]);
                assert(!outcomes[i]);
            }
        }
        assert(outcomes.last() == outcomes[outcomes.len() - 1]);
    }
}

// ---------------------------------------------------------------------------
// Frames
// ---------------------------------------------------------------------------

/// A decoded frame in device memory, with the owner of whatever must live for as long as `fd`
/// is in use.
pub struct NvmmFrame<K> {
    keep_alive: K,
    /// File descriptor of the buffer, valid for the lifetime of this frame.
    pub fd: i32,
    /// Bytes from row to row.
    pub pitch: u32,
    /// Size of the whole allocation in bytes.
    pub size: u64,
    /// Capture time in nanoseconds, if the decoder gave one.
    pub pts_ns: Option<u64>,
}

/// What a frame says of its buffer.
pub struct NvmmView {
    pub fd: i32,
    pub pitch: u32,
    pub size: u64,
    pub pts_ns: Option<u64>,
}

impl<K> View for NvmmFrame<K> {
    type V = NvmmView;

    closed spec fn view(&self) -> NvmmView {
        NvmmView { fd: self.fd, pitch: self.pitch, size: self.size, pts_ns: self.pts_ns }
    }
}

impl<K> NvmmFrame<K> {
    /// The owner of the buffer.
    pub closed spec fn owner(self) -> K {
        self.keep_alive
    }

    /// A frame around a decoded buffer.
    pub fn new(keep_alive: K, fd: i32, pitch: u32, size: u64, pts_ns: Option<u64>) -> (r: Self)
        ensures
            r.owner() == keep_alive,
            r@ == (NvmmView { fd, pitch, size, pts_ns }),
    {
        NvmmFrame { keep_alive, fd, pitch, size, pts_ns }
    }

    /// What an import of this buffer into GPU memory that returned `rc` amounts to: zero is
    /// success.
    pub fn import_result(&self, rc: i32) -> (r: Result<(), GstSourceError>)
        ensures
            r == (if rc == 0 {
                Ok(())
            } else {
                Err(GstSourceError::NvmmImport { fd: self@.fd, size: self@.size, code: rc })
            }),
    {
        if rc == 0 {
            Ok(())
        } else {
            Err(GstSourceError::NvmmImport { fd: self.fd, size: self.size, code: rc })
        }
    }
}

/// What the decoder says of one buffer.
#[derive(Debug, Clone, Copy)]
pub struct Surface {
    /// Pixels per row, as the caps give it.
    pub width: i32,
    /// Number of rows, as the caps give it.
    pub height: i32,
    /// File descriptor of the buffer; negative on error.
    pub fd: i32,
    /// Bytes from row to row.
    pub pitch: u32,
    /// Size of the whole allocation in bytes.
    pub size: u64,
    /// 0 for rows one behind the other, anything else for a layout that cannot be imported.
    pub layout: i32,
    /// Capture time, if the decoder gave one.
    pub pts_ns: Option<u64>,
}

/// A signed 32-bit number read as an unsigned one.
pub open spec fn as_unsigned(v: i32) -> u32 {
    if v < 0 {
        (v + 0x1_0000_0000) as u32
    } else {
        v as u32
    }
}

/// A signed 32-bit number read as an unsigned one.
fn unsigned(v: i32) -> (r: u32)
    ensures
        r == as_unsigned(v),
{
    if v < 0 {
        (v as i64 + 0x1_0000_0000) as u32
    } else {
        v as u32
    }
}

impl Surface {
    /// Whether the buffer can be packed: it has a descriptor and bytes, rows one behind the
    /// other, and room in each row for its pixels of four bytes.
    pub open spec fn usable(self) -> bool {
        &&& self.fd >= 0
        &&& self.size != 0
        &&& self.layout == 0
        &&& self.width != 0
        &&& self.pitch >= 4 * as_unsigned(self.width)
    }
}

/// The intake of decoded frames: it announces the size of the first one.
#[derive(Debug)]
pub struct Intake {
    dims_sent: bool,
}

impl Intake {
    /// Whether the size was announced.
    pub closed spec fn announced(self) -> bool {
        self.dims_sent
    }

    /// Nothing announced yet.
    pub fn new() -> (r: Self)
        ensures
            !r.announced(),
    {
        Intake { dims_sent: false }
    }

    /// Take in one decoded buffer. `None` is a malformed one, refused before it can reach the
    /// packing kernel; otherwise the frame, and the size if it is to be announced.
    pub fn sample<K>(&mut self, keep_alive: K, s: &Surface) -> (r: Option<
        (NvmmFrame<K>, Option<(u32, u32)>),
    >)
        ensures
            r is Some <==> s.usable(),
            r is Some <==> s.fd >= 0 && s.size > 0 && s.layout == 0 && s.width > 0 && s.pitch >= 4
                * s.width,
            r matches Some((_, Some((w, h)))) ==> w == s.width && (s.height >= 0 ==> h == s.height),
            r matches Some((frame, dims)) ==> {
                &&& frame.owner() == keep_alive
                &&& frame@ == (NvmmView {
                    fd: s.fd,
                    pitch: s.pitch,
                    size: s.size,
                    pts_ns: s.pts_ns,
                })
                &&& dims == (if old(self).announced() {
                    None
                } else {
                    Some((as_unsigned(s.width), as_unsigned(s.height)))
                })
            },
            final(self).announced() == (old(self).announced() || s.usable()),
    {
        let width: u32 = unsigned(s.width);
        let height: u32 = unsigned(s.height);
        if s.fd < 0 || s.size == 0 || s.layout != 0 || width == 0 || (s.pitch as u64) < 4 * (
        width as u64) {
            return None;
        }
        let dims: Option<(u32, u32)> = if self.dims_sent {
            None
        } else {
            Some((width, height))
        };
        self.dims_sent = true;
        Some((NvmmFrame::new(keep_alive, s.fd, s.pitch, s.size, s.pts_ns), dims))
    }
}

/// An unsigned 32-bit number read as a signed one.
pub open spec fn as_signed(v: u32) -> i32 {
    if v >= 0x8000_0000 {
        (v - 0x1_0000_0000) as i32
    } else {
        v as i32
    }
}

/// An unsigned 32-bit number read as a signed one.
pub(crate) fn signed(v: u32) -> (r: i32)
    ensures
        r == as_signed(v),
{
    if v >= 0x8000_0000 {
        (v as i64 - 0x1_0000_0000) as i32
    } else {
        v as i32
    }
}

/// The arguments of the packing kernel.
#[derive(Debug, Clone, Copy, PartialEq, Eq, Structural)]
pub struct PackArgs {
    /// Bytes from row to row of the source.
    pub pitch: i32,
    /// Pixels per row.
    pub width: i32,
    /// Number of pixels.
    pub pixels: i32,
    /// Number of threads to start, one per pixel.
    pub threads: u32,
    /// Bytes of the packed image, three per pixel.
    pub bytes: u64,
}

/// Where the kernel's thread `i` reads the first byte of its pixel.
pub open spec fn pack_source(width: int, pitch: int, i: int) -> int {
    (i / width) * pitch + 4 * (i % width)
}

/// How the packing kernel is started for frames of a size whose rows are `pitch` bytes apart.
pub open spec fn pack_arguments(columns: u32, rows: u32, pitch: u32) -> PackArgs {
    PackArgs {
        pitch: as_signed(pitch),
        width: as_signed(columns),
        pixels: as_signed((columns * rows) as u32),
        threads: (columns * rows) as u32,
        bytes: (3 * (columns * rows)) as u64,
    }
}

/// The place of the last byte that is read of a frame.
pub open spec fn last_byte_read(columns: u32, rows: u32, pitch: u32) -> int {
    (rows - 1) * pitch + 4 * (columns - 1) + 2
}

/// The packing kernel stays inside a frame that was taken in, where the source has the size
/// of that frame: started with the arguments that [`RtspSource::pack_args`] gives, each thread
/// below both the number of threads and the number of pixels reads its three bytes from the
/// row of its pixel and writes inside the packed image. The kernel counts bytes in signed 32
/// bits, so the frame has to be small enough for that; every place that it computes is.
pub proof fn law_pack_stays_inside(s: Surface, i: int)
    requires
        s.usable(),
        last_byte_read(as_unsigned(s.width), as_unsigned(s.height), s.pitch) <= i32::MAX,
        ({
            let args = pack_arguments(as_unsigned(s.width), as_unsigned(s.height), s.pitch);
            0 <= i < args.threads && i < args.pixels
        }),
    ensures
        ({
            let args = pack_arguments(as_unsigned(s.width), as_unsigned(s.height), s.pitch);
            let from = pack_source(args.width as int, args.pitch as int, i);
            let y = i / args.width as int;
            &&& args.width > 0
            &&& 0 <= y < as_unsigned(s.height)
            &&& y * s.pitch <= from
            &&& from + 3 < (y + 1) * s.pitch
            &&& from + 2 <= i32::MAX
            &&& 0 <= 3 * i && 3 * i + 2 < args.bytes
            &&& 3 * i + 2 <= i32::MAX
        }),
{
    let w = as_unsigned(s.width) as int;
    let h = as_unsigned(s.height) as int;
    let p = s.pitch as int;
    assert(0 <= (h - 1) * p || h == 0) by (nonlinear_arith)
        requires
            h >= 0,
            p >= 0,
    ;
    if h == 0 {
        assert(w * h == 0) by (nonlinear_arith)
            requires
                h == 0,
        ;
    }
    assert(h > 0);
    assert(w * h - 1 <= (h - 1) * p + 4 * (w - 1) + 2 && 3 * (w * h) - 1 <= (h - 1) * p + 4 * (w
        - 1) + 2) by (nonlinear_arith)
        requires
            w >= 1,
            h >= 1,
            p >= 4 * w,
    ;
    assert(w * h >= 0) by (nonlinear_arith)
        requires
            w >= 0,
            h >= 0,
    ;
    vstd::arithmetic::div_mod::lemma_fundamental_div_mod(i, w);
    vstd::arithmetic::div_mod::lemma_mod_bound(i, w);
    let y = i / w;
    let x = i % w;
    assert(0 <= y < h) by (nonlinear_arith)
        requires
            0 < w,
            0 <= i < w * h,
            i == w * y + x,
            0 <= x < w,
    ;
    if h == 1 {
        assert(y == 0);
        assert(0 * as_signed(s.pitch) == 0 && 0 * p == 0);
    } else {
        assert(p <= (h - 1) * p) by (nonlinear_arith)
            requires
                h >= 2,
                p >= 0,
        ;
    }
    assert(y * p <= (h - 1) * p) by (nonlinear_arith)
        requires
            y <= h - 1,
            p >= 0,
    ;
    assert((y + 1) * p == y * p + p) by (nonlinear_arith);
}

/// The state of an open source that does not belong to the media framework or the GPU.
#[derive(Debug)]
pub struct RtspSource {
    width: u32,
    height: u32,
    source_id: u32,
    seq: u64,
}

impl RtspSource {
    /// Width of the frames.
    pub closed spec fn columns(self) -> u32 {
        self.width
    }

    /// Height of the frames.
    pub closed spec fn rows(self) -> u32 {
        self.height
    }

    /// The camera's number.
    pub closed spec fn id(self) -> u32 {
        self.source_id
    }

    /// How many frames it has emitted.
    pub closed spec fn emitted(self) -> u64 {
        self.seq
    }

    /// A source whose first frame has the given size; its number is 0.
    pub fn new(width: u32, height: u32) -> (r: Self)
        ensures
            r.columns() == width,
            r.rows() == height,
            r.id() == 0,
            r.emitted() == 0,
    {
        RtspSource { width, height, source_id: 0, seq: 0 }
    }

    /// Number of the last frame that was emitted; 0 before the first.
    pub fn seq(&self) -> (r: u64)
        ensures
            r == self.emitted(),
    {
        self.seq
    }

    pub fn width(&self) -> (r: u32)
        ensures
            r == self.columns(),
    {
        self.width
    }

    pub fn height(&self) -> (r: u32)
        ensures
            r == self.rows(),
    {
        self.height
    }

    /// Set the number that is stamped onto every frame, so that consumers of several cameras
    /// can tell frames apart.
    pub fn with_source_id(self, id: u32) -> (r: Self)
        ensures
            r.id() == id,
            r.columns() == self.columns(),
            r.rows() == self.rows(),
            r.emitted() == self.emitted(),
    {
        RtspSource { width: self.width, height: self.height, source_id: id, seq: self.seq }
    }

    /// How the packing kernel is started for a frame.
    pub fn pack_args<K>(&self, frame: &NvmmFrame<K>) -> (r: PackArgs)
        requires
            self.columns() * self.rows() <= u32::MAX,
        ensures
            r == pack_arguments(self.columns(), self.rows(), frame@.pitch),
            r.threads == self.columns() * self.rows(),
            r.bytes == 3 * (self.columns() * self.rows()),
            self.columns() * self.rows() <= i32::MAX ==> r.pixels == self.columns() * self.rows(),
            self.columns() <= i32::MAX ==> r.width == self.columns(),
            frame@.pitch <= i32::MAX ==> r.pitch == frame@.pitch,
    {
        proof {
            assert(0 <= self.width * self.height) by (nonlinear_arith);
        }
        let pixels: u32 = self.width * self.height;
        PackArgs {
            pitch: signed(frame.pitch),
            width: signed(self.width),
            pixels: signed(pixels),
            threads: pixels,
            bytes: 3 * (pixels as u64),
        }
    }

    /// The next frame, stamped with its number, its capture time and the camera: `image` is
    /// the packed image, `None` where the import or the packing failed; `frame` is `None` at
    /// the end of the stream. Only frames that are handed out are counted, from 1 on.
    pub fn next_frame<K, I>(&mut self, frame: Option<&NvmmFrame<K>>, image: Option<I>) -> (r:
        Option<Stamped<I>>)
        requires
            frame is Some && image is Some ==> old(self).emitted() < u64::MAX,
        ensures
            r is Some <==> frame is Some && image is Some,
            r matches Some(s) ==> s.data == image->Some_0 && s.meta == (FrameMeta {
                seq: (old(self).emitted() + 1) as u64,
                pts_ns: frame->Some_0@.pts_ns,
                source_id: Some(old(self).id()),
            }),
            final(self).emitted() == old(self).emitted() + (if r is Some {
                1int
            } else {
                0
            }),
            final(self).columns() == old(self).columns(),
            final(self).rows() == old(self).rows(),
            final(self).id() == old(self).id(),
    {
        match (frame, image) {
            (Some(f), Some(img)) => {
                self.seq = self.seq + 1;
                let meta: FrameMeta = FrameMeta {
                    seq: self.seq,
                    pts_ns: f.pts_ns,
                    source_id: Some(self.source_id),
                };
                Some(Stamped::new(meta, img))
            },
            _ => None,
        }
    }
}

/// Every pixel is packed, and by one thread alone: there are as many threads as pixels, the
/// pixel in column `x` of row `y` belongs to thread `y * columns + x`, which is started, reads
/// at the start of that pixel and finds itself below the number of pixels; and the packed image
/// has room for all of them.
pub proof fn law_every_pixel_is_packed(columns: u32, rows: u32, pitch: u32, x: int, y: int)
    requires
        columns * rows <= i32::MAX,
        pitch <= i32::MAX,
        0 <= x < columns,
        0 <= y < rows,
    ensures
        ({
            let args = pack_arguments(columns, rows, pitch);
            let i = y * columns + x;
            &&& args.threads == columns * rows
            &&& args.pixels == columns * rows
            &&& args.bytes == 3 * (columns * rows)
            &&& args.width == columns
            &&& args.pitch == pitch
            &&& 0 <= i < args.threads
            &&& i < args.pixels
            &&& pack_source(args.width as int, args.pitch as int, i) == y * pitch + 4 * x
        }),
{
    let w = columns as int;
    let h = rows as int;
    let i = y * w + x;
    assert(0 <= i < w * h) by (nonlinear_arith)
        requires
            0 <= x < w,
            0 <= y < h,
            i == y * w + x,
    ;
    assert(w <= w * h) by (nonlinear_arith)
        requires
            w >= 1,
            h >= 1,
    ;
    vstd::arithmetic::div_mod::lemma_fundamental_div_mod_converse(i, w, y, x);
}

/// What is asked of the scaler is the size that was asked for, digit for digit, and nothing
/// where none was; around it the chain of elements is always the same, and it holds no part of
/// a URL.
pub proof fn law_the_chain_is_fixed_but_for_the_size(w: u32, h: u32)
    ensures
        nvmm_caps_text(None) == "video/x-raw(memory:NVMM),format=RGBA"@,
        nvmm_caps_text(Some((w, h))) == "video/x-raw(memory:NVMM),format=RGBA,width="@
            + crate::text::decimal(w as nat) + ",height="@ + crate::text::decimal(h as nat),
        bin_head()
            == "rtph264depay name=depay ! h264parse ! nvv4l2decoder enable-max-performance=1 disable-dpb=true ! nvvidconv ! "@,
        bin_tail()
            == " ! tee name=t t. ! queue max-size-buffers=2 leaky=upstream ! appsink name=sink max-buffers=1 drop=true sync=false t. ! queue max-size-buffers=2 leaky=upstream ! nvvidconv ! video/x-raw,format=RGBA ! appsink name=sink_cpu max-buffers=1 drop=true sync=false"@,
{
}

/// Errors in words, for every reason and number that they carry.
pub proof fn law_errors_carry_their_reasons(
    why: String,
    what: &'static str,
    url: String,
    fd: i32,
    size: u64,
    code: i32,
)
    ensures
        GstSourceError::Glib(why).text() == "GStreamer: "@ + why@,
        GstSourceError::StateChange(why).text() == "GStreamer state change: "@ + why@,
        GstSourceError::Setup(what).text() == "pipeline setup: "@ + what@,
        GstSourceError::Cuda(why).text() == "CUDA: "@ + why@,
        GstSourceError::NoFirstFrame.text()
            == "stream ended before first frame — check RTSP URL and H.264 codec"@,
        (GstSourceError::NvmmImport { fd, size, code }).text()
            == "cudaImportExternalMemory failed (fd="@ + crate::text::signed_text(fd as int)
            + ", size="@ + crate::text::decimal(size as nat) + ", err="@ + crate::text::signed_text(
            code as int,
        ) + ")"@,
        (GstSourceError::BadUrl { reason: what, url }).text() == "invalid RTSP URL ("@ + what@
            + "): "@ + url@,
{
}

/// The way to an open source, step by step: every step that goes well leads to the next one of
/// this list, and the last one to an open source. Only the first one looks at the URL, and goes
/// on exactly if that is an `rtsp` or `rtsps` URL free of white space and control characters.
pub proof fn law_the_way_to_an_open_source(url: Seq<char>)
    ensures
        ({
            let accepted = ("rtsp://"@.is_prefix_of(url) || "rtsps://"@.is_prefix_of(url))
                && forall|i: int|
                0 <= i < url.len() ==> #[trigger] url[i] > ' ' && url[i] != '\u{7f}';
            &&& accepted ==> step_behind(ConnectStep::Init, url) == Some(ConnectStep::MakeSource)
            &&& !accepted ==> step_behind(ConnectStep::Init, url) is None
        }),
        step_behind(ConnectStep::MakeSource, url) == Some(ConnectStep::ParseBin),
        step_behind(ConnectStep::ParseBin, url) == Some(ConnectStep::AddSource),
        step_behind(ConnectStep::AddSource, url) == Some(ConnectStep::AddBin),
        step_behind(ConnectStep::AddBin, url) == Some(ConnectStep::FindSink),
        step_behind(ConnectStep::FindSink, url) == Some(ConnectStep::CastSink),
        step_behind(ConnectStep::CastSink, url) == Some(ConnectStep::FindCpuSink),
        step_behind(ConnectStep::FindCpuSink, url) == Some(ConnectStep::CastCpuSink),
        step_behind(ConnectStep::CastCpuSink, url) == Some(ConnectStep::Play),
        step_behind(ConnectStep::Play, url) == Some(ConnectStep::FirstFrame),
        step_behind(ConnectStep::FirstFrame, url) == Some(ConnectStep::CompileKernel),
        step_behind(ConnectStep::CompileKernel, url) is None,
{
    crate::url::law_which_urls_are_accepted(url);
}

/// What the failure of a step is called: the reason is passed on where the media framework or
/// the GPU gave one, and the step is named where they did not.
pub proof fn law_failures_are_called_by_their_step(why: Seq<char>, e: GstSourceError)
    ensures
        fails_as(ConnectStep::Init, why, e) ==> e is Glib && e.text() == "GStreamer: "@ + why,
        fails_as(ConnectStep::ParseBin, why, e) ==> e is Glib && e.text() == "GStreamer: "@ + why,
        fails_as(ConnectStep::MakeSource, why, e) ==> e.text() == "pipeline setup: "@
            + "failed to create rtspsrc"@,
        fails_as(ConnectStep::AddSource, why, e) ==> e.text() == "pipeline setup: "@
            + "add rtspsrc"@,
        fails_as(ConnectStep::AddBin, why, e) ==> e.text() == "pipeline setup: "@ + "add bin"@,
        fails_as(ConnectStep::FindSink, why, e) ==> e.text() == "pipeline setup: "@
            + "no appsink"@,
        fails_as(ConnectStep::CastSink, why, e) ==> e.text() == "pipeline setup: "@
            + "element is not AppSink"@,
        fails_as(ConnectStep::FindCpuSink, why, e) ==> e.text() == "pipeline setup: "@
            + "no sink_cpu"@,
        fails_as(ConnectStep::CastCpuSink, why, e) ==> e.text() == "pipeline setup: "@
            + "sink_cpu is not AppSink"@,
        fails_as(ConnectStep::Play, why, e) ==> e is StateChange && e.text()
            == "GStreamer state change: "@ + why,
        fails_as(ConnectStep::FirstFrame, why, e) ==> e is NoFirstFrame,
        fails_as(ConnectStep::CompileKernel, why, e) ==> e is Cuda && e.text() == "CUDA: "@ + (
        "compile pack kernel: "@ + why),
{
}

/// A signed number and the unsigned one that it is read as differ by a multiple of two to the
/// thirty-second, in either direction.
pub proof fn law_signs_are_read_modulo_the_width(s: i32, u: u32)
    ensures
        s >= 0 ==> as_unsigned(s) == s,
        s < 0 ==> as_unsigned(s) == s + 0x1_0000_0000,
        u <= i32::MAX ==> as_signed(u) == u,
        u > i32::MAX ==> as_signed(u) == u - 0x1_0000_0000,
        as_signed(as_unsigned(s)) == s,
        as_unsigned(as_signed(u)) == u,
{
}

/// A buffer is taken in exactly if it has a descriptor, bytes and pixels, lies row by row, and
/// has room in each row for four bytes a pixel. It can then be announced by its own size.
pub proof fn law_which_buffers_are_taken_in(s: Surface)
    ensures
        s.usable() <==> s.fd >= 0 && s.size > 0 && s.layout == 0 && s.width > 0 && s.pitch >= 4
            * s.width,
        s.usable() ==> as_unsigned(s.width) == s.width,
        s.usable() && s.height >= 0 ==> as_unsigned(s.height) == s.height,
{
}

} // verus!
