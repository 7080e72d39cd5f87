//! Frame provenance: which frame, captured when, by which camera.

use vstd::prelude::*;

verus! {

/// Per-frame metadata: a sequence number, the sensor's own capture time, and the camera.
///
/// `pts_ns` is the capture time that the device reports, not the time at which the host
/// received the frame. `seq` belongs to the producing source and counts the frames that it
/// emitted.
#[derive(Debug, Clone, Copy, PartialEq, Eq)]
pub struct FrameMeta {
    /// Frame sequence number, assigned by the source, starting at 1.
    pub seq: u64,
    /// Capture timestamp in nanoseconds, when the source can supply one.
    pub pts_ns: Option<u64>,
    /// Which camera produced this frame, for setups with several.
    pub source_id: Option<u32>,
}

impl FrameMeta {
    /// Tag `data` with this metadata.
    pub fn stamp<T>(&self, data: T) -> (r: Stamped<T>)
        ensures
            r.meta == *self,
            r.data == data,
    {
        Stamped { meta: *self, data }
    }
}

impl Default for FrameMeta {
    /// Sequence number 0 and nothing known of time or camera.
    fn default() -> (r: Self)
        ensures
            r == (FrameMeta { seq: 0, pts_ns: None, source_id: None }),
    {
        FrameMeta { seq: 0, pts_ns: None, source_id: None }
    }
}

/// A value carrying the [`FrameMeta`] of the frame it came from.
///
/// Keeps timing attached to the payload as it moves through a pipeline, so that a later
/// stage never has to guess which frame a result belongs to.
#[derive(Debug, Clone, Copy)]
pub struct Stamped<T> {
    pub meta: FrameMeta,
    pub data: T,
}

impl<T> Stamped<T> {
    /// Tag `data` with `meta`.
    pub fn new(meta: FrameMeta, data: T) -> (r: Self)
        ensures
            r.meta == meta,
            r.data == data,
    {
        Stamped { meta, data }
    }

    /// Transform the carried value, keeping the same metadata.
    pub fn map<U>(self, f: impl FnOnce(T) -> U) -> (r: Stamped<U>)
        requires
            call_requires(f, (self.data,)),
        ensures
            r.meta == self.meta,
            call_ensures(f, (self.data,), r.data),
    {
        Stamped { meta: self.meta, data: f(self.data) }
    }
}

} // verus!
