//! One frame of the loop: when it started and, once finished, when it ended.
use vstd::prelude::*;

use crate::time::{delta_nanos, elapsed_nanos, Clock, Timestamp};

verus! {

/// A frame's two boundaries. A live frame has a recorded start; its end stays
/// empty until the frame is ended (a frame "in flight").
#[derive(Clone, Copy, Debug, PartialEq, Eq, Structural)]
pub struct Frame {
    start_time: Timestamp,
    end_time: Timestamp,
}

/// The model of a frame: its start and its end, each recorded or not.
pub struct FrameView {
    pub start: Option<u64>,
    pub end: Option<u64>,
}

/// Duration of a frame in nanoseconds: from start to end, zero while either
/// boundary is missing.
pub open spec fn frame_time_nanos(f: FrameView) -> int {
    delta_nanos(f.start, f.end)
}

impl View for Frame {
    type V = FrameView;

    closed spec fn view(&self) -> FrameView {
        FrameView { start: self.start_time@, end: self.end_time@ }
    }
}

impl Frame {
    /// A frame that starts at the current reading of `clock`.
    pub fn new(clock: &Clock) -> (r: Frame)
        ensures
            r@.start.is_some(),
            r@.end.is_none(),
    {
        Frame { start_time: Timestamp::now(clock), end_time: Timestamp::empty() }
    }

    /// A frame that starts at `nanos`.
    pub fn new_at(nanos: u64) -> (r: Frame)
        ensures
            r@.start == Some(nanos),
            r@.end.is_none(),
    {
        Frame { start_time: Timestamp::at(nanos), end_time: Timestamp::empty() }
    }

    /// A frame with neither boundary recorded.
    pub fn empty() -> (r: Frame)
        ensures
            r@.start.is_none(),
            r@.end.is_none(),
    {
        Frame { start_time: Timestamp::empty(), end_time: Timestamp::empty() }
    }

    pub fn start_time(&self) -> (r: Timestamp)
        ensures
            r@ == self@.start,
    {
        self.start_time
    }

    pub fn end_time(&self) -> (r: Timestamp)
        ensures
            r@ == self@.end,
    {
        self.end_time
    }

    /// Restarts the frame at the current reading of `clock`.
    pub fn begin(&mut self, clock: &Clock)
        ensures
            final(self)@.start.is_some(),
            final(self)@.end == old(self)@.end,
    {
        self.start_time = Timestamp::now(clock);
    }

    /// Restarts the frame at `nanos`.
    pub fn begin_at(&mut self, nanos: u64)
        ensures
            final(self)@.start == Some(nanos),
            final(self)@.end == old(self)@.end,
    {
        self.start_time = Timestamp::at(nanos);
    }

    /// Ends the frame at the current reading of `clock`.
    pub fn end(&mut self, clock: &Clock)
        ensures
            final(self)@.start == old(self)@.start,
            final(self)@.end.is_some(),
    {
        self.end_time = Timestamp::now(clock);
    }

    /// Ends the frame at `nanos`.
    pub fn end_at(&mut self, nanos: u64)
        ensures
            final(self)@.start == old(self)@.start,
            final(self)@.end == Some(nanos),
    {
        self.end_time = Timestamp::at(nanos);
    }

    /// How long the frame took, in nanoseconds; zero while it is in flight.
    pub fn frame_time_ns(&self) -> (r: i128)
        ensures
            r == frame_time_nanos(self@),
            self@.end.is_none() ==> r == 0,
    {
        self.start_time.delta(&self.end_time)
    }

    /// Nanoseconds from the frame's start to the reading `now`: the step by
    /// which the simulation advances.
    pub fn delta_time_at(&self, now: u64) -> (r: u64)
        ensures
            r == elapsed_nanos(self@.start, now),
    {
        self.start_time.elapsed_at(now)
    }

    /// Nanoseconds from the frame's start to a fresh reading of `clock`.
    pub fn delta_time(&self, clock: &Clock) -> (r: u64)
        ensures
            self@.start.is_none() ==> r == 0,
            exists|now: u64| r == elapsed_nanos(self@.start, now),
    {
        self.start_time.elapsed(clock)
    }
}

} // verus!
