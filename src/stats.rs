//! Frame-rate statistics over the recent frames. Rates are whole
//! millihertz (thousandths of a frame per second); `None` stands for a rate
//! that is undefined (no time measured yet).
use vstd::prelude::*;

use crate::frame::{frame_time_nanos, Frame, FrameView};
use crate::time::Clock;
use crate::history::{pushed, History};

verus! {

/// How many recent frames are kept.
pub const FRAME_HISTORY_LENGTH: usize = 128;

/// How many recent rate samples are kept.
pub const RATE_HISTORY_LENGTH: usize = 128;

/// Nanoseconds in a hundredth of a second.
pub const NANOS_PER_CENTISECOND: i128 = 10_000_000;

/// Millihertz in one frame per hundredth of a second.
pub const MILLIHERTZ_PER_FRAME_PER_CENTISECOND: u64 = 100_000;

/// The summed duration of the frames, in nanoseconds.
pub open spec fn total_frame_time(s: Seq<Frame>) -> int
    decreases s.len(),
{
    if s.len() == 0 {
        0
    } else {
        total_frame_time(s.drop_last()) + frame_time_nanos(s.last()@)
    }
}

/// A non-negative duration in nanoseconds rounded to whole hundredths of a
/// second, halves rounding up.
pub open spec fn round_to_centis(total_nanos: int) -> int {
    (total_nanos + NANOS_PER_CENTISECOND as int / 2) / NANOS_PER_CENTISECOND as int
}

/// The mean rate of the frames: their count over their total duration, the
/// duration first rounded to hundredths of a second. Undefined when that
/// rounded duration is not positive, which covers the empty history.
pub open spec fn mean_rate(s: Seq<Frame>) -> Option<int> {
    let total = total_frame_time(s);
    if total < 0 || round_to_centis(total) == 0 {
        None
    } else {
        Some((s.len() * MILLIHERTZ_PER_FRAME_PER_CENTISECOND) as int / round_to_centis(total))
    }
}

/// Whether every sample is defined.
pub open spec fn all_defined(s: Seq<Option<u64>>) -> bool {
    forall|i: int| 0 <= i < s.len() ==> (#[trigger] s[i]).is_some()
}

/// The sum of the defined samples.
pub open spec fn sum_rates(s: Seq<Option<u64>>) -> int
    decreases s.len(),
{
    if s.len() == 0 {
        0
    } else {
        sum_rates(s.drop_last()) + match s.last() {
            Some(r) => r as int,
            None => 0,
        }
    }
}

/// The arithmetic mean of the samples, rounded down; undefined when there
/// are none or when any of them is undefined.
pub open spec fn average_rate(s: Seq<Option<u64>>) -> Option<int> {
    if s.len() == 0 || !all_defined(s) {
        None
    } else {
        Some(sum_rates(s) / s.len() as int)
    }
}

/// The recent frames, at most [`FRAME_HISTORY_LENGTH`] of them, oldest first.
pub struct FrameHistory {
    frames: History<Frame>,
}

impl View for FrameHistory {
    type V = Seq<Frame>;

    closed spec fn view(&self) -> Seq<Frame> {
        self.frames@
    }
}

impl FrameHistory {
    pub closed spec fn wf(&self) -> bool {
        &&& self.frames.wf()
        &&& self.frames.bound() == FRAME_HISTORY_LENGTH
    }

    pub fn new() -> (r: FrameHistory)
        ensures
            r.wf(),
            r@ == Seq::<Frame>::empty(),
    {
        FrameHistory { frames: History::new(FRAME_HISTORY_LENGTH) }
    }

    pub fn len(&self) -> (r: usize)
        ensures
            r == self@.len(),
    {
        self.frames.len()
    }

    pub fn get(&self, i: usize) -> (r: Frame)
        requires
            i < self@.len(),
        ensures
            r == self@[i as int],
    {
        *self.frames.get(i)
    }

    /// The most recently completed frame, if any.
    pub fn last(&self) -> (r: Option<Frame>)
        ensures
            r == (if self@.len() == 0 {
                None::<Frame>
            } else {
                Some(self@.last())
            }),
    {
        match self.frames.last() {
            Some(f) => Some(*f),
            None => None,
        }
    }

    /// Records a completed frame; the oldest leaves once the history is full.
    pub fn push(&mut self, f: Frame)
        requires
            old(self).wf(),
        ensures
            final(self).wf(),
            final(self)@ == pushed(old(self)@, FRAME_HISTORY_LENGTH as nat, f),
    {
        self.frames.push(f);
    }

    /// The mean rate of the recorded frames in millihertz (see [`mean_rate`]).
    pub fn mean_rate(&self) -> (r: Option<u64>)
        requires
            self.wf(),
        ensures
            r matches Some(x) ==> mean_rate(self@) == Some(x as int),
            r is None ==> mean_rate(self@) is None,
    {
        let n = self.frames.len();
        proof {
            self.frames.lemma_within_bound();
        }
        let mut total: i128 = 0;
        let mut i: usize = 0;
        while i < n
            invariant
                n == self@.len(),
                n <= FRAME_HISTORY_LENGTH,
                i <= n,
                total == total_frame_time(self@.subrange(0, i as int)),
                -(i as int) * 0x1_0000_0000_0000_0000 <= total <= (i as int) * 0x1_0000_0000_0000_0000,
            decreases n - i,
        {
            let f = self.frames.get(i);
            let t = f.frame_time_ns();
            proof {
                let s = self@.subrange(0, i + 1);
                assert(s.drop_last() =~= self@.subrange(0, i as int));
            }
            total = total + t;
            i = i + 1;
        }
        proof {
            assert(self@.subrange(0, n as int) =~= self@);
        }
        if total < 0 {
            return None;
        }
        let centis = (total + NANOS_PER_CENTISECOND / 2) / NANOS_PER_CENTISECOND;
        if centis == 0 {
            None
        } else {
            let count = n as u64;
            Some(((count * MILLIHERTZ_PER_FRAME_PER_CENTISECOND) as i128 / centis) as u64)
        }
    }
}

/// The recent instantaneous rate samples, at most [`RATE_HISTORY_LENGTH`] of
/// them, oldest first.
pub struct RateHistory {
    rates: History<Option<u64>>,
}

impl View for RateHistory {
    type V = Seq<Option<u64>>;

    closed spec fn view(&self) -> Seq<Option<u64>> {
        self.rates@
    }
}

impl RateHistory {
    pub closed spec fn wf(&self) -> bool {
        &&& self.rates.wf()
        &&& self.rates.bound() == RATE_HISTORY_LENGTH
    }

    pub fn new() -> (r: RateHistory)
        ensures
            r.wf(),
            r@ == Seq::<Option<u64>>::empty(),
    {
        RateHistory { rates: History::new(RATE_HISTORY_LENGTH) }
    }

    pub fn len(&self) -> (r: usize)
        ensures
            r == self@.len(),
    {
        self.rates.len()
    }

    pub fn get(&self, i: usize) -> (r: Option<u64>)
        requires
            i < self@.len(),
        ensures
            r == self@[i as int],
    {
        *self.rates.get(i)
    }

    /// Records a rate sample; the oldest leaves once the history is full.
    pub fn push(&mut self, rate: Option<u64>)
        requires
            old(self).wf(),
        ensures
            final(self).wf(),
            final(self)@ == pushed(old(self)@, RATE_HISTORY_LENGTH as nat, rate),
    {
        self.rates.push(rate);
    }

    /// The mean of the recorded samples in millihertz (see [`average_rate`]).
    pub fn average_rate(&self) -> (r: Option<u64>)
        requires
            self.wf(),
        ensures
            r matches Some(x) ==> average_rate(self@) == Some(x as int),
            r is None ==> average_rate(self@) is None,
    {
        let n = self.rates.len();
        proof {
            self.rates.lemma_within_bound();
        }
        if n == 0 {
            return None;
        }
        let mut sum: u128 = 0;
        let mut i: usize = 0;
        while i < n
            invariant
                n == self@.len(),
                0 < n <= RATE_HISTORY_LENGTH,
                i <= n,
                sum == sum_rates(self@.subrange(0, i as int)),
                sum <= (i as int) * (u64::MAX as int),
                forall|j: int| 0 <= j < i ==> (#[trigger] self@[j]).is_some(),
            decreases n - i,
        {
            let sample = *self.rates.get(i);
            proof {
                let s = self@.subrange(0, i + 1);
                assert(s.drop_last() =~= self@.subrange(0, i as int));
            }
            match sample {
                None => {
                    return None;
                },
                Some(rate) => {
                    sum = sum + rate as u128;
                },
            }
            i = i + 1;
        }
        proof {
            assert(self@.subrange(0, n as int) =~= self@);
            assert((sum as int) / (n as int) <= u64::MAX as int) by (nonlinear_arith)
                requires
                    sum <= (n as int) * (u64::MAX as int),
                    n > 0,
            ;
        }
        Some((sum / n as u128) as u64)
    }
}

/// The frame whose end is set to `now`.
pub open spec fn ended_at(f: Frame, now: u64) -> FrameView {
    FrameView { start: f@.start, end: Some(now) }
}

/// The frame-timing state of the loop: the frame in flight, the completed
/// frames and the rate samples taken at each frame's end.
pub struct FrameTimer {
    frames: FrameHistory,
    current: Frame,
    rates: RateHistory,
}

impl FrameTimer {
    pub closed spec fn wf(&self) -> bool {
        &&& self.frames.wf()
        &&& self.rates.wf()
    }

    /// The completed frames, oldest first.
    pub closed spec fn frames_spec(&self) -> Seq<Frame> {
        self.frames@
    }

    /// The frame in flight.
    pub closed spec fn current_spec(&self) -> Frame {
        self.current
    }

    /// The rate samples, oldest first.
    pub closed spec fn rates_spec(&self) -> Seq<Option<u64>> {
        self.rates@
    }

    /// No frame recorded, no sample taken, and the frame in flight not yet begun.
    pub fn new() -> (r: FrameTimer)
        ensures
            r.wf(),
            r.frames_spec() == Seq::<Frame>::empty(),
            r.rates_spec() == Seq::<Option<u64>>::empty(),
            r.current_spec()@.start.is_none(),
            r.current_spec()@.end.is_none(),
    {
        FrameTimer { frames: FrameHistory::new(), current: Frame::empty(), rates: RateHistory::new() }
    }

    pub fn frames(&self) -> (r: &FrameHistory)
        ensures
            self.wf() ==> r.wf(),
            r@ == self.frames_spec(),
    {
        &self.frames
    }

    pub fn rates(&self) -> (r: &RateHistory)
        ensures
            self.wf() ==> r.wf(),
            r@ == self.rates_spec(),
    {
        &self.rates
    }

    pub fn current_frame(&self) -> (r: Frame)
        ensures
            r == self.current_spec(),
    {
        self.current
    }

    /// The most recently completed frame, whose delta time steps the simulation.
    pub fn last_frame(&self) -> (r: Option<Frame>)
        ensures
            r == (if self.frames_spec().len() == 0 {
                None::<Frame>
            } else {
                Some(self.frames_spec().last())
            }),
    {
        self.frames.last()
    }

    /// Begins the frame in flight at `now`.
    pub fn init_at(&mut self, now: u64)
        requires
            old(self).wf(),
        ensures
            final(self).wf(),
            final(self).frames_spec() == old(self).frames_spec(),
            final(self).rates_spec() == old(self).rates_spec(),
            final(self).current_spec()@.start == Some(now),
            final(self).current_spec()@.end == old(self).current_spec()@.end,
    {
        self.current.begin_at(now);
    }

    /// Begins the frame in flight at a fresh reading of `clock`.
    pub fn init(&mut self, clock: &Clock)
        requires
            old(self).wf(),
        ensures
            final(self).wf(),
            final(self).frames_spec() == old(self).frames_spec(),
            final(self).rates_spec() == old(self).rates_spec(),
            final(self).current_spec()@.start.is_some(),
            final(self).current_spec()@.end == old(self).current_spec()@.end,
    {
        let now = clock.now_nanos();
        self.init_at(now);
    }

    /// Closes the frame in flight at `now`: it ends, joins the history, a new
    /// frame starts at `now`, and the history's mean rate joins the samples.
    pub fn finalize_at(&mut self, now: u64)
        requires
            old(self).wf(),
        ensures
            final(self).wf(),
            final(self).frames_spec().len() > 0,
            final(self).frames_spec().last()@ == ended_at(old(self).current_spec(), now),
            final(self).frames_spec() == pushed(
                old(self).frames_spec(),
                FRAME_HISTORY_LENGTH as nat,
                final(self).frames_spec().last(),
            ),
            final(self).current_spec()@.start == Some(now),
            final(self).current_spec()@.end.is_none(),
            final(self).rates_spec() == pushed(
                old(self).rates_spec(),
                RATE_HISTORY_LENGTH as nat,
                opt_u64(mean_rate(final(self).frames_spec())),
            ),
    {
        let mut ended = self.current;
        ended.end_at(now);
        self.frames.push(ended);
        self.current = Frame::new_at(now);
        let rate = self.frames.mean_rate();
        self.rates.push(rate);
    }

    /// Closes the frame in flight at one fresh reading of `clock`.
    pub fn finalize(&mut self, clock: &Clock)
        requires
            old(self).wf(),
        ensures
            final(self).wf(),
            final(self).frames_spec().len() > 0,
            final(self).frames_spec().last()@.start == old(self).current_spec()@.start,
            final(self).frames_spec().last()@.end.is_some(),
            final(self).current_spec()@.end.is_none(),
            exists|now: u64|
                {
                    &&& final(self).frames_spec() == pushed(
                        old(self).frames_spec(),
                        FRAME_HISTORY_LENGTH as nat,
                        final(self).frames_spec().last(),
                    )
                    &&& final(self).frames_spec().last()@ == ended_at(old(self).current_spec(), now)
                    &&& final(self).current_spec()@.start == Some(now)
                },
            final(self).rates_spec() == pushed(
                old(self).rates_spec(),
                RATE_HISTORY_LENGTH as nat,
                opt_u64(mean_rate(final(self).frames_spec())),
            ),
    {
        let now = clock.now_nanos();
        self.finalize_at(now);
    }

    /// The mean rate of the recent frames, in millihertz.
    pub fn frame_rate(&self) -> (r: Option<u64>)
        requires
            self.wf(),
        ensures
            r == opt_u64(mean_rate(self.frames_spec())),
    {
        self.frames.mean_rate()
    }

    /// The mean of the recent rate samples, in millihertz.
    pub fn average_frame_rate(&self) -> (r: Option<u64>)
        requires
            self.wf(),
        ensures
            r == opt_u64(average_rate(self.rates_spec())),
    {
        self.rates.average_rate()
    }
}

/// An optional rate as the machine integer that holds it.
pub open spec fn opt_u64(r: Option<int>) -> Option<u64> {
    match r {
        Some(x) => Some(x as u64),
        None => None,
    }
}

} // verus!
