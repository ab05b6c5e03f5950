use std::collections::VecDeque;
use std::time::Duration;
use std::time::Instant;
use vstd::prelude::*;

verus! {

/// How many frame durations the timer remembers for averaging.
pub const RECENT_FRAMES: usize = 10;

/// `std::time::Instant`, a reading of the monotonic clock. It is carried as
/// an opaque value: nothing is claimed of what it holds.
#[verifier::external_type_specification]
#[verifier::external_body]
pub struct ExInstant(std::time::Instant);

/// `Instant::now` reads the monotonic clock. Nothing is claimed of the
/// instant it returns.
pub assume_specification[ std::time::Instant::now ]() -> (now: Instant)
;

/// `Instant::clone` copies the instant: `Instant` is a `Copy` type.
pub assume_specification[ <std::time::Instant as std::clone::Clone>::clone ](
    instant: &Instant,
) -> (copy: Instant)
    ensures
        copy == *instant,
;

/// `Instant::elapsed` measures the time since the instant was taken. Nothing
/// is claimed of the duration it returns: two calls may differ.
pub assume_specification[ std::time::Instant::elapsed ](start: &Instant) -> (since: Duration)
;

/// `Duration::as_secs` gives the whole seconds of a duration. Nothing is
/// claimed of the number.
pub assume_specification[ core::time::Duration::as_secs ](span: &Duration) -> (secs: u64)
;

/// `Duration::subsec_nanos` gives the part of a duration beyond its whole
/// seconds, in nanoseconds. The claim is only that this is less than one
/// second.
pub assume_specification[ core::time::Duration::subsec_nanos ](span: &Duration) -> (nanos: u32)
    ensures
        nanos < 1_000_000_000,
;

/// Whole milliseconds in `secs` seconds and `nanos` nanoseconds.
pub open spec fn millis(secs: u64, nanos: u32) -> int {
    secs * 1000 + nanos / 1_000_000
}

/// Frames per second when one frame takes `elapsed` milliseconds; 0 for a
/// frame that took no measurable time.
pub open spec fn frame_rate(elapsed: u64) -> u64 {
    if elapsed == 0 {
        0
    } else {
        (1000int / elapsed as int) as u64
    }
}

/// The sum of a sequence of durations.
pub open spec fn total_of(durations: Seq<u64>) -> nat
    decreases durations.len(),
{
    if durations.len() == 0 {
        0
    } else {
        total_of(durations.drop_last()) + durations.last() as nat
    }
}

/// What a timer remembers, apart from its clock.
pub struct FrameTimeView {
    /// The clock reading, in milliseconds, at the latest tick.
    pub previous: u64,
    /// Milliseconds between the two latest ticks.
    pub elapsed: u64,
    /// The latest durations between ticks, oldest first.
    pub recent: Seq<u64>,
}

impl FrameTimeView {
    /// A timer that has not ticked yet.
    pub open spec fn initial() -> FrameTimeView {
        FrameTimeView { previous: 0, elapsed: u64::MAX, recent: Seq::empty() }
    }

    /// Milliseconds from the latest tick to a reading of `now`. A reading
    /// that lies before the latest tick counts as no time at all.
    pub open spec fn since_previous(self, now: u64) -> u64 {
        if now >= self.previous {
            (now - self.previous) as u64
        } else {
            0
        }
    }

    /// The timer after a tick at which the clock read `now` milliseconds:
    /// the new duration joins the remembered ones, and the oldest leaves once
    /// there would be more than `RECENT_FRAMES`.
    pub open spec fn advanced(self, now: u64) -> FrameTimeView {
        let delta = self.since_previous(now);
        let kept = if self.recent.len() >= RECENT_FRAMES {
            self.recent.subrange(1, self.recent.len() as int)
        } else {
            self.recent
        };
        FrameTimeView { previous: now, elapsed: delta, recent: kept.push(delta) }
    }
}

/// Whole milliseconds in a duration given as seconds and nanoseconds. A
/// duration too long for the result saturates at `u64::MAX`.
pub fn millis_from_parts(secs: u64, nanos: u32) -> (ms: u64)
    ensures
        millis(secs, nanos) <= u64::MAX ==> ms == millis(secs, nanos),
        millis(secs, nanos) > u64::MAX ==> ms == u64::MAX,
{
    let whole: u128 = secs as u128 * 1000;
    let part: u128 = (nanos / 1_000_000) as u128;
    let total: u128 = whole + part;
    if total > u64::MAX as u128 {
        u64::MAX
    } else {
        total as u64
    }
}

/// Measures the time between successive ticks, in milliseconds.
#[derive(Debug)]
pub struct FrameTime {
    clock: Instant,
    previous: u64,
    elapsed: u64,
    last_ten: VecDeque<u64>,
}

impl View for FrameTime {
    type V = FrameTimeView;

    closed spec fn view(&self) -> FrameTimeView {
        FrameTimeView { previous: self.previous, elapsed: self.elapsed, recent: self.last_ten@ }
    }
}

impl Clone for FrameTime {
    /// A timer with the same clock that remembers the same durations.
    fn clone(&self) -> (copy: Self)
        ensures
            copy@ == self@,
            copy.origin() == self.origin(),
    {
        FrameTime {
            clock: self.clock.clone(),
            previous: self.previous,
            elapsed: self.elapsed,
            last_ten: self.last_ten.clone(),
        }
    }
}

impl FrameTime {
    /// The instant from which this timer's clock counts.
    pub closed spec fn origin(&self) -> Instant {
        self.clock
    }

    /// The timer never remembers more than `RECENT_FRAMES` durations.
    pub open spec fn wf(&self) -> bool {
        self@.recent.len() <= RECENT_FRAMES
    }

    /// Starts a timer at the present moment.
    pub fn new() -> (timer: FrameTime)
        ensures
            timer.wf(),
            timer@ == FrameTimeView::initial(),
    {
        FrameTime {
            clock: Instant::now(),
            previous: 0,
            elapsed: u64::MAX,
            last_ten: VecDeque::new(),
        }
    }

    /// Frames per second at the pace of the latest frame.
    pub fn get_frame_rate(&self) -> (rate: u64)
        ensures
            rate == frame_rate(self@.elapsed),
    {
        if self.elapsed == 0 {
            return 0;
        }
        1_000 / self.elapsed
    }

    /// Milliseconds since the timer was started, read from the clock now.
    /// The reading depends on the clock alone, and any number of milliseconds
    /// can come back, so no promise is made of it; `millis_from_parts` says
    /// how it follows from what the clock gave.
    pub fn elapsed(&self) -> u64 {
        self.get_duration()
    }

    /// Milliseconds between the two latest ticks.
    pub fn get_last_frame_duration(&self) -> (ms: u64)
        ensures
            ms == self@.elapsed,
    {
        self.elapsed
    }

    /// The sum of the remembered frame durations, in milliseconds.
    pub fn recent_total(&self) -> (sum: u128)
        ensures
            sum == total_of(self@.recent),
    {
        let count = self.last_ten.len();
        let mut sum: u128 = 0;
        let mut i: usize = 0;
        while i < count
            invariant
                i <= count == self.last_ten@.len(),
                sum == total_of(self.last_ten@.subrange(0, i as int)),
                sum <= i * u64::MAX,
            decreases count - i,
        {
            let duration: u64 = self.last_ten[i];
            proof {
                let upto = self.last_ten@.subrange(0, i + 1);
                assert(upto.drop_last() == self.last_ten@.subrange(0, i as int));
            }
            sum = sum + duration as u128;
            i = i + 1;
        }
        proof {
            assert(self.last_ten@.subrange(0, count as int) == self.last_ten@);
        }
        sum
    }

    /// How many frame durations are remembered.
    pub fn recent_count(&self) -> (count: usize)
        ensures
            count == self@.recent.len(),
    {
        self.last_ten.len()
    }

    /// Reads the clock and turns the reading into milliseconds. No promise
    /// is made of the reading.
    fn get_duration(&self) -> u64 {
        let t = self.clock.elapsed();
        millis_from_parts(t.as_secs(), t.subsec_nanos())
    }

    /// Ends a frame at which the clock read `now` milliseconds.
    pub fn tick_at(&mut self, now: u64)
        requires
            old(self).wf(),
        ensures
            final(self).wf(),
            final(self)@ == old(self)@.advanced(now),
            final(self).origin() == old(self).origin(),
    {
        let delta: u64 = if now >= self.previous {
            now - self.previous
        } else {
            0
        };
        if self.last_ten.len() >= RECENT_FRAMES {
            self.last_ten.pop_front();
        }
        self.last_ten.push_back(delta);
        self.elapsed = delta;
        self.previous = now;
    }

    /// Ends a frame now. Whatever the clock reads, the timer advances by
    /// that reading, which it then holds as its previous one.
    pub fn tick(&mut self)
        requires
            old(self).wf(),
        ensures
            final(self).wf(),
            final(self)@ == old(self)@.advanced(final(self)@.previous),
            final(self).origin() == old(self).origin(),
    {
        let current = self.get_duration();
        self.tick_at(current);
    }
}

} // verus!
