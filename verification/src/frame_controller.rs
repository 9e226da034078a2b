//! Frame pacing: decides, from the time that has passed, how many frames have
//! elapsed at the sketch's frame rate, whether the current update renders, and
//! keeps the recent intervals between renders for the frame-rate display.
//!
//! Times are nanoseconds measured from a fixed instant chosen by the caller.

use vstd::prelude::*;

verus! {

/// Number of render intervals kept for the frame-rate average.
pub const MAX_INTERVALS: usize = 90;

/// Accumulated time below this many nanoseconds (one millisecond) is dropped
/// after each update.
pub const DRIFT_NANOS: u64 = 1_000_000;

pub struct FrameController {
    frame_duration: u64,
    last_frame_time: u64,
    last_render_time: u64,
    accumulator: u64,
    frame_count: u32,
    render_flag: bool,
    paused: bool,
    frame_intervals: Vec<u64>,
    max_intervals: usize,
}

/// The intervals kept after a render `interval` is added to `intervals`,
/// holding at most `max` of them.
pub open spec fn kept_intervals(intervals: Seq<u64>, interval: u64, max: nat) -> Seq<u64> {
    let pushed = intervals.push(interval);
    if pushed.len() > max {
        pushed.drop_first()
    } else {
        pushed
    }
}

/// Sum of a sequence of nanosecond counts.
pub open spec fn sum_nanos(s: Seq<u64>) -> nat
    decreases s.len(),
{
    if s.len() == 0 {
        0
    } else {
        sum_nanos(s.drop_last()) + (s.last() as nat)
    }
}

/// `now - earlier`, or zero when `now` is not later.
pub open spec fn elapsed(now: u64, earlier: u64) -> u64 {
    if now >= earlier {
        (now - earlier) as u64
    } else {
        0
    }
}

impl FrameController {
    /// Length of a frame in nanoseconds.
    pub closed spec fn frame_duration_spec(&self) -> u64 {
        self.frame_duration
    }

    pub closed spec fn last_frame_time_spec(&self) -> u64 {
        self.last_frame_time
    }

    pub closed spec fn last_render_time_spec(&self) -> u64 {
        self.last_render_time
    }

    /// Time carried over towards the next frame.
    pub closed spec fn accumulator_spec(&self) -> u64 {
        self.accumulator
    }

    pub closed spec fn frame_count_spec(&self) -> u32 {
        self.frame_count
    }

    /// At least one frame elapsed in the last update.
    pub closed spec fn render_flag_spec(&self) -> bool {
        self.render_flag
    }

    pub closed spec fn paused_spec(&self) -> bool {
        self.paused
    }

    /// Recent intervals between renders, oldest first.
    pub closed spec fn intervals(&self) -> Seq<u64> {
        self.frame_intervals@
    }

    /// The controller's invariant: frames have a positive length and at most
    /// `MAX_INTERVALS` intervals are kept.
    pub closed spec fn wf(&self) -> bool {
        &&& self.frame_duration > 0
        &&& self.max_intervals == MAX_INTERVALS
        &&& self.frame_intervals@.len() <= self.max_intervals
    }

    /// A controller for frames of `frame_duration` nanoseconds, started at `now`.
    pub fn new(frame_duration: u64, now: u64) -> (r: FrameController)
        requires
            frame_duration > 0,
        ensures
            r.wf(),
            r.frame_duration_spec() == frame_duration,
            r.last_frame_time_spec() == now,
            r.last_render_time_spec() == now,
            r.accumulator_spec() == 0,
            r.frame_count_spec() == 0,
            !r.render_flag_spec(),
            !r.paused_spec(),
            r.intervals().len() == 0,
    {
        FrameController {
            frame_duration,
            last_frame_time: now,
            last_render_time: now,
            accumulator: 0,
            frame_count: 0,
            render_flag: false,
            paused: false,
            frame_intervals: Vec::new(),
            max_intervals: MAX_INTERVALS,
        }
    }

    /// Advances the controller to time `now`: every whole frame in the time
    /// carried over plus the time since the last update counts one frame; the
    /// update renders when at least one frame elapsed.
    pub fn update(&mut self, now: u64)
        requires
            old(self).wf(),
        ensures
            final(self).wf(),
            ({
                let total = old(self).accumulator_spec() + elapsed(
                    now,
                    old(self).last_frame_time_spec(),
                );
                let fd = old(self).frame_duration_spec();
                let frames = total / (fd as int);
                let rest = total % (fd as int);
                &&& final(self).frame_duration_spec() == fd
                &&& final(self).last_frame_time_spec() == now
                &&& final(self).frame_count_spec() == (old(self).frame_count_spec() + frames)
                    % 0x1_0000_0000
                &&& final(self).render_flag_spec() == (frames > 0)
                &&& final(self).accumulator_spec() == (if rest < DRIFT_NANOS {
                    0
                } else {
                    rest
                })
                &&& final(self).paused_spec() == old(self).paused_spec()
                &&& frames > 0 ==> {
                    let iv = elapsed(now, old(self).last_render_time_spec());
                    let before = old(self).intervals();
                    let after = final(self).intervals();
                    &&& after.len() == (if before.len() < MAX_INTERVALS {
                        before.len() + 1int
                    } else {
                        MAX_INTERVALS as int
                    })
                    &&& after.last() == iv
                    &&& forall|i: int|
                        0 <= i < after.len() - 1 ==> #[trigger] after[i] == before[before.len() - (
                        after.len() - 1) + i]
                }
                &&& if frames > 0 {
                    &&& final(self).intervals() == kept_intervals(
                        old(self).intervals(),
                        elapsed(now, old(self).last_render_time_spec()),
                        MAX_INTERVALS as nat,
                    )
                    &&& final(self).last_render_time_spec() == now
                } else {
                    &&& final(self).intervals() == old(self).intervals()
                    &&& final(self).last_render_time_spec() == old(self).last_render_time_spec()
                }
            }),
    {
        let since_last = if now >= self.last_frame_time {
            now - self.last_frame_time
        } else {
            0
        };
        let total: u128 = self.accumulator as u128 + since_last as u128;
        let fd: u128 = self.frame_duration as u128;
        let frames: u128 = total / fd;
        let rest: u128 = total % fd;
        let frames_low: u32 = (frames % 0x1_0000_0000) as u32;
        assert((self.frame_count as u128 + frames_low as u128) % 0x1_0000_0000 == (
        self.frame_count + frames) % 0x1_0000_0000) by (nonlinear_arith)
            requires
                frames_low == frames % 0x1_0000_0000,
        ;
        self.frame_count = self.frame_count.wrapping_add(frames_low);
        self.render_flag = frames > 0;
        self.accumulator = if rest < DRIFT_NANOS as u128 {
            0
        } else {
            rest as u64
        };
        self.last_frame_time = now;
        if self.render_flag {
            let interval = if now >= self.last_render_time {
                now - self.last_render_time
            } else {
                0
            };
            self.frame_intervals.push(interval);
            if self.frame_intervals.len() > self.max_intervals {
                self.frame_intervals.remove(0);
            }
            self.last_render_time = now;
        }
    }

    /// The current update renders: a frame elapsed and the controller runs.
    pub fn should_render(&self) -> (r: bool)
        ensures
            r == (self.render_flag_spec() && !self.paused_spec()),
    {
        self.render_flag && !self.paused
    }

    pub fn frame_count(&self) -> (r: u32)
        ensures
            r == self.frame_count_spec(),
    {
        self.frame_count
    }

    /// Restarts the frame count at zero.
    pub fn reset_frame_count(&mut self)
        requires
            old(self).wf(),
        ensures
            final(self).wf(),
            final(self).frame_count_spec() == 0,
            final(self).frame_duration_spec() == old(self).frame_duration_spec(),
            final(self).accumulator_spec() == old(self).accumulator_spec(),
            final(self).paused_spec() == old(self).paused_spec(),
            final(self).render_flag_spec() == old(self).render_flag_spec(),
            final(self).intervals() == old(self).intervals(),
            final(self).last_frame_time_spec() == old(self).last_frame_time_spec(),
            final(self).last_render_time_spec() == old(self).last_render_time_spec(),
    {
        self.frame_count = 0;
    }

    /// Sets the frame count.
    pub fn set_frame_count(&mut self, count: u32)
        requires
            old(self).wf(),
        ensures
            final(self).wf(),
            final(self).frame_count_spec() == count,
            final(self).frame_duration_spec() == old(self).frame_duration_spec(),
            final(self).accumulator_spec() == old(self).accumulator_spec(),
            final(self).paused_spec() == old(self).paused_spec(),
            final(self).render_flag_spec() == old(self).render_flag_spec(),
            final(self).intervals() == old(self).intervals(),
            final(self).last_frame_time_spec() == old(self).last_frame_time_spec(),
            final(self).last_render_time_spec() == old(self).last_render_time_spec(),
    {
        self.frame_count = count;
    }

    pub fn is_paused(&self) -> (r: bool)
        ensures
            r == self.paused_spec(),
    {
        self.paused
    }

    pub fn set_paused(&mut self, paused: bool)
        requires
            old(self).wf(),
        ensures
            final(self).wf(),
            final(self).paused_spec() == paused,
            final(self).frame_count_spec() == old(self).frame_count_spec(),
            final(self).frame_duration_spec() == old(self).frame_duration_spec(),
            final(self).accumulator_spec() == old(self).accumulator_spec(),
            final(self).render_flag_spec() == old(self).render_flag_spec(),
            final(self).intervals() == old(self).intervals(),
            final(self).last_frame_time_spec() == old(self).last_frame_time_spec(),
            final(self).last_render_time_spec() == old(self).last_render_time_spec(),
    {
        self.paused = paused;
    }

    /// Changes the frame length, as when the sketch's frame rate changes. The
    /// carried-over time is kept as it is; the next update counts every whole
    /// new frame in it.
    pub fn set_frame_duration(&mut self, frame_duration: u64)
        requires
            old(self).wf(),
            frame_duration > 0,
        ensures
            final(self).wf(),
            final(self).frame_duration_spec() == frame_duration,
            final(self).accumulator_spec() == old(self).accumulator_spec(),
            final(self).frame_count_spec() == old(self).frame_count_spec(),
            final(self).paused_spec() == old(self).paused_spec(),
            final(self).render_flag_spec() == old(self).render_flag_spec(),
            final(self).intervals() == old(self).intervals(),
            final(self).last_frame_time_spec() == old(self).last_frame_time_spec(),
            final(self).last_render_time_spec() == old(self).last_render_time_spec(),
    {
        self.frame_duration = frame_duration;
    }

    /// Mean length of the kept render intervals in nanoseconds, rounded down;
    /// `None` before the first render.
    pub fn average_interval(&self) -> (r: Option<u64>)
        requires
            self.wf(),
        ensures
            self.intervals().len() == 0 ==> r is None,
            self.intervals().len() > 0 ==> r == Some(
                (sum_nanos(self.intervals()) / self.intervals().len()) as u64,
            ),
    {
        let n = self.frame_intervals.len();
        if n == 0 {
            return None;
        }
        let mut sum: u128 = 0;
        let mut i: usize = 0;
        while i < n
            invariant
                n == self.frame_intervals@.len(),
                n <= MAX_INTERVALS,
                i <= n,
                sum == sum_nanos(self.frame_intervals@.take(i as int)),
                sum <= i * 0xffff_ffff_ffff_ffff,
            decreases n - i,
        {
            assert(self.frame_intervals@.take(i + 1).drop_last() =~= self.frame_intervals@.take(
                i as int,
            ));
            sum = sum + self.frame_intervals[i] as u128;
            i = i + 1;
        }
        assert(self.frame_intervals@.take(n as int) =~= self.frame_intervals@);
        let avg: u128 = sum / (n as u128);
        assert(avg <= 0xffff_ffff_ffff_ffff) by (nonlinear_arith)
            requires
                avg == sum / (n as u128),
                sum <= n * 0xffff_ffff_ffff_ffff,
                n > 0,
        ;
        Some(avg as u64)
    }
}

/// Keeping a new render interval keeps the newest: the kept intervals end with
/// the new one, hold one more than before until `max` are held and then stay
/// at `max`, and before the new one come the most recent of the old intervals,
/// in order (the oldest one is the one dropped).
pub proof fn law_kept_intervals_keep_newest(intervals: Seq<u64>, interval: u64, max: nat)
    requires
        intervals.len() <= max,
        max > 0,
    ensures
        ({
            let kept = kept_intervals(intervals, interval, max);
            &&& kept.len() == (if intervals.len() < max {
                intervals.len() + 1int
            } else {
                max as int
            })
            &&& kept.last() == interval
            &&& forall|i: int|
                0 <= i < kept.len() - 1 ==> #[trigger] kept[i] == intervals[intervals.len() - (
                kept.len() - 1) + i]
        }),
{
}

/// An update at the time of the previous update renders nothing while the
/// time carried over is shorter than a frame, as it is after every update.
pub proof fn law_no_time_no_frame(c: FrameController)
    requires
        c.wf(),
        c.accumulator_spec() < c.frame_duration_spec(),
    ensures
        (c.accumulator_spec() + elapsed(c.last_frame_time_spec(), c.last_frame_time_spec())) / (
        c.frame_duration_spec() as int) == 0,
{
    let a = c.accumulator_spec() as int;
    let fd = c.frame_duration_spec() as int;
    assert(elapsed(c.last_frame_time_spec(), c.last_frame_time_spec()) == 0);
    assert(a / fd == 0) by (nonlinear_arith)
        requires
            0 <= a < fd,
    ;
}

/// Time is not lost across an update: the whole frames counted, times the frame
/// length, plus the time carried over before drift is dropped, equal the time
/// carried in plus the time elapsed.
pub proof fn law_time_conserved(c: FrameController, now: u64)
    requires
        c.wf(),
    ensures
        ({
            let total = c.accumulator_spec() + elapsed(now, c.last_frame_time_spec());
            let fd = c.frame_duration_spec() as int;
            (total / fd) * fd + total % fd == total && total % fd < fd
        }),
{
    let total = c.accumulator_spec() + elapsed(now, c.last_frame_time_spec());
    let fd = c.frame_duration_spec() as int;
    assert((total / fd) * fd + total % fd == total && total % fd < fd) by (nonlinear_arith)
        requires
            fd > 0,
            total >= 0,
    ;
}

} // verus!
