//! The step scheduler: turns queued move segments into tick-accurate pulse
//! times.
//!
//! The driver task around this module owns the step and direction pins and
//! the timer.  Each queued [`StepInfo`](crate::step_info::StepInfo) segment
//! becomes a [`SegmentRun`]; the task asks [`SegmentRun::next_pulse`] what to
//! do at every pulse boundary (emit a pulse at a given tick, abort on the
//! stop flag, or shut down on a pulse scheduled in the past), performs the
//! pin work, and finally writes the result back with
//! [`StepDriver::finish_segment`].

use vstd::prelude::*;

use crate::cl_monitor::CLMonitorMessage;
use crate::step_info::StepInfo;

verus! {

/// Upper bound on tick values the scheduler accepts: 2^62 ticks, about nine
/// thousand years at the advertised clock rate.  Keeping ticks below this
/// bound keeps every scheduled time well inside `u64`.
pub const TICK_LIMIT: u64 = 0x4000_0000_0000_0000;

/// The low 32 bits of a tick count: the "clock" the host protocol speaks.
pub open spec fn low32(t: u64) -> u32 {
    (t % 0x1_0000_0000) as u32
}

/// Sum of the first `n` inter-pulse delays of a segment whose delay between
/// pulse `j` and pulse `j + 1` is `interval + j * add` ticks.  Pulse `k`
/// (counting from zero) is therefore scheduled `delay_sum(interval, add,
/// k + 1)` ticks after the segment clock.
pub open spec fn delay_sum(interval: u32, add: i16, n: int) -> int
    decreases n,
{
    if n <= 0 {
        0
    } else {
        delay_sum(interval, add, n - 1) + interval + (n - 1) * add
    }
}

/// The delay sum has the closed form of a trapezoidal ramp:
/// `delay_sum(interval, add, n) == n * interval + add * n * (n - 1) / 2`
/// (stated doubled, so that no division appears).
pub proof fn lemma_delay_sum_closed(interval: u32, add: i16, n: int)
    requires
        0 <= n,
    ensures
        2 * delay_sum(interval, add, n) == 2 * n * interval + n * (n - 1) * add,
    decreases n,
{
    if n > 0 {
        lemma_delay_sum_closed(interval, add, n - 1);
        let d1 = delay_sum(interval, add, n - 1);
        let d = delay_sum(interval, add, n);
        assert(d == d1 + interval + (n - 1) * add);
        assert(2 * d == 2 * n * interval + n * (n - 1) * add) by (nonlinear_arith)
            requires
                d == d1 + interval + (n - 1) * add,
                2 * d1 == 2 * (n - 1) * interval + (n - 1) * (n - 1 - 1) * add,
        ;
    } else {
        assert(delay_sum(interval, add, n) == 0);
        assert(2 * n * interval + n * (n - 1) * add == 0) by (nonlinear_arith)
            requires
                n == 0,
        ;
    }
}

/// Bounds on the delay sum for segment lengths that fit in `u16`.
pub proof fn lemma_delay_sum_bounds(interval: u32, add: i16, n: int)
    requires
        0 <= n <= 0x1_0000,
    ensures
        -(n * 0x8000_0000) <= delay_sum(interval, add, n),
        delay_sum(interval, add, n) <= n * 0x1_8000_0000,
    decreases n,
{
    if n > 0 {
        lemma_delay_sum_bounds(interval, add, n - 1);
        assert(-0x8000_0000 <= (n - 1) * add && (n - 1) * add <= 0x8000_0000)
            by (nonlinear_arith)
            requires
                0 <= n - 1 <= 0x1_0000,
                -0x8000 <= add <= 0x7fff,
        ;
    }
}

/// Commanded position change of one segment: `count` pulses, signed by the
/// direction.
pub open spec fn signed_amount(dir: bool, n: u16) -> int {
    if dir {
        n as int
    } else {
        -(n as int)
    }
}

/// A step counter update wraps at the `i32` boundary.
pub open spec fn wrap_signed(counter: i32, dir: bool, n: u16) -> i32 {
    if dir {
        vstd::wrapping::i32_specs::wrapping_add(counter, n as i32)
    } else {
        vstd::wrapping::i32_specs::wrapping_sub(counter, n as i32)
    }
}

/// Sum of the signed pulse counts over a run of segments, each given as its
/// direction and the number of pulses it emitted.
pub open spec fn sum_signed(segs: Seq<(bool, u16)>) -> int
    decreases segs.len(),
{
    if segs.len() == 0 {
        0
    } else {
        sum_signed(segs.drop_last()) + signed_amount(segs.last().0, segs.last().1)
    }
}

/// The commanded position after a run of segments, folding in one wrapped
/// counter update per segment, exactly as the driver publishes them.
pub open spec fn position_after(start: i32, segs: Seq<(bool, u16)>) -> i32
    decreases segs.len(),
{
    if segs.len() == 0 {
        start
    } else {
        wrap_signed(position_after(start, segs.drop_last()), segs.last().0, segs.last().1)
    }
}

proof fn lemma_crop_of_small(v: int)
    requires
        -0x8000_0000 <= v < 0x8000_0000,
    ensures
        vstd::wrapping::i32_specs::signed_crop(v) == v,
{
    if v >= 0 {
        vstd::arithmetic::div_mod::lemma_small_mod(v as nat, 0x1_0000_0000nat);
    } else {
        vstd::arithmetic::div_mod::lemma_mod_add_multiples_vanish(v, 0x1_0000_0000);
        vstd::arithmetic::div_mod::lemma_small_mod((v + 0x1_0000_0000) as nat, 0x1_0000_0000nat);
    }
}

proof fn lemma_wrap_signed_is_crop(c: i32, dir: bool, n: u16)
    ensures
        wrap_signed(c, dir, n) == vstd::wrapping::i32_specs::signed_crop(
            c + signed_amount(dir, n),
        ),
{
    let v = c + signed_amount(dir, n);
    if -0x8000_0000 <= v < 0x8000_0000 {
        lemma_crop_of_small(v);
    } else if v >= 0x8000_0000 {
        vstd::arithmetic::div_mod::lemma_small_mod(v as nat, 0x1_0000_0000nat);
    } else {
        vstd::arithmetic::div_mod::lemma_mod_add_multiples_vanish(v, 0x1_0000_0000);
        vstd::arithmetic::div_mod::lemma_small_mod((v + 0x1_0000_0000) as nat, 0x1_0000_0000nat);
    }
}

proof fn lemma_crop_add(x: int, d: int)
    ensures
        vstd::wrapping::i32_specs::signed_crop(vstd::wrapping::i32_specs::signed_crop(x) + d)
            == vstd::wrapping::i32_specs::signed_crop(x + d),
{
    let m = 0x1_0000_0000int;
    let y = vstd::wrapping::i32_specs::signed_crop(x) as int;
    vstd::arithmetic::div_mod::lemma_mod_twice(x, m);
    vstd::arithmetic::div_mod::lemma_mod_sub_multiples_vanish(x % m, m);
    assert(y % m == x % m);
    vstd::arithmetic::div_mod::lemma_add_mod_noop_right(d, y, m);
    vstd::arithmetic::div_mod::lemma_add_mod_noop_right(d, x, m);
    assert((d + y) % m == (d + x) % m);
}

/// The position law: however a run of segments interleaves directions, and
/// whether or not any of them was cut short, the published position after
/// the run equals the starting position plus the sum of the signed emitted
/// counts, wrapped to `i32`.  A fully completed segment emits exactly its
/// `count` pulses, so over completed segments the sum is the sum of the
/// commanded counts, signed by direction.
pub proof fn lemma_position_tracks_segments(start: i32, segs: Seq<(bool, u16)>)
    ensures
        position_after(start, segs) == vstd::wrapping::i32_specs::signed_crop(
            start + sum_signed(segs),
        ),
    decreases segs.len(),
{
    if segs.len() == 0 {
        lemma_crop_of_small(start as int);
    } else {
        lemma_position_tracks_segments(start, segs.drop_last());
        let p = position_after(start, segs.drop_last());
        let d = signed_amount(segs.last().0, segs.last().1);
        lemma_wrap_signed_is_crop(p, segs.last().0, segs.last().1);
        lemma_crop_add(start + sum_signed(segs.drop_last()), d);
    }
}

/// Persistent state of one step-driver task.
pub struct StepDriver {
    /// Commanded step counter; wraps.
    pub step_counter: i32,
    /// Tick of the most recent pulse; `0` means "unsynced".
    pub step_clock: u64,
    /// Whether the step pin idles high (pulses are active-low).
    pub invert_step: bool,
    /// Width of every step pulse, in ticks, held by a busy-wait.
    pub step_pulse_ticks: u32,
    /// Electrical level currently driven on the direction pin.
    pub dir_high: bool,
}

/// In-flight execution of one segment.
pub struct SegmentRun {
    /// The segment clock `c` this run was scheduled against.
    pub start_clock: u64,
    /// Initial inter-pulse delay, in ticks.
    pub interval: u32,
    /// Per-pulse delay adjustment, in ticks.
    pub add: i16,
    /// Number of pulses the segment asks for.
    pub count: u16,
    /// Direction the pulses move in.
    pub dir: bool,
    /// A corrective segment: scheduled from "now" and not counted against
    /// the commanded position.
    pub correction: bool,
    /// Pulses emitted so far.
    pub emitted: u16,
    /// Tick of the most recent pulse of this run (the start clock before
    /// the first pulse).
    pub clock: u64,
    /// Delay from the most recent pulse to the next one, in ticks.
    pub delay: i64,
    /// The stop flag was observed and the rest of the segment forfeited.
    pub aborted: bool,
}

/// The run state a fresh segment starts from.
pub open spec fn fresh_run(start: u64, info: StepInfo, correction: bool) -> SegmentRun {
    SegmentRun {
        start_clock: start,
        interval: info.interval,
        add: info.add,
        count: info.count,
        dir: info.dir,
        correction,
        emitted: 0,
        clock: start,
        delay: info.interval as i64,
        aborted: false,
    }
}

/// What the driver task must do at one pulse boundary.
pub enum PulseOutcome {
    /// The stop flag was observed: clear it, forfeit the rest of the
    /// segment, and resync the clock.
    Aborted,
    /// The host over-committed: a pulse came due in the past.  Emit a
    /// shutdown reply carrying this clock and stop processing.
    Shutdown { clock: u32 },
    /// Drive the step pin active at tick `at` for the configured pulse
    /// width, then idle; optionally post a progress report to the
    /// closed-loop monitor.
    Pulse { at: u64, check: Option<CLMonitorMessage> },
    /// Every pulse of the segment has been emitted.
    Done,
}

impl SegmentRun {
    /// The bookkeeping a run maintains between pulse boundaries: the delay
    /// tracks the ramp, and the run clock sits exactly at the pulse-time
    /// sum.
    pub open spec fn wf(self) -> bool {
        &&& self.start_clock <= TICK_LIMIT
        &&& self.emitted <= self.count
        &&& self.delay == self.interval + self.emitted * self.add
        &&& self.clock == self.start_clock + delay_sum(self.interval, self.add, self.emitted as int)
    }

    /// Decide one pulse boundary.
    ///
    /// The ensures clauses carry the scheduling law: the `k`-th pulse of a
    /// segment with clock `c` fires at tick `c + delay_sum(interval, add,
    /// k + 1)`, and once the stop flag is observed at a boundary, the run
    /// aborts with no further pulse.
    pub fn next_pulse(&mut self, counter: i32, stop: bool, now: u64) -> (r: PulseOutcome)
        requires
            old(self).wf(),
            !old(self).aborted,
            now <= TICK_LIMIT,
        ensures
            final(self).wf(),
            final(self).start_clock == old(self).start_clock,
            final(self).interval == old(self).interval,
            final(self).add == old(self).add,
            final(self).count == old(self).count,
            final(self).dir == old(self).dir,
            final(self).correction == old(self).correction,
            (r is Done) <==> old(self).emitted == old(self).count,
            r is Done ==> *final(self) == *old(self),
            (r is Aborted) <==> (old(self).emitted < old(self).count && stop),
            r is Aborted ==> *final(self) == (SegmentRun { aborted: true, ..*old(self) }),
            (r is Shutdown) <==> (old(self).emitted < old(self).count && !stop && now > old(
                self,
            ).start_clock + delay_sum(old(self).interval, old(self).add, old(self).emitted + 1)),
            r matches PulseOutcome::Shutdown { clock } ==> *final(self) == *old(self) && clock
                == low32(now),
            r matches PulseOutcome::Pulse { at, check } ==> {
                &&& at == old(self).start_clock + delay_sum(
                    old(self).interval,
                    old(self).add,
                    old(self).emitted + 1,
                )
                &&& now <= at
                &&& final(self).emitted == old(self).emitted + 1
                &&& final(self).clock == at
                &&& final(self).aborted == old(self).aborted
                &&& check == (if !old(self).correction && old(self).emitted % 32 == 0 {
                    Some(
                        CLMonitorMessage::CheckPosition {
                            counter: if old(self).dir {
                                vstd::wrapping::i32_specs::wrapping_add(
                                    counter,
                                    old(self).emitted as i32,
                                )
                            } else {
                                vstd::wrapping::i32_specs::wrapping_sub(
                                    counter,
                                    old(self).emitted as i32,
                                )
                            },
                            interval: old(self).interval,
                            dir: old(self).dir,
                        },
                    )
                } else {
                    Option::<CLMonitorMessage>::None
                })
            },
    {
        if self.emitted == self.count {
            return PulseOutcome::Done;
        }
        if stop {
            self.aborted = true;
            return PulseOutcome::Aborted;
        }
        proof {
            lemma_delay_sum_bounds(self.interval, self.add, self.emitted as int);
            assert(-0x8000_0000 <= self.emitted * self.add && self.emitted * self.add
                <= 0x8000_0000) by (nonlinear_arith)
                requires
                    0 <= self.emitted <= 0xffff,
                    -0x8000 <= self.add <= 0x7fff,
            ;
        }
        let sched: i64 = self.clock as i64 + self.delay;
        proof {
            assert(delay_sum(self.interval, self.add, self.emitted as int + 1) == delay_sum(
                self.interval,
                self.add,
                self.emitted as int,
            ) + self.interval + self.emitted as int * self.add);
        }
        if (now as i64) > sched {
            return PulseOutcome::Shutdown { clock: (now % 0x1_0000_0000) as u32 };
        }
        let at: u64 = sched as u64;
        let check: Option<CLMonitorMessage> = if !self.correction && self.emitted % 32 == 0 {
            Some(
                CLMonitorMessage::CheckPosition {
                    counter: if self.dir {
                        counter.wrapping_add(self.emitted as i32)
                    } else {
                        counter.wrapping_sub(self.emitted as i32)
                    },
                    interval: self.interval,
                    dir: self.dir,
                },
            )
        } else {
            None
        };
        self.clock = at;
        self.delay = self.delay + self.add as i64;
        self.emitted = self.emitted + 1;
        proof {
            assert((self.emitted as int) * self.add == (self.emitted as int - 1) * self.add
                + self.add) by (nonlinear_arith);
        }
        PulseOutcome::Pulse { at, check }
    }
}

impl StepDriver {
    /// A driver as spawned: counter at zero, clock unsynced.
    pub fn new(invert_step: bool, step_pulse_ticks: u32) -> (r: Self)
        ensures
            r == (StepDriver {
                step_counter: 0,
                step_clock: 0,
                invert_step,
                step_pulse_ticks,
                dir_high: invert_step,
            }),
    {
        StepDriver {
            step_counter: 0,
            step_clock: 0,
            invert_step,
            step_pulse_ticks,
            dir_high: invert_step,
        }
    }

    /// A drain marker forgets in-flight timing.
    pub fn on_reset_step_clock(&mut self)
        ensures
            *final(self) == (StepDriver { step_clock: 0, ..*old(self) }),
    {
        self.step_clock = 0;
    }

    /// The resync rule: with the clock unsynced, a segment whose interval
    /// already lies in the past is stale and must be dropped.
    pub open spec fn drops_segment(self, info: StepInfo, now: u64) -> bool {
        self.step_clock == 0 && info.interval < low32(now)
    }

    /// Begin a commanded segment, or drop it by the resync rule.
    pub fn begin_step_info(&self, info: &StepInfo, now: u64) -> (r: Option<SegmentRun>)
        requires
            self.step_clock <= TICK_LIMIT,
        ensures
            (r is None) <==> self.drops_segment(*info, now),
            r matches Some(run) ==> run == fresh_run(self.step_clock, *info, false) && run.wf(),
    {
        let now_lo: u32 = (now % 0x1_0000_0000) as u32;
        if self.step_clock == 0 && info.interval < now_lo {
            None
        } else {
            let run = SegmentRun {
                start_clock: self.step_clock,
                interval: info.interval,
                add: info.add,
                count: info.count,
                dir: info.dir,
                correction: false,
                emitted: 0,
                clock: self.step_clock,
                delay: info.interval as i64,
                aborted: false,
            };
            proof {
                assert(0 * run.add == 0) by (nonlinear_arith);
            }
            Some(run)
        }
    }

    /// Begin a corrective segment: scheduled relative to the present tick,
    /// with no part in the segment clock.
    pub fn begin_correction(&self, info: &StepInfo, now: u64) -> (run: SegmentRun)
        requires
            now <= TICK_LIMIT,
        ensures
            run == fresh_run(now, *info, true),
            run.wf(),
    {
        let run = SegmentRun {
            start_clock: now,
            interval: info.interval,
            add: info.add,
            count: info.count,
            dir: info.dir,
            correction: true,
            emitted: 0,
            clock: now,
            delay: info.interval as i64,
            aborted: false,
        };
        proof {
            assert(0 * run.add == 0) by (nonlinear_arith);
        }
        run
    }

    /// Preset the direction pin for a segment, changing the driven level
    /// only when it differs from the present one (a stateful read avoids
    /// glitches during direction-inverted segments).
    pub fn update_dir(&mut self, dir: bool) -> (level: Option<bool>)
        ensures
            *final(self) == (StepDriver { dir_high: dir, ..*old(self) }),
            (level is Some) <==> old(self).dir_high != dir,
            level matches Some(l) ==> l == dir,
    {
        if self.dir_high != dir {
            self.dir_high = dir;
            Some(dir)
        } else {
            None
        }
    }

    /// Record a finished (or forfeited) run: resync the clock after an
    /// abort, and advance the commanded position by the pulses actually
    /// emitted — signed by direction — unless the run was corrective.
    /// The returned value, when present, is the new commanded position to
    /// publish.
    pub fn finish_segment(&mut self, run: &SegmentRun) -> (pos: Option<i32>)
        ensures
            final(self).step_clock == (if run.aborted {
                0
            } else {
                run.clock
            }),
            final(self).step_counter == (if run.correction {
                old(self).step_counter
            } else {
                wrap_signed(old(self).step_counter, run.dir, run.emitted)
            }),
            pos == (if run.correction {
                Option::<i32>::None
            } else {
                Some(final(self).step_counter)
            }),
            final(self).invert_step == old(self).invert_step,
            final(self).step_pulse_ticks == old(self).step_pulse_ticks,
            final(self).dir_high == old(self).dir_high,
    {
        if run.aborted {
            self.step_clock = 0;
        } else {
            self.step_clock = run.clock;
        }
        if run.correction {
            None
        } else {
            if run.dir {
                self.step_counter = self.step_counter.wrapping_add(run.emitted as i32);
            } else {
                self.step_counter = self.step_counter.wrapping_sub(run.emitted as i32);
            }
            Some(self.step_counter)
        }
    }
}

/// The drain-marker law: a `ResetStepClock` strictly before a `StepInfo`
/// unsyncs the clock, and the resync rule then discards any segment whose
/// interval already lies below the present clock, so a stale segment
/// cannot fire in the past.
pub proof fn lemma_reset_forces_drop(drv: StepDriver, info: StepInfo, now: u64)
    requires
        info.interval < low32(now),
    ensures
        (StepDriver { step_clock: 0, ..drv }).drops_segment(info, now),
{
}

} // verus!
