//! Closed-loop position monitor: compares the commanded step count against
//! the absolute angle reported by the magnet sensor and decides corrective
//! segments.
//!
//! The motor turns one revolution in 3200 steps; the sensor reports one
//! revolution as 4096 ticks.  Both are compared in units of 1/102400 of a
//! turn — the common refinement — so one step is 32 units and one sensor
//! tick is 25 units, and every comparison below is exact.

use vstd::prelude::*;

use crate::step_info::StepInfo;

verus! {

/// Steps per shaft revolution (200 full steps at 16 microsteps).
pub const STEPS_PER_REV: u16 = 3200;

/// Sensor ticks per shaft revolution (a 12-bit absolute encoder).
pub const ANGLE_TICKS_PER_REV: u16 = 4096;

/// Units of 1/102400 turn per motor step.
pub const UNITS_PER_STEP: u16 = 32;

/// Units of 1/102400 turn per sensor tick.
pub const UNITS_PER_ANGLE_TICK: u16 = 25;

/// A message to the closed-loop monitor task.
#[derive(Clone, Copy, PartialEq, Eq, Structural, Debug)]
pub enum CLMonitorMessage {
    /// Re-zero the sensor against the mechanical home.
    Calibrate,
    /// A progress report from the step driver: the commanded counter at the
    /// pulse that posted it, the segment's interval, and its direction.
    CheckPosition { counter: i32, interval: u32, dir: bool },
}

/// State of the closed-loop monitor task.
pub struct ClMonitor {
    /// Raw sensor reading at the mechanical home; written into the
    /// sensor's zero-position register at calibration.
    pub angle_calibrate: u16,
    /// Commanded position at the mechanical home, reduced to one
    /// revolution.
    pub step_calibrate: i32,
}

/// The measured shaft angle in units of 1/102400 turn.
pub open spec fn angle_units(angle: u16) -> int {
    angle * 25
}

/// The commanded shaft angle in units of 1/102400 turn, normalized to one
/// revolution: steps since home, reduced modulo a revolution.
pub open spec fn motor_units(counter: int, step_calibrate: int) -> int {
    ((counter - step_calibrate) % 3200) * 32
}

/// Angle differences are ill-defined where one reading sits just below a
/// full turn and the other just above zero: skip the comparison when one
/// angle lies above 345 degrees while the other lies below 15.
pub open spec fn wrap_guard(au: int, mu: int) -> bool {
    ||| (au * 360 > 345 * 102400 && mu * 360 < 15 * 102400)
    ||| (mu * 360 > 345 * 102400 && au * 360 < 15 * 102400)
}

/// Whole steps of discrepancy, truncated toward zero.
pub open spec fn error_steps(e: int) -> int {
    if e >= 0 {
        e / 32
    } else {
        -((-e) / 32)
    }
}

/// What the monitor does with one progress report: nothing until it has
/// been calibrated or while the sensor reads zero; nothing near the wrap
/// boundary; otherwise a corrective segment whenever the measured shaft
/// lags or leads the commanded position by more than eight steps, with the
/// pulse count covering the discrepancy and the direction chosen to shrink
/// it.
pub open spec fn correction_decision(
    s: ClMonitor,
    angle: u16,
    counter: int,
    interval: u32,
    dir: bool,
) -> Option<StepInfo> {
    if s.angle_calibrate == 0 && s.step_calibrate == 0 {
        None
    } else if angle == 0 {
        None
    } else {
        let au = angle_units(angle);
        let mu = motor_units(counter, s.step_calibrate as int);
        if wrap_guard(au, mu) {
            None
        } else {
            let n = error_steps(au - mu);
            if n > 8 || n < -8 {
                Some(
                    StepInfo {
                        interval,
                        count: (if n < 0 {
                            -n
                        } else {
                            n
                        }) as u16,
                        add: 0,
                        dir: if n < 0 {
                            dir
                        } else {
                            !dir
                        },
                    },
                )
            } else {
                None
            }
        }
    }
}

impl ClMonitor {
    /// The calibration bookkeeping stays inside one revolution.
    pub open spec fn wf(self) -> bool {
        0 <= self.step_calibrate < 3200
    }

    /// A monitor as it starts: not yet calibrated.
    pub fn new() -> (r: Self)
        ensures
            r == (ClMonitor { angle_calibrate: 0, step_calibrate: 0 }),
            r.wf(),
    {
        ClMonitor { angle_calibrate: 0, step_calibrate: 0 }
    }

    /// A calibrate event, fired at each homing: remember the raw sensor
    /// reading and the commanded position reduced to one revolution, and
    /// hand back the value to persist into the sensor's zero-position
    /// register.  Calibrating twice at the same home is harmless: the
    /// outcome depends only on the readings.
    pub fn calibrate(&mut self, raw_angle: u16, position: i32) -> (zero: u16)
        requires
            position != i32::MIN,
        ensures
            final(self).angle_calibrate == raw_angle,
            final(self).step_calibrate == (if position >= 0 {
                position as int
            } else {
                -(position as int)
            }) % 3200,
            final(self).wf(),
            zero == raw_angle,
    {
        let magnitude: i32 = if position >= 0 {
            position
        } else {
            -position
        };
        self.angle_calibrate = raw_angle;
        self.step_calibrate = magnitude % 3200;
        raw_angle
    }

    /// Decide on one progress report from the step driver.
    pub fn check_position(&self, angle: u16, counter: i32, interval: u32, dir: bool) -> (r: Option<
        StepInfo,
    >)
        requires
            self.wf(),
        ensures
            r == correction_decision(*self, angle, counter as int, interval, dir),
    {
        if self.angle_calibrate == 0 && self.step_calibrate == 0 {
            return None;
        }
        if angle == 0 {
            return None;
        }
        let diff: i64 = counter as i64 - self.step_calibrate as i64;
        let m: i64 = if diff >= 0 {
            diff % 3200
        } else {
            let r = (-diff) % 3200;
            if r == 0 {
                0
            } else {
                3200 - r
            }
        };
        proof {
            lemma_euclidean_mod(diff as int, m as int);
        }
        let au: i64 = angle as i64 * 25;
        let mu: i64 = m * 32;
        if (au * 360 > 345 * 102400 && mu * 360 < 15 * 102400) || (mu * 360 > 345 * 102400 && au
            * 360 < 15 * 102400) {
            return None;
        }
        let e: i64 = au - mu;
        let n: i64 = if e >= 0 {
            e / 32
        } else {
            -((-e) / 32)
        };
        if n > 8 || n < -8 {
            let count: u16 = (if n < 0 {
                -n
            } else {
                n
            }) as u16;
            Some(
                StepInfo {
                    interval,
                    count,
                    add: 0,
                    dir: if n < 0 {
                        dir
                    } else {
                        !dir
                    },
                },
            )
        } else {
            None
        }
    }
}

/// Relates the branchy remainder computed in exec code to the
/// always-nonnegative remainder the specification speaks.
proof fn lemma_euclidean_mod(diff: int, m: int)
    requires
        0 <= m < 3200,
        diff >= 0 ==> m == diff % 3200,
        diff < 0 ==> ((-diff) % 3200 == 0 ==> m == 0) && ((-diff) % 3200 != 0 ==> m == 3200 - (
        -diff) % 3200),
    ensures
        m == diff % 3200,
{
    if diff < 0 {
        let q = (-diff) / 3200;
        let r = (-diff) % 3200;
        vstd::arithmetic::div_mod::lemma_fundamental_div_mod(-diff, 3200);
        if r == 0 {
            vstd::arithmetic::div_mod::lemma_fundamental_div_mod_converse_mod(
                diff,
                3200,
                -q,
                0,
            );
        } else {
            vstd::arithmetic::div_mod::lemma_fundamental_div_mod_converse_mod(
                diff,
                3200,
                -q - 1,
                3200 - r,
            );
        }
    }
}

} // verus!
