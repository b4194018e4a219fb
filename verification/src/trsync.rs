//! Trigger synchronization: a host-visible aggregator that reports on a
//! periodic beat whether some underlying event — endstop edge, timeout, or
//! host request — has fired, and fans the event out to the step driver.
//!
//! The runner task around this module races a timer set to `next_report`
//! against its message channel, and feeds whichever wins to
//! [`TrsyncRunner::on_report_due`] or [`TrsyncRunner::on_message`].

use vstd::prelude::*;

use crate::stepper::{low32, TICK_LIMIT};

verus! {

/// Trigger reason: an endstop edge fired.
pub const REASON_ENDSTOP_HIT: u8 = 1;

/// Trigger reason: the host link timed out.
pub const REASON_COMMS_TIMEOUT: u8 = 2;

/// Trigger reason: the host asked the runner to wind down.
pub const REASON_HOST_REQUEST: u8 = 3;

/// Trigger reason: the runner ran past its end time.
pub const REASON_PAST_END_TIME: u8 = 4;

/// A message to a trsync runner task.
#[derive(Clone, Copy, PartialEq, Eq, Structural, Debug)]
pub enum TRSyncMessage {
    /// Arm (or re-arm) the expiry timeout at an absolute tick.
    SetTimeout { to: u64 },
    /// An armed watcher saw its trigger; `trigger_time` is the clock at the
    /// edge.
    NewTrigger { reason: u8, trigger_time: u32 },
    /// The host asked the runner to die after its next report.
    HostRequest,
    /// Tear the runner down: report once more as expired, then die.
    EndTask,
}

/// One periodic `trsync_state` reply.
#[derive(Clone, Copy, PartialEq, Eq, Structural, Debug)]
pub struct TrsyncReport {
    pub oid: u8,
    pub can_trigger: u8,
    pub trigger_reason: u8,
    pub clock: u32,
}

/// State of one trsync runner task.
pub struct TrsyncRunner {
    /// The object id the reports speak for.
    pub oid: u8,
    /// Beat of the periodic report, in ticks.
    pub report_ticks: u32,
    /// Optional expiry: past this tick the runner stops being triggerable.
    pub timeout: Option<u64>,
    /// Whether the underlying event may still fire.
    pub triggerable: bool,
    /// Tick at which the next report is owed.
    pub next_report: u64,
    /// The reason the next report will carry.
    pub expire_reason: u8,
    /// Die after the next report.
    pub end: bool,
}

/// The state change and reply of one periodic beat: an expired timeout
/// clears `triggerable`, the report carries the present trigger state, and
/// the next report is owed `report_ticks` after this one.
pub open spec fn report_state(s: TrsyncRunner, now: u64) -> (TrsyncRunner, TrsyncReport, bool) {
    let timed = s.timed_out(now);
    let trig = s.triggerable && !timed;
    (
        TrsyncRunner {
            triggerable: trig,
            timeout: if timed {
                None
            } else {
                s.timeout
            },
            next_report: (now + s.report_ticks) as u64,
            ..s
        },
        TrsyncReport {
            oid: s.oid,
            can_trigger: if trig {
                1
            } else {
                0
            },
            trigger_reason: s.expire_reason,
            clock: low32(now),
        },
        s.end,
    )
}

/// The state change of one channel message.
pub open spec fn apply_message(s: TrsyncRunner, msg: TRSyncMessage) -> TrsyncRunner {
    match msg {
        TRSyncMessage::SetTimeout { to } => TrsyncRunner { timeout: Some(to), ..s },
        TRSyncMessage::NewTrigger { reason, trigger_time } => TrsyncRunner {
            expire_reason: reason,
            triggerable: false,
            ..s
        },
        TRSyncMessage::HostRequest => TrsyncRunner { end: true, ..s },
        TRSyncMessage::EndTask => TrsyncRunner {
            end: true,
            expire_reason: REASON_PAST_END_TIME,
            triggerable: false,
            ..s
        },
    }
}

impl TrsyncRunner {
    /// Whether the expiry timeout has passed.
    pub open spec fn timed_out(self, now: u64) -> bool {
        match self.timeout {
            Some(to) => now > to,
            None => false,
        }
    }

    /// A runner as spawned by `trsync_start`: triggerable, with the first
    /// report owed `report_ticks` after `report_clock`.
    pub fn start(oid: u8, report_clock: u32, report_ticks: u32, expire_reason: u8) -> (r: Self)
        ensures
            r == (TrsyncRunner {
                oid,
                report_ticks,
                timeout: None,
                triggerable: true,
                next_report: (report_clock + report_ticks) as u64,
                expire_reason,
                end: false,
            }),
    {
        TrsyncRunner {
            oid,
            report_ticks,
            timeout: None,
            triggerable: true,
            next_report: report_clock as u64 + report_ticks as u64,
            expire_reason,
            end: false,
        }
    }

    /// The periodic beat: returns the report to emit and whether the
    /// runner must terminate after sending it.  The next report is owed at
    /// `now + report_ticks`, so a live runner reports at least every
    /// `report_ticks` ticks.
    pub fn on_report_due(&mut self, now: u64) -> (r: (TrsyncReport, bool))
        requires
            now <= TICK_LIMIT,
        ensures
            ({
                let (s2, rep, done) = report_state(*old(self), now);
                &&& *final(self) == s2
                &&& r.0 == rep
                &&& r.1 == done
            }),
    {
        let mut timed = false;
        if let Some(to) = self.timeout {
            if now > to {
                timed = true;
                self.triggerable = false;
                self.timeout = None;
            }
        }
        let rep = TrsyncReport {
            oid: self.oid,
            can_trigger: if self.triggerable {
                1
            } else {
                0
            },
            trigger_reason: self.expire_reason,
            clock: (now % 0x1_0000_0000) as u32,
        };
        self.next_report = now + self.report_ticks as u64;
        (rep, self.end)
    }

    /// A channel message wins the race.  The returned flag asks the task
    /// to signal the stepper stop flag: a new trigger fans out to the step
    /// driver.
    pub fn on_message(&mut self, msg: &TRSyncMessage) -> (stop: bool)
        ensures
            *final(self) == apply_message(*old(self), *msg),
            stop <==> (*msg matches TRSyncMessage::NewTrigger { .. }),
    {
        match msg {
            TRSyncMessage::SetTimeout { to } => {
                self.timeout = Some(*to);
                false
            },
            TRSyncMessage::NewTrigger { reason, trigger_time: _ } => {
                self.expire_reason = *reason;
                self.triggerable = false;
                true
            },
            TRSyncMessage::HostRequest => {
                self.end = true;
                false
            },
            TRSyncMessage::EndTask => {
                self.end = true;
                self.expire_reason = REASON_PAST_END_TIME;
                self.triggerable = false;
                false
            },
        }
    }
}

/// The report-beat law: a periodic report schedules the next one exactly
/// `report_ticks` after the present tick, so a live runner emits a
/// `trsync_state` reply at least every `report_ticks` ticks.
pub proof fn lemma_report_beat(s: TrsyncRunner, now: u64)
    ensures
        report_state(s, now).0.next_report == (now + s.report_ticks) as u64,
        report_state(s, now).1.trigger_reason == s.expire_reason,
{
}

/// The trigger-report law: once a trigger reaches the runner — whether
/// posted by the endstop watcher or carried by the host's trigger command
/// — every later report, the next one in particular, shows the runner not
/// triggerable and carries the trigger's reason.
pub proof fn lemma_trigger_reported(s: TrsyncRunner, reason: u8, trigger_time: u32, now: u64)
    ensures
        ({
            let s1 = apply_message(s, TRSyncMessage::NewTrigger { reason, trigger_time });
            let (s2, rep, done) = report_state(s1, now);
            &&& rep.can_trigger == 0
            &&& rep.trigger_reason == reason
            &&& !s2.triggerable
        }),
{
}

} // verus!
