//! The endstop watcher: an armed task that waits for a pin edge, posts a
//! trigger to the trsync runner when the edge arrives, and tears down
//! cleanly on request.
//!
//! The task races the pin-edge wait against its disarm channel and feeds
//! the winner to [`EndstopRunner::on_pin_edge`] or
//! [`EndstopRunner::on_channel_message`].

use vstd::prelude::*;

use crate::stepper::low32;
use crate::trsync::TRSyncMessage;

verus! {

/// A message to an endstop watcher task.
#[derive(Clone, Copy, PartialEq, Eq, Structural, Debug)]
pub enum EndstopMessage {
    /// Disarm: the watcher terminates.
    EndTask,
}

/// Where a watcher stands in its life.
#[derive(Clone, Copy, PartialEq, Eq, Structural, Debug)]
pub enum EndstopPhase {
    /// Waiting for the pin edge, racing the disarm channel.
    Armed,
    /// The edge fired and the trigger was posted; waiting for the disarm.
    Triggered,
    /// Terminated.
    Dead,
}

/// State of one endstop watcher task.
pub struct EndstopRunner {
    pub phase: EndstopPhase,
    /// The pin level whose arrival counts as the trigger edge.
    pub pin_value: u8,
    /// The reason the posted trigger carries.
    pub trigger_reason: u8,
}

impl EndstopRunner {
    /// A watcher as spawned by `endstop_home`.
    pub fn arm(pin_value: u8, trigger_reason: u8) -> (r: Self)
        ensures
            r == (EndstopRunner { phase: EndstopPhase::Armed, pin_value, trigger_reason }),
    {
        EndstopRunner { phase: EndstopPhase::Armed, pin_value, trigger_reason }
    }

    /// The pin edge wins the race: post the trigger, with the clock at the
    /// edge, and advance to `Triggered`.  A single edge is authoritative.
    pub fn on_pin_edge(&mut self, now: u64) -> (msg: TRSyncMessage)
        requires
            old(self).phase is Armed,
        ensures
            *final(self) == (EndstopRunner { phase: EndstopPhase::Triggered, ..*old(self) }),
            msg == (TRSyncMessage::NewTrigger {
                reason: old(self).trigger_reason,
                trigger_time: low32(now),
            }),
    {
        self.phase = EndstopPhase::Triggered;
        TRSyncMessage::NewTrigger {
            reason: self.trigger_reason,
            trigger_time: (now % 0x1_0000_0000) as u32,
        }
    }

    /// A disarm message wins: the watcher dies.  When it had already
    /// triggered, the teardown marks the mechanical home, so the task must
    /// first ask the closed-loop monitor to calibrate.
    pub fn on_channel_message(&mut self, _msg: &EndstopMessage) -> (calibrate: bool)
        requires
            !(old(self).phase is Dead),
        ensures
            *final(self) == (EndstopRunner { phase: EndstopPhase::Dead, ..*old(self) }),
            calibrate <==> old(self).phase is Triggered,
    {
        let was_triggered = matches!(self.phase, EndstopPhase::Triggered);
        self.phase = EndstopPhase::Dead;
        was_triggered
    }
}

} // verus!
