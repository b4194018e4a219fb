//! Move segments and the messages carried by the stepper move queue.

use vstd::prelude::*;

verus! {

/// One run of step pulses: emit `count` pulses, where the delay between
/// pulse `k` and pulse `k + 1` is `interval + k * add` ticks, with the
/// direction pin preset to `dir`.
#[derive(Clone, Copy, PartialEq, Eq, Structural, Debug)]
pub struct StepInfo {
    pub interval: u32,
    pub count: u16,
    pub add: i16,
    pub dir: bool,
}

impl StepInfo {
    pub fn new(interval: u32, count: u16, add: i16, dir: bool) -> (r: Self)
        ensures
            r == (StepInfo { interval, count, add, dir }),
    {
        Self { interval, count, add, dir }
    }

    pub fn interval(&self) -> (r: u32)
        ensures
            r == self.interval,
    {
        self.interval
    }

    pub fn count(&self) -> (r: u16)
        ensures
            r == self.count,
    {
        self.count
    }

    pub fn add(&self) -> (r: i16)
        ensures
            r == self.add,
    {
        self.add
    }

    pub fn dir(&self) -> (r: bool)
        ensures
            r == self.dir,
    {
        self.dir
    }
}

/// A message to the step-driver task.  All variants share one priority, so
/// the move queue degrades to plain first-in first-out order, and the queue
/// itself is the sole ordering authority.
#[derive(Clone, Copy, PartialEq, Eq, Structural, Debug)]
pub enum StepperMessage {
    /// A commanded move segment, scheduled against the segment clock.
    StepInfo { _inner: StepInfo },
    /// A corrective segment from the closed-loop monitor, scheduled
    /// relative to the present tick and not counted against the
    /// commanded position.
    StepCorrection { _inner: StepInfo },
    /// Drain marker: forget in-flight timing, so that a stale segment
    /// cannot fire in the past.
    ResetStepClock,
}

impl StepperMessage {
    /// Every message has the same priority: the queue is a FIFO.
    pub fn get_priority(&self) -> (r: u32)
        ensures
            r == 0,
    {
        match self {
            Self::ResetStepClock => 0,
            Self::StepInfo { _inner } => 0,
            Self::StepCorrection { _inner } => 0,
        }
    }
}

} // verus!
