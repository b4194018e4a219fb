//! Scheduler-trace accounting: how long each task has run, accumulated
//! from the execution begin and end marks the executor emits.

use vstd::prelude::*;

verus! {

/// How many task switches pass between two printed breakdowns.
pub const TRACE_REPORT_EVERY: u32 = 10_000;

/// The accounting behind the scheduler trace hooks.
pub struct LogRtosTracer {
    /// The task the executor entered last.
    pub active_task: u32,
    /// The tick at which it was entered.
    pub timer_start: u64,
    /// Accumulated run time per task id, in the order the tasks first
    /// appeared.
    pub totals: Vec<(u32, u64)>,
    /// Task switches seen so far; wraps.
    pub schedule_count: u32,
}

impl LogRtosTracer {
    pub fn new() -> (r: Self)
        ensures
            r.active_task == 0,
            r.timer_start == 0,
            r.totals@.len() == 0,
            r.schedule_count == 0,
    {
        LogRtosTracer { active_task: 0, timer_start: 0, totals: Vec::new(), schedule_count: 0 }
    }

    /// The executor entered a task: remember which and when.
    pub fn task_exec_begin(&mut self, id: u32, now: u64)
        ensures
            *final(self) == (LogRtosTracer { active_task: id, timer_start: now, ..*old(self) }),
    {
        self.active_task = id;
        self.timer_start = now;
    }

    /// The executor left the active task: charge it the elapsed time, and
    /// say whether a breakdown is due.
    pub fn task_exec_end(&mut self, now: u64) -> (report: bool)
        requires
            now >= old(self).timer_start,
        ensures
            final(self).active_task == old(self).active_task,
            final(self).timer_start == old(self).timer_start,
            final(self).schedule_count == vstd::wrapping::u32_specs::wrapping_add(
                old(self).schedule_count,
                1,
            ),
            report <==> final(self).schedule_count as int % TRACE_REPORT_EVERY as int == 0,
            ({
                let id = old(self).active_task;
                let elapsed = (now - old(self).timer_start) as u64;
                let t = old(self).totals@;
                if exists|j: int| 0 <= j < t.len() && t[j].0 == id {
                    exists|j: int|
                        {
                            &&& 0 <= j < t.len()
                            &&& t[j].0 == id
                            &&& final(self).totals@ == t.update(
                                j,
                                (id, vstd::wrapping::u64_specs::wrapping_add(t[j].1, elapsed)),
                            )
                        }
                } else {
                    final(self).totals@ == t.push((id, elapsed))
                }
            }),
    {
        let elapsed = now - self.timer_start;
        let id = self.active_task;
        let mut idx: Option<usize> = None;
        let mut i: usize = 0;
        while i < self.totals.len()
            invariant
                i <= self.totals@.len(),
                idx is None ==> forall|j: int|
                    0 <= j < i ==> (#[trigger] self.totals@[j]).0 != id,
                idx matches Some(k) ==> k < self.totals@.len() && self.totals@[k as int].0 == id,
                *self == *old(self),
                elapsed == now - old(self).timer_start,
                id == old(self).active_task,
            decreases self.totals@.len() - i,
        {
            if self.totals[i].0 == id && idx.is_none() {
                idx = Some(i);
            }
            i = i + 1;
        }
        match idx {
            Some(k) => {
                let prev = self.totals[k].1;
                self.totals.set(k, (id, prev.wrapping_add(elapsed)));
            },
            None => {
                self.totals.push((id, elapsed));
            },
        }
        self.schedule_count = self.schedule_count.wrapping_add(1);
        self.schedule_count % TRACE_REPORT_EVERY == 0
    }
}

} // verus!
