//! Step-pulse execution engine for a 3D-printer / CNC host.
//!
//! The host plans motion and speaks a binary command protocol; this crate
//! holds the control-plane logic of the microcontroller side: the step
//! scheduler that turns `(interval, count, add, dir)` move segments into
//! tick-accurate pulse times, the endstop and trigger-synchronization
//! state machines, the closed-loop position monitor, the TMC UART bit
//! framing, the object-id table, and the command handlers that tie them
//! together.  Hardware access (pins, timers, channels) stays outside; the
//! functions here decide, and the surrounding tasks perform.

use vstd::prelude::*;

pub mod as5600;
pub mod cl_monitor;
pub mod commands;
pub mod endstop;
pub mod led;
pub mod oid;
pub mod step_info;
pub mod stepper;
pub mod tmc_uart;
pub mod trace;
pub mod transport;
pub mod trsync;

verus! {

/// Tick rate of the monotonic clock, advertised to the host.
pub const CLOCK_FREQ: u32 = 16_000_000;

/// The board name advertised to the host.
pub const MCU: &'static str = "ESP32C6-Test";

/// Scaling base for the host's load statistics, advertised to the host.
pub const STATS_SUMSQ_BASE: u32 = 256;

/// Advertises that a step pulse may be taken on both edges.
pub const STEPPER_BOTH_EDGES: u32 = 1;

/// Capacity of the stepper move queue, echoed to the host as `move_count`.
pub const MOVE_QUEUE: u16 = 0x800;

/// Upper bound on entries in the object-id table.
pub const MAX_NUMBER_OIDS: u8 = 128;

} // verus!
