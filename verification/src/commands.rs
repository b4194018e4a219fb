//! The host command surface.
//!
//! Each handler here is the decision half of one host command: it works
//! over [`McuState`] and plain argument values, and returns the reply to
//! send, the message to enqueue, or the task to spawn.  The transport
//! around the library parses frames, calls the handler, and performs the
//! returned action; where a handler returns an error the caller fails the
//! way a host-protocol violation is failed.

use vstd::prelude::*;

use crate::oid::{no_oids, oid_entries, oid_map_get, oid_map_insert, oid_map_new, OIDTypes, OidMap};
use crate::step_info::{StepInfo, StepperMessage};
use crate::stepper::low32;
use crate::tmc_uart::{cell_data, clad_uart_protocol_bits, framed_bit, strip_uart_protocol_bits, stream_bit};
use crate::trsync::{TRSyncMessage, TrsyncReport, TrsyncRunner};
use crate::MAX_NUMBER_OIDS;
use crate::MOVE_QUEUE;

verus! {

/// Why a command was refused.  The reference behavior for a host-protocol
/// violation is to fail loudly; callers get the reason instead and fail
/// the same way.
#[derive(Clone, Copy, PartialEq, Eq, Structural, Debug)]
pub enum CommandError {
    /// No entry under the object id.
    UnknownOid,
    /// The entry under the object id is of another kind than the command
    /// expects.
    WrongOidKind,
    /// The peripheral the command needs was already handed out.
    PeripheralTaken,
    /// The table has no room for another entry.
    TableFull,
}

/// The `config` reply.
#[derive(Clone, Copy, PartialEq, Eq, Structural, Debug)]
pub struct ConfigReply {
    pub is_config: bool,
    pub crc: u32,
    pub is_shutdown: bool,
    pub move_count: u16,
}

/// The `uptime` reply: the tick counter split into its high and low words.
#[derive(Clone, Copy, PartialEq, Eq, Structural, Debug)]
pub struct UptimeReply {
    pub high: u32,
    pub clock: u32,
}

/// The `stepper_position` reply.
#[derive(Clone, Copy, PartialEq, Eq, Structural, Debug)]
pub struct StepperPositionReply {
    pub oid: u8,
    pub pos: i32,
}

/// The `endstop_state` reply.
#[derive(Clone, Copy, PartialEq, Eq, Structural, Debug)]
pub struct EndstopStateReply {
    pub oid: u8,
    pub homing: u8,
    pub next_clock: u32,
    pub pin_value: u8,
}

/// What `config_stepper` asks the surrounding code to spawn.
#[derive(Clone, Copy, PartialEq, Eq, Structural, Debug)]
pub struct SpawnStepDriver {
    /// The step pin idles high and pulses low.
    pub invert_step: bool,
    pub step_pulse_ticks: u32,
}

/// What `endstop_home` asks for: tear the watcher down, or arm one.
#[derive(Clone, Copy, PartialEq, Eq, Structural, Debug)]
pub enum EndstopHomeAction {
    /// Post the end-task message to the watcher's channel.
    Disarm,
    /// Spawn a watcher on the endstop pin.
    Spawn { pin_value: u8, trigger_reason: u8, pull_up: bool },
}

/// What `trsync_trigger` asks for, by reason.
#[derive(Clone, Copy, PartialEq, Eq, Structural, Debug)]
pub enum TrsyncTriggerAction {
    /// Fire the paired one-shot signal — `wired` says whether one was set
    /// — and put the carried trigger before the runner, whose next report
    /// then shows it as fired.
    Trigger { wired: bool, msg: TRSyncMessage },
    /// Emit this one-shot report.
    Report { report: TrsyncReport },
    /// Enqueue this message for the runner.
    Send { msg: TRSyncMessage },
}

/// What `queue_digital_out` asks the surrounding code to spawn.
#[derive(Clone, Copy, PartialEq, Eq, Structural, Debug)]
pub struct SpawnDigitalOut {
    /// Sleep until this clock...
    pub clock: u32,
    /// ...then drive the pin to this level.
    pub level: bool,
}

/// What `tmcuart_send` asks the surrounding code to exchange on the wire.
pub struct TmcUartExchange {
    /// The de-framed bytes to write to the UART.
    pub tx: Vec<u8>,
    /// How many self-echo bytes to consume off the half-duplex line.
    pub echo_len: usize,
    /// Whether a ten-cell reply is then owed to the host.
    pub expect_reply: bool,
}

/// The host-facing state: the object-id table, the advertised move-queue
/// capacity, the configuration checksum, and which peripherals are still
/// unclaimed.
pub struct McuState {
    pub oids: OidMap,
    pub move_queue: u16,
    pub config_crc: Option<u32>,
    /// The half-duplex UART for the TMC driver is still unclaimed.
    pub tmc_serial_free: bool,
    /// The endstop input pin is still unclaimed.
    pub endstop_pin_free: bool,
    /// The driver-enable output pin is still unclaimed.
    pub enable_pin_free: bool,
    /// The step and direction pins are still unclaimed.
    pub step_pins_free: bool,
}

/// Fields of the state other than the object-id table.
pub open spec fn same_but_oids(a: McuState, b: McuState) -> bool {
    &&& a.move_queue == b.move_queue
    &&& a.config_crc == b.config_crc
    &&& a.tmc_serial_free == b.tmc_serial_free
    &&& a.endstop_pin_free == b.endstop_pin_free
    &&& a.enable_pin_free == b.enable_pin_free
    &&& a.step_pins_free == b.step_pins_free
}

/// Nothing the host can observe changed.
pub open spec fn state_eq(a: McuState, b: McuState) -> bool {
    a.oids_view() == b.oids_view() && same_but_oids(a, b)
}

/// The error a failed table lookup earns.
pub open spec fn lookup_error(entries: Map<u8, OIDTypes>, oid: u8) -> CommandError {
    if !entries.contains_key(oid) {
        CommandError::UnknownOid
    } else {
        CommandError::WrongOidKind
    }
}

impl McuState {
    /// The entries of the object-id table.
    pub open spec fn oids_view(self) -> Map<u8, OIDTypes> {
        oid_entries(self.oids)
    }

    /// The table stays a finite mapping; everything else about the state
    /// is free.
    pub open spec fn wf(self) -> bool {
        self.oids_view().dom().finite()
    }

    /// Whether an entry can go in under this id: its slot is occupied, or
    /// there is room for one more.
    pub open spec fn can_insert(self, oid: u8) -> bool {
        self.oids_view().contains_key(oid) || self.oids_view().dom().len() < 128
    }

    /// The state at power-on: an empty table, no checksum, every
    /// peripheral unclaimed.
    pub fn new() -> (r: Self)
        ensures
            r.wf(),
            no_oids(r.oids_view()),
            r.move_queue == MOVE_QUEUE,
            r.config_crc is None,
            r.tmc_serial_free && r.endstop_pin_free && r.enable_pin_free && r.step_pins_free,
    {
        McuState {
            oids: oid_map_new(),
            move_queue: MOVE_QUEUE,
            config_crc: None,
            tmc_serial_free: true,
            endstop_pin_free: true,
            enable_pin_free: true,
            step_pins_free: true,
        }
    }

    /// `get_config`: advertise whether a configuration checksum is held,
    /// and the move-queue capacity.
    pub fn get_config(&self) -> (r: ConfigReply)
        ensures
            r.is_config == (self.config_crc is Some),
            r.crc == (match self.config_crc {
                Some(c) => c,
                None => 0u32,
            }),
            r.is_shutdown == false,
            r.move_count == self.move_queue,
    {
        ConfigReply {
            is_config: self.config_crc.is_some(),
            crc: match self.config_crc {
                Some(c) => c,
                None => 0,
            },
            is_shutdown: false,
            move_count: self.move_queue,
        }
    }

    /// `config_reset`: forget the configuration checksum.
    pub fn config_reset(&mut self)
        ensures
            *final(self) == (McuState { config_crc: None, ..*old(self) }),
    {
        self.config_crc = None;
    }

    /// `finalize_config`: store the configuration checksum.
    pub fn finalize_config(&mut self, crc: u32)
        ensures
            *final(self) == (McuState { config_crc: Some(crc), ..*old(self) }),
    {
        self.config_crc = Some(crc);
    }

    /// `queue_step`: turn the arguments and the stepper's cached direction
    /// into the segment message for the move queue.
    pub fn queue_step(&self, oid: u8, interval: u32, count: u16, add: i16) -> (r: Result<
        StepperMessage,
        CommandError,
    >)
        ensures
            (r is Ok) <==> (self.oids_view().contains_key(oid) && self.oids_view()[oid] matches
            OIDTypes::Stepper { .. }),
            r matches Ok(msg) ==> (self.oids_view()[oid] matches OIDTypes::Stepper { dir } && msg
                == (StepperMessage::StepInfo { _inner: StepInfo { interval, count, add, dir } })),
            r matches Err(e) ==> e == lookup_error(self.oids_view(), oid),
    {
        match oid_map_get(&self.oids, oid) {
            None => Err(CommandError::UnknownOid),
            Some(OIDTypes::Stepper { dir }) => Ok(
                StepperMessage::StepInfo { _inner: StepInfo::new(interval, count, add, dir) },
            ),
            Some(_) => Err(CommandError::WrongOidKind),
        }
    }

    /// `set_next_step_dir`: cache the direction the next segments move in.
    pub fn set_next_step_dir(&mut self, oid: u8, dir: u8) -> (r: Result<(), CommandError>)
        requires
            old(self).wf(),
        ensures
            final(self).wf(),
            (r is Ok) <==> (old(self).oids_view().contains_key(oid) && old(self).oids_view()[oid]
                matches OIDTypes::Stepper { .. }),
            r is Ok ==> final(self).oids_view() == old(self).oids_view().insert(
                oid,
                OIDTypes::Stepper { dir: dir != 0 },
            ) && same_but_oids(*old(self), *final(self)),
            r is Err ==> state_eq(*old(self), *final(self)),
            r matches Err(e) ==> e == lookup_error(old(self).oids_view(), oid),
    {
        match oid_map_get(&self.oids, oid) {
            None => Err(CommandError::UnknownOid),
            Some(OIDTypes::Stepper { .. }) => {
                let ok = oid_map_insert(
                    &mut self.oids,
                    oid,
                    OIDTypes::Stepper { dir: dir != 0 },
                );
                proof {
                    assert(ok);
                }
                Ok(())
            },
            Some(_) => Err(CommandError::WrongOidKind),
        }
    }

    /// `stepper_get_position`: echo the published commanded position for a
    /// configured stepper.
    pub fn stepper_get_position(&self, oid: u8, position: i32) -> (r: Result<
        StepperPositionReply,
        CommandError,
    >)
        ensures
            (r is Ok) <==> (self.oids_view().contains_key(oid) && self.oids_view()[oid] matches
            OIDTypes::Stepper { .. }),
            r matches Ok(rep) ==> rep == (StepperPositionReply { oid, pos: position }),
            r matches Err(e) ==> e == lookup_error(self.oids_view(), oid),
    {
        match oid_map_get(&self.oids, oid) {
            None => Err(CommandError::UnknownOid),
            Some(OIDTypes::Stepper { .. }) => Ok(StepperPositionReply { oid, pos: position }),
            Some(_) => Err(CommandError::WrongOidKind),
        }
    }

    /// `stepper_stop_on_trigger`: point the trsync's one-shot signal at
    /// the stepper stop flag.
    pub fn stepper_stop_on_trigger(&mut self, oid: u8, trsync_oid: u8) -> (r: Result<
        (),
        CommandError,
    >)
        requires
            old(self).wf(),
        ensures
            final(self).wf(),
            (r is Ok) <==> (old(self).oids_view().contains_key(trsync_oid) && old(self).oids_view()[trsync_oid] matches OIDTypes::TRSync { .. }),
            r is Ok ==> final(self).oids_view() == old(self).oids_view().insert(
                trsync_oid,
                OIDTypes::TRSync { alert_wired: true },
            ) && same_but_oids(*old(self), *final(self)),
            r is Err ==> state_eq(*old(self), *final(self)),
            r matches Err(e) ==> e == lookup_error(old(self).oids_view(), trsync_oid),
    {
        match oid_map_get(&self.oids, trsync_oid) {
            None => Err(CommandError::UnknownOid),
            Some(OIDTypes::TRSync { .. }) => {
                let ok = oid_map_insert(
                    &mut self.oids,
                    trsync_oid,
                    OIDTypes::TRSync { alert_wired: true },
                );
                proof {
                    assert(ok);
                }
                Ok(())
            },
            Some(_) => Err(CommandError::WrongOidKind),
        }
    }

    /// `config_stepper`: claim the step and direction pins, record the
    /// stepper under its id, and ask for one driver task bound to the
    /// move queue.
    pub fn config_stepper(
        &mut self,
        oid: u8,
        step_pin: u32,
        dir_pin: u8,
        invert_step: u8,
        step_pulse_ticks: u32,
    ) -> (r: Result<SpawnStepDriver, CommandError>)
        requires
            old(self).wf(),
        ensures
            final(self).wf(),
            (r is Ok) <==> (old(self).step_pins_free && old(self).can_insert(oid)),
            r is Ok ==> final(self).oids_view() == old(self).oids_view().insert(
                oid,
                OIDTypes::Stepper { dir: true },
            ) && final(self).step_pins_free == false && final(self).move_queue == old(self).move_queue && final(self).config_crc == old(self).config_crc && final(self).tmc_serial_free == old(self).tmc_serial_free && final(self).endstop_pin_free == old(self).endstop_pin_free && final(self).enable_pin_free == old(self).enable_pin_free,
            r matches Ok(a) ==> a == (SpawnStepDriver {
                invert_step: invert_step != 0,
                step_pulse_ticks,
            }),
            r is Err ==> state_eq(*old(self), *final(self)),
            r matches Err(e) ==> e == (if !old(self).step_pins_free {
                CommandError::PeripheralTaken
            } else {
                CommandError::TableFull
            }),
    {
        if !self.step_pins_free {
            return Err(CommandError::PeripheralTaken);
        }
        let ok = oid_map_insert(&mut self.oids, oid, OIDTypes::Stepper { dir: true });
        if !ok {
            return Err(CommandError::TableFull);
        }
        self.step_pins_free = false;
        Ok(SpawnStepDriver { invert_step: invert_step != 0, step_pulse_ticks })
    }

    /// `config_endstop`: claim the endstop pin and record the endstop,
    /// with or without its pull-up, under its id.
    pub fn config_endstop(&mut self, oid: u8, pin: u8, pull_up: u8) -> (r: Result<
        (),
        CommandError,
    >)
        requires
            old(self).wf(),
        ensures
            final(self).wf(),
            (r is Ok) <==> (old(self).endstop_pin_free && old(self).can_insert(oid)),
            r is Ok ==> final(self).oids_view() == old(self).oids_view().insert(
                oid,
                OIDTypes::Endstop { pull_up: pull_up == 1, homing: false, clock: 0 },
            ) && final(self).endstop_pin_free == false && final(self).move_queue == old(self).move_queue && final(self).config_crc == old(self).config_crc && final(self).tmc_serial_free == old(self).tmc_serial_free && final(self).step_pins_free == old(self).step_pins_free && final(self).enable_pin_free == old(self).enable_pin_free,
            r is Err ==> state_eq(*old(self), *final(self)),
            r matches Err(e) ==> e == (if !old(self).endstop_pin_free {
                CommandError::PeripheralTaken
            } else {
                CommandError::TableFull
            }),
    {
        if !self.endstop_pin_free {
            return Err(CommandError::PeripheralTaken);
        }
        let ok = oid_map_insert(
            &mut self.oids,
            oid,
            OIDTypes::Endstop { pull_up: pull_up == 1, homing: false, clock: 0 },
        );
        if !ok {
            return Err(CommandError::TableFull);
        }
        self.endstop_pin_free = false;
        Ok(())
    }

    /// `endstop_home`: the all-zeros argument tuple disarms the watcher;
    /// anything else arms one on a configured endstop.
    pub fn endstop_home(
        &self,
        oid: u8,
        clock: u32,
        sample_ticks: u32,
        sample_count: u8,
        rest_ticks: u32,
        pin_value: u8,
        trsync_oid: u8,
        trigger_reason: u8,
    ) -> (r: Result<EndstopHomeAction, CommandError>)
        ensures
            clock == 0 && sample_ticks == 0 && sample_count == 0 && rest_ticks == 0 && trsync_oid
                == 0 && trigger_reason == 0 ==> r == Ok::<EndstopHomeAction, CommandError>(
                EndstopHomeAction::Disarm,
            ),
            !(clock == 0 && sample_ticks == 0 && sample_count == 0 && rest_ticks == 0 && trsync_oid
                == 0 && trigger_reason == 0) ==> {
                &&& (r is Ok) <==> (self.oids_view().contains_key(oid) && self.oids_view()[oid]
                    matches OIDTypes::Endstop { .. })
                &&& r matches Ok(a) ==> (self.oids_view()[oid] matches OIDTypes::Endstop {
                    pull_up,
                    ..
                } && a == (EndstopHomeAction::Spawn { pin_value, trigger_reason, pull_up }))
                &&& r matches Err(e) ==> e == lookup_error(self.oids_view(), oid)
            },
    {
        if clock == 0 && sample_ticks == 0 && sample_count == 0 && rest_ticks == 0 && trsync_oid
            == 0 && trigger_reason == 0 {
            return Ok(EndstopHomeAction::Disarm);
        }
        match oid_map_get(&self.oids, oid) {
            None => Err(CommandError::UnknownOid),
            Some(OIDTypes::Endstop { pull_up, .. }) => Ok(
                EndstopHomeAction::Spawn { pin_value, trigger_reason, pull_up },
            ),
            Some(_) => Err(CommandError::WrongOidKind),
        }
    }

    /// `endstop_query_state`: report the endstop's homing state and pin
    /// level at the present clock.
    pub fn endstop_query_state(&self, oid: u8, now: u64, pin_value: bool) -> (r: Result<
        EndstopStateReply,
        CommandError,
    >)
        ensures
            (r is Ok) <==> (self.oids_view().contains_key(oid) && self.oids_view()[oid] matches
            OIDTypes::Endstop { .. }),
            r matches Ok(rep) ==> (self.oids_view()[oid] matches OIDTypes::Endstop {
                homing,
                ..
            } && rep == (EndstopStateReply {
                oid,
                homing: if homing {
                    1u8
                } else {
                    0u8
                },
                next_clock: low32(now),
                pin_value: if pin_value {
                    1u8
                } else {
                    0u8
                },
            })),
            r matches Err(e) ==> e == lookup_error(self.oids_view(), oid),
    {
        match oid_map_get(&self.oids, oid) {
            None => Err(CommandError::UnknownOid),
            Some(OIDTypes::Endstop { homing, .. }) => Ok(
                EndstopStateReply {
                    oid,
                    homing: if homing {
                        1
                    } else {
                        0
                    },
                    next_clock: (now % 0x1_0000_0000) as u32,
                    pin_value: if pin_value {
                        1
                    } else {
                        0
                    },
                },
            ),
            Some(_) => Err(CommandError::WrongOidKind),
        }
    }

    /// `config_trsync`: record a trigger-synchronization object under its
    /// id, its signal not yet wired anywhere.
    pub fn config_trsync(&mut self, oid: u8) -> (r: Result<(), CommandError>)
        requires
            old(self).wf(),
        ensures
            final(self).wf(),
            (r is Ok) <==> old(self).can_insert(oid),
            r is Ok ==> final(self).oids_view() == old(self).oids_view().insert(
                oid,
                OIDTypes::TRSync { alert_wired: false },
            ) && same_but_oids(*old(self), *final(self)),
            r is Err ==> state_eq(*old(self), *final(self)),
            r matches Err(e) ==> e == CommandError::TableFull,
    {
        let ok = oid_map_insert(&mut self.oids, oid, OIDTypes::TRSync { alert_wired: false });
        if !ok {
            return Err(CommandError::TableFull);
        }
        Ok(())
    }

    /// `trsync_set_timeout`: the expiry message for a configured trsync's
    /// runner.
    pub fn trsync_set_timeout(&self, oid: u8, clock: u32) -> (r: Result<
        TRSyncMessage,
        CommandError,
    >)
        ensures
            (r is Ok) <==> (self.oids_view().contains_key(oid) && self.oids_view()[oid] matches
            OIDTypes::TRSync { .. }),
            r matches Ok(msg) ==> msg == (TRSyncMessage::SetTimeout { to: clock as u64 }),
            r matches Err(e) ==> e == lookup_error(self.oids_view(), oid),
    {
        match oid_map_get(&self.oids, oid) {
            None => Err(CommandError::UnknownOid),
            Some(OIDTypes::TRSync { .. }) => Ok(TRSyncMessage::SetTimeout { to: clock as u64 }),
            Some(_) => Err(CommandError::WrongOidKind),
        }
    }

    /// `trsync_trigger`: one of four host-driven trigger paths — fire the
    /// trigger (the paired signal, plus the runner's bookkeeping, so the
    /// next report shows it), emit a one-shot report, ask the runner to
    /// wind down, or tear it down.
    pub fn trsync_trigger(&self, oid: u8, reason: u8, now: u64) -> (r: Result<
        TrsyncTriggerAction,
        CommandError,
    >)
        requires
            1 <= reason <= 4,
        ensures
            (r is Ok) <==> (self.oids_view().contains_key(oid) && self.oids_view()[oid] matches
            OIDTypes::TRSync { .. }),
            r matches Ok(a) ==> (self.oids_view()[oid] matches OIDTypes::TRSync { alert_wired }
                && a == (if reason == 1 {
                TrsyncTriggerAction::Trigger {
                    wired: alert_wired,
                    msg: TRSyncMessage::NewTrigger { reason, trigger_time: low32(now) },
                }
            } else if reason == 2 {
                TrsyncTriggerAction::Report {
                    report: TrsyncReport { oid, can_trigger: 0, trigger_reason: reason, clock: 0 },
                }
            } else if reason == 3 {
                TrsyncTriggerAction::Send { msg: TRSyncMessage::HostRequest }
            } else {
                TrsyncTriggerAction::Send { msg: TRSyncMessage::EndTask }
            })),
            r matches Err(e) ==> e == lookup_error(self.oids_view(), oid),
    {
        match oid_map_get(&self.oids, oid) {
            None => Err(CommandError::UnknownOid),
            Some(OIDTypes::TRSync { alert_wired }) => Ok(
                if reason == 1 {
                    TrsyncTriggerAction::Trigger {
                        wired: alert_wired,
                        msg: TRSyncMessage::NewTrigger {
                            reason,
                            trigger_time: (now % 0x1_0000_0000) as u32,
                        },
                    }
                } else if reason == 2 {
                    TrsyncTriggerAction::Report {
                        report: TrsyncReport {
                            oid,
                            can_trigger: 0,
                            trigger_reason: reason,
                            clock: 0,
                        },
                    }
                } else if reason == 3 {
                    TrsyncTriggerAction::Send { msg: TRSyncMessage::HostRequest }
                } else {
                    TrsyncTriggerAction::Send { msg: TRSyncMessage::EndTask }
                },
            ),
            Some(_) => Err(CommandError::WrongOidKind),
        }
    }

    /// `config_digital_out`: claim the output pin, record the entity, and
    /// hand back the level to preset it to.
    pub fn config_digital_out(
        &mut self,
        oid: u8,
        pin: u32,
        value: u8,
        default_value: u8,
        max_duration: u32,
    ) -> (r: Result<bool, CommandError>)
        requires
            old(self).wf(),
        ensures
            final(self).wf(),
            (r is Ok) <==> (old(self).enable_pin_free && old(self).can_insert(oid)),
            r is Ok ==> final(self).oids_view() == old(self).oids_view().insert(
                oid,
                OIDTypes::DigitalOut {
                    value: value != 0,
                    default_value: default_value != 0,
                    max_duration,
                },
            ) && final(self).enable_pin_free == false && final(self).move_queue == old(self).move_queue && final(self).config_crc == old(self).config_crc && final(self).tmc_serial_free == old(self).tmc_serial_free && final(self).step_pins_free == old(self).step_pins_free && final(self).endstop_pin_free == old(self).endstop_pin_free,
            r matches Ok(level) ==> level == (default_value != 0),
            r is Err ==> state_eq(*old(self), *final(self)),
            r matches Err(e) ==> e == (if !old(self).enable_pin_free {
                CommandError::PeripheralTaken
            } else {
                CommandError::TableFull
            }),
    {
        if !self.enable_pin_free {
            return Err(CommandError::PeripheralTaken);
        }
        let ok = oid_map_insert(
            &mut self.oids,
            oid,
            OIDTypes::DigitalOut {
                value: value != 0,
                default_value: default_value != 0,
                max_duration,
            },
        );
        if !ok {
            return Err(CommandError::TableFull);
        }
        self.enable_pin_free = false;
        Ok(default_value != 0)
    }

    /// `queue_digital_out`: a one-shot that sleeps until `clock`, then
    /// drives the pin high exactly when `on_ticks` is nonzero.
    pub fn queue_digital_out(&self, oid: u8, clock: u32, on_ticks: u32) -> (r: Result<
        SpawnDigitalOut,
        CommandError,
    >)
        ensures
            (r is Ok) <==> (self.oids_view().contains_key(oid) && self.oids_view()[oid] matches
            OIDTypes::DigitalOut { .. }),
            r matches Ok(a) ==> a == (SpawnDigitalOut { clock, level: on_ticks != 0 }),
            r matches Err(e) ==> e == lookup_error(self.oids_view(), oid),
    {
        match oid_map_get(&self.oids, oid) {
            None => Err(CommandError::UnknownOid),
            Some(OIDTypes::DigitalOut { .. }) => Ok(
                SpawnDigitalOut { clock, level: on_ticks != 0 },
            ),
            Some(_) => Err(CommandError::WrongOidKind),
        }
    }

    /// `config_tmcuart`: claim the half-duplex UART and record the bridge
    /// under its id.  The pin arguments are accepted for protocol
    /// compatibility and ignored.
    pub fn config_tmcuart(
        &mut self,
        oid: u8,
        rx_pin: u32,
        pull_up: u8,
        tx_pin: u32,
        bit_time: u32,
    ) -> (r: Result<(), CommandError>)
        requires
            old(self).wf(),
        ensures
            final(self).wf(),
            (r is Ok) <==> (old(self).tmc_serial_free && old(self).can_insert(oid)),
            r is Ok ==> final(self).oids_view() == old(self).oids_view().insert(
                oid,
                OIDTypes::TMCUart { pull_up: pull_up == 1, bit_time },
            ) && final(self).tmc_serial_free == false && final(self).move_queue == old(self).move_queue && final(self).config_crc == old(self).config_crc && final(self).enable_pin_free == old(self).enable_pin_free && final(self).step_pins_free == old(self).step_pins_free && final(self).endstop_pin_free == old(self).endstop_pin_free,
            r is Err ==> state_eq(*old(self), *final(self)),
            r matches Err(e) ==> e == (if !old(self).tmc_serial_free {
                CommandError::PeripheralTaken
            } else {
                CommandError::TableFull
            }),
    {
        if !self.tmc_serial_free {
            return Err(CommandError::PeripheralTaken);
        }
        let ok = oid_map_insert(
            &mut self.oids,
            oid,
            OIDTypes::TMCUart { pull_up: pull_up == 1, bit_time },
        );
        if !ok {
            return Err(CommandError::TableFull);
        }
        self.tmc_serial_free = false;
        Ok(())
    }

    /// `tmcuart_send`: de-frame the host's ten-bit cells into the raw
    /// bytes to put on the wire, and say how many self-echo bytes to
    /// consume before any reply.  Reads other than ten cells are not
    /// supported by this revision.
    pub fn tmcuart_send(&self, oid: u8, write: &[u8], read: u8) -> (r: Result<
        TmcUartExchange,
        CommandError,
    >)
        requires
            read == 0 || read == 10,
            write@.len() * 8 <= usize::MAX,
        ensures
            (r is Ok) <==> (self.oids_view().contains_key(oid) && self.oids_view()[oid] matches
            OIDTypes::TMCUart { .. }),
            r matches Ok(x) ==> {
                &&& x.tx@.len() as int == (if write@.len() * 8 / 10 <= 8 {
                    (write@.len() * 8 / 10) as int
                } else {
                    8int
                })
                &&& forall|c: int| 0 <= c < x.tx@.len() ==> x.tx@[c] == cell_data(write@, c)
                &&& x.echo_len == x.tx@.len()
                &&& x.expect_reply == (read != 0)
            },
            r matches Err(e) ==> e == lookup_error(self.oids_view(), oid),
    {
        match oid_map_get(&self.oids, oid) {
            None => Err(CommandError::UnknownOid),
            Some(OIDTypes::TMCUart { .. }) => {
                let mut tx = zeroed_vec(8);
                let n = strip_uart_protocol_bits(&mut tx, write);
                tx.truncate(n);
                Ok(TmcUartExchange { tx, echo_len: n, expect_reply: read != 0 })
            },
            Some(_) => Err(CommandError::WrongOidKind),
        }
    }
}

/// Frame the eight bytes read back from the TMC driver into the ten
/// cells owed to the host.
pub fn tmcuart_response(reply: &[u8]) -> (out: Vec<u8>)
    requires
        reply@.len() == 8,
    ensures
        out@.len() == 10,
        forall|i: int| 0 <= i < 80 ==> stream_bit(out@, i) == framed_bit(reply@, i),
{
    let mut out = zeroed_vec(10);
    let _n = clad_uart_protocol_bits(&mut out, reply);
    out
}

/// `allocate_oids` is purely a bound check: the table is pre-sized.
pub fn allocate_oids(count: u8) -> (ok: bool)
    ensures
        ok <==> count <= MAX_NUMBER_OIDS,
{
    count <= MAX_NUMBER_OIDS
}

/// `get_uptime`: the tick counter split into its high and low words.
pub fn get_uptime(now: u64) -> (r: UptimeReply)
    ensures
        r.clock == low32(now),
        r.high * 0x1_0000_0000 + r.clock == now,
{
    proof {
        assert((now >> 32u64) < 0x1_0000_0000 && ((now >> 32u64) & 0xffff_ffff) * 0x1_0000_0000 + (
        now & 0xffff_ffff) == now && (now & 0xffff_ffff) == now % 0x1_0000_0000 && (now >> 32u64)
            & 0xffff_ffff == (now >> 32u64)) by (bit_vector);
    }
    UptimeReply { high: (now >> 32u64) as u32, clock: (now & 0xffff_ffff) as u32 }
}

/// `get_clock`: the low word of the tick counter.
pub fn get_clock(now: u64) -> (r: u32)
    ensures
        r == low32(now),
{
    (now % 0x1_0000_0000) as u32
}

/// `reset_step_clock` enqueues the drain marker; the arguments are
/// accepted for protocol compatibility.
pub fn reset_step_clock(oid: u8, clock: u32) -> (r: StepperMessage)
    ensures
        r == StepperMessage::ResetStepClock,
{
    StepperMessage::ResetStepClock
}

/// `trsync_start` builds the runner state for a fresh trsync task; the
/// caller drains the trsync channel before spawning it.
pub fn trsync_start(oid: u8, report_clock: u32, report_ticks: u32, expire_reason: u8) -> (r:
    TrsyncRunner)
    ensures
        r == (TrsyncRunner {
            oid,
            report_ticks,
            timeout: None,
            triggerable: true,
            next_report: (report_clock + report_ticks) as u64,
            expire_reason,
            end: false,
        }),
{
    TrsyncRunner::start(oid, report_clock, report_ticks, expire_reason)
}

/// A scratch buffer of `n` zero bytes.
fn zeroed_vec(n: usize) -> (r: Vec<u8>)
    ensures
        r@.len() == n,
        forall|i: int| 0 <= i < n ==> r@[i] == 0u8,
{
    let mut r: Vec<u8> = Vec::new();
    let mut i: usize = 0;
    while i < n
        invariant
            i <= n,
            r@.len() == i,
            forall|j: int| 0 <= j < i ==> r@[j] == 0u8,
        decreases n - i,
    {
        r.push(0);
        i = i + 1;
    }
    r
}

} // verus!
