//! Scenarios for the trsync runner and the endstop watcher.

use steppulse::commands::{EndstopHomeAction, McuState, TrsyncTriggerAction};
use steppulse::endstop::{EndstopMessage, EndstopPhase, EndstopRunner};
use steppulse::step_info::StepInfo;
use steppulse::stepper::{PulseOutcome, StepDriver};
use steppulse::trsync::{TRSyncMessage, TrsyncRunner};

#[test]
fn homing_trigger_stops_stepper_and_reports() {
    // config_endstop(1, pin=7, pull_up=1), config_trsync(2),
    // endstop_home(1, ..., pin_value=1, trsync_oid=2, trigger_reason=5),
    // trsync_start(2, now, 50_000, 0), stepper_stop_on_trigger(0, 2),
    // then a long queue_step; the endstop edge aborts the move and the
    // next trsync_state shows triggerable=0, trigger_reason=5.
    let mut state = McuState::new();
    state.config_stepper(0, 5, 6, 0, 4).unwrap();
    state.config_endstop(1, 7, 1).unwrap();
    state.config_trsync(2).unwrap();

    let action = state.endstop_home(1, 0, 0, 1, 0, 1, 2, 5).unwrap();
    let (pin_value, trigger_reason, pull_up) = match action {
        EndstopHomeAction::Spawn { pin_value, trigger_reason, pull_up } => {
            (pin_value, trigger_reason, pull_up)
        }
        EndstopHomeAction::Disarm => panic!("sample_count = 1 is no disarm"),
    };
    assert!(pull_up);
    assert_eq!(pin_value, 1);
    let mut watcher = EndstopRunner::arm(pin_value, trigger_reason);

    let mut runner = steppulse::commands::trsync_start(2, 100, 50_000, 0);
    state.stepper_stop_on_trigger(0, 2).unwrap();

    // A long move is in flight.
    let mut drv = StepDriver {
        step_counter: 0,
        step_clock: 1000,
        invert_step: false,
        step_pulse_ticks: 4,
        dir_high: true,
    };
    let long = StepInfo::new(100, 60000, 0, true);
    let mut run = drv.begin_step_info(&long, 1000).unwrap();
    let mut now = 1000u64;
    for _ in 0..3 {
        match run.next_pulse(drv.step_counter, false, now) {
            PulseOutcome::Pulse { at, .. } => now = at,
            _ => panic!("expected pulses"),
        }
    }

    // The pin edge fires: the watcher posts the trigger.
    let msg = watcher.on_pin_edge(123_456);
    assert_eq!(
        msg,
        TRSyncMessage::NewTrigger { reason: 5, trigger_time: 123_456 }
    );
    assert_eq!(watcher.phase, EndstopPhase::Triggered);

    // The runner takes it and fans out the stop flag.
    let stop = runner.on_message(&msg);
    assert!(stop);

    // The step driver observes the flag at the next boundary and aborts.
    match run.next_pulse(drv.step_counter, stop, now) {
        PulseOutcome::Aborted => {}
        _ => panic!("the stop flag must abort the segment"),
    }
    drv.finish_segment(&run);
    assert_eq!(drv.step_clock, 0);
    assert_eq!(drv.step_counter, 3);

    // The next trsync_state reply shows the trigger.
    let (report, done) = runner.on_report_due(200_000);
    assert_eq!(report.can_trigger, 0);
    assert_eq!(report.trigger_reason, 5);
    assert_eq!(report.oid, 2);
    assert!(!done);
}

#[test]
fn host_request_ends_runner_after_one_more_report() {
    // trsync_trigger(2, reason=3): the runner emits one more report, then
    // terminates.
    let mut state = McuState::new();
    state.config_trsync(2).unwrap();
    let mut runner = steppulse::commands::trsync_start(2, 0, 50_000, 0);

    let action = state.trsync_trigger(2, 3, 55_000).unwrap();
    let msg = match action {
        TrsyncTriggerAction::Send { msg } => msg,
        _ => panic!("reason 3 goes through the channel"),
    };
    assert_eq!(msg, TRSyncMessage::HostRequest);
    let stop = runner.on_message(&msg);
    assert!(!stop);
    assert!(runner.end);

    let (report, done) = runner.on_report_due(60_000);
    assert_eq!(report.can_trigger, 1);
    assert!(done, "the runner dies after this report");
}

#[test]
fn report_beat_advances_by_report_ticks() {
    // A live runner owes a report at least every report_ticks ticks.
    let mut runner = TrsyncRunner::start(9, 1000, 2500, 0);
    assert_eq!(runner.next_report, 3500);
    let (_, done) = runner.on_report_due(3500);
    assert!(!done);
    assert_eq!(runner.next_report, 6000);
    let (_, _) = runner.on_report_due(6200);
    assert_eq!(runner.next_report, 8700);
}

#[test]
fn timeout_clears_triggerable() {
    let mut runner = TrsyncRunner::start(3, 0, 1000, 7);
    let stop = runner.on_message(&TRSyncMessage::SetTimeout { to: 5000 });
    assert!(!stop);
    // Not yet expired.
    let (report, _) = runner.on_report_due(4000);
    assert_eq!(report.can_trigger, 1);
    // Expired.
    let (report, _) = runner.on_report_due(5001);
    assert_eq!(report.can_trigger, 0);
    assert_eq!(report.trigger_reason, 7);
    assert_eq!(runner.timeout, None);
}

#[test]
fn end_task_reports_expiry_reason() {
    let mut runner = TrsyncRunner::start(3, 0, 1000, 0);
    runner.on_message(&TRSyncMessage::EndTask);
    let (report, done) = runner.on_report_due(100);
    assert_eq!(report.can_trigger, 0);
    assert_eq!(report.trigger_reason, 4);
    assert!(done);
}

#[test]
fn trsync_trigger_reason_one_fires_wired_signal() {
    let mut state = McuState::new();
    state.config_trsync(2).unwrap();
    // Before wiring, the fire action knows no signal is set.
    match state.trsync_trigger(2, 1, 777).unwrap() {
        TrsyncTriggerAction::Trigger { wired, msg } => {
            assert!(!wired);
            assert_eq!(msg, TRSyncMessage::NewTrigger { reason: 1, trigger_time: 777 });
        }
        _ => panic!("reason 1 fires the trigger"),
    }
    state.stepper_stop_on_trigger(0, 2).unwrap();
    match state.trsync_trigger(2, 1, 777).unwrap() {
        TrsyncTriggerAction::Trigger { wired, .. } => assert!(wired),
        _ => panic!("reason 1 fires the trigger"),
    }
}

#[test]
fn host_trigger_shows_in_next_state_report() {
    // After trsync_trigger(oid, reason=1), the next trsync_state reports
    // triggerable=0 and the trigger's reason.
    let mut state = McuState::new();
    state.config_trsync(2).unwrap();
    let mut runner = steppulse::commands::trsync_start(2, 1000, 50_000, 0);
    let msg = match state.trsync_trigger(2, 1, 1234).unwrap() {
        TrsyncTriggerAction::Trigger { msg, .. } => msg,
        _ => panic!("reason 1 fires the trigger"),
    };
    let stop = runner.on_message(&msg);
    assert!(stop, "the trigger fans out the stop flag through the runner");
    let (report, done) = runner.on_report_due(60_000);
    assert_eq!(report.can_trigger, 0);
    assert_eq!(report.trigger_reason, 1);
    assert!(!done);
}

#[test]
fn trsync_trigger_reason_two_is_oneshot_report() {
    let mut state = McuState::new();
    state.config_trsync(6).unwrap();
    match state.trsync_trigger(6, 2, 0).unwrap() {
        TrsyncTriggerAction::Report { report } => {
            assert_eq!(report.oid, 6);
            assert_eq!(report.can_trigger, 0);
            assert_eq!(report.trigger_reason, 2);
            assert_eq!(report.clock, 0);
        }
        _ => panic!("reason 2 is a one-shot report"),
    }
}

#[test]
fn endstop_disarm_while_armed_does_not_calibrate() {
    let mut watcher = EndstopRunner::arm(1, 5);
    let calibrate = watcher.on_channel_message(&EndstopMessage::EndTask);
    assert!(!calibrate);
    assert_eq!(watcher.phase, EndstopPhase::Dead);
}

#[test]
fn endstop_teardown_after_trigger_calibrates() {
    let mut watcher = EndstopRunner::arm(1, 5);
    watcher.on_pin_edge(42);
    let calibrate = watcher.on_channel_message(&EndstopMessage::EndTask);
    assert!(calibrate, "the mechanical home re-zeros the sensor");
    assert_eq!(watcher.phase, EndstopPhase::Dead);
}

#[test]
fn endstop_home_all_zeros_disarms() {
    let state = McuState::new();
    // No endstop configured: the all-zeros tuple still disarms.
    let action = state.endstop_home(1, 0, 0, 0, 0, 0, 0, 0).unwrap();
    assert_eq!(action, EndstopHomeAction::Disarm);
}
