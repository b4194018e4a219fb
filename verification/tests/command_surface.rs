//! The host command surface over the object-id table.

use steppulse::commands::{
    allocate_oids, get_clock, get_uptime, CommandError, McuState, SpawnDigitalOut,
    tmcuart_response,
};
use steppulse::step_info::{StepInfo, StepperMessage};
use steppulse::trsync::TRSyncMessage;
use steppulse::{CLOCK_FREQ, MAX_NUMBER_OIDS, MOVE_QUEUE};

#[test]
fn constants_advertised_to_host() {
    assert_eq!(CLOCK_FREQ, 16_000_000);
    assert_eq!(MOVE_QUEUE, 0x800);
    assert_eq!(MAX_NUMBER_OIDS, 128);
}

#[test]
fn config_lifecycle() {
    let mut state = McuState::new();
    let rep = state.get_config();
    assert!(!rep.is_config);
    assert_eq!(rep.crc, 0);
    assert!(!rep.is_shutdown);
    assert_eq!(rep.move_count, 0x800);

    state.finalize_config(0xDEAD_BEEF);
    let rep = state.get_config();
    assert!(rep.is_config);
    assert_eq!(rep.crc, 0xDEAD_BEEF);

    state.config_reset();
    assert!(!state.get_config().is_config);
}

#[test]
fn allocate_oids_is_a_bound_check() {
    assert!(allocate_oids(0));
    assert!(allocate_oids(4));
    assert!(allocate_oids(128));
    assert!(!allocate_oids(129));
    assert!(!allocate_oids(200));
}

#[test]
fn clock_splits() {
    let now = 0x0000_0012_3456_789Au64;
    let up = get_uptime(now);
    assert_eq!(up.high, 0x12);
    assert_eq!(up.clock, 0x3456_789A);
    assert_eq!((up.high as u64) << 32 | up.clock as u64, now);
    assert_eq!(get_clock(now), 0x3456_789A);
}

#[test]
fn queue_step_needs_a_configured_stepper() {
    let mut state = McuState::new();
    assert_eq!(
        state.queue_step(0, 100, 1, 0),
        Err(CommandError::UnknownOid)
    );
    state.config_trsync(0).unwrap();
    assert_eq!(
        state.queue_step(0, 100, 1, 0),
        Err(CommandError::WrongOidKind)
    );
    state.config_stepper(1, 5, 6, 0, 4).unwrap();
    let msg = state.queue_step(1, 100, 2, -3).unwrap();
    assert_eq!(
        msg,
        StepperMessage::StepInfo { _inner: StepInfo::new(100, 2, -3, true) }
    );
}

#[test]
fn cached_direction_feeds_queued_segments() {
    let mut state = McuState::new();
    state.config_stepper(1, 5, 6, 0, 4).unwrap();
    state.set_next_step_dir(1, 0).unwrap();
    let msg = state.queue_step(1, 100, 2, 0).unwrap();
    match msg {
        StepperMessage::StepInfo { _inner } => assert!(!_inner.dir()),
        _ => panic!("expected a segment"),
    }
    state.set_next_step_dir(1, 7).unwrap();
    match state.queue_step(1, 100, 2, 0).unwrap() {
        StepperMessage::StepInfo { _inner } => assert!(_inner.dir()),
        _ => panic!("expected a segment"),
    }
}

#[test]
fn step_pins_are_claimed_once() {
    let mut state = McuState::new();
    state.config_stepper(0, 5, 6, 1, 9).unwrap();
    assert_eq!(
        state.config_stepper(1, 5, 6, 0, 4),
        Err(CommandError::PeripheralTaken)
    );
}

#[test]
fn reconfiguring_an_oid_replaces_the_variant() {
    let mut state = McuState::new();
    state.config_trsync(3).unwrap();
    assert!(state.trsync_set_timeout(3, 50).is_ok());
    state.config_endstop(3, 7, 0).unwrap();
    assert_eq!(
        state.trsync_set_timeout(3, 50),
        Err(CommandError::WrongOidKind)
    );
    assert!(state.endstop_query_state(3, 1000, false).is_ok());
}

#[test]
fn endstop_query_state_reply() {
    let mut state = McuState::new();
    state.config_endstop(4, 7, 1).unwrap();
    let rep = state.endstop_query_state(4, 0x1_0000_0005, true).unwrap();
    assert_eq!(rep.oid, 4);
    assert_eq!(rep.homing, 0);
    assert_eq!(rep.next_clock, 5);
    assert_eq!(rep.pin_value, 1);
}

#[test]
fn trsync_set_timeout_message() {
    let mut state = McuState::new();
    state.config_trsync(2).unwrap();
    assert_eq!(
        state.trsync_set_timeout(2, 777),
        Ok(TRSyncMessage::SetTimeout { to: 777 })
    );
    assert_eq!(
        state.trsync_set_timeout(9, 777),
        Err(CommandError::UnknownOid)
    );
}

#[test]
fn digital_out_lifecycle() {
    let mut state = McuState::new();
    let level = state.config_digital_out(5, 4, 1, 1, 0).unwrap();
    assert!(level, "the pin presets to its default value");
    assert_eq!(
        state.queue_digital_out(5, 123, 0),
        Ok(SpawnDigitalOut { clock: 123, level: false })
    );
    assert_eq!(
        state.queue_digital_out(5, 123, 99),
        Ok(SpawnDigitalOut { clock: 123, level: true })
    );
    assert_eq!(
        state.queue_digital_out(6, 123, 99),
        Err(CommandError::UnknownOid)
    );
    assert_eq!(
        state.config_digital_out(7, 4, 0, 0, 0),
        Err(CommandError::PeripheralTaken)
    );
}

#[test]
fn tmcuart_exchange_strips_and_reflates() {
    let mut state = McuState::new();
    state.config_tmcuart(8, 0, 1, 0, 3000).unwrap();

    // A four-byte request, framed into five bytes by the host.
    let raw = [0x05u8, 0x00, 0x06, 0x6F];
    let mut framed = vec![0u8; 5];
    steppulse::tmc_uart::clad_uart_protocol_bits(&mut framed, &raw);

    let exchange = state.tmcuart_send(8, &framed, 10).unwrap();
    assert_eq!(exchange.tx, raw.to_vec());
    assert_eq!(exchange.echo_len, 4);
    assert!(exchange.expect_reply);

    // The driver answers with eight raw bytes; the host gets ten framed.
    let reply = [1u8, 2, 3, 4, 5, 6, 7, 8];
    let out = tmcuart_response(&reply);
    assert_eq!(out.len(), 10);
    let mut back = vec![0u8; 8];
    let n = steppulse::tmc_uart::strip_uart_protocol_bits(&mut back, &out);
    assert_eq!(n, 8);
    assert_eq!(back, reply.to_vec());
}

#[test]
fn tmcuart_send_without_reply() {
    let mut state = McuState::new();
    state.config_tmcuart(8, 0, 0, 0, 3000).unwrap();
    let raw = [0xF5u8, 0x00, 0x07, 0xAA];
    let mut framed = vec![0u8; 5];
    steppulse::tmc_uart::clad_uart_protocol_bits(&mut framed, &raw);
    let exchange = state.tmcuart_send(8, &framed, 0).unwrap();
    assert!(!exchange.expect_reply);
    assert_eq!(exchange.tx.len(), 4);
}

#[test]
fn full_table_refuses_new_entries_but_replaces_old_ones() {
    let mut state = McuState::new();
    for oid in 0..=127u8 {
        state.config_trsync(oid).unwrap();
    }
    assert_eq!(state.config_trsync(128), Err(CommandError::TableFull));
    // An occupied slot can still be reconfigured.
    assert!(state.config_trsync(64).is_ok());
    assert!(state.config_endstop(64, 7, 0).is_ok());
}

#[test]
fn empty_write_strips_to_nothing() {
    let mut out = vec![0u8; 4];
    let n = steppulse::tmc_uart::strip_uart_protocol_bits(&mut out, &[]);
    assert_eq!(n, 0);
    assert_eq!(out, vec![0u8; 4]);
    // A single byte holds no whole ten-bit cell either.
    let n = steppulse::tmc_uart::strip_uart_protocol_bits(&mut out, &[0xFF]);
    assert_eq!(n, 0);
}

#[test]
fn reset_step_clock_is_the_drain_marker() {
    assert_eq!(
        steppulse::commands::reset_step_clock(0, 1000),
        StepperMessage::ResetStepClock
    );
    assert_eq!(StepperMessage::ResetStepClock.get_priority(), 0);
    let info = StepperMessage::StepInfo { _inner: StepInfo::new(1, 1, 0, false) };
    assert_eq!(info.get_priority(), 0, "equal priorities: the queue is a FIFO");
}
