//! The sensor handle, the LED effect machine, and the trace accounting.

use steppulse::as5600::{As5600, DEFAULT_I2C_ADDRESS};
use steppulse::transport::{TxBuffer, TX_BUFFER_CAPACITY, USB_MAX_PACKET_SIZE};
use steppulse::led::{LedEffect, LedEffects, RainbowEffectStateMachine, Rgb};
use steppulse::trace::{LogRtosTracer, TRACE_REPORT_EVERY};

#[test]
fn sensor_handle_carries_bus_and_address() {
    let driver = As5600::new(0xABu8);
    assert_eq!(driver.address, DEFAULT_I2C_ADDRESS);
    assert_eq!(DEFAULT_I2C_ADDRESS, 0x36);
    let bus = driver.release();
    assert_eq!(bus, 0xAB);
    let other = As5600::with_address(0x40, "bus");
    assert_eq!(other.address, 0x40);
    assert_eq!(other.release(), "bus");
}

#[test]
fn rainbow_sweeps_red_up_then_hands_over() {
    let mut led = LedEffect::new(LedEffects::Rainbow {
        state: RainbowEffectStateMachine::IncRed,
        max_brightness: 2,
        delay_ms: 100,
    });
    let mut rgb = Rgb { r: 0, g: 0, b: 0 };
    assert_eq!(led.next(&mut rgb), Some(100));
    assert_eq!(rgb, Rgb { r: 1, g: 0, b: 0 });
    assert_eq!(led.next(&mut rgb), Some(100));
    assert_eq!(rgb, Rgb { r: 2, g: 0, b: 0 });
    // At the bound the channel holds and the phase advances.
    assert_eq!(led.next(&mut rgb), Some(100));
    assert_eq!(rgb, Rgb { r: 2, g: 0, b: 0 });
    match led.effect {
        LedEffects::Rainbow { state, .. } => {
            assert_eq!(state, RainbowEffectStateMachine::DecGreen)
        }
        _ => panic!("the effect stays a rainbow"),
    }
}

#[test]
fn rainbow_phase_order_is_a_cycle() {
    let mut s = RainbowEffectStateMachine::IncRed;
    let mut seen = Vec::new();
    for _ in 0..6 {
        seen.push(s);
        s = s.next_state();
    }
    assert_eq!(s, RainbowEffectStateMachine::IncRed);
    assert_eq!(
        seen,
        vec![
            RainbowEffectStateMachine::IncRed,
            RainbowEffectStateMachine::DecGreen,
            RainbowEffectStateMachine::IncBlue,
            RainbowEffectStateMachine::DecRed,
            RainbowEffectStateMachine::IncGreen,
            RainbowEffectStateMachine::DecBlue,
        ]
    );
}

#[test]
fn idle_effect_waits_for_nothing() {
    let mut led = LedEffect::new(LedEffects::Off);
    let mut rgb = Rgb { r: 3, g: 4, b: 5 };
    assert_eq!(led.next(&mut rgb), None);
    assert_eq!(rgb, Rgb { r: 3, g: 4, b: 5 });
}

#[test]
fn tx_buffer_drains_in_order() {
    assert_eq!(TX_BUFFER_CAPACITY, 2 * USB_MAX_PACKET_SIZE);
    let mut buf = TxBuffer::new();
    assert!(buf.is_empty());
    buf.extend(&[1, 2, 3]);
    buf.extend(&[4, 5]);
    assert_eq!(buf.data(), &[1, 2, 3, 4, 5]);
    assert_eq!(buf.len(), 5);
    buf.pop(2);
    assert_eq!(buf.data(), &[3, 4, 5]);
    buf.pop(3);
    assert!(buf.is_empty());
}

#[test]
fn trace_accumulates_per_task() {
    let mut t = LogRtosTracer::new();
    t.task_exec_begin(7, 100);
    assert!(!t.task_exec_end(150));
    t.task_exec_begin(9, 150);
    t.task_exec_end(160);
    t.task_exec_begin(7, 200);
    t.task_exec_end(230);
    assert_eq!(t.totals, vec![(7, 80), (9, 10)]);
    assert_eq!(t.schedule_count, 3);
}

#[test]
fn trace_report_cadence() {
    let mut t = LogRtosTracer::new();
    let mut reports = 0;
    for _ in 0..TRACE_REPORT_EVERY {
        t.task_exec_begin(1, 0);
        if t.task_exec_end(1) {
            reports += 1;
        }
    }
    assert_eq!(reports, 1, "one breakdown per report interval");
}
