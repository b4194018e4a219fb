//! The closed-loop monitor's correction arithmetic.

use steppulse::cl_monitor::ClMonitor;
use steppulse::step_info::StepInfo;

#[test]
fn uncalibrated_monitor_skips_checks() {
    let m = ClMonitor::new();
    assert_eq!(m.check_position(230, 200, 3000, true), None);
}

#[test]
fn zero_angle_reading_skips() {
    let mut m = ClMonitor::new();
    m.calibrate(100, 0);
    assert_eq!(m.check_position(0, 200, 3000, true), None);
}

#[test]
fn lagging_shaft_gets_forward_correction() {
    // Calibrated at home; 200 steps commanded forward; the sensor reads
    // an angle well short of 200 steps: a forward corrective segment
    // covering the whole discrepancy.
    let mut m = ClMonitor::new();
    let zero = m.calibrate(100, 0);
    assert_eq!(zero, 100);
    // 230 sensor ticks = 5750 units; 200 steps = 6400 units; the shaft
    // lags by 650 units = 20 whole steps.
    let correction = m.check_position(230, 200, 3000, true);
    assert_eq!(correction, Some(StepInfo::new(3000, 20, 0, true)));
}

#[test]
fn leading_shaft_gets_reverse_correction() {
    let mut m = ClMonitor::new();
    m.calibrate(100, 0);
    // 330 sensor ticks = 8250 units; 200 steps = 6400 units; the shaft
    // leads by 1850 units = 57 whole steps: correct against the move.
    let correction = m.check_position(330, 200, 3000, true);
    assert_eq!(correction, Some(StepInfo::new(3000, 57, 0, false)));
}

#[test]
fn small_error_stays_in_dead_band() {
    // Anything within eight steps of the commanded position is left
    // alone: 250 sensor ticks = 6250 units, 200 steps = 6400 units, a
    // lag of four steps.
    let mut m = ClMonitor::new();
    m.calibrate(100, 0);
    assert_eq!(m.check_position(250, 200, 3000, true), None);
}

#[test]
fn wrap_boundary_is_skipped() {
    // The commanded angle sits just below a full turn while the sensor
    // reads just above zero: the quadrant-four-to-one comparison is
    // ill-defined and skipped.
    let mut m = ClMonitor::new();
    m.calibrate(100, 0);
    assert_eq!(m.check_position(10, 3190, 3000, true), None);
    // And the mirrored case.
    assert_eq!(m.check_position(4000, 10, 3000, true), None);
}

#[test]
fn calibrate_reduces_position_to_one_revolution() {
    let mut m = ClMonitor::new();
    m.calibrate(55, 6405);
    assert_eq!(m.step_calibrate, 5);
    assert_eq!(m.angle_calibrate, 55);
    // The magnitude of a reverse position counts the same way.
    m.calibrate(55, -6405);
    assert_eq!(m.step_calibrate, 5);
}

#[test]
fn calibrate_is_idempotent() {
    let mut m = ClMonitor::new();
    m.calibrate(70, 400);
    let first = (m.angle_calibrate, m.step_calibrate);
    m.calibrate(70, 400);
    assert_eq!((m.angle_calibrate, m.step_calibrate), first);
}

#[test]
fn correction_counter_wraps_with_revolution() {
    // A commanded position far beyond one revolution compares by its
    // remainder: 3200 + 200 steps commanded reads like 200.
    let mut m = ClMonitor::new();
    m.calibrate(100, 0);
    assert_eq!(
        m.check_position(230, 3400, 3000, true),
        Some(StepInfo::new(3000, 20, 0, true))
    );
}
