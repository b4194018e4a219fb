//! The AS5600 magnet angle sensor, as the library refers to it.
//!
//! The sensor is a thin collaborator: register traffic over the I2C bus —
//! `magnet_status`, `raw_angle`, `angle`, `set_zero_position` — stays with
//! the surrounding code, which hands the read values to the closed-loop
//! monitor as plain integers.  The driver handle itself only pairs a bus
//! with a device address.

use vstd::prelude::*;

verus! {

/// The sensor's fixed I2C device address.
pub const DEFAULT_I2C_ADDRESS: u8 = 0x36;

/// A driver handle: an owned bus and the device address spoken on it.
pub struct As5600<I2C> {
    pub address: u8,
    pub bus: I2C,
}

impl<I2C> As5600<I2C> {
    /// A driver at the sensor's default address.
    pub fn new(bus: I2C) -> (r: Self)
        ensures
            r.address == DEFAULT_I2C_ADDRESS,
            r.bus == bus,
    {
        Self::with_address(DEFAULT_I2C_ADDRESS, bus)
    }

    /// A driver at a chosen address.
    pub fn with_address(address: u8, bus: I2C) -> (r: Self)
        ensures
            r.address == address,
            r.bus == bus,
    {
        As5600 { address, bus }
    }

    /// Release the bus, consuming the driver.
    pub fn release(self) -> (r: I2C)
        ensures
            r == self.bus,
    {
        self.bus
    }
}

} // verus!
