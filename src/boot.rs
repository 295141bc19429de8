use vstd::prelude::*;

verus! {

/// A peripheral that could not be brought up at boot.
#[derive(Clone, Copy, Debug, PartialEq, Eq, Structural)]
pub enum BootFailure {
    /// The sensor's I2C bus.
    SensorBus,
    /// The radio driver.
    RadioDriver,
    /// The radio's station controller.
    RadioController,
    /// The display's SPI bus.
    DisplayBus,
}

/// Whether the device runs its tasks or has stopped for good.
#[derive(Clone, Copy, Debug, PartialEq, Eq, Structural)]
pub enum DeviceStatus {
    Running,
    Halted { cause: BootFailure },
}

/// The response to an unrecoverable error: there is no degraded mode,
/// the device halts and stays halted.
pub fn panic(cause: BootFailure) -> (r: DeviceStatus)
    ensures
        r == (DeviceStatus::Halted { cause }),
{
    DeviceStatus::Halted { cause }
}

/// Whether a device in status `s` may run its tasks.
pub fn is_running(s: DeviceStatus) -> (r: bool)
    ensures
        r == (s == DeviceStatus::Running),
{
    match s {
        DeviceStatus::Running => true,
        DeviceStatus::Halted { .. } => false,
    }
}

} // verus!
