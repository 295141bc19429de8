use vstd::prelude::*;

verus! {

/// One sensor reading: CO2 in ppm, fixed-point humidity and temperature,
/// and the time of the reading in milliseconds since boot.
#[derive(Clone, Copy, Debug, Default, PartialEq, Eq, Structural)]
pub struct SensorData {
    pub co2: u16,
    pub humidity: u16,
    pub temperature: u16,
    pub time: u64,
}

impl SensorData {
    /// Builds a reading from the device's values and the clock.
    pub fn new(co2: u16, humidity: u16, temperature: u16, time: u64) -> (r: SensorData)
        ensures
            r.co2 == co2,
            r.humidity == humidity,
            r.temperature == temperature,
            r.time == time,
    {
        SensorData { co2, humidity, temperature, time }
    }
}

} // verus!
