use vstd::prelude::*;

use crate::sample::SensorData;

verus! {

/// Settle time before the device is stopped, in milliseconds.
pub const PRE_STOP_MS: u64 = 50;

/// Settle time after the device is stopped, in milliseconds.
pub const POST_STOP_MS: u64 = 100;

/// Period of the data-ready poll, in milliseconds.
pub const SAMPLE_PERIOD_MS: u64 = 1000;

/// Where the sample publisher stands: first the start-up sequence
/// (settle, stop, settle, identify, start), then the polling loop.
#[derive(Clone, Copy, Debug, PartialEq, Eq, Structural)]
pub enum SenseState {
    PreStop,
    Stopping,
    PostStop,
    Identifying,
    Starting,
    Checking,
    Reading,
    Publishing,
    Pausing,
}

/// What the device, the clock or the slot reports back after an action.
#[derive(Clone, Copy, Debug, PartialEq, Eq, Structural)]
pub enum SenseEvent {
    /// The action completed; its outcome does not change what follows.
    Done,
    /// The device's data-ready flag.
    DataReady { ready: bool },
    /// A measurement, in the sample's fixed-width units, and the clock's
    /// reading in milliseconds since boot.
    Measured { co2: u16, humidity: u16, temperature: u16, time: u64 },
    /// The device or the bus reported an error.
    Failed,
}

/// What the sample publisher asks for next.
#[derive(Clone, Copy, Debug, PartialEq, Eq, Structural)]
pub enum SenseAction {
    Sleep { ms: u64 },
    StopMeasurement,
    ReadSerial,
    StartMeasurement,
    CheckDataReady,
    ReadMeasurement,
    /// Publish the sample to the slot, overwriting what is there.
    Publish { data: SensorData },
}

/// The action that resumes a state when an event it does not expect
/// arrives.
pub open spec fn sense_resume(s: SenseState) -> SenseAction {
    match s {
        SenseState::PreStop => SenseAction::Sleep { ms: PRE_STOP_MS },
        SenseState::Stopping => SenseAction::StopMeasurement,
        SenseState::PostStop => SenseAction::Sleep { ms: POST_STOP_MS },
        SenseState::Identifying => SenseAction::ReadSerial,
        SenseState::Starting => SenseAction::StartMeasurement,
        SenseState::Checking => SenseAction::CheckDataReady,
        SenseState::Reading => SenseAction::ReadMeasurement,
        SenseState::Publishing => SenseAction::Sleep { ms: SAMPLE_PERIOD_MS },
        SenseState::Pausing => SenseAction::Sleep { ms: SAMPLE_PERIOD_MS },
    }
}

/// The transition table of the sample publisher. Errors of the start-up
/// sequence are passed over; in the loop, an error or a device that is
/// not ready costs one period, and the loop never ends.
pub open spec fn sense_next(s: SenseState, e: SenseEvent) -> (SenseState, SenseAction) {
    match (s, e) {
        (SenseState::PreStop, SenseEvent::Done) => (SenseState::Stopping, SenseAction::StopMeasurement),
        (SenseState::Stopping, SenseEvent::Done) | (SenseState::Stopping, SenseEvent::Failed) =>
            (SenseState::PostStop, SenseAction::Sleep { ms: POST_STOP_MS }),
        (SenseState::PostStop, SenseEvent::Done) => (SenseState::Identifying, SenseAction::ReadSerial),
        (SenseState::Identifying, SenseEvent::Done) | (SenseState::Identifying, SenseEvent::Failed) =>
            (SenseState::Starting, SenseAction::StartMeasurement),
        (SenseState::Starting, SenseEvent::Done) | (SenseState::Starting, SenseEvent::Failed) =>
            (SenseState::Checking, SenseAction::CheckDataReady),
        (SenseState::Checking, SenseEvent::DataReady { ready }) => if ready {
            (SenseState::Reading, SenseAction::ReadMeasurement)
        } else {
            (SenseState::Pausing, SenseAction::Sleep { ms: SAMPLE_PERIOD_MS })
        },
        (SenseState::Checking, SenseEvent::Failed) => (SenseState::Pausing, SenseAction::Sleep { ms: SAMPLE_PERIOD_MS }),
        (SenseState::Reading, SenseEvent::Measured { co2, humidity, temperature, time }) => (
            SenseState::Publishing,
            SenseAction::Publish { data: SensorData { co2, humidity, temperature, time } },
        ),
        (SenseState::Reading, SenseEvent::Failed) => (SenseState::Pausing, SenseAction::Sleep { ms: SAMPLE_PERIOD_MS }),
        (SenseState::Publishing, SenseEvent::Done) => (SenseState::Pausing, SenseAction::Sleep { ms: SAMPLE_PERIOD_MS }),
        (SenseState::Pausing, SenseEvent::Done) => (SenseState::Checking, SenseAction::CheckDataReady),
        _ => (s, sense_resume(s)),
    }
}

/// The first state and action of the sample publisher: let the device
/// settle before stopping it.
pub fn sense_start() -> (r: (SenseState, SenseAction))
    ensures
        r == (SenseState::PreStop, SenseAction::Sleep { ms: PRE_STOP_MS }),
{
    (SenseState::PreStop, SenseAction::Sleep { ms: PRE_STOP_MS })
}

fn sense_resume_action(s: SenseState) -> (r: SenseAction)
    ensures
        r == sense_resume(s),
{
    match s {
        SenseState::PreStop => SenseAction::Sleep { ms: PRE_STOP_MS },
        SenseState::Stopping => SenseAction::StopMeasurement,
        SenseState::PostStop => SenseAction::Sleep { ms: POST_STOP_MS },
        SenseState::Identifying => SenseAction::ReadSerial,
        SenseState::Starting => SenseAction::StartMeasurement,
        SenseState::Checking => SenseAction::CheckDataReady,
        SenseState::Reading => SenseAction::ReadMeasurement,
        SenseState::Publishing => SenseAction::Sleep { ms: SAMPLE_PERIOD_MS },
        SenseState::Pausing => SenseAction::Sleep { ms: SAMPLE_PERIOD_MS },
    }
}

/// One step of the sample publisher: from its state and the event that
/// the last action produced, the next state and action.
pub fn sense_step(s: SenseState, e: SenseEvent) -> (r: (SenseState, SenseAction))
    ensures
        r == sense_next(s, e),
{
    match (s, e) {
        (SenseState::PreStop, SenseEvent::Done) => (SenseState::Stopping, SenseAction::StopMeasurement),
        (SenseState::Stopping, SenseEvent::Done) | (SenseState::Stopping, SenseEvent::Failed) => {
            (SenseState::PostStop, SenseAction::Sleep { ms: POST_STOP_MS })
        },
        (SenseState::PostStop, SenseEvent::Done) => (SenseState::Identifying, SenseAction::ReadSerial),
        (SenseState::Identifying, SenseEvent::Done) | (SenseState::Identifying, SenseEvent::Failed) => {
            (SenseState::Starting, SenseAction::StartMeasurement)
        },
        (SenseState::Starting, SenseEvent::Done) | (SenseState::Starting, SenseEvent::Failed) => {
            (SenseState::Checking, SenseAction::CheckDataReady)
        },
        (SenseState::Checking, SenseEvent::DataReady { ready }) => {
            if ready {
                (SenseState::Reading, SenseAction::ReadMeasurement)
            } else {
                (SenseState::Pausing, SenseAction::Sleep { ms: SAMPLE_PERIOD_MS })
            }
        },
        (SenseState::Checking, SenseEvent::Failed) => (SenseState::Pausing, SenseAction::Sleep { ms: SAMPLE_PERIOD_MS }),
        (SenseState::Reading, SenseEvent::Measured { co2, humidity, temperature, time }) => {
            (SenseState::Publishing, SenseAction::Publish { data: SensorData::new(co2, humidity, temperature, time) })
        },
        (SenseState::Reading, SenseEvent::Failed) => (SenseState::Pausing, SenseAction::Sleep { ms: SAMPLE_PERIOD_MS }),
        (SenseState::Publishing, SenseEvent::Done) => (SenseState::Pausing, SenseAction::Sleep { ms: SAMPLE_PERIOD_MS }),
        (SenseState::Pausing, SenseEvent::Done) => (SenseState::Checking, SenseAction::CheckDataReady),
        _ => (s, sense_resume_action(s)),
    }
}

} // verus!
