use airnode::sample::SensorData;
use airnode::sense::{sense_start, sense_step, SenseAction, SenseEvent, SenseState};

#[test]
fn start_up_sequence_then_publish() {
    let (s, a) = sense_start();
    assert_eq!((s, a), (SenseState::PreStop, SenseAction::Sleep { ms: 50 }));
    let (s, a) = sense_step(s, SenseEvent::Done);
    assert_eq!(a, SenseAction::StopMeasurement);
    let (s, a) = sense_step(s, SenseEvent::Failed);
    assert_eq!(a, SenseAction::Sleep { ms: 100 });
    let (s, a) = sense_step(s, SenseEvent::Done);
    assert_eq!(a, SenseAction::ReadSerial);
    let (s, a) = sense_step(s, SenseEvent::Done);
    assert_eq!(a, SenseAction::StartMeasurement);
    let (s, a) = sense_step(s, SenseEvent::Failed);
    assert_eq!((s, a), (SenseState::Checking, SenseAction::CheckDataReady));
    let (s, a) = sense_step(s, SenseEvent::DataReady { ready: false });
    assert_eq!((s, a), (SenseState::Pausing, SenseAction::Sleep { ms: 1000 }));
    let (s, a) = sense_step(s, SenseEvent::Done);
    assert_eq!(a, SenseAction::CheckDataReady);
    let (s, a) = sense_step(s, SenseEvent::DataReady { ready: true });
    assert_eq!(a, SenseAction::ReadMeasurement);
    let (s, a) = sense_step(s, SenseEvent::Measured { co2: 412, humidity: 55, temperature: 23, time: 7000 });
    assert_eq!(a, SenseAction::Publish { data: SensorData::new(412, 55, 23, 7000) });
    let (s, a) = sense_step(s, SenseEvent::Done);
    assert_eq!((s, a), (SenseState::Pausing, SenseAction::Sleep { ms: 1000 }));
}

#[test]
fn read_error_costs_one_period() {
    let (s, a) = sense_step(SenseState::Reading, SenseEvent::Failed);
    assert_eq!((s, a), (SenseState::Pausing, SenseAction::Sleep { ms: 1000 }));
    let (s, a) = sense_step(SenseState::Checking, SenseEvent::Failed);
    assert_eq!((s, a), (SenseState::Pausing, SenseAction::Sleep { ms: 1000 }));
}
