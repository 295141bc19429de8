use airnode::codec::encode_sample;
use airnode::sample::SensorData;
use airnode::slot::Slot;
use airnode::transmit::{tx_step, TxAction, TxEvent, TxState};

const BCAST: u32 = 0x0A00_00FF;

/// Runs one transmit iteration from Idle on whatever the slot holds for
/// `sub`; returns the payload sent, if the slot had something.
fn iteration(slot: &mut Slot, sub: usize) -> Option<Vec<u8>> {
    let data = slot.try_receive(sub)?;
    let (s, a) = tx_step(TxState::Idle { broadcast: BCAST }, TxEvent::Sample { data });
    let payload = match a {
        TxAction::Send { to, port, payload } => {
            assert_eq!((to, port), (BCAST, 8080));
            payload
        }
        _ => panic!("expected a send"),
    };
    let (s, a) = tx_step(s, TxEvent::Sent { ok: true });
    assert!(matches!(a, TxAction::Sleep { ms: 5000 }));
    let (s, a) = tx_step(s, TxEvent::Slept);
    assert_eq!(s, TxState::Idle { broadcast: BCAST });
    assert!(matches!(a, TxAction::AwaitSample));
    Some(payload)
}

#[test]
fn equal_samples_each_give_one_datagram_in_order() {
    let mut slot = Slot::new(1);
    let sub = slot.subscribe().unwrap();
    let earlier = SensorData::new(412, 55, 23, 1000);
    let later = SensorData::new(412, 55, 23, 2000);
    slot.publish(earlier);
    let first = iteration(&mut slot, sub).unwrap();
    slot.publish(later);
    let second = iteration(&mut slot, sub).unwrap();
    assert_eq!(first, encode_sample(&earlier));
    assert_eq!(second, encode_sample(&later));
    assert_eq!(iteration(&mut slot, sub), None);
}

#[test]
fn one_publish_gives_one_datagram_then_nothing() {
    let mut slot = Slot::new(1);
    let sub = slot.subscribe().unwrap();
    let p = SensorData::new(800, 40, 19, 5000);
    slot.publish(p);
    assert_eq!(iteration(&mut slot, sub), Some(encode_sample(&p)));
    assert_eq!(iteration(&mut slot, sub), None);
    assert_eq!(iteration(&mut slot, sub), None);
}

#[test]
fn publishes_during_pacing_are_skipped_but_the_last() {
    let mut slot = Slot::new(1);
    let sub = slot.subscribe().unwrap();
    let samples: Vec<SensorData> = (1..=5u64).map(|i| SensorData::new(400 + i as u16, 50, 20, i * 100)).collect();
    for s in &samples {
        slot.publish(*s);
    }
    let sent = iteration(&mut slot, sub).unwrap();
    assert_eq!(sent, encode_sample(&samples[4]));
    for s in &samples[..4] {
        assert_ne!(sent, encode_sample(s));
    }
    assert_eq!(iteration(&mut slot, sub), None);
}

#[test]
fn receiver_between_publishes_gets_whole_latest_value() {
    let mut slot = Slot::new(1);
    let sub = slot.subscribe().unwrap();
    for i in 1..=4u64 {
        let p = SensorData::new(i as u16, 10 + i as u16, 20 + i as u16, 1000 * i);
        slot.publish(p);
        let got = slot.try_receive(sub).unwrap();
        assert_eq!((got.co2, got.humidity, got.temperature, got.time), (p.co2, p.humidity, p.temperature, p.time));
        assert!(!slot.has_pending(sub));
    }
}
