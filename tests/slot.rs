use airnode::sample::SensorData;
use airnode::slot::Slot;

fn sample(co2: u16, time: u64) -> SensorData {
    SensorData::new(co2, 50, 21, time)
}

#[test]
fn subscriber_between_publishes_sees_each_value() {
    let mut slot = Slot::new(1);
    let sub = slot.subscribe().unwrap();
    assert_eq!(slot.try_receive(sub), None);
    for i in 1..=6u64 {
        let s = sample(400 + i as u16, i * 1000);
        slot.publish(s);
        assert_eq!(slot.try_receive(sub), Some(s));
        assert_eq!(slot.try_receive(sub), None);
    }
}

#[test]
fn delayed_subscriber_sees_only_last_of_five() {
    let mut slot = Slot::new(1);
    let sub = slot.subscribe().unwrap();
    for i in 1..=5u64 {
        slot.publish(sample(400 + i as u16, i));
    }
    assert!(slot.has_pending(sub));
    assert_eq!(slot.try_receive(sub), Some(sample(405, 5)));
    assert!(!slot.has_pending(sub));
    assert_eq!(slot.try_receive(sub), None);
}

#[test]
fn identical_values_are_not_coalesced() {
    let mut slot = Slot::new(1);
    let sub = slot.subscribe().unwrap();
    let a = SensorData::new(412, 55, 23, 1000);
    let b = SensorData::new(412, 55, 23, 2000);
    slot.publish(a);
    assert_eq!(slot.try_receive(sub), Some(a));
    slot.publish(b);
    assert_eq!(slot.try_receive(sub), Some(b));
    assert_eq!(slot.try_receive(sub), None);
}

#[test]
fn subscribers_are_capped_and_independent() {
    let mut slot = Slot::new(2);
    let first = slot.subscribe().unwrap();
    slot.publish(sample(500, 1));
    let second = slot.subscribe().unwrap();
    assert_eq!(slot.subscribe(), None);
    assert_eq!(slot.subscriber_count(), 2);
    assert_eq!(slot.try_receive(first), Some(sample(500, 1)));
    // a late subscriber still gets the value current when it asks
    assert_eq!(slot.try_receive(second), Some(sample(500, 1)));
    assert_eq!(slot.try_receive(first), None);
    assert_eq!(slot.latest(), Some(sample(500, 1)));
}

#[test]
fn slot_without_subscribers_rejects_subscription() {
    let mut slot = Slot::new(0);
    assert_eq!(slot.subscribe(), None);
    assert_eq!(slot.latest(), None);
}
