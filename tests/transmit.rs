use airnode::sample::SensorData;
use airnode::transmit::{dispatch_payload, tx_start, tx_step, TxAction, TxEvent, TxState};

const BCAST: u32 = 0xC0A8_01FF;

#[test]
fn payload_of_buffer_size_is_sent() {
    let payload = vec![b'x'; 1024];
    let (s, a) = dispatch_payload(BCAST, payload.clone());
    assert_eq!(s, TxState::Pacing { broadcast: BCAST });
    match a {
        TxAction::Send { to, port, payload: p } => {
            assert_eq!(to, BCAST);
            assert_eq!(port, 8080);
            assert_eq!(p, payload);
        }
        _ => panic!("expected a send"),
    }
}

#[test]
fn oversized_payload_is_dropped_and_loop_continues() {
    let (s, a) = dispatch_payload(BCAST, vec![b'x'; 1025]);
    assert_eq!(s, TxState::Dropping { broadcast: BCAST });
    assert!(matches!(a, TxAction::Sleep { ms: 1000 }));
    let (s, a) = tx_step(s, TxEvent::Slept);
    assert_eq!(s, TxState::Pacing { broadcast: BCAST });
    assert!(matches!(a, TxAction::Sleep { ms: 5000 }));
    let (s, a) = tx_step(s, TxEvent::Slept);
    assert_eq!(s, TxState::Idle { broadcast: BCAST });
    assert!(matches!(a, TxAction::AwaitSample));
}

#[test]
fn no_send_before_link_and_address() {
    let (s, a) = tx_start();
    assert_eq!(s, TxState::WaitLinkUp);
    assert!(matches!(a, TxAction::CheckLink { after_ms: 0 }));
    let sample = SensorData::new(412, 55, 23, 1000);
    // samples and stray events before readiness never lead to a send
    let (s, a) = tx_step(s, TxEvent::Sample { data: sample });
    assert_eq!(s, TxState::WaitLinkUp);
    assert!(matches!(a, TxAction::CheckLink { after_ms: 500 }));
    let (s, a) = tx_step(s, TxEvent::LinkStatus { up: false });
    assert!(matches!(a, TxAction::CheckLink { after_ms: 500 }));
    let (s, a) = tx_step(s, TxEvent::LinkStatus { up: true });
    assert_eq!(s, TxState::WaitAddress);
    assert!(matches!(a, TxAction::CheckAddress { after_ms: 0 }));
    let (s, a) = tx_step(s, TxEvent::AddressStatus { assigned: false, broadcast: None });
    assert!(matches!(a, TxAction::CheckAddress { after_ms: 500 }));
    let (s, a) = tx_step(s, TxEvent::Sample { data: sample });
    assert_eq!(s, TxState::WaitAddress);
    assert!(matches!(a, TxAction::CheckAddress { after_ms: 500 }));
    let (s, a) = tx_step(s, TxEvent::AddressStatus { assigned: true, broadcast: Some(BCAST) });
    assert_eq!(s, TxState::Binding { broadcast: BCAST });
    assert!(matches!(a, TxAction::Bind { port: 50000, after_ms: 0 }));
    let (s, a) = tx_step(s, TxEvent::Bound { ok: true });
    assert_eq!(s, TxState::Idle { broadcast: BCAST });
    assert!(matches!(a, TxAction::AwaitSample));
    let (s, a) = tx_step(s, TxEvent::Sample { data: sample });
    assert_eq!(s, TxState::Pacing { broadcast: BCAST });
    match a {
        TxAction::Send { to, port, payload } => {
            assert_eq!(to, BCAST);
            assert_eq!(port, 8080);
            assert_eq!(
                String::from_utf8(payload).unwrap(),
                "{\"co2\":412,\"humidity\":55,\"temperature\":23,\"time\":1000}"
            );
        }
        _ => panic!("expected a send"),
    }
}

#[test]
fn each_sample_gives_one_send_then_pacing() {
    let mut s = TxState::Idle { broadcast: BCAST };
    let mut sends = 0;
    for t in [1000u64, 2000] {
        let (n, a) = tx_step(s, TxEvent::Sample { data: SensorData::new(412, 55, 23, t) });
        if matches!(a, TxAction::Send { .. }) {
            sends += 1;
        }
        let (n, a) = tx_step(n, TxEvent::Sent { ok: false });
        assert!(matches!(a, TxAction::Sleep { ms: 5000 }));
        let (n, a) = tx_step(n, TxEvent::Slept);
        assert!(matches!(a, TxAction::AwaitSample));
        s = n;
    }
    assert_eq!(sends, 2);
}

#[test]
fn failed_bind_is_retried() {
    let (s, a) = tx_step(TxState::Binding { broadcast: BCAST }, TxEvent::Bound { ok: false });
    assert_eq!(s, TxState::Binding { broadcast: BCAST });
    assert!(matches!(a, TxAction::Bind { port: 50000, after_ms: 500 }));
}

#[test]
fn address_without_broadcast_keeps_waiting() {
    let (s, a) = tx_step(TxState::WaitAddress, TxEvent::AddressStatus { assigned: true, broadcast: None });
    assert_eq!(s, TxState::WaitAddress);
    assert!(matches!(a, TxAction::CheckAddress { after_ms: 500 }));
}
