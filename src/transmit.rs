use vstd::prelude::*;

use crate::codec::{encode_sample, lemma_sample_text_len, sample_text};
use crate::sample::SensorData;

verus! {

/// Capacity of the transmit buffer, in bytes: larger payloads are dropped.
pub const TX_BUFFER_SIZE: usize = 1024;

/// Local port the datagram socket is bound to.
pub const LOCAL_PORT: u16 = 50000;

/// Destination port of every broadcast.
pub const BROADCAST_PORT: u16 = 8080;

/// Interval between two link or address checks, in milliseconds.
pub const POLL_MS: u64 = 500;

/// Pause after an oversized payload was dropped, in milliseconds.
pub const DROP_PAUSE_MS: u64 = 1000;

/// Pause that ends every send iteration, in milliseconds.
pub const PACE_MS: u64 = 5000;

/// Where the transmitter stands. The states after the address is known
/// carry the subnet broadcast address, as a 32-bit IPv4 address.
#[derive(Clone, Copy, Debug, PartialEq, Eq, Structural)]
pub enum TxState {
    WaitLinkUp,
    WaitAddress,
    Binding { broadcast: u32 },
    Idle { broadcast: u32 },
    Dropping { broadcast: u32 },
    Pacing { broadcast: u32 },
}

/// What the environment reports back after performing an action.
#[derive(Clone, Copy, Debug, PartialEq, Eq, Structural)]
pub enum TxEvent {
    /// Whether the network link is up.
    LinkStatus { up: bool },
    /// Whether an address was assigned, and the subnet broadcast address
    /// when the assigned subnet has one.
    AddressStatus { assigned: bool, broadcast: Option<u32> },
    /// Whether binding the socket succeeded.
    Bound { ok: bool },
    /// A new sample arrived from the slot.
    Sample { data: SensorData },
    /// Whether the datagram was handed to the network.
    Sent { ok: bool },
    /// A pause ended.
    Slept,
}

/// What the transmitter asks the environment to do next. `P` is the
/// payload type: bytes in a `Vec` at run time, a `Seq` in contracts.
#[derive(Debug)]
pub enum TxAction<P> {
    /// Wait `after_ms`, then report the link status.
    CheckLink { after_ms: u64 },
    /// Wait `after_ms`, then report the address configuration.
    CheckAddress { after_ms: u64 },
    /// Wait `after_ms`, then bind the socket to `port`.
    Bind { port: u16, after_ms: u64 },
    /// Wait for the next sample in the slot.
    AwaitSample,
    /// Send `payload` as one datagram to `to`:`port`.
    Send { to: u32, port: u16, payload: P },
    /// Pause for `ms`.
    Sleep { ms: u64 },
}

impl TxAction<Vec<u8>> {
    pub open spec fn view(&self) -> TxAction<Seq<u8>> {
        match *self {
            TxAction::CheckLink { after_ms } => TxAction::CheckLink { after_ms },
            TxAction::CheckAddress { after_ms } => TxAction::CheckAddress { after_ms },
            TxAction::Bind { port, after_ms } => TxAction::Bind { port, after_ms },
            TxAction::AwaitSample => TxAction::AwaitSample,
            TxAction::Send { to, port, payload } => TxAction::Send { to, port, payload: payload@ },
            TxAction::Sleep { ms } => TxAction::Sleep { ms },
        }
    }
}

/// The action that resumes a state: what it waits for when an event it
/// does not expect arrives.
pub open spec fn resume(s: TxState) -> TxAction<Seq<u8>> {
    match s {
        TxState::WaitLinkUp => TxAction::CheckLink { after_ms: POLL_MS },
        TxState::WaitAddress => TxAction::CheckAddress { after_ms: POLL_MS },
        TxState::Binding { .. } => TxAction::Bind { port: LOCAL_PORT, after_ms: POLL_MS },
        TxState::Idle { .. } => TxAction::AwaitSample,
        TxState::Dropping { .. } => TxAction::Sleep { ms: DROP_PAUSE_MS },
        TxState::Pacing { .. } => TxAction::Sleep { ms: PACE_MS },
    }
}

/// What becomes of an encoded payload: it is sent to the broadcast
/// address when it fits the transmit buffer, else dropped with a pause.
pub open spec fn dispatch(broadcast: u32, payload: Seq<u8>) -> (TxState, TxAction<Seq<u8>>) {
    if payload.len() <= TX_BUFFER_SIZE {
        (TxState::Pacing { broadcast }, TxAction::Send { to: broadcast, port: BROADCAST_PORT, payload })
    } else {
        (TxState::Dropping { broadcast }, TxAction::Sleep { ms: DROP_PAUSE_MS })
    }
}

/// The transition table. A sample that arrives while idle is encoded
/// and dispatched.
pub open spec fn tx_next(s: TxState, e: TxEvent) -> (TxState, TxAction<Seq<u8>>) {
    match (s, e) {
        (TxState::WaitLinkUp, TxEvent::LinkStatus { up }) => if up {
            (TxState::WaitAddress, TxAction::CheckAddress { after_ms: 0 })
        } else {
            (TxState::WaitLinkUp, TxAction::CheckLink { after_ms: POLL_MS })
        },
        (TxState::WaitAddress, TxEvent::AddressStatus { assigned, broadcast }) => if assigned && broadcast is Some {
            (TxState::Binding { broadcast: broadcast->Some_0 }, TxAction::Bind { port: LOCAL_PORT, after_ms: 0 })
        } else {
            (TxState::WaitAddress, TxAction::CheckAddress { after_ms: POLL_MS })
        },
        (TxState::Binding { broadcast }, TxEvent::Bound { ok }) => if ok {
            (TxState::Idle { broadcast }, TxAction::AwaitSample)
        } else {
            (TxState::Binding { broadcast }, TxAction::Bind { port: LOCAL_PORT, after_ms: POLL_MS })
        },
        (TxState::Idle { broadcast }, TxEvent::Sample { data }) => dispatch(broadcast, sample_text(data)),
        (TxState::Dropping { broadcast }, TxEvent::Slept) => (TxState::Pacing { broadcast }, TxAction::Sleep { ms: PACE_MS }),
        (TxState::Pacing { broadcast }, TxEvent::Sent { .. }) => (TxState::Pacing { broadcast }, TxAction::Sleep { ms: PACE_MS }),
        (TxState::Pacing { broadcast }, TxEvent::Slept) => (TxState::Idle { broadcast }, TxAction::AwaitSample),
        _ => (s, resume(s)),
    }
}

/// The first state and action of the transmitter: check the link now.
pub fn tx_start() -> (r: (TxState, TxAction<Vec<u8>>))
    ensures
        r.0 == TxState::WaitLinkUp,
        r.1@ == (TxAction::<Seq<u8>>::CheckLink { after_ms: 0 }),
{
    (TxState::WaitLinkUp, TxAction::CheckLink { after_ms: 0 })
}

/// Decides what becomes of an encoded payload (see [`dispatch`]).
pub fn dispatch_payload(broadcast: u32, payload: Vec<u8>) -> (r: (TxState, TxAction<Vec<u8>>))
    ensures
        (r.0, r.1@) == dispatch(broadcast, payload@),
{
    if payload.len() <= TX_BUFFER_SIZE {
        (TxState::Pacing { broadcast }, TxAction::Send { to: broadcast, port: BROADCAST_PORT, payload })
    } else {
        (TxState::Dropping { broadcast }, TxAction::Sleep { ms: DROP_PAUSE_MS })
    }
}

fn resume_action(s: TxState) -> (r: TxAction<Vec<u8>>)
    ensures
        r@ == resume(s),
{
    match s {
        TxState::WaitLinkUp => TxAction::CheckLink { after_ms: POLL_MS },
        TxState::WaitAddress => TxAction::CheckAddress { after_ms: POLL_MS },
        TxState::Binding { .. } => TxAction::Bind { port: LOCAL_PORT, after_ms: POLL_MS },
        TxState::Idle { .. } => TxAction::AwaitSample,
        TxState::Dropping { .. } => TxAction::Sleep { ms: DROP_PAUSE_MS },
        TxState::Pacing { .. } => TxAction::Sleep { ms: PACE_MS },
    }
}

/// One step of the transmitter: from its state and the event that the
/// last action produced, the next state and action.
pub fn tx_step(s: TxState, e: TxEvent) -> (r: (TxState, TxAction<Vec<u8>>))
    ensures
        (r.0, r.1@) == tx_next(s, e),
{
    match (s, e) {
        (TxState::WaitLinkUp, TxEvent::LinkStatus { up }) => {
            if up {
                (TxState::WaitAddress, TxAction::CheckAddress { after_ms: 0 })
            } else {
                (TxState::WaitLinkUp, TxAction::CheckLink { after_ms: POLL_MS })
            }
        },
        (TxState::WaitAddress, TxEvent::AddressStatus { assigned, broadcast }) => {
            match broadcast {
                Some(b) if assigned => (TxState::Binding { broadcast: b }, TxAction::Bind { port: LOCAL_PORT, after_ms: 0 }),
                _ => (TxState::WaitAddress, TxAction::CheckAddress { after_ms: POLL_MS }),
            }
        },
        (TxState::Binding { broadcast }, TxEvent::Bound { ok }) => {
            if ok {
                (TxState::Idle { broadcast }, TxAction::AwaitSample)
            } else {
                (TxState::Binding { broadcast }, TxAction::Bind { port: LOCAL_PORT, after_ms: POLL_MS })
            }
        },
        (TxState::Idle { broadcast }, TxEvent::Sample { data }) => dispatch_payload(broadcast, encode_sample(&data)),
        (TxState::Dropping { broadcast }, TxEvent::Slept) => (TxState::Pacing { broadcast }, TxAction::Sleep { ms: PACE_MS }),
        (TxState::Pacing { broadcast }, TxEvent::Sent { .. }) => (TxState::Pacing { broadcast }, TxAction::Sleep { ms: PACE_MS }),
        (TxState::Pacing { broadcast }, TxEvent::Slept) => (TxState::Idle { broadcast }, TxAction::AwaitSample),
        _ => (s, resume_action(s)),
    }
}

/// The state reached from `s` after each event of `evs`.
pub open spec fn tx_run(s: TxState, evs: Seq<TxEvent>) -> TxState
    decreases evs.len(),
{
    if evs.len() == 0 {
        s
    } else {
        tx_next(tx_run(s, evs.drop_last()), evs.last()).0
    }
}

/// The action taken on the `i`-th event of `evs`, starting from `s`.
pub open spec fn tx_action_at(s: TxState, evs: Seq<TxEvent>, i: int) -> TxAction<Seq<u8>> {
    tx_next(tx_run(s, evs.take(i)), evs[i]).1
}

/// The event that reports the link up.
pub open spec fn is_link_up(e: TxEvent) -> bool {
    e == (TxEvent::LinkStatus { up: true })
}

/// An event that reports an assigned address whose subnet broadcast
/// address is `b`.
pub open spec fn is_address_ready(e: TxEvent, b: u32) -> bool {
    e == (TxEvent::AddressStatus { assigned: true, broadcast: Some(b) })
}

/// The broadcast address that a state carries, if any.
pub open spec fn target_of(s: TxState) -> Option<u32> {
    match s {
        TxState::WaitLinkUp => None,
        TxState::WaitAddress => None,
        TxState::Binding { broadcast } => Some(broadcast),
        TxState::Idle { broadcast } => Some(broadcast),
        TxState::Dropping { broadcast } => Some(broadcast),
        TxState::Pacing { broadcast } => Some(broadcast),
    }
}

proof fn lemma_run_history(evs: Seq<TxEvent>, n: int)
    requires
        0 <= n <= evs.len(),
    ensures
        tx_run(TxState::WaitLinkUp, evs.take(n)) != TxState::WaitLinkUp ==>
            exists|j: int| 0 <= j < n && #[trigger] is_link_up(evs[j]),
        target_of(tx_run(TxState::WaitLinkUp, evs.take(n))) is Some ==>
            exists|j: int, k: int| 0 <= j < k < n && #[trigger] is_link_up(evs[j])
                && #[trigger] is_address_ready(evs[k], target_of(tx_run(TxState::WaitLinkUp, evs.take(n)))->Some_0),
    decreases n,
{
    if n == 0 {
        assert(evs.take(0).len() == 0);
    } else {
        lemma_run_history(evs, n - 1);
        assert(evs.take(n).drop_last() =~= evs.take(n - 1));
        assert(evs.take(n).last() == evs[n - 1]);
        let prev = tx_run(TxState::WaitLinkUp, evs.take(n - 1));
        let cur = tx_run(TxState::WaitLinkUp, evs.take(n));
        assert(cur == tx_next(prev, evs[n - 1]).0);
        if prev == TxState::WaitLinkUp && cur != TxState::WaitLinkUp {
            assert(is_link_up(evs[n - 1]));
        }
        if prev != TxState::WaitLinkUp {
            let j = choose|j: int| 0 <= j < n - 1 && #[trigger] is_link_up(evs[j]);
            assert(0 <= j < n && is_link_up(evs[j]));
            if prev == TxState::WaitAddress && target_of(cur) is Some {
                let b = target_of(cur)->Some_0;
                assert(is_address_ready(evs[n - 1], b));
                assert(0 <= j < n - 1 < n && is_link_up(evs[j]) && is_address_ready(evs[n - 1], b));
            }
        }
        if target_of(prev) is Some {
            let b = target_of(prev)->Some_0;
            assert(target_of(cur) == Some(b));
            let (j, k) = choose|j: int, k: int|
                0 <= j < k < n - 1 && #[trigger] is_link_up(evs[j]) && #[trigger] is_address_ready(evs[k], b);
            assert(0 <= j < k < n && is_link_up(evs[j]) && is_address_ready(evs[k], b));
        }
    }
}

/// No datagram is sent before the link was reported up and, after that,
/// an address was reported assigned: whatever the events, a `Send` on
/// the `i`-th event has both before it, and it goes to the broadcast
/// address that the address report gave.
pub proof fn lemma_no_send_before_ready(evs: Seq<TxEvent>, i: int)
    requires
        0 <= i < evs.len(),
        tx_action_at(TxState::WaitLinkUp, evs, i) is Send,
    ensures
        exists|j: int, k: int| 0 <= j < k < i && #[trigger] is_link_up(evs[j])
            && #[trigger] is_address_ready(evs[k], tx_action_at(TxState::WaitLinkUp, evs, i)->Send_to),
{
    lemma_run_history(evs, i);
    let st = tx_run(TxState::WaitLinkUp, evs.take(i));
    let to = tx_action_at(TxState::WaitLinkUp, evs, i)->Send_to;
    assert(target_of(st) == Some(to));
    let (j, k) = choose|j: int, k: int| 0 <= j < k < i && #[trigger] is_link_up(evs[j]) && #[trigger] is_address_ready(evs[k], to);
    assert(0 <= j < k < i && is_link_up(evs[j]) && is_address_ready(evs[k], to));
}

/// Every sample that reaches an idle transmitter gives exactly one
/// datagram, its wire text to the broadcast port, whatever its values
/// (equal samples are not merged); the iteration then ends in the pacing
/// pause, whatever the send's outcome, and the transmitter is idle
/// again without a second send.
pub proof fn lemma_one_send_per_sample(broadcast: u32, s: SensorData, ok: bool)
    ensures
        tx_next(TxState::Idle { broadcast }, TxEvent::Sample { data: s }) == (
            TxState::Pacing { broadcast },
            TxAction::Send { to: broadcast, port: BROADCAST_PORT, payload: sample_text(s) },
        ),
        tx_next(TxState::Pacing { broadcast }, TxEvent::Sent { ok }) == (
            TxState::Pacing { broadcast },
            TxAction::<Seq<u8>>::Sleep { ms: PACE_MS },
        ),
        tx_next(TxState::Pacing { broadcast }, TxEvent::Slept) == (
            TxState::Idle { broadcast },
            TxAction::<Seq<u8>>::AwaitSample,
        ),
{
    lemma_sample_text_len(s);
}

} // verus!
