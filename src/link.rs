use vstd::prelude::*;

verus! {

/// Cooldown after a lost link or a failed association, in milliseconds.
pub const COOLDOWN_MS: u64 = 5000;

/// The radio's connection state.
#[derive(Clone, Copy, Debug, PartialEq, Eq, Structural)]
pub enum LinkState {
    Disconnected,
    Associating,
    Connected,
}

/// What the radio reports back after performing an action.
#[derive(Clone, Copy, Debug, PartialEq, Eq, Structural)]
pub enum LinkEvent {
    /// Whether the radio is started.
    RadioStatus { started: bool },
    /// Whether applying the client profile and starting the radio succeeded.
    StartDone { ok: bool },
    /// Whether association with the access point succeeded.
    ConnectDone { ok: bool },
    /// The radio reported that the link was lost.
    LinkLost,
    /// The cooldown ended.
    CooldownDone,
}

/// What the link manager asks of the radio next.
#[derive(Clone, Copy, Debug, PartialEq, Eq, Structural)]
pub enum LinkAction {
    /// Report whether the radio is started.
    CheckRadio,
    /// Apply the client profile and start the radio.
    ConfigureAndStart,
    /// Associate with the access point.
    Connect,
    /// Wait until the link is lost.
    AwaitDisconnect,
    /// Wait `ms` before trying again.
    Cooldown { ms: u64 },
}

/// The action that resumes a state when an event it does not expect
/// arrives.
pub open spec fn link_resume(s: LinkState) -> LinkAction {
    match s {
        LinkState::Disconnected => LinkAction::CheckRadio,
        LinkState::Associating => LinkAction::Connect,
        LinkState::Connected => LinkAction::AwaitDisconnect,
    }
}

/// The transition table of the link manager. A failed start is not
/// fatal: association is attempted anyway, and the next pass checks the
/// radio again. Every failure and every lost link is followed by the
/// cooldown; retries never stop.
pub open spec fn link_next(s: LinkState, e: LinkEvent) -> (LinkState, LinkAction) {
    match (s, e) {
        (LinkState::Disconnected, LinkEvent::RadioStatus { started }) => if started {
            (LinkState::Associating, LinkAction::Connect)
        } else {
            (LinkState::Disconnected, LinkAction::ConfigureAndStart)
        },
        (LinkState::Disconnected, LinkEvent::StartDone { .. }) => (LinkState::Associating, LinkAction::Connect),
        (LinkState::Disconnected, LinkEvent::CooldownDone) => (LinkState::Disconnected, LinkAction::CheckRadio),
        (LinkState::Associating, LinkEvent::ConnectDone { ok }) => if ok {
            (LinkState::Connected, LinkAction::AwaitDisconnect)
        } else {
            (LinkState::Disconnected, LinkAction::Cooldown { ms: COOLDOWN_MS })
        },
        (LinkState::Connected, LinkEvent::LinkLost) => (LinkState::Disconnected, LinkAction::Cooldown { ms: COOLDOWN_MS }),
        _ => (s, link_resume(s)),
    }
}

/// The first state and action of the link manager: check the radio.
pub fn link_start() -> (r: (LinkState, LinkAction))
    ensures
        r == (LinkState::Disconnected, LinkAction::CheckRadio),
{
    (LinkState::Disconnected, LinkAction::CheckRadio)
}

/// One step of the link manager: from its state and the event that the
/// last action produced, the next state and action.
pub fn link_step(s: LinkState, e: LinkEvent) -> (r: (LinkState, LinkAction))
    ensures
        r == link_next(s, e),
{
    match (s, e) {
        (LinkState::Disconnected, LinkEvent::RadioStatus { started }) => {
            if started {
                (LinkState::Associating, LinkAction::Connect)
            } else {
                (LinkState::Disconnected, LinkAction::ConfigureAndStart)
            }
        },
        (LinkState::Disconnected, LinkEvent::StartDone { .. }) => (LinkState::Associating, LinkAction::Connect),
        (LinkState::Disconnected, LinkEvent::CooldownDone) => (LinkState::Disconnected, LinkAction::CheckRadio),
        (LinkState::Associating, LinkEvent::ConnectDone { ok }) => {
            if ok {
                (LinkState::Connected, LinkAction::AwaitDisconnect)
            } else {
                (LinkState::Disconnected, LinkAction::Cooldown { ms: COOLDOWN_MS })
            }
        },
        (LinkState::Connected, LinkEvent::LinkLost) => (LinkState::Disconnected, LinkAction::Cooldown { ms: COOLDOWN_MS }),
        (LinkState::Disconnected, _) => (s, LinkAction::CheckRadio),
        (LinkState::Associating, _) => (s, LinkAction::Connect),
        (LinkState::Connected, _) => (s, LinkAction::AwaitDisconnect),
    }
}

/// The state reached from `s` after the events `evs`.
pub open spec fn link_run(s: LinkState, evs: Seq<LinkEvent>) -> LinkState
    decreases evs.len(),
{
    if evs.len() == 0 {
        s
    } else {
        link_run(link_next(s, evs[0]).0, evs.drop_first())
    }
}

/// The state and action after each of the events `evs`, from `s`.
pub open spec fn link_outputs(s: LinkState, evs: Seq<LinkEvent>) -> Seq<(LinkState, LinkAction)>
    decreases evs.len(),
{
    if evs.len() == 0 {
        Seq::empty()
    } else {
        seq![link_next(s, evs[0])] + link_outputs(link_next(s, evs[0]).0, evs.drop_first())
    }
}

/// `n` copies of `a`, one after another.
pub open spec fn repeat<A>(a: Seq<A>, n: nat) -> Seq<A>
    decreases n,
{
    if n == 0 {
        Seq::empty()
    } else {
        repeat(a, (n - 1) as nat) + a
    }
}

/// The events of one link cycle: the radio is checked (and started when
/// it is not), association succeeds, the link is lost, the cooldown ends.
pub open spec fn link_cycle(started: bool) -> Seq<LinkEvent> {
    if started {
        seq![LinkEvent::RadioStatus { started: true }, LinkEvent::ConnectDone { ok: true }, LinkEvent::LinkLost, LinkEvent::CooldownDone]
    } else {
        seq![
            LinkEvent::RadioStatus { started: false },
            LinkEvent::StartDone { ok: true },
            LinkEvent::ConnectDone { ok: true },
            LinkEvent::LinkLost,
            LinkEvent::CooldownDone,
        ]
    }
}

/// What the link manager does over one cycle from `Disconnected`.
pub open spec fn link_cycle_outputs(started: bool) -> Seq<(LinkState, LinkAction)> {
    let tail = seq![
        (LinkState::Connected, LinkAction::AwaitDisconnect),
        (LinkState::Disconnected, LinkAction::Cooldown { ms: COOLDOWN_MS }),
        (LinkState::Disconnected, LinkAction::CheckRadio),
    ];
    if started {
        seq![(LinkState::Associating, LinkAction::Connect)] + tail
    } else {
        seq![(LinkState::Disconnected, LinkAction::ConfigureAndStart), (LinkState::Associating, LinkAction::Connect)] + tail
    }
}

proof fn lemma_link_append(s: LinkState, a: Seq<LinkEvent>, b: Seq<LinkEvent>)
    ensures
        link_run(s, a + b) == link_run(link_run(s, a), b),
        link_outputs(s, a + b) == link_outputs(s, a) + link_outputs(link_run(s, a), b),
    decreases a.len(),
{
    if a.len() == 0 {
        assert(a + b =~= b);
    } else {
        assert((a + b).drop_first() =~= a.drop_first() + b);
        lemma_link_append(link_next(s, a[0]).0, a.drop_first(), b);
        assert(link_outputs(s, a + b) =~= link_outputs(s, a) + link_outputs(link_run(s, a), b));
    }
}

proof fn lemma_one_cycle(started: bool)
    ensures
        link_run(LinkState::Disconnected, link_cycle(started)) == LinkState::Disconnected,
        link_outputs(LinkState::Disconnected, link_cycle(started)) == link_cycle_outputs(started),
{
    let c = link_cycle(started);
    reveal_with_fuel(link_run, 6);
    reveal_with_fuel(link_outputs, 6);
    if started {
        assert(c.drop_first() =~= seq![LinkEvent::ConnectDone { ok: true }, LinkEvent::LinkLost, LinkEvent::CooldownDone]);
        assert(c.drop_first().drop_first() =~= seq![LinkEvent::LinkLost, LinkEvent::CooldownDone]);
        assert(c.drop_first().drop_first().drop_first() =~= seq![LinkEvent::CooldownDone]);
        assert(c.drop_first().drop_first().drop_first().drop_first() =~= Seq::<LinkEvent>::empty());
    } else {
        assert(c.drop_first() =~= seq![
            LinkEvent::StartDone { ok: true },
            LinkEvent::ConnectDone { ok: true },
            LinkEvent::LinkLost,
            LinkEvent::CooldownDone,
        ]);
        assert(c.drop_first().drop_first() =~= seq![LinkEvent::ConnectDone { ok: true }, LinkEvent::LinkLost, LinkEvent::CooldownDone]);
        assert(c.drop_first().drop_first().drop_first() =~= seq![LinkEvent::LinkLost, LinkEvent::CooldownDone]);
        assert(c.drop_first().drop_first().drop_first().drop_first() =~= seq![LinkEvent::CooldownDone]);
        assert(c.drop_first().drop_first().drop_first().drop_first().drop_first() =~= Seq::<LinkEvent>::empty());
    }
    assert(link_outputs(LinkState::Disconnected, c) =~= link_cycle_outputs(started));
}

/// Repeated link cycles behave identically: after any number `n` of
/// cycles from `Disconnected` (connect, lose the link, cool down), the
/// manager is back in `Disconnected`, and its actions are those of one
/// cycle, `n` times over.
pub proof fn lemma_link_cycles(started: bool, n: nat)
    ensures
        link_run(LinkState::Disconnected, repeat(link_cycle(started), n)) == LinkState::Disconnected,
        link_outputs(LinkState::Disconnected, repeat(link_cycle(started), n)) == repeat(link_cycle_outputs(started), n),
    decreases n,
{
    if n == 0 {
        assert(link_outputs(LinkState::Disconnected, Seq::<LinkEvent>::empty()) =~= Seq::<(LinkState, LinkAction)>::empty());
    } else {
        lemma_link_cycles(started, (n - 1) as nat);
        lemma_link_append(LinkState::Disconnected, repeat(link_cycle(started), (n - 1) as nat), link_cycle(started));
        lemma_one_cycle(started);
    }
}

} // verus!
