use vstd::prelude::*;

use embassy_sync::blocking_mutex::raw::NoopRawMutex;
use embassy_sync::watch::{Watch, WatchBehavior};

use crate::sample::SensorData;

verus! {

/// The abstract state of a [`Slot`]: the latest value, how many values
/// were published, how many subscribers it admits, and for each
/// registered subscriber the generation it has seen.
pub struct SlotView {
    pub latest: Option<SensorData>,
    pub generation: nat,
    pub capacity: nat,
    pub cursors: Seq<nat>,
}

impl SlotView {
    /// Every cursor lies at or below the generation, no more subscribers
    /// than the capacity, and a value exists once anything was published.
    pub open spec fn wf(self) -> bool {
        &&& self.cursors.len() <= self.capacity
        &&& forall|i: int| 0 <= i < self.cursors.len() ==> #[trigger] self.cursors[i] <= self.generation
        &&& (self.generation == 0 <==> self.latest is None)
    }

    /// The state after `s` is published: it replaces the value and opens a
    /// new generation; no cursor moves.
    pub open spec fn publish(self, s: SensorData) -> SlotView {
        SlotView { latest: Some(s), generation: self.generation + 1, ..self }
    }

    /// The state after each of `ps` is published, in order.
    pub open spec fn publish_all(self, ps: Seq<SensorData>) -> SlotView
        decreases ps.len(),
    {
        if ps.len() == 0 {
            self
        } else {
            self.publish_all(ps.drop_last()).publish(ps.last())
        }
    }

    /// Whether subscriber `sub` has a generation it has not received yet.
    pub open spec fn pending(self, sub: int) -> bool {
        self.cursors[sub] < self.generation
    }

    /// What subscriber `sub` receives without waiting: the latest value
    /// when a generation is pending for it, else nothing.
    pub open spec fn received(self, sub: int) -> Option<SensorData> {
        if self.pending(sub) {
            self.latest
        } else {
            None
        }
    }

    /// The state after subscriber `sub` receives: its cursor catches up
    /// with the generation.
    pub open spec fn after_receive(self, sub: int) -> SlotView {
        SlotView { cursors: self.cursors.update(sub, self.generation), ..self }
    }
}

/// The values that a watch holds: none, or the last one sent.
pub uninterp spec fn watch_data(w: SampleWatch) -> Seq<SensorData>;

/// The number of values sent to a watch so far (its message id).
pub uninterp spec fn watch_msg_id(w: SampleWatch) -> nat;

/// The value that `data` holds, if any.
pub open spec fn held(data: Seq<SensorData>) -> Option<SensorData> {
    if data.len() > 0 {
        Some(data[0])
    } else {
        None
    }
}

/// An embassy-sync watch of samples, owned by one slot (so no lock is
/// needed inside it). Hidden from the verifier: its mutex type is bound
/// by an outside trait.
#[verifier::external_body]
pub struct SampleWatch {
    watch: Watch<NoopRawMutex, SensorData, 1>,
}

/// Relies on embassy_sync's Watch::new: no value, message id 0.
#[verifier::external_body]
fn watch_new() -> (r: SampleWatch)
    ensures
        watch_data(r) == Seq::<SensorData>::empty(),
        watch_msg_id(r) == 0,
{
    SampleWatch { watch: Watch::new() }
}

/// Relies on embassy_sync's Sender::send (through Watch::sender): the
/// value replaces the held one and the message id goes up by one (an
/// addition that must not overflow).
#[verifier::external_body]
fn watch_send(w: &mut SampleWatch, v: SensorData)
    requires
        watch_msg_id(*old(w)) < u64::MAX,
    ensures
        watch_data(*final(w)) == seq![v],
        watch_msg_id(*final(w)) == watch_msg_id(*old(w)) + 1,
{
    w.watch.sender().send(v)
}

/// Relies on embassy_sync's Watch::get_msg_id: the current message id.
#[verifier::external_body]
fn watch_get_msg_id(w: &SampleWatch) -> (r: u64)
    ensures
        r == watch_msg_id(*w),
{
    w.watch.get_msg_id()
}

/// Relies on embassy_sync's WatchBehavior::try_get with an id: it returns
/// the held value, if any, and sets the id to the current message id.
#[verifier::external_body]
fn watch_try_get(w: &SampleWatch, id: &mut u64) -> (r: Option<SensorData>)
    ensures
        r == held(watch_data(*w)),
        *final(id) == watch_msg_id(*w),
{
    WatchBehavior::try_get(&w.watch, Some(id))
}

/// A single-value, latest-wins channel with a fixed number of
/// subscribers, over an embassy-sync watch. Publishing overwrites the
/// value; each subscriber receives the value current at the time it
/// asks, at most once per publish, and skips what was overwritten
/// before it asked. The slot keeps each subscriber's last seen message
/// id itself, so receiving never waits; waiting is left to the caller.
pub struct Slot {
    watch: SampleWatch,
    capacity: usize,
    cursors: Vec<u64>,
}

impl View for Slot {
    type V = SlotView;

    closed spec fn view(&self) -> SlotView {
        SlotView {
            latest: held(watch_data(self.watch)),
            generation: watch_msg_id(self.watch),
            capacity: self.capacity as nat,
            cursors: self.cursors@.map_values(|c: u64| c as nat),
        }
    }
}

impl Slot {
    pub open spec fn wf(&self) -> bool {
        self@.wf()
    }

    /// An empty slot that admits `capacity` subscribers.
    pub fn new(capacity: usize) -> (r: Slot)
        ensures
            r.wf(),
            r@.latest is None,
            r@.generation == 0,
            r@.capacity == capacity,
            r@.cursors.len() == 0,
    {
        let r = Slot { watch: watch_new(), capacity, cursors: Vec::new() };
        assert(r@.cursors =~= Seq::<nat>::empty());
        r
    }

    /// Registers a new subscriber and returns its index, or `None` when
    /// the slot already has as many subscribers as it admits. A new
    /// subscriber has seen nothing, so it receives the current value, if
    /// any, on its first receive.
    pub fn subscribe(&mut self) -> (r: Option<usize>)
        requires
            old(self).wf(),
        ensures
            final(self).wf(),
            old(self)@.cursors.len() < old(self)@.capacity ==> {
                &&& r == Some(old(self)@.cursors.len() as usize)
                &&& final(self)@ == (SlotView { cursors: old(self)@.cursors.push(0), ..old(self)@ })
            },
            old(self)@.cursors.len() >= old(self)@.capacity ==> {
                &&& r is None
                &&& final(self)@ == old(self)@
            },
    {
        if self.cursors.len() < self.capacity {
            let idx = self.cursors.len();
            self.cursors.push(0);
            assert(self@.cursors =~= old(self)@.cursors.push(0));
            Some(idx)
        } else {
            None
        }
    }

    /// Number of registered subscribers.
    pub fn subscriber_count(&self) -> (r: usize)
        ensures
            r == self@.cursors.len(),
    {
        self.cursors.len()
    }

    /// Whether another publish fits the generation counter.
    pub fn can_publish(&self) -> (r: bool)
        ensures
            r == (self@.generation < u64::MAX),
    {
        watch_get_msg_id(&self.watch) < u64::MAX
    }

    /// Publishes `s`, replacing any value not yet received.
    pub fn publish(&mut self, s: SensorData)
        requires
            old(self).wf(),
            old(self)@.generation < u64::MAX,
        ensures
            final(self).wf(),
            final(self)@ == old(self)@.publish(s),
    {
        watch_send(&mut self.watch, s);
        assert(self@.cursors == old(self)@.cursors);
    }

    /// Whether subscriber `sub` has something to receive.
    pub fn has_pending(&self, sub: usize) -> (r: bool)
        requires
            self.wf(),
            sub < self@.cursors.len(),
        ensures
            r == self@.pending(sub as int),
    {
        self.cursors[sub] < watch_get_msg_id(&self.watch)
    }

    /// Receives for subscriber `sub` without waiting: the latest value if
    /// it was published after this subscriber last received, else `None`.
    pub fn try_receive(&mut self, sub: usize) -> (r: Option<SensorData>)
        requires
            old(self).wf(),
            sub < old(self)@.cursors.len(),
        ensures
            final(self).wf(),
            r == old(self)@.received(sub as int),
            final(self)@ == old(self)@.after_receive(sub as int),
    {
        if self.cursors[sub] < watch_get_msg_id(&self.watch) {
            let mut seen = self.cursors[sub];
            let r = watch_try_get(&self.watch, &mut seen);
            self.cursors.set(sub, seen);
            assert(self@.cursors =~= old(self)@.cursors.update(sub as int, old(self)@.generation));
            r
        } else {
            assert(old(self)@.cursors[sub as int] == old(self)@.generation);
            assert(self@.cursors =~= old(self)@.cursors.update(sub as int, old(self)@.generation));
            None
        }
    }

    /// The latest published value, if any.
    pub fn latest(&self) -> (r: Option<SensorData>)
        ensures
            r == self@.latest,
    {
        let mut unused: u64 = 0;
        watch_try_get(&self.watch, &mut unused)
    }
}

/// A subscriber that receives after a publish gets exactly the value just
/// published, never an earlier one; receiving again before the next
/// publish gives nothing.
pub proof fn lemma_receive_after_publish(v: SlotView, s: SensorData, sub: int)
    requires
        v.wf(),
        0 <= sub < v.cursors.len(),
    ensures
        v.publish(s).wf(),
        v.publish(s).received(sub) == Some(s),
        v.publish(s).after_receive(sub).wf(),
        v.publish(s).after_receive(sub).received(sub) is None,
{
}

proof fn lemma_publish_all_shape(v: SlotView, ps: Seq<SensorData>)
    requires
        v.wf(),
    ensures
        v.publish_all(ps).wf(),
        v.publish_all(ps).cursors == v.cursors,
        v.publish_all(ps).capacity == v.capacity,
        v.publish_all(ps).generation == v.generation + ps.len(),
        ps.len() > 0 ==> v.publish_all(ps).latest == Some(ps.last()),
    decreases ps.len(),
{
    if ps.len() > 0 {
        lemma_publish_all_shape(v, ps.drop_last());
    }
}

/// A subscriber that does not receive while `ps` is published receives
/// only the last of them, once: the earlier ones are skipped.
pub proof fn lemma_delayed_receive(v: SlotView, ps: Seq<SensorData>, sub: int)
    requires
        v.wf(),
        0 <= sub < v.cursors.len(),
        ps.len() > 0,
    ensures
        v.publish_all(ps).received(sub) == Some(ps.last()),
        v.publish_all(ps).after_receive(sub).received(sub) is None,
{
    lemma_publish_all_shape(v, ps);
}

/// Two consecutive publishes, each followed by a receive, give two
/// values, even when the two samples are equal: publishes are never
/// merged.
pub proof fn lemma_no_coalescing(v: SlotView, a: SensorData, b: SensorData, sub: int)
    requires
        v.wf(),
        0 <= sub < v.cursors.len(),
    ensures
        ({
            let v1 = v.publish(a);
            let v2 = v1.after_receive(sub).publish(b);
            &&& v1.received(sub) == Some(a)
            &&& v2.received(sub) == Some(b)
            &&& v2.after_receive(sub).received(sub) is None
        }),
{
    lemma_receive_after_publish(v, a, sub);
    lemma_receive_after_publish(v.publish(a).after_receive(sub), b, sub);
}

} // verus!
