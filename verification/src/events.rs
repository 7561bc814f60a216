//! Events: queued changes to the vertex of a gesture.
//!
//! An eventful gesture has no path.  Its next vertex is the last one with
//! the changes applied that were queued since: a new value, a new rate, a
//! new behaviour.  A wait holds the changes queued behind it back for a
//! number of periods.  The queue is a ring of fixed size.

use vstd::prelude::*;
use crate::gesture::{Behavior, Gesture, GestureVertex};

verus! {

/// Number of events that the queue of an eventful gesture can hold.
pub const EVENT_QUEUE_SIZE: usize = 16;

/// What an event changes.
#[derive(Copy, Clone, Debug, PartialEq, Eq, Structural)]
pub enum GestureEventType {
    /// Nothing.
    Nothing,
    /// The target value.
    Scalar,
    /// The rate multiplier.
    Rate,
    /// The behaviour.
    Behavior,
    /// Nothing; the events behind it are held back for some periods.
    Wait,
}

/// The payload of an event.  A wait keeps its number of periods in the
/// first slot of `rate`.
#[derive(Debug)]
pub struct GestureEventData<T> {
    pub rate: Option<[u32; 2]>,
    pub scalar: Option<T>,
    pub behavior: Option<Behavior>,
}

impl<T: Copy> Clone for GestureEventData<T> {
    fn clone(&self) -> (r: Self)
        ensures
            r == *self,
    {
        *self
    }
}

impl<T: Copy> Copy for GestureEventData<T> {

}

/// A change to the vertex of an eventful gesture, waiting to be applied.
/// An event whose payload lacks what its type calls for changes nothing.
#[derive(Debug)]
pub struct GestureEvent<T> {
    pub evtype: GestureEventType,
    pub data: GestureEventData<T>,
}

impl<T: Copy> Clone for GestureEvent<T> {
    fn clone(&self) -> (r: Self)
        ensures
            r == *self,
    {
        *self
    }
}

impl<T: Copy> Copy for GestureEvent<T> {

}

impl<T> GestureEvent<T> {
    /// The event that sets the target value to `scalar`.
    pub open spec fn of_scalar(scalar: T) -> Self {
        GestureEvent {
            evtype: GestureEventType::Scalar,
            data: GestureEventData { rate: None, scalar: Some(scalar), behavior: None },
        }
    }

    /// The event that sets the rate multiplier to `num / den`.
    pub open spec fn of_rate(num: u32, den: u32) -> Self {
        GestureEvent {
            evtype: GestureEventType::Rate,
            data: GestureEventData { rate: Some([num, den]), scalar: None, behavior: None },
        }
    }

    /// The event that sets the behaviour to `bhvr`.
    pub open spec fn of_behavior(bhvr: Behavior) -> Self {
        GestureEvent {
            evtype: GestureEventType::Behavior,
            data: GestureEventData { rate: None, scalar: None, behavior: Some(bhvr) },
        }
    }

    /// The event that holds the events behind it back for `wait` periods.
    pub open spec fn of_wait(wait: u32) -> Self {
        GestureEvent {
            evtype: GestureEventType::Wait,
            data: GestureEventData { rate: Some([wait, 0]), scalar: None, behavior: None },
        }
    }
}

/// Why the event queue refused an operation.
#[derive(Copy, Clone, Debug, PartialEq, Eq, Structural)]
pub enum QueueError {
    /// The queue already holds `EVENT_QUEUE_SIZE` events.
    Overflow,
    /// The queue holds no event.
    Underflow,
}

/// A first-in, first-out queue of at most `EVENT_QUEUE_SIZE` events, kept in
/// a ring.
pub struct GestureEventQueue<T> {
    queue: [GestureEvent<T>; 16],
    head: usize,
    tail: usize,
    num_events: usize,
}

impl<T> View for GestureEventQueue<T> {
    type V = Seq<GestureEvent<T>>;

    /// The waiting events, oldest first.
    closed spec fn view(&self) -> Seq<GestureEvent<T>> {
        Seq::new(
            self.num_events as nat,
            |i: int| self.queue@[(self.head + i) % (EVENT_QUEUE_SIZE as int)],
        )
    }
}

impl<T> GestureEventQueue<T> {
    #[verifier::type_invariant]
    spec fn inv(&self) -> bool {
        &&& self.head < EVENT_QUEUE_SIZE
        &&& self.tail < EVENT_QUEUE_SIZE
        &&& self.num_events <= EVENT_QUEUE_SIZE
        &&& self.tail == (self.head + self.num_events) % (EVENT_QUEUE_SIZE as int)
    }
}

impl<T: Copy> GestureEventQueue<T> {
    /// An empty queue.
    pub fn new() -> (q: Self)
        ensures
            q@ == Seq::<GestureEvent<T>>::empty(),
    {
        let evt_default: GestureEvent<T> = GestureEvent {
            evtype: GestureEventType::Nothing,
            data: GestureEventData { scalar: None, rate: None, behavior: None },
        };
        let q = GestureEventQueue { queue: [evt_default;16], head: 0, tail: 0, num_events: 0 };
        assert(q@ =~= Seq::<GestureEvent<T>>::empty());
        q
    }

    /// Appends `evt` behind the waiting events, unless the queue is full.
    pub fn enqueue(&mut self, evt: GestureEvent<T>) -> (r: Result<(), QueueError>)
        ensures
            old(self)@.len() >= EVENT_QUEUE_SIZE ==> r == Err::<(), QueueError>(
                QueueError::Overflow,
            ) && final(self)@ == old(self)@,
            old(self)@.len() < EVENT_QUEUE_SIZE ==> r == Ok::<(), QueueError>(()) && final(self)@
                == old(self)@.push(evt),
    {
        proof {
            use_type_invariant(&*self);
        }
        if self.num_events >= EVENT_QUEUE_SIZE {
            return Err(QueueError::Overflow);
        }
        let ghost before = *self;
        let mut queue: [GestureEvent<T>; 16] = self.queue;
        queue[self.tail] = evt;
        *self = GestureEventQueue {
            queue,
            head: self.head,
            tail: (self.tail + 1) % EVENT_QUEUE_SIZE,
            num_events: self.num_events + 1,
        };
        proof {
            assert forall|i: int| 0 <= i < self.num_events implies #[trigger] self@[i]
                == before@.push(evt)[i] by {
                if i < before.num_events {
                    assert((before.head + i) % 16 != before.tail as int);
                }
            }
            assert(self@ =~= before@.push(evt));
        }
        Ok(())
    }

    /// Queues a change of the target value to `scalar`.
    pub fn enqueue_scalar(&mut self, scalar: T) -> (r: Result<(), QueueError>)
        ensures
            old(self)@.len() >= EVENT_QUEUE_SIZE ==> r == Err::<(), QueueError>(
                QueueError::Overflow,
            ) && final(self)@ == old(self)@,
            old(self)@.len() < EVENT_QUEUE_SIZE ==> r == Ok::<(), QueueError>(()) && final(self)@
                == old(self)@.push(GestureEvent::of_scalar(scalar)),
    {
        self.enqueue(
            GestureEvent {
                evtype: GestureEventType::Scalar,
                data: GestureEventData { rate: None, scalar: Some(scalar), behavior: None },
            },
        )
    }

    /// Queues a change of the rate multiplier to `num / den`.
    pub fn enqueue_rate(&mut self, num: u32, den: u32) -> (r: Result<(), QueueError>)
        ensures
            old(self)@.len() >= EVENT_QUEUE_SIZE ==> r == Err::<(), QueueError>(
                QueueError::Overflow,
            ) && final(self)@ == old(self)@,
            old(self)@.len() < EVENT_QUEUE_SIZE ==> r == Ok::<(), QueueError>(()) && final(self)@
                == old(self)@.push(GestureEvent::of_rate(num, den)),
    {
        self.enqueue(
            GestureEvent {
                evtype: GestureEventType::Rate,
                data: GestureEventData { rate: Some([num, den]), scalar: None, behavior: None },
            },
        )
    }

    /// Queues a change of the behaviour to `bhvr`.
    pub fn enqueue_behavior(&mut self, bhvr: Behavior) -> (r: Result<(), QueueError>)
        ensures
            old(self)@.len() >= EVENT_QUEUE_SIZE ==> r == Err::<(), QueueError>(
                QueueError::Overflow,
            ) && final(self)@ == old(self)@,
            old(self)@.len() < EVENT_QUEUE_SIZE ==> r == Ok::<(), QueueError>(()) && final(self)@
                == old(self)@.push(GestureEvent::of_behavior(bhvr)),
    {
        self.enqueue(
            GestureEvent {
                evtype: GestureEventType::Behavior,
                data: GestureEventData { rate: None, scalar: None, behavior: Some(bhvr) },
            },
        )
    }

    /// Queues a wait of `wait` periods.
    pub fn enqueue_wait(&mut self, wait: u32) -> (r: Result<(), QueueError>)
        ensures
            old(self)@.len() >= EVENT_QUEUE_SIZE ==> r == Err::<(), QueueError>(
                QueueError::Overflow,
            ) && final(self)@ == old(self)@,
            old(self)@.len() < EVENT_QUEUE_SIZE ==> r == Ok::<(), QueueError>(()) && final(self)@
                == old(self)@.push(GestureEvent::of_wait(wait)),
    {
        self.enqueue(
            GestureEvent {
                evtype: GestureEventType::Wait,
                data: GestureEventData { rate: Some([wait, 0]), scalar: None, behavior: None },
            },
        )
    }

    /// Takes the oldest waiting event out of the queue, unless there is
    /// none.
    pub fn dequeue(&mut self) -> (r: Result<GestureEvent<T>, QueueError>)
        ensures
            old(self)@.len() == 0 ==> r == Err::<GestureEvent<T>, QueueError>(
                QueueError::Underflow,
            ) && final(self)@ == old(self)@,
            old(self)@.len() > 0 ==> r == Ok::<GestureEvent<T>, QueueError>(old(self)@[0])
                && final(self)@ == old(self)@.drop_first(),
    {
        proof {
            use_type_invariant(&*self);
        }
        if self.num_events == 0 {
            return Err(QueueError::Underflow);
        }
        let ghost before = *self;
        let evt: GestureEvent<T> = self.queue[self.head];
        *self = GestureEventQueue {
            queue: self.queue,
            head: (self.head + 1) % EVENT_QUEUE_SIZE,
            tail: self.tail,
            num_events: self.num_events - 1,
        };
        proof {
            assert forall|i: int| 0 <= i < self.num_events implies #[trigger] self@[i]
                == before@.drop_first()[i] by {
                assert((self.head + i) % 16 == (before.head + (i + 1)) % 16);
            }
            assert(self@ =~= before@.drop_first());
        }
        Ok(evt)
    }

    /// Tells whether an event is waiting.
    pub fn has_events(&self) -> (b: bool)
        ensures
            b == (self@.len() > 0),
    {
        self.num_events > 0
    }

    /// Number of waiting events.
    pub fn num_events(&self) -> (n: usize)
        ensures
            n == self@.len(),
            n <= EVENT_QUEUE_SIZE,
    {
        proof {
            use_type_invariant(self);
        }
        self.num_events
    }
}

/// The vertex after `evt` has been applied to `vtx`: a scalar replaces the
/// value, a rate the two parts of the rate multiplier, a behaviour the
/// behaviour.  Any other event, and an event without the payload that its
/// type calls for, leaves the vertex as it is.
pub open spec fn apply_to_vertex<T>(evt: GestureEvent<T>, vtx: GestureVertex<T>) -> GestureVertex<
    T,
> {
    match evt.evtype {
        GestureEventType::Scalar => match evt.data.scalar {
            Some(scalar) => GestureVertex { val: scalar, ..vtx },
            None => vtx,
        },
        GestureEventType::Rate => match evt.data.rate {
            Some(rate) => GestureVertex { num: rate@[0], den: rate@[1], ..vtx },
            None => vtx,
        },
        GestureEventType::Behavior => match evt.data.behavior {
            Some(bhvr) => GestureVertex { bhvr, ..vtx },
            None => vtx,
        },
        _ => vtx,
    }
}

/// The number of periods to wait after `evt` has been applied: a wait sets
/// it, any other event leaves it as it is.
pub open spec fn apply_to_wait<T>(evt: GestureEvent<T>, wait: u32) -> u32 {
    match evt.evtype {
        GestureEventType::Wait => match evt.data.rate {
            Some(rate) => rate@[0],
            None => wait,
        },
        _ => wait,
    }
}

/// Applies the waiting events, oldest first, until none is left or a wait
/// is in force.  The result is what is left of the queue, the vertex and
/// the number of periods still to wait.
pub open spec fn drain<T>(events: Seq<GestureEvent<T>>, vtx: GestureVertex<T>, wait: u32) -> (
    Seq<GestureEvent<T>>,
    GestureVertex<T>,
    u32,
)
    decreases events.len(),
{
    if events.len() == 0 || wait != 0 {
        (events, vtx, wait)
    } else {
        drain(
            events.drop_first(),
            apply_to_vertex(events[0], vtx),
            apply_to_wait(events[0], wait),
        )
    }
}

/// The number of periods still to wait once the period that begins has been
/// counted off.
pub open spec fn counted_off(wait: u32) -> u32 {
    if wait > 0 {
        (wait - 1) as u32
    } else {
        0
    }
}

/// A gesture whose vertices are made by events: changes of value, rate and
/// behaviour are queued at any time and take effect when the next vertex is
/// asked for, that is at the start of the next period.
pub struct EventfulGesture<T> {
    pub gest: Gesture<T>,
    pub events: GestureEventQueue<T>,
    /// The vertex as the events applied so far have left it.
    pub vtx: GestureVertex<T>,
    /// Number of periods for which the waiting events are still held back.
    pub wait: u32,
}

impl<T: Copy> EventfulGesture<T> {
    /// A gesture at rest on `origin`, with an empty queue and a linear
    /// vertex on `origin` at rate one.
    pub fn new(origin: T) -> (g: Self)
        ensures
            g.events@ == Seq::<GestureEvent<T>>::empty(),
            g.vtx == (GestureVertex { val: origin, num: 1, den: 1, bhvr: Behavior::Linear }),
            g.wait == 0,
            g.gest.prev == origin,
            g.gest.next == origin,
            g.gest.ratemul@ == seq![1u32, 1u32],
            g.gest.behavior == Behavior::GlissMedium,
            g.gest.next_behavior == Behavior::GlissMedium,
    {
        EventfulGesture {
            gest: Gesture::new(origin),
            events: GestureEventQueue::new(),
            vtx: GestureVertex { val: origin, num: 1, den: 1, bhvr: Behavior::Linear },
            wait: 0,
        }
    }

    /// The vertex for the period that begins.
    ///
    /// Unless a wait is in force, the waiting events are applied to the
    /// vertex in the order in which they were queued, up to and including
    /// the first wait.  Then one period of the wait in force, if any, is
    /// counted off.
    pub fn next_vertex(&mut self) -> (r: GestureVertex<T>)
        ensures
            final(self).events@ == drain(old(self).events@, old(self).vtx, old(self).wait).0,
            final(self).vtx == drain(old(self).events@, old(self).vtx, old(self).wait).1,
            final(self).wait == counted_off(
                drain(old(self).events@, old(self).vtx, old(self).wait).2,
            ),
            final(self).gest == old(self).gest,
            r == final(self).vtx,
    {
        while self.events.has_events() && self.wait == 0
            invariant
                drain(self.events@, self.vtx, self.wait) == drain(
                    old(self).events@,
                    old(self).vtx,
                    old(self).wait,
                ),
                self.gest == old(self).gest,
            decreases self.events@.len(),
        {
            let ghost before = (self.events@, self.vtx, self.wait);
            match self.events.dequeue() {
                Ok(evt) => {
                    match evt.evtype {
                        GestureEventType::Scalar => {
                            if let Some(scalar) = evt.data.scalar {
                                self.vtx.val = scalar;
                            }
                        },
                        GestureEventType::Behavior => {
                            if let Some(bhvr) = evt.data.behavior {
                                self.vtx.bhvr = bhvr;
                            }
                        },
                        GestureEventType::Rate => {
                            if let Some(rate) = evt.data.rate {
                                self.vtx.num = rate[0];
                                self.vtx.den = rate[1];
                            }
                        },
                        GestureEventType::Wait => {
                            if let Some(rate) = evt.data.rate {
                                self.wait = rate[0];
                            }
                        },
                        GestureEventType::Nothing => {},
                    }
                    assert(self.vtx == apply_to_vertex(before.0[0], before.1));
                    assert(self.wait == apply_to_wait(before.0[0], before.2));
                },
                Err(_) => {},
            }
        }
        if self.wait > 0 {
            self.wait -= 1;
        }
        self.vtx
    }

    /// Starts the segment towards `vtx`; see [`Gesture::update`].
    pub fn update(&mut self, vtx: &GestureVertex<T>) -> (applied: [u32; 2])
        ensures
            applied == old(self).gest.ratemul,
            final(self).gest.prev == old(self).gest.next,
            final(self).gest.next == vtx.val,
            final(self).gest.ratemul@ == seq![vtx.num, vtx.den],
            final(self).gest.behavior == old(self).gest.next_behavior,
            final(self).gest.next_behavior == vtx.bhvr,
            final(self).events == old(self).events,
            final(self).vtx == old(self).vtx,
            final(self).wait == old(self).wait,
    {
        self.gest.update(vtx)
    }

    /// Queues a change of the target value.
    pub fn scalar(&mut self, scalar: T) -> (r: Result<(), QueueError>)
        ensures
            old(self).events@.len() >= EVENT_QUEUE_SIZE ==> r == Err::<(), QueueError>(
                QueueError::Overflow,
            ) && final(self).events@ == old(self).events@,
            old(self).events@.len() < EVENT_QUEUE_SIZE ==> r == Ok::<(), QueueError>(())
                && final(self).events@ == old(self).events@.push(GestureEvent::of_scalar(scalar)),
            final(self).gest == old(self).gest,
            final(self).vtx == old(self).vtx,
            final(self).wait == old(self).wait,
    {
        self.events.enqueue_scalar(scalar)
    }

    /// Queues a change of the rate multiplier to `rate[0] / rate[1]`.
    pub fn rate(&mut self, rate: [u32; 2]) -> (r: Result<(), QueueError>)
        ensures
            old(self).events@.len() >= EVENT_QUEUE_SIZE ==> r == Err::<(), QueueError>(
                QueueError::Overflow,
            ) && final(self).events@ == old(self).events@,
            old(self).events@.len() < EVENT_QUEUE_SIZE ==> r == Ok::<(), QueueError>(())
                && final(self).events@ == old(self).events@.push(
                GestureEvent::of_rate(rate@[0], rate@[1]),
            ),
            final(self).gest == old(self).gest,
            final(self).vtx == old(self).vtx,
            final(self).wait == old(self).wait,
    {
        self.events.enqueue_rate(rate[0], rate[1])
    }

    /// Queues a change of the behaviour.
    pub fn behavior(&mut self, bhvr: Behavior) -> (r: Result<(), QueueError>)
        ensures
            old(self).events@.len() >= EVENT_QUEUE_SIZE ==> r == Err::<(), QueueError>(
                QueueError::Overflow,
            ) && final(self).events@ == old(self).events@,
            old(self).events@.len() < EVENT_QUEUE_SIZE ==> r == Ok::<(), QueueError>(())
                && final(self).events@ == old(self).events@.push(GestureEvent::of_behavior(bhvr)),
            final(self).gest == old(self).gest,
            final(self).vtx == old(self).vtx,
            final(self).wait == old(self).wait,
    {
        self.events.enqueue_behavior(bhvr)
    }

    /// Queues a wait: the events queued after it are held back until `wait`
    /// further periods have begun.
    pub fn wait(&mut self, wait: u32) -> (r: Result<(), QueueError>)
        ensures
            old(self).events@.len() >= EVENT_QUEUE_SIZE ==> r == Err::<(), QueueError>(
                QueueError::Overflow,
            ) && final(self).events@ == old(self).events@,
            old(self).events@.len() < EVENT_QUEUE_SIZE ==> r == Ok::<(), QueueError>(())
                && final(self).events@ == old(self).events@.push(GestureEvent::of_wait(wait)),
            final(self).gest == old(self).gest,
            final(self).vtx == old(self).vtx,
            final(self).wait == old(self).wait,
    {
        self.events.enqueue_wait(wait)
    }
}

/// While a wait is in force no event is applied.
pub proof fn lemma_drain_held_back<T>(events: Seq<GestureEvent<T>>, vtx: GestureVertex<T>, wait: u32)
    requires
        wait != 0,
    ensures
        drain(events, vtx, wait) == (events, vtx, wait),
{
}

/// The events that stay in the queue are the youngest ones, in their old
/// order: events are taken from the front only.
pub proof fn lemma_drain_leaves_a_suffix<T>(
    events: Seq<GestureEvent<T>>,
    vtx: GestureVertex<T>,
    wait: u32,
)
    ensures
        drain(events, vtx, wait).0.len() <= events.len(),
        drain(events, vtx, wait).0 == events.subrange(
            events.len() - drain(events, vtx, wait).0.len(),
            events.len() as int,
        ),
    decreases events.len(),
{
    if events.len() == 0 || wait != 0 {
        assert(events.subrange(0, events.len() as int) =~= events);
    } else {
        let tail = events.drop_first();
        let v = apply_to_vertex(events[0], vtx);
        let w = apply_to_wait(events[0], wait);
        lemma_drain_leaves_a_suffix(tail, v, w);
        let rest = drain(tail, v, w).0;
        assert(tail.subrange(tail.len() - rest.len(), tail.len() as int) =~= events.subrange(
            events.len() - rest.len(),
            events.len() as int,
        ));
    }
}

/// Where no wait is in force and none is queued, every waiting event is
/// applied: the queue is left empty and no wait comes into force.
pub proof fn lemma_drain_without_wait_empties<T>(
    events: Seq<GestureEvent<T>>,
    vtx: GestureVertex<T>,
)
    requires
        forall|i: int| 0 <= i < events.len() ==> (#[trigger] events[i]).evtype
            != GestureEventType::Wait,
    ensures
        drain(events, vtx, 0).0.len() == 0,
        drain(events, vtx, 0).2 == 0,
    decreases events.len(),
{
    if events.len() > 0 {
        let tail = events.drop_first();
        assert forall|i: int| 0 <= i < tail.len() implies (#[trigger] tail[i]).evtype
            != GestureEventType::Wait by {
            assert(tail[i] == events[i + 1]);
        }
        lemma_drain_without_wait_empties(tail, apply_to_vertex(events[0], vtx));
    }
}

/// Of several changes of the value that are applied at once the last one
/// stands: where no wait is in force and none is queued, and the youngest
/// event sets the value to `scalar`, the vertex ends up on `scalar`.
pub proof fn lemma_drain_last_scalar_stands<T>(
    events: Seq<GestureEvent<T>>,
    vtx: GestureVertex<T>,
    scalar: T,
)
    requires
        events.len() > 0,
        events.last() == GestureEvent::of_scalar(scalar),
        forall|i: int| 0 <= i < events.len() ==> (#[trigger] events[i]).evtype
            != GestureEventType::Wait,
    ensures
        drain(events, vtx, 0).1.val == scalar,
    decreases events.len(),
{
    let tail = events.drop_first();
    if tail.len() == 0 {
        assert(events[0] == events.last());
        assert(drain(tail, apply_to_vertex(events[0], vtx), 0).1 == apply_to_vertex(
            events[0],
            vtx,
        ));
    } else {
        assert(tail.last() == events.last());
        assert forall|i: int| 0 <= i < tail.len() implies (#[trigger] tail[i]).evtype
            != GestureEventType::Wait by {
            assert(tail[i] == events[i + 1]);
        }
        lemma_drain_last_scalar_stands(tail, apply_to_vertex(events[0], vtx), scalar);
    }
}

} // verus!
