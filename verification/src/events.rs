//! Bounded structured events and FIFO queueing.
//!
//! A queue reserves a positive record bound at construction, keeps emission
//! order, and reports saturation to the caller by rejecting the newest event.
use std::collections::VecDeque;
use vstd::prelude::*;

use crate::clock::{Clock, ElapsedTime, FrameworkInstant};
use crate::lifecycle::ApplicationId;

verus! {

/// The producer represented by one structured event.
#[derive(Clone, Copy, Debug, PartialEq, Eq, Structural)]
pub enum EventSource {
    /// Framework behavior not attributed to one application.
    Framework,
    /// Behavior attributed to one runtime-local application identity.
    Application(ApplicationId),
}

/// The local importance category carried by one event.
#[derive(Clone, Copy, Debug, PartialEq, Eq, Structural)]
pub enum EventSeverity {
    /// Expected operation or useful state information.
    Informational,
    /// A condition that deserves attention but is not reported as an error.
    Warning,
    /// A defined operation or behavior reported an error.
    Error,
}

/// Elapsed framework time captured for one event.
///
/// It is not a wall-clock timestamp, and queues do not enforce monotonicity.
#[derive(Clone, Copy, Debug, PartialEq, Eq, Structural, PartialOrd, Ord, Hash)]
pub struct EventTimestamp(pub FrameworkInstant);

impl EventTimestamp {
    /// Creates a timestamp from elapsed time since the framework clock origin.
    pub fn from_elapsed(elapsed: ElapsedTime) -> (timestamp: Self)
        ensures
            timestamp.0.0 == elapsed,
    {
        EventTimestamp(FrameworkInstant(elapsed))
    }

    /// Captures exactly one reading of an injected clock.
    pub fn from_clock<C: Clock + ?Sized>(clock: &C) -> (timestamp: Self)
        ensures
            call_ensures(C::now, (clock,), timestamp.0),
    {
        EventTimestamp(clock.now())
    }

    /// Returns elapsed time since the framework clock origin.
    pub fn elapsed(self) -> (elapsed: ElapsedTime)
        ensures
            elapsed == self.0.0,
    {
        self.0.0
    }

    /// Returns the captured framework instant.
    pub fn instant(self) -> (instant: FrameworkInstant)
        ensures
            instant == self.0,
    {
        self.0
    }
}

/// One machine-inspectable event record.
#[derive(Clone, Copy, Debug, PartialEq, Eq, Structural)]
pub struct Event<EventId> {
    /// Producer represented by this event.
    pub source: EventSource,
    /// Local importance category.
    pub severity: EventSeverity,
    /// Mission-defined identifier.
    pub identifier: EventId,
    /// Explicit framework timestamp.
    pub timestamp: EventTimestamp,
}

impl<EventId> Event<EventId> {
    /// Creates an event from its complete structured metadata.
    pub fn new(
        source: EventSource,
        severity: EventSeverity,
        identifier: EventId,
        timestamp: EventTimestamp,
    ) -> (event: Self)
        ensures
            event == (Event { source, severity, identifier, timestamp }),
    {
        Event { source, severity, identifier, timestamp }
    }

    /// Returns the producer represented by this event.
    pub fn source(&self) -> (source: EventSource)
        ensures
            source == self.source,
    {
        self.source
    }

    /// Returns the local importance category.
    pub fn severity(&self) -> (severity: EventSeverity)
        ensures
            severity == self.severity,
    {
        self.severity
    }

    /// Borrows the mission-defined identifier.
    pub fn identifier(&self) -> (identifier: &EventId)
        ensures
            *identifier == self.identifier,
    {
        &self.identifier
    }

    /// Returns the explicit framework timestamp.
    pub fn timestamp(&self) -> (timestamp: EventTimestamp)
        ensures
            timestamp == self.timestamp,
    {
        self.timestamp
    }
}

/// Failure to construct bounded event storage.
#[derive(Clone, Copy, Debug, PartialEq, Eq, Structural)]
pub enum EventQueueCreateError {
    /// The configured event-record capacity was zero.
    ZeroCapacity,
    /// Storage for the configured number of event records could not be reserved.
    CapacityAllocationFailed {
        /// Requested number of event records.
        requested: usize,
    },
}

/// Caller-visible result of one event emission attempt.
#[derive(Clone, Copy, Debug, PartialEq, Eq, Structural)]
pub enum EventEmitOutcome {
    /// The event was appended to the queue.
    Recorded,
    /// The queue retained its older records and rejected this newest event.
    QueueFull {
        /// Configured logical event-record capacity.
        capacity: usize,
    },
}

/// The queue contents after one emission attempt on `events` with `capacity`.
pub open spec fn events_after_emit<EventId>(
    events: Seq<Event<EventId>>,
    capacity: usize,
    event: Event<EventId>,
) -> Seq<Event<EventId>> {
    if events.len() >= capacity {
        events
    } else {
        events.push(event)
    }
}

/// The outcome of one emission attempt on `events` with `capacity`.
pub open spec fn emit_outcome<EventId>(events: Seq<Event<EventId>>, capacity: usize) -> EventEmitOutcome {
    if events.len() >= capacity {
        EventEmitOutcome::QueueFull { capacity }
    } else {
        EventEmitOutcome::Recorded
    }
}

/// A positive-capacity FIFO queue for structured event records.
///
/// A full queue keeps every older event and rejects the newest one without
/// retry, overwrite, or hidden work.
#[derive(Debug)]
pub struct EventQueue<EventId: Copy> {
    events: VecDeque<Event<EventId>>,
    max_events: usize,
}

impl<EventId: Copy> View for EventQueue<EventId> {
    type V = Seq<Event<EventId>>;

    closed spec fn view(&self) -> Seq<Event<EventId>> {
        self.events@
    }
}

impl<EventId: Copy> EventQueue<EventId> {
    /// The configured logical record limit.
    pub closed spec fn limit(&self) -> usize {
        self.max_events
    }

    /// The queue holds no more records than its positive limit.
    pub open spec fn wf(&self) -> bool {
        &&& 0 < self.limit()
        &&& self@.len() <= self.limit()
    }

    /// Creates an empty event queue with a positive fixed record capacity.
    pub fn new(max_events: usize) -> (result: Result<Self, EventQueueCreateError>)
        ensures
            max_events == 0 <==> result == Err::<Self, _>(EventQueueCreateError::ZeroCapacity),
            result matches Ok(queue) ==> {
                &&& queue.wf()
                &&& queue@ == Seq::<Event<EventId>>::empty()
                &&& queue.limit() == max_events
            },
            result matches Err(EventQueueCreateError::CapacityAllocationFailed { requested }) ==> {
                &&& requested == max_events
                &&& max_events > 0
            },
            max_events * vstd::layout::size_of::<Event<EventId>>() > isize::MAX ==> result
                == Err::<Self, _>(EventQueueCreateError::CapacityAllocationFailed { requested: max_events }),
    {
        if max_events == 0 {
            return Err(EventQueueCreateError::ZeroCapacity);
        }
        let mut events: VecDeque<Event<EventId>> = VecDeque::new();
        if !crate::storage::reserve_deque(&mut events, max_events) {
            return Err(EventQueueCreateError::CapacityAllocationFailed { requested: max_events });
        }
        Ok(EventQueue { events, max_events })
    }

    /// Returns the configured logical event-record limit.
    pub fn capacity(&self) -> (capacity: usize)
        ensures
            capacity == self.limit(),
    {
        self.max_events
    }

    /// Returns the number of queued event records.
    pub fn pending(&self) -> (pending: usize)
        ensures
            pending == self@.len(),
    {
        self.events.len()
    }

    /// Returns whether the event queue contains no records.
    pub fn is_empty(&self) -> (empty: bool)
        ensures
            empty == (self@.len() == 0),
    {
        self.events.len() == 0
    }

    /// Attempts to append one copy of the event without waiting.
    ///
    /// At the configured limit this returns `QueueFull` and changes nothing.
    pub fn emit(&mut self, event: &Event<EventId>) -> (outcome: EventEmitOutcome)
        ensures
            outcome == emit_outcome(old(self)@, old(self).limit()),
            final(self)@ == events_after_emit(old(self)@, old(self).limit(), *event),
            final(self).limit() == old(self).limit(),
            old(self).wf() ==> final(self).wf(),
    {
        if self.events.len() >= self.max_events {
            return EventEmitOutcome::QueueFull { capacity: self.max_events };
        }
        self.events.push_back(*event);
        EventEmitOutcome::Recorded
    }

    /// Removes and returns the oldest accepted event, if any.
    pub fn dequeue(&mut self) -> (event: Option<Event<EventId>>)
        ensures
            old(self)@.len() == 0 ==> event is None && final(self)@ == old(self)@,
            old(self)@.len() > 0 ==> event == Some(old(self)@[0]) && final(self)@ == old(
                self,
            )@.drop_first(),
            final(self).limit() == old(self).limit(),
            old(self).wf() ==> final(self).wf(),
    {
        let event = self.events.pop_front();
        proof {
            if old(self)@.len() > 0 {
                assert(self@ =~= old(self)@.drop_first());
            }
        }
        event
    }
}

/// Emission order is dequeue order: emitting into a queue with room and then
/// dequeuing everything yields the older records first and the new one last.
pub proof fn lemma_emit_preserves_fifo<EventId>(
    events: Seq<Event<EventId>>,
    capacity: usize,
    event: Event<EventId>,
)
    requires
        events.len() < capacity,
    ensures
        events_after_emit(events, capacity, event).len() == events.len() + 1,
        forall|i: int|
            0 <= i < events.len() ==> #[trigger] events_after_emit(events, capacity, event)[i]
                == events[i],
        events_after_emit(events, capacity, event).last() == event,
{
}

/// A full queue keeps every older record; removing one record frees exactly
/// one slot for the next emission.
pub proof fn lemma_dequeue_frees_one_slot<EventId>(
    events: Seq<Event<EventId>>,
    capacity: usize,
    event: Event<EventId>,
)
    requires
        events.len() == capacity,
        capacity > 0,
    ensures
        events_after_emit(events, capacity, event) == events,
        emit_outcome(events, capacity) == (EventEmitOutcome::QueueFull { capacity }),
        emit_outcome(events.drop_first(), capacity) == EventEmitOutcome::Recorded,
        events_after_emit(events.drop_first(), capacity, event) == events.drop_first().push(event),
{
}


/// The queue contents after emitting `emitted` in order, one attempt each.
pub open spec fn events_after_emits<EventId>(
    events: Seq<Event<EventId>>,
    capacity: usize,
    emitted: Seq<Event<EventId>>,
) -> Seq<Event<EventId>>
    decreases emitted.len(),
{
    if emitted.len() == 0 {
        events
    } else {
        events_after_emit(
            events_after_emits(events, capacity, emitted.drop_last()),
            capacity,
            emitted.last(),
        )
    }
}

/// Emitting events into a queue with room for all of them records every one
/// behind the older records, in emission order, so dequeues return them in
/// that order; while room remains, each attempt reports `Recorded`.
pub proof fn lemma_emits_queue_in_emission_order<EventId>(
    events: Seq<Event<EventId>>,
    capacity: usize,
    emitted: Seq<Event<EventId>>,
)
    requires
        events.len() + emitted.len() <= capacity,
    ensures
        events_after_emits(events, capacity, emitted) == events + emitted,
        forall|k: int|
            0 <= k < emitted.len() ==> #[trigger] emit_outcome(
                events_after_emits(events, capacity, emitted.take(k)),
                capacity,
            ) == EventEmitOutcome::Recorded,
    decreases emitted.len(),
{
    if emitted.len() > 0 {
        lemma_emits_queue_in_emission_order(events, capacity, emitted.drop_last());
        assert(events + emitted.drop_last() + seq![emitted.last()] =~= events + emitted);
        assert forall|k: int| 0 <= k < emitted.len() implies #[trigger] emit_outcome(
            events_after_emits(events, capacity, emitted.take(k)),
            capacity,
        ) == EventEmitOutcome::Recorded by {
            if k < emitted.len() - 1 {
                assert(emitted.take(k) =~= emitted.drop_last().take(k));
            } else {
                assert(emitted.take(k) =~= emitted.drop_last());
            }
        }
    }
}

/// A well-formed queue never holds more records than its limit.
pub proof fn lemma_pending_within_capacity<EventId: Copy>(queue: EventQueue<EventId>)
    requires
        queue.wf(),
    ensures
        queue@.len() <= queue.limit(),
        0 < queue.limit(),
{
}

/// A timestamp captured from a manual clock holds exactly the instant that
/// clock reports.
pub proof fn lemma_manual_clock_timestamp_is_its_reading(
    clock: &crate::clock::ManualClock,
    instant: FrameworkInstant,
)
    requires
        call_ensures(<crate::clock::ManualClock as Clock>::now, (clock,), instant),
    ensures
        instant == clock.reading(),
{
}

} // verus!
