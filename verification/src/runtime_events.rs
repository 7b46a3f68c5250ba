//! Runtime integration for application failure events.
//!
//! One opt-in work operation composes runtime work, an injected clock, and a
//! bounded event queue. Success and lifecycle rejection neither read the
//! clock nor emit; a returned application error is reported once.
use vstd::prelude::*;

use crate::clock::{Clock, FrameworkInstant};
use crate::events::{
    emit_outcome, events_after_emit, Event, EventEmitOutcome, EventQueue, EventSeverity,
    EventSource, EventTimestamp,
};
use crate::lifecycle::{ApplicationId, ApplicationState};
use crate::runtime::{work_effect, Application, Runtime, RuntimeWorkError};

verus! {

/// One runtime-generated failure event and its bounded queue outcome.
///
/// The event stays available after either outcome, so a caller can retry
/// it explicitly with its initial timestamp; no retry is automatic.
#[derive(Clone, Copy, Debug, PartialEq, Eq, Structural)]
pub struct FailureEventAttempt<EventId: Copy> {
    /// The exact event supplied to the queue.
    pub event: Event<EventId>,
    /// The queue's result for the attempt.
    pub outcome: EventEmitOutcome,
}

impl<EventId: Copy> FailureEventAttempt<EventId> {
    /// Borrows the exact event supplied to the bounded queue.
    pub fn event(&self) -> (event: &Event<EventId>)
        ensures
            *event == self.event,
    {
        &self.event
    }

    /// Returns the bounded queue's result for the event attempt.
    pub fn outcome(&self) -> (outcome: EventEmitOutcome)
        ensures
            outcome == self.outcome,
    {
        self.outcome
    }

    /// Returns the event and queue outcome as caller-owned values.
    pub fn into_parts(self) -> (parts: (Event<EventId>, EventEmitOutcome))
        ensures
            parts == (self.event, self.outcome),
    {
        (self.event, self.outcome)
    }
}

/// Failure from work that also reports application errors as events.
///
/// The attempt is present exactly when the work error is an application error.
#[derive(Debug, PartialEq, Eq, Structural)]
pub struct RuntimeWorkEventError<E, EventId: Copy> {
    /// The complete error of the ordinary runtime work path.
    pub work_error: RuntimeWorkError<E>,
    /// The failure-event attempt, when one occurred.
    pub failure_event_attempt: Option<FailureEventAttempt<EventId>>,
}

impl<E, EventId: Copy> RuntimeWorkEventError<E, EventId> {
    /// Borrows the complete error returned by the ordinary runtime work path.
    pub fn work_error(&self) -> (work_error: &RuntimeWorkError<E>)
        ensures
            *work_error == self.work_error,
    {
        &self.work_error
    }

    /// Borrows the application failure-event attempt, when one occurred.
    pub fn failure_event_attempt(&self) -> (attempt: Option<&FailureEventAttempt<EventId>>)
        ensures
            attempt matches Some(a) ==> self.failure_event_attempt == Some(*a),
            attempt is None ==> self.failure_event_attempt is None,
    {
        match &self.failure_event_attempt {
            Some(attempt) => Some(attempt),
            None => None,
        }
    }

    /// Returns the complete work error without the event-attempt context.
    pub fn into_work_error(self) -> (work_error: RuntimeWorkError<E>)
        ensures
            work_error == self.work_error,
    {
        self.work_error
    }

    /// Returns the complete work error and optional event attempt.
    pub fn into_parts(self) -> (parts: (RuntimeWorkError<E>, Option<FailureEventAttempt<EventId>>))
        ensures
            parts == (self.work_error, self.failure_event_attempt),
    {
        (self.work_error, self.failure_event_attempt)
    }
}

/// How a failed work request was reported on an event queue holding
/// `before` with `limit`: a lifecycle rejection reports nothing; a returned
/// application error makes one attempt with an application-sourced error
/// event carrying the caller's identifier, and the queue changes only by
/// that attempt.
pub open spec fn failure_event_reported<E, EventId>(
    before: Seq<Event<EventId>>,
    limit: usize,
    after: Seq<Event<EventId>>,
    application_id: ApplicationId,
    failure_event_identifier: EventId,
    work_error: RuntimeWorkError<E>,
    failure_event_attempt: Option<FailureEventAttempt<EventId>>,
) -> bool where EventId: Copy {
    match work_error {
        RuntimeWorkError::Lifecycle(_) => {
            &&& failure_event_attempt is None
            &&& after == before
        },
        RuntimeWorkError::Application { .. } => {
            &&& failure_event_attempt matches Some(attempt)
            &&& attempt.event.source == EventSource::Application(application_id)
            &&& attempt.event.severity == EventSeverity::Error
            &&& attempt.event.identifier == failure_event_identifier
            &&& attempt.outcome == emit_outcome(before, limit)
            &&& after == events_after_emit(before, limit, attempt.event)
        },
    }
}

/// Builds the failure event for one application, stamped with one clock
/// reading, and attempts it once.
pub(crate) fn attempt_failure_event<EventId: Copy>(
    application_id: ApplicationId,
    failure_event_identifier: EventId,
    observed_at: FrameworkInstant,
    event_queue: &mut EventQueue<EventId>,
) -> (attempt: FailureEventAttempt<EventId>)
    ensures
        attempt.event.source == EventSource::Application(application_id),
        attempt.event.severity == EventSeverity::Error,
        attempt.event.identifier == failure_event_identifier,
        attempt.event.timestamp == EventTimestamp(observed_at),
        attempt.outcome == emit_outcome(old(event_queue)@, old(event_queue).limit()),
        final(event_queue)@ == events_after_emit(
            old(event_queue)@,
            old(event_queue).limit(),
            attempt.event,
        ),
        final(event_queue).limit() == old(event_queue).limit(),
        old(event_queue).wf() ==> final(event_queue).wf(),
{
    let event = Event::new(
        EventSource::Application(application_id),
        EventSeverity::Error,
        failure_event_identifier,
        EventTimestamp(observed_at),
    );
    let outcome = event_queue.emit(&event);
    FailureEventAttempt { event, outcome }
}

impl<A: Application> Runtime<A> {
    /// Invokes one work callback and reports a returned application error once.
    ///
    /// Lifecycle and callback behavior are those of [`Runtime::work`]. After
    /// an application returns an error and its record is committed to
    /// `Failed`, one clock reading timestamps one application-sourced error
    /// event with the caller's identifier, which is attempted once on the
    /// queue. Queue saturation never replaces the work error.
    pub fn work_with_failure_event<EventId: Copy, C: Clock + ?Sized>(
        &mut self,
        application_id: ApplicationId,
        failure_event_identifier: EventId,
        clock: &C,
        event_queue: &mut EventQueue<EventId>,
    ) -> (result: Result<ApplicationState, RuntimeWorkEventError<A::WorkError, EventId>>)
        ensures
            result matches Err(error) ==> (error.failure_event_attempt matches Some(attempt)
                ==> call_ensures(C::now, (clock,), attempt.event.timestamp.0)),
            old(self).wf() ==> final(self).wf(),
            final(event_queue).limit() == old(event_queue).limit(),
            old(event_queue).wf() ==> final(event_queue).wf(),
            match result {
                Ok(state) => {
                    &&& work_effect(*old(self), *final(self), application_id, Ok(state))
                    &&& final(event_queue)@ == old(event_queue)@
                },
                Err(error) => {
                    &&& work_effect(
                        *old(self),
                        *final(self),
                        application_id,
                        Err(error.work_error),
                    )
                    &&& failure_event_reported(
                        old(event_queue)@,
                        old(event_queue).limit(),
                        final(event_queue)@,
                        application_id,
                        failure_event_identifier,
                        error.work_error,
                        error.failure_event_attempt,
                    )
                },
            },
    {
        let work_error = match self.work(application_id) {
            Ok(state) => {
                return Ok(state);
            },
            Err(error) => error,
        };
        let failure_event_attempt = match &work_error {
            RuntimeWorkError::Lifecycle(_) => None,
            RuntimeWorkError::Application { .. } => {
                let observed_at = clock.now();
                Some(
                    attempt_failure_event(
                        application_id,
                        failure_event_identifier,
                        observed_at,
                        event_queue,
                    ),
                )
            },
        };
        Err(RuntimeWorkEventError { work_error, failure_event_attempt })
    }
}

} // verus!
