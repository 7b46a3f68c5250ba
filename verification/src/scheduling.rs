//! Finite caller-driven scheduling of owned application work.
//!
//! A schedule is an immutable one-shot agenda ordered by elapsed framework
//! instants. Each runtime call reads an injected clock at most once and
//! attempts at most one due item.
use vstd::prelude::*;

use crate::clock::{Clock, FrameworkInstant};
use crate::lifecycle::{ApplicationId, ApplicationState};
use crate::runtime::{work_effect, Application, Runtime, RuntimeWorkError};

verus! {

/// One application work item released at an elapsed framework instant.
///
/// `scheduled_at` is the earliest instant at which the item may be attempted.
#[derive(Clone, Copy, Debug, PartialEq, Eq, Structural)]
pub struct ScheduledWork {
    /// The application selected for work.
    pub application_id: ApplicationId,
    /// The earliest instant at which work may be attempted.
    pub scheduled_at: FrameworkInstant,
}

impl ScheduledWork {
    /// Creates one scheduled, one-shot work item.
    pub fn new(application_id: ApplicationId, scheduled_at: FrameworkInstant) -> (item: Self)
        ensures
            item == (ScheduledWork { application_id, scheduled_at }),
    {
        ScheduledWork { application_id, scheduled_at }
    }

    /// Returns the application selected for work.
    pub fn application_id(self) -> (application_id: ApplicationId)
        ensures
            application_id == self.application_id,
    {
        self.application_id
    }

    /// Returns the earliest elapsed instant at which work may be attempted.
    pub fn scheduled_at(self) -> (scheduled_at: FrameworkInstant)
        ensures
            scheduled_at == self.scheduled_at,
    {
        self.scheduled_at
    }
}

/// Failure to construct a finite [`WorkSchedule`].
#[derive(Clone, Copy, Debug, PartialEq, Eq, Structural)]
pub enum WorkScheduleCreateError {
    /// One item was earlier than its predecessor.
    ScheduledInstantsOutOfOrder {
        /// Zero-based index of the descending item.
        index: usize,
        /// Scheduled instant of the preceding item.
        previous: FrameworkInstant,
        /// Scheduled instant of the rejected item.
        scheduled_at: FrameworkInstant,
    },
    /// Storage for the complete agenda could not be reserved.
    StorageAllocationFailed {
        /// Requested number of scheduled work items.
        requested: usize,
    },
}

/// One caller-visible result when no scheduled work error was returned.
#[derive(Clone, Copy, Debug, PartialEq, Eq, Structural)]
pub enum ScheduledWorkOutcome {
    /// Every configured item has already been attempted.
    Complete,
    /// The next item is not yet due, so nothing changed.
    Waiting {
        /// Next item retained by the schedule.
        next: ScheduledWork,
        /// The single clock reading used for this decision.
        observed_at: FrameworkInstant,
    },
    /// One due or overdue work callback returned successfully.
    Completed {
        /// Item consumed and attempted by this call.
        scheduled_work: ScheduledWork,
        /// The single clock reading used for this attempt.
        observed_at: FrameworkInstant,
        /// State returned by the successful runtime work operation.
        state: ApplicationState,
    },
}

/// A due scheduled item whose runtime work operation returned an error.
#[derive(Debug, PartialEq, Eq, Structural)]
pub struct ScheduledWorkError<E> {
    /// The item consumed by the failed work attempt.
    pub scheduled_work: ScheduledWork,
    /// The clock reading used to decide that the item was due.
    pub observed_at: FrameworkInstant,
    /// The exact error returned by the runtime work operation.
    pub work_error: RuntimeWorkError<E>,
}

impl<E> ScheduledWorkError<E> {
    /// Returns the item consumed by the failed work attempt.
    pub fn scheduled_work(&self) -> (scheduled_work: ScheduledWork)
        ensures
            scheduled_work == self.scheduled_work,
    {
        self.scheduled_work
    }

    /// Returns the clock reading used to determine that the item was due.
    pub fn observed_at(&self) -> (observed_at: FrameworkInstant)
        ensures
            observed_at == self.observed_at,
    {
        self.observed_at
    }

    /// Borrows the exact error returned by the runtime work operation.
    pub fn work_error(&self) -> (work_error: &RuntimeWorkError<E>)
        ensures
            *work_error == self.work_error,
    {
        &self.work_error
    }

    /// Returns ownership of the exact runtime work error.
    pub fn into_work_error(self) -> (work_error: RuntimeWorkError<E>)
        ensures
            work_error == self.work_error,
    {
        self.work_error
    }
}

/// Scheduled instants never decrease along the agenda.
pub open spec fn agenda_ordered(items: Seq<ScheduledWork>) -> bool {
    forall|i: int, j: int| 0 <= i <= j < items.len() ==> items[i].scheduled_at@ <= items[j].scheduled_at@
}

/// Adjacent items never descend before position `end`.
pub open spec fn ordered_before(items: Seq<ScheduledWork>, end: int) -> bool {
    forall|i: int|
        0 < i < end ==> #[trigger] items[i - 1].scheduled_at@ <= items[i].scheduled_at@
}

/// A fixed finite agenda of one-shot application work items.
///
/// Items keep caller order and have nondecreasing instants, so equal-time
/// items run in configuration order. Running advances only a private cursor.
#[derive(Debug)]
pub struct WorkSchedule {
    scheduled_work: Vec<ScheduledWork>,
    next_index: usize,
}

impl View for WorkSchedule {
    type V = Seq<ScheduledWork>;

    /// The items not yet attempted, in order.
    closed spec fn view(&self) -> Seq<ScheduledWork> {
        self.scheduled_work@.subrange(self.next_index as int, self.scheduled_work@.len() as int)
    }
}

proof fn lemma_adjacent_order_is_total(items: Seq<ScheduledWork>)
    requires
        ordered_before(items, items.len() as int),
    ensures
        agenda_ordered(items),
{
    assert forall|i: int, j: int| 0 <= i <= j < items.len() implies items[i].scheduled_at@
        <= items[j].scheduled_at@ by {
        lemma_adjacent_chain(items, i, j);
    }
}

proof fn lemma_adjacent_chain(items: Seq<ScheduledWork>, i: int, j: int)
    requires
        ordered_before(items, items.len() as int),
        0 <= i <= j < items.len(),
    ensures
        items[i].scheduled_at@ <= items[j].scheduled_at@,
    decreases j - i,
{
    if i < j {
        lemma_adjacent_chain(items, i, j - 1);
        assert(items[j - 1].scheduled_at@ <= items[j].scheduled_at@);
    }
}

impl WorkSchedule {
    /// The schedule's invariant: the cursor is within the agenda and the
    /// remaining items are ordered.
    pub closed spec fn wf(&self) -> bool {
        &&& self.next_index <= self.scheduled_work@.len()
        &&& agenda_ordered(self.scheduled_work@)
    }

    /// Copies a complete finite agenda after validating scheduled-time order.
    ///
    /// An empty agenda is valid and immediately complete. The first
    /// descending pair is reported before any storage is reserved.
    pub fn new(scheduled_work: &[ScheduledWork]) -> (result: Result<Self, WorkScheduleCreateError>)
        ensures
            result matches Ok(schedule) ==> {
                &&& schedule@ == scheduled_work@
                &&& schedule.wf()
            },
            ordered_before(scheduled_work@, scheduled_work@.len() as int) <==> !(result matches Err(
                WorkScheduleCreateError::ScheduledInstantsOutOfOrder { .. },
            )),
            result matches Err(
                WorkScheduleCreateError::ScheduledInstantsOutOfOrder { index, previous, scheduled_at },
            ) ==> {
                &&& 0 < index < scheduled_work@.len()
                &&& ordered_before(scheduled_work@, index as int)
                &&& previous == scheduled_work@[index - 1].scheduled_at
                &&& scheduled_at == scheduled_work@[index as int].scheduled_at
                &&& scheduled_at@ < previous@
            },
            result matches Err(WorkScheduleCreateError::StorageAllocationFailed { requested }) ==> {
                &&& requested == scheduled_work@.len()
                &&& requested > 0
            },
    {
        let mut index: usize = 1;
        while index < scheduled_work.len()
            invariant
                1 <= index,
                scheduled_work@.len() == 0 || index <= scheduled_work@.len(),
                ordered_before(scheduled_work@, index as int),
            decreases scheduled_work@.len() - index,
        {
            let previous = scheduled_work[index - 1].scheduled_at;
            let scheduled_at = scheduled_work[index].scheduled_at;
            if scheduled_at.is_before(previous) {
                return Err(
                    WorkScheduleCreateError::ScheduledInstantsOutOfOrder {
                        index,
                        previous,
                        scheduled_at,
                    },
                );
            }
            index = index + 1;
        }
        proof {
            if scheduled_work@.len() > 0 {
                assert(index == scheduled_work@.len());
            }
            lemma_adjacent_order_is_total(scheduled_work@);
        }
        let mut owned: Vec<ScheduledWork> = Vec::new();
        if !crate::storage::reserve_vec(&mut owned, scheduled_work.len()) {
            return Err(
                WorkScheduleCreateError::StorageAllocationFailed { requested: scheduled_work.len() },
            );
        }
        let mut index: usize = 0;
        while index < scheduled_work.len()
            invariant
                index <= scheduled_work@.len(),
                owned@ == scheduled_work@.subrange(0, index as int),
            decreases scheduled_work@.len() - index,
        {
            owned.push(scheduled_work[index]);
            index = index + 1;
            proof {
                assert(owned@ =~= scheduled_work@.subrange(0, index as int));
            }
        }
        proof {
            assert(scheduled_work@.subrange(0, scheduled_work@.len() as int) =~= scheduled_work@);
        }
        let schedule = WorkSchedule { scheduled_work: owned, next_index: 0 };
        proof {
            assert(schedule@ =~= scheduled_work@);
        }
        Ok(schedule)
    }

    /// Returns the number of configured items not yet attempted.
    pub fn remaining(&self) -> (remaining: usize)
        requires
            self.wf(),
        ensures
            remaining == self@.len(),
    {
        self.scheduled_work.len() - self.next_index
    }

    /// Returns whether every configured item has been attempted.
    pub fn is_complete(&self) -> (complete: bool)
        requires
            self.wf(),
        ensures
            complete == (self@.len() == 0),
    {
        self.remaining() == 0
    }

    /// The remaining items are in nondecreasing instant order.
    pub proof fn lemma_remaining_ordered(&self)
        requires
            self.wf(),
        ensures
            agenda_ordered(self@),
    {
    }

    fn next(&self) -> (next: Option<ScheduledWork>)
        requires
            self.wf(),
        ensures
            self@.len() == 0 ==> next is None,
            self@.len() > 0 ==> next == Some(self@[0]),
    {
        if self.next_index < self.scheduled_work.len() {
            Some(self.scheduled_work[self.next_index])
        } else {
            None
        }
    }

    fn consume_next(&mut self)
        requires
            old(self).wf(),
            old(self)@.len() > 0,
        ensures
            final(self).wf(),
            final(self)@ == old(self)@.drop_first(),
    {
        let total = self.scheduled_work.len();
        proof {
            assert(self@.len() == total - self.next_index);
        }
        self.next_index = self.next_index + 1;
        proof {
            assert(self@ =~= old(self)@.drop_first());
        }
    }
}

impl<A: Application> Runtime<A> {
    /// Attempts at most the next due work item under an injected clock.
    ///
    /// An empty schedule returns `Complete` without reading the clock. A
    /// future item returns `Waiting` after one clock read and changes
    /// neither runtime nor schedule. A due or overdue item is consumed, then
    /// delegated to [`Runtime::work`]; consumption is final after either
    /// success or error, so a stopped or failed application never blocks
    /// later due work.
    pub fn run_next_scheduled_work<C: Clock + ?Sized>(
        &mut self,
        schedule: &mut WorkSchedule,
        clock: &C,
    ) -> (result: Result<ScheduledWorkOutcome, ScheduledWorkError<A::WorkError>>)
        requires
            old(schedule).wf(),
        ensures
            final(schedule).wf(),
            old(self).wf() ==> final(self).wf(),
            old(schedule)@.len() == 0 ==> {
                &&& result == Ok::<_, ScheduledWorkError<A::WorkError>>(ScheduledWorkOutcome::Complete)
                &&& final(schedule)@ == old(schedule)@
                &&& old(self).unchanged(final(self))
            },
            old(schedule)@.len() > 0 ==> match result {
                Ok(ScheduledWorkOutcome::Complete) => false,
                Ok(ScheduledWorkOutcome::Waiting { next, observed_at }) => {
                    &&& next == old(schedule)@[0]
                    &&& observed_at@ < next.scheduled_at@
                    &&& call_ensures(C::now, (clock,), observed_at)
                    &&& final(schedule)@ == old(schedule)@
                    &&& old(self).unchanged(final(self))
                },
                Ok(ScheduledWorkOutcome::Completed { scheduled_work, observed_at, state }) => {
                    &&& scheduled_work == old(schedule)@[0]
                    &&& observed_at@ >= scheduled_work.scheduled_at@
                    &&& call_ensures(C::now, (clock,), observed_at)
                    &&& final(schedule)@ == old(schedule)@.drop_first()
                    &&& work_effect(
                        *old(self),
                        *final(self),
                        scheduled_work.application_id,
                        Ok(state),
                    )
                },
                Err(error) => {
                    &&& error.scheduled_work == old(schedule)@[0]
                    &&& error.observed_at@ >= error.scheduled_work.scheduled_at@
                    &&& call_ensures(C::now, (clock,), error.observed_at)
                    &&& final(schedule)@ == old(schedule)@.drop_first()
                    &&& work_effect(
                        *old(self),
                        *final(self),
                        error.scheduled_work.application_id,
                        Err(error.work_error),
                    )
                },
            },
    {
        let (scheduled_work, observed_at) = match take_due_item(schedule, clock) {
            Ok(due) => due,
            Err(outcome) => {
                return Ok(outcome);
            },
        };
        match self.work(scheduled_work.application_id) {
            Ok(state) => Ok(ScheduledWorkOutcome::Completed { scheduled_work, observed_at, state }),
            Err(work_error) => Err(ScheduledWorkError { scheduled_work, observed_at, work_error }),
        }
    }
}

/// Decides whether the next item of a schedule is due and, if so, consumes it.
///
/// An empty schedule yields `Complete` without reading the clock. Otherwise
/// the clock is read once: an item not yet due yields `Waiting` and leaves
/// the schedule as it was; a due or overdue item is consumed and returned
/// with the observed instant.
pub(crate) fn take_due_item<C: Clock + ?Sized>(schedule: &mut WorkSchedule, clock: &C) -> (decision:
    Result<(ScheduledWork, FrameworkInstant), ScheduledWorkOutcome>)
    requires
        old(schedule).wf(),
    ensures
        final(schedule).wf(),
        old(schedule)@.len() == 0 ==> {
            &&& decision == Err::<(ScheduledWork, FrameworkInstant), _>(ScheduledWorkOutcome::Complete)
            &&& final(schedule)@ == old(schedule)@
        },
        old(schedule)@.len() > 0 ==> match decision {
            Err(ScheduledWorkOutcome::Waiting { next, observed_at }) => {
                &&& next == old(schedule)@[0]
                &&& observed_at@ < next.scheduled_at@
                &&& final(schedule)@ == old(schedule)@
                &&& call_ensures(C::now, (clock,), observed_at)
            },
            Err(_) => false,
            Ok((scheduled_work, observed_at)) => {
                &&& scheduled_work == old(schedule)@[0]
                &&& observed_at@ >= scheduled_work.scheduled_at@
                &&& final(schedule)@ == old(schedule)@.drop_first()
                &&& call_ensures(C::now, (clock,), observed_at)
            },
        },
{
    if schedule.is_complete() {
        return Err(ScheduledWorkOutcome::Complete);
    }
    let observed_at = clock.now();
    decide_due(schedule, observed_at)
}

/// Decides, for one clock reading, whether the next item is due and, if so,
/// consumes it.
///
/// An empty schedule yields `Complete`. An item scheduled after the reading
/// yields `Waiting` with that reading and leaves the schedule unchanged; an
/// item due at or before the reading is consumed and returned with it.
pub(crate) fn decide_due(schedule: &mut WorkSchedule, observed_at: FrameworkInstant) -> (decision:
    Result<(ScheduledWork, FrameworkInstant), ScheduledWorkOutcome>)
    requires
        old(schedule).wf(),
    ensures
        final(schedule).wf(),
        old(schedule)@.len() == 0 ==> {
            &&& decision == Err::<(ScheduledWork, FrameworkInstant), _>(ScheduledWorkOutcome::Complete)
            &&& final(schedule)@ == old(schedule)@
        },
        old(schedule)@.len() > 0 && observed_at@ < old(schedule)@[0].scheduled_at@ ==> {
            &&& decision == Err::<(ScheduledWork, FrameworkInstant), _>(
                ScheduledWorkOutcome::Waiting { next: old(schedule)@[0], observed_at },
            )
            &&& final(schedule)@ == old(schedule)@
        },
        old(schedule)@.len() > 0 && observed_at@ >= old(schedule)@[0].scheduled_at@ ==> {
            &&& decision == Ok::<_, ScheduledWorkOutcome>((old(schedule)@[0], observed_at))
            &&& final(schedule)@ == old(schedule)@.drop_first()
        },
{
    let scheduled_work = match schedule.next() {
        None => {
            return Err(ScheduledWorkOutcome::Complete);
        },
        Some(item) => item,
    };
    if observed_at.is_before(scheduled_work.scheduled_at) {
        return Err(ScheduledWorkOutcome::Waiting { next: scheduled_work, observed_at });
    }
    schedule.consume_next();
    Ok((scheduled_work, observed_at))
}

/// Items are attempted in agenda order: the item a call attempts or waits on
/// is never later than any item still pending after it.
pub proof fn lemma_attempt_order(remaining: Seq<ScheduledWork>)
    requires
        agenda_ordered(remaining),
        remaining.len() > 0,
    ensures
        forall|i: int|
            0 <= i < remaining.drop_first().len() ==> remaining[0].scheduled_at@
                <= #[trigger] remaining.drop_first()[i].scheduled_at@,
        agenda_ordered(remaining.drop_first()),
{
    assert forall|i: int| 0 <= i < remaining.drop_first().len() implies remaining[0].scheduled_at@
        <= #[trigger] remaining.drop_first()[i].scheduled_at@ by {
        assert(remaining.drop_first()[i] == remaining[i + 1]);
    }
}

} // verus!
