//! Owned application lifecycle execution.
//!
//! The runtime owns mission-selected application values and executes start,
//! caller-selected work, stop, and in-place restart synchronously. Lifecycle
//! validation happens before any application code runs; a callback error is
//! preserved and moves only the selected record to terminal `Failed`.
use vstd::prelude::*;

use crate::lifecycle::{
    lc1_next, lifecycle_result, next_state, state_query, ApplicationId, ApplicationState,
    LifecycleError, LifecycleOperation,
};

verus! {

/// The behavior the owned runtime invokes for one application.
///
/// The runtime calls these synchronously and starts no hidden work. A
/// returned error is preserved by the runtime and moves the application's
/// record to terminal `Failed`.
pub trait Application {
    /// The error returned by this application's start operation.
    type StartError;

    /// The error returned by this application's work operation.
    type WorkError;

    /// The error returned by this application's stop operation.
    type StopError;

    /// The error returned by this application's restart operation.
    type RestartError;

    /// Attempts to start the application.
    fn start(&mut self) -> Result<(), Self::StartError>;

    /// Performs one unit of caller-selected work while running.
    fn work(&mut self) -> Result<(), Self::WorkError>;

    /// Attempts to stop the application.
    fn stop(&mut self) -> Result<(), Self::StopError>;

    /// Attempts to restart the stopped application in place, with the same
    /// application value retained across its start and stop.
    fn restart(&mut self) -> Result<(), Self::RestartError>;
}

/// Failure to construct bounded owned runtime storage.
#[derive(Clone, Copy, Debug, PartialEq, Eq, Structural)]
pub enum RuntimeCreateError {
    /// The configured capacity was zero.
    ZeroCapacity,
    /// Storage for the configured number of records could not be reserved.
    CapacityAllocationFailed {
        /// Requested number of owned application records.
        requested: usize,
    },
}

/// A full runtime rejected an application while preserving caller ownership.
#[derive(Debug)]
pub struct RuntimeRegistrationError<A> {
    capacity: usize,
    application: A,
}

impl<A> RuntimeRegistrationError<A> {
    /// The configured limit that was already full.
    pub closed spec fn full_capacity(&self) -> usize {
        self.capacity
    }

    /// The application value that was not registered.
    pub closed spec fn rejected(&self) -> A {
        self.application
    }

    /// Returns the configured application limit that was already full.
    pub fn capacity(&self) -> (capacity: usize)
        ensures
            capacity == self.full_capacity(),
    {
        self.capacity
    }

    /// Borrows the application value that was not registered.
    pub fn application(&self) -> (application: &A)
        ensures
            *application == self.rejected(),
    {
        &self.application
    }

    /// Returns ownership of the application value that was not registered.
    pub fn into_application(self) -> (application: A)
        ensures
            application == self.rejected(),
    {
        self.application
    }
}

/// A runtime start request rejected by lifecycle or failed by the application.
#[derive(Debug, PartialEq, Eq, Structural)]
pub enum RuntimeStartError<E> {
    /// Lifecycle validation rejected the request before application code ran.
    Lifecycle(LifecycleError),
    /// Application start returned an error.
    Application {
        /// Identity of the application that returned the error.
        application_id: ApplicationId,
        /// The error returned by the application.
        source: E,
    },
}

/// A runtime work request rejected by lifecycle or failed by the application.
#[derive(Debug, PartialEq, Eq, Structural)]
pub enum RuntimeWorkError<E> {
    /// Identity or running-state validation rejected the request.
    Lifecycle(LifecycleError),
    /// Application work returned an error.
    Application {
        /// Identity of the application that returned the error.
        application_id: ApplicationId,
        /// The error returned by the application.
        source: E,
    },
}

/// A runtime stop request rejected by lifecycle or failed by the application.
#[derive(Debug, PartialEq, Eq, Structural)]
pub enum RuntimeStopError<E> {
    /// Lifecycle validation rejected the request before application code ran.
    Lifecycle(LifecycleError),
    /// Application stop returned an error.
    Application {
        /// Identity of the application that returned the error.
        application_id: ApplicationId,
        /// The error returned by the application.
        source: E,
    },
}

/// A runtime restart request rejected by lifecycle or failed by the application.
#[derive(Debug, PartialEq, Eq, Structural)]
pub enum RuntimeRestartError<E> {
    /// Lifecycle validation rejected the request before application code ran.
    Lifecycle(LifecycleError),
    /// Application restart returned an error.
    Application {
        /// Identity of the application that returned the error.
        application_id: ApplicationId,
        /// The error returned by the application.
        source: E,
    },
}

/// The lifecycle rejection of a work request, if any: an unknown identity,
/// or a record that is not `Running`.
pub open spec fn work_rejection(states: Seq<ApplicationState>, application_id: ApplicationId) -> Option<
    LifecycleError,
> {
    if application_id.0 >= states.len() {
        Some(LifecycleError::UnknownApplication { application_id })
    } else if states[application_id.0 as int] != ApplicationState::Running {
        Some(
            LifecycleError::NotRunning {
                application_id,
                state: states[application_id.0 as int],
            },
        )
    } else {
        None
    }
}

/// The records after a callback on `application_id` ran: its state is
/// `committed`, its value may have changed, and every other record is
/// untouched.
pub open spec fn callback_committed<A>(
    before_states: Seq<ApplicationState>,
    before_applications: Seq<A>,
    after_states: Seq<ApplicationState>,
    after_applications: Seq<A>,
    application_id: ApplicationId,
    committed: ApplicationState,
) -> bool {
    &&& after_states == before_states.update(application_id.0 as int, committed)
    &&& after_applications.len() == before_applications.len()
    &&& forall|i: int|
        0 <= i < before_applications.len() && i != application_id.0 ==> #[trigger] after_applications[i]
            == before_applications[i]
}

#[derive(Debug)]
struct RuntimeRecord<A> {
    state: ApplicationState,
    application: A,
}

/// A finite-capacity, caller-driven owner of application values.
///
/// Identities are registration positions and are never reused. Construction
/// reserves storage for the configured record count.
#[derive(Debug)]
pub struct Runtime<A> {
    records: Vec<RuntimeRecord<A>>,
    max_applications: usize,
}

impl<A> View for Runtime<A> {
    type V = Seq<ApplicationState>;

    closed spec fn view(&self) -> Seq<ApplicationState> {
        self.records@.map_values(|record: RuntimeRecord<A>| record.state)
    }
}

impl<A> Runtime<A> {
    /// The owned application values in registration order.
    pub closed spec fn applications(&self) -> Seq<A> {
        self.records@.map_values(|record: RuntimeRecord<A>| record.application)
    }

    /// The configured application limit.
    pub closed spec fn limit(&self) -> usize {
        self.max_applications
    }

    /// The runtime holds one value per record and at most its positive limit.
    pub open spec fn wf(&self) -> bool {
        &&& 0 < self.limit()
        &&& self@.len() <= self.limit()
        &&& self.applications().len() == self@.len()
    }

    proof fn lemma_lengths(&self)
        ensures
            self.applications().len() == self@.len(),
            self@.len() == self.records@.len(),
    {
    }

    /// Creates owned runtime storage with a positive fixed record capacity.
    pub fn new(max_applications: usize) -> (result: Result<Self, RuntimeCreateError>)
        ensures
            max_applications == 0 <==> result == Err::<Self, _>(RuntimeCreateError::ZeroCapacity),
            result matches Ok(runtime) ==> {
                &&& runtime.wf()
                &&& runtime@ == Seq::<ApplicationState>::empty()
                &&& runtime.limit() == max_applications
            },
            result matches Err(RuntimeCreateError::CapacityAllocationFailed { requested }) ==> {
                &&& requested == max_applications
                &&& max_applications > 0
            },
    {
        if max_applications == 0 {
            return Err(RuntimeCreateError::ZeroCapacity);
        }
        let mut records: Vec<RuntimeRecord<A>> = Vec::new();
        if !crate::storage::reserve_vec(&mut records, max_applications) {
            return Err(RuntimeCreateError::CapacityAllocationFailed { requested: max_applications });
        }
        let runtime = Runtime { records, max_applications };
        proof {
            assert(runtime@ =~= Seq::<ApplicationState>::empty());
            assert(runtime.applications() =~= Seq::<A>::empty());
        }
        Ok(runtime)
    }

    /// Returns the configured owned application limit.
    pub fn capacity(&self) -> (capacity: usize)
        ensures
            capacity == self.limit(),
    {
        self.max_applications
    }

    /// Returns the number of applications owned by this runtime.
    pub fn len(&self) -> (len: usize)
        ensures
            len == self@.len(),
    {
        self.records.len()
    }

    /// Returns whether this runtime owns no applications.
    pub fn is_empty(&self) -> (empty: bool)
        ensures
            empty == (self@.len() == 0),
    {
        self.records.len() == 0
    }

    /// Transfers an application into the runtime in `Registered`.
    ///
    /// A full runtime returns the rejected value without changing any record.
    pub fn register(&mut self, application: A) -> (result: Result<
        ApplicationId,
        RuntimeRegistrationError<A>,
    >)
        ensures
            final(self).limit() == old(self).limit(),
            old(self).wf() ==> final(self).wf(),
            old(self)@.len() >= old(self).limit() ==> {
                &&& result matches Err(error) && error.full_capacity() == old(self).limit()
                    && error.rejected() == application
                &&& final(self)@ == old(self)@
                &&& final(self).applications() == old(self).applications()
            },
            old(self)@.len() < old(self).limit() ==> {
                &&& result == Ok::<_, RuntimeRegistrationError<A>>(
                    ApplicationId(old(self)@.len() as usize),
                )
                &&& final(self)@ == old(self)@.push(ApplicationState::Registered)
                &&& final(self).applications() == old(self).applications().push(application)
            },
    {
        if self.records.len() >= self.max_applications {
            return Err(RuntimeRegistrationError { capacity: self.max_applications, application });
        }
        let application_id = ApplicationId(self.records.len());
        self.records.push(RuntimeRecord { state: ApplicationState::Registered, application });
        proof {
            assert(self@ =~= old(self)@.push(ApplicationState::Registered));
            assert(self.applications() =~= old(self).applications().push(application));
        }
        Ok(application_id)
    }

    /// Returns the current state of an owned application.
    pub fn state(&self, application_id: ApplicationId) -> (result: Result<
        ApplicationState,
        LifecycleError,
    >)
        ensures
            result == state_query(self@, application_id),
    {
        if application_id.0 < self.records.len() {
            Ok(self.records[application_id.0].state)
        } else {
            Err(LifecycleError::UnknownApplication { application_id })
        }
    }

    /// Returns the first record, in registration order, that has left
    /// `Registered`, with its state.
    pub(crate) fn first_non_registered(&self) -> (found: Option<(ApplicationId, ApplicationState)>)
        ensures
            found matches Some((application_id, state)) ==> {
                &&& application_id.0 < self@.len()
                &&& state == self@[application_id.0 as int]
                &&& state != ApplicationState::Registered
                &&& forall|i: int|
                    0 <= i < application_id.0 ==> #[trigger] self@[i]
                        == ApplicationState::Registered
            },
            found is None ==> forall|i: int|
                0 <= i < self@.len() ==> #[trigger] self@[i] == ApplicationState::Registered,
    {
        let mut index: usize = 0;
        while index < self.records.len()
            invariant
                index <= self@.len(),
                self@.len() == self.records@.len(),
                forall|i: int| 0 <= i < index ==> #[trigger] self@[i] == ApplicationState::Registered,
            decreases self@.len() - index,
        {
            let state = self.records[index].state;
            if state != ApplicationState::Registered {
                return Some((ApplicationId(index), state));
            }
            index = index + 1;
        }
        None
    }

    /// Overwrites `states` with a snapshot of every record's lifecycle state.
    pub(crate) fn copy_states_into(&self, states: &mut Vec<ApplicationState>)
        ensures
            final(states)@ == self@,
    {
        states.clear();
        let mut index: usize = 0;
        while index < self.records.len()
            invariant
                index <= self@.len(),
                self@.len() == self.records@.len(),
                states@ == self@.subrange(0, index as int),
            decreases self@.len() - index,
        {
            states.push(self.records[index].state);
            index = index + 1;
            proof {
                assert(states@ =~= self@.subrange(0, index as int));
            }
        }
        proof {
            assert(self@.subrange(0, self@.len() as int) =~= self@);
        }
    }

    /// Commits a lifecycle state for one existing record.
    pub(crate) fn commit_state(&mut self, application_id: ApplicationId, state: ApplicationState)
        requires
            application_id.0 < old(self)@.len(),
        ensures
            final(self)@ == old(self)@.update(application_id.0 as int, state),
            final(self).applications() == old(self).applications(),
            final(self).limit() == old(self).limit(),
    {
        self.records[application_id.0].state = state;
        proof {
            assert(self@ =~= old(self)@.update(application_id.0 as int, state));
            assert(self.applications() =~= old(self).applications());
        }
    }

    /// Mutably borrows one owned application value.
    pub(crate) fn application_mut(&mut self, application_id: ApplicationId) -> (application: &mut A)
        requires
            application_id.0 < old(self)@.len(),
        ensures
            *application == old(self).applications()[application_id.0 as int],
            final(self)@ == old(self)@,
            final(self).limit() == old(self).limit(),
            final(self).applications() == old(self).applications().update(
                application_id.0 as int,
                *final(application),
            ),
    {
        let record = &mut self.records[application_id.0];
        &mut record.application
    }
}

/// The lifecycle rejection of a start, stop, or restart request, if any.
pub open spec fn lifecycle_rejection(
    states: Seq<ApplicationState>,
    application_id: ApplicationId,
    operation: LifecycleOperation,
) -> Option<LifecycleError> {
    match lifecycle_result(states, application_id, operation) {
        Err(error) => Some(error),
        Ok(_) => None,
    }
}

impl<A> Runtime<A> {
    /// Nothing observable changed.
    pub open spec fn unchanged(&self, after: &Self) -> bool {
        &&& after@ == self@
        &&& after.applications() == self.applications()
        &&& after.limit() == self.limit()
    }

    /// A callback on `application_id` ran and `state` was committed for it;
    /// no other record changed.
    pub open spec fn committed(&self, after: &Self, application_id: ApplicationId, state: ApplicationState) -> bool {
        &&& application_id.0 < self@.len()
        &&& callback_committed(
            self@,
            self.applications(),
            after@,
            after.applications(),
            application_id,
            state,
        )
        &&& after.limit() == self.limit()
    }
}

/// A record that reached `Failed` rejects every later lifecycle operation
/// and every work request before application code runs.
pub proof fn lemma_failed_record_rejects_everything(
    states: Seq<ApplicationState>,
    application_id: ApplicationId,
    operation: LifecycleOperation,
)
    requires
        application_id.0 < states.len(),
        states[application_id.0 as int] == ApplicationState::Failed,
    ensures
        lifecycle_rejection(states, application_id, operation) == Some(
            LifecycleError::InvalidTransition {
                application_id,
                state: ApplicationState::Failed,
                operation,
            },
        ),
        work_rejection(states, application_id) == Some(
            LifecycleError::NotRunning { application_id, state: ApplicationState::Failed },
        ),
{
}

/// What a runtime start request did: a rejection before application code ran
/// changes nothing; otherwise the callback ran on the selected application
/// only and `Running` or terminal `Failed` was committed for it.
pub open spec fn start_effect<A: Application>(
    before: Runtime<A>,
    after: Runtime<A>,
    application_id: ApplicationId,
    result: Result<ApplicationState, RuntimeStartError<A::StartError>>,
) -> bool {
    match lifecycle_rejection(before@, application_id, LifecycleOperation::Start) {
        Some(error) => {
            &&& result == Err::<ApplicationState, _>(RuntimeStartError::<A::StartError>::Lifecycle(error))
            &&& before.unchanged(&after)
        },
        None => match result {
            Ok(state) => state == ApplicationState::Running && before.committed(
                &after,
                application_id,
                ApplicationState::Running,
            ),
            Err(RuntimeStartError::Application { application_id: failed, .. }) => failed == application_id
                && before.committed(&after, application_id, ApplicationState::Failed),
            Err(RuntimeStartError::Lifecycle(_)) => false,
        },
    }
}

/// What a runtime work request did: a rejection before application code ran
/// changes nothing; otherwise the callback ran on the selected application
/// only and `Running` or terminal `Failed` was committed for it.
pub open spec fn work_effect<A: Application>(
    before: Runtime<A>,
    after: Runtime<A>,
    application_id: ApplicationId,
    result: Result<ApplicationState, RuntimeWorkError<A::WorkError>>,
) -> bool {
    match work_rejection(before@, application_id) {
        Some(error) => {
            &&& result == Err::<ApplicationState, _>(RuntimeWorkError::<A::WorkError>::Lifecycle(error))
            &&& before.unchanged(&after)
        },
        None => match result {
            Ok(state) => state == ApplicationState::Running && before.committed(
                &after,
                application_id,
                ApplicationState::Running,
            ),
            Err(RuntimeWorkError::Application { application_id: failed, .. }) => failed == application_id
                && before.committed(&after, application_id, ApplicationState::Failed),
            Err(RuntimeWorkError::Lifecycle(_)) => false,
        },
    }
}

/// What a runtime stop request did: a rejection before application code ran
/// changes nothing; otherwise the callback ran on the selected application
/// only and `Stopped` or terminal `Failed` was committed for it.
pub open spec fn stop_effect<A: Application>(
    before: Runtime<A>,
    after: Runtime<A>,
    application_id: ApplicationId,
    result: Result<ApplicationState, RuntimeStopError<A::StopError>>,
) -> bool {
    match lifecycle_rejection(before@, application_id, LifecycleOperation::Stop) {
        Some(error) => {
            &&& result == Err::<ApplicationState, _>(RuntimeStopError::<A::StopError>::Lifecycle(error))
            &&& before.unchanged(&after)
        },
        None => match result {
            Ok(state) => state == ApplicationState::Stopped && before.committed(
                &after,
                application_id,
                ApplicationState::Stopped,
            ),
            Err(RuntimeStopError::Application { application_id: failed, .. }) => failed == application_id
                && before.committed(&after, application_id, ApplicationState::Failed),
            Err(RuntimeStopError::Lifecycle(_)) => false,
        },
    }
}

/// What a runtime restart request did: a rejection before application code ran
/// changes nothing; otherwise the callback ran on the selected application
/// only and `Running` or terminal `Failed` was committed for it.
pub open spec fn restart_effect<A: Application>(
    before: Runtime<A>,
    after: Runtime<A>,
    application_id: ApplicationId,
    result: Result<ApplicationState, RuntimeRestartError<A::RestartError>>,
) -> bool {
    match lifecycle_rejection(before@, application_id, LifecycleOperation::Restart) {
        Some(error) => {
            &&& result == Err::<ApplicationState, _>(RuntimeRestartError::<A::RestartError>::Lifecycle(error))
            &&& before.unchanged(&after)
        },
        None => match result {
            Ok(state) => state == ApplicationState::Running && before.committed(
                &after,
                application_id,
                ApplicationState::Running,
            ),
            Err(RuntimeRestartError::Application { application_id: failed, .. }) => failed == application_id
                && before.committed(&after, application_id, ApplicationState::Failed),
            Err(RuntimeRestartError::Lifecycle(_)) => false,
        },
    }
}

impl<A: Application> Runtime<A> {
    /// Invokes application start after validating `Registered -> Running`.
    ///
    /// Success commits `Running`; a returned application error is preserved
    /// and commits terminal `Failed`. Invalid or unknown requests are
    /// rejected before application code runs.
    pub fn start(&mut self, application_id: ApplicationId) -> (result: Result<
        ApplicationState,
        RuntimeStartError<A::StartError>,
    >)
        ensures
            old(self).wf() ==> final(self).wf(),
            start_effect(*old(self), *final(self), application_id, result),
    {
        proof {
            self.lemma_lengths();
        }
        if application_id.0 >= self.records.len() {
            return Err(
                RuntimeStartError::Lifecycle(LifecycleError::UnknownApplication { application_id }),
            );
        }
        let current = self.records[application_id.0].state;
        match next_state(current, LifecycleOperation::Start) {
            Some(ApplicationState::Running) => {},
            _ => {
                return Err(
                    RuntimeStartError::Lifecycle(
                        LifecycleError::InvalidTransition {
                            application_id,
                            state: current,
                            operation: LifecycleOperation::Start,
                        },
                    ),
                );
            },
        }
        let outcome = self.application_mut(application_id).start();
        self.finish_start(application_id, outcome)
    }

    /// Invokes one work callback for a running application.
    ///
    /// Success keeps `Running`; a returned application error is preserved
    /// and commits terminal `Failed`. An unknown identity or a record that is
    /// not running is rejected before application code runs.
    pub fn work(&mut self, application_id: ApplicationId) -> (result: Result<
        ApplicationState,
        RuntimeWorkError<A::WorkError>,
    >)
        ensures
            old(self).wf() ==> final(self).wf(),
            work_effect(*old(self), *final(self), application_id, result),
    {
        proof {
            self.lemma_lengths();
        }
        if application_id.0 >= self.records.len() {
            return Err(
                RuntimeWorkError::Lifecycle(LifecycleError::UnknownApplication { application_id }),
            );
        }
        let current = self.records[application_id.0].state;
        match current {
            ApplicationState::Running => {},
            _ => {
                return Err(
                    RuntimeWorkError::Lifecycle(
                        LifecycleError::NotRunning { application_id, state: current },
                    ),
                );
            },
        }
        let outcome = self.application_mut(application_id).work();
        self.finish_work(application_id, outcome)
    }

    /// Invokes application stop after validating `Running -> Stopped`.
    ///
    /// Success commits `Stopped`; a returned application error is preserved
    /// and commits terminal `Failed`. Invalid or unknown requests are
    /// rejected before application code runs.
    pub fn stop(&mut self, application_id: ApplicationId) -> (result: Result<
        ApplicationState,
        RuntimeStopError<A::StopError>,
    >)
        ensures
            old(self).wf() ==> final(self).wf(),
            stop_effect(*old(self), *final(self), application_id, result),
    {
        proof {
            self.lemma_lengths();
        }
        if application_id.0 >= self.records.len() {
            return Err(
                RuntimeStopError::Lifecycle(LifecycleError::UnknownApplication { application_id }),
            );
        }
        let current = self.records[application_id.0].state;
        match next_state(current, LifecycleOperation::Stop) {
            Some(ApplicationState::Stopped) => {},
            _ => {
                return Err(
                    RuntimeStopError::Lifecycle(
                        LifecycleError::InvalidTransition {
                            application_id,
                            state: current,
                            operation: LifecycleOperation::Stop,
                        },
                    ),
                );
            },
        }
        let outcome = self.application_mut(application_id).stop();
        self.finish_stop(application_id, outcome)
    }

    /// Invokes application restart after validating `Stopped -> Running`.
    ///
    /// The callback receives the same application value retained across its
    /// start and stop. Success commits `Running`; a returned application
    /// error is preserved and commits terminal `Failed`.
    pub fn restart(&mut self, application_id: ApplicationId) -> (result: Result<
        ApplicationState,
        RuntimeRestartError<A::RestartError>,
    >)
        ensures
            old(self).wf() ==> final(self).wf(),
            restart_effect(*old(self), *final(self), application_id, result),
    {
        proof {
            self.lemma_lengths();
        }
        if application_id.0 >= self.records.len() {
            return Err(
                RuntimeRestartError::Lifecycle(
                    LifecycleError::UnknownApplication { application_id },
                ),
            );
        }
        let current = self.records[application_id.0].state;
        match next_state(current, LifecycleOperation::Restart) {
            Some(ApplicationState::Running) => {},
            _ => {
                return Err(
                    RuntimeRestartError::Lifecycle(
                        LifecycleError::InvalidTransition {
                            application_id,
                            state: current,
                            operation: LifecycleOperation::Restart,
                        },
                    ),
                );
            },
        }
        let outcome = self.application_mut(application_id).restart();
        self.finish_restart(application_id, outcome)
    }

    /// Commits the outcome of a start callback: success commits `Running`
    /// and returns it; a returned error commits terminal `Failed` and is
    /// returned unchanged inside the runtime error.
    pub(crate) fn finish_start(
        &mut self,
        application_id: ApplicationId,
        outcome: Result<(), A::StartError>,
    ) -> (result: Result<ApplicationState, RuntimeStartError<A::StartError>>)
        requires
            application_id.0 < old(self)@.len(),
        ensures
            outcome is Ok ==> {
                &&& result == Ok::<ApplicationState, RuntimeStartError<A::StartError>>(ApplicationState::Running)
                &&& old(self).committed(&*final(self), application_id, ApplicationState::Running)
            },
            outcome matches Err(source) ==> {
                &&& result == Err::<ApplicationState, _>(
                    RuntimeStartError::<A::StartError>::Application { application_id, source },
                )
                &&& old(self).committed(&*final(self), application_id, ApplicationState::Failed)
            },
            final(self).applications() == old(self).applications(),
    {
        proof {
            self.lemma_lengths();
        }
        match outcome {
            Ok(()) => {
                self.commit_state(application_id, ApplicationState::Running);
                Ok(ApplicationState::Running)
            },
            Err(source) => {
                self.commit_state(application_id, ApplicationState::Failed);
                Err(RuntimeStartError::Application { application_id, source })
            },
        }
    }

    /// Commits the outcome of a work callback: success commits `Running`
    /// and returns it; a returned error commits terminal `Failed` and is
    /// returned unchanged inside the runtime error.
    pub(crate) fn finish_work(
        &mut self,
        application_id: ApplicationId,
        outcome: Result<(), A::WorkError>,
    ) -> (result: Result<ApplicationState, RuntimeWorkError<A::WorkError>>)
        requires
            application_id.0 < old(self)@.len(),
        ensures
            outcome is Ok ==> {
                &&& result == Ok::<ApplicationState, RuntimeWorkError<A::WorkError>>(ApplicationState::Running)
                &&& old(self).committed(&*final(self), application_id, ApplicationState::Running)
            },
            outcome matches Err(source) ==> {
                &&& result == Err::<ApplicationState, _>(
                    RuntimeWorkError::<A::WorkError>::Application { application_id, source },
                )
                &&& old(self).committed(&*final(self), application_id, ApplicationState::Failed)
            },
            final(self).applications() == old(self).applications(),
    {
        proof {
            self.lemma_lengths();
        }
        match outcome {
            Ok(()) => {
                self.commit_state(application_id, ApplicationState::Running);
                Ok(ApplicationState::Running)
            },
            Err(source) => {
                self.commit_state(application_id, ApplicationState::Failed);
                Err(RuntimeWorkError::Application { application_id, source })
            },
        }
    }

    /// Commits the outcome of a stop callback: success commits `Stopped`
    /// and returns it; a returned error commits terminal `Failed` and is
    /// returned unchanged inside the runtime error.
    pub(crate) fn finish_stop(
        &mut self,
        application_id: ApplicationId,
        outcome: Result<(), A::StopError>,
    ) -> (result: Result<ApplicationState, RuntimeStopError<A::StopError>>)
        requires
            application_id.0 < old(self)@.len(),
        ensures
            outcome is Ok ==> {
                &&& result == Ok::<ApplicationState, RuntimeStopError<A::StopError>>(ApplicationState::Stopped)
                &&& old(self).committed(&*final(self), application_id, ApplicationState::Stopped)
            },
            outcome matches Err(source) ==> {
                &&& result == Err::<ApplicationState, _>(
                    RuntimeStopError::<A::StopError>::Application { application_id, source },
                )
                &&& old(self).committed(&*final(self), application_id, ApplicationState::Failed)
            },
            final(self).applications() == old(self).applications(),
    {
        proof {
            self.lemma_lengths();
        }
        match outcome {
            Ok(()) => {
                self.commit_state(application_id, ApplicationState::Stopped);
                Ok(ApplicationState::Stopped)
            },
            Err(source) => {
                self.commit_state(application_id, ApplicationState::Failed);
                Err(RuntimeStopError::Application { application_id, source })
            },
        }
    }

    /// Commits the outcome of a restart callback: success commits `Running`
    /// and returns it; a returned error commits terminal `Failed` and is
    /// returned unchanged inside the runtime error.
    pub(crate) fn finish_restart(
        &mut self,
        application_id: ApplicationId,
        outcome: Result<(), A::RestartError>,
    ) -> (result: Result<ApplicationState, RuntimeRestartError<A::RestartError>>)
        requires
            application_id.0 < old(self)@.len(),
        ensures
            outcome is Ok ==> {
                &&& result == Ok::<ApplicationState, RuntimeRestartError<A::RestartError>>(ApplicationState::Running)
                &&& old(self).committed(&*final(self), application_id, ApplicationState::Running)
            },
            outcome matches Err(source) ==> {
                &&& result == Err::<ApplicationState, _>(
                    RuntimeRestartError::<A::RestartError>::Application { application_id, source },
                )
                &&& old(self).committed(&*final(self), application_id, ApplicationState::Failed)
            },
            final(self).applications() == old(self).applications(),
    {
        proof {
            self.lemma_lengths();
        }
        match outcome {
            Ok(()) => {
                self.commit_state(application_id, ApplicationState::Running);
                Ok(ApplicationState::Running)
            },
            Err(source) => {
                self.commit_state(application_id, ApplicationState::Failed);
                Err(RuntimeRestartError::Application { application_id, source })
            },
        }
    }
}

} // verus!
