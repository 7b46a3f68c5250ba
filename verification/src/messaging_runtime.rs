//! Runtime ownership of lifecycle-aware message availability.
//!
//! A messaging runtime couples one fresh bounded inbox to every application
//! of a fully registered [`Runtime`]. Only running applications accept
//! deliveries. Stop and returned callback errors clear the selected inbox
//! before returning; a successful restart reconnects the already-empty inbox.
use vstd::laws_eq::obeys_concrete_eq;
use vstd::prelude::*;

use crate::application_messaging::{
    inboxes_only_appended, only_running_hold_deliveries, running_availability,
    ApplicationMessageContext, MessageDispatchError, MessageDispatchOutcome, MessagingApplication,
};
use crate::clock::Clock;
use crate::events::EventQueue;
use crate::lifecycle::{state_query, ApplicationId, ApplicationState, LifecycleError};
use crate::messaging::{
    bus_creation_result, first_topology_error, publication, runtime_config_views, InboxAccessError, Message, MessageBus,
    MessageBusCreateError, PublishError, PublishReport, RuntimeInboxConfig,
};
use crate::runtime::{
    restart_effect, start_effect, stop_effect, work_effect, work_rejection, Application, Runtime,
    RuntimeRestartError, RuntimeStartError, RuntimeStopError, RuntimeWorkError,
};
use crate::runtime_events::{attempt_failure_event, failure_event_reported, RuntimeWorkEventError};
use crate::scheduling::{take_due_item, ScheduledWorkError, ScheduledWorkOutcome, WorkSchedule};

verus! {

/// The reason a runtime could not take ownership of a message topology.
#[derive(Clone, Copy, Debug, PartialEq, Eq, Structural)]
pub enum MessagingRuntimeCreateErrorKind {
    /// The topology did not provide exactly one inbox per application.
    InboxCountMismatch {
        /// Number of application records owned by the runtime.
        applications: usize,
        /// Number of supplied inbox configurations.
        inboxes: usize,
    },
    /// An application had already left its initial registered state.
    ApplicationNotRegistered {
        /// Identity of the first record that was not attachable.
        application_id: ApplicationId,
        /// Its state.
        state: ApplicationState,
    },
    /// The fresh message topology was invalid or could not be reserved.
    MessageBus(MessageBusCreateError),
    /// Storage for one lifecycle-state snapshot entry per application could
    /// not be reserved.
    DispatchStateStorageAllocationFailed {
        /// Requested number of application-state entries.
        requested: usize,
    },
}

/// Failed lifecycle-aware messaging construction with the runtime preserved.
#[derive(Debug)]
pub struct MessagingRuntimeCreateError<A> {
    kind: MessagingRuntimeCreateErrorKind,
    runtime: Runtime<A>,
}

impl<A> MessagingRuntimeCreateError<A> {
    /// The construction failure.
    pub closed spec fn failure(&self) -> MessagingRuntimeCreateErrorKind {
        self.kind
    }

    /// The unchanged runtime that could not be attached.
    pub closed spec fn preserved(&self) -> Runtime<A> {
        self.runtime
    }

    /// Returns the construction failure.
    pub fn kind(&self) -> (kind: MessagingRuntimeCreateErrorKind)
        ensures
            kind == self.failure(),
    {
        self.kind
    }

    /// Borrows the unchanged runtime that could not be attached.
    pub fn runtime(&self) -> (runtime: &Runtime<A>)
        ensures
            *runtime == self.preserved(),
    {
        &self.runtime
    }

    /// Returns ownership of the unchanged runtime.
    pub fn into_runtime(self) -> (runtime: Runtime<A>)
        ensures
            runtime == self.preserved(),
    {
        self.runtime
    }
}

/// A lifecycle or callback error plus the deliveries cleared by that operation.
#[derive(Debug, PartialEq, Eq, Structural)]
pub struct MessagingOperationError<E> {
    /// The initial operation-specific error.
    pub operation_error: E,
    /// The number of queued deliveries cleared by the operation.
    pub discarded_deliveries: usize,
}

impl<E> MessagingOperationError<E> {
    /// Borrows the initial operation-specific runtime error.
    pub fn operation_error(&self) -> (operation_error: &E)
        ensures
            *operation_error == self.operation_error,
    {
        &self.operation_error
    }

    /// Returns the number of queued deliveries cleared by the operation.
    pub fn discarded_deliveries(&self) -> (discarded: usize)
        ensures
            discarded == self.discarded_deliveries,
    {
        self.discarded_deliveries
    }

    /// Returns ownership of the initial operation-specific runtime error.
    pub fn into_operation_error(self) -> (operation_error: E)
        ensures
            operation_error == self.operation_error,
    {
        self.operation_error
    }
}

/// Successful stop state and its exact queue-clearing result.
#[derive(Clone, Copy, Debug, PartialEq, Eq, Structural)]
pub struct MessagingStopOutcome {
    /// The committed stopped state.
    pub state: ApplicationState,
    /// The number of queued deliveries cleared by this stop.
    pub discarded_deliveries: usize,
}

impl MessagingStopOutcome {
    /// Returns the stopped state committed before queue clearing.
    pub fn state(&self) -> (state: ApplicationState)
        ensures
            state == self.state,
    {
        self.state
    }

    /// Returns the number of queued deliveries cleared by this stop.
    pub fn discarded_deliveries(&self) -> (discarded: usize)
        ensures
            discarded == self.discarded_deliveries,
    {
        self.discarded_deliveries
    }
}

/// Two states of one bus have the same topology and identical inboxes.
pub open spec fn bus_unchanged<Topic, const MAX_PAYLOAD_BYTES: usize>(
    before: MessageBus<Topic, MAX_PAYLOAD_BYTES>,
    after: MessageBus<Topic, MAX_PAYLOAD_BYTES>,
) -> bool {
    &&& after.same_topology(&before)
    &&& forall|i: int| 0 <= i < before.endpoint_count() ==> #[trigger] after.inbox(i) == before.inbox(i)
}

/// Exactly the inbox of `application_id` was cleared, and it held `discarded`.
pub open spec fn inbox_cleared<Topic, const MAX_PAYLOAD_BYTES: usize>(
    before: MessageBus<Topic, MAX_PAYLOAD_BYTES>,
    after: MessageBus<Topic, MAX_PAYLOAD_BYTES>,
    application_id: ApplicationId,
    discarded: usize,
) -> bool {
    &&& after.same_topology(&before)
    &&& before.inboxes_unchanged_except(&after, application_id.0 as int)
    &&& discarded == before.inbox(application_id.0 as int).len()
    &&& after.inbox(application_id.0 as int) == Seq::<(Topic, Seq<u8>)>::empty()
}

/// A caller-driven runtime that owns a lifecycle-synchronized message bus.
///
/// Construction consumes a runtime whose applications are all still
/// `Registered` and creates one fresh empty inbox per record. Registration is
/// then frozen. Publication derives availability from runtime state.
#[derive(Debug)]
pub struct MessagingRuntime<A, Topic, const MAX_PAYLOAD_BYTES: usize> {
    runtime: Runtime<A>,
    message_bus: MessageBus<Topic, MAX_PAYLOAD_BYTES>,
    dispatch_states: Vec<ApplicationState>,
    callback_deliveries: usize,
}

impl<A, Topic, const MAX_PAYLOAD_BYTES: usize> MessagingRuntime<A, Topic, MAX_PAYLOAD_BYTES> {
    /// How many messages the most recent dispatched callback delivered to
    /// its own inbox.
    pub closed spec fn callback_deliveries(&self) -> nat {
        self.callback_deliveries as nat
    }

    /// The owned runtime.
    pub closed spec fn owned_runtime(&self) -> Runtime<A> {
        self.runtime
    }

    /// The owned message bus.
    pub closed spec fn bus(&self) -> MessageBus<Topic, MAX_PAYLOAD_BYTES> {
        self.message_bus
    }

    /// Snapshot storage holds one entry per application.
    pub closed spec fn snapshot_storage_wf(&self) -> bool {
        self.dispatch_states@.len() == self.runtime@.len()
    }

    /// The coupling invariant: one inbox per application, and only running
    /// applications hold queued deliveries.
    pub open spec fn wf(&self) -> bool {
        &&& self.owned_runtime().wf()
        &&& self.bus().wf()
        &&& self.bus().endpoint_count() == self.owned_runtime()@.len()
        &&& self.snapshot_storage_wf()
        &&& only_running_hold_deliveries(self.bus(), self.owned_runtime()@)
    }
}

/// Committing a state for one application keeps "only running applications
/// hold deliveries" when that application is running or its inbox is empty.
proof fn lemma_commit_keeps_availability<Topic, const MAX_PAYLOAD_BYTES: usize>(
    bus: MessageBus<Topic, MAX_PAYLOAD_BYTES>,
    states: Seq<ApplicationState>,
    application_id: ApplicationId,
    state: ApplicationState,
)
    requires
        only_running_hold_deliveries(bus, states),
        application_id.0 < states.len(),
        bus.endpoint_count() == states.len(),
        state == ApplicationState::Running || bus.inbox(application_id.0 as int).len() == 0,
    ensures
        only_running_hold_deliveries(bus, states.update(application_id.0 as int, state)),
{
    assert forall|i: int|
        0 <= i < bus.endpoint_count() && states.update(application_id.0 as int, state)[i]
            != ApplicationState::Running implies #[trigger] bus.inbox(i).len() == 0 by {
        if i != application_id.0 {
            assert(states.update(application_id.0 as int, state)[i] == states[i]);
        }
    }
}

/// Clearing one inbox keeps "only running applications hold deliveries".
proof fn lemma_clear_keeps_availability<Topic, const MAX_PAYLOAD_BYTES: usize>(
    before: MessageBus<Topic, MAX_PAYLOAD_BYTES>,
    after: MessageBus<Topic, MAX_PAYLOAD_BYTES>,
    states: Seq<ApplicationState>,
    application_id: ApplicationId,
    discarded: usize,
)
    requires
        inbox_cleared(before, after, application_id, discarded),
        forall|i: int|
            0 <= i < before.endpoint_count() && i != application_id.0 && states[i]
                != ApplicationState::Running ==> #[trigger] before.inbox(i).len() == 0,
    ensures
        only_running_hold_deliveries(after, states),
{
    assert forall|i: int|
        0 <= i < after.endpoint_count() && states[i] != ApplicationState::Running implies #[trigger] after.inbox(
            i,
        ).len() == 0 by {
        if i != application_id.0 {
            assert(after.inbox(i) == before.inbox(i));
        }
    }
}

impl<A, Topic: Copy + Eq, const MAX_PAYLOAD_BYTES: usize> MessagingRuntime<
    A,
    Topic,
    MAX_PAYLOAD_BYTES,
> {
    /// Couples a fully registered runtime to one fresh inbox per application.
    ///
    /// The configurations are assigned in registration order. Count
    /// mismatch, an application no longer `Registered`, an invalid topology,
    /// or a storage failure returns the unchanged runtime inside the error.
    pub fn new(runtime: Runtime<A>, configurations: &[RuntimeInboxConfig<'_, Topic>]) -> (result:
        Result<Self, MessagingRuntimeCreateError<A>>)
        requires
            obeys_concrete_eq::<Topic>(),
            runtime.wf(),
        ensures
            match result {
                Ok(messaging) => {
                    &&& messaging.wf()
                    &&& messaging.owned_runtime() == runtime
                    &&& messaging.bus().configured_as(runtime_config_views(configurations@))
                    &&& bus_creation_result(runtime_config_views(configurations@), Ok(messaging.bus()))
                    &&& configurations@.len() > 0
                    &&& first_topology_error(runtime_config_views(configurations@), 0) is None
                    &&& runtime@.len() == configurations@.len()
                    &&& forall|i: int|
                        0 <= i < runtime@.len() ==> #[trigger] runtime@[i]
                            == ApplicationState::Registered
                },
                Err(error) => {
                    &&& error.preserved() == runtime
                    &&& creation_failure::<Topic, MAX_PAYLOAD_BYTES>(runtime@, configurations@, error.failure())
                },
            },
    {
        let application_count = runtime.len();
        if application_count != configurations.len() {
            return Err(
                MessagingRuntimeCreateError {
                    kind: MessagingRuntimeCreateErrorKind::InboxCountMismatch {
                        applications: application_count,
                        inboxes: configurations.len(),
                    },
                    runtime,
                },
            );
        }
        if let Some((application_id, state)) = runtime.first_non_registered() {
            return Err(
                MessagingRuntimeCreateError {
                    kind: MessagingRuntimeCreateErrorKind::ApplicationNotRegistered {
                        application_id,
                        state,
                    },
                    runtime,
                },
            );
        }
        let message_bus = match MessageBus::from_runtime_configs(configurations) {
            Ok(message_bus) => message_bus,
            Err(error) => {
                return Err(
                    MessagingRuntimeCreateError {
                        kind: MessagingRuntimeCreateErrorKind::MessageBus(error),
                        runtime,
                    },
                );
            },
        };
        let mut dispatch_states: Vec<ApplicationState> = Vec::new();
        if !crate::storage::reserve_vec(&mut dispatch_states, application_count) {
            return Err(
                MessagingRuntimeCreateError {
                    kind: MessagingRuntimeCreateErrorKind::DispatchStateStorageAllocationFailed {
                        requested: application_count,
                    },
                    runtime,
                },
            );
        }
        let mut index: usize = 0;
        while index < application_count
            invariant
                index <= application_count,
                dispatch_states@.len() == index,
            decreases application_count - index,
        {
            dispatch_states.push(ApplicationState::Registered);
            index = index + 1;
        }
        let messaging = MessagingRuntime {
            runtime,
            message_bus,
            dispatch_states,
            callback_deliveries: 0,
        };
        proof {
            let views = runtime_config_views(configurations@);
            assert(messaging.bus().configured_as(views));
            assert forall|i: int|
                0 <= i < messaging.bus().endpoint_count() && runtime@[i]
                    != ApplicationState::Running implies #[trigger] messaging.bus().inbox(i).len()
                == 0 by {
                assert(messaging.bus().inbox_limit(i) == views[i].1);
                assert(messaging.bus().inbox(i) == Seq::<(Topic, Seq<u8>)>::empty());
            }
        }
        Ok(messaging)
    }

    /// Returns the configured application-record limit.
    pub fn capacity(&self) -> (capacity: usize)
        ensures
            capacity == self.owned_runtime().limit(),
    {
        self.runtime.capacity()
    }

    /// Returns the current state of one owned application.
    pub fn state(&self, application_id: ApplicationId) -> (result: Result<
        ApplicationState,
        LifecycleError,
    >)
        ensures
            result == state_query(self.owned_runtime()@, application_id),
    {
        self.runtime.state(application_id)
    }

    /// Returns the number of queued deliveries for one application.
    pub fn pending(&self, application_id: ApplicationId) -> (result: Result<usize, InboxAccessError>)
        ensures
            application_id.0 < self.bus().endpoint_count() ==> result == Ok::<_, InboxAccessError>(
                self.bus().inbox(application_id.0 as int).len() as usize,
            ),
            application_id.0 >= self.bus().endpoint_count() ==> result == Err::<usize, _>(
                InboxAccessError::UnknownApplication { application_id },
            ),
    {
        self.message_bus.pending(application_id)
    }

    /// Returns the configured slot limit for one application inbox.
    pub fn inbox_capacity(&self, application_id: ApplicationId) -> (result: Result<
        usize,
        InboxAccessError,
    >)
        ensures
            application_id.0 < self.bus().endpoint_count() ==> result == Ok::<_, InboxAccessError>(
                self.bus().inbox_limit(application_id.0 as int),
            ),
            application_id.0 >= self.bus().endpoint_count() ==> result == Err::<usize, _>(
                InboxAccessError::UnknownApplication { application_id },
            ),
    {
        self.message_bus.inbox_capacity(application_id)
    }

    /// Publishes to matching endpoints using current runtime state.
    ///
    /// Matching applications that are not running stay in the ordered report
    /// as unavailable; only running endpoints may enqueue.
    pub fn publish(&mut self, message: &Message<Topic, MAX_PAYLOAD_BYTES>) -> (result: Result<
        PublishReport,
        PublishError,
    >)
        requires
            old(self).wf(),
            obeys_concrete_eq::<Topic>(),
        ensures
            final(self).wf(),
            final(self).owned_runtime() == old(self).owned_runtime(),
            publication(
                old(self).bus(),
                final(self).bus(),
                message@,
                running_availability(old(self).owned_runtime()@),
                result,
            ),
    {
        let mut available: Vec<bool> = Vec::new();
        let count = self.runtime.len();
        let mut index: usize = 0;
        while index < count
            invariant
                count == self.runtime@.len(),
                index <= count,
                available@ == running_availability(self.runtime@).subrange(0, index as int),
            decreases count - index,
        {
            let running = match self.runtime.state(ApplicationId(index)) {
                Ok(ApplicationState::Running) => true,
                _ => false,
            };
            available.push(running);
            index = index + 1;
            proof {
                assert(available@ =~= running_availability(self.runtime@).subrange(0, index as int));
            }
        }
        proof {
            assert(available@ =~= running_availability(self.runtime@));
        }
        let ghost before = self.message_bus;
        let result = self.message_bus.publish_with_availability(message, available.as_slice());
        proof {
            assert forall|i: int|
                0 <= i < self.message_bus.endpoint_count() && self.runtime@[i]
                    != ApplicationState::Running implies #[trigger] self.message_bus.inbox(i).len()
                == 0 by {
                assert(before.inbox(i).len() == 0);
            }
        }
        result
    }
}

/// What a messaging start request did to the runtime and to the inboxes.
pub open spec fn messaging_start_effect<A: Application, Topic, const MAX_PAYLOAD_BYTES: usize>(
    before: MessagingRuntime<A, Topic, MAX_PAYLOAD_BYTES>,
    after: MessagingRuntime<A, Topic, MAX_PAYLOAD_BYTES>,
    application_id: ApplicationId,
    result: Result<ApplicationState, MessagingOperationError<RuntimeStartError<A::StartError>>>,
) -> bool {
    match result {
        Ok(state) => {
            &&& start_effect(before.owned_runtime(), after.owned_runtime(), application_id, Ok(state))
            &&& bus_unchanged(before.bus(), after.bus())
        },
        Err(error) => {
            &&& start_effect(
                before.owned_runtime(),
                after.owned_runtime(),
                application_id,
                Err(error.operation_error),
            )
            &&& match error.operation_error {
                RuntimeStartError::Lifecycle(_) => {
                    &&& error.discarded_deliveries == 0
                    &&& bus_unchanged(before.bus(), after.bus())
                },
                RuntimeStartError::Application { .. } => inbox_cleared(
                    before.bus(),
                    after.bus(),
                    application_id,
                    error.discarded_deliveries,
                ),
            }
        },
    }
}

/// What a messaging work request did to the runtime and to the inboxes.
pub open spec fn messaging_work_effect<A: Application, Topic, const MAX_PAYLOAD_BYTES: usize>(
    before: MessagingRuntime<A, Topic, MAX_PAYLOAD_BYTES>,
    after: MessagingRuntime<A, Topic, MAX_PAYLOAD_BYTES>,
    application_id: ApplicationId,
    result: Result<ApplicationState, MessagingOperationError<RuntimeWorkError<A::WorkError>>>,
) -> bool {
    match result {
        Ok(state) => {
            &&& work_effect(before.owned_runtime(), after.owned_runtime(), application_id, Ok(state))
            &&& bus_unchanged(before.bus(), after.bus())
        },
        Err(error) => {
            &&& work_effect(
                before.owned_runtime(),
                after.owned_runtime(),
                application_id,
                Err(error.operation_error),
            )
            &&& match error.operation_error {
                RuntimeWorkError::Lifecycle(_) => {
                    &&& error.discarded_deliveries == 0
                    &&& bus_unchanged(before.bus(), after.bus())
                },
                RuntimeWorkError::Application { .. } => inbox_cleared(
                    before.bus(),
                    after.bus(),
                    application_id,
                    error.discarded_deliveries,
                ),
            }
        },
    }
}

/// What a messaging stop request did to the runtime and to the inboxes.
pub open spec fn messaging_stop_effect<A: Application, Topic, const MAX_PAYLOAD_BYTES: usize>(
    before: MessagingRuntime<A, Topic, MAX_PAYLOAD_BYTES>,
    after: MessagingRuntime<A, Topic, MAX_PAYLOAD_BYTES>,
    application_id: ApplicationId,
    result: Result<MessagingStopOutcome, MessagingOperationError<RuntimeStopError<A::StopError>>>,
) -> bool {
    match result {
        Ok(outcome) => {
            &&& stop_effect(before.owned_runtime(), after.owned_runtime(), application_id, Ok(outcome.state))
            &&& inbox_cleared(before.bus(), after.bus(), application_id, outcome.discarded_deliveries)
        },
        Err(error) => {
            &&& stop_effect(
                before.owned_runtime(),
                after.owned_runtime(),
                application_id,
                Err(error.operation_error),
            )
            &&& match error.operation_error {
                RuntimeStopError::Lifecycle(_) => {
                    &&& error.discarded_deliveries == 0
                    &&& bus_unchanged(before.bus(), after.bus())
                },
                RuntimeStopError::Application { .. } => inbox_cleared(
                    before.bus(),
                    after.bus(),
                    application_id,
                    error.discarded_deliveries,
                ),
            }
        },
    }
}

/// What a messaging restart request did to the runtime and to the inboxes.
pub open spec fn messaging_restart_effect<A: Application, Topic, const MAX_PAYLOAD_BYTES: usize>(
    before: MessagingRuntime<A, Topic, MAX_PAYLOAD_BYTES>,
    after: MessagingRuntime<A, Topic, MAX_PAYLOAD_BYTES>,
    application_id: ApplicationId,
    result: Result<ApplicationState, MessagingOperationError<RuntimeRestartError<A::RestartError>>>,
) -> bool {
    match result {
        Ok(state) => {
            &&& restart_effect(before.owned_runtime(), after.owned_runtime(), application_id, Ok(state))
            &&& bus_unchanged(before.bus(), after.bus())
        },
        Err(error) => {
            &&& restart_effect(
                before.owned_runtime(),
                after.owned_runtime(),
                application_id,
                Err(error.operation_error),
            )
            &&& match error.operation_error {
                RuntimeRestartError::Lifecycle(_) => {
                    &&& error.discarded_deliveries == 0
                    &&& bus_unchanged(before.bus(), after.bus())
                },
                RuntimeRestartError::Application { .. } => inbox_cleared(
                    before.bus(),
                    after.bus(),
                    application_id,
                    error.discarded_deliveries,
                ),
            }
        },
    }
}

impl<A: Application, Topic: Copy + Eq, const MAX_PAYLOAD_BYTES: usize> MessagingRuntime<
    A,
    Topic,
    MAX_PAYLOAD_BYTES,
> {
    /// Starts a registered application and exposes its empty inbox on success.
    ///
    /// A returned callback error commits terminal `Failed` and clears the
    /// selected inbox before returning; lifecycle rejection clears nothing.
    pub fn start(&mut self, application_id: ApplicationId) -> (result: Result<
        ApplicationState,
        MessagingOperationError<RuntimeStartError<A::StartError>>,
    >)
        requires
            old(self).wf(),
        ensures
            final(self).wf(),
            messaging_start_effect(*old(self), *final(self), application_id, result),
    {
        match self.runtime.start(application_id) {
            Ok(state) => {
                proof {
                    lemma_commit_keeps_availability(
                        old(self).message_bus,
                        old(self).runtime@,
                        application_id,
                        ApplicationState::Running,
                    );
                }
                Ok(state)
            },
            Err(error) => {
                let application_failed = match &error {
                    RuntimeStartError::Application { .. } => true,
                    RuntimeStartError::Lifecycle(_) => false,
                };
                if application_failed {
                    let ghost cleared_before = self.message_bus;
                    let discarded = self.message_bus.clear_runtime_inbox(application_id);
                    proof {
                        lemma_clear_keeps_availability(
                            cleared_before,
                            self.message_bus,
                            self.runtime@,
                            application_id,
                            discarded,
                        );
                    }
                    Err(MessagingOperationError { operation_error: error, discarded_deliveries: discarded })
                } else {
                    Err(MessagingOperationError { operation_error: error, discarded_deliveries: 0 })
                }
            },
        }
    }

    /// Runs one work callback while keeping lifecycle-derived availability.
    ///
    /// A returned callback error commits terminal `Failed` and clears the
    /// selected inbox before returning; lifecycle rejection clears nothing.
    pub fn work(&mut self, application_id: ApplicationId) -> (result: Result<
        ApplicationState,
        MessagingOperationError<RuntimeWorkError<A::WorkError>>,
    >)
        requires
            old(self).wf(),
        ensures
            final(self).wf(),
            messaging_work_effect(*old(self), *final(self), application_id, result),
    {
        match self.runtime.work(application_id) {
            Ok(state) => {
                proof {
                    lemma_commit_keeps_availability(
                        old(self).message_bus,
                        old(self).runtime@,
                        application_id,
                        ApplicationState::Running,
                    );
                }
                Ok(state)
            },
            Err(error) => {
                let application_failed = match &error {
                    RuntimeWorkError::Application { .. } => true,
                    RuntimeWorkError::Lifecycle(_) => false,
                };
                if application_failed {
                    let ghost cleared_before = self.message_bus;
                    let discarded = self.message_bus.clear_runtime_inbox(application_id);
                    proof {
                        lemma_clear_keeps_availability(
                            cleared_before,
                            self.message_bus,
                            self.runtime@,
                            application_id,
                            discarded,
                        );
                    }
                    Err(MessagingOperationError { operation_error: error, discarded_deliveries: discarded })
                } else {
                    Err(MessagingOperationError { operation_error: error, discarded_deliveries: 0 })
                }
            },
        }
    }

    /// Stops a running application and clears its inbox before returning.
    ///
    /// A returned callback error commits terminal `Failed` and also clears
    /// the inbox; lifecycle rejection clears nothing.
    pub fn stop(&mut self, application_id: ApplicationId) -> (result: Result<
        MessagingStopOutcome,
        MessagingOperationError<RuntimeStopError<A::StopError>>,
    >)
        requires
            old(self).wf(),
        ensures
            final(self).wf(),
            messaging_stop_effect(*old(self), *final(self), application_id, result),
    {
        match self.runtime.stop(application_id) {
            Ok(state) => {
                let ghost cleared_before = self.message_bus;
                let discarded = self.message_bus.clear_runtime_inbox(application_id);
                proof {
                    lemma_clear_keeps_availability(
                        cleared_before,
                        self.message_bus,
                        self.runtime@,
                        application_id,
                        discarded,
                    );
                }
                Ok(MessagingStopOutcome { state, discarded_deliveries: discarded })
            },
            Err(error) => {
                let application_failed = match &error {
                    RuntimeStopError::Application { .. } => true,
                    RuntimeStopError::Lifecycle(_) => false,
                };
                if application_failed {
                    let ghost cleared_before = self.message_bus;
                    let discarded = self.message_bus.clear_runtime_inbox(application_id);
                    proof {
                        lemma_clear_keeps_availability(
                            cleared_before,
                            self.message_bus,
                            self.runtime@,
                            application_id,
                            discarded,
                        );
                    }
                    Err(MessagingOperationError { operation_error: error, discarded_deliveries: discarded })
                } else {
                    Err(MessagingOperationError { operation_error: error, discarded_deliveries: 0 })
                }
            },
        }
    }

    /// Restarts a stopped application and reconnects its already-empty inbox.
    ///
    /// A returned callback error commits terminal `Failed` and clears the
    /// selected inbox before returning; lifecycle rejection clears nothing.
    pub fn restart(&mut self, application_id: ApplicationId) -> (result: Result<
        ApplicationState,
        MessagingOperationError<RuntimeRestartError<A::RestartError>>,
    >)
        requires
            old(self).wf(),
        ensures
            final(self).wf(),
            messaging_restart_effect(*old(self), *final(self), application_id, result),
    {
        match self.runtime.restart(application_id) {
            Ok(state) => {
                proof {
                    lemma_commit_keeps_availability(
                        old(self).message_bus,
                        old(self).runtime@,
                        application_id,
                        ApplicationState::Running,
                    );
                }
                Ok(state)
            },
            Err(error) => {
                let application_failed = match &error {
                    RuntimeRestartError::Application { .. } => true,
                    RuntimeRestartError::Lifecycle(_) => false,
                };
                if application_failed {
                    let ghost cleared_before = self.message_bus;
                    let discarded = self.message_bus.clear_runtime_inbox(application_id);
                    proof {
                        lemma_clear_keeps_availability(
                            cleared_before,
                            self.message_bus,
                            self.runtime@,
                            application_id,
                            discarded,
                        );
                    }
                    Err(MessagingOperationError { operation_error: error, discarded_deliveries: discarded })
                } else {
                    Err(MessagingOperationError { operation_error: error, discarded_deliveries: 0 })
                }
            },
        }
    }
}

/// Endpoint `i`'s inbox once the oldest message of `application_id` was taken.
pub open spec fn inbox_after_taking<Topic, const MAX_PAYLOAD_BYTES: usize>(
    bus: MessageBus<Topic, MAX_PAYLOAD_BYTES>,
    application_id: ApplicationId,
    i: int,
) -> Seq<(Topic, Seq<u8>)> {
    if i == application_id.0 {
        bus.inbox(i).drop_first()
    } else {
        bus.inbox(i)
    }
}

/// What one dispatch attempt did: a rejected or empty-inbox attempt changes
/// nothing; otherwise the oldest message of the selected inbox was removed
/// and presented, inboxes only gained what the callback published, and a
/// callback error failed the application and cleared its inbox.
pub open spec fn dispatch_effect<A: MessagingApplication<Topic, MAX_PAYLOAD_BYTES>, Topic: Copy + Eq, const MAX_PAYLOAD_BYTES: usize>(
    before: MessagingRuntime<A, Topic, MAX_PAYLOAD_BYTES>,
    after: MessagingRuntime<A, Topic, MAX_PAYLOAD_BYTES>,
    application_id: ApplicationId,
    result: Result<MessageDispatchOutcome, MessagingOperationError<MessageDispatchError<A::MessageError>>>,
) -> bool {
    match work_rejection(before.owned_runtime()@, application_id) {
        Some(error) => {
            &&& result == Err::<MessageDispatchOutcome, _>(
                MessagingOperationError {
                    operation_error: MessageDispatchError::<A::MessageError>::Lifecycle(error),
                    discarded_deliveries: 0,
                },
            )
            &&& before.owned_runtime().unchanged(&after.owned_runtime())
            &&& bus_unchanged(before.bus(), after.bus())
        },
        None => if before.bus().inbox(application_id.0 as int).len() == 0 {
            &&& result == Ok::<_, MessagingOperationError<MessageDispatchError<A::MessageError>>>(
                MessageDispatchOutcome::InboxEmpty,
            )
            &&& before.owned_runtime().unchanged(&after.owned_runtime())
            &&& bus_unchanged(before.bus(), after.bus())
        } else {
            &&& after.bus().same_topology(&before.bus())
            &&& match result {
                Ok(MessageDispatchOutcome::Dispatched) => {
                    &&& before.owned_runtime().committed(
                        &after.owned_runtime(),
                        application_id,
                        ApplicationState::Running,
                    )
                    &&& after.bus().inbox(application_id.0 as int).len() == before.bus().inbox(
                        application_id.0 as int,
                    ).len() - 1 + after.callback_deliveries()
                    &&& forall|i: int|
                        0 <= i < before.bus().endpoint_count() ==> #[trigger] inbox_after_taking(
                            before.bus(),
                            application_id,
                            i,
                        ).is_prefix_of(after.bus().inbox(i))
                },
                Ok(MessageDispatchOutcome::InboxEmpty) => false,
                Err(error) => {
                    &&& error.operation_error is Application
                    &&& error.operation_error->application_id == application_id
                    &&& before.owned_runtime().committed(
                        &after.owned_runtime(),
                        application_id,
                        ApplicationState::Failed,
                    )
                    &&& after.bus().inbox(application_id.0 as int) == Seq::<(Topic, Seq<u8>)>::empty()
                    &&& error.discarded_deliveries == before.bus().inbox(application_id.0 as int).len()
                        - 1 + after.callback_deliveries()
                    &&& error.discarded_deliveries >= before.bus().inbox(application_id.0 as int).len() - 1
                    &&& error.discarded_deliveries <= before.bus().inbox_limit(application_id.0 as int)
                    &&& forall|i: int|
                        0 <= i < before.bus().endpoint_count() && i != application_id.0
                            ==> #[trigger] inbox_after_taking(
                            before.bus(),
                            application_id,
                            i,
                        ).is_prefix_of(after.bus().inbox(i))
                },
            }
        },
    }
}

impl<
    A: MessagingApplication<Topic, MAX_PAYLOAD_BYTES>,
    Topic: Copy + Eq,
    const MAX_PAYLOAD_BYTES: usize,
> MessagingRuntime<A, Topic, MAX_PAYLOAD_BYTES> {
    /// Dispatches at most one oldest message to one running application.
    ///
    /// An empty inbox returns `InboxEmpty` without invoking application
    /// code. The dispatched message stays outside inbox capacity during the
    /// synchronous callback, whose context can publish through this bus
    /// under the lifecycle states captured just before it. A returned
    /// application error commits terminal `Failed`, drops the in-flight
    /// message, and clears the remaining queued deliveries of that
    /// application; deliveries accepted by peers are kept.
    pub fn dispatch_one(&mut self, application_id: ApplicationId) -> (result: Result<
        MessageDispatchOutcome,
        MessagingOperationError<MessageDispatchError<A::MessageError>>,
    >)
        requires
            old(self).wf(),
            obeys_concrete_eq::<Topic>(),
        ensures
            final(self).wf(),
            dispatch_effect(*old(self), *final(self), application_id, result),
    {
        let state = match self.runtime.state(application_id) {
            Ok(state) => state,
            Err(error) => {
                return Err(
                    MessagingOperationError {
                        operation_error: MessageDispatchError::Lifecycle(error),
                        discarded_deliveries: 0,
                    },
                );
            },
        };
        match state {
            ApplicationState::Running => {},
            _ => {
                return Err(
                    MessagingOperationError {
                        operation_error: MessageDispatchError::Lifecycle(
                            LifecycleError::NotRunning { application_id, state },
                        ),
                        discarded_deliveries: 0,
                    },
                );
            },
        }
        let ghost initial = *self;
        let mut states: Vec<ApplicationState> = Vec::new();
        std::mem::swap(&mut states, &mut self.dispatch_states);
        self.runtime.copy_states_into(&mut states);
        let mut bus = MessageBus::vacant();
        std::mem::swap(&mut bus, &mut self.message_bus);
        let ghost full = bus;
        let message = match bus.dequeue_runtime_inbox(application_id) {
            None => {
                self.message_bus = bus;
                self.dispatch_states = states;
                proof {
                    assert(bus_unchanged(initial.message_bus, self.message_bus));
                    assert(initial.runtime.unchanged(&self.runtime));
                }
                return Ok(MessageDispatchOutcome::InboxEmpty);
            },
            Some(message) => message,
        };
        let ghost taken = bus;
        proof {
            assert(full.inbox(application_id.0 as int).len() <= full.inbox_limit(application_id.0 as int));
            assert(taken.inbox(application_id.0 as int).len() < full.inbox(application_id.0 as int).len());
        }
        let queued_before = match bus.pending(application_id) {
            Ok(count) => count,
            Err(_) => 0,
        };
        proof {
            assert forall|i: int|
                0 <= i < taken.endpoint_count() && states@[i] != ApplicationState::Running implies #[trigger] taken.inbox(
                i,
            ).len() == 0 by {
                assert(full.inbox(i).len() == 0);
            }
        }
        let mut context = ApplicationMessageContext::new(application_id, bus, states);
        let outcome = self.runtime.application_mut(application_id).handle_message(
            &message,
            &mut context,
        );
        let (bus, states) = context.into_parts();
        self.message_bus = bus;
        self.dispatch_states = states;
        proof {
            assert forall|i: int| 0 <= i < full.endpoint_count() implies #[trigger] inbox_after_taking(
                full,
                application_id,
                i,
            ).is_prefix_of(self.message_bus.inbox(i)) by {
                assert(inbox_after_taking(full, application_id, i) == taken.inbox(i));
            }
        }
        proof {
            assert(initial.runtime@.update(application_id.0 as int, ApplicationState::Running)
                =~= initial.runtime@);
        }
        proof {
            assert(self.message_bus.inbox(application_id.0 as int).len()
                <= self.message_bus.inbox_limit(application_id.0 as int));
        }
        let queued_after = match self.message_bus.pending(application_id) {
            Ok(count) => count,
            Err(_) => 0,
        };
        proof {
            assert(taken.inbox(application_id.0 as int).is_prefix_of(
                self.message_bus.inbox(application_id.0 as int),
            ));
            assert(application_id.0 < self.message_bus.endpoint_count());
            assert(queued_after == self.message_bus.inbox(application_id.0 as int).len());
            assert(queued_before == taken.inbox(application_id.0 as int).len());
        }
        self.callback_deliveries = queued_after - queued_before;
        let ghost before_finish = *self;
        proof {
            assert(self.runtime@ == initial.runtime@);
            assert(self.bus().endpoint_count() == self.owned_runtime()@.len());
            assert(self.dispatch_states@ == self.runtime@);
            assert(taken.inbox(application_id.0 as int).is_prefix_of(
                self.message_bus.inbox(application_id.0 as int),
            ));
        }
        let result = self.finish_dispatch(application_id, outcome);
        proof {
            if result is Err {
                assert(before_finish.message_bus.inbox(application_id.0 as int).len()
                    <= before_finish.message_bus.inbox_limit(application_id.0 as int));
                assert(before_finish.message_bus.inbox_limit(application_id.0 as int)
                    == full.inbox_limit(application_id.0 as int));
                assert forall|i: int|
                    0 <= i < full.endpoint_count() && i != application_id.0 implies #[trigger] inbox_after_taking(
                    full,
                    application_id,
                    i,
                ).is_prefix_of(self.message_bus.inbox(i)) by {
                    assert(self.message_bus.inbox(i) == before_finish.message_bus.inbox(i));
                }
            }
        }
        result
    }

    /// Commits the outcome of one message callback for a running
    /// application whose dispatched message was already taken.
    ///
    /// Success keeps everything as it is and reports `Dispatched`. A returned
    /// error commits terminal `Failed`, clears that application's inbox, and
    /// returns the error with exactly the number of deliveries cleared.
    pub(crate) fn finish_dispatch(
        &mut self,
        application_id: ApplicationId,
        outcome: Result<(), A::MessageError>,
    ) -> (result: Result<
        MessageDispatchOutcome,
        MessagingOperationError<MessageDispatchError<A::MessageError>>,
    >)
        requires
            old(self).wf(),
            application_id.0 < old(self).owned_runtime()@.len(),
            old(self).owned_runtime()@[application_id.0 as int] == ApplicationState::Running,
        ensures
            final(self).wf(),
            final(self).callback_deliveries() == old(self).callback_deliveries(),
            outcome is Ok ==> {
                &&& result == Ok::<_, MessagingOperationError<MessageDispatchError<A::MessageError>>>(
                    MessageDispatchOutcome::Dispatched,
                )
                &&& old(self).owned_runtime().unchanged(&final(self).owned_runtime())
                &&& bus_unchanged(old(self).bus(), final(self).bus())
            },
            outcome matches Err(source) ==> {
                &&& result == Err::<MessageDispatchOutcome, _>(
                    (MessagingOperationError {
                        operation_error: MessageDispatchError::Application { application_id, source },
                        discarded_deliveries: old(self).bus().inbox(application_id.0 as int).len() as usize,
                    }),
                )
                &&& old(self).owned_runtime().committed(
                    &final(self).owned_runtime(),
                    application_id,
                    ApplicationState::Failed,
                )
                &&& inbox_cleared(
                    old(self).bus(),
                    final(self).bus(),
                    application_id,
                    old(self).bus().inbox(application_id.0 as int).len() as usize,
                )
            },
    {
        match outcome {
            Ok(()) => {
                proof {
                    assert(bus_unchanged(self.message_bus, self.message_bus));
                }
                Ok(MessageDispatchOutcome::Dispatched)
            },
            Err(source) => {
                self.runtime.commit_state(application_id, ApplicationState::Failed);
                let ghost cleared_before = self.message_bus;
                let discarded = self.message_bus.clear_runtime_inbox(application_id);
                proof {
                    lemma_clear_keeps_availability(
                        cleared_before,
                        self.message_bus,
                        self.runtime@,
                        application_id,
                        discarded,
                    );
                }
                Err(
                    MessagingOperationError {
                        operation_error: MessageDispatchError::Application { application_id, source },
                        discarded_deliveries: discarded,
                    },
                )
            },
        }
    }
}

impl<A: Application, Topic: Copy + Eq, const MAX_PAYLOAD_BYTES: usize> MessagingRuntime<
    A,
    Topic,
    MAX_PAYLOAD_BYTES,
> {
    /// Runs one messaging-owned work callback and reports a returned
    /// application error once.
    ///
    /// Lifecycle, callback, and inbox behavior are those of
    /// [`MessagingRuntime::work`], which finishes terminal failure and the
    /// exact clearing of the selected inbox first. Only then is the clock
    /// read once and one application-sourced error event attempted.
    /// Success and lifecycle rejection read no clock and emit nothing.
    pub fn work_with_failure_event<EventId: Copy, C: Clock + ?Sized>(
        &mut self,
        application_id: ApplicationId,
        failure_event_identifier: EventId,
        clock: &C,
        event_queue: &mut EventQueue<EventId>,
    ) -> (result: Result<
        ApplicationState,
        MessagingOperationError<RuntimeWorkEventError<A::WorkError, EventId>>,
    >)
        requires
            old(self).wf(),
        ensures
            result matches Err(error) ==> (error.operation_error.failure_event_attempt matches Some(
                attempt,
            ) ==> call_ensures(C::now, (clock,), attempt.event.timestamp.0)),
            final(self).wf(),
            final(event_queue).limit() == old(event_queue).limit(),
            old(event_queue).wf() ==> final(event_queue).wf(),
            match result {
                Ok(state) => {
                    &&& messaging_work_effect(*old(self), *final(self), application_id, Ok(state))
                    &&& final(event_queue)@ == old(event_queue)@
                },
                Err(error) => {
                    &&& messaging_work_effect(
                        *old(self),
                        *final(self),
                        application_id,
                        Err(
                            (MessagingOperationError {
                                operation_error: error.operation_error.work_error,
                                discarded_deliveries: error.discarded_deliveries,
                            }),
                        ),
                    )
                    &&& failure_event_reported(
                        old(event_queue)@,
                        old(event_queue).limit(),
                        final(event_queue)@,
                        application_id,
                        failure_event_identifier,
                        error.operation_error.work_error,
                        error.operation_error.failure_event_attempt,
                    )
                },
            },
    {
        let MessagingOperationError { operation_error: work_error, discarded_deliveries } = match self.work(
            application_id,
        ) {
            Ok(state) => {
                return Ok(state);
            },
            Err(error) => error,
        };
        let failure_event_attempt = match &work_error {
            RuntimeWorkError::Lifecycle(_) => None,
            RuntimeWorkError::Application { .. } => {
                let observed_at = clock.now();
                Some(
                    attempt_failure_event(
                        application_id,
                        failure_event_identifier,
                        observed_at,
                        event_queue,
                    ),
                )
            },
        };
        Err(
            MessagingOperationError {
                operation_error: RuntimeWorkEventError { work_error, failure_event_attempt },
                discarded_deliveries,
            },
        )
    }

    /// Attempts at most the next due work item through messaging-owned work.
    ///
    /// The timing and consumption decision is that of
    /// [`Runtime::run_next_scheduled_work`]; a due item is then delegated to
    /// [`MessagingRuntime::work`]. A returned work error clears only the
    /// selected inbox, and the error keeps the item, the observed instant,
    /// the work error, and the exact discarded-delivery count. No failure
    /// event is emitted.
    pub fn run_next_scheduled_work<C: Clock + ?Sized>(
        &mut self,
        schedule: &mut WorkSchedule,
        clock: &C,
    ) -> (result: Result<
        ScheduledWorkOutcome,
        MessagingOperationError<ScheduledWorkError<A::WorkError>>,
    >)
        requires
            old(self).wf(),
            old(schedule).wf(),
        ensures
            final(self).wf(),
            final(schedule).wf(),
            old(schedule)@.len() == 0 ==> {
                &&& result == Ok::<_, MessagingOperationError<ScheduledWorkError<A::WorkError>>>(
                    ScheduledWorkOutcome::Complete,
                )
                &&& final(schedule)@ == old(schedule)@
                &&& old(self).owned_runtime().unchanged(&final(self).owned_runtime())
                &&& bus_unchanged(old(self).bus(), final(self).bus())
            },
            old(schedule)@.len() > 0 ==> match result {
                Ok(ScheduledWorkOutcome::Complete) => false,
                Ok(ScheduledWorkOutcome::Waiting { next, observed_at }) => {
                    &&& next == old(schedule)@[0]
                    &&& observed_at@ < next.scheduled_at@
                    &&& call_ensures(C::now, (clock,), observed_at)
                    &&& final(schedule)@ == old(schedule)@
                    &&& old(self).owned_runtime().unchanged(&final(self).owned_runtime())
                    &&& bus_unchanged(old(self).bus(), final(self).bus())
                },
                Ok(ScheduledWorkOutcome::Completed { scheduled_work, observed_at, state }) => {
                    &&& scheduled_work == old(schedule)@[0]
                    &&& observed_at@ >= scheduled_work.scheduled_at@
                    &&& call_ensures(C::now, (clock,), observed_at)
                    &&& final(schedule)@ == old(schedule)@.drop_first()
                    &&& messaging_work_effect(
                        *old(self),
                        *final(self),
                        scheduled_work.application_id,
                        Ok(state),
                    )
                },
                Err(error) => {
                    &&& error.operation_error.scheduled_work == old(schedule)@[0]
                    &&& error.operation_error.observed_at@
                        >= error.operation_error.scheduled_work.scheduled_at@
                    &&& call_ensures(C::now, (clock,), error.operation_error.observed_at)
                    &&& final(schedule)@ == old(schedule)@.drop_first()
                    &&& messaging_work_effect(
                        *old(self),
                        *final(self),
                        error.operation_error.scheduled_work.application_id,
                        Err(
                            (MessagingOperationError {
                                operation_error: error.operation_error.work_error,
                                discarded_deliveries: error.discarded_deliveries,
                            }),
                        ),
                    )
                },
            },
    {
        let (scheduled_work, observed_at) = match take_due_item(schedule, clock) {
            Ok(due) => due,
            Err(outcome) => {
                return Ok(outcome);
            },
        };
        match self.work(scheduled_work.application_id) {
            Ok(state) => Ok(ScheduledWorkOutcome::Completed { scheduled_work, observed_at, state }),
            Err(error) => {
                let MessagingOperationError { operation_error: work_error, discarded_deliveries } =
                    error;
                Err(
                    MessagingOperationError {
                        operation_error: ScheduledWorkError { scheduled_work, observed_at, work_error },
                        discarded_deliveries,
                    },
                )
            },
        }
    }
}

/// Only running applications hold queued deliveries: every application that
/// is registered, stopped, or failed has an empty inbox.
pub proof fn lemma_only_running_applications_hold_deliveries<
    A,
    Topic,
    const MAX_PAYLOAD_BYTES: usize,
>(messaging: MessagingRuntime<A, Topic, MAX_PAYLOAD_BYTES>, i: int)
    requires
        messaging.wf(),
        0 <= i < messaging.owned_runtime()@.len(),
        messaging.owned_runtime()@[i] != ApplicationState::Running,
    ensures
        messaging.bus().inbox(i).len() == 0,
{
}

/// A successful restart reconnects an empty inbox: the application was
/// stopped, so its inbox was already empty, and restart delivers nothing.
pub proof fn lemma_restart_reconnects_an_empty_inbox<
    A: Application,
    Topic,
    const MAX_PAYLOAD_BYTES: usize,
>(
    before: MessagingRuntime<A, Topic, MAX_PAYLOAD_BYTES>,
    after: MessagingRuntime<A, Topic, MAX_PAYLOAD_BYTES>,
    application_id: ApplicationId,
    state: ApplicationState,
)
    requires
        before.wf(),
        messaging_restart_effect(before, after, application_id, Ok(state)),
    ensures
        state == ApplicationState::Running,
        before.owned_runtime()@[application_id.0 as int] == ApplicationState::Stopped,
        after.bus().inbox(application_id.0 as int).len() == 0,
{
    assert(before.bus().inbox(application_id.0 as int).len() == 0);
}

/// A successful stop empties the stopped application's inbox and reports
/// exactly how many deliveries it discarded; no other inbox changes.
pub proof fn lemma_stop_discards_exactly_the_stopped_inbox<
    A: Application,
    Topic,
    const MAX_PAYLOAD_BYTES: usize,
>(
    before: MessagingRuntime<A, Topic, MAX_PAYLOAD_BYTES>,
    after: MessagingRuntime<A, Topic, MAX_PAYLOAD_BYTES>,
    application_id: ApplicationId,
    outcome: MessagingStopOutcome,
    i: int,
)
    requires
        messaging_stop_effect(before, after, application_id, Ok(outcome)),
        0 <= i < before.bus().endpoint_count(),
    ensures
        outcome.state == ApplicationState::Stopped,
        outcome.discarded_deliveries == before.bus().inbox(application_id.0 as int).len(),
        after.bus().inbox(application_id.0 as int).len() == 0,
        i != application_id.0 ==> after.bus().inbox(i) == before.bus().inbox(i),
{
}

/// Which construction failures can occur, and on which inputs: a count
/// mismatch first, then the first application that left `Registered`, then
/// the bus topology, then snapshot storage.
pub open spec fn creation_failure<Topic, const MAX_PAYLOAD_BYTES: usize>(
    states: Seq<ApplicationState>,
    configurations: Seq<RuntimeInboxConfig<'_, Topic>>,
    failure: MessagingRuntimeCreateErrorKind,
) -> bool {
    if states.len() != configurations.len() {
        failure == (MessagingRuntimeCreateErrorKind::InboxCountMismatch {
            applications: states.len() as usize,
            inboxes: configurations.len() as usize,
        })
    } else if exists|i: int| 0 <= i < states.len() && #[trigger] states[i] != ApplicationState::Registered {
        &&& failure is ApplicationNotRegistered
        &&& failure->application_id.0 < states.len()
        &&& failure->state == states[failure->application_id.0 as int]
        &&& failure->state != ApplicationState::Registered
        &&& forall|i: int|
            0 <= i < failure->application_id.0 ==> #[trigger] states[i]
                == ApplicationState::Registered
    } else {
        match failure {
            MessagingRuntimeCreateErrorKind::MessageBus(error) => bus_creation_result::<
                Topic,
                MAX_PAYLOAD_BYTES,
            >(runtime_config_views(configurations), Err(error)),
            MessagingRuntimeCreateErrorKind::DispatchStateStorageAllocationFailed { requested } => {
                &&& requested == states.len()
                &&& configurations.len() > 0
                &&& first_topology_error(runtime_config_views(configurations), 0) is None
            },
            _ => false,
        }
    }
}

} // verus!
