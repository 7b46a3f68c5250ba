//! Bounded application identity and lifecycle-state supervision.
//!
//! The transition table is the logical LC1 model: `Registered -> Running`
//! by start, `Running -> Stopped` by stop, `Stopped -> Running` by restart.
//! Every other pair is rejected, and `Failed` is terminal.
use vstd::prelude::*;
use vstd::string::StringExecFns;

use crate::text::{append_decimal, decimal_text};

verus! {

/// An opaque slot key allocated by one lifecycle registry or runtime.
///
/// The key does not encode its issuer: equal-position keys from separate
/// issuers compare equal and address the corresponding slot.
#[derive(Clone, Copy, Debug, PartialEq, Eq, Structural)]
pub struct ApplicationId(pub usize);

impl ApplicationId {
    /// Creates the key for one registration position.
    pub fn from_index(index: usize) -> (id: Self)
        ensures
            id.0 == index,
    {
        ApplicationId(index)
    }

    /// Returns the registration position named by this key.
    pub fn index(self) -> (index: usize)
        ensures
            index == self.0,
    {
        self.0
    }
}

/// A stable LC1 application lifecycle state.
#[derive(Clone, Copy, Debug, PartialEq, Eq, Structural)]
pub enum ApplicationState {
    /// Registered but never successfully started.
    Registered,
    /// Eligible for caller-driven application work.
    Running,
    /// Cleanly stopped and eligible for an in-place restart.
    Stopped,
    /// An application lifecycle or work operation returned an error; terminal.
    Failed,
}

/// An LC1 lifecycle operation.
#[derive(Clone, Copy, Debug, PartialEq, Eq, Structural)]
pub enum LifecycleOperation {
    /// Start a registered application for the first time.
    Start,
    /// Stop a running application.
    Stop,
    /// Restart a stopped application in place.
    Restart,
}

/// Failure to construct a bounded registry.
#[derive(Clone, Copy, Debug, PartialEq, Eq, Structural)]
pub enum RegistryCreateError {
    /// The configured capacity was zero.
    ZeroCapacity,
    /// Storage for the configured number of records could not be reserved.
    CapacityAllocationFailed {
        /// Requested number of application records.
        requested: usize,
    },
}

/// Failure to register another logical application record.
#[derive(Clone, Copy, Debug, PartialEq, Eq, Structural)]
pub enum RegistrationError {
    /// The registry already contains its configured maximum number of records.
    RegistryFull {
        /// Configured maximum number of application records.
        capacity: usize,
    },
}

/// A lifecycle or running-only work request rejected before any state change.
#[derive(Clone, Copy, Debug, PartialEq, Eq, Structural)]
pub enum LifecycleError {
    /// The identity's slot does not name a record in this owner.
    UnknownApplication {
        /// Requested identity.
        application_id: ApplicationId,
    },
    /// Application work requires a record in `Running`.
    NotRunning {
        /// Requested identity.
        application_id: ApplicationId,
        /// Current, unchanged state.
        state: ApplicationState,
    },
    /// The operation is not valid in the record's current state.
    InvalidTransition {
        /// Requested identity.
        application_id: ApplicationId,
        /// Current, unchanged state.
        state: ApplicationState,
        /// Rejected operation.
        operation: LifecycleOperation,
    },
}

/// The debug text of an identity, as `ApplicationId(<slot>)`.
pub open spec fn application_id_text(application_id: ApplicationId) -> Seq<char> {
    "ApplicationId("@ + decimal_text(application_id.0 as nat) + ")"@
}

/// The name of a lifecycle state.
pub open spec fn state_text(state: ApplicationState) -> Seq<char> {
    match state {
        ApplicationState::Registered => "Registered"@,
        ApplicationState::Running => "Running"@,
        ApplicationState::Stopped => "Stopped"@,
        ApplicationState::Failed => "Failed"@,
    }
}

/// The name of a lifecycle operation.
pub open spec fn operation_text(operation: LifecycleOperation) -> Seq<char> {
    match operation {
        LifecycleOperation::Start => "Start"@,
        LifecycleOperation::Stop => "Stop"@,
        LifecycleOperation::Restart => "Restart"@,
    }
}

/// The human-readable description of a lifecycle rejection.
pub open spec fn lifecycle_error_text(error: LifecycleError) -> Seq<char> {
    match error {
        LifecycleError::UnknownApplication { application_id } => "application "@
            + application_id_text(application_id) + " is not registered"@,
        LifecycleError::NotRunning { application_id, state } => "application "@
            + application_id_text(application_id) + " cannot perform work while "@ + state_text(state),
        LifecycleError::InvalidTransition { application_id, state, operation } => "application "@
            + application_id_text(application_id) + " cannot perform "@ + operation_text(operation)
            + " while "@ + state_text(state),
    }
}

/// The human-readable description of a registry construction failure.
pub open spec fn registry_create_error_text(error: RegistryCreateError) -> Seq<char> {
    match error {
        RegistryCreateError::ZeroCapacity => "application capacity must be positive"@,
        RegistryCreateError::CapacityAllocationFailed { requested } =>
            "could not reserve lifecycle storage for "@ + decimal_text(requested as nat)
            + " applications"@,
    }
}

/// The human-readable description of a registration failure.
pub open spec fn registration_error_text(error: RegistrationError) -> Seq<char> {
    match error {
        RegistrationError::RegistryFull { capacity } => "application registry is full at capacity "@
            + decimal_text(capacity as nat),
    }
}

fn append_application_id(text: &mut String, application_id: ApplicationId)
    ensures
        final(text)@ == old(text)@ + application_id_text(application_id),
{
    text.append("ApplicationId(");
    append_decimal(text, application_id.0);
    text.append(")");
    proof {
        assert(final(text)@ =~= old(text)@ + application_id_text(application_id));
    }
}

fn state_str(state: ApplicationState) -> (name: &'static str)
    ensures
        name@ == state_text(state),
{
    match state {
        ApplicationState::Registered => "Registered",
        ApplicationState::Running => "Running",
        ApplicationState::Stopped => "Stopped",
        ApplicationState::Failed => "Failed",
    }
}

fn operation_str(operation: LifecycleOperation) -> (name: &'static str)
    ensures
        name@ == operation_text(operation),
{
    match operation {
        LifecycleOperation::Start => "Start",
        LifecycleOperation::Stop => "Stop",
        LifecycleOperation::Restart => "Restart",
    }
}

impl LifecycleError {
    /// Returns the human-readable description of the rejection.
    pub fn message(&self) -> (text: String)
        ensures
            text@ == lifecycle_error_text(*self),
    {
        let mut text = String::new();
        text.append("application ");
        match *self {
            LifecycleError::UnknownApplication { application_id } => {
                append_application_id(&mut text, application_id);
                text.append(" is not registered");
            },
            LifecycleError::NotRunning { application_id, state } => {
                append_application_id(&mut text, application_id);
                text.append(" cannot perform work while ");
                text.append(state_str(state));
            },
            LifecycleError::InvalidTransition { application_id, state, operation } => {
                append_application_id(&mut text, application_id);
                text.append(" cannot perform ");
                text.append(operation_str(operation));
                text.append(" while ");
                text.append(state_str(state));
            },
        }
        proof {
            assert(text@ =~= lifecycle_error_text(*self));
        }
        text
    }
}

impl RegistryCreateError {
    /// Returns the human-readable description of the failure.
    pub fn message(&self) -> (text: String)
        ensures
            text@ == registry_create_error_text(*self),
    {
        match *self {
            RegistryCreateError::ZeroCapacity => "application capacity must be positive".to_owned(),
            RegistryCreateError::CapacityAllocationFailed { requested } => {
                let mut text = String::new();
                text.append("could not reserve lifecycle storage for ");
                append_decimal(&mut text, requested);
                text.append(" applications");
                proof {
                    assert(text@ =~= registry_create_error_text(*self));
                }
                text
            },
        }
    }
}

impl RegistrationError {
    /// Returns the human-readable description of the failure.
    pub fn message(&self) -> (text: String)
        ensures
            text@ == registration_error_text(*self),
    {
        match *self {
            RegistrationError::RegistryFull { capacity } => {
                let mut text = String::new();
                text.append("application registry is full at capacity ");
                append_decimal(&mut text, capacity);
                proof {
                    assert(text@ =~= registration_error_text(*self));
                }
                text
            },
        }
    }
}

/// The LC1 transition table: the state an operation leads to, if it is valid.
pub open spec fn lc1_next(state: ApplicationState, operation: LifecycleOperation) -> Option<
    ApplicationState,
> {
    match (state, operation) {
        (ApplicationState::Registered, LifecycleOperation::Start) => Some(
            ApplicationState::Running,
        ),
        (ApplicationState::Running, LifecycleOperation::Stop) => Some(ApplicationState::Stopped),
        (ApplicationState::Stopped, LifecycleOperation::Restart) => Some(
            ApplicationState::Running,
        ),
        _ => None,
    }
}

/// Executable form of the LC1 transition table.
pub fn next_state(state: ApplicationState, operation: LifecycleOperation) -> (next: Option<
    ApplicationState,
>)
    ensures
        next == lc1_next(state, operation),
{
    match (state, operation) {
        (ApplicationState::Registered, LifecycleOperation::Start) => Some(
            ApplicationState::Running,
        ),
        (ApplicationState::Running, LifecycleOperation::Stop) => Some(ApplicationState::Stopped),
        (ApplicationState::Stopped, LifecycleOperation::Restart) => Some(
            ApplicationState::Running,
        ),
        _ => None,
    }
}

/// What a lifecycle operation on a sequence of record states returns.
pub open spec fn lifecycle_result(
    states: Seq<ApplicationState>,
    application_id: ApplicationId,
    operation: LifecycleOperation,
) -> Result<ApplicationState, LifecycleError> {
    if application_id.0 >= states.len() {
        Err(LifecycleError::UnknownApplication { application_id })
    } else {
        match lc1_next(states[application_id.0 as int], operation) {
            Some(next) => Ok(next),
            None => Err(
                LifecycleError::InvalidTransition {
                    application_id,
                    state: states[application_id.0 as int],
                    operation,
                },
            ),
        }
    }
}

/// The record states after a lifecycle operation: only an accepted
/// transition changes, and only the addressed record.
pub open spec fn lifecycle_states_after(
    states: Seq<ApplicationState>,
    application_id: ApplicationId,
    operation: LifecycleOperation,
) -> Seq<ApplicationState> {
    match lifecycle_result(states, application_id, operation) {
        Ok(next) => states.update(application_id.0 as int, next),
        Err(_) => states,
    }
}

/// What a state query returns for a sequence of record states.
pub open spec fn state_query(states: Seq<ApplicationState>, application_id: ApplicationId) -> Result<
    ApplicationState,
    LifecycleError,
> {
    if application_id.0 < states.len() {
        Ok(states[application_id.0 as int])
    } else {
        Err(LifecycleError::UnknownApplication { application_id })
    }
}

/// `Failed` is terminal: no LC1 operation leaves it.
pub proof fn lemma_failed_is_terminal(operation: LifecycleOperation)
    ensures
        lc1_next(ApplicationState::Failed, operation) is None,
{
}

/// No LC1 operation enters `Failed`: only an application callback error can.
pub proof fn lemma_transitions_never_enter_failed(
    state: ApplicationState,
    operation: LifecycleOperation,
)
    ensures
        lc1_next(state, operation) != Some(ApplicationState::Failed),
{
}

/// A rejected lifecycle operation leaves every record state unchanged, and an
/// accepted one changes only the addressed record to the returned state.
pub proof fn lemma_operation_changes_only_addressed_record(
    states: Seq<ApplicationState>,
    application_id: ApplicationId,
    operation: LifecycleOperation,
)
    ensures
        lifecycle_states_after(states, application_id, operation).len() == states.len(),
        lifecycle_result(states, application_id, operation) is Err ==> lifecycle_states_after(
            states,
            application_id,
            operation,
        ) == states,
        lifecycle_result(states, application_id, operation) matches Ok(next) ==> {
            &&& lifecycle_states_after(states, application_id, operation)[application_id.0 as int]
                == next
            &&& forall|i: int|
                0 <= i < states.len() && i != application_id.0 ==> #[trigger] lifecycle_states_after(
                    states,
                    application_id,
                    operation,
                )[i] == states[i]
        },
{
}

/// A registry whose records never failed still has none failed after any
/// lifecycle operation.
pub proof fn lemma_registry_operations_never_fail_records(
    states: Seq<ApplicationState>,
    application_id: ApplicationId,
    operation: LifecycleOperation,
)
    requires
        forall|i: int| 0 <= i < states.len() ==> states[i] != ApplicationState::Failed,
    ensures
        forall|i: int|
            0 <= i < states.len() ==> #[trigger] lifecycle_states_after(
                states,
                application_id,
                operation,
            )[i] != ApplicationState::Failed,
{
}

/// A successful stop followed by restart resumes the record in `Running`,
/// leaving every record as it was before the stop.
pub proof fn lemma_stop_then_restart_resumes(
    states: Seq<ApplicationState>,
    application_id: ApplicationId,
)
    requires
        lifecycle_result(states, application_id, LifecycleOperation::Stop) is Ok,
    ensures
        lifecycle_result(
            lifecycle_states_after(states, application_id, LifecycleOperation::Stop),
            application_id,
            LifecycleOperation::Restart,
        ) == Ok::<ApplicationState, LifecycleError>(ApplicationState::Running),
        lifecycle_states_after(
            lifecycle_states_after(states, application_id, LifecycleOperation::Stop),
            application_id,
            LifecycleOperation::Restart,
        ) == states,
{
    let stopped = lifecycle_states_after(states, application_id, LifecycleOperation::Stop);
    assert(stopped[application_id.0 as int] == ApplicationState::Stopped);
    assert(stopped.update(application_id.0 as int, ApplicationState::Running) =~= states);
}

/// A bounded registry of runtime-local identities and LC1 lifecycle records.
///
/// Identities are registration positions; there is no removal, so they are
/// never reused during the registry's lifetime.
#[derive(Debug)]
pub struct LifecycleRegistry {
    records: Vec<ApplicationState>,
    max_applications: usize,
}

impl View for LifecycleRegistry {
    type V = Seq<ApplicationState>;

    closed spec fn view(&self) -> Seq<ApplicationState> {
        self.records@
    }
}

/// No record is `Failed`.
pub open spec fn never_failed(states: Seq<ApplicationState>) -> bool {
    forall|i: int| 0 <= i < states.len() ==> #[trigger] states[i] != ApplicationState::Failed
}

impl LifecycleRegistry {
    /// The configured logical record limit.
    pub closed spec fn limit(&self) -> usize {
        self.max_applications
    }

    /// The registry holds no more records than its positive configured limit.
    pub open spec fn wf(&self) -> bool {
        &&& 0 < self.limit()
        &&& self@.len() <= self.limit()
    }

    /// Creates a registry with a positive, fixed application capacity.
    ///
    /// A zero capacity is rejected; storage that cannot be reserved is
    /// reported with the requested count.
    pub fn new(max_applications: usize) -> (result: Result<Self, RegistryCreateError>)
        ensures
            max_applications == 0 <==> result == Err::<Self, _>(RegistryCreateError::ZeroCapacity),
            result matches Ok(registry) ==> {
                &&& registry.wf()
                &&& registry@ == Seq::<ApplicationState>::empty()
                &&& never_failed(registry@)
                &&& registry.limit() == max_applications
            },
            result matches Err(RegistryCreateError::CapacityAllocationFailed { requested }) ==> {
                &&& requested == max_applications
                &&& max_applications > 0
            },
            max_applications * vstd::layout::size_of::<ApplicationState>() > isize::MAX ==> result
                == Err::<Self, _>(
                RegistryCreateError::CapacityAllocationFailed { requested: max_applications },
            ),
    {
        if max_applications == 0 {
            return Err(RegistryCreateError::ZeroCapacity);
        }
        let mut records: Vec<ApplicationState> = Vec::new();
        if !crate::storage::reserve_vec(&mut records, max_applications) {
            return Err(RegistryCreateError::CapacityAllocationFailed { requested: max_applications });
        }
        Ok(LifecycleRegistry { records, max_applications })
    }

    /// Creates a registry that holds the given lifecycle records in
    /// registration order, for restoring recorded states.
    ///
    /// Capacity is checked and reserved as by [`LifecycleRegistry::new`].
    pub fn from_states(max_applications: usize, states: &[ApplicationState]) -> (result: Result<
        Self,
        RegistryCreateError,
    >)
        requires
            states@.len() <= max_applications,
        ensures
            max_applications == 0 <==> result == Err::<Self, _>(RegistryCreateError::ZeroCapacity),
            result matches Ok(registry) ==> {
                &&& registry.wf()
                &&& registry@ == states@
                &&& registry.limit() == max_applications
            },
            result matches Err(RegistryCreateError::CapacityAllocationFailed { requested }) ==> {
                &&& requested == max_applications
                &&& max_applications > 0
            },
    {
        let mut registry = match LifecycleRegistry::new(max_applications) {
            Ok(registry) => registry,
            Err(error) => {
                return Err(error);
            },
        };
        let mut index: usize = 0;
        while index < states.len()
            invariant
                index <= states@.len(),
                states@.len() <= max_applications,
                registry.max_applications == max_applications,
                registry@ == states@.subrange(0, index as int),
            decreases states@.len() - index,
        {
            let ghost before = registry@;
            registry.records.push(states[index]);
            proof {
                assert(registry@ =~= before.push(states@[index as int]));
            }
            index = index + 1;
            proof {
                assert(registry@ =~= states@.subrange(0, index as int));
            }
        }
        proof {
            assert(states@.subrange(0, states@.len() as int) =~= states@);
        }
        Ok(registry)
    }

    /// Returns the configured logical record limit.
    pub fn capacity(&self) -> (capacity: usize)
        ensures
            capacity == self.limit(),
    {
        self.max_applications
    }

    /// Returns the number of registered logical applications.
    pub fn len(&self) -> (len: usize)
        ensures
            len == self@.len(),
    {
        self.records.len()
    }

    /// Returns whether no logical applications are registered.
    pub fn is_empty(&self) -> (empty: bool)
        ensures
            empty == (self@.len() == 0),
    {
        self.records.len() == 0
    }

    /// Allocates one identity in `Registered` at the next registration position.
    ///
    /// A full registry is rejected without mutation.
    pub fn register(&mut self) -> (result: Result<ApplicationId, RegistrationError>)
        ensures
            final(self).limit() == old(self).limit(),
            old(self)@.len() >= old(self).limit() ==> {
                &&& result == Err::<ApplicationId, _>(
                    RegistrationError::RegistryFull { capacity: old(self).limit() },
                )
                &&& final(self)@ == old(self)@
            },
            old(self).wf() ==> final(self).wf(),
            never_failed(old(self)@) ==> never_failed(final(self)@),
            old(self)@.len() < old(self).limit() ==> {
                &&& result == Ok::<_, RegistrationError>(ApplicationId(old(self)@.len() as usize))
                &&& final(self)@ == old(self)@.push(ApplicationState::Registered)
            },
    {
        if self.records.len() >= self.max_applications {
            return Err(RegistrationError::RegistryFull { capacity: self.max_applications });
        }
        let application_id = ApplicationId(self.records.len());
        self.records.push(ApplicationState::Registered);
        proof {
            assert(self@ =~= old(self)@.push(ApplicationState::Registered));
        }
        Ok(application_id)
    }

    /// Returns the current state of a registered logical application.
    pub fn state(&self, application_id: ApplicationId) -> (result: Result<
        ApplicationState,
        LifecycleError,
    >)
        ensures
            result == state_query(self@, application_id),
    {
        if application_id.0 < self.records.len() {
            Ok(self.records[application_id.0])
        } else {
            Err(LifecycleError::UnknownApplication { application_id })
        }
    }

    /// Applies `Registered -> Running`; anything else is rejected unchanged.
    pub fn start(&mut self, application_id: ApplicationId) -> (result: Result<
        ApplicationState,
        LifecycleError,
    >)
        ensures
            result == lifecycle_result(old(self)@, application_id, LifecycleOperation::Start),
            final(self)@ == lifecycle_states_after(
                old(self)@,
                application_id,
                LifecycleOperation::Start,
            ),
            final(self).limit() == old(self).limit(),
            final(self)@.len() == old(self)@.len(),
            never_failed(old(self)@) ==> never_failed(final(self)@),
    {
        self.apply(application_id, LifecycleOperation::Start)
    }

    /// Applies `Running -> Stopped`; anything else is rejected unchanged.
    pub fn stop(&mut self, application_id: ApplicationId) -> (result: Result<
        ApplicationState,
        LifecycleError,
    >)
        ensures
            result == lifecycle_result(old(self)@, application_id, LifecycleOperation::Stop),
            final(self)@ == lifecycle_states_after(
                old(self)@,
                application_id,
                LifecycleOperation::Stop,
            ),
            final(self).limit() == old(self).limit(),
            final(self)@.len() == old(self)@.len(),
            never_failed(old(self)@) ==> never_failed(final(self)@),
    {
        self.apply(application_id, LifecycleOperation::Stop)
    }

    /// Applies the in-place transition `Stopped -> Running`; anything else is
    /// rejected unchanged.
    pub fn restart(&mut self, application_id: ApplicationId) -> (result: Result<
        ApplicationState,
        LifecycleError,
    >)
        ensures
            result == lifecycle_result(old(self)@, application_id, LifecycleOperation::Restart),
            final(self)@ == lifecycle_states_after(
                old(self)@,
                application_id,
                LifecycleOperation::Restart,
            ),
            final(self).limit() == old(self).limit(),
            final(self)@.len() == old(self)@.len(),
            never_failed(old(self)@) ==> never_failed(final(self)@),
    {
        self.apply(application_id, LifecycleOperation::Restart)
    }

    fn apply(&mut self, application_id: ApplicationId, operation: LifecycleOperation) -> (result:
        Result<ApplicationState, LifecycleError>)
        ensures
            result == lifecycle_result(old(self)@, application_id, operation),
            final(self)@ == lifecycle_states_after(old(self)@, application_id, operation),
            final(self).limit() == old(self).limit(),
            final(self)@.len() == old(self)@.len(),
    {
        if application_id.0 >= self.records.len() {
            return Err(LifecycleError::UnknownApplication { application_id });
        }
        let current = self.records[application_id.0];
        match next_state(current, operation) {
            None => Err(
                LifecycleError::InvalidTransition { application_id, state: current, operation },
            ),
            Some(next) => {
                self.records.set(application_id.0, next);
                proof {
                    assert(self@ =~= old(self)@.update(application_id.0 as int, next));
                }
                Ok(next)
            },
        }
    }
}


/// In a registry that has held no failed record (every registry built by
/// `new` and changed only by its operations), a state query succeeds exactly
/// for registered positions and never reports `Failed`.
pub proof fn lemma_registry_state_is_never_failed(
    states: Seq<ApplicationState>,
    application_id: ApplicationId,
)
    requires
        never_failed(states),
    ensures
        state_query(states, application_id) is Ok <==> application_id.0 < states.len(),
        state_query(states, application_id) matches Ok(state) ==> state
            != ApplicationState::Failed,
{
}

} // verus!
