//! Host-side building blocks for a small flight-software research framework:
//! bounded application lifecycle supervision, owned application execution,
//! structured events, injected framework time, finite schedules, bounded
//! configuration snapshots, and bounded in-process messaging.
pub mod lifecycle;
mod storage;
pub mod text;

pub use lifecycle::{
    ApplicationId, ApplicationState, LifecycleError, LifecycleOperation,
    LifecycleRegistry, RegistrationError, RegistryCreateError,
};
pub mod clock;

pub use clock::{
    Clock, ElapsedTime, FrameworkInstant, ManualClock, ManualClockAdvanceError, MAX_ELAPSED_NANOS,
    NANOS_PER_SEC,
};
pub mod events;

pub use events::{
    Event, EventEmitOutcome, EventQueue, EventQueueCreateError, EventSeverity, EventSource,
    EventTimestamp,
};
pub mod configuration;

pub use configuration::{ConfigurationError, ConfigurationSnapshot, ConfigurationTable};
pub mod messaging;

pub use messaging::{
    ApplicationInboxConfig, DeliveryStatus, DestinationOutcome, InboxAccessError, Message,
    MessageBus, MessageBusCreateError, MessageCreateError, PublishClassification, PublishError,
    PublishReport, RuntimeInboxConfig,
};
pub mod runtime;

pub use runtime::{
    Application, Runtime, RuntimeCreateError, RuntimeRegistrationError, RuntimeRestartError,
    RuntimeStartError, RuntimeStopError, RuntimeWorkError,
};
pub mod runtime_events;

pub use runtime_events::{FailureEventAttempt, RuntimeWorkEventError};
pub mod scheduling;

pub use scheduling::{
    ScheduledWork, ScheduledWorkError, ScheduledWorkOutcome, WorkSchedule, WorkScheduleCreateError,
};
pub mod application_messaging;

pub use application_messaging::{
    ApplicationMessageContext, MessageDispatchError, MessageDispatchOutcome, MessagingApplication,
};
pub mod messaging_runtime;

pub use messaging_runtime::{
    MessagingOperationError, MessagingRuntime, MessagingRuntimeCreateError,
    MessagingRuntimeCreateErrorKind, MessagingStopOutcome,
};
