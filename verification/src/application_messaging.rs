//! Application-facing bounded message handling.
//!
//! A messaging runtime dispatches one runtime-owned inbox delivery at a
//! time to a [`MessagingApplication`] together with a publish-only context.
//! The context exposes no dequeue, nested dispatch, lifecycle change, or raw
//! bus access.
use vstd::laws_eq::obeys_concrete_eq;
use vstd::prelude::*;

use crate::lifecycle::{ApplicationId, ApplicationState};
use crate::messaging::{publication, Message, MessageBus, PublishError, PublishReport};
use crate::runtime::Application;

verus! {

/// Application behavior for one queued message.
///
/// This is separate from [`Application::work`], which represents work not
/// caused by an inbox delivery. The runtime invokes it synchronously, only
/// for a running application, after removing exactly one oldest message.
pub trait MessagingApplication<Topic: Copy + Eq, const MAX_PAYLOAD_BYTES: usize>: Application {
    /// The error returned by this application's message callback.
    type MessageError;

    /// Handles one message with publish-only access to the integrated bus.
    ///
    /// The context can only publish; its dispatched identity, lifecycle
    /// snapshot, and origin stay as they were, which every use of its
    /// public interface guarantees.
    fn handle_message(
        &mut self,
        message: &Message<Topic, MAX_PAYLOAD_BYTES>,
        context: &mut ApplicationMessageContext<Topic, MAX_PAYLOAD_BYTES>,
    ) -> (outcome: Result<(), Self::MessageError>)
        ensures
            final(context).dispatched() == old(context).dispatched(),
            final(context).snapshot() == old(context).snapshot(),
            final(context).origin_bus() == old(context).origin_bus(),
    ;
}

/// Availability of each endpoint under a lifecycle-state snapshot: only
/// running applications accept deliveries.
pub open spec fn running_availability(states: Seq<ApplicationState>) -> Seq<bool> {
    states.map_values(|state: ApplicationState| state == ApplicationState::Running)
}

/// Only running applications hold queued deliveries.
pub open spec fn only_running_hold_deliveries<Topic, const MAX_PAYLOAD_BYTES: usize>(
    bus: MessageBus<Topic, MAX_PAYLOAD_BYTES>,
    states: Seq<ApplicationState>,
) -> bool {
    forall|i: int|
        0 <= i < bus.endpoint_count() && states[i] != ApplicationState::Running ==> #[trigger] bus.inbox(
            i,
        ).len() == 0
}

/// Between two states of one bus, each inbox only gained appended messages.
pub open spec fn inboxes_only_appended<Topic, const MAX_PAYLOAD_BYTES: usize>(
    before: MessageBus<Topic, MAX_PAYLOAD_BYTES>,
    after: MessageBus<Topic, MAX_PAYLOAD_BYTES>,
) -> bool {
    forall|i: int|
        0 <= i < before.endpoint_count() ==> #[trigger] before.inbox(i).is_prefix_of(after.inbox(i))
}

/// Publish-only framework access for one application message callback.
///
/// Publication uses lifecycle states captured immediately before the
/// callback; only applications running then receive deliveries.
pub struct ApplicationMessageContext<Topic: Copy + Eq, const MAX_PAYLOAD_BYTES: usize> {
    application_id: ApplicationId,
    message_bus: MessageBus<Topic, MAX_PAYLOAD_BYTES>,
    dispatch_states: Vec<ApplicationState>,
    origin: Ghost<MessageBus<Topic, MAX_PAYLOAD_BYTES>>,
}

impl<Topic: Copy + Eq, const MAX_PAYLOAD_BYTES: usize> ApplicationMessageContext<Topic, MAX_PAYLOAD_BYTES> {
    /// The context keeps the bus topology and well-formedness, publishes
    /// only to endpoints running in the snapshot, and only appends.
    #[verifier::type_invariant]
    spec fn context_invariant(self) -> bool {
        &&& obeys_concrete_eq::<Topic>()
        &&& self.message_bus.wf()
        &&& self.message_bus.same_topology(&self.origin@)
        &&& self.dispatch_states@.len() == self.message_bus.endpoint_count()
        &&& only_running_hold_deliveries(self.message_bus, self.dispatch_states@)
        &&& inboxes_only_appended(self.origin@, self.message_bus)
    }

    /// The identity of the application being dispatched.
    pub closed spec fn dispatched(&self) -> ApplicationId {
        self.application_id
    }

    /// The lifecycle snapshot that decides availability.
    pub closed spec fn snapshot(&self) -> Seq<ApplicationState> {
        self.dispatch_states@
    }

    /// The bus as the callback currently sees it.
    pub closed spec fn bus(&self) -> MessageBus<Topic, MAX_PAYLOAD_BYTES> {
        self.message_bus
    }

    /// The bus state when the context was created.
    pub closed spec fn origin_bus(&self) -> MessageBus<Topic, MAX_PAYLOAD_BYTES> {
        self.origin@
    }

    /// Returns the identity of the application being dispatched.
    pub fn application_id(&self) -> (application_id: ApplicationId)
        ensures
            application_id == self.dispatched(),
    {
        self.application_id
    }
}

impl<Topic: Copy + Eq, const MAX_PAYLOAD_BYTES: usize> ApplicationMessageContext<
    Topic,
    MAX_PAYLOAD_BYTES,
> {
    /// Creates a context over a bus whose non-running endpoints are empty.
    pub(crate) fn new(
        application_id: ApplicationId,
        message_bus: MessageBus<Topic, MAX_PAYLOAD_BYTES>,
        dispatch_states: Vec<ApplicationState>,
    ) -> (context: Self)
        requires
            obeys_concrete_eq::<Topic>(),
            message_bus.wf(),
            dispatch_states@.len() == message_bus.endpoint_count(),
            application_id.0 < message_bus.endpoint_count(),
            only_running_hold_deliveries(message_bus, dispatch_states@),
        ensures
            context.dispatched() == application_id,
            context.snapshot() == dispatch_states@,
            context.origin_bus() == message_bus,
    {
        ApplicationMessageContext {
            application_id,
            message_bus,
            dispatch_states,
            origin: Ghost(message_bus),
        }
    }

    /// A context over a bus with no endpoints, used only as a stand-in.
    fn vacant() -> (context: Self)
        requires
            obeys_concrete_eq::<Topic>(),
        ensures
            context.dispatched() == ApplicationId(0),
            context.snapshot() == Seq::<ApplicationState>::empty(),
            context.bus().endpoint_count() == 0,
            context.origin_bus() == context.bus(),
    {
        let message_bus = MessageBus::vacant();
        ApplicationMessageContext {
            application_id: ApplicationId(0),
            message_bus,
            dispatch_states: Vec::new(),
            origin: Ghost(message_bus),
        }
    }

    /// Returns the bus and lifecycle snapshot after the callback.
    pub(crate) fn into_parts(self) -> (parts: (MessageBus<Topic, MAX_PAYLOAD_BYTES>, Vec<ApplicationState>))
        ensures
            parts.1@ == self.snapshot(),
            parts.0.wf(),
            parts.0.same_topology(&self.origin_bus()),
            only_running_hold_deliveries(parts.0, self.snapshot()),
            inboxes_only_appended(self.origin_bus(), parts.0),
    {
        proof {
            use_type_invariant(&self);
        }
        (self.message_bus, self.dispatch_states)
    }

    /// Publishes immediately through the same bounded bus.
    ///
    /// Only applications running in the lifecycle snapshot accept the
    /// delivery; self-delivery, peer delivery, saturation, and unavailable
    /// destinations are reported in the ordinary ordered result.
    pub fn publish(&mut self, message: &Message<Topic, MAX_PAYLOAD_BYTES>) -> (result: Result<
        PublishReport,
        PublishError,
    >)
        ensures
            publication(
                old(self).bus(),
                final(self).bus(),
                message@,
                running_availability(old(self).snapshot()),
                result,
            ),
            final(self).snapshot() == old(self).snapshot(),
            final(self).dispatched() == old(self).dispatched(),
            final(self).origin_bus() == old(self).origin_bus(),
    {
        proof {
            use_type_invariant(&*self);
        }
        let mut available: Vec<bool> = Vec::new();
        let mut index: usize = 0;
        while index < self.dispatch_states.len()
            invariant
                index <= self.dispatch_states@.len(),
                available@ == running_availability(self.dispatch_states@).subrange(0, index as int),
            decreases self.dispatch_states@.len() - index,
        {
            available.push(self.dispatch_states[index] == ApplicationState::Running);
            index = index + 1;
            proof {
                assert(available@ =~= running_availability(self.dispatch_states@).subrange(
                    0,
                    index as int,
                ));
            }
        }
        proof {
            assert(available@ =~= running_availability(self.dispatch_states@));
        }
        let mut taken = ApplicationMessageContext::vacant();
        std::mem::swap(self, &mut taken);
        proof {
            use_type_invariant(&taken);
        }
        let ApplicationMessageContext { application_id, mut message_bus, dispatch_states, origin } =
            taken;
        let ghost before = message_bus;
        let result = message_bus.publish_with_availability(message, available.as_slice());
        proof {
            assert forall|i: int| 0 <= i < before.endpoint_count() implies #[trigger] before.inbox(
                i,
            ).is_prefix_of(message_bus.inbox(i)) by {
                assert(before.inbox(i).is_prefix_of(before.inbox(i).push(message@)));
                assert(before.inbox(i).is_prefix_of(before.inbox(i)));
            }
            assert forall|i: int| 0 <= i < origin@.endpoint_count() implies #[trigger] origin@.inbox(
                i,
            ).is_prefix_of(message_bus.inbox(i)) by {
                assert(origin@.inbox(i).is_prefix_of(before.inbox(i)));
                assert(before.inbox(i).is_prefix_of(message_bus.inbox(i)));
            }
        }
        *self = ApplicationMessageContext { application_id, message_bus, dispatch_states, origin };
        result
    }
}

/// Successful result of one dispatch attempt.
#[derive(Clone, Copy, Debug, PartialEq, Eq, Structural)]
pub enum MessageDispatchOutcome {
    /// The running application's inbox was empty; no callback ran.
    InboxEmpty,
    /// Exactly one oldest message was presented and the callback succeeded.
    Dispatched,
}

/// Failure before or during one application message callback.
#[derive(Debug, PartialEq, Eq, Structural)]
pub enum MessageDispatchError<E> {
    /// Identity or running-state validation rejected the request.
    Lifecycle(crate::lifecycle::LifecycleError),
    /// The selected application returned its message error.
    Application {
        /// Identity selected for dispatch.
        application_id: ApplicationId,
        /// The error returned by the application.
        source: E,
    },
}

} // verus!
