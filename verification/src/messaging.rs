//! Bounded in-process messages and serial fan-out.
//!
//! A message bus copies an immutable topology of per-application inboxes,
//! reserves each inbox up front, and processes matching destinations in
//! application-registration order. A full inbox keeps its older entries and
//! rejects the newest delivery while unaffected destinations continue.
use std::collections::VecDeque;
use vstd::laws_eq::obeys_concrete_eq;
use vstd::prelude::*;

use crate::lifecycle::ApplicationId;

verus! {

/// An in-process message with a maximum payload length.
///
/// The topic type is mission-selected and is not a wire identifier.
#[derive(Clone, Debug, PartialEq, Eq)]
pub struct Message<Topic, const MAX_PAYLOAD_BYTES: usize> {
    topic: Topic,
    payload: Vec<u8>,
}

impl<Topic, const MAX_PAYLOAD_BYTES: usize> View for Message<Topic, MAX_PAYLOAD_BYTES> {
    type V = (Topic, Seq<u8>);

    closed spec fn view(&self) -> (Topic, Seq<u8>) {
        (self.topic, self.payload@)
    }
}

/// Failure to construct a message.
#[derive(Clone, Copy, Debug, PartialEq, Eq, Structural)]
pub enum MessageCreateError {
    /// The supplied payload exceeded the message type's limit.
    PayloadTooLong {
        /// Supplied payload length in bytes.
        length: usize,
        /// Maximum payload length accepted by the message type.
        maximum: usize,
    },
}

impl<Topic: Copy, const MAX_PAYLOAD_BYTES: usize> Message<Topic, MAX_PAYLOAD_BYTES> {
    /// Creates a message by copying the payload.
    ///
    /// Empty payloads are valid, including when the limit is zero.
    pub fn try_new(topic: Topic, payload: &[u8]) -> (result: Result<Self, MessageCreateError>)
        ensures
            payload@.len() > MAX_PAYLOAD_BYTES <==> result is Err,
            result matches Err(error) ==> error == (MessageCreateError::PayloadTooLong {
                length: payload@.len() as usize,
                maximum: MAX_PAYLOAD_BYTES,
            }),
            result matches Ok(message) ==> message@ == (topic, payload@),
    {
        if payload.len() > MAX_PAYLOAD_BYTES {
            return Err(
                MessageCreateError::PayloadTooLong {
                    length: payload.len(),
                    maximum: MAX_PAYLOAD_BYTES,
                },
            );
        }
        Ok(Message { topic, payload: crate::storage::copy_bytes(payload) })
    }

    /// Borrows the mission-defined topic value.
    pub fn topic(&self) -> (topic: &Topic)
        ensures
            *topic == self@.0,
    {
        &self.topic
    }

    /// Returns the payload.
    pub fn payload(&self) -> (payload: &[u8])
        ensures
            payload@ == self@.1,
    {
        self.payload.as_slice()
    }

    /// Returns the payload limit in bytes.
    pub fn payload_capacity(&self) -> (capacity: usize)
        ensures
            capacity == MAX_PAYLOAD_BYTES,
    {
        MAX_PAYLOAD_BYTES
    }

    /// An owned copy with the same topic and payload.
    pub fn duplicate(&self) -> (copy: Self)
        ensures
            copy@ == self@,
    {
        Message { topic: self.topic, payload: crate::storage::copy_bytes(self.payload.as_slice()) }
    }
}

/// Immutable mission configuration for one application inbox.
///
/// Configurations passed to [`MessageBus::new`] must use identities from one
/// issuer in registration order.
#[derive(Clone, Copy, Debug)]
pub struct ApplicationInboxConfig<'a, Topic> {
    application_id: ApplicationId,
    capacity: usize,
    topics: &'a [Topic],
}

impl<'a, Topic> View for ApplicationInboxConfig<'a, Topic> {
    type V = (ApplicationId, usize, Seq<Topic>);

    closed spec fn view(&self) -> (ApplicationId, usize, Seq<Topic>) {
        (self.application_id, self.capacity, self.topics@)
    }
}

impl<'a, Topic> ApplicationInboxConfig<'a, Topic> {
    /// Describes one inbox and its complete immutable topic set.
    pub fn new(application_id: ApplicationId, capacity: usize, topics: &'a [Topic]) -> (config:
        Self)
        ensures
            config@ == (application_id, capacity, topics@),
    {
        ApplicationInboxConfig { application_id, capacity, topics }
    }
}

/// Immutable inbox configuration for the application at the same
/// registration position.
#[derive(Clone, Copy, Debug)]
pub struct RuntimeInboxConfig<'a, Topic> {
    capacity: usize,
    topics: &'a [Topic],
}

impl<'a, Topic> View for RuntimeInboxConfig<'a, Topic> {
    type V = (usize, Seq<Topic>);

    closed spec fn view(&self) -> (usize, Seq<Topic>) {
        (self.capacity, self.topics@)
    }
}

impl<'a, Topic> RuntimeInboxConfig<'a, Topic> {
    /// Describes one runtime-owned inbox and its immutable topic set.
    pub fn new(capacity: usize, topics: &'a [Topic]) -> (config: Self)
        ensures
            config@ == (capacity, topics@),
    {
        RuntimeInboxConfig { capacity, topics }
    }
}

/// Failure to construct the configured bounded message topology.
#[derive(Clone, Copy, Debug, PartialEq, Eq, Structural)]
pub enum MessageBusCreateError {
    /// No application inbox was configured.
    NoInboxes,
    /// An identity was not supplied at its registration-order position.
    ApplicationOutOfOrder {
        /// Identity found in the configuration.
        application_id: ApplicationId,
        /// Zero-based registration position required at this location.
        expected_index: usize,
    },
    /// An application inbox had no delivery slots.
    ZeroInboxCapacity {
        /// Identity whose configured capacity was zero.
        application_id: ApplicationId,
    },
    /// One application listed the same topic more than once.
    DuplicateTopic {
        /// Identity whose topic set contained the duplicate.
        application_id: ApplicationId,
        /// Position of the first equal topic.
        first_index: usize,
        /// Position of the repeated equal topic.
        duplicate_index: usize,
    },
    /// Storage for the endpoint table could not be reserved.
    EndpointStorageAllocationFailed {
        /// Requested number of application endpoints.
        requested: usize,
    },
    /// Storage for one topic set could not be reserved.
    TopicStorageAllocationFailed {
        /// Identity whose topic storage could not be reserved.
        application_id: ApplicationId,
        /// Requested number of topics.
        requested: usize,
    },
    /// Storage for one bounded inbox could not be reserved.
    InboxStorageAllocationFailed {
        /// Identity whose inbox storage could not be reserved.
        application_id: ApplicationId,
        /// Requested number of delivery slots.
        requested: usize,
    },
}

/// A per-destination result from one serial publication.
#[derive(Clone, Copy, Debug, PartialEq, Eq, Structural)]
pub struct DestinationOutcome {
    /// The destination processed at this route position.
    pub application_id: ApplicationId,
    /// Whether the destination accepted or rejected the delivery.
    pub status: DeliveryStatus,
}

impl DestinationOutcome {
    /// Returns the destination processed at this route position.
    pub fn application_id(&self) -> (application_id: ApplicationId)
        ensures
            application_id == self.application_id,
    {
        self.application_id
    }

    /// Returns whether this destination accepted or rejected the delivery.
    pub fn status(&self) -> (status: DeliveryStatus)
        ensures
            status == self.status,
    {
        self.status
    }
}

/// The result of attempting delivery to one matching endpoint.
#[derive(Clone, Copy, Debug, PartialEq, Eq, Structural)]
pub enum DeliveryStatus {
    /// The message was appended to the destination inbox.
    Delivered,
    /// The inbox limit was already reached; its older entries were kept.
    InboxFull,
    /// The application was known but not available to receive.
    Unavailable,
}

/// Publisher-visible summary derived from ordered destination outcomes.
#[derive(Clone, Copy, Debug, PartialEq, Eq, Structural)]
pub enum PublishClassification {
    /// The published topic had no configured destination.
    NoSubscribers,
    /// Every configured destination accepted the message.
    Complete,
    /// At least one destination accepted and at least one rejected it.
    Partial,
    /// Destinations existed, but none accepted the message.
    WhollyUndelivered,
}

/// The classification of an ordered outcome sequence.
pub open spec fn classify(outcomes: Seq<DestinationOutcome>) -> PublishClassification {
    if outcomes.len() == 0 {
        PublishClassification::NoSubscribers
    } else if forall|i: int|
        0 <= i < outcomes.len() ==> #[trigger] outcomes[i].status == DeliveryStatus::Delivered {
        PublishClassification::Complete
    } else if forall|i: int|
        0 <= i < outcomes.len() ==> #[trigger] outcomes[i].status != DeliveryStatus::Delivered {
        PublishClassification::WhollyUndelivered
    } else {
        PublishClassification::Partial
    }
}

/// Ordered publisher-visible evidence for one serial publication.
#[derive(Debug, PartialEq, Eq)]
pub struct PublishReport {
    outcomes: Vec<DestinationOutcome>,
}

impl View for PublishReport {
    type V = Seq<DestinationOutcome>;

    closed spec fn view(&self) -> Seq<DestinationOutcome> {
        self.outcomes@
    }
}

impl PublishReport {
    /// Classifies delivery from the ordered outcomes.
    pub fn classification(&self) -> (classification: PublishClassification)
        ensures
            classification == classify(self@),
    {
        if self.outcomes.len() == 0 {
            return PublishClassification::NoSubscribers;
        }
        let mut any_delivered = false;
        let mut any_rejected = false;
        let mut index: usize = 0;
        while index < self.outcomes.len()
            invariant
                index <= self@.len(),
                any_delivered == exists|i: int|
                    0 <= i < index && #[trigger] self@[i].status == DeliveryStatus::Delivered,
                any_rejected == exists|i: int|
                    0 <= i < index && #[trigger] self@[i].status != DeliveryStatus::Delivered,
            decreases self@.len() - index,
        {
            if self.outcomes[index].status == DeliveryStatus::Delivered {
                any_delivered = true;
            } else {
                any_rejected = true;
            }
            index = index + 1;
        }
        if !any_rejected {
            PublishClassification::Complete
        } else if !any_delivered {
            PublishClassification::WhollyUndelivered
        } else {
            PublishClassification::Partial
        }
    }

    /// Returns destination results in application-registration order.
    pub fn outcomes(&self) -> (outcomes: &[DestinationOutcome])
        ensures
            outcomes@ == self@,
    {
        self.outcomes.as_slice()
    }
}

/// Failure before a publication modifies any inbox.
#[derive(Clone, Copy, Debug, PartialEq, Eq, Structural)]
pub enum PublishError {
    /// The complete result vector could not be reserved.
    ReportAllocationFailed {
        /// Number of matching destinations whose results required storage.
        destinations: usize,
    },
}

/// Failure to inspect or consume an inbox outside the configured topology.
#[derive(Clone, Copy, Debug, PartialEq, Eq, Structural)]
pub enum InboxAccessError {
    /// The identity does not name an inbox in this message bus.
    UnknownApplication {
        /// Identity supplied by the caller.
        application_id: ApplicationId,
    },
}

/// The first position before `duplicate` whose topic equals the one there.
pub open spec fn first_match<Topic>(topics: Seq<Topic>, duplicate: int, from: int) -> Option<int>
    decreases duplicate - from,
{
    if from >= duplicate {
        None
    } else if topics[from] == topics[duplicate] {
        Some(from)
    } else {
        first_match(topics, duplicate, from + 1)
    }
}

/// The first repeated topic at or after position `from`, with the position
/// of its earliest equal predecessor.
pub open spec fn first_duplicate<Topic>(topics: Seq<Topic>, from: int) -> Option<(int, int)>
    decreases topics.len() - from,
{
    if from >= topics.len() || from < 0 {
        None
    } else {
        match first_match(topics, from, 0) {
            Some(first) => Some((first, from)),
            None => first_duplicate(topics, from + 1),
        }
    }
}

/// The configuration error of one endpoint, in precedence order: a position
/// mismatch, a zero capacity, then the first repeated topic.
pub open spec fn endpoint_error<Topic>(
    position: int,
    config: (ApplicationId, usize, Seq<Topic>),
) -> Option<MessageBusCreateError> {
    if config.0.0 != position {
        Some(
            MessageBusCreateError::ApplicationOutOfOrder {
                application_id: config.0,
                expected_index: position as usize,
            },
        )
    } else if config.1 == 0 {
        Some(MessageBusCreateError::ZeroInboxCapacity { application_id: config.0 })
    } else {
        match first_duplicate(config.2, 0) {
            Some((first, duplicate)) => Some(
                MessageBusCreateError::DuplicateTopic {
                    application_id: config.0,
                    first_index: first as usize,
                    duplicate_index: duplicate as usize,
                },
            ),
            None => None,
        }
    }
}

/// The first endpoint configuration error at or after position `from`.
pub open spec fn first_topology_error<Topic>(
    configs: Seq<(ApplicationId, usize, Seq<Topic>)>,
    from: int,
) -> Option<MessageBusCreateError>
    decreases configs.len() - from,
{
    if from >= configs.len() || from < 0 {
        None
    } else {
        match endpoint_error(from, configs[from]) {
            Some(error) => Some(error),
            None => first_topology_error(configs, from + 1),
        }
    }
}

/// The views of application inbox configurations.
pub open spec fn inbox_config_views<Topic>(configs: Seq<ApplicationInboxConfig<'_, Topic>>) -> Seq<
    (ApplicationId, usize, Seq<Topic>),
> {
    configs.map_values(|config: ApplicationInboxConfig<'_, Topic>| config@)
}

/// Runtime inbox configurations with the identity of their position.
pub open spec fn runtime_config_views<Topic>(configs: Seq<RuntimeInboxConfig<'_, Topic>>) -> Seq<
    (ApplicationId, usize, Seq<Topic>),
> {
    configs.map(|i: int, config: RuntimeInboxConfig<'_, Topic>| (ApplicationId(i as usize), config@.0, config@.1))
}

/// The status of one matching delivery attempt.
pub open spec fn delivery_status(available: bool, pending: nat, capacity: usize) -> DeliveryStatus {
    if !available {
        DeliveryStatus::Unavailable
    } else if pending >= capacity {
        DeliveryStatus::InboxFull
    } else {
        DeliveryStatus::Delivered
    }
}

#[derive(Debug)]
struct ApplicationEndpoint<Topic, const MAX_PAYLOAD_BYTES: usize> {
    capacity: usize,
    topics: Vec<Topic>,
    messages: VecDeque<Message<Topic, MAX_PAYLOAD_BYTES>>,
}

impl<Topic, const MAX_PAYLOAD_BYTES: usize> ApplicationEndpoint<Topic, MAX_PAYLOAD_BYTES> {
    spec fn inbox(&self) -> Seq<(Topic, Seq<u8>)> {
        self.messages@.map_values(|message: Message<Topic, MAX_PAYLOAD_BYTES>| message@)
    }
}

/// A finite serial routing core with immutable subscriptions.
///
/// Endpoint `i` is the inbox of the application registered at position
/// `i`. Inbox limits are enforced independently of allocator capacity, and
/// destinations are processed in registration order.
#[derive(Debug)]
pub struct MessageBus<Topic, const MAX_PAYLOAD_BYTES: usize> {
    endpoints: Vec<ApplicationEndpoint<Topic, MAX_PAYLOAD_BYTES>>,
}

impl<Topic, const MAX_PAYLOAD_BYTES: usize> MessageBus<Topic, MAX_PAYLOAD_BYTES> {
    /// Number of configured endpoints.
    pub closed spec fn endpoint_count(&self) -> nat {
        self.endpoints@.len()
    }

    /// Logical slot limit of endpoint `i`.
    pub closed spec fn inbox_limit(&self, i: int) -> usize {
        self.endpoints@[i].capacity
    }

    /// Immutable topic set of endpoint `i`.
    pub closed spec fn topics_of(&self, i: int) -> Seq<Topic> {
        self.endpoints@[i].topics@
    }

    /// Queued messages of endpoint `i`, oldest first.
    pub closed spec fn inbox(&self, i: int) -> Seq<(Topic, Seq<u8>)> {
        self.endpoints@[i].inbox()
    }

    /// Every inbox has a positive limit and holds no more than it.
    pub open spec fn wf(&self) -> bool {
        forall|i: int|
            0 <= i < self.endpoint_count() ==> {
                &&& #[trigger] self.inbox_limit(i) > 0
                &&& self.inbox(i).len() <= self.inbox_limit(i)
            }
    }

    /// Two buses have the same immutable topology.
    pub open spec fn same_topology(&self, other: &Self) -> bool {
        &&& self.endpoint_count() == other.endpoint_count()
        &&& forall|i: int|
            0 <= i < self.endpoint_count() ==> {
                &&& #[trigger] self.inbox_limit(i) == other.inbox_limit(i)
                &&& self.topics_of(i) == other.topics_of(i)
            }
    }

    /// Every inbox except possibly the one at `except` is unchanged.
    pub open spec fn inboxes_unchanged_except(&self, other: &Self, except: int) -> bool {
        forall|i: int|
            0 <= i < self.endpoint_count() && i != except ==> #[trigger] other.inbox(i)
                == self.inbox(i)
    }

    /// The bus topology matches the configuration views and every inbox is empty.
    pub open spec fn configured_as(&self, configs: Seq<(ApplicationId, usize, Seq<Topic>)>) -> bool {
        &&& self.endpoint_count() == configs.len()
        &&& forall|i: int|
            0 <= i < configs.len() ==> {
                &&& #[trigger] self.inbox_limit(i) == configs[i].1
                &&& self.topics_of(i) == configs[i].2
                &&& self.inbox(i) == Seq::<(Topic, Seq<u8>)>::empty()
            }
    }

    /// The destination outcomes of publishing `topic` to endpoints `0..n`.
    pub open spec fn publish_outcomes(&self, topic: Topic, available: Seq<bool>, n: int) -> Seq<
        DestinationOutcome,
    >
        decreases n,
    {
        if n <= 0 {
            Seq::empty()
        } else if self.topics_of(n - 1).contains(topic) {
            self.publish_outcomes(topic, available, n - 1).push(
                DestinationOutcome {
                    application_id: ApplicationId((n - 1) as usize),
                    status: delivery_status(
                        available[n - 1],
                        self.inbox(n - 1).len(),
                        self.inbox_limit(n - 1),
                    ),
                },
            )
        } else {
            self.publish_outcomes(topic, available, n - 1)
        }
    }

    /// The number of endpoints among `0..n` that subscribe to `topic`.
    pub open spec fn subscriber_count(&self, topic: Topic, n: int) -> nat
        decreases n,
    {
        if n <= 0 {
            0
        } else if self.topics_of(n - 1).contains(topic) {
            self.subscriber_count(topic, n - 1) + 1
        } else {
            self.subscriber_count(topic, n - 1)
        }
    }

    /// Endpoint `i`'s inbox after publishing `message` with the given availability.
    pub open spec fn inbox_after_publish(
        &self,
        i: int,
        message: (Topic, Seq<u8>),
        available: Seq<bool>,
    ) -> Seq<(Topic, Seq<u8>)> {
        if self.topics_of(i).contains(message.0) && delivery_status(
            available[i],
            self.inbox(i).len(),
            self.inbox_limit(i),
        ) == DeliveryStatus::Delivered {
            self.inbox(i).push(message)
        } else {
            self.inbox(i)
        }
    }
}

/// The outcome sequence has one entry per subscribing endpoint.
pub proof fn lemma_outcome_count<Topic, const MAX_PAYLOAD_BYTES: usize>(
    bus: &MessageBus<Topic, MAX_PAYLOAD_BYTES>,
    topic: Topic,
    available: Seq<bool>,
    n: int,
)
    ensures
        bus.publish_outcomes(topic, available, n).len() == bus.subscriber_count(topic, n),
        bus.subscriber_count(topic, n) <= if n <= 0 { 0 } else { n },
    decreases n,
{
    if n > 0 {
        lemma_outcome_count(bus, topic, available, n - 1);
    }
}

impl<Topic: Copy + Eq, const MAX_PAYLOAD_BYTES: usize> ApplicationEndpoint<Topic, MAX_PAYLOAD_BYTES> {
    fn subscribes_to(&self, topic: &Topic) -> (subscribed: bool)
        requires
            obeys_concrete_eq::<Topic>(),
        ensures
            subscribed == self.topics@.contains(*topic),
    {
        let mut index: usize = 0;
        while index < self.topics.len()
            invariant
                obeys_concrete_eq::<Topic>(),
                index <= self.topics@.len(),
                forall|j: int| 0 <= j < index ==> self.topics@[j] != *topic,
            decreases self.topics@.len() - index,
        {
            proof {
                reveal(obeys_concrete_eq);
            }
            if self.topics[index] == *topic {
                return true;
            }
            index = index + 1;
        }
        false
    }

    fn enqueue(&mut self, message: &Message<Topic, MAX_PAYLOAD_BYTES>, available: bool) -> (status:
        DeliveryStatus)
        ensures
            status == delivery_status(available, old(self).inbox().len(), old(self).capacity),
            final(self).capacity == old(self).capacity,
            final(self).topics@ == old(self).topics@,
            final(self).inbox() == if status == DeliveryStatus::Delivered {
                old(self).inbox().push(message@)
            } else {
                old(self).inbox()
            },
    {
        if !available {
            return DeliveryStatus::Unavailable;
        }
        if self.messages.len() >= self.capacity {
            return DeliveryStatus::InboxFull;
        }
        self.messages.push_back(message.duplicate());
        proof {
            assert(self.inbox() =~= old(self).inbox().push(message@));
        }
        DeliveryStatus::Delivered
    }
}

/// Finds the first repeated topic, with its earliest equal predecessor.
fn find_duplicate_topic<Topic: Copy + Eq>(topics: &[Topic]) -> (found: Option<(usize, usize)>)
    requires
        obeys_concrete_eq::<Topic>(),
    ensures
        found matches Some((first, duplicate)) ==> first_duplicate(topics@, 0) == Some(
            (first as int, duplicate as int),
        ),
        found is None ==> first_duplicate(topics@, 0) is None,
{
    proof {
        reveal(obeys_concrete_eq);
    }
    let mut duplicate: usize = 0;
    while duplicate < topics.len()
        invariant
            obeys_concrete_eq::<Topic>(),
            duplicate <= topics@.len(),
            first_duplicate(topics@, 0) == first_duplicate(topics@, duplicate as int),
        decreases topics@.len() - duplicate,
    {
        let mut first: usize = 0;
        while first < duplicate
            invariant
                obeys_concrete_eq::<Topic>(),
                duplicate < topics@.len(),
                first <= duplicate,
                first_duplicate(topics@, 0) == first_duplicate(topics@, duplicate as int),
                first_match(topics@, duplicate as int, 0) == first_match(
                    topics@,
                    duplicate as int,
                    first as int,
                ),
            decreases duplicate - first,
        {
            proof {
                reveal(obeys_concrete_eq);
            }
            if topics[first] == topics[duplicate] {
                proof {
                    assert(topics@[first as int] == topics@[duplicate as int]);
                    assert(first_match(topics@, duplicate as int, first as int) == Some(first as int));
                    assert(first_duplicate(topics@, duplicate as int) == Some(
                        (first as int, duplicate as int),
                    ));
                }
                return Some((first, duplicate));
            }
            proof {
                assert(topics@[first as int] != topics@[duplicate as int]);
            }
            first = first + 1;
        }
        proof {
            assert(first_match(topics@, duplicate as int, duplicate as int) is None);
            assert(first_duplicate(topics@, duplicate as int) == first_duplicate(
                topics@,
                duplicate + 1,
            ));
        }
        duplicate = duplicate + 1;
    }
    proof {
        assert(first_duplicate(topics@, topics@.len() as int) is None);
    }
    None
}

/// Checks one endpoint configuration in precedence order.
fn validate_endpoint<Topic: Copy + Eq>(
    position: usize,
    application_id: ApplicationId,
    capacity: usize,
    topics: &[Topic],
) -> (result: Result<(), MessageBusCreateError>)
    requires
        obeys_concrete_eq::<Topic>(),
    ensures
        result matches Err(error) ==> endpoint_error(
            position as int,
            (application_id, capacity, topics@),
        ) == Some(error),
        result is Ok ==> endpoint_error(position as int, (application_id, capacity, topics@))
            is None,
{
    if application_id.0 != position {
        return Err(
            MessageBusCreateError::ApplicationOutOfOrder { application_id, expected_index: position },
        );
    }
    if capacity == 0 {
        return Err(MessageBusCreateError::ZeroInboxCapacity { application_id });
    }
    match find_duplicate_topic(topics) {
        Some((first_index, duplicate_index)) => Err(
            MessageBusCreateError::DuplicateTopic { application_id, first_index, duplicate_index },
        ),
        None => Ok(()),
    }
}

/// Reserves and fills one endpoint.
fn create_endpoint<Topic: Copy, const MAX_PAYLOAD_BYTES: usize>(
    application_id: ApplicationId,
    capacity: usize,
    configured_topics: &[Topic],
) -> (result: Result<ApplicationEndpoint<Topic, MAX_PAYLOAD_BYTES>, MessageBusCreateError>)
    ensures
        result matches Ok(endpoint) ==> {
            &&& endpoint.capacity == capacity
            &&& endpoint.topics@ == configured_topics@
            &&& endpoint.inbox() == Seq::<(Topic, Seq<u8>)>::empty()
        },
        result matches Err(error) ==> {
            ||| error matches MessageBusCreateError::TopicStorageAllocationFailed {
                application_id: id,
                requested,
            } && id == application_id && requested == configured_topics@.len() && requested > 0
            ||| error == (MessageBusCreateError::InboxStorageAllocationFailed {
                application_id,
                requested: capacity,
            })
        },
{
    let mut topics: Vec<Topic> = Vec::new();
    if !crate::storage::reserve_vec(&mut topics, configured_topics.len()) {
        return Err(
            MessageBusCreateError::TopicStorageAllocationFailed {
                application_id,
                requested: configured_topics.len(),
            },
        );
    }
    let mut index: usize = 0;
    while index < configured_topics.len()
        invariant
            index <= configured_topics@.len(),
            topics@ == configured_topics@.subrange(0, index as int),
        decreases configured_topics@.len() - index,
    {
        topics.push(configured_topics[index]);
        index = index + 1;
        proof {
            assert(topics@ =~= configured_topics@.subrange(0, index as int));
        }
    }
    proof {
        assert(configured_topics@.subrange(0, configured_topics@.len() as int) =~= configured_topics@);
    }
    let mut messages: VecDeque<Message<Topic, MAX_PAYLOAD_BYTES>> = VecDeque::new();
    if !crate::storage::reserve_deque(&mut messages, capacity) {
        return Err(
            MessageBusCreateError::InboxStorageAllocationFailed { application_id, requested: capacity },
        );
    }
    let endpoint = ApplicationEndpoint { capacity, topics, messages };
    proof {
        assert(endpoint.inbox() =~= Seq::<(Topic, Seq<u8>)>::empty());
    }
    Ok(endpoint)
}

/// If no endpoint before `k` has an error, the first error overall is the
/// first one at or after `k`.
proof fn lemma_first_error_skips_valid_prefix<Topic>(
    configs: Seq<(ApplicationId, usize, Seq<Topic>)>,
    k: int,
)
    requires
        0 <= k <= configs.len(),
        forall|i: int| 0 <= i < k ==> #[trigger] endpoint_error(i, configs[i]) is None,
    ensures
        first_topology_error(configs, 0) == first_topology_error(configs, k),
    decreases k,
{
    if k > 0 {
        lemma_first_error_skips_valid_prefix(configs, k - 1);
        assert(endpoint_error(k - 1, configs[k - 1]) is None);
    }
}

/// What constructing a bus from configuration views may return: the first
/// configuration error when there is one; otherwise a configured bus or a
/// storage reservation failure naming the exact request.
pub open spec fn bus_creation_result<Topic, const MAX_PAYLOAD_BYTES: usize>(
    configs: Seq<(ApplicationId, usize, Seq<Topic>)>,
    result: Result<MessageBus<Topic, MAX_PAYLOAD_BYTES>, MessageBusCreateError>,
) -> bool {
    &&& configs.len() == 0 ==> result == Err::<MessageBus<Topic, MAX_PAYLOAD_BYTES>, _>(
        MessageBusCreateError::NoInboxes,
    )
    &&& (configs.len() > 0 && first_topology_error(configs, 0) is Some) ==> result
        == Err::<MessageBus<Topic, MAX_PAYLOAD_BYTES>, _>(first_topology_error(configs, 0)->Some_0)
    &&& configs.len() > 0 && first_topology_error(configs, 0) is None ==> match result {
        Ok(bus) => bus.configured_as(configs) && bus.wf(),
        Err(MessageBusCreateError::EndpointStorageAllocationFailed { requested }) => requested
            == configs.len(),
        Err(MessageBusCreateError::TopicStorageAllocationFailed { application_id, requested }) => {
            &&& application_id.0 < configs.len()
            &&& requested == configs[application_id.0 as int].2.len()
            &&& requested > 0
        },
        Err(MessageBusCreateError::InboxStorageAllocationFailed { application_id, requested }) => {
            &&& application_id.0 < configs.len()
            &&& requested == configs[application_id.0 as int].1
        },
        Err(_) => false,
    }
}

impl<Topic, const MAX_PAYLOAD_BYTES: usize> MessageBus<Topic, MAX_PAYLOAD_BYTES> {
    /// A bus with no endpoints, used only as a stand-in while a configured
    /// bus is lent out.
    pub(crate) fn vacant() -> (bus: Self)
        ensures
            bus.endpoint_count() == 0,
            bus.wf(),
    {
        MessageBus { endpoints: Vec::new() }
    }
}

impl<Topic: Copy + Eq, const MAX_PAYLOAD_BYTES: usize> MessageBus<Topic, MAX_PAYLOAD_BYTES> {
    /// Copies and validates the caller-supplied immutable endpoint topology.
    ///
    /// An empty topology, an out-of-order identity, a zero inbox capacity, a
    /// repeated topic, or a storage reservation failure is rejected without
    /// producing a partial bus.
    pub fn new(configurations: &[ApplicationInboxConfig<'_, Topic>]) -> (result: Result<
        Self,
        MessageBusCreateError,
    >)
        requires
            obeys_concrete_eq::<Topic>(),
        ensures
            bus_creation_result(inbox_config_views(configurations@), result),
    {
        let ghost views = inbox_config_views(configurations@);
        if configurations.len() == 0 {
            return Err(MessageBusCreateError::NoInboxes);
        }
        let mut index: usize = 0;
        while index < configurations.len()
            invariant
                obeys_concrete_eq::<Topic>(),
                views == inbox_config_views(configurations@),
                index <= configurations@.len(),
                forall|i: int| 0 <= i < index ==> #[trigger] endpoint_error(i, views[i]) is None,
            decreases configurations@.len() - index,
        {
            let configuration = &configurations[index];
            if let Err(error) = validate_endpoint(
                index,
                configuration.application_id,
                configuration.capacity,
                configuration.topics,
            ) {
                proof {
                    assert(views[index as int] == configuration@);
                    lemma_first_error_skips_valid_prefix(views, index as int);
                }
                return Err(error);
            }
            proof {
                assert(views[index as int] == configuration@);
            }
            index = index + 1;
        }
        proof {
            lemma_first_error_skips_valid_prefix(views, views.len() as int);
        }
        let mut endpoints: Vec<ApplicationEndpoint<Topic, MAX_PAYLOAD_BYTES>> = Vec::new();
        if !crate::storage::reserve_vec(&mut endpoints, configurations.len()) {
            return Err(
                MessageBusCreateError::EndpointStorageAllocationFailed {
                    requested: configurations.len(),
                },
            );
        }
        let mut index: usize = 0;
        while index < configurations.len()
            invariant
                views == inbox_config_views(configurations@),
                index <= configurations@.len(),
                endpoints@.len() == index,
                forall|i: int|
                    0 <= i < index ==> {
                        &&& (#[trigger] endpoints@[i]).capacity == views[i].1
                        &&& endpoints@[i].topics@ == views[i].2
                        &&& endpoints@[i].inbox() == Seq::<(Topic, Seq<u8>)>::empty()
                        &&& views[i].0.0 == i
                        &&& views[i].1 > 0
                    },
                forall|i: int| 0 <= i < views.len() ==> #[trigger] endpoint_error(i, views[i]) is None,
                first_topology_error(views, 0) is None,
                configurations@.len() > 0,
            decreases configurations@.len() - index,
        {
            let configuration = &configurations[index];
            proof {
                assert(views[index as int] == configuration@);
                assert(endpoint_error(index as int, views[index as int]) is None);
            }
            proof {
                assert(configuration.application_id.0 == index);
                assert(configuration.capacity > 0);
            }
            match create_endpoint(
                configuration.application_id,
                configuration.capacity,
                configuration.topics,
            ) {
                Ok(endpoint) => {
                    endpoints.push(endpoint);
                    proof {
                        assert(endpoints@[index as int] == endpoint);
                    }
                },
                Err(error) => {
                    proof {
                        assert(configuration.application_id == ApplicationId(index));
                        assert(views[index as int].2 == configuration.topics@);
                        assert(views[index as int].1 == configuration.capacity);
                    }
                    return Err(error);
                },
            }
            index = index + 1;
        }
        let bus = MessageBus { endpoints };
        proof {
            assert forall|i: int| 0 <= i < views.len() implies {
                &&& #[trigger] bus.inbox_limit(i) == views[i].1
                &&& bus.topics_of(i) == views[i].2
                &&& bus.inbox(i) == Seq::<(Topic, Seq<u8>)>::empty()
            } by {
                assert(endpoint_error(i, views[i]) is None);
            }
        }
        Ok(bus)
    }

    /// Constructs a bus with one fresh inbox per registration position.
    pub(crate) fn from_runtime_configs(configurations: &[RuntimeInboxConfig<'_, Topic>]) -> (result:
        Result<Self, MessageBusCreateError>)
        requires
            obeys_concrete_eq::<Topic>(),
        ensures
            bus_creation_result(runtime_config_views(configurations@), result),
    {
        let ghost views = runtime_config_views(configurations@);
        if configurations.len() == 0 {
            return Err(MessageBusCreateError::NoInboxes);
        }
        let mut index: usize = 0;
        while index < configurations.len()
            invariant
                obeys_concrete_eq::<Topic>(),
                views == runtime_config_views(configurations@),
                index <= configurations@.len(),
                forall|i: int| 0 <= i < index ==> #[trigger] endpoint_error(i, views[i]) is None,
            decreases configurations@.len() - index,
        {
            let configuration = &configurations[index];
            if let Err(error) = validate_endpoint(
                index,
                ApplicationId(index),
                configuration.capacity,
                configuration.topics,
            ) {
                proof {
                    assert(views[index as int] == (
                        ApplicationId(index),
                        configuration@.0,
                        configuration@.1,
                    ));
                    lemma_first_error_skips_valid_prefix(views, index as int);
                }
                return Err(error);
            }
            proof {
                assert(views[index as int] == (
                    ApplicationId(index),
                    configuration@.0,
                    configuration@.1,
                ));
            }
            index = index + 1;
        }
        proof {
            lemma_first_error_skips_valid_prefix(views, views.len() as int);
        }
        let mut endpoints: Vec<ApplicationEndpoint<Topic, MAX_PAYLOAD_BYTES>> = Vec::new();
        if !crate::storage::reserve_vec(&mut endpoints, configurations.len()) {
            return Err(
                MessageBusCreateError::EndpointStorageAllocationFailed {
                    requested: configurations.len(),
                },
            );
        }
        let mut index: usize = 0;
        while index < configurations.len()
            invariant
                views == runtime_config_views(configurations@),
                index <= configurations@.len(),
                endpoints@.len() == index,
                forall|i: int|
                    0 <= i < index ==> {
                        &&& (#[trigger] endpoints@[i]).capacity == views[i].1
                        &&& endpoints@[i].topics@ == views[i].2
                        &&& endpoints@[i].inbox() == Seq::<(Topic, Seq<u8>)>::empty()
                        &&& views[i].1 > 0
                    },
                forall|i: int| 0 <= i < views.len() ==> #[trigger] endpoint_error(i, views[i]) is None,
                first_topology_error(views, 0) is None,
                configurations@.len() > 0,
            decreases configurations@.len() - index,
        {
            let configuration = &configurations[index];
            proof {
                assert(views[index as int] == (
                    ApplicationId(index),
                    configuration@.0,
                    configuration@.1,
                ));
                assert(endpoint_error(index as int, views[index as int]) is None);
            }
            proof {
                assert(configuration.capacity > 0);
            }
            match create_endpoint(ApplicationId(index), configuration.capacity, configuration.topics) {
                Ok(endpoint) => {
                    endpoints.push(endpoint);
                    proof {
                        assert(endpoints@[index as int] == endpoint);
                    }
                },
                Err(error) => {
                    proof {
                        assert(views[index as int].0 == ApplicationId(index));
                        assert(views[index as int].2 == configuration.topics@);
                        assert(views[index as int].1 == configuration.capacity);
                    }
                    return Err(error);
                },
            }
            index = index + 1;
        }
        let bus = MessageBus { endpoints };
        proof {
            assert forall|i: int| 0 <= i < views.len() implies {
                &&& #[trigger] bus.inbox_limit(i) == views[i].1
                &&& bus.topics_of(i) == views[i].2
                &&& bus.inbox(i) == Seq::<(Topic, Seq<u8>)>::empty()
            } by {
                assert(endpoint_error(i, views[i]) is None);
            }
        }
        Ok(bus)
    }

    /// Publishes to every matching endpoint, treating all as available.
    ///
    /// Publication does not wait, retry, or spill. Matching endpoints are
    /// processed in registration order; a full inbox keeps its older entries
    /// while the others continue.
    pub fn publish(&mut self, message: &Message<Topic, MAX_PAYLOAD_BYTES>) -> (result: Result<
        PublishReport,
        PublishError,
    >)
        requires
            obeys_concrete_eq::<Topic>(),
        ensures
            publication(
                *old(self),
                *final(self),
                message@,
                Seq::new(old(self).endpoint_count(), |i: int| true),
                result,
            ),
    {
        let mut available: Vec<bool> = Vec::new();
        let mut index: usize = 0;
        while index < self.endpoints.len()
            invariant
                index <= self.endpoints@.len(),
                available@ == Seq::new(index as nat, |i: int| true),
            decreases self.endpoints@.len() - index,
        {
            available.push(true);
            index = index + 1;
            proof {
                assert(available@ =~= Seq::new(index as nat, |i: int| true));
            }
        }
        self.publish_with_availability(message, available.as_slice())
    }

    /// Returns the configured slot limit for one inbox.
    pub fn inbox_capacity(&self, application_id: ApplicationId) -> (result: Result<
        usize,
        InboxAccessError,
    >)
        ensures
            application_id.0 < self.endpoint_count() ==> result == Ok::<_, InboxAccessError>(
                self.inbox_limit(application_id.0 as int),
            ),
            application_id.0 >= self.endpoint_count() ==> result == Err::<usize, _>(
                InboxAccessError::UnknownApplication { application_id },
            ),
    {
        if application_id.0 < self.endpoints.len() {
            Ok(self.endpoints[application_id.0].capacity)
        } else {
            Err(InboxAccessError::UnknownApplication { application_id })
        }
    }

    /// Returns the number of queued messages in one inbox.
    pub fn pending(&self, application_id: ApplicationId) -> (result: Result<usize, InboxAccessError>)
        ensures
            application_id.0 < self.endpoint_count() ==> result == Ok::<_, InboxAccessError>(
                self.inbox(application_id.0 as int).len() as usize,
            ),
            application_id.0 >= self.endpoint_count() ==> result == Err::<usize, _>(
                InboxAccessError::UnknownApplication { application_id },
            ),
    {
        if application_id.0 < self.endpoints.len() {
            Ok(self.endpoints[application_id.0].messages.len())
        } else {
            Err(InboxAccessError::UnknownApplication { application_id })
        }
    }

    /// Removes and returns the oldest queued message for one application.
    pub fn dequeue(&mut self, application_id: ApplicationId) -> (result: Result<
        Option<Message<Topic, MAX_PAYLOAD_BYTES>>,
        InboxAccessError,
    >)
        ensures
            final(self).same_topology(old(self)),
            old(self).inboxes_unchanged_except(final(self), application_id.0 as int),
            application_id.0 >= old(self).endpoint_count() ==> {
                &&& result == Err::<Option<Message<Topic, MAX_PAYLOAD_BYTES>>, _>(
                    InboxAccessError::UnknownApplication { application_id },
                )
                &&& final(self).inbox(application_id.0 as int) == old(self).inbox(
                    application_id.0 as int,
                )
            },
            application_id.0 < old(self).endpoint_count() ==> {
                &&& result is Ok
                &&& inbox_after_take(
                    old(self).inbox(application_id.0 as int),
                    final(self).inbox(application_id.0 as int),
                    result->Ok_0,
                )
            },
            old(self).wf() ==> final(self).wf(),
    {
        if application_id.0 >= self.endpoints.len() {
            return Err(InboxAccessError::UnknownApplication { application_id });
        }
        Ok(self.dequeue_runtime_inbox(application_id))
    }

    /// Removes the oldest message of a configured inbox.
    pub(crate) fn dequeue_runtime_inbox(&mut self, application_id: ApplicationId) -> (message: Option<
        Message<Topic, MAX_PAYLOAD_BYTES>,
    >)
        requires
            application_id.0 < old(self).endpoint_count(),
        ensures
            final(self).same_topology(old(self)),
            old(self).inboxes_unchanged_except(final(self), application_id.0 as int),
            inbox_after_take(
                old(self).inbox(application_id.0 as int),
                final(self).inbox(application_id.0 as int),
                message,
            ),
            old(self).wf() ==> final(self).wf(),
    {
        let endpoint = &mut self.endpoints[application_id.0];
        let message = endpoint.messages.pop_front();
        proof {
            if message is Some {
                assert(endpoint.inbox() =~= old(self).inbox(application_id.0 as int).drop_first());
            }
            assert(self.endpoints@ == old(self).endpoints@.update(application_id.0 as int, *endpoint));
            assert forall|i: int| 0 <= i < self.endpoint_count() && old(self).wf() implies {
                &&& #[trigger] self.inbox_limit(i) > 0
                &&& self.inbox(i).len() <= self.inbox_limit(i)
            } by {
                assert(old(self).inbox_limit(i) > 0);
            }
        }
        message
    }

    /// Clears one configured inbox and returns how many messages it held.
    pub(crate) fn clear_runtime_inbox(&mut self, application_id: ApplicationId) -> (discarded: usize)
        requires
            application_id.0 < old(self).endpoint_count(),
        ensures
            final(self).same_topology(old(self)),
            old(self).inboxes_unchanged_except(final(self), application_id.0 as int),
            discarded == old(self).inbox(application_id.0 as int).len(),
            final(self).inbox(application_id.0 as int) == Seq::<(Topic, Seq<u8>)>::empty(),
            old(self).wf() ==> final(self).wf(),
    {
        let endpoint = &mut self.endpoints[application_id.0];
        let discarded = endpoint.messages.len();
        endpoint.messages.clear();
        proof {
            assert(endpoint.inbox() =~= Seq::<(Topic, Seq<u8>)>::empty());
            assert(self.endpoints@ == old(self).endpoints@.update(application_id.0 as int, *endpoint));
            assert forall|i: int| 0 <= i < self.endpoint_count() && old(self).wf() implies {
                &&& #[trigger] self.inbox_limit(i) > 0
                &&& self.inbox(i).len() <= self.inbox_limit(i)
            } by {
                assert(old(self).inbox_limit(i) > 0);
            }
        }
        discarded
    }

    /// Publishes with explicit per-endpoint availability.
    ///
    /// The report is reserved before any inbox changes; its failure leaves
    /// every inbox untouched.
    pub(crate) fn publish_with_availability(
        &mut self,
        message: &Message<Topic, MAX_PAYLOAD_BYTES>,
        available: &[bool],
    ) -> (result: Result<PublishReport, PublishError>)
        requires
            obeys_concrete_eq::<Topic>(),
            available@.len() == old(self).endpoint_count(),
        ensures
            publication(*old(self), *final(self), message@, available@, result),
    {
        let mut destination_count: usize = 0;
        let mut index: usize = 0;
        while index < self.endpoints.len()
            invariant
                obeys_concrete_eq::<Topic>(),
                index <= self.endpoints@.len(),
                destination_count == self.subscriber_count(message@.0, index as int),
                destination_count <= index,
            decreases self.endpoints@.len() - index,
        {
            if self.endpoints[index].subscribes_to(message.topic()) {
                destination_count = destination_count + 1;
            }
            index = index + 1;
        }
        let mut outcomes: Vec<DestinationOutcome> = Vec::new();
        if !crate::storage::reserve_vec(&mut outcomes, destination_count) {
            proof {
                lemma_outcome_count(&*self, message@.0, available@, self.endpoint_count() as int);
            }
            return Err(PublishError::ReportAllocationFailed { destinations: destination_count });
        }
        let ghost initial = *self;
        let mut index: usize = 0;
        while index < self.endpoints.len()
            invariant
                obeys_concrete_eq::<Topic>(),
                index <= self.endpoints@.len(),
                self.endpoints@.len() == initial.endpoint_count(),
                available@.len() == initial.endpoint_count(),
                initial.same_topology(&*self),
                forall|i: int|
                    index <= i < self.endpoints@.len() ==> #[trigger] self.inbox(i) == initial.inbox(
                        i,
                    ),
                forall|i: int|
                    0 <= i < index ==> #[trigger] self.inbox(i) == initial.inbox_after_publish(
                        i,
                        message@,
                        available@,
                    ),
                outcomes@ == initial.publish_outcomes(message@.0, available@, index as int),
            decreases self.endpoints@.len() - index,
        {
            let ghost before = *self;
            let subscribed = self.endpoints[index].subscribes_to(message.topic());
            proof {
                assert(before.topics_of(index as int) == initial.topics_of(index as int));
                assert(before.inbox_limit(index as int) == initial.inbox_limit(index as int));
                assert(before.inbox(index as int) == initial.inbox(index as int));
                assert(subscribed == initial.topics_of(index as int).contains(message@.0));
            }
            if subscribed {
                let status = self.endpoints[index].enqueue(message, available[index]);
                proof {
                    assert(status == delivery_status(
                        available@[index as int],
                        initial.inbox(index as int).len(),
                        initial.inbox_limit(index as int),
                    ));
                }
                outcomes.push(DestinationOutcome { application_id: ApplicationId(index), status });
                proof {
                    assert(outcomes@ =~= initial.publish_outcomes(
                        message@.0,
                        available@,
                        index as int,
                    ).push(DestinationOutcome { application_id: ApplicationId(index), status }));
                }
            }
            proof {
                assert(self.inbox(index as int) == initial.inbox_after_publish(
                    index as int,
                    message@,
                    available@,
                ));
                assert forall|i: int| 0 <= i < self.endpoints@.len() && i != index implies #[trigger] self.inbox(i) == before.inbox(i) by {}
            }
            index = index + 1;
        }
        proof {
            assert forall|i: int| 0 <= i < self.endpoint_count() && initial.wf() implies {
                &&& #[trigger] self.inbox_limit(i) > 0
                &&& self.inbox(i).len() <= self.inbox_limit(i)
            } by {
                assert(initial.inbox_limit(i) > 0);
                assert(self.inbox(i) == initial.inbox_after_publish(i, message@, available@));
            }
        }
        Ok(PublishReport { outcomes })
    }
}

/// The inbox after removing at most its oldest message, which is returned.
pub open spec fn inbox_after_take<Topic, const MAX_PAYLOAD_BYTES: usize>(
    before: Seq<(Topic, Seq<u8>)>,
    after: Seq<(Topic, Seq<u8>)>,
    taken: Option<Message<Topic, MAX_PAYLOAD_BYTES>>,
) -> bool {
    if before.len() == 0 {
        taken is None && after == before
    } else {
        taken matches Some(message) && message@ == before[0] && after == before.drop_first()
    }
}

/// One publication of `message` with per-endpoint availability: either the
/// report could not be reserved and nothing changed, or every matching
/// endpoint was attempted in registration order, only available endpoints
/// with a free slot received a copy, and the report lists each attempt.
pub open spec fn publication<Topic, const MAX_PAYLOAD_BYTES: usize>(
    before: MessageBus<Topic, MAX_PAYLOAD_BYTES>,
    after: MessageBus<Topic, MAX_PAYLOAD_BYTES>,
    message: (Topic, Seq<u8>),
    available: Seq<bool>,
    result: Result<PublishReport, PublishError>,
) -> bool {
    &&& after.same_topology(&before)
    &&& before.wf() ==> after.wf()
    &&& match result {
        Ok(report) => {
            &&& report@ == before.publish_outcomes(
                message.0,
                available,
                before.endpoint_count() as int,
            )
            &&& forall|i: int|
                0 <= i < before.endpoint_count() ==> #[trigger] after.inbox(i)
                    == before.inbox_after_publish(i, message, available)
        },
        Err(PublishError::ReportAllocationFailed { destinations }) => {
            &&& destinations == before.subscriber_count(
                message.0,
                before.endpoint_count() as int,
            )
            &&& destinations > 0
            &&& forall|i: int|
                0 <= i < before.endpoint_count() ==> #[trigger] after.inbox(i) == before.inbox(i)
        },
    }
}


/// A publication that an endpoint subscribes to, while it is available and
/// its inbox is empty, leaves exactly that message queued there: the next
/// take from the inbox returns the published message and empties it.
pub proof fn lemma_published_message_is_taken_back<Topic, const MAX_PAYLOAD_BYTES: usize>(
    before: MessageBus<Topic, MAX_PAYLOAD_BYTES>,
    after: MessageBus<Topic, MAX_PAYLOAD_BYTES>,
    message: (Topic, Seq<u8>),
    available: Seq<bool>,
    report: PublishReport,
    i: int,
    remaining: Seq<(Topic, Seq<u8>)>,
    taken: Option<Message<Topic, MAX_PAYLOAD_BYTES>>,
)
    requires
        before.wf(),
        publication(before, after, message, available, Ok(report)),
        0 <= i < before.endpoint_count(),
        before.topics_of(i).contains(message.0),
        available[i],
        before.inbox(i).len() == 0,
        inbox_after_take(after.inbox(i), remaining, taken),
    ensures
        taken matches Some(returned) && returned@ == message,
        remaining.len() == 0,
{
    assert(before.inbox_limit(i) > 0);
    assert(after.inbox(i) == before.inbox(i).push(message));
}

/// Every publication keeps the queued messages of every inbox as a prefix:
/// a delivery is appended behind all older messages, whatever their topic.
pub proof fn lemma_publication_appends_in_order<Topic, const MAX_PAYLOAD_BYTES: usize>(
    before: MessageBus<Topic, MAX_PAYLOAD_BYTES>,
    after: MessageBus<Topic, MAX_PAYLOAD_BYTES>,
    message: (Topic, Seq<u8>),
    available: Seq<bool>,
    result: Result<PublishReport, PublishError>,
    i: int,
)
    requires
        publication(before, after, message, available, result),
        0 <= i < before.endpoint_count(),
    ensures
        after.inbox(i) == before.inbox(i) || after.inbox(i) == before.inbox(i).push(message),
        after.inbox(i).subrange(0, before.inbox(i).len() as int) == before.inbox(i),
{
    assert(after.inbox(i) == before.inbox(i) || after.inbox(i) == before.inbox(i).push(message));
    assert(before.inbox(i).push(message).subrange(0, before.inbox(i).len() as int) =~= before.inbox(i));
    assert(before.inbox(i).subrange(0, before.inbox(i).len() as int) =~= before.inbox(i));
}

/// A full inbox rejects the newest message and keeps every older one.
pub proof fn lemma_full_inbox_keeps_older_messages<Topic, const MAX_PAYLOAD_BYTES: usize>(
    before: MessageBus<Topic, MAX_PAYLOAD_BYTES>,
    after: MessageBus<Topic, MAX_PAYLOAD_BYTES>,
    message: (Topic, Seq<u8>),
    available: Seq<bool>,
    result: Result<PublishReport, PublishError>,
    i: int,
)
    requires
        publication(before, after, message, available, result),
        0 <= i < before.endpoint_count(),
        before.inbox(i).len() >= before.inbox_limit(i),
    ensures
        after.inbox(i) == before.inbox(i),
{
}

/// The outcomes of a publication name exactly the subscribing endpoints, one
/// entry each, in registration order.
pub proof fn lemma_outcomes_follow_registration_order<Topic, const MAX_PAYLOAD_BYTES: usize>(
    bus: MessageBus<Topic, MAX_PAYLOAD_BYTES>,
    topic: Topic,
    available: Seq<bool>,
    n: int,
)
    requires
        0 <= n <= bus.endpoint_count(),
    ensures
        forall|j: int, k: int|
            #![trigger bus.publish_outcomes(topic, available, n)[j], bus.publish_outcomes(topic, available, n)[k]]
            0 <= j < k < bus.publish_outcomes(topic, available, n).len() ==> bus.publish_outcomes(
                topic,
                available,
                n,
            )[j].application_id.0 < bus.publish_outcomes(topic, available, n)[k].application_id.0,
        forall|j: int|
            0 <= j < bus.publish_outcomes(topic, available, n).len() ==> {
                let endpoint = #[trigger] bus.publish_outcomes(topic, available, n)[j].application_id.0 as int;
                &&& endpoint < n
                &&& bus.topics_of(endpoint).contains(topic)
            },
        forall|e: int|
            0 <= e < n && #[trigger] bus.topics_of(e).contains(topic) ==> exists|j: int|
                0 <= j < bus.publish_outcomes(topic, available, n).len() && #[trigger] bus.publish_outcomes(
                    topic,
                    available,
                    n,
                )[j].application_id.0 == e,
    decreases n,
{
    if n > 0 {
        lemma_outcomes_follow_registration_order(bus, topic, available, n - 1);
        assert(bus.endpoints.len() == bus.endpoint_count());
        let previous = bus.publish_outcomes(topic, available, n - 1);
        let current = bus.publish_outcomes(topic, available, n);
        if bus.topics_of(n - 1).contains(topic) {
            assert(current.len() == previous.len() + 1);
            assert forall|j: int| 0 <= j < previous.len() implies #[trigger] current[j] == previous[j] by {}
            assert(current[previous.len() as int].application_id.0 == n - 1);
            assert forall|e: int|
                0 <= e < n && #[trigger] bus.topics_of(e).contains(topic) implies exists|j: int|
                    0 <= j < current.len() && #[trigger] current[j].application_id.0 == e by {
                if e == n - 1 {
                    assert(current[previous.len() as int].application_id.0 == e);
                } else {
                    let j = choose|j: int| 0 <= j < previous.len() && #[trigger] previous[j].application_id.0 == e;
                    assert(current[j] == previous[j]);
                }
            }
        }
    }
}

/// A successful publication reports no subscribers exactly when no endpoint
/// subscribes to the message's topic.
pub proof fn lemma_no_subscribers_iff_unrouted<Topic, const MAX_PAYLOAD_BYTES: usize>(
    before: MessageBus<Topic, MAX_PAYLOAD_BYTES>,
    after: MessageBus<Topic, MAX_PAYLOAD_BYTES>,
    message: (Topic, Seq<u8>),
    available: Seq<bool>,
    report: PublishReport,
)
    requires
        publication(before, after, message, available, Ok(report)),
    ensures
        classify(report@) == PublishClassification::NoSubscribers <==> forall|i: int|
            0 <= i < before.endpoint_count() ==> !(#[trigger] before.topics_of(i).contains(message.0)),
{
    lemma_outcomes_follow_registration_order(
        before,
        message.0,
        available,
        before.endpoint_count() as int,
    );
    if report@.len() > 0 {
        let endpoint = report@[0].application_id.0 as int;
        assert(before.topics_of(endpoint).contains(message.0));
    }
}


/// In a well-formed bus every inbox holds no more messages than its fixed
/// positive limit; publication and dequeuing keep the topology, so a limit
/// never changes.
pub proof fn lemma_pending_within_inbox_limit<Topic, const MAX_PAYLOAD_BYTES: usize>(
    bus: MessageBus<Topic, MAX_PAYLOAD_BYTES>,
    i: int,
)
    requires
        bus.wf(),
        0 <= i < bus.endpoint_count(),
    ensures
        bus.inbox(i).len() <= bus.inbox_limit(i),
        0 < bus.inbox_limit(i),
{
}


/// How a report is classified from its statuses alone: no outcomes means no
/// subscribers; otherwise the report is complete when every destination
/// accepted, wholly undelivered when none did, and partial when some did and
/// some did not.
pub proof fn lemma_classification_follows_statuses(outcomes: Seq<DestinationOutcome>)
    ensures
        classify(outcomes) == PublishClassification::NoSubscribers <==> outcomes.len() == 0,
        classify(outcomes) == PublishClassification::Complete <==> outcomes.len() > 0 && forall|i: int|
            0 <= i < outcomes.len() ==> #[trigger] outcomes[i].status == DeliveryStatus::Delivered,
        classify(outcomes) == PublishClassification::WhollyUndelivered <==> outcomes.len() > 0
            && forall|i: int|
            0 <= i < outcomes.len() ==> #[trigger] outcomes[i].status != DeliveryStatus::Delivered,
        classify(outcomes) == PublishClassification::Partial <==> (exists|i: int|
            0 <= i < outcomes.len() && #[trigger] outcomes[i].status == DeliveryStatus::Delivered)
            && (exists|j: int|
            0 <= j < outcomes.len() && #[trigger] outcomes[j].status != DeliveryStatus::Delivered),
{
    if outcomes.len() > 0 {
        if forall|i: int|
            0 <= i < outcomes.len() ==> #[trigger] outcomes[i].status == DeliveryStatus::Delivered {
            assert(outcomes[0].status == DeliveryStatus::Delivered);
        } else if forall|i: int|
            0 <= i < outcomes.len() ==> #[trigger] outcomes[i].status != DeliveryStatus::Delivered {
            assert(outcomes[0].status != DeliveryStatus::Delivered);
        }
    }
}

/// What `first_match` finds: the earliest position in `from..duplicate`
/// whose topic equals the one at `duplicate`, or none when no such position
/// exists.
proof fn lemma_first_match_characterized<Topic>(topics: Seq<Topic>, duplicate: int, from: int)
    requires
        0 <= from,
        duplicate < topics.len(),
    ensures
        first_match(topics, duplicate, from) matches Some(first) ==> {
            &&& from <= first < duplicate
            &&& topics[first] == topics[duplicate]
            &&& forall|j: int| from <= j < first ==> topics[j] != topics[duplicate]
        },
        first_match(topics, duplicate, from) is None ==> forall|j: int|
            from <= j < duplicate ==> topics[j] != topics[duplicate],
    decreases duplicate - from,
{
    if from < duplicate && topics[from] != topics[duplicate] {
        lemma_first_match_characterized(topics, duplicate, from + 1);
    }
}

/// What `first_duplicate` finds, given that no repeat occurs before `from`:
/// the smallest position at or after `from` whose topic repeats an earlier
/// one, with the earliest earlier position holding that topic; or none when
/// all topics are distinct.
proof fn lemma_first_duplicate_from<Topic>(topics: Seq<Topic>, from: int)
    requires
        0 <= from,
        forall|j: int, k: int| 0 <= j < k < from && k < topics.len() ==> topics[j] != topics[k],
    ensures
        first_duplicate(topics, from) matches Some((first, duplicate)) ==> {
            &&& 0 <= first < duplicate < topics.len()
            &&& from <= duplicate
            &&& topics[first] == topics[duplicate]
            &&& forall|j: int| 0 <= j < first ==> topics[j] != topics[duplicate]
            &&& forall|j: int, k: int| 0 <= j < k < duplicate ==> topics[j] != topics[k]
        },
        first_duplicate(topics, from) is None ==> forall|j: int, k: int|
            0 <= j < k < topics.len() ==> topics[j] != topics[k],
    decreases topics.len() - from,
{
    if from < topics.len() {
        lemma_first_match_characterized(topics, from, 0);
        if first_match(topics, from, 0) is None {
            assert forall|j: int, k: int|
                0 <= j < k < from + 1 && k < topics.len() implies topics[j] != topics[k] by {
                if k == from {
                    assert(topics[j] != topics[from]);
                }
            }
            lemma_first_duplicate_from(topics, from + 1);
        }
    }
}

/// The reported duplicate topic is the first repeat: `duplicate` is the
/// smallest position whose topic equals an earlier one, and `first` is the
/// earliest position holding that topic; with no repeat, nothing is reported
/// and all topics are distinct.
pub proof fn lemma_first_duplicate_is_the_first_repeat<Topic>(topics: Seq<Topic>)
    ensures
        first_duplicate(topics, 0) matches Some((first, duplicate)) ==> {
            &&& 0 <= first < duplicate < topics.len()
            &&& topics[first] == topics[duplicate]
            &&& forall|j: int| 0 <= j < first ==> topics[j] != topics[duplicate]
            &&& forall|j: int, k: int| 0 <= j < k < duplicate ==> topics[j] != topics[k]
        },
        first_duplicate(topics, 0) is None <==> forall|j: int, k: int|
            0 <= j < k < topics.len() ==> topics[j] != topics[k],
{
    lemma_first_duplicate_from(topics, 0);
}

} // verus!
