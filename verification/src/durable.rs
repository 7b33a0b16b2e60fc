//! Durable streams: the definitions submitted to the bus, and the ordered
//! bootstrap that makes sure a stream and its durable pull consumer exist.

use crate::cli::CommonArgs;
use crate::config::AppConfig;
use crate::pubsub::{subject_target, target_of};
use crate::resolve::NameField;
use crate::setup::{connection_url, name_of, required_name, url_of, SetupError};
use vstd::prelude::*;

verus! {

/// When the bus counts a delivered message as handled.
#[derive(Clone, Copy, Debug, PartialEq, Eq, Structural)]
pub enum AckPolicy {
    /// Each message must be acknowledged; one that is not is delivered again.
    Explicit,
    /// Nothing is acknowledged.
    Off,
    /// Acknowledging a message acknowledges all before it.
    All,
}

/// Which of the stream's messages a new consumer is given.
#[derive(Clone, Copy, Debug, PartialEq, Eq, Structural)]
pub enum DeliverPolicy {
    /// Every message the stream holds, those stored before the consumer
    /// existed included.
    All,
    /// The last message stored, and those after it.
    Last,
    /// Only messages stored after the consumer was created.
    New,
}

/// A stream as it is submitted to the bus: its name and the subject it
/// stores.
#[derive(Clone, Debug, PartialEq, Eq)]
pub struct StreamDefinition {
    pub name: String,
    pub subject: String,
}

/// A durable consumer as it is submitted to the bus.
#[derive(Clone, Debug, PartialEq, Eq)]
pub struct ConsumerDefinition {
    pub durable_name: String,
    pub ack_policy: AckPolicy,
    pub deliver_policy: DeliverPolicy,
}

/// Where the bootstrap connects, and what it makes sure exists.
#[derive(Clone, Debug, PartialEq, Eq)]
pub struct BootstrapPlan {
    pub url: String,
    pub stream: StreamDefinition,
    pub consumer: ConsumerDefinition,
}

/// Where a tool that works on a whole stream connects, and on which stream.
#[derive(Clone, Debug, PartialEq, Eq)]
pub struct StreamTarget {
    pub url: String,
    pub stream: String,
}

/// The steps of a bootstrap, in the order in which they are taken.
#[derive(Clone, Copy, Debug, PartialEq, Eq, Structural)]
pub enum BootstrapStep {
    CreateStream,
    GetStream,
    CreateConsumer,
}

/// Where a bootstrap stands.
#[derive(Clone, Copy, Debug, PartialEq, Eq, Structural)]
pub enum BootstrapState {
    /// The stream definition has been submitted.
    CreatingStream,
    /// The stream is confirmed; a handle to it is being fetched.
    FetchingStream,
    /// The consumer definition has been submitted under the stream.
    CreatingConsumer,
    /// Stream and consumer exist.
    Done,
    /// A step failed, and the bootstrap was given up.
    Failed,
}

/// What the bus reported of the step last asked for.
#[derive(Clone, Debug, PartialEq, Eq)]
pub enum BootstrapEvent {
    Succeeded,
    Failed(String),
}

/// Why a bootstrap was given up: the step that failed, and what the bus
/// said.
#[derive(Clone, Debug, PartialEq, Eq)]
pub struct BootstrapError {
    pub step: BootstrapStep,
    pub detail: String,
}

/// What the caller does next for the bootstrap.
#[derive(Clone, Debug, PartialEq, Eq)]
pub enum BootstrapAction {
    /// Create the stream, or update it to this definition.
    CreateOrUpdateStream(StreamDefinition),
    /// Fetch a handle to the stream of this name.
    GetStream(String),
    /// Create the consumer under the stream of this name.
    CreateConsumer { stream: String, definition: ConsumerDefinition },
    /// The bootstrap is complete.
    Finish,
    /// The bootstrap is given up.
    Fail(BootstrapError),
    /// The event does not belong to the state. Nothing has changed.
    Rejected,
}

/// A bootstrap under way: its definitions, and how far it has come.
#[derive(Clone, Debug, PartialEq, Eq)]
pub struct Bootstrap {
    pub state: BootstrapState,
    pub stream: StreamDefinition,
    pub consumer: ConsumerDefinition,
}

/// The definition of the durable pull consumer called `name`: every message
/// is acknowledged explicitly, and delivery starts with the first message
/// the stream holds.
pub open spec fn durable_consumer_of(name: String) -> ConsumerDefinition {
    ConsumerDefinition {
        durable_name: name,
        ack_policy: AckPolicy::Explicit,
        deliver_policy: DeliverPolicy::All,
    }
}

/// The plan of a bootstrap. URL, subject, stream name and consumer name are
/// settled in that order.
pub open spec fn bootstrap_plan_of(
    cfg: AppConfig,
    common: CommonArgs,
    stream: Option<String>,
    consumer: Option<String>,
) -> Result<BootstrapPlan, SetupError> {
    match target_of(cfg, common) {
        Err(e) => Err(e),
        Ok(target) => match name_of(stream, cfg.nats.stream, NameField::Stream) {
            Err(e) => Err(e),
            Ok(stream_name) => match name_of(consumer, cfg.nats.consumer, NameField::Consumer) {
                Err(e) => Err(e),
                Ok(consumer_name) => Ok(
                    BootstrapPlan {
                        url: target.url,
                        stream: StreamDefinition { name: stream_name, subject: target.subject },
                        consumer: durable_consumer_of(consumer_name),
                    },
                ),
            },
        },
    }
}

/// The target of a tool that works on a stream. URL and stream name are
/// settled in that order.
pub open spec fn stream_target_of(cfg: AppConfig, stream: Option<String>) -> Result<
    StreamTarget,
    SetupError,
> {
    match url_of(cfg) {
        Err(e) => Err(e),
        Ok(url) => match name_of(stream, cfg.nats.stream, NameField::Stream) {
            Err(e) => Err(e),
            Ok(name) => Ok(StreamTarget { url, stream: name }),
        },
    }
}

/// The state that follows `state` on `event`.
pub open spec fn next_state(state: BootstrapState, event: BootstrapEvent) -> BootstrapState {
    match (state, event) {
        (BootstrapState::CreatingStream, BootstrapEvent::Succeeded) => BootstrapState::FetchingStream,
        (BootstrapState::FetchingStream, BootstrapEvent::Succeeded) => BootstrapState::CreatingConsumer,
        (BootstrapState::CreatingConsumer, BootstrapEvent::Succeeded) => BootstrapState::Done,
        (BootstrapState::CreatingStream, BootstrapEvent::Failed(_)) => BootstrapState::Failed,
        (BootstrapState::FetchingStream, BootstrapEvent::Failed(_)) => BootstrapState::Failed,
        (BootstrapState::CreatingConsumer, BootstrapEvent::Failed(_)) => BootstrapState::Failed,
        _ => state,
    }
}

/// The step that a bootstrap in `state` is waiting on, if it waits on one.
pub open spec fn pending_step(state: BootstrapState) -> Option<BootstrapStep> {
    match state {
        BootstrapState::CreatingStream => Some(BootstrapStep::CreateStream),
        BootstrapState::FetchingStream => Some(BootstrapStep::GetStream),
        BootstrapState::CreatingConsumer => Some(BootstrapStep::CreateConsumer),
        _ => None,
    }
}

/// What a bootstrap asks for on `event`.
pub open spec fn next_action(bootstrap: Bootstrap, event: BootstrapEvent) -> BootstrapAction {
    match (bootstrap.state, event) {
        (BootstrapState::CreatingStream, BootstrapEvent::Succeeded) => BootstrapAction::GetStream(
            bootstrap.stream.name,
        ),
        (
            BootstrapState::FetchingStream,
            BootstrapEvent::Succeeded,
        ) => BootstrapAction::CreateConsumer {
            stream: bootstrap.stream.name,
            definition: bootstrap.consumer,
        },
        (BootstrapState::CreatingConsumer, BootstrapEvent::Succeeded) => BootstrapAction::Finish,
        (_, BootstrapEvent::Failed(detail)) => match pending_step(bootstrap.state) {
            Some(step) => BootstrapAction::Fail(BootstrapError { step, detail }),
            None => BootstrapAction::Rejected,
        },
        _ => BootstrapAction::Rejected,
    }
}

/// A bootstrap as it begins, and the first thing it asks for: the stream,
/// with its full definition.
pub open spec fn begun(stream: StreamDefinition, consumer: ConsumerDefinition) -> (
    Bootstrap,
    BootstrapAction,
) {
    (
        Bootstrap { state: BootstrapState::CreatingStream, stream, consumer },
        BootstrapAction::CreateOrUpdateStream(stream),
    )
}

/// What a bus holds that keeps its streams by name and the consumers of a
/// stream by their durable name, so that submitting a definition again
/// replaces the one held under that name. This is the behaviour that the
/// bootstrap relies on; the bus itself is not part of this crate.
pub ghost struct Registry {
    pub streams: Map<Seq<char>, StreamDefinition>,
    pub consumers: Map<(Seq<char>, Seq<char>), ConsumerDefinition>,
}

impl Registry {
    /// Whether such a bus carries out `action`: a stream can always be
    /// submitted, while fetching a stream or creating a consumer under it
    /// needs the stream to be there.
    pub open spec fn accepts(self, action: BootstrapAction) -> bool {
        match action {
            BootstrapAction::CreateOrUpdateStream(_) => true,
            BootstrapAction::GetStream(name) => self.streams.dom().contains(name@),
            BootstrapAction::CreateConsumer { stream, definition } => self.streams.dom().contains(
                stream@,
            ),
            _ => false,
        }
    }

    /// What such a bus holds once it has carried out `action`.
    pub open spec fn perform(self, action: BootstrapAction) -> Registry {
        match action {
            BootstrapAction::CreateOrUpdateStream(definition) => Registry {
                streams: self.streams.insert(definition.name@, definition),
                ..self
            },
            BootstrapAction::CreateConsumer { stream, definition } => Registry {
                consumers: self.consumers.insert((stream@, definition.durable_name@), definition),
                ..self
            },
            _ => self,
        }
    }

    /// What such a bus holds after a whole bootstrap in which it carried out
    /// every action asked of it, or `None` if it refused one.
    pub open spec fn bootstrapped(
        self,
        stream: StreamDefinition,
        consumer: ConsumerDefinition,
    ) -> Option<Registry> {
        let (b0, create_stream) = begun(stream, consumer);
        let get_stream = next_action(b0, BootstrapEvent::Succeeded);
        let b1 = Bootstrap { state: next_state(b0.state, BootstrapEvent::Succeeded), ..b0 };
        let create_consumer = next_action(b1, BootstrapEvent::Succeeded);
        let b2 = Bootstrap { state: next_state(b1.state, BootstrapEvent::Succeeded), ..b1 };
        let finish = next_action(b2, BootstrapEvent::Succeeded);
        let r1 = self.perform(create_stream);
        let r2 = r1.perform(get_stream);
        let r3 = r2.perform(create_consumer);
        if self.accepts(create_stream) && r1.accepts(get_stream) && r2.accepts(create_consumer)
            && finish == BootstrapAction::Finish {
            Some(r3)
        } else {
            None
        }
    }
}

impl StreamDefinition {
    /// A copy of the definition.
    pub fn copy(&self) -> (c: StreamDefinition)
        ensures
            c == *self,
    {
        StreamDefinition { name: self.name.clone(), subject: self.subject.clone() }
    }
}

impl ConsumerDefinition {
    /// The definition of the durable pull consumer called `name`.
    pub fn durable(name: String) -> (definition: ConsumerDefinition)
        ensures
            definition == durable_consumer_of(name),
    {
        ConsumerDefinition {
            durable_name: name,
            ack_policy: AckPolicy::Explicit,
            deliver_policy: DeliverPolicy::All,
        }
    }

    /// A copy of the definition.
    pub fn copy(&self) -> (c: ConsumerDefinition)
        ensures
            c == *self,
    {
        ConsumerDefinition {
            durable_name: self.durable_name.clone(),
            ack_policy: self.ack_policy,
            deliver_policy: self.deliver_policy,
        }
    }
}

impl Bootstrap {
    /// Begins a bootstrap: the first thing asked for is the stream, with
    /// its full definition.
    pub fn begin(stream: StreamDefinition, consumer: ConsumerDefinition) -> (first: (
        Bootstrap,
        BootstrapAction,
    ))
        ensures
            first == begun(stream, consumer),
    {
        let first = BootstrapAction::CreateOrUpdateStream(stream.copy());
        (Bootstrap { state: BootstrapState::CreatingStream, stream, consumer }, first)
    }

    /// Takes one step: from what the bus reported of the step last asked
    /// for to the next thing to ask for.
    ///
    /// The stream is created first, then fetched, and only then is the
    /// consumer created under it. A step that fails ends the bootstrap; no
    /// step is tried again on its own.
    pub fn step(self, event: BootstrapEvent) -> (next: (Bootstrap, BootstrapAction))
        ensures
            next.0 == (Bootstrap { state: next_state(self.state, event), ..self }),
            next.1 == next_action(self, event),
    {
        match event {
            BootstrapEvent::Succeeded => match self.state {
                BootstrapState::CreatingStream => {
                    let action = BootstrapAction::GetStream(self.stream.name.clone());
                    (Bootstrap { state: BootstrapState::FetchingStream, ..self }, action)
                },
                BootstrapState::FetchingStream => {
                    let action = BootstrapAction::CreateConsumer {
                        stream: self.stream.name.clone(),
                        definition: self.consumer.copy(),
                    };
                    (Bootstrap { state: BootstrapState::CreatingConsumer, ..self }, action)
                },
                BootstrapState::CreatingConsumer => (
                    Bootstrap { state: BootstrapState::Done, ..self },
                    BootstrapAction::Finish,
                ),
                _ => (self, BootstrapAction::Rejected),
            },
            BootstrapEvent::Failed(detail) => {
                let step = match self.state {
                    BootstrapState::CreatingStream => BootstrapStep::CreateStream,
                    BootstrapState::FetchingStream => BootstrapStep::GetStream,
                    BootstrapState::CreatingConsumer => BootstrapStep::CreateConsumer,
                    _ => {
                        return (self, BootstrapAction::Rejected);
                    },
                };
                (
                    Bootstrap { state: BootstrapState::Failed, ..self },
                    BootstrapAction::Fail(BootstrapError { step, detail }),
                )
            },
        }
    }
}

/// Plans a bootstrap: where to connect, the stream with its name and
/// subject, and the durable consumer.
pub fn plan_bootstrap(
    cfg: &AppConfig,
    common: &CommonArgs,
    stream: &Option<String>,
    consumer: &Option<String>,
) -> (plan: Result<BootstrapPlan, SetupError>)
    ensures
        plan == bootstrap_plan_of(*cfg, *common, *stream, *consumer),
{
    let target = match subject_target(cfg, common) {
        Ok(t) => t,
        Err(e) => {
            return Err(e);
        },
    };
    let stream_name = match required_name(cfg, stream, NameField::Stream) {
        Ok(n) => n,
        Err(e) => {
            return Err(e);
        },
    };
    match required_name(cfg, consumer, NameField::Consumer) {
        Ok(consumer_name) => Ok(
            BootstrapPlan {
                url: target.url,
                stream: StreamDefinition { name: stream_name, subject: target.subject },
                consumer: ConsumerDefinition::durable(consumer_name),
            },
        ),
        Err(e) => Err(e),
    }
}

/// Settles URL and stream name of a tool that works on a whole stream.
pub fn stream_target(cfg: &AppConfig, stream: &Option<String>) -> (target: Result<
    StreamTarget,
    SetupError,
>)
    ensures
        target == stream_target_of(*cfg, *stream),
{
    let url = match connection_url(cfg) {
        Ok(u) => u,
        Err(e) => {
            return Err(e);
        },
    };
    match required_name(cfg, stream, NameField::Stream) {
        Ok(name) => Ok(StreamTarget { url, stream: name }),
        Err(e) => Err(e),
    }
}

/// The consumer is created only after the stream is confirmed: a bootstrap
/// comes to create its consumer from no state but the one in which the
/// stream, created before, has just been fetched.
pub proof fn lemma_consumer_follows_stream(state: BootstrapState, event: BootstrapEvent)
    requires
        state != BootstrapState::CreatingConsumer,
        next_state(state, event) == BootstrapState::CreatingConsumer,
    ensures
        state == BootstrapState::FetchingStream,
        event == BootstrapEvent::Succeeded,
{
}

/// A step that fails ends the bootstrap, whichever step it is.
pub proof fn lemma_failure_aborts(state: BootstrapState, detail: String)
    requires
        pending_step(state) is Some,
    ensures
        next_state(state, BootstrapEvent::Failed(detail)) == BootstrapState::Failed,
{
}

/// Bootstrapping is idempotent against a bus that keeps streams and
/// consumers by name: from whatever such a bus holds, a bootstrap runs to
/// its end, a second bootstrap with the same definitions runs to its end as
/// well, and the second leaves the bus as the first left it, with the one
/// stream and the one consumer of those names.
pub proof fn lemma_bootstrap_is_idempotent(
    registry: Registry,
    stream: StreamDefinition,
    consumer: ConsumerDefinition,
)
    ensures
        registry.bootstrapped(stream, consumer) matches Some(once) && {
            &&& once.streams == registry.streams.insert(stream.name@, stream)
            &&& once.consumers == registry.consumers.insert(
                (stream.name@, consumer.durable_name@),
                consumer,
            )
            &&& once.bootstrapped(stream, consumer) == Some(once)
        },
{
    let once = registry.bootstrapped(stream, consumer).unwrap();
    let twice = once.bootstrapped(stream, consumer).unwrap();
    assert(twice.streams =~= once.streams);
    assert(twice.consumers =~= once.consumers);
}

} // verus!
