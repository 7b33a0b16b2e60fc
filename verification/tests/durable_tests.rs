use nats_labs::cli::CommonArgs;
use nats_labs::config::{AppConfig, ConfigError, NatsConfig, RecvConfig, RuntimeConfig};
use nats_labs::durable::{
    plan_bootstrap, stream_target, AckPolicy, Bootstrap, BootstrapAction, BootstrapError,
    BootstrapEvent, BootstrapPlan, BootstrapState, BootstrapStep, ConsumerDefinition, DeliverPolicy,
    StreamDefinition, StreamTarget,
};
use nats_labs::resolve::{NameField, ResolutionError};
use nats_labs::setup::SetupError;
use std::collections::BTreeMap;

fn text(s: &str) -> Option<String> {
    Some(s.to_string())
}

fn config(url: Option<&str>, subject: Option<&str>, stream: Option<&str>, consumer: Option<&str>) -> AppConfig {
    AppConfig {
        runtime: RuntimeConfig { mode: None },
        nats: NatsConfig {
            url: url.map(str::to_string),
            subject: subject.map(str::to_string),
            queue: None,
            stream: stream.map(str::to_string),
            consumer: consumer.map(str::to_string),
        },
        recv: RecvConfig { wait_secs: Some(5) },
    }
}

fn missing(field: NameField) -> SetupError {
    SetupError::Resolution(ResolutionError::MissingRequiredName { field })
}

fn stream_def() -> StreamDefinition {
    StreamDefinition { name: "ORDERS".to_string(), subject: "orders.new".to_string() }
}

fn consumer_def() -> ConsumerDefinition {
    ConsumerDefinition::durable("billing".to_string())
}

#[test]
fn durable_consumer_acks_explicitly_and_delivers_all() {
    let c = consumer_def();
    assert_eq!(c.durable_name, "billing");
    assert_eq!(c.ack_policy, AckPolicy::Explicit);
    assert_eq!(c.deliver_policy, DeliverPolicy::All);
    assert_eq!(c.copy(), c);
    assert_eq!(stream_def().copy(), stream_def());
}

#[test]
fn bootstrap_plan_takes_names_from_overrides_then_config() {
    let cfg = config(Some("nats://h"), Some("orders.new"), Some("CFG_STREAM"), Some("cfg-consumer"));
    assert_eq!(
        plan_bootstrap(&cfg, &CommonArgs::default(), &None, &None),
        Ok(BootstrapPlan {
            url: "nats://h".to_string(),
            stream: StreamDefinition { name: "CFG_STREAM".to_string(), subject: "orders.new".to_string() },
            consumer: ConsumerDefinition {
                durable_name: "cfg-consumer".to_string(),
                ack_policy: AckPolicy::Explicit,
                deliver_policy: DeliverPolicy::All,
            },
        })
    );
    let mut args = CommonArgs::default();
    args.subject = text("orders.other");
    let plan = plan_bootstrap(&cfg, &args, &text("S2"), &text("c2")).unwrap();
    assert_eq!(plan.stream, StreamDefinition { name: "S2".to_string(), subject: "orders.other".to_string() });
    assert_eq!(plan.consumer.durable_name, "c2");
}

#[test]
fn bootstrap_plan_reports_the_first_thing_missing() {
    let none = CommonArgs::default();
    assert_eq!(
        plan_bootstrap(&config(None, None, None, None), &none, &None, &None),
        Err(SetupError::Config(ConfigError::MissingUrl))
    );
    assert_eq!(
        plan_bootstrap(&config(Some("u"), None, None, None), &none, &None, &None),
        Err(missing(NameField::Subject))
    );
    assert_eq!(
        plan_bootstrap(&config(Some("u"), Some("s"), None, None), &none, &None, &None),
        Err(missing(NameField::Stream))
    );
    assert_eq!(
        plan_bootstrap(&config(Some("u"), Some("s"), Some("st"), None), &none, &None, &None),
        Err(missing(NameField::Consumer))
    );
}

#[test]
fn stream_target_needs_url_then_stream() {
    assert_eq!(
        stream_target(&config(Some("u"), None, Some("ST"), None), &None),
        Ok(StreamTarget { url: "u".to_string(), stream: "ST".to_string() })
    );
    assert_eq!(
        stream_target(&config(Some("u"), None, Some("ST"), None), &text("OTHER")),
        Ok(StreamTarget { url: "u".to_string(), stream: "OTHER".to_string() })
    );
    assert_eq!(
        stream_target(&config(None, None, None, None), &None),
        Err(SetupError::Config(ConfigError::MissingUrl))
    );
    assert_eq!(stream_target(&config(Some("u"), None, None, None), &None), Err(missing(NameField::Stream)));
}

#[test]
fn bootstrap_steps_in_order() {
    let (b, a) = Bootstrap::begin(stream_def(), consumer_def());
    assert_eq!(b.state, BootstrapState::CreatingStream);
    assert_eq!(a, BootstrapAction::CreateOrUpdateStream(stream_def()));
    let (b, a) = b.step(BootstrapEvent::Succeeded);
    assert_eq!(b.state, BootstrapState::FetchingStream);
    assert_eq!(a, BootstrapAction::GetStream("ORDERS".to_string()));
    let (b, a) = b.step(BootstrapEvent::Succeeded);
    assert_eq!(b.state, BootstrapState::CreatingConsumer);
    assert_eq!(
        a,
        BootstrapAction::CreateConsumer { stream: "ORDERS".to_string(), definition: consumer_def() }
    );
    let (b, a) = b.step(BootstrapEvent::Succeeded);
    assert_eq!(b.state, BootstrapState::Done);
    assert_eq!(a, BootstrapAction::Finish);
    assert_eq!(b.stream, stream_def());
    assert_eq!(b.consumer, consumer_def());
}

#[test]
fn bootstrap_aborts_at_the_step_that_fails() {
    let (b0, _) = Bootstrap::begin(stream_def(), consumer_def());
    let (b, a) = b0.clone().step(BootstrapEvent::Failed("no jetstream".to_string()));
    assert_eq!(b.state, BootstrapState::Failed);
    assert_eq!(
        a,
        BootstrapAction::Fail(BootstrapError {
            step: BootstrapStep::CreateStream,
            detail: "no jetstream".to_string(),
        })
    );
    let (b1, _) = b0.step(BootstrapEvent::Succeeded);
    let (b, a) = b1.clone().step(BootstrapEvent::Failed("gone".to_string()));
    assert_eq!(b.state, BootstrapState::Failed);
    assert_eq!(
        a,
        BootstrapAction::Fail(BootstrapError { step: BootstrapStep::GetStream, detail: "gone".to_string() })
    );
    let (b2, _) = b1.step(BootstrapEvent::Succeeded);
    let (b, a) = b2.step(BootstrapEvent::Failed("denied".to_string()));
    assert_eq!(b.state, BootstrapState::Failed);
    assert_eq!(
        a,
        BootstrapAction::Fail(BootstrapError {
            step: BootstrapStep::CreateConsumer,
            detail: "denied".to_string(),
        })
    );
}

#[test]
fn finished_bootstrap_rejects_further_events() {
    let done = Bootstrap { state: BootstrapState::Done, stream: stream_def(), consumer: consumer_def() };
    let (b, a) = done.clone().step(BootstrapEvent::Succeeded);
    assert_eq!((b, a), (done.clone(), BootstrapAction::Rejected));
    let (b, a) = done.clone().step(BootstrapEvent::Failed("late".to_string()));
    assert_eq!((b, a), (done, BootstrapAction::Rejected));
    let failed = Bootstrap { state: BootstrapState::Failed, stream: stream_def(), consumer: consumer_def() };
    let (b, a) = failed.clone().step(BootstrapEvent::Succeeded);
    assert_eq!((b, a), (failed, BootstrapAction::Rejected));
}

/// A bus stand-in that keeps streams by name and consumers by stream and
/// durable name.
struct Registry {
    streams: BTreeMap<String, StreamDefinition>,
    consumers: BTreeMap<(String, String), ConsumerDefinition>,
}

fn perform(registry: &mut Registry, action: &BootstrapAction) -> BootstrapEvent {
    match action {
        BootstrapAction::CreateOrUpdateStream(def) => {
            registry.streams.insert(def.name.clone(), def.clone());
            BootstrapEvent::Succeeded
        }
        BootstrapAction::GetStream(name) => {
            if registry.streams.contains_key(name) {
                BootstrapEvent::Succeeded
            } else {
                BootstrapEvent::Failed("stream not found".to_string())
            }
        }
        BootstrapAction::CreateConsumer { stream, definition } => {
            if registry.streams.contains_key(stream) {
                registry
                    .consumers
                    .insert((stream.clone(), definition.durable_name.clone()), definition.clone());
                BootstrapEvent::Succeeded
            } else {
                BootstrapEvent::Failed("stream not found".to_string())
            }
        }
        other => panic!("nothing to perform for {:?}", other),
    }
}

fn run_bootstrap(registry: &mut Registry) -> BootstrapAction {
    let (mut bootstrap, mut action) = Bootstrap::begin(stream_def(), consumer_def());
    loop {
        match action {
            BootstrapAction::Finish | BootstrapAction::Fail(_) | BootstrapAction::Rejected => {
                return action;
            }
            _ => {}
        }
        let event = perform(registry, &action);
        let next = bootstrap.step(event);
        bootstrap = next.0;
        action = next.1;
    }
}

#[test]
fn bootstrap_twice_leaves_one_stream_and_one_consumer() {
    let mut registry = Registry { streams: BTreeMap::new(), consumers: BTreeMap::new() };
    assert_eq!(run_bootstrap(&mut registry), BootstrapAction::Finish);
    assert_eq!(run_bootstrap(&mut registry), BootstrapAction::Finish);
    assert_eq!(registry.streams.len(), 1);
    assert_eq!(registry.consumers.len(), 1);
    assert_eq!(registry.streams.get("ORDERS"), Some(&stream_def()));
    assert_eq!(
        registry.consumers.get(&("ORDERS".to_string(), "billing".to_string())),
        Some(&consumer_def())
    );
}
