//! Fire-and-forget publishing, and the two subscriber loops: fan-out and
//! queue group. Neither loop acknowledges anything.

use crate::cli::CommonArgs;
use crate::config::AppConfig;
use crate::resolve::NameField;
use crate::setup::{connection_url, name_of, required_name, subject_name, url_of, SetupError};
use vstd::prelude::*;
use vstd::string::*;

verus! {

/// Where a tool that works on one subject connects, and on which subject.
#[derive(Clone, Debug, PartialEq, Eq)]
pub struct Target {
    pub url: String,
    pub subject: String,
}

/// What to publish, and where.
#[derive(Clone, Debug, PartialEq, Eq)]
pub struct PublishPlan {
    pub url: String,
    pub subject: String,
    pub body: String,
}

/// How a subscriber receives: every subscriber gets every message, or the
/// members of one named group share them, each message going to one member.
#[derive(Clone, Debug, PartialEq, Eq)]
pub enum Subscription {
    Fanout { subject: String },
    QueueGroup { subject: String, group: String },
}

/// Where a subscriber connects, and how it subscribes.
#[derive(Clone, Debug, PartialEq, Eq)]
pub struct SubscribePlan {
    pub url: String,
    pub subscription: Subscription,
}

/// What a subscriber makes of one delivered message.
#[derive(Clone, Copy, Debug, PartialEq, Eq, Structural)]
pub enum Observation {
    /// An ordinary message: it is logged.
    Delivered,
    /// A message without content: it is logged, with a warning. This is an
    /// anomaly, not a failure, and the loop goes on.
    EmptyPayload,
}

/// The target of an invocation. The URL is settled first, so a snapshot
/// without one fails on the URL whatever else is missing.
pub open spec fn target_of(cfg: AppConfig, common: CommonArgs) -> Result<Target, SetupError> {
    match url_of(cfg) {
        Err(e) => Err(e),
        Ok(url) => match name_of(common.subject, cfg.nats.subject, NameField::Subject) {
            Err(e) => Err(e),
            Ok(subject) => Ok(Target { url, subject }),
        },
    }
}

/// The subscription of a worker in a queue group. URL, subject and group
/// are settled in that order.
pub open spec fn worker_plan_of(cfg: AppConfig, common: CommonArgs, queue: Option<String>) -> Result<
    SubscribePlan,
    SetupError,
> {
    match target_of(cfg, common) {
        Err(e) => Err(e),
        Ok(target) => match name_of(queue, cfg.nats.queue, NameField::Queue) {
            Err(e) => Err(e),
            Ok(group) => Ok(
                SubscribePlan {
                    url: target.url,
                    subscription: Subscription::QueueGroup { subject: target.subject, group },
                },
            ),
        },
    }
}

/// The body to send: the one given by flag, else the positional one, else
/// the tool's fallback.
pub open spec fn body_text(msg: Option<String>, positional: Option<String>, fallback: Seq<char>) -> Seq<
    char,
> {
    match msg {
        Some(m) => m@,
        None => match positional {
            Some(p) => p@,
            None => fallback,
        },
    }
}

/// Settles URL and subject of an invocation.
pub fn subject_target(cfg: &AppConfig, common: &CommonArgs) -> (target: Result<Target, SetupError>)
    ensures
        target == target_of(*cfg, *common),
{
    let url = match connection_url(cfg) {
        Ok(u) => u,
        Err(e) => {
            return Err(e);
        },
    };
    match subject_name(cfg, common) {
        Ok(subject) => Ok(Target { url, subject }),
        Err(e) => Err(e),
    }
}

/// Chooses the body to send.
pub fn message_body(msg: Option<String>, positional: Option<String>, fallback: &str) -> (body: String)
    ensures
        body@ == body_text(msg, positional, fallback@),
        msg matches Some(m) ==> body == m,
        msg is None ==> (positional matches Some(p) ==> body == p),
{
    match msg {
        Some(m) => m,
        None => match positional {
            Some(p) => p,
            None => String::from_str(fallback),
        },
    }
}

/// Plans one publish: where to connect, the subject, and the body.
pub fn plan_publish(
    cfg: &AppConfig,
    common: &CommonArgs,
    msg: Option<String>,
    positional: Option<String>,
    fallback: &str,
) -> (plan: Result<PublishPlan, SetupError>)
    ensures
        match plan {
            Ok(p) => target_of(*cfg, *common) == Ok::<Target, SetupError>(
                Target { url: p.url, subject: p.subject },
            ) && p.body@ == body_text(msg, positional, fallback@),
            Err(e) => target_of(*cfg, *common) == Err::<Target, SetupError>(e),
        },
{
    match subject_target(cfg, common) {
        Ok(target) => Ok(
            PublishPlan {
                url: target.url,
                subject: target.subject,
                body: message_body(msg, positional, fallback),
            },
        ),
        Err(e) => Err(e),
    }
}

/// Plans a fan-out subscriber: it receives every message on the subject,
/// as does every other subscriber.
pub fn plan_subscribe(cfg: &AppConfig, common: &CommonArgs) -> (plan: Result<
    SubscribePlan,
    SetupError,
>)
    ensures
        match plan {
            Ok(p) => target_of(*cfg, *common) == Ok::<Target, SetupError>(
                Target { url: p.url, subject: p.subscription->Fanout_subject },
            ) && p.subscription is Fanout,
            Err(e) => target_of(*cfg, *common) == Err::<Target, SetupError>(e),
        },
{
    match subject_target(cfg, common) {
        Ok(target) => Ok(
            SubscribePlan {
                url: target.url,
                subscription: Subscription::Fanout { subject: target.subject },
            },
        ),
        Err(e) => Err(e),
    }
}

/// Plans a worker: it subscribes as a member of a queue group, and the bus
/// hands each message to one member of the group.
pub fn plan_worker(cfg: &AppConfig, common: &CommonArgs, queue: &Option<String>) -> (plan: Result<
    SubscribePlan,
    SetupError,
>)
    ensures
        plan == worker_plan_of(*cfg, *common, *queue),
{
    let target = match subject_target(cfg, common) {
        Ok(t) => t,
        Err(e) => {
            return Err(e);
        },
    };
    match required_name(cfg, queue, NameField::Queue) {
        Ok(group) => Ok(
            SubscribePlan {
                url: target.url,
                subscription: Subscription::QueueGroup { subject: target.subject, group },
            },
        ),
        Err(e) => Err(e),
    }
}

/// Classifies a delivered message by its payload.
pub fn observe(payload: &[u8]) -> (seen: Observation)
    ensures
        seen == (if payload@.len() == 0 {
            Observation::EmptyPayload
        } else {
            Observation::Delivered
        }),
{
    if payload.len() == 0 {
        Observation::EmptyPayload
    } else {
        Observation::Delivered
    }
}

} // verus!
