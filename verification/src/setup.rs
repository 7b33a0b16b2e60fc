//! What every tool settles before it connects: the bus URL and the names
//! of the resources it will use. A tool that cannot settle them does not
//! connect at all.

use crate::cli::CommonArgs;
use crate::config::{AppConfig, ConfigError};
use crate::durable::{bootstrap_plan_of, stream_target_of, BootstrapPlan, StreamTarget};
use crate::pubsub::{target_of, worker_plan_of, SubscribePlan, Target};
use crate::pull::{pull_plan_of, PullPlan};
use crate::resolve::{resolution, resolve_required, NameField, ResolutionError};
use vstd::prelude::*;
use vstd::string::*;

verus! {

/// Why a tool cannot start.
#[derive(Clone, Debug, PartialEq, Eq)]
pub enum SetupError {
    /// The configuration is missing or unusable.
    Config(ConfigError),
    /// A resource name that the tool needs is missing.
    Resolution(ResolutionError),
}

impl SetupError {
    /// The text of `message`.
    pub open spec fn message_text(self) -> Seq<char> {
        match self {
            SetupError::Config(e) => e.message_text(),
            SetupError::Resolution(e) => e.message_text(),
        }
    }

    /// Names the missing document, URL or field.
    pub fn message(&self) -> (text: String)
        ensures
            text@ == self.message_text(),
    {
        match self {
            SetupError::Config(e) => e.message(),
            SetupError::Resolution(e) => e.message(),
        }
    }
}

/// The bus URL of a snapshot, or the failure of a snapshot without one.
pub open spec fn url_of(cfg: AppConfig) -> Result<String, SetupError> {
    match cfg.nats.url {
        Some(u) => Ok(u),
        None => Err(SetupError::Config(ConfigError::MissingUrl)),
    }
}

/// A required name: the override where there is one, else the default, else
/// the failure that names the field.
pub open spec fn name_of(explicit: Option<String>, default: Option<String>, field: NameField) -> Result<
    String,
    SetupError,
> {
    match resolution(explicit, default, true, field) {
        Ok(Some(name)) => Ok(name),
        Ok(None) => Err(SetupError::Resolution(ResolutionError::MissingRequiredName { field })),
        Err(e) => Err(SetupError::Resolution(e)),
    }
}

/// The default that a snapshot holds for a field.
pub open spec fn default_of(cfg: AppConfig, field: NameField) -> Option<String> {
    match field {
        NameField::Subject => cfg.nats.subject,
        NameField::Queue => cfg.nats.queue,
        NameField::Stream => cfg.nats.stream,
        NameField::Consumer => cfg.nats.consumer,
    }
}

/// A copy of an optional text.
pub fn copy_text(text: &Option<String>) -> (copy: Option<String>)
    ensures
        copy == *text,
{
    match text {
        Some(s) => Some(s.clone()),
        None => None,
    }
}

/// The bus URL to connect to.
pub fn connection_url(cfg: &AppConfig) -> (url: Result<String, SetupError>)
    ensures
        url == url_of(*cfg),
{
    match cfg.nats_url() {
        Ok(u) => Ok(u),
        Err(_) => Err(SetupError::Config(ConfigError::MissingUrl)),
    }
}

/// The name of `field` for one invocation: `explicit` where it is given,
/// else the snapshot's default for the field. The name is required.
pub fn required_name(cfg: &AppConfig, explicit: &Option<String>, field: NameField) -> (name: Result<
    String,
    SetupError,
>)
    ensures
        name == name_of(*explicit, default_of(*cfg, field), field),
{
    let default = match field {
        NameField::Subject => cfg.subject(),
        NameField::Queue => copy_text(&cfg.nats.queue),
        NameField::Stream => copy_text(&cfg.nats.stream),
        NameField::Consumer => copy_text(&cfg.nats.consumer),
    };
    match resolve_required(copy_text(explicit), default, field) {
        Ok(name) => Ok(name),
        Err(e) => Err(SetupError::Resolution(e)),
    }
}

/// The subject of one invocation: the override in `common`, else the
/// snapshot's default subject.
pub fn subject_name(cfg: &AppConfig, common: &CommonArgs) -> (name: Result<String, SetupError>)
    ensures
        name == name_of(common.subject, cfg.nats.subject, NameField::Subject),
{
    required_name(cfg, &common.subject, NameField::Subject)
}

/// A snapshot without a connection URL plans nothing: whatever else it
/// holds and whatever is overridden, every plan fails, and fails on the
/// URL, so no tool comes to connect.
pub proof fn lemma_no_url_no_plan(
    cfg: AppConfig,
    common: CommonArgs,
    queue: Option<String>,
    stream: Option<String>,
    consumer: Option<String>,
    max: u64,
)
    requires
        cfg.nats.url is None,
    ensures
        target_of(cfg, common) == Err::<Target, SetupError>(
            SetupError::Config(ConfigError::MissingUrl),
        ),
        worker_plan_of(cfg, common, queue) == Err::<SubscribePlan, SetupError>(
            SetupError::Config(ConfigError::MissingUrl),
        ),
        bootstrap_plan_of(cfg, common, stream, consumer) == Err::<BootstrapPlan, SetupError>(
            SetupError::Config(ConfigError::MissingUrl),
        ),
        stream_target_of(cfg, stream) == Err::<StreamTarget, SetupError>(
            SetupError::Config(ConfigError::MissingUrl),
        ),
        pull_plan_of(cfg, stream, consumer, max) == Err::<PullPlan, SetupError>(
            SetupError::Config(ConfigError::MissingUrl),
        ),
{
}

} // verus!
