//! Request/reply: one request resolved to a reply or a timeout, and the
//! responder that answers requests.

use crate::cli::CommonArgs;
use crate::config::AppConfig;
use crate::pubsub::{body_text, message_body, subject_target, target_of, Target};
use crate::setup::SetupError;
use crate::text::{decimal, decimal_text};
use vstd::prelude::*;
use vstd::string::*;

verus! {

/// One request in flight: where it went, what it said, and how long its
/// reply is waited for.
#[derive(Clone, Debug, PartialEq, Eq)]
pub struct PendingRequest {
    pub subject: String,
    pub body: String,
    pub timeout_ms: u64,
}

/// How the wait for a reply ended.
#[derive(Clone, Debug, PartialEq, Eq)]
pub enum RequestEvent {
    /// The reply arrived before the timer fired.
    Reply(Vec<u8>),
    /// The timer fired first.
    TimerFired,
    /// The bus reported a failure, such as a dropped connection.
    Failed(String),
}

/// Why a request has no reply.
#[derive(Clone, Debug, PartialEq, Eq)]
pub enum RequestError {
    /// No reply within the time allowed. The request is abandoned: it is
    /// neither sent again nor cancelled on the bus.
    Timeout { elapsed_ms: u64, subject: String },
    /// The bus failed while the reply was awaited.
    Bus { detail: String },
}

/// Where a requester connects, and the request it sends.
#[derive(Clone, Debug, PartialEq, Eq)]
pub struct RequestPlan {
    pub url: String,
    pub request: PendingRequest,
}

/// What a pending request becomes once the wait has ended. Nothing of the
/// request is kept.
pub open spec fn outcome(pending: PendingRequest, event: RequestEvent) -> Result<
    Vec<u8>,
    RequestError,
> {
    match event {
        RequestEvent::Reply(payload) => Ok(payload),
        RequestEvent::TimerFired => Err(
            RequestError::Timeout { elapsed_ms: pending.timeout_ms, subject: pending.subject },
        ),
        RequestEvent::Failed(detail) => Err(RequestError::Bus { detail }),
    }
}

impl PendingRequest {
    /// Records a request as it is issued.
    pub fn issue(subject: String, body: String, timeout_ms: u64) -> (pending: PendingRequest)
        ensures
            pending == (PendingRequest { subject, body, timeout_ms }),
    {
        PendingRequest { subject, body, timeout_ms }
    }

    /// Resolves the request: the reply's payload if it came in time, a
    /// timeout that carries the time waited and the subject if the timer
    /// fired first, the bus failure otherwise.
    pub fn resolve(self, event: RequestEvent) -> (resolved: Result<Vec<u8>, RequestError>)
        ensures
            resolved == outcome(self, event),
    {
        match event {
            RequestEvent::Reply(payload) => Ok(payload),
            RequestEvent::TimerFired => Err(
                RequestError::Timeout { elapsed_ms: self.timeout_ms, subject: self.subject },
            ),
            RequestEvent::Failed(detail) => Err(RequestError::Bus { detail }),
        }
    }
}

impl RequestError {
    /// The text of `message`.
    pub open spec fn message_text(self) -> Seq<char> {
        match self {
            RequestError::Timeout { elapsed_ms, subject } => "request timed out after "@
                + decimal_text(elapsed_ms as nat) + " ms to subject="@ + subject@,
            RequestError::Bus { detail } => detail@,
        }
    }

    /// Says how long was waited and on which subject, or what the bus
    /// reported.
    pub fn message(&self) -> (text: String)
        ensures
            text@ == self.message_text(),
    {
        match self {
            RequestError::Timeout { elapsed_ms, subject } => {
                let mut text = String::from_str("request timed out after ");
                let digits = decimal(*elapsed_ms);
                text.append(digits.as_str());
                text.append(" ms to subject=");
                text.append(subject.as_str());
                text
            },
            RequestError::Bus { detail } => detail.clone(),
        }
    }
}

/// Plans one request: where to connect, and the request with its subject,
/// body and timeout.
pub fn plan_request(
    cfg: &AppConfig,
    common: &CommonArgs,
    msg: Option<String>,
    positional: Option<String>,
    fallback: &str,
    timeout_ms: u64,
) -> (plan: Result<RequestPlan, SetupError>)
    ensures
        match plan {
            Ok(p) => target_of(*cfg, *common) == Ok::<Target, SetupError>(
                Target { url: p.url, subject: p.request.subject },
            ) && p.request.body@ == body_text(msg, positional, fallback@) && p.request.timeout_ms
                == timeout_ms,
            Err(e) => target_of(*cfg, *common) == Err::<Target, SetupError>(e),
        },
{
    match subject_target(cfg, common) {
        Ok(target) => Ok(
            RequestPlan {
                url: target.url,
                request: PendingRequest::issue(
                    target.subject,
                    message_body(msg, positional, fallback),
                    timeout_ms,
                ),
            },
        ),
        Err(e) => Err(e),
    }
}

} // verus!
