//! The pull loop of a durable consumer: fetch a message, process it,
//! acknowledge it, and stop once a given number of messages is done.

use crate::config::AppConfig;
use crate::durable::{stream_target, stream_target_of};
use crate::resolve::NameField;
use crate::setup::{name_of, required_name, SetupError};
use vstd::prelude::*;

verus! {

/// Where a pull consumer connects, what it pulls from, and how many
/// messages it handles. Without a limit it runs until it is interrupted.
#[derive(Clone, Debug, PartialEq, Eq)]
pub struct PullPlan {
    pub url: String,
    pub stream: String,
    pub consumer: String,
    pub limit: Option<u64>,
}

/// Where the loop stands.
#[derive(Clone, Copy, Debug, PartialEq, Eq, Structural)]
pub enum PullState {
    /// Not started.
    Idle,
    /// Waiting for the next message.
    Fetching,
    /// A message is being processed.
    Processing,
    /// The processed message is being acknowledged.
    Acking,
    /// The loop has ended.
    Stopped,
}

/// What happened since the loop last asked for something.
#[derive(Clone, Debug, PartialEq, Eq)]
pub enum PullEvent {
    /// The loop is set going.
    Start,
    /// A message was fetched.
    Fetched(Vec<u8>),
    /// The fetch failed.
    FetchFailed(String),
    /// The message stream has ended.
    Closed,
    /// The message was processed.
    Processed,
    /// The acknowledgement was accepted.
    Acked,
    /// The acknowledgement failed.
    AckFailed(String),
}

/// The failure that the loop hands on to its caller: a message was
/// processed but could not be acknowledged, so the bus will deliver it
/// again.
#[derive(Clone, Debug, PartialEq, Eq)]
pub struct FatalError {
    /// How many messages had been acknowledged before.
    pub processed: u64,
    pub detail: String,
}

/// What the caller does next for the loop.
#[derive(Clone, Debug, PartialEq, Eq)]
pub enum PullAction {
    /// Fetch the next message.
    Fetch,
    /// Process this payload.
    Process(Vec<u8>),
    /// Acknowledge the message just processed.
    Ack,
    /// The loop has ended in order, with this many messages acknowledged.
    Finish { processed: u64 },
    /// A fetch failed. The failure is noted and ends the loop; it is not
    /// handed on as an error, and the fetch is not tried again.
    StopOnFetchError { processed: u64, detail: String },
    /// An acknowledgement failed. The loop ends with an error.
    Fail(FatalError),
    /// The event does not belong to the state. Nothing has changed.
    Rejected,
}

/// The loop: its state, the number of messages acknowledged so far, and
/// the limit it was given. A limit of `None` or of zero is no limit.
#[derive(Clone, Copy, Debug, PartialEq, Eq, Structural)]
pub struct PullLoop {
    pub state: PullState,
    pub processed: u64,
    pub limit: Option<u64>,
}

/// The limit that a message count given on the command line stands for:
/// zero stands for none.
pub open spec fn limit_of(max: u64) -> Option<u64> {
    if max == 0 {
        None
    } else {
        Some(max)
    }
}

/// Whether a loop with this limit is done once `processed` messages are
/// acknowledged.
pub open spec fn limit_reached(limit: Option<u64>, processed: int) -> bool {
    match limit {
        Some(max) => max > 0 && processed >= max,
        None => false,
    }
}

/// The plan of a pull consumer. URL, stream name and consumer name are
/// settled in that order.
pub open spec fn pull_plan_of(
    cfg: AppConfig,
    stream: Option<String>,
    consumer: Option<String>,
    max: u64,
) -> Result<PullPlan, SetupError> {
    match stream_target_of(cfg, stream) {
        Err(e) => Err(e),
        Ok(target) => match name_of(consumer, cfg.nats.consumer, NameField::Consumer) {
            Err(e) => Err(e),
            Ok(name) => Ok(
                PullPlan {
                    url: target.url,
                    stream: target.stream,
                    consumer: name,
                    limit: limit_of(max),
                },
            ),
        },
    }
}

impl PullLoop {
    /// The loop that follows `self` on `event`.
    pub open spec fn next(self, event: PullEvent) -> PullLoop {
        match (self.state, event) {
            (PullState::Idle, PullEvent::Start) => PullLoop { state: PullState::Fetching, ..self },
            (PullState::Fetching, PullEvent::Fetched(_)) => PullLoop {
                state: PullState::Processing,
                ..self
            },
            (PullState::Fetching, PullEvent::FetchFailed(_)) => PullLoop {
                state: PullState::Stopped,
                ..self
            },
            (PullState::Fetching, PullEvent::Closed) => PullLoop {
                state: PullState::Stopped,
                ..self
            },
            (PullState::Processing, PullEvent::Processed) => PullLoop {
                state: PullState::Acking,
                ..self
            },
            (PullState::Acking, PullEvent::Acked) => PullLoop {
                state: if limit_reached(self.limit, self.processed + 1) {
                    PullState::Stopped
                } else {
                    PullState::Fetching
                },
                processed: (self.processed + 1) as u64,
                limit: self.limit,
            },
            (PullState::Acking, PullEvent::AckFailed(_)) => PullLoop {
                state: PullState::Stopped,
                ..self
            },
            _ => self,
        }
    }

    /// What the loop asks for on `event`.
    pub open spec fn action(self, event: PullEvent) -> PullAction {
        match (self.state, event) {
            (PullState::Idle, PullEvent::Start) => PullAction::Fetch,
            (PullState::Fetching, PullEvent::Fetched(payload)) => PullAction::Process(payload),
            (PullState::Fetching, PullEvent::FetchFailed(detail)) => PullAction::StopOnFetchError {
                processed: self.processed,
                detail,
            },
            (PullState::Fetching, PullEvent::Closed) => PullAction::Finish {
                processed: self.processed,
            },
            (PullState::Processing, PullEvent::Processed) => PullAction::Ack,
            (PullState::Acking, PullEvent::Acked) => if limit_reached(
                self.limit,
                self.processed + 1,
            ) {
                PullAction::Finish { processed: (self.processed + 1) as u64 }
            } else {
                PullAction::Fetch
            },
            (PullState::Acking, PullEvent::AckFailed(detail)) => PullAction::Fail(
                FatalError { processed: self.processed, detail },
            ),
            _ => PullAction::Rejected,
        }
    }

    /// A loop that has not started.
    pub fn new(limit: Option<u64>) -> (fresh: PullLoop)
        ensures
            fresh == (PullLoop { state: PullState::Idle, processed: 0, limit }),
    {
        PullLoop { state: PullState::Idle, processed: 0, limit }
    }

    /// Takes one step: from what happened to the next state and what to do
    /// next.
    ///
    /// A fetched message is processed and then acknowledged. Only an
    /// accepted acknowledgement counts the message, and the loop stops right
    /// after the acknowledgement that reaches the limit. A failed fetch ends
    /// the loop without an error; a failed acknowledgement ends it with one.
    pub fn step(self, event: PullEvent) -> (next: (PullLoop, PullAction))
        requires
            self.state == PullState::Acking && event == PullEvent::Acked ==> self.processed
                < u64::MAX,
        ensures
            next.0 == self.next(event),
            next.1 == self.action(event),
    {
        match self.state {
            PullState::Idle => match event {
                PullEvent::Start => (PullLoop { state: PullState::Fetching, ..self }, PullAction::Fetch),
                _ => (self, PullAction::Rejected),
            },
            PullState::Fetching => match event {
                PullEvent::Fetched(payload) => (
                    PullLoop { state: PullState::Processing, ..self },
                    PullAction::Process(payload),
                ),
                PullEvent::FetchFailed(detail) => (
                    PullLoop { state: PullState::Stopped, ..self },
                    PullAction::StopOnFetchError { processed: self.processed, detail },
                ),
                PullEvent::Closed => (
                    PullLoop { state: PullState::Stopped, ..self },
                    PullAction::Finish { processed: self.processed },
                ),
                _ => (self, PullAction::Rejected),
            },
            PullState::Processing => match event {
                PullEvent::Processed => (PullLoop { state: PullState::Acking, ..self }, PullAction::Ack),
                _ => (self, PullAction::Rejected),
            },
            PullState::Acking => match event {
                PullEvent::Acked => {
                    let processed: u64 = self.processed + 1;
                    let done = match self.limit {
                        Some(max) => max > 0 && processed >= max,
                        None => false,
                    };
                    if done {
                        (
                            PullLoop { state: PullState::Stopped, processed, limit: self.limit },
                            PullAction::Finish { processed },
                        )
                    } else {
                        (
                            PullLoop { state: PullState::Fetching, processed, limit: self.limit },
                            PullAction::Fetch,
                        )
                    }
                },
                PullEvent::AckFailed(detail) => (
                    PullLoop { state: PullState::Stopped, ..self },
                    PullAction::Fail(FatalError { processed: self.processed, detail }),
                ),
                _ => (self, PullAction::Rejected),
            },
            PullState::Stopped => (self, PullAction::Rejected),
        }
    }

    /// The loop after one message has been fetched, processed and
    /// acknowledged without failure.
    pub open spec fn after_round(self, payload: Vec<u8>) -> PullLoop {
        self.next(PullEvent::Fetched(payload)).next(PullEvent::Processed).next(PullEvent::Acked)
    }

    /// Runs the loop against a stream that holds `stored`, every fetch and
    /// acknowledgement succeeding: the loop and what it leaves in the
    /// stream, at the point where it either has stopped or waits for a
    /// message that the stream does not hold yet.
    pub open spec fn drain(self, stored: Seq<Vec<u8>>) -> (PullLoop, Seq<Vec<u8>>)
        decreases stored.len(),
    {
        if self.state == PullState::Fetching && stored.len() > 0 {
            self.after_round(stored[0]).drain(stored.drop_first())
        } else {
            (self, stored)
        }
    }
}

/// Turns the message count of the command line into a limit.
pub fn message_limit(max: u64) -> (limit: Option<u64>)
    ensures
        limit == limit_of(max),
{
    if max == 0 {
        None
    } else {
        Some(max)
    }
}

/// Plans a pull consumer: where to connect, stream and consumer, and the
/// limit.
pub fn plan_pull(
    cfg: &AppConfig,
    stream: &Option<String>,
    consumer: &Option<String>,
    max: u64,
) -> (plan: Result<PullPlan, SetupError>)
    ensures
        plan == pull_plan_of(*cfg, *stream, *consumer, max),
{
    let target = match stream_target(cfg, stream) {
        Ok(t) => t,
        Err(e) => {
            return Err(e);
        },
    };
    match required_name(cfg, consumer, NameField::Consumer) {
        Ok(name) => Ok(
            PullPlan {
                url: target.url,
                stream: target.stream,
                consumer: name,
                limit: message_limit(max),
            },
        ),
        Err(e) => Err(e),
    }
}

/// A loop with a limit handles exactly that many messages: run against a
/// stream that holds at least as many as are still missing, it stops with
/// the limit reached, and leaves every further message in the stream.
pub proof fn lemma_stops_at_limit(fetching: PullLoop, max: u64, stored: Seq<Vec<u8>>)
    requires
        fetching.state == PullState::Fetching,
        fetching.limit == Some(max),
        fetching.processed < max,
        stored.len() >= max - fetching.processed,
    ensures
        fetching.drain(stored) == (
            PullLoop { state: PullState::Stopped, processed: max, limit: Some(max) },
            stored.skip(max - fetching.processed),
        ),
    decreases stored.len(),
{
    let after = fetching.after_round(stored[0]);
    let rest = stored.drop_first();
    assert(after.processed == fetching.processed + 1);
    if after.processed == max {
        assert(after.state == PullState::Stopped);
        assert(after.drain(rest) == (after, rest));
        assert(rest =~= stored.skip(max - fetching.processed));
    } else {
        assert(after.state == PullState::Fetching);
        lemma_stops_at_limit(after, max, rest);
        assert(rest.skip(max - after.processed) =~= stored.skip(max - fetching.processed));
    }
}

/// A loop that is not held back by its limit takes all there is: run
/// against a stream that holds fewer messages than are still missing, or
/// without a limit, it handles every one of them and then waits for more.
pub proof fn lemma_takes_all_below_limit(fetching: PullLoop, stored: Seq<Vec<u8>>)
    requires
        fetching.state == PullState::Fetching,
        fetching.processed + stored.len() < u64::MAX,
        !limit_reached(fetching.limit, fetching.processed + stored.len()),
    ensures
        fetching.drain(stored) == (
            PullLoop {
                state: PullState::Fetching,
                processed: (fetching.processed + stored.len()) as u64,
                limit: fetching.limit,
            },
            Seq::<Vec<u8>>::empty(),
        ),
    decreases stored.len(),
{
    if stored.len() > 0 {
        let after = fetching.after_round(stored[0]);
        assert(after.state == PullState::Fetching);
        lemma_takes_all_below_limit(after, stored.drop_first());
    } else {
        assert(stored =~= Seq::<Vec<u8>>::empty());
    }
}

} // verus!
