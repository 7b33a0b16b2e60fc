//! The responder: it answers each request with an acknowledgement of its
//! body, and sees the answer flushed to the bus before it takes the next
//! message.

use vstd::prelude::*;

verus! {

/// A message as the responder receives it.
#[derive(Clone, Debug, PartialEq, Eq)]
pub struct Inbound {
    pub payload: Vec<u8>,
    /// Where the reply goes. A message that is no request has none.
    pub reply_to: Option<String>,
}

/// Where the responder stands.
#[derive(Clone, Copy, Debug, PartialEq, Eq, Structural)]
pub enum ResponderState {
    /// Waiting for the next message.
    Waiting,
    /// A reply is being published.
    Publishing,
    /// The published reply is being flushed.
    Flushing,
    /// The loop has ended.
    Stopped,
}

/// What the bus reported to the responder.
#[derive(Clone, Debug, PartialEq, Eq)]
pub enum ResponderEvent {
    /// A message was delivered.
    Delivered(Inbound),
    /// The subscription has ended: no further message will come.
    Closed,
    /// The publish or the flush last asked for succeeded.
    Done,
    /// The publish or the flush last asked for failed.
    Failed(String),
}

/// The bus operation during which the responder failed.
#[derive(Clone, Copy, Debug, PartialEq, Eq, Structural)]
pub enum ReplyStage {
    Publish,
    Flush,
}

/// What the caller does next for the responder.
#[derive(Clone, Debug, PartialEq, Eq)]
pub enum ResponderAction {
    /// Wait for the next message.
    Receive,
    /// The message had no reply target: note it, then wait for the next
    /// message. This is no error.
    Skip,
    /// Publish `body` to `target`.
    Publish { target: String, body: Vec<u8> },
    /// Flush what was published.
    Flush,
    /// End the loop: the subscription is over.
    Finish,
    /// End the loop: the bus failed at `stage`.
    Fail { stage: ReplyStage, detail: String },
    /// The event does not belong to the state. Nothing has changed.
    Rejected,
}

/// The bytes that every reply begins with: `ack: ` in ASCII.
pub open spec fn ack_prefix() -> Seq<u8> {
    seq![0x61u8, 0x63u8, 0x6bu8, 0x3au8, 0x20u8]
}

/// The body of the reply to a request with the given payload.
pub open spec fn reply_bytes(payload: Seq<u8>) -> Seq<u8> {
    ack_prefix() + payload
}

/// The state that follows `state` on `event`.
pub open spec fn next_state(state: ResponderState, event: ResponderEvent) -> ResponderState {
    match (state, event) {
        (ResponderState::Waiting, ResponderEvent::Delivered(msg)) => if msg.reply_to is Some {
            ResponderState::Publishing
        } else {
            ResponderState::Waiting
        },
        (ResponderState::Waiting, ResponderEvent::Closed) => ResponderState::Stopped,
        (ResponderState::Publishing, ResponderEvent::Done) => ResponderState::Flushing,
        (ResponderState::Publishing, ResponderEvent::Failed(_)) => ResponderState::Stopped,
        (ResponderState::Flushing, ResponderEvent::Done) => ResponderState::Waiting,
        (ResponderState::Flushing, ResponderEvent::Failed(_)) => ResponderState::Stopped,
        _ => state,
    }
}

/// Whether `action` is what the responder asks for in `state` on `event`.
pub open spec fn is_next_action(
    state: ResponderState,
    event: ResponderEvent,
    action: ResponderAction,
) -> bool {
    match (state, event) {
        (ResponderState::Waiting, ResponderEvent::Delivered(msg)) => match msg.reply_to {
            Some(to) => action matches ResponderAction::Publish { target, body } && target == to
                && body@ == reply_bytes(msg.payload@),
            None => action == ResponderAction::Skip,
        },
        (ResponderState::Waiting, ResponderEvent::Closed) => action == ResponderAction::Finish,
        (ResponderState::Publishing, ResponderEvent::Done) => action == ResponderAction::Flush,
        (ResponderState::Publishing, ResponderEvent::Failed(detail)) => action
            == (ResponderAction::Fail { stage: ReplyStage::Publish, detail }),
        (ResponderState::Flushing, ResponderEvent::Done) => action == ResponderAction::Receive,
        (ResponderState::Flushing, ResponderEvent::Failed(detail)) => action
            == (ResponderAction::Fail { stage: ReplyStage::Flush, detail }),
        _ => action == ResponderAction::Rejected,
    }
}

/// Builds the body of a reply: the prefix, then the request's payload
/// unchanged.
pub fn reply_body(payload: &[u8]) -> (body: Vec<u8>)
    ensures
        body@ == reply_bytes(payload@),
{
    let mut body: Vec<u8> = Vec::new();
    body.push(0x61u8);
    body.push(0x63u8);
    body.push(0x6bu8);
    body.push(0x3au8);
    body.push(0x20u8);
    let mut i: usize = 0;
    while i < payload.len()
        invariant
            i <= payload@.len(),
            body@ == ack_prefix() + payload@.take(i as int),
        decreases payload@.len() - i,
    {
        body.push(payload[i]);
        assert(payload@.take(i + 1) =~= payload@.take(i as int).push(payload@[i as int]));
        i += 1;
    }
    assert(payload@.take(i as int) =~= payload@);
    body
}

/// The responder's initial state.
pub fn start() -> (state: ResponderState)
    ensures
        state == ResponderState::Waiting,
{
    ResponderState::Waiting
}

/// Takes one step: from the state and what the bus reported to the next
/// state and what to do next.
///
/// A request is answered by a publish, the publish is followed by a flush,
/// and only a successful flush returns the responder to waiting. A message
/// without reply target is skipped. A failed publish or flush ends the loop.
pub fn step(state: ResponderState, event: ResponderEvent) -> (next: (
    ResponderState,
    ResponderAction,
))
    ensures
        next.0 == next_state(state, event),
        is_next_action(state, event, next.1),
{
    match state {
        ResponderState::Waiting => match event {
            ResponderEvent::Delivered(msg) => match msg.reply_to {
                Some(to) => {
                    let body = reply_body(msg.payload.as_slice());
                    (ResponderState::Publishing, ResponderAction::Publish { target: to, body })
                },
                None => (ResponderState::Waiting, ResponderAction::Skip),
            },
            ResponderEvent::Closed => (ResponderState::Stopped, ResponderAction::Finish),
            _ => (state, ResponderAction::Rejected),
        },
        ResponderState::Publishing => match event {
            ResponderEvent::Done => (ResponderState::Flushing, ResponderAction::Flush),
            ResponderEvent::Failed(detail) => (
                ResponderState::Stopped,
                ResponderAction::Fail { stage: ReplyStage::Publish, detail },
            ),
            _ => (state, ResponderAction::Rejected),
        },
        ResponderState::Flushing => match event {
            ResponderEvent::Done => (ResponderState::Waiting, ResponderAction::Receive),
            ResponderEvent::Failed(detail) => (
                ResponderState::Stopped,
                ResponderAction::Fail { stage: ReplyStage::Flush, detail },
            ),
            _ => (state, ResponderAction::Rejected),
        },
        ResponderState::Stopped => (state, ResponderAction::Rejected),
    }
}

/// A reply is flushed before the next message is taken: the responder
/// returns from a request to waiting only through a publish that succeeded
/// and a flush that succeeded after it.
pub proof fn lemma_reply_flushed_before_next_message(
    state: ResponderState,
    event: ResponderEvent,
)
    requires
        state != ResponderState::Waiting,
        next_state(state, event) == ResponderState::Waiting,
    ensures
        state == ResponderState::Flushing,
        event == ResponderEvent::Done,
{
}

} // verus!
