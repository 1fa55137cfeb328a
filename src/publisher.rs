use vstd::prelude::*;

use crate::error::PipelineError;
use crate::sample::{encoded, Sample};

verus! {

/// The life of a node: it connects, registers, and is then active until the
/// process ends.
#[derive(Clone, Copy, Debug, PartialEq, Eq, Structural)]
pub enum NodeState {
    Disconnected,
    Connecting,
    Registered,
    Active,
}

/// What happens to a node.
#[derive(Clone, Copy, Debug, PartialEq, Eq, Structural)]
pub enum NodeEvent {
    /// The node starts its handshake with the host.
    Connect,
    /// The host acknowledged the handshake.
    Acknowledged,
    /// The node starts its publishing or subscribing work.
    Activate,
    /// A send or receive failed.
    NetworkFailure,
}

/// The next state of a node. A network failure never changes the state, and
/// no event leads back to `Disconnected`.
pub open spec fn next_state_of(s: NodeState, e: NodeEvent) -> NodeState {
    match (s, e) {
        (NodeState::Disconnected, NodeEvent::Connect) => NodeState::Connecting,
        (NodeState::Connecting, NodeEvent::Acknowledged) => NodeState::Registered,
        (NodeState::Registered, NodeEvent::Activate) => NodeState::Active,
        _ => s,
    }
}

/// Steps a node's state machine.
pub fn next_state(s: NodeState, e: NodeEvent) -> (r: NodeState)
    ensures
        r == next_state_of(s, e),
{
    match (s, e) {
        (NodeState::Disconnected, NodeEvent::Connect) => NodeState::Connecting,
        (NodeState::Connecting, NodeEvent::Acknowledged) => NodeState::Registered,
        (NodeState::Registered, NodeEvent::Activate) => NodeState::Active,
        _ => s,
    }
}

/// An active node stays active whatever happens, and a node that has left
/// `Disconnected` never returns to it.
pub proof fn lemma_active_is_final(s: NodeState, e: NodeEvent)
    ensures
        s == NodeState::Active ==> next_state_of(s, e) == NodeState::Active,
        s != NodeState::Disconnected ==> next_state_of(s, e) != NodeState::Disconnected,
{
}

/// What the acquisition loop hands to the publisher.
#[derive(Clone, Copy, Debug)]
pub enum PublisherEvent {
    /// The outcome of reading the sensor, already transformed to a sample.
    Reading(Result<Sample, PipelineError>),
    /// The outcome of sending the last payload.
    Sent(Result<(), PipelineError>),
}

/// What the publisher asks the loop to do next. There is no action that
/// stops the loop.
#[derive(Debug)]
pub enum PublisherAction {
    /// Send this payload on the data channel, without waiting for an answer.
    Transmit(Vec<u8>),
    /// Go on to the next acquisition.
    AcquireNext,
}

/// The publisher's decisions: it turns each reading into a payload, and
/// absorbs failures of the sensor and of the network alike.
pub struct Publisher {
    pub topic: String,
    /// Payloads sent without a reported failure.
    pub published: u64,
    /// Sends that failed since the last one that did not.
    pub consecutive_failures: u64,
    /// The most recent failure, of any kind.
    pub last_error: Option<PipelineError>,
}

/// `n + 1`, held at the largest `u64`.
pub open spec fn bumped(n: u64) -> u64 {
    if n < u64::MAX {
        (n + 1) as u64
    } else {
        n
    }
}

fn bump(n: u64) -> (r: u64)
    ensures
        r == bumped(n),
{
    if n < u64::MAX {
        n + 1
    } else {
        n
    }
}

impl Publisher {
    /// A publisher for `topic` that has sent nothing.
    pub fn new(topic: String) -> (r: Publisher)
        ensures
            r.topic@ == topic@,
            r.published == 0,
            r.consecutive_failures == 0,
            r.last_error is None,
    {
        Publisher { topic, published: 0, consecutive_failures: 0, last_error: None }
    }

    /// One step of the acquisition loop. A good reading becomes a payload to
    /// send; a failed reading or send is recorded and the loop goes on.
    pub fn step(&mut self, event: PublisherEvent) -> (r: PublisherAction)
        ensures
            final(self).topic == old(self).topic,
            match event {
                PublisherEvent::Reading(Ok(s)) => {
                    &&& r matches PublisherAction::Transmit(b) && b@ == encoded(s)
                    &&& final(self).published == old(self).published
                    &&& final(self).consecutive_failures == old(self).consecutive_failures
                    &&& final(self).last_error == old(self).last_error
                },
                PublisherEvent::Reading(Err(e)) => {
                    &&& r is AcquireNext
                    &&& final(self).published == old(self).published
                    &&& final(self).consecutive_failures == old(self).consecutive_failures
                    &&& final(self).last_error == Some(e)
                },
                PublisherEvent::Sent(Ok(())) => {
                    &&& r is AcquireNext
                    &&& final(self).published == bumped(old(self).published)
                    &&& final(self).consecutive_failures == 0
                    &&& final(self).last_error == old(self).last_error
                },
                PublisherEvent::Sent(Err(e)) => {
                    &&& r is AcquireNext
                    &&& final(self).published == old(self).published
                    &&& final(self).consecutive_failures == bumped(old(self).consecutive_failures)
                    &&& final(self).last_error == Some(e)
                },
            },
    {
        match event {
            PublisherEvent::Reading(Ok(s)) => PublisherAction::Transmit(s.encode()),
            PublisherEvent::Reading(Err(e)) => {
                self.last_error = Some(e);
                PublisherAction::AcquireNext
            },
            PublisherEvent::Sent(Ok(())) => {
                self.published = bump(self.published);
                self.consecutive_failures = 0;
                PublisherAction::AcquireNext
            },
            PublisherEvent::Sent(Err(e)) => {
                self.consecutive_failures = bump(self.consecutive_failures);
                self.last_error = Some(e);
                PublisherAction::AcquireNext
            },
        }
    }
}

} // verus!
