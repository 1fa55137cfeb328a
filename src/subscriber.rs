use vstd::prelude::*;

use crate::error::PipelineError;
use crate::host::{looked_up, Host};
use crate::sample::Sample;

verus! {

/// What one poll of the host came to.
#[derive(Clone, Copy, Debug, PartialEq, Eq, Structural)]
pub enum PollStatus {
    /// The host answered with a sample that differs from the cached one.
    Changed,
    /// The host answered with the sample already cached.
    Unchanged,
    /// The host answered that the topic holds no sample yet.
    NoData,
    /// The host did not answer within the timeout.
    Unavailable,
}

/// The time a poll may still wait for the host's answer after `elapsed_ms`.
pub open spec fn wait_left(timeout_ms: u64, elapsed_ms: u64) -> u64 {
    if elapsed_ms < timeout_ms {
        (timeout_ms - elapsed_ms) as u64
    } else {
        0
    }
}

/// Whether a poll's answer counts: one that came, within the timeout.
/// `reply` is `None` where no answer came, `Some(None)` where the host has
/// no sample for the topic.
pub open spec fn answered(reply: Option<Option<Sample>>, elapsed_ms: u64, timeout_ms: u64) -> bool {
    reply is Some && elapsed_ms <= timeout_ms
}

/// The cache after a poll: a sample that came in time replaces it, anything
/// else leaves it as it was.
pub open spec fn settled(
    cached: Option<Sample>,
    reply: Option<Option<Sample>>,
    elapsed_ms: u64,
    timeout_ms: u64,
) -> Option<Sample> {
    if answered(reply, elapsed_ms, timeout_ms) && reply.unwrap() is Some {
        reply.unwrap()
    } else {
        cached
    }
}

/// The status that a poll reports.
pub open spec fn poll_status(
    cached: Option<Sample>,
    reply: Option<Option<Sample>>,
    elapsed_ms: u64,
    timeout_ms: u64,
) -> PollStatus {
    if !answered(reply, elapsed_ms, timeout_ms) {
        PollStatus::Unavailable
    } else if reply.unwrap() is None {
        PollStatus::NoData
    } else if cached == reply.unwrap() {
        PollStatus::Unchanged
    } else {
        PollStatus::Changed
    }
}

/// A subscribing node: it polls the host for one topic on its own interval
/// and keeps the last sample it saw.
pub struct Node {
    pub name: String,
    pub topic: String,
    pub poll_interval_ms: u64,
    pub timeout_ms: u64,
    /// The last sample this node observed, if any.
    pub cached: Option<Sample>,
}

impl Node {
    /// A subscription that has observed nothing yet.
    pub fn new(name: String, topic: String, poll_interval_ms: u64, timeout_ms: u64) -> (r: Node)
        ensures
            r.name@ == name@,
            r.topic@ == topic@,
            r.poll_interval_ms == poll_interval_ms,
            r.timeout_ms == timeout_ms,
            r.cached is None,
    {
        Node { name, topic, poll_interval_ms, timeout_ms, cached: None }
    }

    /// How long the current poll may still wait, `elapsed_ms` after it was
    /// sent: never past the timeout.
    pub fn remaining_wait_ms(&self, elapsed_ms: u64) -> (r: u64)
        ensures
            r == wait_left(self.timeout_ms, elapsed_ms),
            elapsed_ms <= self.timeout_ms ==> elapsed_ms + r == self.timeout_ms,
            elapsed_ms >= self.timeout_ms ==> r == 0,
    {
        if elapsed_ms < self.timeout_ms {
            self.timeout_ms - elapsed_ms
        } else {
            0
        }
    }

    /// Settles one poll, `elapsed_ms` after it was sent. `reply` is `None`
    /// where the host did not answer, `Some(None)` where it holds no sample
    /// for the topic. A sample that came within the timeout replaces the
    /// cached one; otherwise the cached one is kept.
    pub fn settle_poll(&mut self, reply: Option<Option<Sample>>, elapsed_ms: u64) -> (r: PollStatus)
        ensures
            r == poll_status(old(self).cached, reply, elapsed_ms, old(self).timeout_ms),
            final(self).cached == settled(old(self).cached, reply, elapsed_ms, old(self).timeout_ms),
            final(self).name == old(self).name,
            final(self).topic == old(self).topic,
            final(self).poll_interval_ms == old(self).poll_interval_ms,
            final(self).timeout_ms == old(self).timeout_ms,
    {
        if elapsed_ms > self.timeout_ms {
            return PollStatus::Unavailable;
        }
        match reply {
            None => PollStatus::Unavailable,
            Some(None) => PollStatus::NoData,
            Some(Some(s)) => {
                let same = match self.cached {
                    Some(c) => c == s,
                    None => false,
                };
                self.cached = Some(s);
                if same {
                    PollStatus::Unchanged
                } else {
                    PollStatus::Changed
                }
            },
        }
    }

    /// Polls a host in the same process, which always answers at once.
    pub fn poll_host(&mut self, host: &Host) -> (r: PollStatus)
        requires
            host.wf(),
        ensures
            r == poll_status(old(self).cached, Some(looked_up(host.latest(), old(self).topic@)), 0, old(self).timeout_ms),
            final(self).cached == settled(old(self).cached, Some(looked_up(host.latest(), old(self).topic@)), 0, old(self).timeout_ms),
            final(self).name == old(self).name,
            final(self).topic == old(self).topic,
            final(self).poll_interval_ms == old(self).poll_interval_ms,
            final(self).timeout_ms == old(self).timeout_ms,
    {
        let reply = host.lookup(&self.topic);
        self.settle_poll(Some(reply), 0)
    }

    /// The last sample observed; `DataUnavailable` while there is none.
    pub fn get_subscribed_data(&self) -> (r: Result<Sample, PipelineError>)
        ensures
            r == (match self.cached {
                Some(s) => Ok(s),
                None => Err(PipelineError::DataUnavailable),
            }),
    {
        match self.cached {
            Some(s) => Ok(s),
            None => Err(PipelineError::DataUnavailable),
        }
    }
}

/// A poll that got no answer in time reports `Unavailable` and leaves the
/// cache as it was, however long the wait.
pub proof fn lemma_unreachable_host(
    cached: Option<Sample>,
    reply: Option<Option<Sample>>,
    elapsed_ms: u64,
    timeout_ms: u64,
)
    requires
        reply is None || elapsed_ms > timeout_ms,
    ensures
        poll_status(cached, reply, elapsed_ms, timeout_ms) == PollStatus::Unavailable,
        settled(cached, reply, elapsed_ms, timeout_ms) == cached,
        elapsed_ms + wait_left(timeout_ms, elapsed_ms) <= if elapsed_ms > timeout_ms {
            elapsed_ms
        } else {
            timeout_ms
        },
{
}

} // verus!
