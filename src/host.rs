use vstd::prelude::*;

use crate::error::PipelineError;
use crate::sample::{decoded, encoded, lemma_decode_encode, Sample};
use crate::slots::Slots;

verus! {

/// What a node registers as.
#[derive(Clone, Copy, Debug, PartialEq, Eq, Structural)]
pub enum Role {
    Publisher,
    Subscriber,
}

/// The answer to a registration.
#[derive(Clone, Copy, Debug, PartialEq, Eq, Structural)]
pub enum RegistrationResult {
    /// The node was not known and is now registered.
    Registered,
    /// The same identity was registered before; nothing changed.
    AlreadyRegistered,
    /// The name belongs to a node of the other role; nothing changed.
    NameTaken,
}

/// The registry after `s` arrived for topic `t`: the slot is overwritten,
/// whatever it held.
pub open spec fn stored(m: Map<Seq<char>, Sample>, t: Seq<char>, s: Sample) -> Map<Seq<char>, Sample> {
    m.insert(t, s)
}

/// The registry after a datagram with `payload` arrived for topic `t`: a
/// well-formed payload is stored, a malformed one changes nothing.
pub open spec fn ingested(m: Map<Seq<char>, Sample>, t: Seq<char>, payload: Seq<u8>) -> Map<
    Seq<char>,
    Sample,
> {
    match decoded(payload) {
        Some(s) => stored(m, t, s),
        None => m,
    }
}

/// What a lookup of topic `t` answers on registry `m`.
pub open spec fn looked_up(m: Map<Seq<char>, Sample>, t: Seq<char>) -> Option<Sample> {
    if m.contains_key(t) {
        Some(m[t])
    } else {
        None
    }
}

/// The node table after `name` asked to register as `role`.
pub open spec fn registered(nodes: Map<Seq<char>, Role>, name: Seq<char>, role: Role) -> Map<
    Seq<char>,
    Role,
> {
    if nodes.contains_key(name) {
        nodes
    } else {
        nodes.insert(name, role)
    }
}

/// The directory: the latest sample of each topic and the registered nodes.
pub struct Host {
    samples: Slots<Sample>,
    nodes: Slots<Role>,
}

impl Host {
    /// The latest sample of each topic that has been published to.
    pub closed spec fn latest(&self) -> Map<Seq<char>, Sample> {
        self.samples@
    }

    /// The registered nodes, by name.
    pub closed spec fn nodes(&self) -> Map<Seq<char>, Role> {
        self.nodes@
    }

    pub closed spec fn wf(&self) -> bool {
        self.samples.wf() && self.nodes.wf()
    }

    /// A host with no topic and no node.
    pub fn new() -> (r: Host)
        ensures
            r.wf(),
            r.latest() == Map::<Seq<char>, Sample>::empty(),
            r.nodes() == Map::<Seq<char>, Role>::empty(),
    {
        Host { samples: Slots::new(), nodes: Slots::new() }
    }

    /// Registers a node. Repeating a registration with the same identity is
    /// harmless; a name already held by a node of the other role is refused.
    pub fn register(&mut self, name: &String, role: Role) -> (r: RegistrationResult)
        requires
            old(self).wf(),
        ensures
            final(self).wf(),
            final(self).latest() == old(self).latest(),
            final(self).nodes() == registered(old(self).nodes(), name@, role),
            r == (if !old(self).nodes().contains_key(name@) {
                RegistrationResult::Registered
            } else if old(self).nodes()[name@] == role {
                RegistrationResult::AlreadyRegistered
            } else {
                RegistrationResult::NameTaken
            }),
    {
        match self.nodes.get(name) {
            None => {
                self.nodes.put(name, role);
                RegistrationResult::Registered
            },
            Some(known) => {
                if known == role {
                    RegistrationResult::AlreadyRegistered
                } else {
                    RegistrationResult::NameTaken
                }
            },
        }
    }

    /// Stores a sample as the latest of its topic.
    pub fn publish(&mut self, topic: &String, sample: Sample)
        requires
            old(self).wf(),
        ensures
            final(self).wf(),
            final(self).latest() == stored(old(self).latest(), topic@, sample),
            final(self).nodes() == old(self).nodes(),
    {
        self.samples.put(topic, sample);
    }

    /// Takes in a datagram that arrived for `topic` on the data channel. A
    /// malformed payload is dropped with `Protocol`, and the registry is left
    /// as it was.
    pub fn ingest(&mut self, topic: &String, payload: &[u8]) -> (r: Result<Sample, PipelineError>)
        requires
            old(self).wf(),
        ensures
            final(self).wf(),
            final(self).latest() == ingested(old(self).latest(), topic@, payload@),
            final(self).nodes() == old(self).nodes(),
            r == (match decoded(payload@) {
                Some(s) => Ok(s),
                None => Err(PipelineError::Protocol),
            }),
    {
        match Sample::decode(payload) {
            Some(s) => {
                self.publish(topic, s);
                Ok(s)
            },
            None => Err(PipelineError::Protocol),
        }
    }

    /// The latest sample of `topic`; `None` if it was never published to.
    pub fn lookup(&self, topic: &String) -> (r: Option<Sample>)
        requires
            self.wf(),
        ensures
            r == looked_up(self.latest(), topic@),
    {
        self.samples.get(topic)
    }

    /// The number of topics that hold a sample.
    pub fn topic_count(&self) -> (r: usize)
        requires
            self.wf(),
        ensures
            r == self.latest().len(),
    {
        self.samples.len()
    }

    /// The number of registered nodes.
    pub fn node_count(&self) -> (r: usize)
        requires
            self.wf(),
        ensures
            r == self.nodes().len(),
    {
        self.nodes.len()
    }
}

/// Two lookups of one topic with no publish between them answer alike.
pub proof fn lemma_lookup_idempotent(h: Host, t: Seq<char>, a: Option<Sample>, b: Option<Sample>)
    requires
        a == looked_up(h.latest(), t),
        b == looked_up(h.latest(), t),
    ensures
        a == b,
{
}

/// Last write wins: after `a` and then `b` arrive for a topic, the topic
/// holds `b`, and the registry is as if `a` had never arrived.
pub proof fn lemma_last_write_wins(m: Map<Seq<char>, Sample>, t: Seq<char>, a: Sample, b: Sample)
    ensures
        looked_up(stored(stored(m, t, a), t, b), t) == Some(b),
        stored(stored(m, t, a), t, b) == stored(m, t, b),
{
    assert(stored(stored(m, t, a), t, b) =~= stored(m, t, b));
}

/// A sample that a publisher encodes and the host takes in is what a
/// lookup of that topic then answers.
pub proof fn lemma_publish_lookup_round_trip(m: Map<Seq<char>, Sample>, t: Seq<char>, s: Sample)
    ensures
        looked_up(ingested(m, t, encoded(s)), t) == Some(s),
{
    lemma_decode_encode(s);
}

/// A malformed datagram leaves the registry as it was, and a well-formed
/// one that follows it for the same topic is stored.
pub proof fn lemma_malformed_then_well_formed(
    m: Map<Seq<char>, Sample>,
    t: Seq<char>,
    bad: Seq<u8>,
    s: Sample,
)
    requires
        decoded(bad) is None,
    ensures
        ingested(m, t, bad) == m,
        ingested(ingested(m, t, bad), t, encoded(s)) == stored(m, t, s),
        looked_up(ingested(ingested(m, t, bad), t, encoded(s)), t) == Some(s),
{
    lemma_decode_encode(s);
}

/// Registering the same identity twice leaves the node table as one
/// registration does.
pub proof fn lemma_register_idempotent(nodes: Map<Seq<char>, Role>, name: Seq<char>, role: Role)
    ensures
        registered(registered(nodes, name, role), name, role) == registered(nodes, name, role),
{
}

} // verus!
