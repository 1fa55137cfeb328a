//! Streaming the orientation of an inertial sensor through a publish /
//! subscribe directory: the wire encoding of a sample, the directory's
//! latest-value-per-topic registry, and the decisions of the publishing and
//! subscribing nodes and of the consumer that shows the rotation.

pub mod consumer;
pub mod error;
pub mod host;
pub mod publisher;
pub mod sample;
pub mod slots;
pub mod subscriber;
