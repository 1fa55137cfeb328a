use vstd::prelude::*;

verus! {

/// The failures that the pipeline tells apart.
#[derive(Clone, Copy, Debug, PartialEq, Eq, Structural)]
pub enum PipelineError {
    /// The sensor is unavailable or a read failed.
    Hardware,
    /// A host or node could not acquire its transport endpoint.
    NetworkBind,
    /// A send or receive failed after a successful startup.
    NetworkTransient,
    /// A received payload was malformed.
    Protocol,
    /// No sample has been observed yet for a subscription.
    DataUnavailable,
}

impl PipelineError {
    /// Whether the error ends the process: only startup failures do.
    pub fn is_fatal_at_startup(&self) -> (r: bool)
        ensures
            r == (*self == PipelineError::Hardware || *self == PipelineError::NetworkBind),
    {
        match self {
            PipelineError::Hardware => true,
            PipelineError::NetworkBind => true,
            _ => false,
        }
    }
}

} // verus!
