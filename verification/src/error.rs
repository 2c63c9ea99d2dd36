//! Error types of the orbit core.

use vstd::prelude::*;

verus! {

/// Error surfaced by a field provider.
///
/// A provider reconstructs the equilibrium only over a bounded region of
/// flux space; evaluating it outside that region is a domain error.
/// Physically, the particle has left the confined region.
#[derive(Clone, Copy, Debug, PartialEq, Eq, Structural)]
pub enum FieldError {
    /// The requested coordinates fall outside the reconstructed region.
    Domain,
}

/// Error returned by an integration routine.
#[derive(Clone, Copy, Debug, PartialEq, Eq, Structural)]
pub enum ParticleError {
    /// A field provider reported a domain error: the particle escaped the
    /// reconstructed region.
    EqError(FieldError),
    /// The routine exhausted its step budget.
    TimedOut,
    /// The intersection accuracy check of a completed mapping failed.
    IntersectionError,
    /// A NaN was encountered during a state evaluation or a step-size
    /// calculation.
    EvaluationNaN,
}

} // verus!
