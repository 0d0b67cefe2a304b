//! Typed failures of the signing operations.

use vstd::prelude::*;

verus! {

/// A failure of one signing operation, reported to the immediate caller.
/// Verification returning `false` is not an error: it is an ordinary boolean
/// outcome.
#[derive(Clone, Copy, Debug, PartialEq, Eq, Structural)]
pub enum FrostError {
    /// A required binding value, commitment or share is absent for an index.
    MissingData,
    /// A duplicate index makes the Lagrange denominator non-invertible.
    DegenerateInterpolation,
    /// The underlying field arithmetic reported failure.
    PrimitiveFailure,
    /// The randomness source cannot supply further nonces.  The generator
    /// interface used here is infallible, so no operation reports this; it is
    /// kept for callers that surface their own exhaustible sources.
    RandomnessExhausted,
}

} // verus!
