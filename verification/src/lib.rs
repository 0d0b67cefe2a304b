//! A round-optimized threshold Schnorr signing protocol over the snarkVM
//! console arithmetic.
//!
//! A signing secret is split into `n` shares so that any `t` participants can
//! jointly produce a signature indistinguishable from one made with the
//! unsplit key, while fewer than `t` learn nothing.  The crate covers nonce
//! preprocessing, the binding factors that tie a session to its message and
//! commitment set, the group commitment, per-participant Lagrange
//! coefficients, partial signing, aggregation, and standard single-signer
//! Schnorr verification.  The scalar, group and hash primitives are consumed
//! from the console engine through the trusted interface in `primitives`;
//! everything above that interface is verified.

use vstd::prelude::*;

pub mod errors;
pub mod frost;
pub mod keys;
pub mod preprocess;
pub mod primitives;
pub mod utils;

verus! {

/// Whether a sequence of participant indices is strictly ascending.
pub open spec fn strictly_ascending(indices: Seq<u64>) -> bool {
    forall|k: int, l: int| 0 <= k < l < indices.len() ==> indices[k] < indices[l]
}

} // verus!
