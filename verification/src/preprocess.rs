//! Per-participant nonce preprocessing.
//!
//! Every participant generates single-use nonce pairs and publishes the
//! corresponding commitments before a signing session starts.

use vstd::prelude::*;

use crate::primitives::gen_mul_of;
use crate::primitives::group_gen_mul;
use crate::primitives::sample_scalar;
use crate::primitives::ConsoleGroup;
use crate::primitives::ConsoleScalar;
use snarkvm_console_types_scalar::TestRng;

verus! {

/// The hiding and binding nonces a participant uses for exactly one partial
/// signature.  The type is deliberately neither `Clone` nor `Copy`, and
/// partial signing takes it by value: after one use it is gone, so reuse —
/// which would leak the participant's secret share — is ruled out at
/// construction time rather than by caller discipline.
pub struct SigningNonce {
    /// The hiding nonce, kept secret by its owner.
    pub hiding: ConsoleScalar,
    /// The binding nonce, kept secret by its owner.
    pub binding: ConsoleScalar,
}

impl SigningNonce {
    /// Samples a fresh nonce pair, each component independently uniform in
    /// the scalar field.
    pub fn new(rng: &mut TestRng) -> Self {
        Self { hiding: sample_scalar(rng), binding: sample_scalar(rng) }
    }
}

/// The public commitment to one nonce pair: the generator raised to each
/// nonce component, tagged with the owner's participant index.  Safe to
/// broadcast.
#[derive(Clone, Copy)]
pub struct SigningCommitment {
    /// The index of the participant that owns the committed nonce.
    pub participant_index: u64,
    /// The commitment to the hiding nonce.
    pub hiding: ConsoleGroup,
    /// The commitment to the binding nonce.
    pub binding: ConsoleGroup,
}

impl SigningCommitment {
    /// Derives the commitment for a participant's nonce pair.
    pub fn from(participant_index: u64, nonce: &SigningNonce) -> (r: Self)
        ensures
            r.participant_index == participant_index,
            r.hiding == gen_mul_of(nonce.hiding),
            r.binding == gen_mul_of(nonce.binding),
    {
        Self {
            participant_index,
            hiding: group_gen_mul(&nonce.hiding),
            binding: group_gen_mul(&nonce.binding),
        }
    }
}

/// Pre-computes `num_nonces` nonce pairs and their commitments for one
/// participant.  The two sequences are positionally paired: the commitment at
/// each position is derived from the nonce at the same position.  Nonces must
/// be kept secret; commitments are distributed to the other participants.
/// For the two-round protocol, one nonce pair per session is enough.
pub fn preprocess(num_nonces: usize, participant_index: u64, rng: &mut TestRng) -> (r: (
    Vec<SigningNonce>,
    Vec<SigningCommitment>,
))
    ensures
        r.0.len() == num_nonces,
        r.1.len() == num_nonces,
        forall|k: int|
            0 <= k < num_nonces ==> {
                &&& (#[trigger] r.1[k]).participant_index == participant_index
                &&& r.1[k].hiding == gen_mul_of(r.0[k].hiding)
                &&& r.1[k].binding == gen_mul_of(r.0[k].binding)
            },
{
    let mut signing_nonces: Vec<SigningNonce> = Vec::new();
    let mut signing_commitments: Vec<SigningCommitment> = Vec::new();
    let mut j: usize = 0;
    while j < num_nonces
        invariant
            j <= num_nonces,
            signing_nonces.len() == j,
            signing_commitments.len() == j,
            forall|k: int|
                0 <= k < j ==> {
                    &&& (#[trigger] signing_commitments[k]).participant_index
                        == participant_index
                    &&& signing_commitments[k].hiding == gen_mul_of(signing_nonces[k].hiding)
                    &&& signing_commitments[k].binding == gen_mul_of(signing_nonces[k].binding)
                },
        decreases num_nonces - j,
    {
        let nonce = SigningNonce::new(rng);
        let commitment = SigningCommitment::from(participant_index, &nonce);
        signing_nonces.push(nonce);
        signing_commitments.push(commitment);
        j = j + 1;
    }
    (signing_nonces, signing_commitments)
}

} // verus!
