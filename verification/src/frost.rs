//! Partial signing, challenge computation, aggregation and verification.

use vstd::prelude::*;

use std::collections::HashMap;

use crate::errors::FrostError;
use crate::keys::address_spec;
use crate::keys::derive_address;
use crate::keys::SignerShare;
use crate::preprocess::SigningCommitment;
use crate::preprocess::SigningNonce;
use crate::primitives::gen_mul_of;
use crate::primitives::group_add;
use crate::primitives::group_add_of;
use crate::primitives::group_eq;
use crate::primitives::group_eq_of;
use crate::primitives::group_gen_mul;
use crate::primitives::group_mul;
use crate::primitives::group_mul_of;
use crate::primitives::group_to_x;
use crate::primitives::hash_psd8;
use crate::primitives::hash_psd8_of;
use crate::primitives::index_to_scalar;
use crate::primitives::scalar_add;
use crate::primitives::scalar_add_of;
use crate::primitives::scalar_eq;
use crate::primitives::scalar_mul;
use crate::primitives::scalar_mul_of;
use crate::primitives::scalar_of_u64;
use crate::primitives::scalar_sub;
use crate::primitives::scalar_sub_of;
use crate::primitives::x_coordinate_of;
use crate::primitives::ConsoleField;
use crate::primitives::ConsoleGroup;
use crate::primitives::ConsoleScalar;
use crate::strictly_ascending;
use crate::utils::binding_value_spec;
use crate::utils::calculate_binding_value;
use crate::utils::calculate_group_commitment;
use crate::utils::calculate_lagrange_coefficients;
use crate::utils::group_commitment_spec;
use crate::utils::has_duplicate;
use crate::utils::lagrange_coefficient_spec;
use crate::utils::lagrange_denominator;

verus! {

/// The participant indices of a sequence of commitments, in order.
pub open spec fn commit_indices(commitments: Seq<SigningCommitment>) -> Seq<u64> {
    commitments.map_values(|c: SigningCommitment| c.participant_index)
}

/// Whether a signing set lists its commitments in strictly ascending index
/// order — the fixed order every participant must use when hashing, and which
/// also rules out a duplicated index.
pub open spec fn commits_sorted(commitments: Seq<SigningCommitment>) -> bool {
    strictly_ascending(commit_indices(commitments))
}

/// A strictly ascending signing set never repeats an index.
pub proof fn lemma_sorted_indices_unique(commitments: Seq<SigningCommitment>)
    requires
        commits_sorted(commitments),
    ensures
        !has_duplicate(commit_indices(commitments)),
{
    let indices = commit_indices(commitments);
    assert forall|k: int, l: int| 0 <= k < l < indices.len() implies indices[k] != indices[l] by {
        assert(indices[k] < indices[l]);
    }
}

/// The binding values of one session: each index present in the signing set,
/// mapped to its binding value for this set and message.
pub open spec fn binding_map_spec(
    commitments: Seq<SigningCommitment>,
    message: Seq<ConsoleField>,
) -> Map<u64, ConsoleScalar> {
    Map::new(
        |i: u64| commit_indices(commitments).contains(i),
        |i: u64| binding_value_spec(i, commitments, message),
    )
}

/// The challenge of one session: the rate-8 hash of the x-coordinates of the
/// group commitment, the group public key, the secondary public component and
/// the derived address, followed by the message.
pub open spec fn challenge_spec(
    commitments: Seq<SigningCommitment>,
    message: Seq<ConsoleField>,
    group_public_key: ConsoleGroup,
    pr_sig: ConsoleGroup,
) -> ConsoleScalar {
    let group_commitment = group_commitment_spec(
        commitments,
        binding_map_spec(commitments, message),
    );
    let address = address_spec(group_public_key, pr_sig);
    hash_psd8_of(
        seq![
            x_coordinate_of(group_commitment),
            x_coordinate_of(group_public_key),
            x_coordinate_of(pr_sig),
            x_coordinate_of(address),
        ] + message,
    )
}

/// Builds the preimage `[a, b, c, d] ++ message` for a challenge hash.
fn build_challenge_preimage(
    a: ConsoleField,
    b: ConsoleField,
    c: ConsoleField,
    d: ConsoleField,
    message: &Vec<ConsoleField>,
) -> (r: Vec<ConsoleField>)
    ensures
        r@ == seq![a, b, c, d] + message@,
{
    let mut preimage: Vec<ConsoleField> = Vec::new();
    preimage.push(a);
    preimage.push(b);
    preimage.push(c);
    preimage.push(d);
    let n = message.len();
    let mut k: usize = 0;
    while k < n
        invariant
            k <= n,
            n == message.len(),
            preimage@ =~= seq![a, b, c, d] + message@.subrange(0, k as int),
        decreases n - k,
    {
        preimage.push(message[k]);
        k = k + 1;
    }
    proof {
        assert(message@.subrange(0, n as int) =~= message@);
    }
    preimage
}

/// Recomputes the challenge of a session from the signing set, the message
/// and the public key material.  Every honest participant and the aggregator
/// compute exactly this value.
pub fn compute_challenge(
    signing_commitments: &Vec<SigningCommitment>,
    message: &Vec<ConsoleField>,
    group_public_key: &ConsoleGroup,
    pr_sig: &ConsoleGroup,
) -> (r: ConsoleScalar)
    ensures
        r == challenge_spec(signing_commitments@, message@, *group_public_key, *pr_sig),
{
    broadcast use vstd::std_specs::hash::group_hash_axioms;

    // One binding value per index present in the signing set.
    let mut binding_values: HashMap<u64, ConsoleScalar> = HashMap::new();
    let n = signing_commitments.len();
    let mut k: usize = 0;
    while k < n
        invariant
            k <= n,
            n == signing_commitments.len(),
            forall|i: u64| #[trigger]
                binding_values@.dom().contains(i) ==> commit_indices(
                    signing_commitments@,
                ).contains(i),
            forall|i: u64|
                binding_values@.dom().contains(i) ==> #[trigger] binding_values@[i]
                    == binding_value_spec(i, signing_commitments@, message@),
            forall|j: int|
                0 <= j < k ==> binding_values@.dom().contains(
                    (#[trigger] signing_commitments@[j]).participant_index,
                ),
        decreases n - k,
    {
        broadcast use vstd::std_specs::hash::group_hash_axioms;

        let index = signing_commitments[k].participant_index;
        let rho = calculate_binding_value(index, signing_commitments, message);
        proof {
            assert(commit_indices(signing_commitments@)[k as int] == index);
            assert(commit_indices(signing_commitments@).contains(index));
        }
        let ghost old_map = binding_values@;
        binding_values.insert(index, rho);
        proof {
            assert forall|i: u64| #[trigger]
                binding_values@.dom().contains(i) implies commit_indices(
                signing_commitments@,
            ).contains(i) by {
                if i != index {
                    assert(old_map.dom().contains(i));
                }
            }
            assert forall|i: u64|
                binding_values@.dom().contains(i) implies #[trigger] binding_values@[i]
                == binding_value_spec(i, signing_commitments@, message@) by {
                if i == index {
                    assert(binding_values@[i] == rho);
                } else {
                    assert(binding_values@[i] == old_map[i]);
                    assert(old_map.dom().contains(i));
                }
            }
        }
        k = k + 1;
    }

    proof {
        let m = binding_values@;
        let spec_m = binding_map_spec(signing_commitments@, message@);
        assert forall|i: u64| spec_m.dom().contains(i) implies m.dom().contains(i) by {
            assert(commit_indices(signing_commitments@).contains(i));
            let j = choose|j: int|
                0 <= j < commit_indices(signing_commitments@).len() && commit_indices(
                    signing_commitments@,
                )[j] == i;
            assert(signing_commitments@[j].participant_index == i);
            assert(m.dom().contains(signing_commitments@[j].participant_index));
        }
        assert forall|i: u64| m.dom().contains(i) implies spec_m.dom().contains(i) by {
            assert(commit_indices(signing_commitments@).contains(i));
        }
        assert forall|i: u64| m.dom().contains(i) implies m[i] == spec_m[i] by {
            assert(m[i] == binding_value_spec(i, signing_commitments@, message@));
        }
        assert(m =~= spec_m);
    }

    let group_commitment = match calculate_group_commitment(signing_commitments, &binding_values) {
        Ok(point) => point,
        Err(_) => {
            proof {
                assert(false);
            }
            crate::utils::group_identity()
        },
    };

    let address = derive_address(group_public_key, pr_sig);
    let preimage = build_challenge_preimage(
        group_to_x(&group_commitment),
        group_to_x(group_public_key),
        group_to_x(pr_sig),
        group_to_x(&address),
        message,
    );
    hash_psd8(&preimage)
}

/// A partial signature: one participant's scalar contribution to a threshold
/// signature, tagged with the participant's index.  Not independently
/// verifiable; the aggregate either verifies or the session fails.
#[derive(Clone, Copy)]
pub struct PartialThresholdSignature {
    /// The index of the contributing participant.
    pub participant_index: u64,
    /// The participant's response scalar over the message.
    pub partial_signature: ConsoleScalar,
}

/// The response scalar `z_i = d_i + (e_i · rho_i) − (lambda_i · s_i · c)`.
pub open spec fn response_formula_spec(
    nonce: SigningNonce,
    rho: ConsoleScalar,
    lambda: ConsoleScalar,
    secret_key: ConsoleScalar,
    challenge: ConsoleScalar,
) -> ConsoleScalar {
    scalar_sub_of(
        scalar_add_of(nonce.hiding, scalar_mul_of(nonce.binding, rho)),
        scalar_mul_of(scalar_mul_of(lambda, secret_key), challenge),
    )
}

/// One participant's whole partial signature as a function of the session:
/// the response formula applied to this session's binding value, Lagrange
/// coefficient and challenge.
pub open spec fn partial_signature_spec(
    share: SignerShare,
    nonce: SigningNonce,
    commitments: Seq<SigningCommitment>,
    message: Seq<ConsoleField>,
    pr_sig: ConsoleGroup,
) -> ConsoleScalar {
    response_formula_spec(
        nonce,
        binding_value_spec(share.participant_index, commitments, message),
        lagrange_coefficient_spec(share.participant_index, commit_indices(commitments)),
        share.secret_key,
        challenge_spec(commitments, message, share.group_public_key, pr_sig),
    )
}

/// Combines a nonce with the session's binding value, Lagrange coefficient
/// and challenge into the response scalar.  The nonce is consumed: this is
/// its single use.  Total — callers that already hold the session values are
/// owed a result for every input.
pub fn compute_response(
    participant_index: u64,
    secret_key: &ConsoleScalar,
    signing_nonce: SigningNonce,
    rho: &ConsoleScalar,
    lambda: &ConsoleScalar,
    challenge: &ConsoleScalar,
) -> (r: PartialThresholdSignature)
    ensures
        r.participant_index == participant_index,
        r.partial_signature == response_formula_spec(
            signing_nonce,
            *rho,
            *lambda,
            *secret_key,
            *challenge,
        ),
{
    let partial_signature = scalar_sub(
        &scalar_add(&signing_nonce.hiding, &scalar_mul(&signing_nonce.binding, rho)),
        &scalar_mul(&scalar_mul(lambda, secret_key), challenge),
    );
    PartialThresholdSignature { participant_index, partial_signature }
}

impl PartialThresholdSignature {
    /// Produces one participant's partial signature over `message` for the
    /// signing set `signing_commitments`, consuming the nonce.
    ///
    /// The signing set must list its commitments in ascending index order —
    /// the order every participant hashes — and must contain a commitment for
    /// the signer's own index, else the signer has no binding value and the
    /// operation fails with `MissingData`.  The only other failure is the
    /// arithmetic engine's: a non-invertible Lagrange denominator, reported
    /// as `PrimitiveFailure`, never substituted with a default.
    pub fn new_partial_sig(
        participant_signing_share: &SignerShare,
        signing_nonce: SigningNonce,
        signing_commitments: Vec<SigningCommitment>,
        message: Vec<ConsoleField>,
        pr_sig: ConsoleGroup,
    ) -> (r: Result<Self, FrostError>)
        requires
            commits_sorted(signing_commitments@),
        ensures
            !commit_indices(signing_commitments@).contains(
                participant_signing_share.participant_index,
            ) ==> r == Err::<Self, FrostError>(FrostError::MissingData),
            commit_indices(signing_commitments@).contains(
                participant_signing_share.participant_index,
            ) ==> {
                &&& r is Err <==> lagrange_denominator(
                    participant_signing_share.participant_index,
                    commit_indices(signing_commitments@),
                ) == scalar_of_u64(0)
                &&& r is Err ==> r == Err::<Self, FrostError>(FrostError::PrimitiveFailure)
                &&& r is Ok ==> {
                    &&& r->Ok_0.participant_index
                        == participant_signing_share.participant_index
                    &&& r->Ok_0.partial_signature == partial_signature_spec(
                        *participant_signing_share,
                        signing_nonce,
                        signing_commitments@,
                        message@,
                        pr_sig,
                    )
                }
            },
    {
        // The signer must be part of the signing set.
        let n = signing_commitments.len();
        let mut present = false;
        let mut indices: Vec<u64> = Vec::new();
        let mut k: usize = 0;
        while k < n
            invariant
                k <= n,
                n == signing_commitments.len(),
                indices@ =~= commit_indices(signing_commitments@).subrange(0, k as int),
                present <==> exists|j: int|
                    0 <= j < k && (#[trigger] signing_commitments@[j]).participant_index
                        == participant_signing_share.participant_index,
            decreases n - k,
        {
            let index = signing_commitments[k].participant_index;
            if index == participant_signing_share.participant_index {
                present = true;
            }
            indices.push(index);
            k = k + 1;
        }
        proof {
            assert(indices@ =~= commit_indices(signing_commitments@));
        }
        if !present {
            proof {
                assert(!commit_indices(signing_commitments@).contains(
                    participant_signing_share.participant_index,
                ));
            }
            return Err(FrostError::MissingData);
        }
        proof {
            let j = choose|j: int|
                0 <= j < n && (#[trigger] signing_commitments@[j]).participant_index
                    == participant_signing_share.participant_index;
            assert(commit_indices(signing_commitments@)[j]
                == participant_signing_share.participant_index);
            assert(commit_indices(signing_commitments@).contains(
                participant_signing_share.participant_index,
            ));
        }

        // The signer's own binding value and the session challenge.
        let rho = calculate_binding_value(
            participant_signing_share.participant_index,
            &signing_commitments,
            &message,
        );
        let challenge = compute_challenge(
            &signing_commitments,
            &message,
            &participant_signing_share.group_public_key,
            &pr_sig,
        );

        // The signer's Lagrange coefficient over the indices present in the
        // signing set.
        proof {
            lemma_sorted_indices_unique(signing_commitments@);
        }
        let lambda = match calculate_lagrange_coefficients(
            participant_signing_share.participant_index,
            &indices,
        ) {
            Ok(lambda) => lambda,
            Err(_) => {
                return Err(FrostError::PrimitiveFailure);
            },
        };

        Ok(
            compute_response(
                participant_signing_share.participant_index,
                &participant_signing_share.secret_key,
                signing_nonce,
                &rho,
                &lambda,
                &challenge,
            ),
        )
    }
}

/// A complete threshold signature: the session challenge, the aggregated
/// response, and the public-key material the verifier checks against.
/// Indistinguishable in form from a single-signer signature.
#[derive(Clone, Copy)]
pub struct ThresholdSignature {
    /// The verifier challenge of the session.
    pub challenge: ConsoleScalar,
    /// The aggregated prover response.
    pub response: ConsoleScalar,
    /// The group public key, the generator times the unsplit secret.
    pub pk_sig: ConsoleGroup,
    /// The secondary public component carried through from key derivation.
    pub pr_sig: ConsoleGroup,
}

/// The sum of the first `k` partial signatures' scalars.
pub open spec fn response_sum_prefix(
    partial_signatures: Seq<PartialThresholdSignature>,
    k: int,
) -> ConsoleScalar
    decreases k,
{
    if k <= 0 {
        scalar_of_u64(0)
    } else {
        scalar_add_of(
            response_sum_prefix(partial_signatures, k - 1),
            partial_signatures[k - 1].partial_signature,
        )
    }
}

/// The aggregated response: the sum of all partial signatures' scalars.
pub open spec fn response_sum_spec(
    partial_signatures: Seq<PartialThresholdSignature>,
) -> ConsoleScalar {
    response_sum_prefix(partial_signatures, partial_signatures.len() as int)
}

/// Sums the partial signatures into the final signature, recomputing the
/// session challenge from the same signing set and message the signers used.
/// The partial signatures must all have been computed over this signing set
/// and message; the aggregator cannot check that, and a stray contribution
/// simply yields a signature that fails verification.
pub fn aggregate(
    partial_signatures: &Vec<PartialThresholdSignature>,
    signing_commitments: &Vec<SigningCommitment>,
    message: &Vec<ConsoleField>,
    group_public_key: ConsoleGroup,
    pr_sig: ConsoleGroup,
) -> (r: ThresholdSignature)
    ensures
        r.challenge == challenge_spec(signing_commitments@, message@, group_public_key, pr_sig),
        r.response == response_sum_spec(partial_signatures@),
        r.pk_sig == group_public_key,
        r.pr_sig == pr_sig,
{
    let challenge = compute_challenge(signing_commitments, message, &group_public_key, &pr_sig);

    let mut response = index_to_scalar(0);
    let n = partial_signatures.len();
    let mut k: usize = 0;
    while k < n
        invariant
            k <= n,
            n == partial_signatures.len(),
            response == response_sum_prefix(partial_signatures@, k as int),
        decreases n - k,
    {
        response = scalar_add(&response, &partial_signatures[k].partial_signature);
        k = k + 1;
    }

    ThresholdSignature { challenge, response, pk_sig: group_public_key, pr_sig }
}

/// Whether a signature passes standard single-signer Schnorr verification:
/// the challenge recomputed from the candidate commitment
/// `g·z + pk_sig·c` equals the stored challenge, and the supplied address is
/// the point derived from the embedded public-key material.
pub open spec fn verify_spec(
    signature: ThresholdSignature,
    address: ConsoleGroup,
    message: Seq<ConsoleField>,
) -> bool {
    let candidate_commitment = group_add_of(
        gen_mul_of(signature.response),
        group_mul_of(signature.pk_sig, signature.challenge),
    );
    let candidate_challenge = hash_psd8_of(
        seq![
            x_coordinate_of(candidate_commitment),
            x_coordinate_of(signature.pk_sig),
            x_coordinate_of(signature.pr_sig),
            x_coordinate_of(address),
        ] + message,
    );
    signature.challenge == candidate_challenge && group_eq_of(
        address,
        address_spec(signature.pk_sig, signature.pr_sig),
    )
}

/// Checks a signature against an address and a message with the standard
/// Schnorr verification equation.  The threshold machinery is invisible
/// here: no participant index, threshold or share count is needed.  A
/// `false` outcome is a valid result, not an error.
pub fn verify(
    signature: &ThresholdSignature,
    address: &ConsoleGroup,
    message: &Vec<ConsoleField>,
) -> (r: bool)
    ensures
        r == verify_spec(*signature, *address, message@),
{
    let candidate_commitment = group_add(
        &group_gen_mul(&signature.response),
        &group_mul(&signature.pk_sig, &signature.challenge),
    );
    let preimage = build_challenge_preimage(
        group_to_x(&candidate_commitment),
        group_to_x(&signature.pk_sig),
        group_to_x(&signature.pr_sig),
        group_to_x(address),
        message,
    );
    let candidate_challenge = hash_psd8(&preimage);
    let derived_address = derive_address(&signature.pk_sig, &signature.pr_sig);
    scalar_eq(&signature.challenge, &candidate_challenge) && group_eq(address, &derived_address)
}

} // verus!
