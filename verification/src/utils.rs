//! Session binding, Lagrange interpolation and the group commitment.

use vstd::prelude::*;

use std::collections::HashMap;

use crate::errors::FrostError;
use crate::preprocess::SigningCommitment;
use crate::primitives::field_of_scalar;
use crate::primitives::field_of_u64;
use crate::primitives::gen_mul_of;
use crate::primitives::group_add;
use crate::primitives::group_add_of;
use crate::primitives::group_gen_mul;
use crate::primitives::group_mul;
use crate::primitives::group_mul_of;
use crate::primitives::hash_psd4;
use crate::primitives::hash_psd4_of;
use crate::primitives::index_to_field;
use crate::primitives::index_to_scalar;
use crate::primitives::scalar_inverse;
use crate::primitives::scalar_inverse_of;
use crate::primitives::scalar_mul;
use crate::primitives::scalar_mul_of;
use crate::primitives::scalar_of_u64;
use crate::primitives::scalar_sub;
use crate::primitives::scalar_sub_of;
use crate::primitives::scalar_to_field;
use crate::primitives::group_to_x;
use crate::primitives::x_coordinate_of;
use crate::primitives::ConsoleField;
use crate::primitives::ConsoleGroup;
use crate::primitives::ConsoleScalar;

verus! {

/// Whether a sequence of participant indices names some index twice.
pub open spec fn has_duplicate(indices: Seq<u64>) -> bool {
    exists|k: int, l: int| 0 <= k < l < indices.len() && indices[k] == indices[l]
}

/// The running numerator of the Lagrange coefficient for `participant_index`
/// over the first `k` entries of `indices`: the product of the scalar
/// embeddings of every other index seen so far.
pub open spec fn lagrange_numerator_prefix(
    participant_index: u64,
    indices: Seq<u64>,
    k: int,
) -> ConsoleScalar
    decreases k,
{
    if k <= 0 {
        scalar_of_u64(1)
    } else if indices[k - 1] == participant_index {
        lagrange_numerator_prefix(participant_index, indices, k - 1)
    } else {
        scalar_mul_of(
            lagrange_numerator_prefix(participant_index, indices, k - 1),
            scalar_of_u64(indices[k - 1]),
        )
    }
}

/// The running denominator of the Lagrange coefficient for
/// `participant_index` over the first `k` entries of `indices`: the product
/// of `j - i` over every other index `j` seen so far.
pub open spec fn lagrange_denominator_prefix(
    participant_index: u64,
    indices: Seq<u64>,
    k: int,
) -> ConsoleScalar
    decreases k,
{
    if k <= 0 {
        scalar_of_u64(1)
    } else if indices[k - 1] == participant_index {
        lagrange_denominator_prefix(participant_index, indices, k - 1)
    } else {
        scalar_mul_of(
            lagrange_denominator_prefix(participant_index, indices, k - 1),
            scalar_sub_of(scalar_of_u64(indices[k - 1]), scalar_of_u64(participant_index)),
        )
    }
}

/// The Lagrange numerator over the whole index sequence.
pub open spec fn lagrange_numerator(participant_index: u64, indices: Seq<u64>) -> ConsoleScalar {
    lagrange_numerator_prefix(participant_index, indices, indices.len() as int)
}

/// The Lagrange denominator over the whole index sequence.
pub open spec fn lagrange_denominator(participant_index: u64, indices: Seq<u64>) -> ConsoleScalar {
    lagrange_denominator_prefix(participant_index, indices, indices.len() as int)
}

/// The Lagrange coefficient of `participant_index` for interpolation at zero
/// over the given index set: numerator times the inverse of the denominator.
pub open spec fn lagrange_coefficient_spec(
    participant_index: u64,
    indices: Seq<u64>,
) -> ConsoleScalar {
    scalar_mul_of(
        lagrange_numerator(participant_index, indices),
        scalar_inverse_of(lagrange_denominator(participant_index, indices)),
    )
}

/// Computes the Lagrange coefficient of `participant_index` evaluated at
/// zero over the scalar field, for the index set present in the session.
///
/// The computation fails — it never substitutes a default — when the index
/// set repeats an index, when it is empty, or when it does not contain
/// `participant_index`.
pub fn calculate_lagrange_coefficients(
    participant_index: u64,
    all_participant_indices: &Vec<u64>,
) -> (r: Result<ConsoleScalar, FrostError>)
    ensures
        has_duplicate(all_participant_indices@) ==> r == Err::<ConsoleScalar, FrostError>(
            FrostError::DegenerateInterpolation,
        ),
        !has_duplicate(all_participant_indices@) && !all_participant_indices@.contains(
            participant_index,
        ) ==> r == Err::<ConsoleScalar, FrostError>(FrostError::MissingData),
        !has_duplicate(all_participant_indices@) && all_participant_indices@.contains(
            participant_index,
        ) ==> {
            &&& r is Err <==> lagrange_denominator(participant_index, all_participant_indices@)
                == scalar_of_u64(0)
            &&& r is Err ==> r == Err::<ConsoleScalar, FrostError>(FrostError::PrimitiveFailure)
            &&& r is Ok ==> r->Ok_0 == lagrange_coefficient_spec(
                participant_index,
                all_participant_indices@,
            )
        },
{
    let n = all_participant_indices.len();

    // Reject a repeated index before touching the field: a duplicate makes
    // the denominator the additive identity, whose inverse is undefined.
    let mut k: usize = 0;
    while k < n
        invariant
            k <= n,
            n == all_participant_indices.len(),
            forall|a: int, b: int|
                0 <= a < b < n && a < k ==> all_participant_indices@[a]
                    != all_participant_indices@[b],
        decreases n - k,
    {
        let mut l: usize = k + 1;
        while l < n
            invariant
                k < l,
                l <= n,
                n == all_participant_indices.len(),
                forall|b: int|
                    k < b < l ==> all_participant_indices@[k as int]
                        != all_participant_indices@[b],
            decreases n - l,
        {
            if all_participant_indices[k] == all_participant_indices[l] {
                assert(has_duplicate(all_participant_indices@));
                return Err(FrostError::DegenerateInterpolation);
            }
            l = l + 1;
        }
        k = k + 1;
    }
    assert(!has_duplicate(all_participant_indices@));

    // The coefficient is defined only for a member of the index set.
    let mut present = false;
    let mut k: usize = 0;
    while k < n
        invariant
            k <= n,
            n == all_participant_indices.len(),
            present <==> exists|a: int|
                0 <= a < k && all_participant_indices@[a] == participant_index,
        decreases n - k,
    {
        if all_participant_indices[k] == participant_index {
            present = true;
        }
        k = k + 1;
    }
    if !present {
        assert(!all_participant_indices@.contains(participant_index));
        return Err(FrostError::MissingData);
    }
    assert(all_participant_indices@.contains(participant_index));

    let participant_scalar = index_to_scalar(participant_index);
    let mut numerator = index_to_scalar(1);
    let mut denominator = index_to_scalar(1);
    let mut k: usize = 0;
    while k < n
        invariant
            k <= n,
            n == all_participant_indices.len(),
            numerator == lagrange_numerator_prefix(
                participant_index,
                all_participant_indices@,
                k as int,
            ),
            denominator == lagrange_denominator_prefix(
                participant_index,
                all_participant_indices@,
                k as int,
            ),
            participant_scalar == scalar_of_u64(participant_index),
        decreases n - k,
    {
        let index = all_participant_indices[k];
        if index != participant_index {
            let index_scalar = index_to_scalar(index);
            numerator = scalar_mul(&numerator, &index_scalar);
            denominator = scalar_mul(
                &denominator,
                &scalar_sub(&index_scalar, &participant_scalar),
            );
        }
        k = k + 1;
    }

    match scalar_inverse(&denominator) {
        Ok(inverted_denominator) => Ok(scalar_mul(&numerator, &inverted_denominator)),
        Err(_) => Err(FrostError::PrimitiveFailure),
    }
}

/// The commitment section of the binding preimage: for each of the first `k`
/// commitments, in order, its index embedding and the x-coordinates of its
/// hiding and binding points.
pub open spec fn binding_preimage_commitments(
    commitments: Seq<SigningCommitment>,
    k: int,
) -> Seq<ConsoleField>
    decreases k,
{
    if k <= 0 {
        Seq::empty()
    } else {
        binding_preimage_commitments(commitments, k - 1) + seq![
            field_of_u64(commitments[k - 1].participant_index),
            x_coordinate_of(commitments[k - 1].hiding),
            x_coordinate_of(commitments[k - 1].binding),
        ]
    }
}

/// The full binding preimage for one participant: the participant's index
/// embedding, the hash of the message, then every commitment of the session
/// in the order given.
pub open spec fn binding_preimage(
    participant_index: u64,
    commitments: Seq<SigningCommitment>,
    message: Seq<ConsoleField>,
) -> Seq<ConsoleField> {
    seq![field_of_u64(participant_index), field_of_scalar(hash_psd4_of(message))]
        + binding_preimage_commitments(commitments, commitments.len() as int)
}

/// The binding value `rho_i`: the rate-4 hash of the binding preimage.  A
/// pure function of the participant's index, the session's commitment set and
/// the message — identical inputs always bind identically.
pub open spec fn binding_value_spec(
    participant_index: u64,
    commitments: Seq<SigningCommitment>,
    message: Seq<ConsoleField>,
) -> ConsoleScalar {
    hash_psd4_of(binding_preimage(participant_index, commitments, message))
}

/// Binding is deterministic: any two binding factors computed over identical
/// (participant index, signing set, message) inputs are equal.  The result of
/// `calculate_binding_value` is pinned to `binding_value_spec` of its inputs
/// alone, so every honest participant of a session derives the same value.
pub proof fn lemma_binding_factor_deterministic(
    participant_index: u64,
    commitments: Seq<SigningCommitment>,
    message: Seq<ConsoleField>,
    first: ConsoleScalar,
    second: ConsoleScalar,
)
    requires
        first == binding_value_spec(participant_index, commitments, message),
        second == binding_value_spec(participant_index, commitments, message),
    ensures
        first == second,
{
}

/// Computes the binding value `rho_i` that ties a participant's nonce
/// commitment to this exact message and this exact commitment set, defeating
/// reuse of a published commitment in another session.  Callers must present
/// the commitments in ascending index order so that all participants hash the
/// same preimage.
pub fn calculate_binding_value(
    participant_index: u64,
    signing_commitments: &Vec<SigningCommitment>,
    message: &Vec<ConsoleField>,
) -> (r: ConsoleScalar)
    ensures
        r == binding_value_spec(participant_index, signing_commitments@, message@),
{
    let message_hash = hash_psd4(message);

    let mut preimage: Vec<ConsoleField> = Vec::new();
    preimage.push(index_to_field(participant_index));
    preimage.push(scalar_to_field(&message_hash));

    let n = signing_commitments.len();
    let mut k: usize = 0;
    while k < n
        invariant
            k <= n,
            n == signing_commitments.len(),
            preimage@ == seq![
                field_of_u64(participant_index),
                field_of_scalar(hash_psd4_of(message@)),
            ] + binding_preimage_commitments(signing_commitments@, k as int),
        decreases n - k,
    {
        let commitment = &signing_commitments[k];
        preimage.push(index_to_field(commitment.participant_index));
        preimage.push(group_to_x(&commitment.hiding));
        preimage.push(group_to_x(&commitment.binding));
        assert(preimage@ == seq![
            field_of_u64(participant_index),
            field_of_scalar(hash_psd4_of(message@)),
        ] + binding_preimage_commitments(signing_commitments@, k + 1 as int));
        k = k + 1;
    }

    hash_psd4(&preimage)
}

/// The additive identity of the group, as the generator times the zero
/// scalar.
pub open spec fn group_identity_spec() -> ConsoleGroup {
    gen_mul_of(scalar_of_u64(0))
}

/// Computes the group's additive identity.
pub fn group_identity() -> (r: ConsoleGroup)
    ensures
        r == group_identity_spec(),
{
    group_gen_mul(&index_to_scalar(0))
}

/// Whether every commitment's index has a binding value.
pub open spec fn all_indices_bound(
    commitments: Seq<SigningCommitment>,
    binding_values: Map<u64, ConsoleScalar>,
) -> bool {
    forall|k: int|
        0 <= k < commitments.len() ==> binding_values.contains_key(
            (#[trigger] commitments[k]).participant_index,
        )
}

/// The group commitment accumulated over the first `k` commitments:
/// `Σ (D_j + rho_j · E_j)` in the order given, starting from the identity.
pub open spec fn group_commitment_prefix(
    commitments: Seq<SigningCommitment>,
    binding_values: Map<u64, ConsoleScalar>,
    k: int,
) -> ConsoleGroup
    decreases k,
{
    if k <= 0 {
        group_identity_spec()
    } else {
        group_add_of(
            group_add_of(
                group_commitment_prefix(commitments, binding_values, k - 1),
                commitments[k - 1].hiding,
            ),
            group_mul_of(
                commitments[k - 1].binding,
                binding_values[commitments[k - 1].participant_index],
            ),
        )
    }
}

/// The session's group commitment `R` over the whole commitment set.
pub open spec fn group_commitment_spec(
    commitments: Seq<SigningCommitment>,
    binding_values: Map<u64, ConsoleScalar>,
) -> ConsoleGroup {
    group_commitment_prefix(commitments, binding_values, commitments.len() as int)
}

/// Folds the session's commitments and binding values into the single group
/// element `R = Σ (D_i + rho_i · E_i)`, the session's ephemeral public nonce.
/// Every commitment's index must carry a binding value; a missing one is a
/// protocol error, not a recoverable condition.
pub fn calculate_group_commitment(
    signing_commitments: &Vec<SigningCommitment>,
    binding_values: &HashMap<u64, ConsoleScalar>,
) -> (r: Result<ConsoleGroup, FrostError>)
    ensures
        all_indices_bound(signing_commitments@, binding_values@) ==> r
            == Ok::<ConsoleGroup, FrostError>(
            group_commitment_spec(signing_commitments@, binding_values@),
        ),
        !all_indices_bound(signing_commitments@, binding_values@) ==> r == Err::<
            ConsoleGroup,
            FrostError,
        >(FrostError::MissingData),
{
    broadcast use vstd::std_specs::hash::group_hash_axioms;

    let mut accumulator = group_identity();
    let n = signing_commitments.len();
    let mut k: usize = 0;
    while k < n
        invariant
            k <= n,
            n == signing_commitments.len(),
            forall|j: int|
                0 <= j < k ==> binding_values@.contains_key(
                    (#[trigger] signing_commitments@[j]).participant_index,
                ),
            accumulator == group_commitment_prefix(
                signing_commitments@,
                binding_values@,
                k as int,
            ),
        decreases n - k,
    {
        broadcast use vstd::std_specs::hash::group_hash_axioms;

        let commitment = &signing_commitments[k];
        match binding_values.get(&commitment.participant_index) {
            Some(rho) => {
                accumulator = group_add(
                    &group_add(&accumulator, &commitment.hiding),
                    &group_mul(&commitment.binding, rho),
                );
            },
            None => {
                assert(!all_indices_bound(signing_commitments@, binding_values@));
                return Err(FrostError::MissingData);
            },
        }
        k = k + 1;
    }
    Ok(accumulator)
}

} // verus!
