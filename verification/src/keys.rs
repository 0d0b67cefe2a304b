//! Key shares, the trusted-dealer share generator, secret reconstruction,
//! and the identity derivation used in the challenge preimage.

use vstd::prelude::*;

use crate::errors::FrostError;
use crate::primitives::gen_mul_of;
use crate::primitives::group_add;
use crate::primitives::group_add_of;
use crate::primitives::group_gen_mul;
use crate::primitives::group_to_x;
use crate::primitives::hash_psd4;
use crate::primitives::hash_psd4_of;
use crate::primitives::index_to_scalar;
use crate::primitives::sample_scalar;
use crate::primitives::scalar_add;
use crate::primitives::scalar_add_of;
use crate::primitives::scalar_mul;
use crate::primitives::scalar_mul_of;
use crate::primitives::scalar_of_u64;
use crate::primitives::x_coordinate_of;
use crate::primitives::ConsoleGroup;
use crate::primitives::ConsoleScalar;
use crate::utils::calculate_lagrange_coefficients;
use crate::utils::has_duplicate;
use crate::utils::lagrange_coefficient_spec;
use snarkvm_console_types_scalar::TestRng;

verus! {

/// One participant's share of the group signing key, issued once by the
/// secret-sharing dealer and then immutable.  It is never transmitted; the
/// participant holds it for the life of the signing identity.
#[derive(Clone, Copy)]
pub struct SignerShare {
    /// The participant's index, never zero.
    pub participant_index: u64,
    /// The participant's secret scalar share.
    pub secret_key: ConsoleScalar,
    /// The group's aggregate public key, the generator times the unsplit
    /// secret.
    pub group_public_key: ConsoleGroup,
}

/// The value of a polynomial, given by its coefficients in ascending degree
/// order, at the point `x` over the scalar field.
pub open spec fn poly_eval_spec(coefficients: Seq<ConsoleScalar>, x: ConsoleScalar) -> ConsoleScalar
    decreases coefficients.len(),
{
    if coefficients.len() == 0 {
        scalar_of_u64(0)
    } else {
        scalar_add_of(coefficients[0], scalar_mul_of(x, poly_eval_spec(coefficients.drop_first(), x)))
    }
}

/// Splits `secret` into `num_shares` Shamir shares with reconstruction
/// threshold `threshold`, for participant indices `1..=num_shares`: share `i`
/// is the value at `i` of a random polynomial of degree `threshold - 1` whose
/// constant term is the secret.  Also returns the generator's multiple of
/// each coefficient, the dealer's public commitment to the polynomial.
///
/// This is the trusted-dealer model: the dealer momentarily holds the whole
/// secret.
pub fn trusted_keygen(
    num_shares: u64,
    threshold: u64,
    secret: &ConsoleScalar,
    rng: &mut TestRng,
) -> (r: (Vec<SignerShare>, Vec<ConsoleGroup>))
    requires
        1 <= threshold <= num_shares,
        num_shares < u64::MAX,
    ensures
        r.0.len() == num_shares,
        r.1.len() == threshold,
        forall|k: int|
            0 <= k < num_shares ==> (#[trigger] r.0[k]).participant_index == k + 1,
        forall|k: int|
            0 <= k < num_shares ==> (#[trigger] r.0[k]).group_public_key == gen_mul_of(*secret),
        exists|coefficients: Seq<ConsoleScalar>|
            {
                &&& coefficients.len() == threshold
                &&& coefficients[0] == *secret
                &&& forall|k: int|
                    0 <= k < num_shares ==> (#[trigger] r.0[k]).secret_key == poly_eval_spec(
                        coefficients,
                        scalar_of_u64((k + 1) as u64),
                    )
                &&& forall|k: int|
                    0 <= k < threshold ==> r.1[k] == gen_mul_of(#[trigger] coefficients[k])
            },
{
    // The polynomial: constant term is the secret, the remaining
    // `threshold - 1` coefficients are sampled uniformly.
    let mut coefficients: Vec<ConsoleScalar> = Vec::new();
    coefficients.push(*secret);
    let mut j: u64 = 1;
    while j < threshold
        invariant
            1 <= j <= threshold,
            coefficients.len() == j,
            coefficients@[0] == *secret,
        decreases threshold - j,
    {
        coefficients.push(sample_scalar(rng));
        j = j + 1;
    }

    let group_public_key = group_gen_mul(secret);

    let mut shares: Vec<SignerShare> = Vec::new();
    let mut i: u64 = 1;
    while i <= num_shares
        invariant
            1 <= i <= num_shares + 1,
            num_shares < u64::MAX,
            shares.len() == i - 1,
            coefficients.len() == threshold,
            1 <= threshold,
            coefficients@[0] == *secret,
            group_public_key == gen_mul_of(*secret),
            forall|k: int|
                0 <= k < i - 1 ==> (#[trigger] shares[k]).participant_index == k + 1,
            forall|k: int|
                0 <= k < i - 1 ==> (#[trigger] shares[k]).group_public_key == gen_mul_of(*secret),
            forall|k: int|
                0 <= k < i - 1 ==> (#[trigger] shares[k]).secret_key == poly_eval_spec(
                    coefficients@,
                    scalar_of_u64((k + 1) as u64),
                ),
        decreases num_shares + 1 - i,
    {
        let x = index_to_scalar(i);
        let t = coefficients.len();

        // Evaluate the polynomial at `x` by Horner's rule, from the highest
        // coefficient down.
        let mut value = index_to_scalar(0);
        let mut k: usize = t;
        while k > 0
            invariant
                k <= t,
                t == coefficients.len(),
                x == scalar_of_u64(i),
                value == poly_eval_spec(coefficients@.subrange(k as int, t as int), x),
            decreases k,
        {
            proof {
                assert(coefficients@.subrange(k - 1, t as int).drop_first() =~= coefficients@
                    .subrange(k as int, t as int));
            }
            value = scalar_add(&coefficients[k - 1], &scalar_mul(&x, &value));
            k = k - 1;
        }
        proof {
            assert(coefficients@.subrange(0, t as int) =~= coefficients@);
        }

        shares.push(
            SignerShare { participant_index: i, secret_key: value, group_public_key },
        );
        i = i + 1;
    }

    // The dealer's public commitment: the generator times each coefficient.
    let mut commitments: Vec<ConsoleGroup> = Vec::new();
    let mut k: usize = 0;
    let t = coefficients.len();
    while k < t
        invariant
            k <= t,
            t == coefficients.len(),
            commitments.len() == k,
            forall|l: int|
                0 <= l < k ==> commitments[l] == gen_mul_of(#[trigger] coefficients@[l]),
        decreases t - k,
    {
        commitments.push(group_gen_mul(&coefficients[k]));
        k = k + 1;
    }

    proof {
        assert(coefficients@.len() == threshold && coefficients@[0] == *secret && (forall|k: int|
            0 <= k < num_shares ==> (#[trigger] shares[k]).secret_key == poly_eval_spec(
                coefficients@,
                scalar_of_u64((k + 1) as u64),
            )) && (forall|k: int|
            0 <= k < threshold ==> commitments[k] == gen_mul_of(#[trigger] coefficients@[k])));
    }
    (shares, commitments)
}

/// The participant indices of a sequence of shares, in order.
pub open spec fn share_indices(shares: Seq<SignerShare>) -> Seq<u64> {
    shares.map_values(|s: SignerShare| s.participant_index)
}

/// The Lagrange-weighted sum of the first `k` shares' secrets, with each
/// weight taken over the whole index set.
pub open spec fn reconstruct_prefix(shares: Seq<SignerShare>, k: int) -> ConsoleScalar
    decreases k,
{
    if k <= 0 {
        scalar_of_u64(0)
    } else {
        scalar_add_of(
            reconstruct_prefix(shares, k - 1),
            scalar_mul_of(
                lagrange_coefficient_spec(shares[k - 1].participant_index, share_indices(shares)),
                shares[k - 1].secret_key,
            ),
        )
    }
}

/// The interpolated constant term of the sharing polynomial: the
/// Lagrange-weighted sum of the shares' secrets.
pub open spec fn reconstruct_spec(shares: Seq<SignerShare>) -> ConsoleScalar {
    reconstruct_prefix(shares, shares.len() as int)
}

/// Recovers the unsplit secret from a quorum of shares by Lagrange
/// interpolation at zero.
///
/// This is a test and audit utility only.  Invoking it against a live
/// threshold deployment defeats the protocol's security property that fewer
/// than all parties never jointly hold the secret: production code must never
/// call it outside of test or emergency-recovery tooling.
pub fn reconstruct_secret(shares: &Vec<SignerShare>) -> (r: Result<ConsoleScalar, FrostError>)
    ensures
        has_duplicate(share_indices(shares@)) ==> r == Err::<ConsoleScalar, FrostError>(
            FrostError::DegenerateInterpolation,
        ),
        !has_duplicate(share_indices(shares@)) ==> {
            &&& r is Err ==> r == Err::<ConsoleScalar, FrostError>(FrostError::PrimitiveFailure)
            &&& r is Ok ==> r->Ok_0 == reconstruct_spec(shares@)
        },
{
    let n = shares.len();
    let mut indices: Vec<u64> = Vec::new();
    let mut k: usize = 0;
    while k < n
        invariant
            k <= n,
            n == shares.len(),
            indices@ =~= share_indices(shares@).subrange(0, k as int),
        decreases n - k,
    {
        indices.push(shares[k].participant_index);
        k = k + 1;
    }
    proof {
        assert(indices@ =~= share_indices(shares@));
    }

    let mut accumulator = index_to_scalar(0);
    let mut k: usize = 0;
    while k < n
        invariant
            k <= n,
            n == shares.len(),
            indices@ == share_indices(shares@),
            accumulator == reconstruct_prefix(shares@, k as int),
            k > 0 ==> !has_duplicate(share_indices(shares@)),
        decreases n - k,
    {
        proof {
            assert(share_indices(shares@)[k as int] == shares@[k as int].participant_index);
            assert(share_indices(shares@).contains(shares@[k as int].participant_index));
        }
        match calculate_lagrange_coefficients(shares[k].participant_index, &indices) {
            Ok(lambda) => {
                accumulator = scalar_add(&accumulator, &scalar_mul(&lambda, &shares[k].secret_key));
            },
            Err(e) => {
                return Err(e);
            },
        }
        k = k + 1;
    }
    Ok(accumulator)
}

/// The canonical address derived from the two public components: the sum of
/// both points and the generator's multiple of the rate-4 hash of their
/// x-coordinates, exactly the console account derivation of a compute key's
/// address.
pub open spec fn address_spec(pk_sig: ConsoleGroup, pr_sig: ConsoleGroup) -> ConsoleGroup {
    group_add_of(
        group_add_of(pk_sig, pr_sig),
        gen_mul_of(hash_psd4_of(seq![x_coordinate_of(pk_sig), x_coordinate_of(pr_sig)])),
    )
}

/// Derives the address bound into the challenge preimage from the group
/// public key and the secondary public component.
pub fn derive_address(pk_sig: &ConsoleGroup, pr_sig: &ConsoleGroup) -> (r: ConsoleGroup)
    ensures
        r == address_spec(*pk_sig, *pr_sig),
{
    let mut preimage: Vec<crate::primitives::ConsoleField> = Vec::new();
    preimage.push(group_to_x(pk_sig));
    preimage.push(group_to_x(pr_sig));
    proof {
        assert(preimage@ =~= seq![x_coordinate_of(*pk_sig), x_coordinate_of(*pr_sig)]);
    }
    let sk_prf = hash_psd4(&preimage);
    group_add(&group_add(pk_sig, pr_sig), &group_gen_mul(&sk_prf))
}

} // verus!
