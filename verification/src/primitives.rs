//! Trusted interface to the snarkVM console primitive engine.
//!
//! The protocol logic in this crate is verified against the contracts below.
//! Each executable function in this module is `external_body`: its body makes
//! one call into the snarkVM console crates (plus argument/result
//! conversions), and its contract states what that call returns, over
//! uninterpreted names for the primitive operations.  Scalars, group elements
//! and base-field elements are generic over an environment trait that the
//! verifier cannot process, so each is held in an opaque wrapper struct whose
//! single field carries the console value; the wrappers are transparent to
//! callers outside the verified library.  Every named operation below is a
//! deterministic function of its arguments alone.

use vstd::prelude::*;

use snarkvm_console_network::Network;
use snarkvm_console_network::TestnetV0;
use snarkvm_console_types::Field;
use snarkvm_console_types::Group;
use snarkvm_console_types::Scalar;
use snarkvm_console_types::U64;
use snarkvm_console_types_scalar::FromField;
use snarkvm_console_types_scalar::Inverse;
use snarkvm_console_types_scalar::TestRng;
use snarkvm_console_types_scalar::ToField;
use snarkvm_console_types_scalar::Uniform;

verus! {

/// An element of the scalar field of this network's group, as computed by the
/// snarkVM console engine.  Opaque to the verifier.
#[verifier::external_body]
pub struct ConsoleScalar(pub Scalar<TestnetV0>);

/// An element of this network's elliptic-curve group.  Opaque to the
/// verifier.  Held in projective coordinates by the console engine, so two
/// structurally different values may denote the same point.
#[verifier::external_body]
pub struct ConsoleGroup(pub Group<TestnetV0>);

/// An element of this network's base field, the domain of the two
/// hash-to-scalar functions.  Opaque to the verifier.
#[verifier::external_body]
pub struct ConsoleField(pub Field<TestnetV0>);

impl Clone for ConsoleScalar {
    /// Relies on `Scalar` being `Copy`: the clone is the same value.
    #[verifier::external_body]
    fn clone(&self) -> (r: Self)
        ensures
            r == *self,
    {
        ConsoleScalar(self.0)
    }
}

impl Copy for ConsoleScalar {

}

impl Clone for ConsoleGroup {
    /// Relies on `Group` being `Copy`: the clone is the same value.
    #[verifier::external_body]
    fn clone(&self) -> (r: Self)
        ensures
            r == *self,
    {
        ConsoleGroup(self.0)
    }
}

impl Copy for ConsoleGroup {

}

impl Clone for ConsoleField {
    /// Relies on `Field` being `Copy`: the clone is the same value.
    #[verifier::external_body]
    fn clone(&self) -> (r: Self)
        ensures
            r == *self,
    {
        ConsoleField(self.0)
    }
}

impl Copy for ConsoleField {

}

#[verifier::external_type_specification]
#[verifier::external_body]
pub struct ExTestRng(TestRng);

#[verifier::external_type_specification]
#[verifier::external_body]
pub struct ExError(snarkvm_console_types_scalar::Error);

/// The base-field embedding of a 64-bit participant index.
pub uninterp spec fn field_of_u64(i: u64) -> ConsoleField;

/// The scalar-field embedding of a 64-bit participant index.
pub uninterp spec fn scalar_of_u64(i: u64) -> ConsoleScalar;

/// The base-field element carrying the canonical bits of a scalar.
pub uninterp spec fn field_of_scalar(s: ConsoleScalar) -> ConsoleField;

/// The sum of two scalars in the scalar field.
pub uninterp spec fn scalar_add_of(a: ConsoleScalar, b: ConsoleScalar) -> ConsoleScalar;

/// The difference of two scalars in the scalar field.
pub uninterp spec fn scalar_sub_of(a: ConsoleScalar, b: ConsoleScalar) -> ConsoleScalar;

/// The product of two scalars in the scalar field.
pub uninterp spec fn scalar_mul_of(a: ConsoleScalar, b: ConsoleScalar) -> ConsoleScalar;

/// The multiplicative inverse of a nonzero scalar.
pub uninterp spec fn scalar_inverse_of(s: ConsoleScalar) -> ConsoleScalar;

/// The sum of two group elements.
pub uninterp spec fn group_add_of(a: ConsoleGroup, b: ConsoleGroup) -> ConsoleGroup;

/// The scalar multiple of a group element.
pub uninterp spec fn group_mul_of(p: ConsoleGroup, s: ConsoleScalar) -> ConsoleGroup;

/// The scalar multiple of the fixed network generator.
pub uninterp spec fn gen_mul_of(s: ConsoleScalar) -> ConsoleGroup;

/// The canonical affine x-coordinate of a group element.
pub uninterp spec fn x_coordinate_of(p: ConsoleGroup) -> ConsoleField;

/// Mathematical equality of two group elements: the point-equality relation
/// the curve implements, which identifies projective representations of the
/// same point.
pub uninterp spec fn group_eq_of(a: ConsoleGroup, b: ConsoleGroup) -> bool;

/// The Poseidon hash-to-scalar with input rate 4, in this network's domain.
pub uninterp spec fn hash_psd4_of(input: Seq<ConsoleField>) -> ConsoleScalar;

/// The Poseidon hash-to-scalar with input rate 8, in this network's domain.
pub uninterp spec fn hash_psd8_of(input: Seq<ConsoleField>) -> ConsoleScalar;

/// Relies on `U64::to_field`: the base-field embedding of a 64-bit integer.
/// The conversion reconstitutes 64 bits into a base-field element, which
/// always fits, so it cannot fail.
#[verifier::external_body]
pub(crate) fn index_to_field(i: u64) -> (r: ConsoleField)
    ensures
        r == field_of_u64(i),
{
    ConsoleField(U64::<TestnetV0>::new(i).to_field().unwrap())
}

/// Relies on `U64::to_field` and `Scalar::from_field`: the scalar-field
/// embedding of a 64-bit integer.  A 64-bit value is far below the scalar
/// field modulus, so neither conversion can fail.
#[verifier::external_body]
pub(crate) fn index_to_scalar(i: u64) -> (r: ConsoleScalar)
    ensures
        r == scalar_of_u64(i),
{
    ConsoleScalar(Scalar::from_field(&U64::<TestnetV0>::new(i).to_field().unwrap()).unwrap())
}

/// Relies on `Scalar::to_field`: re-reads the canonical bits of a scalar as a
/// base-field element.  The scalar field modulus is below the base-field
/// modulus, so the conversion cannot fail.
#[verifier::external_body]
pub(crate) fn scalar_to_field(s: &ConsoleScalar) -> (r: ConsoleField)
    ensures
        r == field_of_scalar(*s),
{
    ConsoleField(s.0.to_field().unwrap())
}

/// Relies on `Scalar`'s `Add` impl: scalar-field addition.
#[verifier::external_body]
pub(crate) fn scalar_add(a: &ConsoleScalar, b: &ConsoleScalar) -> (r: ConsoleScalar)
    ensures
        r == scalar_add_of(*a, *b),
{
    ConsoleScalar(a.0 + b.0)
}

/// Relies on `Scalar`'s `Sub` impl: scalar-field subtraction.
#[verifier::external_body]
pub(crate) fn scalar_sub(a: &ConsoleScalar, b: &ConsoleScalar) -> (r: ConsoleScalar)
    ensures
        r == scalar_sub_of(*a, *b),
{
    ConsoleScalar(a.0 - b.0)
}

/// Relies on `Scalar`'s `Mul` impl: scalar-field multiplication.
#[verifier::external_body]
pub(crate) fn scalar_mul(a: &ConsoleScalar, b: &ConsoleScalar) -> (r: ConsoleScalar)
    ensures
        r == scalar_mul_of(*a, *b),
{
    ConsoleScalar(a.0 * b.0)
}

/// Relies on `Scalar::inverse`: the multiplicative inverse, which the field
/// implementation yields for exactly the nonzero scalars.
#[verifier::external_body]
pub(crate) fn scalar_inverse(s: &ConsoleScalar) -> (r: Result<
    ConsoleScalar,
    snarkvm_console_types_scalar::Error,
>)
    ensures
        r is Ok <==> *s != scalar_of_u64(0),
        r is Ok ==> r->Ok_0 == scalar_inverse_of(*s),
{
    s.0.inverse().map(ConsoleScalar)
}

/// Relies on `Scalar`'s derived `PartialEq`: scalars are kept in a canonical
/// representation, so the derived comparison decides value equality.
#[verifier::external_body]
pub(crate) fn scalar_eq(a: &ConsoleScalar, b: &ConsoleScalar) -> (r: bool)
    ensures
        r == (*a == *b),
{
    a.0 == b.0
}

/// Relies on `Group`'s `Add` impl: elliptic-curve point addition.
#[verifier::external_body]
pub(crate) fn group_add(a: &ConsoleGroup, b: &ConsoleGroup) -> (r: ConsoleGroup)
    ensures
        r == group_add_of(*a, *b),
{
    ConsoleGroup(a.0 + b.0)
}

/// Relies on `Group`'s `Mul<Scalar>` impl: scalar multiplication of a point.
#[verifier::external_body]
pub(crate) fn group_mul(p: &ConsoleGroup, s: &ConsoleScalar) -> (r: ConsoleGroup)
    ensures
        r == group_mul_of(*p, *s),
{
    ConsoleGroup(p.0 * s.0)
}

/// Relies on `Network::g_scalar_multiply`: multiplication of the fixed
/// network generator by a scalar.
#[verifier::external_body]
pub(crate) fn group_gen_mul(s: &ConsoleScalar) -> (r: ConsoleGroup)
    ensures
        r == gen_mul_of(*s),
{
    ConsoleGroup(TestnetV0::g_scalar_multiply(&s.0))
}

/// Relies on `Group::to_x_coordinate`: the affine x-coordinate of a point.
#[verifier::external_body]
pub(crate) fn group_to_x(p: &ConsoleGroup) -> (r: ConsoleField)
    ensures
        r == x_coordinate_of(*p),
{
    ConsoleField(p.0.to_x_coordinate())
}

/// Relies on `Group`'s `PartialEq` impl, which compares points up to the
/// projective representation, i.e. decides mathematical point equality.
/// Structurally equal values always denote the same point.
#[verifier::external_body]
pub(crate) fn group_eq(a: &ConsoleGroup, b: &ConsoleGroup) -> (r: bool)
    ensures
        r == group_eq_of(*a, *b),
        *a == *b ==> r,
{
    a.0 == b.0
}

/// Relies on `Network::hash_to_scalar_psd4`: the rate-4 Poseidon
/// hash-to-scalar.  The underlying sponge never reports failure, so the
/// result is unwrapped here.
#[verifier::external_body]
pub(crate) fn hash_psd4(input: &Vec<ConsoleField>) -> (r: ConsoleScalar)
    ensures
        r == hash_psd4_of(input@),
{
    let fields: Vec<Field<TestnetV0>> = input.iter().map(|f| f.0).collect();
    ConsoleScalar(TestnetV0::hash_to_scalar_psd4(&fields).unwrap())
}

/// Relies on `Network::hash_to_scalar_psd8`: the rate-8 Poseidon
/// hash-to-scalar.  The underlying sponge never reports failure, so the
/// result is unwrapped here.
#[verifier::external_body]
pub(crate) fn hash_psd8(input: &Vec<ConsoleField>) -> (r: ConsoleScalar)
    ensures
        r == hash_psd8_of(input@),
{
    let fields: Vec<Field<TestnetV0>> = input.iter().map(|f| f.0).collect();
    ConsoleScalar(TestnetV0::hash_to_scalar_psd8(&fields).unwrap())
}

/// Relies on `Uniform::rand` for `Scalar`: a uniformly random scalar drawn
/// from the given generator.  Nothing is promised of the sampled value.
#[verifier::external_body]
pub(crate) fn sample_scalar(rng: &mut TestRng) -> (r: ConsoleScalar) {
    ConsoleScalar(Uniform::rand(rng))
}

} // verus!
