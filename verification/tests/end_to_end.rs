use frost_aleo::frost::aggregate;
use frost_aleo::frost::verify;
use frost_aleo::frost::PartialThresholdSignature;
use frost_aleo::frost::ThresholdSignature;
use frost_aleo::keys::trusted_keygen;
use frost_aleo::preprocess::preprocess;
use frost_aleo::primitives::ConsoleField;
use frost_aleo::primitives::ConsoleGroup;
use frost_aleo::primitives::ConsoleScalar;

use snarkvm_console_account::Address;
use snarkvm_console_account::ComputeKey;
use snarkvm_console_account::PrivateKey;
use snarkvm_console_account::Signature;
use snarkvm_console_network::TestnetV0;
use snarkvm_console_program::Value;
use snarkvm_console_types_scalar::FromStr;
use snarkvm_console_types_scalar::TestRng;
use snarkvm_console_types_scalar::ToFields;

#[test]
fn two_of_three_signs_and_verifies() {
    let rng = &mut TestRng::fixed(20240601);
    let private_key = PrivateKey::<TestnetV0>::new(rng).unwrap();
    let compute_key = ComputeKey::<TestnetV0>::try_from(private_key).unwrap();
    let address = Address::<TestnetV0>::try_from(compute_key).unwrap();

    let message_fields = Value::<TestnetV0>::from_str(
        "{ recipient: aleo1hy0uyudcr24q8nmxr8nlk82penl8jtqyfyuyz6mr5udlt0g3vyfqt9l7ew, amount: 10u128 }",
    )
    .unwrap()
    .to_fields()
    .unwrap();
    let message: Vec<ConsoleField> = message_fields.iter().map(|f| ConsoleField(*f)).collect();

    let other_fields = Value::<TestnetV0>::from_str(
        "{ recipient: aleo1hy0uyudcr24q8nmxr8nlk82penl8jtqyfyuyz6mr5udlt0g3vyfqt9l7ew, amount: 11u128 }",
    )
    .unwrap()
    .to_fields()
    .unwrap();
    let other_message: Vec<ConsoleField> = other_fields.iter().map(|f| ConsoleField(*f)).collect();

    // Split the signing secret into 3 shares with threshold 2.
    let secret = ConsoleScalar(private_key.sk_sig());
    let (shares, _commitments) = trusted_keygen(3, 2, &secret, rng);
    assert_eq!(shares.len(), 3);
    let pr_sig = ConsoleGroup(compute_key.pr_sig());

    // Round 1: participants 1 and 2 preprocess one nonce pair each.
    let (mut nonces_1, commitments_1) = preprocess(1, 1, rng);
    let (mut nonces_2, commitments_2) = preprocess(1, 2, rng);
    let signing_set = vec![commitments_1[0], commitments_2[0]];

    // Round 2: both compute partial signatures over the same set and message.
    let partial_1 = PartialThresholdSignature::new_partial_sig(
        &shares[0],
        nonces_1.remove(0),
        signing_set.clone(),
        message.clone(),
        pr_sig,
    )
    .unwrap();
    let partial_2 = PartialThresholdSignature::new_partial_sig(
        &shares[1],
        nonces_2.remove(0),
        signing_set.clone(),
        message.clone(),
        pr_sig,
    )
    .unwrap();
    assert_eq!(partial_1.participant_index, 1);
    assert_eq!(partial_2.participant_index, 2);

    // Aggregation and verification.
    let signature = aggregate(
        &vec![partial_1, partial_2],
        &signing_set,
        &message,
        shares[0].group_public_key,
        pr_sig,
    );
    let address_point = ConsoleGroup(*address);
    assert!(verify(&signature, &address_point, &message));
    assert!(!verify(&signature, &address_point, &other_message));

    // The same signature passes the console account verifier, so the
    // threshold machinery is invisible to a standard verifier.
    let console_signature =
        Signature::<TestnetV0>::from((signature.challenge.0, signature.response.0, compute_key));
    assert!(console_signature.verify(&address, &message_fields));
    assert!(!console_signature.verify(&address, &other_fields));
}

#[test]
fn signer_outside_the_signing_set_cannot_sign() {
    let rng = &mut TestRng::fixed(515);
    let private_key = PrivateKey::<TestnetV0>::new(rng).unwrap();
    let compute_key = ComputeKey::<TestnetV0>::try_from(private_key).unwrap();
    let secret = ConsoleScalar(private_key.sk_sig());
    let (shares, _commitments) = trusted_keygen(3, 2, &secret, rng);
    let pr_sig = ConsoleGroup(compute_key.pr_sig());

    let (_nonces_1, commitments_1) = preprocess(1, 1, rng);
    let (mut nonces_2, commitments_2) = preprocess(1, 2, rng);
    let signing_set = vec![commitments_1[0], commitments_2[0]];
    let message: Vec<ConsoleField> = vec![];

    // Participant 3 has no commitment in the signing set, so it has no
    // binding value and partial signing reports the missing data.
    let result = PartialThresholdSignature::new_partial_sig(
        &shares[2],
        nonces_2.remove(0),
        signing_set.clone(),
        message,
        pr_sig,
    );
    assert!(matches!(result, Err(frost_aleo::errors::FrostError::MissingData)));
}

#[test]
fn vanilla_signature_passes_same_verifier() {
    let rng = &mut TestRng::fixed(77001);
    let private_key = PrivateKey::<TestnetV0>::new(rng).unwrap();
    let compute_key = ComputeKey::<TestnetV0>::try_from(private_key).unwrap();
    let address = Address::<TestnetV0>::try_from(compute_key).unwrap();

    let message_fields = Value::<TestnetV0>::from_str(
        "{ recipient: aleo1hy0uyudcr24q8nmxr8nlk82penl8jtqyfyuyz6mr5udlt0g3vyfqt9l7ew, amount: 5u128 }",
    )
    .unwrap()
    .to_fields()
    .unwrap();
    let message: Vec<ConsoleField> = message_fields.iter().map(|f| ConsoleField(*f)).collect();

    // Sign directly with the unsplit key, through the console account crate.
    let console_signature = private_key.sign(&message_fields, rng).unwrap();
    assert!(console_signature.verify(&address, &message_fields));

    // The vanilla signature passes this library's verifier unchanged.
    let signature = ThresholdSignature {
        challenge: ConsoleScalar(console_signature.challenge()),
        response: ConsoleScalar(console_signature.response()),
        pk_sig: ConsoleGroup(compute_key.pk_sig()),
        pr_sig: ConsoleGroup(compute_key.pr_sig()),
    };
    let address_point = ConsoleGroup(*address);
    assert!(verify(&signature, &address_point, &message));

    // And the threshold path over the same message also passes it: the two
    // paths share one verification routine.
    let secret = ConsoleScalar(private_key.sk_sig());
    let (shares, _commitments) = trusted_keygen(3, 2, &secret, rng);
    let pr_sig = ConsoleGroup(compute_key.pr_sig());
    let (mut nonces_1, commitments_1) = preprocess(1, 1, rng);
    let (mut nonces_3, commitments_3) = preprocess(1, 3, rng);
    let signing_set = vec![commitments_1[0], commitments_3[0]];
    let partial_1 = PartialThresholdSignature::new_partial_sig(
        &shares[0],
        nonces_1.remove(0),
        signing_set.clone(),
        message.clone(),
        pr_sig,
    )
    .unwrap();
    let partial_3 = PartialThresholdSignature::new_partial_sig(
        &shares[2],
        nonces_3.remove(0),
        signing_set.clone(),
        message.clone(),
        pr_sig,
    )
    .unwrap();
    let threshold_signature = aggregate(
        &vec![partial_1, partial_3],
        &signing_set,
        &message,
        shares[0].group_public_key,
        pr_sig,
    );
    assert!(verify(&threshold_signature, &address_point, &message));

    // The two signatures differ, since each draws fresh randomness.
    assert!(
        !(signature.challenge.0 == threshold_signature.challenge.0
            && signature.response.0 == threshold_signature.response.0)
    );
}

#[test]
fn too_few_or_mismatched_partials_do_not_verify() {
    let rng = &mut TestRng::fixed(90210);
    let private_key = PrivateKey::<TestnetV0>::new(rng).unwrap();
    let compute_key = ComputeKey::<TestnetV0>::try_from(private_key).unwrap();
    let address = Address::<TestnetV0>::try_from(compute_key).unwrap();
    let address_point = ConsoleGroup(*address);

    let message_fields = Value::<TestnetV0>::from_str(
        "{ recipient: aleo1hy0uyudcr24q8nmxr8nlk82penl8jtqyfyuyz6mr5udlt0g3vyfqt9l7ew, amount: 3u128 }",
    )
    .unwrap()
    .to_fields()
    .unwrap();
    let message: Vec<ConsoleField> = message_fields.iter().map(|f| ConsoleField(*f)).collect();
    let other_fields = Value::<TestnetV0>::from_str(
        "{ recipient: aleo1hy0uyudcr24q8nmxr8nlk82penl8jtqyfyuyz6mr5udlt0g3vyfqt9l7ew, amount: 4u128 }",
    )
    .unwrap()
    .to_fields()
    .unwrap();
    let other_message: Vec<ConsoleField> = other_fields.iter().map(|f| ConsoleField(*f)).collect();

    let secret = ConsoleScalar(private_key.sk_sig());
    let (shares, _commitments) = trusted_keygen(3, 2, &secret, rng);
    let pr_sig = ConsoleGroup(compute_key.pr_sig());

    let (mut nonces_1, commitments_1) = preprocess(2, 1, rng);
    let (mut nonces_2, commitments_2) = preprocess(2, 2, rng);
    let (mut nonces_3, commitments_3) = preprocess(1, 3, rng);
    let signing_set = vec![commitments_1[0], commitments_2[0]];

    let partial_1 = PartialThresholdSignature::new_partial_sig(
        &shares[0],
        nonces_1.remove(0),
        signing_set.clone(),
        message.clone(),
        pr_sig,
    )
    .unwrap();
    let partial_2 = PartialThresholdSignature::new_partial_sig(
        &shares[1],
        nonces_2.remove(0),
        signing_set.clone(),
        message.clone(),
        pr_sig,
    )
    .unwrap();

    // Baseline: the complete session verifies, so the failures below are
    // attributable to the mismatches alone.
    let complete = aggregate(
        &vec![partial_1, partial_2],
        &signing_set,
        &message,
        shares[0].group_public_key,
        pr_sig,
    );
    assert!(verify(&complete, &address_point, &message));

    // Fewer than t partial signatures: the aggregate must not verify.
    let short = aggregate(
        &vec![partial_1],
        &signing_set,
        &message,
        shares[0].group_public_key,
        pr_sig,
    );
    assert!(!verify(&short, &address_point, &message));

    // Partial signatures over different messages in one session: the
    // aggregate must not verify against either message.
    let second_set = vec![commitments_1[1], commitments_2[1]];
    let partial_1_second = PartialThresholdSignature::new_partial_sig(
        &shares[0],
        nonces_1.remove(0),
        second_set.clone(),
        message.clone(),
        pr_sig,
    )
    .unwrap();
    let partial_2_other = PartialThresholdSignature::new_partial_sig(
        &shares[1],
        nonces_2.remove(0),
        second_set.clone(),
        other_message.clone(),
        pr_sig,
    )
    .unwrap();
    let mismatched_message = aggregate(
        &vec![partial_1_second, partial_2_other],
        &second_set,
        &message,
        shares[0].group_public_key,
        pr_sig,
    );
    assert!(!verify(&mismatched_message, &address_point, &message));
    assert!(!verify(&mismatched_message, &address_point, &other_message));

    // A partial signature computed over a different signing set must not
    // verify either.
    let other_set = vec![commitments_1[0], commitments_3[0]];
    let partial_3 = PartialThresholdSignature::new_partial_sig(
        &shares[2],
        nonces_3.remove(0),
        other_set.clone(),
        message.clone(),
        pr_sig,
    )
    .unwrap();
    let mismatched_set = aggregate(
        &vec![partial_1, partial_3],
        &signing_set,
        &message,
        shares[0].group_public_key,
        pr_sig,
    );
    assert!(!verify(&mismatched_set, &address_point, &message));
}
