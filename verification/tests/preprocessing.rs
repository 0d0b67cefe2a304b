use frost_aleo::keys::derive_address;
use frost_aleo::preprocess::preprocess;
use frost_aleo::preprocess::SigningCommitment;
use frost_aleo::preprocess::SigningNonce;
use frost_aleo::primitives::ConsoleGroup;

use snarkvm_console_account::Address;
use snarkvm_console_account::ComputeKey;
use snarkvm_console_account::PrivateKey;
use snarkvm_console_network::Network;
use snarkvm_console_network::TestnetV0;
use snarkvm_console_types_scalar::TestRng;

#[test]
fn preprocess_pairs_nonces_with_commitments() {
    let rng = &mut TestRng::fixed(31337);
    let (nonces, commitments) = preprocess(3, 7, rng);
    assert_eq!(nonces.len(), 3);
    assert_eq!(commitments.len(), 3);

    for (nonce, commitment) in nonces.iter().zip(commitments.iter()) {
        assert_eq!(commitment.participant_index, 7);
        // Each commitment is the generator raised to the paired nonce.
        assert!(commitment.hiding.0 == TestnetV0::g_scalar_multiply(&nonce.hiding.0));
        assert!(commitment.binding.0 == TestnetV0::g_scalar_multiply(&nonce.binding.0));
    }

    // Distinct draws give distinct nonces.
    assert!(nonces[0].hiding.0 != nonces[1].hiding.0);
    assert!(nonces[0].hiding.0 != nonces[0].binding.0);
}

#[test]
fn commitment_derivation_matches_the_nonce() {
    let rng = &mut TestRng::fixed(31338);
    let nonce = SigningNonce::new(rng);
    let commitment = SigningCommitment::from(5, &nonce);
    assert_eq!(commitment.participant_index, 5);
    assert!(commitment.hiding.0 == TestnetV0::g_scalar_multiply(&nonce.hiding.0));
    assert!(commitment.binding.0 == TestnetV0::g_scalar_multiply(&nonce.binding.0));
}

#[test]
fn derived_address_matches_the_console_account_derivation() {
    let rng = &mut TestRng::fixed(31339);
    let private_key = PrivateKey::<TestnetV0>::new(rng).unwrap();
    let compute_key = ComputeKey::<TestnetV0>::try_from(private_key).unwrap();
    let address = Address::<TestnetV0>::try_from(compute_key).unwrap();

    let derived = derive_address(
        &ConsoleGroup(compute_key.pk_sig()),
        &ConsoleGroup(compute_key.pr_sig()),
    );
    assert!(derived.0 == *address);
}
