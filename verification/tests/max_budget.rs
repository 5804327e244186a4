use bulletproofs::PedersenGens;
use curve25519_dalek_ng::ristretto::RistrettoPoint;
use curve25519_dalek_ng::scalar::Scalar;

use zk_ballot_validation::max_budget::generate_vote;
use zk_ballot_validation::max_budget::setup;
use zk_ballot_validation::max_budget::verify_proof;
use zk_ballot_validation::max_budget::SetupParameters;

fn basic_setup(ballot_size: usize, max_credit: u64) -> SetupParameters {
    setup(max_credit, ballot_size, None).unwrap()
}

#[test]
fn test_valid_proof() {
    let setup_params = basic_setup(4, 20);
    let ballot = vec![5, 3, 6, 6];

    let proof = generate_vote(&setup_params, ballot).expect("Should generate proof");
    assert!(verify_proof(&setup_params, proof), "Valid proof should verify");
}

#[test]
fn test_overspending_fails() {
    let setup_params = basic_setup(4, 15);
    let ballot = vec![10, 5, 3, 0];

    let result = generate_vote(&setup_params, ballot);
    assert!(result.is_err(), "Should fail to generate proof for overspending ballot");
}

#[test]
fn test_wrong_commitment_fails() {
    let setup_params = basic_setup(2, 10);
    let ballot = vec![5, 5];

    let mut proof = generate_vote(&setup_params, ballot).expect("Should generate proof");

    proof.votes_proof.1[0] = PedersenGens::default()
        .commit(Scalar::from(999u64), Scalar::zero())
        .compress()
        .to_bytes()
        .to_vec();

    assert!(!verify_proof(&setup_params, proof), "Tampered commitment should not verify");
}

#[test]
fn test_mismatched_ballot_length() {
    let setup_params = basic_setup(4, 10);
    let ballot = vec![3, 4];

    let result = generate_vote(&setup_params, ballot);
    assert!(result.is_err(), "Should fail when ballot length doesn't match setup");
}

#[test]
fn test_commitment_equality_check() {
    let setup_params = basic_setup(2, 8);
    let ballot = vec![4, 4];

    let proof = generate_vote(&setup_params, ballot).unwrap();
    let expected_sum_commitment = proof
        .votes_proof
        .1
        .iter()
        .map(|c| {
            curve25519_dalek_ng::ristretto::CompressedRistretto::from_slice(c)
                .decompress()
                .unwrap()
        })
        .fold(RistrettoPoint::default(), |acc, c| acc + c);
    let com_z = curve25519_dalek_ng::ristretto::CompressedRistretto::from_slice(&proof.com_z)
        .decompress()
        .unwrap();

    assert_eq!(expected_sum_commitment, com_z, "Aggregated commitment should match com_z");
}
