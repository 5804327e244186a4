use zk_ballot_validation::ranked_voting::find_permutation;
use zk_ballot_validation::ranked_voting::generate_vote;
use zk_ballot_validation::ranked_voting::setup;
use zk_ballot_validation::ranked_voting::verify_proof;

#[test]
fn test_valid_permutation_proof() {
    let ballot = vec![1, 0, 2, 3];
    let setup_params = setup(ballot.len(), None);

    let proof = generate_vote(&ballot, &setup_params).expect("Should generate proof");
    assert!(verify_proof(&proof, &setup_params), "Proof should verify for valid permutation");
}

#[test]
fn test_invalid_permutation_proof() {
    let ballot = vec![1, 0, 2, 2];
    let setup_params = setup(ballot.len(), None);

    let result = generate_vote(&ballot, &setup_params);
    assert!(result.is_err(), "Should fail to generate proof for invalid permutation");
}

#[test]
fn test_mismatched_vector_length() {
    let ballot = vec![2, 3];
    let setup_params = setup(3, None);

    let result = generate_vote(&ballot, &setup_params);
    assert!(result.is_err(), "Should fail due to mismatched lengths");
}

#[test]
fn test_proof_integrity_fails_on_tamper() {
    let ballot = vec![0, 1, 2, 3];
    let setup_params = setup(ballot.len(), None);

    let mut proof = generate_vote(&ballot, &setup_params).expect("Proof should be valid");

    // Replace the permutation commitment with one taken from a proof of a
    // different ballot: its blinders are fresh, so the commitment differs.
    let other_ballot = vec![3, 2, 1, 0];
    let other_proof = generate_vote(&other_ballot, &setup_params).expect("Proof should be valid");
    proof.committed_permutation = other_proof.committed_permutation;

    assert!(!verify_proof(&proof, &setup_params), "Tampered proof should not verify");
}

#[test]
fn test_find_permutation_correctness() {
    let a_vec = vec![7, 8, 9, 10];
    let b_vec = vec![8, 10, 9, 7];

    let permutation =
        find_permutation(&a_vec, &b_vec).expect("Should return a valid forward permutation");

    assert_eq!(permutation.len(), a_vec.len());

    for i in 0..a_vec.len() {
        let sigma_i = permutation[i] as usize;
        assert_eq!(a_vec[sigma_i], b_vec[i], "Mismatch at i={}", i);
    }
}
