use bulletproofs::PedersenGens;
use curve25519_dalek_ng::scalar::Scalar;

use zk_ballot_validation::chunking::chunk;
use zk_ballot_validation::chunking::is_power_of_two;
use zk_ballot_validation::chunking::largest_power_of_two_smaller_than_or_equal;
use zk_ballot_validation::errors::VotingError;
use zk_ballot_validation::max_budget;
use zk_ballot_validation::no_budget;
use zk_ballot_validation::no_budget::shift_vote;
use zk_ballot_validation::ranked_voting;

#[test]
fn budget_rejection_is_a_domain_violation() {
    let setup_params = max_budget::setup(15, 4, None).unwrap();
    match max_budget::generate_vote(&setup_params, vec![10, 5, 3, 0]) {
        Err(e) => assert_eq!(e, VotingError::DomainViolation),
        Ok(_) => panic!("over-budget ballot must be rejected"),
    }
}

#[test]
fn budget_length_mismatch_error_variant() {
    let setup_params = max_budget::setup(10, 4, None).unwrap();
    match max_budget::generate_vote(&setup_params, vec![1, 2]) {
        Err(e) => assert_eq!(e, VotingError::InputLengthMismatch),
        Ok(_) => panic!("short ballot must be rejected"),
    }
}

#[test]
fn range_rejection_is_a_domain_violation() {
    let setup_params = no_budget::setup((-10, 10), 2, None).unwrap();
    match no_budget::generate_proof(vec![15, -12], &setup_params) {
        Err(e) => assert_eq!(e, VotingError::DomainViolation),
        Ok(_) => panic!("out-of-range ballot must be rejected"),
    }
}

#[test]
fn configuration_error_variant_on_bad_size() {
    match max_budget::setup(10, 3, None) {
        Err(e) => assert_eq!(e, VotingError::ConfigurationError),
        Ok(_) => panic!("non-power-of-two size must be rejected"),
    }
    match no_budget::setup((-10, 10), 6, None) {
        Err(e) => assert_eq!(e, VotingError::ConfigurationError),
        Ok(_) => panic!("non-power-of-two size must be rejected"),
    }
}

#[test]
fn permutation_rejection_error_variant() {
    let setup_params = ranked_voting::setup(4, None);
    // A duplicated value.
    match ranked_voting::generate_vote(&vec![1, 0, 2, 2], &setup_params) {
        Err(e) => assert_eq!(e, VotingError::PermutationError),
        Ok(_) => panic!("duplicate value must be rejected"),
    }
    // A value outside the canonical ranking.
    match ranked_voting::generate_vote(&vec![0, 1, 2, 9], &setup_params) {
        Err(e) => assert_eq!(e, VotingError::PermutationError),
        Ok(_) => panic!("out-of-vocabulary value must be rejected"),
    }
}

#[test]
fn permutation_completeness_with_custom_ranking() {
    let setup_params = ranked_voting::setup(4, Some(vec![1, 2, 3, 4]));
    let proof = ranked_voting::generate_vote(&vec![1, 4, 3, 2], &setup_params)
        .expect("a rearrangement of the ranking must be accepted");
    assert!(ranked_voting::verify_proof(&proof, &setup_params));
}

#[test]
fn range_completeness_at_the_bounds() {
    let setup_params = no_budget::setup((-10, 10), 4, None).unwrap();
    let proof = no_budget::generate_proof(vec![-10, 10, 0, -1], &setup_params).unwrap();
    assert!(no_budget::verify_proof(&setup_params, proof));
}

#[test]
fn budget_completeness_at_exact_budget() {
    let setup_params = max_budget::setup(20, 4, None).unwrap();
    let proof = max_budget::generate_vote(&setup_params, vec![20, 0, 0, 0]).unwrap();
    assert!(max_budget::verify_proof(&setup_params, proof));
}

#[test]
fn tampering_one_byte_of_the_sum_commitment_fails() {
    let setup_params = max_budget::setup(20, 4, None).unwrap();
    let mut proof = max_budget::generate_vote(&setup_params, vec![5, 3, 6, 6]).unwrap();
    proof.com_z[0] ^= 1;
    assert!(!max_budget::verify_proof(&setup_params, proof));
}

#[test]
fn tampering_one_byte_of_a_score_commitment_fails() {
    let setup_params = no_budget::setup((-10, 10), 4, None).unwrap();
    let mut proof = no_budget::generate_proof(vec![0, -5, 7, 10], &setup_params).unwrap();
    proof.shifted_ballot_committments[1][7] ^= 0x40;
    assert!(!no_budget::verify_proof(&setup_params, proof));
}

#[test]
fn tampering_one_byte_of_a_range_proof_fails() {
    let setup_params = max_budget::setup(20, 4, None).unwrap();
    let mut proof = max_budget::generate_vote(&setup_params, vec![5, 3, 6, 6]).unwrap();
    proof.rangeproof_d.0[3] ^= 2;
    assert!(!max_budget::verify_proof(&setup_params, proof));
}

#[test]
fn cross_parameter_rejection_for_ranked_voting() {
    let params_a = ranked_voting::setup(4, None);
    let params_b = ranked_voting::setup(4, None);
    let proof = ranked_voting::generate_vote(&vec![1, 0, 2, 3], &params_a).unwrap();
    assert!(ranked_voting::verify_proof(&proof, &params_a));
    assert!(!ranked_voting::verify_proof(&proof, &params_b));
}

#[test]
fn verification_is_deterministic() {
    let setup_params = max_budget::setup(20, 4, None).unwrap();
    let proof = max_budget::generate_vote(&setup_params, vec![5, 3, 6, 6]).unwrap();
    let copy = max_budget::MaxBudgetRatedVotingProof {
        votes_proof: (proof.votes_proof.0.clone(), proof.votes_proof.1.clone()),
        com_z: proof.com_z.clone(),
        rangeproof_d: (proof.rangeproof_d.0.clone(), proof.rangeproof_d.1.clone()),
    };
    let first = max_budget::verify_proof(&setup_params, proof);
    let second = max_budget::verify_proof(&setup_params, copy);
    assert_eq!(first, second);
    assert!(first);

    let ranked_params = ranked_voting::setup(4, None);
    let ranked_proof = ranked_voting::generate_vote(&vec![3, 2, 1, 0], &ranked_params).unwrap();
    let first = ranked_voting::verify_proof(&ranked_proof, &ranked_params);
    let second = ranked_voting::verify_proof(&ranked_proof, &ranked_params);
    assert_eq!(first, second);
}

#[test]
fn custom_generators_are_honoured() {
    // A generator pair of the caller's own: two fixed multiples of the
    // ristretto basepoint.
    let b = (curve25519_dalek_ng::constants::RISTRETTO_BASEPOINT_POINT * Scalar::from(3u64))
        .compress()
        .to_bytes()
        .to_vec();
    let b_blinding = (curve25519_dalek_ng::constants::RISTRETTO_BASEPOINT_POINT
        * Scalar::from(7u64))
        .compress()
        .to_bytes()
        .to_vec();

    let custom = max_budget::setup(20, 4, Some((b.clone(), b_blinding.clone()))).unwrap();
    let proof = max_budget::generate_vote(&custom, vec![5, 3, 6, 6]).unwrap();
    let copy = max_budget::MaxBudgetRatedVotingProof {
        votes_proof: (proof.votes_proof.0.clone(), proof.votes_proof.1.clone()),
        com_z: proof.com_z.clone(),
        rangeproof_d: (proof.rangeproof_d.0.clone(), proof.rangeproof_d.1.clone()),
    };
    assert!(max_budget::verify_proof(&custom, proof));

    // The same proof must not verify under independently chosen generators.
    let default_params = max_budget::setup(20, 4, None).unwrap();
    assert!(!max_budget::verify_proof(&default_params, copy));

    let custom_range = no_budget::setup((-10, 10), 4, Some((b, b_blinding))).unwrap();
    let range_proof = no_budget::generate_proof(vec![0, -5, 7, 10], &custom_range).unwrap();
    assert!(no_budget::verify_proof(&custom_range, range_proof));
}

#[test]
fn invalid_generator_bytes_are_rejected() {
    let garbage = vec![0xffu8; 32];
    let ok = vec![0u8; 32]; // the identity's canonical encoding
    match max_budget::setup(10, 4, Some((garbage.clone(), ok.clone()))) {
        Err(e) => assert_eq!(e, VotingError::ConfigurationError),
        Ok(_) => panic!("non-canonical generator bytes must be rejected"),
    }
    match no_budget::setup((-10, 10), 4, Some((ok, garbage))) {
        Err(e) => assert_eq!(e, VotingError::ConfigurationError),
        Ok(_) => panic!("non-canonical generator bytes must be rejected"),
    }
}

#[test]
fn default_generators_match_the_backend() {
    // The encodings the contracts spell out for the default pair must be
    // exactly what the backend's default generators compress to.
    let expected_b: Vec<u8> = vec![
        226, 242, 174, 10, 106, 188, 78, 113, 168, 132, 169, 97, 197, 0, 81, 95, 88, 227, 11,
        106, 165, 130, 221, 141, 182, 166, 89, 69, 224, 141, 45, 118,
    ];
    let expected_b_blinding: Vec<u8> = vec![
        140, 146, 64, 180, 86, 169, 230, 220, 101, 195, 119, 161, 4, 141, 116, 95, 148, 160,
        140, 219, 127, 68, 203, 205, 123, 70, 243, 64, 72, 135, 17, 52,
    ];
    let backend = PedersenGens::default();
    assert_eq!(backend.B.compress().to_bytes().to_vec(), expected_b);
    assert_eq!(backend.B_blinding.compress().to_bytes().to_vec(), expected_b_blinding);

    let params = max_budget::setup(10, 4, None).unwrap();
    assert_eq!(params.pc_gens.0, expected_b);
    assert_eq!(params.pc_gens.1, expected_b_blinding);
    let range_params = no_budget::setup((-10, 10), 4, None).unwrap();
    assert_eq!(range_params.pc_gens.0, expected_b);
    assert_eq!(range_params.pc_gens.1, expected_b_blinding);
}

#[test]
fn budget_commitment_matches_the_backend() {
    let setup_params = max_budget::setup(5, 4, None).unwrap();
    let expected = PedersenGens::default()
        .commit(Scalar::from(5u64), Scalar::zero())
        .compress()
        .to_bytes()
        .to_vec();
    assert_eq!(setup_params.max_credit.commitment, expected);
}

#[test]
fn shift_vote_moves_scores_into_the_shifted_domain() {
    assert_eq!(shift_vote(-10, 10), Ok(0));
    assert_eq!(shift_vote(0, 10), Ok(10));
    assert_eq!(shift_vote(10, 10), Ok(20));
    assert_eq!(shift_vote(-11, 10), Err(VotingError::DomainViolation));
    assert_eq!(shift_vote(i64::MAX, 1), Err(VotingError::DomainViolation));
}

#[test]
fn chunking_splits_into_maximal_power_of_two_chunks() {
    let chunks = chunk(vec![1, 2, 3, 4, 5, 6, 7]);
    assert_eq!(chunks, vec![vec![1, 2, 3, 4], vec![5, 6], vec![7]]);
    let chunks = chunk(vec![9, 9, 9, 9]);
    assert_eq!(chunks, vec![vec![9, 9, 9, 9]]);
    let empty: Vec<Vec<u64>> = chunk(vec![]);
    assert_eq!(empty.len(), 0);
}

#[test]
fn power_of_two_helpers() {
    assert!(is_power_of_two(1));
    assert!(is_power_of_two(4));
    assert!(!is_power_of_two(6));
    assert_eq!(largest_power_of_two_smaller_than_or_equal(0), 0);
    assert_eq!(largest_power_of_two_smaller_than_or_equal(1), 1);
    assert_eq!(largest_power_of_two_smaller_than_or_equal(5), 4);
    assert_eq!(largest_power_of_two_smaller_than_or_equal(8), 8);
}
