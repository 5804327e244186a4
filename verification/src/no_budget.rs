use vstd::prelude::*;

use crate::chunking::is_power_of_two;
use crate::chunking::spec_is_power_of_two;
use crate::commitment::bytes_eq;
use crate::commitment::commit;
use crate::commitment::commit_of;
use crate::commitment::default_gens;
use crate::commitment::default_gens_encoding;
use crate::commitment::gens_wf;
use crate::commitment::is_canonical_point;
use crate::commitment::is_point;
use crate::commitment::lemma_deep_view_elems;
use crate::commitment::point_sub;
use crate::commitment::point_sub_of;
use crate::commitment::scalar_neg;
use crate::commitment::scalar_neg_of;
use crate::commitment::scalar_random;
use crate::commitment::zero_scalar_bytes;
use crate::commitment::zero_scalar_vec;
use crate::errors::VotingError;
use crate::range_proof::no_budget_label;
use crate::range_proof::prove_no_budget;
use crate::range_proof::verify_multiple_of;
use crate::range_proof::verify_no_budget;

verus! {

// No-budget rated voting: a ballot is a vector of signed scores, each of
// which must lie in a public symmetric range `[-N, N]`.  Every score is
// shifted into `[0, 2N]` and committed; the proof shows that each complement
// `2N - shifted` is small and that its commitment is exactly the public
// shifted upper bound minus the score's commitment, which together bound the
// score into the range without revealing it.

/// Whether a score can be proved in range: it lies in `[-upper, upper]` and
/// shifting it by `upper` does not overflow the machine integer.
pub open spec fn vote_in_domain(v: i64, upper: i64) -> bool {
    &&& -upper <= v <= upper
    &&& v + upper <= i64::MAX
}

/// Immutable public parameters of the scheme, built once by `setup`: the
/// score range, the ballot size, the commitment to the shifted upper bound,
/// and the canonical encodings of the Pedersen generator pair every
/// commitment of the scheme uses.
pub struct SetupParameters {
    pub range: (i64, i64),
    pub ballot_size: usize,
    pub shifted_upperbound: Vec<u8>,
    pub pc_gens: (Vec<u8>, Vec<u8>),
}

impl SetupParameters {
    /// The generator pair the parameters carry, as it appears in contracts.
    pub open spec fn gens(&self) -> (Seq<u8>, Seq<u8>) {
        (self.pc_gens.0@, self.pc_gens.1@)
    }

    pub open spec fn wf(&self) -> bool {
        &&& spec_is_power_of_two(self.ballot_size as int)
        &&& 0 < self.range.1
        &&& self.range.0 == -self.range.1
        &&& gens_wf(self.gens())
        &&& self.shifted_upperbound@.len() == 32
        &&& self.shifted_upperbound@ == commit_of(
            self.gens(),
            2 * self.range.1,
            zero_scalar_bytes(),
        )
        &&& is_canonical_point(self.shifted_upperbound@)
    }
}

/// The proof bundle: one commitment per shifted score, and the aggregated
/// range proof over the complements with their commitments.
pub struct NoBudgetRatedVotingProof {
    pub shifted_ballot_committments: Vec<Vec<u8>>,
    pub aggregated_rangeproof: (Vec<u8>, Vec<Vec<u8>>),
}

/// The issued score commitments commit the shifted scores under the blinding
/// encodings `bs`, position by position.
pub open spec fn commitments_with_blindings(
    params: SetupParameters,
    ballot: Seq<i64>,
    p: NoBudgetRatedVotingProof,
    bs: Seq<Seq<u8>>,
) -> bool {
    &&& bs.len() == ballot.len()
    &&& forall|i: int|
        0 <= i < ballot.len() ==> (#[trigger] p.shifted_ballot_committments.deep_view()[i])
            == commit_of(params.gens(), ballot[i] + params.range.1, bs[i]) && bs[i].len() == 32
}

/// Every issued score commitment commits the matching shifted score under
/// some 32-byte blinding encoding: what the prover publishes is bound to the
/// ballot it was given.
pub open spec fn commitments_bind_ballot(
    params: SetupParameters,
    ballot: Seq<i64>,
    p: NoBudgetRatedVotingProof,
) -> bool {
    exists|bs: Seq<Seq<u8>>| commitments_with_blindings(params, ballot, p, bs)
}

/// Everything `verify_proof` checks, as a function of the parameters and the
/// proof alone: the aggregated range proof over the complement commitments
/// verifies, and every complement commitment is exactly the public shifted
/// upper bound minus the matching score commitment.
pub open spec fn verify_spec(params: SetupParameters, proof: NoBudgetRatedVotingProof) -> bool {
    let v_comms = proof.shifted_ballot_committments.deep_view();
    let d_comms = proof.aggregated_rangeproof.1.deep_view();
    &&& v_comms.len() == params.ballot_size
    &&& d_comms.len() == params.ballot_size
    &&& (forall|i: int| 0 <= i < v_comms.len() ==> (#[trigger] v_comms[i]).len() == 32)
    &&& (forall|i: int| 0 <= i < d_comms.len() ==> (#[trigger] d_comms[i]).len() == 32)
    &&& gens_wf(params.gens())
    &&& verify_multiple_of(
        params.ballot_size as int,
        no_budget_label(),
        params.gens(),
        proof.aggregated_rangeproof.0@,
        d_comms,
    )
    &&& params.shifted_upperbound@.len() == 32
    &&& is_canonical_point(params.shifted_upperbound@)
    &&& (forall|i: int| 0 <= i < v_comms.len() ==> is_canonical_point(#[trigger] v_comms[i]))
    &&& (forall|i: int|
        0 <= i < d_comms.len() ==> #[trigger] d_comms[i] == point_sub_of(
            params.shifted_upperbound@,
            v_comms[i],
        ))
}

/// Fix the score range, ballot size, and Pedersen generator pair — the given
/// encodings, or the backend's documented defaults.  Rejects a ballot size
/// that is not a power of two, an empty or inverted range, an asymmetric
/// range, and generator bytes that encode no group element.
pub fn setup(
    range: (i64, i64),
    ballot_size: usize,
    pc_gens: Option<(Vec<u8>, Vec<u8>)>,
) -> (r: Result<SetupParameters, VotingError>)
    ensures
        r.is_ok() <==> (spec_is_power_of_two(ballot_size as int) && range.0 < range.1 && range.0
            == -range.1 && (pc_gens matches Some(g) ==> gens_wf((g.0@, g.1@)))),
        (r matches Ok(p) ==> {
            &&& p.wf()
            &&& p.range == range
            &&& p.ballot_size == ballot_size
            &&& (pc_gens matches Some(g) ==> p.pc_gens.0@ == g.0@ && p.pc_gens.1@ == g.1@)
            &&& (pc_gens is None ==> p.pc_gens.0@ == default_gens_encoding().0 && p.pc_gens.1@
                == default_gens_encoding().1)
        }),
        (r matches Err(e) ==> e == VotingError::ConfigurationError),
{
    if ballot_size == 0 || !is_power_of_two(ballot_size) {
        return Err(VotingError::ConfigurationError);
    }
    if range.0 >= range.1 {
        return Err(VotingError::ConfigurationError);
    }
    if range.0 != -range.1 {
        return Err(VotingError::ConfigurationError);
    }
    let gens: (Vec<u8>, Vec<u8>) = match pc_gens {
        Some(g) => {
            if g.0.len() != 32 || g.1.len() != 32 {
                return Err(VotingError::ConfigurationError);
            }
            if !is_point(&g.0) || !is_point(&g.1) {
                return Err(VotingError::ConfigurationError);
            }
            g
        },
        None => default_gens(),
    };
    let zero = zero_scalar_vec();
    let shifted_upperbound = commit(&gens.0, &gens.1, (range.1 as u64) * 2, &zero);
    proof {
        assert(2 * range.1 == ((range.1 as u64) * 2) as int);
    }
    Ok(SetupParameters { range, ballot_size, shifted_upperbound, pc_gens: gens })
}

/// Shift a signed score into the non-negative domain by the range's upper
/// bound, failing on machine overflow or on a negative shifted value.
pub fn shift_vote(value: i64, range_upperbound: i64) -> (r: Result<u64, VotingError>)
    ensures
        r.is_ok() <==> (0 <= value + range_upperbound <= i64::MAX),
        (r matches Ok(v) ==> v == value + range_upperbound),
        (r matches Err(e) ==> e == VotingError::DomainViolation),
{
    match value.checked_add(range_upperbound) {
        Some(s) => {
            if s < 0 {
                Err(VotingError::DomainViolation)
            } else {
                Ok(s as u64)
            }
        },
        None => Err(VotingError::DomainViolation),
    }
}

/// Build a validity proof for a ballot of signed scores.  A ballot of the
/// wrong length or with a score outside the provable domain is rejected
/// before any proof is attempted, never silently clamped.  Every issued
/// bundle is bound to its ballot: the score commitments commit the shifted
/// scores, and each complement commitment is the public shifted upper bound
/// minus the matching score commitment; under `2N` below `2^8` the bundle is
/// moreover one that `verify_proof` accepts.
#[verifier::loop_isolation(false)]
pub fn generate_proof(ballot: Vec<i64>, setup_params: &SetupParameters) -> (r: Result<
    NoBudgetRatedVotingProof,
    VotingError,
>)
    ensures
        r.is_err() <==> (ballot@.len() != setup_params.ballot_size || setup_params.range.1 < 0
            || !gens_wf(setup_params.gens()) || (exists|i: int|
            0 <= i < ballot@.len() && !vote_in_domain(ballot@[i], setup_params.range.1))
            || !spec_is_power_of_two(setup_params.ballot_size as int)),
        (r matches Err(e) ==> e == (if ballot@.len() != setup_params.ballot_size {
            VotingError::InputLengthMismatch
        } else if setup_params.range.1 < 0 || !gens_wf(setup_params.gens()) {
            VotingError::ConfigurationError
        } else if (exists|i: int|
        0 <= i < ballot@.len() && !vote_in_domain(ballot@[i], setup_params.range.1)) {
            VotingError::DomainViolation
        } else {
            VotingError::BackendProofError
        })),
        (r matches Ok(p) ==> {
            &&& p.shifted_ballot_committments@.len() == setup_params.ballot_size
            &&& p.aggregated_rangeproof.1@.len() == setup_params.ballot_size
            &&& commitments_bind_ballot(*setup_params, ballot@, p)
            &&& (setup_params.wf() ==> forall|i: int|
                0 <= i < setup_params.ballot_size
                    ==> #[trigger] p.aggregated_rangeproof.1.deep_view()[i] == point_sub_of(
                    setup_params.shifted_upperbound@,
                    p.shifted_ballot_committments.deep_view()[i],
                ))
            &&& (setup_params.wf() && 2 * setup_params.range.1 < 256 ==> verify_spec(
                *setup_params,
                p,
            ))
        }),
{
    if ballot.len() != setup_params.ballot_size {
        return Err(VotingError::InputLengthMismatch);
    }
    if setup_params.range.1 < 0 {
        return Err(VotingError::ConfigurationError);
    }
    if setup_params.pc_gens.0.len() != 32 || setup_params.pc_gens.1.len() != 32 {
        return Err(VotingError::ConfigurationError);
    }
    if !is_point(&setup_params.pc_gens.0) || !is_point(&setup_params.pc_gens.1) {
        return Err(VotingError::ConfigurationError);
    }
    let ghost gens = setup_params.gens();
    let n = ballot.len();
    let range_upperbound: i64 = setup_params.range.1;
    let shifted_range_upperbound: u64 = (range_upperbound as u64) * 2;

    // Shift every score into [0, 2N]; any score that cannot be shifted, or
    // whose shifted value passes the shifted upper bound, is out of domain.
    let mut shifted_ballot: Vec<u64> = Vec::new();
    let mut i: usize = 0;
    while i < n
        invariant
            i <= n,
            shifted_ballot@.len() == i,
            forall|j: int| 0 <= j < i ==> vote_in_domain(ballot@[j], range_upperbound),
            forall|j: int|
                0 <= j < i ==> #[trigger] shifted_ballot@[j] == ballot@[j] + range_upperbound,
        decreases n - i,
    {
        let s = match shift_vote(ballot[i], range_upperbound) {
            Ok(s) => s,
            Err(_) => {
                proof {
                    assert(!vote_in_domain(ballot@[i as int], range_upperbound));
                }
                return Err(VotingError::DomainViolation);
            },
        };
        if s > shifted_range_upperbound {
            proof {
                assert(!vote_in_domain(ballot@[i as int], range_upperbound));
            }
            return Err(VotingError::DomainViolation);
        }
        shifted_ballot.push(s);
        i = i + 1;
    }

    let mut blindings: Vec<Vec<u8>> = Vec::new();
    let mut i: usize = 0;
    while i < n
        invariant
            i <= n,
            blindings@.len() == i,
            forall|j: int| 0 <= j < i ==> #[trigger] blindings@[j]@.len() == 32,
        decreases n - i,
    {
        blindings.push(scalar_random());
        i = i + 1;
    }

    let mut shifted_ballot_committments: Vec<Vec<u8>> = Vec::new();
    let mut i: usize = 0;
    while i < n
        invariant
            i <= n,
            shifted_ballot_committments@.len() == i,
            forall|j: int|
                0 <= j < i ==> (#[trigger] shifted_ballot_committments@[j]@) == commit_of(
                    gens,
                    shifted_ballot@[j] as int,
                    blindings@[j]@,
                ) && shifted_ballot_committments@[j]@.len() == 32 && is_canonical_point(
                    shifted_ballot_committments@[j]@,
                ),
            forall|j: int, v: int|
                0 <= j < i ==> #[trigger] point_sub_of(
                    commit_of(gens, v, zero_scalar_bytes()),
                    shifted_ballot_committments@[j]@,
                ) == commit_of(gens, v - shifted_ballot@[j], scalar_neg_of(blindings@[j]@)),
        decreases n - i,
    {
        let c = commit(
            &setup_params.pc_gens.0,
            &setup_params.pc_gens.1,
            shifted_ballot[i],
            &blindings[i],
        );
        shifted_ballot_committments.push(c);
        i = i + 1;
    }

    let mut d_values: Vec<u64> = Vec::new();
    let mut d_blindings: Vec<Vec<u8>> = Vec::new();
    let mut i: usize = 0;
    while i < n
        invariant
            i <= n,
            d_values@.len() == i,
            d_blindings@.len() == i,
            forall|j: int|
                0 <= j < i ==> #[trigger] d_values@[j] == shifted_range_upperbound
                    - shifted_ballot@[j],
            forall|j: int|
                0 <= j < i ==> (#[trigger] d_blindings@[j]@) == scalar_neg_of(blindings@[j]@)
                    && d_blindings@[j]@.len() == 32,
        decreases n - i,
    {
        d_values.push(shifted_range_upperbound - shifted_ballot[i]);
        d_blindings.push(scalar_neg(&blindings[i]));
        i = i + 1;
    }

    let aggregated_rangeproof = match prove_no_budget(
        &setup_params.pc_gens.0,
        &setup_params.pc_gens.1,
        &d_values,
        &d_blindings,
    ) {
        Some(p) => p,
        None => {
            return Err(VotingError::BackendProofError);
        },
    };

    let result = NoBudgetRatedVotingProof { shifted_ballot_committments, aggregated_rangeproof };
    proof {
        lemma_deep_view_elems(&result.shifted_ballot_committments);
        lemma_deep_view_elems(&result.aggregated_rangeproof.1);
        lemma_deep_view_elems(&blindings);
        assert(commitments_bind_ballot(*setup_params, ballot@, result)) by {
            assert(commitments_with_blindings(
                *setup_params,
                ballot@,
                result,
                blindings.deep_view(),
            ));
        }
        if setup_params.wf() {
            let v_comms = result.shifted_ballot_committments.deep_view();
            let d_comms = result.aggregated_rangeproof.1.deep_view();
            assert forall|j: int| 0 <= j < n implies #[trigger] d_comms[j] == point_sub_of(
                setup_params.shifted_upperbound@,
                v_comms[j],
            ) by {
                assert(point_sub_of(
                    commit_of(gens, shifted_range_upperbound as int, zero_scalar_bytes()),
                    v_comms[j],
                ) == commit_of(
                    gens,
                    shifted_range_upperbound - shifted_ballot@[j],
                    scalar_neg_of(blindings@[j]@),
                ));
            }
        }
        if setup_params.wf() && 2 * setup_params.range.1 < 256 {
            assert forall|j: int| 0 <= j < n implies #[trigger] d_values@[j] < 256 by {}
        }
    }
    Ok(result)
}

/// Check a validity proof.  The result is a pure function of the parameters
/// and the proof, stated by `verify_spec`; in particular repeated calls on
/// the same inputs return the same boolean.
#[verifier::loop_isolation(false)]
pub fn verify_proof(setup_params: &SetupParameters, validity_proof: NoBudgetRatedVotingProof) -> (r:
    bool)
    ensures
        r == verify_spec(*setup_params, validity_proof),
{
    let v_commitments = &validity_proof.shifted_ballot_committments;
    let d_commitments = &validity_proof.aggregated_rangeproof.1;
    proof {
        lemma_deep_view_elems(v_commitments);
        lemma_deep_view_elems(d_commitments);
    }
    let ghost v_comms = v_commitments.deep_view();
    let ghost d_comms = d_commitments.deep_view();
    if setup_params.pc_gens.0.len() != 32 || setup_params.pc_gens.1.len() != 32 {
        return false;
    }
    if !is_point(&setup_params.pc_gens.0) || !is_point(&setup_params.pc_gens.1) {
        return false;
    }
    let m = v_commitments.len();
    if m != setup_params.ballot_size || d_commitments.len() != setup_params.ballot_size {
        return false;
    }
    let mut i: usize = 0;
    while i < m
        invariant
            i <= m,
            forall|j: int| 0 <= j < i ==> (#[trigger] v_comms[j]).len() == 32,
            forall|j: int| 0 <= j < i ==> (#[trigger] d_comms[j]).len() == 32,
        decreases m - i,
    {
        if v_commitments[i].len() != 32 {
            return false;
        }
        if d_commitments[i].len() != 32 {
            return false;
        }
        i = i + 1;
    }

    if !verify_no_budget(
        setup_params.ballot_size,
        &setup_params.pc_gens.0,
        &setup_params.pc_gens.1,
        &validity_proof.aggregated_rangeproof.0,
        d_commitments,
    ) {
        return false;
    }

    if setup_params.shifted_upperbound.len() != 32 {
        return false;
    }
    if !is_point(&setup_params.shifted_upperbound) {
        return false;
    }
    let mut k: usize = 0;
    while k < m
        invariant
            k <= m,
            forall|j: int| 0 <= j < k ==> is_canonical_point(#[trigger] v_comms[j]),
            forall|j: int|
                0 <= j < k ==> #[trigger] d_comms[j] == point_sub_of(
                    setup_params.shifted_upperbound@,
                    v_comms[j],
                ),
            is_canonical_point(setup_params.shifted_upperbound@),
        decreases m - k,
    {
        let expected = match point_sub(&setup_params.shifted_upperbound, &v_commitments[k]) {
            Some(p) => p,
            None => {
                return false;
            },
        };
        if !bytes_eq(&d_commitments[k], &expected) {
            return false;
        }
        k = k + 1;
    }

    true
}

} // verus!
