use vstd::prelude::*;

use crate::chunking::is_power_of_two;
use crate::chunking::spec_is_power_of_two;
use crate::curve::fr_from_u64;
use crate::curve::fr_of;
use crate::curve::fr_seq_of;
use crate::curve::g1_sum_spec;
use crate::curve::g1_add_of;
use crate::curve::g1_proj_add_of;
use crate::curve::msm_of;
use crate::curve::permuted_of;
use crate::curve::sameperm_verify_of;
use crate::curve::g1_add;
use crate::curve::g1_affine_zero;
use crate::curve::g1_proj_add;
use crate::curve::generate_blinders_fr;
use crate::curve::msm_points;
use crate::curve::rand_g1_affine;
use crate::curve::rand_g1_projective;
use crate::curve::sameperm_prove;
use crate::curve::sameperm_verify;
use crate::curve::FrScalar;
use crate::curve::G1AffinePoint;
use crate::curve::G1ProjectivePoint;
use crate::curve::PermutationArgumentProof;
use crate::errors::VotingError;

verus! {

// Ranked voting: a ballot is valid when it is a rearrangement of a fixed
// canonical ranking.  The prover derives the permutation carrying the
// canonical ranking onto the ballot, commits to both the ballot and the
// permutation as vector Pedersen commitments over the reference string, and
// the same-permutation argument ties the two commitments together.  The
// permutation derivation and every structural validation are verified here;
// the argument itself is the backend's.

/// No value occurs twice.
pub open spec fn distinct_values(s: Seq<u32>) -> bool {
    forall|i: int, j: int| 0 <= i < j < s.len() ==> s[i] != s[j]
}

/// `b` is a rearrangement of the distinct values of `a`: same length, no
/// repeats on either side, and every value of `b` occurs in `a`.
pub open spec fn is_rearrangement_of(a: Seq<u32>, b: Seq<u32>) -> bool {
    &&& a.len() == b.len()
    &&& distinct_values(a)
    &&& distinct_values(b)
    &&& forall|i: int| 0 <= i < b.len() ==> a.contains(#[trigger] b[i])
}

/// `p` is the permutation that carries `a` onto `b` by indices:
/// `a[p[i]] == b[i]` for every position, and no index is used twice.
pub open spec fn permutation_carries(p: Seq<u32>, a: Seq<u32>, b: Seq<u32>) -> bool {
    &&& p.len() == b.len()
    &&& forall|i: int| 0 <= i < p.len() ==> (#[trigger] p[i]) < a.len()
    &&& forall|i: int| 0 <= i < p.len() ==> a[(#[trigger] p[i]) as int] == b[i]
    &&& distinct_values(p)
}

/// Derive the permutation mapping `vec_a` onto `vec_b`: the result `p`
/// satisfies `vec_a[p[i]] == vec_b[i]`.  Fails when the lengths differ, when
/// either vector repeats a value, or when `vec_b` holds a value that `vec_a`
/// lacks — exactly the ballots that are no rearrangement of the canonical
/// ranking.
#[verifier::loop_isolation(false)]
pub fn find_permutation(vec_a: &Vec<u32>, vec_b: &Vec<u32>) -> (r: Result<Vec<u32>, VotingError>)
    requires
        vec_a@.len() <= u32::MAX,
    ensures
        r.is_ok() <==> is_rearrangement_of(vec_a@, vec_b@),
        (r matches Ok(p) ==> permutation_carries(p@, vec_a@, vec_b@)),
        (r matches Err(e) ==> e == VotingError::PermutationError),
{
    if vec_a.len() != vec_b.len() {
        return Err(VotingError::PermutationError);
    }
    let n = vec_a.len();

    // Reject a repeated value on either side: a repeat makes the ballot
    // unrepresentable as a bijection.
    let mut i: usize = 0;
    while i < n
        invariant
            i <= n,
            forall|x: int, y: int| 0 <= x < i && x < y < n ==> vec_a@[x] != vec_a@[y],
        decreases n - i,
    {
        let mut j: usize = i + 1;
        while j < n
            invariant
                i < j <= n,
                forall|y: int| i < y < j ==> vec_a@[i as int] != vec_a@[y],
                forall|x: int, y: int| 0 <= x < i && x < y < n ==> vec_a@[x] != vec_a@[y],
            decreases n - j,
        {
            if vec_a[i] == vec_a[j] {
                return Err(VotingError::PermutationError);
            }
            j = j + 1;
        }
        i = i + 1;
    }
    let mut i: usize = 0;
    while i < n
        invariant
            i <= n,
            forall|x: int, y: int| 0 <= x < i && x < y < n ==> vec_b@[x] != vec_b@[y],
        decreases n - i,
    {
        let mut j: usize = i + 1;
        while j < n
            invariant
                i < j <= n,
                forall|y: int| i < y < j ==> vec_b@[i as int] != vec_b@[y],
                forall|x: int, y: int| 0 <= x < i && x < y < n ==> vec_b@[x] != vec_b@[y],
            decreases n - j,
        {
            if vec_b[i] == vec_b[j] {
                return Err(VotingError::PermutationError);
            }
            j = j + 1;
        }
        i = i + 1;
    }

    // Look every ballot value up in the canonical vector.
    let mut permutation: Vec<u32> = Vec::new();
    let mut i: usize = 0;
    while i < n
        invariant
            i <= n,
            permutation@.len() == i,
            forall|k: int| 0 <= k < i ==> (#[trigger] permutation@[k]) < n,
            forall|k: int|
                0 <= k < i ==> vec_a@[(#[trigger] permutation@[k]) as int] == vec_b@[k],
        decreases n - i,
    {
        let target = vec_b[i];
        let mut j: usize = 0;
        let mut found: bool = false;
        let mut index: usize = 0;
        while j < n
            invariant
                j <= n,
                !found ==> forall|k: int| 0 <= k < j ==> vec_a@[k] != target,
                found ==> index < n && vec_a@[index as int] == target,
            decreases n - j,
        {
            if vec_a[j] == target {
                found = true;
                index = j;
                j = n;
            } else {
                j = j + 1;
            }
        }
        if !found {
            proof {
                assert(forall|k: int| 0 <= k < n ==> vec_a@[k] != vec_b@[i as int]);
                assert(!vec_a@.contains(vec_b@[i as int]));
            }
            return Err(VotingError::PermutationError);
        }
        permutation.push(index as u32);
        i = i + 1;
    }

    proof {
        assert forall|x: int, y: int|
            0 <= x < y < permutation@.len() implies permutation@[x] != permutation@[y] by {
            assert(vec_a@[permutation@[x] as int] == vec_b@[x]);
            assert(vec_a@[permutation@[y] as int] == vec_b@[y]);
        }
        assert forall|k: int| 0 <= k < n implies vec_a@.contains(#[trigger] vec_b@[k]) by {
            assert(vec_a@[permutation@[k] as int] == vec_b@[k]);
        }
    }
    Ok(permutation)
}

/// The sum of a list of affine points, folded over the group addition from
/// the identity; precomputed once per reference string to speed the
/// argument's verifier.  A nonempty list sums to the named fold of the group
/// addition; the empty list sums to the identity.
#[verifier::loop_isolation(false)]
pub fn sum_affine_points(affine_points: &Vec<G1AffinePoint>) -> (r: G1AffinePoint)
    ensures
        affine_points@.len() >= 1 ==> r == g1_sum_spec(affine_points@),
        affine_points@.len() == 0 ==> (forall|x: G1AffinePoint| #[trigger] g1_add_of(r, x) == x),
{
    let mut acc = g1_affine_zero();
    let mut i: usize = 0;
    while i < affine_points.len()
        invariant
            i <= affine_points@.len(),
            i >= 1 ==> acc == g1_sum_spec(affine_points@.take(i as int)),
            i == 0 ==> (forall|x: G1AffinePoint| #[trigger] g1_add_of(acc, x) == x),
        decreases affine_points@.len() - i,
    {
        let ghost prev = acc;
        acc = g1_add(&acc, &affine_points[i]);
        proof {
            if i == 0 {
                assert(affine_points@.take(1) =~= seq![affine_points@[0]]);
                assert(acc == affine_points@[0]);
            } else {
                assert(affine_points@.take(i as int + 1).drop_last() =~= affine_points@.take(
                    i as int,
                ));
                assert(affine_points@.take(i as int + 1).last() == affine_points@[i as int]);
            }
        }
        i = i + 1;
    }
    proof {
        if affine_points@.len() >= 1 {
            assert(affine_points@.take(affine_points@.len() as int) =~= affine_points@);
        }
    }
    acc
}

/// The canonical ranking against which ballots are validated.
pub struct Options {
    pub scores: Vec<u32>,
}

/// The common reference string and canonical ranking for one ballot size:
/// two generator vectors sized to the ballot, an auxiliary generator, and
/// the precomputed sum of each vector.
pub struct SetupParameters {
    pub crs_g_vec: Vec<G1AffinePoint>,
    pub crs_h_vec: Vec<G1AffinePoint>,
    pub crs_u: G1ProjectivePoint,
    pub crs_g_sum: G1AffinePoint,
    pub crs_h_sum: G1AffinePoint,
    pub a: Options,
    pub ballot_size: usize,
}

impl SetupParameters {
    /// The structural facts the two protocol calls check at run time: the
    /// generator vectors and the canonical ranking are sized to the ballot,
    /// and twice the ballot size — the argument's total width — is a power
    /// of two.
    pub open spec fn wf(&self) -> bool {
        &&& self.crs_g_vec@.len() == self.ballot_size
        &&& self.crs_h_vec@.len() == self.ballot_size
        &&& self.a.scores@.len() == self.ballot_size
        &&& self.ballot_size >= 1
        &&& self.a.scores@.len() <= u32::MAX
        &&& spec_is_power_of_two(self.ballot_size as int)
    }
}

/// The proof bundle: the same-permutation argument's proof and the two
/// vector commitments it speaks about.
pub struct RankedVotingProof {
    pub proof: PermutationArgumentProof,
    pub committed_ballot: G1ProjectivePoint,
    pub committed_permutation: G1ProjectivePoint,
}

/// The precomputed sums really are the group sums of the generator vectors.
/// `setup` guarantees it for every reference string it builds, and the
/// completeness of an honestly generated proof rests on it.
pub open spec fn crs_sums_consistent(params: SetupParameters) -> bool {
    &&& params.crs_g_sum == g1_sum_spec(params.crs_g_vec@)
    &&& params.crs_h_sum == g1_sum_spec(params.crs_h_vec@)
}

/// Everything `verify_proof` checks, as a function of the parameters and the
/// proof alone: the parameters are structurally sound, and the
/// same-permutation argument's verifier — deterministic under its fixed
/// transcript label and batch seed — accepts the proof against the two
/// commitments, the reference string, and the canonical ranking's field
/// elements.
pub open spec fn verify_spec(params: SetupParameters, proof: RankedVotingProof) -> bool {
    &&& params.wf()
    &&& sameperm_verify_of(
        params.crs_g_vec@,
        params.crs_h_vec@,
        params.crs_u,
        params.crs_g_sum,
        params.crs_h_sum,
        proof.proof,
        proof.committed_ballot,
        proof.committed_permutation,
        fr_seq_of(params.a.scores@),
        params.ballot_size as int,
    )
}

/// An issued bundle commits to this ballot: some derived permutation and
/// some pair of blinder vectors witness `honest_bundle`.
pub open spec fn bundle_commits_ballot(
    params: SetupParameters,
    ballot: Seq<u32>,
    p: RankedVotingProof,
) -> bool {
    exists|perm: Seq<u32>, ab: Seq<FrScalar>, mb: Seq<FrScalar>|
        honest_bundle(params, ballot, p, perm, ab, mb)
}

/// The content of an issued bundle: the two commitments really commit, over
/// the reference string, to the ballot's field elements and to the derived
/// permutation's indices, each under some blinder vector of the right width.
pub open spec fn honest_bundle(
    params: SetupParameters,
    ballot: Seq<u32>,
    p: RankedVotingProof,
    perm: Seq<u32>,
    ab: Seq<FrScalar>,
    mb: Seq<FrScalar>,
) -> bool {
    &&& permutation_carries(perm, params.a.scores@, ballot)
    &&& ab.len() == params.crs_h_vec@.len()
    &&& mb.len() == params.crs_h_vec@.len()
    &&& p.committed_ballot == g1_proj_add_of(
        msm_of(params.crs_g_vec@, fr_seq_of(ballot)),
        msm_of(params.crs_h_vec@, ab),
    )
    &&& p.committed_permutation == g1_proj_add_of(
        msm_of(params.crs_g_vec@, fr_seq_of(perm)),
        msm_of(params.crs_h_vec@, mb),
    )
}

/// Build a fresh common reference string and fix the canonical ranking:
/// the given one, or the descending sequence `ballot_size-1 .. 0`.
pub fn setup(ballot_size: usize, scores: Option<Vec<u32>>) -> (r: SetupParameters)
    ensures
        r.ballot_size == ballot_size,
        r.crs_g_vec@.len() == ballot_size,
        r.crs_h_vec@.len() == ballot_size,
        (scores matches Some(s) ==> r.a.scores@ == s@),
        scores is None ==> r.a.scores@.len() == ballot_size,
        (scores is None && ballot_size <= u32::MAX ==> forall|i: int|
            0 <= i < ballot_size ==> (#[trigger] r.a.scores@[i]) == ballot_size - 1 - i),
        ballot_size >= 1 ==> crs_sums_consistent(r),
{
    let mut crs_g_vec: Vec<G1AffinePoint> = Vec::new();
    let mut i: usize = 0;
    while i < ballot_size
        invariant
            i <= ballot_size,
            crs_g_vec@.len() == i,
        decreases ballot_size - i,
    {
        crs_g_vec.push(rand_g1_affine());
        i = i + 1;
    }
    let mut crs_h_vec: Vec<G1AffinePoint> = Vec::new();
    let mut i: usize = 0;
    while i < ballot_size
        invariant
            i <= ballot_size,
            crs_h_vec@.len() == i,
        decreases ballot_size - i,
    {
        crs_h_vec.push(rand_g1_affine());
        i = i + 1;
    }
    let crs_u = rand_g1_projective();
    let crs_g_sum = sum_affine_points(&crs_g_vec);
    let crs_h_sum = sum_affine_points(&crs_h_vec);

    let scores: Vec<u32> = match scores {
        Some(s) => s,
        None => {
            let mut s: Vec<u32> = Vec::new();
            let mut i: usize = 0;
            while i < ballot_size
                invariant
                    i <= ballot_size,
                    s@.len() == i,
                    ballot_size <= u32::MAX ==> forall|k: int|
                        0 <= k < i ==> (#[trigger] s@[k]) == ballot_size - 1 - k,
                decreases ballot_size - i,
            {
                let v: u32 = #[verifier::truncate] ((ballot_size - 1 - i) as u32);
                s.push(v);
                i = i + 1;
            }
            s
        },
    };

    SetupParameters {
        crs_g_vec,
        crs_h_vec,
        crs_u,
        crs_g_sum,
        crs_h_sum,
        a: Options { scores },
        ballot_size,
    }
}

/// Build a validity proof for a ranked ballot.  The permutation carrying the
/// canonical ranking onto the ballot is derived and checked here: a ballot
/// that repeats a value, holds one outside the ranking, or has the wrong
/// length is rejected with a permutation error before the argument runs.
#[verifier::loop_isolation(false)]
pub fn generate_vote(scores: &Vec<u32>, setup_params: &SetupParameters) -> (r: Result<
    RankedVotingProof,
    VotingError,
>)
    ensures
        r.is_ok() <==> (setup_params.wf() && is_rearrangement_of(
            setup_params.a.scores@,
            scores@,
        )),
        (r matches Err(e) ==> e == (if !setup_params.wf() {
            VotingError::ConfigurationError
        } else {
            VotingError::PermutationError
        })),
        (r matches Ok(p) ==> bundle_commits_ballot(*setup_params, scores@, p)),
        (r matches Ok(p) ==> (crs_sums_consistent(*setup_params) ==> verify_spec(
            *setup_params,
            p,
        ))),
{
    if !(setup_params.crs_g_vec.len() == setup_params.ballot_size
        && setup_params.crs_h_vec.len() == setup_params.ballot_size
        && setup_params.a.scores.len() == setup_params.ballot_size
        && setup_params.ballot_size >= 1) {
        return Err(VotingError::ConfigurationError);
    }
    if (setup_params.a.scores.len() as u64) > (u32::MAX as u64) {
        return Err(VotingError::ConfigurationError);
    }
    if !is_power_of_two(setup_params.ballot_size) {
        return Err(VotingError::ConfigurationError);
    }

    let permutation = match find_permutation(&setup_params.a.scores, scores) {
        Ok(p) => p,
        Err(_) => {
            return Err(VotingError::PermutationError);
        },
    };

    let ballot_size = scores.len();

    let mut canonical_fr: Vec<FrScalar> = Vec::new();
    let mut i: usize = 0;
    while i < ballot_size
        invariant
            i <= ballot_size,
            canonical_fr@.len() == i,
            setup_params.a.scores@.len() == ballot_size,
            forall|k: int|
                0 <= k < i ==> (#[trigger] canonical_fr@[k]) == fr_of(
                    setup_params.a.scores@[k] as u64,
                ),
        decreases ballot_size - i,
    {
        canonical_fr.push(fr_from_u64(setup_params.a.scores[i] as u64));
        i = i + 1;
    }

    let mut ballot_fr: Vec<FrScalar> = Vec::new();
    let mut i: usize = 0;
    while i < ballot_size
        invariant
            i <= ballot_size,
            ballot_fr@.len() == i,
            forall|k: int| 0 <= k < i ==> (#[trigger] ballot_fr@[k]) == fr_of(scores@[k] as u64),
        decreases ballot_size - i,
    {
        ballot_fr.push(fr_from_u64(scores[i] as u64));
        i = i + 1;
    }
    let mut permutation_as_fr: Vec<FrScalar> = Vec::new();
    let mut i: usize = 0;
    while i < ballot_size
        invariant
            i <= ballot_size,
            permutation_as_fr@.len() == i,
            permutation@.len() == ballot_size,
            forall|k: int|
                0 <= k < i ==> (#[trigger] permutation_as_fr@[k]) == fr_of(
                    permutation@[k] as u64,
                ),
        decreases ballot_size - i,
    {
        permutation_as_fr.push(fr_from_u64(permutation[i] as u64));
        i = i + 1;
    }

    let committed_ballot_blinders = generate_blinders_fr(ballot_size);
    let committed_permutation_blinders = generate_blinders_fr(ballot_size);

    let committed_ballot = g1_proj_add(
        &msm_points(&setup_params.crs_g_vec, &ballot_fr),
        &msm_points(&setup_params.crs_h_vec, &committed_ballot_blinders),
    );
    let committed_permutation = g1_proj_add(
        &msm_points(&setup_params.crs_g_vec, &permutation_as_fr),
        &msm_points(&setup_params.crs_h_vec, &committed_permutation_blinders),
    );

    proof {
        assert(spec_is_power_of_two(
            (setup_params.crs_g_vec@.len() + setup_params.crs_h_vec@.len()) as int,
        ));
    }
    let proof = sameperm_prove(
        &setup_params.crs_g_vec,
        &setup_params.crs_h_vec,
        &setup_params.crs_u,
        &committed_ballot,
        &committed_permutation,
        &canonical_fr,
        permutation,
        committed_ballot_blinders,
        committed_permutation_blinders,
    );

    let result = RankedVotingProof { proof, committed_ballot, committed_permutation };
    proof {
        let g = setup_params.crs_g_vec@;
        let h = setup_params.crs_h_vec@;
        assert(canonical_fr@ =~= fr_seq_of(setup_params.a.scores@));
        assert(ballot_fr@ =~= fr_seq_of(scores@));
        assert(permutation_as_fr@ =~= fr_seq_of(permutation@));
        assert forall|k: int| 0 <= k < ballot_size implies permuted_of(canonical_fr@, permutation@)[k]
            == ballot_fr@[k] by {
            assert(setup_params.a.scores@[permutation@[k] as int] == scores@[k]);
        }
        assert(ballot_fr@ =~= permuted_of(canonical_fr@, permutation@));
        assert(honest_bundle(
            *setup_params,
            scores@,
            result,
            permutation@,
            committed_ballot_blinders@,
            committed_permutation_blinders@,
        ));
        assert(bundle_commits_ballot(*setup_params, scores@, result)) by {
            assert(honest_bundle(
                *setup_params,
                scores@,
                result,
                permutation@,
                committed_ballot_blinders@,
                committed_permutation_blinders@,
            ));
        }
        if crs_sums_consistent(*setup_params) {
            assert(sameperm_verify_of(
                g,
                h,
                setup_params.crs_u,
                g1_sum_spec(g),
                g1_sum_spec(h),
                proof,
                committed_ballot,
                committed_permutation,
                canonical_fr@,
                h.len() as int,
            ));
            assert(verify_spec(*setup_params, result));
        }
    }
    Ok(result)
}

/// Check a validity proof against the reference string: re-derive the
/// transcript under the same domain tag and run the argument's verifier with
/// its deferred-check accumulator, which is flushed exactly once.  The
/// result is a pure function of the parameters and the proof, stated by
/// `verify_spec`; in particular repeated calls on the same inputs return the
/// same boolean.  Structurally unusable parameters are rejected outright.
#[verifier::loop_isolation(false)]
pub fn verify_proof(proof: &RankedVotingProof, setup_params: &SetupParameters) -> (r: bool)
    ensures
        r == verify_spec(*setup_params, *proof),
{
    if !(setup_params.crs_g_vec.len() == setup_params.ballot_size
        && setup_params.crs_h_vec.len() == setup_params.ballot_size
        && setup_params.a.scores.len() == setup_params.ballot_size
        && setup_params.ballot_size >= 1) {
        return false;
    }
    if (setup_params.a.scores.len() as u64) > (u32::MAX as u64) {
        return false;
    }
    if !is_power_of_two(setup_params.ballot_size) {
        return false;
    }

    let ballot_size = setup_params.ballot_size;
    let mut scores_as_fr: Vec<FrScalar> = Vec::new();
    let mut i: usize = 0;
    while i < ballot_size
        invariant
            i <= ballot_size,
            scores_as_fr@.len() == i,
            setup_params.a.scores@.len() == ballot_size,
            forall|k: int|
                0 <= k < i ==> (#[trigger] scores_as_fr@[k]) == fr_of(
                    setup_params.a.scores@[k] as u64,
                ),
        decreases ballot_size - i,
    {
        scores_as_fr.push(fr_from_u64(setup_params.a.scores[i] as u64));
        i = i + 1;
    }

    proof {
        assert(spec_is_power_of_two(
            (setup_params.crs_g_vec@.len() + setup_params.ballot_size) as int,
        ));
        assert(scores_as_fr@ =~= fr_seq_of(setup_params.a.scores@));
    }
    sameperm_verify(
        &setup_params.crs_g_vec,
        &setup_params.crs_h_vec,
        &setup_params.crs_u,
        &setup_params.crs_g_sum,
        &setup_params.crs_h_sum,
        &proof.proof,
        &proof.committed_ballot,
        &proof.committed_permutation,
        &scores_as_fr,
        setup_params.ballot_size,
    )
}

} // verus!
