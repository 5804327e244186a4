use vstd::prelude::*;

use crate::chunking::is_power_of_two;
use crate::chunking::spec_is_power_of_two;
use crate::commitment::bytes_eq;
use crate::commitment::commit;
use crate::commitment::commit_of;
use crate::commitment::copy_bytes;
use crate::commitment::default_gens;
use crate::commitment::default_gens_encoding;
use crate::commitment::gens_wf;
use crate::commitment::is_canonical_point;
use crate::commitment::is_point;
use crate::commitment::lemma_deep_view_elems;
use crate::commitment::point_add;
use crate::commitment::point_add_of;
use crate::commitment::point_sub;
use crate::commitment::point_sub_of;
use crate::commitment::scalar_add;
use crate::commitment::scalar_add_of;
use crate::commitment::scalar_neg;
use crate::commitment::scalar_neg_of;
use crate::commitment::scalar_random;
use crate::commitment::zero_scalar_bytes;
use crate::commitment::zero_scalar_vec;
use crate::errors::VotingError;
use crate::range_proof::max_budget_votes_label;
use crate::range_proof::prove_budget_headroom;
use crate::range_proof::prove_budget_votes;
use crate::range_proof::verify_budget_headroom;
use crate::range_proof::verify_budget_votes;
use crate::range_proof::verify_multiple_of;
use crate::range_proof::verify_single_of;

verus! {

// Max-budget rated voting: a ballot is a vector of non-negative credits whose
// sum must not exceed a public budget.  The proof shows that every entry is
// small, that the claimed sum commitment really is the sum of the per-entry
// commitments, and that the headroom (budget minus sum) is itself small and
// bound to the same commitments.

/// The sum of a sequence of credits, as an unbounded integer.
pub open spec fn sum_of(s: Seq<u64>) -> int
    decreases s.len(),
{
    if s.len() == 0 {
        0
    } else {
        sum_of(s.drop_last()) + s.last()
    }
}

/// The homomorphic sum of a nonempty sequence of commitment encodings,
/// folded from the front.
pub open spec fn aggregate_of(comms: Seq<Seq<u8>>) -> Seq<u8>
    decreases comms.len(),
{
    if comms.len() <= 1 {
        if comms.len() == 0 {
            Seq::empty()
        } else {
            comms[0]
        }
    } else {
        point_add_of(aggregate_of(comms.drop_last()), comms.last())
    }
}

/// The public budget together with its unblinded commitment: the budget is
/// public, so hiding is deliberately not wanted, and a zero blinding factor
/// makes the commitment recomputable by anyone.
pub struct MaxCredit {
    pub commitment: Vec<u8>,
    pub value: u64,
}

impl MaxCredit {
    /// The commitment is the canonical encoding of the budget committed
    /// under the generator pair `gens` with a zero blinding factor.
    pub open spec fn wf(&self, gens: (Seq<u8>, Seq<u8>)) -> bool {
        &&& self.commitment@.len() == 32
        &&& self.commitment@ == commit_of(gens, self.value as int, zero_scalar_bytes())
        &&& is_canonical_point(self.commitment@)
    }

    pub fn new(g_b: &Vec<u8>, g_bl: &Vec<u8>, value: u64) -> (r: MaxCredit)
        requires
            gens_wf((g_b@, g_bl@)),
        ensures
            r.wf((g_b@, g_bl@)),
            r.value == value,
    {
        let zero = zero_scalar_vec();
        let commitment = commit(g_b, g_bl, value, &zero);
        MaxCredit { commitment, value }
    }
}

/// Immutable public parameters of the scheme, built once by `setup`: the
/// ballot size, the committed budget, and the canonical encodings of the
/// Pedersen generator pair every commitment of the scheme uses.
pub struct SetupParameters {
    pub ballot_size: usize,
    pub max_credit: MaxCredit,
    pub pc_gens: (Vec<u8>, Vec<u8>),
}

impl SetupParameters {
    /// The generator pair the parameters carry, as it appears in contracts.
    pub open spec fn gens(&self) -> (Seq<u8>, Seq<u8>) {
        (self.pc_gens.0@, self.pc_gens.1@)
    }

    pub open spec fn wf(&self) -> bool {
        &&& spec_is_power_of_two(self.ballot_size as int)
        &&& gens_wf(self.gens())
        &&& self.max_credit.wf(self.gens())
    }

    /// The configured number of ballot entries.
    pub fn ballot_size(&self) -> (r: usize)
        ensures
            r == self.ballot_size,
    {
        self.ballot_size
    }

    /// The configured budget.
    pub fn max_credits(&self) -> (r: u64)
        ensures
            r == self.max_credit.value,
    {
        self.max_credit.value
    }
}

/// The proof bundle a prover hands to a verifier: the aggregated range proof
/// over the per-entry commitments, the commitment to the ballot sum, and the
/// single range proof over the budget headroom with its commitment.
pub struct MaxBudgetRatedVotingProof {
    pub votes_proof: (Vec<u8>, Vec<Vec<u8>>),
    pub com_z: Vec<u8>,
    pub rangeproof_d: (Vec<u8>, Vec<u8>),
}

/// The issued per-entry commitments commit the credits under the blinding
/// encodings `bs`, position by position.
pub open spec fn commitments_with_blindings(
    params: SetupParameters,
    ballot: Seq<u64>,
    p: MaxBudgetRatedVotingProof,
    bs: Seq<Seq<u8>>,
) -> bool {
    &&& bs.len() == ballot.len()
    &&& forall|i: int|
        0 <= i < ballot.len() ==> (#[trigger] p.votes_proof.1.deep_view()[i]) == commit_of(
            params.gens(),
            ballot[i] as int,
            bs[i],
        ) && bs[i].len() == 32
}

/// Every issued per-entry commitment commits the matching credit under some
/// 32-byte blinding encoding: what the prover publishes is bound to the
/// ballot it was given.
pub open spec fn commitments_bind_ballot(
    params: SetupParameters,
    ballot: Seq<u64>,
    p: MaxBudgetRatedVotingProof,
) -> bool {
    exists|bs: Seq<Seq<u8>>| commitments_with_blindings(params, ballot, p, bs)
}

/// Everything `verify_proof` checks, as a function of the parameters and the
/// proof alone: the per-entry range proof verifies; the per-entry commitments
/// are well-formed group elements whose homomorphic sum equals the claimed
/// sum commitment; the headroom commitment is exactly the budget commitment
/// minus the sum commitment; and the headroom range proof verifies.
pub open spec fn verify_spec(params: SetupParameters, proof: MaxBudgetRatedVotingProof) -> bool {
    let comms = proof.votes_proof.1.deep_view();
    &&& gens_wf(params.gens())
    &&& comms.len() == params.ballot_size
    &&& comms.len() >= 1
    &&& (forall|i: int| 0 <= i < comms.len() ==> (#[trigger] comms[i]).len() == 32)
    &&& verify_multiple_of(
        params.ballot_size as int,
        max_budget_votes_label(),
        params.gens(),
        proof.votes_proof.0@,
        comms,
    )
    &&& (forall|i: int| 0 <= i < comms.len() ==> is_canonical_point(#[trigger] comms[i]))
    &&& proof.com_z@.len() == 32
    &&& aggregate_of(comms) == proof.com_z@
    &&& params.max_credit.commitment@.len() == 32
    &&& is_canonical_point(params.max_credit.commitment@)
    &&& is_canonical_point(proof.com_z@)
    &&& proof.rangeproof_d.1@ == point_sub_of(params.max_credit.commitment@, proof.com_z@)
    &&& verify_single_of(
        params.ballot_size as int,
        params.gens(),
        proof.rangeproof_d.0@,
        proof.rangeproof_d.1@,
    )
}

/// Fix the public budget, ballot size, and Pedersen generator pair — the
/// given encodings, or the backend's documented defaults.  Rejects a ballot
/// size that is not a power of two, which the aggregated range proof's
/// generator sizing needs, and generator bytes that encode no group element.
pub fn setup(max_credits: u64, ballot_size: usize, pc_gens: Option<(Vec<u8>, Vec<u8>)>) -> (r:
    Result<SetupParameters, VotingError>)
    ensures
        r.is_ok() <==> (spec_is_power_of_two(ballot_size as int) && (pc_gens matches Some(g)
            ==> gens_wf((g.0@, g.1@)))),
        (r matches Ok(p) ==> {
            &&& p.wf()
            &&& p.ballot_size == ballot_size
            &&& p.max_credit.value == max_credits
            &&& (pc_gens matches Some(g) ==> p.pc_gens.0@ == g.0@ && p.pc_gens.1@ == g.1@)
            &&& (pc_gens is None ==> p.pc_gens.0@ == default_gens_encoding().0 && p.pc_gens.1@
                == default_gens_encoding().1)
        }),
        (r matches Err(e) ==> e == VotingError::ConfigurationError),
{
    if ballot_size == 0 || !is_power_of_two(ballot_size) {
        return Err(VotingError::ConfigurationError);
    }
    let gens: (Vec<u8>, Vec<u8>) = match pc_gens {
        Some(g) => {
            if g.0.len() != 32 || g.1.len() != 32 {
                return Err(VotingError::ConfigurationError);
            }
            if !is_point(&g.0) || !is_point(&g.1) {
                return Err(VotingError::ConfigurationError);
            }
            g
        },
        None => default_gens(),
    };
    let max_credit = MaxCredit::new(&gens.0, &gens.1, max_credits);
    Ok(SetupParameters { ballot_size, max_credit, pc_gens: gens })
}

proof fn lemma_sum_take_succ(s: Seq<u64>, k: int)
    requires
        0 <= k < s.len(),
    ensures
        sum_of(s.take(k + 1)) == sum_of(s.take(k)) + s[k],
{
    assert(s.take(k + 1).drop_last() =~= s.take(k));
    assert(s.take(k + 1).last() == s[k]);
}

proof fn lemma_sum_nonneg(s: Seq<u64>)
    ensures
        sum_of(s) >= 0,
    decreases s.len(),
{
    if s.len() > 0 {
        lemma_sum_nonneg(s.drop_last());
    }
}

proof fn lemma_sum_take_le(s: Seq<u64>, k: int)
    requires
        0 <= k <= s.len(),
    ensures
        sum_of(s.take(k)) <= sum_of(s),
    decreases s.len() - k,
{
    if k == s.len() {
        assert(s.take(k) =~= s);
    } else {
        lemma_sum_take_succ(s, k);
        lemma_sum_take_le(s, k + 1);
    }
}

proof fn lemma_element_le_sum(s: Seq<u64>, i: int)
    requires
        0 <= i < s.len(),
    ensures
        s[i] <= sum_of(s),
    decreases s.len(),
{
    if i == s.len() - 1 {
        lemma_sum_nonneg(s.drop_last());
    } else {
        lemma_element_le_sum(s.drop_last(), i);
    }
}

/// Build a validity proof for a ballot.  A ballot of the wrong length or one
/// whose sum overflows or exceeds the budget is rejected before any proof is
/// attempted.  Every issued bundle is bound to its ballot: the per-entry
/// commitments commit the credits, their homomorphic sum is the sum
/// commitment, and the headroom commitment is the budget commitment minus
/// the sum commitment; under a budget below `2^8` the bundle is moreover one
/// that `verify_proof` accepts.
#[verifier::loop_isolation(false)]
pub fn generate_vote(setup_params: &SetupParameters, ballot: Vec<u64>) -> (r: Result<
    MaxBudgetRatedVotingProof,
    VotingError,
>)
    ensures
        r.is_err() <==> (ballot@.len() != setup_params.ballot_size || !gens_wf(
            setup_params.gens(),
        ) || !spec_is_power_of_two(setup_params.ballot_size as int) || sum_of(ballot@)
            > u64::MAX || sum_of(ballot@) > setup_params.max_credit.value),
        (r matches Err(e) ==> e == (if ballot@.len() != setup_params.ballot_size {
            VotingError::InputLengthMismatch
        } else if !gens_wf(setup_params.gens()) {
            VotingError::ConfigurationError
        } else if !spec_is_power_of_two(setup_params.ballot_size as int) {
            VotingError::BackendProofError
        } else {
            VotingError::DomainViolation
        })),
        (r matches Ok(p) ==> {
            &&& p.votes_proof.1@.len() == setup_params.ballot_size
            &&& commitments_bind_ballot(*setup_params, ballot@, p)
            &&& aggregate_of(p.votes_proof.1.deep_view()) == p.com_z@
            &&& (setup_params.max_credit.wf(setup_params.gens()) ==> p.rangeproof_d.1@
                == point_sub_of(setup_params.max_credit.commitment@, p.com_z@))
            &&& (setup_params.max_credit.wf(setup_params.gens())
                && setup_params.max_credit.value < 256 ==> verify_spec(*setup_params, p))
        }),
{
    if ballot.len() != setup_params.ballot_size {
        return Err(VotingError::InputLengthMismatch);
    }
    if setup_params.pc_gens.0.len() != 32 || setup_params.pc_gens.1.len() != 32 {
        return Err(VotingError::ConfigurationError);
    }
    if !is_point(&setup_params.pc_gens.0) || !is_point(&setup_params.pc_gens.1) {
        return Err(VotingError::ConfigurationError);
    }
    let ghost gens = setup_params.gens();
    let n = ballot.len();

    let mut ballot_blindings: Vec<Vec<u8>> = Vec::new();
    let mut i: usize = 0;
    while i < n
        invariant
            i <= n,
            ballot_blindings@.len() == i,
            forall|j: int| 0 <= j < i ==> #[trigger] ballot_blindings@[j]@.len() == 32,
        decreases n - i,
    {
        ballot_blindings.push(scalar_random());
        i = i + 1;
    }

    let rangeproof_votes = match prove_budget_votes(
        &setup_params.pc_gens.0,
        &setup_params.pc_gens.1,
        &ballot,
        &ballot_blindings,
    ) {
        Some(p) => p,
        None => {
            return Err(VotingError::BackendProofError);
        },
    };
    let ghost comms = rangeproof_votes.1.deep_view();

    // The running sum is committed homomorphically: the aggregate of the
    // per-entry commitments seen so far always equals the commitment to the
    // running sum under the running blinding.
    let mut z: u64 = ballot[0];
    let mut z_blinding: Vec<u8> = copy_bytes(&ballot_blindings[0]);
    proof {
        assert(comms.take(1) =~= seq![comms[0]]);
        assert(ballot@.take(1).drop_last() =~= Seq::<u64>::empty());
        assert(ballot@.take(1).last() == ballot@[0]);
        assert(sum_of(Seq::<u64>::empty()) == 0);
        assert(sum_of(ballot@.take(1)) == ballot@[0]);
    }
    let mut k: usize = 1;
    while k < n
        invariant
            1 <= k <= n,
            n == ballot@.len(),
            n == ballot_blindings@.len(),
            comms == rangeproof_votes.1.deep_view(),
            comms.len() == n,
            forall|j: int| 0 <= j < n ==> #[trigger] ballot_blindings@[j]@.len() == 32,
            forall|j: int|
                0 <= j < n ==> #[trigger] comms[j] == commit_of(
                    gens,
                    ballot@[j] as int,
                    ballot_blindings@[j]@,
                ),
            forall|j: int, v: int, b: Seq<u8>|
                0 <= j < n && b.len() == 32 ==> #[trigger] point_add_of(
                    commit_of(gens, v, b),
                    comms[j],
                ) == commit_of(gens, v + ballot@[j], scalar_add_of(b, ballot_blindings@[j]@)),
            z == sum_of(ballot@.take(k as int)),
            z_blinding@.len() == 32,
            aggregate_of(comms.take(k as int)) == commit_of(gens, z as int, z_blinding@),
        decreases n - k,
    {
        proof {
            lemma_sum_take_succ(ballot@, k as int);
        }
        z = match z.checked_add(ballot[k]) {
            Some(s) => s,
            None => {
                proof {
                    lemma_sum_take_le(ballot@, k as int + 1);
                }
                return Err(VotingError::DomainViolation);
            },
        };
        let ghost old_blinding = z_blinding@;
        z_blinding = scalar_add(&z_blinding, &ballot_blindings[k]);
        proof {
            assert(comms.take(k as int + 1).drop_last() =~= comms.take(k as int));
            assert(comms.take(k as int + 1).last() == comms[k as int]);
        }
        k = k + 1;
    }
    proof {
        assert(ballot@.take(n as int) =~= ballot@);
        assert(comms.take(n as int) =~= comms);
    }

    let d: u64 = match setup_params.max_credit.value.checked_sub(z) {
        Some(d) => d,
        None => {
            return Err(VotingError::DomainViolation);
        },
    };
    let d_blinding = scalar_neg(&z_blinding);
    let com_z = commit(&setup_params.pc_gens.0, &setup_params.pc_gens.1, z, &z_blinding);

    let rangeproof_d = match prove_budget_headroom(
        n,
        &setup_params.pc_gens.0,
        &setup_params.pc_gens.1,
        d,
        &d_blinding,
    ) {
        Some(p) => p,
        None => {
            return Err(VotingError::BackendProofError);
        },
    };

    let result = MaxBudgetRatedVotingProof {
        votes_proof: rangeproof_votes,
        com_z,
        rangeproof_d,
    };
    proof {
        lemma_deep_view_elems(&ballot_blindings);
        assert(commitments_bind_ballot(*setup_params, ballot@, result)) by {
            assert(commitments_with_blindings(
                *setup_params,
                ballot@,
                result,
                ballot_blindings.deep_view(),
            ));
        }
        if setup_params.max_credit.wf(gens) {
            assert(result.rangeproof_d.1@ == point_sub_of(
                setup_params.max_credit.commitment@,
                result.com_z@,
            ));
        }
        if setup_params.max_credit.wf(gens) && setup_params.max_credit.value < 256 {
            assert forall|j: int| 0 <= j < n implies ballot@[j] < 256 by {
                lemma_element_le_sum(ballot@, j);
            }
        }
    }
    Ok(result)
}

/// Check a validity proof.  The result is a pure function of the parameters
/// and the proof, stated by `verify_spec`; in particular repeated calls on
/// the same inputs return the same boolean.
#[verifier::loop_isolation(false)]
pub fn verify_proof(setup_params: &SetupParameters, validity_proof: MaxBudgetRatedVotingProof) -> (r:
    bool)
    ensures
        r == verify_spec(*setup_params, validity_proof),
{
    let vote_commitments = &validity_proof.votes_proof.1;
    proof {
        lemma_deep_view_elems(vote_commitments);
    }
    let ghost comms = vote_commitments.deep_view();
    if setup_params.pc_gens.0.len() != 32 || setup_params.pc_gens.1.len() != 32 {
        return false;
    }
    if !is_point(&setup_params.pc_gens.0) || !is_point(&setup_params.pc_gens.1) {
        return false;
    }
    let m = vote_commitments.len();
    if m != setup_params.ballot_size || m == 0 {
        return false;
    }
    let mut i: usize = 0;
    while i < m
        invariant
            i <= m,
            forall|j: int| 0 <= j < i ==> (#[trigger] comms[j]).len() == 32,
        decreases m - i,
    {
        if vote_commitments[i].len() != 32 {
            return false;
        }
        i = i + 1;
    }

    if !verify_budget_votes(
        setup_params.ballot_size,
        &setup_params.pc_gens.0,
        &setup_params.pc_gens.1,
        &validity_proof.votes_proof.0,
        vote_commitments,
    ) {
        return false;
    }

    let mut j: usize = 0;
    while j < m
        invariant
            j <= m,
            forall|t: int| 0 <= t < j ==> is_canonical_point(#[trigger] comms[t]),
        decreases m - j,
    {
        if !is_point(&vote_commitments[j]) {
            return false;
        }
        j = j + 1;
    }

    let mut aggregated = copy_bytes(&vote_commitments[0]);
    proof {
        assert(comms.take(1) =~= seq![comms[0]]);
    }
    let mut k: usize = 1;
    while k < m
        invariant
            1 <= k <= m,
            aggregated@.len() == 32,
            is_canonical_point(aggregated@),
            aggregated@ == aggregate_of(comms.take(k as int)),
        decreases m - k,
    {
        aggregated = match point_add(&aggregated, &vote_commitments[k]) {
            Some(p) => p,
            None => {
                // Unreachable: both operands are canonical encodings.
                return false;
            },
        };
        proof {
            assert(comms.take(k as int + 1).drop_last() =~= comms.take(k as int));
            assert(comms.take(k as int + 1).last() == comms[k as int]);
        }
        k = k + 1;
    }
    proof {
        assert(comms.take(m as int) =~= comms);
    }

    if validity_proof.com_z.len() != 32 {
        return false;
    }
    if !bytes_eq(&aggregated, &validity_proof.com_z) {
        return false;
    }

    if setup_params.max_credit.commitment.len() != 32 {
        return false;
    }
    let expected_d = match point_sub(&setup_params.max_credit.commitment, &validity_proof.com_z) {
        Some(p) => p,
        None => {
            return false;
        },
    };
    if !bytes_eq(&validity_proof.rangeproof_d.1, &expected_d) {
        return false;
    }

    verify_budget_headroom(
        setup_params.ballot_size,
        &setup_params.pc_gens.0,
        &setup_params.pc_gens.1,
        &validity_proof.rangeproof_d.0,
        &validity_proof.rangeproof_d.1,
    )
}

} // verus!
