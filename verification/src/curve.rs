use vstd::prelude::*;

use ark_bls12_381::Fr;
use ark_bls12_381::G1Affine;
use ark_bls12_381::G1Projective;
use ark_ec::AffineCurve;
use ark_ec::ProjectiveCurve;
use ark_std::rand::rngs::StdRng;
use ark_std::rand::SeedableRng;
use ark_std::UniformRand;
use ark_std::Zero;
use curdleproofs::msm_accumulator::MsmAccumulator;
use curdleproofs::same_permutation_argument::SamePermutationProof;
use merlin::Transcript;

use crate::chunking::spec_is_power_of_two;

verus! {

// The ranked-voting scheme works over the BLS12-381 curve through the
// curdleproofs same-permutation argument.  Verus cannot take the curve
// library's generic point types directly (their declarations carry an
// outside trait bound), so each value is held opaquely in a private field of
// a small struct of this crate; the verified logic derives and validates the
// permutation and the vector lengths and carries these values between the
// backend's calls.

/// A BLS12-381 G1 element in affine form, held opaquely.
#[verifier::external_body]
pub struct G1AffinePoint {
    inner: ark_bls12_381::G1Affine,
}

/// A BLS12-381 G1 element in projective form, held opaquely.
#[verifier::external_body]
pub struct G1ProjectivePoint {
    inner: ark_bls12_381::G1Projective,
}

/// A BLS12-381 scalar-field element, held opaquely.
#[verifier::external_body]
pub struct FrScalar {
    inner: ark_bls12_381::Fr,
}

/// A curdleproofs same-permutation argument proof, held opaquely.
#[verifier::external_body]
pub struct PermutationArgumentProof {
    inner: SamePermutationProof,
}

/// The field element `Fr::from` makes of a machine integer.
pub uninterp spec fn fr_of(x: u64) -> FrScalar;

/// The group sum of two affine points.
pub uninterp spec fn g1_add_of(a: G1AffinePoint, b: G1AffinePoint) -> G1AffinePoint;

/// The group sum of two projective points.
pub uninterp spec fn g1_proj_add_of(
    a: G1ProjectivePoint,
    b: G1ProjectivePoint,
) -> G1ProjectivePoint;

/// The multi-scalar multiplication of the points by the scalars.
pub uninterp spec fn msm_of(
    points: Seq<G1AffinePoint>,
    scalars: Seq<FrScalar>,
) -> G1ProjectivePoint;

/// What `SamePermutationProof::verify` returns — under the fixed `sameperm`
/// transcript label, a fixed-seed batch challenge and a fresh accumulator
/// flushed once, the outcome is a function of these arguments alone —
/// together with the accumulator's final check.
pub uninterp spec fn sameperm_verify_of(
    g: Seq<G1AffinePoint>,
    h: Seq<G1AffinePoint>,
    u: G1ProjectivePoint,
    g_sum: G1AffinePoint,
    h_sum: G1AffinePoint,
    proof: PermutationArgumentProof,
    a_comm: G1ProjectivePoint,
    m_comm: G1ProjectivePoint,
    scores: Seq<FrScalar>,
    n_blinders: int,
) -> bool;

/// The fold of the group addition over a nonempty list of points, front to
/// back.
pub open spec fn g1_sum_spec(points: Seq<G1AffinePoint>) -> G1AffinePoint
    recommends
        points.len() >= 1,
    decreases points.len(),
{
    if points.len() <= 1 {
        points[0]
    } else {
        g1_add_of(g1_sum_spec(points.drop_last()), points.last())
    }
}

/// The field elements standing for a sequence of machine values.
pub open spec fn fr_seq_of(s: Seq<u32>) -> Seq<FrScalar> {
    Seq::new(s.len(), |i: int| fr_of(s[i] as u64))
}

/// `s` rearranged by the index list `p`: position `i` holds `s[p[i]]`.
pub open spec fn permuted_of(s: Seq<FrScalar>, p: Seq<u32>) -> Seq<FrScalar> {
    Seq::new(p.len(), |i: int| s[p[i] as int])
}

/// Relies on `UniformRand::rand` for `G1Projective` and
/// `ProjectiveCurve::into_affine`: a generator drawn from fresh entropy for a
/// common reference string.
#[verifier::external_body]
pub(crate) fn rand_g1_affine() -> G1AffinePoint {
    let mut rng = StdRng::from_entropy();
    let p = G1Projective::rand(&mut rng);
    G1AffinePoint { inner: p.into_affine() }
}

/// Relies on `UniformRand::rand` for `G1Projective`, as `rand_g1_affine`.
#[verifier::external_body]
pub(crate) fn rand_g1_projective() -> G1ProjectivePoint {
    let mut rng = StdRng::from_entropy();
    G1ProjectivePoint { inner: G1Projective::rand(&mut rng) }
}

/// Relies on `Zero::zero` for `G1Affine`: the group identity, which leaves
/// any point unchanged under the group addition.
#[verifier::external_body]
pub(crate) fn g1_affine_zero() -> (r: G1AffinePoint)
    ensures
        forall|x: G1AffinePoint| #[trigger] g1_add_of(r, x) == x,
{
    G1AffinePoint { inner: G1Affine::zero() }
}

/// Relies on `Add` of `G1Projective` and the affine conversions: the group
/// sum of two affine points, a function of the two points alone.
#[verifier::external_body]
pub(crate) fn g1_add(a: &G1AffinePoint, b: &G1AffinePoint) -> (r: G1AffinePoint)
    ensures
        r == g1_add_of(*a, *b),
{
    let s = a.inner.into_projective() + b.inner.into_projective();
    G1AffinePoint { inner: s.into_affine() }
}

/// Relies on `Add` of `G1Projective`, a function of the two points alone.
#[verifier::external_body]
pub(crate) fn g1_proj_add(a: &G1ProjectivePoint, b: &G1ProjectivePoint) -> (r: G1ProjectivePoint)
    ensures
        r == g1_proj_add_of(*a, *b),
{
    G1ProjectivePoint { inner: a.inner + b.inner }
}

/// Relies on `Fr::from`: the field element standing for a machine integer,
/// a function of that integer alone.
#[verifier::external_body]
pub(crate) fn fr_from_u64(x: u64) -> (r: FrScalar)
    ensures
        r == fr_of(x),
{
    FrScalar { inner: Fr::from(x) }
}

/// Relies on curdleproofs' `generate_blinders`: `n` scalars drawn from fresh
/// entropy; nothing is assumed of their values beyond their number.
#[verifier::external_body]
pub(crate) fn generate_blinders_fr(n: usize) -> (r: Vec<FrScalar>)
    ensures
        r@.len() == n,
{
    let mut rng = StdRng::from_entropy();
    let blinders = curdleproofs::util::generate_blinders(&mut rng, n);
    blinders.into_iter().map(|x| FrScalar { inner: x }).collect()
}

/// Relies on curdleproofs' `msm`: the multi-scalar multiplication of the
/// points by the scalars; its source asserts that the lengths match, which
/// the precondition mirrors.
#[verifier::external_body]
pub(crate) fn msm_points(points: &Vec<G1AffinePoint>, scalars: &Vec<FrScalar>) -> (r:
    G1ProjectivePoint)
    requires
        points@.len() == scalars@.len(),
    ensures
        r == msm_of(points@, scalars@),
{
    let p: Vec<G1Affine> = points.iter().map(|x| x.inner).collect();
    let s: Vec<Fr> = scalars.iter().map(|x| x.inner).collect();
    G1ProjectivePoint { inner: curdleproofs::util::msm(&p, &s) }
}

/// Relies on `SamePermutationProof::new` of curdleproofs, under the fixed
/// `sameperm` transcript label with fresh prover randomness.  The
/// preconditions mirror what its source indexes and asserts: the permutation
/// indexes into `vec_a` without repeating an index — the argument is about
/// bijections, and for a repeating list the prover's grand product (over the
/// permuted factors) and the verifier's (over the identity order) diverge —
/// the blinder vectors match the blinder generators, and the inner-product
/// argument wants a power-of-two total width.  The ensures clause is the
/// argument's completeness, which its own round-trip test shows: when the
/// two commitments really commit, over these generators, to the permuted
/// public vector and to the permutation's indices, the produced proof passes
/// `SamePermutationProof::verify` under the matching generator sums.  The
/// backend can still fail, by panic, only in the negligible-probability case
/// of a zero transcript challenge.
#[verifier::external_body]
pub(crate) fn sameperm_prove(
    g_vec: &Vec<G1AffinePoint>,
    h_vec: &Vec<G1AffinePoint>,
    u: &G1ProjectivePoint,
    a_comm: &G1ProjectivePoint,
    m_comm: &G1ProjectivePoint,
    vec_a: &Vec<FrScalar>,
    permutation: Vec<u32>,
    a_blinders: Vec<FrScalar>,
    m_blinders: Vec<FrScalar>,
) -> (r: PermutationArgumentProof)
    requires
        g_vec@.len() == vec_a@.len(),
        permutation@.len() == vec_a@.len(),
        forall|i: int| 0 <= i < permutation@.len() ==> permutation@[i] < vec_a@.len(),
        forall|x: int, y: int|
            0 <= x < y < permutation@.len() ==> permutation@[x] != permutation@[y],
        a_blinders@.len() == h_vec@.len(),
        m_blinders@.len() == h_vec@.len(),
        vec_a@.len() >= 1,
        h_vec@.len() >= 1,
        spec_is_power_of_two((g_vec@.len() + h_vec@.len()) as int),
    ensures
        (*a_comm == g1_proj_add_of(
            msm_of(g_vec@, permuted_of(vec_a@, permutation@)),
            msm_of(h_vec@, a_blinders@),
        ) && *m_comm == g1_proj_add_of(
            msm_of(g_vec@, fr_seq_of(permutation@)),
            msm_of(h_vec@, m_blinders@),
        )) ==> sameperm_verify_of(
            g_vec@,
            h_vec@,
            *u,
            g1_sum_spec(g_vec@),
            g1_sum_spec(h_vec@),
            r,
            *a_comm,
            *m_comm,
            vec_a@,
            h_vec@.len() as int,
        ),
{
    let mut rng = StdRng::from_entropy();
    let mut transcript = Transcript::new(b"sameperm");
    let g: Vec<G1Affine> = g_vec.iter().map(|x| x.inner).collect();
    let h: Vec<G1Affine> = h_vec.iter().map(|x| x.inner).collect();
    let a: Vec<Fr> = vec_a.iter().map(|x| x.inner).collect();
    let proof = SamePermutationProof::new(
        &g, &h, &u.inner, a_comm.inner, m_comm.inner, &a, permutation,
        a_blinders.into_iter().map(|x| x.inner).collect(),
        m_blinders.into_iter().map(|x| x.inner).collect(),
        &mut transcript, &mut rng,
    );
    PermutationArgumentProof { inner: proof }
}

/// Relies on `SamePermutationProof::verify` of curdleproofs under the fixed
/// `sameperm` transcript label, with a fixed-seed batch challenge and a
/// local accumulator flushed exactly once, so that the outcome is the
/// function of the arguments that `sameperm_verify_of` names (the order in
/// which the accumulator walks its map cannot change the boolean).  The
/// preconditions mirror the lengths its source indexes and the power-of-two
/// width its inner-product argument asserts.  On an adversarial proof the
/// backend can fail loudly instead of returning `false` only in the
/// negligible-probability case of a zero transcript challenge.
#[verifier::external_body]
pub(crate) fn sameperm_verify(
    g_vec: &Vec<G1AffinePoint>,
    h_vec: &Vec<G1AffinePoint>,
    u: &G1ProjectivePoint,
    g_sum: &G1AffinePoint,
    h_sum: &G1AffinePoint,
    proof: &PermutationArgumentProof,
    a_comm: &G1ProjectivePoint,
    m_comm: &G1ProjectivePoint,
    vec_a: &Vec<FrScalar>,
    n_blinders: usize,
) -> (r: bool)
    requires
        vec_a@.len() == g_vec@.len(),
        h_vec@.len() == n_blinders,
        g_vec@.len() >= 1,
        n_blinders >= 1,
        spec_is_power_of_two((g_vec@.len() + n_blinders) as int),
    ensures
        r == sameperm_verify_of(
            g_vec@,
            h_vec@,
            *u,
            *g_sum,
            *h_sum,
            *proof,
            *a_comm,
            *m_comm,
            vec_a@,
            n_blinders as int,
        ),
{
    let mut rng = StdRng::seed_from_u64(0);
    let mut transcript = Transcript::new(b"sameperm");
    let mut acc = MsmAccumulator::default();
    let g: Vec<G1Affine> = g_vec.iter().map(|x| x.inner).collect();
    let h: Vec<G1Affine> = h_vec.iter().map(|x| x.inner).collect();
    let a: Vec<Fr> = vec_a.iter().map(|x| x.inner).collect();
    let ok = proof.inner.verify(
        &g, &h, &u.inner, &g_sum.inner, &h_sum.inner, &a_comm.inner, &m_comm.inner, &a,
        n_blinders, &mut transcript, &mut acc, &mut rng,
    );
    ok.is_ok() && acc.verify().is_ok()
}

} // verus!
