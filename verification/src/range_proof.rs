use vstd::prelude::*;

use bulletproofs::BulletproofGens;
use bulletproofs::PedersenGens;
use bulletproofs::RangeProof;
use curve25519_dalek_ng::ristretto::CompressedRistretto;
use curve25519_dalek_ng::scalar::Scalar;
use merlin::Transcript;
use rand::rngs::StdRng;
use rand::SeedableRng;

use crate::chunking::spec_is_power_of_two;
use crate::commitment::commit_of;
use crate::commitment::gens_wf;
use crate::commitment::is_canonical_point;
use crate::commitment::point_add_of;
use crate::commitment::scalar_add_of;

verus! {

// The aggregated range-proof backend, behind byte-level wrappers.  A proof is
// carried as the byte form the backend itself defines; the outcome of
// verification is a function of those bytes, the commitment bytes, the
// transcript label and the generator capacity, and is given a name so the
// protocols' contracts can speak of it.

/// The transcript label under which per-entry vote range proofs run.
pub open spec fn max_budget_votes_label() -> Seq<u8> {
    seq![
        109u8, 97u8, 120u8, 32u8, 98u8, 117u8, 100u8, 103u8, 101u8, 116u8, 32u8, 114u8,
        97u8, 116u8, 101u8, 100u8, 32u8, 118u8, 111u8, 116u8, 105u8, 110u8, 103u8, 32u8,
        118u8, 111u8, 116u8, 101u8, 115u8,
    ]
}

/// The transcript label under which the shifted-score range proofs run.
pub open spec fn no_budget_label() -> Seq<u8> {
    seq![
        110u8, 111u8, 32u8, 98u8, 117u8, 100u8, 103u8, 101u8, 116u8, 32u8, 114u8, 97u8,
        116u8, 101u8, 100u8, 32u8, 118u8, 111u8, 116u8, 105u8, 110u8, 103u8,
    ]
}

/// What `RangeProof::verify_multiple` returns, with a fixed batch-challenge
/// randomness source, on an aggregated proof read from `proof`, value
/// commitments read from `comms`, bit width 8, a transcript fresh under
/// `label`, the Pedersen generator pair read from `gens`, and range-proof
/// generators sized for `parties` participants; `false` also where the proof
/// bytes do not parse.
pub uninterp spec fn verify_multiple_of(
    parties: int,
    label: Seq<u8>,
    gens: (Seq<u8>, Seq<u8>),
    proof: Seq<u8>,
    comms: Seq<Seq<u8>>,
) -> bool;

/// What `RangeProof::verify_single` returns under the budget-headroom label,
/// as `verify_multiple_of` but for one commitment.
pub uninterp spec fn verify_single_of(
    parties: int,
    gens: (Seq<u8>, Seq<u8>),
    proof: Seq<u8>,
    comm: Seq<u8>,
) -> bool;

/// Relies on `RangeProof::prove_multiple` of bulletproofs, bit width 8, under
/// the per-entry votes label.  Its source shows: it fails exactly when the
/// batch size is not a power of two (the lengths match and the generators are
/// sized to the batch here); each returned commitment is
/// `pc_gens.commit(value, blinding)` compressed under the given generator
/// pair; and a proof built over
/// values below `2^8` verifies.  Pedersen commitments are additively
/// homomorphic, which the third clause states of each returned commitment.
/// The success-iff clause idealizes away the zero-transcript-challenge
/// event, of probability near `2^-252`, in which the backend errs instead.
#[verifier::external_body]
pub(crate) fn prove_budget_votes(
    g_b: &Vec<u8>,
    g_bl: &Vec<u8>,
    values: &Vec<u64>,
    blindings: &Vec<Vec<u8>>,
) -> (r: Option<(Vec<u8>, Vec<Vec<u8>>)>)
    requires
        gens_wf((g_b@, g_bl@)),
        values@.len() == blindings@.len(),
        forall|i: int| 0 <= i < blindings@.len() ==> #[trigger] blindings@[i]@.len() == 32,
    ensures
        r.is_some() <==> spec_is_power_of_two(values@.len() as int),
        (r matches Some(p) ==> {
            &&& p.1@.len() == values@.len()
            &&& forall|i: int|
                0 <= i < values@.len() ==> #[trigger] p.1.deep_view()[i] == commit_of(
                    (g_b@, g_bl@),
                    values@[i] as int,
                    blindings@[i]@,
                ) && is_canonical_point(p.1.deep_view()[i]) && p.1.deep_view()[i].len() == 32
            &&& forall|i: int, v: int, b: Seq<u8>|
                0 <= i < values@.len() && b.len() == 32 ==> #[trigger] point_add_of(
                    commit_of((g_b@, g_bl@), v, b),
                    p.1.deep_view()[i],
                ) == commit_of((g_b@, g_bl@), v + values@[i], scalar_add_of(b, blindings@[i]@))
            &&& (forall|i: int| 0 <= i < values@.len() ==> values@[i] < 256)
                ==> verify_multiple_of(
                values@.len() as int,
                max_budget_votes_label(),
                (g_b@, g_bl@),
                p.0@,
                p.1.deep_view(),
            )
        }),
{
    let d = |v: &Vec<u8>| CompressedRistretto::from_slice(v).decompress().unwrap();
    let gens = PedersenGens { B: d(g_b), B_blinding: d(g_bl) };
    let bp = BulletproofGens::new(8, values.len());
    let mut t = Transcript::new(b"max budget rated voting votes");
    let bl: Vec<Scalar> = blindings.iter().map(|x| {
        let mut a = [0u8; 32];
        a.copy_from_slice(x);
        Scalar::from_bytes_mod_order(a)
    }).collect();
    RangeProof::prove_multiple(&bp, &gens, &mut t, values, &bl, 8).ok().map(
        |(pf, cs)| (pf.to_bytes(), cs.iter().map(|c| c.to_bytes().to_vec()).collect()),
    )
}

/// Relies on `RangeProof::verify_multiple_with_rng` of bulletproofs under the
/// per-entry votes label, with a fixed-seed batch challenge so that the
/// outcome is a function of the proof bytes, the commitments and the
/// generator capacity alone.
#[verifier::external_body]
pub(crate) fn verify_budget_votes(
    parties: usize,
    g_b: &Vec<u8>,
    g_bl: &Vec<u8>,
    proof: &Vec<u8>,
    comms: &Vec<Vec<u8>>,
) -> (r: bool)
    requires
        gens_wf((g_b@, g_bl@)),
        forall|i: int| 0 <= i < comms@.len() ==> #[trigger] comms@[i]@.len() == 32,
    ensures
        r == verify_multiple_of(
            parties as int,
            max_budget_votes_label(),
            (g_b@, g_bl@),
            proof@,
            comms.deep_view(),
        ),
{
    let d = |v: &Vec<u8>| CompressedRistretto::from_slice(v).decompress().unwrap();
    let gens = PedersenGens { B: d(g_b), B_blinding: d(g_bl) };
    let bp = BulletproofGens::new(8, parties);
    let mut t = Transcript::new(b"max budget rated voting votes");
    let cs: Vec<CompressedRistretto> = comms.iter().map(|c| {
        CompressedRistretto::from_slice(c)
    }).collect();
    match RangeProof::from_bytes(proof) {
        Ok(pf) => pf.verify_multiple_with_rng(
            &bp, &gens, &mut t, &cs, 8, &mut StdRng::seed_from_u64(0),
        ).is_ok(),
        Err(_) => false,
    }
}

/// Relies on `RangeProof::prove_single` of bulletproofs, bit width 8, under
/// the budget-headroom label.  A single-value proof is an aggregation of one,
/// so it never fails when the generators cover one party; the returned
/// commitment is `pc_gens.commit(value, blinding)` compressed; and a proof
/// built over a value below `2^8` verifies.  The unconditional success
/// clause idealizes away the zero-transcript-challenge event, of probability
/// near `2^-252`, in which the backend errs instead.
#[verifier::external_body]
pub(crate) fn prove_budget_headroom(
    parties: usize,
    g_b: &Vec<u8>,
    g_bl: &Vec<u8>,
    value: u64,
    blinding: &Vec<u8>,
) -> (r: Option<(Vec<u8>, Vec<u8>)>)
    requires
        parties >= 1,
        gens_wf((g_b@, g_bl@)),
        blinding@.len() == 32,
    ensures
        r.is_some(),
        (r matches Some(p) ==> {
            &&& p.1@.len() == 32
            &&& p.1@ == commit_of((g_b@, g_bl@), value as int, blinding@)
            &&& is_canonical_point(p.1@)
            &&& value < 256 ==> verify_single_of(parties as int, (g_b@, g_bl@), p.0@, p.1@)
        }),
{
    let d = |v: &Vec<u8>| CompressedRistretto::from_slice(v).decompress().unwrap();
    let gens = PedersenGens { B: d(g_b), B_blinding: d(g_bl) };
    let bp = BulletproofGens::new(8, parties);
    let mut t = Transcript::new(b"max budget rated voting");
    let mut a = [0u8; 32];
    a.copy_from_slice(blinding);
    let b = Scalar::from_bytes_mod_order(a);
    match RangeProof::prove_single(&bp, &gens, &mut t, value, &b, 8) {
        Ok((pf, c)) => Some((pf.to_bytes(), c.to_bytes().to_vec())),
        Err(_) => None,
    }
}

/// Relies on `RangeProof::verify_single_with_rng` of bulletproofs under the
/// budget-headroom label, with a fixed-seed batch challenge, as
/// `verify_budget_votes`.
#[verifier::external_body]
pub(crate) fn verify_budget_headroom(
    parties: usize,
    g_b: &Vec<u8>,
    g_bl: &Vec<u8>,
    proof: &Vec<u8>,
    comm: &Vec<u8>,
) -> (r: bool)
    requires
        gens_wf((g_b@, g_bl@)),
        comm@.len() == 32,
    ensures
        r == verify_single_of(parties as int, (g_b@, g_bl@), proof@, comm@),
{
    let d = |v: &Vec<u8>| CompressedRistretto::from_slice(v).decompress().unwrap();
    let gens = PedersenGens { B: d(g_b), B_blinding: d(g_bl) };
    let bp = BulletproofGens::new(8, parties);
    let mut t = Transcript::new(b"max budget rated voting");
    let c = CompressedRistretto::from_slice(comm);
    match RangeProof::from_bytes(proof) {
        Ok(pf) => pf.verify_single_with_rng(
            &bp, &gens, &mut t, &c, 8, &mut StdRng::seed_from_u64(0),
        ).is_ok(),
        Err(_) => false,
    }
}

/// Relies on `RangeProof::prove_multiple` of bulletproofs, bit width 8, under
/// the shifted-score label, exactly as `prove_budget_votes` does under the
/// votes label, with the same idealized success-iff clause.
#[verifier::external_body]
pub(crate) fn prove_no_budget(
    g_b: &Vec<u8>,
    g_bl: &Vec<u8>,
    values: &Vec<u64>,
    blindings: &Vec<Vec<u8>>,
) -> (r: Option<(Vec<u8>, Vec<Vec<u8>>)>)
    requires
        gens_wf((g_b@, g_bl@)),
        values@.len() == blindings@.len(),
        forall|i: int| 0 <= i < blindings@.len() ==> #[trigger] blindings@[i]@.len() == 32,
    ensures
        r.is_some() <==> spec_is_power_of_two(values@.len() as int),
        (r matches Some(p) ==> {
            &&& p.1@.len() == values@.len()
            &&& forall|i: int|
                0 <= i < values@.len() ==> #[trigger] p.1.deep_view()[i] == commit_of(
                    (g_b@, g_bl@),
                    values@[i] as int,
                    blindings@[i]@,
                ) && is_canonical_point(p.1.deep_view()[i]) && p.1.deep_view()[i].len() == 32
            &&& (forall|i: int| 0 <= i < values@.len() ==> values@[i] < 256)
                ==> verify_multiple_of(
                values@.len() as int,
                no_budget_label(),
                (g_b@, g_bl@),
                p.0@,
                p.1.deep_view(),
            )
        }),
{
    let d = |v: &Vec<u8>| CompressedRistretto::from_slice(v).decompress().unwrap();
    let gens = PedersenGens { B: d(g_b), B_blinding: d(g_bl) };
    let bp = BulletproofGens::new(8, values.len());
    let mut t = Transcript::new(b"no budget rated voting");
    let bl: Vec<Scalar> = blindings.iter().map(|x| {
        let mut a = [0u8; 32];
        a.copy_from_slice(x);
        Scalar::from_bytes_mod_order(a)
    }).collect();
    RangeProof::prove_multiple(&bp, &gens, &mut t, values, &bl, 8).ok().map(
        |(pf, cs)| (pf.to_bytes(), cs.iter().map(|c| c.to_bytes().to_vec()).collect()),
    )
}

/// Relies on `RangeProof::verify_multiple_with_rng` of bulletproofs under the
/// shifted-score label, with a fixed-seed batch challenge, as
/// `verify_budget_votes`.
#[verifier::external_body]
pub(crate) fn verify_no_budget(
    parties: usize,
    g_b: &Vec<u8>,
    g_bl: &Vec<u8>,
    proof: &Vec<u8>,
    comms: &Vec<Vec<u8>>,
) -> (r: bool)
    requires
        gens_wf((g_b@, g_bl@)),
        forall|i: int| 0 <= i < comms@.len() ==> #[trigger] comms@[i]@.len() == 32,
    ensures
        r == verify_multiple_of(
            parties as int,
            no_budget_label(),
            (g_b@, g_bl@),
            proof@,
            comms.deep_view(),
        ),
{
    let d = |v: &Vec<u8>| CompressedRistretto::from_slice(v).decompress().unwrap();
    let gens = PedersenGens { B: d(g_b), B_blinding: d(g_bl) };
    let bp = BulletproofGens::new(8, parties);
    let mut t = Transcript::new(b"no budget rated voting");
    let cs: Vec<CompressedRistretto> = comms.iter().map(|c| {
        CompressedRistretto::from_slice(c)
    }).collect();
    match RangeProof::from_bytes(proof) {
        Ok(pf) => pf.verify_multiple_with_rng(
            &bp, &gens, &mut t, &cs, 8, &mut StdRng::seed_from_u64(0),
        ).is_ok(),
        Err(_) => false,
    }
}

} // verus!
