use vstd::prelude::*;

use curve25519_dalek_ng::ristretto::CompressedRistretto;

verus! {

// Commitments, blinding scalars and group elements travel through the
// protocols in their canonical 32-byte encodings, so that every algebraic
// check the verifier performs is a comparison of plain bytes.  The byte-level
// meaning of each operation of the curve backend is given a name below; the
// trusted wrappers tie those names to the backend's functions.

/// The canonical compressed encoding of `PedersenGens::commit(v, b)` under
/// the generator pair whose canonical encodings are `gens`, where `b` stands
/// for the scalar read from 32 bytes in little-endian order, reduced modulo
/// the group order.
pub uninterp spec fn commit_of(gens: (Seq<u8>, Seq<u8>), value: int, blinding: Seq<u8>) -> Seq<
    u8,
>;

/// The two encodings are canonical encodings of group elements, so they read
/// back as a usable generator pair.
pub open spec fn gens_wf(gens: (Seq<u8>, Seq<u8>)) -> bool {
    &&& gens.0.len() == 32
    &&& gens.1.len() == 32
    &&& is_canonical_point(gens.0)
    &&& is_canonical_point(gens.1)
}

/// The canonical encoding of the sum, modulo the group order, of the scalars
/// read from `a` and `b`.
pub uninterp spec fn scalar_add_of(a: Seq<u8>, b: Seq<u8>) -> Seq<u8>;

/// The canonical encoding of the negation, modulo the group order, of the
/// scalar read from `a`.
pub uninterp spec fn scalar_neg_of(a: Seq<u8>) -> Seq<u8>;

/// The canonical encoding of the sum of the group elements encoded by `a`
/// and `b`.
pub uninterp spec fn point_add_of(a: Seq<u8>, b: Seq<u8>) -> Seq<u8>;

/// The canonical encoding of the difference of the group elements encoded by
/// `a` and `b`.
pub uninterp spec fn point_sub_of(a: Seq<u8>, b: Seq<u8>) -> Seq<u8>;

/// Whether `s` is the canonical encoding of a group element, that is, whether
/// `CompressedRistretto::decompress` succeeds on it.
pub uninterp spec fn is_canonical_point(s: Seq<u8>) -> bool;

/// The 32-byte encoding of the scalar zero.
pub open spec fn zero_scalar_bytes() -> Seq<u8> {
    Seq::new(32, |i: int| 0u8)
}

/// The canonical encodings of the backend's default generator pair: the
/// ristretto basepoint, and the hash-to-group of its encoding, exactly as
/// `PedersenGens::default` fixes them.
pub open spec fn default_gens_encoding() -> (Seq<u8>, Seq<u8>) {
    (
        seq![
        226u8, 242u8, 174u8, 10u8, 106u8, 188u8, 78u8, 113u8, 168u8, 132u8, 169u8, 97u8, 197u8,
        0u8, 81u8, 95u8, 88u8, 227u8, 11u8, 106u8, 165u8, 130u8, 221u8, 141u8, 182u8, 166u8,
        89u8, 69u8, 224u8, 141u8, 45u8, 118u8,
    ],
        seq![
        140u8, 146u8, 64u8, 180u8, 86u8, 169u8, 230u8, 220u8, 101u8, 195u8, 119u8, 161u8, 4u8,
        141u8, 116u8, 95u8, 148u8, 160u8, 140u8, 219u8, 127u8, 68u8, 203u8, 205u8, 123u8, 70u8,
        243u8, 64u8, 72u8, 135u8, 17u8, 52u8,
    ],
    )
}

/// Relies on `PedersenGens::default` of bulletproofs: the fixed, documented
/// generator pair — the group basepoint and a hash-to-group of its encoding —
/// whose compressed encodings are canonical and are the constants
/// `default_gens_encoding` spells out.
#[verifier::external_body]
pub(crate) fn default_gens() -> (r: (Vec<u8>, Vec<u8>))
    ensures
        gens_wf((r.0@, r.1@)),
        r.0@ == default_gens_encoding().0,
        r.1@ == default_gens_encoding().1,
{
    let gens = bulletproofs::PedersenGens::default();
    (gens.B.compress().to_bytes().to_vec(), gens.B_blinding.compress().to_bytes().to_vec())
}

/// Relies on `PedersenGens::commit` of bulletproofs and
/// `CompressedRistretto::decompress`: under a fixed generator pair the
/// commitment is a function of the value and the blinding alone, its
/// compressed encoding is canonical, and subtracting it from an unblinded
/// commitment under the same generators gives the commitment to the
/// difference of the values under the negated blinding (Pedersen commitments
/// are additively homomorphic: `commit(v, b) == v*B + b*B_blinding`).
#[verifier::external_body]
pub(crate) fn commit(g_b: &Vec<u8>, g_bl: &Vec<u8>, value: u64, blinding: &Vec<u8>) -> (r: Vec<
    u8,
>)
    requires
        gens_wf((g_b@, g_bl@)),
        blinding@.len() == 32,
    ensures
        r@.len() == 32,
        r@ == commit_of((g_b@, g_bl@), value as int, blinding@),
        is_canonical_point(r@),
        forall|v: int|
            #[trigger] point_sub_of(commit_of((g_b@, g_bl@), v, zero_scalar_bytes()), r@)
                == commit_of((g_b@, g_bl@), v - value, scalar_neg_of(blinding@)),
{
    let d = |v: &Vec<u8>| CompressedRistretto::from_slice(v).decompress().unwrap();
    let gens = bulletproofs::PedersenGens { B: d(g_b), B_blinding: d(g_bl) };
    let mut a = [0u8; 32];
    a.copy_from_slice(blinding);
    let b = curve25519_dalek_ng::scalar::Scalar::from_bytes_mod_order(a);
    let v = curve25519_dalek_ng::scalar::Scalar::from(value);
    gens.commit(v, b).compress().to_bytes().to_vec()
}

/// Relies on `Scalar::random`: a scalar drawn from the process-wide secure
/// randomness source; nothing is assumed of its value beyond its encoding
/// being 32 bytes.
#[verifier::external_body]
pub(crate) fn scalar_random() -> (r: Vec<u8>)
    ensures
        r@.len() == 32,
{
    let s = curve25519_dalek_ng::scalar::Scalar::random(&mut rand::thread_rng());
    s.to_bytes().to_vec()
}

/// Relies on `Add` of `Scalar`: addition modulo the group order, a function
/// of the two encodings alone.
#[verifier::external_body]
pub(crate) fn scalar_add(a: &Vec<u8>, b: &Vec<u8>) -> (r: Vec<u8>)
    requires
        a@.len() == 32,
        b@.len() == 32,
    ensures
        r@.len() == 32,
        r@ == scalar_add_of(a@, b@),
{
    let mut x = [0u8; 32];
    x.copy_from_slice(a);
    let mut y = [0u8; 32];
    y.copy_from_slice(b);
    let s = curve25519_dalek_ng::scalar::Scalar::from_bytes_mod_order(x)
        + curve25519_dalek_ng::scalar::Scalar::from_bytes_mod_order(y);
    s.to_bytes().to_vec()
}

/// Relies on `Neg` of `Scalar`: negation modulo the group order, a function
/// of the encoding alone.
#[verifier::external_body]
pub(crate) fn scalar_neg(a: &Vec<u8>) -> (r: Vec<u8>)
    requires
        a@.len() == 32,
    ensures
        r@.len() == 32,
        r@ == scalar_neg_of(a@),
{
    let mut x = [0u8; 32];
    x.copy_from_slice(a);
    let s = -curve25519_dalek_ng::scalar::Scalar::from_bytes_mod_order(x);
    s.to_bytes().to_vec()
}

/// Relies on `CompressedRistretto::decompress`, `Add` of `RistrettoPoint` and
/// `RistrettoPoint::compress`: decompression succeeds exactly on canonical
/// encodings, and compressing the sum yields its canonical encoding.
#[verifier::external_body]
pub(crate) fn point_add(a: &Vec<u8>, b: &Vec<u8>) -> (r: Option<Vec<u8>>)
    requires
        a@.len() == 32,
        b@.len() == 32,
    ensures
        r.is_some() <==> (is_canonical_point(a@) && is_canonical_point(b@)),
        (r matches Some(p) ==> p@.len() == 32 && p@ == point_add_of(a@, b@)
            && is_canonical_point(p@)),
{
    let x = CompressedRistretto::from_slice(a).decompress()?;
    let y = CompressedRistretto::from_slice(b).decompress()?;
    Some((x + y).compress().to_bytes().to_vec())
}

/// Relies on `CompressedRistretto::decompress`, `Sub` of `RistrettoPoint` and
/// `RistrettoPoint::compress`, as `point_add` does.
#[verifier::external_body]
pub(crate) fn point_sub(a: &Vec<u8>, b: &Vec<u8>) -> (r: Option<Vec<u8>>)
    requires
        a@.len() == 32,
        b@.len() == 32,
    ensures
        r.is_some() <==> (is_canonical_point(a@) && is_canonical_point(b@)),
        (r matches Some(p) ==> p@.len() == 32 && p@ == point_sub_of(a@, b@)
            && is_canonical_point(p@)),
{
    let x = CompressedRistretto::from_slice(a).decompress()?;
    let y = CompressedRistretto::from_slice(b).decompress()?;
    Some((x - y).compress().to_bytes().to_vec())
}

/// Relies on `CompressedRistretto::decompress`: it succeeds exactly on the
/// canonical encoding of a group element.
#[verifier::external_body]
pub(crate) fn is_point(c: &Vec<u8>) -> (r: bool)
    requires
        c@.len() == 32,
    ensures
        r == is_canonical_point(c@),
{
    CompressedRistretto::from_slice(c).decompress().is_some()
}

/// Each element of the deep view of a list of encodings is that encoding's
/// own view.
pub proof fn lemma_deep_view_elems(v: &Vec<Vec<u8>>)
    ensures
        v.deep_view().len() == v@.len(),
        forall|i: int|
            #![trigger v.deep_view()[i]]
            #![trigger v@[i]]
            0 <= i < v@.len() ==> v.deep_view()[i] == v@[i]@,
{
    assert forall|i: int| 0 <= i < v@.len() implies #[trigger] v.deep_view()[i] == v@[i]@ by {
        assert(v.deep_view()[i] =~= v@[i]@);
    }
}

/// Byte-for-byte equality of two encodings.
pub(crate) fn bytes_eq(a: &Vec<u8>, b: &Vec<u8>) -> (r: bool)
    ensures
        r == (a@ == b@),
{
    if a.len() != b.len() {
        return false;
    }
    let mut i: usize = 0;
    while i < a.len()
        invariant
            i <= a@.len(),
            a@.len() == b@.len(),
            forall|j: int| 0 <= j < i ==> a@[j] == b@[j],
        decreases a@.len() - i,
    {
        if a[i] != b[i] {
            return false;
        }
        i = i + 1;
    }
    proof {
        assert(a@ =~= b@);
    }
    true
}

/// A fresh copy of an encoding.
pub(crate) fn copy_bytes(v: &Vec<u8>) -> (r: Vec<u8>)
    ensures
        r@ == v@,
{
    let mut out: Vec<u8> = Vec::new();
    let mut i: usize = 0;
    while i < v.len()
        invariant
            i <= v@.len(),
            out@ == v@.take(i as int),
        decreases v@.len() - i,
    {
        out.push(v[i]);
        i = i + 1;
    }
    proof {
        assert(v@.take(v@.len() as int) =~= v@);
    }
    out
}

/// The 32 zero bytes that encode the scalar zero.
pub(crate) fn zero_scalar_vec() -> (r: Vec<u8>)
    ensures
        r@ == zero_scalar_bytes(),
        r@.len() == 32,
{
    let mut v: Vec<u8> = Vec::new();
    let mut i: usize = 0;
    while i < 32
        invariant
            i <= 32,
            v@.len() == i,
            forall|j: int| 0 <= j < i ==> v@[j] == 0u8,
        decreases 32 - i,
    {
        v.push(0u8);
        i = i + 1;
    }
    proof {
        assert(v@ =~= zero_scalar_bytes());
    }
    v
}

} // verus!
