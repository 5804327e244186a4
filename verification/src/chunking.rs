use vstd::prelude::*;

verus! {

/// A positive integer is a power of two exactly when halving it repeatedly
/// reaches one without ever passing through an odd number.
pub open spec fn spec_is_power_of_two(n: int) -> bool
    decreases n,
{
    if n <= 0 {
        false
    } else if n == 1 {
        true
    } else {
        n % 2 == 0 && spec_is_power_of_two(n / 2)
    }
}

/// The largest power of two that is at most `n`, with `0` for `n == 0`.
pub open spec fn spec_largest_power_of_two(n: nat) -> nat
    decreases n,
{
    if n < 2 {
        n
    } else {
        2 * spec_largest_power_of_two(n / 2)
    }
}

/// How a ballot splits into maximal power-of-two-sized chunks, front to back.
pub open spec fn spec_chunks(s: Seq<u64>) -> Seq<Seq<u64>>
    decreases s.len(),
    via spec_chunks_decreases
{
    if s.len() == 0 {
        Seq::empty()
    } else {
        let k = spec_largest_power_of_two(s.len()) as int;
        seq![s.take(k)] + spec_chunks(s.skip(k))
    }
}

#[via_fn]
proof fn spec_chunks_decreases(s: Seq<u64>) {
    if s.len() > 0 {
        lemma_largest_power_of_two_properties(s.len());
    }
}

proof fn lemma_bitand_characterizes_power_of_two(m: u64)
    requires
        m > 0,
    ensures
        ((m & ((m - 1) as u64)) == 0) <==> spec_is_power_of_two(m as int),
    decreases m,
{
    if m == 1 {
        assert((1u64 & 0u64) == 0) by (bit_vector);
    } else if m % 2 == 1 {
        assert((m & ((m - 1) as u64)) != 0) by (bit_vector)
            requires
                m % 2 == 1 && m > 1,
        ;
    } else {
        let h = m / 2;
        assert(h > 0 && ((m & ((m - 1) as u64)) == 0) == ((h & ((h - 1) as u64)) == 0))
            by (bit_vector)
            requires
                m % 2 == 0 && m > 1 && h == m / 2,
        ;
        lemma_bitand_characterizes_power_of_two(h);
    }
}

/// Whether `n` is a power of two, by the usual single-bit test.
pub fn is_power_of_two(n: usize) -> (r: bool)
    requires
        n > 0,
    ensures
        r == spec_is_power_of_two(n as int),
{
    let m: u64 = n as u64;
    proof {
        lemma_bitand_characterizes_power_of_two(m);
    }
    (m & (m - 1)) == 0
}

proof fn lemma_largest_power_of_two_properties(n: nat)
    requires
        n > 0,
    ensures
        spec_is_power_of_two(spec_largest_power_of_two(n) as int),
        spec_largest_power_of_two(n) <= n,
        n < 2 * spec_largest_power_of_two(n),
    decreases n,
{
    if n >= 2 {
        lemma_largest_power_of_two_properties(n / 2);
    }
}

proof fn lemma_largest_power_of_two_unique(n: nat, p: nat)
    requires
        spec_is_power_of_two(p as int),
        p <= n,
        n < 2 * p,
    ensures
        p == spec_largest_power_of_two(n),
    decreases n,
{
    if n < 2 {
        // p is a positive power of two at most n == 1, so p == 1 == n.
    } else {
        if p == 1 {
            assert(n < 2);
        }
        assert(p % 2 == 0 && spec_is_power_of_two((p / 2) as int));
        assert(p / 2 <= n / 2);
        assert(n / 2 < p) by {
            assert(n <= 2 * p - 1);
        }
        assert(n / 2 < 2 * (p / 2));
        lemma_largest_power_of_two_unique(n / 2, p / 2);
    }
}

/// The largest power of two that is at most `n`; `0` when `n` is `0`.
pub fn largest_power_of_two_smaller_than_or_equal(n: usize) -> (r: usize)
    ensures
        r == spec_largest_power_of_two(n as nat),
{
    if n == 0 {
        return 0;
    }
    let mut p: usize = 1;
    while p <= n / 2
        invariant
            1 <= p <= n,
            spec_is_power_of_two(p as int),
        decreases n - p,
    {
        assert(2 * p <= n);
        p = p * 2;
    }
    proof {
        assert(n < 2 * p) by {
            assert(p > n / 2);
        }
        lemma_largest_power_of_two_unique(n as nat, p as nat);
    }
    p
}

/// Split a ballot, front to back, into chunks whose sizes are the largest
/// powers of two that fit in what remains; an aggregated range proof wants
/// power-of-two batches, so an odd-sized ballot is proved chunk by chunk.
pub fn chunk(ballot: Vec<u64>) -> (r: Vec<Vec<u64>>)
    ensures
        r.deep_view() == spec_chunks(ballot@),
{
    let mut start: usize = 0;
    let length: usize = ballot.len();
    let mut chunked_ballots: Vec<Vec<u64>> = Vec::new();

    proof {
        assert(ballot@.skip(0) =~= ballot@);
        assert(chunked_ballots.deep_view() =~~= Seq::<Seq<u64>>::empty());
        assert(Seq::<Seq<u64>>::empty() + spec_chunks(ballot@) =~~= spec_chunks(ballot@));
    }
    while start < length
        invariant
            start <= length,
            length == ballot@.len(),
            spec_chunks(ballot@) == chunked_ballots.deep_view() + spec_chunks(
                ballot@.skip(start as int),
            ),
        decreases length - start,
    {
        let remaining_length: usize = length - start;
        let chunk_size: usize = largest_power_of_two_smaller_than_or_equal(remaining_length);
        proof {
            lemma_largest_power_of_two_properties(remaining_length as nat);
        }
        let mut piece: Vec<u64> = Vec::new();
        let mut j: usize = start;
        while j < start + chunk_size
            invariant
                start <= j <= start + chunk_size,
                start + chunk_size <= length,
                length == ballot@.len(),
                piece@ == ballot@.subrange(start as int, j as int),
            decreases start + chunk_size - j,
        {
            piece.push(ballot[j]);
            j = j + 1;
        }
        let ghost prev = chunked_ballots.deep_view();
        let ghost piece_view = piece@;
        chunked_ballots.push(piece);
        proof {
            let rest = ballot@.skip(start as int);
            assert(rest.len() == remaining_length);
            assert(piece_view =~= rest.take(chunk_size as int));
            assert(rest.skip(chunk_size as int) =~= ballot@.skip(
                (start + chunk_size) as int,
            ));
            assert(spec_chunks(rest) == seq![rest.take(chunk_size as int)] + spec_chunks(
                rest.skip(chunk_size as int),
            ));
            assert(chunked_ballots.deep_view() =~~= prev + seq![piece_view]);
            assert(chunked_ballots.deep_view() + spec_chunks(
                ballot@.skip((start + chunk_size) as int),
            ) =~~= prev + spec_chunks(ballot@.skip(start as int)));
        }
        start = start + chunk_size;
    }
    proof {
        assert(spec_chunks(ballot@.skip(start as int)) =~~= Seq::<Seq<u64>>::empty());
        assert(chunked_ballots.deep_view() + Seq::<Seq<u64>>::empty()
            =~~= chunked_ballots.deep_view());
    }
    chunked_ballots
}

} // verus!
