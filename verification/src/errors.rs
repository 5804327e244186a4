use vstd::prelude::*;

verus! {

/// The ways a ballot-validity operation can fail before or during proof
/// construction. `verify` never returns one of these: a verifier must not
/// fail loudly on adversarial input, so it degrades to a boolean instead.
#[derive(Clone, Copy, Debug, PartialEq, Eq, Structural)]
pub enum VotingError {
    /// The configuration handed to `setup` is unusable: a ballot size that is
    /// not a power of two, or an empty, inverted, or asymmetric score range.
    ConfigurationError,
    /// The ballot's length differs from the configured ballot size.
    InputLengthMismatch,
    /// A vote value lies outside the domain the proof system can express,
    /// found by checked arithmetic before any proof is attempted.
    DomainViolation,
    /// The ranked ballot is not a bijective rearrangement of the canonical
    /// ranking: it repeats a value or contains one the ranking lacks.
    PermutationError,
    /// The range-proof or permutation-argument backend itself failed to
    /// construct a proof; this does not happen for in-domain inputs.
    BackendProofError,
}

} // verus!
