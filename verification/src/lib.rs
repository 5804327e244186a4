//! Zero-knowledge ballot validity proofs for three voting rules: rated
//! voting under a public budget, rated voting within a symmetric score
//! range, and ranked voting against a canonical ranking.  Each scheme
//! exposes `setup`, a proof generator and a proof verifier; the domain
//! checks, the commitment algebra that binds the sub-proofs together, and
//! the exact conditions under which a proof is issued or accepted are
//! stated in the functions' contracts.

pub mod chunking;
pub mod commitment;
pub mod curve;
pub mod errors;
pub mod max_budget;
pub mod no_budget;
pub mod range_proof;
pub mod ranked_voting;
