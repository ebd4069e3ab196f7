//! Public-value digests and the small utilities of a recursive STARK prover:
//! binding digests over public values, word and byte conversions, bounded
//! windows over sequences of work items, and the stage pipeline that checks
//! every digest before the values it covers are consumed.

pub mod field;
pub mod words;
pub mod public_values;
pub mod digest;
pub mod ranged;
pub mod proofs;
pub mod components;
pub mod pipeline;
