//! The two failure kinds of genesis construction.

use vstd::prelude::*;

verus! {

/// Everything here either fully succeeds or fails with one of these.
#[derive(Clone, Copy, Debug, PartialEq, Eq)]
pub enum MintError {
    /// The random source or the keypair provider could not produce key
    /// material at construction time; genesis cannot proceed.
    KeyGeneration,
    /// Stored secret material could not be parsed back into a usable keypair,
    /// or a serialized mint record failed validation; this signals data
    /// corruption and is not retryable.
    Reconstitution,
}

} // verus!
