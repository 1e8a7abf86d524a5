//! Error taxonomy of the replay core.

use vstd::prelude::*;

verus! {

/// A structured outcome category; the block builder aborts the whole run on
/// the first fatal condition and never emits partial state.
#[derive(Clone, Copy, Debug, PartialEq, Eq, Structural)]
pub enum Error {
    /// Network or cache I/O failure; retryable at the provider boundary.
    ProviderFailure,
    /// Missing or contradictory account/storage data; always fatal.
    DatabaseInconsistency,
    /// Malformed or unsupported transaction essence; fatal for the block.
    InvalidTransaction,
    /// Balance overflow or underflow; always fatal, never clamped.
    ArithmeticInvariantViolation,
}

impl Error {
    /// A short human-readable category name.
    pub fn describe(&self) -> (r: &'static str)
    {
        match self {
            Error::ProviderFailure => "provider failure",
            Error::DatabaseInconsistency => "database inconsistency",
            Error::InvalidTransaction => "invalid transaction",
            Error::ArithmeticInvariantViolation => "arithmetic invariant violation",
        }
    }
}

} // verus!
