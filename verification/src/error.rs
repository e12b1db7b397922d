//! What can be wrong with a decoded quote.

use vstd::prelude::*;

verus! {

/// A well-formed quote that lacks what an estimate needs.
#[derive(Clone, Copy, Debug, PartialEq, Eq, Structural)]
pub enum GasOracleError {
    /// The quote lists no block at all.
    NoBlockPrices,
    /// The latest block of the quote has no tier at the wanted confidence.
    NoMatchingTier,
}

} // verus!
