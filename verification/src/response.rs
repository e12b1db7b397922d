//! The decoded shape of one quote.
//!
//! The service quotes base fee, priority fee and maximum fee as decimal gwei
//! with two places. They are held here as whole hundredths of a gwei, so that
//! every figure of a quote is an integer.

use vstd::prelude::*;

verus! {

/// One confidence tier of a block's estimate.
#[derive(Clone, Copy, Debug, PartialEq, Eq, Structural)]
pub struct EstimatedPrice {
    /// Percentile, 0 to 100, with which a transaction at this price is included.
    pub confidence: u64,
    /// The composite price of the tier.
    pub price: u64,
    /// The tier's maximum priority fee per gas, in hundredths of a gwei.
    pub max_priority_fee_per_gas: u64,
    /// The tier's maximum fee per gas, in hundredths of a gwei.
    pub max_fee_per_gas: u64,
}

/// The estimate for one upcoming block.
#[derive(Clone, Debug, PartialEq, Eq)]
pub struct BlockPrice {
    pub block_number: u64,
    pub estimated_transaction_count: u64,
    /// The block's base fee per gas, in hundredths of a gwei.
    pub base_fee_per_gas: u64,
    /// The confidence tiers, in the order the service gave them.
    pub estimated_prices: Vec<EstimatedPrice>,
}

/// One whole quote. The most recent estimate is the last of `block_prices`.
#[derive(Clone, Debug, PartialEq, Eq)]
pub struct BlockNativeGasResponse {
    pub system: Option<String>,
    pub network: Option<String>,
    pub unit: Option<String>,
    pub max_price: Option<u64>,
    pub block_prices: Vec<BlockPrice>,
}

/// The tiers of a block carry pairwise different confidences.
pub open spec fn distinct_confidences(tiers: Seq<EstimatedPrice>) -> bool {
    forall|i: int, j: int|
        0 <= i < j < tiers.len() ==> (#[trigger] tiers[i]).confidence != (#[trigger] tiers[j]).confidence
}

impl BlockPrice {
    /// The block's tiers as a sequence.
    pub open spec fn tiers(&self) -> Seq<EstimatedPrice> {
        self.estimated_prices@
    }
}

impl BlockNativeGasResponse {
    /// The quote's blocks as a sequence, oldest first.
    pub open spec fn blocks(&self) -> Seq<BlockPrice> {
        self.block_prices@
    }

    /// Every block of the quote has pairwise different confidences.
    pub open spec fn well_formed(&self) -> bool {
        forall|b: int| 0 <= b < self.blocks().len() ==> distinct_confidences(#[trigger] self.blocks()[b].tiers())
    }
}

} // verus!
