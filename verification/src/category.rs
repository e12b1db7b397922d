//! The urgency tiers a caller can ask for.

use vstd::prelude::*;

verus! {

/// How urgently a transaction should be included.
#[derive(Clone, Copy, Debug, PartialEq, Eq, Structural)]
pub enum GasCategory {
    SafeLow,
    Standard,
    Fast,
    Fastest,
}

/// The confidence percentile that each category stands for.
pub open spec fn confidence_of(gas_category: GasCategory) -> u64 {
    match gas_category {
        GasCategory::SafeLow => 80,
        GasCategory::Standard => 90,
        GasCategory::Fast => 95,
        GasCategory::Fastest => 99,
    }
}

/// Maps a category to its confidence percentile.
pub fn gas_category_to_confidence(gas_category: GasCategory) -> (confidence: u64)
    ensures
        confidence == confidence_of(gas_category),
{
    match gas_category {
        GasCategory::SafeLow => 80,
        GasCategory::Standard => 90,
        GasCategory::Fast => 95,
        GasCategory::Fastest => 99,
    }
}

/// Every confidence is a percentile, and no two categories share one.
pub proof fn lemma_confidence_distinct(a: GasCategory, b: GasCategory)
    ensures
        confidence_of(a) <= 100,
        confidence_of(a) == confidence_of(b) <==> a == b,
{
}

} // verus!
