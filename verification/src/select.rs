//! Choosing the tier of a quote that answers a category.

use crate::category::{confidence_of, gas_category_to_confidence, GasCategory};
use crate::error::GasOracleError;
use crate::response::{distinct_confidences, BlockNativeGasResponse, EstimatedPrice};
use vstd::prelude::*;

verus! {

/// The first tier of `tiers` with the given confidence, if there is one.
pub open spec fn find_tier(tiers: Seq<EstimatedPrice>, confidence: u64) -> Option<EstimatedPrice>
    decreases tiers.len(),
{
    if tiers.len() == 0 {
        None
    } else if tiers[0].confidence == confidence {
        Some(tiers[0])
    } else {
        find_tier(tiers.drop_first(), confidence)
    }
}

/// Position `i` holds the first tier of `tiers` with the given confidence.
pub open spec fn is_first_match(tiers: Seq<EstimatedPrice>, confidence: u64, i: int) -> bool {
    &&& 0 <= i < tiers.len()
    &&& tiers[i].confidence == confidence
    &&& forall|j: int| 0 <= j < i ==> (#[trigger] tiers[j]).confidence != confidence
}

/// The tier that answers `gas_category` in a quote: the first tier at the
/// category's confidence in the last block, or the reason there is none.
pub open spec fn selected_tier(
    response: &BlockNativeGasResponse,
    gas_category: GasCategory,
) -> Result<EstimatedPrice, GasOracleError> {
    if response.blocks().len() == 0 {
        Err(GasOracleError::NoBlockPrices)
    } else {
        match find_tier(response.blocks().last().tiers(), confidence_of(gas_category)) {
            Some(tier) => Ok(tier),
            None => Err(GasOracleError::NoMatchingTier),
        }
    }
}

/// `find_tier` answers with the tier at the first matching position, and
/// with nothing exactly when no tier has the confidence.
pub proof fn lemma_find_tier_first(tiers: Seq<EstimatedPrice>, confidence: u64)
    ensures
        match find_tier(tiers, confidence) {
            Some(tier) => exists|i: int| is_first_match(tiers, confidence, i) && tiers[i] == tier,
            None => forall|i: int| 0 <= i < tiers.len() ==> (#[trigger] tiers[i]).confidence != confidence,
        },
    decreases tiers.len(),
{
    if tiers.len() == 0 {
    } else if tiers[0].confidence == confidence {
        assert(is_first_match(tiers, confidence, 0));
    } else {
        let rest = tiers.drop_first();
        lemma_find_tier_first(rest, confidence);
        match find_tier(rest, confidence) {
            Some(tier) => {
                let i = choose|i: int| is_first_match(rest, confidence, i) && rest[i] == tier;
                assert forall|j: int| 0 <= j < i + 1 implies (#[trigger] tiers[j]).confidence
                    != confidence by {
                    if j > 0 {
                        assert(tiers[j] == rest[j - 1]);
                    }
                }
                assert(tiers[i + 1] == rest[i]);
                assert(is_first_match(tiers, confidence, i + 1));
            },
            None => {
                assert forall|i: int| 0 <= i < tiers.len() implies (#[trigger] tiers[i]).confidence
                    != confidence by {
                    if i > 0 {
                        assert(tiers[i] == rest[i - 1]);
                    }
                }
            },
        }
    }
}

/// Where a block's confidences are pairwise different, the tier found is the
/// only one at that confidence: any position that matches holds it.
pub proof fn lemma_find_tier_unique(tiers: Seq<EstimatedPrice>, confidence: u64, i: int)
    requires
        distinct_confidences(tiers),
        0 <= i < tiers.len(),
        tiers[i].confidence == confidence,
    ensures
        find_tier(tiers, confidence) == Some(tiers[i]),
{
    lemma_find_tier_first(tiers, confidence);
    match find_tier(tiers, confidence) {
        Some(tier) => {
            let k = choose|k: int| is_first_match(tiers, confidence, k) && tiers[k] == tier;
            if k < i {
                assert(tiers[k].confidence != tiers[i].confidence);
            } else if i < k {
                assert(tiers[i].confidence != tiers[k].confidence);
            }
        },
        None => {
            assert(tiers[i].confidence != confidence);
        },
    }
}

/// A tier that is selected stands in the last block of the quote, at the
/// category's confidence, with no tier of that confidence before it.
pub proof fn lemma_selected_tier_sound(response: &BlockNativeGasResponse, gas_category: GasCategory)
    ensures
        match selected_tier(response, gas_category) {
            Ok(tier) => {
                &&& response.blocks().len() > 0
                &&& exists|i: int|
                    is_first_match(response.blocks().last().tiers(), confidence_of(gas_category), i)
                        && response.blocks().last().tiers()[i] == tier
            },
            Err(GasOracleError::NoBlockPrices) => response.blocks().len() == 0,
            Err(GasOracleError::NoMatchingTier) => {
                &&& response.blocks().len() > 0
                &&& forall|i: int|
                    0 <= i < response.blocks().last().tiers().len() ==> (
                    #[trigger] response.blocks().last().tiers()[i]).confidence != confidence_of(
                        gas_category,
                    )
            },
        },
{
    if response.blocks().len() > 0 {
        lemma_find_tier_first(response.blocks().last().tiers(), confidence_of(gas_category));
    }
}

/// In a well-formed quote with at least one block, a tier of the last block
/// at the category's confidence is the one selected, wherever it stands.
pub proof fn lemma_selected_tier_unique(
    response: &BlockNativeGasResponse,
    gas_category: GasCategory,
    i: int,
)
    requires
        response.well_formed(),
        response.blocks().len() > 0,
        0 <= i < response.blocks().last().tiers().len(),
        response.blocks().last().tiers()[i].confidence == confidence_of(gas_category),
    ensures
        selected_tier(response, gas_category) == Ok::<EstimatedPrice, GasOracleError>(
            response.blocks().last().tiers()[i],
        ),
{
    let last = response.blocks().len() - 1;
    assert(distinct_confidences(response.blocks()[last].tiers()));
    lemma_find_tier_unique(response.blocks().last().tiers(), confidence_of(gas_category), i);
}

/// Selection reads the last block of a quote and no other: two quotes whose
/// last blocks carry the same tiers select alike.
pub proof fn lemma_selection_reads_last_block(
    a: &BlockNativeGasResponse,
    b: &BlockNativeGasResponse,
    gas_category: GasCategory,
)
    requires
        a.blocks().len() > 0,
        b.blocks().len() > 0,
        a.blocks().last().tiers() == b.blocks().last().tiers(),
    ensures
        selected_tier(a, gas_category) == selected_tier(b, gas_category),
{
}

/// Scans `tiers` for the first entry with the given confidence.
pub fn find_confidence(tiers: &Vec<EstimatedPrice>, confidence: u64) -> (found: Option<EstimatedPrice>)
    ensures
        found == find_tier(tiers@, confidence),
{
    let mut i: usize = 0;
    assert(tiers@.skip(0) =~= tiers@);
    while i < tiers.len()
        invariant
            i <= tiers.len(),
            find_tier(tiers@, confidence) == find_tier(tiers@.skip(i as int), confidence),
        decreases tiers.len() - i,
    {
        let tier = tiers[i];
        proof {
            let rest = tiers@.skip(i as int);
            assert(rest[0] == tiers@[i as int]);
            assert(rest.drop_first() =~= tiers@.skip(i + 1));
        }
        if tier.confidence == confidence {
            return Some(tier);
        }
        i += 1;
    }
    assert(tiers@.skip(i as int).len() == 0);
    None
}

/// Selects the tier of `response` that answers `gas_category`.
///
/// An empty quote is refused with `NoBlockPrices`; a latest block without the
/// category's confidence is refused with `NoMatchingTier`.
pub fn select_tier(response: &BlockNativeGasResponse, gas_category: GasCategory) -> (selected: Result<
    EstimatedPrice,
    GasOracleError,
>)
    ensures
        selected == selected_tier(response, gas_category),
{
    let n: usize = response.block_prices.len();
    if n == 0 {
        return Err(GasOracleError::NoBlockPrices);
    }
    let confidence: u64 = gas_category_to_confidence(gas_category);
    match find_confidence(&response.block_prices[n - 1].estimated_prices, confidence) {
        Some(tier) => Ok(tier),
        None => Err(GasOracleError::NoMatchingTier),
    }
}

} // verus!
