use gas_oracle::category::{gas_category_to_confidence, GasCategory};
use gas_oracle::error::GasOracleError;
use gas_oracle::response::{BlockNativeGasResponse, BlockPrice, EstimatedPrice};
use gas_oracle::select::{find_confidence, select_tier};

fn tier(confidence: u64, price: u64) -> EstimatedPrice {
    EstimatedPrice {
        confidence,
        price,
        max_priority_fee_per_gas: price * 10,
        max_fee_per_gas: price * 100,
    }
}

fn block(number: u64, tiers: Vec<EstimatedPrice>) -> BlockPrice {
    BlockPrice {
        block_number: number,
        estimated_transaction_count: 150,
        base_fee_per_gas: 1234,
        estimated_prices: tiers,
    }
}

fn quote(blocks: Vec<BlockPrice>) -> BlockNativeGasResponse {
    BlockNativeGasResponse {
        system: Some(String::from("ethereum")),
        network: Some(String::from("main")),
        unit: Some(String::from("gwei")),
        max_price: Some(200),
        block_prices: blocks,
    }
}

fn four_tiers() -> Vec<EstimatedPrice> {
    vec![tier(80, 10), tier(90, 20), tier(95, 30), tier(99, 40)]
}

#[test]
fn confidence_table_is_fixed() {
    assert_eq!(gas_category_to_confidence(GasCategory::SafeLow), 80);
    assert_eq!(gas_category_to_confidence(GasCategory::Standard), 90);
    assert_eq!(gas_category_to_confidence(GasCategory::Fast), 95);
    assert_eq!(gas_category_to_confidence(GasCategory::Fastest), 99);
}

#[test]
fn fast_selects_the_tier_at_95() {
    let response = quote(vec![block(1, four_tiers())]);
    let selected = select_tier(&response, GasCategory::Fast).unwrap();
    assert_eq!(selected.confidence, 95);
    assert_eq!(selected.price, 30);
    assert_eq!(selected, tier(95, 30));
}

#[test]
fn each_category_selects_its_own_tier() {
    let response = quote(vec![block(1, four_tiers())]);
    assert_eq!(select_tier(&response, GasCategory::SafeLow), Ok(tier(80, 10)));
    assert_eq!(select_tier(&response, GasCategory::Standard), Ok(tier(90, 20)));
    assert_eq!(select_tier(&response, GasCategory::Fast), Ok(tier(95, 30)));
    assert_eq!(select_tier(&response, GasCategory::Fastest), Ok(tier(99, 40)));
}

#[test]
fn selection_uses_the_last_block() {
    let first = vec![tier(80, 1), tier(90, 2), tier(95, 3), tier(99, 4)];
    let middle = vec![tier(80, 5), tier(90, 6), tier(95, 7), tier(99, 8)];
    let response = quote(vec![block(1, first), block(2, middle), block(3, four_tiers())]);
    let selected = select_tier(&response, GasCategory::Standard).unwrap();
    assert_eq!(selected.price, 20);
    assert_ne!(selected.price, 2);
}

#[test]
fn last_block_decides_even_when_an_earlier_one_has_the_tier() {
    let last = vec![tier(80, 10), tier(90, 20), tier(99, 40)];
    let response = quote(vec![block(1, four_tiers()), block(2, last)]);
    assert_eq!(select_tier(&response, GasCategory::Fast), Err(GasOracleError::NoMatchingTier));
    assert_eq!(select_tier(&response, GasCategory::Fastest), Ok(tier(99, 40)));
}

#[test]
fn empty_quote_is_a_data_error() {
    let response = quote(Vec::new());
    assert_eq!(select_tier(&response, GasCategory::Standard), Err(GasOracleError::NoBlockPrices));
}

#[test]
fn missing_tier_is_a_data_error() {
    let tiers = vec![tier(80, 10), tier(90, 20), tier(99, 40)];
    let response = quote(vec![block(1, tiers)]);
    assert_eq!(select_tier(&response, GasCategory::Fast), Err(GasOracleError::NoMatchingTier));
}

#[test]
fn block_without_tiers_is_a_data_error() {
    let response = quote(vec![block(1, Vec::new())]);
    assert_eq!(select_tier(&response, GasCategory::SafeLow), Err(GasOracleError::NoMatchingTier));
}

#[test]
fn first_of_two_equal_confidences_is_found() {
    let tiers = vec![tier(90, 20), tier(95, 30), tier(95, 31)];
    assert_eq!(find_confidence(&tiers, 95), Some(tier(95, 30)));
    assert_eq!(find_confidence(&tiers, 90), Some(tier(90, 20)));
    assert_eq!(find_confidence(&tiers, 70), None);
    assert_eq!(find_confidence(&Vec::new(), 95), None);
}
