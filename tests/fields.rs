use database_metrics::fields::{
    depth_history_has_field, rune_pool_history_has_field, swaps_history_has_field,
};

#[test]
fn depth_history_fields_are_recognised() {
    assert!(depth_history_has_field("startTime"));
    assert!(depth_history_has_field("assetPriceUSD"));
    assert!(depth_history_has_field("luvi"));
    assert!(!depth_history_has_field("asset_price_usd"));
    assert!(!depth_history_has_field("count"));
    assert!(!depth_history_has_field(""));
}

#[test]
fn rune_pool_history_fields_are_recognised() {
    assert!(rune_pool_history_has_field("count"));
    assert!(rune_pool_history_has_field("units"));
    assert!(!rune_pool_history_has_field("luvi"));
    assert!(!rune_pool_history_has_field("Count"));
}

#[test]
fn swaps_history_fields_are_recognised() {
    assert!(swaps_history_has_field("runePriceUSD"));
    assert!(swaps_history_has_field("synthRedeemAverageSlip"));
    assert!(swaps_history_has_field("totalVolumeUSD"));
    assert!(!swaps_history_has_field("runePriceUsd"));
    assert!(!swaps_history_has_field("assetDepth"));
}
