//! The field names that the upstream source uses for each record kind.
use vstd::prelude::*;

verus! {

/// Field names of a depth-history interval.
pub open spec fn depth_history_fields() -> Seq<Seq<char>> {
    seq![
        "startTime"@,
        "endTime"@,
        "assetDepth"@,
        "runeDepth"@,
        "assetPrice"@,
        "assetPriceUSD"@,
        "liquidityUnits"@,
        "membersCount"@,
        "synthUnits"@,
        "synthSupply"@,
        "units"@,
        "luvi"@,
    ]
}

/// Field names of a rune-pool-history interval.
pub open spec fn rune_pool_history_fields() -> Seq<Seq<char>> {
    seq!["startTime"@, "endTime"@, "count"@, "units"@]
}

/// Field names of a swaps-history interval.
pub open spec fn swaps_history_fields() -> Seq<Seq<char>> {
    seq![
        "startTime"@,
        "endTime"@,
        "toAssetCount"@,
        "toRuneCount"@,
        "toTradeCount"@,
        "fromTradeCount"@,
        "synthMintCount"@,
        "synthRedeemCount"@,
        "totalCount"@,
        "toAssetVolume"@,
        "toRuneVolume"@,
        "toTradeVolume"@,
        "fromTradeVolume"@,
        "synthMintVolume"@,
        "synthRedeemVolume"@,
        "totalVolume"@,
        "toAssetVolumeUSD"@,
        "toRuneVolumeUSD"@,
        "toTradeVolumeUSD"@,
        "fromTradeVolumeUSD"@,
        "synthMintVolumeUSD"@,
        "synthRedeemVolumeUSD"@,
        "totalVolumeUSD"@,
        "toAssetFees"@,
        "toRuneFees"@,
        "toTradeFees"@,
        "fromTradeFees"@,
        "synthMintFees"@,
        "synthRedeemFees"@,
        "totalFees"@,
        "toAssetAverageSlip"@,
        "toRuneAverageSlip"@,
        "toTradeAverageSlip"@,
        "fromTradeAverageSlip"@,
        "synthMintAverageSlip"@,
        "synthRedeemAverageSlip"@,
        "averageSlip"@,
        "runePriceUSD"@,
    ]
}

/// The text of each name.
pub open spec fn texts(names: Seq<&str>) -> Seq<Seq<char>> {
    names.map_values(|n: &str| n@)
}

/// Whether `field` is one of `names`.
fn is_one_of(names: &Vec<&str>, field: &str) -> (r: bool)
    ensures
        r == texts(names@).contains(field@),
{
    let f = field.to_owned();
    let mut i: usize = 0;
    while i < names.len()
        invariant
            i <= names.len(),
            f@ == field@,
            forall|j: int| 0 <= j < i ==> names@[j]@ != field@,
        decreases names.len() - i,
    {
        let n = names[i].to_owned();
        if n == f {
            assert(texts(names@)[i as int] == field@);
            return true;
        }
        i = i + 1;
    }
    assert(!texts(names@).contains(field@)) by {
        if texts(names@).contains(field@) {
            let j = choose|j: int| 0 <= j < texts(names@).len() && texts(names@)[j] == field@;
            assert(names@[j]@ == field@);
        }
    }
    false
}

/// Whether `field` names a field of a depth-history interval.
pub fn depth_history_has_field(field: &str) -> (r: bool)
    ensures
        r == depth_history_fields().contains(field@),
{
    let names = vec![
        "startTime",
        "endTime",
        "assetDepth",
        "runeDepth",
        "assetPrice",
        "assetPriceUSD",
        "liquidityUnits",
        "membersCount",
        "synthUnits",
        "synthSupply",
        "units",
        "luvi",
    ];
    assert(texts(names@) =~= depth_history_fields());
    is_one_of(&names, field)
}

/// Whether `field` names a field of a rune-pool-history interval.
pub fn rune_pool_history_has_field(field: &str) -> (r: bool)
    ensures
        r == rune_pool_history_fields().contains(field@),
{
    let names = vec!["startTime", "endTime", "count", "units"];
    assert(texts(names@) =~= rune_pool_history_fields());
    is_one_of(&names, field)
}

/// Whether `field` names a field of a swaps-history interval.
pub fn swaps_history_has_field(field: &str) -> (r: bool)
    ensures
        r == swaps_history_fields().contains(field@),
{
    let names = vec![
        "startTime",
        "endTime",
        "toAssetCount",
        "toRuneCount",
        "toTradeCount",
        "fromTradeCount",
        "synthMintCount",
        "synthRedeemCount",
        "totalCount",
        "toAssetVolume",
        "toRuneVolume",
        "toTradeVolume",
        "fromTradeVolume",
        "synthMintVolume",
        "synthRedeemVolume",
        "totalVolume",
        "toAssetVolumeUSD",
        "toRuneVolumeUSD",
        "toTradeVolumeUSD",
        "fromTradeVolumeUSD",
        "synthMintVolumeUSD",
        "synthRedeemVolumeUSD",
        "totalVolumeUSD",
        "toAssetFees",
        "toRuneFees",
        "toTradeFees",
        "fromTradeFees",
        "synthMintFees",
        "synthRedeemFees",
        "totalFees",
        "toAssetAverageSlip",
        "toRuneAverageSlip",
        "toTradeAverageSlip",
        "fromTradeAverageSlip",
        "synthMintAverageSlip",
        "synthRedeemAverageSlip",
        "averageSlip",
        "runePriceUSD",
    ];
    assert(texts(names@) =~= swaps_history_fields());
    is_one_of(&names, field)
}

} // verus!
