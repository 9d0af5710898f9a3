use position_management::tiers::{get_leverage_tier, LeverageTier, LeverageTierTable};
use position_management::ErrorCode;

fn tier(max_leverage: u16, initial: u32, maintenance: u32, max_position_size: u64) -> LeverageTier {
    LeverageTier {
        max_leverage,
        initial_margin_rate: initial,
        maintenance_margin_rate: maintenance,
        max_position_size,
    }
}

#[test]
fn standard_table_has_five_tiers_in_ascending_order() {
    let table = LeverageTierTable::standard();
    let tiers = table.to_vec();
    assert_eq!(tiers.len(), 5);
    assert_eq!(table.len(), 5);
    for pair in tiers.windows(2) {
        assert!(pair[0].max_leverage < pair[1].max_leverage);
    }
    assert_eq!(tiers[0], tier(20, 500, 250, u64::MAX));
    assert_eq!(tiers[1], tier(50, 200, 100, 100_000));
    assert_eq!(tiers[2], tier(100, 100, 50, 50_000));
    assert_eq!(tiers[3], tier(500, 50, 25, 20_000));
    assert_eq!(tiers[4], tier(1000, 20, 10, 5_000));
    assert_eq!(table.max_leverage(), 1000);
}

#[test]
fn standard_table_rates_are_ordered() {
    for t in LeverageTierTable::standard().to_vec() {
        assert!(t.is_valid());
        assert!(0 < t.maintenance_margin_rate);
        assert!(t.maintenance_margin_rate < t.initial_margin_rate);
        assert!(t.initial_margin_rate <= 10_000);
    }
}

#[test]
fn tier_lookup_by_index() {
    let table = LeverageTierTable::standard();
    assert_eq!(table.tier(0), Some(tier(20, 500, 250, u64::MAX)));
    assert_eq!(table.tier(4), Some(tier(1000, 20, 10, 5_000)));
    assert_eq!(table.tier(5), None);
}

#[test]
fn resolve_returns_first_qualifying_tier() {
    assert_eq!(get_leverage_tier(1, 1), Ok(tier(20, 500, 250, u64::MAX)));
    assert_eq!(get_leverage_tier(20, u64::MAX), Ok(tier(20, 500, 250, u64::MAX)));
    assert_eq!(get_leverage_tier(21, 100_000), Ok(tier(50, 200, 100, 100_000)));
    assert_eq!(get_leverage_tier(50, 1), Ok(tier(50, 200, 100, 100_000)));
    assert_eq!(get_leverage_tier(51, 50_000), Ok(tier(100, 100, 50, 50_000)));
    assert_eq!(get_leverage_tier(101, 20_000), Ok(tier(500, 50, 25, 20_000)));
    assert_eq!(get_leverage_tier(501, 5_000), Ok(tier(1000, 20, 10, 5_000)));
    assert_eq!(get_leverage_tier(1000, 5_000), Ok(tier(1000, 20, 10, 5_000)));
}

#[test]
fn resolve_prefers_the_lower_tier_whatever_the_size() {
    // Leverage 10 qualifies for every tier by leverage; the first one wins.
    assert_eq!(get_leverage_tier(10, 200_000), Ok(tier(20, 500, 250, u64::MAX)));
    assert_eq!(get_leverage_tier(10, 1), Ok(tier(20, 500, 250, u64::MAX)));
}

#[test]
fn resolve_above_the_ceiling_is_tier_exceeded() {
    assert_eq!(get_leverage_tier(1001, 1), Err(ErrorCode::TierExceeded));
    assert_eq!(get_leverage_tier(u16::MAX, 1), Err(ErrorCode::TierExceeded));
}

#[test]
fn resolve_with_too_large_a_size_is_tier_exceeded() {
    assert_eq!(get_leverage_tier(21, 100_001), Err(ErrorCode::TierExceeded));
    assert_eq!(get_leverage_tier(1000, 5_001), Err(ErrorCode::TierExceeded));
    assert_eq!(get_leverage_tier(100, 50_001), Err(ErrorCode::TierExceeded));
}

#[test]
fn resolve_is_deterministic() {
    let table = LeverageTierTable::standard();
    for leverage in [0u16, 1, 20, 21, 50, 99, 100, 500, 1000, 1001] {
        for size in [0u64, 1, 5_000, 5_001, 50_000, 100_000, 100_001, u64::MAX] {
            assert_eq!(table.resolve(leverage, size), table.resolve(leverage, size));
            assert_eq!(table.resolve(leverage, size), get_leverage_tier(leverage, size));
        }
    }
}

#[test]
fn resolve_matches_a_linear_scan() {
    let table = LeverageTierTable::standard();
    let tiers = table.to_vec();
    for leverage in [0u16, 1, 19, 20, 21, 49, 50, 51, 100, 101, 500, 501, 1000, 1001] {
        for size in [1u64, 4_999, 5_000, 5_001, 20_000, 20_001, 50_000, 50_001, 100_000, 100_001] {
            let expected = tiers
                .iter()
                .find(|t| leverage <= t.max_leverage && size <= t.max_position_size)
                .copied()
                .ok_or(ErrorCode::TierExceeded);
            assert_eq!(table.resolve(leverage, size), expected);
        }
    }
}

#[test]
fn tier_qualifies_on_both_caps() {
    let t = tier(50, 200, 100, 100_000);
    assert!(t.qualifies(50, 100_000));
    assert!(t.qualifies(1, 0));
    assert!(!t.qualifies(51, 1));
    assert!(!t.qualifies(50, 100_001));
}

#[test]
fn custom_table_is_accepted_when_valid() {
    let table = LeverageTierTable::new(vec![tier(5, 2_000, 1_000, 10), tier(10, 1_000, 500, 5)])
        .expect("a valid table");
    assert_eq!(table.len(), 2);
    assert_eq!(table.max_leverage(), 10);
    assert_eq!(table.resolve(5, 10), Ok(tier(5, 2_000, 1_000, 10)));
    assert_eq!(table.resolve(6, 5), Ok(tier(10, 1_000, 500, 5)));
    assert_eq!(table.resolve(6, 6), Err(ErrorCode::TierExceeded));
    assert_eq!(table.resolve(11, 1), Err(ErrorCode::TierExceeded));
}

#[test]
fn custom_table_is_refused_when_empty() {
    assert!(LeverageTierTable::new(vec![]).is_none());
}

#[test]
fn custom_table_is_refused_when_not_strictly_ascending() {
    assert!(LeverageTierTable::new(vec![tier(10, 1_000, 500, 5), tier(5, 2_000, 1_000, 10)])
        .is_none());
    assert!(LeverageTierTable::new(vec![tier(10, 1_000, 500, 5), tier(10, 2_000, 1_000, 10)])
        .is_none());
}

#[test]
fn custom_table_is_refused_when_a_tier_is_invalid() {
    // zero leverage
    assert!(LeverageTierTable::new(vec![tier(0, 1_000, 500, 5)]).is_none());
    // zero size cap
    assert!(LeverageTierTable::new(vec![tier(10, 1_000, 500, 0)]).is_none());
    // maintenance rate zero
    assert!(LeverageTierTable::new(vec![tier(10, 1_000, 0, 5)]).is_none());
    // maintenance rate not below initial rate
    assert!(LeverageTierTable::new(vec![tier(10, 1_000, 1_000, 5)]).is_none());
    // initial rate above one
    assert!(LeverageTierTable::new(vec![tier(10, 10_001, 500, 5)]).is_none());
    // initial rate of exactly one is fine
    assert!(LeverageTierTable::new(vec![tier(10, 10_000, 500, 5)]).is_some());
}
