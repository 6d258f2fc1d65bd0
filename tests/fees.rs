use ln_chain_sync::fees::{fee_from_rate, EstimateMode, FeeBucket, FeeEstimator, MIN_RELAY_FEE};

#[test]
fn unrefreshed_buckets_read_the_floor() {
    let est = FeeEstimator::new();
    for b in [FeeBucket::Background, FeeBucket::Normal, FeeBucket::HighPriority] {
        assert_eq!(est.read(b), 253);
    }
    assert_eq!(MIN_RELAY_FEE, 253);
}

#[test]
fn conversion_of_one_thousand_satoshis_per_kvb() {
    // 0.00001 BTC per kilo-vbyte
    assert_eq!(fee_from_rate(1000), 7);
    assert_eq!(fee_from_rate(0), 3);
    assert_eq!(fee_from_rate(249), 3);
    assert_eq!(fee_from_rate(250_000), 1003);
    assert_eq!(fee_from_rate(u64::MAX), u64::MAX / 250 + 3);
}

#[test]
fn fee_update_stores_high_priority_estimate() {
    let mut est = FeeEstimator::new();
    est.apply_refresh(Some(1000), None, None);
    assert_eq!(est.high_priority, 7);
    assert_eq!(est.read(FeeBucket::HighPriority), 253);
}

#[test]
fn read_above_floor_returns_stored() {
    let mut est = FeeEstimator::new();
    est.apply_refresh(Some(250_000), Some(100_000), Some(62_500));
    assert_eq!(est.read(FeeBucket::HighPriority), 1003);
    assert_eq!(est.read(FeeBucket::Normal), 403);
    assert_eq!(est.read(FeeBucket::Background), 253);
    assert_eq!(est.background, 253);
}

#[test]
fn one_failed_query_leaves_its_bucket() {
    let mut est = FeeEstimator::new();
    est.apply_refresh(Some(250_000), Some(250_000), Some(250_000));
    est.apply_refresh(Some(500_000), None, Some(125_000));
    assert_eq!(est.high_priority, 2003);
    assert_eq!(est.normal, 1003);
    assert_eq!(est.background, 503);
}

#[test]
fn record_touches_one_bucket() {
    let mut est = FeeEstimator::new();
    est.record(FeeBucket::Normal, Some(2500));
    assert_eq!(est.normal, 13);
    assert_eq!(est.high_priority, 0);
    assert_eq!(est.background, 0);
    est.record(FeeBucket::Normal, None);
    assert_eq!(est.normal, 13);
}

#[test]
fn bucket_targets_and_modes() {
    assert_eq!(FeeBucket::HighPriority.target_blocks(), 6);
    assert_eq!(FeeBucket::Normal.target_blocks(), 18);
    assert_eq!(FeeBucket::Background.target_blocks(), 144);
    assert_eq!(FeeBucket::HighPriority.estimate_mode(), EstimateMode::Conservative);
    assert_eq!(FeeBucket::Normal.estimate_mode(), EstimateMode::Economical);
    assert_eq!(FeeBucket::Background.estimate_mode(), EstimateMode::Economical);
    assert_eq!(EstimateMode::Conservative.rpc_name(), "CONSERVATIVE");
    assert_eq!(EstimateMode::Economical.rpc_name(), "ECONOMICAL");
}
