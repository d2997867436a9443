use polymarket_bot::cache::PriceCache;

#[test]
fn test_cache_insert_and_get() {
    let mut cache = PriceCache::new();
    cache.insert("BTC".to_string(), 50_000_000_000, "weather_edge");
    assert_eq!(cache.get("BTC"), Some(50_000_000_000));
}

#[test]
fn test_cache_ttl_expiration() {
    let mut cache = PriceCache::new();
    let t0: i64 = 1_700_000_000_000;
    cache.insert_at("ETH".to_string(), 3_000_000_000, "sum_to_one_arb", t0);
    assert_eq!(cache.get_at("ETH", t0), Some(3_000_000_000));
    assert_eq!(cache.get_at("ETH", t0 + 600), None);
    assert!(cache.is_empty());
}

#[test]
fn test_different_ttls() {
    let mut cache = PriceCache::new();
    let t0: i64 = 1_700_000_000_000;
    cache.insert_at("ARB".to_string(), 1_000_000, "sum_to_one_arb", t0);
    cache.insert_at("WEATHER".to_string(), 2_000_000, "weather_edge", t0);
    assert_eq!(cache.get_at("ARB", t0 + 600), None);
    assert_eq!(cache.get_at("WEATHER", t0 + 600), Some(2_000_000));
}

#[test]
fn cache_ttl_boundaries() {
    let mut cache = PriceCache::new();
    let t0: i64 = 1_000;
    cache.insert_at("A".to_string(), 7, "sum_to_one_arb", t0);
    assert_eq!(cache.get_at("A", t0 + 500), Some(7));
    assert_eq!(cache.get_at("A", t0 + 501), None);
    cache.insert_at("W".to_string(), 8, "weather_edge", t0);
    assert_eq!(cache.get_at("W", t0 + 300_000), Some(8));
    assert_eq!(cache.get_at("W", t0 + 300_001), None);
    cache.insert_at("O".to_string(), 9, "other", t0);
    assert_eq!(cache.get_at("O", t0 + 60_000), Some(9));
    assert_eq!(cache.get_at("O", t0 + 60_001), None);
}

#[test]
fn cache_len_clear_and_replace() {
    let mut cache = PriceCache::default();
    assert!(cache.is_empty());
    cache.insert_at("X".to_string(), 1, "weather_edge", 0);
    cache.insert_at("X".to_string(), 2, "weather_edge", 0);
    cache.insert_at("Y".to_string(), 3, "weather_edge", 0);
    assert_eq!(cache.len(), 2);
    assert_eq!(cache.get_at("X", 1), Some(2));
    assert_eq!(cache.get_at("Z", 1), None);
    cache.clear();
    assert_eq!(cache.len(), 0);
    assert!(cache.is_empty());
}
