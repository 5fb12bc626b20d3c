use eth_analysis::serve::{cache_slot_for, cached_response, hash_from_u8, CacheKey, CacheSlot, CachedResponse};

#[test]
fn hash_is_base64_sha1() {
    // SHA-1 of "abc" is a9993e364706816aba3e25717850c26c9cd0d89d.
    assert_eq!(hash_from_u8(b"abc"), "qZk+NkcGgWq6PiVxeFDCbJzQ2J0=");
    // SHA-1 of the empty input is da39a3ee5e6b4b0d3255bfef95601890afd80709.
    assert_eq!(hash_from_u8(b""), "2jmj7l5rSw0yVb/vlWAYkK/YBwk=");
    assert_eq!(hash_from_u8(b"{\"a\":1}").len(), 28);
    assert_ne!(hash_from_u8(b"abc"), hash_from_u8(b"abd"));
}

#[test]
fn nothing_cached_is_service_unavailable() {
    assert_eq!(cached_response(None, "max-age=4"), CachedResponse::ServiceUnavailable);
}

#[test]
fn cached_value_gets_its_headers() {
    let hash = hash_from_u8(b"abc");
    assert_eq!(
        cached_response(Some(&hash), "max-age=4, stale-while-revalidate=60"),
        CachedResponse::Cached {
            cache_control: "max-age=4, stale-while-revalidate=60".to_string(),
            etag: "\"qZk+NkcGgWq6PiVxeFDCbJzQ2J0=\"".to_string(),
        }
    );
}

#[test]
fn notifications_refresh_the_value_of_the_same_name() {
    assert_eq!(cache_slot_for(CacheKey::BlockLag), Some(CacheSlot::BlockLag));
    assert_eq!(cache_slot_for(CacheKey::EthPrice), Some(CacheSlot::EthPrice));
    assert_eq!(cache_slot_for(CacheKey::EthSupplyParts), Some(CacheSlot::EthSupplyParts));
    assert_eq!(cache_slot_for(CacheKey::MergeEstimate), Some(CacheSlot::MergeEstimate));
    assert_eq!(
        cache_slot_for(CacheKey::TotalDifficultyProgress),
        Some(CacheSlot::TotalDifficultyProgress)
    );
    assert_eq!(cache_slot_for(CacheKey::BaseFeePerGas), None);
    assert_eq!(cache_slot_for(CacheKey::BaseFeePerGasStats), None);
    assert_eq!(cache_slot_for(CacheKey::ValidatorRewards), None);
    assert_eq!(cache_slot_for(CacheKey::Other), None);
}
