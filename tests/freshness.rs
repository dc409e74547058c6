use ore_cli::freshness::{FreshnessCache, FreshnessToken};

fn token(b: u8, height: u64) -> FreshnessToken {
    FreshnessToken { hash: [b; 32], last_valid_block_height: height }
}

#[test]
fn read_returns_initial_token() {
    let cache = FreshnessCache::new(token(7, 100));
    let t = cache.read();
    assert_eq!(t.hash, [7u8; 32]);
    assert_eq!(t.last_valid_block_height, 100);
}

#[test]
fn failed_fetches_keep_last_token() {
    let mut cache = FreshnessCache::new(token(1, 10));
    cache.apply_fetch(Some(token(2, 20)));
    for _ in 0..5 {
        cache.apply_fetch(None);
    }
    let t = cache.read();
    assert_eq!(t.hash, [2u8; 32]);
    assert_eq!(t.last_valid_block_height, 20);
}

#[test]
fn successful_fetch_replaces_token() {
    let mut cache = FreshnessCache::new(token(1, 10));
    cache.apply_fetch(Some(token(3, 30)));
    assert_eq!(cache.read().hash, [3u8; 32]);
    cache.publish(token(4, 40));
    assert_eq!(cache.read().last_valid_block_height, 40);
}

#[test]
fn apply_fetches_keeps_last_success() {
    let mut cache = FreshnessCache::new(token(1, 10));
    cache.apply_fetches(&vec![None, Some(token(5, 50)), None, Some(token(6, 60)), None, None]);
    assert_eq!(cache.read().hash, [6u8; 32]);
    let mut untouched = FreshnessCache::new(token(1, 10));
    untouched.apply_fetches(&vec![None, None, None]);
    assert_eq!(untouched.read().hash, [1u8; 32]);
}

#[test]
fn token_hash_and_expiry() {
    let a = token(1, 10);
    assert!(a.has_same_hash(&token(1, 99)));
    let mut b = token(1, 10);
    b.hash[31] = 2;
    assert!(!a.has_same_hash(&b));
    assert!(!a.is_expired_at(10));
    assert!(a.is_expired_at(11));
}
