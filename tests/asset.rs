use functor_runtime::asset::AssetCache;

#[test]
fn cache_returns_stored_bytes() {
    let mut cache = AssetCache::new();
    assert!(cache.get("models/a.glb").is_none());
    cache.insert(String::from("models/a.glb"), vec![1, 2, 3]);
    cache.insert(String::from("textures/b.png"), vec![9]);
    assert_eq!(cache.get("models/a.glb"), Some(&vec![1, 2, 3]));
    assert_eq!(cache.get("textures/b.png"), Some(&vec![9]));
    assert!(cache.get("models/A.glb").is_none());
}

#[test]
fn cache_keeps_latest_bytes_for_a_path() {
    let mut cache = AssetCache::new();
    cache.insert(String::from("a"), vec![1]);
    cache.insert(String::from("a"), vec![2, 2]);
    assert_eq!(cache.get("a"), Some(&vec![2, 2]));
}
