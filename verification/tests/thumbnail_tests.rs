use stump_core::thumbnail::ThumbnailCache;

#[test]
fn generate_twice_encodes_once() {
    let mut cache = ThumbnailCache::new("/thumbs".to_string(), Vec::new());
    let (path1, encoded1) = cache.generate_thumbnail("abc");
    assert_eq!(path1, "/thumbs/abc.webp");
    assert!(encoded1, "first generation must encode");
    let (path2, encoded2) = cache.generate_thumbnail("abc");
    assert_eq!(path2, path1, "the target path never changes");
    assert!(!encoded2, "second generation must skip the encode");
}

#[test]
fn get_thumbnail_path_never_generates() {
    let mut cache = ThumbnailCache::new("/thumbs".to_string(), Vec::new());
    assert_eq!(cache.get_thumbnail_path("x"), None);
    assert_eq!(cache.get_thumbnail_path("x"), None, "lookups do not create entries");
    cache.generate_thumbnail("x");
    assert_eq!(
        cache.get_thumbnail_path("x"),
        Some("/thumbs/x.webp".to_string())
    );
}

#[test]
fn existing_ids_are_visible() {
    let cache = ThumbnailCache::new(
        "/cache".to_string(),
        vec!["a".to_string(), "b".to_string()],
    );
    assert_eq!(cache.get_thumbnail_path("a"), Some("/cache/a.webp".to_string()));
    assert_eq!(cache.get_thumbnail_path("c"), None);
}

#[test]
fn remove_thumbnail_is_delete_if_present() {
    let mut cache = ThumbnailCache::new("/t".to_string(), vec!["a".to_string()]);
    cache.remove_thumbnail("a");
    assert_eq!(cache.get_thumbnail_path("a"), None);
    cache.remove_thumbnail("a");
    assert_eq!(cache.get_thumbnail_path("a"), None);
}

#[test]
fn remove_thumbnails_is_best_effort_batch() {
    let mut cache = ThumbnailCache::new(
        "/t".to_string(),
        vec!["a".to_string(), "b".to_string(), "c".to_string()],
    );
    cache.remove_thumbnails(&vec!["a".to_string(), "zzz".to_string(), "c".to_string()]);
    assert_eq!(cache.get_thumbnail_path("a"), None);
    assert_eq!(cache.get_thumbnail_path("c"), None);
    assert_eq!(cache.get_thumbnail_path("b"), Some("/t/b.webp".to_string()));
}

#[test]
fn batch_generation_excludes_failures() {
    let mut cache = ThumbnailCache::new("/t".to_string(), Vec::new());
    let results = vec![
        ("one".to_string(), true),
        ("two".to_string(), false),
        ("three".to_string(), true),
    ];
    let paths = cache.generate_thumbnails(&results);
    assert_eq!(paths, vec!["/t/one.webp".to_string(), "/t/three.webp".to_string()]);
    assert_eq!(cache.get_thumbnail_path("two"), None);
    assert_eq!(cache.get_thumbnail_path("one"), Some("/t/one.webp".to_string()));
}
