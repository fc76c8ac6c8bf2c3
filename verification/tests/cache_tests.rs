use pop_core::cache::{build, name_is_partial, partial_name, purge, BuildOutcome, Cache, DirModel};
use pop_core::error::ErrorKind;

fn strings(items: &[&str]) -> Vec<String> {
    items.iter().map(|s| s.to_string()).collect()
}

fn layer_cache() -> Cache {
    Cache::new("build/cache", strings(&["debootstrap", "desktop", "image", "server"]))
}

#[test]
fn partial_names() {
    assert!(name_is_partial("server.partial"));
    assert!(name_is_partial(".partial"));
    assert!(!name_is_partial("server"));
    assert!(!name_is_partial("partial"));
    assert_eq!(partial_name("server").as_str(), "server.partial");
}

#[test]
fn purge_keeps_only_valid_published_layers() {
    // Cache purge: every entry either survives as an accepted,
    // non-partial name or is reported removed.
    let cache = layer_cache();
    let mut dir = DirModel::from_entries(strings(&[
        "debootstrap",
        "junk",
        "server.partial",
        "server",
        "image.partial",
    ]));
    let removed = purge(&cache, &mut dir);
    assert_eq!(dir.entries, strings(&["debootstrap", "server"]));
    assert_eq!(removed, strings(&["junk", "server.partial", "image.partial"]));
}

#[test]
fn purge_of_empty_directory_removes_nothing() {
    let cache = layer_cache();
    let mut dir = DirModel::empty();
    let removed = purge(&cache, &mut dir);
    assert!(dir.entries.is_empty());
    assert!(removed.is_empty());
}

#[test]
fn should_remove_decisions() {
    let cache = layer_cache();
    assert!(!cache.should_remove("image"));
    assert!(cache.should_remove("image.partial"));
    assert!(cache.should_remove("stray"));
    assert!(cache.is_valid_name("desktop"));
    assert!(!cache.is_valid_name("desk"));
}

#[test]
fn build_reuses_a_present_layer() {
    let cache = layer_cache();
    let mut dir = DirModel::from_entries(strings(&["server"]));
    let (path, rebuilt) = build(&cache, &mut dir, "server", false, BuildOutcome::Success).unwrap();
    assert_eq!(path.as_str(), "build/cache/server");
    assert!(!rebuilt);
    assert_eq!(dir.entries, strings(&["server"]));
}

#[test]
fn build_publishes_atomically_on_success() {
    // Cache atomic publish: after Ok, the layer exists and its partial
    // does not.
    let cache = layer_cache();
    let mut dir = DirModel::empty();
    let (path, rebuilt) = build(&cache, &mut dir, "server", false, BuildOutcome::Success).unwrap();
    assert_eq!(path.as_str(), "build/cache/server");
    assert!(rebuilt);
    assert!(dir.has("server"));
    assert!(!dir.has("server.partial"));
}

#[test]
fn build_leaves_partial_on_failure() {
    // Cache atomic publish: after a builder failure, the partial is left
    // in place for diagnosis and the layer is not published.
    let cache = layer_cache();
    let mut dir = DirModel::empty();
    let err = build(&cache, &mut dir, "server", false, BuildOutcome::Failure).unwrap_err();
    assert_eq!(err.kind(), ErrorKind::Other);
    assert!(dir.has("server.partial"));
    assert!(!dir.has("server"));
}

#[test]
fn build_rebuilds_when_parent_rebuilt() {
    // Rebuilt cascade: a present layer is rebuilt anyway when its
    // predecessor was rebuilt this session.
    let cache = layer_cache();
    let mut dir = DirModel::from_entries(strings(&["server"]));
    let (_, rebuilt) = build(&cache, &mut dir, "server", true, BuildOutcome::Success).unwrap();
    assert!(rebuilt);
}

#[test]
fn build_clears_stale_partial_before_rebuilding() {
    let cache = layer_cache();
    let mut dir = DirModel::from_entries(strings(&["server.partial"]));
    let (_, rebuilt) = build(&cache, &mut dir, "server", false, BuildOutcome::Success).unwrap();
    assert!(rebuilt);
    assert!(dir.has("server"));
    assert!(!dir.has("server.partial"));
}

#[test]
fn cache_paths() {
    let cache = layer_cache();
    assert_eq!(cache.final_path("image").as_str(), "build/cache/image");
    assert_eq!(cache.partial_path("image").as_str(), "build/cache/image.partial");
}
