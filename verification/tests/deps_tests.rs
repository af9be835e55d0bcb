use surtur::deps::{DepManager, Dependency, FetchAction, NoDepError, download_dep};

#[test]
fn origin_without_suffix_is_normalized() {
    let d = Dependency::new("https://example.com/org/foo", "0.1");
    assert_eq!(d.origin(), "https://example.com/org/foo.git");
    assert_eq!(d.name(), "foo");
    assert_eq!(d.version(), "0.1");
}

#[test]
fn origin_with_suffix_is_kept() {
    let d = Dependency::new("https://example.com/org/foo.git", "1");
    assert_eq!(d.origin(), "https://example.com/org/foo.git");
    assert_eq!(d.name(), "foo");
}

#[test]
fn short_origin_is_normalized_too() {
    let d = Dependency::new("ab", "1");
    assert_eq!(d.origin(), "ab.git");
    assert_eq!(d.name(), "ab");
}

#[test]
fn name_is_computed_the_same_twice() {
    let d = Dependency::new("https://example.com/org/foo", "0.1");
    assert_eq!(d.name(), d.name());
}

#[test]
fn distinct_final_segments_give_distinct_names() {
    let a = Dependency::new("https://example.com/org/foo", "1");
    let b = Dependency::new("https://example.com/org/bar", "1");
    assert_ne!(a.name(), b.name());
}

#[test]
fn location_joins_cache_root_deps_and_name() {
    let d = Dependency::new("https://example.com/org/foo", "1");
    assert_eq!(d.location("/home/u/.surtur"), "/home/u/.surtur/deps/foo");
}

#[test]
fn fetch_keeps_a_present_dependency_without_force() {
    let d = Dependency::new("https://example.com/org/foo", "1");
    let plan = download_dep(&d, "cache", true, false);
    assert_eq!(plan.action, FetchAction::Keep);
    assert_eq!(plan.url, "https://example.com/org/foo.git");
    assert_eq!(plan.dest, "cache/deps/foo");
}

#[test]
fn fetch_clones_an_absent_dependency() {
    let d = Dependency::new("https://example.com/org/foo", "1");
    assert_eq!(download_dep(&d, "cache", false, false).action, FetchAction::Clone);
    assert_eq!(download_dep(&d, "cache", false, true).action, FetchAction::Clone);
}

#[test]
fn forced_fetch_refreshes_a_present_dependency() {
    let d = Dependency::new("https://example.com/org/foo", "1");
    assert_eq!(download_dep(&d, "cache", true, true).action, FetchAction::Refresh);
}

#[test]
fn download_deps_plans_every_dependency_in_order() {
    let a = Dependency::new("https://example.com/org/foo", "1");
    let b = Dependency::new("https://example.com/org/bar", "2");
    let dm = DepManager::new(vec![a, b]);
    let plans = dm.download_deps("cache", &vec![true, false], false);
    assert_eq!(plans.len(), 2);
    assert_eq!(plans[0].action, FetchAction::Keep);
    assert_eq!(plans[0].dest, "cache/deps/foo");
    assert_eq!(plans[1].action, FetchAction::Clone);
    assert_eq!(plans[1].dest, "cache/deps/bar");
}

#[test]
fn manager_insert_collapses_duplicates() {
    let mut dm = DepManager::new(Vec::new());
    assert!(dm.insert(Dependency::new("https://example.com/a/x", "1")));
    assert!(!dm.insert(Dependency::new("https://example.com/a/x", "1")));
    assert!(dm.insert(Dependency::new("https://example.com/a/x", "2")));
    assert_eq!(dm.len(), 2);
}

#[test]
fn manager_contains_checks_origin_and_version() {
    let mut dm = DepManager::new(Vec::new());
    dm.insert(Dependency::new("https://example.com/a/x", "1"));
    assert!(dm.contains(&Dependency::new("https://example.com/a/x.git", "1")));
    assert!(!dm.contains(&Dependency::new("https://example.com/a/x", "3")));
}

#[test]
fn manager_duplicate_preserves_the_set() {
    let mut dm = DepManager::new(Vec::new());
    dm.insert(Dependency::new("https://example.com/a/x", "1"));
    let copy = dm.duplicate();
    assert_eq!(copy.len(), 1);
    assert_eq!(copy.deps[0].origin(), "https://example.com/a/x.git");
    assert_eq!(copy.deps[0].version(), "1");
}

#[test]
fn no_dep_error_carries_its_message() {
    let e = NoDepError("missing origin".to_string());
    assert_eq!(e.message(), "missing origin");
}
