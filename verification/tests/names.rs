use soroban_cost_lints::names::build_lint_name_set;

#[test]
fn contains_existing_name() {
    let names: &'static [&str] = &["foo", "bar", "baz"];
    let set = build_lint_name_set(names);
    assert!(set.contains("foo"));
    assert!(set.contains("bar"));
    assert!(set.contains("baz"));
}

#[test]
fn does_not_contain_missing_name() {
    let names: &'static [&str] = &["foo", "bar"];
    let set = build_lint_name_set(names);
    assert!(!set.contains("qux"));
    assert!(!set.contains(""));
}

#[test]
fn len_matches_input() {
    let names: &'static [&str] = &["a", "b", "c", "d"];
    let set = build_lint_name_set(names);
    assert_eq!(set.len(), 4);
}

#[test]
fn empty_slice_produces_empty_set() {
    let names: &'static [&str] = &[];
    let set = build_lint_name_set(names);
    assert!(set.is_empty());
    assert!(!set.contains("anything"));
}

#[test]
fn duplicates_are_deduplicated() {
    let names: &'static [&str] = &["x", "x", "x"];
    let set = build_lint_name_set(names);
    assert_eq!(set.len(), 1);
    assert!(set.contains("x"));
}

#[test]
fn case_sensitive_lookup() {
    let names: &'static [&str] = &["Foo", "BAR"];
    let set = build_lint_name_set(names);
    assert!(set.contains("Foo"));
    assert!(set.contains("BAR"));
    assert!(!set.contains("foo"));
    assert!(!set.contains("bar"));
}

#[test]
fn mixed_duplicates_count_distinct_names() {
    let names: &'static [&str] = &["a", "b", "a", "c", "b"];
    let set = build_lint_name_set(names);
    assert_eq!(set.len(), 3);
    assert!(!set.is_empty());
    assert!(set.contains("c"));
    assert!(!set.contains("d"));
}
