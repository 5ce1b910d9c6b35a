use gfr::manifest::Manifest;

fn s(text: &str) -> String {
    text.to_string()
}

#[test]
fn a_new_manifest_is_empty() {
    let manifest = Manifest::new();
    assert_eq!(manifest.len(), 0);
    assert_eq!(manifest.get(&s("x")), None);
    assert!(!manifest.contains(&s("x")));
    assert!(manifest.to_pairs().is_empty());
}

#[test]
fn insert_records_a_version_under_a_name() {
    let mut manifest = Manifest::new();
    manifest.insert(s("x"), s("1.0.0"));
    assert_eq!(manifest.get(&s("x")), Some(&s("1.0.0")));
    assert!(manifest.contains(&s("x")));
    assert_eq!(manifest.get(&s("y")), None);
    assert_eq!(manifest.len(), 1);
}

#[test]
fn insert_replaces_the_version_of_a_known_name() {
    let mut manifest = Manifest::new();
    manifest.insert(s("x"), s("1.0.0"));
    manifest.insert(s("y"), s("0.1.0"));
    manifest.insert(s("x"), s("2.0.0"));
    assert_eq!(manifest.get(&s("x")), Some(&s("2.0.0")));
    assert_eq!(manifest.get(&s("y")), Some(&s("0.1.0")));
    assert_eq!(manifest.len(), 2);
    assert_eq!(manifest.to_pairs(), vec![(s("x"), s("2.0.0")), (s("y"), s("0.1.0"))]);
}

#[test]
fn of_two_pairs_with_one_name_the_later_counts() {
    let manifest = Manifest::from_pairs(vec![
        (s("x"), s("1.0.0")),
        (s("y"), s("3.0.0")),
        (s("x"), s("1.2.0")),
    ]);
    assert_eq!(manifest.len(), 2);
    assert_eq!(manifest.get(&s("x")), Some(&s("1.2.0")));
    assert_eq!(manifest.get(&s("y")), Some(&s("3.0.0")));
}

#[test]
fn pairs_round_trip_through_a_manifest() {
    let pairs = vec![(s("a"), s("1.0.0")), (s("b"), s("2.0.0")), (s("c"), s("x"))];
    let manifest = Manifest::from_pairs(pairs.clone());
    assert_eq!(manifest.to_pairs(), pairs);
    let again = Manifest::from_pairs(manifest.to_pairs());
    assert_eq!(again.to_pairs(), pairs);
}

#[test]
fn names_are_compared_exactly() {
    let mut manifest = Manifest::new();
    manifest.insert(s("x"), s("1.0.0"));
    manifest.insert(s("X"), s("2.0.0"));
    manifest.insert(s(""), s("3.0.0"));
    assert_eq!(manifest.len(), 3);
    assert_eq!(manifest.get(&s("X")), Some(&s("2.0.0")));
    assert_eq!(manifest.get(&s("")), Some(&s("3.0.0")));
}
