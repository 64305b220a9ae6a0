use libcontainer::annotations::Annotations;

fn text(s: &str) -> String {
    s.to_string()
}

#[test]
fn new_annotations_are_empty() {
    let annotations = Annotations::new();
    assert!(annotations.get(&text("a")).is_none());
    assert!(annotations.to_pairs().is_empty());
}

#[test]
fn insert_binds_a_key() {
    let mut annotations = Annotations::new();
    annotations.insert(text("org.example.owner"), text("alice"));
    assert_eq!(annotations.get(&text("org.example.owner")), Some(&text("alice")));
    assert_eq!(annotations.get(&text("org.example.other")), None);
}

#[test]
fn insert_replaces_what_was_bound() {
    let mut annotations = Annotations::new();
    annotations.insert(text("k"), text("one"));
    annotations.insert(text("other"), text("x"));
    annotations.insert(text("k"), text("two"));
    assert_eq!(annotations.get(&text("k")), Some(&text("two")));
    assert_eq!(annotations.get(&text("other")), Some(&text("x")));
    assert_eq!(annotations.to_pairs().len(), 2);
}

#[test]
fn order_of_insertion_does_not_matter() {
    let mut forth = Annotations::new();
    forth.insert(text("a"), text("1"));
    forth.insert(text("b"), text("2"));
    let mut back = Annotations::new();
    back.insert(text("b"), text("2"));
    back.insert(text("a"), text("1"));
    for key in ["a", "b", "c"] {
        assert_eq!(forth.get(&text(key)), back.get(&text(key)));
    }
    let mut forth_pairs = forth.to_pairs();
    let mut back_pairs = back.to_pairs();
    forth_pairs.sort();
    back_pairs.sort();
    assert_eq!(forth_pairs, back_pairs);
}

#[test]
fn from_pairs_lets_the_last_pair_count() {
    let pairs = vec![
        (text("a"), text("1")),
        (text("b"), text("2")),
        (text("a"), text("3")),
    ];
    let annotations = Annotations::from_pairs(&pairs);
    assert_eq!(annotations.get(&text("a")), Some(&text("3")));
    assert_eq!(annotations.get(&text("b")), Some(&text("2")));
    let mut out = annotations.to_pairs();
    out.sort();
    assert_eq!(out, vec![(text("a"), text("3")), (text("b"), text("2"))]);
}

#[test]
fn a_clone_holds_the_same_pairs_and_is_its_own() {
    let mut annotations = Annotations::new();
    annotations.insert(text("a"), text("1"));
    let mut copy = annotations.clone();
    assert_eq!(copy.get(&text("a")), Some(&text("1")));
    copy.insert(text("a"), text("2"));
    assert_eq!(annotations.get(&text("a")), Some(&text("1")));
    assert_eq!(copy.get(&text("a")), Some(&text("2")));
}

#[test]
fn empty_key_and_value_are_kept() {
    let mut annotations = Annotations::new();
    annotations.insert(text(""), text(""));
    assert_eq!(annotations.get(&text("")), Some(&text("")));
}
