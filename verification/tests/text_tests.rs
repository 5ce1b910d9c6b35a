use gfr::text::{copy_opt_text, copy_opt_texts, copy_texts, holds, join_strings};

fn strings(items: &[&str]) -> Vec<String> {
    items.iter().map(|s| s.to_string()).collect()
}

#[test]
fn join_puts_the_separator_between_neighbours() {
    assert_eq!(join_strings(&strings(&["a", "b", "c"]), "|"), "a|b|c");
    assert_eq!(join_strings(&strings(&["a", "b"]), ", "), "a, b");
    assert_eq!(join_strings(&strings(&["only"]), "|"), "only");
    assert_eq!(join_strings(&strings(&[]), "|"), "");
}

#[test]
fn join_keeps_empty_parts() {
    assert_eq!(join_strings(&strings(&["", ""]), "|"), "|");
    assert_eq!(join_strings(&strings(&["a", "", "b"]), "|"), "a||b");
    assert_eq!(join_strings(&strings(&[""]), "|"), "");
    assert_eq!(join_strings(&strings(&["a", "b"]), ""), "ab");
}

#[test]
fn holds_finds_exactly_the_members() {
    let items = strings(&["web", "security", ""]);
    assert!(holds(&items, &"web".to_string()));
    assert!(holds(&items, &"security".to_string()));
    assert!(holds(&items, &String::new()));
    assert!(!holds(&items, &"Web".to_string()));
    assert!(!holds(&items, &"we".to_string()));
    assert!(!holds(&strings(&[]), &"web".to_string()));
}

#[test]
fn copies_are_equal_to_what_they_copy() {
    let items = strings(&["a", "", "b\u{e9}"]);
    assert_eq!(copy_texts(&items), items);
    assert_eq!(copy_texts(&strings(&[])), strings(&[]));
    assert_eq!(copy_opt_text(&Some("x".to_string())), Some("x".to_string()));
    assert_eq!(copy_opt_text(&None), None);
    assert_eq!(copy_opt_texts(&Some(items.clone())), Some(items));
    assert_eq!(copy_opt_texts(&None), None);
}
