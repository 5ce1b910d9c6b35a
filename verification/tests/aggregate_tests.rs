use gfr::aggregate::{combine, CompositeMatcherSpec};
use gfr::error::GfrError;
use gfr::pattern::Pattern;

fn single(regex: &str) -> Pattern {
    Pattern {
        schema: None,
        version: "1.0.0".to_string(),
        author: None,
        description: None,
        tags: None,
        regex: Some(regex.to_string()),
        regex_list: None,
        file_types: None,
        ignore_case: false,
        multiline: false,
    }
}

fn list(regexes: &[&str]) -> Pattern {
    Pattern {
        regex: None,
        regex_list: Some(regexes.iter().map(|r| r.to_string()).collect()),
        ..single("")
    }
}

fn strings(items: &[&str]) -> Vec<String> {
    items.iter().map(|s| s.to_string()).collect()
}

#[test]
fn single_regex_combines_alone_to_itself() {
    let spec = combine(&vec![single("abc")]).unwrap();
    assert_eq!(spec.combined_regex, "abc");
    assert_eq!(spec.final_expression(), "abc");
    assert!(!spec.ignore_case);
    assert!(!spec.multiline);
    assert!(spec.file_types.is_empty());
}

#[test]
fn regex_list_combines_alone_to_a_group() {
    let spec = combine(&vec![list(&["a", "b"])]).unwrap();
    assert_eq!(spec.combined_regex, "(?:a|b)");
    assert_eq!(spec.final_expression(), "(?:a|b)");
}

#[test]
fn both_flags_give_i_before_s() {
    let record = Pattern { ignore_case: true, multiline: true, ..single("abc") };
    let spec = combine(&vec![record]).unwrap();
    assert_eq!(spec.flag_prefix(), "(?is)");
    assert_eq!(spec.final_expression(), "(?is)abc");
}

#[test]
fn one_flag_gives_a_group_of_one_letter() {
    let i = combine(&vec![Pattern { ignore_case: true, ..single("abc") }]).unwrap();
    assert_eq!(i.final_expression(), "(?i)abc");
    let s = combine(&vec![Pattern { multiline: true, ..single("abc") }]).unwrap();
    assert_eq!(s.final_expression(), "(?s)abc");
}

#[test]
fn no_flag_gives_no_group() {
    let spec = combine(&vec![single("a"), list(&["b", "c"])]).unwrap();
    assert_eq!(spec.flag_prefix(), "");
    assert_eq!(spec.final_expression(), "a|(?:b|c)");
}

#[test]
fn records_are_joined_without_an_outer_group() {
    let spec = combine(&vec![single("a|b"), list(&["c", "d"]), single("e")]).unwrap();
    assert_eq!(spec.combined_regex, "a|b|(?:c|d)|e");
}

#[test]
fn flags_are_the_or_of_the_records() {
    let records = vec![
        single("a"),
        Pattern { ignore_case: true, ..single("b") },
        Pattern { multiline: true, ..single("c") },
    ];
    let spec = combine(&records).unwrap();
    assert!(spec.ignore_case);
    assert!(spec.multiline);
    assert_eq!(spec.final_expression(), "(?is)a|b|c");

    let only_case = combine(&vec![single("a"), Pattern { ignore_case: true, ..single("b") }])
        .unwrap();
    assert!(only_case.ignore_case);
    assert!(!only_case.multiline);
}

#[test]
fn file_types_are_united_each_once_in_order_of_first_occurrence() {
    let records = vec![
        Pattern { file_types: Some(strings(&["js", "ts"])), ..single("a") },
        single("b"),
        Pattern { file_types: Some(strings(&["ts", "html", "js", "html"])), ..single("c") },
        Pattern { file_types: Some(vec![]), ..single("d") },
    ];
    let spec = combine(&records).unwrap();
    assert_eq!(spec.file_types, strings(&["js", "ts", "html"]));
}

#[test]
fn no_file_types_means_no_restriction() {
    let spec = combine(&vec![single("a"), single("b")]).unwrap();
    assert!(spec.file_types.is_empty());
}

#[test]
fn an_ill_formed_record_fails_the_combination() {
    let neither = Pattern { regex: None, ..single("") };
    assert_eq!(combine(&vec![neither.clone()]), Err(GfrError::MissingRegex));
    let empty_list = list(&[]);
    assert_eq!(combine(&vec![empty_list]), Err(GfrError::MissingRegex));
    assert_eq!(combine(&vec![single("a"), neither, single("b")]), Err(GfrError::MissingRegex));
    let both = Pattern { regex_list: Some(strings(&["x"])), ..single("a") };
    assert_eq!(combine(&vec![single("a"), both]), Err(GfrError::MissingRegex));
}

#[test]
fn combined_regex_is_not_empty_for_non_empty_sources() {
    for records in [
        vec![single("a")],
        vec![list(&[""])],
        vec![single(""), single("")],
        vec![single(""), list(&["", ""])],
    ] {
        let spec = combine(&records).unwrap();
        assert!(!spec.combined_regex.is_empty());
    }
    assert_eq!(combine(&vec![single(""), single("")]).unwrap().combined_regex, "|");
    assert_eq!(combine(&vec![list(&[""])]).unwrap().combined_regex, "(?:)");
}

#[test]
fn a_single_empty_regex_combines_to_the_empty_expression() {
    let spec = combine(&vec![single("")]).unwrap();
    assert_eq!(spec.combined_regex, "");
    let flagged = combine(&vec![Pattern { ignore_case: true, ..single("") }]).unwrap();
    assert_eq!(flagged.final_expression(), "(?i)");
}

#[test]
fn final_expression_of_a_hand_made_specification() {
    let spec = CompositeMatcherSpec {
        combined_regex: "x".to_string(),
        ignore_case: false,
        multiline: true,
        file_types: vec![],
    };
    assert_eq!(spec.final_expression(), "(?s)x");
}
