use gfr::aggregate::{combine, CompositeMatcherSpec};
use gfr::error::GfrError;
use gfr::pattern::Pattern;
use gfr::search::{
    compile, on_scan_end, on_walk_event, plan_tree, prepare_search, search_mode, BinaryPolicy,
    Diagnostic, EntryAction, SearchMode, SearchPlan, TreePlan, WalkControl, WalkEvent,
    LINE_TERMINATOR,
};

fn strings(items: &[&str]) -> Vec<String> {
    items.iter().map(|s| s.to_string()).collect()
}

fn spec(expression: &str, file_types: &[&str]) -> CompositeMatcherSpec {
    CompositeMatcherSpec {
        combined_regex: expression.to_string(),
        ignore_case: false,
        multiline: false,
        file_types: strings(file_types),
    }
}

#[test]
fn a_valid_expression_compiles() {
    assert!(compile(&spec("a+b|c", &[])).is_ok());
    assert!(compile(&spec("(?:a|b)|\\d{3}", &[])).is_ok());
    let flagged = CompositeMatcherSpec { ignore_case: true, multiline: true, ..spec("a.b", &[]) };
    assert!(compile(&flagged).is_ok());
}

#[test]
fn an_invalid_expression_is_a_compile_failure() {
    let out = compile(&spec("(unclosed", &[]));
    assert!(matches!(out, Err(GfrError::CompileFailure(_))));
    let out = compile(&spec("a{2,1}", &[]));
    assert!(matches!(out, Err(GfrError::CompileFailure(_))));
}

#[test]
fn a_compile_failure_carries_an_explanation() {
    match compile(&spec("(unclosed", &[])) {
        Err(GfrError::CompileFailure(detail)) => assert!(!detail.is_empty()),
        _ => panic!("the expression must not compile"),
    }
}

#[test]
fn an_expression_with_a_literal_line_break_is_refused() {
    let out = compile(&spec("a\\nb", &[]));
    assert!(matches!(out, Err(GfrError::CompileFailure(_))));
}

#[test]
fn combined_records_compile() {
    let record = Pattern {
        schema: None,
        version: "1.0.0".to_string(),
        author: None,
        description: None,
        tags: None,
        regex: None,
        regex_list: Some(strings(&["foo", "ba[rz]"])),
        file_types: None,
        ignore_case: true,
        multiline: false,
    };
    let spec = combine(&vec![record]).unwrap();
    assert_eq!(spec.final_expression(), "(?i)(?:foo|ba[rz])");
    assert!(compile(&spec).is_ok());
}

#[test]
fn lines_end_with_a_line_feed() {
    assert_eq!(LINE_TERMINATOR, b'\n');
}

#[test]
fn the_mode_follows_the_standard_input() {
    assert_eq!(search_mode(true), SearchMode::Tree);
    assert_eq!(search_mode(false), SearchMode::Stream);
}

#[test]
fn a_walk_is_restricted_to_the_extensions_of_the_specification() {
    let plan = plan_tree(&spec("a", &["js", "html"]), false);
    assert_eq!(plan.extension_globs, strings(&["*.js", "*.html"]));
    assert_eq!(plan.binary, BinaryPolicy::QuitAt(0));
    assert_eq!(plan.ignore_file, ".gfrignore");
}

#[test]
fn no_extensions_mean_no_restriction() {
    let plan = plan_tree(&spec("a", &[]), false);
    assert!(plan.extension_globs.is_empty());
    assert_eq!(plan.binary, BinaryPolicy::QuitAt(0));
}

#[test]
fn including_binary_files_lifts_the_restriction_and_the_detection() {
    let plan = plan_tree(&spec("a", &["js", "html"]), true);
    assert!(plan.extension_globs.is_empty());
    assert_eq!(plan.binary, BinaryPolicy::Off);
    assert_eq!(plan.ignore_file, ".gfrignore");
}

#[test]
fn an_unreadable_entry_is_reported_and_the_walk_goes_on() {
    let (action, control) = on_walk_event(WalkEvent::Unreadable("permission denied".to_string()));
    let diagnostic = Diagnostic::WalkEntryError { detail: "permission denied".to_string() };
    assert_eq!(action, EntryAction::Report(diagnostic.clone()));
    assert_eq!(control, WalkControl::Continue);
    assert_eq!(diagnostic.subject(), "Error:");
    assert_eq!(diagnostic.rest(), " permission denied");
    assert_eq!(diagnostic.line(), "Error: permission denied");
}

#[test]
fn a_regular_file_is_scanned_and_anything_else_is_passed_over() {
    assert_eq!(
        on_walk_event(WalkEvent::Entry { is_file: true }),
        (EntryAction::Scan, WalkControl::Continue)
    );
    assert_eq!(
        on_walk_event(WalkEvent::Entry { is_file: false }),
        (EntryAction::Pass, WalkControl::Continue)
    );
}

#[test]
fn a_failed_scan_is_reported_with_its_path_and_the_walk_goes_on() {
    let (report, control) = on_scan_end("src/a.rs".to_string(), Some("is a directory".to_string()));
    let diagnostic = report.unwrap();
    assert_eq!(
        diagnostic,
        Diagnostic::FileScanError {
            path: "src/a.rs".to_string(),
            detail: "is a directory".to_string()
        }
    );
    assert_eq!(diagnostic.subject(), "src/a.rs");
    assert_eq!(diagnostic.rest(), ": is a directory");
    assert_eq!(diagnostic.line(), "src/a.rs: is a directory");
    assert_eq!(control, WalkControl::Continue);
}

#[test]
fn a_scan_that_ran_to_its_end_reports_nothing() {
    assert_eq!(on_scan_end("src/a.rs".to_string(), None), (None, WalkControl::Continue));
}

#[test]
fn one_unreadable_file_among_two_readable_ones_does_not_end_the_walk() {
    let events = vec![
        WalkEvent::Entry { is_file: false },
        WalkEvent::Entry { is_file: true },
        WalkEvent::Unreadable("b.txt: permission denied".to_string()),
        WalkEvent::Entry { is_file: true },
    ];
    let mut scanned = 0;
    let mut reported = 0;
    let mut visited = 0;
    for event in events {
        let (action, control) = on_walk_event(event);
        visited += 1;
        match action {
            EntryAction::Scan => {
                scanned += 1;
                let (report, after_scan) = on_scan_end(format!("file{scanned}"), None);
                assert_eq!(report, None);
                assert_eq!(after_scan, WalkControl::Continue);
            }
            EntryAction::Report(_) => reported += 1,
            EntryAction::Pass => {}
        }
        assert_eq!(control, WalkControl::Continue);
    }
    assert_eq!((visited, scanned, reported), (4, 2, 1));
}

fn record(regex: &str, file_types: Option<&[&str]>, ignore_case: bool) -> Pattern {
    Pattern {
        schema: None,
        version: "1.0.0".to_string(),
        author: None,
        description: None,
        tags: None,
        regex: Some(regex.to_string()),
        regex_list: None,
        file_types: file_types.map(strings),
        ignore_case,
        multiline: false,
    }
}

#[test]
fn a_search_of_a_tree_is_prepared_in_one_go() {
    let records = vec![record("foo", Some(&["rs"]), true), record("bar", Some(&["toml", "rs"]), false)];
    let job = prepare_search(&records, true, false).unwrap();
    assert_eq!(job.spec.final_expression(), "(?i)foo|bar");
    assert_eq!(job.spec, combine(&records).unwrap());
    assert_eq!(
        job.plan,
        SearchPlan::Tree(TreePlan {
            ignore_file: ".gfrignore".to_string(),
            extension_globs: strings(&["*.rs", "*.toml"]),
            binary: BinaryPolicy::QuitAt(0),
        })
    );
}

#[test]
fn a_search_of_the_standard_input_needs_no_tree_plan() {
    let records = vec![record("foo", Some(&["rs"]), false)];
    let job = prepare_search(&records, false, false).unwrap();
    assert_eq!(job.plan, SearchPlan::Stream);
    let job = prepare_search(&records, false, true).unwrap();
    assert_eq!(job.plan, SearchPlan::Stream);
}

#[test]
fn a_search_with_binary_files_walks_every_file() {
    let records = vec![record("foo", Some(&["rs"]), false)];
    let job = prepare_search(&records, true, true).unwrap();
    assert_eq!(
        job.plan,
        SearchPlan::Tree(TreePlan {
            ignore_file: ".gfrignore".to_string(),
            extension_globs: vec![],
            binary: BinaryPolicy::Off,
        })
    );
}

#[test]
fn a_search_is_not_prepared_from_an_ill_formed_record() {
    let ill = Pattern { regex: None, ..record("", None, false) };
    let out = prepare_search(&vec![record("(", None, false), ill], true, false);
    assert!(matches!(out, Err(GfrError::MissingRegex)));
}

#[test]
fn a_search_is_not_prepared_from_an_expression_that_does_not_compile() {
    let out = prepare_search(&vec![record("a", None, false), record("(", None, false)], true, false);
    assert!(matches!(out, Err(GfrError::CompileFailure(_))));
    let out = prepare_search(&vec![record("[z-a]", None, true)], false, false);
    assert!(matches!(out, Err(GfrError::CompileFailure(_))));
}
