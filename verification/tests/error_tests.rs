use gfr::error::GfrError;

#[test]
fn messages_of_the_selector_errors() {
    assert_eq!(
        GfrError::NoFilterSpecified.message(),
        "Search requires a filter. Please provide a pattern name, --tags, or --author."
    );
    assert_eq!(
        GfrError::ConflictingFilters.message(),
        "Cannot combine pattern name with --tags or --author filters. Use either a specific pattern name OR filters, not both."
    );
    assert_eq!(
        GfrError::NoMatches.message(),
        "No patterns found matching the specified criteria."
    );
    assert_eq!(
        GfrError::DumpNeedsName.message(),
        "--dump requires a single pattern_name to be specified."
    );
}

#[test]
fn messages_of_the_store_errors() {
    assert_eq!(
        GfrError::NotFound("/cfg/gfr/x.json".to_string()).message(),
        "Pattern file not found: /cfg/gfr/x.json"
    );
    assert_eq!(
        GfrError::InvalidFormat("/cfg/gfr/x.json".to_string(), "EOF at line 3".to_string())
            .message(),
        "Failed to parse JSON from: /cfg/gfr/x.json: EOF at line 3"
    );
    assert_eq!(
        GfrError::AlreadyExists("xss".to_string()).message(),
        "Pattern 'xss' already exists."
    );
    assert_eq!(
        GfrError::InvalidName("a/b".to_string()).message(),
        "Invalid pattern name 'a/b'. Name cannot contain '.', '/', or '\\'"
    );
    assert_eq!(
        GfrError::MissingRegex.message(),
        "Pattern file must contain either a 'pattern' key or a non-empty 'patterns' key."
    );
}

#[test]
fn messages_of_the_search_and_install_errors() {
    assert_eq!(GfrError::CompileFailure("unclosed group".to_string()).message(), "unclosed group");
    assert_eq!(
        GfrError::MalformedRemoteVersion("x".to_string(), "1.0".to_string()).message(),
        "Invalid version '1.0' for remote pattern 'x'."
    );
    assert_eq!(
        GfrError::RemoteValidationFailure("x".to_string(), "missing field".to_string()).message(),
        "Remote pattern 'x' is not a valid pattern file: missing field"
    );
}
