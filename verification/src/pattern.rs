//! A pattern record: one named search specification with its metadata.

use vstd::prelude::*;
use vstd::string::StringExecFns;
use crate::error::GfrError;
use crate::text::{copy_opt_text, copy_opt_texts, join, join_strings, opt_view, opt_views, views};

verus! {

/// A search specification as it is stored: metadata, the regex source, and
/// the flags that shape a search with it.
///
/// A record is well formed when it has exactly one regex source: either
/// `regex`, or a non-empty `regex_list`.
#[derive(Debug, Clone, PartialEq, Eq)]
pub struct Pattern {
    /// Where the schema of the stored form is published; informational.
    pub schema: Option<String>,
    /// The semantic version of the record.
    pub version: String,
    /// Who wrote the pattern.
    pub author: Option<String>,
    /// What the pattern finds.
    pub description: Option<String>,
    /// Tags for categorisation; their order carries no meaning.
    pub tags: Option<Vec<String>>,
    /// A single regular expression.
    pub regex: Option<String>,
    /// Several regular expressions, any of which may match.
    pub regex_list: Option<Vec<String>>,
    /// File extensions to search; absent means every extension.
    pub file_types: Option<Vec<String>>,
    /// Whether the search ignores case.
    pub ignore_case: bool,
    /// Whether a dot also matches a line break.
    pub multiline: bool,
}

/// What a [`Pattern`] holds, as mathematical values.
pub struct PatternView {
    pub schema: Option<Seq<char>>,
    pub version: Seq<char>,
    pub author: Option<Seq<char>>,
    pub description: Option<Seq<char>>,
    pub tags: Option<Seq<Seq<char>>>,
    pub regex: Option<Seq<char>>,
    pub regex_list: Option<Seq<Seq<char>>>,
    pub file_types: Option<Seq<Seq<char>>>,
    pub ignore_case: bool,
    pub multiline: bool,
}

impl View for Pattern {
    type V = PatternView;

    open spec fn view(&self) -> PatternView {
        PatternView {
            schema: opt_view(self.schema),
            version: self.version@,
            author: opt_view(self.author),
            description: opt_view(self.description),
            tags: opt_views(self.tags),
            regex: opt_view(self.regex),
            regex_list: opt_views(self.regex_list),
            file_types: opt_views(self.file_types),
            ignore_case: self.ignore_case,
            multiline: self.multiline,
        }
    }
}

impl PatternView {
    /// Exactly one regex source is present: a single regex, or a non-empty list.
    pub open spec fn well_formed(self) -> bool {
        match (self.regex, self.regex_list) {
            (Some(_), None) => true,
            (None, Some(list)) => list.len() > 0,
            _ => false,
        }
    }

    /// The one expression that stands for the record's regex source: the
    /// single regex as it is, or the list as a non-capturing group of
    /// alternatives.
    pub open spec fn raw_pattern(self) -> Seq<char>
        recommends
            self.well_formed(),
    {
        match self.regex {
            Some(single) => single,
            None => "(?:"@ + join(self.regex_list.unwrap(), "|"@) + ")"@,
        }
    }

    /// The record's tags as a set; a record without tags has none.
    pub open spec fn tag_set(self) -> Set<Seq<char>> {
        match self.tags {
            Some(tags) => tags.to_set(),
            None => Set::empty(),
        }
    }
}

/// The views of a sequence of records, in order.
pub open spec fn record_views(records: Seq<Pattern>) -> Seq<PatternView> {
    records.map_values(|p: Pattern| p@)
}

/// Why a record without exactly one regex source is refused.
pub open spec fn missing_regex_text() -> Seq<char> {
    "Pattern file must contain either a 'pattern' key or a non-empty 'patterns' key."@
}

/// Why a parsed form is no usable record, if it is none: the reason why it
/// did not parse, or that it has not exactly one regex source.
pub open spec fn refusal(parsed: Result<Pattern, String>) -> Option<Seq<char>> {
    match parsed {
        Ok(record) => if record@.well_formed() {
            None
        } else {
            Some(missing_regex_text())
        },
        Err(reason) => Some(reason@),
    }
}

/// The version that a record has when none is written in it.
pub fn default_version() -> (version: String)
    ensures
        version@ == "1.0.0"@,
{
    String::from_str("1.0.0")
}

impl Pattern {
    /// The record's regex source as one expression.
    ///
    /// Fails with `MissingRegex` exactly when the record is not well formed.
    pub fn get_raw_pattern(&self) -> (out: Result<String, GfrError>)
        ensures
            self@.well_formed() ==> out is Ok && out->Ok_0@ == self@.raw_pattern(),
            !self@.well_formed() ==> out == Err::<String, GfrError>(GfrError::MissingRegex),
    {
        match (&self.regex, &self.regex_list) {
            (Some(single), None) => Ok(single.clone()),
            (None, Some(list)) => {
                if list.len() > 0 {
                    let group = String::from_str("(?:").concat(
                        join_strings(list, "|").as_str(),
                    ).concat(")");
                    Ok(group)
                } else {
                    Err(GfrError::MissingRegex)
                }
            },
            _ => Err(GfrError::MissingRegex),
        }
    }

    /// Whether the record has exactly one regex source.
    pub fn is_well_formed(&self) -> (ok: bool)
        ensures
            ok == self@.well_formed(),
    {
        match (&self.regex, &self.regex_list) {
            (Some(_), None) => true,
            (None, Some(list)) => list.len() > 0,
            _ => false,
        }
    }

    /// Checks what parsing a stored form gave: hands back a record with
    /// exactly one regex source, and otherwise says why there is none.
    pub fn checked(parsed: Result<Pattern, String>) -> (out: Result<Pattern, String>)
        ensures
            refusal(parsed) is None ==> out == parsed,
            refusal(parsed) is Some ==> out is Err && out->Err_0@ == refusal(parsed)->0,
    {
        match parsed {
            Ok(record) => {
                if record.is_well_formed() {
                    Ok(record)
                } else {
                    Err(GfrError::MissingRegex.message())
                }
            },
            Err(reason) => Err(reason),
        }
    }

    /// A copy of the record, field for field.
    pub fn duplicate(&self) -> (copy: Pattern)
        ensures
            copy@ == self@,
    {
        Pattern {
            schema: copy_opt_text(&self.schema),
            version: self.version.clone(),
            author: copy_opt_text(&self.author),
            description: copy_opt_text(&self.description),
            tags: copy_opt_texts(&self.tags),
            regex: copy_opt_text(&self.regex),
            regex_list: copy_opt_texts(&self.regex_list),
            file_types: copy_opt_texts(&self.file_types),
            ignore_case: self.ignore_case,
            multiline: self.multiline,
        }
    }
}

} // verus!
