//! Running a search: compiling the matcher, planning the walk over a file
//! tree, and deciding what to do with each entry that the walk yields.

use vstd::prelude::*;
use vstd::string::StringExecFns;
use crate::aggregate::{all_well_formed, combine, composite_of, CompositeMatcherSpec, CompositeView};
use crate::error::GfrError;
use crate::pattern::{record_views, Pattern};
use crate::text::views;

verus! {

/// The compiled matcher of the `grep_regex` crate. Nothing is known of what
/// is inside; it is handed on to the searcher as it is.
#[verifier::external_type_specification]
#[verifier::external_body]
pub struct ExRegexMatcher(grep_regex::RegexMatcher);

/// The error with which `grep_regex` refuses an expression.
#[verifier::external_type_specification]
#[verifier::external_body]
pub struct ExRegexError(grep_regex::Error);

/// Whether `grep_regex::RegexMatcherBuilder::build` accepts the expression
/// with the given byte set as line terminator and every other option at
/// its default.
pub uninterp spec fn matcher_accepts(expression: Seq<char>, line_terminator: u8) -> bool;

/// Calls `grep_regex::RegexMatcherBuilder::build` on `expression`, on a new
/// builder whose line terminator is set to the given byte.
///
/// Not proved: that success is the answer named by [`matcher_accepts`],
/// that is, that it depends on the expression and the byte alone.
#[verifier::external_body]
fn build_regex_matcher(expression: &str, line_terminator: u8) -> (out: Result<
    grep_regex::RegexMatcher,
    grep_regex::Error,
>)
    ensures
        out is Ok == matcher_accepts(expression@, line_terminator),
{
    grep_regex::RegexMatcherBuilder::new().line_terminator(Some(line_terminator)).build(expression)
}

/// The text that `grep_regex::Error` displays. Nothing is claimed of it.
#[verifier::external_body]
fn regex_error_text(error: &grep_regex::Error) -> (text: String) {
    error.to_string()
}

/// The byte that ends a line of the searched input.
pub const LINE_TERMINATOR: u8 = 10;

/// Compiles the final expression of `spec` into a matcher whose matches
/// never span a line break.
///
/// Fails with `CompileFailure`, which carries the engine's explanation,
/// exactly when the engine does not accept the expression.
pub fn compile(spec: &CompositeMatcherSpec) -> (out: Result<grep_regex::RegexMatcher, GfrError>)
    ensures
        out is Ok == matcher_accepts(spec@.final_expression(), LINE_TERMINATOR),
        out is Err ==> out->Err_0 is CompileFailure,
{
    let expression = spec.final_expression();
    match build_regex_matcher(expression.as_str(), LINE_TERMINATOR) {
        Ok(matcher) => Ok(matcher),
        Err(error) => Err(GfrError::CompileFailure(regex_error_text(&error))),
    }
}

/// What a search reads.
#[derive(Debug, Clone, Copy, PartialEq, Eq, Structural)]
pub enum SearchMode {
    /// The standard input, start to end, in one pass.
    Stream,
    /// The files of a tree, walked by a pool of workers.
    Tree,
}

/// The mode of a search: the tree is walked when the standard input is a
/// terminal, and the standard input is read when it is not.
pub fn search_mode(stdin_is_terminal: bool) -> (mode: SearchMode)
    ensures
        mode == (if stdin_is_terminal {
            SearchMode::Tree
        } else {
            SearchMode::Stream
        }),
{
    if stdin_is_terminal {
        SearchMode::Tree
    } else {
        SearchMode::Stream
    }
}

/// How a scan treats a file that may be binary.
#[derive(Debug, Clone, Copy, PartialEq, Eq, Structural)]
pub enum BinaryPolicy {
    /// The scan of a file stops at the first byte of this value, and the
    /// file counts as binary.
    QuitAt(u8),
    /// Every file is scanned as text.
    Off,
}

/// How a tree is walked and its files are scanned.
#[derive(Debug, Clone, PartialEq, Eq)]
pub struct TreePlan {
    /// The name of the ignore file that is honoured besides the standard ones.
    pub ignore_file: String,
    /// The globs that a file must match one of; empty means every file.
    pub extension_globs: Vec<String>,
    /// How binary files are treated.
    pub binary: BinaryPolicy,
}

/// The glob that admits the files with extension `ext`.
pub open spec fn glob_of(ext: Seq<char>) -> Seq<char> {
    "*."@ + ext
}

/// The globs that restrict a walk: one per extension of the specification,
/// and none at all when binary files are included.
pub open spec fn extension_globs(spec: CompositeView, include_bin: bool) -> Seq<Seq<char>> {
    if include_bin {
        Seq::empty()
    } else {
        spec.file_types.map_values(|ext: Seq<char>| glob_of(ext))
    }
}

impl TreePlan {
    /// The plan is the one for a walk with `spec`: the custom ignore file
    /// is honoured, the walk is restricted to the extensions of the
    /// specification unless binary files are included, and a scan stops at
    /// the first NUL byte unless binary files are included.
    pub open spec fn is_for(self, spec: CompositeView, include_bin: bool) -> bool {
        &&& self.ignore_file@ == ".gfrignore"@
        &&& views(self.extension_globs@) == extension_globs(spec, include_bin)
        &&& self.binary == (if include_bin {
            BinaryPolicy::Off
        } else {
            BinaryPolicy::QuitAt(0)
        })
    }
}

/// Plans the walk for `spec`.
///
/// The walk is restricted to the extensions of the specification only if
/// there are any and binary files are not asked for. Binary detection is
/// off when binary files are asked for; otherwise a scan stops at the
/// first NUL byte.
pub fn plan_tree(spec: &CompositeMatcherSpec, include_bin: bool) -> (plan: TreePlan)
    ensures
        plan.is_for(spec@, include_bin),
{
    let mut globs: Vec<String> = Vec::new();
    if !include_bin {
        let mut i: usize = 0;
        while i < spec.file_types.len()
            invariant
                i <= spec.file_types.len(),
                views(globs@) == extension_globs(spec@, false).take(i as int),
            decreases spec.file_types.len() - i,
        {
            let ghost before = globs@;
            let glob = String::from_str("*.").concat(spec.file_types[i].as_str());
            globs.push(glob);
            assert(views(globs@) =~= views(before).push(glob@));
            assert(views(globs@) =~= extension_globs(spec@, false).take(i + 1));
            i += 1;
        }
        assert(extension_globs(spec@, false).take(spec.file_types@.len() as int)
            == extension_globs(spec@, false));
    }
    assert(views(globs@) =~= extension_globs(spec@, include_bin));
    TreePlan {
        ignore_file: String::from_str(".gfrignore"),
        extension_globs: globs,
        binary: if include_bin {
            BinaryPolicy::Off
        } else {
            BinaryPolicy::QuitAt(0)
        },
    }
}

/// How a search is run.
#[derive(Debug, Clone, PartialEq, Eq)]
pub enum SearchPlan {
    /// Scan the standard input in one pass.
    Stream,
    /// Walk the tree as the plan says.
    Tree(TreePlan),
}

/// Everything that a search runs with.
#[derive(Debug)]
pub struct SearchJob {
    /// What the records combine to.
    pub spec: CompositeMatcherSpec,
    /// The compiled matcher; each worker takes a copy of its own.
    pub matcher: grep_regex::RegexMatcher,
    /// What is searched, and how.
    pub plan: SearchPlan,
}

/// Prepares a search with `records`: combines them, compiles the matcher
/// once, and plans the run.
///
/// Fails with `MissingRegex` when some record has not exactly one regex
/// source, and otherwise with `CompileFailure` when the engine does not
/// accept the final expression. Nothing else can fail before the run.
pub fn prepare_search(records: &Vec<Pattern>, stdin_is_terminal: bool, include_bin: bool) -> (out:
    Result<SearchJob, GfrError>)
    requires
        records@.len() > 0,
    ensures
        !all_well_formed(record_views(records@)) ==> out is Err && out->Err_0
            == GfrError::MissingRegex,
        all_well_formed(record_views(records@)) ==> (out is Ok == matcher_accepts(
            composite_of(record_views(records@)).final_expression(),
            LINE_TERMINATOR,
        )),
        all_well_formed(record_views(records@)) && out is Err ==> out->Err_0 is CompileFailure,
        out is Ok ==> out->Ok_0.spec@ == composite_of(record_views(records@)),
        out is Ok && !stdin_is_terminal ==> out->Ok_0.plan == SearchPlan::Stream,
        out is Ok && stdin_is_terminal ==> (out->Ok_0.plan matches SearchPlan::Tree(plan)
            && plan.is_for(composite_of(record_views(records@)), include_bin)),
{
    let spec = match combine(records) {
        Ok(spec) => spec,
        Err(e) => {
            return Err(e);
        },
    };
    let matcher = match compile(&spec) {
        Ok(matcher) => matcher,
        Err(e) => {
            return Err(e);
        },
    };
    let plan = match search_mode(stdin_is_terminal) {
        SearchMode::Tree => SearchPlan::Tree(plan_tree(&spec, include_bin)),
        SearchMode::Stream => SearchPlan::Stream,
    };
    Ok(SearchJob { spec, matcher, plan })
}

/// What a walk hands to a worker.
#[derive(Debug, Clone, PartialEq, Eq)]
pub enum WalkEvent {
    /// An entry could not be read; carries the walk's explanation.
    Unreadable(String),
    /// An entry was read; `is_file` says whether it is a regular file.
    Entry { is_file: bool },
}

/// Whether a walk goes on.
#[derive(Debug, Clone, Copy, PartialEq, Eq, Structural)]
pub enum WalkControl {
    /// The walk goes on with the next entry.
    Continue,
    /// The walk ends.
    Quit,
}

/// A line for the diagnostic stream: a subject, which is set off from the
/// rest when styles are in use, and the explanation.
#[derive(Debug, Clone, PartialEq, Eq)]
pub enum Diagnostic {
    /// An entry of the walk could not be read.
    WalkEntryError { detail: String },
    /// The scan of the file at `path` failed.
    FileScanError { path: String, detail: String },
}

impl Diagnostic {
    /// The subject of the line.
    pub open spec fn subject_text(self) -> Seq<char> {
        match self {
            Diagnostic::WalkEntryError { .. } => "Error:"@,
            Diagnostic::FileScanError { path, .. } => path@,
        }
    }

    /// The rest of the line, behind the subject.
    pub open spec fn rest_text(self) -> Seq<char> {
        match self {
            Diagnostic::WalkEntryError { detail } => " "@ + detail@,
            Diagnostic::FileScanError { detail, .. } => ": "@ + detail@,
        }
    }

    /// The subject of the line.
    pub fn subject(&self) -> (out: String)
        ensures
            out@ == self.subject_text(),
    {
        match self {
            Diagnostic::WalkEntryError { .. } => String::from_str("Error:"),
            Diagnostic::FileScanError { path, .. } => path.clone(),
        }
    }

    /// The rest of the line, behind the subject.
    pub fn rest(&self) -> (out: String)
        ensures
            out@ == self.rest_text(),
    {
        match self {
            Diagnostic::WalkEntryError { detail } => String::from_str(" ").concat(detail.as_str()),
            Diagnostic::FileScanError { detail, .. } => String::from_str(": ").concat(
                detail.as_str(),
            ),
        }
    }

    /// The whole line.
    pub fn line(&self) -> (out: String)
        ensures
            out@ == self.subject_text() + self.rest_text(),
    {
        self.subject().concat(self.rest().as_str())
    }
}

/// What a worker does with an entry.
#[derive(Debug, Clone, PartialEq, Eq)]
pub enum EntryAction {
    /// Print the diagnostic; there is nothing to scan.
    Report(Diagnostic),
    /// Scan the file.
    Scan,
    /// Nothing: the entry is no regular file.
    Pass,
}

/// What a worker does with what the walk hands it, and whether the walk
/// goes on.
///
/// An unreadable entry is reported, a regular file is scanned, anything
/// else is passed over. The walk goes on in every case.
pub fn on_walk_event(event: WalkEvent) -> (out: (EntryAction, WalkControl))
    ensures
        out.1 == WalkControl::Continue,
        out.0 == (match event {
            WalkEvent::Unreadable(detail) => EntryAction::Report(
                Diagnostic::WalkEntryError { detail },
            ),
            WalkEvent::Entry { is_file: true } => EntryAction::Scan,
            WalkEvent::Entry { is_file: false } => EntryAction::Pass,
        }),
{
    let action = match event {
        WalkEvent::Unreadable(detail) => EntryAction::Report(Diagnostic::WalkEntryError { detail }),
        WalkEvent::Entry { is_file } => if is_file {
            EntryAction::Scan
        } else {
            EntryAction::Pass
        },
    };
    (action, WalkControl::Continue)
}

/// What a worker reports after the scan of the file at `path`, and whether
/// the walk goes on. `failure` is `None` after a scan that ran to its end,
/// and the explanation of a scan that failed.
///
/// A failed scan is reported, with the path; the walk goes on either way.
pub fn on_scan_end(path: String, failure: Option<String>) -> (out: (
    Option<Diagnostic>,
    WalkControl,
))
    ensures
        out.1 == WalkControl::Continue,
        out.0 == (match failure {
            Some(detail) => Some(Diagnostic::FileScanError { path, detail }),
            None => None,
        }),
{
    let report = match failure {
        Some(detail) => Some(Diagnostic::FileScanError { path, detail }),
        None => None,
    };
    (report, WalkControl::Continue)
}

} // verus!
