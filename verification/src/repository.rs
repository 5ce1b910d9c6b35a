//! The rules of the pattern store: which files are records, under which
//! names, and what may be loaded from or saved to it.

use vstd::prelude::*;
use vstd::string::{StrSliceExecFns, StringExecFns};
use crate::error::GfrError;
use crate::pattern::{refusal, Pattern, PatternView};
use crate::text::{join, join_strings, opt_view, opt_views};

verus! {

/// The directory of the store below the user's configuration directory.
pub fn config_dir_name() -> (name: String)
    ensures
        name@ == "gfr"@,
{
    String::from_str("gfr")
}

/// The reserved file name of the manifest of installed versions.
pub fn manifest_file_name() -> (name: String)
    ensures
        name@ == "installed.json"@,
{
    String::from_str("installed.json")
}

/// Where the schema of stored records is published.
pub fn default_schema_url() -> (url: String)
    ensures
        url@
            == "https://raw.githubusercontent.com/Kr1shna4garwal/gfr-patterns/refs/heads/main/schemas/pattern.schema.json"@,
{
    String::from_str(
        "https://raw.githubusercontent.com/Kr1shna4garwal/gfr-patterns/refs/heads/main/schemas/pattern.schema.json",
    )
}

/// The file name under which the record called `name` is stored.
pub open spec fn file_name_of(name: Seq<char>) -> Seq<char> {
    name + ".json"@
}

/// The name of the record that the file called `file_name` stores, if the
/// file is a record at all: it has the storage suffix behind a non-empty
/// stem, and is not the manifest.
pub open spec fn record_name_of(file_name: Seq<char>) -> Option<Seq<char>> {
    let stem_len: int = file_name.len() - 5;
    if stem_len > 0 && file_name.subrange(stem_len, file_name.len() as int) == ".json"@
        && file_name != "installed.json"@ {
        Some(file_name.subrange(0, stem_len))
    } else {
        None
    }
}

/// The file that stores a record is enumerated under the record's own
/// name, for every name but the empty one and the stem of the manifest.
pub proof fn law_file_name_round_trip(name: Seq<char>)
    requires
        name.len() > 0,
        name != "installed"@,
    ensures
        record_name_of(file_name_of(name)) == Some(name),
{
    reveal_strlit(".json");
    reveal_strlit("installed");
    reveal_strlit("installed.json");
    let file_name = file_name_of(name);
    assert(file_name.len() == name.len() + 5);
    assert(file_name.subrange(name.len() as int, file_name.len() as int) =~= ".json"@);
    assert(file_name.subrange(0, name.len() as int) =~= name);
    if file_name == "installed.json"@ {
        assert(name =~= "installed"@) by {
            assert(name.len() == 9);
            assert forall|i: int| 0 <= i < 9 implies name[i] == "installed"@[i] by {
                assert(file_name[i] == name[i]);
                assert("installed.json"@[i] == "installed"@[i]);
            }
        }
    }
}

/// The file name under which the record called `name` is stored.
pub fn record_file_name(name: &str) -> (file_name: String)
    ensures
        file_name@ == file_name_of(name@),
{
    String::from_str(name).concat(".json")
}

/// The name of the record that a file of the store holds, or `None` for a
/// file that is no record.
pub fn record_name(file_name: &str) -> (name: Option<String>)
    ensures
        opt_view(name) == record_name_of(file_name@),
{
    proof {
        reveal_strlit(".json");
    }
    let len: usize = file_name.unicode_len();
    if len <= 5 {
        return None;
    }
    let stem_len: usize = len - 5;
    let suffix = file_name.substring_char(stem_len, len);
    if String::from_str(suffix) == String::from_str(".json") && !(String::from_str(file_name)
        == manifest_file_name()) {
        Some(String::from_str(file_name.substring_char(0, stem_len)))
    } else {
        None
    }
}

/// Whether `name` can be a storage key: it holds no dot, slash or backslash.
pub open spec fn name_is_valid(name: Seq<char>) -> bool {
    !name.contains('.') && !name.contains('/') && !name.contains('\\')
}

/// Whether `name` can be a storage key.
pub fn is_valid_name(name: &str) -> (ok: bool)
    ensures
        ok == name_is_valid(name@),
{
    let len: usize = name.unicode_len();
    let mut i: usize = 0;
    while i < len
        invariant
            i <= len,
            len == name@.len(),
            forall|j: int| 0 <= j < i ==> name@[j] != '.' && name@[j] != '/' && name@[j] != '\\',
        decreases len - i,
    {
        let c = name.get_char(i);
        if c == '.' || c == '/' || c == '\\' {
            return false;
        }
        i += 1;
    }
    true
}

/// Accepts `name` as a storage key, or fails with `InvalidName`.
pub fn check_name(name: &str) -> (out: Result<(), GfrError>)
    ensures
        name_is_valid(name@) ==> out is Ok,
        !name_is_valid(name@) ==> (out matches Err(GfrError::InvalidName(n)) && n@ == name@),
{
    if is_valid_name(name) {
        Ok(())
    } else {
        Err(GfrError::InvalidName(String::from_str(name)))
    }
}

/// What a load of a stored record yields, given whether its file exists
/// and what parsing the file gave.
///
/// Fails with `NotFound` when the file is absent, and with `InvalidFormat`
/// when it does not parse or has not exactly one regex source. `place`
/// says where the record was looked for, and is carried by either failure.
pub fn loaded(place: String, exists: bool, parsed: Result<Pattern, String>) -> (out: Result<
    Pattern,
    GfrError,
>)
    ensures
        !exists ==> out == Err::<Pattern, GfrError>(GfrError::NotFound(place)),
        exists && refusal(parsed) is None ==> out == Ok::<Pattern, GfrError>(parsed->Ok_0),
        exists && refusal(parsed) is Some ==> (out matches Err(
            GfrError::InvalidFormat(at, reason),
        ) && at == place && reason@ == refusal(parsed)->0),
{
    if !exists {
        return Err(GfrError::NotFound(place));
    }
    match Pattern::checked(parsed) {
        Ok(record) => Ok(record),
        Err(reason) => Err(GfrError::InvalidFormat(place, reason)),
    }
}

/// One file of the store as an enumeration yields it: the record's name,
/// and the record, or `None` where the file does not parse.
#[derive(Debug, Clone, PartialEq, Eq)]
pub struct RepoEntry {
    /// The name under which the record is stored.
    pub name: String,
    /// The record, if the file parses.
    pub record: Option<Pattern>,
}

impl RepoEntry {
    /// The record of the entry, if it parses and has exactly one regex source.
    pub open spec fn usable(self) -> Option<PatternView> {
        match self.record {
            Some(record) => if record@.well_formed() {
                Some(record@)
            } else {
                None
            },
            None => None,
        }
    }
}

/// The arguments of a save: the new record's name, its single regex, and
/// its metadata.
#[derive(Debug, Clone, PartialEq, Eq)]
pub struct SaveArgs {
    /// The name for the new pattern.
    pub name: String,
    /// The regular expression to search for.
    pub pattern: String,
    /// What the pattern finds.
    pub description: Option<String>,
    /// The file extensions to search.
    pub file_types: Option<Vec<String>>,
    /// Whether the search ignores case.
    pub ignore_case: bool,
    /// Whether a dot also matches a line break.
    pub multiline: bool,
    /// The author of the pattern.
    pub author: Option<String>,
    /// Tags for categorisation.
    pub tags: Option<Vec<String>>,
}

/// The record that a save with the arguments `args` stores.
pub open spec fn saved_record(args: SaveArgs) -> PatternView {
    PatternView {
        schema: Some(
            "https://raw.githubusercontent.com/Kr1shna4garwal/gfr-patterns/refs/heads/main/schemas/pattern.schema.json"@,
        ),
        version: "1.0.0"@,
        author: opt_view(args.author),
        description: opt_view(args.description),
        tags: opt_views(args.tags),
        regex: Some(args.pattern@),
        regex_list: None,
        file_types: opt_views(args.file_types),
        ignore_case: args.ignore_case,
        multiline: args.multiline,
    }
}

/// A record that a save stores has exactly one regex source, so a load
/// that finds it hands it back as it is.
pub proof fn law_saved_record_is_well_formed(args: SaveArgs)
    ensures
        saved_record(args).well_formed(),
        saved_record(args).raw_pattern() == args.pattern@,
{
}

/// The record to store for a save, given whether a record is already
/// stored under the name.
///
/// Fails with `InvalidName` when the name cannot be a storage key, and
/// otherwise with `AlreadyExists` when `exists` holds: a save never
/// overwrites. The new record is well formed, with the single regex of the
/// arguments as its source.
pub fn new_record(args: SaveArgs, exists: bool) -> (out: Result<Pattern, GfrError>)
    ensures
        !name_is_valid(args.name@) ==> out == Err::<Pattern, GfrError>(
            GfrError::InvalidName(args.name),
        ),
        name_is_valid(args.name@) && exists ==> out == Err::<Pattern, GfrError>(
            GfrError::AlreadyExists(args.name),
        ),
        name_is_valid(args.name@) && !exists ==> out is Ok && out->Ok_0@ == saved_record(args)
            && out->Ok_0@.well_formed(),
{
    if !is_valid_name(args.name.as_str()) {
        return Err(GfrError::InvalidName(args.name));
    }
    if exists {
        return Err(GfrError::AlreadyExists(args.name));
    }
    Ok(
        Pattern {
            schema: Some(default_schema_url()),
            version: String::from_str("1.0.0"),
            author: args.author,
            description: args.description,
            tags: args.tags,
            regex: Some(args.pattern),
            regex_list: None,
            file_types: args.file_types,
            ignore_case: args.ignore_case,
            multiline: args.multiline,
        },
    )
}

/// One row of a listing of the store.
#[derive(Debug, Clone, PartialEq, Eq)]
pub enum ListRow {
    /// A usable record, with what a listing shows of it.
    Record { name: String, tags: String, description: String, version: String, author: String },
    /// A file that does not parse, or has not exactly one regex source.
    Invalid { name: String },
}

/// How a listing shows the tags of a record: in square brackets, with a
/// comma and a space between neighbours; nothing for a record without tags.
pub open spec fn tags_label(tags: Option<Seq<Seq<char>>>) -> Seq<char> {
    match tags {
        Some(tags) => "["@ + join(tags, ", "@) + "]"@,
        None => Seq::empty(),
    }
}

/// The text that stands for an absent one in a listing.
pub open spec fn text_or(text: Option<Seq<char>>, fallback: Seq<char>) -> Seq<char> {
    match text {
        Some(text) => text,
        None => fallback,
    }
}

/// The row that a listing shows for `entry`. An entry without a usable
/// record is shown as invalid, under its name.
pub fn list_row(entry: &RepoEntry) -> (row: ListRow)
    ensures
        entry.usable() is None ==> (row matches ListRow::Invalid { name } && name@ == entry.name@),
        entry.usable() matches Some(record) ==> (row matches ListRow::Record {
            name,
            tags,
            description,
            version,
            author,
        } && name@ == entry.name@ && tags@ == tags_label(record.tags) && description@ == text_or(
            record.description,
            "No description"@,
        ) && version@ == record.version && author@ == text_or(record.author, "Unknown"@)),
{
    match &entry.record {
        Some(record) => {
            if record.is_well_formed() {
                let tags = match &record.tags {
                    Some(tags) => String::from_str("[").concat(
                        join_strings(tags, ", ").as_str(),
                    ).concat("]"),
                    None => String::new(),
                };
                let description = match &record.description {
                    Some(text) => text.clone(),
                    None => String::from_str("No description"),
                };
                let author = match &record.author {
                    Some(text) => text.clone(),
                    None => String::from_str("Unknown"),
                };
                ListRow::Record {
                    name: entry.name.clone(),
                    tags,
                    description,
                    version: record.version.clone(),
                    author,
                }
            } else {
                ListRow::Invalid { name: entry.name.clone() }
            }
        },
        None => ListRow::Invalid { name: entry.name.clone() },
    }
}

} // verus!
