//! Selecting the records of a search: one by name, or those that pass a
//! tag and author filter.

use vstd::prelude::*;
use crate::error::GfrError;
use crate::pattern::{record_views, Pattern, PatternView};
use crate::repository::RepoEntry;
use crate::text::{holds, opt_view, opt_views, views};

verus! {

/// What a search selects its records by.
#[derive(Debug, Clone, PartialEq, Eq)]
pub enum Selection {
    /// The one record stored under this name.
    Named(String),
    /// Every record that passes the tag filter and the author filter, at
    /// least one of which is present.
    Filtered { tags: Option<Vec<String>>, author: Option<String> },
}

/// Decides what a search selects by, from the optional pattern name and
/// the optional filters.
///
/// A name excludes the filters: both together fail with
/// `ConflictingFilters`. Nothing at all fails with `NoFilterSpecified`.
pub fn select(name: Option<String>, tags: Option<Vec<String>>, author: Option<String>) -> (out:
    Result<Selection, GfrError>)
    ensures
        name is Some && (tags is Some || author is Some) ==> out == Err::<Selection, GfrError>(
            GfrError::ConflictingFilters,
        ),
        name is None && tags is None && author is None ==> out == Err::<Selection, GfrError>(
            GfrError::NoFilterSpecified,
        ),
        name is Some && tags is None && author is None ==> out == Ok::<Selection, GfrError>(
            Selection::Named(name->0),
        ),
        name is None && (tags is Some || author is Some) ==> out == Ok::<Selection, GfrError>(
            Selection::Filtered { tags, author },
        ),
{
    match name {
        Some(name) => {
            if tags.is_some() || author.is_some() {
                Err(GfrError::ConflictingFilters)
            } else {
                Ok(Selection::Named(name))
            }
        },
        None => {
            if tags.is_none() && author.is_none() {
                Err(GfrError::NoFilterSpecified)
            } else {
                Ok(Selection::Filtered { tags, author })
            }
        },
    }
}

/// Whether a record passes the filters: its author is exactly the wanted
/// one, if one is wanted, and it carries every wanted tag, if tags are
/// wanted. The record may carry more tags than are wanted.
pub open spec fn passes(
    record: PatternView,
    tags: Option<Seq<Seq<char>>>,
    author: Option<Seq<char>>,
) -> bool {
    &&& author is Some ==> record.author == author
    &&& tags is Some ==> tags->0.to_set().subset_of(record.tag_set())
}

/// The usable records among `entries` that pass the filters, in order.
pub open spec fn retained(
    entries: Seq<RepoEntry>,
    tags: Option<Seq<Seq<char>>>,
    author: Option<Seq<char>>,
) -> Seq<PatternView>
    decreases entries.len(),
{
    if entries.len() == 0 {
        Seq::empty()
    } else {
        let before = retained(entries.drop_last(), tags, author);
        match entries.last().usable() {
            Some(record) => if passes(record, tags, author) {
                before.push(record)
            } else {
                before
            },
            None => before,
        }
    }
}

/// A record is retained exactly when some entry holds it, usable, and it
/// passes the filters.
pub proof fn lemma_retained_members(
    entries: Seq<RepoEntry>,
    tags: Option<Seq<Seq<char>>>,
    author: Option<Seq<char>>,
    record: PatternView,
)
    ensures
        retained(entries, tags, author).contains(record) <==> (passes(record, tags, author)
            && exists|i: int|
            0 <= i < entries.len() && (#[trigger] entries[i]).usable() == Some(record)),
    decreases entries.len(),
{
    if entries.len() > 0 {
        let front = entries.drop_last();
        let before = retained(front, tags, author);
        let after = retained(entries, tags, author);
        lemma_retained_members(front, tags, author, record);
        if before.contains(record) {
            let i = choose|i: int|
                0 <= i < front.len() && (#[trigger] front[i]).usable() == Some(record);
            assert(entries[i].usable() == Some(record));
            let k = choose|k: int| 0 <= k < before.len() && before[k] == record;
            assert(after[k] == record);
        }
        if after.contains(record) && !before.contains(record) {
            let k = choose|k: int| 0 <= k < after.len() && after[k] == record;
            assert(k == before.len());
            assert(entries[entries.len() - 1].usable() == Some(record));
        }
        if passes(record, tags, author) && exists|i: int|
            0 <= i < entries.len() && (#[trigger] entries[i]).usable() == Some(record) {
            let i = choose|i: int|
                0 <= i < entries.len() && (#[trigger] entries[i]).usable() == Some(record);
            if i < front.len() {
                assert(front[i].usable() == Some(record));
            } else {
                assert(after == before.push(record));
                assert(after[after.len() - 1] == record);
            }
        }
    }
}

/// Every retained record has exactly one regex source and passes the
/// filters; so what is retained can always be combined.
pub proof fn law_retained_records_are_usable(
    entries: Seq<RepoEntry>,
    tags: Option<Seq<Seq<char>>>,
    author: Option<Seq<char>>,
)
    ensures
        forall|k: int|
            0 <= k < retained(entries, tags, author).len() ==> (#[trigger] retained(
                entries,
                tags,
                author,
            )[k]).well_formed() && passes(retained(entries, tags, author)[k], tags, author),
{
    let kept = retained(entries, tags, author);
    assert forall|k: int| 0 <= k < kept.len() implies (#[trigger] kept[k]).well_formed() && passes(
        kept[k],
        tags,
        author,
    ) by {
        let record = kept[k];
        lemma_retained_members(entries, tags, author, record);
        assert(kept.contains(record));
        let i = choose|i: int|
            0 <= i < entries.len() && (#[trigger] entries[i]).usable() == Some(record);
        assert(entries[i].usable() == Some(record));
    }
}

/// Whether every string of `wanted` is among `present`.
fn all_held(wanted: &Vec<String>, present: &Vec<String>) -> (ok: bool)
    ensures
        ok == views(wanted@).to_set().subset_of(views(present@).to_set()),
{
    let mut i: usize = 0;
    while i < wanted.len()
        invariant
            i <= wanted.len(),
            forall|j: int| 0 <= j < i ==> views(present@).contains(#[trigger] views(wanted@)[j]),
        decreases wanted.len() - i,
    {
        if !holds(present, &wanted[i]) {
            assert(views(wanted@)[i as int] == wanted@[i as int]@);
            assert(views(wanted@).to_set().contains(views(wanted@)[i as int]));
            return false;
        }
        assert(views(wanted@)[i as int] == wanted@[i as int]@);
        i += 1;
    }
    assert forall|x: Seq<char>| views(wanted@).to_set().contains(x) implies views(
        present@,
    ).to_set().contains(x) by {
        let j = choose|j: int| 0 <= j < views(wanted@).len() && views(wanted@)[j] == x;
        assert(views(present@).contains(views(wanted@)[j]));
    }
    true
}

/// Whether `record` passes the tag filter and the author filter.
pub fn accepts(record: &Pattern, tags: &Option<Vec<String>>, author: &Option<String>) -> (ok:
    bool)
    ensures
        ok == passes(record@, opt_views(*tags), opt_view(*author)),
{
    let author_ok = match author {
        Some(wanted) => match &record.author {
            Some(actual) => *actual == *wanted,
            None => false,
        },
        None => true,
    };
    if !author_ok {
        return false;
    }
    match tags {
        Some(wanted) => match &record.tags {
            Some(present) => all_held(wanted, present),
            None => {
                assert(views(wanted@).len() == 0 <==> views(wanted@).to_set().subset_of(
                    Set::<Seq<char>>::empty(),
                )) by {
                    if views(wanted@).len() > 0 {
                        assert(views(wanted@).to_set().contains(views(wanted@)[0]));
                    }
                }
                wanted.len() == 0
            },
        },
        None => true,
    }
}

/// The records of the store that pass the filters, in the order of the
/// enumeration. Entries that do not parse, or that have not exactly one
/// regex source, are passed over in silence.
///
/// Fails with `NoMatches` exactly when no record is retained.
pub fn retain_matching(
    entries: &Vec<RepoEntry>,
    tags: &Option<Vec<String>>,
    author: &Option<String>,
) -> (out: Result<Vec<Pattern>, GfrError>)
    ensures
        retained(entries@, opt_views(*tags), opt_view(*author)).len() > 0 ==> out is Ok
            && record_views(out->Ok_0@) == retained(entries@, opt_views(*tags), opt_view(*author)),
        retained(entries@, opt_views(*tags), opt_view(*author)).len() == 0 ==> out == Err::<
            Vec<Pattern>,
            GfrError,
        >(GfrError::NoMatches),
{
    let mut kept: Vec<Pattern> = Vec::new();
    let mut i: usize = 0;
    while i < entries.len()
        invariant
            i <= entries.len(),
            record_views(kept@) == retained(
                entries@.take(i as int),
                opt_views(*tags),
                opt_view(*author),
            ),
        decreases entries.len() - i,
    {
        proof {
            assert(entries@.take(i + 1).drop_last() == entries@.take(i as int));
            assert(entries@.take(i + 1).last() == entries@[i as int]);
        }
        if let Some(record) = &entries[i].record {
            if record.is_well_formed() && accepts(record, tags, author) {
                let ghost before = kept@;
                let copy = record.duplicate();
                kept.push(copy);
                assert(record_views(kept@) =~= record_views(before).push(copy@));
            }
        }
        i += 1;
    }
    assert(entries@.take(entries@.len() as int) == entries@);
    if kept.len() == 0 {
        Err(GfrError::NoMatches)
    } else {
        Ok(kept)
    }
}

/// What a search command amounts to.
#[derive(Debug, Clone, PartialEq, Eq)]
pub enum SearchCommand {
    /// Show the stored form of the record of this name, and search nothing.
    Dump(String),
    /// Search with the records that the selection picks.
    Search(Selection),
}

/// Decides what a search command amounts to.
///
/// A dump needs the name of the one pattern to show and fails with
/// `DumpNeedsName` without it; filters given beside it play no part. A
/// search proper selects its records as [`select`] says.
pub fn resolve_search(
    name: Option<String>,
    dump: bool,
    tags: Option<Vec<String>>,
    author: Option<String>,
) -> (out: Result<SearchCommand, GfrError>)
    ensures
        dump && name is Some ==> out == Ok::<SearchCommand, GfrError>(
            SearchCommand::Dump(name->0),
        ),
        dump && name is None ==> out == Err::<SearchCommand, GfrError>(GfrError::DumpNeedsName),
        !dump && name is Some && (tags is Some || author is Some) ==> out == Err::<
            SearchCommand,
            GfrError,
        >(GfrError::ConflictingFilters),
        !dump && name is None && tags is None && author is None ==> out == Err::<
            SearchCommand,
            GfrError,
        >(GfrError::NoFilterSpecified),
        !dump && name is Some && tags is None && author is None ==> out == Ok::<
            SearchCommand,
            GfrError,
        >(SearchCommand::Search(Selection::Named(name->0))),
        !dump && name is None && (tags is Some || author is Some) ==> out == Ok::<
            SearchCommand,
            GfrError,
        >(SearchCommand::Search(Selection::Filtered { tags, author })),
{
    if dump {
        match name {
            Some(name) => Ok(SearchCommand::Dump(name)),
            None => Err(GfrError::DumpNeedsName),
        }
    } else {
        match select(name, tags, author) {
            Ok(selection) => Ok(SearchCommand::Search(selection)),
            Err(e) => Err(e),
        }
    }
}

} // verus!
