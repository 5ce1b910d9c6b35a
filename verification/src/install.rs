//! Reconciling the store with a remote index: which entries to fetch, in
//! what order, and what the manifest records afterwards.

use vstd::prelude::*;
use vstd::string::StringExecFns;
use crate::error::GfrError;
use crate::manifest::Manifest;
use crate::pattern::{refusal, Pattern};
use crate::version::{is_older, is_semver, semver_accepts, semver_older};

verus! {

/// The index that an installation reads when no other is named.
pub fn default_index_url() -> (url: String)
    ensures
        url@
            == "https://raw.githubusercontent.com/Kr1shna4garwal/gfr-patterns/refs/heads/main/index.json"@,
{
    String::from_str(
        "https://raw.githubusercontent.com/Kr1shna4garwal/gfr-patterns/refs/heads/main/index.json",
    )
}

/// One entry of the remote index: a pattern's name, the version on offer,
/// and where its body is fetched from.
#[derive(Debug, Clone, PartialEq, Eq)]
pub struct IndexEntry {
    pub name: String,
    pub version: String,
    pub url: String,
}

/// What an [`IndexEntry`] holds, as mathematical values.
pub struct EntryView {
    pub name: Seq<char>,
    pub version: Seq<char>,
    pub url: Seq<char>,
}

impl View for IndexEntry {
    type V = EntryView;

    open spec fn view(&self) -> EntryView {
        EntryView { name: self.name@, version: self.version@, url: self.url@ }
    }
}

/// The views of the entries of an index, in order.
pub open spec fn entry_views(index: Seq<IndexEntry>) -> Seq<EntryView> {
    index.map_values(|e: IndexEntry| e@)
}

/// How the installed state of a pattern stands to the version on offer.
#[derive(Debug, Clone, Copy, PartialEq, Eq, Structural)]
pub enum Standing {
    /// The manifest does not know the pattern.
    Absent,
    /// The manifest records a version that is no semantic version.
    Unparsable,
    /// The manifest records a version strictly less than the one on offer.
    Older,
    /// The manifest records the version on offer, or a later one.
    Current,
}

/// What is done with an entry of the index.
#[derive(Debug, Clone, Copy, PartialEq, Eq, Structural)]
pub enum Verdict {
    /// The pattern is fetched and counts as added.
    Add,
    /// The pattern is fetched and counts as updated.
    Update,
    /// Nothing is fetched.
    Skip,
}

/// The standing of a pattern with the recorded version `local`, if any,
/// to the version `remote` on offer.
pub open spec fn standing_of(local: Option<Seq<char>>, remote: Seq<char>) -> Standing {
    match local {
        None => Standing::Absent,
        Some(recorded) => if !semver_accepts(recorded) {
            Standing::Unparsable
        } else if semver_older(recorded, remote) {
            Standing::Older
        } else {
            Standing::Current
        },
    }
}

/// What follows from a standing: a pattern is installed unless the
/// recorded version is current, and counts as added only if the manifest
/// did not know it.
pub open spec fn verdict_of(standing: Standing) -> Verdict {
    match standing {
        Standing::Absent => Verdict::Add,
        Standing::Unparsable => Verdict::Update,
        Standing::Older => Verdict::Update,
        Standing::Current => Verdict::Skip,
    }
}

/// The verdict on an entry whose version is a semantic version, under a
/// manifest.
pub open spec fn verdict_on(manifest: Map<Seq<char>, Seq<char>>, entry: EntryView) -> Verdict {
    verdict_of(standing_of(manifest.get(entry.name), entry.version))
}

/// Nothing is to be done for the entry: its version is a semantic version
/// and the verdict is to skip it.
pub open spec fn settled(manifest: Map<Seq<char>, Seq<char>>, entry: EntryView) -> bool {
    semver_accepts(entry.version) && verdict_on(manifest, entry) == Verdict::Skip
}

/// A pattern that the manifest does not know is added, whatever version
/// is on offer.
pub proof fn law_unknown_pattern_is_added(manifest: Map<Seq<char>, Seq<char>>, entry: EntryView)
    requires
        !manifest.contains_key(entry.name),
    ensures
        verdict_on(manifest, entry) == Verdict::Add,
        !settled(manifest, entry),
{
}

/// What follows from a standing.
pub fn verdict(standing: Standing) -> (out: Verdict)
    ensures
        out == verdict_of(standing),
{
    match standing {
        Standing::Absent => Verdict::Add,
        Standing::Unparsable => Verdict::Update,
        Standing::Older => Verdict::Update,
        Standing::Current => Verdict::Skip,
    }
}

/// How the recorded version `local`, if any, stands to the version
/// `remote`, which is a semantic version.
fn standing(local: Option<&String>, remote: &str) -> (out: Standing)
    requires
        semver_accepts(remote@),
    ensures
        out == standing_of(
            match local {
                Some(recorded) => Some(recorded@),
                None => None,
            },
            remote@,
        ),
        local is Some && local->0@ == remote@ ==> out == Standing::Current,
{
    match local {
        None => Standing::Absent,
        Some(recorded) => {
            if !is_semver(recorded.as_str()) {
                Standing::Unparsable
            } else if is_older(recorded.as_str(), remote) {
                Standing::Older
            } else {
                Standing::Current
            }
        },
    }
}

/// The verdict on one entry of the index under a manifest.
///
/// Fails with `MalformedRemoteVersion` exactly when the entry's version is
/// no semantic version, whatever the manifest records. An entry whose
/// version is the recorded one is skipped.
pub fn assess(manifest: &Manifest, entry: &IndexEntry) -> (out: Result<Verdict, GfrError>)
    ensures
        semver_accepts(entry.version@) ==> out == Ok::<Verdict, GfrError>(
            verdict_on(manifest@, entry@),
        ),
        semver_accepts(entry.version@) && manifest@.get(entry.name@) == Some(entry.version@)
            ==> out == Ok::<Verdict, GfrError>(Verdict::Skip),
        !semver_accepts(entry.version@) ==> (out matches Err(
            GfrError::MalformedRemoteVersion(name, version),
        ) && name@ == entry.name@ && version@ == entry.version@),
{
    if !is_semver(entry.version.as_str()) {
        return Err(GfrError::MalformedRemoteVersion(entry.name.clone(), entry.version.clone()));
    }
    let local = manifest.get(&entry.name);
    Ok(verdict(standing(local, entry.version.as_str())))
}

/// Checks a fetched pattern body before anything is written to the store,
/// given what parsing the body gave.
///
/// Fails with `RemoteValidationFailure`, which carries the entry's name
/// and the reason, exactly when the body does not parse or the record has
/// not exactly one regex source.
pub fn validate_remote(name: &String, parsed: Result<Pattern, String>) -> (out: Result<
    Pattern,
    GfrError,
>)
    ensures
        refusal(parsed) is None ==> out == Ok::<Pattern, GfrError>(parsed->Ok_0),
        refusal(parsed) is Some ==> (out matches Err(
            GfrError::RemoteValidationFailure(n, reason),
        ) && n@ == name@ && reason@ == refusal(parsed)->0),
{
    match Pattern::checked(parsed) {
        Ok(record) => Ok(record),
        Err(reason) => Err(GfrError::RemoteValidationFailure(name.clone(), reason)),
    }
}

/// What the caller of a reconciliation does next.
#[derive(Debug, Clone, PartialEq, Eq)]
pub enum Step {
    /// Fetch the body of this entry, check it, store it under the entry's
    /// name, and then confirm. The verdict says whether the pattern counts
    /// as added or as updated; it is never to skip.
    Fetch { entry: IndexEntry, verdict: Verdict },
    /// Every entry has been dealt with: persist the manifest.
    Done,
}

/// How many patterns a reconciliation has added and updated.
#[derive(Debug, Clone, Copy, PartialEq, Eq, Structural)]
pub struct Report {
    pub added: usize,
    pub updated: usize,
}

/// A reconciliation in progress: the manifest as it stands, the index, and
/// how far into the index the pass has come.
///
/// The pass goes through the index in order. `advance` passes over the
/// entries for which nothing is to be done and stops at the first one to
/// fetch; `confirm` records that entry as installed and moves on.
#[derive(Debug)]
pub struct Reconciler {
    manifest: Manifest,
    index: Vec<IndexEntry>,
    cursor: usize,
    added: usize,
    updated: usize,
    awaiting: bool,
}

/// What a [`Reconciler`] holds, as mathematical values.
pub struct ReconcilerView {
    /// The manifest as it stands.
    pub manifest: Map<Seq<char>, Seq<char>>,
    /// The entries of the index, in order.
    pub index: Seq<EntryView>,
    /// How many entries have been dealt with.
    pub cursor: nat,
    /// How many patterns have been added.
    pub added: nat,
    /// How many patterns have been updated.
    pub updated: nat,
    /// Whether the entry at the cursor waits to be confirmed.
    pub awaiting: bool,
}

impl View for Reconciler {
    type V = ReconcilerView;

    closed spec fn view(&self) -> ReconcilerView {
        ReconcilerView {
            manifest: self.manifest@,
            index: entry_views(self.index@),
            cursor: self.cursor as nat,
            added: self.added as nat,
            updated: self.updated as nat,
            awaiting: self.awaiting,
        }
    }
}

impl Reconciler {
    #[verifier::type_invariant]
    spec fn in_bounds(self) -> bool {
        &&& self.cursor <= self.index@.len()
        &&& self.added + self.updated <= self.cursor
        &&& self.awaiting ==> self.cursor < self.index@.len()
    }

    /// A reconciliation of `manifest` with `index` that has not dealt with
    /// any entry yet.
    pub fn new(manifest: Manifest, index: Vec<IndexEntry>) -> (out: Reconciler)
        ensures
            out@ == (ReconcilerView {
                manifest: manifest@,
                index: entry_views(index@),
                cursor: 0,
                added: 0,
                updated: 0,
                awaiting: false,
            }),
    {
        Reconciler { manifest, index, cursor: 0, added: 0, updated: 0, awaiting: false }
    }

    /// Passes over the entries for which nothing is to be done, and says
    /// what to do at the first other one.
    ///
    /// From the cursor on, in the order of the index: an entry whose
    /// version is no semantic version ends the pass with
    /// `MalformedRemoteVersion`; an entry that the manifest lacks, or holds
    /// at an unreadable or older version, is to be fetched; any other entry
    /// is passed over. The manifest and the counts do not change.
    pub fn advance(&mut self) -> (out: Result<Step, GfrError>)
        ensures
            final(self)@.manifest == old(self)@.manifest,
            final(self)@.index == old(self)@.index,
            final(self)@.added == old(self)@.added,
            final(self)@.updated == old(self)@.updated,
            old(self)@.cursor <= final(self)@.cursor <= old(self)@.index.len(),
            forall|j: int|
                old(self)@.cursor <= j < final(self)@.cursor ==> settled(
                    old(self)@.manifest,
                    #[trigger] old(self)@.index[j],
                ),
            final(self)@.cursor < old(self)@.index.len() ==> !settled(
                old(self)@.manifest,
                old(self)@.index[final(self)@.cursor as int],
            ),
            final(self)@.awaiting == (out is Ok && out->Ok_0 is Fetch),
            (match out {
                Ok(Step::Done) => final(self)@.cursor == old(self)@.index.len(),
                Ok(Step::Fetch { entry, verdict }) => {
                    &&& final(self)@.cursor < old(self)@.index.len()
                    &&& entry@ == old(self)@.index[final(self)@.cursor as int]
                    &&& semver_accepts(entry@.version)
                    &&& verdict == verdict_on(old(self)@.manifest, entry@)
                },
                Err(e) => {
                    &&& final(self)@.cursor < old(self)@.index.len()
                    &&& !semver_accepts(old(self)@.index[final(self)@.cursor as int].version)
                    &&& e matches GfrError::MalformedRemoteVersion(name, version)
                    &&& name@ == old(self)@.index[final(self)@.cursor as int].name
                    &&& version@ == old(self)@.index[final(self)@.cursor as int].version
                },
            }),
    {
        proof {
            use_type_invariant(&*self);
        }
        self.awaiting = false;
        while self.cursor < self.index.len()
            invariant
                self.cursor <= self.index@.len(),
                self.added + self.updated <= self.cursor,
                !self.awaiting,
                self.manifest == old(self).manifest,
                self.index == old(self).index,
                self.added == old(self).added,
                self.updated == old(self).updated,
                old(self).cursor <= self.cursor,
                forall|j: int|
                    old(self)@.cursor <= j < self.cursor ==> settled(
                        old(self)@.manifest,
                        #[trigger] old(self)@.index[j],
                    ),
            decreases self.index@.len() - self.cursor,
        {
            let entry = &self.index[self.cursor];
            assert(entry@ == entry_views(self.index@)[self.cursor as int]);
            match assess(&self.manifest, entry) {
                Err(e) => {
                    return Err(e);
                },
                Ok(Verdict::Skip) => {
                    self.cursor = self.cursor + 1;
                },
                Ok(verdict) => {
                    let step = Step::Fetch {
                        entry: IndexEntry {
                            name: entry.name.clone(),
                            version: entry.version.clone(),
                            url: entry.url.clone(),
                        },
                        verdict,
                    };
                    self.awaiting = true;
                    return Ok(step);
                },
            }
        }
        Ok(Step::Done)
    }

    /// Records the entry that waits to be confirmed as installed: the
    /// manifest maps its name to its version, it is counted as added if the
    /// manifest did not know the name and as updated otherwise, and the
    /// pass moves on to the next entry.
    ///
    /// Returns whether an entry was waiting; if none was, nothing changes.
    pub fn confirm(&mut self) -> (recorded: bool)
        ensures
            recorded == old(self)@.awaiting,
            !old(self)@.awaiting ==> final(self)@ == old(self)@,
            old(self)@.awaiting ==> ({
                let entry = old(self)@.index[old(self)@.cursor as int];
                let known = old(self)@.manifest.contains_key(entry.name);
                &&& old(self)@.cursor < old(self)@.index.len()
                &&& final(self)@ == (ReconcilerView {
                    manifest: old(self)@.manifest.insert(entry.name, entry.version),
                    index: old(self)@.index,
                    cursor: old(self)@.cursor + 1,
                    added: if known {
                        old(self)@.added
                    } else {
                        old(self)@.added + 1
                    },
                    updated: if known {
                        old(self)@.updated + 1
                    } else {
                        old(self)@.updated
                    },
                    awaiting: false,
                })
            }),
    {
        proof {
            use_type_invariant(&*self);
        }
        if !self.awaiting {
            return false;
        }
        let name = self.index[self.cursor].name.clone();
        let version = self.index[self.cursor].version.clone();
        assert(entry_views(self.index@)[self.cursor as int].name == name@);
        assert(entry_views(self.index@)[self.cursor as int].version == version@);
        let known = self.manifest.contains(&name);
        let total: usize = self.index.len();
        let mut manifest = Manifest::new();
        std::mem::swap(&mut self.manifest, &mut manifest);
        manifest.insert(name, version);
        std::mem::swap(&mut self.manifest, &mut manifest);
        self.awaiting = false;
        assert(self.cursor < total);
        self.cursor = self.cursor + 1;
        if known {
            self.updated = self.updated + 1;
        } else {
            self.added = self.added + 1;
        }
        true
    }

    /// How many patterns have been added and updated so far.
    pub fn report(&self) -> (out: Report)
        ensures
            out.added == self@.added,
            out.updated == self@.updated,
    {
        Report { added: self.added, updated: self.updated }
    }

    /// Whether every entry of the index has been dealt with.
    pub fn is_done(&self) -> (done: bool)
        ensures
            done == (self@.cursor == self@.index.len()),
    {
        self.cursor == self.index.len()
    }

    /// Ends the reconciliation and hands out the manifest to persist, with
    /// the counts.
    pub fn finish(self) -> (out: (Manifest, Report))
        ensures
            out.0@ == self@.manifest,
            out.1.added == self@.added,
            out.1.updated == self@.updated,
    {
        let report = Report { added: self.added, updated: self.updated };
        (self.manifest, report)
    }
}

} // verus!
