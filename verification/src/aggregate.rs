//! Merging the selected records into one composite matcher specification.

use vstd::prelude::*;
use vstd::string::StringExecFns;
use crate::error::GfrError;
use crate::pattern::{record_views, Pattern, PatternView};
use crate::text::{holds, join, join_strings, lemma_join_empty, views};

verus! {

/// Every record has exactly one regex source.
pub open spec fn all_well_formed(records: Seq<PatternView>) -> bool {
    forall|i: int| 0 <= i < records.len() ==> (#[trigger] records[i]).well_formed()
}

/// The raw pattern of each record, in order.
pub open spec fn raw_patterns(records: Seq<PatternView>) -> Seq<Seq<char>> {
    records.map_values(|r: PatternView| r.raw_pattern())
}

/// The raw patterns of all records as alternatives of one expression. No
/// group is put around the whole.
pub open spec fn combined_regex(records: Seq<PatternView>) -> Seq<char> {
    join(raw_patterns(records), "|"@)
}

/// Some record asks for a search that ignores case.
pub open spec fn any_ignore_case(records: Seq<PatternView>) -> bool {
    exists|i: int| 0 <= i < records.len() && (#[trigger] records[i]).ignore_case
}

/// Some record asks for a dot that matches line breaks.
pub open spec fn any_multiline(records: Seq<PatternView>) -> bool {
    exists|i: int| 0 <= i < records.len() && (#[trigger] records[i]).multiline
}

/// The extensions that at least one record names.
pub open spec fn file_type_union(records: Seq<PatternView>) -> Set<Seq<char>> {
    Set::new(
        |ext: Seq<char>|
            exists|i: int|
                0 <= i < records.len() && (#[trigger] records[i]).file_types is Some
                    && records[i].file_types->0.contains(ext),
    )
}

/// `acc` followed by those of `items` that are not yet in it, each once, in
/// the order in which they first occur.
pub open spec fn with_new(acc: Seq<Seq<char>>, items: Seq<Seq<char>>) -> Seq<Seq<char>>
    decreases items.len(),
{
    if items.len() == 0 {
        acc
    } else {
        let before = with_new(acc, items.drop_last());
        if before.contains(items.last()) {
            before
        } else {
            before.push(items.last())
        }
    }
}

/// The extensions that the records name, each once, in the order in which
/// they first occur.
pub open spec fn merged_file_types(records: Seq<PatternView>) -> Seq<Seq<char>>
    decreases records.len(),
{
    if records.len() == 0 {
        Seq::empty()
    } else {
        let before = merged_file_types(records.drop_last());
        match records.last().file_types {
            Some(exts) => with_new(before, exts),
            None => before,
        }
    }
}

/// The inline flag group that stands before the combined expression: `i`
/// before `s`, and no group at all when neither flag is set.
pub open spec fn flag_group(ignore_case: bool, multiline: bool) -> Seq<char> {
    if ignore_case && multiline {
        "(?is)"@
    } else if ignore_case {
        "(?i)"@
    } else if multiline {
        "(?s)"@
    } else {
        Seq::empty()
    }
}

/// What one search runs with: the merged expression, flags and extensions
/// of the records it was asked for.
#[derive(Debug, Clone, PartialEq, Eq)]
pub struct CompositeMatcherSpec {
    /// The records' raw patterns as alternatives.
    pub combined_regex: String,
    /// Whether any record ignores case.
    pub ignore_case: bool,
    /// Whether any record lets a dot match line breaks.
    pub multiline: bool,
    /// The extensions to search, each once; empty means no restriction.
    pub file_types: Vec<String>,
}

/// What a [`CompositeMatcherSpec`] holds, as mathematical values.
pub struct CompositeView {
    pub combined_regex: Seq<char>,
    pub ignore_case: bool,
    pub multiline: bool,
    pub file_types: Seq<Seq<char>>,
}

impl View for CompositeMatcherSpec {
    type V = CompositeView;

    open spec fn view(&self) -> CompositeView {
        CompositeView {
            combined_regex: self.combined_regex@,
            ignore_case: self.ignore_case,
            multiline: self.multiline,
            file_types: views(self.file_types@),
        }
    }
}

impl CompositeView {
    /// The expression that is compiled: the flag group, if any, and then the
    /// combined expression.
    pub open spec fn final_expression(self) -> Seq<char> {
        flag_group(self.ignore_case, self.multiline) + self.combined_regex
    }
}

/// The composite specification that `records` combine to.
pub open spec fn composite_of(records: Seq<PatternView>) -> CompositeView {
    CompositeView {
        combined_regex: combined_regex(records),
        ignore_case: any_ignore_case(records),
        multiline: any_multiline(records),
        file_types: merged_file_types(records),
    }
}

/// `with_new` keeps what is in `acc`, adds exactly the members of `items`,
/// and adds nothing twice.
pub proof fn lemma_with_new(acc: Seq<Seq<char>>, items: Seq<Seq<char>>)
    requires
        acc.no_duplicates(),
    ensures
        with_new(acc, items).no_duplicates(),
        with_new(acc, items).to_set() == acc.to_set().union(items.to_set()),
    decreases items.len(),
{
    if items.len() == 0 {
        assert(items.to_set() =~= Set::empty());
        assert(acc.to_set().union(items.to_set()) =~= acc.to_set());
    } else {
        let front = items.drop_last();
        let before = with_new(acc, front);
        lemma_with_new(acc, front);
        let after = with_new(acc, items);
        assert(items =~= front.push(items.last()));
        assert forall|x: Seq<char>| items.to_set().contains(x) <==> (front.to_set().contains(x)
            || x == items.last()) by {
            if items.contains(x) {
                let k = choose|k: int| 0 <= k < items.len() && items[k] == x;
                if k < front.len() {
                    assert(front[k] == x);
                }
            }
            if front.contains(x) {
                let k = choose|k: int| 0 <= k < front.len() && front[k] == x;
                assert(items[k] == x);
            }
            if x == items.last() {
                assert(items[items.len() - 1] == x);
            }
        }
        if before.contains(items.last()) {
            assert(after.to_set() =~= acc.to_set().union(items.to_set()));
        } else {
            assert forall|x: Seq<char>| after.to_set().contains(x) <==> (before.to_set().contains(
                x,
            ) || x == items.last()) by {
                if after.contains(x) {
                    let k = choose|k: int| 0 <= k < after.len() && after[k] == x;
                    if k < before.len() {
                        assert(before[k] == x);
                    }
                }
                if before.contains(x) {
                    let k = choose|k: int| 0 <= k < before.len() && before[k] == x;
                    assert(after[k] == x);
                }
                if x == items.last() {
                    assert(after[after.len() - 1] == x);
                }
            }
            assert(after.to_set() =~= acc.to_set().union(items.to_set()));
        }
    }
}

/// The merged extensions hold each extension of the union once, and nothing else.
pub proof fn lemma_merged_file_types(records: Seq<PatternView>)
    ensures
        merged_file_types(records).no_duplicates(),
        merged_file_types(records).to_set() == file_type_union(records),
    decreases records.len(),
{
    if records.len() == 0 {
        assert(merged_file_types(records).to_set() =~= file_type_union(records));
    } else {
        let front = records.drop_last();
        let before = merged_file_types(front);
        lemma_merged_file_types(front);
        let last = records.last();
        assert forall|x: Seq<char>| file_type_union(records).contains(x) <==> (file_type_union(
            front,
        ).contains(x) || (last.file_types is Some && last.file_types->0.contains(x))) by {
            if file_type_union(records).contains(x) {
                let i = choose|i: int|
                    0 <= i < records.len() && (#[trigger] records[i]).file_types is Some
                        && records[i].file_types->0.contains(x);
                if i < front.len() {
                    assert(front[i].file_types is Some && front[i].file_types->0.contains(x));
                }
            }
            if file_type_union(front).contains(x) {
                let i = choose|i: int|
                    0 <= i < front.len() && (#[trigger] front[i]).file_types is Some
                        && front[i].file_types->0.contains(x);
                assert(records[i].file_types is Some && records[i].file_types->0.contains(x));
            }
            if last.file_types is Some && last.file_types->0.contains(x) {
                assert(records[records.len() - 1].file_types is Some);
            }
        }
        match last.file_types {
            Some(exts) => {
                lemma_with_new(before, exts);
                assert(merged_file_types(records).to_set() =~= file_type_union(records));
            },
            None => {
                assert(merged_file_types(records).to_set() =~= file_type_union(records));
            },
        }
    }
}

/// Well-formed records never combine to an empty expression, except for a
/// single record whose single regex is itself empty.
pub proof fn law_combined_regex_not_empty(records: Seq<PatternView>)
    requires
        records.len() > 0,
        all_well_formed(records),
        !(records.len() == 1 && records[0].regex == Some(Seq::<char>::empty())),
    ensures
        combined_regex(records).len() > 0,
        composite_of(records).final_expression().len() > 0,
{
    reveal_strlit("|");
    reveal_strlit("(?:");
    let raws = raw_patterns(records);
    lemma_join_empty(raws, "|"@);
    if records.len() == 1 {
        assert(records[0].well_formed());
        assert(raws[0] == records[0].raw_pattern());
        if records[0].regex is Some {
            assert(records[0].regex->0 !~= Seq::<char>::empty());
        }
    }
}

/// The final expression is the combined one with one flag group in front
/// when some record sets a flag, and the combined one as it is when none
/// does. The group names `i` before `s`.
pub proof fn law_one_flag_group(records: Seq<PatternView>)
    ensures
        !any_ignore_case(records) && !any_multiline(records) ==> composite_of(
            records,
        ).final_expression() == combined_regex(records),
        any_ignore_case(records) || any_multiline(records) ==> composite_of(
            records,
        ).final_expression() == "(?"@ + (if any_ignore_case(records) {
            seq!['i']
        } else {
            seq![]
        }) + (if any_multiline(records) {
            seq!['s']
        } else {
            seq![]
        }) + ")"@ + combined_regex(records),
{
    reveal_strlit("(?");
    reveal_strlit(")");
    reveal_strlit("(?is)");
    reveal_strlit("(?i)");
    reveal_strlit("(?s)");
    let i = any_ignore_case(records);
    let m = any_multiline(records);
    if i || m {
        assert(flag_group(i, m) =~= "(?"@ + (if i {
            seq!['i']
        } else {
            seq![]
        }) + (if m {
            seq!['s']
        } else {
            seq![]
        }) + ")"@);
    } else {
        assert(composite_of(records).final_expression() =~= combined_regex(records));
    }
}

/// Adds to `acc` those of `items` that it does not hold yet.
fn add_new(acc: &mut Vec<String>, items: &Vec<String>)
    ensures
        views(final(acc)@) == with_new(views(old(acc)@), views(items@)),
{
    let mut i: usize = 0;
    while i < items.len()
        invariant
            i <= items.len(),
            views(acc@) == with_new(views(old(acc)@), views(items@).take(i as int)),
        decreases items.len() - i,
    {
        let ghost before = acc@;
        assert(views(items@).take(i + 1).drop_last() == views(items@).take(i as int));
        assert(views(items@).take(i + 1).last() == items@[i as int]@);
        if !holds(acc, &items[i]) {
            let item = items[i].clone();
            acc.push(item);
            assert(views(acc@) =~= views(before).push(item@));
        }
        i += 1;
    }
    assert(views(items@).take(items@.len() as int) == views(items@));
}

/// Merges `records` into the one specification that a search runs with.
///
/// Fails with `MissingRegex` exactly when some record is not well formed.
/// Otherwise the combined expression is the records' raw patterns joined by
/// `|`, each flag is set when some record sets it, and the extensions are
/// those that some record names.
pub fn combine(records: &Vec<Pattern>) -> (out: Result<CompositeMatcherSpec, GfrError>)
    requires
        records@.len() > 0,
    ensures
        all_well_formed(record_views(records@)) ==> out is Ok && out->Ok_0@ == composite_of(
            record_views(records@),
        ),
        !all_well_formed(record_views(records@)) ==> out == Err::<
            CompositeMatcherSpec,
            GfrError,
        >(GfrError::MissingRegex),
        out is Ok ==> views(out->Ok_0.file_types@).no_duplicates() && views(
            out->Ok_0.file_types@,
        ).to_set() == file_type_union(record_views(records@)),
{
    let ghost all = record_views(records@);
    let mut raws: Vec<String> = Vec::new();
    let mut file_types: Vec<String> = Vec::new();
    let mut ignore_case = false;
    let mut multiline = false;
    let mut i: usize = 0;
    while i < records.len()
        invariant
            i <= records.len(),
            all == record_views(records@),
            all_well_formed(all.take(i as int)),
            views(raws@) == raw_patterns(all.take(i as int)),
            views(file_types@) == merged_file_types(all.take(i as int)),
            ignore_case == any_ignore_case(all.take(i as int)),
            multiline == any_multiline(all.take(i as int)),
        decreases records.len() - i,
    {
        let record = &records[i];
        let ghost seen = all.take(i as int);
        let ghost next = all.take(i + 1);
        proof {
            assert(next.drop_last() == seen);
            assert(next.last() == record@);
            assert(all[i as int] == record@);
        }
        let raw = match record.get_raw_pattern() {
            Ok(raw) => raw,
            Err(_) => {
                return Err(GfrError::MissingRegex);
            },
        };
        let ghost raws_before = raws@;
        raws.push(raw);
        if let Some(exts) = &record.file_types {
            add_new(&mut file_types, exts);
        }
        ignore_case = ignore_case || record.ignore_case;
        multiline = multiline || record.multiline;
        proof {
            assert(views(raws@) =~= views(raws_before).push(raw@));
            assert(raw_patterns(next) =~= raw_patterns(seen).push(record@.raw_pattern()));
            assert forall|k: int| 0 <= k < next.len() implies (#[trigger] next[k]).well_formed() by {
                if k < i {
                    assert(seen[k] == next[k]);
                }
            }
            if any_ignore_case(seen) {
                let k = choose|k: int| 0 <= k < seen.len() && (#[trigger] seen[k]).ignore_case;
                assert(next[k].ignore_case);
            }
            if record.ignore_case {
                assert(next[i as int].ignore_case);
            }
            if any_ignore_case(next) {
                let k = choose|k: int| 0 <= k < next.len() && (#[trigger] next[k]).ignore_case;
                if k < i {
                    assert(seen[k].ignore_case);
                }
            }
            if any_multiline(seen) {
                let k = choose|k: int| 0 <= k < seen.len() && (#[trigger] seen[k]).multiline;
                assert(next[k].multiline);
            }
            if record.multiline {
                assert(next[i as int].multiline);
            }
            if any_multiline(next) {
                let k = choose|k: int| 0 <= k < next.len() && (#[trigger] next[k]).multiline;
                if k < i {
                    assert(seen[k].multiline);
                }
            }
        }
        i += 1;
    }
    proof {
        assert(all.take(records@.len() as int) == all);
        lemma_merged_file_types(all);
    }
    let combined = join_strings(&raws, "|");
    Ok(CompositeMatcherSpec { combined_regex: combined, ignore_case, multiline, file_types })
}

impl CompositeMatcherSpec {
    /// The inline flag group for the specification's flags; empty when no
    /// flag is set.
    pub fn flag_prefix(&self) -> (out: String)
        ensures
            out@ == flag_group(self.ignore_case, self.multiline),
    {
        if self.ignore_case && self.multiline {
            String::from_str("(?is)")
        } else if self.ignore_case {
            String::from_str("(?i)")
        } else if self.multiline {
            String::from_str("(?s)")
        } else {
            String::new()
        }
    }

    /// The expression that is handed to the regex engine.
    pub fn final_expression(&self) -> (out: String)
        ensures
            out@ == self@.final_expression(),
    {
        self.flag_prefix().concat(self.combined_regex.as_str())
    }
}

} // verus!
