//! The manifest: which pattern is installed at which version.

use vstd::prelude::*;

verus! {

/// A pattern name with the version installed under it, as mathematical values.
pub type PairView = (Seq<char>, Seq<char>);

/// The views of a sequence of name and version pairs, in order.
pub open spec fn pair_views(pairs: Seq<(String, String)>) -> Seq<PairView> {
    pairs.map_values(|p: (String, String)| (p.0@, p.1@))
}

/// The mapping that a sequence of pairs stands for; of two pairs with the
/// same name the later one counts.
pub open spec fn map_of(pairs: Seq<PairView>) -> Map<Seq<char>, Seq<char>>
    decreases pairs.len(),
{
    if pairs.len() == 0 {
        Map::empty()
    } else {
        map_of(pairs.drop_last()).insert(pairs.last().0, pairs.last().1)
    }
}

/// No two pairs have the same name.
pub open spec fn distinct_names(pairs: Seq<PairView>) -> bool {
    forall|i: int, j: int|
        0 <= i < pairs.len() && 0 <= j < pairs.len() && i != j ==> (#[trigger] pairs[i]).0 != (
        #[trigger] pairs[j]).0
}

/// The names of `map_of(pairs)` are the names of the pairs.
pub proof fn lemma_map_of_names(pairs: Seq<PairView>, name: Seq<char>)
    ensures
        map_of(pairs).contains_key(name) <==> exists|i: int|
            0 <= i < pairs.len() && (#[trigger] pairs[i]).0 == name,
    decreases pairs.len(),
{
    if pairs.len() > 0 {
        let front = pairs.drop_last();
        lemma_map_of_names(front, name);
        if map_of(front).contains_key(name) {
            let i = choose|i: int| 0 <= i < front.len() && (#[trigger] front[i]).0 == name;
            assert(pairs[i].0 == name);
        }
        if pairs.last().0 == name {
            assert(pairs[pairs.len() - 1].0 == name);
        }
        if exists|i: int| 0 <= i < pairs.len() && (#[trigger] pairs[i]).0 == name {
            let i = choose|i: int| 0 <= i < pairs.len() && (#[trigger] pairs[i]).0 == name;
            if i < front.len() {
                assert(front[i].0 == name);
            }
        }
    }
}

/// Where names are distinct, each pair's name maps to that pair's version.
pub proof fn lemma_map_of_value(pairs: Seq<PairView>, i: int)
    requires
        distinct_names(pairs),
        0 <= i < pairs.len(),
    ensures
        map_of(pairs).contains_key(pairs[i].0),
        map_of(pairs)[pairs[i].0] == pairs[i].1,
    decreases pairs.len(),
{
    let front = pairs.drop_last();
    if i < pairs.len() - 1 {
        assert(distinct_names(front)) by {
            assert forall|a: int, b: int|
                0 <= a < front.len() && 0 <= b < front.len() && a != b implies (
            #[trigger] front[a]).0 != (#[trigger] front[b]).0 by {
                assert(pairs[a].0 != pairs[b].0);
            }
        }
        lemma_map_of_value(front, i);
        assert(front[i] == pairs[i]);
        assert(pairs[pairs.len() - 1].0 != pairs[i].0);
    }
}

/// The installed version of each installed pattern, by the pattern's name.
///
/// Held as a list of pairs in which no name occurs twice, in the order in
/// which the names were first installed.
#[derive(Debug)]
pub struct Manifest {
    pairs: Vec<(String, String)>,
}

impl View for Manifest {
    type V = Map<Seq<char>, Seq<char>>;

    closed spec fn view(&self) -> Map<Seq<char>, Seq<char>> {
        map_of(pair_views(self.pairs@))
    }
}

impl Manifest {
    #[verifier::type_invariant]
    spec fn names_are_distinct(self) -> bool {
        distinct_names(pair_views(self.pairs@))
    }

    /// The manifest of a store in which nothing is installed.
    pub fn new() -> (manifest: Manifest)
        ensures
            manifest@ == Map::<Seq<char>, Seq<char>>::empty(),
    {
        Manifest { pairs: Vec::new() }
    }

    /// Where the pair for `name` stands, if the name is installed.
    fn position(&self, name: &String) -> (at: Option<usize>)
        ensures
            at is Some <==> self@.contains_key(name@),
            at is Some ==> at->0 < self.pairs@.len() && self.pairs@[at->0 as int].0@ == name@
                && self@[name@] == self.pairs@[at->0 as int].1@,
    {
        proof {
            use_type_invariant(self);
            lemma_map_of_names(pair_views(self.pairs@), name@);
        }
        let mut i: usize = 0;
        while i < self.pairs.len()
            invariant
                i <= self.pairs.len(),
                forall|j: int| 0 <= j < i ==> (#[trigger] pair_views(self.pairs@)[j]).0 != name@,
            decreases self.pairs.len() - i,
        {
            if self.pairs[i].0 == *name {
                proof {
                    use_type_invariant(self);
                    lemma_map_of_value(pair_views(self.pairs@), i as int);
                    assert(pair_views(self.pairs@)[i as int].0 == name@);
                }
                return Some(i);
            }
            i += 1;
        }
        None
    }

    /// The version installed under `name`, if any.
    pub fn get(&self, name: &String) -> (version: Option<&String>)
        ensures
            version is Some <==> self@.contains_key(name@),
            version is Some ==> version->0@ == self@[name@],
    {
        match self.position(name) {
            Some(at) => Some(&self.pairs[at].1),
            None => None,
        }
    }

    /// Whether a version is installed under `name`.
    pub fn contains(&self, name: &String) -> (found: bool)
        ensures
            found == self@.contains_key(name@),
    {
        self.position(name).is_some()
    }

    /// Records `version` as installed under `name`, in place of any version
    /// recorded under that name before.
    pub fn insert(&mut self, name: String, version: String)
        ensures
            final(self)@ == old(self)@.insert(name@, version@),
    {
        let at = self.position(&name);
        proof {
            use_type_invariant(&*self);
        }
        let ghost before = pair_views(self.pairs@);
        let mut pairs: Vec<(String, String)> = Vec::new();
        std::mem::swap(&mut self.pairs, &mut pairs);
        match at {
            Some(at) => {
                pairs[at] = (name, version);
                proof {
                    let after = pair_views(pairs@);
                    assert(after =~= before.update(at as int, (name@, version@)));
                    assert(distinct_names(after)) by {
                        assert forall|a: int, b: int|
                            0 <= a < after.len() && 0 <= b < after.len() && a != b implies (
                        #[trigger] after[a]).0 != (#[trigger] after[b]).0 by {
                            assert(before[a].0 != before[b].0);
                        }
                    }
                    assert forall|k: Seq<char>| #[trigger]
                        map_of(after).contains_key(k) <==> map_of(before).insert(
                            name@,
                            version@,
                        ).contains_key(k) by {
                        lemma_map_of_names(after, k);
                        lemma_map_of_names(before, k);
                        if exists|i: int| 0 <= i < after.len() && (#[trigger] after[i]).0 == k {
                            let i = choose|i: int|
                                0 <= i < after.len() && (#[trigger] after[i]).0 == k;
                            assert(before[i].0 == k);
                        }
                        if exists|i: int| 0 <= i < before.len() && (#[trigger] before[i]).0 == k {
                            let i = choose|i: int|
                                0 <= i < before.len() && (#[trigger] before[i]).0 == k;
                            assert(after[i].0 == k);
                        }
                    }
                    assert forall|k: Seq<char>| #[trigger]
                        map_of(after).contains_key(k) implies map_of(after)[k] == map_of(
                        before,
                    ).insert(name@, version@)[k] by {
                        lemma_map_of_names(after, k);
                        let i = choose|i: int|
                            0 <= i < after.len() && (#[trigger] after[i]).0 == k;
                        lemma_map_of_value(after, i);
                        if i != at {
                            assert(before[i] == after[i]);
                            assert(before[i].0 != before[at as int].0);
                            lemma_map_of_value(before, i);
                        }
                    }
                    assert(map_of(after) =~= map_of(before).insert(name@, version@));
                }
            },
            None => {
                pairs.push((name, version));
                proof {
                    let after = pair_views(pairs@);
                    assert(after =~= before.push((name@, version@)));
                    assert(after.drop_last() =~= before);
                    lemma_map_of_names(before, name@);
                    assert(distinct_names(after)) by {
                        assert forall|a: int, b: int|
                            0 <= a < after.len() && 0 <= b < after.len() && a != b implies (
                        #[trigger] after[a]).0 != (#[trigger] after[b]).0 by {
                            if a < before.len() && b < before.len() {
                                assert(before[a].0 != before[b].0);
                            } else if a < before.len() {
                                assert(before[a].0 != name@);
                            } else {
                                assert(before[b].0 != name@);
                            }
                        }
                    }
                }
            },
        }
        std::mem::swap(&mut self.pairs, &mut pairs);
    }

    /// How many patterns are installed.
    pub fn len(&self) -> (count: usize)
        ensures
            count == self@.dom().len(),
            self@.dom().finite(),
    {
        proof {
            use_type_invariant(self);
            lemma_map_of_size(pair_views(self.pairs@));
        }
        self.pairs.len()
    }

    /// The manifest that a list of name and version pairs stands for; of
    /// two pairs with the same name the later one counts.
    pub fn from_pairs(pairs: Vec<(String, String)>) -> (manifest: Manifest)
        ensures
            manifest@ == map_of(pair_views(pairs@)),
    {
        let mut manifest = Manifest::new();
        let mut pairs = pairs;
        let ghost all = pair_views(pairs@);
        let mut i: usize = 0;
        while i < pairs.len()
            invariant
                i <= pairs.len(),
                pair_views(pairs@) == all,
                manifest@ == map_of(all.take(i as int)),
            decreases pairs.len() - i,
        {
            proof {
                assert(all.take(i + 1).drop_last() == all.take(i as int));
                assert(all.take(i + 1).last() == all[i as int]);
            }
            let name = pairs[i].0.clone();
            let version = pairs[i].1.clone();
            manifest.insert(name, version);
            i += 1;
        }
        assert(all.take(pairs@.len() as int) == all);
        manifest
    }

    /// The manifest as a list of name and version pairs, each installed
    /// name once, in the order in which the names were first installed.
    pub fn to_pairs(&self) -> (pairs: Vec<(String, String)>)
        ensures
            distinct_names(pair_views(pairs@)),
            map_of(pair_views(pairs@)) == self@,
    {
        proof {
            use_type_invariant(self);
        }
        let mut out: Vec<(String, String)> = Vec::new();
        let mut i: usize = 0;
        while i < self.pairs.len()
            invariant
                i <= self.pairs.len(),
                pair_views(out@) == pair_views(self.pairs@).take(i as int),
            decreases self.pairs.len() - i,
        {
            let ghost before = out@;
            let pair = (self.pairs[i].0.clone(), self.pairs[i].1.clone());
            out.push(pair);
            assert(pair_views(out@) =~= pair_views(before).push((pair.0@, pair.1@)));
            assert(pair_views(out@) =~= pair_views(self.pairs@).take(i + 1));
            i += 1;
        }
        assert(pair_views(self.pairs@).take(self.pairs@.len() as int) == pair_views(self.pairs@));
        out
    }
}

/// Where names are distinct, the mapping has as many names as there are pairs.
pub proof fn lemma_map_of_size(pairs: Seq<PairView>)
    requires
        distinct_names(pairs),
    ensures
        map_of(pairs).dom().finite(),
        map_of(pairs).dom().len() == pairs.len(),
    decreases pairs.len(),
{
    if pairs.len() > 0 {
        let front = pairs.drop_last();
        assert(distinct_names(front)) by {
            assert forall|a: int, b: int|
                0 <= a < front.len() && 0 <= b < front.len() && a != b implies (
            #[trigger] front[a]).0 != (#[trigger] front[b]).0 by {
                assert(pairs[a].0 != pairs[b].0);
            }
        }
        lemma_map_of_size(front);
        lemma_map_of_names(front, pairs.last().0);
        if exists|i: int| 0 <= i < front.len() && (#[trigger] front[i]).0 == pairs.last().0 {
            let i = choose|i: int|
                0 <= i < front.len() && (#[trigger] front[i]).0 == pairs.last().0;
            assert(pairs[i].0 != pairs[pairs.len() - 1].0);
        }
    }
}

} // verus!
