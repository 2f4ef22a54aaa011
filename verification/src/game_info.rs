//! Where a game's guide is looked for: a `Guides` folder in one of the folders above the game,
//! holding the game's path below that folder as a text file. Paths are lists of components.

use vstd::prelude::*;
use vstd::string::*;

verus! {

/// The components of a path as text.
pub open spec fn components(v: Seq<String>) -> Seq<Seq<char>> {
    v.map_values(|s: String| s@)
}

/// The number of leading components of each folder searched for a game whose path has `n`
/// components, nearest first: every folder above the game, up to the games folder when the
/// game lies below it (`stop` is its length), else up to the root.
pub open spec fn spec_guide_parents(n: int, stop: int) -> Seq<usize> {
    if n == 0 {
        Seq::empty()
    } else {
        Seq::new((n - stop) as nat, |i: int| (n - 1 - i) as usize)
    }
}

/// Where the search stops for a game at `path`: the length of the games folder when it holds
/// the game below it, else the root.
pub open spec fn spec_search_stop(path: Seq<Seq<char>>, games: Seq<Seq<char>>) -> int {
    if games.len() < path.len() && path.subrange(0, games.len() as int) == games {
        games.len() as int
    } else {
        0
    }
}

/// Whether the first `games.len()` components of `path` are those of `games`.
fn starts_with(path: &Vec<String>, games: &Vec<String>) -> (b: bool)
    requires
        games@.len() <= path@.len(),
    ensures
        b == (components(path@).subrange(0, games@.len() as int) == components(games@)),
{
    let mut i: usize = 0;
    while i < games.len()
        invariant
            i <= games@.len() <= path@.len(),
            components(path@).subrange(0, i as int) == components(games@).subrange(0, i as int),
        decreases games@.len() - i,
    {
        if !path[i].eq(&games[i]) {
            assert(components(path@).subrange(0, games@.len() as int)[i as int] != components(
                games@,
            )[i as int]);
            return false;
        }
        assert(components(path@).subrange(0, (i + 1) as int) =~= components(games@).subrange(
            0,
            (i + 1) as int,
        ));
        i = i + 1;
    }
    assert(components(games@).subrange(0, games@.len() as int) =~= components(games@));
    true
}

/// The folders searched for the guide of the game at `path`, nearest first, as the number of
/// their leading components.
pub fn guide_parents(path: &Vec<String>, games: &Vec<String>) -> (r: Vec<usize>)
    ensures
        r@ == spec_guide_parents(path@.len() as int, spec_search_stop(components(path@), components(games@))),
{
    let n = path.len();
    let mut r: Vec<usize> = Vec::new();
    if n == 0 {
        assert(r@ =~= spec_guide_parents(0, spec_search_stop(components(path@), components(games@))));
        return r;
    }
    let stop = if games.len() < n && starts_with(path, games) {
        games.len()
    } else {
        0
    };
    let mut len = n;
    while len > stop
        invariant
            stop < n == path@.len(),
            stop <= len <= n,
            r@.len() == n - len,
            forall|i: int| 0 <= i < r@.len() ==> #[trigger] r@[i] == n - 1 - i,
        decreases len - stop,
    {
        len = len - 1;
        r.push(len);
    }
    assert(r@ =~= spec_guide_parents(n as int, stop as int));
    r
}

/// The guide of the game at `path` in the `Guides` folder of the folder of its first
/// `parent` components: that folder, `Guides`, the rest of the game's folders, and the file
/// name with the extension `txt` (`txt_name`).
pub open spec fn spec_guide_path(path: Seq<Seq<char>>, parent: int, txt_name: Seq<char>) -> Seq<
    Seq<char>,
> {
    path.subrange(0, parent) + seq!["Guides"@] + path.subrange(parent, path.len() - 1) + seq![
        txt_name,
    ]
}

/// The guide of the game at `path` in the `Guides` folder of the folder of its first `parent`
/// components.
pub fn guide_path(path: &Vec<String>, parent: usize, txt_name: &str) -> (r: Vec<String>)
    requires
        parent < path@.len(),
    ensures
        components(r@) == spec_guide_path(components(path@), parent as int, txt_name@),
{
    let n = path.len();
    let mut r: Vec<String> = Vec::new();
    let mut i: usize = 0;
    while i < parent
        invariant
            i <= parent < n == path@.len(),
            r@.len() == i,
            forall|k: int| 0 <= k < i ==> #[trigger] r@[k]@ == path@[k]@,
        decreases parent - i,
    {
        let c = path[i].clone();
        r.push(c);
        i = i + 1;
    }
    proof {
        reveal_strlit("Guides");
    }
    r.push(String::from_str("Guides"));
    while i < n - 1
        invariant
            parent <= i <= n - 1,
            n == path@.len(),
            r@.len() == i + 1,
            forall|k: int| 0 <= k < parent ==> #[trigger] r@[k]@ == path@[k]@,
            r@[parent as int]@ == "Guides"@,
            forall|k: int| parent < k <= i ==> #[trigger] r@[k]@ == path@[k - 1]@,
        decreases n - 1 - i,
    {
        let c = path[i].clone();
        r.push(c);
        i = i + 1;
    }
    r.push(String::from_str(txt_name));
    assert(components(r@) =~= spec_guide_path(components(path@), parent as int, txt_name@));
    r
}

/// The first folder searched, in order, whose `Guides` folder holds the guide, given for each
/// whether it does.
pub fn first_found(found: &Vec<bool>) -> (r: Option<usize>)
    ensures
        match r {
            Some(i) => i < found@.len() && found@[i as int] && forall|j: int|
                0 <= j < i ==> !#[trigger] found@[j],
            None => forall|j: int| 0 <= j < found@.len() ==> !#[trigger] found@[j],
        },
{
    let mut i: usize = 0;
    while i < found.len()
        invariant
            i <= found@.len(),
            forall|j: int| 0 <= j < i ==> !#[trigger] found@[j],
        decreases found@.len() - i,
    {
        if found[i] {
            return Some(i);
        }
        i = i + 1;
    }
    None
}

/// The guide recorded for a path in a list of records, the first record for the path
/// winning: `Some` of what was found (itself `None` when there is no guide), or `None` when the
/// path has no record.
pub open spec fn recorded_guide(
    records: Seq<(Seq<char>, Option<Seq<char>>)>,
    path: Seq<char>,
) -> Option<Option<Seq<char>>>
    decreases records.len(),
{
    if records.len() == 0 {
        None
    } else {
        match recorded_guide(records.drop_last(), path) {
            Some(g) => Some(g),
            None => if records.last().0 == path {
                Some(records.last().1)
            } else {
                None
            },
        }
    }
}

/// An optional string as text.
pub open spec fn opt_text(s: Option<String>) -> Option<Seq<char>> {
    match s {
        Some(t) => Some(t@),
        None => None,
    }
}

/// What the cache holds for `path` after the search result `found` is recorded: what it held
/// before when the path had a record, `found` otherwise.
pub open spec fn spec_after_record(
    before: Option<Option<Seq<char>>>,
    found: Option<Seq<char>>,
) -> Option<Seq<char>> {
    match before {
        Some(g) => g,
        None => found,
    }
}

/// A record of a longer list keeps the answer of a shorter prefix that has one.
proof fn lemma_recorded_prefix(records: Seq<(Seq<char>, Option<Seq<char>>)>, n: int, path: Seq<char>)
    requires
        0 <= n <= records.len(),
        recorded_guide(records.subrange(0, n), path) is Some,
    ensures
        recorded_guide(records, path) == recorded_guide(records.subrange(0, n), path),
    decreases records.len() - n,
{
    if n < records.len() {
        let longer = records.subrange(0, n + 1);
        assert(longer.drop_last() =~= records.subrange(0, n));
        lemma_recorded_prefix(records, n + 1, path);
    } else {
        assert(records.subrange(0, n) =~= records);
    }
}

/// The guides found so far, by game path, so that each game's guide is searched for once.
#[derive(Debug)]
pub struct GuideCache {
    records: Vec<(String, Option<String>)>,
}

impl GuideCache {
    /// The records as text.
    pub closed spec fn spec_records(&self) -> Seq<(Seq<char>, Option<Seq<char>>)> {
        self.records@.map_values(|r: (String, Option<String>)| (r.0@, opt_text(r.1)))
    }

    /// What the cache holds for `path`: `Some` of the guide found (itself `None` when there is
    /// none), or `None` when the path was never searched.
    pub open spec fn spec_cached(&self, path: Seq<char>) -> Option<Option<Seq<char>>> {
        recorded_guide(self.spec_records(), path)
    }

    /// A cache that holds nothing.
    pub fn new() -> (c: Self)
        ensures
            forall|p: Seq<char>| c.spec_cached(p) is None,
    {
        let c = GuideCache { records: Vec::new() };
        assert(c.spec_records() =~= Seq::empty());
        c
    }

    /// The guide held for `path`, if the path was searched.
    pub fn lookup(&self, path: &str) -> (r: Option<Option<String>>)
        ensures
            match r {
                None => self.spec_cached(path@) is None,
                Some(g) => self.spec_cached(path@) == Some(opt_text(g)),
            },
    {
        let ghost records = self.spec_records();
        let key = String::from_str(path);
        let mut i: usize = 0;
        while i < self.records.len()
            invariant
                i <= self.records@.len(),
                records == self.spec_records(),
                records.len() == self.records@.len(),
                recorded_guide(records.subrange(0, i as int), path@) is None,
                key@ == path@,
            decreases self.records@.len() - i,
        {
            let ghost prefix = records.subrange(0, i as int);
            let ghost next = records.subrange(0, i + 1);
            assert(next.drop_last() =~= prefix);
            assert(next.last() == records[i as int]);
            if self.records[i].0.eq(&key) {
                assert(records[i as int].0 == path@);
                proof {
                    lemma_recorded_prefix(records, i + 1, path@);
                }
                return Some(self.records[i].1.clone());
            }
            i = i + 1;
        }
        assert(records.subrange(0, records.len() as int) =~= records);
        None
    }

    /// Records the search result `found` for `path` and gives back the guide for the path:
    /// the one found by the first search, which a later search does not replace.
    pub fn record(&mut self, path: &str, found: Option<String>) -> (g: Option<String>)
        ensures
            opt_text(g) == spec_after_record(old(self).spec_cached(path@), opt_text(found)),
            final(self).spec_cached(path@) == Some(opt_text(g)),
            forall|p: Seq<char>| p != path@ ==> final(self).spec_cached(p) == old(self).spec_cached(p),
    {
        match self.lookup(path) {
            Some(g) => g,
            None => {
                let ghost before = self.spec_records();
                self.records.push((String::from_str(path), found.clone()));
                assert(self.spec_records() =~= before.push((path@, opt_text(found))));
                assert(self.spec_records().drop_last() =~= before);
                found
            },
        }
    }
}

/// Once a game's guide is recorded, every later search result for the same game gives back
/// the first one.
pub proof fn lemma_record_keeps_first(
    before: Option<Option<Seq<char>>>,
    first: Option<Seq<char>>,
    later: Option<Seq<char>>,
)
    ensures
        spec_after_record(Some(spec_after_record(before, first)), later) == spec_after_record(
            before,
            first,
        ),
{
}

} // verus!
