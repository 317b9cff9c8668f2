//! Directory scanner: finds entries by name prefix and picks the newest of a
//! set of candidates. It works on listings that the caller has already read.

use vstd::prelude::*;
use crate::text::starts_with;

verus! {

/// One immediate entry of a directory.
#[derive(Debug, Clone, PartialEq, Eq)]
pub struct DirEntry {
    /// The entry's own name, without its directory.
    pub name: String,
    /// The path by which the entry is reached.
    pub path: String,
    /// Whether the entry is a directory.
    pub is_dir: bool,
}

/// A directory entry, with its texts as character sequences.
pub struct DirEntryView {
    pub name: Seq<char>,
    pub path: Seq<char>,
    pub is_dir: bool,
}

impl View for DirEntry {
    type V = DirEntryView;

    open spec fn view(&self) -> DirEntryView {
        DirEntryView { name: self.name@, path: self.path@, is_dir: self.is_dir }
    }
}

impl DeepView for DirEntry {
    type V = DirEntryView;

    open spec fn deep_view(&self) -> DirEntryView {
        self@
    }
}

/// A path together with its creation time, in nanoseconds since the epoch;
/// `None` where the file system could not tell.
#[derive(Debug, Clone, PartialEq, Eq)]
pub struct Candidate {
    pub path: String,
    pub created: Option<u128>,
}

/// A candidate, with its path as a character sequence.
pub struct CandidateView {
    pub path: Seq<char>,
    pub created: Option<u128>,
}

impl View for Candidate {
    type V = CandidateView;

    open spec fn view(&self) -> CandidateView {
        CandidateView { path: self.path@, created: self.created }
    }
}

impl DeepView for Candidate {
    type V = CandidateView;

    open spec fn deep_view(&self) -> CandidateView {
        self@
    }
}

/// What a vector shows after one more element was pushed.
pub proof fn deep_view_push<T: DeepView>(before: Vec<T>, after: Vec<T>, x: T)
    requires
        after@ == before@.push(x),
    ensures
        after.deep_view() == before.deep_view().push(x.deep_view()),
{
    assert(after.deep_view() =~= before.deep_view().push(x.deep_view()));
}

/// Keeps the path of an entry whose name begins with `pattern`.
pub open spec fn pick_prefixed(pattern: Seq<char>) -> spec_fn(DirEntryView) -> Option<Seq<char>> {
    |e: DirEntryView|
        if pattern.is_prefix_of(e.name) {
            Some(e.path)
        } else {
            None
        }
}

/// The paths of the entries whose name begins with `pattern`, in listing order.
pub open spec fn prefixed_paths(entries: Seq<DirEntryView>, pattern: Seq<char>) -> Seq<Seq<char>> {
    entries.filter_map(pick_prefixed(pattern))
}

/// Prefix lookup: the paths of all entries of a listing whose name starts with
/// `pattern`. The listing is not descended into; the order of the listing is kept.
pub fn files_with_prefix(entries: &Vec<DirEntry>, pattern: &str) -> (r: Vec<String>)
    ensures
        r.deep_view() == prefixed_paths(entries.deep_view(), pattern@),
{
    let mut out: Vec<String> = Vec::new();
    let mut i: usize = 0;
    assert(entries.deep_view().take(0) =~= Seq::empty());
    assert(out.deep_view() =~= Seq::empty());
    while i < entries.len()
        invariant
            i <= entries.len(),
            out.deep_view() == prefixed_paths(entries.deep_view().take(i as int), pattern@),
        decreases entries.len() - i,
    {
        let ghost before = out;
        proof {
            entries.deep_view().lemma_filter_map_take_succ(pick_prefixed(pattern@), i as int);
        }
        if starts_with(entries[i].name.as_str(), pattern) {
            let path = entries[i].path.clone();
            out.push(path);
            proof {
                deep_view_push(before, out, path);
            }
        }
        i += 1;
    }
    assert(entries.deep_view().take(entries.len() as int) =~= entries.deep_view());
    out
}

/// No candidate has a creation time.
pub open spec fn unresolved(c: Seq<CandidateView>) -> bool {
    forall|j: int| 0 <= j < c.len() ==> c[j].created is None
}

/// Candidate `i` has the latest creation time of all that have one, and is the
/// first in the sequence to have it.
pub open spec fn is_newest(c: Seq<CandidateView>, i: int) -> bool {
    &&& 0 <= i < c.len()
    &&& c[i].created is Some
    &&& forall|j: int| 0 <= j < c.len() && c[j].created is Some ==> c[j].created->0 <= c[i].created->0
    &&& forall|j: int| 0 <= j < i && c[j].created is Some ==> c[j].created->0 < c[i].created->0
}

/// The index of the newest candidate, if any candidate has a creation time.
pub fn newest_index(candidates: &Vec<Candidate>) -> (r: Option<usize>)
    ensures
        match r {
            Some(i) => is_newest(candidates.deep_view(), i as int),
            None => unresolved(candidates.deep_view()),
        },
{
    let mut best: Option<(usize, u128)> = None;
    let mut i: usize = 0;
    while i < candidates.len()
        invariant
            i <= candidates.len(),
            match best {
                Some((b, t)) => {
                    &&& b < i
                    &&& candidates[b as int].created == Some(t)
                    &&& is_newest(candidates.deep_view().take(i as int), b as int)
                },
                None => unresolved(candidates.deep_view().take(i as int)),
            },
        decreases candidates.len() - i,
    {
        let ghost seen = candidates.deep_view().take(i as int);
        let ghost next = candidates.deep_view().take(i + 1);
        assert(forall|j: int| 0 <= j < i ==> next[j] == seen[j]);
        assert(next[i as int] == candidates[i as int]@);
        match candidates[i].created {
            Some(t) => {
                match best {
                    Some((_, top)) => {
                        if t > top {
                            best = Some((i, t));
                        }
                    },
                    None => {
                        best = Some((i, t));
                    },
                }
            },
            None => {},
        }
        i += 1;
    }
    assert(candidates.deep_view().take(candidates.len() as int) =~= candidates.deep_view());
    match best {
        Some((b, _)) => Some(b),
        None => None,
    }
}

/// Newest by creation time: the path of the candidate created last. Candidates
/// without a creation time are left out; of several created at the same latest
/// instant the first is taken; with no creation time at all there is no result.
pub fn lookup_newest(candidates: &Vec<Candidate>) -> (r: Option<String>)
    ensures
        match r {
            Some(p) => exists|i: int| is_newest(candidates.deep_view(), i) && candidates[i].path@ == p@,
            None => unresolved(candidates.deep_view()),
        },
{
    match newest_index(candidates) {
        Some(i) => Some(candidates[i].path.clone()),
        None => None,
    }
}

/// At most one candidate is the newest.
pub proof fn newest_is_unique(c: Seq<CandidateView>, i: int, j: int)
    requires
        is_newest(c, i),
        is_newest(c, j),
    ensures
        i == j,
{
}

} // verus!
