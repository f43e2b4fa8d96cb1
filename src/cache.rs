//! The cache store: the recorded targets, one per path, kept in the order in
//! which they were first recorded.
use vstd::prelude::*;

use crate::outcome::BuildError;
use crate::target::{Target, TargetView};

verus! {

/// The recorded targets as plain values.
pub open spec fn cache_view(cache: Seq<Target>) -> Seq<TargetView> {
    cache.map_values(|t: Target| t@)
}

/// No two recorded targets share a path.
pub open spec fn unique_paths(cache: Seq<TargetView>) -> bool {
    forall|i: int, j: int| 0 <= i < j < cache.len() ==> (#[trigger] cache[i]).path != (#[trigger] cache[j]).path
}

/// `i` is the first position of `cache` that records `path`.
pub open spec fn is_first_match(cache: Seq<TargetView>, path: Seq<char>, i: int) -> bool {
    &&& 0 <= i < cache.len()
    &&& cache[i].path == path
    &&& forall|j: int| 0 <= j < i ==> (#[trigger] cache[j]).path != path
}

/// The first position of `cache` that records `path`, if any.
pub open spec fn first_match(cache: Seq<TargetView>, path: Seq<char>) -> Option<int> {
    if exists|i: int| is_first_match(cache, path, i) {
        Some(choose|i: int| is_first_match(cache, path, i))
    } else {
        None
    }
}

/// The target recorded for `path`, if any.
pub open spec fn lookup_spec(cache: Seq<TargetView>, path: Seq<char>) -> Option<TargetView> {
    match first_match(cache, path) {
        Some(i) => Some(cache[i]),
        None => None,
    }
}

/// `cache` with `t` recorded: it replaces the entry with the same path, or
/// is appended when there is none.
pub open spec fn upsert_spec(cache: Seq<TargetView>, t: TargetView) -> Seq<TargetView> {
    match first_match(cache, t.path) {
        Some(i) => cache.update(i, t),
        None => cache.push(t),
    }
}

pub proof fn lemma_first_match_unique(cache: Seq<TargetView>, path: Seq<char>, i: int)
    requires
        is_first_match(cache, path, i),
    ensures
        first_match(cache, path) == Some(i),
{
    let k = choose|k: int| is_first_match(cache, path, k);
    assert(is_first_match(cache, path, k));
    if k < i {
        assert(cache[k].path != path);
    } else if i < k {
        assert(cache[i].path != path);
    }
}

pub proof fn lemma_no_match(cache: Seq<TargetView>, path: Seq<char>)
    requires
        forall|j: int| 0 <= j < cache.len() ==> (#[trigger] cache[j]).path != path,
    ensures
        first_match(cache, path) is None,
{
}

pub proof fn lemma_match_has_first(cache: Seq<TargetView>, path: Seq<char>, j: int)
    requires
        0 <= j < cache.len(),
        cache[j].path == path,
    ensures
        first_match(cache, path) is Some,
    decreases j,
{
    if exists|k: int| 0 <= k < j && (#[trigger] cache[k]).path == path {
        let k = choose|k: int| 0 <= k < j && (#[trigger] cache[k]).path == path;
        lemma_match_has_first(cache, path, k);
    } else {
        assert(is_first_match(cache, path, j));
    }
}

/// Recording a target and then looking up its path gives back exactly that
/// target: same path, same dependencies, same fingerprints.
pub proof fn lemma_upsert_then_lookup(cache: Seq<TargetView>, t: TargetView)
    ensures
        lookup_spec(upsert_spec(cache, t), t.path) == Some(t),
{
    let u = upsert_spec(cache, t);
    match first_match(cache, t.path) {
        Some(i) => {
            assert(is_first_match(cache, t.path, i));
            assert(is_first_match(u, t.path, i));
            lemma_first_match_unique(u, t.path, i);
        },
        None => {
            assert forall|j: int| 0 <= j < cache.len() implies (#[trigger] cache[j]).path != t.path by {
                if cache[j].path == t.path {
                    lemma_match_has_first(cache, t.path, j);
                }
            }
            assert(is_first_match(u, t.path, cache.len() as int));
            lemma_first_match_unique(u, t.path, cache.len() as int);
        },
    }
}

/// Recording a target keeps the paths of a cache unique.
pub proof fn lemma_upsert_keeps_unique(cache: Seq<TargetView>, t: TargetView)
    requires
        unique_paths(cache),
    ensures
        unique_paths(upsert_spec(cache, t)),
{
    let u = upsert_spec(cache, t);
    match first_match(cache, t.path) {
        Some(k) => {
            assert(is_first_match(cache, t.path, k));
            assert forall|i: int, j: int| 0 <= i < j < u.len() implies (#[trigger] u[i]).path != (#[trigger] u[j]).path by {
                if i == k {
                    assert(cache[k].path != cache[j].path);
                } else if j == k {
                    assert(cache[i].path != cache[k].path);
                } else {
                    assert(cache[i].path != cache[j].path);
                }
            }
        },
        None => {
            assert forall|i: int, j: int| 0 <= i < j < u.len() implies (#[trigger] u[i]).path != (#[trigger] u[j]).path by {
                if j == cache.len() && cache[i].path == t.path {
                    lemma_match_has_first(cache, t.path, i);
                }
            }
        },
    }
}

/// Position of the first recorded target on `path`.
pub fn find(cache: &Vec<Target>, path: &String) -> (r: Option<usize>)
    ensures
        r matches Some(i) ==> first_match(cache_view(cache@), path@) == Some(i as int),
        r is None ==> first_match(cache_view(cache@), path@) is None,
{
    let ghost v = cache_view(cache@);
    let mut i: usize = 0;
    while i < cache.len()
        invariant
            i <= cache@.len(),
            v == cache_view(cache@),
            forall|j: int| 0 <= j < i ==> (#[trigger] v[j]).path != path@,
        decreases cache@.len() - i,
    {
        if cache[i].path == *path {
            proof {
                lemma_first_match_unique(v, path@, i as int);
            }
            return Some(i);
        }
        i = i + 1;
    }
    proof {
        lemma_no_match(v, path@);
    }
    None
}

/// The recorded target on `path`, copied out of the cache.
pub fn lookup(cache: &Vec<Target>, path: &String) -> (r: Option<Target>)
    ensures
        r matches Some(t) ==> lookup_spec(cache_view(cache@), path@) == Some(t@),
        r is None ==> lookup_spec(cache_view(cache@), path@) is None,
{
    match find(cache, path) {
        Some(i) => Some(cache[i].duplicate()),
        None => None,
    }
}

/// Records `target`, replacing the entry with the same path, or appending
/// it when there is none.
pub fn upsert(cache: &mut Vec<Target>, target: Target)
    ensures
        cache_view(final(cache)@) == upsert_spec(cache_view(old(cache)@), target@),
        unique_paths(cache_view(old(cache)@)) ==> unique_paths(cache_view(final(cache)@)),
{
    let ghost before = cache_view(cache@);
    match find(cache, &target.path) {
        Some(i) => {
            cache[i] = target;
            assert(cache_view(cache@) =~= before.update(i as int, target@));
            proof {
                if unique_paths(before) {
                    lemma_upsert_keeps_unique(before, target@);
                }
            }
        },
        None => {
            cache.push(target);
            assert(cache_view(cache@) =~= before.push(target@));
            proof {
                if unique_paths(before) {
                    lemma_upsert_keeps_unique(before, target@);
                }
            }
        },
    }
}

/// What was found at the cache document's place.
pub enum CacheDocument {
    /// There is no cache document yet.
    Absent,
    /// The document exists but does not hold well-formed targets.
    Malformed,
    /// The targets that the document holds.
    Parsed(Vec<Target>),
}

/// The recorded targets: none for an absent document, those it holds for a
/// well-formed one. A malformed document is `CorruptCache`, never a
/// silently emptied cache.
pub fn targets_of(document: CacheDocument) -> (r: Result<Vec<Target>, BuildError>)
    ensures
        document is Absent ==> (r matches Ok(v) && v@.len() == 0),
        document is Malformed ==> r == Err::<Vec<Target>, BuildError>(BuildError::CorruptCache),
        document matches CacheDocument::Parsed(t) ==> r == Ok::<Vec<Target>, BuildError>(t),
{
    match document {
        CacheDocument::Absent => Ok(Vec::new()),
        CacheDocument::Malformed => Err(BuildError::CorruptCache),
        CacheDocument::Parsed(targets) => Ok(targets),
    }
}

} // verus!
