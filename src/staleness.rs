//! What the rebuild decision guarantees across builds.
use vstd::prelude::*;

use crate::cache::{is_first_match, lemma_upsert_then_lookup, lookup_spec, upsert_spec, first_match};
use crate::dependency::DependencyView;
use crate::fingerprint::{fingerprint_spec, lemma_fingerprint_of_content_nonempty};
use crate::target::{
    do_path_spec, ensure_do_spec, has_dependency, load_spec, refresh_spec, stale_spec, TargetView,
};

verus! {

proof fn lemma_loaded_target(cache: Seq<TargetView>, name: Seq<char>)
    ensures
        load_spec(cache, name).path == name,
        has_dependency(load_spec(cache, name), do_path_spec(name)),
        load_spec(cache, name).dependencies.len() > 0,
{
    let t = load_spec(cache, name);
    match first_match(cache, name) {
        Some(i) => {
            assert(is_first_match(cache, name, i));
        },
        None => {},
    }
    if !has_dependency(t, do_path_spec(name)) {
        let last = t.dependencies.len() - 1;
        assert(t.dependencies[last].name == do_path_spec(name));
    }
}

/// A target that the cache does not record has, once loaded, only its build
/// script as dependency, and is stale whenever that script can be read: its
/// first build always runs the script.
pub proof fn lemma_unrecorded_target_is_stale(cache: Seq<TargetView>, name: Seq<char>, script: Seq<u8>)
    requires
        lookup_spec(cache, name) is None,
    ensures
        load_spec(cache, name).dependencies =~= seq![
            (DependencyView { name: do_path_spec(name), hash: Seq::empty() }),
        ],
        stale_spec(load_spec(cache, name), seq![Some(script)]),
{
    let base = TargetView { path: name, dependencies: Seq::empty() };
    assert(!has_dependency(base, do_path_spec(name)));
    lemma_fingerprint_of_content_nonempty(script);
    let t = load_spec(cache, name);
    assert(fingerprint_spec(seq![Some(script)][0]) != t.dependencies[0].hash);
}

/// A loaded target whose every recorded fingerprint matches the current
/// content of its dependency is up to date.
pub proof fn lemma_matching_fingerprints_up_to_date(
    cache: Seq<TargetView>,
    name: Seq<char>,
    contents: Seq<Option<Seq<u8>>>,
)
    requires
        contents.len() == load_spec(cache, name).dependencies.len(),
        forall|i: int|
            0 <= i < contents.len() ==> #[trigger] fingerprint_spec(contents[i])
                == load_spec(cache, name).dependencies[i].hash,
    ensures
        !stale_spec(load_spec(cache, name), contents),
{
    lemma_loaded_target(cache, name);
}

/// Building a target records its refreshed fingerprints; loading it again
/// gives that record, and with no dependency changed in between the second
/// build finds it up to date.
pub proof fn lemma_build_then_up_to_date(
    cache: Seq<TargetView>,
    name: Seq<char>,
    contents: Seq<Option<Seq<u8>>>,
)
    requires
        contents.len() == load_spec(cache, name).dependencies.len(),
    ensures
        load_spec(upsert_spec(cache, refresh_spec(load_spec(cache, name), contents)), name)
            == refresh_spec(load_spec(cache, name), contents),
        !stale_spec(refresh_spec(load_spec(cache, name), contents), contents),
{
    let t = load_spec(cache, name);
    let b = refresh_spec(t, contents);
    lemma_loaded_target(cache, name);
    lemma_upsert_then_lookup(cache, b);
    let k = choose|k: int| 0 <= k < t.dependencies.len() && #[trigger] t.dependencies[k].name == do_path_spec(name);
    assert(b.dependencies[k].name == do_path_spec(b.path));
    assert(has_dependency(b, do_path_spec(b.path)));
    assert(ensure_do_spec(b) == b);
}

} // verus!
