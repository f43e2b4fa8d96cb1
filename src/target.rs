//! Build targets: the file to produce and the dependencies it was built from.
use vstd::prelude::*;

use crate::cache::{cache_view, lookup, lookup_spec, unique_paths, upsert, upsert_spec};
use crate::dependency::{Dependency, DependencyView};
use crate::outcome::BuildError;
use crate::fingerprint::{content_view, fingerprint_spec};

verus! {

/// A target to build: its path and the dependencies recorded for it, one of
/// which is its build script.
#[derive(Debug, Clone, PartialEq, Eq)]
pub struct Target {
    pub path: String,
    pub dependencies: Vec<Dependency>,
}

/// A target as plain values.
pub struct TargetView {
    pub path: Seq<char>,
    pub dependencies: Seq<DependencyView>,
}

impl View for Target {
    type V = TargetView;

    open spec fn view(&self) -> TargetView {
        TargetView {
            path: self.path@,
            dependencies: self.dependencies@.map_values(|d: Dependency| d@),
        }
    }
}

/// What reading each dependency file gave, as plain bytes.
pub open spec fn contents_view(contents: Seq<Option<Vec<u8>>>) -> Seq<Option<Seq<u8>>> {
    contents.map_values(|c: Option<Vec<u8>>| content_view(c))
}

/// The build script of a target: its path with `.do` appended.
pub open spec fn do_path_spec(path: Seq<char>) -> Seq<char> {
    path + seq!['.', 'd', 'o']
}

/// Index where the file name of a path starts: just after its last `/`.
pub open spec fn base_start(path: Seq<char>) -> int
    decreases path.len(),
{
    if path.len() == 0 {
        0
    } else if path.last() == '/' {
        path.len() as int
    } else {
        base_start(path.drop_last())
    }
}

/// The file name of a path, its directories stripped.
pub open spec fn base_name_spec(path: Seq<char>) -> Seq<char> {
    path.subrange(base_start(path), path.len() as int)
}

/// Whether some dependency of `t` is on `name`.
pub open spec fn has_dependency(t: TargetView, name: Seq<char>) -> bool {
    exists|i: int| 0 <= i < t.dependencies.len() && #[trigger] t.dependencies[i].name == name
}

/// No two dependencies of `t` are on the same path.
pub open spec fn unique_dependencies(t: TargetView) -> bool {
    forall|i: int, j: int|
        0 <= i < j < t.dependencies.len() ==> (#[trigger] t.dependencies[i]).name != (#[trigger] t.dependencies[j]).name
}

/// `t` with its build script among its dependencies: kept as it is when
/// present, appended with an empty fingerprint otherwise.
pub open spec fn ensure_do_spec(t: TargetView) -> TargetView {
    if has_dependency(t, do_path_spec(t.path)) {
        t
    } else {
        TargetView {
            path: t.path,
            dependencies: t.dependencies.push(
                DependencyView { name: do_path_spec(t.path), hash: Seq::empty() },
            ),
        }
    }
}

/// A target is stale when it has no dependencies, or when the fingerprint
/// of some dependency's current content differs from the recorded one.
/// `contents[i]` is what reading the `i`-th dependency gave.
pub open spec fn stale_spec(t: TargetView, contents: Seq<Option<Seq<u8>>>) -> bool {
    t.dependencies.len() == 0 || exists|i: int|
        0 <= i < t.dependencies.len() && #[trigger] fingerprint_spec(contents[i])
            != t.dependencies[i].hash
}

/// `t` with every fingerprint recomputed from the current contents.
pub open spec fn refresh_spec(t: TargetView, contents: Seq<Option<Seq<u8>>>) -> TargetView {
    TargetView {
        path: t.path,
        dependencies: Seq::new(
            t.dependencies.len(),
            |i: int| DependencyView { name: t.dependencies[i].name, hash: fingerprint_spec(contents[i]) },
        ),
    }
}

/// The target that a build of `name` works on: the one recorded in the cache,
/// or a new one with no dependencies, with its build script ensured among
/// its dependencies.
pub open spec fn load_spec(cache: Seq<TargetView>, name: Seq<char>) -> TargetView {
    ensure_do_spec(
        match lookup_spec(cache, name) {
            Some(t) => t,
            None => TargetView { path: name, dependencies: Seq::empty() },
        },
    )
}

/// What a build of an up-to-date target amounts to, or the work to do for a
/// stale one.
pub enum Redo {
    /// Every dependency matches its recorded fingerprint: nothing to do.
    UpToDate,
    /// The target is stale: run the script, then publish its output.
    Build(BuildPlan),
}

/// The work to do for a stale target. Its refreshed record has already been
/// written to the cache.
pub struct BuildPlan {
    /// The target with every fingerprint recomputed.
    pub target: Target,
    /// The build script to run.
    pub script: String,
    /// The target's file name, handed to the script.
    pub base_name: String,
}

/// The file name of a path: what follows its last `/`.
pub fn base_name(path: &String) -> (r: String)
    ensures
        r@ == base_name_spec(path@),
{
    let s = path.as_str();
    let n = s.unicode_len();
    let mut i: usize = n;
    assert(path@.take(n as int) =~= path@);
    while i > 0 && s.get_char(i - 1) != '/'
        invariant
            i <= n,
            n == s@.len(),
            s@ == path@,
            base_start(path@) == base_start(path@.take(i as int)),
        decreases i,
    {
        assert(path@.take(i as int).drop_last() =~= path@.take(i - 1));
        i = i - 1;
    }
    if i > 0 {
        assert(path@.take(i as int).last() == '/');
    }
    let name = s.substring_char(i, n);
    String::from_str(name)
}

impl Target {
    /// A target on `path` with no dependencies recorded.
    pub fn new(path: String) -> (r: Target)
        ensures
            r@ == (TargetView { path: path@, dependencies: Seq::empty() }),
    {
        let r = Target { path, dependencies: Vec::new() };
        assert(r@.dependencies =~= Seq::empty());
        r
    }

    /// A copy with the same path and dependencies.
    pub fn duplicate(&self) -> (r: Target)
        ensures
            r@ == self@,
    {
        let mut deps: Vec<Dependency> = Vec::new();
        let mut i: usize = 0;
        while i < self.dependencies.len()
            invariant
                i <= self.dependencies@.len(),
                deps@.len() == i,
                forall|j: int| 0 <= j < i ==> #[trigger] deps@[j]@ == self.dependencies@[j]@,
            decreases self.dependencies@.len() - i,
        {
            deps.push(self.dependencies[i].duplicate());
            i = i + 1;
        }
        let r = Target { path: self.path.clone(), dependencies: deps };
        assert(r@.dependencies =~= self@.dependencies);
        r
    }

    /// Path of the target's build script: the target path with `.do` appended.
    pub fn do_file_path(&self) -> (r: String)
        ensures
            r@ == do_path_spec(self@.path),
    {
        let mut p = self.path.clone();
        p.append(".do");
        proof {
            reveal_strlit(".do");
        }
        assert(p@ =~= do_path_spec(self@.path));
        p
    }

    /// Adds the build script as a dependency, with an empty fingerprint,
    /// unless a dependency on it is already recorded.
    pub fn ensure_do_dependency_exists(&mut self)
        ensures
            final(self)@ == ensure_do_spec(old(self)@),
            unique_dependencies(old(self)@) ==> unique_dependencies(final(self)@),
    {
        let do_path = self.do_file_path();
        let mut i: usize = 0;
        let mut found = false;
        while i < self.dependencies.len() && !found
            invariant
                i <= self.dependencies@.len(),
                forall|j: int| 0 <= j < i ==> (#[trigger] self@.dependencies[j]).name != do_path@,
                found ==> i < self.dependencies@.len() && self@.dependencies[i as int].name == do_path@,
            decreases self.dependencies@.len() - i + (if found { 0int } else { 1int }),
        {
            if self.dependencies[i].name == do_path {
                found = true;
            } else {
                i = i + 1;
            }
        }
        if found {
            assert(has_dependency(self@, do_path_spec(self@.path)));
        } else {
            assert(!has_dependency(self@, do_path_spec(self@.path)));
            let ghost before = self@;
            self.dependencies.push(Dependency::new(do_path));
            assert(self@.dependencies =~= ensure_do_spec(before).dependencies);
        }
    }

    /// The target named `target`: as the cache records it, or new with no
    /// dependencies, and in either case with its build script among its
    /// dependencies.
    pub fn load(cache: &Vec<Target>, target: &str) -> (r: Target)
        ensures
            r@ == load_spec(cache_view(cache@), target@),
    {
        Target::load_from_redo_cache(cache, target)
    }

    fn load_from_redo_cache(cache: &Vec<Target>, target: &str) -> (r: Target)
        ensures
            r@ == load_spec(cache_view(cache@), target@),
    {
        let path = String::from_str(target);
        let mut t = match lookup(cache, &path) {
            Some(found) => found,
            None => Target::new(path),
        };
        t.ensure_do_dependency_exists();
        t
    }

    /// Runs the rebuild decision for this target, whose `i`-th dependency
    /// file read as `contents[i]`.
    ///
    /// - Without a build script the result is `MissingScript`.
    /// - A target that is not stale is up to date; the cache is left alone.
    /// - A stale target has every fingerprint recomputed and is written to
    ///   the cache before its script runs; the plan says which script to run
    ///   and with which file name.
    pub fn redo(self, cache: &mut Vec<Target>, script_exists: bool, contents: &Vec<Option<Vec<u8>>>) -> (r: Result<Redo, BuildError>)
        requires
            contents@.len() == self.dependencies@.len(),
        ensures
            !script_exists ==> (r matches Err(BuildError::MissingScript(s)) && s@ == do_path_spec(self@.path)),
            script_exists && !stale_spec(self@, contents_view(contents@)) ==> r matches Ok(Redo::UpToDate),
            !(script_exists && stale_spec(self@, contents_view(contents@))) ==> final(cache)@ == old(cache)@,
            script_exists && stale_spec(self@, contents_view(contents@)) ==> (r matches Ok(Redo::Build(plan))
                && plan.target@ == refresh_spec(self@, contents_view(contents@))
                && plan.script@ == do_path_spec(self@.path)
                && plan.base_name@ == base_name_spec(self@.path)
                && cache_view(final(cache)@) == upsert_spec(cache_view(old(cache)@), refresh_spec(self@, contents_view(contents@)))),
            unique_paths(cache_view(old(cache)@)) ==> unique_paths(cache_view(final(cache)@)),
    {
        let script = self.do_file_path();
        if !script_exists {
            return Err(BuildError::MissingScript(script));
        }
        if !self.needs_update(contents) {
            return Ok(Redo::UpToDate);
        }
        let mut refreshed = self;
        refreshed.refresh(contents);
        let base_name = base_name(&refreshed.path);
        let target = refreshed.duplicate();
        upsert(cache, refreshed);
        Ok(Redo::Build(BuildPlan { target, script, base_name }))
    }

    /// Whether the target must be rebuilt: it has no dependencies, or one of
    /// them needs an update. `contents[i]` is what reading the `i`-th
    /// dependency's file gave (`None` when it could not be read).
    pub fn needs_update(&self, contents: &Vec<Option<Vec<u8>>>) -> (r: bool)
        requires
            contents@.len() == self.dependencies@.len(),
        ensures
            r == stale_spec(self@, contents_view(contents@)),
    {
        let ghost cv = contents_view(contents@);
        let mut i: usize = 0;
        while i < self.dependencies.len()
            invariant
                i <= self.dependencies@.len(),
                contents@.len() == self.dependencies@.len(),
                cv == contents_view(contents@),
                forall|j: int| 0 <= j < i ==> fingerprint_spec(#[trigger] cv[j]) == self@.dependencies[j].hash,
            decreases self.dependencies@.len() - i,
        {
            if self.dependencies[i].needs_update(&contents[i]) {
                assert(fingerprint_spec(cv[i as int]) != self@.dependencies[i as int].hash);
                return true;
            }
            i = i + 1;
        }
        self.dependencies.len() == 0
    }

    /// Recomputes every dependency's fingerprint from the current contents.
    pub fn refresh(&mut self, contents: &Vec<Option<Vec<u8>>>)
        requires
            contents@.len() == old(self).dependencies@.len(),
        ensures
            final(self)@ == refresh_spec(old(self)@, contents_view(contents@)),
            unique_dependencies(old(self)@) ==> unique_dependencies(final(self)@),
    {
        let ghost before = self@;
        let ghost cv = contents_view(contents@);
        let mut i: usize = 0;
        while i < self.dependencies.len()
            invariant
                i <= self.dependencies@.len(),
                contents@.len() == self.dependencies@.len(),
                cv == contents_view(contents@),
                self@.path == before.path,
                self.dependencies@.len() == before.dependencies.len(),
                forall|j: int| 0 <= j < self.dependencies@.len() ==> (#[trigger] self.dependencies@[j])@.name == before.dependencies[j].name,
                forall|j: int| 0 <= j < i ==> (#[trigger] self.dependencies@[j])@.hash == fingerprint_spec(cv[j]),
            decreases self.dependencies@.len() - i,
        {
            self.dependencies[i].update_hash(&contents[i]);
            i = i + 1;
        }
        assert(self@.dependencies =~= refresh_spec(before, cv).dependencies);
        assert(unique_dependencies(before) ==> unique_dependencies(self@)) by {
            if unique_dependencies(before) {
                assert forall|a: int, b: int| 0 <= a < b < self@.dependencies.len() implies
                    (#[trigger] self@.dependencies[a]).name != (#[trigger] self@.dependencies[b]).name by {
                    assert(before.dependencies[a].name != before.dependencies[b].name);
                }
            }
        }
    }
}

} // verus!
