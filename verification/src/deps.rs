//! Project dependencies: each dependency is identified by a normalized
//! source-control origin (always ending in `.git`), carries the declared
//! version string, and derives its short name — used as its on-disk
//! directory and archive base name — from the last path segment of the
//! origin. The manager holds the project's dependency set and decides, per
//! dependency, whether a fetch must clone, refresh or keep what is on disk.

use vstd::prelude::*;

verus! {

use vstd::string::StrSliceExecFns;
use vstd::string::StringExecFns;
use crate::util::{ends_with, last_segment, last_index_of_char, last_segment_str, str_eq, str_ends_with, lemma_last_index_of_char};

/// An origin with the `.git` suffix appended when it is not already there.
pub open spec fn spec_normalize_origin(origin: Seq<char>) -> Seq<char> {
    if ends_with(origin, ".git"@) {
        origin
    } else {
        origin + ".git"@
    }
}

/// The short name derived from a normalized origin: the last `/`-separated
/// segment, with a trailing `.git` stripped.
pub open spec fn spec_dep_name(origin: Seq<char>) -> Seq<char> {
    let seg = last_segment(origin, '/');
    if ends_with(seg, ".git"@) {
        seg.take(seg.len() - 4)
    } else {
        seg
    }
}

/// The on-disk location of a dependency inside the shared cache root.
pub open spec fn spec_dep_location(cache_root: Seq<char>, origin: Seq<char>) -> Seq<char> {
    cache_root + "/deps/"@ + spec_dep_name(origin)
}

/// Mathematical value of a `Dependency`.
pub struct DepView {
    pub version: Seq<char>,
    pub origin: Seq<char>,
}

/// One external source dependency: its normalized origin and the version
/// string it was declared with.
#[derive(Debug)]
pub struct Dependency {
    version: String,
    origin: String,
}

impl View for Dependency {
    type V = DepView;

    closed spec fn view(&self) -> DepView {
        DepView { version: self.version@, origin: self.origin@ }
    }
}

impl DeepView for Dependency {
    type V = DepView;

    open spec fn deep_view(&self) -> DepView {
        self.view()
    }
}

impl Dependency {
    /// The origin is always stored in normalized form.
    pub open spec fn wf(&self) -> bool {
        ends_with(self@.origin, ".git"@)
    }

    pub fn new(origin: &str, version: &str) -> (d: Dependency)
        ensures
            d@.origin == spec_normalize_origin(origin@),
            d@.version == version@,
            d.wf(),
    {
        let origin = if str_ends_with(origin, ".git") {
            String::from_str(origin)
        } else {
            let o = String::from_str(origin).concat(".git");
            proof {
                lemma_concat_ends_with(origin@, ".git"@);
            }
            o
        };
        Dependency { version: String::from_str(version), origin }
    }

    /// The short name used for the dependency's directory and archive.
    pub fn name(&self) -> (r: String)
        ensures
            r@ == spec_dep_name(self@.origin),
    {
        let seg = last_segment_str(self.origin.as_str(), '/');
        if str_ends_with(seg, ".git") {
            proof {
                reveal_strlit(".git");
            }
            let n = seg.unicode_len();
            let base = seg.substring_char(0, n - 4);
            proof {
                assert(seg@.subrange(0, seg@.len() - 4) =~= seg@.take(seg@.len() - 4));
            }
            String::from_str(base)
        } else {
            String::from_str(seg)
        }
    }

    /// Where the dependency lives inside the shared cache root.
    pub fn location(&self, cache_root: &str) -> (r: String)
        ensures
            r@ == spec_dep_location(cache_root@, self@.origin),
    {
        let mut out = String::from_str(cache_root);
        out.append("/deps/");
        let name = self.name();
        out.append(name.as_str());
        out
    }

    /// The normalized origin, for the driver that clones it.
    pub fn origin(&self) -> (r: &str)
        ensures
            r@ == self@.origin,
    {
        self.origin.as_str()
    }

    /// The version string the dependency was declared with.
    pub fn version(&self) -> (r: &str)
        ensures
            r@ == self@.version,
    {
        self.version.as_str()
    }

    /// Decodes the dependency's own project script — read by the driver
    /// from `project.lua` at the dependency's location — into a validated
    /// configuration: a dependency is itself a full config-bearing
    /// project, with exclusions resolved against its location under
    /// `cache_root`.
    pub fn config(&self, cache_root: &str, file: &crate::files::FileHandler) -> (r: Result<
        crate::config::Config,
        crate::config::ConfigError,
    >)
        ensures
            r matches Ok(c) ==> c.wf(),
    {
        let location = self.location(cache_root);
        crate::config::Config::parse(location.as_str(), file)
    }

    /// A fresh copy with the same origin and version.
    pub fn duplicate(&self) -> (d: Dependency)
        ensures
            d@ == self@,
    {
        Dependency {
            version: String::from_str(self.version.as_str()),
            origin: String::from_str(self.origin.as_str()),
        }
    }

    /// True when both dependencies have the same origin and version.
    pub fn same_as(&self, other: &Dependency) -> (r: bool)
        ensures
            r == (self@ == other@),
    {
        let same = str_eq(self.origin.as_str(), other.origin.as_str()) && str_eq(
            self.version.as_str(),
            other.version.as_str(),
        );
        proof {
            if self@.origin == other@.origin && self@.version == other@.version {
                assert(self@ == other@);
            }
        }
        same
    }
}

/// Appending `suffix` makes `suffix` a suffix of the result.
pub proof fn lemma_concat_ends_with(s: Seq<char>, suffix: Seq<char>)
    ensures
        ends_with(s + suffix, suffix),
{
    assert((s + suffix).subrange((s + suffix).len() - suffix.len(), (s + suffix).len() as int)
        =~= suffix);
}

/// Name derivation is deterministic and collision-free: equal origins give
/// equal names, and two normalized origins whose final path segments differ
/// give different names.
pub proof fn lemma_dep_name_injective(o1: Seq<char>, o2: Seq<char>)
    requires
        ends_with(o1, ".git"@),
        ends_with(o2, ".git"@),
        last_segment(o1, '/') != last_segment(o2, '/'),
    ensures
        o1 == o2 ==> spec_dep_name(o1) == spec_dep_name(o2),
        spec_dep_name(o1) != spec_dep_name(o2),
{
    reveal_strlit(".git");
    lemma_last_segment_keeps_suffix(o1, ".git"@);
    lemma_last_segment_keeps_suffix(o2, ".git"@);
    let s1 = last_segment(o1, '/');
    let s2 = last_segment(o2, '/');
    if spec_dep_name(o1) == spec_dep_name(o2) {
        assert(s1 =~= s2.take(s2.len() - 4) + s2.subrange(s2.len() - 4, s2.len() as int));
        assert(s2 =~= s2.take(s2.len() - 4) + s2.subrange(s2.len() - 4, s2.len() as int));
        assert(s1 == s2);
    }
}

/// A suffix that holds no `/` survives taking the last `/`-separated
/// segment.
pub proof fn lemma_last_segment_keeps_suffix(s: Seq<char>, suffix: Seq<char>)
    requires
        ends_with(s, suffix),
        !suffix.contains('/'),
    ensures
        ends_with(last_segment(s, '/'), suffix),
        last_segment(s, '/').len() >= suffix.len(),
{
    lemma_last_index_of_char(s, '/');
    let k = last_index_of_char(s, '/');
    if k >= s.len() - suffix.len() {
        assert(s[k] == '/');
        assert(s.subrange(s.len() - suffix.len(), s.len() as int)[k - (s.len() - suffix.len())]
            == '/');
        assert(suffix[k - (s.len() - suffix.len())] == '/');
        assert(false);
    }
    let seg = last_segment(s, '/');
    assert(seg.subrange(seg.len() - suffix.len(), seg.len() as int) =~= s.subrange(
        s.len() - suffix.len(),
        s.len() as int,
    ));
}

/// What a fetch must do for one dependency, given whether its location is
/// already present on disk.
#[derive(Clone, Copy, PartialEq, Eq, Structural, Debug)]
pub enum FetchAction {
    /// The location is absent: clone the origin into it.
    Clone,
    /// The location is present and the fetch is forced: delete it and
    /// clone afresh.
    Refresh,
    /// The location is present and the fetch is not forced: leave the
    /// disk untouched.
    Keep,
}

pub open spec fn spec_fetch_action(present: bool, forced: bool) -> FetchAction {
    if !present {
        FetchAction::Clone
    } else if forced {
        FetchAction::Refresh
    } else {
        FetchAction::Keep
    }
}

/// Fetching is idempotent: a fetch with `forced` false on an
/// already-present dependency performs no disk mutation at all, a forced
/// fetch always ends in a fresh clone replacing the prior contents, and
/// an absent dependency is always cloned.
pub proof fn lemma_fetch_idempotent(present: bool, forced: bool)
    ensures
        present && !forced ==> spec_fetch_action(present, forced) == FetchAction::Keep,
        forced ==> spec_fetch_action(present, forced) != FetchAction::Keep,
        !present ==> spec_fetch_action(present, forced) == FetchAction::Clone,
{
}

/// The fetch work for one dependency: its origin to clone from, the cache
/// location to clone into, and what to do with that location.
#[derive(Debug, PartialEq, Eq)]
pub struct FetchPlan {
    pub url: String,
    pub dest: String,
    pub action: FetchAction,
}

/// Decides the fetch for one dependency. A fetch with `forced` false on an
/// already-present dependency keeps the disk as it is; a forced fetch always
/// ends in a fresh clone. Fetch failures abort the run: the error is
/// propagated uniformly for plain and forced fetches alike.
pub fn download_dep(dep: &Dependency, cache_root: &str, present: bool, forced: bool) -> (r:
    FetchPlan)
    ensures
        r.url@ == dep@.origin,
        r.dest@ == spec_dep_location(cache_root@, dep@.origin),
        r.action == spec_fetch_action(present, forced),
{
    let action = if !present {
        FetchAction::Clone
    } else if forced {
        FetchAction::Refresh
    } else {
        FetchAction::Keep
    };
    FetchPlan { url: String::from_str(dep.origin()), dest: dep.location(cache_root), action }
}

/// The set of dependencies of one project, in declaration order with
/// duplicates collapsed.
#[derive(Debug)]
pub struct DepManager {
    pub deps: Vec<Dependency>,
}

impl View for DepManager {
    type V = Seq<DepView>;

    open spec fn view(&self) -> Seq<DepView> {
        self.deps.deep_view()
    }
}

impl DepManager {
    /// Every stored origin is normalized and no two entries share origin
    /// and version.
    pub open spec fn wf(&self) -> bool {
        &&& forall|i: int| 0 <= i < self@.len() ==> ends_with(#[trigger] self@[i].origin, ".git"@)
        &&& forall|i: int, j: int| 0 <= i < j < self@.len() ==> self@[i] != self@[j]
    }

    pub fn new(dependencies: Vec<Dependency>) -> (r: DepManager)
        ensures
            r@ == dependencies.deep_view(),
    {
        DepManager { deps: dependencies }
    }

    /// True when a dependency with the same origin and version is already
    /// stored.
    pub fn contains(&self, dep: &Dependency) -> (r: bool)
        ensures
            r == self@.contains(dep@),
    {
        let mut i: usize = 0;
        while i < self.deps.len()
            invariant
                0 <= i <= self.deps.len(),
                self@.len() == self.deps.len(),
                forall|j: int| 0 <= j < i ==> self@[j] != dep@,
            decreases self.deps.len() - i,
        {
            assert(self@[i as int] == self.deps[i as int]@);
            if self.deps[i].same_as(dep) {
                return true;
            }
            i += 1;
        }
        false
    }

    /// Adds a dependency unless an equal one is already stored.
    pub fn insert(&mut self, dep: Dependency) -> (added: bool)
        ensures
            added == !old(self)@.contains(dep@),
            final(self)@ == if old(self)@.contains(dep@) {
                old(self)@
            } else {
                old(self)@.push(dep@)
            },
    {
        if self.contains(&dep) {
            false
        } else {
            let ghost before = self@;
            self.deps.push(dep);
            proof {
                assert(self@ =~= before.push(dep@));
            }
            true
        }
    }

    /// Number of stored dependencies.
    pub fn len(&self) -> (r: usize)
        ensures
            r == self@.len(),
    {
        self.deps.len()
    }

    /// A fresh copy holding the same dependencies in the same order.
    pub fn duplicate(&self) -> (d: DepManager)
        ensures
            d@ == self@,
    {
        let mut out: Vec<Dependency> = Vec::new();
        let mut i: usize = 0;
        while i < self.deps.len()
            invariant
                0 <= i <= self.deps.len(),
                out@.len() == i,
                forall|j: int| 0 <= j < i ==> out.deep_view()[j] == self.deps.deep_view()[j],
            decreases self.deps.len() - i,
        {
            let ghost o0 = out.deep_view();
            let d = self.deps[i].duplicate();
            proof {
                assert(self.deps.deep_view()[i as int] == self.deps[i as int]@);
            }
            out.push(d);
            proof {
                assert(out.deep_view() =~= o0.push(self.deps.deep_view()[i as int]));
            }
            i += 1;
        }
        proof {
            assert(out.deep_view() =~= self.deps.deep_view());
        }
        DepManager { deps: out }
    }

    /// Decides the fetch for every dependency. `present[i]` says whether
    /// the location of the `i`-th dependency already exists; the plans come
    /// back in the same order.
    pub fn download_deps(&self, cache_root: &str, present: &Vec<bool>, forced: bool) -> (r: Vec<
        FetchPlan,
    >)
        requires
            present@.len() == self@.len(),
        ensures
            r@.len() == self@.len(),
            forall|i: int|
                0 <= i < r@.len() ==> {
                    &&& (#[trigger] r@[i]).url@ == self@[i].origin
                    &&& r@[i].dest@ == spec_dep_location(cache_root@, self@[i].origin)
                    &&& r@[i].action == spec_fetch_action(present@[i], forced)
                },
    {
        let mut out: Vec<FetchPlan> = Vec::new();
        let mut i: usize = 0;
        while i < self.deps.len()
            invariant
                0 <= i <= self.deps.len(),
                self@.len() == self.deps.len(),
                present@.len() == self@.len(),
                out@.len() == i,
                forall|j: int|
                    0 <= j < i ==> {
                        &&& (#[trigger] out@[j]).url@ == self@[j].origin
                        &&& out@[j].dest@ == spec_dep_location(cache_root@, self@[j].origin)
                        &&& out@[j].action == spec_fetch_action(present@[j], forced)
                    },
            decreases self.deps.len() - i,
        {
            assert(self@[i as int] == self.deps[i as int]@);
            let plan = download_dep(&self.deps[i], cache_root, present[i], forced);
            out.push(plan);
            i += 1;
        }
        out
    }
}

/// Error raised when a dependency cannot be resolved.
pub struct NoDepError(pub String);

impl NoDepError {
    /// The user-facing text of the error.
    pub fn message(&self) -> (r: &str)
        ensures
            r@ == self.0@,
    {
        self.0.as_str()
    }
}

} // verus!
