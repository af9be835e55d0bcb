//! The compile/link engine. Given a compile context and the enumerated
//! files of a source tree, it computes the exact toolchain invocations of a
//! build: which sources are compiled (libraries drop their entry file, the
//! exclusion set is dropped for every target), the per-file object compiles
//! and the archiver call of a library build, the single whole-program
//! compile of a binary build, and the link flags for dependency archives
//! and extra libraries. The engine only computes the invocations; the
//! driver spawns them in order.

use vstd::prelude::*;

verus! {

use vstd::string::StrSliceExecFns;
use vstd::string::StringExecFns;
use crate::config::{Config, ProjType, Properties, Standard};
use crate::deps::{DepManager, DepView, spec_dep_name};
use crate::util::{
    append_string_vec,
    ends_with,
    last_segment,
    last_segment_str,
    str_eq,
    str_ends_with,
    vec_contains_str,
};

/// How a binary target is compiled. Only whole-program executables are
/// produced.
pub enum CompType {
    Exe,
}

/// Mathematical value of an `Invocation`.
pub struct InvocationView {
    pub program: Seq<char>,
    pub args: Seq<Seq<char>>,
}

/// One external process to run: the program and its arguments, in order.
#[derive(Debug, PartialEq, Eq)]
pub struct Invocation {
    pub program: String,
    pub args: Vec<String>,
}

impl View for Invocation {
    type V = InvocationView;

    open spec fn view(&self) -> InvocationView {
        InvocationView { program: self.program@, args: self.args.deep_view() }
    }
}

impl DeepView for Invocation {
    type V = InvocationView;

    open spec fn deep_view(&self) -> InvocationView {
        self.view()
    }
}

impl Invocation {
    /// A fresh copy of the program and its arguments.
    pub fn duplicate(&self) -> (r: Invocation)
        ensures
            r@ == self@,
    {
        Invocation {
            program: String::from_str(self.program.as_str()),
            args: crate::util::clone_string_vec(&self.args),
        }
    }
}

/// Mathematical value of a `CompileCtx`.
pub struct CtxView {
    pub out_dir: Seq<char>,
    pub out_name: Seq<char>,
    pub root_dir: Seq<char>,
    pub excluded: Seq<Seq<char>>,
}

/// The transient per-invocation compile context: output directory, output
/// file base name, root source directory and exclusion set.
#[derive(Debug)]
pub struct CompileCtx {
    pub out_dir: String,
    pub out_name: String,
    pub root_dir: String,
    pub excluded: Vec<String>,
}

impl View for CompileCtx {
    type V = CtxView;

    open spec fn view(&self) -> CtxView {
        CtxView {
            out_dir: self.out_dir@,
            out_name: self.out_name@,
            root_dir: self.root_dir@,
            excluded: self.excluded.deep_view(),
        }
    }
}

/// `a/b`.
pub open spec fn spec_join(a: Seq<char>, b: Seq<char>) -> Seq<char> {
    a + "/"@ + b
}

/// The on-disk path of the entry file: `<root>/src/<entry>`.
pub open spec fn spec_entry_path(root: Seq<char>, entry: Seq<char>) -> Seq<char> {
    root + "/src/"@ + entry
}

/// The compiled-source set: the `.c` files of the tree, without the entry
/// file when `remove_entry` is set, and without every excluded path.
pub open spec fn spec_sources(
    files: Seq<Seq<char>>,
    root: Seq<char>,
    entry: Seq<char>,
    remove_entry: bool,
    excluded: Seq<Seq<char>>,
) -> Seq<Seq<char>> {
    files.filter(
        |p: Seq<char>|
            ends_with(p, ".c"@) && (remove_entry ==> p != spec_entry_path(root, entry))
                && !excluded.contains(p),
    )
}

/// A library build never compiles its entry file nor an excluded path.
pub proof fn lemma_lib_sources_exclude(
    files: Seq<Seq<char>>,
    root: Seq<char>,
    entry: Seq<char>,
    excluded: Seq<Seq<char>>,
)
    ensures
        !spec_sources(files, root, entry, true, excluded).contains(spec_entry_path(root, entry)),
        forall|p: Seq<char>|
            excluded.contains(p) ==> !spec_sources(files, root, entry, true, excluded).contains(p),
{
    let pred = |p: Seq<char>|
        ends_with(p, ".c"@) && (true ==> p != spec_entry_path(root, entry)) && !excluded.contains(
            p,
        );
    let srcs = files.filter(pred);
    assert forall|p: Seq<char>| srcs.contains(p) implies pred(p) by {
        let i = choose|i: int| 0 <= i < srcs.len() && srcs[i] == p;
        files.lemma_filter_pred(pred, i);
    }
}

/// No excluded path is ever in the compiled-source set, for library and
/// binary targets alike.
pub proof fn lemma_sources_drop_excluded(
    files: Seq<Seq<char>>,
    root: Seq<char>,
    entry: Seq<char>,
    remove_entry: bool,
    excluded: Seq<Seq<char>>,
)
    ensures
        forall|p: Seq<char>|
            excluded.contains(p) ==> !spec_sources(
                files,
                root,
                entry,
                remove_entry,
                excluded,
            ).contains(p),
{
    let pred = |p: Seq<char>|
        ends_with(p, ".c"@) && (remove_entry ==> p != spec_entry_path(root, entry))
            && !excluded.contains(p);
    let srcs = files.filter(pred);
    assert forall|p: Seq<char>| srcs.contains(p) implies pred(p) by {
        let i = choose|i: int| 0 <= i < srcs.len() && srcs[i] == p;
        files.lemma_filter_pred(pred, i);
    }
}

/// At the plan level: no object compile of a library plan names the entry
/// file or an excluded path as its source.
pub proof fn lemma_lib_plan_never_compiles_excluded(
    cmd: Seq<char>,
    std: Standard,
    ctx: CtxView,
    files: Seq<Seq<char>>,
    entry: Seq<char>,
)
    ensures
        ({
            let plan = spec_lib_plan(cmd, std, ctx, files, entry);
            forall|i: int|
                0 <= i < plan.compiles.len() ==> {
                    &&& (#[trigger] plan.compiles[i]).args[1] != spec_entry_path(
                        ctx.root_dir,
                        entry,
                    )
                    &&& !ctx.excluded.contains(plan.compiles[i].args[1])
                }
        }),
{
    lemma_lib_sources_exclude(files, ctx.root_dir, entry, ctx.excluded);
    let sources = spec_sources(files, ctx.root_dir, entry, true, ctx.excluded);
    let plan = spec_lib_plan(cmd, std, ctx, files, entry);
    assert forall|i: int| 0 <= i < plan.compiles.len() implies {
        &&& (#[trigger] plan.compiles[i]).args[1] != spec_entry_path(ctx.root_dir, entry)
        &&& !ctx.excluded.contains(plan.compiles[i].args[1])
    } by {
        assert(plan.compiles[i].args == spec_lib_compile_args(sources[i], ctx.out_dir, std));
        assert(plan.compiles[i].args[1] == sources[i]);
        assert(sources.contains(sources[i]));
    }
}

/// A binary build keeps its entry file whenever the tree holds it and the
/// exclusion set does not.
pub proof fn lemma_bin_sources_keep_entry(
    files: Seq<Seq<char>>,
    root: Seq<char>,
    entry: Seq<char>,
    excluded: Seq<Seq<char>>,
)
    requires
        files.contains(spec_entry_path(root, entry)),
        ends_with(spec_entry_path(root, entry), ".c"@),
        !excluded.contains(spec_entry_path(root, entry)),
    ensures
        spec_sources(files, root, entry, false, excluded).contains(spec_entry_path(root, entry)),
{
    let ep = spec_entry_path(root, entry);
    let pred = |p: Seq<char>|
        ends_with(p, ".c"@) && (false ==> p != ep) && !excluded.contains(p);
    let i = choose|i: int| 0 <= i < files.len() && files[i] == ep;
    files.lemma_filter_contains(pred, i);
}

/// Computes the compiled-source set for one build, in the order the files
/// were enumerated.
pub fn compute_sources(
    files: &Vec<String>,
    root_dir: &str,
    entry: &str,
    remove_entry: bool,
    excluded: &Vec<String>,
) -> (r: Vec<String>)
    ensures
        r.deep_view() == spec_sources(
            files.deep_view(),
            root_dir@,
            entry@,
            remove_entry,
            excluded.deep_view(),
        ),
        forall|j: int|
            0 <= j < r.deep_view().len() ==> ends_with(#[trigger] r.deep_view()[j], ".c"@),
{
    let ghost pred = |p: Seq<char>|
        ends_with(p, ".c"@) && (remove_entry ==> p != spec_entry_path(root_dir@, entry@))
            && !excluded.deep_view().contains(p);
    let mut entry_path = String::from_str(root_dir);
    entry_path.append("/src/");
    entry_path.append(entry);
    let mut out: Vec<String> = Vec::new();
    let mut i: usize = 0;
    while i < files.len()
        invariant
            0 <= i <= files.len(),
            entry_path@ == spec_entry_path(root_dir@, entry@),
            out.deep_view() == files.deep_view().take(i as int).filter(pred),
            pred == (|p: Seq<char>|
                ends_with(p, ".c"@) && (remove_entry ==> p != spec_entry_path(root_dir@, entry@))
                    && !excluded.deep_view().contains(p)),
        decreases files.len() - i,
    {
        let ghost prefix = files.deep_view().take(i as int);
        let ghost prefix1 = files.deep_view().take(i + 1);
        let ghost x = files.deep_view()[i as int];
        proof {
            reveal(Seq::filter);
            assert(prefix1.drop_last() =~= prefix);
            assert(prefix1.last() == x);
            assert(prefix1.filter(pred) == if pred(x) {
                prefix.filter(pred).push(x)
            } else {
                prefix.filter(pred)
            });
            assert(files.deep_view()[i as int] == files[i as int]@);
        }
        let keep = str_ends_with(files[i].as_str(), ".c") && !(remove_entry && str_eq(
            files[i].as_str(),
            entry_path.as_str(),
        )) && !vec_contains_str(excluded, files[i].as_str());
        let ghost out0 = out.deep_view();
        if keep {
            out.push(String::from_str(files[i].as_str()));
            proof {
                assert(out.deep_view() =~= out0.push(x));
            }
        }
        i += 1;
    }
    proof {
        assert(files.deep_view().take(files.len() as int) =~= files.deep_view());
        assert forall|j: int|
            0 <= j < out.deep_view().len() implies ends_with(
            #[trigger] out.deep_view()[j],
            ".c"@,
        ) by {
            files.deep_view().lemma_filter_pred(pred, j);
        }
    }
    out
}

/// The `-std=<standard>` flag.
pub open spec fn spec_std_flag(std: Standard) -> Seq<char> {
    "-std="@ + std.spec_str()
}

/// The link reference of one dependency archive: `-l:<name>/<name>.a`.
pub open spec fn spec_dep_link_arg(d: DepView) -> Seq<char> {
    "-l:"@ + spec_dep_name(d.origin) + "/"@ + spec_dep_name(d.origin) + ".a"@
}

/// The link arguments: the project's own build directory as a search path,
/// one archive reference per dependency, then every extra library by name.
pub open spec fn spec_link_args(deps: Seq<DepView>, libs: Seq<Seq<char>>) -> Seq<Seq<char>> {
    seq!["-Lbuild/"@] + deps.map_values(|d: DepView| spec_dep_link_arg(d)) + libs.map_values(
        |l: Seq<char>| "-l"@ + l,
    )
}

/// The whole-program compile of a binary target: debug or release flag
/// (debug wins when both are requested), all sources, the output path, the
/// test-suppression define unless tests are built, the standard flag, and
/// the link arguments.
pub open spec fn spec_exe_args(
    sources: Seq<Seq<char>>,
    out_dir: Seq<char>,
    out_name: Seq<char>,
    std: Standard,
    enable_dbg: bool,
    is_release: bool,
    tests: bool,
    link: Seq<Seq<char>>,
) -> Seq<Seq<char>> {
    (if enable_dbg {
        seq!["-g"@]
    } else if is_release {
        seq!["-o3"@]
    } else {
        Seq::empty()
    }) + sources + seq!["-o"@, spec_join(out_dir, out_name)] + (if !tests {
        seq!["-DNOTESTS"@]
    } else {
        Seq::empty()
    }) + seq![spec_std_flag(std)] + link
}

/// The object file produced for one source: the file name with its `.c`
/// ending stripped, inside the output directory.
pub open spec fn spec_obj_path(out_dir: Seq<char>, file: Seq<char>) -> Seq<char> {
    let nm = last_segment(file, '/');
    spec_join(out_dir, nm.take(nm.len() - 2))
}

/// The object-only compile of one library source.
pub open spec fn spec_lib_compile_args(file: Seq<char>, out_dir: Seq<char>, std: Standard) -> Seq<
    Seq<char>,
> {
    seq!["-c"@, file, "-o"@, spec_obj_path(out_dir, file), "-w"@, "-DNOTESTS"@, spec_std_flag(std)]
}

/// The archiver call that bundles every object file into one static
/// archive.
pub open spec fn spec_archive_args(
    out_dir: Seq<char>,
    out_name: Seq<char>,
    sources: Seq<Seq<char>>,
) -> Seq<Seq<char>> {
    seq!["rcs"@, spec_join(out_dir, out_name)] + sources.map_values(
        |f: Seq<char>| spec_obj_path(out_dir, f),
    )
}

/// Mathematical value of a `LibPlan`.
pub struct LibPlanView {
    pub compiles: Seq<InvocationView>,
    pub archive: Option<InvocationView>,
}

/// The plan of one library build: one object compile per selected source,
/// then one archiver call. A library with no buildable source is a
/// deliberate no-op: no compiles and no archive.
#[derive(Debug, PartialEq, Eq)]
pub struct LibPlan {
    pub compiles: Vec<Invocation>,
    pub archive: Option<Invocation>,
}

impl View for LibPlan {
    type V = LibPlanView;

    open spec fn view(&self) -> LibPlanView {
        LibPlanView {
            compiles: self.compiles.deep_view(),
            archive: match &self.archive {
                Some(a) => Some(a@),
                None => None,
            },
        }
    }
}

/// What a library build must do, as a function of the compiler command,
/// the standard, the context and the enumerated files.
pub open spec fn spec_lib_plan(
    cmd: Seq<char>,
    std: Standard,
    ctx: CtxView,
    files: Seq<Seq<char>>,
    entry: Seq<char>,
) -> LibPlanView {
    let sources = spec_sources(files, ctx.root_dir, entry, true, ctx.excluded);
    LibPlanView {
        compiles: sources.map_values(
            |f: Seq<char>|
                InvocationView { program: cmd, args: spec_lib_compile_args(f, ctx.out_dir, std) },
        ),
        archive: if sources.len() == 0 {
            None
        } else {
            Some(
                InvocationView {
                    program: "ar"@,
                    args: spec_archive_args(ctx.out_dir, ctx.out_name, sources),
                },
            )
        },
    }
}

/// Why a build plan could not be produced.
#[derive(PartialEq, Eq, Structural, Debug, Clone, Copy)]
pub enum BuildError {
    /// The project directory has no usable name for the output file.
    MissingRootName,
    /// A binary target's entry file is not in the compiled-source set:
    /// it is absent from the tree or explicitly excluded. A binary without
    /// an entry point cannot produce a valid program, so the build fails
    /// here rather than handing the compiler an incomplete source list.
    MissingEntry,
}

impl BuildError {
    /// The user-facing text of the error.
    pub fn message(&self) -> (r: &'static str)
        ensures
            *self is MissingRootName ==> r@ == "Failed to get root name of project"@,
            *self is MissingEntry ==> r@
                == "The entry file is missing or excluded; a binary needs its entry point"@,
    {
        match self {
            BuildError::MissingRootName => "Failed to get root name of project",
            BuildError::MissingEntry => "The entry file is missing or excluded; a binary needs its entry point",
        }
    }
}

/// `a/b` as an owned path.
pub fn join_path(a: &str, b: &str) -> (r: String)
    ensures
        r@ == spec_join(a@, b@),
{
    let mut out = String::from_str(a);
    out.append("/");
    out.append(b);
    out
}

/// Mathematical value of a `BuildPlan`.
pub enum BuildPlanView {
    Lib(LibPlanView),
    Exe(InvocationView),
}

/// The computed work of one top-level build: the object-and-archive plan
/// of a library target, or the single whole-program invocation of a binary
/// target.
#[derive(Debug, PartialEq, Eq)]
pub enum BuildPlan {
    Lib(LibPlan),
    Exe(Invocation),
}

impl View for BuildPlan {
    type V = BuildPlanView;

    open spec fn view(&self) -> BuildPlanView {
        match self {
            BuildPlan::Lib(p) => BuildPlanView::Lib(p@),
            BuildPlan::Exe(inv) => BuildPlanView::Exe(inv@),
        }
    }
}

/// Mathematical value of a `DepBuildInput`.
pub struct DepInputView {
    pub location: Seq<char>,
    pub entry: Seq<char>,
    pub excluded: Seq<Seq<char>>,
    pub files: Seq<Seq<char>>,
}

/// What the engine needs to know about one dependency before building it:
/// its resolved location, its own config's entry file and exclusion set,
/// and the enumerated files of its source tree.
pub struct DepBuildInput {
    pub location: String,
    pub entry: String,
    pub excluded: Vec<String>,
    pub files: Vec<String>,
}

impl View for DepBuildInput {
    type V = DepInputView;

    open spec fn view(&self) -> DepInputView {
        DepInputView {
            location: self.location@,
            entry: self.entry@,
            excluded: self.excluded.deep_view(),
            files: self.files.deep_view(),
        }
    }
}

impl DeepView for DepBuildInput {
    type V = DepInputView;

    open spec fn deep_view(&self) -> DepInputView {
        self.view()
    }
}

/// Mathematical value of a `DepPlan`.
pub struct DepPlanView {
    pub out_dir: Seq<char>,
    pub plan: LibPlanView,
}

/// The build of one dependency: the directory its archive goes into —
/// created before the plan runs — and the library plan that fills it.
#[derive(Debug, PartialEq, Eq)]
pub struct DepPlan {
    pub out_dir: String,
    pub plan: LibPlan,
}

impl View for DepPlan {
    type V = DepPlanView;

    open spec fn view(&self) -> DepPlanView {
        DepPlanView { out_dir: self.out_dir@, plan: self.plan@ }
    }
}

impl DeepView for DepPlan {
    type V = DepPlanView;

    open spec fn deep_view(&self) -> DepPlanView {
        self.view()
    }
}

/// The compile context a dependency is built with: its archive goes to
/// `<proj>/build/<name>/<name>.a`, its sources come from its resolved
/// location, and its own exclusion set applies.
pub open spec fn spec_dep_ctx(proj_dir: Seq<char>, d: DepView, inp: DepInputView) -> CtxView {
    CtxView {
        out_dir: proj_dir + "/build/"@ + spec_dep_name(d.origin),
        out_name: spec_dep_name(d.origin) + ".a"@,
        root_dir: inp.location,
        excluded: inp.excluded,
    }
}

/// The engine for one project: the compiler command, the dependency set
/// and extra libraries to link, the build properties, the project
/// directory and its root name, and the project's entry file.
#[derive(Debug)]
pub struct Compiler {
    pub cmd: String,
    pub dm: DepManager,
    pub libs: Vec<String>,
    pub props: Properties,
    pub proj_dir: String,
    pub root_name: String,
    pub entry: String,
}

impl Compiler {
    /// Builds the engine for the project in `cur_dir` from its validated
    /// configuration. Fails only when `cur_dir` has no usable last path
    /// component to name the output after.
    pub fn new(cur_dir: &str, cfg: &Config) -> (r: Result<Compiler, BuildError>)
        ensures
            match r {
                Ok(c) => {
                    &&& last_segment(cur_dir@, '/').len() > 0
                    &&& c.cmd@ == cfg@.props.compiler
                    &&& c.dm@ == cfg@.deps
                    &&& c.libs.deep_view() == cfg@.libraries
                    &&& c.props@ == cfg@.props
                    &&& c.proj_dir@ == cur_dir@
                    &&& c.root_name@ == last_segment(cur_dir@, '/')
                    &&& c.entry@ == cfg@.entry
                },
                Err(e) => e == BuildError::MissingRootName && last_segment(cur_dir@, '/').len()
                    == 0,
            },
    {
        let root_name = match crate::util::root_dir_name(cur_dir) {
            Some(n) => String::from_str(n),
            None => {
                return Err(BuildError::MissingRootName);
            },
        };
        Ok(
            Compiler {
                cmd: String::from_str(cfg.props.compiler.as_str()),
                dm: cfg.deps.duplicate(),
                libs: crate::util::clone_string_vec(&cfg.libraries),
                props: cfg.props.duplicate(),
                proj_dir: String::from_str(cur_dir),
                root_name,
                entry: String::from_str(cfg.entry.as_str()),
            },
        )
    }

    /// The link arguments of this project: its own build directory as a
    /// search path, each dependency archive, then every extra library.
    pub fn link_lib(&self) -> (r: Vec<String>)
        ensures
            r.deep_view() == spec_link_args(self.dm@, self.libs.deep_view()),
    {
        let ghost dep_arg = |d: DepView| spec_dep_link_arg(d);
        let ghost lib_arg = |l: Seq<char>| "-l"@ + l;
        let mut out: Vec<String> = Vec::new();
        out.push(String::from_str("-Lbuild/"));
        proof {
            assert(out.deep_view() =~= seq!["-Lbuild/"@]);
        }
        let mut i: usize = 0;
        while i < self.dm.deps.len()
            invariant
                0 <= i <= self.dm.deps.len(),
                self.dm@.len() == self.dm.deps.len(),
                out.deep_view() =~= seq!["-Lbuild/"@] + self.dm@.take(i as int).map_values(
                    dep_arg,
                ),
                dep_arg == (|d: DepView| spec_dep_link_arg(d)),
            decreases self.dm.deps.len() - i,
        {
            let ghost out0 = out.deep_view();
            assert(self.dm@[i as int] == self.dm.deps[i as int]@);
            let name = self.dm.deps[i].name();
            let mut arg = String::from_str("-l:");
            arg.append(name.as_str());
            arg.append("/");
            arg.append(name.as_str());
            arg.append(".a");
            proof {
                assert(arg@ == dep_arg(self.dm@[i as int]));
            }
            out.push(arg);
            proof {
                assert(out.deep_view() =~= out0.push(dep_arg(self.dm@[i as int])));
                assert(self.dm@.take(i + 1).map_values(dep_arg) =~= self.dm@.take(
                    i as int,
                ).map_values(dep_arg).push(dep_arg(self.dm@[i as int])));
            }
            i += 1;
        }
        proof {
            assert(self.dm@.take(self.dm@.len() as int) =~= self.dm@);
        }
        let ghost mid = out.deep_view();
        let mut j: usize = 0;
        while j < self.libs.len()
            invariant
                0 <= j <= self.libs.len(),
                self.libs.deep_view().len() == self.libs.len(),
                out.deep_view() =~= mid + self.libs.deep_view().take(j as int).map_values(
                    lib_arg,
                ),
                lib_arg == (|l: Seq<char>| "-l"@ + l),
            decreases self.libs.len() - j,
        {
            let ghost out0 = out.deep_view();
            assert(self.libs.deep_view()[j as int] == self.libs[j as int]@);
            let mut arg = String::from_str("-l");
            arg.append(self.libs[j].as_str());
            out.push(arg);
            proof {
                assert(out.deep_view() =~= out0.push(lib_arg(self.libs.deep_view()[j as int])));
                assert(self.libs.deep_view().take(j + 1).map_values(lib_arg)
                    =~= self.libs.deep_view().take(j as int).map_values(lib_arg).push(
                    lib_arg(self.libs.deep_view()[j as int]),
                ));
            }
            j += 1;
        }
        proof {
            assert(self.libs.deep_view().take(self.libs.deep_view().len() as int)
                =~= self.libs.deep_view());
            assert(out.deep_view() =~= spec_link_args(self.dm@, self.libs.deep_view()));
        }
        out
    }

    /// Computes the single whole-program compile of a binary target. Fails
    /// exactly when the entry file is not in the compiled-source set.
    pub fn build_exe(
        &self,
        ctx: &CompileCtx,
        files: &Vec<String>,
        enable_dbg: bool,
        is_release: bool,
        tests: bool,
    ) -> (r: Result<Invocation, BuildError>)
        ensures
            match r {
                Ok(inv) => {
                    let sources = spec_sources(
                        files.deep_view(),
                        ctx@.root_dir,
                        self.entry@,
                        false,
                        ctx@.excluded,
                    );
                    &&& sources.contains(spec_entry_path(ctx@.root_dir, self.entry@))
                    &&& inv@.program == self.cmd@
                    &&& inv@.args == spec_exe_args(
                        sources,
                        ctx@.out_dir,
                        ctx@.out_name,
                        self.props.c_std,
                        enable_dbg,
                        is_release,
                        tests,
                        spec_link_args(self.dm@, self.libs.deep_view()),
                    )
                },
                Err(e) => e == BuildError::MissingEntry && !spec_sources(
                    files.deep_view(),
                    ctx@.root_dir,
                    self.entry@,
                    false,
                    ctx@.excluded,
                ).contains(spec_entry_path(ctx@.root_dir, self.entry@)),
            },
    {
        let sources = compute_sources(
            files,
            ctx.root_dir.as_str(),
            self.entry.as_str(),
            false,
            &ctx.excluded,
        );
        let mut entry_path = String::from_str(ctx.root_dir.as_str());
        entry_path.append("/src/");
        entry_path.append(self.entry.as_str());
        if !vec_contains_str(&sources, entry_path.as_str()) {
            return Err(BuildError::MissingEntry);
        }
        let mut args: Vec<String> = Vec::new();
        if enable_dbg {
            args.push(String::from_str("-g"));
            proof {
                assert(args.deep_view() =~= seq!["-g"@]);
            }
        } else if is_release {
            args.push(String::from_str("-o3"));
            proof {
                assert(args.deep_view() =~= seq!["-o3"@]);
            }
        } else {
            proof {
                assert(args.deep_view() =~= Seq::<Seq<char>>::empty());
            }
        }
        let ghost head = args.deep_view();
        append_string_vec(&mut args, &sources);
        let ghost a1 = args.deep_view();
        args.push(String::from_str("-o"));
        let out_path = join_path(ctx.out_dir.as_str(), ctx.out_name.as_str());
        args.push(out_path);
        proof {
            assert(args.deep_view() =~= a1 + seq![
                "-o"@,
                spec_join(ctx@.out_dir, ctx@.out_name),
            ]);
        }
        let ghost a2 = args.deep_view();
        if !tests {
            args.push(String::from_str("-DNOTESTS"));
            proof {
                assert(args.deep_view() =~= a2 + seq!["-DNOTESTS"@]);
            }
        }
        let ghost a3 = args.deep_view();
        let mut std_flag = String::from_str("-std=");
        std_flag.append(self.props.c_std.as_str());
        args.push(std_flag);
        proof {
            assert(args.deep_view() =~= a3 + seq![spec_std_flag(self.props.c_std)]);
        }
        let link = self.link_lib();
        append_string_vec(&mut args, &link);
        proof {
            assert(args.deep_view() =~= spec_exe_args(
                sources.deep_view(),
                ctx@.out_dir,
                ctx@.out_name,
                self.props.c_std,
                enable_dbg,
                is_release,
                tests,
                spec_link_args(self.dm@, self.libs.deep_view()),
            ));
        }
        Ok(Invocation { program: String::from_str(self.cmd.as_str()), args })
    }

    /// Computes the object-and-archive plan of a library target: one
    /// object compile per selected source, then one archiver call. An
    /// empty source set yields an empty plan.
    pub fn build_lib(&self, ctx: &CompileCtx, files: &Vec<String>, entry: &str) -> (r: LibPlan)
        ensures
            r@ == spec_lib_plan(self.cmd@, self.props.c_std, ctx@, files.deep_view(), entry@),
    {
        let ghost inv_of = |f: Seq<char>|
            InvocationView {
                program: self.cmd@,
                args: spec_lib_compile_args(f, ctx@.out_dir, self.props.c_std),
            };
        let ghost obj_of = |f: Seq<char>| spec_obj_path(ctx@.out_dir, f);
        let sources = compute_sources(files, ctx.root_dir.as_str(), entry, true, &ctx.excluded);
        let ghost srcs = sources.deep_view();
        let mut compiles: Vec<Invocation> = Vec::new();
        let mut objs: Vec<String> = Vec::new();
        proof {
            assert(compiles.deep_view() =~= srcs.take(0).map_values(inv_of));
            assert(objs.deep_view() =~= srcs.take(0).map_values(obj_of));
        }
        let mut i: usize = 0;
        while i < sources.len()
            invariant
                0 <= i <= sources.len(),
                srcs == sources.deep_view(),
                srcs.len() == sources.len(),
                forall|j: int| 0 <= j < srcs.len() ==> ends_with(#[trigger] srcs[j], ".c"@),
                compiles.deep_view() =~= srcs.take(i as int).map_values(inv_of),
                objs.deep_view() =~= srcs.take(i as int).map_values(obj_of),
                inv_of == (|f: Seq<char>|
                    InvocationView {
                        program: self.cmd@,
                        args: spec_lib_compile_args(f, ctx@.out_dir, self.props.c_std),
                    }),
                obj_of == (|f: Seq<char>| spec_obj_path(ctx@.out_dir, f)),
            decreases sources.len() - i,
        {
            let ghost c0 = compiles.deep_view();
            let ghost o0 = objs.deep_view();
            assert(srcs[i as int] == sources[i as int]@);
            let file = &sources[i];
            let seg = last_segment_str(file.as_str(), '/');
            proof {
                reveal_strlit(".c");
                assert(!".c"@.contains('/')) by {
                    if ".c"@.contains('/') {
                        let k = choose|k: int| 0 <= k < ".c"@.len() && ".c"@[k] == '/';
                        assert(k == 0 || k == 1);
                    }
                }
                crate::deps::lemma_last_segment_keeps_suffix(srcs[i as int], ".c"@);
            }
            let n = seg.unicode_len();
            let base = seg.substring_char(0, n - 2);
            let obj = join_path(ctx.out_dir.as_str(), base);
            proof {
                assert(seg@.subrange(0, seg@.len() - 2) =~= seg@.take(seg@.len() - 2));
                assert(obj@ == obj_of(srcs[i as int]));
            }
            let mut args: Vec<String> = Vec::new();
            args.push(String::from_str("-c"));
            args.push(String::from_str(file.as_str()));
            args.push(String::from_str("-o"));
            args.push(String::from_str(obj.as_str()));
            args.push(String::from_str("-w"));
            args.push(String::from_str("-DNOTESTS"));
            let mut std_flag = String::from_str("-std=");
            std_flag.append(self.props.c_std.as_str());
            args.push(std_flag);
            proof {
                assert(args.deep_view() =~= spec_lib_compile_args(
                    srcs[i as int],
                    ctx@.out_dir,
                    self.props.c_std,
                ));
            }
            compiles.push(Invocation { program: String::from_str(self.cmd.as_str()), args });
            objs.push(obj);
            proof {
                assert(compiles.deep_view() =~= c0.push(inv_of(srcs[i as int])));
                assert(objs.deep_view() =~= o0.push(obj_of(srcs[i as int])));
                assert(srcs.take(i + 1).map_values(inv_of) =~= srcs.take(i as int).map_values(
                    inv_of,
                ).push(inv_of(srcs[i as int])));
                assert(srcs.take(i + 1).map_values(obj_of) =~= srcs.take(i as int).map_values(
                    obj_of,
                ).push(obj_of(srcs[i as int])));
            }
            i += 1;
        }
        proof {
            assert(srcs.take(srcs.len() as int) =~= srcs);
        }
        if sources.len() == 0 {
            proof {
                assert(compiles.deep_view() =~= srcs.map_values(inv_of));
            }
            LibPlan { compiles, archive: None }
        } else {
            let mut args: Vec<String> = Vec::new();
            args.push(String::from_str("rcs"));
            args.push(join_path(ctx.out_dir.as_str(), ctx.out_name.as_str()));
            proof {
                assert(args.deep_view() =~= seq![
                    "rcs"@,
                    spec_join(ctx@.out_dir, ctx@.out_name),
                ]);
            }
            append_string_vec(&mut args, &objs);
            proof {
                assert(args.deep_view() =~= spec_archive_args(ctx@.out_dir, ctx@.out_name, srcs));
            }
            LibPlan {
                compiles,
                archive: Some(Invocation { program: String::from_str("ar"), args }),
            }
        }
    }

    /// Computes the top-level build: an object-and-archive plan for a
    /// library project, a whole-program compile for a binary project —
    /// which fails exactly when the entry file is not in the
    /// compiled-source set.
    pub fn build(
        &self,
        ctx: &CompileCtx,
        files: &Vec<String>,
        enable_dbg: bool,
        is_release: bool,
        tests: bool,
    ) -> (r: Result<BuildPlan, BuildError>)
        ensures
            self.props.proj_type == ProjType::Lib ==> match r {
                Ok(p) => p@ == BuildPlanView::Lib(
                    spec_lib_plan(
                        self.cmd@,
                        self.props.c_std,
                        ctx@,
                        files.deep_view(),
                        self.entry@,
                    ),
                ),
                Err(_) => false,
            },
            self.props.proj_type == ProjType::Bin ==> match r {
                Ok(p) => {
                    let sources = spec_sources(
                        files.deep_view(),
                        ctx@.root_dir,
                        self.entry@,
                        false,
                        ctx@.excluded,
                    );
                    &&& sources.contains(spec_entry_path(ctx@.root_dir, self.entry@))
                    &&& p@ == BuildPlanView::Exe(
                        InvocationView {
                            program: self.cmd@,
                            args: spec_exe_args(
                                sources,
                                ctx@.out_dir,
                                ctx@.out_name,
                                self.props.c_std,
                                enable_dbg,
                                is_release,
                                tests,
                                spec_link_args(self.dm@, self.libs.deep_view()),
                            ),
                        },
                    )
                },
                Err(e) => e == BuildError::MissingEntry && !spec_sources(
                    files.deep_view(),
                    ctx@.root_dir,
                    self.entry@,
                    false,
                    ctx@.excluded,
                ).contains(spec_entry_path(ctx@.root_dir, self.entry@)),
            },
    {
        match self.props.proj_type {
            ProjType::Lib => Ok(
                BuildPlan::Lib(self.build_lib(ctx, files, self.entry.as_str())),
            ),
            ProjType::Bin => match self.build_exe(ctx, files, enable_dbg, is_release, tests) {
                Ok(inv) => Ok(BuildPlan::Exe(inv)),
                Err(e) => Err(e),
            },
        }
    }

    /// Computes the build of every dependency, in declaration order: each
    /// is built as a library target into `<proj>/build/<name>/<name>.a`
    /// with its own entry file and exclusion set. Every archive must exist
    /// before the top-level link step; the driver runs these plans first
    /// and a failing one aborts the whole invocation.
    pub fn build_deps(&self, inputs: &Vec<DepBuildInput>) -> (r: Vec<DepPlan>)
        requires
            inputs@.len() == self.dm@.len(),
        ensures
            r@.len() == self.dm@.len(),
            forall|i: int|
                0 <= i < r@.len() ==> {
                    let dctx = spec_dep_ctx(self.proj_dir@, self.dm@[i], inputs.deep_view()[i]);
                    &&& (#[trigger] r.deep_view()[i]).out_dir == dctx.out_dir
                    &&& r.deep_view()[i].plan == spec_lib_plan(
                        self.cmd@,
                        self.props.c_std,
                        dctx,
                        inputs.deep_view()[i].files,
                        inputs.deep_view()[i].entry,
                    )
                },
    {
        let mut out: Vec<DepPlan> = Vec::new();
        let mut i: usize = 0;
        while i < self.dm.deps.len()
            invariant
                0 <= i <= self.dm.deps.len(),
                self.dm@.len() == self.dm.deps.len(),
                inputs@.len() == self.dm@.len(),
                out@.len() == i,
                forall|j: int|
                    0 <= j < i ==> {
                        let dctx = spec_dep_ctx(
                            self.proj_dir@,
                            self.dm@[j],
                            inputs.deep_view()[j],
                        );
                        &&& (#[trigger] out.deep_view()[j]).out_dir == dctx.out_dir
                        &&& out.deep_view()[j].plan == spec_lib_plan(
                            self.cmd@,
                            self.props.c_std,
                            dctx,
                            inputs.deep_view()[j].files,
                            inputs.deep_view()[j].entry,
                        )
                    },
            decreases self.dm.deps.len() - i,
        {
            assert(self.dm@[i as int] == self.dm.deps[i as int]@);
            assert(inputs.deep_view()[i as int] == inputs[i as int]@);
            let name = self.dm.deps[i].name();
            let mut out_dir = String::from_str(self.proj_dir.as_str());
            out_dir.append("/build/");
            out_dir.append(name.as_str());
            let out_name = name.concat(".a");
            let inp = &inputs[i];
            let ctx = CompileCtx {
                out_dir,
                out_name,
                root_dir: String::from_str(inp.location.as_str()),
                excluded: crate::util::clone_string_vec(&inp.excluded),
            };
            proof {
                assert(ctx@ == spec_dep_ctx(
                    self.proj_dir@,
                    self.dm@[i as int],
                    inputs.deep_view()[i as int],
                ));
            }
            let plan = self.build_lib(&ctx, &inp.files, inp.entry.as_str());
            let ghost o0 = out.deep_view();
            let ghost pushed = DepPlanView { out_dir: ctx@.out_dir, plan: plan@ };
            let CompileCtx { out_dir: dir, .. } = ctx;
            out.push(DepPlan { out_dir: dir, plan });
            proof {
                assert(out.deep_view() =~= o0.push(pushed));
            }
            i += 1;
        }
        out
    }
}

} // verus!
