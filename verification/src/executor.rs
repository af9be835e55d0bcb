//! The build pipeline around the engine: one invocation is a strictly
//! ordered list of steps — pre-build scripts, the build directory, every
//! dependency built into its own archive, the top-level compile or
//! archive, and the post-build scripts. The driver executes the steps in
//! order and aborts on the first failure, so every dependency archive
//! exists before the top-level step runs.

use vstd::prelude::*;

verus! {

use vstd::string::StringExecFns;
use crate::compiler::{
    BuildError,
    BuildPlan,
    CompileCtx,
    Compiler,
    CtxView,
    DepBuildInput,
    DepInputView,
    DepPlan,
    DepPlanView,
    Invocation,
    InvocationView,
    LibPlan,
    LibPlanView,
    spec_dep_ctx,
    spec_entry_path,
    spec_exe_args,
    spec_join,
    spec_lib_plan,
    spec_link_args,
    spec_sources,
};
use crate::config::{Config, ConfigView, ProjType};
use crate::deps::DepView;
use crate::scripts::ScriptsView;
use crate::util::last_segment;

/// Mathematical value of a `Step`.
pub enum StepView {
    Script(Seq<char>),
    MakeDir(Seq<char>),
    Command(InvocationView),
}

/// One step of a build pipeline, in execution order: run a lifecycle
/// script, ensure a directory exists, or spawn a toolchain process and
/// wait for it. A failing step aborts the remaining pipeline.
#[derive(Debug, PartialEq, Eq)]
pub enum Step {
    Script(String),
    MakeDir(String),
    Command(Invocation),
}

impl View for Step {
    type V = StepView;

    open spec fn view(&self) -> StepView {
        match self {
            Step::Script(p) => StepView::Script(p@),
            Step::MakeDir(p) => StepView::MakeDir(p@),
            Step::Command(c) => StepView::Command(c@),
        }
    }
}

impl DeepView for Step {
    type V = StepView;

    open spec fn deep_view(&self) -> StepView {
        self.view()
    }
}

/// The pre- or post-build scripts as pipeline steps, in order.
pub open spec fn spec_scripts_steps(scripts: Option<ScriptsView>, pre: bool) -> Seq<StepView> {
    match scripts {
        None => Seq::empty(),
        Some(s) => (if pre {
            s.pre
        } else {
            s.post
        }).map_values(|p: Seq<char>| StepView::Script(p)),
    }
}

/// The steps of one library plan: its object compiles in order, then the
/// archiver call, if any.
pub open spec fn spec_lib_plan_steps(p: LibPlanView) -> Seq<StepView> {
    p.compiles.map_values(|c: InvocationView| StepView::Command(c)) + (match p.archive {
        Some(a) => seq![StepView::Command(a)],
        None => Seq::empty(),
    })
}

/// The steps of one dependency build: its archive directory, then its
/// library plan.
pub open spec fn spec_dep_plan_steps(p: DepPlanView) -> Seq<StepView> {
    seq![StepView::MakeDir(p.out_dir)] + spec_lib_plan_steps(p.plan)
}

/// The steps of the first `i` dependency plans, in order.
pub open spec fn spec_dep_steps_upto(plans: Seq<DepPlanView>, i: int) -> Seq<StepView>
    decreases i,
{
    if i <= 0 || i > plans.len() {
        Seq::empty()
    } else {
        spec_dep_steps_upto(plans, i - 1) + spec_dep_plan_steps(plans[i - 1])
    }
}

/// The plans of every dependency, in declaration order.
pub open spec fn spec_dep_plans(
    cmd: Seq<char>,
    std: crate::config::Standard,
    proj_dir: Seq<char>,
    deps: Seq<DepView>,
    inputs: Seq<DepInputView>,
) -> Seq<DepPlanView> {
    Seq::new(
        deps.len(),
        |i: int|
            {
                let dctx = spec_dep_ctx(proj_dir, deps[i], inputs[i]);
                DepPlanView {
                    out_dir: dctx.out_dir,
                    plan: spec_lib_plan(cmd, std, dctx, inputs[i].files, inputs[i].entry),
                }
            },
    )
}

/// The target kind a build is carried out with: forced to a binary when
/// the project is built for direct execution.
pub open spec fn spec_effective_type(t: ProjType, direct_execution: bool) -> ProjType {
    if direct_execution {
        ProjType::Bin
    } else {
        t
    }
}

/// The output file name of the top-level build: the root name, with `.a`
/// appended for a library.
pub open spec fn spec_top_out_name(root_name: Seq<char>, t: ProjType) -> Seq<char> {
    if t is Lib {
        root_name + ".a"@
    } else {
        root_name
    }
}

/// The compile context of the top-level build: into `build/`, named after
/// the project root, over the project's own tree and exclusions.
pub open spec fn spec_top_ctx(
    cur_dir: Seq<char>,
    root_name: Seq<char>,
    t: ProjType,
    excluded: Seq<Seq<char>>,
) -> CtxView {
    CtxView {
        out_dir: "build"@,
        out_name: spec_top_out_name(root_name, t),
        root_dir: cur_dir,
        excluded,
    }
}

/// The steps of the top-level build itself.
pub open spec fn spec_top_steps(
    cfg: ConfigView,
    ctx: CtxView,
    files: Seq<Seq<char>>,
    t: ProjType,
    enable_dbg: bool,
    is_release: bool,
    tests: bool,
) -> Seq<StepView> {
    if t is Lib {
        spec_lib_plan_steps(
            spec_lib_plan(cfg.props.compiler, cfg.props.c_std, ctx, files, cfg.entry),
        )
    } else {
        seq![
            StepView::Command(
                InvocationView {
                    program: cfg.props.compiler,
                    args: spec_exe_args(
                        spec_sources(files, ctx.root_dir, cfg.entry, false, ctx.excluded),
                        ctx.out_dir,
                        ctx.out_name,
                        cfg.props.c_std,
                        enable_dbg,
                        is_release,
                        tests,
                        spec_link_args(cfg.deps, cfg.libraries),
                    ),
                },
            ),
        ]
    }
}

/// The whole pipeline of one build invocation, in execution order:
/// pre-build scripts, the build directory, every dependency's archive
/// directory and library plan, the top-level build, and the post-build
/// scripts.
pub open spec fn spec_build_c_steps(
    cfg: ConfigView,
    cur_dir: Seq<char>,
    files: Seq<Seq<char>>,
    inputs: Seq<DepInputView>,
    enable_dbg: bool,
    direct_execution: bool,
    is_release: bool,
) -> Seq<StepView> {
    let t = spec_effective_type(cfg.props.proj_type, direct_execution);
    let root_name = last_segment(cur_dir, '/');
    let ctx = spec_top_ctx(cur_dir, root_name, t, cfg.excluded);
    let plans = spec_dep_plans(cfg.props.compiler, cfg.props.c_std, cur_dir, cfg.deps, inputs);
    spec_scripts_steps(cfg.scripts, true) + seq![StepView::MakeDir("build"@)]
        + spec_dep_steps_upto(plans, plans.len() as int) + spec_top_steps(
        cfg,
        ctx,
        files,
        t,
        enable_dbg,
        is_release,
        false,
    ) + spec_scripts_steps(cfg.scripts, false)
}

/// Every step of every dependency build stands strictly before every step
/// of the top-level build: the dependency archives exist before the
/// top-level compile or link runs, and — because the driver aborts on the
/// first failing step — a failing dependency build aborts the whole
/// invocation before the top-level step is attempted.
pub proof fn lemma_deps_precede_top(
    cfg: ConfigView,
    cur_dir: Seq<char>,
    files: Seq<Seq<char>>,
    inputs: Seq<DepInputView>,
    enable_dbg: bool,
    direct_execution: bool,
    is_release: bool,
)
    ensures
        ({
            let t = spec_effective_type(cfg.props.proj_type, direct_execution);
            let root_name = last_segment(cur_dir, '/');
            let ctx = spec_top_ctx(cur_dir, root_name, t, cfg.excluded);
            let plans = spec_dep_plans(
                cfg.props.compiler,
                cfg.props.c_std,
                cur_dir,
                cfg.deps,
                inputs,
            );
            let steps = spec_build_c_steps(
                cfg,
                cur_dir,
                files,
                inputs,
                enable_dbg,
                direct_execution,
                is_release,
            );
            let dep_lo = spec_scripts_steps(cfg.scripts, true).len() + 1;
            let dep_hi = dep_lo + spec_dep_steps_upto(plans, plans.len() as int).len();
            let top_hi = dep_hi + spec_top_steps(
                cfg,
                ctx,
                files,
                t,
                enable_dbg,
                is_release,
                false,
            ).len();
            &&& dep_lo <= dep_hi <= top_hi <= steps.len()
            &&& steps.subrange(dep_lo as int, dep_hi as int) == spec_dep_steps_upto(
                plans,
                plans.len() as int,
            )
            &&& steps.subrange(dep_hi as int, top_hi as int) == spec_top_steps(
                cfg,
                ctx,
                files,
                t,
                enable_dbg,
                is_release,
                false,
            )
        }),
{
    let t = spec_effective_type(cfg.props.proj_type, direct_execution);
    let root_name = last_segment(cur_dir, '/');
    let ctx = spec_top_ctx(cur_dir, root_name, t, cfg.excluded);
    let plans = spec_dep_plans(cfg.props.compiler, cfg.props.c_std, cur_dir, cfg.deps, inputs);
    let steps = spec_build_c_steps(
        cfg,
        cur_dir,
        files,
        inputs,
        enable_dbg,
        direct_execution,
        is_release,
    );
    let pre = spec_scripts_steps(cfg.scripts, true);
    let dep_part = spec_dep_steps_upto(plans, plans.len() as int);
    let top_part = spec_top_steps(cfg, ctx, files, t, enable_dbg, is_release, false);
    let dep_lo = pre.len() + 1;
    let dep_hi = dep_lo + dep_part.len();
    let top_hi = dep_hi + top_part.len();
    assert(steps.subrange(dep_lo as int, dep_hi as int) =~= dep_part);
    assert(steps.subrange(dep_hi as int, top_hi as int) =~= top_part);
}

/// Appends one pipeline step per script path, in order.
fn append_script_steps(steps: &mut Vec<Step>, scripts: &Vec<String>)
    ensures
        final(steps).deep_view() == old(steps).deep_view() + scripts.deep_view().map_values(
            |p: Seq<char>| StepView::Script(p),
        ),
{
    let ghost base = steps.deep_view();
    let ghost f = |p: Seq<char>| StepView::Script(p);
    let mut i: usize = 0;
    while i < scripts.len()
        invariant
            0 <= i <= scripts.len(),
            scripts.deep_view().len() == scripts.len(),
            steps.deep_view() =~= base + scripts.deep_view().take(i as int).map_values(f),
            f == (|p: Seq<char>| StepView::Script(p)),
        decreases scripts.len() - i,
    {
        let ghost s0 = steps.deep_view();
        assert(scripts.deep_view()[i as int] == scripts[i as int]@);
        steps.push(Step::Script(String::from_str(scripts[i].as_str())));
        proof {
            assert(steps.deep_view() =~= s0.push(f(scripts.deep_view()[i as int])));
            assert(scripts.deep_view().take(i + 1).map_values(f) =~= scripts.deep_view().take(
                i as int,
            ).map_values(f).push(f(scripts.deep_view()[i as int])));
        }
        i += 1;
    }
    proof {
        assert(scripts.deep_view().take(scripts.deep_view().len() as int)
            =~= scripts.deep_view());
    }
}

/// Appends the steps of one library plan: its object compiles, then the
/// archiver call, if any.
fn append_lib_plan_steps(steps: &mut Vec<Step>, plan: &LibPlan)
    ensures
        final(steps).deep_view() == old(steps).deep_view() + spec_lib_plan_steps(plan@),
{
    let ghost base = steps.deep_view();
    let ghost f = |c: InvocationView| StepView::Command(c);
    let mut i: usize = 0;
    while i < plan.compiles.len()
        invariant
            0 <= i <= plan.compiles.len(),
            plan.compiles.deep_view().len() == plan.compiles.len(),
            steps.deep_view() =~= base + plan.compiles.deep_view().take(i as int).map_values(f),
            f == (|c: InvocationView| StepView::Command(c)),
        decreases plan.compiles.len() - i,
    {
        let ghost s0 = steps.deep_view();
        assert(plan.compiles.deep_view()[i as int] == plan.compiles[i as int]@);
        steps.push(Step::Command(plan.compiles[i].duplicate()));
        proof {
            assert(steps.deep_view() =~= s0.push(f(plan.compiles.deep_view()[i as int])));
            assert(plan.compiles.deep_view().take(i + 1).map_values(f)
                =~= plan.compiles.deep_view().take(i as int).map_values(f).push(
                f(plan.compiles.deep_view()[i as int]),
            ));
        }
        i += 1;
    }
    proof {
        assert(plan.compiles.deep_view().take(plan.compiles.deep_view().len() as int)
            =~= plan.compiles.deep_view());
    }
    let ghost mid = steps.deep_view();
    match &plan.archive {
        Some(a) => {
            steps.push(Step::Command(a.duplicate()));
            proof {
                assert(steps.deep_view() =~= mid.push(StepView::Command(a@)));
                assert(steps.deep_view() =~= base + spec_lib_plan_steps(plan@));
            }
        },
        None => {
            proof {
                assert(steps.deep_view() =~= base + spec_lib_plan_steps(plan@));
            }
        },
    }
}

/// Computes the whole ordered pipeline of one build invocation: pre-build
/// scripts, the build directory, every dependency built as a library into
/// `build/<name>/<name>.a`, the top-level build — forced to a binary when
/// `direct_execution` is set — and the post-build scripts. Fails exactly
/// when the project directory has no usable root name, or when a binary
/// target's entry file is not in its compiled-source set.
pub fn build_c(
    cfg: &Config,
    cur_dir: &str,
    files: &Vec<String>,
    dep_inputs: &Vec<DepBuildInput>,
    enable_dbg: bool,
    direct_execution: bool,
    is_release: bool,
) -> (r: Result<Vec<Step>, BuildError>)
    requires
        dep_inputs@.len() == cfg@.deps.len(),
    ensures
        match r {
            Ok(steps) => {
                let t = spec_effective_type(cfg@.props.proj_type, direct_execution);
                &&& last_segment(cur_dir@, '/').len() > 0
                &&& (t is Bin ==> spec_sources(
                    files.deep_view(),
                    cur_dir@,
                    cfg@.entry,
                    false,
                    cfg@.excluded,
                ).contains(spec_entry_path(cur_dir@, cfg@.entry)))
                &&& steps.deep_view() == spec_build_c_steps(
                    cfg@,
                    cur_dir@,
                    files.deep_view(),
                    dep_inputs.deep_view(),
                    enable_dbg,
                    direct_execution,
                    is_release,
                )
            },
            Err(e) => match e {
                BuildError::MissingRootName => last_segment(cur_dir@, '/').len() == 0,
                BuildError::MissingEntry => last_segment(cur_dir@, '/').len() > 0
                    && spec_effective_type(cfg@.props.proj_type, direct_execution) is Bin
                    && !spec_sources(
                    files.deep_view(),
                    cur_dir@,
                    cfg@.entry,
                    false,
                    cfg@.excluded,
                ).contains(spec_entry_path(cur_dir@, cfg@.entry)),
            },
        },
{
    let mut compiler = match Compiler::new(cur_dir, cfg) {
        Ok(c) => c,
        Err(e) => {
            return Err(e);
        },
    };
    if direct_execution {
        compiler.props.proj_type = ProjType::Bin;
    }
    let ghost t = spec_effective_type(cfg@.props.proj_type, direct_execution);
    proof {
        assert(compiler.props.proj_type == t);
    }
    let mut out_name = String::from_str(compiler.root_name.as_str());
    match compiler.props.proj_type {
        ProjType::Lib => {
            out_name.append(".a");
        },
        ProjType::Bin => {},
    }
    proof {
        assert(out_name@ == spec_top_out_name(last_segment(cur_dir@, '/'), t));
    }
    let mut steps: Vec<Step> = Vec::new();
    proof {
        assert(steps.deep_view() =~= Seq::<StepView>::empty());
    }
    match &cfg.scripts {
        Some(sm) => {
            append_script_steps(&mut steps, sm.pre_scripts());
        },
        None => {},
    }
    proof {
        assert(steps.deep_view() =~= spec_scripts_steps(cfg@.scripts, true));
    }
    let ghost s1 = steps.deep_view();
    steps.push(Step::MakeDir(String::from_str("build")));
    proof {
        assert(steps.deep_view() =~= s1.push(StepView::MakeDir("build"@)));
    }
    let dep_plans = compiler.build_deps(dep_inputs);
    let ghost plans = spec_dep_plans(
        cfg@.props.compiler,
        cfg@.props.c_std,
        cur_dir@,
        cfg@.deps,
        dep_inputs.deep_view(),
    );
    proof {
        assert(dep_plans.deep_view() =~= plans);
    }
    let ghost s2 = steps.deep_view();
    let mut i: usize = 0;
    while i < dep_plans.len()
        invariant
            0 <= i <= dep_plans.len(),
            plans.len() == dep_plans.len(),
            dep_plans.deep_view() =~= plans,
            steps.deep_view() =~= s2 + spec_dep_steps_upto(plans, i as int),
        decreases dep_plans.len() - i,
    {
        let ghost s0 = steps.deep_view();
        assert(dep_plans.deep_view()[i as int] == dep_plans[i as int]@);
        steps.push(Step::MakeDir(String::from_str(dep_plans[i].out_dir.as_str())));
        proof {
            assert(steps.deep_view() =~= s0.push(StepView::MakeDir(plans[i as int].out_dir)));
        }
        append_lib_plan_steps(&mut steps, &dep_plans[i].plan);
        proof {
            assert(steps.deep_view() =~= s0 + spec_dep_plan_steps(plans[i as int]));
            assert(spec_dep_steps_upto(plans, i + 1) == spec_dep_steps_upto(plans, i as int)
                + spec_dep_plan_steps(plans[i as int]));
            assert(steps.deep_view() =~= s2 + spec_dep_steps_upto(plans, i + 1));
        }
        i += 1;
    }
    let ctx = CompileCtx {
        out_dir: String::from_str("build"),
        out_name,
        root_dir: String::from_str(cur_dir),
        excluded: crate::util::clone_string_vec(&cfg.excluded),
    };
    proof {
        assert(ctx@ == spec_top_ctx(cur_dir@, last_segment(cur_dir@, '/'), t, cfg@.excluded));
    }
    let ghost s3 = steps.deep_view();
    match compiler.build(&ctx, files, enable_dbg, is_release, false) {
        Ok(BuildPlan::Lib(lp)) => {
            append_lib_plan_steps(&mut steps, &lp);
            proof {
                assert(steps.deep_view() =~= s3 + spec_top_steps(
                    cfg@,
                    ctx@,
                    files.deep_view(),
                    t,
                    enable_dbg,
                    is_release,
                    false,
                ));
            }
        },
        Ok(BuildPlan::Exe(inv)) => {
            steps.push(Step::Command(inv));
            proof {
                assert(steps.deep_view() =~= s3 + spec_top_steps(
                    cfg@,
                    ctx@,
                    files.deep_view(),
                    t,
                    enable_dbg,
                    is_release,
                    false,
                ));
            }
        },
        Err(e) => {
            return Err(e);
        },
    }
    match &cfg.scripts {
        Some(sm) => {
            append_script_steps(&mut steps, sm.post_scripts());
        },
        None => {},
    }
    proof {
        assert(steps.deep_view() =~= spec_build_c_steps(
            cfg@,
            cur_dir@,
            files.deep_view(),
            dep_inputs.deep_view(),
            enable_dbg,
            direct_execution,
            is_release,
        ));
    }
    Ok(steps)
}

/// The pipeline of a test build: the build and test directories, every
/// dependency archive, then the project compiled as a binary — whatever
/// its declared kind — into `build/tests`, with debug info and with the
/// test-suppression define left out so test entry code stays active.
pub open spec fn spec_run_test_steps(
    cfg: ConfigView,
    cur_dir: Seq<char>,
    files: Seq<Seq<char>>,
    inputs: Seq<DepInputView>,
) -> Seq<StepView> {
    let ctx = CtxView {
        out_dir: "build/tests"@,
        out_name: cfg.name,
        root_dir: cur_dir,
        excluded: cfg.excluded,
    };
    let plans = spec_dep_plans(cfg.props.compiler, cfg.props.c_std, cur_dir, cfg.deps, inputs);
    seq![StepView::MakeDir("build"@), StepView::MakeDir("build/tests"@)] + spec_dep_steps_upto(
        plans,
        plans.len() as int,
    ) + spec_top_steps(cfg, ctx, files, ProjType::Bin, true, false, true)
}

/// Computes the pipeline of a test build and the path of the test binary
/// it produces. The driver runs the steps in order, hands the selected
/// test filter to the binary through the environment channel, and then
/// runs it.
pub fn run_test(
    cfg: &Config,
    cur_dir: &str,
    files: &Vec<String>,
    dep_inputs: &Vec<DepBuildInput>,
) -> (r: Result<(Vec<Step>, String), BuildError>)
    requires
        dep_inputs@.len() == cfg@.deps.len(),
    ensures
        match r {
            Ok(p) => {
                &&& last_segment(cur_dir@, '/').len() > 0
                &&& spec_sources(
                    files.deep_view(),
                    cur_dir@,
                    cfg@.entry,
                    false,
                    cfg@.excluded,
                ).contains(spec_entry_path(cur_dir@, cfg@.entry))
                &&& p.0.deep_view() == spec_run_test_steps(
                    cfg@,
                    cur_dir@,
                    files.deep_view(),
                    dep_inputs.deep_view(),
                )
                &&& p.1@ == spec_join("build/tests"@, cfg@.name)
            },
            Err(e) => match e {
                BuildError::MissingRootName => last_segment(cur_dir@, '/').len() == 0,
                BuildError::MissingEntry => last_segment(cur_dir@, '/').len() > 0
                    && !spec_sources(
                    files.deep_view(),
                    cur_dir@,
                    cfg@.entry,
                    false,
                    cfg@.excluded,
                ).contains(spec_entry_path(cur_dir@, cfg@.entry)),
            },
        },
{
    let mut compiler = match Compiler::new(cur_dir, cfg) {
        Ok(c) => c,
        Err(e) => {
            return Err(e);
        },
    };
    compiler.props.proj_type = ProjType::Bin;
    let mut steps: Vec<Step> = Vec::new();
    steps.push(Step::MakeDir(String::from_str("build")));
    steps.push(Step::MakeDir(String::from_str("build/tests")));
    proof {
        assert(steps.deep_view() =~= seq![
            StepView::MakeDir("build"@),
            StepView::MakeDir("build/tests"@),
        ]);
    }
    let dep_plans = compiler.build_deps(dep_inputs);
    let ghost plans = spec_dep_plans(
        cfg@.props.compiler,
        cfg@.props.c_std,
        cur_dir@,
        cfg@.deps,
        dep_inputs.deep_view(),
    );
    proof {
        assert(dep_plans.deep_view() =~= plans);
    }
    let ghost s2 = steps.deep_view();
    let mut i: usize = 0;
    while i < dep_plans.len()
        invariant
            0 <= i <= dep_plans.len(),
            plans.len() == dep_plans.len(),
            dep_plans.deep_view() =~= plans,
            steps.deep_view() =~= s2 + spec_dep_steps_upto(plans, i as int),
        decreases dep_plans.len() - i,
    {
        let ghost s0 = steps.deep_view();
        assert(dep_plans.deep_view()[i as int] == dep_plans[i as int]@);
        steps.push(Step::MakeDir(String::from_str(dep_plans[i].out_dir.as_str())));
        proof {
            assert(steps.deep_view() =~= s0.push(StepView::MakeDir(plans[i as int].out_dir)));
        }
        append_lib_plan_steps(&mut steps, &dep_plans[i].plan);
        proof {
            assert(steps.deep_view() =~= s0 + spec_dep_plan_steps(plans[i as int]));
            assert(spec_dep_steps_upto(plans, i + 1) == spec_dep_steps_upto(plans, i as int)
                + spec_dep_plan_steps(plans[i as int]));
            assert(steps.deep_view() =~= s2 + spec_dep_steps_upto(plans, i + 1));
        }
        i += 1;
    }
    let ctx = CompileCtx {
        out_dir: String::from_str("build/tests"),
        out_name: String::from_str(cfg.name.as_str()),
        root_dir: String::from_str(cur_dir),
        excluded: crate::util::clone_string_vec(&cfg.excluded),
    };
    let ghost s3 = steps.deep_view();
    match compiler.build(&ctx, files, true, false, true) {
        Ok(BuildPlan::Exe(inv)) => {
            steps.push(Step::Command(inv));
            proof {
                assert(steps.deep_view() =~= s3 + spec_top_steps(
                    cfg@,
                    ctx@,
                    files.deep_view(),
                    ProjType::Bin,
                    true,
                    false,
                    true,
                ));
                assert(steps.deep_view() =~= spec_run_test_steps(
                    cfg@,
                    cur_dir@,
                    files.deep_view(),
                    dep_inputs.deep_view(),
                ));
            }
        },
        Ok(BuildPlan::Lib(_)) => {
            proof {
                assert(false);
            }
        },
        Err(e) => {
            return Err(e);
        },
    }
    let test_bin = crate::compiler::join_path("build/tests", cfg.name.as_str());
    Ok((steps, test_bin))
}

/// Computes the pipeline that builds the project for direct execution — a
/// binary, whatever the declared kind — and the path of the executable the
/// driver then runs.
pub fn run_c(
    cfg: &Config,
    cur_dir: &str,
    files: &Vec<String>,
    dep_inputs: &Vec<DepBuildInput>,
    enable_dbg: bool,
) -> (r: Result<(Vec<Step>, String), BuildError>)
    requires
        dep_inputs@.len() == cfg@.deps.len(),
    ensures
        match r {
            Ok(p) => {
                &&& last_segment(cur_dir@, '/').len() > 0
                &&& p.0.deep_view() == spec_build_c_steps(
                    cfg@,
                    cur_dir@,
                    files.deep_view(),
                    dep_inputs.deep_view(),
                    enable_dbg,
                    true,
                    false,
                )
                &&& p.1@ == "./build/"@ + last_segment(cur_dir@, '/')
            },
            Err(e) => match e {
                BuildError::MissingRootName => last_segment(cur_dir@, '/').len() == 0,
                BuildError::MissingEntry => last_segment(cur_dir@, '/').len() > 0
                    && !spec_sources(
                    files.deep_view(),
                    cur_dir@,
                    cfg@.entry,
                    false,
                    cfg@.excluded,
                ).contains(spec_entry_path(cur_dir@, cfg@.entry)),
            },
        },
{
    let root_name = match crate::util::root_dir_name(cur_dir) {
        Some(n) => String::from_str(n),
        None => {
            return Err(BuildError::MissingRootName);
        },
    };
    let steps = match build_c(cfg, cur_dir, files, dep_inputs, enable_dbg, true, false) {
        Ok(s) => s,
        Err(e) => {
            return Err(e);
        },
    };
    let mut path = String::from_str("./build/");
    path.append(root_name.as_str());
    Ok((steps, path))
}

/// Two builds of the same project over the same source tree compute the
/// same library plan: the object compiles and the archive invocation are
/// a function of the configuration and the enumerated files alone, so —
/// given a deterministic external compiler — an unchanged tree rebuilds
/// to an identical object and archive set.
pub proof fn lemma_lib_build_deterministic(
    p1: LibPlanView,
    p2: LibPlanView,
    cmd: Seq<char>,
    std: crate::config::Standard,
    ctx: CtxView,
    files: Seq<Seq<char>>,
    entry: Seq<char>,
)
    requires
        p1 == spec_lib_plan(cmd, std, ctx, files, entry),
        p2 == spec_lib_plan(cmd, std, ctx, files, entry),
    ensures
        p1 == p2,
{
}

} // verus!
