use surtur::compiler::{BuildError, BuildPlan, CompileCtx, Compiler, DepBuildInput, join_path};
use surtur::config::{Config, RawConfig};
use surtur::util::{get_header_files, get_src_files};

fn engine_cfg(ty: &str, std: &str, exclude: Vec<&str>, deps: Vec<&str>) -> Config {
    let raw = RawConfig {
        name: Some("demo".to_string()),
        props: Some(vec![
            ("std".to_string(), std.to_string()),
            ("version".to_string(), "0.1".to_string()),
            ("type".to_string(), ty.to_string()),
        ]),
        dependencies: if deps.is_empty() {
            None
        } else {
            Some(
                deps.iter()
                    .map(|d| {
                        vec![
                            surtur::config::RawValue::Str(d.to_string()),
                            surtur::config::RawValue::Num("0.1".to_string()),
                        ]
                    })
                    .collect(),
            )
        },
        exclude: if exclude.is_empty() {
            None
        } else {
            Some(exclude.iter().map(|e| e.to_string()).collect())
        },
        scripts: None,
        libraries: None,
        entry: None,
    };
    Config::decode("proj", &raw).unwrap()
}

fn strs(v: Vec<&str>) -> Vec<String> {
    v.into_iter().map(|s| s.to_string()).collect()
}

#[test]
fn src_files_keeps_only_c_files() {
    let files = strs(vec!["a/src/x.c", "a/src/x.h", "a/src/notes.txt", "a/src/deep/y.c"]);
    assert_eq!(get_src_files(&files), strs(vec!["a/src/x.c", "a/src/deep/y.c"]));
    assert_eq!(get_header_files(&files), strs(vec!["a/src/x.h"]));
}

#[test]
fn join_path_inserts_one_separator() {
    assert_eq!(join_path("build", "demo.a"), "build/demo.a");
}

#[test]
fn compiler_new_takes_the_root_name_from_the_directory() {
    let cfg = engine_cfg("bin", "c17", vec![], vec![]);
    let c = Compiler::new("/home/u/proj", &cfg).unwrap();
    assert_eq!(c.root_name, "proj");
    assert_eq!(c.cmd, "gcc");
    assert_eq!(c.entry, "main.c");
}

#[test]
fn compiler_new_fails_without_a_root_name() {
    let cfg = engine_cfg("bin", "c17", vec![], vec![]);
    assert_eq!(Compiler::new("proj/", &cfg).unwrap_err(), BuildError::MissingRootName);
    assert_eq!(Compiler::new("", &cfg).unwrap_err(), BuildError::MissingRootName);
}

#[test]
fn build_exe_compiles_all_sources_once() {
    let cfg = engine_cfg("bin", "c17", vec![], vec![]);
    let c = Compiler::new("proj", &cfg).unwrap();
    let ctx = CompileCtx {
        out_dir: "build".to_string(),
        out_name: "proj".to_string(),
        root_dir: "proj".to_string(),
        excluded: vec![],
    };
    let files = strs(vec!["proj/src/main.c", "proj/src/util.c", "proj/src/util.h"]);
    let inv = c.build_exe(&ctx, &files, false, false, false).unwrap();
    assert_eq!(inv.program, "gcc");
    assert_eq!(
        inv.args,
        strs(vec![
            "proj/src/main.c",
            "proj/src/util.c",
            "-o",
            "build/proj",
            "-DNOTESTS",
            "-std=c17",
            "-Lbuild/",
        ])
    );
}

#[test]
fn build_exe_debug_flag_wins_over_release() {
    let cfg = engine_cfg("bin", "c17", vec![], vec![]);
    let c = Compiler::new("proj", &cfg).unwrap();
    let ctx = CompileCtx {
        out_dir: "build".to_string(),
        out_name: "proj".to_string(),
        root_dir: "proj".to_string(),
        excluded: vec![],
    };
    let files = strs(vec!["proj/src/main.c"]);
    let dbg = c.build_exe(&ctx, &files, true, true, false).unwrap();
    assert_eq!(dbg.args[0], "-g");
    let rel = c.build_exe(&ctx, &files, false, true, false).unwrap();
    assert_eq!(rel.args[0], "-o3");
    let tests = c.build_exe(&ctx, &files, false, false, true).unwrap();
    assert!(!tests.args.contains(&"-DNOTESTS".to_string()));
}

#[test]
fn build_exe_fails_when_the_entry_file_is_excluded() {
    let cfg = engine_cfg("bin", "c17", vec!["main.c"], vec![]);
    let c = Compiler::new("proj", &cfg).unwrap();
    let ctx = CompileCtx {
        out_dir: "build".to_string(),
        out_name: "proj".to_string(),
        root_dir: "proj".to_string(),
        excluded: cfg.excluded.clone(),
    };
    let files = strs(vec!["proj/src/main.c", "proj/src/util.c"]);
    let err = c.build_exe(&ctx, &files, false, false, false).unwrap_err();
    assert_eq!(err, BuildError::MissingEntry);
}

#[test]
fn build_exe_fails_when_the_entry_file_is_absent() {
    let cfg = engine_cfg("bin", "c17", vec![], vec![]);
    let c = Compiler::new("proj", &cfg).unwrap();
    let ctx = CompileCtx {
        out_dir: "build".to_string(),
        out_name: "proj".to_string(),
        root_dir: "proj".to_string(),
        excluded: vec![],
    };
    let files = strs(vec!["proj/src/util.c"]);
    assert_eq!(
        c.build_exe(&ctx, &files, false, false, false).unwrap_err(),
        BuildError::MissingEntry
    );
}

#[test]
fn build_lib_drops_entry_and_exclusions() {
    let cfg = engine_cfg("lib", "c17", vec!["skip.c"], vec![]);
    let c = Compiler::new("proj", &cfg).unwrap();
    let ctx = CompileCtx {
        out_dir: "build".to_string(),
        out_name: "proj.a".to_string(),
        root_dir: "proj".to_string(),
        excluded: cfg.excluded.clone(),
    };
    let files = strs(vec![
        "proj/src/lib.c",
        "proj/src/helper.c",
        "proj/src/skip.c",
        "proj/src/api.h",
    ]);
    let plan = c.build_lib(&ctx, &files, "lib.c");
    assert_eq!(plan.compiles.len(), 1);
    assert_eq!(plan.compiles[0].program, "gcc");
    assert_eq!(
        plan.compiles[0].args,
        strs(vec![
            "-c",
            "proj/src/helper.c",
            "-o",
            "build/helper",
            "-w",
            "-DNOTESTS",
            "-std=c17",
        ])
    );
    let archive = plan.archive.unwrap();
    assert_eq!(archive.program, "ar");
    assert_eq!(archive.args, strs(vec!["rcs", "build/proj.a", "build/helper"]));
}

#[test]
fn build_lib_with_no_sources_is_a_no_op() {
    let cfg = engine_cfg("lib", "c17", vec![], vec![]);
    let c = Compiler::new("proj", &cfg).unwrap();
    let ctx = CompileCtx {
        out_dir: "build".to_string(),
        out_name: "proj.a".to_string(),
        root_dir: "proj".to_string(),
        excluded: vec![],
    };
    let files = strs(vec!["proj/src/lib.c", "proj/src/api.h"]);
    let plan = c.build_lib(&ctx, &files, "lib.c");
    assert!(plan.compiles.is_empty());
    assert!(plan.archive.is_none());
}

#[test]
fn build_dispatches_on_the_project_kind() {
    let cfg = engine_cfg("lib", "c11", vec![], vec![]);
    let c = Compiler::new("proj", &cfg).unwrap();
    let ctx = CompileCtx {
        out_dir: "build".to_string(),
        out_name: "proj.a".to_string(),
        root_dir: "proj".to_string(),
        excluded: vec![],
    };
    let files = strs(vec!["proj/src/code.c"]);
    match c.build(&ctx, &files, false, false, false).unwrap() {
        BuildPlan::Lib(plan) => assert_eq!(plan.compiles.len(), 1),
        BuildPlan::Exe(_) => panic!("a library build must produce a library plan"),
    }
}

#[test]
fn link_lib_names_every_archive_and_library() {
    let mut cfg = engine_cfg("bin", "c17", vec![], vec![
        "https://example.com/org/foo",
        "https://example.com/org/bar.git",
    ]);
    cfg.libraries = strs(vec!["m", "curl"]);
    let c = Compiler::new("proj", &cfg).unwrap();
    assert_eq!(
        c.link_lib(),
        strs(vec!["-Lbuild/", "-l:foo/foo.a", "-l:bar/bar.a", "-lm", "-lcurl"])
    );
}

#[test]
fn build_deps_archives_each_dependency_under_build() {
    let cfg = engine_cfg("bin", "c17", vec![], vec!["https://example.com/org/foo"]);
    let c = Compiler::new("proj", &cfg).unwrap();
    let inputs = vec![DepBuildInput {
        location: "cache/deps/foo".to_string(),
        entry: "lib.c".to_string(),
        excluded: vec![],
        files: strs(vec!["cache/deps/foo/src/impl.c"]),
    }];
    let plans = c.build_deps(&inputs);
    assert_eq!(plans.len(), 1);
    assert_eq!(plans[0].out_dir, "proj/build/foo");
    assert_eq!(plans[0].plan.compiles.len(), 1);
    assert_eq!(
        plans[0].plan.compiles[0].args,
        strs(vec![
            "-c",
            "cache/deps/foo/src/impl.c",
            "-o",
            "proj/build/foo/impl",
            "-w",
            "-DNOTESTS",
            "-std=c17",
        ])
    );
    let archive = plans[0].plan.archive.as_ref().unwrap();
    assert_eq!(
        archive.args,
        strs(vec!["rcs", "proj/build/foo/foo.a", "proj/build/foo/impl"])
    );
}
