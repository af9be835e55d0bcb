use surtur::compiler::{BuildError, DepBuildInput, Invocation};
use surtur::config::{Config, RawConfig, RawValue};
use surtur::executor::{Step, build_c, run_c, run_test};

fn pipeline_cfg(props: Vec<(&str, &str)>, raw_edit: impl FnOnce(&mut RawConfig)) -> Config {
    let mut raw = RawConfig {
        name: Some("demo".to_string()),
        props: Some(
            props
                .into_iter()
                .map(|(k, v)| (k.to_string(), v.to_string()))
                .collect(),
        ),
        dependencies: None,
        exclude: None,
        scripts: None,
        libraries: None,
        entry: None,
    };
    raw_edit(&mut raw);
    Config::decode("proj", &raw).unwrap()
}

fn owned(v: Vec<&str>) -> Vec<String> {
    v.into_iter().map(|s| s.to_string()).collect()
}

#[test]
fn bin_build_invokes_the_compiler_once() {
    let cfg = pipeline_cfg(
        vec![("std", "c17"), ("version", "0.1"), ("type", "bin")],
        |_| {},
    );
    let files = owned(vec!["proj/src/main.c"]);
    let steps = build_c(&cfg, "proj", &files, &vec![], false, false, false).unwrap();
    assert_eq!(
        steps,
        vec![
            Step::MakeDir("build".to_string()),
            Step::Command(Invocation {
                program: "gcc".to_string(),
                args: owned(vec![
                    "proj/src/main.c",
                    "-o",
                    "build/proj",
                    "-DNOTESTS",
                    "-std=c17",
                    "-Lbuild/",
                ]),
            }),
        ]
    );
}

#[test]
fn lib_build_compiles_and_archives_the_remaining_sources() {
    let cfg = pipeline_cfg(
        vec![("std", "c17"), ("version", "0.1"), ("type", "lib")],
        |raw| {
            raw.exclude = Some(vec!["lib.c".to_string()]);
        },
    );
    let files = owned(vec!["proj/src/lib.c", "proj/src/helper.c"]);
    let steps = build_c(&cfg, "proj", &files, &vec![], false, false, false).unwrap();
    assert_eq!(
        steps,
        vec![
            Step::MakeDir("build".to_string()),
            Step::Command(Invocation {
                program: "gcc".to_string(),
                args: owned(vec![
                    "-c",
                    "proj/src/helper.c",
                    "-o",
                    "build/helper",
                    "-w",
                    "-DNOTESTS",
                    "-std=c17",
                ]),
            }),
            Step::Command(Invocation {
                program: "ar".to_string(),
                args: owned(vec!["rcs", "build/proj.a", "build/helper"]),
            }),
        ]
    );
}

#[test]
fn dependency_archive_is_built_before_the_top_level_link() {
    let cfg = pipeline_cfg(
        vec![("std", "c17"), ("version", "0.1"), ("type", "bin")],
        |raw| {
            raw.dependencies = Some(vec![vec![
                RawValue::Str("https://example.com/org/foo".to_string()),
                RawValue::Num("0.1".to_string()),
            ]]);
        },
    );
    let files = owned(vec!["proj/src/main.c"]);
    let inputs = vec![DepBuildInput {
        location: "cache/deps/foo".to_string(),
        entry: "lib.c".to_string(),
        excluded: vec![],
        files: owned(vec!["cache/deps/foo/src/impl.c"]),
    }];
    let steps = build_c(&cfg, "proj", &files, &inputs, false, false, false).unwrap();

    let archive_pos = steps
        .iter()
        .position(|s| match s {
            Step::Command(inv) => {
                inv.program == "ar" && inv.args.contains(&"proj/build/foo/foo.a".to_string())
            }
            _ => false,
        })
        .expect("the dependency archive step is missing");
    let link_pos = steps
        .iter()
        .position(|s| match s {
            Step::Command(inv) => inv.args.contains(&"-l:foo/foo.a".to_string()),
            _ => false,
        })
        .expect("the top-level link step is missing");
    assert!(archive_pos < link_pos);
    assert_eq!(steps[1], Step::MakeDir("proj/build/foo".to_string()));
}

#[test]
fn scripts_run_first_and_last() {
    let cfg = pipeline_cfg(
        vec![("std", "c17"), ("version", "0.1"), ("type", "bin")],
        |raw| {
            raw.scripts = Some(vec![
                ("pre".to_string(), vec!["before.lua".to_string()]),
                ("post".to_string(), vec!["after.lua".to_string()]),
            ]);
        },
    );
    let files = owned(vec!["proj/src/main.c"]);
    let steps = build_c(&cfg, "proj", &files, &vec![], false, false, false).unwrap();
    assert_eq!(steps.first().unwrap(), &Step::Script("before.lua".to_string()));
    assert_eq!(steps.last().unwrap(), &Step::Script("after.lua".to_string()));
}

#[test]
fn direct_execution_forces_a_binary_build() {
    let cfg = pipeline_cfg(
        vec![("std", "c17"), ("version", "0.1"), ("type", "lib")],
        |_| {},
    );
    let files = owned(vec!["proj/src/lib.c"]);
    let steps = build_c(&cfg, "proj", &files, &vec![], false, true, false).unwrap();
    match steps.last().unwrap() {
        Step::Command(inv) => {
            assert_eq!(inv.program, "gcc");
            assert!(inv.args.contains(&"build/proj".to_string()));
        }
        other => panic!("expected a compile step, got {:?}", other),
    }
}

#[test]
fn bin_build_fails_when_the_entry_is_excluded() {
    let cfg = pipeline_cfg(
        vec![("std", "c17"), ("version", "0.1"), ("type", "bin")],
        |raw| {
            raw.exclude = Some(vec!["main.c".to_string()]);
        },
    );
    let files = owned(vec!["proj/src/main.c"]);
    assert_eq!(
        build_c(&cfg, "proj", &files, &vec![], false, false, false).unwrap_err(),
        BuildError::MissingEntry
    );
}

#[test]
fn build_fails_without_a_root_name() {
    let cfg = pipeline_cfg(
        vec![("std", "c17"), ("version", "0.1"), ("type", "bin")],
        |_| {},
    );
    let files = owned(vec!["proj/src/main.c"]);
    assert_eq!(
        build_c(&cfg, "proj/", &files, &vec![], false, false, false).unwrap_err(),
        BuildError::MissingRootName
    );
}

#[test]
fn run_c_names_the_executable_under_build() {
    let cfg = pipeline_cfg(
        vec![("std", "c17"), ("version", "0.1"), ("type", "bin")],
        |_| {},
    );
    let files = owned(vec!["proj/src/main.c"]);
    let (steps, path) = run_c(&cfg, "proj", &files, &vec![], false).unwrap();
    assert_eq!(path, "./build/proj");
    assert!(!steps.is_empty());
}

#[test]
fn run_test_builds_into_the_tests_directory() {
    let cfg = pipeline_cfg(
        vec![("std", "c17"), ("version", "0.1"), ("type", "lib")],
        |_| {},
    );
    let files = owned(vec!["proj/src/lib.c"]);
    let (steps, bin) = run_test(&cfg, "proj", &files, &vec![]).unwrap();
    assert_eq!(bin, "build/tests/demo");
    assert_eq!(steps[0], Step::MakeDir("build".to_string()));
    assert_eq!(steps[1], Step::MakeDir("build/tests".to_string()));
    match steps.last().unwrap() {
        Step::Command(inv) => {
            assert_eq!(inv.args[0], "-g");
            assert!(inv.args.contains(&"build/tests/demo".to_string()));
            assert!(!inv.args.contains(&"-DNOTESTS".to_string()));
        }
        other => panic!("expected a compile step, got {:?}", other),
    }
}

#[test]
fn building_twice_gives_identical_steps() {
    let cfg = pipeline_cfg(
        vec![("std", "c17"), ("version", "0.1"), ("type", "lib")],
        |_| {},
    );
    let files = owned(vec!["proj/src/a.c", "proj/src/b.c"]);
    let first = build_c(&cfg, "proj", &files, &vec![], false, false, false).unwrap();
    let second = build_c(&cfg, "proj", &files, &vec![], false, false, false).unwrap();
    assert_eq!(first, second);
}
