use surtur::config::{Config, ConfigError, ProjType, RawConfig, RawValue, Standard};
use surtur::files::FileHandler;

fn raw_empty() -> RawConfig {
    RawConfig {
        name: None,
        props: None,
        dependencies: None,
        exclude: None,
        scripts: None,
        libraries: None,
        entry: None,
    }
}

fn raw_minimal_bin() -> RawConfig {
    let mut raw = raw_empty();
    raw.name = Some("demo".to_string());
    raw.props = Some(vec![
        ("std".to_string(), "c17".to_string()),
        ("version".to_string(), "0.1".to_string()),
        ("type".to_string(), "bin".to_string()),
    ]);
    raw
}

#[test]
fn standard_from_str_accepts_the_closed_set() {
    assert_eq!(Standard::from_str("c89"), Some(Standard::C89));
    assert_eq!(Standard::from_str("c99"), Some(Standard::C99));
    assert_eq!(Standard::from_str("c11"), Some(Standard::C11));
    assert_eq!(Standard::from_str("c17"), Some(Standard::C17));
    assert_eq!(Standard::from_str("c2x"), Some(Standard::C2X));
    assert_eq!(Standard::from_str("c23"), Some(Standard::C23));
    assert_eq!(Standard::from_str("gnu89"), Some(Standard::Gnu89));
    assert_eq!(Standard::from_str("gnu99"), Some(Standard::Gnu99));
    assert_eq!(Standard::from_str("gnu11"), Some(Standard::Gnu11));
    assert_eq!(Standard::from_str("gnu17"), Some(Standard::Gnu17));
    assert_eq!(Standard::from_str("gnu2x"), Some(Standard::Gnu2X));
    assert_eq!(Standard::from_str("gnu23"), Some(Standard::Gnu23));
    assert_eq!(Standard::from_str("c42"), None);
    assert_eq!(Standard::from_str(""), None);
    assert_eq!(Standard::from_str("C17"), None);
}

#[test]
fn standard_as_str_round_trips() {
    for s in [
        Standard::C89,
        Standard::C99,
        Standard::C11,
        Standard::C17,
        Standard::C2X,
        Standard::C23,
        Standard::Gnu89,
        Standard::Gnu99,
        Standard::Gnu11,
        Standard::Gnu17,
        Standard::Gnu2X,
        Standard::Gnu23,
    ] {
        assert_eq!(Standard::from_str(s.as_str()), Some(s));
    }
}

#[test]
fn proj_type_from_str() {
    assert_eq!(ProjType::from_str("lib"), Some(ProjType::Lib));
    assert_eq!(ProjType::from_str("bin"), Some(ProjType::Bin));
    assert_eq!(ProjType::from_str("exe"), None);
    assert_eq!(ProjType::Lib.as_str(), "lib");
    assert_eq!(ProjType::Bin.as_str(), "bin");
}

#[test]
fn decode_minimal_bin_config() {
    let cfg = Config::decode("proj", &raw_minimal_bin()).unwrap();
    assert_eq!(cfg.name, "demo");
    assert_eq!(cfg.props.c_std, Standard::C17);
    assert_eq!(cfg.props.proj_version, "0.1");
    assert_eq!(cfg.props.proj_type, ProjType::Bin);
    assert_eq!(cfg.props.compiler, "gcc");
    assert_eq!(cfg.entry, "main.c");
    assert_eq!(cfg.deps.len(), 0);
    assert!(cfg.excluded.is_empty());
    assert!(cfg.scripts.is_none());
    assert!(cfg.libraries.is_empty());
}

#[test]
fn decode_defaults_when_keys_absent() {
    let mut raw = raw_empty();
    raw.name = Some("d".to_string());
    raw.props = Some(vec![("version".to_string(), "1".to_string())]);
    let cfg = Config::decode("r", &raw).unwrap();
    assert_eq!(cfg.props.c_std, Standard::C23);
    assert_eq!(cfg.props.proj_type, ProjType::Bin);
    assert_eq!(cfg.props.compiler, "gcc");
    assert_eq!(cfg.entry, "main.c");
}

#[test]
fn decode_lib_default_entry() {
    let mut raw = raw_empty();
    raw.name = Some("d".to_string());
    raw.props = Some(vec![
        ("version".to_string(), "1".to_string()),
        ("type".to_string(), "lib".to_string()),
    ]);
    let cfg = Config::decode("r", &raw).unwrap();
    assert_eq!(cfg.props.proj_type, ProjType::Lib);
    assert_eq!(cfg.entry, "lib.c");
}

#[test]
fn decode_entry_override() {
    let mut raw = raw_minimal_bin();
    raw.entry = Some("start.c".to_string());
    let cfg = Config::decode("r", &raw).unwrap();
    assert_eq!(cfg.entry, "start.c");
}

#[test]
fn decode_missing_name_is_an_error() {
    let mut raw = raw_minimal_bin();
    raw.name = None;
    let err = Config::decode("r", &raw).unwrap_err();
    assert_eq!(err, ConfigError::MissingName);
    assert_eq!(
        err.message(),
        "Failed to get name property even though it is required"
    );
}

#[test]
fn decode_missing_version_is_an_error() {
    let mut raw = raw_empty();
    raw.name = Some("d".to_string());
    raw.props = Some(vec![("std".to_string(), "c17".to_string())]);
    assert_eq!(Config::decode("r", &raw).unwrap_err(), ConfigError::MissingVersion);
}

#[test]
fn decode_absent_props_misses_the_version() {
    let mut raw = raw_empty();
    raw.name = Some("d".to_string());
    assert_eq!(Config::decode("r", &raw).unwrap_err(), ConfigError::MissingVersion);
}

#[test]
fn decode_invalid_std_is_an_error() {
    let mut raw = raw_empty();
    raw.name = Some("d".to_string());
    raw.props = Some(vec![("std".to_string(), "c100".to_string())]);
    let err = Config::decode("r", &raw).unwrap_err();
    assert_eq!(err, ConfigError::InvalidStd("c100".to_string()));
    assert_eq!(
        err.message(),
        "`c100` is not a valid value for the projects C Standard"
    );
}

#[test]
fn decode_invalid_type_is_an_error() {
    let mut raw = raw_empty();
    raw.name = Some("d".to_string());
    raw.props = Some(vec![("type".to_string(), "exe".to_string())]);
    let err = Config::decode("r", &raw).unwrap_err();
    assert_eq!(err, ConfigError::InvalidProjType("exe".to_string()));
    assert_eq!(
        err.message(),
        "`exe` is not a valid value for the projects type. Valid types are: `lib` and `bin`"
    );
}

#[test]
fn decode_unknown_props_key_is_an_error() {
    let mut raw = raw_empty();
    raw.name = Some("d".to_string());
    raw.props = Some(vec![("flavour".to_string(), "x".to_string())]);
    let err = Config::decode("r", &raw).unwrap_err();
    assert_eq!(err, ConfigError::UnknownPropsKey("flavour".to_string()));
    assert_eq!(err.message(), "invalid version entry: flavour");
}

#[test]
fn decode_props_keys_are_case_insensitive() {
    let mut raw = raw_empty();
    raw.name = Some("d".to_string());
    raw.props = Some(vec![
        ("STD".to_string(), "c11".to_string()),
        ("Version".to_string(), "2".to_string()),
    ]);
    let cfg = Config::decode("r", &raw).unwrap();
    assert_eq!(cfg.props.c_std, Standard::C11);
    assert_eq!(cfg.props.proj_version, "2");
}

#[test]
fn decode_dependency_with_number_version() {
    let mut raw = raw_minimal_bin();
    raw.dependencies = Some(vec![vec![
        RawValue::Str("https://example.com/org/foo".to_string()),
        RawValue::Num("0.1".to_string()),
    ]]);
    let cfg = Config::decode("r", &raw).unwrap();
    assert_eq!(cfg.deps.len(), 1);
    assert_eq!(cfg.deps.deps[0].origin(), "https://example.com/org/foo.git");
    assert_eq!(cfg.deps.deps[0].version(), "0.1");
}

#[test]
fn decode_dependency_with_integer_version() {
    let mut raw = raw_minimal_bin();
    raw.dependencies = Some(vec![vec![
        RawValue::Int(1),
        RawValue::Str("https://example.com/a/b.git".to_string()),
    ]]);
    let cfg = Config::decode("r", &raw).unwrap();
    assert_eq!(cfg.deps.deps[0].version(), "1");
    assert_eq!(cfg.deps.deps[0].origin(), "https://example.com/a/b.git");
}

#[test]
fn decode_dependency_without_origin_is_an_error() {
    let mut raw = raw_minimal_bin();
    raw.dependencies = Some(vec![vec![RawValue::Num("0.1".to_string())]]);
    assert_eq!(
        Config::decode("r", &raw).unwrap_err(),
        ConfigError::InvalidDependencyValue
    );
}

#[test]
fn decode_dependency_with_foreign_value_is_an_error() {
    let mut raw = raw_minimal_bin();
    raw.dependencies = Some(vec![vec![
        RawValue::Str("u".to_string()),
        RawValue::Other,
    ]]);
    let err = Config::decode("r", &raw).unwrap_err();
    assert_eq!(err, ConfigError::InvalidDependencyValue);
    assert_eq!(err.message(), "Invalid value in dependency table");
}

#[test]
fn decode_duplicate_dependencies_collapse() {
    let dep = || {
        vec![
            RawValue::Str("https://example.com/org/foo".to_string()),
            RawValue::Num("0.1".to_string()),
        ]
    };
    let mut raw = raw_minimal_bin();
    raw.dependencies = Some(vec![dep(), dep()]);
    let cfg = Config::decode("r", &raw).unwrap();
    assert_eq!(cfg.deps.len(), 1);
}

#[test]
fn decode_resolves_exclusions_under_src() {
    let mut raw = raw_minimal_bin();
    raw.exclude = Some(vec!["lib.c".to_string(), "demo.c".to_string()]);
    let cfg = Config::decode("proj", &raw).unwrap();
    assert_eq!(cfg.excluded, vec!["proj/src/lib.c", "proj/src/demo.c"]);
}

#[test]
fn decode_scripts_lists() {
    let mut raw = raw_minimal_bin();
    raw.scripts = Some(vec![
        ("pre".to_string(), vec!["a.lua".to_string()]),
        ("post".to_string(), vec!["b.lua".to_string(), "c.lua".to_string()]),
    ]);
    let cfg = Config::decode("r", &raw).unwrap();
    let sm = cfg.scripts.unwrap();
    assert_eq!(sm.pre_scripts(), &vec!["a.lua".to_string()]);
    assert_eq!(sm.post_scripts(), &vec!["b.lua".to_string(), "c.lua".to_string()]);
}

#[test]
fn decode_invalid_scripts_key_is_an_error() {
    let mut raw = raw_minimal_bin();
    raw.scripts = Some(vec![("during".to_string(), vec![])]);
    let err = Config::decode("r", &raw).unwrap_err();
    assert_eq!(err, ConfigError::InvalidScriptsKey("during".to_string()));
    assert_eq!(err.message(), "Found invalid key: during");
}

#[test]
fn decode_empty_scripts_mean_none() {
    let mut raw = raw_minimal_bin();
    raw.scripts = Some(vec![("pre".to_string(), vec![])]);
    let cfg = Config::decode("r", &raw).unwrap();
    assert!(cfg.scripts.is_none());
}

#[test]
fn decode_deduplicates_libraries() {
    let mut raw = raw_minimal_bin();
    raw.libraries = Some(vec!["m".to_string(), "curl".to_string(), "m".to_string()]);
    let cfg = Config::decode("r", &raw).unwrap();
    assert_eq!(cfg.libraries, vec!["m", "curl"]);
}

#[test]
fn parse_reads_a_full_project_script() {
    let content = "Name = \"demo\"\nProps = {\n    std = \"c17\",\n    version = \"0.1\",\n    type = \"bin\",\n    compiler = \"clang\",\n}\nDependencies = {\n    { \"https://example.com/org/foo\", 0.1 },\n}\nExclude = { \"x.c\" }\nLibraries = { \"m\", \"m\" }\nScripts = { pre = { \"a.lua\" }, post = { \"b.lua\" } }\nEntry = \"start.c\"\n";
    let fh = FileHandler::new("proj/project.lua", content.to_string());
    let cfg = Config::parse("proj", &fh).unwrap();
    assert_eq!(cfg.name, "demo");
    assert_eq!(cfg.props.c_std, Standard::C17);
    assert_eq!(cfg.props.proj_version, "0.1");
    assert_eq!(cfg.props.proj_type, ProjType::Bin);
    assert_eq!(cfg.props.compiler, "clang");
    assert_eq!(cfg.deps.len(), 1);
    assert_eq!(cfg.deps.deps[0].origin(), "https://example.com/org/foo.git");
    assert_eq!(cfg.deps.deps[0].version(), "0.1");
    assert_eq!(cfg.excluded, vec!["proj/src/x.c"]);
    assert_eq!(cfg.libraries, vec!["m"]);
    assert_eq!(cfg.entry, "start.c");
    let sm = cfg.scripts.unwrap();
    assert_eq!(sm.pre_scripts(), &vec!["a.lua".to_string()]);
    assert_eq!(sm.post_scripts(), &vec!["b.lua".to_string()]);
}

#[test]
fn parse_rejects_an_invalid_standard() {
    let content = "Name = \"demo\"\nProps = { std = \"c100\" }\n";
    let fh = FileHandler::new("proj/project.lua", content.to_string());
    assert_eq!(
        Config::parse("proj", &fh).unwrap_err(),
        ConfigError::InvalidStd("c100".to_string())
    );
}

#[test]
fn parse_rejects_a_broken_script() {
    let content = "Name = = =\n";
    let fh = FileHandler::new("proj/project.lua", content.to_string());
    match Config::parse("proj", &fh).unwrap_err() {
        ConfigError::ScriptFailed(msg) => assert!(!msg.is_empty()),
        other => panic!("expected a script failure, got {:?}", other),
    }
}

#[test]
fn parse_without_name_is_missing_name() {
    let content = "Props = { version = \"1\" }\n";
    let fh = FileHandler::new("proj/project.lua", content.to_string());
    assert_eq!(Config::parse("proj", &fh).unwrap_err(), ConfigError::MissingName);
}

#[test]
fn parse_integer_dependency_version_renders_in_decimal() {
    let content = "Name = \"demo\"\nProps = { version = \"1\" }\nDependencies = { { \"https://example.com/a/b\", 2 } }\n";
    let fh = FileHandler::new("proj/project.lua", content.to_string());
    let cfg = Config::parse("proj", &fh).unwrap();
    assert_eq!(cfg.deps.deps[0].version(), "2");
    assert_eq!(cfg.deps.deps[0].origin(), "https://example.com/a/b.git");
}
