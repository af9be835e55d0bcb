use surtur::creator::{CreateStep, Project};
use surtur::error::throw;
use surtur::files::FileHandler;
use surtur::initiator::init_proj;
use surtur::tips::{Tip, get_tip};
use surtur::util::{
    ErrorType, get_err_str, i64_to_string, result_to_option, root_dir_name, throw_error,
    u64_to_string,
};

#[test]
fn root_dir_name_takes_the_last_component() {
    assert_eq!(root_dir_name("/home/u/proj"), Some("proj"));
    assert_eq!(root_dir_name("proj"), Some("proj"));
    assert_eq!(root_dir_name("/home/u/proj/"), None);
    assert_eq!(root_dir_name(""), None);
}

#[test]
fn decimal_rendering_is_exact() {
    assert_eq!(u64_to_string(0), "0");
    assert_eq!(u64_to_string(7), "7");
    assert_eq!(u64_to_string(10), "10");
    assert_eq!(u64_to_string(90210), "90210");
    assert_eq!(i64_to_string(0), "0");
    assert_eq!(i64_to_string(42), "42");
    assert_eq!(i64_to_string(-42), "-42");
    assert_eq!(i64_to_string(i64::MIN), "-9223372036854775808");
    assert_eq!(i64_to_string(i64::MAX), "9223372036854775807");
}

#[test]
fn result_to_option_keeps_ok_and_drops_err() {
    let ok: Result<u32, &str> = Ok(3);
    let err: Result<u32, &str> = Err("no");
    assert_eq!(result_to_option(ok), Some(3));
    assert_eq!(result_to_option(err), None);
}

#[test]
fn error_categories_have_names() {
    assert_eq!(get_err_str(&ErrorType::BUILD), "Build");
    assert_eq!(get_err_str(&ErrorType::EXECUTION), "Execution");
    assert_eq!(get_err_str(&ErrorType::CREATION), "Project Creation");
    assert_eq!(get_err_str(&ErrorType::DEPENDENCIES), "Dependencies");
    assert_eq!(get_err_str(&ErrorType::MISC), "Misc");
    assert_eq!(get_err_str(&ErrorType::INITIALIZATION), "Initialization");
}

#[test]
fn throw_error_builds_the_report() {
    assert_eq!(
        throw_error(&ErrorType::BUILD, "missing file", None),
        "Build error: missing file"
    );
    assert_eq!(
        throw_error(&ErrorType::CREATION, "bad dir", Some("use another name".to_string())),
        "Project Creation error: bad dir\nTip: use another name"
    );
}

#[test]
fn throw_positions_the_caret_run() {
    assert_eq!(
        throw("bad argument", "what to do", "surtur run -x", 11, 2),
        "Error: bad argument\n\nsurtur run -x\n           ^^\n\n           what to do"
    );
}

#[test]
fn tips_show_the_corrected_command() {
    assert_eq!(Tip::InvalidRunArg.get_cmd(), "run -dbg");
    assert_eq!(Tip::MissingProjName.get_cmd(), "new your_name");
    assert_eq!(Tip::InvalidBuildArg.get_cmd(), "build -release");
    assert_eq!(Tip::InvalidRunArg.arrow_len(), 4);
    assert_eq!(Tip::MissingProjName.arrow_len(), 9);
    assert_eq!(Tip::InvalidBuildArg.arrow_len(), 8);
}

#[test]
fn get_tip_renders_the_whole_block() {
    assert_eq!(
        get_tip(Tip::InvalidRunArg),
        "\n    |\n    |   surtur run -dbg\n    |              ^^^^\n    |              Replace with a valid argument like -dbg or leave empty\n    "
    );
}

#[test]
fn file_handler_derives_name_and_extension() {
    let fh = FileHandler::new("a/b/report.tar.gz", "x".to_string());
    assert_eq!(fh.file_name.as_deref(), Some("report.tar.gz"));
    assert_eq!(fh.file_extension.as_deref(), Some("gz"));
    assert_eq!(fh.file_path, "a/b/report.tar.gz");
    assert_eq!(fh.file_content, "x");
}

#[test]
fn file_handler_hidden_file_has_no_extension() {
    let fh = FileHandler::new("proj/.gitignore", String::new());
    assert_eq!(fh.file_name.as_deref(), Some(".gitignore"));
    assert_eq!(fh.file_extension, None);
}

#[test]
fn file_handler_trailing_slash_has_no_name() {
    let fh = FileHandler::new("proj/", String::new());
    assert_eq!(fh.file_name, None);
    assert_eq!(fh.file_extension, None);
}

#[test]
fn project_takes_its_name_from_the_root() {
    let p = Project::new("/home/u/things/newproj");
    assert_eq!(p.name, "newproj");
    assert_eq!(p.root_dir, "/home/u/things/newproj");
}

#[test]
fn cfg_layout_for_a_binary_project() {
    let layout = Project::get_cfg_file_layout("demo", false);
    assert_eq!(
        layout,
        "-- properties\nName = \"demo\"\nProps = {\n    std = \"c17\",\n    version = \"0.1\",\n    type = \"bin\",\n    compiler = \"gcc\",\n}\n\n-- external dependenciess\nDependencies = {\n    -- { \"https://github.com/Surtur-Team/surtests\", 0.1 }\n}\n"
    );
}

#[test]
fn cfg_layout_for_a_library_excludes_its_entry() {
    let layout = Project::get_cfg_file_layout("demo", true);
    assert!(layout.contains("    type = \"lib\",\n"));
    assert!(layout.contains("Exclude = {\n    \"lib.c\",\n}\n"));
}

#[test]
fn generated_config_parses_back() {
    let layout = Project::get_cfg_file_layout("demo", true);
    let fh = FileHandler::new("demo/project.lua", layout);
    let cfg = surtur::config::Config::parse("demo", &fh).unwrap();
    assert_eq!(cfg.name, "demo");
    assert_eq!(cfg.props.c_std, surtur::config::Standard::C17);
    assert_eq!(cfg.props.proj_type, surtur::config::ProjType::Lib);
    assert_eq!(cfg.excluded, vec!["demo/src/lib.c"]);
    assert_eq!(cfg.deps.len(), 0);
}

#[test]
fn create_plans_a_binary_project() {
    let p = Project::new("demo");
    let steps = p.create(false);
    assert_eq!(steps.len(), 6);
    assert_eq!(steps[0], CreateStep::Dir("demo".to_string()));
    assert_eq!(steps[1], CreateStep::GitInit("demo".to_string()));
    assert_eq!(steps[2], CreateStep::Dir("demo/src".to_string()));
    match &steps[3] {
        CreateStep::File(f) => {
            assert_eq!(f.path, "demo/.gitignore");
            assert_eq!(f.content, "build/\n");
        }
        other => panic!("expected the ignore file, got {:?}", other),
    }
    match &steps[5] {
        CreateStep::File(f) => {
            assert_eq!(f.path, "demo/src/main.c");
            assert!(f.content.contains("Hello, World!"));
        }
        other => panic!("expected the entry file, got {:?}", other),
    }
}

#[test]
fn create_plans_a_library_project() {
    let p = Project::new("demo");
    let steps = p.create(true);
    assert_eq!(steps.len(), 9);
    assert_eq!(steps[6], CreateStep::Dir("demo/include".to_string()));
    match &steps[7] {
        CreateStep::File(f) => assert_eq!(f.path, "demo/include/lib.h"),
        other => panic!("expected the header file, got {:?}", other),
    }
    match &steps[8] {
        CreateStep::File(f) => assert_eq!(f.path, "demo/src/lib.c"),
        other => panic!("expected the library file, got {:?}", other),
    }
    match &steps[5] {
        CreateStep::File(f) => assert!(f.content.contains("being debugged")),
        other => panic!("expected the entry file, got {:?}", other),
    }
}

#[test]
fn init_writes_only_what_is_missing() {
    let p = Project::new("demo");
    assert!(init_proj(&p, true, true).is_empty());
    let only_cfg = init_proj(&p, false, true);
    assert_eq!(only_cfg.len(), 1);
    assert_eq!(only_cfg[0].path, "demo/project.lua");
    let only_main = init_proj(&p, true, false);
    assert_eq!(only_main.len(), 1);
    assert_eq!(only_main[0].path, "demo/src/main.c");
    let both = init_proj(&p, false, false);
    assert_eq!(both.len(), 2);
    assert_eq!(both[0].path, "demo/project.lua");
    assert_eq!(both[1].path, "demo/src/main.c");
}
