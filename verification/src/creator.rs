//! Scaffolding of new binary and library projects: the example layouts for
//! the entry file, the library and header files, the project config and
//! the ignore file, and the ordered plan of directories, files and the
//! repository that creating a project writes to disk.

use vstd::prelude::*;

verus! {

use vstd::string::StringExecFns;
use crate::util::{DEFAULT_COMPILER, last_segment, last_segment_str};

/// Example entry file of a new binary project.
pub const MAIN_FILE_LAYOUT: &'static str = "#include <stdio.h>\n\nint main(void) {\n    printf(\"Hello, World!\\n\");\n}\n";

/// Example entry file of a new library project: debug and test code, not
/// part of the release archive.
pub const LIB_MAIN_FILE_LAYOUT: &'static str = "// Run debugging and testing code here. Not included in release build\n\nint main(void) {\n    printf(\"Hello, i am being debugged :)\\n\");\n}\n";

/// Example implementation file of a new library project.
pub const LIB_LIB_FILE_LAYOUT: &'static str = "// Example function implementations for the header\n\n#include <stdio.h>\n#include \"../include/lib.h\"\n\nvoid say_hello() {\n    printf(\"Hello!\\n\");\n}\n\nint square(int number) {\n    return number * number;\n}\n";

/// Example header of a new library project.
pub const HEADER_FILE_LAYOUT: &'static str = "// Example functions you want to export through a header\n\nvoid say_hello();\n\nint square(int number);\n";

/// Ignore file of a new project: the build outputs.
pub const GITIGNORE_LAYOUT: &'static str = "build/\n";

/// Mathematical value of a `FileSpec`.
pub struct FileSpecView {
    pub path: Seq<char>,
    pub content: Seq<char>,
}

/// One file to write: where, and what.
#[derive(Debug, PartialEq, Eq)]
pub struct FileSpec {
    pub path: String,
    pub content: String,
}

impl View for FileSpec {
    type V = FileSpecView;

    open spec fn view(&self) -> FileSpecView {
        FileSpecView { path: self.path@, content: self.content@ }
    }
}

impl DeepView for FileSpec {
    type V = FileSpecView;

    open spec fn deep_view(&self) -> FileSpecView {
        self.view()
    }
}

/// Mathematical value of a `CreateStep`.
pub enum CreateStepView {
    Dir(Seq<char>),
    GitInit(Seq<char>),
    File(FileSpecView),
}

/// One step of creating a project, in order: make a directory, initialize
/// a source-control repository in it, or write a file.
#[derive(Debug, PartialEq, Eq)]
pub enum CreateStep {
    Dir(String),
    GitInit(String),
    File(FileSpec),
}

impl View for CreateStep {
    type V = CreateStepView;

    open spec fn view(&self) -> CreateStepView {
        match self {
            CreateStep::Dir(p) => CreateStepView::Dir(p@),
            CreateStep::GitInit(p) => CreateStepView::GitInit(p@),
            CreateStep::File(f) => CreateStepView::File(f@),
        }
    }
}

impl DeepView for CreateStep {
    type V = CreateStepView;

    open spec fn deep_view(&self) -> CreateStepView {
        self.view()
    }
}

/// The generated project config: name, the default properties, the
/// exclusion block for libraries, and an example dependency.
pub open spec fn spec_cfg_file_layout(name: Seq<char>, lib: bool) -> Seq<char> {
    "-- properties\nName = \""@ + name
        + "\"\nProps = {\n    std = \"c17\",\n    version = \"0.1\",\n    type = \""@ + (if lib {
        "lib"@
    } else {
        "bin"@
    }) + "\",\n    compiler = \""@ + DEFAULT_COMPILER@ + "\",\n}\n"@ + (if lib {
        "\n-- C files that should not be compiled manually (don't have a header)\n-- lib.c is excluded here if your project is a library\nExclude = {\n    \"lib.c\",\n}\n"@
    } else {
        Seq::empty()
    })
        + "\n-- external dependenciess\nDependencies = {\n    -- { \"https://github.com/Surtur-Team/surtests\", 0.1 }\n}\n"@
}

/// Mathematical value of a `Project`.
pub struct ProjectView {
    pub root_dir: Seq<char>,
    pub name: Seq<char>,
}

/// A project to create: where its root directory goes and the name it
/// takes from the last path component.
#[derive(Debug)]
pub struct Project {
    pub root_dir: String,
    pub name: String,
}

impl View for Project {
    type V = ProjectView;

    open spec fn view(&self) -> ProjectView {
        ProjectView { root_dir: self.root_dir@, name: self.name@ }
    }
}

/// The entry file written into a new project: `src/main.c`, with the
/// library variant of the example code for a library project.
pub open spec fn spec_main_file(root_dir: Seq<char>, is_lib: bool) -> FileSpecView {
    FileSpecView {
        path: root_dir + "/src/main.c"@,
        content: if is_lib {
            LIB_MAIN_FILE_LAYOUT@
        } else {
            MAIN_FILE_LAYOUT@
        },
    }
}

/// The config file written into a new project.
pub open spec fn spec_cfg_file(root_dir: Seq<char>, root_name: Seq<char>, lib: bool) -> FileSpecView {
    FileSpecView { path: root_dir + "/project.lua"@, content: spec_cfg_file_layout(root_name, lib) }
}

/// The whole creation plan of a project, in order: the root directory,
/// the repository, the source directory, the ignore file, the config, the
/// entry file — and, for a library, the include directory with the
/// example header and the library file.
pub open spec fn spec_create_steps(p: ProjectView, is_lib: bool) -> Seq<CreateStepView> {
    seq![
        CreateStepView::Dir(p.name),
        CreateStepView::GitInit(p.name),
        CreateStepView::Dir(p.name + "/"@ + "src"@),
        CreateStepView::File(
            FileSpecView { path: p.root_dir + "/.gitignore"@, content: GITIGNORE_LAYOUT@ },
        ),
        CreateStepView::File(spec_cfg_file(p.root_dir, p.name, is_lib)),
        CreateStepView::File(spec_main_file(p.root_dir, is_lib)),
    ] + (if is_lib {
        seq![
            CreateStepView::Dir(p.name + "/"@ + "include"@),
            CreateStepView::File(
                FileSpecView {
                    path: p.root_dir + "/include/lib.h"@,
                    content: HEADER_FILE_LAYOUT@,
                },
            ),
            CreateStepView::File(
                FileSpecView { path: p.root_dir + "/src/lib.c"@, content: LIB_LIB_FILE_LAYOUT@ },
            ),
        ]
    } else {
        Seq::empty()
    })
}

impl Project {
    /// A project rooted at `root_dir`, named after its last path
    /// component.
    pub fn new(root_dir: &str) -> (p: Project)
        ensures
            p@.root_dir == root_dir@,
            p@.name == last_segment(root_dir@, '/'),
    {
        let name = String::from_str(last_segment_str(root_dir, '/'));
        Project { root_dir: String::from_str(root_dir), name }
    }

    /// The path of a directory of the project, under its name.
    pub fn create_dir(&self, name: &str) -> (r: String)
        ensures
            r@ == self@.name + "/"@ + name@,
    {
        let mut out = String::from_str(self.name.as_str());
        out.append("/");
        out.append(name);
        out
    }

    /// The path of the project's root directory.
    pub fn create_root_dir(&self) -> (r: String)
        ensures
            r@ == self@.name,
    {
        String::from_str(self.name.as_str())
    }

    /// Computes the ordered creation plan of the project. The driver
    /// makes each directory, initializes the repository, and writes each
    /// file, in order.
    pub fn create(&self, is_lib: bool) -> (r: Vec<CreateStep>)
        ensures
            r.deep_view() == spec_create_steps(self@, is_lib),
    {
        let mut out: Vec<CreateStep> = Vec::new();
        out.push(CreateStep::Dir(self.create_root_dir()));
        out.push(CreateStep::GitInit(String::from_str(self.name.as_str())));
        out.push(CreateStep::Dir(self.create_dir("src")));
        out.push(CreateStep::File(Self::create_gitignore(self.root_dir.as_str())));
        out.push(
            CreateStep::File(
                Self::create_cfg_file(self.root_dir.as_str(), self.name.as_str(), is_lib),
            ),
        );
        out.push(CreateStep::File(Self::create_main_file(self.root_dir.as_str(), is_lib)));
        if is_lib {
            out.push(CreateStep::Dir(self.create_dir("include")));
            out.push(CreateStep::File(Self::create_header_file(self.root_dir.as_str())));
            out.push(CreateStep::File(Self::create_lib_file(self.root_dir.as_str())));
        }
        proof {
            assert(out.deep_view() =~= spec_create_steps(self@, is_lib));
        }
        out
    }

    /// The generated project config, as written into `project.lua`.
    pub fn get_cfg_file_layout(name: &str, lib: bool) -> (r: String)
        ensures
            r@ == spec_cfg_file_layout(name@, lib),
    {
        let mut out = String::from_str("-- properties\nName = \"");
        out.append(name);
        out.append(
            "\"\nProps = {\n    std = \"c17\",\n    version = \"0.1\",\n    type = \"",
        );
        out.append(if lib {
            "lib"
        } else {
            "bin"
        });
        out.append("\",\n    compiler = \"");
        out.append(DEFAULT_COMPILER);
        out.append("\",\n}\n");
        if lib {
            out.append(
                "\n-- C files that should not be compiled manually (don't have a header)\n-- lib.c is excluded here if your project is a library\nExclude = {\n    \"lib.c\",\n}\n",
            );
        }
        out.append(
            "\n-- external dependenciess\nDependencies = {\n    -- { \"https://github.com/Surtur-Team/surtests\", 0.1 }\n}\n",
        );
        out
    }

    /// The entry file of a new project.
    pub fn create_main_file(root_dir: &str, is_lib: bool) -> (r: FileSpec)
        ensures
            r@ == spec_main_file(root_dir@, is_lib),
    {
        let mut path = String::from_str(root_dir);
        path.append("/src/main.c");
        let content = String::from_str(
            if is_lib {
                LIB_MAIN_FILE_LAYOUT
            } else {
                MAIN_FILE_LAYOUT
            },
        );
        FileSpec { path, content }
    }

    /// The example implementation file of a new library project.
    pub fn create_lib_file(root_dir: &str) -> (r: FileSpec)
        ensures
            r@.path == root_dir@ + "/src/lib.c"@,
            r@.content == LIB_LIB_FILE_LAYOUT@,
    {
        let mut path = String::from_str(root_dir);
        path.append("/src/lib.c");
        FileSpec { path, content: String::from_str(LIB_LIB_FILE_LAYOUT) }
    }

    /// The example header of a new library project.
    pub fn create_header_file(root_dir: &str) -> (r: FileSpec)
        ensures
            r@.path == root_dir@ + "/include/lib.h"@,
            r@.content == HEADER_FILE_LAYOUT@,
    {
        let mut path = String::from_str(root_dir);
        path.append("/include/lib.h");
        FileSpec { path, content: String::from_str(HEADER_FILE_LAYOUT) }
    }

    /// The config file of a new project.
    pub fn create_cfg_file(root_dir: &str, root_name: &str, lib: bool) -> (r: FileSpec)
        ensures
            r@ == spec_cfg_file(root_dir@, root_name@, lib),
    {
        let mut path = String::from_str(root_dir);
        path.append("/project.lua");
        FileSpec { path, content: Self::get_cfg_file_layout(root_name, lib) }
    }

    /// The ignore file of a new project.
    pub fn create_gitignore(root_dir: &str) -> (r: FileSpec)
        ensures
            r@.path == root_dir@ + "/.gitignore"@,
            r@.content == GITIGNORE_LAYOUT@,
    {
        let mut path = String::from_str(root_dir);
        path.append("/.gitignore");
        FileSpec { path, content: String::from_str(GITIGNORE_LAYOUT) }
    }
}

} // verus!
