//! Initialization of a project in an existing directory: whatever of the
//! config file and the entry file is missing is created, and nothing
//! already present is touched.

use vstd::prelude::*;

verus! {

use crate::creator::{FileSpec, FileSpecView, Project, spec_cfg_file, spec_main_file};

/// The files that initializing a project writes: the config when it is
/// missing, then the entry file when it is missing.
pub open spec fn spec_init_files(
    p: crate::creator::ProjectView,
    cfg_present: bool,
    main_present: bool,
) -> Seq<FileSpecView> {
    (if !cfg_present {
        seq![spec_cfg_file(p.root_dir, p.name, false)]
    } else {
        Seq::empty()
    }) + (if !main_present {
        seq![spec_main_file(p.root_dir, false)]
    } else {
        Seq::empty()
    })
}

/// Computes what initializing `proj` must write, given whether its config
/// file and its entry file already exist. The driver checks the disk and
/// writes exactly these files.
pub fn init_proj(proj: &Project, cfg_present: bool, main_present: bool) -> (r: Vec<FileSpec>)
    ensures
        r.deep_view() == spec_init_files(proj@, cfg_present, main_present),
{
    let mut out: Vec<FileSpec> = Vec::new();
    if !cfg_present {
        out.push(Project::create_cfg_file(proj.root_dir.as_str(), proj.name.as_str(), false));
    }
    if !main_present {
        out.push(Project::create_main_file(proj.root_dir.as_str(), false));
    }
    proof {
        assert(out.deep_view() =~= spec_init_files(proj@, cfg_present, main_present));
    }
    out
}

} // verus!
