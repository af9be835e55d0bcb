//! Lifecycle hook scripts: the ordered lists of script files to run before
//! and after a build. The manager only carries the lists; the driver loads
//! and executes each script in the embedded scripting runtime.

use vstd::prelude::*;

verus! {

/// Mathematical value of a `ScriptManager`.
pub struct ScriptsView {
    pub pre: Seq<Seq<char>>,
    pub post: Seq<Seq<char>>,
}

/// The configured pre-build and post-build script paths, in execution
/// order.
#[derive(Debug)]
pub struct ScriptManager {
    pre_scripts: Vec<String>,
    post_scripts: Vec<String>,
}

impl View for ScriptManager {
    type V = ScriptsView;

    closed spec fn view(&self) -> ScriptsView {
        ScriptsView { pre: self.pre_scripts.deep_view(), post: self.post_scripts.deep_view() }
    }
}

impl ScriptManager {
    pub fn new(pre_scripts: Vec<String>, post_scripts: Vec<String>) -> (r: ScriptManager)
        ensures
            r@.pre == pre_scripts.deep_view(),
            r@.post == post_scripts.deep_view(),
    {
        ScriptManager { pre_scripts, post_scripts }
    }

    /// The scripts to run before the build, in order.
    pub fn pre_scripts(&self) -> (r: &Vec<String>)
        ensures
            r.deep_view() == self@.pre,
    {
        &self.pre_scripts
    }

    /// The scripts to run after the build, in order.
    pub fn post_scripts(&self) -> (r: &Vec<String>)
        ensures
            r.deep_view() == self@.post,
    {
        &self.post_scripts
    }
}

} // verus!
