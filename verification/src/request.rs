//! Compile-request construction: a fully-specified request is assembled
//! from the validated options, the located project, and the artifact
//! selection.

use vstd::prelude::*;
use crate::options::OptionSet;
use crate::project::ProjectHandle;
use crate::selection::ArtifactSelection;
use crate::util::clone_strings;
use crate::util::views_of;

verus! {

/// The target triple substituted whenever the user gives none. Always
/// targeting the same execution environment unless overridden is a policy
/// invariant of this tool; the default must not vary by host platform.
pub open spec fn spec_default_target_triple() -> Seq<char> {
    "x86_64-rumprun-netbsd"@
}

/// The fixed default target triple as a value.
pub fn default_target_triple() -> (r: String)
    ensures
        r@ == spec_default_target_triple(),
{
    "x86_64-rumprun-netbsd".to_owned()
}

/// Everything the build backend needs for one compilation. Constructed
/// once, consumed exactly once, never mutated.
#[derive(Debug)]
pub struct CompileRequest {
    pub target_triple: String,
    pub jobs: Option<u32>,
    pub features: Vec<String>,
    pub no_default_features: bool,
    pub release: bool,
    pub selection: ArtifactSelection,
    pub project_root: String,
}

/// Assembles a compile request from the options, project and selection.
pub struct CompileRequestBuilder;

impl CompileRequestBuilder {
    /// An explicit target triple wins; otherwise the fixed default triple
    /// is substituted. Parallelism, features, the default-features flag and
    /// the release flag are carried through unchanged, together with the
    /// selection and the project root.
    pub fn build(options: &OptionSet, project: &ProjectHandle, selection: ArtifactSelection) -> (r:
        CompileRequest)
        ensures
            options.target_triple matches Some(t) ==> r.target_triple@ == t@,
            options.target_triple is None ==> r.target_triple@ == spec_default_target_triple(),
            r.jobs == options.jobs,
            views_of(r.features@) == views_of(options.features@),
            r.no_default_features == options.no_default_features,
            r.release == options.release,
            r.selection == selection,
            r.project_root@ == project.root_dir@,
    {
        let target_triple: String = match &options.target_triple {
            Some(t) => t.clone(),
            None => default_target_triple(),
        };
        CompileRequest {
            target_triple,
            jobs: options.jobs,
            features: clone_strings(&options.features),
            no_default_features: options.no_default_features,
            release: options.release,
            selection,
            project_root: project.root_dir.clone(),
        }
    }
}

} // verus!
