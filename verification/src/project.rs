//! The handle to a located, loaded project, passed read-only downstream.

use vstd::prelude::*;

verus! {

/// A located project: its root directory and the package name from its
/// manifest. The name is carried only so that a default output name can be
/// derived after the build succeeds.
#[derive(Debug, Clone)]
pub struct ProjectHandle {
    pub root_dir: String,
    pub name: String,
}

} // verus!
