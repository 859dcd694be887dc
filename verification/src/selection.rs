//! Artifact-target resolution: raw "which artifacts to build" flags become
//! an unambiguous selection policy.

use vstd::prelude::*;

verus! {

/// Which declared targets get built in a given run. `Only` is chosen iff at
/// least one explicit binary or example target was named; otherwise the
/// whole default artifact set is built.
#[derive(Debug, Clone)]
pub enum ArtifactSelection {
    Everything,
    Only { binaries: Vec<String>, examples: Vec<String> },
}

/// Whether a selection is the policy that the given explicit binary and
/// example target names call for: `Only` holding exactly those names, in
/// the order given, when at least one name was given; `Everything`
/// otherwise.
pub open spec fn selection_for(
    s: ArtifactSelection,
    bins: Seq<Seq<char>>,
    exs: Seq<Seq<char>>,
) -> bool {
    if bins.len() == 0 && exs.len() == 0 {
        s is Everything
    } else {
        s matches ArtifactSelection::Only { binaries, examples }
            && crate::util::views_of(binaries@) == bins
            && crate::util::views_of(examples@) == exs
    }
}

/// Converts explicit target names into an artifact-selection policy.
pub struct TargetSelector;

impl TargetSelector {
    /// Explicit selection narrows scope; absence of any explicit selection
    /// means build everything. Names are kept exactly as given, in order;
    /// duplicate names are preserved, never collapsed silently.
    pub fn select(binary_targets: Vec<String>, example_targets: Vec<String>) -> (s:
        ArtifactSelection)
        ensures
            binary_targets@.len() == 0 && example_targets@.len() == 0 ==> s
                == ArtifactSelection::Everything,
            binary_targets@.len() > 0 || example_targets@.len() > 0 ==> s
                == (ArtifactSelection::Only {
                binaries: binary_targets,
                examples: example_targets,
            }),
    {
        if binary_targets.len() == 0 && example_targets.len() == 0 {
            ArtifactSelection::Everything
        } else {
            ArtifactSelection::Only { binaries: binary_targets, examples: example_targets }
        }
    }
}

} // verus!
