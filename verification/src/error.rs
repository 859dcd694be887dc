//! The pipeline's error kinds. Every error is fatal to the whole run and is
//! surfaced as a single terminal message plus process exit code 1; no error
//! is retried or translated into a different kind once classified.

use vstd::prelude::*;
use vstd::string::StringExecFns;

verus! {

/// One error kind per pipeline stage that can fail.
#[derive(Debug, Clone)]
pub enum PipelineError {
    /// Conflicting or malformed option combination, detected before any
    /// filesystem access. The string names the offending combination.
    InvalidOptions(String),
    /// No valid project root was discoverable; the string is the origin of
    /// the search.
    ManifestNotFound(String),
    /// The build backend reported a compile error; its message is carried
    /// through verbatim, never reinterpreted.
    BuildFailed(String),
    /// The build succeeded but produced zero usable binary artifacts for the
    /// requested selection: a configuration error, distinct from a compile
    /// error.
    NoBinaryProduced,
    /// The external packaging process exited non-zero; the status is
    /// surfaced.
    PackagingFailed(i32),
}

impl PipelineError {
    /// Every fatal pipeline error maps to process exit code 1.
    pub fn exit_code(&self) -> (c: i32)
        ensures
            c == 1,
    {
        1
    }

    /// The terminal message for this error. A backend compile error is
    /// passed through verbatim; the other kinds carry fixed texts, plus the
    /// relevant input where one exists.
    pub fn message(&self) -> (m: String)
        ensures
            self matches PipelineError::InvalidOptions(detail)
                ==> m@ == "invalid options: "@ + detail@,
            self matches PipelineError::ManifestNotFound(origin)
                ==> m@ == "could not find `Cargo.toml` in `"@ + origin@
                    + "` or any parent directory"@,
            self matches PipelineError::BuildFailed(cause) ==> m@ == cause@,
            self matches PipelineError::NoBinaryProduced
                ==> m@ == "a bin target must be available for `cargo rumpbake`"@,
            self matches PipelineError::PackagingFailed(_)
                ==> m@ == "the `rumpbake` process exited with a non-zero status"@,
    {
        match self {
            PipelineError::InvalidOptions(detail) => "invalid options: "
                .to_owned()
                .concat(detail.as_str()),
            PipelineError::ManifestNotFound(origin) => "could not find `Cargo.toml` in `"
                .to_owned()
                .concat(origin.as_str())
                .concat("` or any parent directory"),
            PipelineError::BuildFailed(cause) => cause.clone(),
            PipelineError::NoBinaryProduced => "a bin target must be available for `cargo rumpbake`"
                .to_owned(),
            PipelineError::PackagingFailed(_) => "the `rumpbake` process exited with a non-zero status"
                .to_owned(),
        }
    }
}

} // verus!
