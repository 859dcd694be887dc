//! Compile-result validation. The actual compilation is delegated to the
//! external build backend; this component's own responsibility is to
//! classify the backend's outcome: propagate backend failures unchanged and
//! enforce that at least one usable binary artifact was produced.

use vstd::prelude::*;
use crate::error::PipelineError;

verus! {

/// What the build backend produced: the ordered sequence of artifact
/// paths, zero or more.
#[derive(Debug)]
pub struct CompileResult {
    pub binaries: Vec<String>,
}

/// Validates the outcome of one backend invocation.
pub struct BuildOrchestrator;

impl BuildOrchestrator {
    /// A backend compile error is wrapped as `BuildFailed` with its message
    /// verbatim, never reinterpreted. A successful compile with zero binary
    /// artifacts is the distinct configuration error `NoBinaryProduced`.
    /// Otherwise the artifact list is accepted exactly as produced.
    pub fn accept(outcome: Result<CompileResult, String>) -> (r: Result<
        Vec<String>,
        PipelineError,
    >)
        ensures
            r == (match outcome {
                Err(cause) => Err::<Vec<String>, PipelineError>(PipelineError::BuildFailed(cause)),
                Ok(c) => if c.binaries@.len() == 0 {
                    Err::<Vec<String>, PipelineError>(PipelineError::NoBinaryProduced)
                } else {
                    Ok::<Vec<String>, PipelineError>(c.binaries)
                },
            }),
    {
        match outcome {
            Err(cause) => Err(PipelineError::BuildFailed(cause)),
            Ok(result) => if result.binaries.len() == 0 {
                Err(PipelineError::NoBinaryProduced)
            } else {
                Ok(result.binaries)
            },
        }
    }
}

} // verus!
