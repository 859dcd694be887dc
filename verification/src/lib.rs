//! Build-orchestration front end for baking compiled binaries into a
//! rumprun unikernel image.
//!
//! The crate holds the decision logic of the pipeline: option validation,
//! artifact-target selection, compile-request construction, compile-result
//! validation, and construction of the external `rumpbake` packaging
//! command. All filesystem, build-backend and child-process work is done by
//! the surrounding application, which drives the pipeline state machine and
//! feeds its observations back in as events.

pub mod cli;
pub mod error;
pub mod options;
pub mod orchestrator;
pub mod packaging;
pub mod pipeline;
pub mod project;
pub mod reporter;
pub mod request;
pub mod selection;
pub mod util;
