//! The orchestration pipeline as a state machine. Control flow is strictly
//! linear: manifest location, project loading, compilation, packaging. The
//! machine decides; the surrounding application performs each returned
//! action (a filesystem check, a backend invocation, a child process) and
//! feeds the observation back in as the next event. Failure at any stage
//! aborts the whole run; nothing loops back to an earlier stage and nothing
//! is retried.

use vstd::prelude::*;
use crate::error::PipelineError;
use crate::options::OptionSet;
use crate::options::RawOptions;
use crate::options::spec_raw_valid;
use crate::options::spec_validated;
use crate::orchestrator::BuildOrchestrator;
use crate::orchestrator::CompileResult;
use crate::packaging::PackagingCommand;
use crate::packaging::PackagingInvoker;
use crate::packaging::render_command;
use crate::packaging::spec_joined;
use crate::packaging::spec_packaging_args;
use crate::project::ProjectHandle;
use crate::reporter::Reporter;
use crate::reporter::StatusLine;
use crate::request::CompileRequest;
use crate::request::CompileRequestBuilder;
use crate::request::spec_default_target_triple;
use crate::selection::TargetSelector;
use crate::selection::selection_for;
use crate::util::clone_strings;
use crate::util::view_of_opt;
use crate::util::views_of;

verus! {

/// Where the run stands. `Locating` remembers the directory currently
/// examined and the origin the search started from; `Loading` remembers the
/// manifest location being loaded; `Compiling` carries the located project
/// for later output naming.
#[derive(Debug)]
pub enum PipelineState {
    Locating { dir: String, origin: String },
    Loading { location: String },
    Compiling { project: ProjectHandle },
    Packaging,
    Done,
}

/// What the application observed while performing the last action.
#[derive(Debug)]
pub enum PipelineEvent {
    /// Whether the examined directory holds a manifest, and the directory's
    /// parent if it has one.
    ManifestChecked { found: bool, parent: Option<String> },
    /// The project at the requested location was loaded: its root
    /// directory and package name.
    ProjectLoaded { root_dir: String, name: String },
    /// The requested location held no loadable project.
    LoadFailed,
    /// The build backend finished: its artifact paths, or its error
    /// message.
    CompileFinished { outcome: Result<CompileResult, String> },
    /// The packaging process exited with this status.
    PackagingExited { status: i32 },
}

/// What the application must do next.
#[derive(Debug)]
pub enum PipelineAction {
    /// Check whether this directory holds a project manifest.
    CheckManifest { dir: String },
    /// Load the project at this location: an explicit manifest path, or a
    /// directory the search found.
    LoadProject { location: String },
    /// Hand this request to the build backend.
    RunCompile { request: CompileRequest },
    /// Print the given status lines, then execute the packaging command.
    RunPackaging {
        command: PackagingCommand,
        baking: Option<StatusLine>,
        running: Option<StatusLine>,
    },
    /// The run is over: report the error, if any, and exit with its code,
    /// else exit with zero.
    Finish { error: Option<PipelineError> },
}

/// The per-run decision state: the validated options and the resolved
/// reporter, both fixed at pipeline start.
#[derive(Debug)]
pub struct Pipeline {
    pub options: OptionSet,
    pub reporter: Reporter,
}

/// Which event each state awaits; the linear flow admits no other pairing.
pub open spec fn expects(state: PipelineState, event: PipelineEvent) -> bool {
    match (state, event) {
        (PipelineState::Locating { .. }, PipelineEvent::ManifestChecked { .. }) => true,
        (PipelineState::Loading { .. }, PipelineEvent::ProjectLoaded { .. }) => true,
        (PipelineState::Loading { .. }, PipelineEvent::LoadFailed) => true,
        (PipelineState::Compiling { .. }, PipelineEvent::CompileFinished { .. }) => true,
        (PipelineState::Packaging, PipelineEvent::PackagingExited { .. }) => true,
        _ => false,
    }
}

impl Pipeline {
    /// The exact relation between one (state, event) pair and the (state,
    /// action) pair the machine answers with.
    pub open spec fn transition(
        self,
        state: PipelineState,
        event: PipelineEvent,
        s2: PipelineState,
        a: PipelineAction,
    ) -> bool {
        match (state, event) {
            (
                PipelineState::Locating { dir, origin },
                PipelineEvent::ManifestChecked { found, parent },
            ) => if found {
                &&& s2 matches PipelineState::Loading { location } && location@ == dir@
                &&& a matches PipelineAction::LoadProject { location } && location@ == dir@
            } else {
                match parent {
                    Some(p) => {
                        &&& s2 matches PipelineState::Locating { dir: d2, origin: o2 } && d2@ == p@
                            && o2@ == origin@
                        &&& a matches PipelineAction::CheckManifest { dir: d3 } && d3@ == p@
                    },
                    None => {
                        &&& s2 is Done
                        &&& a matches PipelineAction::Finish { error } && (error matches Some(e)
                            && (e matches PipelineError::ManifestNotFound(o) && o@ == origin@))
                    },
                }
            },
            (PipelineState::Loading { location }, PipelineEvent::ProjectLoaded { root_dir, name }) => {
                &&& s2 matches PipelineState::Compiling { project } && (project.root_dir@
                    == root_dir@ && project.name@ == name@)
                &&& a matches PipelineAction::RunCompile { request } && self.request_for(
                    request,
                    root_dir@,
                )
            },
            (PipelineState::Loading { location }, PipelineEvent::LoadFailed) => {
                &&& s2 is Done
                &&& a matches PipelineAction::Finish { error } && (error matches Some(e) && (
                e matches PipelineError::ManifestNotFound(o) && o@ == location@))
            },
            (
                PipelineState::Compiling { project },
                PipelineEvent::CompileFinished { outcome },
            ) => match outcome {
                Err(cause) => {
                    &&& s2 is Done
                    &&& a matches PipelineAction::Finish { error } && (error matches Some(e) && (
                    e matches PipelineError::BuildFailed(c) && c@ == cause@))
                },
                Ok(compiled) => if compiled.binaries@.len() == 0 {
                    &&& s2 is Done
                    &&& a matches PipelineAction::Finish { error } && (error matches Some(e)
                        && e is NoBinaryProduced)
                } else {
                    &&& s2 is Packaging
                    &&& a matches PipelineAction::RunPackaging { command, baking, running } && self
                        .packaging_for(command, baking, running, project.name@, compiled.binaries)
                },
            },
            (PipelineState::Packaging, PipelineEvent::PackagingExited { status }) => {
                &&& s2 is Done
                &&& a matches PipelineAction::Finish { error } && (if status == 0 {
                    error is None
                } else {
                    error matches Some(e) && e == PipelineError::PackagingFailed(status)
                })
            },
            _ => false,
        }
    }

    /// The compile request the options call for, for a project at this
    /// root: an explicit triple wins over the fixed default, everything
    /// else is carried through unchanged, and the selection is the policy
    /// the explicit target names call for.
    pub open spec fn request_for(self, request: CompileRequest, root: Seq<char>) -> bool {
        &&& (self.options.target_triple matches Some(t) ==> request.target_triple@ == t@)
        &&& (self.options.target_triple is None ==> request.target_triple@
            == spec_default_target_triple())
        &&& request.jobs == self.options.jobs
        &&& views_of(request.features@) == views_of(self.options.features@)
        &&& request.no_default_features == self.options.no_default_features
        &&& request.release == self.options.release
        &&& selection_for(
            request.selection,
            views_of(self.options.binary_targets@),
            views_of(self.options.example_targets@),
        )
        &&& request.project_root@ == root
    }

    /// The packaged image's name for this project: the explicit name when
    /// one was given, else the project name with `.img` appended.
    pub open spec fn output_name_for(self, project_name: Seq<char>) -> Seq<char> {
        match self.options.output_name {
            Some(name) => name@,
            None => project_name + ".img"@,
        }
    }

    /// The packaging invocation the options call for: the exact `rumpbake`
    /// command, a `Baking` status line unless quiet, and a `Running` line
    /// with the rendered command only in verbose mode.
    pub open spec fn packaging_for(
        self,
        command: PackagingCommand,
        baking: Option<StatusLine>,
        running: Option<StatusLine>,
        project_name: Seq<char>,
        artifacts: Vec<String>,
    ) -> bool {
        &&& command.program@ == "rumpbake"@
        &&& command.env_name@ == "RUMPRUN_WARNING_STFU"@
        &&& command.env_value@ == "please"@
        &&& views_of(command.args@) == spec_packaging_args(
            view_of_opt(self.options.packaging_config_path),
            self.options.packaging_profile@,
            self.output_name_for(project_name),
            views_of(artifacts@),
        )
        &&& (self.reporter.shows_status() <==> baking is Some)
        &&& (baking matches Some(line) ==> line.label@ == "Baking"@ && line.detail@
            == self.output_name_for(project_name))
        &&& (self.reporter.shows_verbose() <==> running is Some)
        &&& (running matches Some(line) ==> line.label@ == "Running"@ && line.detail@
            == spec_joined(seq![command.program@] + views_of(command.args@)))
    }

    /// A compile that produced zero binary artifacts always ends the run
    /// with `NoBinaryProduced`, whatever the artifact selection and the
    /// rest of the options were; packaging is never invoked for it.
    pub proof fn lemma_empty_compile_never_packages(
        self,
        project: ProjectHandle,
        compiled: CompileResult,
        s2: PipelineState,
        a: PipelineAction,
    )
        requires
            compiled.binaries@.len() == 0,
            self.transition(
                PipelineState::Compiling { project },
                PipelineEvent::CompileFinished { outcome: Ok(compiled) },
                s2,
                a,
            ),
        ensures
            s2 is Done,
            a matches PipelineAction::Finish { error } && (error matches Some(e)
                && e is NoBinaryProduced),
            !(a is RunPackaging),
    {
    }

    /// A backend compile error ends the run with `BuildFailed` carrying
    /// the backend's message verbatim; packaging is never invoked for it.
    pub proof fn lemma_backend_failure_passed_through(
        self,
        project: ProjectHandle,
        cause: String,
        s2: PipelineState,
        a: PipelineAction,
    )
        requires
            self.transition(
                PipelineState::Compiling { project },
                PipelineEvent::CompileFinished { outcome: Err(cause) },
                s2,
                a,
            ),
        ensures
            s2 is Done,
            a matches PipelineAction::Finish { error } && (error matches Some(e) && (
            e matches PipelineError::BuildFailed(c) && c@ == cause@)),
            !(a is RunPackaging),
    {
    }

    /// The single validation step at pipeline start: raw options are
    /// either rejected with `InvalidOptions` before any filesystem access,
    /// or accepted with every field carried through and the reporter
    /// resolved once.
    pub fn new(raw: RawOptions) -> (r: Result<Pipeline, PipelineError>)
        ensures
            r is Ok <==> spec_raw_valid(raw),
            r matches Err(e) ==> e is InvalidOptions,
            r matches Ok(p) ==> {
                &&& spec_validated(raw, p.options)
                &&& p.reporter.verbose == raw.verbose
                &&& p.reporter.quiet == raw.quiet
                &&& p.reporter.color == (match crate::options::spec_color_of(raw.color_mode) {
                    Some(c) => c,
                    None => crate::options::ColorMode::Auto,
                })
            },
    {
        let options = match OptionSet::from_raw(raw) {
            Ok(options) => options,
            Err(e) => {
                return Err(e);
            },
        };
        let reporter = Reporter::from_options(&options);
        Ok(Pipeline { options, reporter })
    }

    /// The first step of a run. An explicit manifest path is loaded
    /// directly; otherwise the search walks upward from the given working
    /// directory.
    pub fn start(&self, cwd: String) -> (r: (PipelineState, PipelineAction))
        ensures
            self.options.manifest_path matches Some(p) ==> {
                &&& r.0 matches PipelineState::Loading { location } && location@ == p@
                &&& r.1 matches PipelineAction::LoadProject { location } && location@ == p@
            },
            self.options.manifest_path is None ==> {
                &&& r.0 matches PipelineState::Locating { dir, origin } && (dir@ == cwd@ && origin@
                    == cwd@)
                &&& r.1 matches PipelineAction::CheckManifest { dir } && dir@ == cwd@
            },
    {
        match &self.options.manifest_path {
            Some(path) => (
                PipelineState::Loading { location: path.clone() },
                PipelineAction::LoadProject { location: path.clone() },
            ),
            None => (
                PipelineState::Locating { dir: cwd.clone(), origin: cwd.clone() },
                PipelineAction::CheckManifest { dir: cwd },
            ),
        }
    }

    /// One decision step: consumes the state and the event the application
    /// observed, and answers with the next state and the next action.
    pub fn step(&self, state: PipelineState, event: PipelineEvent) -> (r: (
        PipelineState,
        PipelineAction,
    ))
        requires
            expects(state, event),
        ensures
            self.transition(state, event, r.0, r.1),
    {
        match (state, event) {
            (
                PipelineState::Locating { dir, origin },
                PipelineEvent::ManifestChecked { found, parent },
            ) => if found {
                (
                    PipelineState::Loading { location: dir.clone() },
                    PipelineAction::LoadProject { location: dir },
                )
            } else {
                match parent {
                    Some(p) => (
                        PipelineState::Locating { dir: p.clone(), origin },
                        PipelineAction::CheckManifest { dir: p },
                    ),
                    None => (
                        PipelineState::Done,
                        PipelineAction::Finish {
                            error: Some(PipelineError::ManifestNotFound(origin)),
                        },
                    ),
                }
            },
            (
                PipelineState::Loading { location: _ },
                PipelineEvent::ProjectLoaded { root_dir, name },
            ) => {
                let project = ProjectHandle { root_dir, name };
                let selection = TargetSelector::select(
                    clone_strings(&self.options.binary_targets),
                    clone_strings(&self.options.example_targets),
                );
                let request = CompileRequestBuilder::build(&self.options, &project, selection);
                (
                    PipelineState::Compiling { project },
                    PipelineAction::RunCompile { request },
                )
            },
            (PipelineState::Loading { location }, PipelineEvent::LoadFailed) => (
                PipelineState::Done,
                PipelineAction::Finish { error: Some(PipelineError::ManifestNotFound(location)) },
            ),
            (
                PipelineState::Compiling { project },
                PipelineEvent::CompileFinished { outcome },
            ) => match BuildOrchestrator::accept(outcome) {
                Err(e) => (PipelineState::Done, PipelineAction::Finish { error: Some(e) }),
                Ok(artifacts) => {
                    let output = PackagingInvoker::output_name(
                        match &self.options.output_name {
                            Some(name) => Some(name.clone()),
                            None => None,
                        },
                        &project.name,
                    );
                    let command = PackagingInvoker::build_command(
                        &self.options.packaging_config_path,
                        &self.options.packaging_profile,
                        &output,
                        &artifacts,
                    );
                    let running_detail = render_command(&command);
                    let baking = self.reporter.status("Baking".to_owned(), output);
                    let running = self.reporter.verbose_only(
                        "Running".to_owned(),
                        running_detail,
                    );
                    (
                        PipelineState::Packaging,
                        PipelineAction::RunPackaging { command, baking, running },
                    )
                },
            },
            (PipelineState::Packaging, PipelineEvent::PackagingExited { status }) => (
                PipelineState::Done,
                PipelineAction::Finish {
                    error: match PackagingInvoker::classify_exit(status) {
                        Ok(_) => None,
                        Err(e) => Some(e),
                    },
                },
            ),
            _ => {
                proof {
                    assert(false);
                }
                (PipelineState::Done, PipelineAction::Finish { error: None })
            },
        }
    }
}

} // verus!
