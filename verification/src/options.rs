//! The normalized, validated representation of all user-supplied
//! build/package options, constructed once from raw input via a single
//! validation step that rejects conflicting flags immediately.

use vstd::prelude::*;
use crate::error::PipelineError;

verus! {

broadcast use vstd::string::group_string_axioms;

/// Output-coloring policy.
#[derive(Debug, Clone, Copy, PartialEq, Eq, Structural)]
pub enum ColorMode {
    Auto,
    Always,
    Never,
}

/// Raw, unvalidated option values, exactly as decoded from the command
/// line. The color mode is still a bare string here; nothing has been
/// checked for conflicts.
#[derive(Debug)]
pub struct RawOptions {
    pub output_name: Option<String>,
    pub packaging_config_path: Option<String>,
    pub binary_targets: Vec<String>,
    pub example_targets: Vec<String>,
    pub jobs: Option<u32>,
    pub features: Vec<String>,
    pub no_default_features: bool,
    pub target_triple: Option<String>,
    pub manifest_path: Option<String>,
    pub verbose: bool,
    pub quiet: bool,
    pub color_mode: Option<String>,
    pub release: bool,
    pub packaging_profile: String,
}

/// Validated options, immutable once constructed.
#[derive(Debug)]
pub struct OptionSet {
    pub output_name: Option<String>,
    pub packaging_config_path: Option<String>,
    pub binary_targets: Vec<String>,
    pub example_targets: Vec<String>,
    pub jobs: Option<u32>,
    pub features: Vec<String>,
    pub no_default_features: bool,
    pub target_triple: Option<String>,
    pub manifest_path: Option<String>,
    pub verbose: bool,
    pub quiet: bool,
    pub color_mode: Option<ColorMode>,
    pub release: bool,
    pub packaging_profile: String,
}

impl OptionSet {
    /// The invariants validation establishes: verbosity and quietness are
    /// mutually exclusive intents, and a parallelism hint is positive.
    pub open spec fn well_formed(self) -> bool {
        &&& !(self.verbose && self.quiet)
        &&& (self.jobs matches Some(j) ==> j >= 1)
    }
}

/// Whether a raw color string is a well-formed color mode name.
pub open spec fn spec_color_ok(raw: Option<String>) -> bool {
    raw matches Some(s) ==> (s@ == "auto"@ || s@ == "always"@ || s@ == "never"@)
}

/// The color mode a well-formed raw color string denotes; absence means
/// automatic coloring is decided by the terminal.
pub open spec fn spec_color_of(raw: Option<String>) -> Option<ColorMode> {
    match raw {
        Some(s) => if s@ == "always"@ {
            Some(ColorMode::Always)
        } else if s@ == "never"@ {
            Some(ColorMode::Never)
        } else {
            Some(ColorMode::Auto)
        },
        None => None,
    }
}

/// Whether a whole raw option set passes validation.
pub open spec fn spec_raw_valid(raw: RawOptions) -> bool {
    &&& !(raw.verbose && raw.quiet)
    &&& (raw.jobs matches Some(j) ==> j >= 1)
    &&& spec_color_ok(raw.color_mode)
}

/// The relation between a raw option set and the validated option set made
/// from it: every field carried through unchanged, the color word resolved,
/// and the invariants established.
pub open spec fn spec_validated(raw: RawOptions, o: OptionSet) -> bool {
    &&& o.well_formed()
    &&& o.output_name == raw.output_name
    &&& o.packaging_config_path == raw.packaging_config_path
    &&& o.binary_targets == raw.binary_targets
    &&& o.example_targets == raw.example_targets
    &&& o.jobs == raw.jobs
    &&& o.features == raw.features
    &&& o.no_default_features == raw.no_default_features
    &&& o.target_triple == raw.target_triple
    &&& o.manifest_path == raw.manifest_path
    &&& o.verbose == raw.verbose
    &&& o.quiet == raw.quiet
    &&& o.color_mode == spec_color_of(raw.color_mode)
    &&& o.release == raw.release
    &&& o.packaging_profile == raw.packaging_profile
}

/// Parses one color word. Exactly `auto`, `always` and `never` are
/// accepted.
pub fn parse_color(s: &String) -> (r: Option<ColorMode>)
    ensures
        s@ == "auto"@ ==> r == Some(ColorMode::Auto),
        s@ == "always"@ ==> r == Some(ColorMode::Always),
        s@ == "never"@ ==> r == Some(ColorMode::Never),
        !(s@ == "auto"@ || s@ == "always"@ || s@ == "never"@) ==> r is None,
{
    proof {
        reveal_strlit("auto");
        reveal_strlit("always");
        reveal_strlit("never");
        assert("auto"@.len() == 4);
        assert("always"@.len() == 6);
        assert("never"@.len() == 5);
    }
    if *s == "auto".to_owned() {
        Some(ColorMode::Auto)
    } else if *s == "always".to_owned() {
        Some(ColorMode::Always)
    } else if *s == "never".to_owned() {
        Some(ColorMode::Never)
    } else {
        None
    }
}

impl OptionSet {
    /// The single validation step. Rejects a raw option set with both
    /// `verbose` and `quiet`, a zero parallelism hint, or an unknown color
    /// word, each with `InvalidOptions`; every other raw option set is
    /// accepted with all fields carried through unchanged.
    pub fn from_raw(raw: RawOptions) -> (r: Result<OptionSet, PipelineError>)
        ensures
            r is Ok <==> spec_raw_valid(raw),
            r matches Err(e) ==> e is InvalidOptions,
            r matches Ok(o) ==> spec_validated(raw, o),
    {
        if raw.verbose && raw.quiet {
            return Err(PipelineError::InvalidOptions(
                "cannot set both --verbose and --quiet".to_owned(),
            ));
        }
        if let Some(j) = raw.jobs {
            if j == 0 {
                return Err(PipelineError::InvalidOptions(
                    "--jobs must be at least 1".to_owned(),
                ));
            }
        }
        let color_mode: Option<ColorMode> = match &raw.color_mode {
            Some(word) => match parse_color(word) {
                Some(mode) => Some(mode),
                None => {
                    return Err(PipelineError::InvalidOptions(
                        "argument for --color must be auto, always, or never".to_owned(),
                    ));
                },
            },
            None => None,
        };
        Ok(OptionSet {
            output_name: raw.output_name,
            packaging_config_path: raw.packaging_config_path,
            binary_targets: raw.binary_targets,
            example_targets: raw.example_targets,
            jobs: raw.jobs,
            features: raw.features,
            no_default_features: raw.no_default_features,
            target_triple: raw.target_triple,
            manifest_path: raw.manifest_path,
            verbose: raw.verbose,
            quiet: raw.quiet,
            color_mode,
            release: raw.release,
            packaging_profile: raw.packaging_profile,
        })
    }
}

} // verus!
