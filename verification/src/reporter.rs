//! Status reporting: verbosity/quietness gating and color-mode gating,
//! both resolved once at pipeline start and held for the run. The reporter
//! decides which lines are shown; the surrounding application prints them.

use vstd::prelude::*;
use crate::options::ColorMode;
use crate::options::OptionSet;

verus! {

/// One line of status output: a label such as `Baking` and its detail.
#[derive(Debug, Clone)]
pub struct StatusLine {
    pub label: String,
    pub detail: String,
}

/// The resolved reporting configuration.
#[derive(Debug, Clone)]
pub struct Reporter {
    pub verbose: bool,
    pub quiet: bool,
    pub color: ColorMode,
}

impl Reporter {
    /// Whether ordinary status lines are shown: always, unless quiet.
    pub open spec fn shows_status(self) -> bool {
        !self.quiet
    }

    /// Whether verbose-only lines are shown.
    pub open spec fn shows_verbose(self) -> bool {
        self.verbose
    }

    /// Resolves the reporting configuration from validated options, once.
    /// An unset color mode means automatic coloring.
    pub fn from_options(options: &OptionSet) -> (r: Reporter)
        requires
            options.well_formed(),
        ensures
            r.verbose == options.verbose,
            r.quiet == options.quiet,
            r.color == (match options.color_mode {
                Some(c) => c,
                None => ColorMode::Auto,
            }),
            !(r.verbose && r.quiet),
    {
        Reporter {
            verbose: options.verbose,
            quiet: options.quiet,
            color: match options.color_mode {
                Some(c) => c,
                None => ColorMode::Auto,
            },
        }
    }

    /// An ordinary status line: present exactly when not quiet.
    pub fn status(&self, label: String, detail: String) -> (r: Option<StatusLine>)
        ensures
            self.shows_status() ==> r == Some(StatusLine { label, detail }),
            !self.shows_status() ==> r is None,
    {
        if self.quiet {
            None
        } else {
            Some(StatusLine { label, detail })
        }
    }

    /// A verbose-only line: present exactly in verbose mode.
    pub fn verbose_only(&self, label: String, detail: String) -> (r: Option<StatusLine>)
        ensures
            self.shows_verbose() ==> r == Some(StatusLine { label, detail }),
            !self.shows_verbose() ==> r is None,
    {
        if self.verbose {
            Some(StatusLine { label, detail })
        } else {
            None
        }
    }
}

} // verus!
