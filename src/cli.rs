//! What a run of `sup` was asked to do.

use vstd::prelude::*;

verus! {

/// The options of one run.
#[derive(Debug)]
pub struct Cli {
    /// Continue an interrupted operation from where it stopped.
    pub continue_operation: bool,
    /// Abort an interrupted operation and roll it back.
    pub abort: bool,
    /// Only show the version.
    pub version: bool,
    /// Commit message for the commit made after the stash is reapplied.
    pub message: Option<String>,
    /// Drop an already applied stash without asking.
    pub yes: bool,
    /// Skip the pre-commit and pre-push hooks.
    pub skip_hooks: bool,
}

/// Which pipeline a run takes.
#[derive(Debug, Clone, Copy, PartialEq, Eq, Structural)]
pub enum Mode {
    Version,
    Abort,
    Continue,
    Forward,
}

impl Cli {
    /// The pipeline that the options select: the version wins over abort,
    /// abort over continue.
    pub open spec fn spec_mode(self) -> Mode {
        if self.version {
            Mode::Version
        } else if self.abort {
            Mode::Abort
        } else if self.continue_operation {
            Mode::Continue
        } else {
            Mode::Forward
        }
    }

    /// The pipeline that the options select.
    pub fn mode(&self) -> (r: Mode)
        ensures
            r == self.spec_mode(),
    {
        if self.version {
            Mode::Version
        } else if self.abort {
            Mode::Abort
        } else if self.continue_operation {
            Mode::Continue
        } else {
            Mode::Forward
        }
    }
}

} // verus!
