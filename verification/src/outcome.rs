//! What an attempt to update the working copy came to.

use crate::process::{run_view, ProcessOutput, ProcessOutputView};
use crate::text::{occurs_in, text_contains};
use vstd::prelude::*;

verus! {

/// The words by which the version-control tool says that nothing was
/// pulled. Its presence in the tool's output is taken at its word: nothing
/// else is consulted to decide whether the working copy changed.
pub const MARKER: &'static str = "Already up to date";

/// The result of one update attempt.
#[derive(Debug, PartialEq, Eq)]
pub enum UpdateOutcome {
    /// There is no working copy. Expected, and no error.
    NoCopy,
    /// The working copy already held the newest state.
    AlreadyCurrent,
    /// Changes were pulled into the working copy.
    Updated,
    /// The update could not be run. Holds the reason as the runner gave it.
    Failed(String),
}

/// An outcome as a mathematical value.
pub ghost enum UpdateOutcomeView {
    NoCopy,
    AlreadyCurrent,
    Updated,
    Failed(Seq<char>),
}

impl View for UpdateOutcome {
    type V = UpdateOutcomeView;

    open spec fn view(&self) -> UpdateOutcomeView {
        match self {
            UpdateOutcome::NoCopy => UpdateOutcomeView::NoCopy,
            UpdateOutcome::AlreadyCurrent => UpdateOutcomeView::AlreadyCurrent,
            UpdateOutcome::Updated => UpdateOutcomeView::Updated,
            UpdateOutcome::Failed(reason) => UpdateOutcomeView::Failed(reason@),
        }
    }
}

impl Clone for UpdateOutcome {
    fn clone(&self) -> (copy: UpdateOutcome)
        ensures
            copy@ == self@,
    {
        match self {
            UpdateOutcome::NoCopy => UpdateOutcome::NoCopy,
            UpdateOutcome::AlreadyCurrent => UpdateOutcome::AlreadyCurrent,
            UpdateOutcome::Updated => UpdateOutcome::Updated,
            UpdateOutcome::Failed(reason) => UpdateOutcome::Failed(reason.clone()),
        }
    }
}

/// The view of an outcome that may not be known yet.
pub open spec fn known_outcome(outcome: Option<UpdateOutcome>) -> Option<UpdateOutcomeView> {
    match outcome {
        Some(known) => Some(known@),
        None => None,
    }
}

/// The tool's output says that nothing was pulled.
pub open spec fn reports_current(stdout: Seq<char>) -> bool {
    occurs_in(MARKER@, stdout)
}

/// What a finished synchronisation means, read from its output alone. The
/// exit status plays no part.
pub open spec fn outcome_of_output(output: ProcessOutputView) -> UpdateOutcomeView {
    if reports_current(output.stdout) {
        UpdateOutcomeView::AlreadyCurrent
    } else {
        UpdateOutcomeView::Updated
    }
}

/// What an attempt to synchronise means: a run that could not be started
/// is a failure with the runner's reason, a finished one is judged by its
/// output.
pub open spec fn outcome_of_run(run: Result<ProcessOutputView, Seq<char>>) -> UpdateOutcomeView {
    match run {
        Ok(output) => outcome_of_output(output),
        Err(reason) => UpdateOutcomeView::Failed(reason),
    }
}

/// The outcome of a whole update check: without a working copy nothing is
/// run and the outcome is `NoCopy`; with one, the synchronisation decides.
pub open spec fn outcome_of_check(
    copy_exists: bool,
    run: Result<ProcessOutputView, Seq<char>>,
) -> UpdateOutcomeView {
    if copy_exists {
        outcome_of_run(run)
    } else {
        UpdateOutcomeView::NoCopy
    }
}

/// Only an outcome of `Updated` calls for a restart.
pub open spec fn calls_for_relaunch(outcome: UpdateOutcomeView) -> bool {
    outcome is Updated
}

impl UpdateOutcome {
    /// Judges a finished synchronisation by what it wrote to its standard
    /// output.
    pub fn of_output(output: &ProcessOutput) -> (outcome: UpdateOutcome)
        ensures
            outcome@ == outcome_of_output(output@),
    {
        if text_contains(output.stdout.as_str(), MARKER) {
            UpdateOutcome::AlreadyCurrent
        } else {
            UpdateOutcome::Updated
        }
    }

    /// Judges an attempt to synchronise. Never fails itself: a run that
    /// could not be started becomes `Failed` with the reason unchanged.
    pub fn of_run(run: Result<ProcessOutput, String>) -> (outcome: UpdateOutcome)
        ensures
            outcome@ == outcome_of_run(run_view(run)),
            run matches Err(reason) ==> outcome == UpdateOutcome::Failed(reason),
    {
        match run {
            Ok(output) => UpdateOutcome::of_output(&output),
            Err(reason) => UpdateOutcome::Failed(reason),
        }
    }

    /// Whether the program has to be started afresh after this outcome.
    pub fn calls_for_relaunch(&self) -> (relaunch: bool)
        ensures
            relaunch == calls_for_relaunch(self@),
    {
        match self {
            UpdateOutcome::Updated => true,
            _ => false,
        }
    }
}

} // verus!
