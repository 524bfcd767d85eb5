//! The update supervisor: finds out whether the working copy is stale,
//! brings it up to date, and after an update hands execution over to a
//! fresh process of the program.
//!
//! The supervisor decides and does nothing else. `directive` names the one
//! thing to do in the present phase; `advance` takes what doing it brought
//! and moves to the next phase.

use crate::messages::{
    check_failed, fatal_line, plain, Fatal, CHECKING, COPY_MISSING, RESTARTING, UPDATES_APPLIED,
    UP_TO_DATE,
};
use crate::outcome::{
    known_outcome, outcome_of_check, outcome_of_run, reports_current, UpdateOutcome,
    UpdateOutcomeView,
};
use crate::process::{command, synchronize, CommandLine, ProcessOutputView};
use crate::protocol::{
    answers, saying, silently, Action, ActionView, Directive, DirectiveView, Event, EventView,
};
use crate::relaunch::{
    relaunch_command, relaunch_request, trailing, RelaunchRequest, RelaunchRequestView,
    EXIT_FAILURE, EXIT_SUCCESS,
};
use crate::status::{StatusLine, Tone};
use crate::text::texts;
use vstd::prelude::*;

verus! {

/// Where the supervisor stands.
#[derive(Debug, PartialEq, Eq)]
pub enum Phase {
    /// Nothing is known yet of the working copy.
    Start,
    /// There is no working copy.
    NoCopy,
    /// The working copy is there and is being synchronised.
    Checking,
    /// The working copy was already up to date.
    Current,
    /// Changes were pulled into the working copy.
    Updated,
    /// The synchronisation could not be run. Holds the reason.
    CheckFailed(String),
    /// The program is being started afresh. Without a request the path of
    /// the executable is still to be found; with one, the new process is to
    /// be spawned.
    Relaunching(Option<RelaunchRequest>),
    /// The supervisor is done and the program goes on. Holds the outcome
    /// of the check.
    Continue(UpdateOutcome),
    /// The new process runs; this one has nothing left to do but end.
    HandedOff,
    /// The hand-over failed; this process ends with an error.
    Aborted(Fatal, String),
}

/// A phase as a mathematical value.
pub ghost enum PhaseView {
    Start,
    NoCopy,
    Checking,
    Current,
    Updated,
    CheckFailed(Seq<char>),
    Relaunching(Option<RelaunchRequestView>),
    Continue(UpdateOutcomeView),
    HandedOff,
    Aborted(Fatal, Seq<char>),
}

impl View for Phase {
    type V = PhaseView;

    open spec fn view(&self) -> PhaseView {
        match self {
            Phase::Start => PhaseView::Start,
            Phase::NoCopy => PhaseView::NoCopy,
            Phase::Checking => PhaseView::Checking,
            Phase::Current => PhaseView::Current,
            Phase::Updated => PhaseView::Updated,
            Phase::CheckFailed(reason) => PhaseView::CheckFailed(reason@),
            Phase::Relaunching(None) => PhaseView::Relaunching(None),
            Phase::Relaunching(Some(request)) => PhaseView::Relaunching(Some(request@)),
            Phase::Continue(outcome) => PhaseView::Continue(outcome@),
            Phase::HandedOff => PhaseView::HandedOff,
            Phase::Aborted(fatal, reason) => PhaseView::Aborted(*fatal, reason@),
        }
    }
}

impl Clone for Phase {
    fn clone(&self) -> (copy: Phase)
        ensures
            copy@ == self@,
    {
        match self {
            Phase::Start => Phase::Start,
            Phase::NoCopy => Phase::NoCopy,
            Phase::Checking => Phase::Checking,
            Phase::Current => Phase::Current,
            Phase::Updated => Phase::Updated,
            Phase::CheckFailed(reason) => Phase::CheckFailed(reason.clone()),
            Phase::Relaunching(None) => Phase::Relaunching(None),
            Phase::Relaunching(Some(request)) => Phase::Relaunching(Some(request.clone())),
            Phase::Continue(outcome) => Phase::Continue(outcome.clone()),
            Phase::HandedOff => Phase::HandedOff,
            Phase::Aborted(fatal, reason) => Phase::Aborted(*fatal, reason.clone()),
        }
    }
}

/// The supervisor of one working copy in one run of the program.
#[derive(Debug, PartialEq, Eq)]
pub struct Supervisor {
    /// The path of the working copy.
    pub copy: String,
    /// The argument vector that this process was started with.
    pub argv: Vec<String>,
    /// Where the supervisor stands.
    pub phase: Phase,
}

/// A supervisor as a mathematical value.
pub ghost struct SupervisorView {
    pub copy: Seq<char>,
    pub argv: Seq<Seq<char>>,
    pub phase: PhaseView,
}

impl View for Supervisor {
    type V = SupervisorView;

    open spec fn view(&self) -> SupervisorView {
        SupervisorView { copy: self.copy@, argv: texts(self.argv@), phase: self.phase@ }
    }
}

impl Clone for Supervisor {
    fn clone(&self) -> (copy: Supervisor)
        ensures
            copy@ == self@,
    {
        Supervisor { copy: self.copy.clone(), argv: self.argv.clone(), phase: self.phase.clone() }
    }
}

/// The supervisor before anything was done.
pub open spec fn initial(copy: Seq<char>, argv: Seq<Seq<char>>) -> SupervisorView {
    SupervisorView { copy, argv, phase: PhaseView::Start }
}

/// The phase that a check with the given outcome leads to.
pub open spec fn phase_after_check(outcome: UpdateOutcomeView) -> PhaseView {
    match outcome {
        UpdateOutcomeView::NoCopy => PhaseView::NoCopy,
        UpdateOutcomeView::AlreadyCurrent => PhaseView::Current,
        UpdateOutcomeView::Updated => PhaseView::Updated,
        UpdateOutcomeView::Failed(reason) => PhaseView::CheckFailed(reason),
    }
}

/// The outcome of the check as far as a phase knows it: nothing before the
/// check is over, and `Updated` from then on wherever changes were pulled.
pub open spec fn outcome_at(phase: PhaseView) -> Option<UpdateOutcomeView> {
    match phase {
        PhaseView::Start => None,
        PhaseView::Checking => None,
        PhaseView::NoCopy => Some(UpdateOutcomeView::NoCopy),
        PhaseView::Current => Some(UpdateOutcomeView::AlreadyCurrent),
        PhaseView::CheckFailed(reason) => Some(UpdateOutcomeView::Failed(reason)),
        PhaseView::Continue(outcome) => Some(outcome),
        PhaseView::Updated => Some(UpdateOutcomeView::Updated),
        PhaseView::Relaunching(_) => Some(UpdateOutcomeView::Updated),
        PhaseView::HandedOff => Some(UpdateOutcomeView::Updated),
        PhaseView::Aborted(_, _) => Some(UpdateOutcomeView::Updated),
    }
}

/// The phase that follows when `event` arrives. An event that does not
/// answer the phase's directive changes nothing.
pub open spec fn next_phase(s: SupervisorView, event: EventView) -> PhaseView {
    match s.phase {
        PhaseView::Start => match event {
            EventView::Probed(exists) => if exists {
                PhaseView::Checking
            } else {
                PhaseView::NoCopy
            },
            _ => s.phase,
        },
        PhaseView::Checking => match event {
            EventView::Ran(run) => phase_after_check(outcome_of_run(run)),
            _ => s.phase,
        },
        PhaseView::NoCopy => match event {
            EventView::Resumed => PhaseView::Continue(UpdateOutcomeView::NoCopy),
            _ => s.phase,
        },
        PhaseView::Current => match event {
            EventView::Resumed => PhaseView::Continue(UpdateOutcomeView::AlreadyCurrent),
            _ => s.phase,
        },
        PhaseView::CheckFailed(reason) => match event {
            EventView::Resumed => PhaseView::Continue(UpdateOutcomeView::Failed(reason)),
            _ => s.phase,
        },
        PhaseView::Updated => match event {
            EventView::Resumed => PhaseView::Relaunching(None),
            _ => s.phase,
        },
        PhaseView::Relaunching(None) => match event {
            EventView::Located(Ok(executable)) => PhaseView::Relaunching(
                Some(relaunch_request(s.argv, executable)),
            ),
            EventView::Located(Err(reason)) => PhaseView::Aborted(Fatal::ExecutablePath, reason),
            _ => s.phase,
        },
        PhaseView::Relaunching(Some(_)) => match event {
            EventView::Spawned(Ok(_)) => PhaseView::HandedOff,
            EventView::Spawned(Err(reason)) => PhaseView::Aborted(Fatal::Relaunch, reason),
            _ => s.phase,
        },
        PhaseView::Continue(_) => s.phase,
        PhaseView::HandedOff => s.phase,
        PhaseView::Aborted(_, _) => s.phase,
    }
}

/// The supervisor after `event`.
pub open spec fn next(s: SupervisorView, event: EventView) -> SupervisorView {
    SupervisorView { copy: s.copy, argv: s.argv, phase: next_phase(s, event) }
}

/// What is to be done in the present phase.
pub open spec fn directive_of(s: SupervisorView) -> DirectiveView {
    match s.phase {
        PhaseView::Start => silently(ActionView::Probe(s.copy)),
        PhaseView::NoCopy => saying(plain(Tone::Warning, COPY_MISSING@), ActionView::Resume),
        PhaseView::Checking => saying(
            plain(Tone::Info, CHECKING@),
            ActionView::Run { command: synchronize(s.copy), capture: true },
        ),
        PhaseView::Current => saying(plain(Tone::Success, UP_TO_DATE@), ActionView::Resume),
        PhaseView::Updated => saying(plain(Tone::Success, UPDATES_APPLIED@), ActionView::Resume),
        PhaseView::CheckFailed(reason) => saying(check_failed(reason), ActionView::Resume),
        PhaseView::Relaunching(None) => saying(
            plain(Tone::Success, RESTARTING@),
            ActionView::Locate,
        ),
        PhaseView::Relaunching(Some(request)) => silently(
            ActionView::Spawn(relaunch_command(request)),
        ),
        PhaseView::Continue(_) => silently(ActionView::Proceed),
        PhaseView::HandedOff => silently(ActionView::Exit(EXIT_SUCCESS)),
        PhaseView::Aborted(fatal, reason) => saying(
            fatal_line(fatal, reason),
            ActionView::Exit(EXIT_FAILURE),
        ),
    }
}

/// The supervisor after a run of events, taken in order.
pub open spec fn after(s: SupervisorView, events: Seq<EventView>) -> SupervisorView
    decreases events.len(),
{
    if events.len() == 0 {
        s
    } else {
        after(next(s, events[0]), events.drop_first())
    }
}

/// The phases in which the supervisor has nothing left to decide.
pub open spec fn is_terminal(phase: PhaseView) -> bool {
    phase is Continue || phase is HandedOff || phase is Aborted
}

impl Phase {
    /// The phase that a check with the given outcome leads to.
    pub fn after_check(outcome: UpdateOutcome) -> (phase: Phase)
        ensures
            phase@ == phase_after_check(outcome@),
    {
        match outcome {
            UpdateOutcome::NoCopy => Phase::NoCopy,
            UpdateOutcome::AlreadyCurrent => Phase::Current,
            UpdateOutcome::Updated => Phase::Updated,
            UpdateOutcome::Failed(reason) => Phase::CheckFailed(reason),
        }
    }

    /// Whether nothing is left to decide in this phase.
    pub fn is_terminal(&self) -> (terminal: bool)
        ensures
            terminal == is_terminal(self@),
    {
        match self {
            Phase::Continue(_) => true,
            Phase::HandedOff => true,
            Phase::Aborted(_, _) => true,
            _ => false,
        }
    }
}

impl Supervisor {
    /// A supervisor for the working copy at `copy`, in a process that was
    /// started with `argv`.
    pub fn new(copy: String, argv: Vec<String>) -> (supervisor: Supervisor)
        ensures
            supervisor@ == initial(copy@, texts(argv@)),
    {
        Supervisor { copy, argv, phase: Phase::Start }
    }

    /// What is to be done now.
    pub fn directive(&self) -> (directive: Directive)
        ensures
            directive@ == directive_of(self@),
    {
        match &self.phase {
            Phase::Start => Directive::silently(Action::Probe(self.copy.clone())),
            Phase::NoCopy => Directive::saying(
                StatusLine::plain(Tone::Warning, COPY_MISSING),
                Action::Resume,
            ),
            Phase::Checking => Directive::saying(
                StatusLine::plain(Tone::Info, CHECKING),
                Action::Run {
                    command: CommandLine::synchronize(self.copy.as_str()),
                    capture: true,
                },
            ),
            Phase::Current => Directive::saying(
                StatusLine::plain(Tone::Success, UP_TO_DATE),
                Action::Resume,
            ),
            Phase::Updated => Directive::saying(
                StatusLine::plain(Tone::Success, UPDATES_APPLIED),
                Action::Resume,
            ),
            Phase::CheckFailed(reason) => Directive::saying(
                StatusLine::check_failed(reason.as_str()),
                Action::Resume,
            ),
            Phase::Relaunching(None) => Directive::saying(
                StatusLine::plain(Tone::Success, RESTARTING),
                Action::Locate,
            ),
            Phase::Relaunching(Some(request)) => Directive::silently(
                Action::Spawn(request.command()),
            ),
            Phase::Continue(_) => Directive::silently(Action::Proceed),
            Phase::HandedOff => Directive::silently(Action::Exit(EXIT_SUCCESS)),
            Phase::Aborted(fatal, reason) => Directive::saying(
                fatal.line(reason.as_str()),
                Action::Exit(EXIT_FAILURE),
            ),
        }
    }

    /// Takes what carrying out the directive brought and moves on.
    pub fn advance(self, event: Event) -> (after: Supervisor)
        ensures
            after@ == next(self@, event@),
    {
        let Supervisor { copy, argv, phase } = self;
        let phase = match phase {
            Phase::Start => match event {
                Event::Probed(exists) => if exists {
                    Phase::Checking
                } else {
                    Phase::NoCopy
                },
                _ => Phase::Start,
            },
            Phase::Checking => match event {
                Event::Ran(run) => Phase::after_check(UpdateOutcome::of_run(run)),
                _ => Phase::Checking,
            },
            Phase::NoCopy => match event {
                Event::Resumed => Phase::Continue(UpdateOutcome::NoCopy),
                _ => Phase::NoCopy,
            },
            Phase::Current => match event {
                Event::Resumed => Phase::Continue(UpdateOutcome::AlreadyCurrent),
                _ => Phase::Current,
            },
            Phase::CheckFailed(reason) => match event {
                Event::Resumed => Phase::Continue(UpdateOutcome::Failed(reason)),
                _ => Phase::CheckFailed(reason),
            },
            Phase::Updated => match event {
                Event::Resumed => Phase::Relaunching(None),
                _ => Phase::Updated,
            },
            Phase::Relaunching(None) => match event {
                Event::Located(Ok(executable)) => Phase::Relaunching(
                    Some(RelaunchRequest::new(&argv, executable)),
                ),
                Event::Located(Err(reason)) => Phase::Aborted(Fatal::ExecutablePath, reason),
                _ => Phase::Relaunching(None),
            },
            Phase::Relaunching(Some(request)) => match event {
                Event::Spawned(Ok(_)) => Phase::HandedOff,
                Event::Spawned(Err(reason)) => Phase::Aborted(Fatal::Relaunch, reason),
                _ => Phase::Relaunching(Some(request)),
            },
            Phase::Continue(outcome) => Phase::Continue(outcome),
            Phase::HandedOff => Phase::HandedOff,
            Phase::Aborted(fatal, reason) => Phase::Aborted(fatal, reason),
        };
        Supervisor { copy, argv, phase }
    }

    /// The outcome of the update check, once it is known.
    pub fn outcome(&self) -> (outcome: Option<UpdateOutcome>)
        ensures
            known_outcome(outcome) == outcome_at(self@.phase),
    {
        match &self.phase {
            Phase::Start => None,
            Phase::Checking => None,
            Phase::NoCopy => Some(UpdateOutcome::NoCopy),
            Phase::Current => Some(UpdateOutcome::AlreadyCurrent),
            Phase::CheckFailed(reason) => Some(UpdateOutcome::Failed(reason.clone())),
            Phase::Continue(outcome) => Some(outcome.clone()),
            Phase::Updated => Some(UpdateOutcome::Updated),
            Phase::Relaunching(_) => Some(UpdateOutcome::Updated),
            Phase::HandedOff => Some(UpdateOutcome::Updated),
            Phase::Aborted(_, _) => Some(UpdateOutcome::Updated),
        }
    }
}

/// The directive starts an external process.
pub open spec fn starts_process(directive: DirectiveView) -> bool {
    directive.action is Run || directive.action is Spawn
}

/// How many more events the supervisor can take, at most, before it has
/// nothing left to decide.
pub open spec fn steps_left(phase: PhaseView) -> nat {
    match phase {
        PhaseView::Start => 5,
        PhaseView::Checking => 4,
        PhaseView::Updated => 3,
        PhaseView::Relaunching(None) => 2,
        PhaseView::Relaunching(Some(_)) => 1,
        PhaseView::NoCopy => 1,
        PhaseView::Current => 1,
        PhaseView::CheckFailed(_) => 1,
        PhaseView::Continue(_) => 0,
        PhaseView::HandedOff => 0,
        PhaseView::Aborted(_, _) => 0,
    }
}

/// Without a working copy the check ends in `NoCopy` and the program goes
/// on, and on the way there no external process is started: the path is
/// probed, a line is shown, and that is all.
pub proof fn lemma_absent_copy_starts_nothing(copy: Seq<char>, argv: Seq<Seq<char>>)
    ensures
        ({
            let start = initial(copy, argv);
            let absent = next(start, EventView::Probed(false));
            let done = next(absent, EventView::Resumed);
            &&& directive_of(start) == silently(ActionView::Probe(copy))
            &&& absent.phase == PhaseView::NoCopy
            &&& outcome_at(absent.phase) == Some(UpdateOutcomeView::NoCopy)
            &&& !starts_process(directive_of(absent))
            &&& done.phase == PhaseView::Continue(UpdateOutcomeView::NoCopy)
            &&& directive_of(done) == silently(ActionView::Proceed)
        }),
{
}

/// Once the working copy was found missing, no external process is
/// started any more, whatever events arrive and in whatever order.
pub proof fn lemma_absent_copy_never_starts_process(s: SupervisorView, events: Seq<EventView>)
    requires
        outcome_at(s.phase) == Some(UpdateOutcomeView::NoCopy),
    ensures
        outcome_at(after(s, events).phase) == Some(UpdateOutcomeView::NoCopy),
        !starts_process(directive_of(after(s, events))),
        !(directive_of(after(s, events)).action is Exit),
    decreases events.len(),
{
    if events.len() > 0 {
        lemma_absent_copy_never_starts_process(next(s, events[0]), events.drop_first());
    }
}

/// A synchronisation that ran to its end is judged by the marker alone:
/// with the marker in its output the copy is current, without it the copy
/// counts as updated, whatever else the output holds and whatever the
/// exit status was.
pub proof fn lemma_marker_decides(s: SupervisorView, output: ProcessOutputView)
    requires
        s.phase == PhaseView::Checking,
    ensures
        reports_current(output.stdout) ==> next(s, EventView::Ran(Ok(output))).phase
            == PhaseView::Current,
        !reports_current(output.stdout) ==> next(s, EventView::Ran(Ok(output))).phase
            == PhaseView::Updated,
{
}

/// A synchronisation that could not be run does not stop the program: the
/// outcome is `Failed` with the runner's reason, the reason is shown, and
/// the program goes on.
pub proof fn lemma_failed_check_goes_on(s: SupervisorView, reason: Seq<char>)
    requires
        s.phase == PhaseView::Checking,
    ensures
        ({
            let failed = next(s, EventView::Ran(Err(reason)));
            let done = next(failed, EventView::Resumed);
            &&& failed.phase == PhaseView::CheckFailed(reason)
            &&& outcome_at(failed.phase) == Some(UpdateOutcomeView::Failed(reason))
            &&& directive_of(failed) == saying(check_failed(reason), ActionView::Resume)
            &&& done.phase == PhaseView::Continue(UpdateOutcomeView::Failed(reason))
            &&& directive_of(done) == silently(ActionView::Proceed)
        }),
{
}

/// Once the check has failed, the supervisor never ends the process and
/// never starts another, whatever events arrive: the failure is soft.
pub proof fn lemma_failed_check_never_ends_process(
    s: SupervisorView,
    reason: Seq<char>,
    events: Seq<EventView>,
)
    requires
        outcome_at(s.phase) == Some(UpdateOutcomeView::Failed(reason)),
    ensures
        outcome_at(after(s, events).phase) == Some(UpdateOutcomeView::Failed(reason)),
        !(directive_of(after(s, events)).action is Exit),
        !starts_process(directive_of(after(s, events))),
    decreases events.len(),
{
    if events.len() > 0 {
        lemma_failed_check_never_ends_process(next(s, events[0]), reason, events.drop_first());
    }
}

/// Once the check is over, the supervisor knows the outcome that the
/// probe and the synchronisation determine.
pub proof fn lemma_check_outcome(
    copy: Seq<char>,
    argv: Seq<Seq<char>>,
    copy_exists: bool,
    run: Result<ProcessOutputView, Seq<char>>,
)
    ensures
        ({
            let probed = next(initial(copy, argv), EventView::Probed(copy_exists));
            let checked = if copy_exists {
                next(probed, EventView::Ran(run))
            } else {
                probed
            };
            outcome_at(checked.phase) == Some(outcome_of_check(copy_exists, run))
        }),
{
}

/// The new process is given the executable's path and exactly the
/// arguments that followed the program's name in this invocation,
/// unchanged and in order.
pub proof fn lemma_relaunch_forwards_arguments(s: SupervisorView, executable: Seq<char>)
    requires
        s.phase == PhaseView::Relaunching(None),
    ensures
        directive_of(next(s, EventView::Located(Ok(executable)))) == silently(
            ActionView::Spawn(command(executable, trailing(s.argv), None)),
        ),
{
}

/// After the new process was spawned this one ends with the success code
/// and does nothing more: its directive shows no line and starts nothing,
/// and no event changes that.
pub proof fn lemma_hand_over_ends_silently(s: SupervisorView, event: EventView)
    requires
        s.phase is Relaunching,
        s.phase->Relaunching_0 is Some,
    ensures
        ({
            let done = next(s, EventView::Spawned(Ok(())));
            &&& done.phase == PhaseView::HandedOff
            &&& directive_of(done) == silently(ActionView::Exit(EXIT_SUCCESS))
            &&& next(done, event) == done
        }),
{
}

/// After the hand-over nothing more is done, whatever events arrive: the
/// supervisor stays as it is, and all it directs is the silent exit with
/// the success code.
pub proof fn lemma_hand_over_is_final(s: SupervisorView, events: Seq<EventView>)
    requires
        s.phase is HandedOff,
    ensures
        after(s, events) == s,
        directive_of(after(s, events)) == silently(ActionView::Exit(EXIT_SUCCESS)),
    decreases events.len(),
{
    if events.len() > 0 {
        lemma_hand_over_is_final(s, events.drop_first());
    }
}

/// A hand-over that fails ends the program with the failure code: where
/// the executable cannot be found, and where the new process cannot be
/// spawned.
pub proof fn lemma_failed_hand_over_is_fatal(s: SupervisorView, reason: Seq<char>)
    requires
        s.phase is Relaunching,
    ensures
        ({
            let event = if s.phase->Relaunching_0 is Some {
                EventView::Spawned(Err(reason))
            } else {
                EventView::Located(Err(reason))
            };
            let fatal = if s.phase->Relaunching_0 is Some {
                Fatal::Relaunch
            } else {
                Fatal::ExecutablePath
            };
            directive_of(next(s, event)) == saying(
                fatal_line(fatal, reason),
                ActionView::Exit(EXIT_FAILURE),
            )
        }),
{
}

/// The working copy is touched in one phase only, by the synchronisation,
/// and that phase is not come back to: once the check is over the
/// supervisor never asks for the working copy to be changed again.
pub proof fn lemma_synchronises_once(s: SupervisorView, event: EventView)
    ensures
        directive_of(s).action is Run <==> s.phase is Checking,
        s.phase is Checking ==> directive_of(s).action == (ActionView::Run {
            command: synchronize(s.copy),
            capture: true,
        }),
        next(s, event).phase is Checking ==> s.phase is Start || s.phase is Checking,
        outcome_at(s.phase) is Some ==> !(next(s, event).phase is Checking),
{
}

/// The program is started afresh after an update and in no other case.
pub proof fn lemma_relaunch_only_after_update(s: SupervisorView, event: EventView)
    requires
        next(s, event).phase is Relaunching,
    ensures
        outcome_at(s.phase) == Some(UpdateOutcomeView::Updated),
{
}

/// The outcome, once known, never changes.
pub proof fn lemma_outcome_is_kept(s: SupervisorView, event: EventView)
    requires
        outcome_at(s.phase) is Some,
    ensures
        outcome_at(next(s, event).phase) == outcome_at(s.phase),
{
}

/// An event that does not answer the directive is ignored.
pub proof fn lemma_unasked_events_change_nothing(s: SupervisorView, event: EventView)
    requires
        !answers(event, directive_of(s).action),
    ensures
        next(s, event) == s,
{
}

/// In a terminal phase no event is asked for and none changes anything.
pub proof fn lemma_terminal_phases_stay(s: SupervisorView, event: EventView)
    requires
        is_terminal(s.phase),
    ensures
        !answers(event, directive_of(s).action),
        next(s, event) == s,
{
}

/// A run of events never takes the supervisor further from its end, and
/// in a terminal phase it changes nothing.
pub proof fn lemma_runs_are_short(s: SupervisorView, events: Seq<EventView>)
    ensures
        steps_left(after(s, events).phase) <= steps_left(s.phase),
        is_terminal(s.phase) ==> after(s, events) == s,
    decreases events.len(),
{
    if events.len() > 0 {
        lemma_progress(s, events[0]);
        lemma_runs_are_short(next(s, events[0]), events.drop_first());
    }
}

/// Every event that is taken brings the end nearer, so the supervisor is
/// done after five events at most.
pub proof fn lemma_progress(s: SupervisorView, event: EventView)
    ensures
        next(s, event) == s || steps_left(next(s, event).phase) < steps_left(s.phase),
        steps_left(s.phase) == 0 <==> is_terminal(s.phase),
        steps_left(s.phase) <= 5,
{
}

/// The process is ended by the supervisor in two phases only: with the
/// success code after a hand-over, with the failure code after a failed
/// one.
pub proof fn lemma_exit_codes(s: SupervisorView)
    ensures
        directive_of(s).action is Exit <==> s.phase is HandedOff || s.phase is Aborted,
        s.phase is HandedOff ==> directive_of(s).action == ActionView::Exit(0),
        s.phase is Aborted ==> directive_of(s).action == ActionView::Exit(1),
{
}

} // verus!
