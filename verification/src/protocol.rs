//! The exchange between the decision logic and the program around it: a
//! directive names the one thing to do next, an event reports what doing
//! it brought.

use crate::process::{
    attempt_view, found_view, run_view, CommandLine, CommandLineView, ProcessOutput,
    ProcessOutputView,
};
use crate::status::{StatusLine, StatusLineView};
use vstd::prelude::*;

verus! {

/// The one thing to do next.
#[derive(Debug, PartialEq, Eq)]
pub enum Action {
    /// Find out whether the path exists. Answered by `Event::Probed`.
    Probe(String),
    /// Run the command and wait for its end. With `capture` its output is
    /// collected, without it the command writes to the operator's terminal.
    /// Answered by `Event::Ran`.
    Run { command: CommandLine, capture: bool },
    /// Nothing but the line to show. Answered by `Event::Resumed`.
    Resume,
    /// Read one line from the operator. Answered by `Event::Answered`.
    Ask,
    /// Find the path of the running executable. Answered by
    /// `Event::Located`.
    Locate,
    /// Start the command and do not wait for it. Answered by
    /// `Event::Spawned`.
    Spawn(CommandLine),
    /// Delete the file. Answered by `Event::Removed`.
    Remove(String),
    /// The update check is over and the program goes on with what follows
    /// it. No answer is expected.
    Proceed,
    /// End the process with this exit code. No answer is expected.
    Exit(i32),
}

/// An action as a mathematical value.
pub ghost enum ActionView {
    Probe(Seq<char>),
    Run { command: CommandLineView, capture: bool },
    Resume,
    Ask,
    Locate,
    Spawn(CommandLineView),
    Remove(Seq<char>),
    Proceed,
    Exit(i32),
}

impl View for Action {
    type V = ActionView;

    open spec fn view(&self) -> ActionView {
        match self {
            Action::Probe(path) => ActionView::Probe(path@),
            Action::Run { command, capture } => ActionView::Run {
                command: command@,
                capture: *capture,
            },
            Action::Resume => ActionView::Resume,
            Action::Ask => ActionView::Ask,
            Action::Locate => ActionView::Locate,
            Action::Spawn(command) => ActionView::Spawn(command@),
            Action::Remove(path) => ActionView::Remove(path@),
            Action::Proceed => ActionView::Proceed,
            Action::Exit(code) => ActionView::Exit(*code),
        }
    }
}

impl Clone for Action {
    fn clone(&self) -> (copy: Action)
        ensures
            copy@ == self@,
    {
        match self {
            Action::Probe(path) => Action::Probe(path.clone()),
            Action::Run { command, capture } => Action::Run {
                command: command.clone(),
                capture: *capture,
            },
            Action::Resume => Action::Resume,
            Action::Ask => Action::Ask,
            Action::Locate => Action::Locate,
            Action::Spawn(command) => Action::Spawn(command.clone()),
            Action::Remove(path) => Action::Remove(path.clone()),
            Action::Proceed => Action::Proceed,
            Action::Exit(code) => Action::Exit(*code),
        }
    }
}

/// A line to show, if any, and then the action to take.
#[derive(Debug, PartialEq, Eq)]
pub struct Directive {
    pub say: Option<StatusLine>,
    pub action: Action,
}

/// A directive as a mathematical value.
pub ghost struct DirectiveView {
    pub say: Option<StatusLineView>,
    pub action: ActionView,
}

impl View for Directive {
    type V = DirectiveView;

    open spec fn view(&self) -> DirectiveView {
        DirectiveView {
            say: match self.say {
                Some(line) => Some(line@),
                None => None,
            },
            action: self.action@,
        }
    }
}

impl Clone for Directive {
    fn clone(&self) -> (copy: Directive)
        ensures
            copy@ == self@,
    {
        Directive {
            say: match &self.say {
                Some(line) => Some(line.clone()),
                None => None,
            },
            action: self.action.clone(),
        }
    }
}

/// The directive that shows nothing and takes `action`.
pub open spec fn silently(action: ActionView) -> DirectiveView {
    DirectiveView { say: None, action }
}

/// The directive that shows `line` and then takes `action`.
pub open spec fn saying(line: StatusLineView, action: ActionView) -> DirectiveView {
    DirectiveView { say: Some(line), action }
}

impl Directive {
    /// Shows nothing, takes `action`.
    pub fn silently(action: Action) -> (directive: Directive)
        ensures
            directive@ == silently(action@),
    {
        Directive { say: None, action }
    }

    /// Shows `line`, then takes `action`.
    pub fn saying(line: StatusLine, action: Action) -> (directive: Directive)
        ensures
            directive@ == saying(line@, action@),
    {
        Directive { say: Some(line), action }
    }
}

/// What carrying out a directive brought.
#[derive(Debug, PartialEq, Eq)]
pub enum Event {
    /// Whether the probed path exists.
    Probed(bool),
    /// The command ran to its end, or could not be started.
    Ran(Result<ProcessOutput, String>),
    /// The line was shown.
    Resumed,
    /// The line that the operator typed.
    Answered(String),
    /// The path of the running executable, or why it is not known.
    Located(Result<String, String>),
    /// The command was started, or could not be.
    Spawned(Result<(), String>),
    /// The file was deleted, or could not be.
    Removed(Result<(), String>),
}

/// An event as a mathematical value.
pub ghost enum EventView {
    Probed(bool),
    Ran(Result<ProcessOutputView, Seq<char>>),
    Resumed,
    Answered(Seq<char>),
    Located(Result<Seq<char>, Seq<char>>),
    Spawned(Result<(), Seq<char>>),
    Removed(Result<(), Seq<char>>),
}

impl View for Event {
    type V = EventView;

    open spec fn view(&self) -> EventView {
        match self {
            Event::Probed(exists) => EventView::Probed(*exists),
            Event::Ran(run) => EventView::Ran(run_view(*run)),
            Event::Resumed => EventView::Resumed,
            Event::Answered(line) => EventView::Answered(line@),
            Event::Located(found) => EventView::Located(found_view(*found)),
            Event::Spawned(attempt) => EventView::Spawned(attempt_view(*attempt)),
            Event::Removed(attempt) => EventView::Removed(attempt_view(*attempt)),
        }
    }
}

/// Whether `event` is the kind of answer that `action` asks for.
pub open spec fn answers(event: EventView, action: ActionView) -> bool {
    match action {
        ActionView::Probe(_) => event is Probed,
        ActionView::Run { .. } => event is Ran,
        ActionView::Resume => event is Resumed,
        ActionView::Ask => event is Answered,
        ActionView::Locate => event is Located,
        ActionView::Spawn(_) => event is Spawned,
        ActionView::Remove(_) => event is Removed,
        ActionView::Proceed => false,
        ActionView::Exit(_) => false,
    }
}

} // verus!
