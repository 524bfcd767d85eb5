//! Handing execution over to a fresh process of the same program.

use crate::process::{command, CommandLine, CommandLineView};
use crate::text::texts;
use vstd::prelude::*;

verus! {

/// The exit code of every path that ends well, a completed hand-over
/// among them.
pub const EXIT_SUCCESS: i32 = 0;

/// The exit code after an interrupt, a failed hand-over, or a set-up step
/// that could not be done.
pub const EXIT_FAILURE: i32 = 1;

/// The arguments that follow the program's name in an argument vector, in
/// order. An empty vector has none.
pub open spec fn trailing(argv: Seq<Seq<char>>) -> Seq<Seq<char>> {
    if argv.len() == 0 {
        argv
    } else {
        argv.subrange(1, argv.len() as int)
    }
}

/// What is needed to start the program once more as it was started this
/// time: the path of the running executable, and the arguments to give it.
#[derive(Debug, PartialEq, Eq)]
pub struct RelaunchRequest {
    pub executable: String,
    pub args: Vec<String>,
}

/// A relaunch request as a mathematical value.
pub ghost struct RelaunchRequestView {
    pub executable: Seq<char>,
    pub args: Seq<Seq<char>>,
}

impl View for RelaunchRequest {
    type V = RelaunchRequestView;

    open spec fn view(&self) -> RelaunchRequestView {
        RelaunchRequestView { executable: self.executable@, args: texts(self.args@) }
    }
}

impl Clone for RelaunchRequest {
    fn clone(&self) -> (copy: RelaunchRequest)
        ensures
            copy@ == self@,
    {
        RelaunchRequest { executable: self.executable.clone(), args: self.args.clone() }
    }
}

/// The request that repeats the invocation `argv` with `executable`.
pub open spec fn relaunch_request(
    argv: Seq<Seq<char>>,
    executable: Seq<char>,
) -> RelaunchRequestView {
    RelaunchRequestView { executable, args: trailing(argv) }
}

/// The command that carries out a request: the executable with the
/// forwarded arguments, in the current directory.
pub open spec fn relaunch_command(request: RelaunchRequestView) -> CommandLineView {
    command(request.executable, request.args, None)
}

/// The argument vector that a process started by `request` finds, its own
/// name first.
pub open spec fn received_argv(request: RelaunchRequestView) -> Seq<Seq<char>> {
    seq![request.executable] + request.args
}

/// Copies of the arguments that follow the program's name in `argv`.
pub fn trailing_arguments(argv: &Vec<String>) -> (args: Vec<String>)
    ensures
        texts(args@) == trailing(texts(argv@)),
{
    let mut args: Vec<String> = Vec::new();
    let mut i: usize = 1;
    while i < argv.len()
        invariant
            1 <= i,
            i <= argv@.len() || i == 1,
            args@.len() == i - 1,
            forall|k: int| 0 <= k < i - 1 ==> (#[trigger] args@[k])@ == argv@[k + 1]@,
        decreases argv@.len() - i,
    {
        args.push(argv[i].clone());
        i += 1;
    }
    args
}

impl RelaunchRequest {
    /// The request that repeats the invocation `argv` with `executable`:
    /// every argument after the program's name is forwarded, unchanged and
    /// in order.
    pub fn new(argv: &Vec<String>, executable: String) -> (request: RelaunchRequest)
        ensures
            request@ == relaunch_request(texts(argv@), executable@),
    {
        RelaunchRequest { executable, args: trailing_arguments(argv) }
    }

    /// The command to spawn for this request.
    pub fn command(&self) -> (line: CommandLine)
        ensures
            line@ == relaunch_command(self@),
    {
        CommandLine { program: self.executable.clone(), args: self.args.clone(), working_dir: None }
    }
}

/// Forwarding keeps each argument and its place: argument `i` of the new
/// process is argument `i + 1` of the invocation it repeats.
pub proof fn lemma_forwarding_exact(argv: Seq<Seq<char>>, executable: Seq<char>, i: int)
    requires
        0 <= i < argv.len() - 1,
    ensures
        relaunch_request(argv, executable).args.len() == argv.len() - 1,
        relaunch_command(relaunch_request(argv, executable)).args[i] == argv[i + 1],
{
}

/// Forwarding is idempotent: a process started by a request, asked to
/// repeat its own invocation, forwards exactly the arguments it was given.
pub proof fn lemma_forwarding_idempotent(
    argv: Seq<Seq<char>>,
    executable: Seq<char>,
    next_executable: Seq<char>,
)
    ensures
        relaunch_request(
            received_argv(relaunch_request(argv, executable)),
            next_executable,
        ).args == relaunch_request(argv, executable).args,
{
}

} // verus!
