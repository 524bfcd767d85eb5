//! External commands as plain values: what to run, and what came back.

use crate::text::{text_of, texts};
use vstd::prelude::*;

verus! {

/// An external command: the program, its arguments in order, and the
/// directory to run it in (`None`: the current directory).
#[derive(Debug, PartialEq, Eq)]
pub struct CommandLine {
    pub program: String,
    pub args: Vec<String>,
    pub working_dir: Option<String>,
}

/// A command as a mathematical value.
pub ghost struct CommandLineView {
    pub program: Seq<char>,
    pub args: Seq<Seq<char>>,
    pub working_dir: Option<Seq<char>>,
}

impl View for CommandLine {
    type V = CommandLineView;

    open spec fn view(&self) -> CommandLineView {
        CommandLineView {
            program: self.program@,
            args: texts(self.args@),
            working_dir: text_of(self.working_dir),
        }
    }
}

/// What a command that ran to its end left behind. Whether it reported
/// success, and what it wrote to its standard output and standard error
/// where those were captured.
#[derive(Debug, PartialEq, Eq)]
pub struct ProcessOutput {
    pub succeeded: bool,
    pub stdout: String,
    pub stderr: String,
}

/// A finished command as a mathematical value.
pub ghost struct ProcessOutputView {
    pub succeeded: bool,
    pub stdout: Seq<char>,
    pub stderr: Seq<char>,
}

impl View for ProcessOutput {
    type V = ProcessOutputView;

    open spec fn view(&self) -> ProcessOutputView {
        ProcessOutputView { succeeded: self.succeeded, stdout: self.stdout@, stderr: self.stderr@ }
    }
}

impl Clone for CommandLine {
    fn clone(&self) -> (copy: CommandLine)
        ensures
            copy@ == self@,
    {
        CommandLine {
            program: self.program.clone(),
            args: self.args.clone(),
            working_dir: match &self.working_dir {
                Some(dir) => Some(dir.clone()),
                None => None,
            },
        }
    }
}

impl Clone for ProcessOutput {
    fn clone(&self) -> (copy: ProcessOutput)
        ensures
            copy@ == self@,
    {
        ProcessOutput {
            succeeded: self.succeeded,
            stdout: self.stdout.clone(),
            stderr: self.stderr.clone(),
        }
    }
}

/// The view of an attempt to run a command: the finished command, or the
/// reason why it could not be started.
pub open spec fn run_view(run: Result<ProcessOutput, String>) -> Result<
    ProcessOutputView,
    Seq<char>,
> {
    match run {
        Ok(output) => Ok(output@),
        Err(reason) => Err(reason@),
    }
}

/// The view of an attempt that leaves nothing behind but, on failure, a
/// reason.
pub open spec fn attempt_view(attempt: Result<(), String>) -> Result<(), Seq<char>> {
    match attempt {
        Ok(_) => Ok(()),
        Err(reason) => Err(reason@),
    }
}

/// The view of an attempt to find a text.
pub open spec fn found_view(found: Result<String, String>) -> Result<Seq<char>, Seq<char>> {
    match found {
        Ok(text) => Ok(text@),
        Err(reason) => Err(reason@),
    }
}

/// The version-control tool.
pub const GIT: &'static str = "git";

/// The package manager of Windows.
pub const WINGET: &'static str = "winget";

/// The package manager used on macOS.
pub const BREW: &'static str = "brew";

/// The address the application is cloned from.
pub const REPOSITORY: &'static str = "https://github.com/python313again/S2L";

/// The package index that holds the GPU-accelerated variant of the numeric
/// library.
pub const CUDA_INDEX: &'static str = "https://download.pytorch.org/whl/cu124";

/// The interpreter release that a new environment is created with.
pub const PYTHON_RELEASE: &'static str = "python=3.11.9";

/// `program` with `args`, in the directory `working_dir`.
pub open spec fn command(
    program: Seq<char>,
    args: Seq<Seq<char>>,
    working_dir: Option<Seq<char>>,
) -> CommandLineView {
    CommandLineView { program, args, working_dir }
}

/// `<program> --version`: succeeds in starting exactly when the tool is
/// there.
pub open spec fn version_probe(program: Seq<char>) -> CommandLineView {
    command(program, seq!["--version"@], None)
}

/// `winget install --id <package> -e --silent`.
pub open spec fn winget_install(package: Seq<char>) -> CommandLineView {
    command(WINGET@, seq!["install"@, "--id"@, package, "-e"@, "--silent"@], None)
}

/// `brew install miniconda`.
pub open spec fn brew_install_miniconda() -> CommandLineView {
    command(BREW@, seq!["install"@, "miniconda"@], None)
}

/// `git pull --rebase`, in the working copy: fetch, and replay local
/// history on top of what was fetched.
pub open spec fn synchronize(copy: Seq<char>) -> CommandLineView {
    command(GIT@, seq!["pull"@, "--rebase"@], Some(copy))
}

/// `<conda> env list`.
pub open spec fn list_environments(conda: Seq<char>) -> CommandLineView {
    command(conda, seq!["env"@, "list"@], None)
}

/// `<conda> create -n <name> python=3.11.9 -y`.
pub open spec fn create_environment(conda: Seq<char>, name: Seq<char>) -> CommandLineView {
    command(conda, seq!["create"@, "-n"@, name, PYTHON_RELEASE@, "-y"@], None)
}

/// `git clone <repository>`.
pub open spec fn clone_repository() -> CommandLineView {
    command(GIT@, seq!["clone"@, REPOSITORY@], None)
}

/// `<python> -m pip install -r requirements.txt`, in the working copy.
pub open spec fn install_requirements(python: Seq<char>, copy: Seq<char>) -> CommandLineView {
    command(
        python,
        seq!["-m"@, "pip"@, "install"@, "-r"@, "requirements.txt"@],
        Some(copy),
    )
}

/// `<python> -m pip uninstall torch -y`.
pub open spec fn uninstall_torch(python: Seq<char>) -> CommandLineView {
    command(python, seq!["-m"@, "pip"@, "uninstall"@, "torch"@, "-y"@], None)
}

/// `<python> -m pip install torch --index-url <index>`.
pub open spec fn install_cuda_torch(python: Seq<char>) -> CommandLineView {
    command(
        python,
        seq!["-m"@, "pip"@, "install"@, "torch"@, "--index-url"@, CUDA_INDEX@],
        None,
    )
}

/// `<python> main.py`, in the working copy.
pub open spec fn launch_application(python: Seq<char>, copy: Seq<char>) -> CommandLineView {
    command(python, seq!["main.py"@], Some(copy))
}

impl CommandLine {
    /// The command that asks a tool for its version.
    pub fn version_probe(program: &str) -> (line: CommandLine)
        ensures
            line@ == version_probe(program@),
    {
        let line = CommandLine {
            program: program.to_owned(),
            args: vec!["--version".to_owned()],
            working_dir: None,
        };
        assert(line@.args =~= seq!["--version"@]);
        line
    }

    /// The command that installs `package` with the Windows package
    /// manager, without asking questions.
    pub fn winget_install(package: &str) -> (line: CommandLine)
        ensures
            line@ == winget_install(package@),
    {
        let line = CommandLine {
            program: WINGET.to_owned(),
            args: vec![
                "install".to_owned(),
                "--id".to_owned(),
                package.to_owned(),
                "-e".to_owned(),
                "--silent".to_owned(),
            ],
            working_dir: None,
        };
        assert(line@.args =~= seq!["install"@, "--id"@, package@, "-e"@, "--silent"@]);
        line
    }

    /// The command that installs the environment manager with Homebrew.
    pub fn brew_install_miniconda() -> (line: CommandLine)
        ensures
            line@ == brew_install_miniconda(),
    {
        let line = CommandLine {
            program: BREW.to_owned(),
            args: vec!["install".to_owned(), "miniconda".to_owned()],
            working_dir: None,
        };
        assert(line@.args =~= seq!["install"@, "miniconda"@]);
        line
    }

    /// The command that brings the working copy at `copy` up to date.
    pub fn synchronize(copy: &str) -> (line: CommandLine)
        ensures
            line@ == synchronize(copy@),
    {
        let line = CommandLine {
            program: GIT.to_owned(),
            args: vec!["pull".to_owned(), "--rebase".to_owned()],
            working_dir: Some(copy.to_owned()),
        };
        assert(line@.args =~= seq!["pull"@, "--rebase"@]);
        line
    }

    /// The command that lists the environments the manager knows.
    pub fn list_environments(conda: &str) -> (line: CommandLine)
        ensures
            line@ == list_environments(conda@),
    {
        let line = CommandLine {
            program: conda.to_owned(),
            args: vec!["env".to_owned(), "list".to_owned()],
            working_dir: None,
        };
        assert(line@.args =~= seq!["env"@, "list"@]);
        line
    }

    /// The command that creates the environment `name`.
    pub fn create_environment(conda: &str, name: &str) -> (line: CommandLine)
        ensures
            line@ == create_environment(conda@, name@),
    {
        let line = CommandLine {
            program: conda.to_owned(),
            args: vec![
                "create".to_owned(),
                "-n".to_owned(),
                name.to_owned(),
                PYTHON_RELEASE.to_owned(),
                "-y".to_owned(),
            ],
            working_dir: None,
        };
        assert(line@.args =~= seq!["create"@, "-n"@, name@, PYTHON_RELEASE@, "-y"@]);
        line
    }

    /// The command that clones the application.
    pub fn clone_repository() -> (line: CommandLine)
        ensures
            line@ == clone_repository(),
    {
        let line = CommandLine {
            program: GIT.to_owned(),
            args: vec!["clone".to_owned(), REPOSITORY.to_owned()],
            working_dir: None,
        };
        assert(line@.args =~= seq!["clone"@, REPOSITORY@]);
        line
    }

    /// The command that installs what the application depends on.
    pub fn install_requirements(python: &str, copy: &str) -> (line: CommandLine)
        ensures
            line@ == install_requirements(python@, copy@),
    {
        let line = CommandLine {
            program: python.to_owned(),
            args: vec![
                "-m".to_owned(),
                "pip".to_owned(),
                "install".to_owned(),
                "-r".to_owned(),
                "requirements.txt".to_owned(),
            ],
            working_dir: Some(copy.to_owned()),
        };
        assert(line@.args =~= seq!["-m"@, "pip"@, "install"@, "-r"@, "requirements.txt"@]);
        line
    }

    /// The command that removes the numeric library.
    pub fn uninstall_torch(python: &str) -> (line: CommandLine)
        ensures
            line@ == uninstall_torch(python@),
    {
        let line = CommandLine {
            program: python.to_owned(),
            args: vec![
                "-m".to_owned(),
                "pip".to_owned(),
                "uninstall".to_owned(),
                "torch".to_owned(),
                "-y".to_owned(),
            ],
            working_dir: None,
        };
        assert(line@.args =~= seq!["-m"@, "pip"@, "uninstall"@, "torch"@, "-y"@]);
        line
    }

    /// The command that installs the GPU-accelerated numeric library.
    pub fn install_cuda_torch(python: &str) -> (line: CommandLine)
        ensures
            line@ == install_cuda_torch(python@),
    {
        let line = CommandLine {
            program: python.to_owned(),
            args: vec![
                "-m".to_owned(),
                "pip".to_owned(),
                "install".to_owned(),
                "torch".to_owned(),
                "--index-url".to_owned(),
                CUDA_INDEX.to_owned(),
            ],
            working_dir: None,
        };
        assert(line@.args =~= seq![
            "-m"@,
            "pip"@,
            "install"@,
            "torch"@,
            "--index-url"@,
            CUDA_INDEX@,
        ]);
        line
    }

    /// The command that starts the application.
    pub fn launch_application(python: &str, copy: &str) -> (line: CommandLine)
        ensures
            line@ == launch_application(python@, copy@),
    {
        let line = CommandLine {
            program: python.to_owned(),
            args: vec!["main.py".to_owned()],
            working_dir: Some(copy.to_owned()),
        };
        assert(line@.args =~= seq!["main.py"@]);
        line
    }
}

} // verus!
