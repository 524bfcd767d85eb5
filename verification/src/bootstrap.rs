//! The whole run of the bootstrapper, from the first probe to the launch
//! of the application: which tools are looked for and installed, when the
//! working copy is updated or created, and what ends the program.
//!
//! Like the supervisor it embeds, the bootstrapper decides and does
//! nothing else: `directive` names the one thing to do, `advance` takes
//! what doing it brought.

use crate::config::{config_for, Config, ConfigView, Platform};
use crate::messages::{
    fatal_line, install_failed, installed, installing, plain, remove_failed, Fatal, ASK_CUDA,
    ASK_UPDATE, BREW_FAILED, BREW_INSTALLED, BREW_INSTALLING, CONDA_MISSING, COPY_FOUND,
    INTERRUPTED, LAUNCHING,
};
use crate::process::{
    brew_install_miniconda, clone_repository, command, create_environment, install_cuda_torch,
    install_requirements, launch_application, list_environments, run_view, uninstall_torch,
    version_probe, winget_install, CommandLine, CommandLineView, ProcessOutput,
    ProcessOutputView, GIT,
};
use crate::prompt::{is_affirmative, is_yes};
use crate::protocol::{
    saying, silently, Action, ActionView, Directive, DirectiveView, Event, EventView,
};
use crate::relaunch::{trailing, EXIT_FAILURE, EXIT_SUCCESS};
use crate::status::{StatusLine, Tone};
use crate::supervisor::{Phase, PhaseView, Supervisor, SupervisorView};
use crate::text::{occurs_in, text_contains, texts};
use vstd::prelude::*;

verus! {

/// What the Windows package manager can be asked to install.
#[derive(Clone, Copy, Debug, PartialEq, Eq, Structural)]
pub enum Package {
    /// The environment manager.
    Miniconda,
    /// The version-control tool.
    Git,
}

/// The environment manager, as the package manager knows it.
pub const MINICONDA_ID: &'static str = "Continuum.Miniconda3";

/// The version-control tool, as the package manager knows it.
pub const GIT_ID: &'static str = "Git.Git";

/// The name by which the package manager knows a package.
pub open spec fn package_id(package: Package) -> Seq<char> {
    match package {
        Package::Miniconda => MINICONDA_ID@,
        Package::Git => GIT_ID@,
    }
}

/// The files of the application of which one is deleted after set-up.
#[derive(Clone, Copy, Debug, PartialEq, Eq, Structural)]
pub enum Leftover {
    /// The visualizer in source form: in the way where the GPU variant of
    /// the numeric library is used.
    SourceVisualizer,
    /// The visualizer in compiled form: in the way everywhere else.
    CompiledVisualizer,
}

/// Where the visualizer lies in source form.
pub const SOURCE_VISUALIZER: &'static str = "S2L\\libs\\roi_visualizer.py";

/// Where the visualizer lies in compiled form.
pub const COMPILED_VISUALIZER: &'static str = "S2L\\libs\\roi_visualizer.cp311-win_amd64.pyd";

/// The path of a leftover file.
pub open spec fn leftover_path(leftover: Leftover) -> Seq<char> {
    match leftover {
        Leftover::SourceVisualizer => SOURCE_VISUALIZER@,
        Leftover::CompiledVisualizer => COMPILED_VISUALIZER@,
    }
}

/// Where the bootstrapper stands.
#[derive(Debug, PartialEq, Eq)]
pub enum Stage {
    /// Looking for the environment manager.
    ProbingConda,
    /// The environment manager is not there.
    CondaMissing,
    /// The Windows package manager installs a package.
    Installing(Package),
    /// The package was installed.
    Installed(Package),
    /// The package could not be installed; the program ends.
    InstallFailed(Package),
    /// Homebrew installs the environment manager.
    Brewing,
    /// Homebrew has installed the environment manager.
    Brewed,
    /// Homebrew could not install it; the program ends.
    BrewFailed,
    /// Looking for the version-control tool.
    ProbingGit,
    /// Looking for the working copy.
    ProbingCopy,
    /// The working copy is there, so nothing is set up.
    CopyFound,
    /// The operator is asked whether to check for updates.
    AskingUpdate,
    /// The update supervisor is at work.
    Updating(Supervisor),
    /// Listing the environments that exist.
    ListingEnvironments,
    /// Creating the environment.
    CreatingEnvironment,
    /// Cloning the application.
    Cloning,
    /// Installing what the application depends on.
    InstallingDependencies,
    /// The operator is asked whether to use the GPU variant of the numeric
    /// library.
    AskingCuda,
    /// Removing the numeric library.
    UninstallingTorch,
    /// Installing the GPU variant of the numeric library.
    InstallingCudaTorch,
    /// Deleting a leftover file.
    Removing(Leftover),
    /// The leftover file could not be deleted. Holds the reason.
    RemoveFailed(String),
    /// Starting the application.
    Launching,
    /// The application runs; the program ends well.
    Finished,
    /// A step of the set-up failed; the program ends with an error.
    Aborted(Fatal, String),
}

/// A stage as a mathematical value.
pub ghost enum StageView {
    ProbingConda,
    CondaMissing,
    Installing(Package),
    Installed(Package),
    InstallFailed(Package),
    Brewing,
    Brewed,
    BrewFailed,
    ProbingGit,
    ProbingCopy,
    CopyFound,
    AskingUpdate,
    Updating(SupervisorView),
    ListingEnvironments,
    CreatingEnvironment,
    Cloning,
    InstallingDependencies,
    AskingCuda,
    UninstallingTorch,
    InstallingCudaTorch,
    Removing(Leftover),
    RemoveFailed(Seq<char>),
    Launching,
    Finished,
    Aborted(Fatal, Seq<char>),
}

impl View for Stage {
    type V = StageView;

    open spec fn view(&self) -> StageView {
        match self {
            Stage::ProbingConda => StageView::ProbingConda,
            Stage::CondaMissing => StageView::CondaMissing,
            Stage::Installing(package) => StageView::Installing(*package),
            Stage::Installed(package) => StageView::Installed(*package),
            Stage::InstallFailed(package) => StageView::InstallFailed(*package),
            Stage::Brewing => StageView::Brewing,
            Stage::Brewed => StageView::Brewed,
            Stage::BrewFailed => StageView::BrewFailed,
            Stage::ProbingGit => StageView::ProbingGit,
            Stage::ProbingCopy => StageView::ProbingCopy,
            Stage::CopyFound => StageView::CopyFound,
            Stage::AskingUpdate => StageView::AskingUpdate,
            Stage::Updating(supervisor) => StageView::Updating(supervisor@),
            Stage::ListingEnvironments => StageView::ListingEnvironments,
            Stage::CreatingEnvironment => StageView::CreatingEnvironment,
            Stage::Cloning => StageView::Cloning,
            Stage::InstallingDependencies => StageView::InstallingDependencies,
            Stage::AskingCuda => StageView::AskingCuda,
            Stage::UninstallingTorch => StageView::UninstallingTorch,
            Stage::InstallingCudaTorch => StageView::InstallingCudaTorch,
            Stage::Removing(leftover) => StageView::Removing(*leftover),
            Stage::RemoveFailed(reason) => StageView::RemoveFailed(reason@),
            Stage::Launching => StageView::Launching,
            Stage::Finished => StageView::Finished,
            Stage::Aborted(fatal, reason) => StageView::Aborted(*fatal, reason@),
        }
    }
}

impl Clone for Stage {
    fn clone(&self) -> (copy: Stage)
        ensures
            copy@ == self@,
    {
        match self {
            Stage::ProbingConda => Stage::ProbingConda,
            Stage::CondaMissing => Stage::CondaMissing,
            Stage::Installing(package) => Stage::Installing(*package),
            Stage::Installed(package) => Stage::Installed(*package),
            Stage::InstallFailed(package) => Stage::InstallFailed(*package),
            Stage::Brewing => Stage::Brewing,
            Stage::Brewed => Stage::Brewed,
            Stage::BrewFailed => Stage::BrewFailed,
            Stage::ProbingGit => Stage::ProbingGit,
            Stage::ProbingCopy => Stage::ProbingCopy,
            Stage::CopyFound => Stage::CopyFound,
            Stage::AskingUpdate => Stage::AskingUpdate,
            Stage::Updating(supervisor) => Stage::Updating(supervisor.clone()),
            Stage::ListingEnvironments => Stage::ListingEnvironments,
            Stage::CreatingEnvironment => Stage::CreatingEnvironment,
            Stage::Cloning => Stage::Cloning,
            Stage::InstallingDependencies => Stage::InstallingDependencies,
            Stage::AskingCuda => Stage::AskingCuda,
            Stage::UninstallingTorch => Stage::UninstallingTorch,
            Stage::InstallingCudaTorch => Stage::InstallingCudaTorch,
            Stage::Removing(leftover) => Stage::Removing(*leftover),
            Stage::RemoveFailed(reason) => Stage::RemoveFailed(reason.clone()),
            Stage::Launching => Stage::Launching,
            Stage::Finished => Stage::Finished,
            Stage::Aborted(fatal, reason) => Stage::Aborted(*fatal, reason.clone()),
        }
    }
}

/// One run of the bootstrapper.
#[derive(Debug, PartialEq, Eq)]
pub struct Bootstrap {
    /// The settings of the run.
    pub config: Config,
    /// The argument vector that this process was started with.
    pub argv: Vec<String>,
    /// Where the run stands.
    pub stage: Stage,
}

/// A run as a mathematical value.
pub ghost struct BootstrapView {
    pub config: ConfigView,
    pub argv: Seq<Seq<char>>,
    pub stage: StageView,
}

impl View for Bootstrap {
    type V = BootstrapView;

    open spec fn view(&self) -> BootstrapView {
        BootstrapView { config: self.config@, argv: texts(self.argv@), stage: self.stage@ }
    }
}

impl Clone for Bootstrap {
    fn clone(&self) -> (copy: Bootstrap)
        ensures
            copy@ == self@,
    {
        Bootstrap {
            config: self.config.clone(),
            argv: self.argv.clone(),
            stage: self.stage.clone(),
        }
    }
}

/// A run before anything was done.
pub open spec fn initial(config: ConfigView, argv: Seq<Seq<char>>) -> BootstrapView {
    BootstrapView { config, argv, stage: StageView::ProbingConda }
}

/// The command was started and reported success.
pub open spec fn ran_well(run: Result<ProcessOutputView, Seq<char>>) -> bool {
    run matches Ok(output) && output.succeeded
}

/// What follows once the environment manager is there: on Windows the
/// version-control tool is looked for, elsewhere it is taken to be there.
pub open spec fn after_conda(platform: Platform) -> StageView {
    if platform == Platform::Windows {
        StageView::ProbingGit
    } else {
        StageView::ProbingCopy
    }
}

/// How a missing environment manager is dealt with: installed by the
/// system's package manager where there is one, left alone elsewhere.
pub open spec fn after_conda_missing(platform: Platform) -> StageView {
    match platform {
        Platform::Windows => StageView::Installing(Package::Miniconda),
        Platform::MacOs => StageView::Brewing,
        _ => after_conda(platform),
    }
}

/// What follows the installation of a package.
pub open spec fn after_install(platform: Platform, package: Package) -> StageView {
    match package {
        Package::Miniconda => after_conda(platform),
        Package::Git => StageView::ProbingCopy,
    }
}

/// What follows the installation of the dependencies: the question for
/// the GPU variant where there is one, the clean-up where there is none.
pub open spec fn after_dependencies(platform: Platform) -> StageView {
    match platform {
        Platform::Windows => StageView::AskingCuda,
        Platform::Linux => StageView::AskingCuda,
        Platform::MacOs => StageView::Removing(Leftover::CompiledVisualizer),
        Platform::Other => StageView::Launching,
    }
}

/// Where the run stands with the supervisor in the given state: at the
/// launch once the supervisor lets the program go on, with the supervisor
/// until then.
pub open spec fn after_supervisor(supervisor: SupervisorView) -> StageView {
    if supervisor.phase is Continue {
        StageView::Launching
    } else {
        StageView::Updating(supervisor)
    }
}

/// A step that must be started: `onward` where it was, the end of the
/// program where it was not. Its exit status is not looked at.
pub open spec fn or_abort(
    run: Result<ProcessOutputView, Seq<char>>,
    fatal: Fatal,
    onward: StageView,
) -> StageView {
    match run {
        Ok(_) => onward,
        Err(reason) => StageView::Aborted(fatal, reason),
    }
}

/// The stage that follows when `event` arrives. An event that does not
/// answer the stage's directive changes nothing.
pub open spec fn next_stage(b: BootstrapView, event: EventView) -> StageView {
    match b.stage {
        StageView::ProbingConda => match event {
            EventView::Ran(Ok(_)) => after_conda(b.config.platform),
            EventView::Ran(Err(_)) => StageView::CondaMissing,
            _ => b.stage,
        },
        StageView::CondaMissing => match event {
            EventView::Resumed => after_conda_missing(b.config.platform),
            _ => b.stage,
        },
        StageView::Installing(package) => match event {
            EventView::Ran(run) => if ran_well(run) {
                StageView::Installed(package)
            } else {
                StageView::InstallFailed(package)
            },
            _ => b.stage,
        },
        StageView::Installed(package) => match event {
            EventView::Resumed => after_install(b.config.platform, package),
            _ => b.stage,
        },
        StageView::InstallFailed(_) => b.stage,
        StageView::Brewing => match event {
            EventView::Ran(run) => if ran_well(run) {
                StageView::Brewed
            } else {
                StageView::BrewFailed
            },
            _ => b.stage,
        },
        StageView::Brewed => match event {
            EventView::Resumed => after_conda(b.config.platform),
            _ => b.stage,
        },
        StageView::BrewFailed => b.stage,
        StageView::ProbingGit => match event {
            EventView::Ran(Ok(_)) => StageView::ProbingCopy,
            EventView::Ran(Err(_)) => StageView::Installing(Package::Git),
            _ => b.stage,
        },
        StageView::ProbingCopy => match event {
            EventView::Probed(exists) => if exists {
                StageView::CopyFound
            } else {
                StageView::ListingEnvironments
            },
            _ => b.stage,
        },
        StageView::CopyFound => match event {
            EventView::Resumed => StageView::AskingUpdate,
            _ => b.stage,
        },
        StageView::AskingUpdate => match event {
            EventView::Answered(line) => if is_affirmative(line) {
                StageView::Updating(crate::supervisor::initial(b.config.copy, b.argv))
            } else {
                StageView::Launching
            },
            _ => b.stage,
        },
        StageView::Updating(supervisor) => after_supervisor(
            crate::supervisor::next(supervisor, event),
        ),
        StageView::ListingEnvironments => match event {
            EventView::Ran(Ok(output)) => if occurs_in(b.config.environment, output.stdout) {
                StageView::Cloning
            } else {
                StageView::CreatingEnvironment
            },
            EventView::Ran(Err(reason)) => StageView::Aborted(Fatal::ListEnvironments, reason),
            _ => b.stage,
        },
        StageView::CreatingEnvironment => match event {
            EventView::Ran(run) => or_abort(run, Fatal::CreateEnvironment, StageView::Cloning),
            _ => b.stage,
        },
        StageView::Cloning => match event {
            EventView::Ran(run) => or_abort(
                run,
                Fatal::CloneRepository,
                StageView::InstallingDependencies,
            ),
            _ => b.stage,
        },
        StageView::InstallingDependencies => match event {
            EventView::Ran(run) => or_abort(
                run,
                Fatal::InstallDependencies,
                after_dependencies(b.config.platform),
            ),
            _ => b.stage,
        },
        StageView::AskingCuda => match event {
            EventView::Answered(line) => if is_affirmative(line) {
                StageView::UninstallingTorch
            } else {
                StageView::Removing(Leftover::CompiledVisualizer)
            },
            _ => b.stage,
        },
        StageView::UninstallingTorch => match event {
            EventView::Ran(run) => or_abort(
                run,
                Fatal::UninstallTorch,
                StageView::InstallingCudaTorch,
            ),
            _ => b.stage,
        },
        StageView::InstallingCudaTorch => match event {
            EventView::Ran(run) => or_abort(
                run,
                Fatal::InstallCudaTorch,
                StageView::Removing(Leftover::SourceVisualizer),
            ),
            _ => b.stage,
        },
        StageView::Removing(_) => match event {
            EventView::Removed(Ok(_)) => StageView::Launching,
            EventView::Removed(Err(reason)) => StageView::RemoveFailed(reason),
            _ => b.stage,
        },
        StageView::RemoveFailed(_) => match event {
            EventView::Resumed => StageView::Launching,
            _ => b.stage,
        },
        StageView::Launching => match event {
            EventView::Spawned(Ok(_)) => StageView::Finished,
            EventView::Spawned(Err(reason)) => StageView::Aborted(Fatal::Launch, reason),
            _ => b.stage,
        },
        StageView::Finished => b.stage,
        StageView::Aborted(_, _) => b.stage,
    }
}

/// The run after `event`.
pub open spec fn next(b: BootstrapView, event: EventView) -> BootstrapView {
    BootstrapView { config: b.config, argv: b.argv, stage: next_stage(b, event) }
}

/// The action that runs `command` to its end; with `capture` its output
/// is collected, without it the operator sees it.
pub open spec fn run(command: CommandLineView, capture: bool) -> ActionView {
    ActionView::Run { command, capture }
}

/// What is to be done in the present stage.
pub open spec fn directive_of(b: BootstrapView) -> DirectiveView {
    let c = b.config;
    match b.stage {
        StageView::ProbingConda => silently(run(version_probe(c.conda), true)),
        StageView::CondaMissing => saying(plain(Tone::Warning, CONDA_MISSING@), ActionView::Resume),
        StageView::Installing(package) => saying(
            installing(package_id(package)),
            run(winget_install(package_id(package)), false),
        ),
        StageView::Installed(package) => saying(
            installed(package_id(package)),
            ActionView::Resume,
        ),
        StageView::InstallFailed(package) => saying(
            install_failed(package_id(package)),
            ActionView::Exit(EXIT_FAILURE),
        ),
        StageView::Brewing => saying(
            plain(Tone::Info, BREW_INSTALLING@),
            run(brew_install_miniconda(), false),
        ),
        StageView::Brewed => saying(plain(Tone::Success, BREW_INSTALLED@), ActionView::Resume),
        StageView::BrewFailed => saying(
            plain(Tone::Failure, BREW_FAILED@),
            ActionView::Exit(EXIT_FAILURE),
        ),
        StageView::ProbingGit => silently(run(version_probe(GIT@), true)),
        StageView::ProbingCopy => silently(ActionView::Probe(c.copy)),
        StageView::CopyFound => saying(plain(Tone::Success, COPY_FOUND@), ActionView::Resume),
        StageView::AskingUpdate => saying(plain(Tone::Info, ASK_UPDATE@), ActionView::Ask),
        StageView::Updating(supervisor) => crate::supervisor::directive_of(supervisor),
        StageView::ListingEnvironments => silently(run(list_environments(c.conda), true)),
        StageView::CreatingEnvironment => silently(
            run(create_environment(c.conda, c.environment), false),
        ),
        StageView::Cloning => silently(run(clone_repository(), false)),
        StageView::InstallingDependencies => silently(
            run(install_requirements(c.python, c.copy), false),
        ),
        StageView::AskingCuda => saying(plain(Tone::Info, ASK_CUDA@), ActionView::Ask),
        StageView::UninstallingTorch => silently(run(uninstall_torch(c.python), false)),
        StageView::InstallingCudaTorch => silently(run(install_cuda_torch(c.python), false)),
        StageView::Removing(leftover) => silently(ActionView::Remove(leftover_path(leftover))),
        StageView::RemoveFailed(reason) => saying(remove_failed(reason), ActionView::Resume),
        StageView::Launching => saying(
            plain(Tone::Success, LAUNCHING@),
            ActionView::Spawn(launch_application(c.python, c.copy)),
        ),
        StageView::Finished => silently(ActionView::Exit(EXIT_SUCCESS)),
        StageView::Aborted(fatal, reason) => saying(
            fatal_line(fatal, reason),
            ActionView::Exit(EXIT_FAILURE),
        ),
    }
}

impl Package {
    /// The name by which the package manager knows this package.
    pub fn id(self) -> (id: &'static str)
        ensures
            id@ == package_id(self),
    {
        match self {
            Package::Miniconda => MINICONDA_ID,
            Package::Git => GIT_ID,
        }
    }
}

impl Leftover {
    /// The path of this file.
    pub fn path(self) -> (path: &'static str)
        ensures
            path@ == leftover_path(self),
    {
        match self {
            Leftover::SourceVisualizer => SOURCE_VISUALIZER,
            Leftover::CompiledVisualizer => COMPILED_VISUALIZER,
        }
    }
}

impl Stage {
    /// What follows once the environment manager is there.
    pub fn after_conda(platform: Platform) -> (stage: Stage)
        ensures
            stage@ == after_conda(platform),
    {
        match platform {
            Platform::Windows => Stage::ProbingGit,
            _ => Stage::ProbingCopy,
        }
    }

    /// How a missing environment manager is dealt with.
    pub fn after_conda_missing(platform: Platform) -> (stage: Stage)
        ensures
            stage@ == after_conda_missing(platform),
    {
        match platform {
            Platform::Windows => Stage::Installing(Package::Miniconda),
            Platform::MacOs => Stage::Brewing,
            _ => Stage::after_conda(platform),
        }
    }

    /// What follows the installation of a package.
    pub fn after_install(platform: Platform, package: Package) -> (stage: Stage)
        ensures
            stage@ == after_install(platform, package),
    {
        match package {
            Package::Miniconda => Stage::after_conda(platform),
            Package::Git => Stage::ProbingCopy,
        }
    }

    /// What follows the installation of the dependencies.
    pub fn after_dependencies(platform: Platform) -> (stage: Stage)
        ensures
            stage@ == after_dependencies(platform),
    {
        match platform {
            Platform::Windows => Stage::AskingCuda,
            Platform::Linux => Stage::AskingCuda,
            Platform::MacOs => Stage::Removing(Leftover::CompiledVisualizer),
            Platform::Other => Stage::Launching,
        }
    }

    /// Where the run stands with the supervisor in the given state.
    pub fn after_supervisor(supervisor: Supervisor) -> (stage: Stage)
        ensures
            stage@ == after_supervisor(supervisor@),
    {
        let done = match &supervisor.phase {
            Phase::Continue(_) => true,
            _ => false,
        };
        if done {
            Stage::Launching
        } else {
            Stage::Updating(supervisor)
        }
    }

    /// `onward` where the step was started, the end of the program where
    /// it was not.
    pub fn or_abort(
        run: Result<ProcessOutput, String>,
        fatal: Fatal,
        onward: Stage,
    ) -> (stage: Stage)
        ensures
            stage@ == or_abort(run_view(run), fatal, onward@),
    {
        match run {
            Ok(_) => onward,
            Err(reason) => Stage::Aborted(fatal, reason),
        }
    }
}

/// Whether the command was started and reported success.
pub fn ran_well_of(run: &Result<ProcessOutput, String>) -> (well: bool)
    ensures
        well == ran_well(run_view(*run)),
{
    match run {
        Ok(output) => output.succeeded,
        Err(_) => false,
    }
}

impl Bootstrap {
    /// A run with the given settings, in a process started with `argv`.
    pub fn new(config: Config, argv: Vec<String>) -> (bootstrap: Bootstrap)
        ensures
            bootstrap@ == initial(config@, texts(argv@)),
    {
        Bootstrap { config, argv, stage: Stage::ProbingConda }
    }

    /// A run for the user who runs the process, on `platform`, started
    /// with `argv`.
    pub fn start(platform: Platform, argv: Vec<String>) -> (bootstrap: Bootstrap)
        ensures
            exists|user: Seq<char>|
                bootstrap@ == initial(config_for(platform, user, texts(argv@)), texts(argv@)),
    {
        let config = Config::for_current_user(platform, &argv);
        Bootstrap::new(config, argv)
    }

    /// What is to be done now.
    pub fn directive(&self) -> (directive: Directive)
        ensures
            directive@ == directive_of(self@),
    {
        let c = &self.config;
        match &self.stage {
            Stage::ProbingConda => Directive::silently(
                Action::Run {
                    command: CommandLine::version_probe(c.conda.as_str()),
                    capture: true,
                },
            ),
            Stage::CondaMissing => Directive::saying(
                StatusLine::plain(Tone::Warning, CONDA_MISSING),
                Action::Resume,
            ),
            Stage::Installing(package) => Directive::saying(
                StatusLine::installing(package.id()),
                Action::Run { command: CommandLine::winget_install(package.id()), capture: false },
            ),
            Stage::Installed(package) => Directive::saying(
                StatusLine::installed(package.id()),
                Action::Resume,
            ),
            Stage::InstallFailed(package) => Directive::saying(
                StatusLine::install_failed(package.id()),
                Action::Exit(EXIT_FAILURE),
            ),
            Stage::Brewing => Directive::saying(
                StatusLine::plain(Tone::Info, BREW_INSTALLING),
                Action::Run { command: CommandLine::brew_install_miniconda(), capture: false },
            ),
            Stage::Brewed => Directive::saying(
                StatusLine::plain(Tone::Success, BREW_INSTALLED),
                Action::Resume,
            ),
            Stage::BrewFailed => Directive::saying(
                StatusLine::plain(Tone::Failure, BREW_FAILED),
                Action::Exit(EXIT_FAILURE),
            ),
            Stage::ProbingGit => Directive::silently(
                Action::Run { command: CommandLine::version_probe(GIT), capture: true },
            ),
            Stage::ProbingCopy => Directive::silently(Action::Probe(c.copy.clone())),
            Stage::CopyFound => Directive::saying(
                StatusLine::plain(Tone::Success, COPY_FOUND),
                Action::Resume,
            ),
            Stage::AskingUpdate => Directive::saying(
                StatusLine::plain(Tone::Info, ASK_UPDATE),
                Action::Ask,
            ),
            Stage::Updating(supervisor) => supervisor.directive(),
            Stage::ListingEnvironments => Directive::silently(
                Action::Run {
                    command: CommandLine::list_environments(c.conda.as_str()),
                    capture: true,
                },
            ),
            Stage::CreatingEnvironment => Directive::silently(
                Action::Run {
                    command: CommandLine::create_environment(
                        c.conda.as_str(),
                        c.environment.as_str(),
                    ),
                    capture: false,
                },
            ),
            Stage::Cloning => Directive::silently(
                Action::Run { command: CommandLine::clone_repository(), capture: false },
            ),
            Stage::InstallingDependencies => Directive::silently(
                Action::Run {
                    command: CommandLine::install_requirements(c.python.as_str(), c.copy.as_str()),
                    capture: false,
                },
            ),
            Stage::AskingCuda => Directive::saying(
                StatusLine::plain(Tone::Info, ASK_CUDA),
                Action::Ask,
            ),
            Stage::UninstallingTorch => Directive::silently(
                Action::Run {
                    command: CommandLine::uninstall_torch(c.python.as_str()),
                    capture: false,
                },
            ),
            Stage::InstallingCudaTorch => Directive::silently(
                Action::Run {
                    command: CommandLine::install_cuda_torch(c.python.as_str()),
                    capture: false,
                },
            ),
            Stage::Removing(leftover) => Directive::silently(
                Action::Remove(leftover.path().to_owned()),
            ),
            Stage::RemoveFailed(reason) => Directive::saying(
                StatusLine::remove_failed(reason.as_str()),
                Action::Resume,
            ),
            Stage::Launching => Directive::saying(
                StatusLine::plain(Tone::Success, LAUNCHING),
                Action::Spawn(CommandLine::launch_application(c.python.as_str(), c.copy.as_str())),
            ),
            Stage::Finished => Directive::silently(Action::Exit(EXIT_SUCCESS)),
            Stage::Aborted(fatal, reason) => Directive::saying(
                fatal.line(reason.as_str()),
                Action::Exit(EXIT_FAILURE),
            ),
        }
    }

    /// Takes what carrying out the directive brought and moves on.
    pub fn advance(self, event: Event) -> (after: Bootstrap)
        ensures
            after@ == next(self@, event@),
    {
        let Bootstrap { config, argv, stage } = self;
        let platform = config.platform;
        let stage = match stage {
            Stage::ProbingConda => match event {
                Event::Ran(Ok(_)) => Stage::after_conda(platform),
                Event::Ran(Err(_)) => Stage::CondaMissing,
                _ => Stage::ProbingConda,
            },
            Stage::CondaMissing => match event {
                Event::Resumed => Stage::after_conda_missing(platform),
                _ => Stage::CondaMissing,
            },
            Stage::Installing(package) => match event {
                Event::Ran(run) => if ran_well_of(&run) {
                    Stage::Installed(package)
                } else {
                    Stage::InstallFailed(package)
                },
                _ => Stage::Installing(package),
            },
            Stage::Installed(package) => match event {
                Event::Resumed => Stage::after_install(platform, package),
                _ => Stage::Installed(package),
            },
            Stage::InstallFailed(package) => Stage::InstallFailed(package),
            Stage::Brewing => match event {
                Event::Ran(run) => if ran_well_of(&run) {
                    Stage::Brewed
                } else {
                    Stage::BrewFailed
                },
                _ => Stage::Brewing,
            },
            Stage::Brewed => match event {
                Event::Resumed => Stage::after_conda(platform),
                _ => Stage::Brewed,
            },
            Stage::BrewFailed => Stage::BrewFailed,
            Stage::ProbingGit => match event {
                Event::Ran(Ok(_)) => Stage::ProbingCopy,
                Event::Ran(Err(_)) => Stage::Installing(Package::Git),
                _ => Stage::ProbingGit,
            },
            Stage::ProbingCopy => match event {
                Event::Probed(exists) => if exists {
                    Stage::CopyFound
                } else {
                    Stage::ListingEnvironments
                },
                _ => Stage::ProbingCopy,
            },
            Stage::CopyFound => match event {
                Event::Resumed => Stage::AskingUpdate,
                _ => Stage::CopyFound,
            },
            Stage::AskingUpdate => match event {
                Event::Answered(line) => if is_yes(line.as_str()) {
                    Stage::Updating(Supervisor::new(config.copy.clone(), argv.clone()))
                } else {
                    Stage::Launching
                },
                _ => Stage::AskingUpdate,
            },
            Stage::Updating(supervisor) => Stage::after_supervisor(supervisor.advance(event)),
            Stage::ListingEnvironments => match event {
                Event::Ran(Ok(output)) => if text_contains(
                    output.stdout.as_str(),
                    config.environment.as_str(),
                ) {
                    Stage::Cloning
                } else {
                    Stage::CreatingEnvironment
                },
                Event::Ran(Err(reason)) => Stage::Aborted(Fatal::ListEnvironments, reason),
                _ => Stage::ListingEnvironments,
            },
            Stage::CreatingEnvironment => match event {
                Event::Ran(run) => Stage::or_abort(run, Fatal::CreateEnvironment, Stage::Cloning),
                _ => Stage::CreatingEnvironment,
            },
            Stage::Cloning => match event {
                Event::Ran(run) => Stage::or_abort(
                    run,
                    Fatal::CloneRepository,
                    Stage::InstallingDependencies,
                ),
                _ => Stage::Cloning,
            },
            Stage::InstallingDependencies => match event {
                Event::Ran(run) => Stage::or_abort(
                    run,
                    Fatal::InstallDependencies,
                    Stage::after_dependencies(platform),
                ),
                _ => Stage::InstallingDependencies,
            },
            Stage::AskingCuda => match event {
                Event::Answered(line) => if is_yes(line.as_str()) {
                    Stage::UninstallingTorch
                } else {
                    Stage::Removing(Leftover::CompiledVisualizer)
                },
                _ => Stage::AskingCuda,
            },
            Stage::UninstallingTorch => match event {
                Event::Ran(run) => Stage::or_abort(
                    run,
                    Fatal::UninstallTorch,
                    Stage::InstallingCudaTorch,
                ),
                _ => Stage::UninstallingTorch,
            },
            Stage::InstallingCudaTorch => match event {
                Event::Ran(run) => Stage::or_abort(
                    run,
                    Fatal::InstallCudaTorch,
                    Stage::Removing(Leftover::SourceVisualizer),
                ),
                _ => Stage::InstallingCudaTorch,
            },
            Stage::Removing(leftover) => match event {
                Event::Removed(Ok(_)) => Stage::Launching,
                Event::Removed(Err(reason)) => Stage::RemoveFailed(reason),
                _ => Stage::Removing(leftover),
            },
            Stage::RemoveFailed(reason) => match event {
                Event::Resumed => Stage::Launching,
                _ => Stage::RemoveFailed(reason),
            },
            Stage::Launching => match event {
                Event::Spawned(Ok(_)) => Stage::Finished,
                Event::Spawned(Err(reason)) => Stage::Aborted(Fatal::Launch, reason),
                _ => Stage::Launching,
            },
            Stage::Finished => Stage::Finished,
            Stage::Aborted(fatal, reason) => Stage::Aborted(fatal, reason),
        };
        Bootstrap { config, argv, stage }
    }
}

/// What is to be done when the operator interrupts the program, whatever
/// it was doing: the cancellation is shown, once, and the process ends
/// with the failure code.
pub open spec fn interrupt_directive() -> DirectiveView {
    saying(plain(Tone::Warning, INTERRUPTED@), ActionView::Exit(EXIT_FAILURE))
}

/// The answer to an interrupt.
pub fn on_interrupt() -> (directive: Directive)
    ensures
        directive@ == interrupt_directive(),
{
    Directive::saying(StatusLine::plain(Tone::Warning, INTERRUPTED), Action::Exit(EXIT_FAILURE))
}

/// The stages in which nothing is left to decide: the process ends.
pub open spec fn is_terminal(stage: StageView) -> bool {
    ||| stage is Finished
    ||| stage is Aborted
    ||| stage is InstallFailed
    ||| stage is BrewFailed
    ||| (stage matches StageView::Updating(supervisor) && (supervisor.phase is HandedOff
        || supervisor.phase is Aborted))
}

/// How many more events the run can take, at most, before the process
/// ends.
pub open spec fn steps_left(stage: StageView) -> nat {
    match stage {
        StageView::ProbingConda => 18,
        StageView::CondaMissing => 17,
        StageView::Installing(Package::Miniconda) => 16,
        StageView::Brewing => 16,
        StageView::Installed(Package::Miniconda) => 15,
        StageView::Brewed => 15,
        StageView::ProbingGit => 14,
        StageView::Installing(Package::Git) => 13,
        StageView::Installed(Package::Git) => 12,
        StageView::ProbingCopy => 11,
        StageView::ListingEnvironments => 10,
        StageView::CreatingEnvironment => 9,
        StageView::CopyFound => 9,
        StageView::Cloning => 8,
        StageView::AskingUpdate => 8,
        StageView::InstallingDependencies => 7,
        StageView::AskingCuda => 6,
        StageView::UninstallingTorch => 5,
        StageView::InstallingCudaTorch => 4,
        StageView::Removing(_) => 3,
        StageView::RemoveFailed(_) => 2,
        StageView::Launching => 1,
        StageView::Updating(supervisor) => if supervisor.phase is HandedOff
            || supervisor.phase is Aborted {
            0
        } else {
            2 + crate::supervisor::steps_left(supervisor.phase)
        },
        StageView::Finished => 0,
        StageView::Aborted(_, _) => 0,
        StageView::InstallFailed(_) => 0,
        StageView::BrewFailed => 0,
    }
}

/// The run after a sequence of events, taken in order.
pub open spec fn after(b: BootstrapView, events: Seq<EventView>) -> BootstrapView
    decreases events.len(),
{
    if events.len() == 0 {
        b
    } else {
        after(next(b, events[0]), events.drop_first())
    }
}

/// The update check begins when the operator answers yes to the question
/// for it, and at no other time; it is then made for the working copy and
/// the invocation of this run.
pub proof fn lemma_update_is_asked_for(b: BootstrapView, event: EventView)
    requires
        !(b.stage is Updating),
        next(b, event).stage is Updating,
    ensures
        b.stage is AskingUpdate,
        event matches EventView::Answered(line) && is_affirmative(line),
        next(b, event).stage == StageView::Updating(
            crate::supervisor::initial(b.config.copy, b.argv),
        ),
{
}

/// While the supervisor is at work the run does what the supervisor says.
pub proof fn lemma_supervisor_directs(b: BootstrapView)
    requires
        b.stage is Updating,
    ensures
        directive_of(b) == crate::supervisor::directive_of(b.stage->Updating_0),
{
}

/// Whatever the update check comes to short of an update, the application
/// is launched next: where the working copy is missing, where it is
/// current, and where the check could not be run.
pub proof fn lemma_launch_follows_check(b: BootstrapView, supervisor: SupervisorView)
    requires
        b.stage == StageView::Updating(supervisor),
        supervisor.phase is NoCopy || supervisor.phase is Current || supervisor.phase
            is CheckFailed,
    ensures
        ({
            let launching = next(b, EventView::Resumed);
            &&& launching.stage == StageView::Launching
            &&& directive_of(launching).action == ActionView::Spawn(
                launch_application(b.config.python, b.config.copy),
            )
        }),
{
}

/// A missing working copy, met by the update check, starts no external
/// process before the launch.
pub proof fn lemma_absent_copy_reaches_launcher(b: BootstrapView)
    requires
        b.stage == StageView::Updating(crate::supervisor::initial(b.config.copy, b.argv)),
    ensures
        ({
            let absent = next(b, EventView::Probed(false));
            let launching = next(absent, EventView::Resumed);
            &&& !crate::supervisor::starts_process(directive_of(b))
            &&& absent.stage is Updating
            &&& absent.stage->Updating_0.phase == PhaseView::NoCopy
            &&& !crate::supervisor::starts_process(directive_of(absent))
            &&& launching.stage == StageView::Launching
        }),
{
}

/// An update check that could not be run does not end the program: the
/// reason is shown and the application is launched.
pub proof fn lemma_failed_check_reaches_launcher(
    b: BootstrapView,
    supervisor: SupervisorView,
    reason: Seq<char>,
)
    requires
        b.stage == StageView::Updating(supervisor),
        supervisor.phase == PhaseView::Checking,
    ensures
        ({
            let failed = next(b, EventView::Ran(Err(reason)));
            let launching = next(failed, EventView::Resumed);
            &&& failed.stage is Updating
            &&& failed.stage->Updating_0.phase == PhaseView::CheckFailed(reason)
            &&& !(directive_of(failed).action is Exit)
            &&& launching.stage == StageView::Launching
        }),
{
}

/// After an update the program is started afresh with the arguments of
/// this invocation, and this process ends with the success code without
/// launching the application itself.
pub proof fn lemma_update_hands_over(
    b: BootstrapView,
    supervisor: SupervisorView,
    executable: Seq<char>,
    event: EventView,
)
    requires
        b.stage == StageView::Updating(supervisor),
        supervisor.phase == PhaseView::Updated,
        supervisor.argv == b.argv,
    ensures
        ({
            let restarting = next(b, EventView::Resumed);
            let located = next(restarting, EventView::Located(Ok(executable)));
            let done = next(located, EventView::Spawned(Ok(())));
            &&& directive_of(restarting).action == ActionView::Locate
            &&& directive_of(located) == silently(
                ActionView::Spawn(command(executable, trailing(b.argv), None)),
            )
            &&& directive_of(done) == silently(ActionView::Exit(EXIT_SUCCESS))
            &&& next(done, event) == done
        }),
{
}

/// The working copy is set up only where it is missing, and where it is
/// set up no update check is made: every stage of the set-up leads to
/// another one, to the launch, or to the end of the program.
pub proof fn lemma_set_up_skips_update(b: BootstrapView, event: EventView)
    requires
        b.stage is ListingEnvironments || b.stage is CreatingEnvironment || b.stage is Cloning
            || b.stage is InstallingDependencies || b.stage is AskingCuda || b.stage
            is UninstallingTorch || b.stage is InstallingCudaTorch || b.stage is Removing
            || b.stage is RemoveFailed,
    ensures
        !(next(b, event).stage is Updating),
        !(next(b, event).stage is AskingUpdate),
        !(next(b, event).stage is CopyFound),
{
}

/// Every event that is taken brings the end nearer: the run is a straight
/// line of eighteen events at most, and it is over exactly where nothing
/// is left to decide.
pub proof fn lemma_progress(b: BootstrapView, event: EventView)
    ensures
        next(b, event) == b || steps_left(next(b, event).stage) < steps_left(b.stage),
        steps_left(b.stage) == 0 <==> is_terminal(b.stage),
        steps_left(b.stage) <= 18,
{
    if b.stage is Updating {
        crate::supervisor::lemma_progress(b.stage->Updating_0, event);
    }
}

/// The process is ended exactly in the terminal stages: with the success
/// code once the application or the new process runs, with the failure
/// code after a failure.
pub proof fn lemma_exit_codes(b: BootstrapView)
    ensures
        directive_of(b).action is Exit <==> is_terminal(b.stage),
        directive_of(b).action is Exit ==> {
            let succeeded = b.stage is Finished || (b.stage matches StageView::Updating(
                supervisor,
            ) && supervisor.phase is HandedOff);
            directive_of(b).action == ActionView::Exit(
                if succeeded {
                    EXIT_SUCCESS
                } else {
                    EXIT_FAILURE
                },
            )
        },
{
}

/// In a terminal stage no event changes anything.
pub proof fn lemma_terminal_stages_stay(b: BootstrapView, event: EventView)
    requires
        is_terminal(b.stage),
    ensures
        next(b, event) == b,
{
}

/// A sequence of events never takes the run further from its end, and
/// once the process is to end nothing that arrives changes the run: it
/// keeps directing the same exit and no other action.
pub proof fn lemma_the_end_is_final(b: BootstrapView, events: Seq<EventView>)
    ensures
        steps_left(after(b, events).stage) <= steps_left(b.stage),
        is_terminal(b.stage) ==> after(b, events) == b,
    decreases events.len(),
{
    if events.len() > 0 {
        lemma_progress(b, events[0]);
        lemma_the_end_is_final(next(b, events[0]), events.drop_first());
    }
}

} // verus!
