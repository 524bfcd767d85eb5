//! The wording of every status line.

use crate::status::{StatusLine, StatusLineView, Tone};
use vstd::prelude::*;

verus! {

pub const INTERRUPTED: &'static str = "\nOperation interrupted by user. Exiting...";

pub const CONDA_MISSING: &'static str = "Conda is not installed. Installing Conda...";

pub const BREW_INSTALLING: &'static str = "Installing Miniconda3 on macOS via Homebrew...";

pub const BREW_INSTALLED: &'static str = "Miniconda3 installed successfully on macOS.";

pub const BREW_FAILED: &'static str =
    "Failed to install Miniconda3. Please install it manually and retry.";

pub const COPY_FOUND: &'static str = "The S2L repository already exists. Skipping setup steps.";

pub const ASK_UPDATE: &'static str =
    "Would you like to check for updates in the S2L folder? (y/n):";

pub const COPY_MISSING: &'static str = "S2L folder does not exist. Skipping self-update.";

pub const CHECKING: &'static str = "Checking for updates in the S2L folder...";

pub const UP_TO_DATE: &'static str = "No updates available in the S2L repository.";

pub const UPDATES_APPLIED: &'static str = "Updates have been applied to the S2L repository.";

pub const CHECK_FAILED: &'static str =
    "Failed to check for updates in the S2L folder. Error details:";

pub const RESTARTING: &'static str = "Restarting the script to use the updated repository...";

pub const ASK_CUDA: &'static str = "Do you want to use the CUDA variant of PyTorch? (y/n):";

pub const REMOVE_FAILED: &'static str = "Failed to delete roi_visualizer.cp311-win_amd64.pyd: ";

pub const LAUNCHING: &'static str = "Launching the application...";

/// The steps whose failure ends the program at once.
#[derive(Clone, Copy, Debug, PartialEq, Eq, Structural)]
pub enum Fatal {
    /// The path of the running executable could not be found.
    ExecutablePath,
    /// The program could not be started afresh.
    Relaunch,
    /// The environments could not be listed.
    ListEnvironments,
    /// The environment could not be created.
    CreateEnvironment,
    /// The application could not be cloned.
    CloneRepository,
    /// What the application depends on could not be installed.
    InstallDependencies,
    /// The numeric library could not be removed.
    UninstallTorch,
    /// The GPU-accelerated numeric library could not be installed.
    InstallCudaTorch,
    /// The application could not be started.
    Launch,
}

pub const NO_EXECUTABLE: &'static str = "Failed to get the current executable path";

pub const RELAUNCH_FAILED: &'static str = "Failed to relaunch the script";

pub const LIST_FAILED: &'static str = "Failed to list Conda environments";

pub const CREATE_FAILED: &'static str = "Failed to create Conda environment";

pub const CLONE_FAILED: &'static str = "Failed to clone the repository";

pub const DEPENDENCIES_FAILED: &'static str = "Failed to install Python dependencies";

pub const UNINSTALL_FAILED: &'static str = "Failed to uninstall Torch";

pub const CUDA_FAILED: &'static str = "Failed to install CUDA variant of PyTorch";

pub const LAUNCH_FAILED: &'static str = "Failed to launch the application";

/// The words that name a fatal failure.
pub open spec fn fatal_text(fatal: Fatal) -> Seq<char> {
    match fatal {
        Fatal::ExecutablePath => NO_EXECUTABLE@,
        Fatal::Relaunch => RELAUNCH_FAILED@,
        Fatal::ListEnvironments => LIST_FAILED@,
        Fatal::CreateEnvironment => CREATE_FAILED@,
        Fatal::CloneRepository => CLONE_FAILED@,
        Fatal::InstallDependencies => DEPENDENCIES_FAILED@,
        Fatal::UninstallTorch => UNINSTALL_FAILED@,
        Fatal::InstallCudaTorch => CUDA_FAILED@,
        Fatal::Launch => LAUNCH_FAILED@,
    }
}

/// The last line of a program that ends on a fatal failure: what failed,
/// and the reason below it.
pub open spec fn fatal_line(fatal: Fatal, reason: Seq<char>) -> StatusLineView {
    detailed(Tone::Failure, fatal_text(fatal), reason)
}

impl Fatal {
    /// The words that name this failure.
    pub fn text(self) -> (text: &'static str)
        ensures
            text@ == fatal_text(self),
    {
        match self {
            Fatal::ExecutablePath => NO_EXECUTABLE,
            Fatal::Relaunch => RELAUNCH_FAILED,
            Fatal::ListEnvironments => LIST_FAILED,
            Fatal::CreateEnvironment => CREATE_FAILED,
            Fatal::CloneRepository => CLONE_FAILED,
            Fatal::InstallDependencies => DEPENDENCIES_FAILED,
            Fatal::UninstallTorch => UNINSTALL_FAILED,
            Fatal::InstallCudaTorch => CUDA_FAILED,
            Fatal::Launch => LAUNCH_FAILED,
        }
    }

    /// The line to show before the program ends on this failure.
    pub fn line(self, reason: &str) -> (line: StatusLine)
        ensures
            line@ == fatal_line(self, reason@),
    {
        StatusLine::detailed(Tone::Failure, self.text(), reason)
    }
}

/// A line of one coloured text and no detail.
pub open spec fn plain(tone: Tone, text: Seq<char>) -> StatusLineView {
    StatusLineView { tone, text, detail: None }
}

/// A line of a coloured text with an uncoloured detail below it.
pub open spec fn detailed(tone: Tone, text: Seq<char>, detail: Seq<char>) -> StatusLineView {
    StatusLineView { tone, text, detail: Some(detail) }
}

/// The announcement that `package` is about to be installed.
pub open spec fn installing(package: Seq<char>) -> StatusLineView {
    plain(Tone::Info, "Installing "@ + package + " using winget..."@)
}

/// The confirmation that `package` was installed.
pub open spec fn installed(package: Seq<char>) -> StatusLineView {
    plain(Tone::Success, package + " installed successfully."@)
}

/// The complaint that `package` could not be installed.
pub open spec fn install_failed(package: Seq<char>) -> StatusLineView {
    plain(
        Tone::Failure,
        "Failed to install "@ + package + ". Please install it manually and retry."@,
    )
}

/// The complaint that a leftover file could not be deleted, with the
/// reason in the same colour.
pub open spec fn remove_failed(reason: Seq<char>) -> StatusLineView {
    plain(Tone::Failure, REMOVE_FAILED@ + reason)
}

/// The complaint that the update check could not be run, with the reason
/// below it.
pub open spec fn check_failed(reason: Seq<char>) -> StatusLineView {
    detailed(Tone::Failure, CHECK_FAILED@, reason)
}

impl StatusLine {
    /// A line that shows `text` in the colour of `tone`.
    pub fn plain(tone: Tone, text: &str) -> (line: StatusLine)
        ensures
            line@ == plain(tone, text@),
    {
        StatusLine::new(tone, text.to_owned())
    }

    /// A line that shows `text` in the colour of `tone` and `detail` below.
    pub fn detailed(tone: Tone, text: &str, detail: &str) -> (line: StatusLine)
        ensures
            line@ == detailed(tone, text@, detail@),
    {
        StatusLine::with_detail(tone, text.to_owned(), detail.to_owned())
    }

    /// Announces the installation of `package`.
    pub fn installing(package: &str) -> (line: StatusLine)
        ensures
            line@ == installing(package@),
    {
        let mut text = "Installing ".to_owned();
        text.append(package);
        text.append(" using winget...");
        StatusLine::new(Tone::Info, text)
    }

    /// Confirms the installation of `package`.
    pub fn installed(package: &str) -> (line: StatusLine)
        ensures
            line@ == installed(package@),
    {
        let mut text = package.to_owned();
        text.append(" installed successfully.");
        StatusLine::new(Tone::Success, text)
    }

    /// Says that `package` could not be installed.
    pub fn install_failed(package: &str) -> (line: StatusLine)
        ensures
            line@ == install_failed(package@),
    {
        let mut text = "Failed to install ".to_owned();
        text.append(package);
        text.append(". Please install it manually and retry.");
        StatusLine::new(Tone::Failure, text)
    }

    /// Says that a leftover file could not be deleted, and why.
    pub fn remove_failed(reason: &str) -> (line: StatusLine)
        ensures
            line@ == remove_failed(reason@),
    {
        let mut text = REMOVE_FAILED.to_owned();
        text.append(reason);
        StatusLine::new(Tone::Failure, text)
    }

    /// Says that the update check could not be run, and why.
    pub fn check_failed(reason: &str) -> (line: StatusLine)
        ensures
            line@ == check_failed(reason@),
    {
        StatusLine::detailed(Tone::Failure, CHECK_FAILED, reason)
    }
}

} // verus!
