use s2l_bootstrap::bootstrap::{
    on_interrupt, ran_well_of, Bootstrap, Leftover, Package, Stage,
};
use s2l_bootstrap::config::{Config, Platform};
use s2l_bootstrap::messages::Fatal;
use s2l_bootstrap::outcome::UpdateOutcome;
use s2l_bootstrap::process::{CommandLine, ProcessOutput};
use s2l_bootstrap::protocol::{Action, Directive, Event};
use s2l_bootstrap::status::{StatusLine, Tone};
use s2l_bootstrap::supervisor::{Phase, Supervisor};

const PYTHON: &str = "C:\\Users\\ada\\miniconda3\\envs\\vision\\python.exe";

fn strings(items: &[&str]) -> Vec<String> {
    items.iter().map(|s| s.to_string()).collect()
}

fn start(platform: Platform) -> Bootstrap {
    let argv = strings(&["boot", "vision"]);
    Bootstrap::new(Config::new(platform, "ada", &argv), argv)
}

fn at(platform: Platform, stage: Stage) -> Bootstrap {
    let mut b = start(platform);
    b.stage = stage;
    b
}

fn ok(succeeded: bool, stdout: &str) -> Event {
    Event::Ran(Ok(ProcessOutput { succeeded, stdout: stdout.to_string(), stderr: String::new() }))
}

fn failed(reason: &str) -> Event {
    Event::Ran(Err(reason.to_string()))
}

fn run(program: &str, args: &[&str], dir: Option<&str>, capture: bool) -> Action {
    Action::Run {
        command: CommandLine {
            program: program.to_string(),
            args: strings(args),
            working_dir: dir.map(|d| d.to_string()),
        },
        capture,
    }
}

fn say(tone: Tone, text: &str, action: Action) -> Directive {
    Directive { say: Some(StatusLine::plain(tone, text)), action }
}

fn quiet(action: Action) -> Directive {
    Directive { say: None, action }
}

fn all_platforms() -> [Platform; 4] {
    [Platform::Windows, Platform::MacOs, Platform::Linux, Platform::Other]
}

#[test]
fn the_run_begins_by_probing_the_environment_manager() {
    let b = start(Platform::Linux);
    assert_eq!(b.stage, Stage::ProbingConda);
    assert_eq!(
        b.directive(),
        quiet(run("~/miniconda3/condabin/conda", &["--version"], None, true))
    );
    let b = start(Platform::Windows);
    assert_eq!(
        b.directive(),
        quiet(run("C:\\Users\\ada\\Miniconda3\\condabin\\conda.bat", &["--version"], None, true))
    );
}

#[test]
fn a_manager_that_starts_counts_as_installed_whatever_it_reports() {
    for succeeded in [true, false] {
        assert_eq!(start(Platform::Linux).advance(ok(succeeded, "")).stage, Stage::ProbingCopy);
        assert_eq!(start(Platform::MacOs).advance(ok(succeeded, "")).stage, Stage::ProbingCopy);
        assert_eq!(start(Platform::Other).advance(ok(succeeded, "")).stage, Stage::ProbingCopy);
        assert_eq!(start(Platform::Windows).advance(ok(succeeded, "")).stage, Stage::ProbingGit);
    }
}

#[test]
fn a_missing_manager_is_installed_where_the_system_has_a_package_manager() {
    for platform in all_platforms() {
        let b = start(platform).advance(failed("not found"));
        assert_eq!(b.stage, Stage::CondaMissing);
        assert_eq!(
            b.directive(),
            say(Tone::Warning, "Conda is not installed. Installing Conda...", Action::Resume)
        );
    }
    let next = |platform| start(platform).advance(failed("x")).advance(Event::Resumed).stage;
    assert_eq!(next(Platform::Windows), Stage::Installing(Package::Miniconda));
    assert_eq!(next(Platform::MacOs), Stage::Brewing);
    assert_eq!(next(Platform::Linux), Stage::ProbingCopy);
    assert_eq!(next(Platform::Other), Stage::ProbingCopy);
}

#[test]
fn winget_installs_the_manager_and_then_git_is_looked_for() {
    let b = at(Platform::Windows, Stage::Installing(Package::Miniconda));
    assert_eq!(
        b.directive(),
        say(
            Tone::Info,
            "Installing Continuum.Miniconda3 using winget...",
            run("winget", &["install", "--id", "Continuum.Miniconda3", "-e", "--silent"], None, false)
        )
    );
    let b = b.advance(ok(true, ""));
    assert_eq!(b.stage, Stage::Installed(Package::Miniconda));
    assert_eq!(
        b.directive(),
        say(Tone::Success, "Continuum.Miniconda3 installed successfully.", Action::Resume)
    );
    let b = b.advance(Event::Resumed);
    assert_eq!(b.stage, Stage::ProbingGit);
    assert_eq!(b.directive(), quiet(run("git", &["--version"], None, true)));
}

#[test]
fn an_installation_that_fails_ends_the_program_with_code_one() {
    for event in [ok(false, ""), failed("winget is missing")] {
        let b = at(Platform::Windows, Stage::Installing(Package::Git)).advance(event);
        assert_eq!(b.stage, Stage::InstallFailed(Package::Git));
        assert_eq!(
            b.directive(),
            say(
                Tone::Failure,
                "Failed to install Git.Git. Please install it manually and retry.",
                Action::Exit(1)
            )
        );
        assert_eq!(b.clone().advance(Event::Resumed), b);
    }
}

#[test]
fn homebrew_installs_the_manager_on_macos() {
    let b = at(Platform::MacOs, Stage::Brewing);
    assert_eq!(
        b.directive(),
        say(
            Tone::Info,
            "Installing Miniconda3 on macOS via Homebrew...",
            run("brew", &["install", "miniconda"], None, false)
        )
    );
    let good = b.clone().advance(ok(true, ""));
    assert_eq!(good.stage, Stage::Brewed);
    assert_eq!(
        good.directive(),
        say(Tone::Success, "Miniconda3 installed successfully on macOS.", Action::Resume)
    );
    assert_eq!(good.advance(Event::Resumed).stage, Stage::ProbingCopy);
    for event in [ok(false, ""), failed("no brew")] {
        let bad = b.clone().advance(event);
        assert_eq!(bad.stage, Stage::BrewFailed);
        assert_eq!(
            bad.directive(),
            say(
                Tone::Failure,
                "Failed to install Miniconda3. Please install it manually and retry.",
                Action::Exit(1)
            )
        );
    }
}

#[test]
fn a_missing_git_is_installed_on_windows() {
    let b = at(Platform::Windows, Stage::ProbingGit);
    assert_eq!(b.clone().advance(ok(false, "")).stage, Stage::ProbingCopy);
    let b = b.advance(failed("not found"));
    assert_eq!(b.stage, Stage::Installing(Package::Git));
    assert_eq!(
        b.directive(),
        say(
            Tone::Info,
            "Installing Git.Git using winget...",
            run("winget", &["install", "--id", "Git.Git", "-e", "--silent"], None, false)
        )
    );
    let b = b.advance(ok(true, "")).advance(Event::Resumed);
    assert_eq!(b.stage, Stage::ProbingCopy);
    assert_eq!(b.directive(), quiet(Action::Probe("S2L".to_string())));
}

#[test]
fn an_existing_copy_skips_the_set_up_and_asks_for_an_update() {
    let b = at(Platform::Linux, Stage::ProbingCopy).advance(Event::Probed(true));
    assert_eq!(b.stage, Stage::CopyFound);
    assert_eq!(
        b.directive(),
        say(
            Tone::Success,
            "The S2L repository already exists. Skipping setup steps.",
            Action::Resume
        )
    );
    let b = b.advance(Event::Resumed);
    assert_eq!(b.stage, Stage::AskingUpdate);
    assert_eq!(
        b.directive(),
        say(
            Tone::Info,
            "Would you like to check for updates in the S2L folder? (y/n):",
            Action::Ask
        )
    );
}

#[test]
fn without_a_yes_the_application_is_launched_at_once() {
    for answer in ["n\n", "\n", "", "yes\n", "no"] {
        let b = at(Platform::Linux, Stage::AskingUpdate).advance(Event::Answered(answer.to_string()));
        assert_eq!(b.stage, Stage::Launching, "{answer:?}");
    }
}

#[test]
fn a_yes_starts_the_supervisor_for_this_copy_and_invocation() {
    for answer in ["y\n", "Y\r\n", " y "] {
        let b = at(Platform::Linux, Stage::AskingUpdate).advance(Event::Answered(answer.to_string()));
        assert_eq!(
            b.stage,
            Stage::Updating(Supervisor::new("S2L".to_string(), strings(&["boot", "vision"]))),
            "{answer:?}"
        );
        assert_eq!(b.directive(), quiet(Action::Probe("S2L".to_string())));
    }
}

#[test]
fn copy_absent_at_the_check_still_reaches_the_launcher() {
    let b = at(Platform::Linux, Stage::AskingUpdate).advance(Event::Answered("y".to_string()));
    let b = b.advance(Event::Probed(false));
    assert_eq!(
        b.stage,
        Stage::Updating(Supervisor {
            copy: "S2L".to_string(),
            argv: strings(&["boot", "vision"]),
            phase: Phase::NoCopy,
        })
    );
    assert_eq!(
        b.directive(),
        say(Tone::Warning, "S2L folder does not exist. Skipping self-update.", Action::Resume)
    );
    let b = b.advance(Event::Resumed);
    assert_eq!(b.stage, Stage::Launching);
    assert_eq!(
        b.directive(),
        say(
            Tone::Success,
            "Launching the application...",
            Action::Spawn(CommandLine {
                program: PYTHON.to_string(),
                args: strings(&["main.py"]),
                working_dir: Some("S2L".to_string()),
            })
        )
    );
    let b = b.advance(Event::Spawned(Ok(())));
    assert_eq!(b.stage, Stage::Finished);
    assert_eq!(b.directive(), quiet(Action::Exit(0)));
}

#[test]
fn an_up_to_date_copy_is_launched_without_relaunch() {
    let mut b = at(Platform::Windows, Stage::AskingUpdate).advance(Event::Answered("y".to_string()));
    let mut actions = Vec::new();
    for event in [Event::Probed(true), ok(true, "Already up to date.\n"), Event::Resumed] {
        actions.push(b.directive().action);
        b = b.advance(event);
    }
    assert_eq!(b.stage, Stage::Launching);
    assert_eq!(
        actions,
        vec![
            Action::Probe("S2L".to_string()),
            run("git", &["pull", "--rebase"], Some("S2L"), true),
            Action::Resume,
        ]
    );
}

#[test]
fn an_updated_copy_hands_over_and_is_not_launched_by_this_process() {
    let mut b = at(Platform::Windows, Stage::AskingUpdate).advance(Event::Answered("y".to_string()));
    let events = [
        Event::Probed(true),
        ok(true, "Updating abc123..def456\n"),
        Event::Resumed,
        Event::Located(Ok("C:\\tools\\boot.exe".to_string())),
    ];
    for event in events {
        b = b.advance(event);
    }
    assert_eq!(
        b.directive(),
        quiet(Action::Spawn(CommandLine {
            program: "C:\\tools\\boot.exe".to_string(),
            args: strings(&["vision"]),
            working_dir: None,
        }))
    );
    let b = b.advance(Event::Spawned(Ok(())));
    assert_eq!(b.directive(), quiet(Action::Exit(0)));
    let again = b.clone().advance(Event::Resumed);
    assert_eq!(again, b);
}

#[test]
fn a_check_that_cannot_run_still_reaches_the_launcher() {
    let b = at(Platform::Linux, Stage::AskingUpdate).advance(Event::Answered("y".to_string()));
    let b = b.advance(Event::Probed(true)).advance(failed("program not found"));
    let d = b.directive();
    assert_eq!(d.action, Action::Resume);
    assert_eq!(d.say, Some(StatusLine::check_failed("program not found")));
    let b = b.advance(Event::Resumed);
    assert_eq!(b.stage, Stage::Launching);
}

#[test]
fn a_failed_relaunch_ends_the_program_with_code_one() {
    let sup = Supervisor {
        copy: "S2L".to_string(),
        argv: strings(&["boot", "vision"]),
        phase: Phase::Relaunching(None),
    };
    let b = at(Platform::Linux, Stage::Updating(sup)).advance(Event::Located(Err("gone".to_string())));
    assert_eq!(
        b.directive(),
        Directive {
            say: Some(Fatal::ExecutablePath.line("gone")),
            action: Action::Exit(1),
        }
    );
    assert_eq!(b.clone().advance(Event::Resumed), b);
}

#[test]
fn a_supervisor_that_is_done_gives_way_to_the_launch() {
    let sup = Supervisor {
        copy: "S2L".to_string(),
        argv: strings(&["boot"]),
        phase: Phase::Continue(UpdateOutcome::AlreadyCurrent),
    };
    assert_eq!(Stage::after_supervisor(sup.clone()), Stage::Launching);
    let b = at(Platform::Linux, Stage::Updating(sup)).advance(Event::Resumed);
    assert_eq!(b.stage, Stage::Launching);
    let busy = Supervisor { copy: "S2L".to_string(), argv: strings(&["boot"]), phase: Phase::Checking };
    assert_eq!(Stage::after_supervisor(busy.clone()), Stage::Updating(busy));
}

#[test]
fn a_missing_copy_is_set_up_from_the_list_of_environments() {
    let b = at(Platform::Linux, Stage::ProbingCopy).advance(Event::Probed(false));
    assert_eq!(b.stage, Stage::ListingEnvironments);
    assert_eq!(b.directive(), quiet(run("~/miniconda3/condabin/conda", &["env", "list"], None, true)));
    let listed = "# conda environments:\nbase  /home/ada/miniconda3\nvision  /home/ada/envs/vision\n";
    assert_eq!(b.clone().advance(ok(true, listed)).stage, Stage::Cloning);
    let other = "# conda environments:\nbase  /home/ada/miniconda3\n";
    let creating = b.clone().advance(ok(true, other));
    assert_eq!(creating.stage, Stage::CreatingEnvironment);
    assert_eq!(
        creating.directive(),
        quiet(run(
            "~/miniconda3/condabin/conda",
            &["create", "-n", "vision", "python=3.11.9", "-y"],
            None,
            false
        ))
    );
    assert_eq!(creating.advance(ok(false, "")).stage, Stage::Cloning);
    let aborted = b.advance(failed("no conda"));
    assert_eq!(aborted.stage, Stage::Aborted(Fatal::ListEnvironments, "no conda".to_string()));
}

#[test]
fn the_environment_counts_as_there_when_its_name_occurs_anywhere_in_the_list() {
    let b = at(Platform::Linux, Stage::ListingEnvironments);
    assert_eq!(b.clone().advance(ok(true, "television  /x\n")).stage, Stage::Cloning);
    assert_eq!(b.clone().advance(ok(true, "Vision  /x\n")).stage, Stage::CreatingEnvironment);
    assert_eq!(b.advance(ok(true, "")).stage, Stage::CreatingEnvironment);
}

#[test]
fn cloning_and_dependencies_follow_in_order() {
    let b = at(Platform::Linux, Stage::Cloning);
    assert_eq!(
        b.directive(),
        quiet(run("git", &["clone", "https://github.com/python313again/S2L"], None, false))
    );
    let b = b.advance(ok(false, ""));
    assert_eq!(b.stage, Stage::InstallingDependencies);
    assert_eq!(
        b.directive(),
        quiet(run(PYTHON, &["-m", "pip", "install", "-r", "requirements.txt"], Some("S2L"), false))
    );
}

#[test]
fn after_the_dependencies_the_platform_decides() {
    let next = |platform| at(platform, Stage::InstallingDependencies).advance(ok(true, "")).stage;
    assert_eq!(next(Platform::Windows), Stage::AskingCuda);
    assert_eq!(next(Platform::Linux), Stage::AskingCuda);
    assert_eq!(next(Platform::MacOs), Stage::Removing(Leftover::CompiledVisualizer));
    assert_eq!(next(Platform::Other), Stage::Launching);
    for platform in all_platforms() {
        assert_eq!(Stage::after_dependencies(platform), next(platform));
    }
}

#[test]
fn a_yes_to_cuda_swaps_the_numeric_library() {
    let b = at(Platform::Linux, Stage::AskingCuda);
    assert_eq!(
        b.directive(),
        say(Tone::Info, "Do you want to use the CUDA variant of PyTorch? (y/n):", Action::Ask)
    );
    let b = b.advance(Event::Answered("Y\n".to_string()));
    assert_eq!(b.stage, Stage::UninstallingTorch);
    assert_eq!(
        b.directive(),
        quiet(run(PYTHON, &["-m", "pip", "uninstall", "torch", "-y"], None, false))
    );
    let b = b.advance(ok(true, ""));
    assert_eq!(b.stage, Stage::InstallingCudaTorch);
    assert_eq!(
        b.directive(),
        quiet(run(
            PYTHON,
            &["-m", "pip", "install", "torch", "--index-url", "https://download.pytorch.org/whl/cu124"],
            None,
            false
        ))
    );
    let b = b.advance(ok(true, ""));
    assert_eq!(b.stage, Stage::Removing(Leftover::SourceVisualizer));
    assert_eq!(b.directive(), quiet(Action::Remove("S2L\\libs\\roi_visualizer.py".to_string())));
}

#[test]
fn a_no_to_cuda_removes_the_compiled_visualizer() {
    let b = at(Platform::Windows, Stage::AskingCuda).advance(Event::Answered("n\n".to_string()));
    assert_eq!(b.stage, Stage::Removing(Leftover::CompiledVisualizer));
    assert_eq!(
        b.directive(),
        quiet(Action::Remove("S2L\\libs\\roi_visualizer.cp311-win_amd64.pyd".to_string()))
    );
}

#[test]
fn a_file_that_cannot_be_deleted_is_reported_and_the_run_goes_on() {
    for leftover in [Leftover::SourceVisualizer, Leftover::CompiledVisualizer] {
        let b = at(Platform::Linux, Stage::Removing(leftover));
        assert_eq!(b.clone().advance(Event::Removed(Ok(()))).stage, Stage::Launching);
        let b = b.advance(Event::Removed(Err("not found".to_string())));
        assert_eq!(b.stage, Stage::RemoveFailed("not found".to_string()));
        assert_eq!(
            b.directive(),
            say(
                Tone::Failure,
                "Failed to delete roi_visualizer.cp311-win_amd64.pyd: not found",
                Action::Resume
            )
        );
        assert_eq!(b.advance(Event::Resumed).stage, Stage::Launching);
    }
}

#[test]
fn every_step_of_the_set_up_that_cannot_start_is_fatal() {
    let steps = [
        (Stage::ListingEnvironments, Fatal::ListEnvironments),
        (Stage::CreatingEnvironment, Fatal::CreateEnvironment),
        (Stage::Cloning, Fatal::CloneRepository),
        (Stage::InstallingDependencies, Fatal::InstallDependencies),
        (Stage::UninstallingTorch, Fatal::UninstallTorch),
        (Stage::InstallingCudaTorch, Fatal::InstallCudaTorch),
    ];
    for (stage, fatal) in steps {
        let b = at(Platform::Windows, stage).advance(failed("cannot start"));
        assert_eq!(b.stage, Stage::Aborted(fatal, "cannot start".to_string()));
        assert_eq!(
            b.directive(),
            Directive {
                say: Some(StatusLine::detailed(Tone::Failure, fatal.text(), "cannot start")),
                action: Action::Exit(1),
            }
        );
        assert_eq!(b.clone().advance(Event::Resumed), b);
    }
    let b = at(Platform::Windows, Stage::Launching).advance(Event::Spawned(Err("no".to_string())));
    assert_eq!(b.stage, Stage::Aborted(Fatal::Launch, "no".to_string()));
}

#[test]
fn the_longest_run_takes_eighteen_events() {
    let mut b = start(Platform::Windows);
    let events = vec![
        failed("no conda"),
        Event::Resumed,
        ok(true, ""),
        Event::Resumed,
        failed("no git"),
        ok(true, ""),
        Event::Resumed,
        Event::Probed(false),
        ok(true, "base\n"),
        ok(true, ""),
        ok(true, ""),
        ok(true, ""),
        Event::Answered("y\n".to_string()),
        ok(true, ""),
        ok(true, ""),
        Event::Removed(Err("busy".to_string())),
        Event::Resumed,
        Event::Spawned(Ok(())),
    ];
    assert_eq!(events.len(), 18);
    for event in events {
        let before = b.clone();
        b = b.advance(event);
        assert_ne!(b, before);
    }
    assert_eq!(b.stage, Stage::Finished);
    assert_eq!(b.directive(), quiet(Action::Exit(0)));
}

#[test]
fn an_interrupt_exits_with_code_one_and_one_cancellation_line() {
    let d = on_interrupt();
    assert_eq!(
        d,
        say(Tone::Warning, "\nOperation interrupted by user. Exiting...", Action::Exit(1))
    );
    assert_eq!(on_interrupt(), d);
}

#[test]
fn a_run_for_the_current_user_begins_like_any_other() {
    let argv = strings(&["boot", "vision"]);
    let user = whoami::username();
    for platform in all_platforms() {
        let b = Bootstrap::start(platform, argv.clone());
        assert_eq!(b, Bootstrap::new(Config::new(platform, &user, &argv), argv.clone()));
    }
}

#[test]
fn a_command_ran_well_when_it_started_and_reported_success() {
    let done = |succeeded| Ok(ProcessOutput { succeeded, stdout: String::new(), stderr: String::new() });
    assert!(ran_well_of(&done(true)));
    assert!(!ran_well_of(&done(false)));
    assert!(!ran_well_of(&Err("x".to_string())));
}

#[test]
fn packages_and_leftovers_have_their_names() {
    assert_eq!(Package::Miniconda.id(), "Continuum.Miniconda3");
    assert_eq!(Package::Git.id(), "Git.Git");
    assert_eq!(Leftover::SourceVisualizer.path(), "S2L\\libs\\roi_visualizer.py");
    assert_eq!(Leftover::CompiledVisualizer.path(), "S2L\\libs\\roi_visualizer.cp311-win_amd64.pyd");
    assert_eq!(Stage::after_conda(Platform::Windows), Stage::ProbingGit);
    assert_eq!(Stage::after_conda(Platform::Linux), Stage::ProbingCopy);
    assert_eq!(Stage::after_install(Platform::Windows, Package::Miniconda), Stage::ProbingGit);
    assert_eq!(Stage::after_install(Platform::Windows, Package::Git), Stage::ProbingCopy);
}
