use s2l_bootstrap::process::CommandLine;

fn strings(items: &[&str]) -> Vec<String> {
    items.iter().map(|s| s.to_string()).collect()
}

fn line(program: &str, args: &[&str], dir: Option<&str>) -> CommandLine {
    CommandLine {
        program: program.to_string(),
        args: strings(args),
        working_dir: dir.map(|d| d.to_string()),
    }
}

#[test]
fn version_probe_asks_for_the_version() {
    assert_eq!(CommandLine::version_probe("git"), line("git", &["--version"], None));
    assert_eq!(
        CommandLine::version_probe("~/miniconda3/condabin/conda"),
        line("~/miniconda3/condabin/conda", &["--version"], None)
    );
}

#[test]
fn winget_installs_by_exact_id_and_silently() {
    assert_eq!(
        CommandLine::winget_install("Git.Git"),
        line("winget", &["install", "--id", "Git.Git", "-e", "--silent"], None)
    );
}

#[test]
fn brew_installs_miniconda() {
    assert_eq!(CommandLine::brew_install_miniconda(), line("brew", &["install", "miniconda"], None));
}

#[test]
fn synchronize_pulls_with_rebase_inside_the_copy() {
    assert_eq!(CommandLine::synchronize("S2L"), line("git", &["pull", "--rebase"], Some("S2L")));
    assert_eq!(
        CommandLine::synchronize("/srv/app"),
        line("git", &["pull", "--rebase"], Some("/srv/app"))
    );
}

#[test]
fn environment_commands_name_the_manager_and_the_environment() {
    assert_eq!(CommandLine::list_environments("conda"), line("conda", &["env", "list"], None));
    assert_eq!(
        CommandLine::create_environment("conda", "S2L"),
        line("conda", &["create", "-n", "S2L", "python=3.11.9", "-y"], None)
    );
}

#[test]
fn clone_names_the_repository() {
    assert_eq!(
        CommandLine::clone_repository(),
        line("git", &["clone", "https://github.com/python313again/S2L"], None)
    );
}

#[test]
fn pip_commands_run_through_the_environments_interpreter() {
    assert_eq!(
        CommandLine::install_requirements("py", "S2L"),
        line("py", &["-m", "pip", "install", "-r", "requirements.txt"], Some("S2L"))
    );
    assert_eq!(
        CommandLine::uninstall_torch("py"),
        line("py", &["-m", "pip", "uninstall", "torch", "-y"], None)
    );
    assert_eq!(
        CommandLine::install_cuda_torch("py"),
        line(
            "py",
            &["-m", "pip", "install", "torch", "--index-url", "https://download.pytorch.org/whl/cu124"],
            None
        )
    );
}

#[test]
fn the_application_is_launched_inside_the_copy() {
    assert_eq!(CommandLine::launch_application("py", "S2L"), line("py", &["main.py"], Some("S2L")));
}
