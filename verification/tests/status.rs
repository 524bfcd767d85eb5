use s2l_bootstrap::messages::Fatal;
use s2l_bootstrap::status::{StatusLine, Tone};

fn colours_on() {
    colored::control::set_override(true);
}

fn colours_off() {
    colored::control::set_override(false);
}

#[test]
fn info_is_rendered_in_blue() {
    colours_on();
    let line = StatusLine::plain(Tone::Info, "Checking for updates in the S2L folder...");
    assert_eq!(line.render(), "\u{1b}[34mChecking for updates in the S2L folder...\u{1b}[0m");
}

#[test]
fn success_is_rendered_in_green() {
    colours_on();
    let line = StatusLine::plain(Tone::Success, "Launching the application...");
    assert_eq!(line.render(), "\u{1b}[32mLaunching the application...\u{1b}[0m");
}

#[test]
fn warning_is_rendered_in_yellow() {
    colours_on();
    let line = StatusLine::plain(Tone::Warning, "S2L folder does not exist. Skipping self-update.");
    assert_eq!(
        line.render(),
        "\u{1b}[33mS2L folder does not exist. Skipping self-update.\u{1b}[0m"
    );
}

#[test]
fn failure_is_rendered_in_red() {
    colours_on();
    let line = StatusLine::plain(Tone::Failure, "Failed to install Git.Git. Please install it manually and retry.");
    assert_eq!(
        line.render(),
        "\u{1b}[31mFailed to install Git.Git. Please install it manually and retry.\u{1b}[0m"
    );
}

#[test]
fn the_detail_follows_uncoloured_on_its_own_line() {
    colours_on();
    let line = StatusLine::check_failed("program not found");
    assert_eq!(
        line.render(),
        "\u{1b}[31mFailed to check for updates in the S2L folder. Error details:\u{1b}[0m\nprogram not found"
    );
}

#[test]
fn without_colours_the_text_is_rendered_as_it_is() {
    colours_off();
    for tone in [Tone::Info, Tone::Success, Tone::Warning, Tone::Failure] {
        assert_eq!(StatusLine::plain(tone, "plain words").render(), "plain words");
        assert_eq!(StatusLine::plain(tone, "").render(), "");
    }
    let line = StatusLine::detailed(Tone::Failure, "what", "why");
    assert_eq!(line.render(), "what\nwhy");
}

#[test]
fn rendering_is_one_of_the_two_forms_whatever_the_environment() {
    let line = StatusLine::plain(Tone::Info, "words");
    let shown = line.render();
    assert!(shown == "words" || shown == "\u{1b}[34mwords\u{1b}[0m", "{shown:?}");
    let line = StatusLine::detailed(Tone::Warning, "words", "more");
    let shown = line.render();
    assert!(shown == "words\nmore" || shown == "\u{1b}[33mwords\u{1b}[0m\nmore", "{shown:?}");
}

#[test]
fn an_empty_text_is_still_wrapped_when_colours_are_on() {
    colours_on();
    assert_eq!(StatusLine::plain(Tone::Success, "").render(), "\u{1b}[32m\u{1b}[0m");
}

#[test]
fn constructors_keep_what_they_are_given() {
    let line = StatusLine::new(Tone::Info, "a".to_string());
    assert_eq!(line, StatusLine { tone: Tone::Info, text: "a".to_string(), detail: None });
    let line = StatusLine::with_detail(Tone::Failure, "a".to_string(), "b".to_string());
    assert_eq!(
        line,
        StatusLine { tone: Tone::Failure, text: "a".to_string(), detail: Some("b".to_string()) }
    );
}

#[test]
fn package_lines_name_the_package() {
    let line = StatusLine::installing("Git.Git");
    assert_eq!(line, StatusLine::plain(Tone::Info, "Installing Git.Git using winget..."));
    let line = StatusLine::installed("Continuum.Miniconda3");
    assert_eq!(line, StatusLine::plain(Tone::Success, "Continuum.Miniconda3 installed successfully."));
    let line = StatusLine::install_failed("Git.Git");
    assert_eq!(
        line,
        StatusLine::plain(Tone::Failure, "Failed to install Git.Git. Please install it manually and retry.")
    );
}

#[test]
fn remove_failure_carries_the_reason_in_the_coloured_text() {
    let line = StatusLine::remove_failed("Access is denied. (os error 5)");
    assert_eq!(
        line,
        StatusLine::plain(
            Tone::Failure,
            "Failed to delete roi_visualizer.cp311-win_amd64.pyd: Access is denied. (os error 5)"
        )
    );
}

#[test]
fn every_fatal_failure_has_its_own_words() {
    let all = [
        (Fatal::ExecutablePath, "Failed to get the current executable path"),
        (Fatal::Relaunch, "Failed to relaunch the script"),
        (Fatal::ListEnvironments, "Failed to list Conda environments"),
        (Fatal::CreateEnvironment, "Failed to create Conda environment"),
        (Fatal::CloneRepository, "Failed to clone the repository"),
        (Fatal::InstallDependencies, "Failed to install Python dependencies"),
        (Fatal::UninstallTorch, "Failed to uninstall Torch"),
        (Fatal::InstallCudaTorch, "Failed to install CUDA variant of PyTorch"),
        (Fatal::Launch, "Failed to launch the application"),
    ];
    for (fatal, words) in all {
        assert_eq!(fatal.text(), words);
        assert_eq!(fatal.line("why"), StatusLine::detailed(Tone::Failure, words, "why"));
    }
}

#[test]
fn a_text_that_switches_colouring_off_has_the_colour_switched_on_again() {
    colours_on();
    let line = StatusLine::plain(Tone::Info, "a\u{1b}[0mb");
    assert_eq!(line.render(), "\u{1b}[34ma\u{1b}[0m\u{1b}[34mb\u{1b}[0m");
    colours_off();
    assert_eq!(line.render(), "a\u{1b}[0mb");
}

#[test]
fn other_escape_sequences_in_a_text_are_left_alone() {
    colours_on();
    let line = StatusLine::plain(Tone::Failure, "a\u{1b}[1mb");
    assert_eq!(line.render(), "\u{1b}[31ma\u{1b}[1mb\u{1b}[0m");
}
