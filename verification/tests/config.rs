use s2l_bootstrap::config::{environment_name_of, Config, Platform};

fn strings(items: &[&str]) -> Vec<String> {
    items.iter().map(|s| s.to_string()).collect()
}

#[test]
fn the_environment_is_the_first_argument() {
    assert_eq!(environment_name_of(&strings(&["boot", "vision"])), "vision");
    assert_eq!(environment_name_of(&strings(&["boot", "vision", "extra"])), "vision");
    assert_eq!(environment_name_of(&strings(&["boot", ""])), "");
}

#[test]
fn the_environment_defaults_to_s2l() {
    assert_eq!(environment_name_of(&strings(&["boot"])), "S2L");
    assert_eq!(environment_name_of(&strings(&[])), "S2L");
}

#[test]
fn windows_paths_lie_below_the_users_home() {
    let config = Config::new(Platform::Windows, "ada", &strings(&["boot.exe", "vision"]));
    assert_eq!(
        config,
        Config {
            platform: Platform::Windows,
            copy: "S2L".to_string(),
            environment: "vision".to_string(),
            python: "C:\\Users\\ada\\miniconda3\\envs\\vision\\python.exe".to_string(),
            conda: "C:\\Users\\ada\\Miniconda3\\condabin\\conda.bat".to_string(),
        }
    );
}

#[test]
fn elsewhere_the_manager_is_at_a_fixed_place() {
    for platform in [Platform::MacOs, Platform::Linux, Platform::Other] {
        let config = Config::new(platform, "ada", &strings(&["boot"]));
        assert_eq!(
            config,
            Config {
                platform,
                copy: "S2L".to_string(),
                environment: "S2L".to_string(),
                python: "C:\\Users\\ada\\miniconda3\\envs\\S2L\\python.exe".to_string(),
                conda: "~/miniconda3/condabin/conda".to_string(),
            }
        );
    }
}

#[test]
fn the_current_users_settings_use_the_systems_user_name() {
    let argv = strings(&["boot", "vision"]);
    let user = whoami::username();
    for platform in [Platform::Windows, Platform::MacOs, Platform::Linux, Platform::Other] {
        assert_eq!(Config::for_current_user(platform, &argv), Config::new(platform, &user, &argv));
    }
}
