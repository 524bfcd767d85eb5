//! The settings of one run, fixed once at start-up and handed to every
//! component.

use crate::text::texts;
use vstd::prelude::*;

verus! {

/// The operating systems that the bootstrapper tells apart.
#[derive(Clone, Copy, Debug, PartialEq, Eq, Structural)]
pub enum Platform {
    Windows,
    MacOs,
    Linux,
    /// Any other system: nothing is installed for it.
    Other,
}

/// The directory of the working copy, relative to where the program runs.
pub const WORKING_COPY: &'static str = "S2L";

/// The name of the environment where the command line gives none.
pub const DEFAULT_ENVIRONMENT: &'static str = "S2L";

/// Where the environment manager lives on systems other than Windows.
pub const CONDA_UNIX: &'static str = "~/miniconda3/condabin/conda";

/// The settings of one run.
#[derive(Debug, PartialEq, Eq)]
pub struct Config {
    pub platform: Platform,
    /// The path of the working copy.
    pub copy: String,
    /// The name of the isolated environment.
    pub environment: String,
    /// The path of the environment's interpreter.
    pub python: String,
    /// The path of the environment manager.
    pub conda: String,
}

/// The settings as a mathematical value.
pub ghost struct ConfigView {
    pub platform: Platform,
    pub copy: Seq<char>,
    pub environment: Seq<char>,
    pub python: Seq<char>,
    pub conda: Seq<char>,
}

impl View for Config {
    type V = ConfigView;

    open spec fn view(&self) -> ConfigView {
        ConfigView {
            platform: self.platform,
            copy: self.copy@,
            environment: self.environment@,
            python: self.python@,
            conda: self.conda@,
        }
    }
}

impl Clone for Config {
    fn clone(&self) -> (copy: Config)
        ensures
            copy@ == self@,
    {
        Config {
            platform: self.platform,
            copy: self.copy.clone(),
            environment: self.environment.clone(),
            python: self.python.clone(),
            conda: self.conda.clone(),
        }
    }
}

/// The environment's name: the first argument after the program's name,
/// or the default where there is none.
pub open spec fn environment_name(argv: Seq<Seq<char>>) -> Seq<char> {
    if argv.len() > 1 {
        argv[1]
    } else {
        DEFAULT_ENVIRONMENT@
    }
}

/// The interpreter of the environment `environment` in the home of `user`.
pub open spec fn python_path(user: Seq<char>, environment: Seq<char>) -> Seq<char> {
    "C:\\Users\\"@ + user + "\\miniconda3\\envs\\"@ + environment + "\\python.exe"@
}

/// The environment manager: below the home of `user` on Windows, at a
/// fixed place elsewhere.
pub open spec fn conda_path(platform: Platform, user: Seq<char>) -> Seq<char> {
    if platform == Platform::Windows {
        "C:\\Users\\"@ + user + "\\Miniconda3\\condabin\\conda.bat"@
    } else {
        CONDA_UNIX@
    }
}

/// The settings for `user` on `platform`, started with `argv`.
pub open spec fn config_for(
    platform: Platform,
    user: Seq<char>,
    argv: Seq<Seq<char>>,
) -> ConfigView {
    ConfigView {
        platform,
        copy: WORKING_COPY@,
        environment: environment_name(argv),
        python: python_path(user, environment_name(argv)),
        conda: conda_path(platform, user),
    }
}

/// `whoami::username`: the name of the user who runs the process, as the
/// operating system gives it. Nothing is promised of the name.
#[verifier::external_body]
fn current_user() -> (name: String) {
    whoami::username()
}

/// The environment's name that the command line asks for.
pub fn environment_name_of(argv: &Vec<String>) -> (name: String)
    ensures
        name@ == environment_name(texts(argv@)),
{
    if argv.len() > 1 {
        argv[1].clone()
    } else {
        DEFAULT_ENVIRONMENT.to_owned()
    }
}

impl Config {
    /// The settings for `user` on `platform`, in a process started with
    /// `argv`.
    pub fn new(platform: Platform, user: &str, argv: &Vec<String>) -> (config: Config)
        ensures
            config@ == config_for(platform, user@, texts(argv@)),
    {
        let environment = environment_name_of(argv);
        let mut python = "C:\\Users\\".to_owned();
        python.append(user);
        python.append("\\miniconda3\\envs\\");
        python.append(environment.as_str());
        python.append("\\python.exe");
        let conda = match platform {
            Platform::Windows => {
                let mut conda = "C:\\Users\\".to_owned();
                conda.append(user);
                conda.append("\\Miniconda3\\condabin\\conda.bat");
                conda
            },
            _ => CONDA_UNIX.to_owned(),
        };
        Config { platform, copy: WORKING_COPY.to_owned(), environment, python, conda }
    }

    /// The settings for the user who runs the process. The user's name is
    /// asked of the operating system; everything else follows from it as
    /// in `new`.
    pub fn for_current_user(platform: Platform, argv: &Vec<String>) -> (config: Config)
        ensures
            exists|user: Seq<char>| config@ == config_for(platform, user, texts(argv@)),
    {
        let user = current_user();
        Config::new(platform, user.as_str(), argv)
    }
}

} // verus!
