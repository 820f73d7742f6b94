//! How the backend is launched: the configuration of a start, and the command
//! line, directory and environment that it resolves to.

use crate::path::{backend_dir, backend_dir_of, default_build_dir};
use crate::port::{decimal, port_text, port_variable, port_variable_name, BACKEND_PORT};
use vstd::prelude::*;

verus! {

/// How the backend is run.
#[derive(Clone, Copy, Debug, PartialEq, Eq, Structural)]
pub enum Mode {
    /// From its sources, by an interpreter run in the backend's directory.
    Development,
    /// As the packaged executable, found on the search path.
    Production,
}

/// What a start is asked to run.
#[derive(Debug, PartialEq, Eq)]
pub struct StartConfig {
    pub mode: Mode,
    /// The interpreter in development, the packaged executable in production:
    /// a path or a command name.
    pub executable: String,
    /// The directory the child runs in; `None` for the shell's own.
    pub working_dir: Option<String>,
    /// Variables set for the child, later entries overriding earlier ones.
    pub env: Vec<(String, String)>,
    /// The port the backend is told to listen on.
    pub port: u16,
}

/// A `StartConfig` as plain mathematical values.
pub struct StartConfigView {
    pub mode: Mode,
    pub executable: Seq<char>,
    pub working_dir: Option<Seq<char>>,
    pub env: Seq<(Seq<char>, Seq<char>)>,
    pub port: u16,
}

impl View for StartConfig {
    type V = StartConfigView;

    open spec fn view(&self) -> StartConfigView {
        StartConfigView {
            mode: self.mode,
            executable: self.executable@,
            working_dir: self.working_dir.deep_view(),
            env: self.env.deep_view(),
            port: self.port,
        }
    }
}

/// The process to create: what the caller hands to the operating system.
#[derive(Debug, PartialEq, Eq)]
pub struct LaunchPlan {
    pub program: String,
    pub args: Vec<String>,
    /// The directory the child runs in; `None` for the shell's own.
    pub working_dir: Option<String>,
    /// Variables set for the child in this order, on top of the shell's own
    /// environment.
    pub env: Vec<(String, String)>,
}

/// A `LaunchPlan` as plain mathematical values.
pub struct LaunchPlanView {
    pub program: Seq<char>,
    pub args: Seq<Seq<char>>,
    pub working_dir: Option<Seq<char>>,
    pub env: Seq<(Seq<char>, Seq<char>)>,
}

impl View for LaunchPlan {
    type V = LaunchPlanView;

    open spec fn view(&self) -> LaunchPlanView {
        LaunchPlanView {
            program: self.program@,
            args: self.args.deep_view(),
            working_dir: self.working_dir.deep_view(),
            env: self.env.deep_view(),
        }
    }
}

/// The interpreter that runs the backend in development.
pub open spec fn interpreter() -> Seq<char> {
    "python"@
}

/// The backend's entry script, relative to the backend's directory.
pub open spec fn entry_script() -> Seq<char> {
    "main.py"@
}

/// The name of the packaged backend.
pub open spec fn packaged_backend() -> Seq<char> {
    "lifeos-backend"@
}

/// The development configuration for a backend directory that has been found.
pub open spec fn development_config(backend_dir: Seq<char>) -> StartConfigView {
    StartConfigView {
        mode: Mode::Development,
        executable: interpreter(),
        working_dir: Some(backend_dir),
        env: Seq::empty(),
        port: BACKEND_PORT,
    }
}

/// The development configuration of a shell built in `build_dir`, or in the
/// current directory where none is known; `None` where the backend's directory
/// cannot be found from there.
pub open spec fn development_from(build_dir: Option<Seq<char>>) -> Option<StartConfigView> {
    let from = match build_dir {
        Some(d) => d,
        None => default_build_dir(),
    };
    match backend_dir_of(from) {
        Some(dir) => Some(development_config(dir)),
        None => None,
    }
}

/// The production configuration.
pub open spec fn production_config() -> StartConfigView {
    StartConfigView {
        mode: Mode::Production,
        executable: packaged_backend(),
        working_dir: None,
        env: Seq::empty(),
        port: BACKEND_PORT,
    }
}

/// The configuration of a mode: development from where the shell was built,
/// production as packaged. `None` where development cannot find the backend.
pub open spec fn config_for(mode: Mode, build_dir: Option<Seq<char>>) -> Option<StartConfigView> {
    match mode {
        Mode::Development => development_from(build_dir),
        Mode::Production => Some(production_config()),
    }
}

/// The arguments a mode puts behind the executable: the entry script in
/// development, none in production.
pub open spec fn mode_args(mode: Mode) -> Seq<Seq<char>> {
    match mode {
        Mode::Development => seq![entry_script()],
        Mode::Production => Seq::empty(),
    }
}

/// What a configuration resolves to. Whatever the mode, the port is handed
/// to the child in its environment, after every variable of the configuration.
pub open spec fn plan_of(config: StartConfigView) -> LaunchPlanView {
    LaunchPlanView {
        program: config.executable,
        args: mode_args(config.mode),
        working_dir: config.working_dir,
        env: config.env.push((port_variable(), decimal(config.port as nat))),
    }
}

/// The value the child sees for a variable: that of the last entry that sets
/// it, if any does.
pub open spec fn env_value(env: Seq<(Seq<char>, Seq<char>)>, name: Seq<char>) -> Option<Seq<char>>
    decreases env.len(),
{
    if env.len() == 0 {
        None
    } else if env.last().0 == name {
        Some(env.last().1)
    } else {
        env_value(env.drop_last(), name)
    }
}

/// The child of a resolved plan sees the configured port under the port
/// variable, whatever the configuration's own variables say, and every other
/// variable as the configuration set it.
pub proof fn lemma_plan_carries_port(config: StartConfigView, name: Seq<char>)
    ensures
        env_value(plan_of(config).env, port_variable()) == Some(decimal(config.port as nat)),
        name != port_variable() ==> env_value(plan_of(config).env, name) == env_value(
            config.env,
            name,
        ),
{
    let entry = (port_variable(), decimal(config.port as nat));
    let env = config.env.push(entry);
    assert(env.drop_last() =~= config.env);
}

impl Mode {
    /// The mode of a build: a debug build of the shell runs the backend from
    /// its sources, a release build runs the packaged one.
    pub fn for_build(debug: bool) -> (mode: Mode)
        ensures
            mode == if debug {
                Mode::Development
            } else {
                Mode::Production
            },
    {
        if debug {
            Mode::Development
        } else {
            Mode::Production
        }
    }
}

impl StartConfig {
    /// The configuration of a mode, for a shell built in `build_dir`. `None`
    /// where development cannot find the backend's directory.
    pub fn for_mode(mode: Mode, build_dir: Option<String>) -> (config: Option<StartConfig>)
        ensures
            match config {
                Some(c) => config_for(mode, build_dir.deep_view()) == Some(c@),
                None => config_for(mode, build_dir.deep_view()) is None,
            },
    {
        match mode {
            Mode::Development => StartConfig::development(build_dir),
            Mode::Production => Some(StartConfig::production()),
        }
    }

    /// The development configuration for a backend directory that has been
    /// found.
    pub fn development_in(backend_dir: String) -> (config: StartConfig)
        ensures
            config@ == development_config(backend_dir@),
    {
        let config = StartConfig {
            mode: Mode::Development,
            executable: "python".to_owned(),
            working_dir: Some(backend_dir),
            env: Vec::new(),
            port: BACKEND_PORT,
        };
        assert(config.env.deep_view() =~= Seq::empty());
        config
    }

    /// The development configuration of a shell built in `build_dir`, or in
    /// the current directory where none is known. `None` where the backend's
    /// directory cannot be found from there.
    pub fn development(build_dir: Option<String>) -> (config: Option<StartConfig>)
        ensures
            match config {
                Some(c) => development_from(build_dir.deep_view()) == Some(c@),
                None => development_from(build_dir.deep_view()) is None,
            },
    {
        let found = match build_dir {
            Some(d) => backend_dir(d.as_str()),
            None => backend_dir("."),
        };
        match found {
            Some(dir) => Some(StartConfig::development_in(dir)),
            None => None,
        }
    }

    /// The production configuration.
    pub fn production() -> (config: StartConfig)
        ensures
            config@ == production_config(),
    {
        let config = StartConfig {
            mode: Mode::Production,
            executable: "lifeos-backend".to_owned(),
            working_dir: None,
            env: Vec::new(),
            port: BACKEND_PORT,
        };
        assert(config.env.deep_view() =~= Seq::empty());
        config
    }

    /// Resolves the configuration to the process to create.
    pub fn plan(self) -> (plan: LaunchPlan)
        ensures
            plan@ == plan_of(self@),
    {
        let ghost before = self@;
        let mut args: Vec<String> = Vec::new();
        match self.mode {
            Mode::Development => {
                args.push("main.py".to_owned());
            },
            Mode::Production => {},
        }
        assert(args.deep_view() =~= mode_args(self.mode));
        let mut env = self.env;
        env.push((port_variable_name(), port_text(self.port)));
        assert(env.deep_view() =~= before.env.push(
            (port_variable(), decimal(before.port as nat)),
        ));
        LaunchPlan { program: self.executable, args, working_dir: self.working_dir, env }
    }
}

} // verus!
