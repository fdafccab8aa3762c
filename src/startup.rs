use vstd::prelude::*;

verus! {

broadcast use vstd::string::group_string_axioms;

/// Severity threshold handed to the logging plugin.
#[derive(Clone, Copy, Debug, PartialEq, Eq, Structural)]
pub enum LogLevel {
    Off,
    Error,
    Warn,
    Info,
    Debug,
    Trace,
}

/// A plugin that the application registers with the framework.
#[derive(Clone, Copy, Debug, PartialEq, Eq, Structural)]
pub enum Plugin {
    /// Logging, configured by `LogSettings`.
    Log,
    /// Filesystem access.
    Fs,
    /// Native dialogs.
    Dialog,
}

/// Configuration of the logging plugin.
pub struct LogSettings {
    /// Records below this severity are dropped.
    pub level: LogLevel,
    /// Name of the log file written into the platform's log directory.
    pub file_name: Option<String>,
}

/// Everything the entry point hands to the framework builder.
pub struct StartupPlan {
    /// Whether the setup hook opens the developer console.
    pub open_devtools: bool,
    /// Label of the window whose developer console is opened.
    pub devtools_window: String,
    /// Settings of the logging plugin; `None` where logging is not set up.
    pub log: Option<LogSettings>,
    /// Plugins in the order in which they are registered.
    pub plugins: Vec<Plugin>,
    /// Message with which the process stops when the event loop fails to start.
    pub failure_message: String,
}

/// What the setup hook does once the application handle exists.
#[derive(Clone, Copy, Debug, PartialEq, Eq, Structural)]
pub enum SetupAction {
    /// Nothing to do: a release build.
    Proceed,
    /// Open the developer console of the main window.
    OpenDevtools,
    /// A debug build whose main window is missing: start-up is aborted.
    MissingWindow,
}

/// Registration order of the plugins: in debug builds logging first, then
/// filesystem, then dialogs; in release builds filesystem, then dialogs.
pub open spec fn plugin_order(debug_build: bool) -> Seq<Plugin> {
    if debug_build {
        seq![Plugin::Log, Plugin::Fs, Plugin::Dialog]
    } else {
        seq![Plugin::Fs, Plugin::Dialog]
    }
}

/// Label of the application's main window.
pub open spec fn main_window_label() -> Seq<char> {
    "main"@
}

/// Name of the log file.
pub open spec fn log_file_name() -> Seq<char> {
    "logs"@
}

/// Message printed when the framework fails to start.
pub open spec fn failure_text() -> Seq<char> {
    "error while running tauri application"@
}

/// The action of the setup hook, given the build profile and whether a window
/// labelled with `main_window_label()` exists.
pub open spec fn setup_action_spec(debug_build: bool, main_window_present: bool) -> SetupAction {
    if !debug_build {
        SetupAction::Proceed
    } else if main_window_present {
        SetupAction::OpenDevtools
    } else {
        SetupAction::MissingWindow
    }
}

/// The plan that the entry point hands to the framework. Debug builds open the
/// developer console of the main window and log at `Debug` level into a file
/// named `logs`, registering logging, filesystem and dialog plugins in that
/// order. Release builds set up no logging and register the filesystem and
/// dialog plugins alone.
pub fn startup_plan(debug_build: bool) -> (r: StartupPlan)
    ensures
        r.open_devtools == debug_build,
        r.devtools_window@ == main_window_label(),
        r.log is Some <==> debug_build,
        r.log matches Some(settings) ==> {
            &&& settings.level == LogLevel::Debug
            &&& settings.file_name is Some
            &&& settings.file_name->Some_0@ == log_file_name()
        },
        r.plugins@ == plugin_order(debug_build),
        r.failure_message@ == failure_text(),
{
    let mut plugins: Vec<Plugin> = Vec::new();
    let mut log: Option<LogSettings> = None;
    if debug_build {
        plugins.push(Plugin::Log);
        log = Some(LogSettings { level: LogLevel::Debug, file_name: Some("logs".to_string()) });
    }
    plugins.push(Plugin::Fs);
    plugins.push(Plugin::Dialog);
    proof {
        assert(plugins@ =~= plugin_order(debug_build));
    }
    StartupPlan {
        open_devtools: debug_build,
        devtools_window: "main".to_string(),
        log,
        plugins,
        failure_message: "error while running tauri application".to_string(),
    }
}

/// Decides what the setup hook does. Release builds do nothing; debug builds
/// open the main window's developer console, and abort start-up when that
/// window does not exist.
pub fn setup_action(debug_build: bool, main_window_present: bool) -> (r: SetupAction)
    ensures
        r == setup_action_spec(debug_build, main_window_present),
{
    if !debug_build {
        SetupAction::Proceed
    } else if main_window_present {
        SetupAction::OpenDevtools
    } else {
        SetupAction::MissingWindow
    }
}

} // verus!
