//! Start-up decisions of a desktop webview shell: which plugins are
//! registered and in what order, how the logging plugin is configured, and
//! what the setup hook does with the developer console.
//!
//! The framework calls themselves live in the application crate; this
//! library states, as plain values, what those calls are handed.

mod startup;

pub use startup::{
    setup_action, startup_plan, LogLevel, LogSettings, Plugin, SetupAction, StartupPlan,
};
