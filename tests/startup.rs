use shell_startup::{setup_action, startup_plan, LogLevel, Plugin, SetupAction};

#[test]
fn debug_plan_opens_devtools_of_main_window() {
    let plan = startup_plan(true);
    assert!(plan.open_devtools);
    assert_eq!(plan.devtools_window, "main");
}

#[test]
fn release_plan_keeps_devtools_closed() {
    let plan = startup_plan(false);
    assert!(!plan.open_devtools);
    assert_eq!(plan.devtools_window, "main");
}

#[test]
fn debug_plan_logs_at_debug_into_logs_file() {
    let plan = startup_plan(true);
    let log = plan.log.expect("debug builds set up logging");
    assert_eq!(log.level, LogLevel::Debug);
    assert_eq!(log.file_name.as_deref(), Some("logs"));
}

#[test]
fn release_plan_sets_up_no_logging() {
    let plan = startup_plan(false);
    assert!(plan.log.is_none());
}

#[test]
fn debug_plan_registers_plugins_in_order() {
    let plan = startup_plan(true);
    assert_eq!(plan.plugins, vec![Plugin::Log, Plugin::Fs, Plugin::Dialog]);
}

#[test]
fn release_plan_registers_fs_and_dialog_only() {
    let plan = startup_plan(false);
    assert_eq!(plan.plugins, vec![Plugin::Fs, Plugin::Dialog]);
}

#[test]
fn plan_failure_message() {
    let plan = startup_plan(true);
    assert_eq!(plan.failure_message, "error while running tauri application");
}

#[test]
fn release_setup_does_nothing() {
    assert_eq!(setup_action(false, true), SetupAction::Proceed);
    assert_eq!(setup_action(false, false), SetupAction::Proceed);
}

#[test]
fn debug_setup_opens_devtools_when_window_exists() {
    assert_eq!(setup_action(true, true), SetupAction::OpenDevtools);
}

#[test]
fn debug_setup_aborts_without_main_window() {
    assert_eq!(setup_action(true, false), SetupAction::MissingWindow);
}
