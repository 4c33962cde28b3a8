use notesdesktop_lib::{
    abort_message, after_run_loop, bootstrap_plan, mobile_bootstrap_plan, setup_hook,
    startup_plugins, Action, Plugin, RunLoopOutcome, Step,
};

#[test]
fn plugins_are_the_five_named_ones_in_fixed_order() {
    let plugins = startup_plugins();
    assert_eq!(
        plugins,
        vec![
            Plugin::Shell,
            Plugin::Opener,
            Plugin::Notification,
            Plugin::Dialog,
            Plugin::Fs,
        ]
    );
}

#[test]
fn plugin_list_is_the_same_on_every_call() {
    assert_eq!(startup_plugins(), startup_plugins());
    assert_eq!(bootstrap_plan(), bootstrap_plan());
}

#[test]
fn plan_registers_plugins_then_hook_then_run_loop() {
    let steps = bootstrap_plan();
    assert_eq!(
        steps,
        vec![
            Step::Register(Plugin::Shell),
            Step::Register(Plugin::Opener),
            Step::Register(Plugin::Notification),
            Step::Register(Plugin::Dialog),
            Step::Register(Plugin::Fs),
            Step::InstallSetupHook,
            Step::StartRunLoop,
        ]
    );
}

#[test]
fn plan_installs_the_setup_hook_exactly_once() {
    let steps = bootstrap_plan();
    let hooks = steps
        .iter()
        .filter(|s| matches!(s, Step::InstallSetupHook))
        .count();
    assert_eq!(hooks, 1);
}

#[test]
fn setup_hook_always_succeeds() {
    assert_eq!(setup_hook(), Ok(()));
}

#[test]
fn mobile_entry_follows_the_shared_plan() {
    assert_eq!(mobile_bootstrap_plan(), bootstrap_plan());
}

#[test]
fn run_loop_start_is_the_last_step() {
    let steps = bootstrap_plan();
    assert_eq!(steps.last(), Some(&Step::StartRunLoop));
    let starts = steps
        .iter()
        .filter(|s| matches!(s, Step::StartRunLoop))
        .count();
    assert_eq!(starts, 1);
}

#[test]
fn failed_run_loop_start_aborts_the_process() {
    assert_eq!(after_run_loop(RunLoopOutcome::FailedToStart), Action::AbortProcess);
}

#[test]
fn orderly_exit_returns_normally() {
    assert_eq!(after_run_loop(RunLoopOutcome::Exited), Action::ExitNormally);
}

#[test]
fn abort_message_is_the_fixed_diagnostic() {
    assert_eq!(abort_message(), "error while running tauri application");
}
