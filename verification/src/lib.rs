//! Bootstrap model for a desktop/mobile application shell.
//!
//! The executable entry points (desktop and mobile) hand control to a host
//! GUI framework. Before doing so they register a fixed set of capability
//! plugins, install a setup hook, and start the framework's blocking run
//! loop. This crate states and verifies the decisions the bootstrap makes:
//! which plugins are registered, in what order, how often the hook is
//! installed, what the hook returns, and what happens when the run loop
//! cannot start. The calls into the framework itself live outside the
//! library, driven by the plan the library returns.

use vstd::prelude::*;

verus! {

/// A capability plugin registered with the host framework at startup.
#[derive(Clone, Copy, PartialEq, Eq, Structural, Debug)]
pub enum Plugin {
    /// Shell command execution.
    Shell,
    /// Opening URLs and paths with the system handler.
    Opener,
    /// Desktop notifications.
    Notification,
    /// Native file dialogs.
    Dialog,
    /// Filesystem access.
    Fs,
}

/// One observable step of a bootstrap call, in the order the host
/// framework is asked to perform it.
#[derive(Clone, Copy, PartialEq, Eq, Structural, Debug)]
pub enum Step {
    /// Register one capability plugin.
    Register(Plugin),
    /// Install the setup hook, which the framework invokes once before the
    /// run loop starts.
    InstallSetupHook,
    /// Hand control to the framework's blocking run loop.
    StartRunLoop,
}

/// An error a setup hook may report to the framework. The bootstrap's own
/// hook never produces one.
#[derive(Clone, Copy, PartialEq, Eq, Structural, Debug)]
pub struct SetupError;

/// What the framework's run call reported back.
#[derive(Clone, Copy, PartialEq, Eq, Structural, Debug)]
pub enum RunLoopOutcome {
    /// The run loop started and drove the application to an orderly exit.
    Exited,
    /// The run loop could not start.
    FailedToStart,
}

/// What the bootstrap does once the run call has reported.
#[derive(Clone, Copy, PartialEq, Eq, Structural, Debug)]
pub enum Action {
    /// Return normally: the application has exited.
    ExitNormally,
    /// Terminate the process at once with the fixed diagnostic message.
    AbortProcess,
}

/// The fixed order in which the bootstrap registers the capability
/// plugins.
pub open spec fn plugin_order() -> Seq<Plugin> {
    seq![
        Plugin::Shell,
        Plugin::Opener,
        Plugin::Notification,
        Plugin::Dialog,
        Plugin::Fs,
    ]
}

/// Every step of one bootstrap call, in order: the five plugin
/// registrations, then the installation of the setup hook, then the start
/// of the run loop.
pub open spec fn bootstrap_steps() -> Seq<Step> {
    seq![
        Step::Register(Plugin::Shell),
        Step::Register(Plugin::Opener),
        Step::Register(Plugin::Notification),
        Step::Register(Plugin::Dialog),
        Step::Register(Plugin::Fs),
        Step::InstallSetupHook,
        Step::StartRunLoop,
    ]
}

/// The plugins the bootstrap registers, in registration order. The list
/// is the same on every call.
pub fn startup_plugins() -> (plugins: Vec<Plugin>)
    ensures
        plugins@ == plugin_order(),
{
    let mut plugins: Vec<Plugin> = Vec::new();
    plugins.push(Plugin::Shell);
    plugins.push(Plugin::Opener);
    plugins.push(Plugin::Notification);
    plugins.push(Plugin::Dialog);
    plugins.push(Plugin::Fs);
    proof {
        assert(plugins@ =~= plugin_order());
    }
    plugins
}

/// One bootstrap call as the host framework observes it. The plan is the
/// same on every call: the five plugin registrations in their fixed
/// order, then the setup hook installation, then the start of the run
/// loop.
pub fn bootstrap_plan() -> (steps: Vec<Step>)
    ensures
        steps@ == bootstrap_steps(),
{
    let mut steps: Vec<Step> = Vec::new();
    steps.push(Step::Register(Plugin::Shell));
    steps.push(Step::Register(Plugin::Opener));
    steps.push(Step::Register(Plugin::Notification));
    steps.push(Step::Register(Plugin::Dialog));
    steps.push(Step::Register(Plugin::Fs));
    steps.push(Step::InstallSetupHook);
    steps.push(Step::StartRunLoop);
    proof {
        assert(steps@ =~= bootstrap_steps());
    }
    steps
}

/// The plan the mobile entry point follows. It forwards to the shared
/// bootstrap, so it is observably the same plan: same plugins, same
/// order, same hook, same run loop start.
pub fn mobile_bootstrap_plan() -> (steps: Vec<Step>)
    ensures
        steps@ == bootstrap_steps(),
{
    bootstrap_plan()
}

/// The setup hook the bootstrap installs. It has no work to do, so it
/// succeeds on every invocation.
pub fn setup_hook() -> (r: Result<(), SetupError>)
    ensures
        r is Ok,
{
    Ok(())
}

/// The fixed diagnostic message the bootstrap aborts with when the run
/// loop cannot start.
pub fn abort_message() -> (msg: &'static str)
    ensures
        msg@ == "error while running tauri application"@,
{
    "error while running tauri application"
}

/// The bootstrap's decision on the run call's report: an orderly exit
/// returns normally, and a failure to start aborts the process at once.
/// No other outcome and no other action exists: there is no retry and no
/// cleanup path.
pub fn after_run_loop(outcome: RunLoopOutcome) -> (action: Action)
    ensures
        action is AbortProcess <==> outcome is FailedToStart,
        action is ExitNormally <==> outcome is Exited,
{
    match outcome {
        RunLoopOutcome::Exited => Action::ExitNormally,
        RunLoopOutcome::FailedToStart => Action::AbortProcess,
    }
}

/// The bootstrap registers exactly the plugins of `plugin_order`, one
/// registration step per plugin, in that order, and registers nothing
/// once the setup hook is installed; no plugin appears twice in the
/// order.
pub proof fn lemma_plugins_registered_in_order()
    ensures
        forall|i: int|
            0 <= i < plugin_order().len() ==> bootstrap_steps()[i] == Step::Register(
                plugin_order()[i],
            ),
        forall|i: int|
            plugin_order().len() <= i < bootstrap_steps().len() ==> !(bootstrap_steps()[i]
                is Register),
        forall|i: int, j: int|
            0 <= i < plugin_order().len() && 0 <= j < plugin_order().len() && plugin_order()[i]
                == plugin_order()[j] ==> i == j,
{
}

/// The setup hook is installed exactly once per bootstrap call: one step
/// of the plan installs it, and no other step does.
pub proof fn lemma_setup_hook_installed_once()
    ensures
        exists|i: int|
            0 <= i < bootstrap_steps().len() && bootstrap_steps()[i] is InstallSetupHook,
        forall|i: int, j: int|
            0 <= i < bootstrap_steps().len() && 0 <= j < bootstrap_steps().len() && bootstrap_steps()[i]
                is InstallSetupHook && bootstrap_steps()[j] is InstallSetupHook ==> i == j,
{
    assert(bootstrap_steps()[5] is InstallSetupHook);
}

/// Starting the run loop is the final step of the plan: every plugin
/// registration and the hook installation come strictly before it, and
/// nothing follows it. A run loop that fails to start therefore leaves no
/// partly finished work behind, and no cleanup step exists in the plan.
pub proof fn lemma_run_loop_starts_last()
    ensures
        bootstrap_steps().last() is StartRunLoop,
        forall|i: int|
            0 <= i < bootstrap_steps().len() - 1 ==> !(bootstrap_steps()[i] is StartRunLoop),
{
}

} // verus!
