//! The startup orchestrator.
//!
//! Startup runs a fixed sequence of initialization steps exactly once,
//! in order. Startup is best effort, not transactional: a failing step
//! is recorded for the log and the remaining steps still run, so the
//! process always reaches its event loop. [`startup_sequence`] is the
//! order; [`failed_steps`] collects which steps failed, given each
//! step's outcome.

use vstd::prelude::*;

verus! {

/// One initialization step of the fixed startup sequence.
#[derive(Clone, Copy, Debug, PartialEq, Eq, Structural)]
pub enum StartupStep {
    /// Register the framework plugins (notification, window-state
    /// persistence, single-instance guard, persisted scope, shell).
    RegisterPlugins,
    /// Apply the style-injection payload once the window is ready.
    ApplyStyleInjection,
    /// Register the application for autostart at login and enable it.
    RegisterAutostart,
    /// Build the tray icon with its fixed two-entry menu.
    BuildTray,
    /// Attach the close-to-tray policy to the window's event stream.
    AttachClosePolicy,
    /// Emit the one startup notification.
    EmitNotification,
}

/// The fixed order in which startup runs its steps.
pub open spec fn spec_startup_sequence() -> Seq<StartupStep> {
    seq![
        StartupStep::RegisterPlugins,
        StartupStep::ApplyStyleInjection,
        StartupStep::RegisterAutostart,
        StartupStep::BuildTray,
        StartupStep::AttachClosePolicy,
        StartupStep::EmitNotification,
    ]
}

/// The steps startup performs, in the order it performs them.
pub fn startup_sequence() -> (v: Vec<StartupStep>)
    ensures
        v@ == spec_startup_sequence(),
{
    let mut v: Vec<StartupStep> = Vec::new();
    v.push(StartupStep::RegisterPlugins);
    v.push(StartupStep::ApplyStyleInjection);
    v.push(StartupStep::RegisterAutostart);
    v.push(StartupStep::BuildTray);
    v.push(StartupStep::AttachClosePolicy);
    v.push(StartupStep::EmitNotification);
    proof {
        assert(v@ =~= spec_startup_sequence());
    }
    v
}

/// The indices of the failed outcomes, in increasing order.
pub open spec fn spec_failed_steps(outcomes: Seq<bool>) -> Seq<usize>
    decreases outcomes.len(),
{
    if outcomes.len() == 0 {
        Seq::empty()
    } else if !outcomes.last() {
        spec_failed_steps(outcomes.drop_last()).push((outcomes.len() - 1) as usize)
    } else {
        spec_failed_steps(outcomes.drop_last())
    }
}

/// Collect which startup steps failed, given the outcome of each step
/// in sequence order: the failing indices, in increasing order. The
/// collection itself cannot fail, whatever the outcomes were: startup
/// always goes on to the event loop.
pub fn failed_steps(outcomes: &Vec<bool>) -> (f: Vec<usize>)
    ensures
        f@ == spec_failed_steps(outcomes@),
{
    let mut f: Vec<usize> = Vec::new();
    let mut i: usize = 0;
    while i < outcomes.len()
        invariant
            i <= outcomes@.len(),
            f@ == spec_failed_steps(outcomes@.take(i as int)),
        decreases outcomes@.len() - i,
    {
        if !outcomes[i] {
            f.push(i);
        }
        proof {
            assert(outcomes@.take(i + 1int).drop_last() =~= outcomes@.take(i as int));
            assert(outcomes@.take(i + 1int).last() == outcomes@[i as int]);
        }
        i = i + 1;
    }
    proof {
        assert(outcomes@.take(outcomes@.len() as int) =~= outcomes@);
    }
    f
}

} // verus!
