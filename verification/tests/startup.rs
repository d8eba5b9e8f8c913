use tray_shell::startup::{failed_steps, startup_sequence, StartupStep};

#[test]
fn startup_runs_its_steps_in_the_fixed_order() {
    let steps = startup_sequence();
    assert_eq!(
        steps,
        vec![
            StartupStep::RegisterPlugins,
            StartupStep::ApplyStyleInjection,
            StartupStep::RegisterAutostart,
            StartupStep::BuildTray,
            StartupStep::AttachClosePolicy,
            StartupStep::EmitNotification,
        ]
    );
}

#[test]
fn failed_steps_collects_failing_indices_in_order() {
    let outcomes = vec![true, false, true, false, false, true];
    assert_eq!(failed_steps(&outcomes), vec![1, 3, 4]);
}

#[test]
fn failed_steps_is_empty_when_every_step_succeeds() {
    let outcomes = vec![true, true, true, true, true, true];
    assert_eq!(failed_steps(&outcomes), Vec::<usize>::new());
}

#[test]
fn failed_steps_reports_every_step_when_all_fail() {
    let outcomes = vec![false, false, false];
    assert_eq!(failed_steps(&outcomes), vec![0, 1, 2]);
}

#[test]
fn failed_steps_tolerates_no_outcomes() {
    let outcomes: Vec<bool> = Vec::new();
    assert_eq!(failed_steps(&outcomes), Vec::<usize>::new());
}
