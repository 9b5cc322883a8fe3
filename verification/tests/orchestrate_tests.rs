use xp_cli::orchestrate::OrchestrationResult;
use xp_cli::orchestrate::OrchestrationState;
use xp_cli::orchestrate::StepKind;
use xp_cli::orchestrate::lifecycle_steps;
use xp_cli::orchestrate::prompt_answer;
use xp_cli::orchestrate::run_lifecycle;

#[test]
fn clean_run_reaches_up_in_three_steps() {
    let codes = vec![0, 0, 0];
    let (results, state) = run_lifecycle(&codes);
    assert_eq!(state, OrchestrationState::Up);
    assert_eq!(
        results,
        vec![
            OrchestrationResult::Succeeded,
            OrchestrationResult::Succeeded,
            OrchestrationResult::Succeeded,
        ]
    );
}

#[test]
fn init_failure_short_circuits_before_up() {
    // if the initialization step exits non-zero, the final step never runs
    let codes = vec![0, 2, 0];
    let (results, state) = run_lifecycle(&codes);
    assert_eq!(
        state,
        OrchestrationState::Failed { at: StepKind::Initialized, exit_status: 2 }
    );
    assert_eq!(results.len(), 2);
    assert_eq!(results[1], OrchestrationResult::Failed { exit_status: 2 });
}

#[test]
fn services_failure_stops_everything() {
    let codes = vec![1, 0, 0];
    let (results, state) = run_lifecycle(&codes);
    assert_eq!(
        state,
        OrchestrationState::Failed { at: StepKind::ServicesUp, exit_status: 1 }
    );
    assert_eq!(results.len(), 1);
}

#[test]
fn state_machine_advances_step_by_step() {
    let s0 = OrchestrationState::NotStarted;
    assert_eq!(s0.next_step(), Some(StepKind::ServicesUp));
    let s1 = s0.advance(0);
    assert_eq!(s1, OrchestrationState::ServicesUp);
    assert_eq!(s1.next_step(), Some(StepKind::Initialized));
    let s2 = s1.advance(0);
    assert_eq!(s2, OrchestrationState::Initialized);
    assert_eq!(s2.next_step(), Some(StepKind::Up));
    let s3 = s2.advance(0);
    assert_eq!(s3, OrchestrationState::Up);
    assert_eq!(s3.next_step(), None);
}

#[test]
fn failed_state_is_terminal() {
    let failed = OrchestrationState::NotStarted.advance(9);
    assert_eq!(
        failed,
        OrchestrationState::Failed { at: StepKind::ServicesUp, exit_status: 9 }
    );
    assert_eq!(failed.next_step(), None);
    assert_eq!(failed.advance(0), failed);
}

#[test]
fn lifecycle_steps_describe_the_three_invocations() {
    let steps = lifecycle_steps("/tmp/proj", "proj");
    assert_eq!(steps.len(), 3);

    assert_eq!(steps[0].step, StepKind::ServicesUp);
    assert_eq!(steps[0].program, "warden");
    assert_eq!(steps[0].args, vec!["svc", "up"]);
    assert_eq!(steps[0].working_directory, None);
    assert!(!steps[0].requires_prompt_answer);

    assert_eq!(steps[1].step, StepKind::Initialized);
    assert_eq!(steps[1].program, "warden");
    assert_eq!(steps[1].args, vec!["env-init", "proj", "magento2"]);
    assert_eq!(steps[1].working_directory.as_deref(), Some("/tmp/proj"));
    assert!(steps[1].requires_prompt_answer);

    assert_eq!(steps[2].step, StepKind::Up);
    assert_eq!(steps[2].program, "warden");
    assert_eq!(steps[2].args, vec!["env", "up"]);
    assert_eq!(steps[2].working_directory.as_deref(), Some("/tmp/proj"));
    assert!(!steps[2].requires_prompt_answer);
}

#[test]
fn prompt_is_answered_affirmatively() {
    assert_eq!(prompt_answer(), "y\n");
}

#[test]
fn step_names_match_their_states() {
    assert_eq!(StepKind::ServicesUp.name(), "ServicesUp");
    assert_eq!(StepKind::Initialized.name(), "Initialized");
    assert_eq!(StepKind::Up.name(), "Up");
}
