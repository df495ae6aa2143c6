use evscript::privdrop::{advance, initial_state, may_run_script, next_action, PrivAction, PrivState};

fn run_machine(privileged: bool) -> (Vec<PrivAction>, PrivState) {
    let mut state = initial_state(privileged);
    let mut actions = Vec::new();
    while let Some(a) = next_action(&state) {
        assert!(!may_run_script(&state));
        actions.push(a);
        state = advance(state);
    }
    (actions, state)
}

#[test]
fn privileged_start_runs_the_four_drops_in_order_then_the_sandbox() {
    let (actions, end) = run_machine(true);
    assert_eq!(
        actions,
        vec![
            PrivAction::DropGroups,
            PrivAction::SetGid,
            PrivAction::ChangeRoot,
            PrivAction::SetUid,
            PrivAction::ApplySandbox,
        ]
    );
    assert_eq!(end, PrivState::Sandboxed);
    assert!(may_run_script(&end));
}

#[test]
fn unprivileged_start_only_applies_the_sandbox() {
    let (actions, end) = run_machine(false);
    assert_eq!(actions, vec![PrivAction::ApplySandbox]);
    assert_eq!(end, PrivState::Sandboxed);
    assert!(may_run_script(&end));
}

#[test]
fn scripts_may_not_run_before_the_drop_completes() {
    for state in [
        PrivState::Privileged,
        PrivState::GroupsDropped,
        PrivState::GidDropped,
        PrivState::Chrooted,
        PrivState::UidDropped,
    ] {
        assert!(!may_run_script(&state));
        assert!(next_action(&state).is_some());
    }
    assert!(next_action(&PrivState::Sandboxed).is_none());
}
