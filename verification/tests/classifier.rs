use tailcall_launchpad::classifier::classify;
use tailcall_launchpad::classifier::status_from_resources;
use tailcall_launchpad::classifier::Classification;
use tailcall_launchpad::classifier::OpKind;
use tailcall_launchpad::classifier::FULL_RESOURCE_COUNT;
use tailcall_launchpad::process::ProcessOutcome;
use tailcall_launchpad::proto::GithubStatusEnum;

fn outcome(exit_code: Option<i32>, stderr: &str) -> ProcessOutcome {
    ProcessOutcome {
        exit_code,
        stdout: String::new(),
        stderr: stderr.to_string(),
    }
}

#[test]
fn exit_zero_is_success_whatever_the_text() {
    let o = outcome(
        Some(0),
        "Conflict: Another update is currently in progress. already exists no stack named",
    );
    assert_eq!(classify(OpKind::StackInit, &o), Classification::Success);
    assert_eq!(classify(OpKind::Up, &o), Classification::Success);
    assert_eq!(classify(OpKind::Destroy, &o), Classification::Success);
    assert_eq!(classify(OpKind::StackRemove, &o), Classification::Success);
    assert_eq!(classify(OpKind::StackInfo, &o), Classification::Success);
}

#[test]
fn absent_exit_code_is_hard_failure() {
    let o = outcome(None, "");
    assert_eq!(classify(OpKind::StackInit, &o), Classification::HardFailure);
    assert_eq!(classify(OpKind::Up, &o), Classification::HardFailure);
    assert_eq!(classify(OpKind::Destroy, &o), Classification::HardFailure);
}

#[test]
fn conflict_marker_wins_over_benign_marker() {
    let o = outcome(
        Some(255),
        "stack already exists\nConflict: Another update is currently in progress.\n",
    );
    assert_eq!(classify(OpKind::StackInit, &o), Classification::Conflict);
    let o2 = outcome(
        Some(1),
        "no stack named 'x'; Conflict: Another update is currently in progress.",
    );
    assert_eq!(classify(OpKind::Destroy, &o2), Classification::Conflict);
}

#[test]
fn benign_markers_are_per_operation() {
    let exists = outcome(Some(255), "error: stack 'x' already exists");
    assert_eq!(
        classify(OpKind::StackInit, &exists),
        Classification::BenignCondition
    );
    assert_eq!(classify(OpKind::Up, &exists), Classification::HardFailure);
    assert_eq!(
        classify(OpKind::Destroy, &exists),
        Classification::HardFailure
    );

    let missing = outcome(Some(255), "error: no stack named 'x'");
    assert_eq!(
        classify(OpKind::Destroy, &missing),
        Classification::BenignCondition
    );
    assert_eq!(
        classify(OpKind::StackRemove, &missing),
        Classification::BenignCondition
    );
    assert_eq!(
        classify(OpKind::StackInit, &missing),
        Classification::HardFailure
    );
}

#[test]
fn anything_else_is_hard_failure() {
    let o = outcome(Some(1), "segmentation fault");
    assert_eq!(classify(OpKind::StackInit, &o), Classification::HardFailure);
    assert_eq!(classify(OpKind::Up, &o), Classification::HardFailure);
}

#[test]
fn health_mapping_boundary_values() {
    assert_eq!(status_from_resources(None), GithubStatusEnum::Unknown);
    assert_eq!(status_from_resources(Some(-1)), GithubStatusEnum::Error);
    assert_eq!(status_from_resources(Some(0)), GithubStatusEnum::Down);
    assert_eq!(
        status_from_resources(Some(FULL_RESOURCE_COUNT - 1)),
        GithubStatusEnum::Error
    );
    assert_eq!(
        status_from_resources(Some(FULL_RESOURCE_COUNT)),
        GithubStatusEnum::Deployed
    );
    assert_eq!(
        status_from_resources(Some(FULL_RESOURCE_COUNT + 1)),
        GithubStatusEnum::Error
    );
}
