use tailcall_launchpad::actions::github_service_deploy::DeployState;
use tailcall_launchpad::actions::github_service_deploy::DeployWorkflow;
use tailcall_launchpad::actions::github_service_teardown::TeardownState;
use tailcall_launchpad::actions::github_service_teardown::TeardownWorkflow;
use tailcall_launchpad::classifier::OpKind;
use tailcall_launchpad::process::ProcessOutcome;
use tailcall_launchpad::proto::GithubRequest;
use tailcall_launchpad::services::github_service::send_error;
use tailcall_launchpad::services::github_service::GithubDeploymentService;
use tailcall_launchpad::status::Code;
use tailcall_launchpad::utils::MessageChannel;
use tailcall_launchpad::utils::ProgressEvent;

fn request() -> GithubRequest {
    GithubRequest {
        username: "alice".to_string(),
        repository: "app".to_string(),
        branch: "main".to_string(),
    }
}

fn outcome(exit_code: Option<i32>, stdout: &str, stderr: &str) -> ProcessOutcome {
    ProcessOutcome {
        exit_code,
        stdout: stdout.to_string(),
        stderr: stderr.to_string(),
    }
}

fn drain(channel: &mut MessageChannel) -> Vec<String> {
    let mut msgs = Vec::new();
    while let Some(ev) = channel.recv() {
        match ev {
            ProgressEvent::Message(m) => msgs.push(m),
            ProgressEvent::Terminal(_) => panic!("unexpected terminal event"),
        }
    }
    msgs
}

#[test]
fn deploy_happy_path_ends_with_the_deployed_url() {
    let service = GithubDeploymentService::default();
    let (mut workflow, mut channel) = service.deploy();
    let req = request();

    let op = workflow.next_operation(&req).expect("an operation is pending");
    assert_eq!(op.kind, OpKind::StackInit);
    assert_eq!(op.stack, "alice.-.app.-.main");
    let r = workflow.advance(&mut channel, &outcome(Some(0), "", ""));
    assert!(r.is_ok());
    assert_eq!(
        drain(&mut channel),
        vec!["Initializing stack...", "Stack initialization finished..."]
    );

    let op = workflow.next_operation(&req).expect("an operation is pending");
    assert_eq!(op.kind, OpKind::Up);
    assert_eq!(
        op.config.as_deref(),
        Some("linked_config=https://raw.githubusercontent.com/alice/app/main/config.graphql")
    );
    let apply = outcome(Some(0), "Outputs:\n  url: \"https://example.com\"\n", "");
    let r = workflow.advance(&mut channel, &apply);
    assert!(r.is_ok());
    assert_eq!(workflow.state(), DeployState::Done);
    let msgs = drain(&mut channel);
    assert_eq!(
        msgs,
        vec![
            "Deploying...",
            "Deployment finished...",
            "Deployed url: https://example.com"
        ]
    );
    assert!(workflow.next_operation(&req).is_none());
}

#[test]
fn deploy_conflict_stops_before_apply() {
    let service = GithubDeploymentService::default();
    let (mut workflow, mut channel) = service.deploy();
    let req = request();

    let init = outcome(
        Some(255),
        "",
        "error: [409] Conflict: Another update is currently in progress.",
    );
    let err = workflow
        .advance(&mut channel, &init)
        .expect_err("a conflict ends the workflow");
    assert_eq!(workflow.state(), DeployState::Failed);
    assert!(workflow.next_operation(&req).is_none());

    send_error(&mut channel, err);
    match channel.recv() {
        Some(ProgressEvent::Message(m)) => assert_eq!(m, "Initializing stack..."),
        _ => panic!("expected the announcement message"),
    }
    match channel.recv() {
        Some(ProgressEvent::Terminal(status)) => {
            assert_eq!(status.code(), Code::Cancelled);
            assert_eq!(status.message(), "Another update is currently in progress");
        }
        _ => panic!("expected a single terminal error"),
    }
    assert!(channel.recv().is_none());
}

#[test]
fn deploy_hard_failure_reports_fixed_message() {
    let (mut workflow, mut channel) = GithubDeploymentService::default().deploy();
    let err = workflow
        .advance(&mut channel, &outcome(Some(1), "", "boom"))
        .expect_err("a hard failure ends the workflow");
    send_error(&mut channel, err);
    drop(channel.recv());
    match channel.recv() {
        Some(ProgressEvent::Terminal(status)) => {
            assert_eq!(status.code(), Code::Aborted);
            assert_eq!(status.message(), "Stack initialization failed.");
        }
        _ => panic!("expected a terminal error"),
    }
}

#[test]
fn teardown_missing_stack_is_benign() {
    let service = GithubDeploymentService::default();
    let (mut workflow, mut channel) = service.teardown();
    let req = request();

    let op = workflow.next_operation(&req).expect("an operation is pending");
    assert_eq!(op.kind, OpKind::Destroy);
    let destroy = outcome(Some(255), "", "error: no stack named 'alice.-.app.-.main'");
    let r = workflow.advance(&mut channel, &destroy);
    assert!(r.is_ok());
    assert_eq!(workflow.state(), TeardownState::RemoveStack);
    assert_eq!(
        drain(&mut channel),
        vec!["Tearing down deployment...", "Tearing down finished..."]
    );

    let op = workflow.next_operation(&req).expect("an operation is pending");
    assert_eq!(op.kind, OpKind::StackRemove);
    let r = workflow.advance(&mut channel, &outcome(Some(0), "", ""));
    assert!(r.is_ok());
    assert_eq!(workflow.state(), TeardownState::Done);
    assert_eq!(
        drain(&mut channel),
        vec!["Removing deployment stack...", "Stack removed successfully..."]
    );
}

#[test]
fn teardown_conflict_fails() {
    let (mut workflow, mut channel) = GithubDeploymentService::default().teardown();
    let err = workflow
        .advance(
            &mut channel,
            &outcome(Some(1), "", "Conflict: Another update is currently in progress."),
        )
        .expect_err("a conflict ends the workflow");
    assert_eq!(workflow.state(), TeardownState::Failed);
    send_error(&mut channel, err);
    drop(channel.recv());
    match channel.recv() {
        Some(ProgressEvent::Terminal(status)) => {
            assert_eq!(status.code(), Code::Cancelled);
            assert_eq!(status.message(), "Another update is currently in progress");
        }
        _ => panic!("expected a terminal error"),
    }
}

#[test]
fn disconnected_consumer_does_not_abort_a_workflow() {
    let mut workflow = DeployWorkflow::new();
    let mut channel = MessageChannel::new(4);
    channel.disconnect();
    let r = workflow.advance(&mut channel, &outcome(Some(0), "", ""));
    assert!(r.is_ok());
    assert_eq!(workflow.state(), DeployState::Apply);
    let r = workflow.advance(
        &mut channel,
        &outcome(Some(0), "Outputs:\n  url: \"https://example.com\"\n", ""),
    );
    assert!(r.is_ok());
    assert_eq!(workflow.state(), DeployState::Done);
    // Nothing was queued for the vanished consumer, and nothing failed.
    assert_eq!(channel.queued(), 0);

    let mut teardown = TeardownWorkflow::new();
    let mut channel = MessageChannel::new(4);
    channel.disconnect();
    assert!(teardown.advance(&mut channel, &outcome(Some(0), "", "")).is_ok());
    assert!(teardown.advance(&mut channel, &outcome(Some(0), "", "")).is_ok());
    assert_eq!(teardown.state(), TeardownState::Done);
}
