use tailcall_launchpad::process::ProcessOutcome;
use tailcall_launchpad::proto::GithubRequest;
use tailcall_launchpad::proto::GithubStatusEnum;
use tailcall_launchpad::services::github_service::GithubDeploymentService;
use tailcall_launchpad::status::Code;
use tailcall_launchpad::status::Status;
use tailcall_launchpad::AppError;

fn request() -> GithubRequest {
    GithubRequest {
        username: "alice".to_string(),
        repository: "app".to_string(),
        branch: "main".to_string(),
    }
}

fn outcome(exit_code: Option<i32>, stdout: &str, stderr: &str) -> ProcessOutcome {
    ProcessOutcome {
        exit_code,
        stdout: stdout.to_string(),
        stderr: stderr.to_string(),
    }
}

#[test]
fn zero_resources_means_down() {
    let service = GithubDeploymentService::default();
    let resp = service
        .status(&request(), &outcome(Some(0), "Current stack resources (0):\n", ""))
        .expect("a successful report yields a response");
    assert_eq!(resp.status, GithubStatusEnum::Down);
    assert_eq!(resp.username, "alice");
    assert_eq!(resp.repository, "app");
    assert_eq!(resp.branch, "main");
    assert_eq!(resp.endpoint, "");
    assert_eq!(resp.updated_at, "");
}

#[test]
fn full_report_yields_every_field() {
    let stdout = "Stack alice.-.app.-.main\n    Last updated: 2 days ago (2023-10-01 12:34:56.789000 +0000 UTC)\nCurrent stack resources (14):\nCurrent stack outputs (1):\n    OUTPUT          VALUE\n    url             https://abc.example.dev\n";
    let resp = GithubDeploymentService::default()
        .status(&request(), &outcome(Some(0), stdout, ""))
        .expect("a successful report yields a response");
    assert_eq!(resp.status, GithubStatusEnum::Deployed);
    assert_eq!(resp.endpoint, "https://abc.example.dev");
    assert_eq!(resp.updated_at, "2023-10-01 12:34:56.789000 +0000 UTC");
}

#[test]
fn unexpected_count_means_error() {
    let service = GithubDeploymentService::default();
    let resp = service
        .status(&request(), &outcome(Some(0), "Current stack resources (7):", ""))
        .unwrap();
    assert_eq!(resp.status, GithubStatusEnum::Error);
    // A count too large for an i32 is the unparseable sentinel.
    let resp = service
        .status(
            &request(),
            &outcome(Some(0), "Current stack resources (99999999999):", ""),
        )
        .unwrap();
    assert_eq!(resp.status, GithubStatusEnum::Error);
}

#[test]
fn missing_count_means_unknown() {
    let resp = GithubDeploymentService::default()
        .status(&request(), &outcome(Some(0), "nothing to see", ""))
        .unwrap();
    assert_eq!(resp.status, GithubStatusEnum::Unknown);
}

#[test]
fn missing_stack_is_not_found() {
    let st = GithubDeploymentService::default()
        .status(&request(), &outcome(Some(255), "", "error: no stack named 'x'"))
        .expect_err("a missing stack is an error");
    assert_eq!(st.code(), Code::NotFound);
    assert_eq!(
        st.message(),
        "No information have been found for this (repository, branch) combination."
    );
}

#[test]
fn conflict_wins_over_missing_stack() {
    let st = GithubDeploymentService::default()
        .status(
            &request(),
            &outcome(
                Some(255),
                "",
                "no stack named 'x'. Conflict: Another update is currently in progress.",
            ),
        )
        .expect_err("a conflict is an error");
    assert_eq!(st.code(), Code::Cancelled);
    assert_eq!(st.message(), "Another update is currently in progress");
}

#[test]
fn other_failures_are_internal() {
    let service = GithubDeploymentService::default();
    let st = service
        .status(&request(), &outcome(Some(1), "", "boom"))
        .expect_err("a hard failure is an error");
    assert_eq!(st.code(), Code::Internal);
    assert_eq!(st.message(), "Could not fetch metadata, please try again later.");

    let st = service
        .status(&request(), &outcome(None, "", ""))
        .expect_err("a killed process is an error");
    assert_eq!(st.code(), Code::Internal);
}

#[test]
fn app_errors_map_to_caller_statuses() {
    let st = Status::from_app_error(AppError::Conflict(
        "Another update is currently in progress".to_string(),
    ));
    assert_eq!(st.code(), Code::Cancelled);
    assert_eq!(st.message(), "Another update is currently in progress");

    let st = Status::from_app_error(AppError::Simple("stack init failed".to_string()));
    assert_eq!(st.code(), Code::Aborted);
    assert_eq!(st.message(), "stack init failed");

    let st = Status::from_app_error(AppError::IoError("spawn failed".to_string()));
    assert_eq!(st.code(), Code::Internal);
    assert_eq!(st.message(), "IO Error");

    let st = Status::from_app_error(AppError::RemoteRequestError("timeout".to_string()));
    assert_eq!(st.code(), Code::Internal);
    assert_eq!(st.message(), "Remote Request Error");
}
