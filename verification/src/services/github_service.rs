//! The request-handling facade: each streaming operation gets one fresh
//! workflow and one progress channel; the synchronous status query runs
//! inline and returns its structured result directly.

use crate::actions::github_service_deploy::DeployState;
use crate::actions::github_service_deploy::DeployWorkflow;
use crate::actions::github_service_status;
use crate::actions::github_service_status::spec_status_response;
use crate::actions::github_service_teardown::TeardownState;
use crate::actions::github_service_teardown::TeardownWorkflow;
use crate::classifier::Classification;
use crate::classifier::OpKind;
use crate::classifier::spec_classify;
use crate::process::ProcessOutcome;
use crate::proto::GithubRequest;
use crate::proto::GithubResponse;
use crate::status::Code;
use crate::status::Status;
use crate::utils::CHANNEL_CAPACITY;
use crate::utils::EventView;
use crate::utils::MessageChannel;
use crate::utils::SendResult;
use crate::utils::spec_send;
use crate::spec_status_of_app_error;
use crate::AppError;
use vstd::prelude::*;

verus! {

/// The deployment service: it owns no state — each request gets its own
/// workflow and channel, and mutual exclusion for a unit is delegated to
/// the external tool's own locking.
#[derive(Debug, Default)]
pub struct GithubDeploymentService {}

impl GithubDeploymentService {
    /// Starts a deploy request: a fresh workflow about to initialize the
    /// stack, and the bounded progress channel its consumer streams from.
    pub fn deploy(&self) -> (r: (DeployWorkflow, MessageChannel))
        ensures
            r.0@ == DeployState::Init,
            r.1.wf(),
            r.1@.connected,
            r.1@.capacity == CHANNEL_CAPACITY as nat,
            r.1@.queue.len() == 0,
            r.1@.delivered.len() == 0,
            r.1@.emitted.len() == 0,
    {
        (DeployWorkflow::new(), MessageChannel::new(CHANNEL_CAPACITY))
    }

    /// Starts a teardown request: a fresh workflow about to destroy the
    /// provisioned resources, and its progress channel.
    pub fn teardown(&self) -> (r: (TeardownWorkflow, MessageChannel))
        ensures
            r.0@ == TeardownState::Destroy,
            r.1.wf(),
            r.1@.connected,
            r.1@.capacity == CHANNEL_CAPACITY as nat,
            r.1@.queue.len() == 0,
            r.1@.delivered.len() == 0,
            r.1@.emitted.len() == 0,
    {
        (TeardownWorkflow::new(), MessageChannel::new(CHANNEL_CAPACITY))
    }

    /// Runs the synchronous status query against the stack-info outcome.
    pub fn status(&self, request: &GithubRequest, outcome: &ProcessOutcome) -> (r: Result<
        GithubResponse,
        Status,
    >)
        ensures
            ({
                let c = spec_classify(OpKind::StackInfo, outcome@.exit_code, outcome@.stderr);
                match r {
                    Ok(resp) => c == Classification::Success && resp@ == spec_status_response(
                        request@,
                        outcome@.stdout,
                    ),
                    Err(st) => match c {
                        Classification::Success => false,
                        Classification::Conflict => st@.code == Code::Cancelled && st@.message
                            == "Another update is currently in progress"@,
                        Classification::BenignCondition => st@.code == Code::NotFound
                            && st@.message
                            == "No information have been found for this (repository, branch) combination."@,
                        Classification::HardFailure => st@.code == Code::Internal && st@.message
                            == "Could not fetch metadata, please try again later."@,
                    },
                }
            }),
    {
        github_service_status::handle(request, outcome)
    }
}

/// Reports a workflow error as the single terminal event of the progress
/// stream, with the caller-facing code of [`spec_status_of_app_error`]: a
/// conflict is cancelled, a hard failure aborted, an I/O or remote
/// failure internal.
pub fn send_error(message_channel: &mut MessageChannel, err: AppError) -> (r: SendResult)
    requires
        old(message_channel).wf(),
    ensures
        final(message_channel).wf(),
        (final(message_channel)@, r) == spec_send(
            old(message_channel)@,
            EventView::Terminal(spec_status_of_app_error(err@)),
        ),
{
    let ghost ev = err@;
    let status = Status::from_app_error(err);
    message_channel.send_status(status)
}

} // verus!
