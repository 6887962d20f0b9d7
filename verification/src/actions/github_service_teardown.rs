//! The teardown workflow: destroy the provisioned resources, then remove
//! the stack, each step gated by the classification of the external
//! tool's outcome.  A "no stack named" answer is benign: there is nothing
//! to tear down.

use crate::classifier::Classification;
use crate::classifier::OpKind;
use crate::classifier::classify;
use crate::classifier::spec_classify;
use crate::process::OperationSpec;
use crate::process::ProcessOutcome;
use crate::process::ProcessOutcomeView;
use crate::process::operation_wf;
use crate::proto::GithubRequest;
use crate::utils::ChannelView;
use crate::utils::EventView;
use crate::utils::MessageChannel;
use crate::utils::identifier;
use crate::AppError;
use crate::AppErrorView;
use crate::AppResult;
use vstd::prelude::*;

verus! {

/// What the destroy step does to the channel and reports, given the
/// outcome of the external operation.
pub open spec fn destroy_step_post(
    pre: ChannelView,
    post: ChannelView,
    o: ProcessOutcomeView,
    r: Result<(), AppError>,
) -> bool {
    let c = spec_classify(OpKind::Destroy, o.exit_code, o.stderr);
    match r {
        Ok(_) => (c == Classification::Success || c == Classification::BenignCondition)
            && post.emitted == pre.emitted + seq![
            EventView::Message("Tearing down deployment..."@),
            EventView::Message("Tearing down finished..."@),
        ],
        Err(e) => (c == Classification::Conflict || c == Classification::HardFailure)
            && post.emitted == pre.emitted + seq![
            EventView::Message("Tearing down deployment..."@),
        ] && (c == Classification::Conflict ==> e@ == AppErrorView::Conflict(
            "Another update is currently in progress"@,
        )) && (c == Classification::HardFailure ==> e@ == AppErrorView::Simple(
            "Tearing down failed."@,
        )),
    }
}

/// Interprets the outcome of the destroy operation.
pub fn teardown_deployment(message_channel: &mut MessageChannel, outcome: &ProcessOutcome) -> (r:
    AppResult<()>)
    requires
        old(message_channel).wf(),
    ensures
        final(message_channel).wf(),
        final(message_channel)@.capacity == old(message_channel)@.capacity,
        final(message_channel)@.connected == old(message_channel)@.connected,
        destroy_step_post(old(message_channel)@, final(message_channel)@, outcome@, r),
{
    let _ = message_channel.send_message("Tearing down deployment...");
    proof {
        assert(message_channel@.emitted =~= old(message_channel)@.emitted + seq![
            EventView::Message("Tearing down deployment..."@),
        ]);
    }
    let c = classify(OpKind::Destroy, outcome);
    match c {
        Classification::Conflict => {
            return Err(AppError::Conflict("Another update is currently in progress".to_owned()));
        },
        Classification::HardFailure => {
            return Err(AppError::Simple("Tearing down failed.".to_owned()));
        },
        _ => {},
    }
    let _ = message_channel.send_message("Tearing down finished...");
    proof {
        assert(message_channel@.emitted =~= old(message_channel)@.emitted + seq![
            EventView::Message("Tearing down deployment..."@),
            EventView::Message("Tearing down finished..."@),
        ]);
    }
    Ok(())
}

/// What the stack-removal step does to the channel and reports, given the
/// outcome of the external operation.
pub open spec fn remove_step_post(
    pre: ChannelView,
    post: ChannelView,
    o: ProcessOutcomeView,
    r: Result<(), AppError>,
) -> bool {
    let c = spec_classify(OpKind::StackRemove, o.exit_code, o.stderr);
    match r {
        Ok(_) => (c == Classification::Success || c == Classification::BenignCondition)
            && post.emitted == pre.emitted + seq![
            EventView::Message("Removing deployment stack..."@),
            EventView::Message("Stack removed successfully..."@),
        ],
        Err(e) => (c == Classification::Conflict || c == Classification::HardFailure)
            && post.emitted == pre.emitted + seq![
            EventView::Message("Removing deployment stack..."@),
        ] && (c == Classification::Conflict ==> e@ == AppErrorView::Conflict(
            "Another update is currently in progress"@,
        )) && (c == Classification::HardFailure ==> e@ == AppErrorView::Simple(
            "Removing of stack failed."@,
        )),
    }
}

/// A teardown step emits progress messages only: the single terminal
/// signal, if any, is the service's to append once the workflow has
/// failed, so the stream of one request terminates with at most one
/// terminal signal.
pub proof fn lemma_teardown_steps_emit_messages_only(
    pre: ChannelView,
    post: ChannelView,
    o: ProcessOutcomeView,
    r: Result<(), AppError>,
)
    requires
        crate::utils::all_messages(pre.emitted),
        destroy_step_post(pre, post, o, r) || remove_step_post(pre, post, o, r),
    ensures
        crate::utils::all_messages(post.emitted),
{
    let tail = post.emitted.subrange(pre.emitted.len() as int, post.emitted.len() as int);
    assert(post.emitted =~= pre.emitted + tail);
    assert forall|i: int| 0 <= i < tail.len() implies tail[i] is Message by {
        assert(tail[i] == post.emitted[pre.emitted.len() + i]);
    }
    crate::utils::lemma_all_messages_append(pre.emitted, tail);
}

/// Interprets the outcome of the stack-removal operation.
pub fn remove_stack(message_channel: &mut MessageChannel, outcome: &ProcessOutcome) -> (r:
    AppResult<()>)
    requires
        old(message_channel).wf(),
    ensures
        final(message_channel).wf(),
        final(message_channel)@.capacity == old(message_channel)@.capacity,
        final(message_channel)@.connected == old(message_channel)@.connected,
        remove_step_post(old(message_channel)@, final(message_channel)@, outcome@, r),
{
    let _ = message_channel.send_message("Removing deployment stack...");
    proof {
        assert(message_channel@.emitted =~= old(message_channel)@.emitted + seq![
            EventView::Message("Removing deployment stack..."@),
        ]);
    }
    let c = classify(OpKind::StackRemove, outcome);
    match c {
        Classification::Conflict => {
            return Err(AppError::Conflict("Another update is currently in progress".to_owned()));
        },
        Classification::HardFailure => {
            return Err(AppError::Simple("Removing of stack failed.".to_owned()));
        },
        _ => {},
    }
    let _ = message_channel.send_message("Stack removed successfully...");
    proof {
        assert(message_channel@.emitted =~= old(message_channel)@.emitted + seq![
            EventView::Message("Removing deployment stack..."@),
            EventView::Message("Stack removed successfully..."@),
        ]);
    }
    Ok(())
}

/// The steps of the teardown workflow.
#[derive(Clone, Copy, PartialEq, Eq, Structural, Debug)]
pub enum TeardownState {
    Destroy,
    RemoveStack,
    Done,
    Failed,
}

/// The teardown workflow: destroy, then stack removal, then done; any
/// conflict or hard failure ends it.
#[derive(Debug)]
pub struct TeardownWorkflow {
    state: TeardownState,
}

impl View for TeardownWorkflow {
    type V = TeardownState;

    closed spec fn view(&self) -> TeardownState {
        self.state
    }
}

impl TeardownWorkflow {
    /// A teardown workflow about to destroy the provisioned resources.
    pub fn new() -> (w: TeardownWorkflow)
        ensures
            w@ == TeardownState::Destroy,
    {
        TeardownWorkflow { state: TeardownState::Destroy }
    }

    /// The workflow still has an operation to run.
    pub open spec fn in_progress(&self) -> bool {
        self@ == TeardownState::Destroy || self@ == TeardownState::RemoveStack
    }

    pub fn state(&self) -> (s: TeardownState)
        ensures
            s == self@,
    {
        self.state
    }

    /// The external operation to run next, or nothing once the workflow
    /// has ended.
    pub fn next_operation(&self, request: &GithubRequest) -> (op: Option<OperationSpec>)
        ensures
            match op {
                Some(o) => self.in_progress() && operation_wf(o@) && o@.stack == identifier(
                    request@,
                ) && (self@ == TeardownState::Destroy ==> o@.kind == OpKind::Destroy) && (self@
                    == TeardownState::RemoveStack ==> o@.kind == OpKind::StackRemove),
                None => !self.in_progress(),
            },
    {
        match self.state {
            TeardownState::Destroy => Some(
                OperationSpec {
                    kind: OpKind::Destroy,
                    stack: request.get_identifier(),
                    config: None,
                },
            ),
            TeardownState::RemoveStack => Some(
                OperationSpec {
                    kind: OpKind::StackRemove,
                    stack: request.get_identifier(),
                    config: None,
                },
            ),
            TeardownState::Done => None,
            TeardownState::Failed => None,
        }
    }

    /// Interprets the outcome of the pending operation, reports progress,
    /// and advances the workflow — or fails it, handing back the terminal
    /// error.
    pub fn advance(&mut self, message_channel: &mut MessageChannel, outcome: &ProcessOutcome) -> (r:
        AppResult<()>)
        requires
            old(self).in_progress(),
            old(message_channel).wf(),
        ensures
            final(message_channel).wf(),
            final(message_channel)@.capacity == old(message_channel)@.capacity,
            final(message_channel)@.connected == old(message_channel)@.connected,
            r is Ok ==> final(self)@ == (if old(self)@ == TeardownState::Destroy {
                TeardownState::RemoveStack
            } else {
                TeardownState::Done
            }),
            r is Err ==> final(self)@ == TeardownState::Failed,
            old(self)@ == TeardownState::Destroy ==> destroy_step_post(
                old(message_channel)@,
                final(message_channel)@,
                outcome@,
                r,
            ),
            old(self)@ == TeardownState::RemoveStack ==> remove_step_post(
                old(message_channel)@,
                final(message_channel)@,
                outcome@,
                r,
            ),
    {
        match self.state {
            TeardownState::Destroy => {
                match teardown_deployment(message_channel, outcome) {
                    Ok(_) => {
                        self.state = TeardownState::RemoveStack;
                        Ok(())
                    },
                    Err(e) => {
                        self.state = TeardownState::Failed;
                        Err(e)
                    },
                }
            },
            TeardownState::RemoveStack => {
                match remove_stack(message_channel, outcome) {
                    Ok(_) => {
                        self.state = TeardownState::Done;
                        Ok(())
                    },
                    Err(e) => {
                        self.state = TeardownState::Failed;
                        Err(e)
                    },
                }
            },
            TeardownState::Done => Ok(()),
            TeardownState::Failed => Ok(()),
        }
    }
}

} // verus!
