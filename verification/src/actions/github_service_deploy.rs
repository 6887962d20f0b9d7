//! The deploy workflow: stack initialization, then apply, each step gated
//! by the classification of the external tool's outcome, with progress
//! reported on the channel.

use crate::classifier::Classification;
use crate::classifier::OpKind;
use crate::classifier::classify;
use crate::classifier::spec_classify;
use crate::process::OperationSpec;
use crate::process::ProcessOutcome;
use crate::process::ProcessOutcomeView;
use crate::process::operation_wf;
use crate::proto::GithubRequest;
use crate::proto::GithubRequestView;
use crate::text::check_match_at;
use crate::text::match_at;
use crate::text::scan_spaces;
use crate::text::scan_url_chars;
use crate::text::space_run_end;
use crate::text::url_run_end;
use crate::utils::ChannelView;
use crate::utils::EventView;
use crate::utils::MessageChannel;
use crate::utils::identifier;
use crate::AppError;
use crate::AppErrorView;
use crate::AppResult;
use vstd::prelude::*;

verus! {

/// End of a URL standing at position `q` of `t`: `http://` or `https://`
/// followed by at least one URL character; the URL runs to the end of that
/// character run.
pub open spec fn url_end_at(t: Seq<char>, q: int) -> Option<int> {
    if match_at(t, "https://"@, q) {
        let e = url_run_end(t, q + "https://"@.len());
        if e == q + "https://"@.len() {
            None
        } else {
            Some(e)
        }
    } else if match_at(t, "http://"@, q) {
        let e = url_run_end(t, q + "http://"@.len());
        if e == q + "http://"@.len() {
            None
        } else {
            Some(e)
        }
    } else {
        None
    }
}

/// Finds the end of a URL standing at position `q`.
pub fn url_end(t: &str, q: usize) -> (r: Option<usize>)
    requires
        q as int <= t@.len(),
        t@.len() <= usize::MAX as int,
    ensures
        match r {
            Some(e) => url_end_at(t@, q as int) == Some(e as int) && q < e && e as int <= t@.len(),
            None => url_end_at(t@, q as int) is None,
        },
{
    proof {
        reveal_strlit("https://");
        reveal_strlit("http://");
    }
    let n = t.unicode_len();
    if n - q >= 8 && check_match_at(t, "https://", q) {
        let e = scan_url_chars(t, q + 8);
        if e == q + 8 {
            None
        } else {
            Some(e)
        }
    } else if n - q >= 7 && check_match_at(t, "http://", q) {
        let e = scan_url_chars(t, q + 7);
        if e == q + 7 {
            None
        } else {
            Some(e)
        }
    } else {
        None
    }
}

/// The deployed-URL pattern anchored at position `i` of the apply report:
/// `Outputs:`, whitespace, `url:`, more whitespace, then the URL enclosed
/// in double quotes.
pub open spec fn deploy_url_at(t: Seq<char>, i: int) -> Option<Seq<char>> {
    if !match_at(t, "Outputs:"@, i) {
        None
    } else {
        let a = space_run_end(t, i + "Outputs:"@.len());
        if a == i + "Outputs:"@.len() {
            None
        } else if !match_at(t, "url:"@, a) {
            None
        } else {
            let b = space_run_end(t, a + "url:"@.len());
            if b == a + "url:"@.len() {
                None
            } else if !(b < t.len() && t[b] == '"') {
                None
            } else {
                match url_end_at(t, b + 1) {
                    Some(e) => if e < t.len() && t[e] == '"' {
                        Some(t.subrange(b + 1, e))
                    } else {
                        None
                    },
                    None => None,
                }
            }
        }
    }
}

/// The deployed URL at the first position of the report, scanning from
/// index `i`, where the whole pattern matches.
pub open spec fn deploy_url_from(t: Seq<char>, i: int) -> Option<Seq<char>>
    decreases t.len() - i,
{
    if i >= t.len() {
        None
    } else {
        match deploy_url_at(t, i) {
            Some(u) => Some(u),
            None => deploy_url_from(t, i + 1),
        }
    }
}

/// Where the deployed URL stands in the apply report.
pub open spec fn deploy_url_capture(t: Seq<char>) -> Option<Seq<char>> {
    deploy_url_from(t, 0)
}

/// Checks for the deployed-URL pattern anchored at position `i`, yielding
/// the capture's bounds.
fn deploy_url_at_check(input: &str, i: usize) -> (r: Option<(usize, usize)>)
    requires
        input@.len() <= usize::MAX as int,
        i as int <= input@.len(),
    ensures
        match r {
            Some(b) => deploy_url_at(input@, i as int) == Some(
                input@.subrange(b.0 as int, b.1 as int),
            ) && b.0 <= b.1 && b.1 as int <= input@.len(),
            None => deploy_url_at(input@, i as int) is None,
        },
{
    proof {
        reveal_strlit("Outputs:");
        reveal_strlit("url:");
    }
    let n = input.unicode_len();
    if n - i < 8 || !check_match_at(input, "Outputs:", i) {
        return None;
    }
    let a = scan_spaces(input, i + 8);
    if a == i + 8 {
        return None;
    }
    if n - a < 4 || !check_match_at(input, "url:", a) {
        return None;
    }
    let b = scan_spaces(input, a + 4);
    if b == a + 4 {
        return None;
    }
    if b == n {
        return None;
    }
    if input.get_char(b) != '"' {
        return None;
    }
    let e = match url_end(input, b + 1) {
        Some(e) => e,
        None => {
            return None;
        },
    };
    if e == n {
        return None;
    }
    if input.get_char(e) != '"' {
        return None;
    }
    Some((b + 1, e))
}

/// Extracts the deployed URL from the apply report.
pub fn extract_output_url(input: &str) -> (r: Option<String>)
    ensures
        match r {
            Some(u) => deploy_url_capture(input@) == Some(u@),
            None => deploy_url_capture(input@) is None,
        },
{
    let n = input.unicode_len();
    let mut i: usize = 0;
    while i < n
        invariant
            n == input@.len(),
            i <= n,
            deploy_url_from(input@, 0) == deploy_url_from(input@, i as int),
        decreases n - i,
    {
        match deploy_url_at_check(input, i) {
            Some(bounds) => {
                return Some(input.substring_char(bounds.0, bounds.1).to_owned());
            },
            None => {},
        }
        i += 1;
    }
    None
}

/// The linked-configuration argument of the apply operation, pointing at
/// the per-branch configuration resource.
pub open spec fn linked_config(r: GithubRequestView) -> Seq<char> {
    "linked_config=https://raw.githubusercontent.com/"@ + r.username + "/"@ + r.repository + "/"@
        + r.branch + "/config.graphql"@
}

/// Builds the linked-configuration argument for a request.
pub fn build_linked_config(request: &GithubRequest) -> (r: String)
    ensures
        r@ == linked_config(request@),
{
    let mut s = "linked_config=https://raw.githubusercontent.com/".to_owned();
    s.append(request.username.as_str());
    s.append("/");
    s.append(request.repository.as_str());
    s.append("/");
    s.append(request.branch.as_str());
    s.append("/config.graphql");
    proof {
        assert(s@ =~= linked_config(request@));
    }
    s
}

/// What the stack-initialization step does to the channel and reports,
/// given the outcome of the external operation.
pub open spec fn init_step_post(
    pre: ChannelView,
    post: ChannelView,
    o: ProcessOutcomeView,
    r: Result<(), AppError>,
) -> bool {
    let c = spec_classify(OpKind::StackInit, o.exit_code, o.stderr);
    match r {
        Ok(_) => (c == Classification::Success || c == Classification::BenignCondition)
            && post.emitted == pre.emitted + seq![
            EventView::Message("Initializing stack..."@),
            EventView::Message("Stack initialization finished..."@),
        ],
        Err(e) => (c == Classification::Conflict || c == Classification::HardFailure)
            && post.emitted == pre.emitted + seq![EventView::Message("Initializing stack..."@)]
            && (c == Classification::Conflict ==> e@ == AppErrorView::Conflict(
            "Another update is currently in progress"@,
        )) && (c == Classification::HardFailure ==> e@ == AppErrorView::Simple(
            "Stack initialization failed."@,
        )),
    }
}

/// Interprets the outcome of stack initialization: a benign "already
/// exists" counts as success, a conflict or hard failure ends the
/// workflow.
pub fn init_stack(message_channel: &mut MessageChannel, outcome: &ProcessOutcome) -> (r: AppResult<
    (),
>)
    requires
        old(message_channel).wf(),
    ensures
        final(message_channel).wf(),
        final(message_channel)@.capacity == old(message_channel)@.capacity,
        final(message_channel)@.connected == old(message_channel)@.connected,
        init_step_post(old(message_channel)@, final(message_channel)@, outcome@, r),
{
    let _ = message_channel.send_message("Initializing stack...");
    proof {
        assert(message_channel@.emitted =~= old(message_channel)@.emitted + seq![
            EventView::Message("Initializing stack..."@),
        ]);
    }
    let c = classify(OpKind::StackInit, outcome);
    match c {
        Classification::Conflict => {
            return Err(AppError::Conflict("Another update is currently in progress".to_owned()));
        },
        Classification::HardFailure => {
            return Err(AppError::Simple("Stack initialization failed.".to_owned()));
        },
        _ => {},
    }
    let _ = message_channel.send_message("Stack initialization finished...");
    proof {
        assert(message_channel@.emitted =~= old(message_channel)@.emitted + seq![
            EventView::Message("Initializing stack..."@),
            EventView::Message("Stack initialization finished..."@),
        ]);
    }
    Ok(())
}

/// The progress messages the apply step emits once the operation
/// succeeded: completion, and the deployed URL when the report shows one.
pub open spec fn apply_done_events(out: Seq<char>) -> Seq<EventView> {
    match deploy_url_capture(out) {
        Some(u) => seq![
            EventView::Message("Deployment finished..."@),
            EventView::Message("Deployed url: "@ + u),
        ],
        None => seq![EventView::Message("Deployment finished..."@)],
    }
}

/// What the apply step does to the channel and reports, given the outcome
/// of the external operation.
pub open spec fn apply_step_post(
    pre: ChannelView,
    post: ChannelView,
    o: ProcessOutcomeView,
    r: Result<(), AppError>,
) -> bool {
    let c = spec_classify(OpKind::Up, o.exit_code, o.stderr);
    match r {
        Ok(_) => (c == Classification::Success || c == Classification::BenignCondition)
            && post.emitted == pre.emitted + seq![EventView::Message("Deploying..."@)]
            + apply_done_events(o.stdout),
        Err(e) => (c == Classification::Conflict || c == Classification::HardFailure)
            && post.emitted == pre.emitted + seq![EventView::Message("Deploying..."@)] && (c
            == Classification::Conflict ==> e@ == AppErrorView::Conflict(
            "Another update is currently in progress"@,
        )) && (c == Classification::HardFailure ==> e@ == AppErrorView::Simple(
            "Deployment failed."@,
        )),
    }
}

/// A deploy step emits progress messages only: the single terminal
/// signal, if any, is the service's to append once the workflow has
/// failed, so the stream of one request terminates with at most one
/// terminal signal.
pub proof fn lemma_deploy_steps_emit_messages_only(
    pre: ChannelView,
    post: ChannelView,
    o: ProcessOutcomeView,
    r: Result<(), AppError>,
)
    requires
        crate::utils::all_messages(pre.emitted),
        init_step_post(pre, post, o, r) || apply_step_post(pre, post, o, r),
    ensures
        crate::utils::all_messages(post.emitted),
{
    let tail = post.emitted.subrange(pre.emitted.len() as int, post.emitted.len() as int);
    assert(post.emitted =~= pre.emitted + tail);
    assert forall|i: int| 0 <= i < tail.len() implies tail[i] is Message by {
        assert(tail[i] == post.emitted[pre.emitted.len() + i]);
    }
    crate::utils::lemma_all_messages_append(pre.emitted, tail);
}

/// Interprets the outcome of the apply operation, reporting the deployed
/// URL from the report when present.
pub fn deploy_stack(message_channel: &mut MessageChannel, outcome: &ProcessOutcome) -> (r:
    AppResult<()>)
    requires
        old(message_channel).wf(),
    ensures
        final(message_channel).wf(),
        final(message_channel)@.capacity == old(message_channel)@.capacity,
        final(message_channel)@.connected == old(message_channel)@.connected,
        apply_step_post(old(message_channel)@, final(message_channel)@, outcome@, r),
{
    let _ = message_channel.send_message("Deploying...");
    proof {
        assert(message_channel@.emitted =~= old(message_channel)@.emitted + seq![
            EventView::Message("Deploying..."@),
        ]);
    }
    let c = classify(OpKind::Up, outcome);
    match c {
        Classification::Conflict => {
            return Err(AppError::Conflict("Another update is currently in progress".to_owned()));
        },
        Classification::HardFailure => {
            return Err(AppError::Simple("Deployment failed.".to_owned()));
        },
        _ => {},
    }
    let _ = message_channel.send_message("Deployment finished...");
    match extract_output_url(outcome.stdout.as_str()) {
        Some(url) => {
            let mut msg = "Deployed url: ".to_owned();
            msg.append(url.as_str());
            let _ = message_channel.send_message(msg.as_str());
            proof {
                assert(msg@ == "Deployed url: "@ + deploy_url_capture(outcome@.stdout)->0);
                assert(message_channel@.emitted =~= old(message_channel)@.emitted + seq![
                    EventView::Message("Deploying..."@),
                ] + apply_done_events(outcome@.stdout));
            }
        },
        None => {
            proof {
                assert(message_channel@.emitted =~= old(message_channel)@.emitted + seq![
                    EventView::Message("Deploying..."@),
                ] + apply_done_events(outcome@.stdout));
            }
        },
    }
    Ok(())
}

/// The steps of the deploy workflow.
#[derive(Clone, Copy, PartialEq, Eq, Structural, Debug)]
pub enum DeployState {
    Init,
    Apply,
    Done,
    Failed,
}

/// The deploy workflow: stack initialization, then apply, then done; any
/// conflict or hard failure ends it.
#[derive(Debug)]
pub struct DeployWorkflow {
    state: DeployState,
}

impl View for DeployWorkflow {
    type V = DeployState;

    closed spec fn view(&self) -> DeployState {
        self.state
    }
}

impl DeployWorkflow {
    /// A deploy workflow about to run stack initialization.
    pub fn new() -> (w: DeployWorkflow)
        ensures
            w@ == DeployState::Init,
    {
        DeployWorkflow { state: DeployState::Init }
    }

    /// The workflow still has an operation to run.
    pub open spec fn in_progress(&self) -> bool {
        self@ == DeployState::Init || self@ == DeployState::Apply
    }

    pub fn state(&self) -> (s: DeployState)
        ensures
            s == self@,
    {
        self.state
    }

    /// The external operation to run next, or nothing once the workflow
    /// has ended.
    pub fn next_operation(&self, request: &GithubRequest) -> (op: Option<OperationSpec>)
        ensures
            match op {
                Some(o) => self.in_progress() && operation_wf(o@) && o@.stack == identifier(
                    request@,
                ) && (self@ == DeployState::Init ==> o@.kind == OpKind::StackInit) && (self@
                    == DeployState::Apply ==> o@.kind == OpKind::Up && o@.config == Some(
                    linked_config(request@),
                )),
                None => !self.in_progress(),
            },
    {
        match self.state {
            DeployState::Init => Some(
                OperationSpec {
                    kind: OpKind::StackInit,
                    stack: request.get_identifier(),
                    config: None,
                },
            ),
            DeployState::Apply => Some(
                OperationSpec {
                    kind: OpKind::Up,
                    stack: request.get_identifier(),
                    config: Some(build_linked_config(request)),
                },
            ),
            DeployState::Done => None,
            DeployState::Failed => None,
        }
    }

    /// Interprets the outcome of the pending operation, reports progress,
    /// and advances the workflow — or fails it, handing back the terminal
    /// error.
    pub fn advance(&mut self, message_channel: &mut MessageChannel, outcome: &ProcessOutcome) -> (r:
        AppResult<()>)
        requires
            old(self).in_progress(),
            old(message_channel).wf(),
        ensures
            final(message_channel).wf(),
            final(message_channel)@.capacity == old(message_channel)@.capacity,
            final(message_channel)@.connected == old(message_channel)@.connected,
            r is Ok ==> final(self)@ == (if old(self)@ == DeployState::Init {
                DeployState::Apply
            } else {
                DeployState::Done
            }),
            r is Err ==> final(self)@ == DeployState::Failed,
            old(self)@ == DeployState::Init ==> init_step_post(
                old(message_channel)@,
                final(message_channel)@,
                outcome@,
                r,
            ),
            old(self)@ == DeployState::Apply ==> apply_step_post(
                old(message_channel)@,
                final(message_channel)@,
                outcome@,
                r,
            ),
    {
        match self.state {
            DeployState::Init => {
                match init_stack(message_channel, outcome) {
                    Ok(_) => {
                        self.state = DeployState::Apply;
                        Ok(())
                    },
                    Err(e) => {
                        self.state = DeployState::Failed;
                        Err(e)
                    },
                }
            },
            DeployState::Apply => {
                match deploy_stack(message_channel, outcome) {
                    Ok(_) => {
                        self.state = DeployState::Done;
                        Ok(())
                    },
                    Err(e) => {
                        self.state = DeployState::Failed;
                        Err(e)
                    },
                }
            },
            DeployState::Done => Ok(()),
            DeployState::Failed => Ok(()),
        }
    }
}

} // verus!
