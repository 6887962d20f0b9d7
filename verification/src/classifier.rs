//! The output classifier: the normalized outcome of one subprocess
//! invocation, derived from its exit code and captured stderr text, and the
//! coarse health state derived from a reported resource count.

use crate::process::ProcessOutcome;
use crate::proto::GithubStatusEnum;
use crate::text::contains_pattern;
use crate::text::contains_seq;
use vstd::prelude::*;

verus! {

/// The operations the workflows run through the external tool.
#[derive(Clone, Copy, PartialEq, Eq, Structural, Debug)]
pub enum OpKind {
    StackInit,
    Up,
    Destroy,
    StackRemove,
    StackInfo,
}

/// The normalized outcome of one subprocess invocation.
#[derive(Clone, Copy, PartialEq, Eq, Structural, Debug)]
pub enum Classification {
    Success,
    BenignCondition,
    Conflict,
    HardFailure,
}

/// The external tool's "concurrent update in progress" marker.
pub open spec fn conflict_marker() -> Seq<char> {
    "Conflict: Another update is currently in progress."@
}

/// The stderr marker that makes a non-zero exit expected for the given
/// operation: "already exists" for stack initialization, "no stack named"
/// for the teardown and query operations, nothing for apply.
pub open spec fn benign_marker(op: OpKind) -> Option<Seq<char>> {
    match op {
        OpKind::StackInit => Some("already exists"@),
        OpKind::Up => None,
        OpKind::Destroy => Some("no stack named"@),
        OpKind::StackRemove => Some("no stack named"@),
        OpKind::StackInfo => Some("no stack named"@),
    }
}

/// Classification, in priority order: an absent exit code is a hard
/// failure; exit code zero is success whatever the text; the conflict
/// marker decides next, irrespective of operation; then the operation's
/// benign marker; anything else is a hard failure.
pub open spec fn spec_classify(op: OpKind, exit_code: Option<int>, stderr: Seq<char>) -> Classification {
    match exit_code {
        None => Classification::HardFailure,
        Some(code) => if code == 0 {
            Classification::Success
        } else if contains_seq(stderr, conflict_marker()) {
            Classification::Conflict
        } else {
            match benign_marker(op) {
                Some(m) => if contains_seq(stderr, m) {
                    Classification::BenignCondition
                } else {
                    Classification::HardFailure
                },
                None => Classification::HardFailure,
            }
        },
    }
}

/// Classifies one subprocess outcome.  Total: every exit code and every
/// text yield exactly one classification.
pub fn classify(op: OpKind, outcome: &ProcessOutcome) -> (c: Classification)
    ensures
        c == spec_classify(op, outcome@.exit_code, outcome@.stderr),
{
    match outcome.exit_code {
        None => Classification::HardFailure,
        Some(code) => {
            if code == 0 {
                Classification::Success
            } else if contains_pattern(
                outcome.stderr.as_str(),
                "Conflict: Another update is currently in progress.",
            ) {
                Classification::Conflict
            } else {
                let benign: Option<&str> = match op {
                    OpKind::StackInit => Some("already exists"),
                    OpKind::Up => None,
                    OpKind::Destroy => Some("no stack named"),
                    OpKind::StackRemove => Some("no stack named"),
                    OpKind::StackInfo => Some("no stack named"),
                };
                match benign {
                    Some(m) => if contains_pattern(outcome.stderr.as_str(), m) {
                        Classification::BenignCondition
                    } else {
                        Classification::HardFailure
                    },
                    None => Classification::HardFailure,
                }
            }
        },
    }
}

/// Exit code zero always classifies as success, regardless of the text.
pub proof fn lemma_exit_zero_is_success(op: OpKind, stderr: Seq<char>)
    ensures
        spec_classify(op, Some(0), stderr) == Classification::Success,
{
}

/// Conflict precedence: with a non-zero exit code, the conflict marker in
/// stderr decides, even when a benign-condition marker is present too.
pub proof fn lemma_conflict_precedence(op: OpKind, code: int, stderr: Seq<char>)
    requires
        code != 0,
        contains_seq(stderr, conflict_marker()),
    ensures
        spec_classify(op, Some(code), stderr) == Classification::Conflict,
{
}

/// The number of resources the provisioning template holds in its
/// fully-provisioned steady state.  The health heuristic below treats
/// exactly this count as "deployed".
pub const FULL_RESOURCE_COUNT: i32 = 14;

/// Health from a reported resource count: the full count means deployed,
/// zero means down, any other present count (including the unparseable
/// sentinel) means error, an absent count is unknown.
pub open spec fn spec_status_from_resources(count: Option<i32>) -> GithubStatusEnum {
    match count {
        None => GithubStatusEnum::Unknown,
        Some(n) => if n == FULL_RESOURCE_COUNT {
            GithubStatusEnum::Deployed
        } else if n == 0 {
            GithubStatusEnum::Down
        } else {
            GithubStatusEnum::Error
        },
    }
}

/// Derives the coarse health state from a reported resource count.  Total:
/// every count, present or absent, maps to exactly one state.
pub fn status_from_resources(count: Option<i32>) -> (s: GithubStatusEnum)
    ensures
        s == spec_status_from_resources(count),
{
    match count {
        None => GithubStatusEnum::Unknown,
        Some(n) => {
            if n == FULL_RESOURCE_COUNT {
                GithubStatusEnum::Deployed
            } else if n == 0 {
                GithubStatusEnum::Down
            } else {
                GithubStatusEnum::Error
            }
        },
    }
}

/// The health mapping is total and each state comes from exactly the
/// counts stated here.
pub proof fn lemma_health_mapping(count: Option<i32>)
    ensures
        (spec_status_from_resources(count) == GithubStatusEnum::Deployed) <==> (count == Some(
            FULL_RESOURCE_COUNT,
        )),
        (spec_status_from_resources(count) == GithubStatusEnum::Down) <==> (count == Some(0i32)),
        (spec_status_from_resources(count) == GithubStatusEnum::Unknown) <==> (count is None),
{
}

} // verus!
