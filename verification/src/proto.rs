//! The request and response shapes of the deployment service boundary.

use vstd::prelude::*;

verus! {

/// Spec-level value of a [`GithubRequest`].
pub struct GithubRequestView {
    pub username: Seq<char>,
    pub repository: Seq<char>,
    pub branch: Seq<char>,
}

/// A request identifying one deployment unit by owner, repository and
/// branch.  Immutable once constructed.
#[derive(Clone, Debug)]
pub struct GithubRequest {
    pub username: String,
    pub repository: String,
    pub branch: String,
}

impl View for GithubRequest {
    type V = GithubRequestView;

    open spec fn view(&self) -> GithubRequestView {
        GithubRequestView {
            username: self.username@,
            repository: self.repository@,
            branch: self.branch@,
        }
    }
}

/// The coarse health of a deployment, derived from the resource count of
/// the external tool's report.
#[derive(Clone, Copy, PartialEq, Eq, Structural, Debug)]
pub enum GithubStatusEnum {
    Deployed,
    Down,
    Error,
    Unknown,
}

/// Spec-level value of a [`GithubResponse`].
pub struct GithubResponseView {
    pub username: Seq<char>,
    pub repository: Seq<char>,
    pub branch: Seq<char>,
    pub status: GithubStatusEnum,
    pub updated_at: Seq<char>,
    pub endpoint: Seq<char>,
}

/// The structured result of a status query, derived fresh on every query.
#[derive(Clone, Debug)]
pub struct GithubResponse {
    pub username: String,
    pub repository: String,
    pub branch: String,
    pub status: GithubStatusEnum,
    pub updated_at: String,
    pub endpoint: String,
}

impl View for GithubResponse {
    type V = GithubResponseView;

    open spec fn view(&self) -> GithubResponseView {
        GithubResponseView {
            username: self.username@,
            repository: self.repository@,
            branch: self.branch@,
            status: self.status,
            updated_at: self.updated_at@,
            endpoint: self.endpoint@,
        }
    }
}

/// One human-readable progress message of a streaming operation.
#[derive(Clone, Debug)]
pub struct StreamMessage {
    pub message: String,
}

/// The authenticated user a successful token check reports.
#[derive(Clone, Debug)]
pub struct UserInfoResponse {
    pub id: i64,
    pub username: String,
}

} // verus!
