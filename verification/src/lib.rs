//! Deployment lifecycle orchestration for per-tenant environments.
//!
//! The library drives a multi-step external-process workflow per request,
//! classifies subprocess outcomes from exit codes and captured text,
//! multiplexes progress messages into an ordered, backpressured channel,
//! and reconstructs structured status from an external tool's free-text
//! report.  Everything here is pure logic over plain values: running the
//! external processes and carrying the streams over a network is left to
//! the surrounding program.

pub mod actions;
pub mod classifier;
pub mod process;
pub mod proto;
pub mod services;
pub mod status;
pub mod text;
pub mod utils;

use vstd::prelude::*;

verus! {

/// Spec-level value of an [`AppError`].
pub enum AppErrorView {
    Conflict(Seq<char>),
    Simple(Seq<char>),
    IoError(Seq<char>),
    RemoteRequestError(Seq<char>),
}

/// The internal error taxonomy of the workflows: a conflict — the external
/// unit is busy, transient and retryable; a hard failure with its short,
/// caller-visible message; an I/O failure starting a process; or a failed
/// remote call.
#[derive(Debug)]
pub enum AppError {
    Conflict(String),
    Simple(String),
    IoError(String),
    RemoteRequestError(String),
}

impl View for AppError {
    type V = AppErrorView;

    open spec fn view(&self) -> AppErrorView {
        match self {
            AppError::Conflict(m) => AppErrorView::Conflict(m@),
            AppError::Simple(m) => AppErrorView::Simple(m@),
            AppError::IoError(m) => AppErrorView::IoError(m@),
            AppError::RemoteRequestError(m) => AppErrorView::RemoteRequestError(m@),
        }
    }
}

pub type AppResult<T> = Result<T, AppError>;

/// The status that a workflow error surfaces to a caller: a conflict is
/// cancelled — actionable, the caller may retry later — with its
/// informative message; a hard failure is aborted with its own short
/// message; I/O and remote failures get a fixed, non-leaking text.
pub open spec fn spec_status_of_app_error(e: AppErrorView) -> crate::status::StatusView {
    match e {
        AppErrorView::Conflict(m) => crate::status::StatusView {
            code: crate::status::Code::Cancelled,
            message: m,
        },
        AppErrorView::Simple(m) => crate::status::StatusView {
            code: crate::status::Code::Aborted,
            message: m,
        },
        AppErrorView::IoError(_) => crate::status::StatusView {
            code: crate::status::Code::Internal,
            message: "IO Error"@,
        },
        AppErrorView::RemoteRequestError(_) => crate::status::StatusView {
            code: crate::status::Code::Internal,
            message: "Remote Request Error"@,
        },
    }
}

impl crate::status::Status {
    /// Maps an internal error to the status a caller sees.
    pub fn from_app_error(value: AppError) -> (r: crate::status::Status)
        ensures
            r@ == spec_status_of_app_error(value@),
    {
        match value {
            AppError::Conflict(error) => crate::status::Status::cancelled_owned(error),
            AppError::Simple(error) => crate::status::Status::aborted_owned(error),
            AppError::IoError(_error) => crate::status::Status::internal("IO Error"),
            AppError::RemoteRequestError(_error) => crate::status::Status::internal(
                "Remote Request Error",
            ),
        }
    }
}

} // verus!
