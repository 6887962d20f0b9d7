//! A model of the wire-level status that operations report to callers:
//! a coarse code plus a human-readable message.

use vstd::prelude::*;

verus! {

/// The status codes the deployment operations use.
#[derive(Clone, Copy, PartialEq, Eq, Structural, Debug)]
pub enum Code {
    Cancelled,
    NotFound,
    Internal,
    Aborted,
    InvalidArgument,
    Unauthenticated,
}

/// Spec-level value of a [`Status`].
pub struct StatusView {
    pub code: Code,
    pub message: Seq<char>,
}

/// A terminal status: the single error that ends a streaming operation, or
/// the error response of the synchronous status query.
#[derive(Clone, Debug)]
pub struct Status {
    pub code: Code,
    pub message: String,
}

impl View for Status {
    type V = StatusView;

    open spec fn view(&self) -> StatusView {
        StatusView { code: self.code, message: self.message@ }
    }
}

impl Status {
    pub fn new(code: Code, message: String) -> (r: Status)
        ensures
            r@.code == code,
            r@.message == message@,
    {
        Status { code, message }
    }

    pub fn cancelled(message: &str) -> (r: Status)
        ensures
            r@.code == Code::Cancelled,
            r@.message == message@,
    {
        Status::new(Code::Cancelled, message.to_owned())
    }

    /// Like [`Status::cancelled`], for an already-owned message.
    pub fn cancelled_owned(message: String) -> (r: Status)
        ensures
            r@.code == Code::Cancelled,
            r@.message == message@,
    {
        Status::new(Code::Cancelled, message)
    }

    pub fn not_found(message: &str) -> (r: Status)
        ensures
            r@.code == Code::NotFound,
            r@.message == message@,
    {
        Status::new(Code::NotFound, message.to_owned())
    }

    pub fn internal(message: &str) -> (r: Status)
        ensures
            r@.code == Code::Internal,
            r@.message == message@,
    {
        Status::new(Code::Internal, message.to_owned())
    }

    pub fn aborted_owned(message: String) -> (r: Status)
        ensures
            r@.code == Code::Aborted,
            r@.message == message@,
    {
        Status::new(Code::Aborted, message)
    }

    pub fn code(&self) -> (c: Code)
        ensures
            c == self@.code,
    {
        self.code
    }

    pub fn message(&self) -> (m: &str)
        ensures
            m@ == self@.message,
    {
        self.message.as_str()
    }
}

} // verus!
