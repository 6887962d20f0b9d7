//! The boundary to the external provisioning tool: the outcome of one
//! subprocess invocation, and the fixed argument shape of each operation.
//! Running the process itself is I/O and lives outside the library; the
//! workflows consume the captured outcome as plain values.

use crate::classifier::OpKind;
use vstd::prelude::*;

verus! {

/// Spec-level value of a [`ProcessOutcome`].
pub struct ProcessOutcomeView {
    pub exit_code: Option<int>,
    pub stdout: Seq<char>,
    pub stderr: Seq<char>,
}

/// What one subprocess invocation produced: the exit code (absent when the
/// process could not be started or was killed) and both captured output
/// streams.
#[derive(Debug)]
pub struct ProcessOutcome {
    pub exit_code: Option<i32>,
    pub stdout: String,
    pub stderr: String,
}

impl View for ProcessOutcome {
    type V = ProcessOutcomeView;

    open spec fn view(&self) -> ProcessOutcomeView {
        ProcessOutcomeView {
            exit_code: match self.exit_code {
                Some(c) => Some(c as int),
                None => None,
            },
            stdout: self.stdout@,
            stderr: self.stderr@,
        }
    }
}

/// Spec-level value of an [`OperationSpec`].
pub struct OperationSpecView {
    pub kind: OpKind,
    pub stack: Seq<char>,
    pub config: Option<Seq<char>>,
}

/// One operation of the external tool: its kind, the unit (stack) name it
/// acts on, and, for the apply operation, the linked-configuration
/// argument.
#[derive(Debug)]
pub struct OperationSpec {
    pub kind: OpKind,
    pub stack: String,
    pub config: Option<String>,
}

impl View for OperationSpec {
    type V = OperationSpecView;

    open spec fn view(&self) -> OperationSpecView {
        OperationSpecView {
            kind: self.kind,
            stack: self.stack@,
            config: match self.config {
                Some(c) => Some(c@),
                None => None,
            },
        }
    }
}

/// The apply operation carries a linked configuration; the others do not.
pub open spec fn operation_wf(op: OperationSpecView) -> bool {
    (op.kind == OpKind::Up) <==> (op.config is Some)
}

/// The fixed command-line shape of each operation, after the subcommand of
/// the external tool itself.
pub open spec fn spec_command_args(op: OperationSpecView, dir: Seq<char>) -> Seq<Seq<char>> {
    match op.kind {
        OpKind::StackInit => seq!["stack"@, "init"@, op.stack, "-C"@, dir],
        OpKind::Up => match op.config {
            Some(c) => seq!["up"@, "-c"@, c, "-s"@, op.stack, "-C"@, dir, "-y"@],
            None => seq![],
        },
        OpKind::Destroy => seq!["destroy"@, "-s"@, op.stack, "-C"@, dir, "-y"@],
        OpKind::StackRemove => seq!["stack"@, "rm"@, op.stack, "-C"@, dir, "-y"@],
        OpKind::StackInfo => seq!["stack"@, "-s"@, op.stack, "-C"@, dir],
    }
}

impl OperationSpec {
    /// The argument vector to hand the external tool for this operation,
    /// with the working directory fixed to `directory`.
    pub fn command_args(&self, directory: &str) -> (args: Vec<String>)
        requires
            operation_wf(self@),
        ensures
            args.deep_view() == spec_command_args(self@, directory@),
    {
        let mut v: Vec<String> = Vec::new();
        match self.kind {
            OpKind::StackInit => {
                v.push("stack".to_owned());
                v.push("init".to_owned());
                v.push(self.stack.clone());
                v.push("-C".to_owned());
                v.push(directory.to_owned());
            },
            OpKind::Up => {
                let config = match &self.config {
                    Some(c) => c.clone(),
                    None => String::new(),
                };
                v.push("up".to_owned());
                v.push("-c".to_owned());
                v.push(config);
                v.push("-s".to_owned());
                v.push(self.stack.clone());
                v.push("-C".to_owned());
                v.push(directory.to_owned());
                v.push("-y".to_owned());
            },
            OpKind::Destroy => {
                v.push("destroy".to_owned());
                v.push("-s".to_owned());
                v.push(self.stack.clone());
                v.push("-C".to_owned());
                v.push(directory.to_owned());
                v.push("-y".to_owned());
            },
            OpKind::StackRemove => {
                v.push("stack".to_owned());
                v.push("rm".to_owned());
                v.push(self.stack.clone());
                v.push("-C".to_owned());
                v.push(directory.to_owned());
                v.push("-y".to_owned());
            },
            OpKind::StackInfo => {
                v.push("stack".to_owned());
                v.push("-s".to_owned());
                v.push(self.stack.clone());
                v.push("-C".to_owned());
                v.push(directory.to_owned());
            },
        }
        proof {
            assert(v.deep_view() =~~= spec_command_args(self@, directory@));
        }
        v
    }
}

} // verus!
