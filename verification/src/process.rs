//! Commands that an adapter asks its caller to run, and what comes back from
//! running one.

use vstd::prelude::*;

verus! {

/// A command to run to completion, with its error output captured.
#[derive(Debug, PartialEq, Eq)]
pub struct CommandSpec {
    pub program: String,
    pub args: Vec<String>,
    /// Whether the standard output is captured too, or thrown away.
    pub capture_stdout: bool,
}

/// Mathematical model of a [`CommandSpec`].
pub struct CommandSpecView {
    pub program: Seq<char>,
    pub args: Seq<Seq<char>>,
    pub capture_stdout: bool,
}

impl View for CommandSpec {
    type V = CommandSpecView;

    open spec fn view(&self) -> CommandSpecView {
        CommandSpecView {
            program: self.program@,
            args: self.args.deep_view(),
            capture_stdout: self.capture_stdout,
        }
    }
}

/// What a command left behind when it ended.
#[derive(Debug, PartialEq, Eq)]
pub struct ProcessOutput {
    /// Whether the command exited with status zero.
    pub success: bool,
    pub stdout: Vec<u8>,
    pub stderr: Vec<u8>,
}

/// Mathematical model of a [`ProcessOutput`].
pub struct ProcessOutputView {
    pub success: bool,
    pub stdout: Seq<u8>,
    pub stderr: Seq<u8>,
}

impl View for ProcessOutput {
    type V = ProcessOutputView;

    open spec fn view(&self) -> ProcessOutputView {
        ProcessOutputView { success: self.success, stdout: self.stdout@, stderr: self.stderr@ }
    }
}

/// What running a command came to.
#[derive(Debug, PartialEq, Eq)]
pub enum RunOutcome {
    /// The command could not be started; the text is the system's account
    /// of why.
    SpawnFailed(String),
    /// The command ran and ended.
    Exited(ProcessOutput),
}

/// Mathematical model of a [`RunOutcome`].
pub enum RunOutcomeView {
    SpawnFailed(Seq<char>),
    Exited(ProcessOutputView),
}

impl View for RunOutcome {
    type V = RunOutcomeView;

    open spec fn view(&self) -> RunOutcomeView {
        match self {
            RunOutcome::SpawnFailed(reason) => RunOutcomeView::SpawnFailed(reason@),
            RunOutcome::Exited(output) => RunOutcomeView::Exited(output@),
        }
    }
}

} // verus!
