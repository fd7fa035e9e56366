//! What is needed to run a command in a pseudo-terminal.

use vstd::prelude::*;
use crate::constants::{SCREEN_MAX_HEIGHT, SCREEN_MAX_WIDTH};
use crate::pty_executor::dimension::Dimension;
use crate::terminal_builder::TerminalBuilderError;

pub mod dimension;

verus! {

#[verifier::external_type_specification]
#[verifier::external_body]
pub struct ExIoError(std::io::Error);

/// Why a command could not be run to its end.
#[derive(Debug)]
pub enum PtyExecutorError {
    IoError(std::io::Error),
    /// There is no command to run.
    EmptyCommand,
    PtyOpenFailed(String),
    CloneReaderFailed(String),
    SpawnChildFailed(String),
    TakeWriterFailed(String),
    ThreadJoinFailed(String),
    TerminalBuilderError(TerminalBuilderError),
    Timeout,
    ChildPanicked,
}

/// How to set the pseudo-terminal up.
#[derive(Debug, Clone)]
pub struct PtyOptions {
    pub cols: Dimension,
    pub rows: Dimension,
    /// Seconds after which the command is killed; `None` lets it run.
    pub timeout: Option<u64>,
}

/// A command split into the program and its arguments, with the size of the
/// pseudo-terminal to open for it.
#[derive(Debug, Clone)]
pub struct PtyRequest {
    pub program: String,
    pub args: Vec<String>,
    pub cols: u16,
    pub rows: u16,
}

/// Runs commands in a pseudo-terminal.
pub struct PtyExecutor {}

impl PtyOptions {
    /// Columns and rows of the pseudo-terminal: a dimension left open takes
    /// the largest size supported.
    pub fn size(&self) -> (r: (u16, u16))
        ensures
            r.0 == self.cols.resolve(SCREEN_MAX_WIDTH),
            r.1 == self.rows.resolve(SCREEN_MAX_HEIGHT),
    {
        (self.cols.to_u16(SCREEN_MAX_WIDTH), self.rows.to_u16(SCREEN_MAX_HEIGHT))
    }
}

impl PtyExecutor {
    /// Splits `command` into program and arguments and resolves the size of
    /// the pseudo-terminal.  An empty command is refused, and no other.
    pub fn prepare(pty_options: &PtyOptions, command: &Vec<String>) -> (r: Result<
        PtyRequest,
        PtyExecutorError,
    >)
        ensures
            command@.len() == 0 ==> r is Err && r->Err_0 is EmptyCommand,
            command@.len() > 0 ==> r is Ok && {
                let request = r->Ok_0;
                &&& request.program@ == command@[0]@
                &&& request.args@.len() == command@.len() - 1
                &&& forall|i: int|
                    0 <= i < request.args@.len() ==> (#[trigger] request.args@[i])@ == command@[i
                        + 1]@
                &&& request.cols == pty_options.cols.resolve(SCREEN_MAX_WIDTH)
                &&& request.rows == pty_options.rows.resolve(SCREEN_MAX_HEIGHT)
            },
    {
        if command.len() == 0 {
            return Err(PtyExecutorError::EmptyCommand);
        }
        let program = command[0].clone();
        let mut args: Vec<String> = Vec::new();
        let mut i: usize = 1;
        while i < command.len()
            invariant
                1 <= i <= command.len(),
                args@.len() == i - 1,
                forall|j: int| 0 <= j < args@.len() ==> (#[trigger] args@[j])@ == command@[j + 1]@,
            decreases command.len() - i,
        {
            args.push(command[i].clone());
            i = i + 1;
        }
        let (cols, rows) = pty_options.size();
        Ok(PtyRequest { program, args, cols, rows })
    }
}

} // verus!
