use vstd::prelude::*;

verus! {

/// An external command: the program and its arguments.
pub struct CommandSpec {
    pub program: String,
    pub args: Vec<String>,
}

/// What a command that ran left behind: its exit code (none when it was
/// ended by a signal) and what it wrote, as text.
pub struct CommandOutput {
    pub code: Option<i32>,
    pub stdout: String,
    pub stderr: String,
}

/// Why a stage of a build failed.
#[derive(Debug)]
pub enum TaskError {
    /// The package could not be requested.
    DownloadRequest,
    /// The response could not be read or written out.
    DownloadResponse,
    /// The command could not be started.
    CommandExecute(String),
    /// The command ran and did not succeed: its exit code, stdout and stderr.
    Command(Option<i32>, String, String),
}

impl TaskError {
    /// A copy of this error.
    pub fn duplicate(&self) -> (r: TaskError)
        ensures
            r == *self,
    {
        match self {
            TaskError::DownloadRequest => TaskError::DownloadRequest,
            TaskError::DownloadResponse => TaskError::DownloadResponse,
            TaskError::CommandExecute(m) => TaskError::CommandExecute(m.clone()),
            TaskError::Command(c, out, err) => TaskError::Command(*c, out.clone(), err.clone()),
        }
    }
}

/// A command succeeded when it exited with code zero.
pub open spec fn succeeded(out: CommandOutput) -> bool {
    out.code == Some(0i32)
}

/// The stage result of a command: `Ok` on success, the diagnostic otherwise.
pub open spec fn command_result(outcome: Result<CommandOutput, String>) -> Result<(), TaskError> {
    match outcome {
        Err(e) => Err(TaskError::CommandExecute(e)),
        Ok(out) => if succeeded(out) {
            Ok(())
        } else {
            Err(TaskError::Command(out.code, out.stdout, out.stderr))
        },
    }
}

/// Turns what running a command gave (its output, or why it could not be
/// started) into the result of a stage, passing the diagnostic on verbatim.
pub fn run_command(outcome: Result<CommandOutput, String>) -> (r: Result<(), TaskError>)
    ensures
        r == command_result(outcome),
{
    match outcome {
        Err(e) => Err(TaskError::CommandExecute(e)),
        Ok(out) => {
            let ok = match out.code {
                Some(c) => c == 0,
                None => false,
            };
            if ok {
                Ok(())
            } else {
                Err(TaskError::Command(out.code, out.stdout, out.stderr))
            }
        },
    }
}

} // verus!
