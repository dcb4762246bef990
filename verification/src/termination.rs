//! Terminating the tracked process.

use vstd::prelude::*;
use vstd::string::*;
use crate::command::{texts_of, CommandLine, CommandLineView, ProcessOutput};
use crate::error::{SupervisorError, SupervisorErrorView};
use crate::registry::ChromeState;
use crate::sidecar::{result_view, run_outcome, run_report};
use crate::text::{decimal, pid_text};

verus! {

/// The command line that sends the termination signal to `pid`: `kill` with
/// the decimal process id as its only argument.
pub open spec fn kill_command_view(pid: u32) -> CommandLineView {
    CommandLineView { program: "kill"@, args: seq![decimal(pid as nat)], current_dir: None }
}

/// The command line that sends the termination signal to `pid`.
pub fn kill_command(pid: u32) -> (command: CommandLine)
    ensures
        command@ == kill_command_view(pid),
{
    let mut args: Vec<String> = Vec::new();
    args.push(pid_text(pid));
    assert(texts_of(args@) =~= seq![decimal(pid as nat)]);
    CommandLine { program: String::from_str("kill"), args, current_dir: None }
}

/// Decides a kill request against the registry.
///
/// It fails with `NotRunning` if and only if nothing is tracked. Otherwise it
/// hands back the one command line to run, which signals the tracked id. The
/// registry is only read: the id stays tracked after the kill.
pub fn kill_request(state: &ChromeState) -> (res: Result<CommandLine, SupervisorError>)
    ensures
        res is Err <==> state.current_pid() is None,
        res is Err ==> res->Err_0@ == SupervisorErrorView::NotRunning,
        res is Ok ==> res->Ok_0@ == kill_command_view(state.current_pid()->Some_0),
{
    match state.get() {
        Some(pid) => Ok(kill_command(pid)),
        None => Err(SupervisorError::NotRunning),
    }
}

/// The result of a kill, given what running its command returned: the text
/// that the command wrote to stdout where it succeeded, the exit-code message
/// where it did not, or a spawn failure where it could not be run.
pub fn kill_report(run: Result<ProcessOutput, String>) -> (res: Result<String, SupervisorError>)
    ensures
        result_view(res) == run_outcome(run),
{
    run_report(run)
}

} // verus!
