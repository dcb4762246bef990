//! Running the bundled tool: the command lines to run, and what is made of a
//! finished or started run.

use vstd::prelude::*;
use vstd::string::*;
use vstd::utf8::*;
use crate::command::{texts_of, CommandLine, CommandLineView, ProcessOutput};
use crate::error::{message_text, SupervisorError, SupervisorErrorView};
use crate::text::{
    decode_output, lemma_utf8_output_is_verbatim, output_text, push_exit_code, signed_decimal,
};

verus! {

/// An invocation of the bundled tool with one argument.
pub open spec fn sidecar_view(argument: Seq<char>, current_dir: Option<Seq<char>>)
    -> CommandLineView {
    CommandLineView { program: "bun"@, args: seq![argument], current_dir }
}

fn sidecar_command(argument: &str, current_dir: Option<String>) -> (command: CommandLine)
    ensures
        command@ == sidecar_view(
            argument@,
            match current_dir {
                Some(dir) => Some(dir@),
                None => None,
            },
        ),
{
    let mut args: Vec<String> = Vec::new();
    args.push(String::from_str(argument));
    assert(texts_of(args@) =~= seq![argument@]);
    CommandLine { program: String::from_str("bun"), args, current_dir }
}

/// The command line that asks the tool for its version.
pub fn version_command() -> (command: CommandLine)
    ensures
        command@ == sidecar_view("--version"@, None),
{
    sidecar_command("--version", None)
}

/// The command line that installs the dependencies of the project at
/// `project_path`.
pub fn install_command(project_path: &str) -> (command: CommandLine)
    ensures
        command@ == sidecar_view("install"@, Some(project_path@)),
{
    sidecar_command("install", Some(String::from_str(project_path)))
}

/// The command line that starts the dev server of the project at
/// `project_path`.
pub fn dev_command(project_path: &str) -> (command: CommandLine)
    ensures
        command@ == sidecar_view("dev"@, Some(project_path@)),
{
    sidecar_command("dev", Some(String::from_str(project_path)))
}

/// The message for an unsuccessful run: its exit code in decimal, or, for a
/// run that ended without one (a signal ended it), the words that say so.
pub open spec fn exit_report(code: Option<i32>) -> Seq<char> {
    match code {
        Some(code) => "Exit with code: "@ + signed_decimal(code as int),
        None => "Exit without a code"@,
    }
}

/// The report of a finished one-shot run: the decoded stdout of a successful
/// run, as it was written; the exit-code message of an unsuccessful one.
pub open spec fn outcome_text(success: bool, code: Option<i32>, stdout: Seq<u8>) -> Seq<char> {
    if success {
        output_text(stdout)
    } else {
        exit_report(code)
    }
}

/// What a one-shot run comes to, given what running it returned: a run that
/// could not be started or awaited is a spawn failure with the runner's
/// words; a finished run gives its report.
pub open spec fn run_outcome(run: Result<ProcessOutput, String>) -> Result<
    Seq<char>,
    SupervisorErrorView,
> {
    match run {
        Err(detail) => Err(SupervisorErrorView::SpawnFailure(detail@)),
        Ok(output) => Ok(outcome_text(output.success, output.code, output.stdout@)),
    }
}

/// The texts of a result.
pub open spec fn result_view(res: Result<String, SupervisorError>) -> Result<
    Seq<char>,
    SupervisorErrorView,
> {
    match res {
        Ok(text) => Ok(text@),
        Err(error) => Err(error@),
    }
}

/// Writes the message for an unsuccessful run.
pub fn report_exit(code: Option<i32>) -> (text: String)
    ensures
        text@ == exit_report(code),
{
    match code {
        Some(code) => {
            let mut text = String::from_str("Exit with code: ");
            push_exit_code(&mut text, code);
            text
        },
        None => String::from_str("Exit without a code"),
    }
}

/// The report of a finished one-shot run.
///
/// A successful run reports its stdout, decoded lossily and otherwise
/// untouched. An unsuccessful run reports its exit code, whatever it wrote.
pub fn outcome_report(output: ProcessOutput) -> (text: String)
    ensures
        text@ == outcome_text(output.success, output.code, output.stdout@),
{
    if output.success {
        decode_output(&output.stdout)
    } else {
        report_exit(output.code)
    }
}

/// The result of a one-shot run, given what running it returned.
///
/// It fails exactly where the run could not be started or awaited, with a
/// spawn failure that carries the runner's words. Every finished run
/// succeeds with its report.
pub fn run_report(run: Result<ProcessOutput, String>) -> (res: Result<String, SupervisorError>)
    ensures
        result_view(res) == run_outcome(run),
{
    match run {
        Err(detail) => Err(SupervisorError::SpawnFailure(detail)),
        Ok(output) => Ok(outcome_report(output)),
    }
}

/// The result of the tool's version check, given what running it returned:
/// the version as the tool printed it, the exit-code message of an
/// unsuccessful run, or a spawn failure.
pub fn version_report(run: Result<ProcessOutput, String>) -> (res: Result<
    String,
    SupervisorError,
>)
    ensures
        result_view(res) == run_outcome(run),
{
    run_report(run)
}

/// A successful one-shot run that wrote `words` to stdout in UTF-8 reports
/// exactly those words, whatever its exit code and for every text: nothing is
/// quoted, escaped or added.
pub proof fn lemma_report_shows_stdout(words: Seq<char>, code: Option<i32>)
    ensures
        outcome_text(true, code, encode_utf8(words)) == words,
{
    lemma_utf8_output_is_verbatim(words);
}

/// What an install run comes to, given how it ended and what it wrote.
pub open spec fn install_outcome(success: bool, stdout: Seq<u8>, stderr: Seq<u8>) -> Result<
    Seq<char>,
    SupervisorErrorView,
> {
    if success {
        Ok(output_text(stdout))
    } else {
        Err(SupervisorErrorView::NonZeroExit(output_text(stderr)))
    }
}

/// The result of an install run.
///
/// A run that could not be started or awaited is a spawn failure with the
/// runner's words. A successful run gives its stdout; an unsuccessful one is
/// `NonZeroExit` with its stderr verbatim. Both are decoded lossily.
pub fn install_result(run: Result<ProcessOutput, String>) -> (res: Result<
    String,
    SupervisorError,
>)
    ensures
        result_view(res) == (match run {
            Err(detail) => Err(SupervisorErrorView::SpawnFailure(detail@)),
            Ok(output) => install_outcome(output.success, output.stdout@, output.stderr@),
        }),
{
    match run {
        Err(detail) => Err(SupervisorError::SpawnFailure(detail)),
        Ok(output) => {
            if output.success {
                Ok(decode_output(&output.stdout))
            } else {
                Err(SupervisorError::NonZeroExit(decode_output(&output.stderr)))
            }
        },
    }
}

/// An install run that fails after writing `words` to stderr in UTF-8 is
/// reported with those words: the error carries them verbatim, and its
/// message ends with them. A successful run that wrote `words` to stdout
/// gives them back.
pub proof fn lemma_install_shows_what_was_written(words: Seq<char>, other: Seq<u8>)
    ensures
        install_outcome(false, other, encode_utf8(words)) == Err::<
            Seq<char>,
            SupervisorErrorView,
        >(SupervisorErrorView::NonZeroExit(words)),
        message_text(SupervisorErrorView::NonZeroExit(words)) == "Failed to run bun install: "@
            + words,
        install_outcome(true, encode_utf8(words), other) == Ok::<Seq<char>, SupervisorErrorView>(
            words,
        ),
{
    lemma_utf8_output_is_verbatim(words);
}

/// The acknowledgement of a dev server start.
///
/// It is given as soon as the process is spawned: nothing of the run itself
/// is known yet, and its output goes to the collector. A process that could
/// not be spawned is a spawn failure with the runner's words.
pub fn dev_started(spawned: Result<(), String>) -> (res: Result<String, SupervisorError>)
    ensures
        match spawned {
            Ok(_) => res is Ok && res->Ok_0@ == "starting bun dev"@,
            Err(detail) => res is Err && res->Err_0@ == SupervisorErrorView::SpawnFailure(
                detail@,
            ),
        },
{
    match spawned {
        Ok(_) => Ok(String::from_str("starting bun dev")),
        Err(detail) => Err(SupervisorError::SpawnFailure(detail)),
    }
}

} // verus!
