//! The command executor's decisions: how a command line splits into a
//! program and its arguments, and how the result of running it is judged.
//!
//! Spawning the process is the caller's part. It hands over what the
//! process left behind, and `conclude` says what that amounts to.

use crate::text::{integer, integer_text, split_tokens, texts, tokens};
use vstd::prelude::*;
use vstd::string::*;
use vstd::utf8::{decode_utf8, encode_utf8, encode_utf8_decode_utf8, valid_utf8};

verus! {

/// What a finished process left behind, before its output is read as text.
#[derive(Debug, PartialEq, Eq)]
pub struct RawOutput {
    /// The numeric exit code, absent where the platform reports none.
    pub exit_code: Option<i32>,
    pub stdout: Vec<u8>,
    pub stderr: Vec<u8>,
}

/// What one command invocation produced.
#[derive(Debug, PartialEq, Eq)]
pub struct CommandResult {
    /// The numeric exit code, absent where the platform reports none.
    pub exit_code: Option<i32>,
    pub stdout: String,
    pub stderr: String,
}

/// The model of a `CommandResult`.
pub struct CommandResultView {
    pub exit_code: Option<i32>,
    pub stdout: Seq<char>,
    pub stderr: Seq<char>,
}

impl View for CommandResult {
    type V = CommandResultView;

    open spec fn view(&self) -> CommandResultView {
        CommandResultView { exit_code: self.exit_code, stdout: self.stdout@, stderr: self.stderr@ }
    }
}

/// How a command ended, judged by its exit code.
#[derive(Debug, PartialEq, Eq)]
pub enum CommandOutcome {
    /// The exit code was an accepted one; holds the standard output.
    Success(String),
    /// The exit code was not an accepted one; holds the diagnostic.
    Failure(String),
}

/// The model of a `CommandOutcome`.
pub enum CommandOutcomeView {
    Success(Seq<char>),
    Failure(Seq<char>),
}

impl View for CommandOutcome {
    type V = CommandOutcomeView;

    open spec fn view(&self) -> CommandOutcomeView {
        match self {
            CommandOutcome::Success(stdout) => CommandOutcomeView::Success(stdout@),
            CommandOutcome::Failure(diagnostic) => CommandOutcomeView::Failure(diagnostic@),
        }
    }
}

/// Why a command could not be run or judged.
#[derive(Debug, PartialEq, Eq)]
pub enum ExecError {
    /// The command line holds no token.
    InvalidCommand,
    /// The output of the process is not valid text.
    EncodingError,
    /// The process could not be started, or ended without an exit code;
    /// holds the reason.
    ExecutionError(String),
}

/// The model of an `ExecError`.
pub enum ExecErrorView {
    InvalidCommand,
    EncodingError,
    ExecutionError(Seq<char>),
}

impl View for ExecError {
    type V = ExecErrorView;

    open spec fn view(&self) -> ExecErrorView {
        match self {
            ExecError::InvalidCommand => ExecErrorView::InvalidCommand,
            ExecError::EncodingError => ExecErrorView::EncodingError,
            ExecError::ExecutionError(reason) => ExecErrorView::ExecutionError(reason@),
        }
    }
}

/// The model of what the executor hands back for one command.
pub open spec fn judgement_view(judgement: Result<CommandOutcome, ExecError>) -> Result<
    CommandOutcomeView,
    ExecErrorView,
> {
    match judgement {
        Ok(outcome) => Ok(outcome@),
        Err(error) => Err(error@),
    }
}

/// A program and its positional arguments.
#[derive(Debug, PartialEq, Eq)]
pub struct Invocation {
    pub program: String,
    pub args: Vec<String>,
}

/// Splits a command line at white space: the first token is the program,
/// the others are its arguments, passed on as they stand. Nothing is
/// expanded and no quoting is understood.
///
/// A command line without a token is an `InvalidCommand`.
pub fn parse_command_line(command_line: &str) -> (parsed: Result<Invocation, ExecError>)
    ensures
        parsed is Ok <==> tokens(command_line@).len() > 0,
        parsed matches Ok(invocation) ==> {
            &&& invocation.program@ == tokens(command_line@)[0]
            &&& texts(invocation.args@) == tokens(command_line@).skip(1)
        },
        parsed matches Err(error) ==> error@ == ExecErrorView::InvalidCommand,
{
    let mut toks = split_tokens(command_line);
    if toks.len() == 0 {
        return Err(ExecError::InvalidCommand);
    }
    let program = toks.remove(0);
    Ok(Invocation { program, args: toks })
}

/// Reads bytes as UTF-8 text.
///
/// Trusted: this is `String::from_utf8`, which succeeds exactly on valid
/// UTF-8 and then yields the string whose encoding is the given bytes.
#[verifier::external_body]
fn text_from_utf8(bytes: Vec<u8>) -> (text: Option<String>)
    ensures
        text is Some <==> valid_utf8(bytes@),
        text matches Some(s) ==> encode_utf8(s@) == bytes@,
{
    String::from_utf8(bytes).ok()
}

/// The output of a finished process read as text; meant for output that is
/// valid UTF-8 on both streams.
pub open spec fn decoded(raw: RawOutput) -> CommandResultView {
    CommandResultView {
        exit_code: raw.exit_code,
        stdout: decode_utf8(raw.stdout@),
        stderr: decode_utf8(raw.stderr@),
    }
}

/// Reads the output of a finished process as text. Output that is not
/// valid UTF-8, on either stream, is an `EncodingError`: no byte is
/// replaced or dropped.
pub fn decode_output(raw: RawOutput) -> (decoding: Result<CommandResult, ExecError>)
    ensures
        decoding is Ok <==> valid_utf8(raw.stdout@) && valid_utf8(raw.stderr@),
        decoding matches Ok(result) ==> result@ == decoded(raw),
        decoding matches Err(error) ==> error@ == ExecErrorView::EncodingError,
{
    let exit_code = raw.exit_code;
    let stdout = match text_from_utf8(raw.stdout) {
        Some(text) => text,
        None => {
            return Err(ExecError::EncodingError);
        },
    };
    let stderr = match text_from_utf8(raw.stderr) {
        Some(text) => text,
        None => {
            return Err(ExecError::EncodingError);
        },
    };
    proof {
        encode_utf8_decode_utf8(stdout@);
        encode_utf8_decode_utf8(stderr@);
    }
    Ok(CommandResult { exit_code, stdout, stderr })
}

/// The exit codes accepted of a command that succeeds with 0 and with
/// nothing else.
pub fn zero_only() -> (accepted: Vec<i32>)
    ensures
        accepted@ == seq![0i32],
{
    vec![0i32]
}

/// Tells whether `code` is one of the `accepted` exit codes.
pub fn is_accepted(code: i32, accepted: &Vec<i32>) -> (yes: bool)
    ensures
        yes == accepted@.contains(code),
{
    let mut i: usize = 0;
    while i < accepted.len()
        invariant
            i <= accepted.len(),
            forall|j: int| 0 <= j < i ==> accepted@[j] != code,
        decreases accepted.len() - i,
    {
        if accepted[i] == code {
            return true;
        }
        i += 1;
    }
    false
}

/// The diagnostic of a command that ended with the exit code `code`, which
/// is not accepted: the command line, the exit code, then each output
/// stream that is not empty, word for word.
pub open spec fn diagnostic_text(
    command_line: Seq<char>,
    code: i32,
    stdout: Seq<char>,
    stderr: Seq<char>,
) -> Seq<char> {
    let head = "The command "@ + command_line + " did not finish with expected status code, but with "@
        + integer_text(code as int) + "."@;
    let with_stdout = if stdout.len() > 0 {
        head + "\nstdout was:\n"@ + stdout
    } else {
        head
    };
    if stderr.len() > 0 {
        with_stdout + "\nstderr was:\n"@ + stderr
    } else {
        with_stdout
    }
}

/// Writes the diagnostic of a command that ended with an exit code that is
/// not accepted.
pub fn failure_diagnostic(command_line: &str, code: i32, stdout: &str, stderr: &str) -> (diagnostic:
    String)
    ensures
        diagnostic@ == diagnostic_text(command_line@, code, stdout@, stderr@),
{
    let mut diagnostic = String::from_str("The command ");
    diagnostic.append(command_line);
    diagnostic.append(" did not finish with expected status code, but with ");
    diagnostic.append(integer(code).as_str());
    diagnostic.append(".");
    if !stdout.is_empty() {
        diagnostic.append("\nstdout was:\n");
        diagnostic.append(stdout);
    }
    if !stderr.is_empty() {
        diagnostic.append("\nstderr was:\n");
        diagnostic.append(stderr);
    }
    diagnostic
}

/// The reason given when a process ended without an exit code.
pub open spec fn missing_code_text(command_line: Seq<char>) -> Seq<char> {
    "Status code returned null for command "@ + command_line
}

/// How the result of a command is judged: success exactly when its exit
/// code is an accepted one.
pub open spec fn classification(
    command_line: Seq<char>,
    result: CommandResultView,
    accepted: Seq<i32>,
) -> Result<CommandOutcomeView, ExecErrorView> {
    match result.exit_code {
        None => Err(ExecErrorView::ExecutionError(missing_code_text(command_line))),
        Some(code) => if accepted.contains(code) {
            Ok(CommandOutcomeView::Success(result.stdout))
        } else {
            Ok(
                CommandOutcomeView::Failure(
                    diagnostic_text(command_line, code, result.stdout, result.stderr),
                ),
            )
        },
    }
}

/// Judges the result of a command by its exit code alone: `Success` with
/// the standard output if the code is among `accepted`, `Failure` with the
/// diagnostic if it is not, and an `ExecutionError` if there is no code.
pub fn classify(command_line: &str, result: CommandResult, accepted: &Vec<i32>) -> (judgement:
    Result<CommandOutcome, ExecError>)
    ensures
        judgement_view(judgement) == classification(command_line@, result@, accepted@),
        judgement matches Ok(CommandOutcome::Success(_)) <==> (result.exit_code matches Some(code)
            && accepted@.contains(code)),
{
    match result.exit_code {
        None => {
            let mut reason = String::from_str("Status code returned null for command ");
            reason.append(command_line);
            Err(ExecError::ExecutionError(reason))
        },
        Some(code) => {
            if is_accepted(code, accepted) {
                Ok(CommandOutcome::Success(result.stdout))
            } else {
                Ok(
                    CommandOutcome::Failure(
                        failure_diagnostic(
                            command_line,
                            code,
                            result.stdout.as_str(),
                            result.stderr.as_str(),
                        ),
                    ),
                )
            }
        },
    }
}

/// What the executor hands back for a command, given what came of
/// starting its process.
pub open spec fn conclusion(
    command_line: Seq<char>,
    spawned: Result<RawOutput, String>,
    accepted: Seq<i32>,
) -> Result<CommandOutcomeView, ExecErrorView> {
    match spawned {
        Err(reason) => Err(ExecErrorView::ExecutionError(reason@)),
        Ok(raw) => if valid_utf8(raw.stdout@) && valid_utf8(raw.stderr@) {
            classification(command_line, decoded(raw), accepted)
        } else {
            Err(ExecErrorView::EncodingError)
        },
    }
}

/// What the executor hands back for a command whose process was started
/// or could not be: `spawned` holds the output left behind, or the reason
/// why there is none.
///
/// In this order: a process that could not be started is an
/// `ExecutionError` with the reason given; output that is not valid text
/// is an `EncodingError`; anything else is judged by `classify`.
pub fn conclude(command_line: &str, spawned: Result<RawOutput, String>, accepted: &Vec<i32>) -> (judgement:
    Result<CommandOutcome, ExecError>)
    ensures
        judgement_view(judgement) == conclusion(command_line@, spawned, accepted@),
{
    match spawned {
        Err(reason) => Err(ExecError::ExecutionError(reason)),
        Ok(raw) => match decode_output(raw) {
            Err(error) => Err(error),
            Ok(result) => classify(command_line, result, accepted),
        },
    }
}

/// What is said of a command that did not succeed: the diagnostic of one
/// that ended with an exit code that is not accepted, and the reason why
/// another could not be run or read. Nothing is said of a success.
pub open spec fn failure_text(judgement: Result<CommandOutcomeView, ExecErrorView>) -> Seq<char> {
    match judgement {
        Ok(CommandOutcomeView::Success(_)) => Seq::empty(),
        Ok(CommandOutcomeView::Failure(diagnostic)) => diagnostic,
        Err(ExecErrorView::InvalidCommand) => "Empty command was given"@,
        Err(ExecErrorView::EncodingError) => "Command output is not valid text"@,
        Err(ExecErrorView::ExecutionError(reason)) => reason,
    }
}

/// Says in words why a command did not succeed.
pub fn describe_failure(judgement: Result<CommandOutcome, ExecError>) -> (text: String)
    ensures
        text@ == failure_text(judgement_view(judgement)),
{
    match judgement {
        Ok(CommandOutcome::Success(_)) => String::new(),
        Ok(CommandOutcome::Failure(diagnostic)) => diagnostic,
        Err(ExecError::InvalidCommand) => String::from_str("Empty command was given"),
        Err(ExecError::EncodingError) => String::from_str("Command output is not valid text"),
        Err(ExecError::ExecutionError(reason)) => reason,
    }
}

} // verus!
