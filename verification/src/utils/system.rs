//! What a command run yields, once the command has been run.

use crate::utils::split::{join, joined, texts};
use vstd::prelude::*;

verus! {

/// What came back from a command that was launched.
#[derive(Debug, Clone)]
pub struct CommandOutput {
    /// The command exited with status zero.
    pub success: bool,
    /// Standard output, or `None` where it was not valid UTF-8.
    pub stdout: Option<String>,
    /// Standard error, invalid UTF-8 replaced.
    pub stderr: String,
}

/// Why a command gave no output to use.
#[derive(Debug, Clone)]
pub enum CommandError {
    /// No command was named.
    NoArguments,
    /// The command could not be launched.
    LaunchFailed,
    /// The command exited with a failure status.
    Failed { command: String, stderr: String },
    /// The command's output was not valid UTF-8.
    NotUtf8,
}

/// Mathematical content of a [`CommandError`].
pub ghost enum CommandErrorView {
    NoArguments,
    LaunchFailed,
    Failed { command: Seq<char>, stderr: Seq<char> },
    NotUtf8,
}

impl View for CommandError {
    type V = CommandErrorView;

    open spec fn view(&self) -> CommandErrorView {
        match *self {
            CommandError::NoArguments => CommandErrorView::NoArguments,
            CommandError::LaunchFailed => CommandErrorView::LaunchFailed,
            CommandError::Failed { command, stderr } => CommandErrorView::Failed {
                command: command@,
                stderr: stderr@,
            },
            CommandError::NotUtf8 => CommandErrorView::NotUtf8,
        }
    }
}

/// What an error says to the user.
pub open spec fn message_of(e: CommandErrorView) -> Seq<char> {
    match e {
        CommandErrorView::NoArguments => "run_cmd requires at least one argument"@,
        CommandErrorView::LaunchFailed => "Failed to execute command"@,
        CommandErrorView::Failed { command, stderr } => "Command failed: "@ + command + " "@
            + stderr,
        CommandErrorView::NotUtf8 => "Command output was not valid UTF-8"@,
    }
}

impl CommandError {
    /// What the error says to the user.
    pub fn message(&self) -> (r: String)
        ensures
            r@ == message_of(self@),
    {
        match self {
            CommandError::NoArguments => "run_cmd requires at least one argument".to_owned(),
            CommandError::LaunchFailed => "Failed to execute command".to_owned(),
            CommandError::Failed { command, stderr } => crate::utils::text::cat4(
                "Command failed: ",
                command.as_str(),
                " ",
                stderr.as_str(),
            ),
            CommandError::NotUtf8 => "Command output was not valid UTF-8".to_owned(),
        }
    }
}

/// What a command run yields: the standard output of a command that was
/// named, launched and successful and wrote valid UTF-8, else the first of
/// these that failed.
pub open spec fn command_result(args: Seq<String>, launch: Option<CommandOutput>) -> Result<
    Seq<char>,
    CommandErrorView,
> {
    if args.len() == 0 {
        Err(CommandErrorView::NoArguments)
    } else {
        match launch {
            None => Err(CommandErrorView::LaunchFailed),
            Some(output) => if !output.success {
                Err(
                    CommandErrorView::Failed {
                        command: joined(texts(args), " "@),
                        stderr: output.stderr@,
                    },
                )
            } else {
                match output.stdout {
                    Some(text) => Ok(text@),
                    None => Err(CommandErrorView::NotUtf8),
                }
            },
        }
    }
}

/// The mathematical content of a command result.
pub open spec fn view_command(r: Result<String, CommandError>) -> Result<
    Seq<char>,
    CommandErrorView,
> {
    match r {
        Ok(text) => Ok(text@),
        Err(e) => Err(e@),
    }
}

/// Settles a command run and returns stdout as a string, where `launch` is
/// what came back from launching `args`, or `None` if the launch failed.
pub fn run_cmd(args: &Vec<String>, launch: Option<CommandOutput>) -> (r: Result<
    String,
    CommandError,
>)
    ensures
        view_command(r) == command_result(args@, launch),
{
    if args.len() == 0 {
        return Err(CommandError::NoArguments);
    }
    match launch {
        None => Err(CommandError::LaunchFailed),
        Some(output) => {
            if !output.success {
                Err(CommandError::Failed { command: join(args, " "), stderr: output.stderr })
            } else {
                match output.stdout {
                    Some(text) => Ok(text),
                    None => Err(CommandError::NotUtf8),
                }
            }
        },
    }
}

/// Settles a command run that was given a time limit. The limit is a hint to
/// whoever launches the command; the outcome is settled as by [`run_cmd`].
pub fn run_cmd_timeout(args: &Vec<String>, timeout_secs: u64, launch: Option<CommandOutput>) -> (r:
    Result<String, CommandError>)
    ensures
        view_command(r) == command_result(args@, launch),
{
    run_cmd(args, launch)
}

} // verus!
