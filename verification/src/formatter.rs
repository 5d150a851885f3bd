//! The filesystem formatter: which program is run against the image, and how
//! its exit is judged.
//!
//! The formatter is an external program named after the filesystem type. It
//! takes the image path as its only argument, and it has succeeded exactly
//! when it exits with status zero; its output is not looked at.

use vstd::prelude::*;

verus! {

/// How the formatting program failed.
#[derive(Clone, Copy, Debug, PartialEq, Eq)]
pub enum ToolFailure {
    /// The program ran and exited with this status, which is not zero.
    ExitCode(i32),
    /// The program ran and ended without an exit status, as one does that a
    /// signal killed.
    Terminated,
    /// The program could not be started; this is the OS error number.
    LaunchError(i32),
}

/// Why an image could not be formatted.
#[derive(Clone, Copy, Debug, PartialEq, Eq)]
pub enum FormatError {
    ToolFailed(ToolFailure),
}

/// What became of an attempt to run the formatting program.
#[derive(Clone, Copy, Debug, PartialEq, Eq)]
pub enum ToolOutcome {
    /// The program ran to its end, with this exit status if it had one.
    Exited(Option<i32>),
    /// The program could not be started; this is the OS error number.
    NotLaunched(i32),
}

/// The program to run and what to pass it.
#[derive(Debug, PartialEq, Eq)]
pub struct FormatCommand {
    pub program: String,
    pub arguments: Vec<String>,
}

/// The first part of every formatting program's name: `mkfs.`.
pub open spec fn program_prefix() -> Seq<char> {
    seq!['m', 'k', 'f', 's', '.']
}

/// The name of the program that formats as `fs_type`: `mkfs.ext4` for `ext4`.
pub open spec fn program_name(fs_type: Seq<char>) -> Seq<char> {
    program_prefix() + fs_type
}

/// The verdict on a run of the formatting program: success is exit status
/// zero and nothing else.
pub open spec fn verdict(outcome: ToolOutcome) -> Result<(), FormatError> {
    match outcome {
        ToolOutcome::Exited(Some(status)) => if status == 0 {
            Ok(())
        } else {
            Err(FormatError::ToolFailed(ToolFailure::ExitCode(status)))
        },
        ToolOutcome::Exited(None) => Err(FormatError::ToolFailed(ToolFailure::Terminated)),
        ToolOutcome::NotLaunched(code) => Err(
            FormatError::ToolFailed(ToolFailure::LaunchError(code)),
        ),
    }
}

/// The command that formats the image at `image_path` as `fs_type`: the
/// program named after the type, with the image path as its sole argument.
pub fn format_command(image_path: &str, fs_type: &str) -> (command: FormatCommand)
    ensures
        command.program@ == program_name(fs_type@),
        command.arguments@.len() == 1,
        command.arguments@[0]@ == image_path@,
{
    proof {
        reveal_strlit("mkfs.");
    }
    let mut program = String::from_str("mkfs.");
    assert(program@ =~= program_prefix());
    program.append(fs_type);
    let mut arguments: Vec<String> = Vec::new();
    arguments.push(String::from_str(image_path));
    FormatCommand { program, arguments }
}

/// Judges a run of the formatting program.
pub fn format_result(outcome: ToolOutcome) -> (result: Result<(), FormatError>)
    ensures
        result == verdict(outcome),
        result is Ok <==> outcome == ToolOutcome::Exited(Some(0)),
{
    match outcome {
        ToolOutcome::Exited(Some(status)) => {
            if status == 0 {
                Ok(())
            } else {
                Err(FormatError::ToolFailed(ToolFailure::ExitCode(status)))
            }
        },
        ToolOutcome::Exited(None) => Err(FormatError::ToolFailed(ToolFailure::Terminated)),
        ToolOutcome::NotLaunched(code) => Err(
            FormatError::ToolFailed(ToolFailure::LaunchError(code)),
        ),
    }
}

} // verus!
