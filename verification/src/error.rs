//! Why an operation failed.
use vstd::prelude::*;
use vstd::string::*;

use crate::text::{format_signed, signed_decimal};

verus! {

/// The ways in which an operation fails.
#[derive(Debug, PartialEq, Eq)]
pub enum NixError {
    /// The environment does not say where Nix is.
    DevenvNixNotSet,
    /// The shell could not be replaced by the command.
    ShellNotReplaced,
    /// The command could not be started, for the reason given.
    NotStarted { command: String, reason: String },
    /// The command ran and failed, with this exit code where it had one.
    CommandFailed { command: String, code: Option<i32> },
    /// The output is not UTF-8, for the reason given.
    OutputNotUtf8 { reason: String },
    /// A cache was refused.
    CacheRefused,
    /// The user is not trusted by the Nix store.
    NotTrusted,
    /// The file of trusted keys is not a JSON object of strings.
    InvalidKeys,
    /// The clock stands before the epoch.
    ClockBeforeEpoch,
}

/// [`NixError`] with its texts as character sequences.
pub enum NixErrorView {
    DevenvNixNotSet,
    ShellNotReplaced,
    NotStarted { command: Seq<char>, reason: Seq<char> },
    CommandFailed { command: Seq<char>, code: Option<i32> },
    OutputNotUtf8 { reason: Seq<char> },
    CacheRefused,
    NotTrusted,
    InvalidKeys,
    ClockBeforeEpoch,
}

impl DeepView for NixError {
    type V = NixErrorView;

    open spec fn deep_view(&self) -> NixErrorView {
        match self {
            NixError::DevenvNixNotSet => NixErrorView::DevenvNixNotSet,
            NixError::ShellNotReplaced => NixErrorView::ShellNotReplaced,
            NixError::NotStarted { command, reason } => NixErrorView::NotStarted {
                command: command@,
                reason: reason@,
            },
            NixError::CommandFailed { command, code } => NixErrorView::CommandFailed {
                command: command@,
                code: *code,
            },
            NixError::OutputNotUtf8 { reason } => NixErrorView::OutputNotUtf8 { reason: reason@ },
            NixError::CacheRefused => NixErrorView::CacheRefused,
            NixError::NotTrusted => NixErrorView::NotTrusted,
            NixError::InvalidKeys => NixErrorView::InvalidKeys,
            NixError::ClockBeforeEpoch => NixErrorView::ClockBeforeEpoch,
        }
    }
}

/// How the end of a process is put in words.
pub open spec fn ending(code: Option<i32>) -> Seq<char> {
    match code {
        Some(code) => "with exit code "@ + signed_decimal(code as int),
        None => "without exit code"@,
    }
}

impl NixErrorView {
    /// The words for a failure.
    pub open spec fn message(self) -> Seq<char> {
        match self {
            NixErrorView::DevenvNixNotSet => "$DEVENV_NIX is not set"@,
            NixErrorView::ShellNotReplaced => "Failed to replace shell"@,
            NixErrorView::NotStarted { command, reason } => "Failed to run command `"@ + command
                + "`"@,
            NixErrorView::CommandFailed { command, code } => "Command `"@ + command
                + "` failed with "@ + ending(code),
            NixErrorView::OutputNotUtf8 { reason } =>
                "Failed to parse command output as UTF-8: "@ + reason,
            NixErrorView::CacheRefused =>
                "Cache does not exist or you don't have a CACHIX_AUTH_TOKEN configured."@,
            NixErrorView::NotTrusted => "You're not a trusted user of the Nix store."@,
            NixErrorView::InvalidKeys => "Failed to parse JSON"@,
            NixErrorView::ClockBeforeEpoch => "Time went backwards"@,
        }
    }
}

/// Puts the end of a process in words.
fn describe_ending(code: Option<i32>) -> (s: String)
    ensures
        s@ == ending(code),
{
    match code {
        Some(code) => {
            let mut s = String::from_str("with exit code ");
            s.append(format_signed(code).as_str());
            s
        },
        None => String::from_str("without exit code"),
    }
}

impl NixError {
    /// The words for the failure.
    pub fn message(&self) -> (s: String)
        ensures
            s@ == self.deep_view().message(),
    {
        match self {
            NixError::DevenvNixNotSet => String::from_str("$DEVENV_NIX is not set"),
            NixError::ShellNotReplaced => String::from_str("Failed to replace shell"),
            NixError::NotStarted { command, reason: _ } => {
                let mut s = String::from_str("Failed to run command `");
                s.append(command.as_str());
                s.append("`");
                s
            },
            NixError::CommandFailed { command, code } => {
                let mut s = String::from_str("Command `");
                s.append(command.as_str());
                s.append("` failed with ");
                s.append(describe_ending(*code).as_str());
                s
            },
            NixError::OutputNotUtf8 { reason } => {
                let mut s = String::from_str("Failed to parse command output as UTF-8: ");
                s.append(reason.as_str());
                s
            },
            NixError::CacheRefused => String::from_str(
                "Cache does not exist or you don't have a CACHIX_AUTH_TOKEN configured.",
            ),
            NixError::NotTrusted => String::from_str("You're not a trusted user of the Nix store."),
            NixError::InvalidKeys => String::from_str("Failed to parse JSON"),
            NixError::ClockBeforeEpoch => String::from_str("Time went backwards"),
        }
    }
}

} // verus!
