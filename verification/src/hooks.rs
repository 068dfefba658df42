//! Hooks: the two external commands, and the lines that record how a run of
//! one went. A hook is run through the shell by the caller; a failure is
//! recorded and changes nothing else.

use crate::reply::{Action, ActionView, Verdict};
use vstd::prelude::*;
use vstd::string::*;

verus! {

/// Which of the two hooks.
#[derive(Clone, Copy, Debug, PartialEq, Eq, Structural)]
pub enum HookKind {
    Kill,
    Restore,
}

/// How a run of a hook ended.
#[derive(Clone, Debug, PartialEq, Eq)]
pub enum HookOutcome {
    /// The command ran and exited with success.
    Succeeded,
    /// The command ran and exited otherwise; `status` describes the exit.
    Failed { status: String },
    /// The command could not be started; `error` says why.
    NotStarted { error: String },
}

/// How a run of a hook ended, as plain values.
pub enum HookOutcomeView {
    Succeeded,
    Failed { status: Seq<char> },
    NotStarted { error: Seq<char> },
}

impl View for HookOutcome {
    type V = HookOutcomeView;

    open spec fn view(&self) -> HookOutcomeView {
        match *self {
            HookOutcome::Succeeded => HookOutcomeView::Succeeded,
            HookOutcome::Failed { status } => HookOutcomeView::Failed { status: status@ },
            HookOutcome::NotStarted { error } => HookOutcomeView::NotStarted { error: error@ },
        }
    }
}

/// The word a hook kind goes by in the log.
pub open spec fn label_of(kind: HookKind) -> Seq<char> {
    match kind {
        HookKind::Kill => "kill"@,
        HookKind::Restore => "restore"@,
    }
}

/// The hook that an action runs.
pub open spec fn kind_of(action: ActionView) -> HookKind {
    match action {
        ActionView::Kill { .. } => HookKind::Kill,
        ActionView::RestoreAfter { .. } => HookKind::Restore,
    }
}

/// The command that an action runs.
pub open spec fn command_of(action: ActionView) -> Seq<char> {
    match action {
        ActionView::Kill { command } => command,
        ActionView::RestoreAfter { command, .. } => command,
    }
}

/// The seconds an action waits before it runs its hook.
pub open spec fn delay_of(action: ActionView) -> u64 {
    match action {
        ActionView::Kill { .. } => 0,
        ActionView::RestoreAfter { delay_secs, .. } => delay_secs,
    }
}

/// The line that records that a hook is about to run.
pub open spec fn started_line(kind: HookKind, hook: Seq<char>) -> Seq<char> {
    "Executing "@ + label_of(kind) + " hook: "@ + hook
}

/// The line that records how a hook ended.
pub open spec fn outcome_line(kind: HookKind, outcome: HookOutcomeView) -> Seq<char> {
    match outcome {
        HookOutcomeView::Succeeded => label_of(kind) + " hook executed successfully"@,
        HookOutcomeView::Failed { status } => label_of(kind) + " hook failed with status: "@
            + status,
        HookOutcomeView::NotStarted { error } => "Error executing "@ + label_of(kind) + " hook: "@
            + error,
    }
}

/// The line that records the branch a request fell into.
pub open spec fn verdict_line(verdict: Verdict) -> Seq<char> {
    match verdict {
        Verdict::FirstSecret =>
            "Killswitch 1st secret: OK - Waiting for the 2nd secret to start process"@,
        Verdict::SecondSecret => "Killswitch 2nd secret: OK - starting kill switch process"@,
        Verdict::Invalid => "Url path not found or secret is not valid"@,
    }
}

impl HookKind {
    /// The word this kind goes by in the log: `kill` or `restore`.
    pub fn label(self) -> (label: &'static str)
        ensures
            label@ == label_of(self),
    {
        match self {
            HookKind::Kill => "kill",
            HookKind::Restore => "restore",
        }
    }
}

impl Action {
    /// Which hook this action runs.
    pub fn kind(&self) -> (kind: HookKind)
        ensures
            kind == kind_of(self@),
    {
        match self {
            Action::Kill { .. } => HookKind::Kill,
            Action::RestoreAfter { .. } => HookKind::Restore,
        }
    }

    /// The command this action runs, to be handed to the shell as it is.
    pub fn command(&self) -> (command: &str)
        ensures
            command@ == command_of(self@),
    {
        match self {
            Action::Kill { command } => command.as_str(),
            Action::RestoreAfter { command, .. } => command.as_str(),
        }
    }

    /// The seconds to wait before the hook is run: none for the kill hook.
    pub fn delay_secs(&self) -> (delay: u64)
        ensures
            delay == delay_of(self@),
    {
        match self {
            Action::Kill { .. } => 0,
            Action::RestoreAfter { delay_secs, .. } => *delay_secs,
        }
    }
}

impl Verdict {
    /// The line to log for a request that fell into this branch.
    pub fn log_line(self) -> (line: &'static str)
        ensures
            line@ == verdict_line(self),
    {
        match self {
            Verdict::FirstSecret =>
                "Killswitch 1st secret: OK - Waiting for the 2nd secret to start process",
            Verdict::SecondSecret => "Killswitch 2nd secret: OK - starting kill switch process",
            Verdict::Invalid => "Url path not found or secret is not valid",
        }
    }
}

/// The line to log before a hook is run.
pub fn hook_started_line(kind: HookKind, hook: &str) -> (line: String)
    ensures
        line@ == started_line(kind, hook@),
{
    let mut line = String::from_str("Executing ");
    line.append(kind.label());
    line.append(" hook: ");
    line.append(hook);
    line
}

/// The line to log after a hook has run, or has failed to start.
pub fn hook_outcome_line(kind: HookKind, outcome: &HookOutcome) -> (line: String)
    ensures
        line@ == outcome_line(kind, outcome@),
{
    match outcome {
        HookOutcome::Succeeded => {
            let mut line = String::from_str(kind.label());
            line.append(" hook executed successfully");
            line
        },
        HookOutcome::Failed { status } => {
            let mut line = String::from_str(kind.label());
            line.append(" hook failed with status: ");
            line.append(status.as_str());
            line
        },
        HookOutcome::NotStarted { error } => {
            let mut line = String::from_str("Error executing ");
            line.append(kind.label());
            line.append(" hook: ");
            line.append(error.as_str());
            line
        },
    }
}

/// How a hook ended, from what running it gave: the error text where the
/// command could not be started; otherwise whether it exited with success,
/// and a description of its exit status.
pub fn classify_outcome(ran: Result<(bool, String), String>) -> (outcome: HookOutcome)
    ensures
        outcome@ == match ran {
            Err(error) => HookOutcomeView::NotStarted { error: error@ },
            Ok((success, status)) => if success {
                HookOutcomeView::Succeeded
            } else {
                HookOutcomeView::Failed { status: status@ }
            },
        },
{
    match ran {
        Err(error) => HookOutcome::NotStarted { error },
        Ok((success, status)) => if success {
            HookOutcome::Succeeded
        } else {
            HookOutcome::Failed { status }
        },
    }
}

} // verus!
