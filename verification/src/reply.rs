//! What the state machine decides for one request: which branch was taken,
//! the one response to write, and the hooks to fire.

use crate::response::{not_found_body, started_body, Response, ResponseView, Status};
use vstd::prelude::*;
use vstd::string::*;

verus! {

/// The branch a request falls into.
#[derive(Clone, Copy, Debug, PartialEq, Eq, Structural)]
pub enum Verdict {
    /// The request holds the first secret: a token is issued.
    FirstSecret,
    /// The request holds a pending token: the kill switch starts.
    SecondSecret,
    /// Neither: the request is turned away.
    Invalid,
}

/// Work for the caller to perform after the response is written, in order.
#[derive(Clone, Debug, PartialEq, Eq)]
pub enum Action {
    /// Run the kill hook now and wait for it to end.
    Kill { command: String },
    /// Run the restore hook once, `delay_secs` seconds from now, on its own;
    /// a restore that is scheduled is never cancelled.
    RestoreAfter { command: String, delay_secs: u64 },
}

/// An action as plain values.
pub enum ActionView {
    Kill { command: Seq<char> },
    RestoreAfter { command: Seq<char>, delay_secs: u64 },
}

impl View for Action {
    type V = ActionView;

    open spec fn view(&self) -> ActionView {
        match *self {
            Action::Kill { command } => ActionView::Kill { command: command@ },
            Action::RestoreAfter { command, delay_secs } => ActionView::RestoreAfter {
                command: command@,
                delay_secs,
            },
        }
    }
}

/// The decision for one request.
#[derive(Clone, Debug, PartialEq, Eq)]
pub struct Reply {
    pub verdict: Verdict,
    pub response: Response,
    pub actions: Vec<Action>,
}

/// A reply as plain values.
pub struct ReplyView {
    pub verdict: Verdict,
    pub response: ResponseView,
    pub actions: Seq<ActionView>,
}

impl View for Reply {
    type V = ReplyView;

    open spec fn view(&self) -> ReplyView {
        ReplyView {
            verdict: self.verdict,
            response: self.response@,
            actions: self.actions@.map_values(|a: Action| a@),
        }
    }
}

/// The reply to a first-secret request: success, with the issued token as the
/// whole body, and nothing to fire.
pub open spec fn issued_reply(token: Seq<char>) -> ReplyView {
    ReplyView {
        verdict: Verdict::FirstSecret,
        response: ResponseView { status: Status::Success, body: token },
        actions: Seq::empty(),
    }
}

/// The reply to a second-secret request: success, then the kill hook once,
/// then the restore hook scheduled once.
pub open spec fn triggered_reply(
    kill_hook: Seq<char>,
    restore_hook: Seq<char>,
    restore_delay: u64,
) -> ReplyView {
    ReplyView {
        verdict: Verdict::SecondSecret,
        response: ResponseView { status: Status::Success, body: started_body() },
        actions: seq![
            ActionView::Kill { command: kill_hook },
            ActionView::RestoreAfter { command: restore_hook, delay_secs: restore_delay },
        ],
    }
}

/// The reply to any other request: not found, and nothing to fire.
pub open spec fn rejected_reply() -> ReplyView {
    ReplyView {
        verdict: Verdict::Invalid,
        response: ResponseView { status: Status::NotFound, body: not_found_body() },
        actions: Seq::empty(),
    }
}

/// How many times a run of actions fires the kill hook.
pub open spec fn kill_count(actions: Seq<ActionView>) -> nat {
    actions.filter(|a: ActionView| a is Kill).len()
}

/// How many times a run of actions schedules the restore hook.
pub open spec fn restore_count(actions: Seq<ActionView>) -> nat {
    actions.filter(|a: ActionView| a is RestoreAfter).len()
}

/// The action that schedules the restore hook: one invocation of `hook`,
/// `delay_secs` seconds after it is handed over.
pub fn schedule_restore(hook: &str, delay_secs: u64) -> (action: Action)
    ensures
        action@ == (ActionView::RestoreAfter { command: hook@, delay_secs }),
{
    Action::RestoreAfter { command: String::from_str(hook), delay_secs }
}

} // verus!
