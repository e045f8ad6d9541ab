use vstd::prelude::*;

use crate::error::{Error, IoErrorKind};

verus! {

/// Where a backend stands in making sure that its tool is present.
#[derive(Debug, Clone, Copy, PartialEq, Eq, Structural)]
pub enum ToolingState {
    /// The first check runs.
    Checking,
    /// The tool was missing and its installer runs.
    Installing,
    /// The check runs again after the installer.
    Rechecking,
    /// The tool is present.
    Ready,
    /// The tool is missing and could not be installed.
    Failed,
}

/// What came back from the step that ran.
#[derive(Debug)]
pub enum ToolingEvent {
    /// The check's answer; an error counts as a missing tool.
    Checked(Result<bool, Error>),
    /// The installer's outcome.
    Installed(Result<(), Error>),
}

/// What the backend does next.
#[derive(Debug)]
pub enum ToolingAction {
    RunCheck,
    RunInstall,
    /// The tool is present: go on with the launch.
    Proceed,
    /// Give up with this error.
    Fail(Error),
}

/// The state after `event`. A check that fails or errs leads to one install
/// from the first check and to failure from the second; an event that the
/// state does not wait for fails too.
pub open spec fn tooling_next(state: ToolingState, event: ToolingEvent) -> ToolingState {
    match state {
        ToolingState::Checking => match event {
            ToolingEvent::Checked(Ok(true)) => ToolingState::Ready,
            ToolingEvent::Checked(_) => ToolingState::Installing,
            ToolingEvent::Installed(_) => ToolingState::Failed,
        },
        ToolingState::Installing => match event {
            ToolingEvent::Installed(Ok(())) => ToolingState::Rechecking,
            _ => ToolingState::Failed,
        },
        ToolingState::Rechecking => match event {
            ToolingEvent::Checked(Ok(true)) => ToolingState::Ready,
            _ => ToolingState::Failed,
        },
        _ => ToolingState::Failed,
    }
}

/// Whether `action` is what the backend does on entering `state` after
/// `event`; a failure carries the installer's error, or else an I/O error
/// with `missing`, the message of a tool that is not there.
pub open spec fn tooling_action_of(
    state: ToolingState,
    event: ToolingEvent,
    missing: Seq<char>,
    action: ToolingAction,
) -> bool {
    match state {
        ToolingState::Checking | ToolingState::Rechecking => action is RunCheck,
        ToolingState::Installing => action is RunInstall,
        ToolingState::Ready => action is Proceed,
        ToolingState::Failed => match event {
            ToolingEvent::Installed(Err(e)) => action == ToolingAction::Fail(e),
            _ => action matches ToolingAction::Fail(Error::Io(IoErrorKind::Other, m)) && m@ == missing,
        },
    }
}

/// How many installs a run of `events` from `state` starts.
pub open spec fn tooling_installs(state: ToolingState, events: Seq<ToolingEvent>) -> nat
    decreases events.len(),
{
    if events.len() == 0 {
        0
    } else {
        let n = tooling_next(state, events[0]);
        (if n == ToolingState::Installing {
            1nat
        } else {
            0nat
        }) + tooling_installs(n, events.drop_first())
    }
}

/// Whether a run of `events` from `state` reaches `Ready`.
pub open spec fn tooling_reaches_ready(state: ToolingState, events: Seq<ToolingEvent>) -> bool
    decreases events.len(),
{
    if events.len() == 0 {
        state == ToolingState::Ready
    } else {
        state == ToolingState::Ready || tooling_reaches_ready(
            tooling_next(state, events[0]),
            events.drop_first(),
        )
    }
}

/// The first step: check whether the tool is there.
pub fn tooling_start() -> (r: (ToolingState, ToolingAction))
    ensures
        r.0 == ToolingState::Checking,
        r.1 is RunCheck,
{
    (ToolingState::Checking, ToolingAction::RunCheck)
}

/// The next state and action after `event`, for a tool whose absence is
/// reported with the message `missing`.
pub fn tooling_step(state: ToolingState, event: ToolingEvent, missing: &str) -> (r: (
    ToolingState,
    ToolingAction,
))
    ensures
        r.0 == tooling_next(state, event),
        tooling_action_of(r.0, event, missing@, r.1),
{
    let next = match state {
        ToolingState::Checking => match &event {
            ToolingEvent::Checked(Ok(true)) => ToolingState::Ready,
            ToolingEvent::Checked(_) => ToolingState::Installing,
            ToolingEvent::Installed(_) => ToolingState::Failed,
        },
        ToolingState::Installing => match &event {
            ToolingEvent::Installed(Ok(())) => ToolingState::Rechecking,
            _ => ToolingState::Failed,
        },
        ToolingState::Rechecking => match &event {
            ToolingEvent::Checked(Ok(true)) => ToolingState::Ready,
            _ => ToolingState::Failed,
        },
        _ => ToolingState::Failed,
    };
    let action = match next {
        ToolingState::Checking | ToolingState::Rechecking => ToolingAction::RunCheck,
        ToolingState::Installing => ToolingAction::RunInstall,
        ToolingState::Ready => ToolingAction::Proceed,
        ToolingState::Failed => match event {
            ToolingEvent::Installed(Err(e)) => ToolingAction::Fail(e),
            _ => ToolingAction::Fail(Error::Io(IoErrorKind::Other, missing.to_string())),
        },
    };
    (next, action)
}

proof fn lemma_no_install_after_first_check(state: ToolingState, events: Seq<ToolingEvent>)
    requires
        state != ToolingState::Checking,
    ensures
        tooling_installs(state, events) == 0,
    decreases events.len(),
{
    if events.len() > 0 {
        lemma_no_install_after_first_check(tooling_next(state, events[0]), events.drop_first());
    }
}

/// A missing tool gets one install at most, whatever the checks and the
/// installer report: there is no retry beyond the one recheck.
pub proof fn lemma_single_install(events: Seq<ToolingEvent>)
    ensures
        tooling_installs(ToolingState::Checking, events) <= 1,
{
    if events.len() > 0 {
        let n = tooling_next(ToolingState::Checking, events[0]);
        lemma_no_install_after_first_check(n, events.drop_first());
    }
}

/// A tool whose first check succeeds is used without any install.
pub proof fn lemma_present_tool_not_installed(events: Seq<ToolingEvent>)
    requires
        events.len() > 0,
        events[0] matches ToolingEvent::Checked(Ok(true)),
    ensures
        tooling_installs(ToolingState::Checking, events) == 0,
        tooling_reaches_ready(ToolingState::Checking, events),
{
    lemma_no_install_after_first_check(ToolingState::Ready, events.drop_first());
    let rest = events.drop_first();
    assert(tooling_reaches_ready(ToolingState::Ready, rest));
}

/// One command of a backend's installer.
#[derive(Debug, Clone)]
pub struct InstallStep {
    /// The program and its arguments.
    pub argv: Vec<String>,
    /// The message of the error that a failure of this command raises; a
    /// command without one may fail without consequence.
    pub failure: Option<String>,
}

/// The outcome of an installer command, given whether it succeeded.
pub fn install_step_outcome(step: &InstallStep, succeeded: bool) -> (r: Result<(), Error>)
    ensures
        r is Ok <==> succeeded || step.failure is None,
        r is Err ==> (r->Err_0 matches Error::Io(IoErrorKind::Other, m) && m@ == step.failure->Some_0@),
{
    if succeeded {
        return Ok(());
    }
    match &step.failure {
        Some(m) => Err(Error::Io(IoErrorKind::Other, m.clone())),
        None => Ok(()),
    }
}

} // verus!
