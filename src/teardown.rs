use vstd::prelude::*;

use crate::docker::STOP_GRACE_SECONDS;

verus! {

/// What a cancelled workload leaves to tear down.
#[derive(Debug, Clone)]
pub enum Teardown {
    /// A container, by its id: stopped, then removed.
    Container(String),
    /// A child process, by its id if it had one: killed.
    Process(Option<u32>),
}

/// The step of a teardown that runs next.
#[derive(Debug, Clone, Copy, PartialEq, Eq, Structural)]
pub enum TeardownStep {
    Stop,
    Remove,
    Kill,
    Done,
}

/// What the cleanup task does for a step.
#[derive(Debug, Clone)]
pub enum TeardownAction {
    /// Stop the container, giving it this many seconds.
    StopContainer { id: String, grace_seconds: i64 },
    /// Remove the container by force, with its volumes.
    RemoveContainer { id: String, force: bool, volumes: bool },
    /// Kill the process.
    KillProcess(u32),
    /// Nothing is left to do.
    Finished,
}

/// The first step once the workload is cancelled.
pub open spec fn first_step_of(t: Teardown) -> TeardownStep {
    match t {
        Teardown::Container(_) => TeardownStep::Stop,
        Teardown::Process(Some(_)) => TeardownStep::Kill,
        Teardown::Process(None) => TeardownStep::Done,
    }
}

/// The step after `step`, whether it succeeded or not: a failed step is
/// reported and never retried.
pub open spec fn step_after(step: TeardownStep) -> TeardownStep {
    match step {
        TeardownStep::Stop => TeardownStep::Remove,
        _ => TeardownStep::Done,
    }
}

/// The steps that a teardown attempts, given the outcomes of the steps that
/// completed.
pub open spec fn attempted(step: TeardownStep, outcomes: Seq<bool>) -> Seq<TeardownStep>
    decreases outcomes.len(),
{
    if step == TeardownStep::Done {
        Seq::empty()
    } else if outcomes.len() == 0 {
        seq![step]
    } else {
        seq![step] + attempted(step_after(step), outcomes.drop_first())
    }
}

impl Teardown {
    /// The first step once the workload is cancelled.
    pub fn first_step(&self) -> (r: TeardownStep)
        ensures
            r == first_step_of(*self),
    {
        match self {
            Teardown::Container(_) => TeardownStep::Stop,
            Teardown::Process(Some(_)) => TeardownStep::Kill,
            Teardown::Process(None) => TeardownStep::Done,
        }
    }

    /// The step after `step`; `succeeded` tells how it went, and changes
    /// nothing but what is reported.
    pub fn next_step(&self, step: TeardownStep, succeeded: bool) -> (r: TeardownStep)
        ensures
            r == step_after(step),
    {
        match step {
            TeardownStep::Stop => TeardownStep::Remove,
            _ => TeardownStep::Done,
        }
    }

    /// What the cleanup task does for `step`.
    pub fn action(&self, step: TeardownStep) -> (r: TeardownAction)
        ensures
            match (step, *self) {
                (TeardownStep::Stop, Teardown::Container(id)) => r matches TeardownAction::StopContainer {
                    id: i,
                    grace_seconds: g,
                } && i@ == id@ && g == STOP_GRACE_SECONDS,
                (TeardownStep::Remove, Teardown::Container(id)) => r matches TeardownAction::RemoveContainer {
                    id: i,
                    force: f,
                    volumes: v,
                } && i@ == id@ && f && v,
                (TeardownStep::Kill, Teardown::Process(Some(pid))) => r
                    == TeardownAction::KillProcess(pid),
                _ => r is Finished,
            },
    {
        match (step, self) {
            (TeardownStep::Stop, Teardown::Container(id)) => TeardownAction::StopContainer {
                id: id.clone(),
                grace_seconds: STOP_GRACE_SECONDS,
            },
            (TeardownStep::Remove, Teardown::Container(id)) => TeardownAction::RemoveContainer {
                id: id.clone(),
                force: true,
                volumes: true,
            },
            (TeardownStep::Kill, Teardown::Process(Some(pid))) => TeardownAction::KillProcess(*pid),
            _ => TeardownAction::Finished,
        }
    }
}

proof fn lemma_attempted_last(step: TeardownStep, outcomes: Seq<bool>)
    requires
        step == TeardownStep::Remove || step == TeardownStep::Kill,
    ensures
        attempted(step, outcomes) == seq![step],
{
    if outcomes.len() > 0 {
        assert(attempted(TeardownStep::Done, outcomes.drop_first()) == Seq::<TeardownStep>::empty());
        assert(seq![step] + Seq::<TeardownStep>::empty() =~= seq![step]);
    }
}

/// A cancelled workload gets exactly one teardown attempt, whether its steps
/// succeed or fail: a container is stopped once and removed once, a process
/// with an id is killed once, and nothing is retried.
pub proof fn lemma_one_teardown_attempt(t: Teardown, outcomes: Seq<bool>)
    ensures
        t is Container && outcomes.len() > 0 ==> attempted(first_step_of(t), outcomes) == seq![
            TeardownStep::Stop,
            TeardownStep::Remove,
        ],
        t matches Teardown::Process(Some(_)) ==> attempted(first_step_of(t), outcomes) == seq![
            TeardownStep::Kill,
        ],
        t matches Teardown::Process(None) ==> attempted(first_step_of(t), outcomes).len() == 0,
{
    match t {
        Teardown::Container(_) => {
            if outcomes.len() > 0 {
                lemma_attempted_last(TeardownStep::Remove, outcomes.drop_first());
                assert(seq![TeardownStep::Stop] + seq![TeardownStep::Remove] =~= seq![
                    TeardownStep::Stop,
                    TeardownStep::Remove,
                ]);
            }
        },
        Teardown::Process(Some(_)) => {
            lemma_attempted_last(TeardownStep::Kill, outcomes);
        },
        Teardown::Process(None) => {},
    }
}

} // verus!
