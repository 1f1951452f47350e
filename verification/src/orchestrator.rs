use vstd::prelude::*;

verus! {

/// The two run-mode flags. `concurrent` runs each relay pair as an
/// independent background task; `repeat` starts a fresh pair after the
/// previous iteration instead of exiting.
#[derive(Clone, Copy, PartialEq, Eq, Structural, Debug)]
pub struct RunMode {
    pub concurrent: bool,
    pub repeat: bool,
}

/// How one relay pair is launched.
#[derive(Clone, Copy, PartialEq, Eq, Structural, Debug)]
pub enum PairLaunch {
    /// Connect both endpoints and relay, waiting until the pair finishes.
    RunToCompletion,
    /// Spawn the pair as a detached task and continue at once.
    Spawn,
}

/// How the launch of one relay pair is decided from the mode flags.
pub open spec fn spec_plan_pair(mode: RunMode) -> PairLaunch {
    if mode.concurrent {
        PairLaunch::Spawn
    } else {
        PairLaunch::RunToCompletion
    }
}

/// Whether another pair is started once the current iteration is over.
pub open spec fn spec_continue_after(mode: RunMode) -> bool {
    mode.repeat
}

/// Decides how the next relay pair runs: as a detached task when
/// `concurrent` is set, otherwise blocking until the pair finishes.
pub fn plan_pair(mode: &RunMode) -> (p: PairLaunch)
    ensures
        p == spec_plan_pair(*mode),
{
    if mode.concurrent {
        PairLaunch::Spawn
    } else {
        PairLaunch::RunToCompletion
    }
}

/// Decides whether the orchestrator starts another pair after an
/// iteration ends: exactly when `repeat` is set. Without `repeat` a
/// single pair is run (or spawned) and the orchestrator exits.
pub fn continue_after(mode: &RunMode) -> (c: bool)
    ensures
        c == spec_continue_after(*mode),
{
    mode.repeat
}

/// Whether a connection or relay failure ends the whole run. With
/// `concurrent` set, a failing pair is confined to its own task and the
/// orchestrator goes on; otherwise the failure is fatal.
pub fn failure_is_fatal(mode: &RunMode) -> (f: bool)
    ensures
        f == !mode.concurrent,
{
    !mode.concurrent
}

/// Law: in repeat mode without `concurrent`, a pair runs to completion
/// and, after it completes, the orchestrator starts a fresh pair rather
/// than exiting.
pub proof fn lemma_sequential_repeat(mode: RunMode)
    requires
        mode.repeat,
        !mode.concurrent,
    ensures
        spec_plan_pair(mode) == PairLaunch::RunToCompletion,
        spec_continue_after(mode),
{
}

} // verus!
