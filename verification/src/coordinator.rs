//! The coordinator's lifecycle: the phases the run loop moves through.
//!
//! The loop runs while nothing asks to quit; once the quit signal is
//! observed it drains — finishes the in-flight draw and restores the
//! terminal — and then stops. The movement is one-directional: a
//! stopped coordinator never runs again.

use vstd::prelude::*;

verus! {

/// The phase the coordinator's run loop is in.
#[derive(Clone, Copy, PartialEq, Eq, Structural, Debug)]
pub enum Phase {
    /// Ticking: drain messages, redraw, sleep.
    Running,
    /// The quit signal was observed: finish the in-flight draw and
    /// restore the terminal mode.
    Draining,
    /// All actors are done and the terminal surface is released.
    Stopped,
}

/// How far along the lifecycle a phase is.
pub open spec fn phase_rank(p: Phase) -> int {
    match p {
        Phase::Running => 0,
        Phase::Draining => 1,
        Phase::Stopped => 2,
    }
}

/// One step of the lifecycle: running continues until the quit signal
/// is observed, draining always stops next, and stopped is final.
pub open spec fn step_model(p: Phase, quit: bool) -> Phase {
    match p {
        Phase::Running => if quit {
            Phase::Draining
        } else {
            Phase::Running
        },
        Phase::Draining => Phase::Stopped,
        Phase::Stopped => Phase::Stopped,
    }
}

impl Phase {
    /// Advances the lifecycle by one step, given whether the quit
    /// signal is set.
    pub fn step(self, quit: bool) -> (r: Phase)
        ensures
            r == step_model(self, quit),
    {
        match self {
            Phase::Running => if quit {
                Phase::Draining
            } else {
                Phase::Running
            },
            Phase::Draining => Phase::Stopped,
            Phase::Stopped => Phase::Stopped,
        }
    }
}

/// Law: the lifecycle never moves backward, and a stopped coordinator
/// stays stopped.
pub proof fn lemma_phase_monotone(p: Phase, quit: bool)
    ensures
        phase_rank(step_model(p, quit)) >= phase_rank(p),
        step_model(Phase::Stopped, quit) == Phase::Stopped,
{
}

/// Law: once the quit signal holds, the coordinator stops within two
/// steps.
pub proof fn lemma_quit_reaches_stopped(p: Phase)
    ensures
        step_model(step_model(p, true), true) == Phase::Stopped,
{
}

} // verus!
