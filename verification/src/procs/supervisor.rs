use vstd::prelude::*;

verus! {

/// A supervisor's view of its supervised child, reported up to the Ipc.
#[derive(Clone, Copy, Debug, PartialEq, Eq, Structural)]
pub enum Status {
    /// The payload is being spawned.
    Starting,
    /// The payload is running.
    Running,
    /// The payload exited with the given code.
    Exited(i32),
    /// The payload was terminated by the given signal.
    Crashed(i32),
    /// The payload exited and another start is about to be attempted.
    Restarting,
    /// The payload was stopped on request.
    Stopped,
}

/// The action the supervisor's driving loop performs next.
#[derive(Clone, Copy, Debug, PartialEq, Eq, Structural)]
pub enum SupervisorAction {
    /// Spawn the payload once more.
    Spawn,
    /// The budget is used up: the supervisor terminates itself.
    Exit,
}

/// How a payload run ended, as observed by the loop that waited on it.
#[derive(Clone, Copy, Debug, PartialEq, Eq, Structural)]
pub enum ChildExit {
    /// Normal exit with a code.
    Code(i32),
    /// Terminated by a signal.
    Signal(i32),
}

/// Launches the configured payload and restarts it up to `max_starts` times,
/// then terminates itself after the final attempt.
///
/// The supervisor itself holds no descriptors: the driving loop spawns and
/// waits, while this state machine decides. `starts` counts the spawns that
/// were performed so far.
#[derive(Clone, Copy, Debug, PartialEq, Eq, Structural)]
pub struct Supervisor {
    pub max_starts: u8,
    pub starts: u8,
}

impl Supervisor {
    /// A fresh supervisor that has spawned nothing yet.
    pub fn new(max_starts: u8) -> (r: Supervisor)
        ensures
            r.max_starts == max_starts,
            r.starts == 0,
    {
        Supervisor { max_starts, starts: 0 }
    }

    /// Whether the budget admits another spawn.
    pub open spec fn spec_may_start(&self) -> bool {
        self.starts < self.max_starts
    }

    /// Decide the next action: spawn while fewer than `max_starts` runs have
    /// been performed, exit afterwards. A spawn is counted immediately.
    pub fn next_action(&mut self) -> (r: SupervisorAction)
        ensures
            old(self).spec_may_start() ==> r == SupervisorAction::Spawn
                && final(self).starts == old(self).starts + 1,
            !old(self).spec_may_start() ==> r == SupervisorAction::Exit && *final(self)
                == *old(self),
            final(self).max_starts == old(self).max_starts,
    {
        if self.starts < self.max_starts {
            self.starts = self.starts + 1;
            SupervisorAction::Spawn
        } else {
            SupervisorAction::Exit
        }
    }

    /// The status reported after a run ended: a signal death is a crash, a
    /// normal exit keeps its code; either becomes `Restarting` when the
    /// budget admits another attempt.
    pub fn status_after_exit(&self, exit: ChildExit) -> (r: Status)
        ensures
            self.spec_may_start() ==> r == Status::Restarting,
            !self.spec_may_start() ==> r == (match exit {
                ChildExit::Code(c) => Status::Exited(c),
                ChildExit::Signal(s) => Status::Crashed(s),
            }),
    {
        if self.starts < self.max_starts {
            Status::Restarting
        } else {
            match exit {
                ChildExit::Code(c) => Status::Exited(c),
                ChildExit::Signal(s) => Status::Crashed(s),
            }
        }
    }

    /// Drives the whole budget in the abstract: the number of spawns a
    /// supervisor performs before exiting is exactly its budget.
    pub proof fn lemma_total_spawns(max_starts: u8)
        ensures
            spec_spawn_count(Supervisor { max_starts, starts: 0 }) == max_starts,
    {
        lemma_spawn_count_from(Supervisor { max_starts, starts: 0 });
    }
}

/// The number of spawns still to come for a supervisor in a given state.
pub open spec fn spec_spawn_count(s: Supervisor) -> nat
    decreases s.max_starts - s.starts,
{
    if s.starts < s.max_starts {
        1 + spec_spawn_count(Supervisor { max_starts: s.max_starts, starts: (s.starts + 1) as u8 })
    } else {
        0
    }
}

proof fn lemma_spawn_count_from(s: Supervisor)
    requires
        s.starts <= s.max_starts,
    ensures
        spec_spawn_count(s) == s.max_starts - s.starts,
    decreases s.max_starts - s.starts,
{
    if s.starts < s.max_starts {
        lemma_spawn_count_from(
            Supervisor { max_starts: s.max_starts, starts: (s.starts + 1) as u8 },
        );
    }
}

} // verus!
