use crate::scheduler::steal::TaskId;
use vstd::prelude::*;

verus! {

/// How a pool is told to wind down.
#[derive(Debug, Clone, Copy, PartialEq, Eq, Structural)]
pub enum ShutdownMode {
    /// Every task that was accepted is still run.
    Graceful,
    /// Tasks that are still queued are thrown away; a task that a worker is
    /// in the middle of is finished.
    Immediate,
}

/// Where a worker stands in its life.
#[derive(Debug, Clone, Copy, PartialEq, Eq, Structural)]
pub enum WorkerState {
    /// Looking for tasks and running them.
    Running,
    /// Found nothing the last time it looked; waiting before it looks again.
    IdleBackoff,
    /// Has seen the shutdown signal and is running what is left.
    ShuttingDown,
    /// Done for good.
    Stopped,
}

/// How the run of a task ended.
#[derive(Debug, Clone, Copy, PartialEq, Eq, Structural)]
pub enum TaskOutcome {
    /// The task returned.
    Completed,
    /// The task panicked; the panic was caught at the worker's boundary.
    Panicked,
}

/// What an idle worker does before it looks for work again.
#[derive(Debug, Clone, Copy, PartialEq, Eq, Structural)]
pub enum Pause {
    /// Spin briefly without giving up the processor.
    Spin,
    /// Sleep for the given number of microseconds.
    Park(u64),
}

/// What a worker is to do next.
#[derive(Debug, Clone, Copy, PartialEq, Eq, Structural)]
pub enum Decision {
    /// Execute the named task, then say how its run ended.
    Run(TaskId),
    /// Nothing to run now: pause, then ask again.
    Pause(Pause),
    /// The worker has stopped: leave the loop.
    Stop,
}

/// What can go wrong in a pool.
#[derive(Debug, Clone, Copy, PartialEq, Eq, Structural)]
pub enum PoolError {
    /// The task was handed in after shutdown had been initiated.
    PoolClosed,
    /// The task panicked while it ran. The worker goes on.
    TaskPanicked(TaskId),
    /// The worker with this index was found in a state that cannot be: it
    /// was asked for a task while it had one, or reported the end of a task
    /// that it did not have. That worker is stopped for good.
    QueueCorruption(usize),
}

impl PoolError {
    /// A line that says what went wrong.
    pub fn message(&self) -> (r: &'static str)
        ensures
            r@ == (match self {
                PoolError::PoolClosed => "the pool is closed"@,
                PoolError::TaskPanicked(_) => "a task panicked"@,
                PoolError::QueueCorruption(_) => "a worker's queue state is corrupt; the worker was stopped"@,
            }),
    {
        match self {
            PoolError::PoolClosed => "the pool is closed",
            PoolError::TaskPanicked(_) => "a task panicked",
            PoolError::QueueCorruption(_) => "a worker's queue state is corrupt; the worker was stopped",
        }
    }
}

/// The number of idle rounds in which a worker spins before it starts to
/// sleep.
pub const SPIN_ROUNDS: u32 = 6;

/// The length of the first sleep, in microseconds.
pub const FIRST_PARK_MICROS: u64 = 50;

/// The length that no sleep exceeds, in microseconds.
pub const MAX_PARK_MICROS: u64 = 10_000;

/// How long an idle worker has been idle, and how long it sleeps next. The
/// first rounds spin; after them each sleep is twice as long as the one
/// before, up to the cap.
#[derive(Debug, Clone, Copy, PartialEq, Eq, Structural)]
pub struct Backoff {
    pub rounds: u32,
    pub park_micros: u64,
}

impl Backoff {
    /// The state of a worker that has just had work.
    pub open spec fn fresh() -> Backoff {
        Backoff { rounds: 0, park_micros: FIRST_PARK_MICROS }
    }

    /// The pause that is due in this state.
    pub open spec fn pause(self) -> Pause {
        if self.rounds < SPIN_ROUNDS {
            Pause::Spin
        } else if self.park_micros > MAX_PARK_MICROS {
            Pause::Park(MAX_PARK_MICROS)
        } else {
            Pause::Park(self.park_micros)
        }
    }

    /// The state after the pause that is due was taken.
    pub open spec fn stepped(self) -> Backoff {
        if self.rounds < SPIN_ROUNDS {
            Backoff { rounds: (self.rounds + 1) as u32, park_micros: self.park_micros }
        } else if self.park_micros >= MAX_PARK_MICROS / 2 {
            Backoff { rounds: self.rounds, park_micros: MAX_PARK_MICROS }
        } else {
            Backoff { rounds: self.rounds, park_micros: (2 * self.park_micros) as u64 }
        }
    }

    /// The length of the pause that is due, in microseconds; a spin counts
    /// as nothing.
    pub open spec fn pause_micros(self) -> nat {
        match self.pause() {
            Pause::Spin => 0,
            Pause::Park(micros) => micros as nat,
        }
    }

    /// No pause is longer than the cap, and as long as the worker stays idle
    /// each pause is at least as long as the one before.
    pub proof fn lemma_pauses_grow_up_to_the_cap(self)
        ensures
            self.pause_micros() <= MAX_PARK_MICROS,
            self.park_micros >= FIRST_PARK_MICROS ==> self.stepped().park_micros
                >= FIRST_PARK_MICROS,
            self.pause_micros() <= self.stepped().pause_micros(),
    {
    }

    /// The state of a worker that has just had work.
    pub fn new() -> (r: Backoff)
        ensures
            r == Backoff::fresh(),
    {
        Backoff { rounds: 0, park_micros: FIRST_PARK_MICROS }
    }

    /// Says which pause is due and moves on to the next round.
    pub fn next(&mut self) -> (r: Pause)
        ensures
            r == old(self).pause(),
            *final(self) == old(self).stepped(),
    {
        if self.rounds < SPIN_ROUNDS {
            self.rounds = self.rounds + 1;
            Pause::Spin
        } else {
            let due: u64 = if self.park_micros > MAX_PARK_MICROS {
                MAX_PARK_MICROS
            } else {
                self.park_micros
            };
            if self.park_micros >= MAX_PARK_MICROS / 2 {
                self.park_micros = MAX_PARK_MICROS;
            } else {
                self.park_micros = 2 * self.park_micros;
            }
            Pause::Park(due)
        }
    }

    /// Starts over, as after a task was found.
    pub fn reset(&mut self)
        ensures
            *final(self) == Backoff::fresh(),
    {
        self.rounds = 0;
        self.park_micros = FIRST_PARK_MICROS;
    }
}

/// What a worker does at the top of a round of its loop.
#[derive(Debug, Clone, Copy, PartialEq, Eq, Structural)]
pub enum Directive {
    /// Look for a task.
    Search,
    /// Throw away what is in the worker's own queue, then stop.
    Discard,
    /// Leave the loop.
    Exit,
}

/// What a worker does after it has looked for a task.
#[derive(Debug, Clone, Copy, PartialEq, Eq, Structural)]
pub enum Step {
    /// Run the task that was found.
    Run,
    /// Pause, then begin another round.
    Pause(Pause),
    /// Leave the loop.
    Stop,
}

/// The part of a worker that decides: where the worker stands, and how long
/// it has been idle. The loop around it does the work: it reads the
/// shutdown signal, looks for a task, runs it, pauses.
#[derive(Debug, Clone, Copy, PartialEq, Eq, Structural)]
pub struct WorkerCore {
    pub state: WorkerState,
    pub backoff: Backoff,
}

impl WorkerCore {
    /// A worker at the start of its life.
    pub open spec fn fresh() -> WorkerCore {
        WorkerCore { state: WorkerState::Running, backoff: Backoff::fresh() }
    }

    /// What is due at the top of a round, given the shutdown signal as the
    /// worker reads it.
    pub open spec fn directive(self, signal: Option<ShutdownMode>) -> Directive {
        if self.state == WorkerState::Stopped {
            Directive::Exit
        } else if signal == Some(ShutdownMode::Immediate) {
            Directive::Discard
        } else {
            Directive::Search
        }
    }

    /// What is due after a search, given the signal, whether a task was
    /// found, and whether the search left a source that was still
    /// contended. A task that was found is run. A worker that found nothing
    /// looks again at once where a source was contended; else it stops, if
    /// shutdown has been initiated, or takes the pause that is due.
    pub open spec fn step(self, signal: Option<ShutdownMode>, found: bool, contended: bool) -> Step {
        if found {
            Step::Run
        } else if contended {
            Step::Pause(Pause::Spin)
        } else if signal is Some {
            Step::Stop
        } else {
            Step::Pause(self.backoff.pause())
        }
    }

    /// The worker after that step.
    pub open spec fn after_step(
        self,
        signal: Option<ShutdownMode>,
        found: bool,
        contended: bool,
    ) -> WorkerCore {
        if found {
            WorkerCore {
                state: if signal is Some {
                    WorkerState::ShuttingDown
                } else {
                    WorkerState::Running
                },
                backoff: Backoff::fresh(),
            }
        } else if contended {
            self
        } else if signal is Some {
            WorkerCore { state: WorkerState::Stopped, ..self }
        } else {
            WorkerCore { state: WorkerState::IdleBackoff, backoff: self.backoff.stepped() }
        }
    }

    /// A worker at the start of its life.
    pub fn new() -> (r: WorkerCore)
        ensures
            r == WorkerCore::fresh(),
    {
        WorkerCore { state: WorkerState::Running, backoff: Backoff::new() }
    }

    /// Says what is due at the top of a round.
    pub fn begin(&self, signal: Option<ShutdownMode>) -> (r: Directive)
        ensures
            r == self.directive(signal),
    {
        if self.state == WorkerState::Stopped {
            Directive::Exit
        } else {
            match signal {
                Some(ShutdownMode::Immediate) => Directive::Discard,
                _ => Directive::Search,
            }
        }
    }

    /// Takes note that the worker's own queue was thrown away: the worker
    /// has stopped.
    pub fn discarded(&mut self)
        ensures
            final(self).state == WorkerState::Stopped,
            final(self).backoff == old(self).backoff,
    {
        self.state = WorkerState::Stopped;
    }

    /// Says what is due after a search and moves the worker on.
    pub fn after_search(&mut self, signal: Option<ShutdownMode>, found: bool, contended: bool) -> (r:
        Step)
        ensures
            r == old(self).step(signal, found, contended),
            *final(self) == old(self).after_step(signal, found, contended),
    {
        if found {
            self.state = if signal.is_some() {
                WorkerState::ShuttingDown
            } else {
                WorkerState::Running
            };
            self.backoff.reset();
            Step::Run
        } else if contended {
            Step::Pause(Pause::Spin)
        } else if signal.is_some() {
            self.state = WorkerState::Stopped;
            Step::Stop
        } else {
            self.state = WorkerState::IdleBackoff;
            let pause: Pause = self.backoff.next();
            Step::Pause(pause)
        }
    }
}

} // verus!
