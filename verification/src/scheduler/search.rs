use crate::scheduler::local_queue::ring_slot;
use crate::scheduler::steal::Steal;
use vstd::prelude::*;

verus! {

/// A place where a worker looks for a task.
#[derive(Debug, Clone, Copy, PartialEq, Eq, Structural)]
pub enum Source {
    /// The worker's own queue.
    Local,
    /// The queue that all workers share.
    Global,
    /// The queue of the peer whose handle has this index.
    Peer(usize),
}

/// How far a search has come.
#[derive(Debug, Clone, Copy, PartialEq, Eq, Structural)]
pub enum Stage {
    /// The worker's own queue is asked next.
    Local,
    /// The shared queue is asked next.
    Global,
    /// The peer at this turn is asked next.
    Peer(usize),
    /// Every source has been asked.
    Exhausted,
}

/// One search for a task, as a machine that says which source to ask next
/// and is told what the source answered. The sources are asked in a fixed
/// order: the worker's own queue, the shared queue, then the peers one
/// after the other, beginning with the peer `first`. A source that answers
/// `Retry` is asked again, but only `budget` times; then the search moves
/// on and remembers that it left a source that was still contended.
pub struct Search<T> {
    pub peers: usize,
    pub first: usize,
    pub budget: usize,
    pub stage: Stage,
    pub retries: usize,
    pub found: Option<T>,
    pub contended: bool,
}

impl<T> Search<T> {
    /// The search before any source was asked.
    pub open spec fn start(peers: usize, first: usize, budget: usize) -> Search<T> {
        Search {
            peers,
            first: if peers == 0 {
                0
            } else {
                (first % peers) as usize
            },
            budget,
            stage: Stage::Local,
            retries: 0,
            found: None,
            contended: false,
        }
    }

    /// What every search keeps to: the peer asked first is one of the peers,
    /// the turn is within their number, and no source is asked more often
    /// than the budget allows.
    pub open spec fn wf(self) -> bool {
        &&& self.peers == 0 ==> self.first == 0
        &&& self.peers > 0 ==> self.first < self.peers
        &&& self.retries <= self.budget
        &&& self.stage matches Stage::Peer(turn) ==> turn < self.peers
    }

    /// Whether the search is over: a task was found, or every source has
    /// been asked.
    pub open spec fn done(self) -> bool {
        self.found is Some || self.stage == Stage::Exhausted
    }

    /// The stage after the current one.
    pub open spec fn stage_after(self) -> Stage {
        match self.stage {
            Stage::Local => Stage::Global,
            Stage::Global => if self.peers > 0 {
                Stage::Peer(0)
            } else {
                Stage::Exhausted
            },
            Stage::Peer(turn) => if turn + 1 < self.peers {
                Stage::Peer((turn + 1) as usize)
            } else {
                Stage::Exhausted
            },
            Stage::Exhausted => Stage::Exhausted,
        }
    }

    /// The source to ask next, if the search is not over.
    pub open spec fn source(self) -> Option<Source> {
        if self.found is Some {
            None
        } else {
            match self.stage {
                Stage::Local => Some(Source::Local),
                Stage::Global => Some(Source::Global),
                Stage::Peer(turn) => Some(
                    Source::Peer(ring_slot(self.first as int, turn as int, self.peers as int) as usize),
                ),
                Stage::Exhausted => None,
            }
        }
    }

    /// The search after the source that was asked gave this answer. A search
    /// that is over takes no more answers.
    pub open spec fn told(self, answer: Steal<T>) -> Search<T> {
        if self.done() {
            self
        } else {
            match answer {
                Steal::Success(task) => Search { found: Some(task), ..self },
                Steal::Empty => Search { stage: self.stage_after(), retries: 0, ..self },
                Steal::Retry => if self.retries < self.budget {
                    Search { retries: (self.retries + 1) as usize, ..self }
                } else {
                    Search { stage: self.stage_after(), retries: 0, contended: true, ..self }
                },
            }
        }
    }

    /// The search after a run of answers, one for each source asked.
    pub open spec fn fed(self, answers: Seq<Steal<T>>) -> Search<T>
        decreases answers.len(),
    {
        if answers.len() == 0 {
            self
        } else {
            self.fed(answers.drop_last()).told(answers.last())
        }
    }

    /// How many sources are still to be asked, the current one included.
    pub open spec fn sources_left(self) -> nat {
        match self.stage {
            Stage::Local => (self.peers + 2) as nat,
            Stage::Global => (self.peers + 1) as nat,
            Stage::Peer(turn) => (self.peers - turn) as nat,
            Stage::Exhausted => 0,
        }
    }

    /// The most answers that the search can still take before it is over.
    pub open spec fn answers_left(self) -> nat {
        if self.done() {
            0
        } else {
            (self.sources_left() * (self.budget + 1) - self.retries) as nat
        }
    }

    /// Every answer brings the search nearer to its end, so no search asks
    /// more than `(peers + 2) * (budget + 1)` times; an answer with a task
    /// ends it at once with that task; and the sources are never asked in
    /// another order than the fixed one.
    pub proof fn lemma_told(self, answer: Steal<T>)
        requires
            self.wf(),
            !self.done(),
        ensures
            self.told(answer).wf(),
            self.told(answer).answers_left() < self.answers_left(),
            self.answers_left() <= (self.peers + 2) * (self.budget + 1),
            answer matches Steal::Success(task) ==> self.told(answer).found == Some(task),
            !(answer is Success) ==> self.told(answer).found is None,
            self.told(answer).sources_left() <= self.sources_left(),
            self.told(answer).peers == self.peers,
            self.told(answer).first == self.first,
            self.told(answer).budget == self.budget,
    {
        let left = self.sources_left() as int;
        let per = (self.budget + 1) as int;
        let next = self.told(answer);
        assert(left >= 1);
        assert(left * per == (left - 1) * per + per) by (nonlinear_arith);
        assert((left - 1) * per >= 0) by (nonlinear_arith)
            requires
                left >= 1,
                per >= 1,
        ;
        assert(left <= self.peers + 2);
        assert(left * per <= (self.peers + 2) * per) by (nonlinear_arith)
            requires
                left <= self.peers + 2,
                per >= 1,
        ;
        if answer is Empty || (answer is Retry && self.retries >= self.budget) {
            assert(next.sources_left() == left - 1);
        }
    }

    /// A new search.
    pub fn new(peers: usize, first: usize, budget: usize) -> (r: Search<T>)
        ensures
            r == Search::<T>::start(peers, first, budget),
            r.wf(),
            !r.done(),
    {
        Search {
            peers,
            first: if peers == 0 {
                0
            } else {
                first % peers
            },
            budget,
            stage: Stage::Local,
            retries: 0,
            found: None,
            contended: false,
        }
    }

    /// The source to ask next, or `None` when the search is over.
    pub fn next(&self) -> (r: Option<Source>)
        requires
            self.wf(),
        ensures
            r == self.source(),
            r is None <==> self.done(),
            r matches Some(Source::Peer(index)) ==> index < self.peers,
    {
        if self.found.is_some() {
            return None;
        }
        match self.stage {
            Stage::Local => Some(Source::Local),
            Stage::Global => Some(Source::Global),
            Stage::Peer(turn) => {
                let room: usize = self.peers - self.first;
                let index: usize = if turn < room {
                    self.first + turn
                } else {
                    turn - room
                };
                Some(Source::Peer(index))
            },
            Stage::Exhausted => None,
        }
    }

    /// Takes the answer of the source that was asked.
    pub fn record(&mut self, answer: Steal<T>)
        requires
            old(self).wf(),
        ensures
            *final(self) == old(self).told(answer),
            final(self).wf(),
    {
        if self.found.is_some() {
            return ;
        }
        match self.stage {
            Stage::Exhausted => {
                return ;
            },
            _ => {},
        }
        proof {
            old(self).lemma_told(answer);
        }
        let moved: Stage = match self.stage {
            Stage::Local => Stage::Global,
            Stage::Global => if self.peers > 0 {
                Stage::Peer(0)
            } else {
                Stage::Exhausted
            },
            Stage::Peer(turn) => if turn + 1 < self.peers {
                Stage::Peer(turn + 1)
            } else {
                Stage::Exhausted
            },
            Stage::Exhausted => Stage::Exhausted,
        };
        match answer {
            Steal::Success(task) => {
                self.found = Some(task);
            },
            Steal::Empty => {
                self.stage = moved;
                self.retries = 0;
            },
            Steal::Retry => {
                if self.retries < self.budget {
                    self.retries = self.retries + 1;
                } else {
                    self.stage = moved;
                    self.retries = 0;
                    self.contended = true;
                }
            },
        }
    }
}

} // verus!
