//! The benchmark pass over every engine. The caller performs each step that
//! `next_step` names (starting a clock, inserting one record, stopping the
//! clock) and reports back with `advance`. Engines are visited one after the
//! other in a fixed order; within an engine the records go one at a time in
//! batch order, and the first failed insert ends that engine's pass without
//! stopping the engines after it.
use vstd::prelude::*;

verus! {

/// The number of engines a pass visits.
pub const BACKEND_COUNT: usize = 5;

/// The engines, in the order a pass visits them.
#[derive(Clone, Copy, Debug, PartialEq, Eq, Structural)]
pub enum Backend {
    MongoDB,
    PostgreSQL,
    SurrealDB,
    LevelDB,
    RocksDB,
}

/// The engine at position `i` of the visiting order.
pub open spec fn backend_at(i: int) -> Backend {
    if i == 0 {
        Backend::MongoDB
    } else if i == 1 {
        Backend::PostgreSQL
    } else if i == 2 {
        Backend::SurrealDB
    } else if i == 3 {
        Backend::LevelDB
    } else {
        Backend::RocksDB
    }
}

impl Backend {
    /// The engine at position `i` of the visiting order.
    pub fn at(i: usize) -> (r: Backend)
        requires
            i < BACKEND_COUNT,
        ensures
            r == backend_at(i as int),
    {
        if i == 0 {
            Backend::MongoDB
        } else if i == 1 {
            Backend::PostgreSQL
        } else if i == 2 {
            Backend::SurrealDB
        } else if i == 3 {
            Backend::LevelDB
        } else {
            Backend::RocksDB
        }
    }
}

/// What the caller does next.
#[derive(Clone, Copy, Debug, PartialEq, Eq, Structural)]
pub enum Step {
    /// Start the clock for this engine's pass.
    Begin(Backend),
    /// Insert the record at this position of the batch into the engine.
    Insert(Backend, usize),
    /// Stop the clock: the engine's pass is over. Only a pass that took the
    /// whole batch (`true`) has a time worth reporting.
    End(Backend, bool),
    /// Every engine has been visited.
    Done,
}

/// Where the pass stands within the current engine.
#[derive(Clone, Copy, Debug, PartialEq, Eq, Structural)]
pub enum Phase {
    /// The clock has not been started.
    Starting,
    /// The records before this position were inserted.
    Inserting(usize),
    /// An insert failed.
    Failed,
}

/// One insertion pass of a batch over every engine.
pub struct InsertPass {
    batch_len: usize,
    position: usize,
    phase: Phase,
    outcomes: Vec<bool>,
}

impl InsertPass {
    /// The number of records in the batch.
    pub closed spec fn batch_len(&self) -> nat {
        self.batch_len as nat
    }

    /// The position of the current engine in the visiting order.
    pub closed spec fn position(&self) -> nat {
        self.position as nat
    }

    /// Where the pass stands within the current engine.
    pub closed spec fn phase(&self) -> Phase {
        self.phase
    }

    /// For each engine already visited, whether its whole batch went in.
    pub closed spec fn outcomes(&self) -> Seq<bool> {
        self.outcomes@
    }

    pub open spec fn wf(&self) -> bool {
        &&& self.position() <= BACKEND_COUNT
        &&& self.outcomes().len() == self.position()
        &&& self.phase() matches Phase::Inserting(i) ==> i <= self.batch_len()
        &&& self.position() == BACKEND_COUNT ==> self.phase() == Phase::Starting
    }

    /// The step that the state calls for.
    pub open spec fn step_of(&self) -> Step {
        if self.position() >= BACKEND_COUNT {
            Step::Done
        } else {
            let b = backend_at(self.position() as int);
            match self.phase() {
                Phase::Starting => Step::Begin(b),
                Phase::Inserting(i) => if i < self.batch_len() {
                    Step::Insert(b, i)
                } else {
                    Step::End(b, true)
                },
                Phase::Failed => Step::End(b, false),
            }
        }
    }

    /// Steps taken so far within the current engine.
    pub open spec fn taken(&self) -> int {
        match self.phase() {
            Phase::Starting => 0,
            Phase::Inserting(i) => 1 + i,
            Phase::Failed => self.batch_len() as int + 2,
        }
    }

    /// A bound on the steps left: every advance lowers it.
    pub open spec fn steps_left(&self) -> int {
        (BACKEND_COUNT - self.position()) * (self.batch_len() + 3) - self.taken()
    }

    /// A pass over a batch of `batch_len` records, before the first engine.
    pub fn new(batch_len: usize) -> (r: InsertPass)
        ensures
            r.wf(),
            r.batch_len() == batch_len,
            r.position() == 0,
            r.phase() == Phase::Starting,
            r.outcomes() == Seq::<bool>::empty(),
    {
        InsertPass { batch_len, position: 0, phase: Phase::Starting, outcomes: Vec::new() }
    }

    /// The step to perform now.
    pub fn next_step(&self) -> (r: Step)
        requires
            self.wf(),
        ensures
            r == self.step_of(),
    {
        if self.position >= BACKEND_COUNT {
            Step::Done
        } else {
            let b = Backend::at(self.position);
            match self.phase {
                Phase::Starting => Step::Begin(b),
                Phase::Inserting(i) => if i < self.batch_len {
                    Step::Insert(b, i)
                } else {
                    Step::End(b, true)
                },
                Phase::Failed => Step::End(b, false),
            }
        }
    }

    /// Moves past the step that `next_step` named, once it was performed; `ok`
    /// says whether an insert succeeded and is not read for other steps.
    pub fn advance(&mut self, ok: bool)
        requires
            old(self).wf(),
            old(self).step_of() != Step::Done,
        ensures
            final(self).wf(),
            final(self).batch_len() == old(self).batch_len(),
            final(self).steps_left() < old(self).steps_left(),
            0 <= final(self).steps_left(),
            match old(self).step_of() {
                Step::Begin(_) => {
                    &&& final(self).phase() == Phase::Inserting(0)
                    &&& final(self).position() == old(self).position()
                    &&& final(self).outcomes() == old(self).outcomes()
                },
                Step::Insert(_, i) => {
                    &&& final(self).phase() == (if ok {
                        Phase::Inserting((i + 1) as usize)
                    } else {
                        Phase::Failed
                    })
                    &&& final(self).position() == old(self).position()
                    &&& final(self).outcomes() == old(self).outcomes()
                },
                Step::End(_, success) => {
                    &&& final(self).phase() == Phase::Starting
                    &&& final(self).position() == old(self).position() + 1
                    &&& final(self).outcomes() == old(self).outcomes().push(success)
                },
                Step::Done => true,
            },
    {
        let ghost n = self.batch_len() as int;
        let ghost p = self.position() as int;
        match self.phase {
            Phase::Starting => {
                self.phase = Phase::Inserting(0);
            },
            Phase::Inserting(i) => {
                if i < self.batch_len {
                    if ok {
                        self.phase = Phase::Inserting(i + 1);
                    } else {
                        self.phase = Phase::Failed;
                    }
                } else {
                    self.outcomes.push(true);
                    self.position = self.position + 1;
                    self.phase = Phase::Starting;
                }
            },
            Phase::Failed => {
                self.outcomes.push(false);
                self.position = self.position + 1;
                self.phase = Phase::Starting;
            },
        }
        proof {
            assert((5 - p) * (n + 3) == (5 - (p + 1)) * (n + 3) + (n + 3)) by (nonlinear_arith);
            assert(0 <= (5 - (p + 1)) * (n + 3)) by (nonlinear_arith)
                requires
                    p < 5,
                    n >= 0,
            ;
        }
    }

    /// For each engine already visited, whether its whole batch went in.
    pub fn engine_outcomes(&self) -> (r: Vec<bool>)
        ensures
            r@ == self.outcomes(),
    {
        self.outcomes.clone()
    }

    /// Whether every engine was visited and took the whole batch.
    pub fn succeeded(&self) -> (r: bool)
        requires
            self.wf(),
        ensures
            r == (self.position() == BACKEND_COUNT && forall|i: int|
                0 <= i < self.outcomes().len() ==> #[trigger] self.outcomes()[i]),
    {
        if self.position < BACKEND_COUNT {
            return false;
        }
        let mut i: usize = 0;
        while i < self.outcomes.len()
            invariant
                i <= self.outcomes.len(),
                forall|j: int| 0 <= j < i ==> #[trigger] self.outcomes()[j],
            decreases self.outcomes.len() - i,
        {
            if !self.outcomes[i] {
                assert(!self.outcomes()[i as int]);
                return false;
            }
            i = i + 1;
        }
        true
    }
}

} // verus!
