//! A run in progress: where it stands and which stores it works on. The
//! engine is not called from here; the caller lets it take a step on the
//! run's store and hands back what it reported.

use vstd::prelude::*;
use crate::toolchain::push_value;
use crate::toolchain::value_pushed;
use crate::toolchain::ProgramStore;

verus! {

/// What the engine reported of one step.
pub enum StepOutcome {
    /// The step was taken and the program goes on.
    Running,
    /// The program has come to its end.
    End,
    /// The engine failed, with its message.
    Failed(String),
}

/// A step's outcome as a mathematical value.
pub enum StepOutcomeView {
    Running,
    End,
    Failed(Seq<char>),
}

impl View for StepOutcome {
    type V = StepOutcomeView;

    open spec fn view(&self) -> StepOutcomeView {
        match self {
            StepOutcome::Running => StepOutcomeView::Running,
            StepOutcome::End => StepOutcomeView::End,
            StepOutcome::Failed(message) => StepOutcomeView::Failed(message@),
        }
    }
}

/// Where a run stands, and so what is to be done next.
#[derive(Clone, Copy)]
pub enum Stage {
    /// The input program is running: the engine is to take a step on the
    /// input store.
    Input,
    /// The input program has ended with a value at this address of the input
    /// store: the value is to be copied into the working store.
    Copy(usize),
    /// The program is running: the engine is to take a step on the working
    /// store.
    Main,
    /// The run is over.
    Done,
}

/// One run of a script in progress.
pub struct Execution {
    stage: Stage,
    input: ProgramStore,
    store: ProgramStore,
    count: usize,
}

/// A run as a mathematical value.
pub struct ExecutionView {
    pub stage: Stage,
    /// The store of the input program.
    pub input: ProgramStore,
    /// The working store: the copy of the compiled store that the run
    /// changes.
    pub store: ProgramStore,
    /// How many steps have been taken and found the program running.
    pub count: usize,
}

impl View for Execution {
    type V = ExecutionView;

    closed spec fn view(&self) -> ExecutionView {
        ExecutionView { stage: self.stage, input: self.input, store: self.store, count: self.count }
    }
}

impl ExecutionView {
    /// The store that the engine is to step: the input store while the
    /// input program runs, the working store otherwise.
    pub open spec fn stepping(self) -> ProgramStore {
        if self.stage is Input {
            self.input
        } else {
            self.store
        }
    }

    /// This run after the engine left `store` where the stepped store was.
    pub open spec fn with_stepping(self, store: ProgramStore) -> ExecutionView {
        if self.stage is Input {
            ExecutionView { input: store, ..self }
        } else {
            ExecutionView { store, ..self }
        }
    }
}

impl Execution {
    pub(crate) fn new(stage: Stage, input: ProgramStore, store: ProgramStore) -> (execution: Execution)
        ensures
            execution@ == (ExecutionView { stage, input, store, count: 0 }),
    {
        Execution { stage, input, store, count: 0 }
    }

    /// Ends the run.
    pub(crate) fn finish(&mut self)
        ensures
            final(self)@ == (ExecutionView { stage: Stage::Done, ..old(self)@ }),
    {
        self.stage = Stage::Done;
    }

    /// Counts one step that found the program running.
    pub(crate) fn count_step(&mut self)
        requires
            old(self)@.count < usize::MAX,
        ensures
            final(self)@ == (ExecutionView { count: (old(self)@.count + 1) as usize, ..old(self)@ }),
    {
        self.count = self.count + 1;
    }

    /// Waits for the value at `address` of the input store to be copied.
    pub(crate) fn await_copy(&mut self, address: usize)
        ensures
            final(self)@ == (ExecutionView { stage: Stage::Copy(address), ..old(self)@ }),
    {
        self.stage = Stage::Copy(address);
    }

    /// Starts the program on the working store, with `seed` on its value
    /// stack.
    pub(crate) fn start_main(&mut self, seed: usize)
        ensures
            final(self)@ == (ExecutionView {
                stage: Stage::Main,
                store: value_pushed(old(self)@.store, seed),
                count: 0,
                ..old(self)@
            }),
    {
        push_value(&mut self.store, seed);
        self.stage = Stage::Main;
        self.count = 0;
    }

    /// How many steps have been taken and found the program running.
    pub fn count(&self) -> (count: usize)
        ensures
            count == self@.count,
    {
        self.count
    }

    /// The working store.
    pub fn store(&self) -> (store: &ProgramStore)
        ensures
            *store == self@.store,
    {
        &self.store
    }

    /// The store of the input program.
    pub fn input(&self) -> (store: &ProgramStore)
        ensures
            *store == self@.input,
    {
        &self.input
    }

    pub fn stage(&self) -> (stage: Stage)
        ensures
            stage == self@.stage,
    {
        self.stage
    }

    /// Whether the run is over.
    pub fn is_done(&self) -> (done: bool)
        ensures
            done == (self@.stage is Done),
    {
        match self.stage {
            Stage::Done => true,
            _ => false,
        }
    }

    /// The store that the engine is to step.
    pub fn store_mut(&mut self) -> (store: &mut ProgramStore)
        ensures
            *store == old(self)@.stepping(),
            final(self)@ == old(self)@.with_stepping(*final(store)),
    {
        match self.stage {
            Stage::Input => &mut self.input,
            _ => &mut self.store,
        }
    }

    /// The input store, to copy from, and the working store, to copy into.
    pub fn copy_stores(&mut self) -> (stores: (&ProgramStore, &mut ProgramStore))
        ensures
            *stores.0 == old(self)@.input,
            *stores.1 == old(self)@.store,
            final(self)@ == (ExecutionView { store: *final(stores.1), ..old(self)@ }),
    {
        (&self.input, &mut self.store)
    }
}

} // verus!
