//! The script: its sources, its compiled program, its context and the
//! record of its runs.

use vstd::prelude::*;
use crate::compile::compile_source;
use crate::compile::compile_source_into_data;
use crate::compile::source_fails_early;
use crate::compile::Compiled;
use crate::compile::MALFORMED_LITERAL;
use crate::context::builtins;
use crate::context::BrowserContext;
use crate::context::ContextView;
use crate::execution::Execution;
use crate::execution::ExecutionView;
use crate::execution::Stage;
use crate::execution::StepOutcome;
use crate::execution::StepOutcomeView;
use crate::source::SourceDetails;
use crate::token::check_literals;
use crate::token::to_tokens;
use crate::token::tokens_build;
use crate::toolchain::build_into;
use crate::toolchain::built;
use crate::toolchain::clone_store;
use crate::toolchain::current_value;
use crate::toolchain::lex_text;
use crate::toolchain::lexed;
use crate::toolchain::new_store;
use crate::toolchain::parse_tokens;
use crate::toolchain::parsed;
use crate::toolchain::push_value;
use crate::toolchain::store_current;
use crate::toolchain::store_is_new;
use crate::toolchain::value_pushed;
use crate::toolchain::ProgramStore;

verus! {

/// The budget of a script that was given no other: the most steps that one
/// run may take.
pub const DEFAULT_EXECUTION_LIMIT: usize = 10000;

pub const COMPILE_ERROR_PREFIX: &'static str = "Error compiling ";

pub const COMPILE_ERROR_SEPARATOR: &'static str = ": ";

/// The error of a run that the budget cut off.
pub const LIMIT_REACHED: &'static str =
    "Instruction execution limit reached. Possibly an infinite loop.";

/// The error of a run whose input program left no value.
pub const NO_INPUT_VALUE: &'static str = "No current value made for input.";

/// The address that a run without input starts from.
pub const ROOT_ADDRESS: usize = 0;

/// The store that holds nothing yet: the one that every compile starts from.
pub open spec fn empty_store() -> ProgramStore {
    choose|store: ProgramStore| store_is_new(store)
}

/// A source record as a mathematical value: its name and its text.
pub struct SourceView {
    pub name: Seq<char>,
    pub text: Seq<char>,
}

/// The views of a sequence of source records, in order.
pub open spec fn sources_view(sources: Seq<SourceDetails>) -> Seq<SourceView> {
    Seq::new(
        sources.len(),
        |i: int| SourceView { name: sources[i].name_view(), text: sources[i].text_view() },
    )
}

/// A script as a mathematical value.
pub struct ScriptView {
    pub source: SourceView,
    pub input: Option<Seq<char>>,
    pub included: Seq<SourceView>,
    pub data: ProgramStore,
    pub error: Option<Seq<char>>,
    pub executions: Seq<ProgramStore>,
    pub context: ContextView,
    pub execution_limit: usize,
}

/// What compiling the records from index `from` on makes of a store and a
/// context, each record in its turn, or the message of the first error.
pub open spec fn compile_sources(
    sources: Seq<SourceView>,
    from: int,
    store: ProgramStore,
    context: ContextView,
) -> Result<Compiled, Seq<char>>
    decreases sources.len() - from,
{
    if from < 0 || from >= sources.len() {
        Ok(Compiled { store, context })
    } else {
        match compile_source(sources[from].text, sources[from].name, store, context) {
            Err(message) => Err(message),
            Ok(done) => compile_sources(sources, from + 1, done.store, done.context),
        }
    }
}

/// The index of the first record from `from` on whose compile fails, with
/// the store and the context as the records before it left them; the number
/// of records where none fails.
pub open spec fn first_failure(
    sources: Seq<SourceView>,
    from: int,
    store: ProgramStore,
    context: ContextView,
) -> (int, Compiled)
    decreases sources.len() - from,
{
    if from < 0 || from >= sources.len() {
        (sources.len() as int, Compiled { store, context })
    } else {
        match compile_source(sources[from].text, sources[from].name, store, context) {
            Err(_) => (from, Compiled { store, context }),
            Ok(done) => first_failure(sources, from + 1, done.store, done.context),
        }
    }
}

/// What compiling a script makes: the primary record, then the included
/// records in order, into the empty store and the given context.
pub open spec fn compile_script(
    source: SourceView,
    included: Seq<SourceView>,
    context: ContextView,
) -> Result<Compiled, Seq<char>> {
    compile_sources(seq![source] + included, 0, empty_store(), context)
}

/// The message of a compile that failed: the name of the primary record and
/// the message of the error.
pub open spec fn compile_failure(name: Seq<char>, message: Seq<char>) -> Seq<char> {
    COMPILE_ERROR_PREFIX@ + name + COMPILE_ERROR_SEPARATOR@ + message
}

/// The store that an input text compiles to, by itself and from nothing, or
/// the message of the first error.
pub open spec fn compile_input(text: Seq<char>) -> Result<ProgramStore, Seq<char>> {
    match lexed(text) {
        Err(message) => Err(message),
        Ok(tokens) => match parsed(tokens) {
            Err(message) => Err(message),
            Ok(tree) => if !tokens_build(tokens) {
                Err(MALFORMED_LITERAL@)
            } else {
                built(tree, empty_store())
            },
        },
    }
}

impl ScriptView {
    /// This script with `message` as its last error.
    pub open spec fn failed(self, message: Seq<char>) -> ScriptView {
        ScriptView { error: Some(message), ..self }
    }

    /// This script with `snapshot` as its latest run.
    pub open spec fn recorded(self, snapshot: ProgramStore) -> ScriptView {
        ScriptView { executions: self.executions.push(snapshot), ..self }
    }

    /// The script and the run after a run was begun. Without input the
    /// program starts at once on a copy of the compiled store, from the root
    /// address. With input the input text is compiled into a store of its
    /// own and started there; where that compile fails the run is over and
    /// the error recorded.
    pub open spec fn begun(self) -> (ScriptView, ExecutionView) {
        match self.input {
            None => (
                self,
                ExecutionView {
                    stage: Stage::Main,
                    input: empty_store(),
                    store: value_pushed(self.data, ROOT_ADDRESS),
                    count: 0,
                },
            ),
            Some(text) => match compile_input(text) {
                Err(message) => (
                    self.failed(message),
                    ExecutionView { stage: Stage::Done, input: empty_store(), store: self.data, count: 0 },
                ),
                Ok(input) => (
                    self,
                    ExecutionView {
                        stage: Stage::Input,
                        input: value_pushed(input, ROOT_ADDRESS),
                        store: self.data,
                        count: 0,
                    },
                ),
            },
        }
    }

    /// Whether one more running step uses the budget up.
    pub open spec fn budget_spent(self, run: ExecutionView) -> bool {
        run.count + 1 >= self.execution_limit
    }

    /// The script and the run after the input program stopped: its current
    /// value waits to be copied, and a run without one fails.
    pub open spec fn input_ended(self, run: ExecutionView) -> (ScriptView, ExecutionView) {
        match store_current(run.input) {
            Some(address) => (self, ExecutionView { stage: Stage::Copy(address), ..run }),
            None => (self.failed(NO_INPUT_VALUE@), ExecutionView { stage: Stage::Done, ..run }),
        }
    }

    /// The script and the run after the engine took a step with `outcome`.
    ///
    /// While the program runs: at its end the working store goes on record;
    /// a running step is counted, and where the count reaches the budget the
    /// limit error is recorded and the working store goes on record all the
    /// same; a failure of the engine is recorded and nothing goes on record.
    ///
    /// While the input program runs: at its end its current value waits to
    /// be copied, and a run without one fails; where the count reaches the
    /// budget the limit error is recorded and the input program is taken to
    /// have stopped there; a failure of the engine ends the run with its
    /// error and nothing on record.
    pub open spec fn stepped(self, run: ExecutionView, outcome: StepOutcomeView) -> (
        ScriptView,
        ExecutionView,
    ) {
        let done = ExecutionView { stage: Stage::Done, ..run };
        let counted = ExecutionView { count: (run.count + 1) as usize, ..run };
        match run.stage {
            Stage::Main => match outcome {
                StepOutcomeView::End => (self.recorded(run.store), done),
                StepOutcomeView::Running => if self.budget_spent(run) {
                    (self.failed(LIMIT_REACHED@).recorded(run.store), done)
                } else {
                    (self, counted)
                },
                StepOutcomeView::Failed(message) => (self.failed(message), done),
            },
            Stage::Input => match outcome {
                StepOutcomeView::End => self.input_ended(run),
                StepOutcomeView::Running => if self.budget_spent(run) {
                    self.failed(LIMIT_REACHED@).input_ended(run)
                } else {
                    (self, counted)
                },
                StepOutcomeView::Failed(message) => (self.failed(message), done),
            },
            _ => (self, run),
        }
    }

    /// The script and the run after the input value was copied into the
    /// working store, to `result`: the program starts from the copy's
    /// address, or the run fails with the message.
    pub open spec fn copied(self, run: ExecutionView, result: Result<usize, Seq<char>>) -> (
        ScriptView,
        ExecutionView,
    ) {
        match run.stage {
            Stage::Copy(_) => match result {
                Ok(address) => (
                    self,
                    ExecutionView {
                        stage: Stage::Main,
                        store: value_pushed(run.store, address),
                        count: 0,
                        ..run
                    },
                ),
                Err(message) => (self.failed(message), ExecutionView { stage: Stage::Done, ..run }),
            },
            _ => (self, run),
        }
    }
}

/// One script of an editing session: its sources, its compiled program and
/// the record of its runs.
pub struct GarnishScript {
    source: SourceDetails,
    input: Option<String>,
    included: Vec<SourceDetails>,
    data: ProgramStore,
    error: Option<String>,
    executions: Vec<ProgramStore>,
    context: BrowserContext,
    execution_limit: usize,
}

impl View for GarnishScript {
    type V = ScriptView;

    closed spec fn view(&self) -> ScriptView {
        ScriptView {
            source: SourceView { name: self.source.name_view(), text: self.source.text_view() },
            input: match self.input {
                Some(text) => Some(text@),
                None => None,
            },
            included: sources_view(self.included@),
            data: self.data,
            error: match self.error {
                Some(message) => Some(message@),
                None => None,
            },
            executions: self.executions@,
            context: self.context@,
            execution_limit: self.execution_limit,
        }
    }
}

impl GarnishScript {
    /// A script with one source, no input, nothing included, nothing
    /// compiled, no run yet, the built-in constants and the default budget.
    pub fn new(name: String, text: String) -> (script: GarnishScript)
        ensures
            script@ == (ScriptView {
                source: SourceView { name: name@, text: text@ },
                input: None,
                included: Seq::empty(),
                data: empty_store(),
                error: None,
                executions: Seq::empty(),
                context: builtins(),
                execution_limit: DEFAULT_EXECUTION_LIMIT,
            }),
    {
        let script = GarnishScript {
            source: SourceDetails::new(name, text),
            input: None,
            included: Vec::new(),
            data: new_store(),
            error: None,
            executions: Vec::new(),
            context: BrowserContext::new(),
            execution_limit: DEFAULT_EXECUTION_LIMIT,
        };
        assert(script@.included =~= Seq::empty());
        script
    }

    pub fn get_name(&self) -> (name: String)
        ensures
            name@ == self@.source.name,
    {
        self.source.get_name()
    }

    pub fn set_name(&mut self, name: String)
        ensures
            final(self)@ == (ScriptView {
                source: SourceView { name: name@, text: old(self)@.source.text },
                ..old(self)@
            }),
    {
        self.source.set_name(name);
    }

    pub fn get_text(&self) -> (text: String)
        ensures
            text@ == self@.source.text,
    {
        self.source.get_text()
    }

    pub fn set_text(&mut self, text: String)
        ensures
            final(self)@ == (ScriptView {
                source: SourceView { name: old(self)@.source.name, text: text@ },
                ..old(self)@
            }),
    {
        self.source.set_text(text);
    }

    pub fn get_input(&self) -> (input: Option<String>)
        ensures
            match input {
                Some(text) => self@.input == Some(text@),
                None => self@.input is None,
            },
    {
        match &self.input {
            Some(text) => Some(text.clone()),
            None => None,
        }
    }

    pub fn set_input(&mut self, input: String)
        ensures
            final(self)@ == (ScriptView { input: Some(input@), ..old(self)@ }),
    {
        self.input = Some(input);
    }

    /// Takes the pending input away: the next run starts from the root.
    pub fn clear_input(&mut self)
        ensures
            final(self)@ == (ScriptView { input: None, ..old(self)@ }),
    {
        self.input = None;
    }

    pub fn get_error(&self) -> (error: Option<String>)
        ensures
            match error {
                Some(message) => self@.error == Some(message@),
                None => self@.error is None,
            },
    {
        match &self.error {
            Some(message) => Some(message.clone()),
            None => None,
        }
    }

    /// The most steps that one run may take.
    pub fn get_execution_limit(&self) -> (limit: usize)
        ensures
            limit == self@.execution_limit,
    {
        self.execution_limit
    }

    /// Sets the most steps that one run may take.
    pub fn set_execution_limit(&mut self, limit: usize)
        ensures
            final(self)@ == (ScriptView { execution_limit: limit, ..old(self)@ }),
    {
        self.execution_limit = limit;
    }

    /// Adds a record to those that are compiled after the primary one.
    pub fn include_source(&mut self, name: String, text: String)
        ensures
            final(self)@ == (ScriptView {
                included: old(self)@.included.push(SourceView { name: name@, text: text@ }),
                ..old(self)@
            }),
    {
        self.included.push(SourceDetails::new(name, text));
        assert(final(self)@.included =~= old(self)@.included.push(
            SourceView { name: name@, text: text@ },
        ));
    }

    /// How many runs are on record, in 32 bits: a count beyond them keeps its
    /// low 32 bits.
    pub fn get_execution_count(&self) -> (count: u32)
        ensures
            count == self@.executions.len() % 0x1_0000_0000,
    {
        let len: u64 = self.executions.len() as u64;
        let count = #[verifier::truncate] (len as u32);
        assert(count == len % 0x1_0000_0000u64) by (bit_vector)
            requires
                count == len as u32,
        ;
        count
    }

    pub fn clear_executions(&mut self)
        ensures
            final(self)@ == (ScriptView { executions: Seq::empty(), ..old(self)@ }),
    {
        self.executions = Vec::new();
    }

    /// Records that a compile failed with `message`.
    fn fail_compile(&mut self, message: String)
        ensures
            final(self)@.error == Some(compile_failure(old(self)@.source.name, message@)),
            final(self)@.source == old(self)@.source,
            final(self)@.input == old(self)@.input,
            final(self)@.included == old(self)@.included,
            final(self)@.executions == old(self)@.executions,
            final(self)@.execution_limit == old(self)@.execution_limit,
            final(self)@.data == old(self)@.data,
            final(self)@.context == old(self)@.context,
    {
        let mut text = String::from_str(COMPILE_ERROR_PREFIX);
        text.append(self.source.name().as_str());
        text.append(COMPILE_ERROR_SEPARATOR);
        text.append(message.as_str());
        self.error = Some(text);
    }

    /// Compiles the script from nothing: the store of an earlier compile is
    /// dropped, then the primary record and each included record is compiled
    /// in turn into one new store. The first error ends the compile and is
    /// recorded under the primary record's name; the store and the context
    /// are then as the failed compile left them.
    pub fn compile(&mut self)
        ensures
            final(self)@.source == old(self)@.source,
            final(self)@.input == old(self)@.input,
            final(self)@.included == old(self)@.included,
            final(self)@.executions == old(self)@.executions,
            final(self)@.execution_limit == old(self)@.execution_limit,
            match compile_script(old(self)@.source, old(self)@.included, old(self)@.context) {
                Ok(done) => {
                    &&& final(self)@.data == done.store
                    &&& final(self)@.context == done.context
                    &&& final(self)@.error == old(self)@.error
                },
                Err(message) => {
                    let (failing, before) = first_failure(
                        seq![old(self)@.source] + old(self)@.included,
                        0,
                        empty_store(),
                        old(self)@.context,
                    );
                    &&& final(self)@.error == Some(compile_failure(old(self)@.source.name, message))
                    &&& 0 <= failing <= old(self)@.included.len()
                    &&& source_fails_early((seq![old(self)@.source] + old(self)@.included)[failing].text)
                        ==> final(self)@.data == before.store && final(self)@.context
                        == before.context
                },
            },
    {
        let ghost sources = seq![self@.source] + self@.included;
        let ghost outcome = compile_script(self@.source, self@.included, self@.context);
        let ghost failure = first_failure(sources, 0, empty_store(), self@.context);
        self.data = new_store();
        assert(self.data == empty_store());
        match compile_source_into_data(&self.source, &mut self.data, &mut self.context) {
            Err(message) => {
                self.fail_compile(message);
                return ;
            },
            Ok(_) => {},
        }
        let mut i: usize = 0;
        while i < self.included.len()
            invariant
                i <= self.included.len(),
                self@.source == old(self)@.source,
                self@.input == old(self)@.input,
                self@.included == old(self)@.included,
                self@.executions == old(self)@.executions,
                self@.execution_limit == old(self)@.execution_limit,
                self@.error == old(self)@.error,
                sources == seq![self@.source] + self@.included,
                outcome == compile_script(old(self)@.source, old(self)@.included, old(self)@.context),
                outcome == compile_sources(sources, i + 1, self@.data, self@.context),
                failure == first_failure(
                    seq![old(self)@.source] + old(self)@.included,
                    0,
                    empty_store(),
                    old(self)@.context,
                ),
                failure == first_failure(sources, i + 1, self@.data, self@.context),
            decreases self.included.len() - i,
        {
            assert(sources[i + 1] == self@.included[i as int]);
            match compile_source_into_data(&self.included[i], &mut self.data, &mut self.context) {
                Err(message) => {
                    self.fail_compile(message);
                    return ;
                },
                Ok(_) => {},
            }
            i = i + 1;
        }
    }

    /// Compiles an input text into a store of its own.
    pub fn compile_script(text: &str) -> (r: Result<ProgramStore, String>)
        ensures
            match r {
                Ok(store) => compile_input(text@) == Ok::<ProgramStore, Seq<char>>(store),
                Err(message) => compile_input(text@) == Err::<ProgramStore, Seq<char>>(message@),
            },
    {
        let tokens = match lex_text(text) {
            Ok(tokens) => tokens,
            Err(message) => {
                return Err(message);
            },
        };
        let tree = match parse_tokens(&tokens) {
            Ok(tree) => tree,
            Err(message) => {
                return Err(message);
            },
        };
        if !check_literals(&to_tokens(&tokens)) {
            return Err(MALFORMED_LITERAL.to_owned());
        }
        let mut data = new_store();
        match build_into(&tree, &mut data) {
            Ok(_) => Ok(data),
            Err(message) => Err(message),
        }
    }

    /// Begins a run on a copy of the compiled store.
    pub fn begin_execution(&mut self) -> (execution: Execution)
        ensures
            (final(self)@, execution@) == old(self)@.begun(),
    {
        let working = clone_store(&self.data);
        match &self.input {
            None => {
                let mut execution = Execution::new(Stage::Done, new_store(), working);
                execution.start_main(ROOT_ADDRESS);
                execution
            },
            Some(text) => match GarnishScript::compile_script(text.as_str()) {
                Err(message) => {
                    self.error = Some(message);
                    Execution::new(Stage::Done, new_store(), working)
                },
                Ok(input) => {
                    let mut input = input;
                    push_value(&mut input, ROOT_ADDRESS);
                    Execution::new(Stage::Input, input, working)
                },
            },
        }
    }

    /// Whether one more running step uses the budget up.
    fn is_budget_spent(&self, execution: &Execution) -> (spent: bool)
        ensures
            spent == self@.budget_spent(execution@),
    {
        let count = execution.count();
        count >= self.execution_limit || self.execution_limit - count <= 1
    }

    /// Takes the input program as stopped: its current value waits to be
    /// copied, and a run without one fails.
    fn end_input(&mut self, execution: &mut Execution)
        ensures
            (final(self)@, final(execution)@) == old(self)@.input_ended(old(execution)@),
    {
        match current_value(execution.input()) {
            Some(address) => {
                execution.await_copy(address);
            },
            None => {
                self.error = Some(NO_INPUT_VALUE.to_owned());
                execution.finish();
            },
        }
    }

    /// Takes note of the step that the engine took on the run's store, and
    /// decides how the run goes on.
    pub fn record_step(&mut self, execution: &mut Execution, outcome: StepOutcome)
        ensures
            (final(self)@, final(execution)@) == old(self)@.stepped(old(execution)@, outcome@),
    {
        match execution.stage() {
            Stage::Main => match outcome {
                StepOutcome::End => {
                    self.executions.push(clone_store(execution.store()));
                    execution.finish();
                },
                StepOutcome::Running => {
                    if self.is_budget_spent(execution) {
                        self.error = Some(LIMIT_REACHED.to_owned());
                        self.executions.push(clone_store(execution.store()));
                        execution.finish();
                    } else {
                        execution.count_step();
                    }
                },
                StepOutcome::Failed(message) => {
                    self.error = Some(message);
                    execution.finish();
                },
            },
            Stage::Input => match outcome {
                StepOutcome::End => {
                    self.end_input(execution);
                },
                StepOutcome::Running => {
                    if self.is_budget_spent(execution) {
                        self.error = Some(LIMIT_REACHED.to_owned());
                        self.end_input(execution);
                    } else {
                        execution.count_step();
                    }
                },
                StepOutcome::Failed(message) => {
                    self.error = Some(message);
                    execution.finish();
                },
            },
            _ => {},
        }
    }

    /// Takes note of the copy of the input value into the run's working
    /// store, and starts the program from the copy.
    pub fn record_copy(&mut self, execution: &mut Execution, result: Result<usize, String>)
        ensures
            (final(self)@, final(execution)@) == old(self)@.copied(
                old(execution)@,
                match result {
                    Ok(address) => Ok(address),
                    Err(message) => Err(message@),
                },
            ),
    {
        match execution.stage() {
            Stage::Copy(_) => match result {
                Ok(address) => {
                    execution.start_main(address);
                },
                Err(message) => {
                    self.error = Some(message);
                    execution.finish();
                },
            },
            _ => {},
        }
    }

    /// The context, for the engine to ask.
    pub fn context_mut(&mut self) -> (context: &mut BrowserContext)
        ensures
            context@ == old(self)@.context,
            final(self)@ == (ScriptView { context: final(context)@, ..old(self)@ }),
    {
        &mut self.context
    }

    /// The context, for the formatter to ask.
    pub fn context(&self) -> (context: &BrowserContext)
        ensures
            context@ == self@.context,
    {
        &self.context
    }

    /// The address of the value that the run at `execution_index` ended
    /// with, for the formatter to print.
    pub fn get_execution_value(&self, execution_index: usize) -> (address: Option<usize>)
        ensures
            address == if execution_index < self@.executions.len() {
                store_current(self@.executions[execution_index as int])
            } else {
                None
            },
    {
        match self.get_execution(execution_index) {
            Some(execution) => current_value(execution),
            None => None,
        }
    }

    pub fn get_data(&self) -> (data: &ProgramStore)
        ensures
            *data == self@.data,
    {
        &self.data
    }

    pub fn get_execution(&self, index: usize) -> (execution: Option<&ProgramStore>)
        ensures
            match execution {
                Some(store) => index < self@.executions.len() && *store
                    == self@.executions[index as int],
                None => index >= self@.executions.len(),
            },
    {
        if index < self.executions.len() {
            Some(&self.executions[index])
        } else {
            None
        }
    }
}

} // verus!
