//! What holds of the library as a whole, proved from the definitions that
//! the contracts of its functions are stated over.

use vstd::prelude::*;
use garnish_lang::compiler::lex::TokenType;
use crate::compile::compile_blocks;
use crate::compile::compile_record;
use crate::compile::compile_source;
use crate::compile::MALFORMED_LITERAL;
use crate::compile::definition_shape;
use crate::compile::root_tokens;
use crate::compile::Compiled;
use crate::compile::DEFINITION;
use crate::compile::NAME_TOKENS;
use crate::context::builtins;
use crate::context::Binding;
use crate::context::ContextView;
use crate::context::MATH_INTEGER_MAX_SYMBOL;
use crate::context::MATH_INTEGER_MIN_SYMBOL;
use crate::execution::ExecutionView;
use crate::execution::Stage;
use crate::execution::StepOutcomeView;
use crate::script::compile_script;
use crate::script::compile_sources;
use crate::script::empty_store;
use crate::script::ScriptView;
use crate::script::SourceView;
use crate::script::LIMIT_REACHED;
use crate::token::nesting_is_counted;
use crate::token::tokens_build;
use crate::token::TokenView;
use crate::toolchain::built;
use crate::toolchain::collected;
use crate::toolchain::datum_number;
use crate::toolchain::lexed;
use crate::toolchain::parsed;
use crate::toolchain::store_jump_count;
use crate::toolchain::store_symbols;
use crate::toolchain::symbol_id;
use crate::token::BlockView;
use crate::toolchain::Datum;
use crate::toolchain::ProgramStore;

verus! {

/// Blocks under no annotation define nothing: compiling the definitions
/// among them leaves the store and the context as they are.
pub proof fn law_blocks_without_definitions(
    blocks: Seq<BlockView>,
    from: int,
    bound: nat,
    store: ProgramStore,
    context: ContextView,
)
    requires
        forall|i: int| 0 <= i < blocks.len() ==> (#[trigger] blocks[i]).annotation.len() == 0,
    ensures
        compile_blocks(blocks, from, bound, store, context) == Ok::<Compiled, Seq<char>>(
            (Compiled { store, context }),
        ),
    decreases blocks.len() - from,
{
    if 0 <= from < blocks.len() {
        law_blocks_without_definitions(blocks, from + 1, bound, store, context);
    }
}

/// A record without definition blocks is one program: however many
/// statements it holds, it is parsed once and built once, its name is bound
/// to the entry of the jump table that was the next free one, and no other
/// symbol is bound.
pub proof fn law_record_without_definitions(
    tokens: Seq<TokenView>,
    name: Seq<char>,
    store: ProgramStore,
    context: ContextView,
    blocks: Seq<BlockView>,
)
    requires
        nesting_is_counted(tokens),
        collected(DEFINITION@, NAME_TOKENS, TokenType::EndExpression, tokens) == Ok::<
            Seq<BlockView>,
            Seq<char>,
        >(blocks),
        forall|i: int| 0 <= i < blocks.len() ==> (#[trigger] blocks[i]).annotation.len() == 0,
    ensures
        compile_record(tokens, name, store, context) == match parsed(root_tokens(blocks)) {
            Err(message) => Err::<Compiled, Seq<char>>(message),
            Ok(tree) => if !tokens_build(root_tokens(blocks)) {
                Err(MALFORMED_LITERAL@)
            } else {
                match built(tree, store) {
                    Err(message) => Err(message),
                    Ok(with_root) => Ok(
                        Compiled {
                            store: with_root,
                            context: context.with_expression(
                                symbol_id(name),
                                name,
                                store_jump_count(store),
                            ).with_names(store_symbols(with_root)),
                        },
                    ),
                }
            },
        },
        compile_record(tokens, name, store, context) matches Ok(done) ==> done.context.bindings
            == context.bindings.insert(
            symbol_id(name),
            Binding::Expression(store_jump_count(store)),
        ),
{
    match parsed(root_tokens(blocks)) {
        Err(_) => {},
        Ok(tree) => match built(tree, store) {
            Err(_) => {},
            Ok(with_root) => {
                law_blocks_without_definitions(
                    blocks,
                    0,
                    tokens.len(),
                    with_root,
                    context.with_expression(symbol_id(name), name, store_jump_count(store)),
                );
            },
        },
    }
}

/// A well-formed definition is compiled as a record of its own: its body,
/// under its name, into the store and the context as the blocks before it
/// left them. The definitions that stood inside it are compiled behind it,
/// and the blocks after it go on from what those made.
pub proof fn law_definition_is_a_record(
    blocks: Seq<BlockView>,
    from: int,
    bound: nat,
    store: ProgramStore,
    context: ContextView,
    name: Seq<char>,
    body: Seq<TokenView>,
)
    requires
        0 <= from < blocks.len(),
        blocks[from].annotation.len() > 0,
        definition_shape(blocks[from]) == Ok::<(Seq<char>, Seq<TokenView>), Seq<char>>((name, body)),
        body.len() < bound,
    ensures
        compile_blocks(blocks, from, bound, store, context) == match compile_record(
            body,
            name,
            store,
            context,
        ) {
            Err(message) => Err::<Compiled, Seq<char>>(message),
            Ok(done) => match compile_blocks(blocks[from].nested, 0, bound, done.store, done.context) {
                Err(message) => Err(message),
                Ok(inner) => compile_blocks(blocks, from + 1, bound, inner.store, inner.context),
            },
        },
{
}

/// A well-formed definition whose body holds no annotated block binds its
/// name to the entry of the jump table that was the next free one, and the
/// store gets what the builder makes of the body alone.
pub proof fn law_definition_binds_its_name(
    name: Seq<char>,
    body: Seq<TokenView>,
    store: ProgramStore,
    context: ContextView,
    inner: Seq<BlockView>,
)
    requires
        nesting_is_counted(body),
        collected(DEFINITION@, NAME_TOKENS, TokenType::EndExpression, body) == Ok::<
            Seq<BlockView>,
            Seq<char>,
        >(inner),
        forall|i: int| 0 <= i < inner.len() ==> (#[trigger] inner[i]).annotation.len() == 0,
        compile_record(body, name, store, context) is Ok,
    ensures
        compile_record(body, name, store, context) matches Ok(done) && {
            &&& parsed(root_tokens(inner)) matches Ok(tree)
            &&& built(tree, store) == Ok::<ProgramStore, Seq<char>>(done.store)
            &&& done.context.bindings.contains_key(symbol_id(name))
            &&& done.context.bindings[symbol_id(name)] == Binding::Expression(
                store_jump_count(store),
            )
            &&& done.context.resolution(symbol_id(name), done.store).1
        },
{
    law_record_without_definitions(body, name, store, context, inner);
}

/// Two outcomes of a compile agree on the store: both failed with one
/// message, or both succeeded with one store.
pub open spec fn same_store(
    first: Result<Compiled, Seq<char>>,
    second: Result<Compiled, Seq<char>>,
) -> bool {
    match (first, second) {
        (Ok(a), Ok(b)) => a.store == b.store,
        (Err(a), Err(b)) => a == b,
        _ => false,
    }
}

/// The store that a record compiles to, and whether it compiles, do not
/// depend on the context.
pub proof fn law_record_store_ignores_context(
    tokens: Seq<TokenView>,
    name: Seq<char>,
    store: ProgramStore,
    first: ContextView,
    second: ContextView,
)
    ensures
        same_store(
            compile_record(tokens, name, store, first),
            compile_record(tokens, name, store, second),
        ),
    decreases tokens.len(), 1nat, Seq::<BlockView>::empty(), 0nat,
{
    if nesting_is_counted(tokens) {
        match collected(DEFINITION@, NAME_TOKENS, TokenType::EndExpression, tokens) {
            Err(_) => {},
            Ok(blocks) => match parsed(root_tokens(blocks)) {
                Err(_) => {},
                Ok(tree) => if tokens_build(root_tokens(blocks)) {
                    match built(tree, store) {
                        Err(_) => {},
                        Ok(with_root) => {
                            law_blocks_store_ignores_context(
                                blocks,
                                0,
                                tokens.len(),
                                with_root,
                                first.with_expression(symbol_id(name), name, store_jump_count(store)),
                                second.with_expression(symbol_id(name), name, store_jump_count(store)),
                            );
                        },
                    }
                },
            },
        }
    }
}

/// The store that definition blocks compile to, and whether they compile,
/// do not depend on the context.
pub proof fn law_blocks_store_ignores_context(
    blocks: Seq<BlockView>,
    from: int,
    bound: nat,
    store: ProgramStore,
    first: ContextView,
    second: ContextView,
)
    ensures
        same_store(
            compile_blocks(blocks, from, bound, store, first),
            compile_blocks(blocks, from, bound, store, second),
        ),
    decreases bound, 0nat, blocks, blocks.len() - from,
{
    if 0 <= from < blocks.len() {
        if blocks[from].annotation.len() == 0 {
            law_blocks_store_ignores_context(blocks, from + 1, bound, store, first, second);
        } else {
            match definition_shape(blocks[from]) {
                Err(_) => {},
                Ok((name, body)) => if body.len() < bound {
                    law_record_store_ignores_context(body, name, store, first, second);
                    match (
                        compile_record(body, name, store, first),
                        compile_record(body, name, store, second),
                    ) {
                        (Ok(a), Ok(b)) => {
                            law_blocks_store_ignores_context(
                                blocks[from].nested,
                                0,
                                bound,
                                a.store,
                                a.context,
                                b.context,
                            );
                            match (
                                compile_blocks(blocks[from].nested, 0, bound, a.store, a.context),
                                compile_blocks(blocks[from].nested, 0, bound, b.store, b.context),
                            ) {
                                (Ok(c), Ok(d)) => {
                                    law_blocks_store_ignores_context(
                                        blocks,
                                        from + 1,
                                        bound,
                                        c.store,
                                        c.context,
                                        d.context,
                                    );
                                },
                                _ => {},
                            }
                        },
                        _ => {},
                    }
                },
            }
        }
    }
}

/// The store that records compile to in turn, and whether they compile, do
/// not depend on the context.
pub proof fn law_sources_store_ignores_context(
    sources: Seq<SourceView>,
    from: int,
    store: ProgramStore,
    first: ContextView,
    second: ContextView,
)
    ensures
        same_store(
            compile_sources(sources, from, store, first),
            compile_sources(sources, from, store, second),
        ),
    decreases sources.len() - from,
{
    if 0 <= from < sources.len() {
        match lexed(sources[from].text) {
            Err(_) => {},
            Ok(tokens) => {
                law_record_store_ignores_context(tokens, sources[from].name, store, first, second);
                match (
                    compile_source(sources[from].text, sources[from].name, store, first),
                    compile_source(sources[from].text, sources[from].name, store, second),
                ) {
                    (Ok(a), Ok(b)) => {
                        law_sources_store_ignores_context(
                            sources,
                            from + 1,
                            a.store,
                            a.context,
                            b.context,
                        );
                    },
                    _ => {},
                }
            },
        }
    }
}

/// A symbol has the binding that was registered last, whatever it was bound
/// to before, and never two.
pub proof fn law_last_registration_wins(
    context: ContextView,
    symbol: u64,
    name: Seq<char>,
    other_name: Seq<char>,
    index: usize,
    datum: Datum,
)
    ensures
        context.with_constant(symbol, name, datum).with_expression(
            symbol,
            other_name,
            index,
        ).bindings[symbol] == Binding::Expression(index),
        context.with_expression(symbol, name, index).with_constant(
            symbol,
            other_name,
            datum,
        ).bindings[symbol] == Binding::Constant(datum),
        context.with_expression(symbol, name, index).with_constant(symbol, other_name, datum).names[symbol]
            == other_name,
{
}

/// Display names are only ever added or replaced: a symbol that has a name
/// has one after every registration.
pub proof fn law_names_are_kept(
    context: ContextView,
    named: u64,
    symbol: u64,
    name: Seq<char>,
    index: usize,
    datum: Datum,
    more: Map<u64, Seq<char>>,
)
    requires
        context.names.contains_key(named),
    ensures
        context.with_name(symbol, name).names.contains_key(named),
        context.with_expression(symbol, name, index).names.contains_key(named),
        context.with_constant(symbol, name, datum).names.contains_key(named),
        context.with_names(more).names.contains_key(named),
{
}

/// In a context whose bindings all hold numbers, every bound symbol
/// answers the engine: asking for it puts a value on the register.
pub proof fn law_numbers_resolve(context: ContextView, symbol: u64, store: ProgramStore)
    requires
        context.holds_numbers(),
        context.bindings.contains_key(symbol),
    ensures
        context.resolution(symbol, store).1,
{
}

/// The context of a new script binds the names of the largest and the
/// smallest integer.
pub proof fn law_builtins_bind_the_integers()
    ensures
        builtins().bindings.contains_key(symbol_id(MATH_INTEGER_MAX_SYMBOL@)),
        builtins().bindings.contains_key(symbol_id(MATH_INTEGER_MIN_SYMBOL@)),
{
}

/// A symbol that is bound to nothing, or to a constant that is no number,
/// is left to the engine, and the store stays as it is.
pub proof fn law_unresolved_symbol_leaves_store(context: ContextView, symbol: u64, store: ProgramStore)
    requires
        !context.bindings.contains_key(symbol) || (context.bindings[symbol] matches Binding::Constant(
            datum,
        ) && datum_number(datum) is None),
    ensures
        context.resolution(symbol, store) == (store, false),
{
}

/// One step of a run in progress.
pub struct Step {
    /// The store as the engine left it.
    pub store: ProgramStore,
    /// What the engine reported.
    pub outcome: StepOutcomeView,
}

/// The script and the run after the engine took the steps in turn, each on
/// the store that the run was stepping.
pub open spec fn driven(script: ScriptView, run: ExecutionView, steps: Seq<Step>) -> (
    ScriptView,
    ExecutionView,
)
    decreases steps.len(),
{
    if steps.len() == 0 {
        (script, run)
    } else {
        let (next_script, next_run) = script.stepped(
            run.with_stepping(steps[0].store),
            steps[0].outcome,
        );
        driven(next_script, next_run, steps.drop_first())
    }
}

/// Beginning a run, taking a step and copying the input never change the
/// compiled store, and never change or remove a run on record: the record
/// stays as it is or grows by one at its end.
pub proof fn law_runs_keep_program_and_record(
    script: ScriptView,
    run: ExecutionView,
    outcome: StepOutcomeView,
    result: Result<usize, Seq<char>>,
)
    ensures
        script.begun().0.data == script.data,
        script.begun().0.executions == script.executions,
        script.stepped(run, outcome).0.data == script.data,
        script.stepped(run, outcome).0.executions == script.executions || script.stepped(
            run,
            outcome,
        ).0.executions == script.executions.push(run.store),
        script.copied(run, result).0.data == script.data,
        script.copied(run, result).0.executions == script.executions,
        run.stage is Done ==> script.stepped(run, outcome) == (script, run) && script.copied(
            run,
            result,
        ) == (script, run),
{
}

/// A run that is over takes no more notice of steps.
pub proof fn law_done_run_stays_done(script: ScriptView, run: ExecutionView, steps: Seq<Step>)
    requires
        run.stage is Done,
    ensures
        driven(script, run, steps).0 == script,
        driven(script, run, steps).1.stage is Done,
    decreases steps.len(),
{
    if steps.len() > 0 {
        law_done_run_stays_done(script, run.with_stepping(steps[0].store), steps.drop_first());
    }
}

/// A program that comes to its end within the budget puts exactly one run
/// on record: the store as its last step left it, behind the runs that were
/// on record before. The last error stays as it was.
pub proof fn law_run_to_end_records_snapshot(script: ScriptView, run: ExecutionView, steps: Seq<Step>)
    requires
        run.stage is Main,
        steps.len() >= 1,
        forall|k: int| 0 <= k < steps.len() - 1 ==> (#[trigger] steps[k]).outcome is Running,
        steps.last().outcome is End,
        run.count + steps.len() - 1 < script.execution_limit,
    ensures
        driven(script, run, steps).0 == script.recorded(steps.last().store),
        driven(script, run, steps).1.stage is Done,
    decreases steps.len(),
{
    let stepping = run.with_stepping(steps[0].store);
    let rest = steps.drop_first();
    let (next_script, next_run) = script.stepped(stepping, steps[0].outcome);
    assert(driven(script, run, steps) == driven(next_script, next_run, rest));
    if steps.len() == 1 {
        assert(steps.last() == steps[0]);
        assert(driven(next_script, next_run, rest) == (next_script, next_run));
    } else {
        assert(steps[0].outcome is Running);
        assert(next_run.count == run.count + 1);
        assert forall|k: int| 0 <= k < rest.len() - 1 implies (#[trigger] rest[k]).outcome is Running by {
            assert(rest[k] == steps[k + 1]);
        }
        assert(rest.last() == steps.last());
        law_run_to_end_records_snapshot(next_script, next_run, rest);
    }
}

/// The index of the step at which the budget cuts a running program off.
pub open spec fn cut_off(script: ScriptView, run: ExecutionView) -> int {
    if script.execution_limit > run.count + 1 {
        script.execution_limit - run.count - 1
    } else {
        0
    }
}

/// A program that is still running when the budget is used up is cut off:
/// the limit error is recorded, and the store as the last counted step left
/// it goes on record all the same, behind the runs that were there before.
pub proof fn law_budget_cuts_run(script: ScriptView, run: ExecutionView, steps: Seq<Step>)
    requires
        run.stage is Main,
        steps.len() >= 1,
        forall|k: int| 0 <= k < steps.len() ==> (#[trigger] steps[k]).outcome is Running,
        run.count + steps.len() >= script.execution_limit,
    ensures
        0 <= cut_off(script, run) < steps.len(),
        driven(script, run, steps).0 == script.failed(LIMIT_REACHED@).recorded(
            steps[cut_off(script, run)].store,
        ),
        driven(script, run, steps).1.stage is Done,
    decreases steps.len(),
{
    let stepping = run.with_stepping(steps[0].store);
    let (next_script, next_run) = script.stepped(stepping, steps[0].outcome);
    let rest = steps.drop_first();
    if script.budget_spent(stepping) {
        law_done_run_stays_done(next_script, next_run, rest);
    } else {
        assert forall|k: int| 0 <= k < rest.len() implies (#[trigger] rest[k]).outcome is Running by {
            assert(rest[k] == steps[k + 1]);
        }
        law_budget_cuts_run(next_script, next_run, rest);
        assert(rest[cut_off(next_script, next_run)] == steps[cut_off(script, run)]);
    }
}

/// The steps bring a program to its end within a budget of `limit`.
pub open spec fn comes_to_end(limit: usize, steps: Seq<Step>) -> bool {
    &&& steps.len() >= 1
    &&& forall|k: int| 0 <= k < steps.len() - 1 ==> (#[trigger] steps[k]).outcome is Running
    &&& steps.last().outcome is End
    &&& steps.len() - 1 < limit
}

/// The steps find a program still running when a budget of `limit` is used
/// up.
pub open spec fn runs_out(limit: usize, steps: Seq<Step>) -> bool {
    &&& steps.len() >= 1
    &&& forall|k: int| 0 <= k < steps.len() ==> (#[trigger] steps[k]).outcome is Running
    &&& steps.len() >= limit
}

/// The store that goes on record for a run from the root under a budget of
/// `limit`: the store as the last step left it where the program came to
/// its end, the store as the last counted step left it where it ran out.
pub open spec fn snapshot_of(limit: usize, steps: Seq<Step>) -> ProgramStore {
    if steps.last().outcome is End {
        steps.last().store
    } else if limit > 1 {
        steps[limit - 1].store
    } else {
        steps[0].store
    }
}

/// The script after the runs were made, one after the other, each begun
/// and then driven by its steps.
pub open spec fn ran(script: ScriptView, runs: Seq<Seq<Step>>) -> ScriptView
    decreases runs.len(),
{
    if runs.len() == 0 {
        script
    } else {
        let (begun, run) = script.begun();
        ran(driven(begun, run, runs[0]).0, runs.drop_first())
    }
}

/// The stores that go on record for the runs, in order.
pub open spec fn snapshots_of(limit: usize, runs: Seq<Seq<Step>>) -> Seq<ProgramStore> {
    Seq::new(runs.len(), |i: int| snapshot_of(limit, runs[i]))
}

/// As many runs as are made without input, each to its end or to the end of
/// the budget, so many snapshots go on record, in the order of the runs and
/// behind those that were there; the compiled store stays as it is.
pub proof fn law_each_run_records_one_snapshot(script: ScriptView, runs: Seq<Seq<Step>>)
    requires
        script.input is None,
        forall|i: int|
            0 <= i < runs.len() ==> comes_to_end(script.execution_limit, #[trigger] runs[i])
                || runs_out(script.execution_limit, runs[i]),
    ensures
        ran(script, runs).executions == script.executions + snapshots_of(
            script.execution_limit,
            runs,
        ),
        ran(script, runs).executions.len() == script.executions.len() + runs.len(),
        ran(script, runs).data == script.data,
    decreases runs.len(),
{
    let limit = script.execution_limit;
    if runs.len() == 0 {
        assert(script.executions + snapshots_of(limit, runs) =~= script.executions);
    } else {
        let (begun, run) = script.begun();
        let steps = runs[0];
        let next = driven(begun, run, steps).0;
        if comes_to_end(limit, steps) {
            law_run_to_end_records_snapshot(begun, run, steps);
        } else {
            law_budget_cuts_run(begun, run, steps);
        }
        assert(next.executions == script.executions.push(snapshot_of(limit, steps)));
        let rest = runs.drop_first();
        assert forall|i: int| 0 <= i < rest.len() implies comes_to_end(
            next.execution_limit,
            #[trigger] rest[i],
        ) || runs_out(next.execution_limit, rest[i]) by {
            assert(rest[i] == runs[i + 1]);
        }
        law_each_run_records_one_snapshot(next, rest);
        assert(snapshots_of(limit, rest) =~= snapshots_of(limit, runs).drop_first());
        assert(script.executions.push(snapshot_of(limit, steps)) + snapshots_of(limit, rest)
            =~= script.executions + snapshots_of(limit, runs));
    }
}

/// The store that a compile makes, and whether it succeeds, depend on the
/// sources alone: not on the store of an earlier compile, not on the runs
/// on record, not on the last error, and not on the context, which an
/// earlier compile has changed. Every compile starts from the store that
/// holds nothing.
pub proof fn law_compile_starts_from_nothing(first: ScriptView, second: ScriptView)
    requires
        first.source == second.source,
        first.included == second.included,
    ensures
        same_store(
            compile_script(first.source, first.included, first.context),
            compile_script(second.source, second.included, second.context),
        ),
        compile_script(first.source, first.included, first.context) == compile_sources(
            seq![first.source] + first.included,
            0,
            empty_store(),
            first.context,
        ),
{
    law_sources_store_ignores_context(
        seq![first.source] + first.included,
        0,
        empty_store(),
        first.context,
        second.context,
    );
}

/// While the input program runs nothing goes on record, and a run that
/// ends there ends with an error.
pub proof fn law_input_run_records_nothing(
    script: ScriptView,
    run: ExecutionView,
    outcome: StepOutcomeView,
)
    requires
        run.stage is Input,
    ensures
        script.stepped(run, outcome).0.executions == script.executions,
        script.stepped(run, outcome).1.stage is Done ==> script.stepped(run, outcome).0.error
            is Some,
{
}

} // verus!
