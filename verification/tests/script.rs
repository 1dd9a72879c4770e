use garnish_lang::simple::{
    DataError, SimpleData, SimpleGarnishData, SimpleGarnishRuntime, SimpleNumber,
    SimpleRuntimeState,
};
use garnish_lang::{GarnishContext, GarnishData, RuntimeError};
use garnish_lang_utilities::data::copy_data_at_to_data;
use garnish_lang_utilities::{simple_expression_data_format, DataInfoProvider};
use garnish_script::context::BrowserContext;
use garnish_script::execution::{Stage, StepOutcome};
use garnish_script::script::GarnishScript;

/// Lets the engine ask the script's context.
struct Resolver<'a>(&'a mut BrowserContext);

impl<'a> GarnishContext<SimpleGarnishData> for Resolver<'a> {
    fn resolve(
        &mut self,
        symbol: u64,
        data: &mut SimpleGarnishData,
    ) -> Result<bool, RuntimeError<DataError>> {
        Ok(self.0.resolve(symbol, data)?)
    }
}

/// Lets the formatter ask the script's context.
struct Names<'a>(&'a BrowserContext);

impl<'a> GarnishContext<SimpleGarnishData> for Names<'a> {}

impl<'a> DataInfoProvider<SimpleGarnishData> for Names<'a> {
    fn get_symbol_name(&self, sym: u64, _data: &SimpleGarnishData) -> Option<String> {
        self.0.get_symbol_name(sym)
    }

    fn format_symbol_data(&self, sym: u64, _data: &SimpleGarnishData) -> Option<String> {
        self.0.get_symbol_name(sym)
    }
}

fn step(store: &mut SimpleGarnishData, context: &mut BrowserContext) -> StepOutcome {
    let mut runtime = SimpleGarnishRuntime::new(std::mem::replace(store, SimpleGarnishData::new()));
    let result = runtime.execute_current_instruction(Some(&mut Resolver(context)));
    *store = runtime.get_data_owned();
    match result {
        Err(e) => StepOutcome::Failed(e.get_message().clone()),
        Ok(info) => match info.get_state() {
            SimpleRuntimeState::Running => StepOutcome::Running,
            SimpleRuntimeState::End => StepOutcome::End,
        },
    }
}

fn run(script: &mut GarnishScript) {
    let mut execution = script.begin_execution();
    loop {
        match execution.stage() {
            Stage::Done => break,
            Stage::Copy(address) => {
                let (from, to) = execution.copy_stores();
                let copied = copy_data_at_to_data(address, from, to).map_err(|e| e.to_string());
                script.record_copy(&mut execution, copied);
            }
            Stage::Input | Stage::Main => {
                let outcome = step(execution.store_mut(), script.context_mut());
                script.record_step(&mut execution, outcome);
            }
        }
    }
}

fn execution_result(script: &GarnishScript, index: usize) -> Option<String> {
    let execution = script.get_execution(index)?;
    let address = script.get_execution_value(index)?;
    Some(simple_expression_data_format(
        address,
        execution,
        &Names(script.context()),
        0,
    ))
}

fn result_of(script: &GarnishScript, index: usize) -> SimpleData {
    let execution = script.get_execution(index).unwrap();
    let v = execution.get_current_value().unwrap();
    execution.get_data().get(v).unwrap().clone()
}

#[test]
fn new_and_get_text_name() {
    let script = GarnishScript::new("test_one".to_string(), "5 + 5".to_string());
    assert_eq!(script.get_name(), "test_one".to_string());
    assert_eq!(script.get_text(), "5 + 5".to_string())
}

#[test]
fn set_name() {
    let mut script = GarnishScript::new("test_one".to_string(), "5 + 5".to_string());
    script.set_name("test_two".to_string());

    assert_eq!(script.get_name(), "test_two".to_string());
}

#[test]
fn set_text() {
    let mut script = GarnishScript::new("test_one".to_string(), "5 + 5".to_string());
    script.set_text("10 + 10".to_string());

    assert_eq!(script.get_text(), "10 + 10".to_string());
}

#[test]
fn set_input() {
    let mut script = GarnishScript::new("test_one".to_string(), "5 + 5".to_string());
    script.set_input("10 20".to_string());

    assert_eq!(script.get_input(), Some("10 20".to_string()));
}

#[test]
fn compile() {
    let mut script = GarnishScript::new("test_one".to_string(), "5 + 5".to_string());
    script.compile();

    assert_eq!(script.get_data().get_data().len(), 4);
}

#[test]
fn compile_with_error() {
    let mut script = GarnishScript::new("test_one".to_string(), "(5 + 5".to_string());
    script.compile();

    assert_eq!(
        script.get_error(),
        Some("Error compiling test_one: Syntax Error: Unclosed grouping".to_string())
    );
}

#[test]
fn execute() {
    let mut script = GarnishScript::new("test_one".to_string(), "5 + 5".to_string());
    script.compile();
    run(&mut script);

    let v = script
        .get_execution(0)
        .unwrap()
        .get_current_value()
        .unwrap();
    assert_eq!(
        script.get_execution(0).unwrap().get_data().get(v).unwrap(),
        &SimpleData::Number(SimpleNumber::Integer(10))
    )
}

#[test]
fn formatted_execution_value() {
    let mut script = GarnishScript::new("test_one".to_string(), "5 + 5".to_string());
    script.compile();
    run(&mut script);

    assert_eq!(execution_result(&script, 0), Some("10".to_string()));
    assert_eq!(execution_result(&script, 1), None);
}

#[test]
fn get_execution_count() {
    let mut script = GarnishScript::new("test_one".to_string(), "5 + 5".to_string());
    script.compile();
    assert_eq!(script.get_execution_count(), 0);

    run(&mut script);
    assert_eq!(script.get_execution_count(), 1);

    run(&mut script);
    assert_eq!(script.get_execution_count(), 2);
}

#[test]
fn clear_executions() {
    let mut script = GarnishScript::new("test_one".to_string(), "5 + 5".to_string());
    script.compile();
    run(&mut script);
    run(&mut script);
    run(&mut script);
    assert_eq!(script.get_execution_count(), 3);

    script.clear_executions();
    assert_eq!(script.get_execution_count(), 0);
}

#[test]
fn execute_with_input() {
    let mut script = GarnishScript::new("test_one".to_string(), "$ + 5".to_string());
    script.set_input("10".to_string());
    script.compile();
    run(&mut script);

    let v = script
        .get_execution(0)
        .unwrap()
        .get_current_value()
        .unwrap();
    assert_eq!(
        script.get_execution(0).unwrap().get_data().get(v).unwrap(),
        &SimpleData::Number(SimpleNumber::Integer(15))
    )
}

#[test]
fn execute_with_includes() {
    let mut script = GarnishScript::new("test_one".to_string(), "add_5 ~ 5".to_string());
    script.include_source("add_5".to_string(), "$ + 5".to_string());
    script.compile();
    run(&mut script);

    let v = script
        .get_execution(0)
        .unwrap()
        .get_current_value()
        .unwrap();
    assert_eq!(
        script.get_execution(0).unwrap().get_data().get(v).unwrap(),
        &SimpleData::Number(SimpleNumber::Integer(10))
    )
}

#[test]
fn execute_with_def() {
    let mut script = GarnishScript::new(
        "test_one".to_string(),
        "@Def add_5 { $ + 5 }\n\nadd_5 ~ 5".to_string(),
    );
    script.compile();
    run(&mut script);

    let v = script
        .get_execution(0)
        .unwrap()
        .get_current_value()
        .unwrap();
    assert_eq!(
        script.get_execution(0).unwrap().get_data().get(v).unwrap(),
        &SimpleData::Number(SimpleNumber::Integer(10))
    )
}

#[test]
fn execute_with_def_multiple_roots() {
    let mut script = GarnishScript::new(
        "test_one".to_string(),
        "5 * 10\n\n@Def add_5 { $ + 5 }\n\nadd_5 ~ $".to_string(),
    );
    script.compile();
    run(&mut script);

    let v = script
        .get_execution(0)
        .unwrap()
        .get_current_value()
        .unwrap();
    assert_eq!(
        script.get_execution(0).unwrap().get_data().get(v).unwrap(),
        &SimpleData::Number(SimpleNumber::Integer(55))
    )
}

#[test]
fn resolve_context_value() {
    let mut script = GarnishScript::new("test_one".to_string(), "Math::IntegerMax".to_string());
    script.compile();
    run(&mut script);

    let v = script
        .get_execution(0)
        .unwrap()
        .get_current_value()
        .unwrap();
    assert_eq!(
        script.get_execution(0).unwrap().get_data().get(v).unwrap(),
        &SimpleData::Number(SimpleNumber::Integer(i32::MAX))
    )
}

#[test]
fn execution_limit() {
    let mut script = GarnishScript::new("test_one".to_string(), "$? ^~ $ + 5".to_string());
    script.compile();
    run(&mut script);

    assert_eq!(
        script.get_error(),
        Some("Instruction execution limit reached. Possibly an infinite loop.".to_string())
    )
}

#[test]
fn builtin_constants_resolve_to_their_numbers() {
    for (name, expected) in [
        ("Math::PI", SimpleNumber::Float(std::f64::consts::PI)),
        ("Math::IntegerMax", SimpleNumber::Integer(i32::MAX)),
        ("Math::IntegerMin", SimpleNumber::Integer(i32::MIN)),
        ("Math::FloatMax", SimpleNumber::Float(f64::MAX)),
        ("Math::FloatMin", SimpleNumber::Float(f64::MIN)),
    ] {
        let mut script = GarnishScript::new("test_one".to_string(), name.to_string());
        script.compile();
        assert_eq!(script.get_error(), None);
        run(&mut script);
        assert_eq!(result_of(&script, 0), SimpleData::Number(expected));
    }
}

fn looping_script() -> GarnishScript {
    GarnishScript::new("test_one".to_string(), "$? ^~ $ + 5".to_string())
}

#[test]
fn statements_without_definitions_make_one_entry() {
    let mut script = GarnishScript::new(
        "test_one".to_string(),
        "5 + 5\n\n10 + 10\n\n20 * 2".to_string(),
    );
    script.compile();

    assert_eq!(script.get_error(), None);
    assert_eq!(script.get_data().get_jump_points().len(), 1);
    run(&mut script);
    assert_eq!(result_of(&script, 0), SimpleData::Number(SimpleNumber::Integer(40)));
}

#[test]
fn definition_compiles_as_its_body_alone() {
    let mut with_definition =
        GarnishScript::new("test_one".to_string(), "@Def add_5 { $ + 5 }".to_string());
    with_definition.compile();
    assert_eq!(with_definition.get_error(), None);

    let mut primary = GarnishScript::new("test_one".to_string(), "".to_string());
    primary.include_source("add_5".to_string(), " $ + 5 ".to_string());
    primary.compile();
    assert_eq!(primary.get_error(), None);

    assert_eq!(
        with_definition.get_data().get_instructions(),
        primary.get_data().get_instructions()
    );
    assert_eq!(
        with_definition.get_data().get_jump_points(),
        primary.get_data().get_jump_points()
    );
    assert_eq!(with_definition.get_data().get_jump_points().len(), 1);
}

#[test]
fn definition_name_resolves_to_its_entry() {
    let mut script = GarnishScript::new(
        "test_one".to_string(),
        "5 + 5\n\n@Def add_5 { $ + 5 }".to_string(),
    );
    script.compile();
    assert_eq!(script.get_error(), None);

    let symbol = garnish_lang::simple::symbol_value("add_5");
    let mut store = SimpleGarnishData::new();
    let resolved = script.context_mut().resolve(symbol, &mut store).unwrap();
    assert!(resolved);
    let address = store.get_register(0).unwrap();
    assert_eq!(store.get_data().get(address).unwrap(), &SimpleData::Expression(1));
}

#[test]
fn recompile_starts_from_nothing() {
    let mut script = GarnishScript::new("test_one".to_string(), "5 + 5".to_string());
    script.compile();
    let first = script.get_data().get_instructions().clone();
    script.compile();
    assert_eq!(script.get_data().get_instructions(), &first);
    assert_eq!(script.get_data().get_jump_points().len(), 1);
    assert_eq!(script.get_data().get_data().len(), 4);

    script.set_text("1 + 2 + 3".to_string());
    script.compile();
    let mut other = GarnishScript::new("test_one".to_string(), "1 + 2 + 3".to_string());
    other.compile();
    assert_eq!(script.get_data().get_instructions(), other.get_data().get_instructions());
    assert_eq!(script.get_data().get_data(), other.get_data().get_data());
}

#[test]
fn runs_are_recorded_in_order_and_leave_the_program() {
    let mut script = GarnishScript::new("test_one".to_string(), "$ + 5".to_string());
    script.compile();
    let compiled = script.get_data().get_data().clone();

    script.set_input("1".to_string());
    run(&mut script);
    script.set_input("2".to_string());
    run(&mut script);
    script.clear_input();
    script.set_input("3".to_string());
    run(&mut script);

    assert_eq!(script.get_execution_count(), 3);
    assert_eq!(result_of(&script, 0), SimpleData::Number(SimpleNumber::Integer(6)));
    assert_eq!(result_of(&script, 1), SimpleData::Number(SimpleNumber::Integer(7)));
    assert_eq!(result_of(&script, 2), SimpleData::Number(SimpleNumber::Integer(8)));
    assert!(script.get_execution(3).is_none());
    assert_eq!(script.get_data().get_data(), &compiled);

    script.clear_executions();
    assert_eq!(script.get_execution_count(), 0);
    assert!(script.get_execution(0).is_none());
    assert_eq!(script.get_data().get_data(), &compiled);
}

#[test]
fn cleared_input_runs_from_the_root() {
    let mut script = GarnishScript::new("test_one".to_string(), "5 + 5".to_string());
    script.set_input("10".to_string());
    script.clear_input();
    assert_eq!(script.get_input(), None);
    script.compile();
    run(&mut script);
    assert_eq!(result_of(&script, 0), SimpleData::Number(SimpleNumber::Integer(10)));
}

#[test]
fn budget_cuts_a_run_and_keeps_its_snapshot() {
    let mut script = looping_script();
    script.set_execution_limit(7);
    assert_eq!(script.get_execution_limit(), 7);
    script.compile();

    let mut execution = script.begin_execution();
    let mut steps = 0;
    while !execution.is_done() {
        let outcome = step(execution.store_mut(), script.context_mut());
        steps += 1;
        script.record_step(&mut execution, outcome);
    }

    assert_eq!(steps, 7);
    assert_eq!(execution.count(), 6);
    assert_eq!(
        script.get_error(),
        Some("Instruction execution limit reached. Possibly an infinite loop.".to_string())
    );
    assert_eq!(script.get_execution_count(), 1);
    assert!(script.get_execution(0).is_some());
}

#[test]
fn budget_of_nothing_still_allows_one_step() {
    let mut script = looping_script();
    script.set_execution_limit(0);
    script.compile();

    let mut execution = script.begin_execution();
    let mut steps = 0;
    while !execution.is_done() {
        let outcome = step(execution.store_mut(), script.context_mut());
        steps += 1;
        script.record_step(&mut execution, outcome);
    }

    assert_eq!(steps, 1);
    assert_eq!(script.get_execution_count(), 1);
}

#[test]
fn default_budget_is_ten_thousand() {
    let script = GarnishScript::new("test_one".to_string(), "5".to_string());
    assert_eq!(script.get_execution_limit(), 10000);
}

#[test]
fn engine_failure_records_no_snapshot() {
    let mut script = GarnishScript::new("test_one".to_string(), "5 + 5".to_string());
    script.compile();
    let mut execution = script.begin_execution();
    script.record_step(&mut execution, StepOutcome::Failed("broken".to_string()));

    assert!(execution.is_done());
    assert_eq!(script.get_error(), Some("broken".to_string()));
    assert_eq!(script.get_execution_count(), 0);
}

#[test]
fn finished_run_ignores_further_steps() {
    let mut script = GarnishScript::new("test_one".to_string(), "5 + 5".to_string());
    script.compile();
    run(&mut script);
    let mut execution = script.begin_execution();
    script.record_step(&mut execution, StepOutcome::End);
    assert_eq!(script.get_execution_count(), 2);
    script.record_step(&mut execution, StepOutcome::End);
    script.record_step(&mut execution, StepOutcome::Running);
    script.record_copy(&mut execution, Ok(3));
    assert_eq!(script.get_execution_count(), 2);
    assert_eq!(script.get_error(), None);
}

#[test]
fn input_that_does_not_compile_fails_the_run() {
    let mut script = GarnishScript::new("test_one".to_string(), "$ + 5".to_string());
    script.set_input("(10".to_string());
    script.compile();
    run(&mut script);

    assert_eq!(script.get_error(), Some("Syntax Error: Unclosed grouping".to_string()));
    assert_eq!(script.get_execution_count(), 0);
}

#[test]
fn input_that_runs_too_long_is_cut_off_and_used() {
    let mut script = GarnishScript::new("test_one".to_string(), "5 + 5".to_string());
    script.set_input("$? ^~ $ + 5".to_string());
    script.set_execution_limit(20);
    script.compile();

    let mut execution = script.begin_execution();
    let mut steps = 0;
    while matches!(execution.stage(), Stage::Input) {
        let outcome = step(execution.store_mut(), script.context_mut());
        steps += 1;
        script.record_step(&mut execution, outcome);
    }
    assert_eq!(steps, 20);
    assert_eq!(
        script.get_error(),
        Some("Instruction execution limit reached. Possibly an infinite loop.".to_string())
    );
    let expected = execution.input().get_current_value().unwrap();
    assert!(matches!(execution.stage(), Stage::Copy(address) if address == expected));
    assert_eq!(script.get_execution_count(), 0);

    script.record_copy(&mut execution, Ok(0));
    assert!(matches!(execution.stage(), Stage::Main));
    while !execution.is_done() {
        let outcome = step(execution.store_mut(), script.context_mut());
        script.record_step(&mut execution, outcome);
    }
    assert_eq!(script.get_execution_count(), 1);
    assert_eq!(result_of(&script, 0), SimpleData::Number(SimpleNumber::Integer(10)));
    assert_eq!(
        script.get_error(),
        Some("Instruction execution limit reached. Possibly an infinite loop.".to_string())
    );
}

#[test]
fn input_cut_off_without_a_value_fails_the_run() {
    let mut script = GarnishScript::new("test_one".to_string(), "5 + 5".to_string());
    script.set_input("10".to_string());
    script.set_execution_limit(1);
    script.compile();

    let mut execution = script.begin_execution();
    execution.store_mut().pop_value_stack();
    script.record_step(&mut execution, StepOutcome::Running);

    assert!(execution.is_done());
    assert_eq!(script.get_error(), Some("No current value made for input.".to_string()));
    assert_eq!(script.get_execution_count(), 0);
}

#[test]
fn input_with_a_malformed_literal_fails_the_run() {
    let mut script = GarnishScript::new("test_one".to_string(), "$ + 5".to_string());
    script.set_input("''x".to_string());
    script.compile();
    run(&mut script);

    assert_eq!(
        script.get_error(),
        Some("Malformed literal: a symbol, character list or byte list is cut short".to_string())
    );
    assert_eq!(script.get_execution_count(), 0);
}

#[test]
fn malformed_literal_fails_the_script() {
    let mut script = GarnishScript::new("test_one".to_string(), "''x".to_string());
    script.compile();
    assert_eq!(
        script.get_error(),
        Some(
            "Error compiling test_one: Malformed literal: a symbol, character list or byte list is cut short"
                .to_string()
        )
    );
}

#[test]
fn records_after_a_failing_one_are_not_compiled() {
    let mut script = GarnishScript::new("test_one".to_string(), "5 + 5".to_string());
    script.include_source("second".to_string(), "(5".to_string());
    script.include_source("third".to_string(), "1 + 2".to_string());
    script.compile();

    let mut alone = GarnishScript::new("test_one".to_string(), "5 + 5".to_string());
    alone.compile();

    assert_eq!(
        script.get_error(),
        Some("Error compiling test_one: Syntax Error: Unclosed grouping".to_string())
    );
    assert_eq!(script.get_data().get_instructions(), alone.get_data().get_instructions());
    assert_eq!(script.get_data().get_data(), alone.get_data().get_data());
    assert_eq!(script.get_data().get_jump_points().len(), 1);
    for name in ["second", "third"] {
        let symbol = garnish_lang::simple::symbol_value(name);
        assert_eq!(script.context().display_name(symbol), None);
        let mut store = SimpleGarnishData::new();
        assert_eq!(script.context_mut().resolve(symbol, &mut store).unwrap(), false);
    }
}

#[test]
fn nested_definitions_run() {
    let mut script = GarnishScript::new(
        "test_one".to_string(),
        "@Def outer { inner ~ $ @Def inner { $ + 5 } }\n\nouter ~ 5".to_string(),
    );
    script.compile();
    assert_eq!(script.get_error(), None);
    run(&mut script);
    assert_eq!(result_of(&script, 0), SimpleData::Number(SimpleNumber::Integer(10)));
}

#[test]
fn input_without_a_value_fails_the_run() {
    let mut script = GarnishScript::new("test_one".to_string(), "$ + 5".to_string());
    script.set_input("10".to_string());
    script.compile();

    let mut execution = script.begin_execution();
    assert!(matches!(execution.stage(), Stage::Input));
    execution.store_mut().pop_value_stack();
    script.record_step(&mut execution, StepOutcome::End);

    assert!(execution.is_done());
    assert_eq!(script.get_error(), Some("No current value made for input.".to_string()));
    assert_eq!(script.get_execution_count(), 0);
}

#[test]
fn failed_copy_fails_the_run() {
    let mut script = GarnishScript::new("test_one".to_string(), "$ + 5".to_string());
    script.set_input("10".to_string());
    script.compile();

    let mut execution = script.begin_execution();
    while matches!(execution.stage(), Stage::Input) {
        let outcome = step(execution.store_mut(), script.context_mut());
        script.record_step(&mut execution, outcome);
    }
    assert!(matches!(execution.stage(), Stage::Copy(_)));
    script.record_copy(&mut execution, Err("no copy".to_string()));

    assert!(execution.is_done());
    assert_eq!(script.get_error(), Some("no copy".to_string()));
    assert_eq!(script.get_execution_count(), 0);
}

#[test]
fn input_value_seeds_the_working_store() {
    let mut script = GarnishScript::new("test_one".to_string(), "$".to_string());
    script.set_input("4 * 4".to_string());
    script.compile();

    let mut execution = script.begin_execution();
    assert_eq!(execution.input().get_current_value(), Some(0));
    assert_eq!(execution.store().get_current_value(), None);
    while matches!(execution.stage(), Stage::Input) {
        let outcome = step(execution.store_mut(), script.context_mut());
        script.record_step(&mut execution, outcome);
    }
    let (from, to) = execution.copy_stores();
    let address = copy_data_at_to_data(from.get_current_value().unwrap(), from, to).unwrap();
    script.record_copy(&mut execution, Ok(address));
    assert!(matches!(execution.stage(), Stage::Main));
    assert_eq!(execution.count(), 0);
    assert_eq!(execution.store().get_current_value(), Some(address));
    assert_eq!(
        execution.store().get_data().get(address).unwrap(),
        &SimpleData::Number(SimpleNumber::Integer(16))
    );
}

#[test]
fn compile_errors_name_the_primary_record() {
    let mut script = GarnishScript::new("test_one".to_string(), "5 + 5".to_string());
    script.include_source("other".to_string(), "(5".to_string());
    script.compile();

    assert_eq!(
        script.get_error(),
        Some("Error compiling test_one: Syntax Error: Unclosed grouping".to_string())
    );
}

#[test]
fn unbalanced_closing_tokens_fail_the_compile() {
    let mut script = GarnishScript::new("test_one".to_string(), "5 ))".to_string());
    script.compile();

    assert_eq!(
        script.get_error(),
        Some(
            "Error compiling test_one: Unbalanced grouping: a closing token has no opening token"
                .to_string()
        )
    );
}

#[test]
fn definition_without_a_body_fails_the_compile() {
    let mut script = GarnishScript::new("test_one".to_string(), "@Def add_5".to_string());
    script.compile();

    assert_eq!(
        script.get_error(),
        Some(
            "Error compiling test_one: Expected expression after identifier for @Def annotation"
                .to_string()
        )
    );
}

#[test]
fn definition_without_a_name_fails_the_compile() {
    let mut script = GarnishScript::new("test_one".to_string(), "@Def 5 { $ + 5 }".to_string());
    script.compile();

    assert_eq!(
        script.get_error(),
        Some("Error compiling test_one: Expected identifier for @Def name".to_string())
    );
}

#[test]
fn definition_with_its_end_before_its_start_fails_the_compile() {
    let mut script = GarnishScript::new("test_one".to_string(), "@Def x ( ( } {".to_string());
    script.compile();

    assert_eq!(
        script.get_error(),
        Some(
            "Error compiling test_one: Expected expression after identifier for @Def annotation"
                .to_string()
        )
    );
}

#[test]
fn symbols_of_the_store_get_display_names() {
    let mut script = GarnishScript::new("test_one".to_string(), ":my_value".to_string());
    script.compile();
    assert_eq!(script.get_error(), None);

    let symbol = garnish_lang::simple::symbol_value("my_value");
    assert_eq!(script.context().display_name(symbol), Some("my_value".to_string()));
    assert_eq!(script.context().get_symbol_name(symbol), Some("my_value".to_string()));
    run(&mut script);
    assert_eq!(execution_result(&script, 0), Some("my_value".to_string()));

    let record = garnish_lang::simple::symbol_value("test_one");
    assert_eq!(script.context().display_name(record), Some("test_one".to_string()));
    assert_eq!(script.context().display_name(12345), None);
    assert_eq!(script.context().get_symbol_name(12345), None);
}

#[test]
fn execution_value_is_the_top_of_the_value_stack() {
    let mut script = GarnishScript::new("test_one".to_string(), "5 + 5".to_string());
    script.compile();
    assert_eq!(script.get_execution_value(0), None);
    run(&mut script);
    let expected = script.get_execution(0).unwrap().get_current_value();
    assert!(expected.is_some());
    assert_eq!(script.get_execution_value(0), expected);
    assert_eq!(script.get_execution_value(1), None);
}
