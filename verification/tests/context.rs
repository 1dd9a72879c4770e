use garnish_lang::simple::{symbol_value, SimpleData, SimpleGarnishData, SimpleNumber};
use garnish_lang::GarnishData;
use garnish_script::context::BrowserContext;

fn resolved(context: &mut BrowserContext, symbol: u64) -> Option<SimpleData> {
    let mut store = SimpleGarnishData::new();
    let registers = store.get_registers().len();
    let data = store.get_data().len();
    if context.resolve(symbol, &mut store).unwrap() {
        assert_eq!(store.get_registers().len(), registers + 1);
        let address = store.get_register(registers).unwrap();
        Some(store.get_data().get(address).unwrap().clone())
    } else {
        assert_eq!(store.get_registers().len(), registers);
        assert_eq!(store.get_data().len(), data);
        None
    }
}

#[test]
fn new_context_holds_the_math_constants() {
    let mut context = BrowserContext::new();
    for (name, expected) in [
        ("Math::PI", SimpleNumber::Float(std::f64::consts::PI)),
        ("Math::IntegerMax", SimpleNumber::Integer(2147483647)),
        ("Math::IntegerMin", SimpleNumber::Integer(-2147483648)),
        ("Math::FloatMax", SimpleNumber::Float(f64::MAX)),
        ("Math::FloatMin", SimpleNumber::Float(f64::MIN)),
    ] {
        let symbol = symbol_value(name);
        assert_eq!(resolved(&mut context, symbol), Some(SimpleData::Number(expected)));
        assert_eq!(context.display_name(symbol), Some(name.to_string()));
        assert_eq!(context.get_symbol_name(symbol), Some(name.to_string()));
    }
    assert_eq!(resolved(&mut context, symbol_value("Math::E")), None);
}

#[test]
fn empty_context_resolves_nothing() {
    let mut context = BrowserContext::empty();
    assert_eq!(resolved(&mut context, symbol_value("Math::PI")), None);
    assert_eq!(context.display_name(symbol_value("Math::PI")), None);
}

#[test]
fn last_registration_wins() {
    let mut context = BrowserContext::empty();
    context.add_expression_mapping(7, "seven", 3);
    assert_eq!(resolved(&mut context, 7), Some(SimpleData::Expression(3)));

    context.add_symbol_data(7, "sept", SimpleData::Number(SimpleNumber::Integer(70)));
    assert_eq!(resolved(&mut context, 7), Some(SimpleData::Number(SimpleNumber::Integer(70))));
    assert_eq!(context.display_name(7), Some("sept".to_string()));

    context.add_expression_mapping(7, "sieben", 4);
    assert_eq!(resolved(&mut context, 7), Some(SimpleData::Expression(4)));
    assert_eq!(context.display_name(7), Some("sieben".to_string()));

    context.add_expression_mapping(7, "sieben", 5);
    assert_eq!(resolved(&mut context, 7), Some(SimpleData::Expression(5)));
}

#[test]
fn constant_that_is_no_number_is_left_to_the_engine() {
    let mut context = BrowserContext::empty();
    context.add_symbol_data(9, "nine", SimpleData::CharList("nine".to_string()));
    assert_eq!(resolved(&mut context, 9), None);
    assert_eq!(context.display_name(9), Some("nine".to_string()));
}

#[test]
fn names_are_added_and_replaced_never_removed() {
    let mut context = BrowserContext::empty();
    context.add_symbol_name(1, "one");
    context.add_symbol_name(2, "two");
    context.add_symbol_name(1, "uno");
    context.add_expression_mapping(3, "three", 0);
    assert_eq!(context.display_name(1), Some("uno".to_string()));
    assert_eq!(context.display_name(2), Some("two".to_string()));
    assert_eq!(context.display_name(3), Some("three".to_string()));
    assert_eq!(context.get_symbol_name(1), Some("uno".to_string()));
    assert_eq!(resolved(&mut context, 1), None);
}

#[test]
fn builtin_takes_the_number_its_literal_denotes() {
    let mut context = BrowserContext::empty();
    context.add_builtin("Answer", "42");
    context.add_builtin("Half", "0.5");
    context.add_builtin("Nothing", "forty-two");
    assert_eq!(
        resolved(&mut context, symbol_value("Answer")),
        Some(SimpleData::Number(SimpleNumber::Integer(42)))
    );
    assert_eq!(
        resolved(&mut context, symbol_value("Half")),
        Some(SimpleData::Number(SimpleNumber::Float(0.5)))
    );
    assert_eq!(resolved(&mut context, symbol_value("Nothing")), None);
    assert_eq!(context.display_name(symbol_value("Nothing")), None);
}

#[test]
fn resolving_twice_finds_the_value_again() {
    let mut context = BrowserContext::new();
    let mut store = SimpleGarnishData::new();
    let symbol = symbol_value("Math::IntegerMax");
    assert_eq!(context.resolve(symbol, &mut store).unwrap(), true);
    assert_eq!(context.resolve(symbol, &mut store).unwrap(), true);
    assert_eq!(store.get_registers().len(), 2);
    assert_eq!(store.get_register(0), store.get_register(1));
}

#[test]
fn formatter_gets_the_last_name_registered() {
    let mut context = BrowserContext::new();
    context.add_symbol_name(7, "a");
    context.add_symbol_name(7, "b");
    assert_eq!(context.get_symbol_name(7), Some("b".to_string()));
    assert_eq!(context.get_symbol_name(8), None);
    assert_eq!(context.display_name(7), Some("b".to_string()));
    assert_eq!(context.display_name(8), None);
}
