//! The symbol context: what the engine asks when it meets a symbol that it
//! cannot resolve, and what the formatter asks for the name of a symbol.

use vstd::prelude::*;
use std::collections::HashMap;
use garnish_lang::simple::DataError;
use crate::toolchain::add_expression;
use crate::toolchain::add_number;
use crate::toolchain::datum_number;
use crate::toolchain::expression_added;
use crate::toolchain::integer_constant;
use crate::toolchain::integer_datum;
use crate::toolchain::number_added;
use crate::toolchain::number_literal;
use crate::toolchain::number_of;
use crate::toolchain::parse_number;
use crate::toolchain::push_register;
use crate::toolchain::register_pushed;
use crate::toolchain::symbol_id;
use crate::toolchain::symbol_of;
use crate::toolchain::Datum;
use crate::toolchain::ProgramStore;

verus! {

broadcast use vstd::std_specs::hash::group_hash_axioms;

/// What a symbol stands for: a compiled expression, by its index in the jump
/// table, or a constant value. A symbol has one binding at most.
pub enum Binding {
    Expression(usize),
    Constant(Datum),
}

/// A context as a mathematical value: the binding of each bound symbol and
/// the display name of each named symbol.
pub struct ContextView {
    pub bindings: Map<u64, Binding>,
    pub names: Map<u64, Seq<char>>,
}

impl ContextView {
    /// The context that binds and names nothing.
    pub open spec fn empty() -> ContextView {
        ContextView { bindings: Map::empty(), names: Map::empty() }
    }

    /// This context with `name` as the display name of `symbol`.
    pub open spec fn with_name(self, symbol: u64, name: Seq<char>) -> ContextView {
        ContextView { bindings: self.bindings, names: self.names.insert(symbol, name) }
    }

    /// This context with `symbol` named and bound to a constant, in place of
    /// whatever it was bound to.
    pub open spec fn with_constant(self, symbol: u64, name: Seq<char>, datum: Datum) -> ContextView {
        ContextView {
            bindings: self.bindings.insert(symbol, Binding::Constant(datum)),
            names: self.names.insert(symbol, name),
        }
    }

    /// This context with `symbol` named and bound to an expression, in place
    /// of whatever it was bound to.
    pub open spec fn with_expression(self, symbol: u64, name: Seq<char>, index: usize) -> ContextView {
        ContextView {
            bindings: self.bindings.insert(symbol, Binding::Expression(index)),
            names: self.names.insert(symbol, name),
        }
    }

    /// This context with the names of `more` added, each in place of the name
    /// its symbol had.
    pub open spec fn with_names(self, more: Map<u64, Seq<char>>) -> ContextView {
        ContextView { bindings: self.bindings, names: self.names.union_prefer_right(more) }
    }

    /// This context with one built-in constant: `name` bound to the number
    /// that `literal` denotes.
    pub open spec fn with_builtin(self, name: Seq<char>, literal: Seq<char>) -> ContextView {
        match number_literal(literal) {
            Some(datum) => self.with_constant(symbol_id(name), name, datum),
            None => self,
        }
    }

    /// Whether every bound symbol is bound to a constant that holds a
    /// number.
    pub open spec fn holds_numbers(self) -> bool {
        forall|symbol: u64| #[trigger]
            self.bindings.contains_key(symbol) ==> (self.bindings[symbol] matches Binding::Constant(
                datum,
            ) && datum_number(datum) is Some)
    }

    /// The store and the answer after the engine asked for `symbol`: a bound
    /// expression or a bound number is added to the store's data and its
    /// address pushed on the register, with the answer `true`; anything else
    /// leaves the store as it is, with the answer `false`.
    pub open spec fn resolution(self, symbol: u64, store: ProgramStore) -> (ProgramStore, bool) {
        if self.bindings.contains_key(symbol) {
            match self.bindings[symbol] {
                Binding::Expression(index) => {
                    let (with_data, address) = expression_added(store, index);
                    (register_pushed(with_data, address), true)
                },
                Binding::Constant(datum) => match datum_number(datum) {
                    Some(number) => {
                        let (with_data, address) = number_added(store, number);
                        (register_pushed(with_data, address), true)
                    },
                    None => (store, false),
                },
            }
        } else {
            (store, false)
        }
    }
}

/// The name of the ratio of a circle's circumference to its diameter.
pub const MATH_PI_SYMBOL: &'static str = "Math::PI";

/// The name of the largest integer.
pub const MATH_INTEGER_MAX_SYMBOL: &'static str = "Math::IntegerMax";

/// The name of the smallest integer.
pub const MATH_INTEGER_MIN_SYMBOL: &'static str = "Math::IntegerMin";

/// The name of the largest decimal.
pub const MATH_FLOAT_MAX_SYMBOL: &'static str = "Math::FloatMax";

/// The name of the smallest decimal.
pub const MATH_FLOAT_MIN_SYMBOL: &'static str = "Math::FloatMin";

/// The ratio of a circle's circumference to its diameter, to the digits
/// that a decimal of 64 bits tells apart.
pub const MATH_PI_LITERAL: &'static str = "3.141592653589793";

/// The largest decimal of 64 bits.
pub const MATH_FLOAT_MAX_LITERAL: &'static str = "1.7976931348623157e308";

/// The smallest decimal of 64 bits.
pub const MATH_FLOAT_MIN_LITERAL: &'static str = "-1.7976931348623157e308";

/// The context as `BrowserContext::new` makes it: the five constants of the
/// `Math::` namespace. The two integers are the largest and the smallest of
/// 32 bits; the three decimals are what their literals denote.
pub open spec fn builtins() -> ContextView {
    ContextView::empty().with_builtin(MATH_PI_SYMBOL@, MATH_PI_LITERAL@).with_constant(
        symbol_id(MATH_INTEGER_MAX_SYMBOL@),
        MATH_INTEGER_MAX_SYMBOL@,
        integer_datum(i32::MAX),
    ).with_constant(
        symbol_id(MATH_INTEGER_MIN_SYMBOL@),
        MATH_INTEGER_MIN_SYMBOL@,
        integer_datum(i32::MIN),
    ).with_builtin(MATH_FLOAT_MAX_SYMBOL@, MATH_FLOAT_MAX_LITERAL@).with_builtin(
        MATH_FLOAT_MIN_SYMBOL@,
        MATH_FLOAT_MIN_LITERAL@,
    )
}

/// Resolves symbols for the engine and names them for the formatter.
pub struct BrowserContext {
    bindings: HashMap<u64, Binding>,
    symbol_to_name: HashMap<u64, String>,
}

impl View for BrowserContext {
    type V = ContextView;

    closed spec fn view(&self) -> ContextView {
        ContextView {
            bindings: self.bindings@,
            names: Map::new(
                |symbol: u64| self.symbol_to_name@.contains_key(symbol),
                |symbol: u64| self.symbol_to_name@[symbol]@,
            ),
        }
    }
}

impl BrowserContext {
    /// A context that binds and names nothing.
    pub fn empty() -> (context: BrowserContext)
        ensures
            context@ == ContextView::empty(),
    {
        let context = BrowserContext { bindings: HashMap::new(), symbol_to_name: HashMap::new() };
        assert(context@.names =~= Map::empty());
        context
    }

    /// A context with the built-in constants: every symbol that it binds is
    /// bound to a number.
    pub fn new() -> (context: BrowserContext)
        ensures
            context@ == builtins(),
            context@.holds_numbers(),
    {
        let mut context = BrowserContext::empty();
        context.add_builtin(MATH_PI_SYMBOL, MATH_PI_LITERAL);
        context.add_number(
            symbol_of(MATH_INTEGER_MAX_SYMBOL),
            MATH_INTEGER_MAX_SYMBOL,
            integer_constant(i32::MAX),
        );
        context.add_number(
            symbol_of(MATH_INTEGER_MIN_SYMBOL),
            MATH_INTEGER_MIN_SYMBOL,
            integer_constant(i32::MIN),
        );
        context.add_builtin(MATH_FLOAT_MAX_SYMBOL, MATH_FLOAT_MAX_LITERAL);
        context.add_builtin(MATH_FLOAT_MIN_SYMBOL, MATH_FLOAT_MIN_LITERAL);
        context
    }

    /// Names `symbol` and binds it to a constant that holds a number.
    fn add_number(&mut self, symbol: u64, name: &str, data: Datum)
        requires
            datum_number(data) is Some,
        ensures
            final(self)@ == old(self)@.with_constant(symbol, name@, data),
            old(self)@.holds_numbers() ==> final(self)@.holds_numbers(),
    {
        self.add_symbol_data(symbol, name, data);
    }

    /// Binds `name` to the number that `literal` denotes. A text that is no
    /// number binds nothing.
    pub fn add_builtin(&mut self, name: &str, literal: &str)
        ensures
            final(self)@ == old(self)@.with_builtin(name@, literal@),
            old(self)@.holds_numbers() ==> final(self)@.holds_numbers(),
    {
        match parse_number(literal) {
            Some(datum) => {
                let symbol = symbol_of(name);
                self.add_number(symbol, name, datum);
            },
            None => {},
        }
    }

    /// Gives `symbol` the display name `name`.
    pub fn add_symbol_name(&mut self, symbol: u64, name: &str)
        ensures
            final(self)@ == old(self)@.with_name(symbol, name@),
    {
        self.symbol_to_name.insert(symbol, name.to_owned());
        assert(final(self)@.names =~= old(self)@.names.insert(symbol, name@));
    }

    /// Names `symbol` and binds it to a constant.
    pub fn add_symbol_data(&mut self, symbol: u64, name: &str, data: Datum)
        ensures
            final(self)@ == old(self)@.with_constant(symbol, name@, data),
    {
        self.symbol_to_name.insert(symbol, name.to_owned());
        self.bindings.insert(symbol, Binding::Constant(data));
        assert(final(self)@.names =~= old(self)@.names.insert(symbol, name@));
    }

    /// Names `symbol` and binds it to the expression at `expression_index` of
    /// the jump table.
    pub fn add_expression_mapping(&mut self, symbol: u64, symbol_name: &str, expression_index: usize)
        ensures
            final(self)@ == old(self)@.with_expression(symbol, symbol_name@, expression_index),
    {
        self.symbol_to_name.insert(symbol, symbol_name.to_owned());
        self.bindings.insert(symbol, Binding::Expression(expression_index));
        assert(final(self)@.names =~= old(self)@.names.insert(symbol, symbol_name@));
    }

    /// Answers the engine's question for a symbol it cannot resolve itself.
    pub fn resolve(&mut self, symbol: u64, data: &mut ProgramStore) -> (r: Result<bool, DataError>)
        ensures
            final(self)@ == old(self)@,
            r matches Ok(resolved) && (*final(data), resolved) == old(self)@.resolution(
                symbol,
                *old(data),
            ),
    {
        match self.bindings.get(&symbol) {
            Some(Binding::Expression(index)) => match add_expression(data, *index) {
                Ok(address) => {
                    push_register(data, address);
                    Ok(true)
                },
                Err(error) => Err(error),
            },
            Some(Binding::Constant(datum)) => match number_of(datum) {
                Some(number) => match add_number(data, number) {
                    Ok(address) => {
                        push_register(data, address);
                        Ok(true)
                    },
                    Err(error) => Err(error),
                },
                None => Ok(false),
            },
            None => Ok(false),
        }
    }

    /// The name last given to `symbol`, if it was ever named.
    pub fn display_name(&self, symbol: u64) -> (r: Option<String>)
        ensures
            match r {
                Some(name) => self@.names.contains_key(symbol) && name@ == self@.names[symbol],
                None => !self@.names.contains_key(symbol),
            },
    {
        match self.symbol_to_name.get(&symbol) {
            Some(name) => Some(name.clone()),
            None => None,
        }
    }

    /// The name last given to `symbol`, if it was ever named: what the
    /// formatter prints for the symbol.
    pub fn get_symbol_name(&self, symbol: u64) -> (r: Option<String>)
        ensures
            match r {
                Some(name) => self@.names.contains_key(symbol) && name@ == self@.names[symbol],
                None => !self@.names.contains_key(symbol),
            },
    {
        self.display_name(symbol)
    }
}

} // verus!
