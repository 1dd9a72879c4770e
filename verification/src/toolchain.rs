//! The outside toolchain: what this library calls in the `garnish_lang`
//! crates, and what it takes on trust of each call. Nothing in this file is
//! proved; every contract here is a claim about outside code.
//!
//! A store, a syntax tree, a token of the lexer and a block of the
//! collector are values that the library cannot look into. A function without a body gives a name to what
//! an outside function makes of such values; the contracts of the library
//! are stated over these names.

use vstd::prelude::*;
use garnish_lang::compiler::build::build_with_data;
use garnish_lang::compiler::lex::lex;
use garnish_lang::compiler::lex::LexerToken;
use garnish_lang::compiler::lex::TokenType;
use garnish_lang::compiler::parse::parse;
use garnish_lang::compiler::parse::ParseResult;
use garnish_lang::simple::parse_simple_number;
use garnish_lang::simple::symbol_value;
use garnish_lang::simple::DataError;
use garnish_lang::simple::NoCustom;
use garnish_lang::simple::SimpleData;
use garnish_lang::simple::SimpleGarnishData;
use garnish_lang::simple::SimpleNumber;
use garnish_lang::GarnishData;
use garnish_lang_annotations_collector::Collector;
use garnish_lang_annotations_collector::PartBehavior;
use garnish_lang_annotations_collector::PartParser;
use garnish_lang_annotations_collector::Sink;
use garnish_lang_annotations_collector::TokenBlock;
use crate::token::nesting_is_counted;
use crate::token::parts_shorter;
use crate::token::to_tokens;
use crate::token::tokens_build;
use crate::token::Block;
use crate::token::BlockView;
use crate::token::TokenView;

verus! {

/// The kinds of token that the lexer tells apart: an enum without fields,
/// declared with its variants so that the library can tell them apart too.
#[verifier::external_type_specification]
pub struct ExTokenType(TokenType);

/// The marker type of a store without custom data.
#[verifier::external_type_specification]
#[verifier::external_body]
pub struct ExNoCustom(NoCustom);

/// The error of a store operation.
#[verifier::external_type_specification]
#[verifier::external_body]
pub struct ExDataError(DataError);

/// A number of the language: an integer or a decimal.
#[verifier::external_type_specification]
#[verifier::external_body]
pub struct ExSimpleNumber(SimpleNumber);

/// One value as a store holds it.
#[verifier::external_type_specification]
#[verifier::external_body]
#[verifier::reject_recursive_types(T)]
pub struct ExSimpleData<
    T: Clone + Copy + PartialEq + Eq + PartialOrd + std::fmt::Debug + std::hash::Hash,
>(SimpleData<T>);

/// The program store: data, instructions, jump table, registers, value
/// stack and the names of the symbols it has met.
#[verifier::external_type_specification]
#[verifier::external_body]
#[verifier::reject_recursive_types(T)]
pub struct ExSimpleGarnishData<
    T: Clone + Copy + PartialEq + Eq + PartialOrd + std::fmt::Debug + std::hash::Hash,
>(SimpleGarnishData<T>);

/// A token as the lexer makes it and the parser takes it: a kind, a text, a
/// line and a column behind a constructor and four getters.
#[verifier::external_type_specification]
#[verifier::external_body]
pub struct ExLexerToken(LexerToken);

/// A block as the collector returns it: an annotation, tokens, parts and
/// the blocks that stood inside it, behind four getters.
#[verifier::external_type_specification]
#[verifier::external_body]
pub struct ExTokenBlock(TokenBlock);

/// A syntax tree, as the parser returns it.
#[verifier::external_type_specification]
#[verifier::external_body]
pub struct ExParseResult(ParseResult);

/// The store that this library compiles into and runs.
pub type ProgramStore = SimpleGarnishData<NoCustom>;

/// A constant value that a symbol can be bound to.
pub type Datum = SimpleData<NoCustom>;

/// What a token of the lexer holds.
pub uninterp spec fn lexer_token_view(token: LexerToken) -> TokenView;

/// What the tokens of a sequence hold, in order.
pub open spec fn lexer_tokens_view(tokens: Seq<LexerToken>) -> Seq<TokenView> {
    Seq::new(tokens.len(), |i: int| lexer_token_view(tokens[i]))
}

/// `LexerToken::new` stores its four arguments.
pub assume_specification[ LexerToken::new ](
    text: String,
    token_type: TokenType,
    row: usize,
    column: usize,
) -> (token: LexerToken)
    ensures
        lexer_token_view(token) == (TokenView { kind: token_type, text: text@, line: row, column }),
;

/// `LexerToken::get_text` hands out the stored text.
pub assume_specification[ LexerToken::get_text ](token: &LexerToken) -> (text: &String)
    ensures
        text@ == lexer_token_view(*token).text,
;

/// `LexerToken::get_token_type` hands out the stored kind.
pub assume_specification[ LexerToken::get_token_type ](token: &LexerToken) -> (kind: TokenType)
    ensures
        kind == lexer_token_view(*token).kind,
;

/// `LexerToken::get_line` hands out the stored line.
pub assume_specification[ LexerToken::get_line ](token: &LexerToken) -> (line: usize)
    ensures
        line == lexer_token_view(*token).line,
;

/// `LexerToken::get_column` hands out the stored column.
pub assume_specification[ LexerToken::get_column ](token: &LexerToken) -> (column: usize)
    ensures
        column == lexer_token_view(*token).column,
;

/// What a block of the collector holds, the blocks inside it included.
pub uninterp spec fn token_block_view(block: TokenBlock) -> BlockView;

/// What the blocks of a sequence hold, in order.
pub open spec fn token_blocks_view(blocks: Seq<TokenBlock>) -> Seq<BlockView> {
    Seq::new(blocks.len(), |i: int| token_block_view(blocks[i]))
}

/// What the lexer makes of a text: its tokens, or the message of its error.
pub uninterp spec fn lexed(text: Seq<char>) -> Result<Seq<TokenView>, Seq<char>>;

/// What the parser makes of tokens: a syntax tree, or the message of its
/// error.
pub uninterp spec fn parsed(tokens: Seq<TokenView>) -> Result<ParseResult, Seq<char>>;

/// What the builder makes of a store when it adds a syntax tree to it: the
/// store with the tree's instructions, data and jump points, or the message
/// of its error.
pub uninterp spec fn built(tree: ParseResult, store: ProgramStore) -> Result<
    ProgramStore,
    Seq<char>,
>;

/// The blocks that a collector makes of tokens, when it has one sink for
/// `annotation` whose first part takes `count` tokens and whose second part
/// runs until a token of kind `until`.
pub uninterp spec fn collected(
    annotation: Seq<char>,
    count: usize,
    until: TokenType,
    tokens: Seq<TokenView>,
) -> Result<Seq<BlockView>, Seq<char>>;

/// The number that stands for a name in stores and contexts.
pub uninterp spec fn symbol_id(name: Seq<char>) -> u64;

/// The number that a literal denotes in the language's number syntax, as a
/// constant value; `None` where the text is no number.
pub uninterp spec fn number_literal(text: Seq<char>) -> Option<Datum>;

/// The constant value that holds the integer `value`.
pub uninterp spec fn integer_datum(value: i32) -> Datum;

/// The number inside a constant value; `None` where it holds something else.
pub uninterp spec fn datum_number(datum: Datum) -> Option<SimpleNumber>;

/// Whether a store is as `SimpleGarnishData::new_custom` makes it.
pub uninterp spec fn store_is_new(store: ProgramStore) -> bool;

/// How many entries the jump table of a store has.
pub uninterp spec fn store_jump_count(store: ProgramStore) -> usize;

/// The names of the symbols that a store has met, by symbol.
pub uninterp spec fn store_symbols(store: ProgramStore) -> Map<u64, Seq<char>>;

/// The address on top of a store's value stack, if the stack holds any.
pub uninterp spec fn store_current(store: ProgramStore) -> Option<usize>;

/// A store after an address was pushed on its value stack.
pub uninterp spec fn value_pushed(store: ProgramStore, address: usize) -> ProgramStore;

/// A store after an address was pushed on its register.
pub uninterp spec fn register_pushed(store: ProgramStore, address: usize) -> ProgramStore;

/// A store after a reference to a jump table entry was added to its data,
/// with the address of the reference.
pub uninterp spec fn expression_added(store: ProgramStore, index: usize) -> (ProgramStore, usize);

/// A store after a number was added to its data, with the address of the
/// number.
pub uninterp spec fn number_added(store: ProgramStore, number: SimpleNumber) -> (ProgramStore, usize);

/// `garnish_lang::compiler::lex::lex`, its error as its message. Claims that
/// the result is a function of the text alone. The lexer is taken not to
/// abort.
#[verifier::external_body]
pub(crate) fn lex_text(text: &str) -> (r: Result<Vec<LexerToken>, String>)
    ensures
        match r {
            Ok(tokens) => lexed(text@) == Ok::<Seq<TokenView>, Seq<char>>(lexer_tokens_view(tokens@)),
            Err(message) => lexed(text@) == Err::<Seq<TokenView>, Seq<char>>(message@),
        },
{
    lex(text).map_err(|e| e.get_message().clone())
}

/// `garnish_lang::compiler::parse::parse`, its error as its message. Claims
/// that the result is a function of what the tokens hold. The parser is
/// taken not to abort.
#[verifier::external_body]
pub(crate) fn parse_tokens(tokens: &Vec<LexerToken>) -> (r: Result<ParseResult, String>)
    ensures
        match r {
            Ok(tree) => parsed(lexer_tokens_view(tokens@)) == Ok::<ParseResult, Seq<char>>(tree),
            Err(message) => parsed(lexer_tokens_view(tokens@)) == Err::<ParseResult, Seq<char>>(
                message@,
            ),
        },
{
    parse(tokens).map_err(|e| e.get_message().clone())
}

/// `garnish_lang::compiler::build::build_with_data`, on the root and the
/// nodes of a syntax tree, its error as its message. The builder reads the
/// text of symbols, character lists and byte lists by cutting bytes off
/// their ends, and stops the program where there are too few or where a
/// cut falls inside a character: the tree must come from tokens whose texts
/// it can read. Claims that on success the store is a function of the tree
/// and of the store before, and that its jump table has not become shorter:
/// the builder pushes entries and fills those it pushed, and takes none
/// away. After an error it claims nothing of the store.
#[verifier::external_body]
pub(crate) fn build_into(tree: &ParseResult, store: &mut ProgramStore) -> (r: Result<(), String>)
    requires
        exists|tokens: Seq<TokenView>|
            #[trigger] parsed(tokens) == Ok::<ParseResult, Seq<char>>(*tree) && tokens_build(tokens),
    ensures
        match r {
            Ok(_) => built(*tree, *old(store)) == Ok::<ProgramStore, Seq<char>>(*final(store)),
            Err(message) => built(*tree, *old(store)) == Err::<ProgramStore, Seq<char>>(message@),
        },
        r is Ok ==> store_jump_count(*final(store)) >= store_jump_count(*old(store)),
{
    match build_with_data(tree.get_root(), tree.get_nodes().clone(), store) {
        Ok(_) => Ok(()),
        Err(e) => Err(e.get_message().clone()),
    }
}

/// `Collector::collect_tokens` of `garnish_lang_annotations_collector`, on a
/// collector with one sink. The collector counts nesting in an unsigned
/// number from 1 and takes one off at each closing token, so the tokens must
/// keep that count at 0 or above. Claims that the result is a function of
/// the arguments, and that a part of a block under an annotation, at any
/// depth, is shorter than the input: each token goes to at most one part,
/// and an annotation's own token to none.
#[verifier::external_body]
pub(crate) fn collect_blocks(
    annotation: &str,
    count: usize,
    until: TokenType,
    tokens: &Vec<LexerToken>,
) -> (r: Result<Vec<TokenBlock>, String>)
    requires
        nesting_is_counted(lexer_tokens_view(tokens@)),
    ensures
        match r {
            Ok(blocks) => {
                &&& collected(annotation@, count, until, lexer_tokens_view(tokens@)) == Ok::<
                    Seq<BlockView>,
                    Seq<char>,
                >(token_blocks_view(blocks@))
                &&& parts_shorter(token_blocks_view(blocks@), tokens@.len())
            },
            Err(message) => collected(annotation@, count, until, lexer_tokens_view(tokens@)) == Err::<
                Seq<BlockView>,
                Seq<char>,
            >(message@),
        },
{
    let sink = Sink::new(annotation).part(PartParser::new(PartBehavior::TokenCount(count)))
        .part(PartParser::new(PartBehavior::UntilToken(until)));
    Collector::new(vec![sink]).collect_tokens(tokens)
}

/// The four getters of `TokenBlock`: `annotation_text`, `tokens`, `parts`
/// and `blocks`, each block inside taken apart in the same way.
#[verifier::external_body]
pub(crate) fn to_block(block: &TokenBlock) -> (r: Block)
    ensures
        r@ == token_block_view(*block),
{
    Block::new(
        block.annotation_text().clone(),
        to_tokens(block.tokens()),
        block.parts().iter().map(to_tokens).collect(),
        block.blocks().iter().map(to_block).collect(),
    )
}

/// `garnish_lang::simple::symbol_value`: the hash of a name under the
/// standard library's default hasher with its fixed keys. Claims that the
/// result is a function of the name alone.
#[verifier::external_body]
pub(crate) fn symbol_of(name: &str) -> (symbol: u64)
    ensures
        symbol == symbol_id(name@),
{
    symbol_value(name)
}

/// `garnish_lang::simple::parse_simple_number`, its number wrapped as a
/// constant value. Claims that the result is a function of the text alone,
/// and that the value holds a number.
#[verifier::external_body]
pub(crate) fn parse_number(text: &str) -> (r: Option<Datum>)
    ensures
        r == number_literal(text@),
        r matches Some(datum) ==> datum_number(datum) is Some,
{
    parse_simple_number(text).ok().map(SimpleData::Number)
}

/// The variants `SimpleData::Number` and `SimpleNumber::Integer` around an
/// integer. Claims that the value holds a number.
#[verifier::external_body]
pub(crate) fn integer_constant(value: i32) -> (datum: Datum)
    ensures
        datum == integer_datum(value),
        datum_number(datum) is Some,
{
    SimpleData::Number(SimpleNumber::Integer(value))
}

/// Tells the variant `SimpleData::Number` from the others and hands its
/// number out.
#[verifier::external_body]
pub(crate) fn number_of(datum: &Datum) -> (r: Option<SimpleNumber>)
    ensures
        r == datum_number(*datum),
{
    match datum {
        SimpleData::Number(n) => Some(*n),
        _ => None,
    }
}

/// `SimpleGarnishData::new_custom`. Claims that every call returns the same
/// store: all its fields are given constants.
#[verifier::external_body]
pub(crate) fn new_store() -> (store: ProgramStore)
    ensures
        store_is_new(store),
        forall|other: ProgramStore| store_is_new(other) ==> other == store,
{
    SimpleGarnishData::new_custom()
}

/// `Clone::clone` of the store, which `derive` wrote: a copy field by field.
#[verifier::external_body]
pub(crate) fn clone_store(store: &ProgramStore) -> (copy: ProgramStore)
    ensures
        copy == *store,
{
    store.clone()
}

/// `GarnishData::get_jump_table_len` of the store.
#[verifier::external_body]
pub(crate) fn jump_table_len(store: &ProgramStore) -> (n: usize)
    ensures
        n == store_jump_count(*store),
{
    store.get_jump_table_len()
}

/// `GarnishData::get_current_value` of the store.
#[verifier::external_body]
pub(crate) fn current_value(store: &ProgramStore) -> (r: Option<usize>)
    ensures
        r == store_current(*store),
{
    store.get_current_value()
}

/// `SimpleDataList::symbol_to_name` of the store's data, walked once. The
/// map is a hash map: the order of the pairs is left open. Claims that each
/// symbol comes once, and that the pairs are those of the map.
#[verifier::external_body]
pub(crate) fn symbol_names(store: &ProgramStore) -> (pairs: Vec<(u64, String)>)
    ensures
        forall|i: int, j: int|
            0 <= i < j < pairs@.len() ==> (#[trigger] pairs@[i]).0 != (#[trigger] pairs@[j]).0,
        forall|i: int|
            0 <= i < pairs@.len() ==> store_symbols(*store).contains_pair(
                (#[trigger] pairs@[i]).0,
                pairs@[i].1@,
            ),
        forall|symbol: u64|
            store_symbols(*store).contains_key(symbol) ==> exists|i: int|
                0 <= i < pairs@.len() && (#[trigger] pairs@[i]).0 == symbol,
{
    store.get_data().symbol_to_name().iter().map(|(symbol, name)| (*symbol, name.clone())).collect()
}

/// `GarnishData::push_value_stack` of the store, which pushes on a vector
/// and cannot fail.
#[verifier::external_body]
pub(crate) fn push_value(store: &mut ProgramStore, address: usize)
    ensures
        *final(store) == value_pushed(*old(store), address),
{
    let _ = store.push_value_stack(address);
}

/// `GarnishData::push_register` of the store, which pushes on a vector and
/// cannot fail.
#[verifier::external_body]
pub(crate) fn push_register(store: &mut ProgramStore, address: usize)
    ensures
        *final(store) == register_pushed(*old(store), address),
{
    let _ = store.push_register(address);
}

/// `GarnishData::add_expression` of the store: the address of an equal value
/// that the store holds already, or that of one it adds at the end. Claims
/// that it succeeds, as both paths of the store's `cache_add` do, and that
/// the result is a function of the store and the index.
#[verifier::external_body]
pub(crate) fn add_expression(store: &mut ProgramStore, index: usize) -> (r: Result<usize, DataError>)
    ensures
        r matches Ok(address) && (*final(store), address) == expression_added(*old(store), index),
{
    store.add_expression(index)
}

/// `GarnishData::add_number` of the store: the address of an equal value
/// that the store holds already, or that of one it adds at the end. Claims
/// that it succeeds, as both paths of the store's `cache_add` do, and that
/// the result is a function of the store and the number.
#[verifier::external_body]
pub(crate) fn add_number(store: &mut ProgramStore, number: SimpleNumber) -> (r: Result<usize, DataError>)
    ensures
        r matches Ok(address) && (*final(store), address) == number_added(*old(store), number),
{
    store.add_number(number)
}

} // verus!
