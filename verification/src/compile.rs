//! The compile of one record: its tokens are split into a root program and
//! named definitions, and each is parsed and built into one shared store.

use vstd::prelude::*;
use garnish_lang::compiler::lex::TokenType;
use garnish_lang::compiler::parse::ParseResult;
use crate::context::BrowserContext;
use crate::context::ContextView;
use crate::source::SourceDetails;
use crate::token::blocks_view;
use crate::token::check_literals;
use crate::token::check_nesting;
use crate::token::nesting_is_counted;
use crate::token::parts_shorter;
use crate::token::to_blocks;
use crate::token::to_lexer_tokens;
use crate::token::to_tokens;
use crate::token::tokens_build;
use crate::token::tokens_view;
use crate::token::Block;
use crate::token::BlockView;
use crate::token::Token;
use crate::token::TokenView;
use crate::toolchain::build_into;
use crate::toolchain::built;
use crate::toolchain::collect_blocks;
use crate::toolchain::collected;
use crate::toolchain::jump_table_len;
use crate::toolchain::lex_text;
use crate::toolchain::lexed;
use crate::toolchain::parse_tokens;
use crate::toolchain::parsed;
use crate::toolchain::store_jump_count;
use crate::toolchain::store_symbols;
use crate::toolchain::symbol_id;
use crate::toolchain::symbol_names;
use crate::toolchain::symbol_of;
use crate::toolchain::ProgramStore;

verus! {

/// The annotation that marks a named definition.
pub const DEFINITION: &'static str = "@Def";

/// How many tokens the name part of a definition takes.
pub const NAME_TOKENS: usize = 1;

/// The error of tokens that close two groups more than they opened.
pub const UNBALANCED: &'static str = "Unbalanced grouping: a closing token has no opening token";

/// The error of a symbol, a character list or a byte list whose text the
/// builder cannot read.
pub const MALFORMED_LITERAL: &'static str =
    "Malformed literal: a symbol, character list or byte list is cut short";

/// The error of a definition without parts.
pub const NO_NAME_PART: &'static str = "No name part found for @Def annotation";

/// The error of a definition whose first part holds no identifier.
pub const NO_IDENTIFIER: &'static str = "Expected identifier for @Def name";

/// The error of a definition without a second part.
pub const NO_EXPRESSION_PART: &'static str = "No expression found for @Def annotation";

/// The error of a definition whose second part holds no start of an
/// expression with an end of an expression behind it.
pub const NO_EXPRESSION: &'static str = "Expected expression after identifier for @Def annotation";

/// The kinds of token that the shape of a definition is read by.
#[derive(Clone, Copy)]
pub enum Landmark {
    Identifier,
    StartExpression,
    EndExpression,
}

impl Landmark {
    /// The kind of token that this landmark is.
    pub open spec fn kind(self) -> TokenType {
        match self {
            Landmark::Identifier => TokenType::Identifier,
            Landmark::StartExpression => TokenType::StartExpression,
            Landmark::EndExpression => TokenType::EndExpression,
        }
    }

    /// Whether a token of kind `kind` is this landmark.
    pub fn marks(self, kind: TokenType) -> (b: bool)
        ensures
            b == (kind == self.kind()),
    {
        match self {
            Landmark::Identifier => match kind {
                TokenType::Identifier => true,
                _ => false,
            },
            Landmark::StartExpression => match kind {
                TokenType::StartExpression => true,
                _ => false,
            },
            Landmark::EndExpression => match kind {
                TokenType::EndExpression => true,
                _ => false,
            },
        }
    }
}

/// The index of the first token of kind `kind` at or after `from`, or the
/// length of `tokens` where there is none.
pub open spec fn first_from(tokens: Seq<TokenView>, kind: TokenType, from: int) -> int
    decreases tokens.len() - from,
{
    if from < 0 || from >= tokens.len() {
        tokens.len() as int
    } else if tokens[from].kind == kind {
        from
    } else {
        first_from(tokens, kind, from + 1)
    }
}

/// The index of the last token of kind `kind` before `upto`, or -1 where
/// there is none.
pub open spec fn last_before(tokens: Seq<TokenView>, kind: TokenType, upto: int) -> int
    decreases upto,
{
    if upto <= 0 || upto > tokens.len() {
        -1
    } else if tokens[upto - 1].kind == kind {
        upto - 1
    } else {
        last_before(tokens, kind, upto - 1)
    }
}

/// The index of the first token of kind `kind`, if there is one.
pub open spec fn first_of_kind(tokens: Seq<TokenView>, kind: TokenType) -> Option<int> {
    let i = first_from(tokens, kind, 0);
    if i < tokens.len() {
        Some(i)
    } else {
        None
    }
}

/// The index of the last token of kind `kind`, if there is one.
pub open spec fn last_of_kind(tokens: Seq<TokenView>, kind: TokenType) -> Option<int> {
    let i = last_before(tokens, kind, tokens.len() as int);
    if i >= 0 {
        Some(i)
    } else {
        None
    }
}

/// The first token of kind `kind` is where `first_from` says, and no token
/// before it is of that kind.
pub proof fn lemma_first_from(tokens: Seq<TokenView>, kind: TokenType, from: int)
    requires
        0 <= from <= tokens.len(),
    ensures
        from <= first_from(tokens, kind, from) <= tokens.len(),
        first_from(tokens, kind, from) < tokens.len() ==> tokens[first_from(
            tokens,
            kind,
            from,
        )].kind == kind,
        forall|i: int| from <= i < first_from(tokens, kind, from) ==> tokens[i].kind != kind,
    decreases tokens.len() - from,
{
    if from < tokens.len() && tokens[from].kind != kind {
        lemma_first_from(tokens, kind, from + 1);
    }
}

/// The last token of kind `kind` is where `last_before` says, and no token
/// after it is of that kind.
pub proof fn lemma_last_before(tokens: Seq<TokenView>, kind: TokenType, upto: int)
    requires
        0 <= upto <= tokens.len(),
    ensures
        -1 <= last_before(tokens, kind, upto) < upto,
        last_before(tokens, kind, upto) >= 0 ==> tokens[last_before(tokens, kind, upto)].kind
            == kind,
        forall|i: int| last_before(tokens, kind, upto) < i < upto ==> tokens[i].kind != kind,
    decreases upto,
{
    if upto > 0 && tokens[upto - 1].kind != kind {
        lemma_last_before(tokens, kind, upto - 1);
    }
}

/// Finds the first token that is the landmark.
pub fn find_first(tokens: &Vec<Token>, landmark: Landmark) -> (r: Option<usize>)
    ensures
        match r {
            Some(i) => first_of_kind(tokens_view(tokens@), landmark.kind()) == Some(i as int),
            None => first_of_kind(tokens_view(tokens@), landmark.kind()) is None,
        },
{
    let ghost view = tokens_view(tokens@);
    let mut i: usize = 0;
    while i < tokens.len()
        invariant
            view == tokens_view(tokens@),
            i <= tokens.len(),
            first_from(view, landmark.kind(), 0) == first_from(view, landmark.kind(), i as int),
        decreases tokens.len() - i,
    {
        assert(view[i as int].kind == tokens[i as int].kind);
        if landmark.marks(tokens[i].kind) {
            return Some(i);
        }
        i = i + 1;
    }
    None
}

/// Finds the last token that is the landmark, scanning from the end.
pub fn find_last(tokens: &Vec<Token>, landmark: Landmark) -> (r: Option<usize>)
    ensures
        match r {
            Some(i) => last_of_kind(tokens_view(tokens@), landmark.kind()) == Some(i as int),
            None => last_of_kind(tokens_view(tokens@), landmark.kind()) is None,
        },
{
    let ghost view = tokens_view(tokens@);
    let mut i: usize = tokens.len();
    while i > 0
        invariant
            view == tokens_view(tokens@),
            i <= tokens.len(),
            last_before(view, landmark.kind(), tokens.len() as int) == last_before(
                view,
                landmark.kind(),
                i as int,
            ),
        decreases i,
    {
        assert(view[i - 1].kind == tokens[i - 1].kind);
        if landmark.marks(tokens[i - 1].kind) {
            return Some(i - 1);
        }
        i = i - 1;
    }
    None
}

/// The tokens of the first `n` blocks that stand under no annotation, in
/// order: the root program.
pub open spec fn roots_upto(blocks: Seq<BlockView>, n: int) -> Seq<TokenView>
    decreases n,
{
    if n <= 0 || n > blocks.len() {
        Seq::empty()
    } else if blocks[n - 1].annotation.len() == 0 {
        roots_upto(blocks, n - 1) + blocks[n - 1].tokens
    } else {
        roots_upto(blocks, n - 1)
    }
}

/// The root program of the blocks: the tokens of all blocks under no
/// annotation, in order.
pub open spec fn root_tokens(blocks: Seq<BlockView>) -> Seq<TokenView> {
    roots_upto(blocks, blocks.len() as int)
}

/// The name and the body of a definition block, or the message that says
/// what its shape lacks. The name is the text of the first identifier of the
/// first part. The body stands in the second part, strictly between the
/// first start-of-expression token and the last end-of-expression token.
pub open spec fn definition_shape(block: BlockView) -> Result<(Seq<char>, Seq<TokenView>), Seq<char>> {
    if block.parts.len() < 1 {
        Err(NO_NAME_PART@)
    } else {
        match first_of_kind(block.parts[0], TokenType::Identifier) {
            None => Err(NO_IDENTIFIER@),
            Some(identifier) => if block.parts.len() < 2 {
                Err(NO_EXPRESSION_PART@)
            } else {
                match (
                    first_of_kind(block.parts[1], TokenType::StartExpression),
                    last_of_kind(block.parts[1], TokenType::EndExpression),
                ) {
                    (Some(start), Some(end)) => if start < end {
                        Ok((block.parts[0][identifier].text, block.parts[1].subrange(start + 1, end)))
                    } else {
                        Err(NO_EXPRESSION@)
                    },
                    _ => Err(NO_EXPRESSION@),
                }
            },
        }
    }
}

/// A store and a context after a compile.
pub struct Compiled {
    pub store: ProgramStore,
    pub context: ContextView,
}

/// The outcome of a compile with, where it succeeded, the names of the
/// store's symbols given to the context.
pub open spec fn with_symbol_names(outcome: Result<Compiled, Seq<char>>) -> Result<Compiled, Seq<char>> {
    match outcome {
        Err(message) => Err(message),
        Ok(done) => Ok(
            Compiled {
                store: done.store,
                context: done.context.with_names(store_symbols(done.store)),
            },
        ),
    }
}

/// Whether compiling a record fails before anything is bound or built: on
/// its nesting, in the collector, in the parser, or on a text that the
/// builder cannot read.
pub open spec fn fails_early(tokens: Seq<TokenView>) -> bool {
    ||| !nesting_is_counted(tokens)
    ||| match collected(DEFINITION@, NAME_TOKENS, TokenType::EndExpression, tokens) {
        Err(_) => true,
        Ok(blocks) => parsed(root_tokens(blocks)) is Err || !tokens_build(root_tokens(blocks)),
    }
}

/// What compiling one record makes of a store and a context, or the message
/// of the first error. Tokens that close two groups more than they opened
/// are refused. The record's tokens are split into blocks; the root program
/// is parsed; a root program with a text that the builder cannot read is
/// refused; the record's name is bound to the next free entry of the jump
/// table; the root program is built into the store; each definition block is
/// compiled in turn; at the end the names of the store's symbols are given
/// to the context.
pub open spec fn compile_record(
    tokens: Seq<TokenView>,
    name: Seq<char>,
    store: ProgramStore,
    context: ContextView,
) -> Result<Compiled, Seq<char>>
    decreases tokens.len(), 1nat, Seq::<BlockView>::empty(), 0nat,
{
    if !nesting_is_counted(tokens) {
        Err(UNBALANCED@)
    } else {
        match collected(DEFINITION@, NAME_TOKENS, TokenType::EndExpression, tokens) {
            Err(message) => Err(message),
            Ok(blocks) => match parsed(root_tokens(blocks)) {
                Err(message) => Err(message),
                Ok(tree) => if !tokens_build(root_tokens(blocks)) {
                    Err(MALFORMED_LITERAL@)
                } else {
                    match built(tree, store) {
                        Err(message) => Err(message),
                        Ok(with_root) => with_symbol_names(
                            compile_blocks(
                                blocks,
                                0,
                                tokens.len(),
                                with_root,
                                context.with_expression(
                                    symbol_id(name),
                                    name,
                                    store_jump_count(store),
                                ),
                            ),
                        ),
                    }
                },
            },
        }
    }
}

/// What compiling the definition blocks from index `from` on makes of a
/// store and a context, or the message of the first error. Blocks under no
/// annotation are passed over. The body of a definition is compiled as a
/// record of its own under the definition's name; the definitions that
/// stood inside it are compiled behind it, in the same way; then the blocks
/// that follow. A body is compiled only where it is shorter than `bound`,
/// the length of the record that the blocks were taken from.
pub open spec fn compile_blocks(
    blocks: Seq<BlockView>,
    from: int,
    bound: nat,
    store: ProgramStore,
    context: ContextView,
) -> Result<Compiled, Seq<char>>
    decreases bound, 0nat, blocks, blocks.len() - from,
{
    if from < 0 || from >= blocks.len() {
        Ok(Compiled { store, context })
    } else if blocks[from].annotation.len() == 0 {
        compile_blocks(blocks, from + 1, bound, store, context)
    } else {
        match definition_shape(blocks[from]) {
            Err(message) => Err(message),
            Ok((name, body)) => if body.len() < bound {
                match compile_record(body, name, store, context) {
                    Err(message) => Err(message),
                    Ok(done) => match compile_blocks(
                        blocks[from].nested,
                        0,
                        bound,
                        done.store,
                        done.context,
                    ) {
                        Err(message) => Err(message),
                        Ok(inner) => compile_blocks(
                            blocks,
                            from + 1,
                            bound,
                            inner.store,
                            inner.context,
                        ),
                    },
                }
            } else {
                Err(NO_EXPRESSION@)
            },
        }
    }
}

/// Whether compiling a source text fails before anything is bound or
/// built: in the lexer, or as its record fails early.
pub open spec fn source_fails_early(text: Seq<char>) -> bool {
    match lexed(text) {
        Err(_) => true,
        Ok(tokens) => fails_early(tokens),
    }
}

/// What compiling a source text under a name makes of a store and a
/// context: the text is lexed and its tokens compiled as one record.
pub open spec fn compile_source(
    text: Seq<char>,
    name: Seq<char>,
    store: ProgramStore,
    context: ContextView,
) -> Result<Compiled, Seq<char>> {
    match lexed(text) {
        Err(message) => Err(message),
        Ok(tokens) => compile_record(tokens, name, store, context),
    }
}

/// The views of tokens with one more at the end are the views of the tokens
/// with the view of that one at the end.
pub proof fn lemma_tokens_view_push(tokens: Seq<Token>, token: Token)
    ensures
        tokens_view(tokens.push(token)) == tokens_view(tokens).push(token@),
{
    assert(tokens_view(tokens.push(token)) =~= tokens_view(tokens).push(token@));
}

/// Puts the tokens of the blocks under no annotation together, in order.
pub fn gather_roots(blocks: &Vec<Block>) -> (roots: Vec<Token>)
    ensures
        tokens_view(roots@) == root_tokens(blocks_view(blocks@)),
{
    let ghost view = blocks_view(blocks@);
    let mut roots: Vec<Token> = Vec::new();
    let mut i: usize = 0;
    assert(tokens_view(roots@) =~= roots_upto(view, 0));
    while i < blocks.len()
        invariant
            view == blocks_view(blocks@),
            i <= blocks.len(),
            tokens_view(roots@) == roots_upto(view, i as int),
        decreases blocks.len() - i,
    {
        let block = &blocks[i];
        assert(view[i as int] == block@);
        if block.annotation.as_str().is_empty() {
            let ghost before = tokens_view(roots@);
            let mut j: usize = 0;
            while j < block.tokens.len()
                invariant
                    j <= block.tokens.len(),
                    tokens_view(roots@) == before + tokens_view(block.tokens@).take(j as int),
                decreases block.tokens.len() - j,
            {
                let ghost gathered = roots@;
                let token = block.tokens[j].duplicate();
                roots.push(token);
                proof {
                    lemma_tokens_view_push(gathered, token);
                    assert(token@ == tokens_view(block.tokens@)[j as int]);
                    assert(tokens_view(roots@) =~= before + tokens_view(block.tokens@).take(
                        j + 1,
                    ));
                }
                j = j + 1;
            }
            assert(tokens_view(block.tokens@).take(j as int) =~= tokens_view(block.tokens@));
        }
        i = i + 1;
    }
    roots
}

/// Copies the tokens strictly between `start` and `end`.
pub fn tokens_between(tokens: &Vec<Token>, start: usize, end: usize) -> (body: Vec<Token>)
    requires
        start < end < tokens@.len(),
    ensures
        tokens_view(body@) == tokens_view(tokens@).subrange(start + 1, end as int),
{
    let mut body: Vec<Token> = Vec::new();
    let mut i: usize = start + 1;
    assert(tokens_view(body@) =~= tokens_view(tokens@).subrange(start + 1, i as int));
    while i < end
        invariant
            start < i <= end < tokens@.len(),
            tokens_view(body@) == tokens_view(tokens@).subrange(start + 1, i as int),
        decreases end - i,
    {
        let ghost copied = body@;
        let token = tokens[i].duplicate();
        body.push(token);
        proof {
            lemma_tokens_view_push(copied, token);
            assert(token@ == tokens_view(tokens@)[i as int]);
            assert(tokens_view(body@) =~= tokens_view(tokens@).subrange(start + 1, i + 1));
        }
        i = i + 1;
    }
    body
}

/// Reads the name and the body of a definition block.
pub fn read_definition(block: &Block) -> (r: Result<(String, Vec<Token>), String>)
    ensures
        match r {
            Ok((name, body)) => definition_shape(block@) == Ok::<
                (Seq<char>, Seq<TokenView>),
                Seq<char>,
            >((name@, tokens_view(body@))),
            Err(message) => definition_shape(block@) == Err::<
                (Seq<char>, Seq<TokenView>),
                Seq<char>,
            >(message@),
        },
        r matches Ok((_, body)) ==> block.parts@.len() >= 2 && body@.len() < block.parts@[1]@.len(),
{
    if block.parts.len() < 1 {
        return Err(NO_NAME_PART.to_owned());
    }
    let name_part = &block.parts[0];
    let identifier = match find_first(name_part, Landmark::Identifier) {
        Some(identifier) => identifier,
        None => {
            return Err(NO_IDENTIFIER.to_owned());
        },
    };
    if block.parts.len() < 2 {
        return Err(NO_EXPRESSION_PART.to_owned());
    }
    let expression_part = &block.parts[1];
    let start = match find_first(expression_part, Landmark::StartExpression) {
        Some(start) => start,
        None => {
            return Err(NO_EXPRESSION.to_owned());
        },
    };
    let end = match find_last(expression_part, Landmark::EndExpression) {
        Some(end) => end,
        None => {
            return Err(NO_EXPRESSION.to_owned());
        },
    };
    if start >= end {
        return Err(NO_EXPRESSION.to_owned());
    }
    proof {
        lemma_first_from(tokens_view(name_part@), TokenType::Identifier, 0);
        lemma_last_before(
            tokens_view(expression_part@),
            TokenType::EndExpression,
            expression_part@.len() as int,
        );
    }
    let name = name_part[identifier].text.clone();
    let body = tokens_between(expression_part, start, end);
    assert(tokens_view(body@).len() == body@.len());
    assert(tokens_view(expression_part@).len() == expression_part@.len());
    Ok((name, body))
}

/// Gives the context the name of every symbol that the store has met.
pub fn copy_symbol_names(data: &ProgramStore, context: &mut BrowserContext)
    ensures
        final(context)@ == old(context)@.with_names(store_symbols(*data)),
{
    let pairs = symbol_names(data);
    let ghost start = context@;
    let ghost names = store_symbols(*data);
    let mut i: usize = 0;
    while i < pairs.len()
        invariant
            i <= pairs.len(),
            names == store_symbols(*data),
            forall|a: int, b: int|
                0 <= a < b < pairs@.len() ==> (#[trigger] pairs@[a]).0 != (#[trigger] pairs@[b]).0,
            forall|a: int|
                0 <= a < pairs@.len() ==> names.contains_pair((#[trigger] pairs@[a]).0, pairs@[a].1@),
            context@.bindings == start.bindings,
            forall|symbol: u64| #[trigger]
                context@.names.contains_key(symbol) <==> start.names.contains_key(symbol) || exists|
                    a: int,
                | 0 <= a < i && (#[trigger] pairs@[a]).0 == symbol,
            forall|a: int|
                0 <= a < i ==> context@.names[(#[trigger] pairs@[a]).0] == pairs@[a].1@,
            forall|symbol: u64|
                start.names.contains_key(symbol) && !names.contains_key(symbol)
                    ==> #[trigger] context@.names[symbol] == start.names[symbol],
        decreases pairs.len() - i,
    {
        let ghost before = context@;
        context.add_symbol_name(pairs[i].0, pairs[i].1.as_str());
        assert forall|symbol: u64| #[trigger]
            context@.names.contains_key(symbol) <==> start.names.contains_key(symbol) || exists|
                a: int,
            | 0 <= a < i + 1 && (#[trigger] pairs@[a]).0 == symbol by {
            if symbol == pairs@[i as int].0 {
            } else if before.names.contains_key(symbol) && !start.names.contains_key(symbol) {
                let a = choose|a: int| 0 <= a < i && (#[trigger] pairs@[a]).0 == symbol;
                assert(0 <= a < i + 1 && pairs@[a].0 == symbol);
            }
        }
        i = i + 1;
    }
    assert(context@.names =~= start.names.union_prefer_right(names)) by {
        assert forall|symbol: u64|
            context@.names.contains_key(symbol) <==> start.names.union_prefer_right(
                names,
            ).contains_key(symbol) by {
            if names.contains_key(symbol) {
                let a = choose|a: int| 0 <= a < pairs@.len() && (#[trigger] pairs@[a]).0 == symbol;
                assert(0 <= a < i && pairs@[a].0 == symbol);
            }
        }
        assert forall|symbol: u64| context@.names.contains_key(symbol) implies context@.names[symbol]
            == start.names.union_prefer_right(names)[symbol] by {
            if names.contains_key(symbol) {
                let a = choose|a: int| 0 <= a < pairs@.len() && (#[trigger] pairs@[a]).0 == symbol;
                assert(names.contains_pair(pairs@[a].0, pairs@[a].1@));
            }
        }
    }
}

/// Compiles the definitions among the blocks into the store, each with the
/// definitions that stood inside it, and binds their names in the context.
pub fn compile_definitions(
    blocks: &Vec<Block>,
    bound: usize,
    data: &mut ProgramStore,
    context: &mut BrowserContext,
) -> (r: Result<(), String>)
    requires
        parts_shorter(blocks_view(blocks@), bound as nat),
    ensures
        match r {
            Ok(_) => compile_blocks(blocks_view(blocks@), 0, bound as nat, *old(data), old(context)@)
                == Ok::<Compiled, Seq<char>>(
                (Compiled { store: *final(data), context: final(context)@ }),
            ),
            Err(message) => compile_blocks(
                blocks_view(blocks@),
                0,
                bound as nat,
                *old(data),
                old(context)@,
            ) == Err::<Compiled, Seq<char>>(message@),
        },
        r is Ok ==> store_jump_count(*final(data)) >= store_jump_count(*old(data)),
    decreases bound, 0nat, blocks,
{
    let ghost view = blocks_view(blocks@);
    let ghost whole = compile_blocks(view, 0, bound as nat, *data, context@);
    let mut i: usize = 0;
    while i < blocks.len()
        invariant
            i <= blocks.len(),
            view == blocks_view(blocks@),
            parts_shorter(view, bound as nat),
            whole == compile_blocks(view, 0, bound as nat, *old(data), old(context)@),
            whole == compile_blocks(view, i as int, bound as nat, *data, context@),
            store_jump_count(*data) >= store_jump_count(*old(data)),
        decreases blocks.len() - i,
    {
        let block = &blocks[i];
        assert(view[i as int] == block@);
        if !block.annotation.as_str().is_empty() {
            match read_definition(block) {
                Err(message) => {
                    return Err(message);
                },
                Ok((definition, body)) => {
                    proof {
                        assert(block@.parts[1] == tokens_view(block.parts@[1]@));
                        assert(view[i as int].parts[1].len() < bound);
                        assert(tokens_view(body@).len() == body@.len());
                        assert(view[i as int].nested == blocks_view(block.nested@));
                    }
                    match compile_tokens_into_data(&body, definition.as_str(), data, context) {
                        Err(message) => {
                            return Err(message);
                        },
                        Ok(_) => {},
                    }
                    match compile_definitions(&block.nested, bound, data, context) {
                        Err(message) => {
                            return Err(message);
                        },
                        Ok(_) => {},
                    }
                },
            }
        }
        i = i + 1;
    }
    Ok(())
}

/// Compiles one record, given as its tokens and its name, into the store,
/// and binds its name and the names of its definitions in the context.
/// Where it fails before anything is bound or built, store and context
/// stay as they are. Where it succeeds, the jump table has not become
/// shorter.
pub fn compile_tokens_into_data(
    tokens: &Vec<Token>,
    name: &str,
    data: &mut ProgramStore,
    context: &mut BrowserContext,
) -> (r: Result<(), String>)
    ensures
        match r {
            Ok(_) => compile_record(tokens_view(tokens@), name@, *old(data), old(context)@) == Ok::<
                Compiled,
                Seq<char>,
            >((Compiled { store: *final(data), context: final(context)@ })),
            Err(message) => compile_record(tokens_view(tokens@), name@, *old(data), old(context)@)
                == Err::<Compiled, Seq<char>>(message@),
        },
        fails_early(tokens_view(tokens@)) ==> r is Err && *final(data) == *old(data)
            && final(context)@ == old(context)@,
        r is Ok ==> store_jump_count(*final(data)) >= store_jump_count(*old(data)),
    decreases tokens@.len(), 1nat,
{
    if !check_nesting(tokens) {
        return Err(UNBALANCED.to_owned());
    }
    let outside = match collect_blocks(
        DEFINITION,
        NAME_TOKENS,
        TokenType::EndExpression,
        &to_lexer_tokens(tokens),
    ) {
        Ok(outside) => outside,
        Err(message) => {
            return Err(message);
        },
    };
    let blocks = to_blocks(&outside);
    let roots = gather_roots(&blocks);
    let tree = match parse_tokens(&to_lexer_tokens(&roots)) {
        Ok(tree) => tree,
        Err(message) => {
            return Err(message);
        },
    };
    if !check_literals(&roots) {
        return Err(MALFORMED_LITERAL.to_owned());
    }
    let root_point = jump_table_len(data);
    let symbol = symbol_of(name);
    context.add_expression_mapping(symbol, name, root_point);
    assert(parsed(tokens_view(roots@)) == Ok::<ParseResult, Seq<char>>(tree) && tokens_build(
        tokens_view(roots@),
    ));
    match build_into(&tree, data) {
        Ok(_) => {},
        Err(message) => {
            return Err(message);
        },
    }
    match compile_definitions(&blocks, tokens.len(), data, context) {
        Ok(_) => {},
        Err(message) => {
            return Err(message);
        },
    }
    copy_symbol_names(data, context);
    Ok(())
}

/// Compiles a source record into the store: lexes its text and compiles the
/// tokens under its name. Where it fails before anything is bound or built,
/// store and context stay as they are.
pub fn compile_source_into_data(
    source: &SourceDetails,
    data: &mut ProgramStore,
    context: &mut BrowserContext,
) -> (r: Result<(), String>)
    ensures
        match r {
            Ok(_) => compile_source(
                source.text_view(),
                source.name_view(),
                *old(data),
                old(context)@,
            ) == Ok::<Compiled, Seq<char>>((Compiled { store: *final(data), context: final(context)@ })),
            Err(message) => compile_source(
                source.text_view(),
                source.name_view(),
                *old(data),
                old(context)@,
            ) == Err::<Compiled, Seq<char>>(message@),
        },
        source_fails_early(source.text_view()) ==> r is Err && *final(data) == *old(data)
            && final(context)@ == old(context)@,
        r is Ok ==> store_jump_count(*final(data)) >= store_jump_count(*old(data)),
{
    let tokens = match lex_text(source.text().as_str()) {
        Ok(tokens) => to_tokens(&tokens),
        Err(message) => {
            return Err(message);
        },
    };
    compile_tokens_into_data(&tokens, source.name().as_str(), data, context)
}

} // verus!
