//! Tokens and blocks of tokens as plain values.

use vstd::prelude::*;
use vstd::string::StringSliceAdditionalSpecFns;
use vstd::utf8::encode_utf8;
use vstd::utf8::is_char_boundary;
use garnish_lang::compiler::lex::LexerToken;
use garnish_lang::compiler::lex::TokenType;
use garnish_lang_annotations_collector::TokenBlock;
use crate::toolchain::lexer_token_view;
use crate::toolchain::lexer_tokens_view;
use crate::toolchain::to_block;
use crate::toolchain::token_block_view;
use crate::toolchain::token_blocks_view;

verus! {

/// One token of source text: its kind, its text and where it stood.
pub struct Token {
    pub kind: TokenType,
    pub text: String,
    pub line: usize,
    pub column: usize,
}

/// A token as a mathematical value.
pub struct TokenView {
    pub kind: TokenType,
    pub text: Seq<char>,
    pub line: usize,
    pub column: usize,
}

impl View for Token {
    type V = TokenView;

    open spec fn view(&self) -> TokenView {
        TokenView { kind: self.kind, text: self.text@, line: self.line, column: self.column }
    }
}

/// The views of a sequence of tokens, in order.
pub open spec fn tokens_view(tokens: Seq<Token>) -> Seq<TokenView> {
    Seq::new(tokens.len(), |i: int| tokens[i]@)
}

/// The views of a sequence of token sequences, in order.
pub open spec fn parts_view(parts: Seq<Vec<Token>>) -> Seq<Seq<TokenView>> {
    Seq::new(parts.len(), |i: int| tokens_view(parts[i]@))
}

impl Token {
    pub fn new(kind: TokenType, text: String, line: usize, column: usize) -> (t: Token)
        ensures
            t@ == (TokenView { kind, text: text@, line, column }),
    {
        Token { kind, text, line, column }
    }

    /// A copy of this token.
    pub fn duplicate(&self) -> (t: Token)
        ensures
            t@ == self@,
    {
        Token { kind: self.kind, text: self.text.clone(), line: self.line, column: self.column }
    }
}

/// A run of tokens that the collector has put together: under an annotation
/// with its parts and with the annotated blocks that stood inside it, or
/// under none with its tokens.
pub struct Block {
    pub annotation: String,
    pub tokens: Vec<Token>,
    pub parts: Vec<Vec<Token>>,
    pub nested: Vec<Block>,
}

/// A block as a mathematical value.
pub struct BlockView {
    pub annotation: Seq<char>,
    pub tokens: Seq<TokenView>,
    pub parts: Seq<Seq<TokenView>>,
    pub nested: Seq<BlockView>,
}

impl View for Block {
    type V = BlockView;

    open spec fn view(&self) -> BlockView
        decreases self,
    {
        BlockView {
            annotation: self.annotation@,
            tokens: tokens_view(self.tokens@),
            parts: parts_view(self.parts@),
            nested: blocks_view(self.nested@),
        }
    }
}

/// The views of a sequence of blocks, in order.
pub open spec fn blocks_view(blocks: Seq<Block>) -> Seq<BlockView>
    decreases blocks,
{
    Seq::new(
        blocks.len(),
        |i: int|
            if 0 <= i < blocks.len() {
                blocks[i]@
            } else {
                arbitrary()
            },
    )
}

/// Every part of every block under an annotation, at any depth, is shorter
/// than `bound`.
pub open spec fn parts_shorter(blocks: Seq<BlockView>, bound: nat) -> bool
    decreases blocks,
{
    forall|i: int|
        0 <= i < blocks.len() ==> {
            &&& (#[trigger] blocks[i]).annotation.len() > 0 ==> forall|j: int|
                0 <= j < blocks[i].parts.len() ==> (#[trigger] blocks[i].parts[j]).len() < bound
            &&& parts_shorter(blocks[i].nested, bound)
        }
}

impl Block {
    pub fn new(
        annotation: String,
        tokens: Vec<Token>,
        parts: Vec<Vec<Token>>,
        nested: Vec<Block>,
    ) -> (b: Block)
        ensures
            b.annotation == annotation,
            b.tokens == tokens,
            b.parts == parts,
            b.nested == nested,
    {
        Block { annotation, tokens, parts, nested }
    }
}

/// The tokens of the lexer, each taken apart into a token of this library.
pub fn to_tokens(outside: &Vec<LexerToken>) -> (tokens: Vec<Token>)
    ensures
        tokens_view(tokens@) == lexer_tokens_view(outside@),
{
    let mut tokens: Vec<Token> = Vec::new();
    let mut i: usize = 0;
    while i < outside.len()
        invariant
            i <= outside.len(),
            tokens@.len() == i,
            forall|k: int| 0 <= k < i ==> (#[trigger] tokens@[k])@ == lexer_token_view(outside@[k]),
        decreases outside.len() - i,
    {
        let token = &outside[i];
        tokens.push(
            Token::new(
                token.get_token_type(),
                token.get_text().clone(),
                token.get_line(),
                token.get_column(),
            ),
        );
        i = i + 1;
    }
    assert(tokens_view(tokens@) =~= lexer_tokens_view(outside@));
    tokens
}

/// The tokens of this library, each put together as a token of the lexer.
pub fn to_lexer_tokens(tokens: &Vec<Token>) -> (outside: Vec<LexerToken>)
    ensures
        lexer_tokens_view(outside@) == tokens_view(tokens@),
{
    let mut outside: Vec<LexerToken> = Vec::new();
    let mut i: usize = 0;
    while i < tokens.len()
        invariant
            i <= tokens.len(),
            outside@.len() == i,
            forall|k: int| 0 <= k < i ==> lexer_token_view(#[trigger] outside@[k]) == tokens@[k]@,
        decreases tokens.len() - i,
    {
        let token = &tokens[i];
        outside.push(LexerToken::new(token.text.clone(), token.kind, token.line, token.column));
        i = i + 1;
    }
    assert(lexer_tokens_view(outside@) =~= tokens_view(tokens@));
    outside
}

/// The blocks of the collector, each taken apart into a block of this
/// library.
pub fn to_blocks(outside: &Vec<TokenBlock>) -> (blocks: Vec<Block>)
    ensures
        blocks_view(blocks@) == token_blocks_view(outside@),
{
    let mut blocks: Vec<Block> = Vec::new();
    let mut i: usize = 0;
    while i < outside.len()
        invariant
            i <= outside.len(),
            blocks@.len() == i,
            forall|k: int| 0 <= k < i ==> (#[trigger] blocks@[k])@ == token_block_view(outside@[k]),
        decreases outside.len() - i,
    {
        blocks.push(to_block(&outside[i]));
        i = i + 1;
    }
    assert(blocks_view(blocks@) =~= token_blocks_view(outside@));
    blocks
}

/// Whether a token of this kind opens a group: an expression, a group or a
/// side effect.
pub open spec fn opens_group(kind: TokenType) -> bool {
    kind == TokenType::StartExpression || kind == TokenType::StartGroup || kind
        == TokenType::StartSideEffect
}

/// Whether a token of this kind closes a group.
pub open spec fn closes_group(kind: TokenType) -> bool {
    kind == TokenType::EndExpression || kind == TokenType::EndGroup || kind
        == TokenType::EndSideEffect
}

/// The nesting level after the first `n` tokens, counted from 1 before the
/// first: one more for each opening token, one less for each closing token.
pub open spec fn nest_level(tokens: Seq<TokenView>, n: int) -> int
    decreases n,
{
    if n <= 0 {
        1
    } else if opens_group(tokens[n - 1].kind) {
        nest_level(tokens, n - 1) + 1
    } else if closes_group(tokens[n - 1].kind) {
        nest_level(tokens, n - 1) - 1
    } else {
        nest_level(tokens, n - 1)
    }
}

/// The tokens never close more than one group beyond those they opened: the
/// nesting level, counted from 1, stays at 0 or above after every token.
pub open spec fn nesting_is_counted(tokens: Seq<TokenView>) -> bool {
    forall|n: int| 0 <= n <= tokens.len() ==> nest_level(tokens, n) >= 0
}

pub fn is_opening(kind: TokenType) -> (b: bool)
    ensures
        b == opens_group(kind),
{
    match kind {
        TokenType::StartExpression => true,
        TokenType::StartGroup => true,
        TokenType::StartSideEffect => true,
        _ => false,
    }
}

pub fn is_closing(kind: TokenType) -> (b: bool)
    ensures
        b == closes_group(kind),
{
    match kind {
        TokenType::EndExpression => true,
        TokenType::EndGroup => true,
        TokenType::EndSideEffect => true,
        _ => false,
    }
}

/// Decides `nesting_is_counted` by one pass over the tokens.
pub fn check_nesting(tokens: &Vec<Token>) -> (b: bool)
    ensures
        b == nesting_is_counted(tokens_view(tokens@)),
{
    let ghost view = tokens_view(tokens@);
    let mut level: u128 = 1;
    let mut i: usize = 0;
    while i < tokens.len()
        invariant
            view == tokens_view(tokens@),
            i <= tokens.len(),
            level == nest_level(view, i as int),
            level <= i + 1,
            forall|n: int| 0 <= n <= i ==> nest_level(view, n) >= 0,
        decreases tokens.len() - i,
    {
        let kind = tokens[i].kind;
        assert(view[i as int].kind == kind);
        if is_opening(kind) {
            level = level + 1;
        } else if is_closing(kind) {
            if level == 0 {
                assert(nest_level(view, i + 1) < 0);
                return false;
            }
            level = level - 1;
        }
        i = i + 1;
    }
    true
}

/// The byte of the quote that character lists stand in.
pub const DOUBLE_QUOTE: u8 = 34;

/// The byte of the quote that byte lists stand in.
pub const SINGLE_QUOTE: u8 = 39;

/// The index of the first byte at or after `from` that is not `byte`, or the
/// length of `bytes` where all are.
pub open spec fn leading_from(bytes: Seq<u8>, byte: u8, from: int) -> int
    decreases bytes.len() - from,
{
    if from < 0 || from >= bytes.len() {
        bytes.len() as int
    } else if bytes[from] != byte {
        from
    } else {
        leading_from(bytes, byte, from + 1)
    }
}

/// How many times `byte` stands at the start of `bytes`.
pub open spec fn leading(bytes: Seq<u8>, byte: u8) -> int {
    leading_from(bytes, byte, 0)
}

/// Whether the builder can read the text of a token of this kind.
///
/// The builder cuts the first byte off a symbol, so a symbol's text must
/// have a character that ends there. It takes the opening quotes of a
/// character list or a byte list off both ends, so the text must be at
/// least twice as long as its opening quotes; a character list may also be
/// quotes only. Of a byte list with two or more quotes it takes what lies
/// between, so a character must end where the closing quotes begin.
pub open spec fn text_builds(kind: TokenType, text: Seq<char>) -> bool {
    let bytes = encode_utf8(text);
    match kind {
        TokenType::Symbol => is_char_boundary(bytes, 1),
        TokenType::CharList => {
            let quotes = leading(bytes, DOUBLE_QUOTE);
            quotes == bytes.len() || 2 * quotes <= bytes.len()
        },
        TokenType::ByteList => {
            let quotes = leading(bytes, SINGLE_QUOTE);
            &&& 2 * quotes <= bytes.len()
            &&& quotes >= 2 ==> is_char_boundary(bytes, bytes.len() - quotes)
        },
        _ => true,
    }
}

/// Whether the builder can read the text of every token.
pub open spec fn tokens_build(tokens: Seq<TokenView>) -> bool {
    forall|i: int| 0 <= i < tokens.len() ==> text_builds(#[trigger] tokens[i].kind, tokens[i].text)
}

/// Counts how many times `byte` stands at the start of `bytes`.
pub fn count_leading(bytes: &[u8], byte: u8) -> (count: usize)
    ensures
        count == leading(bytes@, byte),
        count <= bytes@.len(),
{
    let mut i: usize = 0;
    while i < bytes.len()
        invariant
            i <= bytes@.len(),
            leading(bytes@, byte) == leading_from(bytes@, byte, i as int),
        decreases bytes.len() - i,
    {
        if bytes[i] != byte {
            return i;
        }
        i = i + 1;
    }
    i
}

/// Decides `text_builds` for a token.
pub fn check_literal(token: &Token) -> (b: bool)
    ensures
        b == text_builds(token@.kind, token@.text),
{
    let text = token.text.as_str();
    let bytes = text.as_bytes();
    let len = bytes.len();
    match token.kind {
        TokenType::Symbol => text.is_char_boundary(1),
        TokenType::CharList => {
            let quotes = count_leading(bytes, DOUBLE_QUOTE);
            quotes == len || quotes <= len - quotes
        },
        TokenType::ByteList => {
            let quotes = count_leading(bytes, SINGLE_QUOTE);
            if quotes > len - quotes {
                false
            } else if quotes >= 2 {
                text.is_char_boundary(len - quotes)
            } else {
                true
            }
        },
        _ => true,
    }
}

/// Decides `tokens_build` by one pass over the tokens.
pub fn check_literals(tokens: &Vec<Token>) -> (b: bool)
    ensures
        b == tokens_build(tokens_view(tokens@)),
{
    let ghost view = tokens_view(tokens@);
    let mut i: usize = 0;
    while i < tokens.len()
        invariant
            view == tokens_view(tokens@),
            i <= tokens.len(),
            forall|k: int| 0 <= k < i ==> text_builds(#[trigger] view[k].kind, view[k].text),
        decreases tokens.len() - i,
    {
        assert(view[i as int] == tokens[i as int]@);
        if !check_literal(&tokens[i]) {
            return false;
        }
        i = i + 1;
    }
    true
}

} // verus!
