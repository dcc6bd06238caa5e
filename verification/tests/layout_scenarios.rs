//! End-to-end scenarios for the layout engine: how indentation becomes
//! punctuation.

use slag::ast::{Delimited, DelimToken, IdentStyle, SequenceRepetition, KleeneOp, Token,
    TokenTree};
use slag::codemap::Span;
use slag::layout::{synthesize, Emitter, LayoutError};
use slag::ptr::P;
use slag::token::str_to_ident;

fn sp(start_line: usize, start_col: usize, end_line: usize, end_col: usize) -> Span {
    Span { start_line, start_col, end_line, end_col }
}

fn word(s: &str, line: usize, col: usize) -> TokenTree {
    TokenTree::TtToken(sp(line, col, line, col + s.len()),
        Token::Ident(str_to_ident(s), IdentStyle::Plain))
}

fn arrow(line: usize, col: usize) -> TokenTree {
    TokenTree::TtToken(sp(line, col, line, col + 2), Token::FatArrow)
}

fn lay_out(tts: &[TokenTree]) -> Result<String, LayoutError> {
    let mut em = Emitter::new();
    match synthesize(&mut em, tts) {
        Ok(()) => Ok(em.into_string()),
        Err(e) => Err(e),
    }
}

// A selector construct whose branches are laid out by indentation: the
// branches become a comma-separated block.
#[test]
fn selector_block_gets_commas() {
    let tts = vec![
        word("match", 0, 0),
        arrow(0, 5),
        word("a", 1, 4),
        word("b", 2, 4),
    ];
    assert_eq!(lay_out(&tts).unwrap(), "match=> {\n    a,\n    b }");
}

// Lines at the top level: the sentinel level never separates anything.
#[test]
fn top_level_lines_stay_unseparated() {
    let tts = vec![word("a", 0, 0), word("b", 1, 0)];
    assert_eq!(lay_out(&tts).unwrap(), "a\nb");
}

// A statement block synthesized at one indentation gets semicolons, and an
// aggregate definition gets commas.
#[test]
fn plain_block_gets_semicolons() {
    let tts = vec![
        word("f", 0, 0),
        arrow(0, 1),
        word("a", 1, 4),
        word("b", 2, 4),
    ];
    assert_eq!(lay_out(&tts).unwrap(), "f=> {\n    a;\n    b }");
}

#[test]
fn aggregate_block_gets_commas() {
    let tts = vec![
        word("struct", 0, 0),
        word("S", 0, 7),
        arrow(0, 8),
        word("x", 1, 4),
        word("y", 2, 4),
    ];
    assert_eq!(lay_out(&tts).unwrap(), "struct S=> {\n    x,\n    y }");
}

#[test]
fn enum_keyword_also_makes_aggregate_block() {
    let tts = vec![
        word("enum", 0, 0),
        word("E", 0, 5),
        arrow(0, 6),
        word("x", 1, 4),
        word("y", 2, 4),
    ];
    assert_eq!(lay_out(&tts).unwrap(), "enum E=> {\n    x,\n    y }");
}

// A dedent across several levels closes one block per level, innermost
// first, then separates at the level it lands on.
#[test]
fn nested_dedent_closes_inner_levels() {
    let tts = vec![
        word("a", 0, 0),
        arrow(0, 1),
        word("b", 1, 4),
        arrow(1, 5),
        word("c", 2, 8),
        arrow(2, 9),
        word("d", 3, 12),
        word("e", 4, 4),
    ];
    assert_eq!(lay_out(&tts).unwrap(),
        "a=> {\n    b=> {\n        c=> {\n            d } };\n    e }");
}

// A block-open marker right before end-of-stream yields an empty block.
#[test]
fn empty_block_at_end_of_stream() {
    let tts = vec![word("a", 0, 0), arrow(0, 1)];
    assert_eq!(lay_out(&tts).unwrap(), "a=> { }");
}

// A line that wraps deeper than the open level is a continuation: no
// separator appears.
#[test]
fn wrapped_line_is_a_continuation() {
    let tts = vec![word("a", 0, 0), word("b", 1, 3)];
    assert_eq!(lay_out(&tts).unwrap(), "a\n   b");
}

// Dedenting to a column that no open level has is the fatal indentation
// mismatch, reported at the offending position.
#[test]
fn dedent_to_unpushed_column_is_fatal() {
    let tts = vec![
        word("a", 0, 0),
        arrow(0, 1),
        word("b", 1, 4),
        word("c", 2, 2),
    ];
    assert_eq!(lay_out(&tts), Err(LayoutError::IndentMismatch { line: 2, col: 2 }));
}

// A repetition construct carries no layout; the engine refuses it.
#[test]
fn repetition_token_is_fatal() {
    let seq = SequenceRepetition {
        tts: vec![],
        separator: None,
        op: KleeneOp::ZeroOrMore,
        num_captures: 0,
    };
    let tts = vec![TokenTree::TtSequence(sp(3, 7, 3, 9), P(seq))];
    assert_eq!(lay_out(&tts), Err(LayoutError::UnexpectedToken { line: 3, col: 7 }));
}

// An explicit bracket group is re-emitted as-is and its inside is laid out
// with a fresh indentation context: the wrapped line inside the group makes
// no separator outside it.
#[test]
fn bracket_group_keeps_fresh_context() {
    let inner = vec![word("x", 1, 4)];
    let group = TokenTree::TtDelimited(sp(0, 1, 2, 2), P(Delimited {
        delim: DelimToken::Paren,
        open_span: sp(0, 1, 0, 2),
        tts: inner,
        close_span: sp(2, 1, 2, 2),
    }));
    let tts = vec![word("a", 0, 0), group];
    assert_eq!(lay_out(&tts).unwrap(), "a(\n    x\n )");
}

// The number of synthesized opens equals the number of synthesized closes:
// two blocks open, and by end-of-stream two close markers have appeared.
#[test]
fn opens_and_closes_balance() {
    let tts = vec![
        word("a", 0, 0),
        arrow(0, 1),
        word("b", 1, 4),
        arrow(1, 5),
        word("c", 2, 8),
    ];
    let out = lay_out(&tts).unwrap();
    let opens = out.matches(" {").count();
    let closes = out.matches(" }").count();
    assert_eq!(opens, 2);
    assert_eq!(closes, 2);
}

// The emitter's two writing modes: a token on a fresh source line starts a
// fresh output line at its column, and one continuing a line is padded to
// its column.
#[test]
fn emitter_positions_tokens() {
    let mut em = Emitter::new();
    em.write_token("one", sp(0, 0, 0, 3));
    em.write_token("two", sp(0, 6, 0, 9));
    em.write_token("three", sp(2, 2, 2, 7));
    assert_eq!(em.into_string(), "one   two\n  three");
}

// Padding clamps: a token whose column lies before the current position is
// written with no padding at all.
#[test]
fn emitter_clamps_backward_columns() {
    let mut em = Emitter::new();
    em.write_token("wide", sp(0, 0, 0, 9));
    em.write_token("x", sp(0, 4, 0, 5));
    assert_eq!(em.into_string(), "widex");
}
