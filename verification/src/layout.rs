//! The layout engine: an off-side-rule resolver that turns an
//! indentation-delimited token stream into fully punctuated text.
//!
//! The engine walks a token stream once, left to right, carrying an
//! indentation stack and a pending block-kind signal. For each token it
//! either synthesizes a separator, closes one or more blocks, opens a block,
//! or simply re-emits the token at its original column. Explicit bracket
//! groups are laid out by an independent recursive pass with a fresh stack,
//! so a wrapped line inside brackets cannot be mistaken for a statement
//! boundary outside them.
//!
//! The specification functions [`run_layout`] and [`write_text`] say, step
//! by step, what the engine produces; [`synthesize`] is proved to follow
//! them exactly, and the laws at the end of the module are proved about
//! them.

use vstd::prelude::*;

use crate::ast::{Token, TokenTree, IdentStyle};
use crate::codemap::Span;
use crate::print::{close_delim_text, open_delim_text, repeat_char, token_text, token_to_string};

verus! {

/// What kind of block an indentation level belongs to; the kind decides
/// which separator the level's entries get.
#[derive(Clone, Copy, PartialEq, Eq, Structural, Debug)]
pub enum BlockKind {
    /// The bottom sentinel of the outermost stack; never separates.
    TopLevel,
    /// An ordinary statement block; entries end with `;`.
    Plain,
    /// The body of a selector construct; entries are separated by `,`.
    Selector,
    /// The body of an aggregate definition; entries are separated by `,`.
    Aggregate,
}

/// The two fatal layout conditions: a dedent to a column that no open
/// level has, and a token kind the engine cannot lay out.
#[derive(Clone, Copy, PartialEq, Eq, Structural, Debug)]
pub enum LayoutError {
    /// The token at the given position dedents to a column that was never
    /// pushed.
    IndentMismatch { line: usize, col: usize },
    /// The token at the given position is a repetition construct, which
    /// carries no layout of its own.
    UnexpectedToken { line: usize, col: usize },
}

/// One thing the engine appended to the output: a re-emitted token, a
/// synthesized separator, or a synthesized block delimiter.
pub enum LayoutEvent {
    /// A token written at its source position (including a group's literal
    /// delimiters).
    Emitted { text: Seq<char> },
    /// A synthesized separator, tagged with the kind of the level that was
    /// on top of the stack when it was emitted.
    Separator { text: Seq<char>, kind: BlockKind },
    /// A synthesized block-open marker.
    BlockOpen,
    /// A synthesized block-close marker.
    BlockClose,
}

/// The position-tracking part of the emitter, as the specification sees it.
pub struct EmitterModel {
    /// Everything written so far.
    pub out: Seq<char>,
    /// The line the last write ended on.
    pub line: int,
    /// The column just past the last write.
    pub col: int,
}

/// The whole engine state, as the specification sees it: the indentation
/// stack, the pending block kind, the last source line already accounted
/// for, the emitter, and the log of everything appended.
pub struct LayoutModel {
    pub stack: Seq<(int, BlockKind)>,
    pub pending: BlockKind,
    pub last_line: int,
    pub em: EmitterModel,
    pub events: Seq<LayoutEvent>,
}

/// `n` spaces.
pub open spec fn spaces(n: int) -> Seq<char> {
    repeat_char(' ', n)
}

/// The sentinel value a fresh emitter's line starts at; the first write
/// never counts as starting a new output line.
pub open spec fn unset_line() -> int {
    usize::MAX as int
}

/// What writing a token does to the emitter: a token that starts a new
/// source line starts a new output line, indented to the token's column;
/// one that continues a line is padded with spaces up to its column.
pub open spec fn write_text(em: EmitterModel, text: Seq<char>, sp: Span) -> EmitterModel {
    if sp.start_line > em.line {
        EmitterModel {
            out: em.out + "\n"@ + spaces(sp.start_col as int) + text,
            line: sp.end_line as int,
            col: sp.end_col as int,
        }
    } else {
        EmitterModel {
            out: em.out + spaces(sp.start_col - em.col) + text,
            line: sp.end_line as int,
            col: sp.end_col as int,
        }
    }
}

/// The separator a block kind calls for.
pub open spec fn separator_text(kind: BlockKind) -> Seq<char> {
    if kind is Plain {
        ";"@
    } else {
        ","@
    }
}

/// Append the separator that the given (non-sentinel) kind calls for.
pub open spec fn model_separator(m: LayoutModel, kind: BlockKind) -> LayoutModel {
    LayoutModel {
        em: EmitterModel { out: m.em.out + separator_text(kind), ..m.em },
        events: m.events.push(LayoutEvent::Separator { text: separator_text(kind), kind }),
        ..m
    }
}

/// Append a token at its position.
pub open spec fn model_token(m: LayoutModel, text: Seq<char>, sp: Span) -> LayoutModel {
    LayoutModel {
        em: write_text(m.em, text, sp),
        events: m.events.push(LayoutEvent::Emitted { text }),
        ..m
    }
}

/// Append a synthesized block-open marker.
pub open spec fn model_open(m: LayoutModel) -> LayoutModel {
    LayoutModel {
        em: EmitterModel { out: m.em.out + " {"@, ..m.em },
        events: m.events.push(LayoutEvent::BlockOpen),
        ..m
    }
}

/// Append a synthesized block-close marker.
pub open spec fn model_close(m: LayoutModel) -> LayoutModel {
    LayoutModel {
        em: EmitterModel { out: m.em.out + " }"@, ..m.em },
        events: m.events.push(LayoutEvent::BlockClose),
        ..m
    }
}

/// Pop levels off the stack, closing a block for each, until the level on
/// top sits exactly at `col`; popping past the bottom of the stack means
/// the input dedented to a column that was never pushed.
pub open spec fn pop_to_column(m: LayoutModel, col: int) -> Result<LayoutModel, ()>
    decreases m.stack.len(),
{
    if m.stack.len() == 0 {
        Err(())
    } else if m.stack.last().0 == col {
        Ok(m)
    } else {
        pop_to_column(LayoutModel { stack: m.stack.drop_last(), ..model_close(m) }, col)
    }
}

/// The separator-or-close decision that runs before a token which starts
/// strictly below the last line already accounted for.
pub open spec fn separator_phase(m: LayoutModel, sp: Span) -> Result<LayoutModel, LayoutError> {
    if m.last_line == unset_line() {
        Ok(LayoutModel { last_line: sp.start_line as int, ..m })
    } else if sp.end_line > m.last_line {
        let m1 = LayoutModel { last_line: sp.end_line as int, ..m };
        let top = m.stack.last();
        if sp.start_col == top.0 {
            if top.1 is TopLevel {
                Ok(m1)
            } else {
                Ok(model_separator(m1, top.1))
            }
        } else if sp.start_col < top.0 {
            match pop_to_column(m1, sp.start_col as int) {
                Err(()) => Err(LayoutError::IndentMismatch {
                    line: sp.start_line,
                    col: sp.start_col,
                }),
                Ok(m2) => {
                    let new_top = m2.stack.last();
                    if new_top.1 is TopLevel {
                        Ok(m2)
                    } else {
                        Ok(model_separator(m2, new_top.1))
                    }
                }
            }
        } else {
            // A continuation of the current entry on a wrapped line:
            // indentation performs no action.
            Ok(m1)
        }
    } else {
        Ok(m)
    }
}

/// The span a token tree covers.
pub open spec fn tree_span(tt: TokenTree) -> Span {
    match tt {
        TokenTree::TtToken(span, _) => span,
        TokenTree::TtDelimited(span, _) => span,
        TokenTree::TtSequence(span, _) => span,
    }
}

/// The block kind a recognized keyword sets as pending, if any.
pub open spec fn keyword_kind(tok: Token) -> Option<BlockKind> {
    match tok {
        Token::Ident(id, IdentStyle::Plain) => if id.name.0@ == "match"@ {
            Some(BlockKind::Selector)
        } else if id.name.0@ == "struct"@ || id.name.0@ == "enum"@ {
            Some(BlockKind::Aggregate)
        } else {
            None
        },
        _ => None,
    }
}

/// Close one block for every level still open above the sentinel.
pub open spec fn flush_blocks(m: LayoutModel, n: int) -> LayoutModel
    decreases n,
{
    if n <= 0 {
        m
    } else {
        flush_blocks(model_close(m), n - 1)
    }
}

/// One full engine pass over `tts`, starting at index `i` in state `m`:
/// exactly what [`synthesize`] does, expressed over the model.
pub open spec fn run_layout(m: LayoutModel, tts: Seq<TokenTree>, i: int)
    -> Result<LayoutModel, LayoutError>
    decreases tts, tts.len() - i, 1int,
{
    if i < 0 || i >= tts.len() {
        Ok(flush_blocks(m, m.stack.len() - 1))
    } else {
        match separator_phase(m, tree_span(tts[i])) {
            Err(e) => Err(e),
            Ok(m1) => run_dispatch(m1, tts, i),
        }
    }
}

/// Lay out the token at index `i` (whose separator phase already ran) and
/// continue with the rest of the stream.
pub open spec fn run_dispatch(m: LayoutModel, tts: Seq<TokenTree>, i: int)
    -> Result<LayoutModel, LayoutError>
    decreases tts, tts.len() - i, 0int,
{
    if i < 0 || i >= tts.len() {
        Ok(m)
    } else {
        match tts[i] {
            TokenTree::TtToken(span, tok) => {
                if tok is FatArrow {
                    // The block-open marker stays in the output, and the
                    // synthetic block-open delimiter follows it directly.
                    let m1 = model_token(m, "=>"@, span);
                    let m2 = model_open(m1);
                    if i + 1 < tts.len() {
                        let next_sp = tree_span(tts[i + 1]);
                        let m3 = LayoutModel {
                            stack: m2.stack.push((next_sp.start_col as int, m2.pending)),
                            pending: BlockKind::Plain,
                            last_line: next_sp.end_line as int,
                            ..m2
                        };
                        run_layout(m3, tts, i + 1)
                    } else {
                        // A block-open marker right before end-of-stream
                        // yields an empty block.
                        run_layout(model_close(m2), tts, i + 1)
                    }
                } else {
                    let m1 = match keyword_kind(tok) {
                        Some(k) => LayoutModel { pending: k, ..m },
                        None => m,
                    };
                    run_layout(model_token(m1, token_text(tok), span), tts, i + 1)
                }
            }
            TokenTree::TtDelimited(_, delimed) => {
                let m1 = model_token(m, open_delim_text(delimed.delim), delimed.open_span);
                // The group's inner stream is laid out by an independent
                // pass: fresh stack, fresh pending kind, only the emitter
                // carried through.
                match run_layout(initial_model(m1.em), delimed.tts@, 0) {
                    Err(e) => Err(e),
                    Ok(subm) => {
                        let m2 = LayoutModel {
                            stack: m.stack,
                            pending: m.pending,
                            last_line: m.last_line,
                            em: subm.em,
                            events: m1.events + subm.events,
                        };
                        run_layout(model_token(m2, close_delim_text(delimed.delim),
                            delimed.close_span), tts, i + 1)
                    }
                }
            }
            TokenTree::TtSequence(span, _) => Err(LayoutError::UnexpectedToken {
                line: span.start_line,
                col: span.start_col,
            }),
        }
    }
}

/// The engine state a fresh pass starts from: only the sentinel level is
/// open, no keyword is pending, and no source line has been accounted for
/// beyond where the emitter already stands.
pub open spec fn initial_model(em: EmitterModel) -> LayoutModel {
    LayoutModel {
        stack: seq![(0int, BlockKind::TopLevel)],
        pending: BlockKind::Plain,
        last_line: em.line,
        em: em,
        events: Seq::<LayoutEvent>::empty(),
    }
}

/// The append-only output sink. It tracks the last position it wrote to so
/// that a token can be re-emitted either on a fresh output line indented to
/// its original column, or padded with spaces up to its column on the
/// current line.
pub struct Emitter {
    out: String,
    line: usize,
    col: usize,
}

impl Emitter {
    /// The emitter as the specification sees it.
    pub closed spec fn model(&self) -> EmitterModel {
        EmitterModel { out: self.out@, line: self.line as int, col: self.col as int }
    }

    /// A fresh emitter: nothing written, position unset.
    pub fn new() -> (r: Emitter)
        ensures
            r.model() == (EmitterModel {
                out: Seq::<char>::empty(),
                line: unset_line(),
                col: 0int,
            }),
    {
        Emitter { out: String::new(), line: usize::MAX, col: 0 }
    }

    /// Everything written so far.
    pub fn into_string(self) -> (r: String)
        ensures
            r@ == self.model().out,
    {
        self.out
    }

    /// Append `text` verbatim, leaving the tracked position alone;
    /// synthesized punctuation is written this way, directly after
    /// whatever came before it.
    fn raw(&mut self, text: &str)
        ensures
            final(self).model() == (EmitterModel {
                out: old(self).model().out + text@,
                ..old(self).model()
            }),
    {
        self.out.append(text);
    }

    /// Append spaces until the tracked column reaches `to`, starting from
    /// column `from`; excess columns clamp to no padding at all.
    fn pad(&mut self, from: usize, to: usize)
        ensures
            final(self).model() == (EmitterModel {
                out: old(self).model().out + spaces(to - from),
                ..old(self).model()
            }),
    {
        let mut k: usize = from;
        while k < to
            invariant
                self.line == old(self).line,
                self.col == old(self).col,
                from <= k,
                k <= to || k == from,
                self.out@ == old(self).out@ + spaces(k - from),
            decreases to - k,
        {
            self.out.append(" ");
            proof {
                reveal_strlit(" ");
                assert(self.out@ =~= old(self).out@ + spaces(k + 1 - from));
            }
            k = k + 1;
        }
        proof {
            if to <= from {
                assert(self.out@ =~= old(self).out@ + spaces(to - from));
            }
        }
    }

    /// Write a token at its source position, per the layout rule: a new
    /// source line becomes a new output line indented to the token's
    /// column; a continued line is padded up to the token's column.
    pub fn write_token(&mut self, text: &str, sp: Span)
        ensures
            final(self).model() == write_text(old(self).model(), text@, sp),
    {
        if sp.start_line > self.line {
            self.out.append("\n");
            self.pad(0, sp.start_col);
            self.out.append(text);
        } else {
            let from = self.col;
            self.pad(from, sp.start_col);
            self.out.append(text);
        }
        self.line = sp.end_line;
        self.col = sp.end_col;
    }
}

/// The exec stack, as the model sees it.
pub open spec fn stack_model(s: Seq<(usize, BlockKind)>) -> Seq<(int, BlockKind)> {
    s.map_values(|p: (usize, BlockKind)| (p.0 as int, p.1))
}

/// The pending block kind a recognized keyword sets, if this token is one.
fn keyword_kind_of(tok: &Token) -> (r: Option<BlockKind>)
    ensures
        r == keyword_kind(*tok),
{
    match tok {
        Token::Ident(id, IdentStyle::Plain) => {
            if id.name.0 == "match".to_owned() {
                Some(BlockKind::Selector)
            } else if id.name.0 == "struct".to_owned() || id.name.0 == "enum".to_owned() {
                Some(BlockKind::Aggregate)
            } else {
                None
            }
        }
        _ => None,
    }
}

/// The opening delimiter of a bracket group, as text.
fn open_delim_str(d: &crate::ast::DelimToken) -> (r: &'static str)
    ensures
        r@ == open_delim_text(*d),
{
    match d {
        crate::ast::DelimToken::Paren => "(",
        crate::ast::DelimToken::Bracket => "[",
        crate::ast::DelimToken::Brace => "{",
    }
}

/// The closing delimiter of a bracket group, as text.
fn close_delim_str(d: &crate::ast::DelimToken) -> (r: &'static str)
    ensures
        r@ == close_delim_text(*d),
{
    match d {
        crate::ast::DelimToken::Paren => ")",
        crate::ast::DelimToken::Bracket => "]",
        crate::ast::DelimToken::Brace => "}",
    }
}

/// Run the separator-or-close decision for a token covering `sp`, mutating
/// the stack, the line tracker and the emitter exactly as
/// [`separator_phase`] says.
#[verifier::loop_isolation(false)]
fn separator_step(stack: &mut Vec<(usize, BlockKind)>, last_line: &mut usize, em: &mut Emitter,
    sp: Span, Ghost(pending): Ghost<BlockKind>, Ghost(events): Ghost<Seq<LayoutEvent>>)
    -> (r: (Result<(), LayoutError>, Ghost<Seq<LayoutEvent>>))
    requires
        old(stack)@.len() >= 1,
    ensures
        ({
            let m = LayoutModel {
                stack: stack_model(old(stack)@),
                pending: pending,
                last_line: *old(last_line) as int,
                em: old(em).model(),
                events: events,
            };
            match separator_phase(m, sp) {
                Ok(m1) => r.0 is Ok && stack_model(final(stack)@) == m1.stack
                    && final(stack)@.len() >= 1 && *final(last_line) as int == m1.last_line
                    && final(em).model() == m1.em && r.1@ == m1.events
                    && m1.pending == pending,
                Err(e) => r.0 == Err::<(), LayoutError>(e),
            }
        }),
{
    let ghost m = LayoutModel {
        stack: stack_model(stack@),
        pending: pending,
        last_line: *last_line as int,
        em: em.model(),
        events: events,
    };
    let ghost mut evs = events;
    if *last_line == usize::MAX {
        *last_line = sp.start_line;
        (Ok(()), Ghost(evs))
    } else if sp.end_line > *last_line {
        *last_line = sp.end_line;
        let top = stack[stack.len() - 1];
        proof {
            assert(m.stack.last() == (top.0 as int, top.1));
        }
        if sp.start_col == top.0 {
            match top.1 {
                BlockKind::TopLevel => {}
                BlockKind::Plain => {
                    em.raw(";");
                    proof {
                        evs = evs.push(LayoutEvent::Separator {
                            text: ";"@,
                            kind: BlockKind::Plain,
                        });
                    }
                }
                BlockKind::Selector => {
                    em.raw(",");
                    proof {
                        evs = evs.push(LayoutEvent::Separator {
                            text: ","@,
                            kind: BlockKind::Selector,
                        });
                    }
                }
                BlockKind::Aggregate => {
                    em.raw(",");
                    proof {
                        evs = evs.push(LayoutEvent::Separator {
                            text: ","@,
                            kind: BlockKind::Aggregate,
                        });
                    }
                }
            }
            (Ok(()), Ghost(evs))
        } else if sp.start_col < top.0 {
            // Pop and close until some open level sits exactly at the new
            // column; running out of levels is the fatal indentation
            // mismatch.
            let ghost m1 = LayoutModel { last_line: sp.end_line as int, ..m };
            loop
                invariant
                    stack@.len() >= 0,
                    *last_line == sp.end_line,
                    pop_to_column(m1, sp.start_col as int) == pop_to_column(
                        LayoutModel {
                            stack: stack_model(stack@),
                            pending: pending,
                            last_line: sp.end_line as int,
                            em: em.model(),
                            events: evs,
                        },
                        sp.start_col as int,
                    ),
                decreases stack@.len(),
            {
                if stack.len() == 0 {
                    proof {
                        assert(pop_to_column(m1, sp.start_col as int) is Err);
                    }
                    return (Err(LayoutError::IndentMismatch {
                        line: sp.start_line,
                        col: sp.start_col,
                    }), Ghost(evs));
                }
                let top2 = stack[stack.len() - 1];
                if top2.0 == sp.start_col {
                    break;
                }
                em.raw(" }");
                let ghost pre = stack@;
                stack.pop();
                proof {
                    evs = evs.push(LayoutEvent::BlockClose);
                    assert(stack_model(stack@) =~= stack_model(pre).drop_last());
                }
            }
            let top2 = stack[stack.len() - 1];
            proof {
                let cur = LayoutModel {
                    stack: stack_model(stack@),
                    pending: pending,
                    last_line: sp.end_line as int,
                    em: em.model(),
                    events: evs,
                };
                assert(cur.stack.last() == (top2.0 as int, top2.1));
                assert(pop_to_column(m1, sp.start_col as int) == Ok::<LayoutModel, ()>(cur));
            }
            match top2.1 {
                BlockKind::TopLevel => {}
                BlockKind::Plain => {
                    em.raw(";");
                    proof {
                        evs = evs.push(LayoutEvent::Separator {
                            text: ";"@,
                            kind: BlockKind::Plain,
                        });
                    }
                }
                BlockKind::Selector => {
                    em.raw(",");
                    proof {
                        evs = evs.push(LayoutEvent::Separator {
                            text: ","@,
                            kind: BlockKind::Selector,
                        });
                    }
                }
                BlockKind::Aggregate => {
                    em.raw(",");
                    proof {
                        evs = evs.push(LayoutEvent::Separator {
                            text: ","@,
                            kind: BlockKind::Aggregate,
                        });
                    }
                }
            }
            (Ok(()), Ghost(evs))
        } else {
            (Ok(()), Ghost(evs))
        }
    } else {
        (Ok(()), Ghost(evs))
    }
}

/// Lay out one token stream into the emitter: re-emit every token at its
/// source position and synthesize the separators and block delimiters that
/// its indentation implies, exactly as [`run_layout`] says. Explicit
/// bracket groups are laid out recursively with a fresh indentation stack.
#[verifier::loop_isolation(false)]
#[verifier::rlimit(60)]
pub fn synthesize(em: &mut Emitter, tts: &[TokenTree]) -> (r: Result<(), LayoutError>)
    ensures
        ({
            let res = run_layout(initial_model(old(em).model()), tts@, 0);
            match r {
                Ok(()) => res matches Ok(m2) && final(em).model() == m2.em,
                Err(e) => res == Err::<LayoutModel, LayoutError>(e),
            }
        }),
    decreases tts@,
{
    let ghost m0 = initial_model(em.model());
    let mut stack: Vec<(usize, BlockKind)> = Vec::new();
    stack.push((0, BlockKind::TopLevel));
    let mut pending: BlockKind = BlockKind::Plain;
    let mut last_line: usize = em.line;
    let ghost mut events = Seq::<LayoutEvent>::empty();
    proof {
        assert(stack_model(stack@) =~= m0.stack);
    }

    let mut i: usize = 0;
    while i < tts.len()
        invariant
            i <= tts@.len(),
            stack@.len() >= 1,
            run_layout(m0, tts@, 0) == run_layout(
                LayoutModel {
                    stack: stack_model(stack@),
                    pending: pending,
                    last_line: last_line as int,
                    em: em.model(),
                    events: events,
                },
                tts@,
                i as int,
            ),
        decreases tts@.len() - i,
    {
        let ghost m_enter = LayoutModel {
            stack: stack_model(stack@),
            pending: pending,
            last_line: last_line as int,
            em: em.model(),
            events: events,
        };
        let tt = &tts[i];
        let sp = tt.get_span();
        proof {
            assert(sp == tree_span(tts@[i as int]));
        }

        let (sep_r, Ghost(evs1)) = separator_step(&mut stack, &mut last_line, em, sp,
            Ghost(pending), Ghost(events));
        match sep_r {
            Err(e) => {
                proof {
                    assert(run_layout(m0, tts@, 0) == Err::<LayoutModel, LayoutError>(e));
                }
                return Err(e);
            }
            Ok(()) => {}
        }
        proof {
            events = evs1;
        }
        let ghost m1 = LayoutModel {
            stack: stack_model(stack@),
            pending: pending,
            last_line: last_line as int,
            em: em.model(),
            events: events,
        };
        proof {
            assert(separator_phase(m_enter, sp) == Ok::<LayoutModel, LayoutError>(m1));
            assert(run_layout(m_enter, tts@, i as int) == run_dispatch(m1, tts@, i as int));
        }

        match tt {
            TokenTree::TtToken(span, tok) => {
                match tok {
                    Token::FatArrow => {
                        em.write_token("=>", *span);
                        proof {
                            events = events.push(LayoutEvent::Emitted { text: "=>"@ });
                        }
                        em.raw(" {");
                        proof {
                            events = events.push(LayoutEvent::BlockOpen);
                        }
                        if i + 1 < tts.len() {
                            let ghost pre_stack = stack@;
                            let next_sp = tts[i + 1].get_span();
                            proof {
                                assert(next_sp == tree_span(tts@[i + 1]));
                            }
                            stack.push((next_sp.start_col, pending));
                            pending = BlockKind::Plain;
                            last_line = next_sp.end_line;
                            proof {
                                let m3 = LayoutModel {
                                    stack: stack_model(stack@),
                                    pending: pending,
                                    last_line: last_line as int,
                                    em: em.model(),
                                    events: events,
                                };
                                assert(stack_model(stack@) =~= stack_model(pre_stack).push((
                                    next_sp.start_col as int, m1.pending)));
                                assert(run_dispatch(m1, tts@, i as int)
                                    == run_layout(m3, tts@, i + 1));
                            }
                        } else {
                            em.raw(" }");
                            proof {
                                events = events.push(LayoutEvent::BlockClose);
                                let m3 = LayoutModel {
                                    stack: stack_model(stack@),
                                    pending: pending,
                                    last_line: last_line as int,
                                    em: em.model(),
                                    events: events,
                                };
                                assert(run_dispatch(m1, tts@, i as int)
                                    == run_layout(m3, tts@, i + 1));
                            }
                        }
                    }
                    _ => {
                        match keyword_kind_of(tok) {
                            Some(k) => { pending = k; }
                            None => {}
                        }
                        let text = token_to_string(tok);
                        em.write_token(text.as_str(), *span);
                        proof {
                            events = events.push(LayoutEvent::Emitted {
                                text: token_text(*tok),
                            });
                            let m3 = LayoutModel {
                                stack: stack_model(stack@),
                                pending: pending,
                                last_line: last_line as int,
                                em: em.model(),
                                events: events,
                            };
                            assert(run_dispatch(m1, tts@, i as int)
                                == run_layout(m3, tts@, i + 1));
                        }
                    }
                }
            }
            TokenTree::TtDelimited(_, delimed) => {
                em.write_token(open_delim_str(&delimed.delim), delimed.open_span);
                proof {
                    events = events.push(LayoutEvent::Emitted {
                        text: open_delim_text(delimed.delim),
                    });
                }
                let ghost sub0 = initial_model(em.model());
                let sub_r = synthesize(em, delimed.tts.as_slice());
                match sub_r {
                    Err(e) => {
                        proof {
                            assert(run_layout(sub0, delimed.tts@, 0)
                                == Err::<LayoutModel, LayoutError>(e));
                            assert(run_layout(m0, tts@, 0)
                                == Err::<LayoutModel, LayoutError>(e));
                        }
                        return Err(e);
                    }
                    Ok(()) => {}
                }
                proof {
                    events = (match run_layout(sub0, delimed.tts@, 0) {
                        Ok(mm) => events + mm.events,
                        Err(_) => events,
                    });
                }
                em.write_token(close_delim_str(&delimed.delim), delimed.close_span);
                proof {
                    events = events.push(LayoutEvent::Emitted {
                        text: close_delim_text(delimed.delim),
                    });
                    let m3 = LayoutModel {
                        stack: stack_model(stack@),
                        pending: pending,
                        last_line: last_line as int,
                        em: em.model(),
                        events: events,
                    };
                    assert(run_dispatch(m1, tts@, i as int) == run_layout(m3, tts@, i + 1));
                }
            }
            TokenTree::TtSequence(span, _) => {
                let e = LayoutError::UnexpectedToken { line: span.start_line,
                    col: span.start_col };
                proof {
                    assert(run_dispatch(m1, tts@, i as int)
                        == Err::<LayoutModel, LayoutError>(e));
                    assert(run_layout(m0, tts@, 0) == Err::<LayoutModel, LayoutError>(e));
                }
                return Err(e);
            }
        }
        i = i + 1;
    }

    // End-of-stream flush: one close for every level still open above the
    // sentinel.
    let ghost m_exit = LayoutModel {
        stack: stack_model(stack@),
        pending: pending,
        last_line: last_line as int,
        em: em.model(),
        events: events,
    };
    let mut k: usize = stack.len();
    while k > 1
        invariant
            1 <= k,
            k <= stack@.len(),
            flush_blocks(m_exit, m_exit.stack.len() - 1) == flush_blocks(
                LayoutModel {
                    stack: stack_model(stack@),
                    pending: pending,
                    last_line: last_line as int,
                    em: em.model(),
                    events: events,
                },
                k - 1,
            ),
        decreases k,
    {
        em.raw(" }");
        proof {
            events = events.push(LayoutEvent::BlockClose);
        }
        k = k - 1;
    }
    Ok(())
}

/// How many synthesized block-open markers a log holds.
pub open spec fn count_opens(evs: Seq<LayoutEvent>) -> int
    decreases evs.len(),
{
    if evs.len() == 0 {
        0int
    } else {
        count_opens(evs.drop_last()) + if evs.last() is BlockOpen {
            1int
        } else {
            0int
        }
    }
}

/// How many synthesized block-close markers a log holds.
pub open spec fn count_closes(evs: Seq<LayoutEvent>) -> int
    decreases evs.len(),
{
    if evs.len() == 0 {
        0int
    } else {
        count_closes(evs.drop_last()) + if evs.last() is BlockClose {
            1int
        } else {
            0int
        }
    }
}

/// The net number of blocks a log leaves open.
pub open spec fn open_balance(evs: Seq<LayoutEvent>) -> int {
    count_opens(evs) - count_closes(evs)
}

proof fn lemma_count_concat(a: Seq<LayoutEvent>, b: Seq<LayoutEvent>)
    ensures
        count_opens(a + b) == count_opens(a) + count_opens(b),
        count_closes(a + b) == count_closes(a) + count_closes(b),
    decreases b.len(),
{
    if b.len() == 0 {
        assert(a + b =~= a);
    } else {
        lemma_count_concat(a, b.drop_last());
        assert((a + b).drop_last() =~= a + b.drop_last());
        assert((a + b).last() == b.last());
    }
}

proof fn lemma_count_push(a: Seq<LayoutEvent>, e: LayoutEvent)
    ensures
        count_opens(a.push(e)) == count_opens(a) + if e is BlockOpen { 1int } else { 0int },
        count_closes(a.push(e)) == count_closes(a) + if e is BlockClose { 1int } else { 0int },
{
    assert(a.push(e).drop_last() =~= a);
    assert(a.push(e).last() == e);
}

proof fn lemma_pop_balance(m: LayoutModel, col: int)
    ensures
        pop_to_column(m, col) matches Ok(m2) ==> {
            &&& open_balance(m2.events) - open_balance(m.events) == m2.stack.len()
                - m.stack.len()
            &&& m2.stack.len() >= 1
            &&& m2.pending == m.pending
            &&& m2.last_line == m.last_line
        },
    decreases m.stack.len(),
{
    if m.stack.len() == 0 {
    } else if m.stack.last().0 == col {
        lemma_count_push(m.events, LayoutEvent::BlockClose);
    } else {
        let next = LayoutModel { stack: m.stack.drop_last(), ..model_close(m) };
        lemma_count_push(m.events, LayoutEvent::BlockClose);
        lemma_pop_balance(next, col);
    }
}

proof fn lemma_sep_balance(m: LayoutModel, sp: Span)
    requires
        m.stack.len() >= 1,
    ensures
        separator_phase(m, sp) matches Ok(m1) ==> {
            &&& open_balance(m1.events) - open_balance(m.events) == m1.stack.len()
                - m.stack.len()
            &&& m1.stack.len() >= 1
            &&& m1.pending == m.pending
        },
{
    if m.last_line != unset_line() && sp.end_line > m.last_line {
        let m1 = LayoutModel { last_line: sp.end_line as int, ..m };
        let top = m.stack.last();
        if sp.start_col == top.0 {
            if !(top.1 is TopLevel) {
                lemma_count_push(m1.events, LayoutEvent::Separator {
                    text: separator_text(top.1),
                    kind: top.1,
                });
            }
        } else if sp.start_col < top.0 {
            lemma_pop_balance(m1, sp.start_col as int);
            match pop_to_column(m1, sp.start_col as int) {
                Ok(m2) => {
                    let new_top = m2.stack.last();
                    if !(new_top.1 is TopLevel) {
                        lemma_count_push(m2.events, LayoutEvent::Separator {
                            text: separator_text(new_top.1),
                            kind: new_top.1,
                        });
                    }
                }
                Err(()) => {}
            }
        }
    }
}

proof fn lemma_flush_balance(m: LayoutModel, n: int)
    ensures
        open_balance(flush_blocks(m, n).events) - open_balance(m.events) == if n >= 0 {
            -n
        } else {
            0int
        },
        flush_blocks(m, n).stack == m.stack,
    decreases n,
{
    if n > 0 {
        lemma_count_push(m.events, LayoutEvent::BlockClose);
        lemma_flush_balance(model_close(m), n - 1);
    }
}

proof fn lemma_run_balance(m: LayoutModel, tts: Seq<TokenTree>, i: int)
    requires
        m.stack.len() >= 1,
    ensures
        run_layout(m, tts, i) matches Ok(m2) ==> open_balance(m2.events) - open_balance(m.events)
            == 1 - m.stack.len(),
    decreases tts, tts.len() - i, 1int,
{
    if i < 0 || i >= tts.len() {
        lemma_flush_balance(m, m.stack.len() - 1);
    } else {
        match separator_phase(m, tree_span(tts[i])) {
            Err(_) => {}
            Ok(m1) => {
                lemma_sep_balance(m, tree_span(tts[i]));
                lemma_dispatch_balance(m1, tts, i);
            }
        }
    }
}

proof fn lemma_dispatch_balance(m: LayoutModel, tts: Seq<TokenTree>, i: int)
    requires
        m.stack.len() >= 1,
        0 <= i < tts.len(),
    ensures
        run_dispatch(m, tts, i) matches Ok(m2) ==> open_balance(m2.events) - open_balance(
            m.events) == 1 - m.stack.len(),
    decreases tts, tts.len() - i, 0int,
{
    {
        match tts[i] {
            TokenTree::TtToken(span, tok) => {
                if tok is FatArrow {
                    let m1 = model_token(m, "=>"@, span);
                    lemma_count_push(m.events, LayoutEvent::Emitted { text: "=>"@ });
                    let m2 = model_open(m1);
                    lemma_count_push(m1.events, LayoutEvent::BlockOpen);
                    if i + 1 < tts.len() {
                        let next_sp = tree_span(tts[i + 1]);
                        let m3 = LayoutModel {
                            stack: m2.stack.push((next_sp.start_col as int, m2.pending)),
                            pending: BlockKind::Plain,
                            last_line: next_sp.end_line as int,
                            ..m2
                        };
                        lemma_run_balance(m3, tts, i + 1);
                    } else {
                        lemma_count_push(m2.events, LayoutEvent::BlockClose);
                        lemma_run_balance(model_close(m2), tts, i + 1);
                    }
                } else {
                    let m1 = match keyword_kind(tok) {
                        Some(k) => LayoutModel { pending: k, ..m },
                        None => m,
                    };
                    lemma_count_push(m1.events, LayoutEvent::Emitted { text: token_text(tok) });
                    lemma_run_balance(model_token(m1, token_text(tok), span), tts, i + 1);
                }
            }
            TokenTree::TtDelimited(_, delimed) => {
                let m1 = model_token(m, open_delim_text(delimed.delim), delimed.open_span);
                lemma_count_push(m.events, LayoutEvent::Emitted {
                    text: open_delim_text(delimed.delim),
                });
                lemma_run_balance(initial_model(m1.em), delimed.tts@, 0);
                match run_layout(initial_model(m1.em), delimed.tts@, 0) {
                    Err(_) => {}
                    Ok(subm) => {
                        lemma_count_concat(m1.events, subm.events);
                        let m2 = LayoutModel {
                            stack: m.stack,
                            pending: m.pending,
                            last_line: m.last_line,
                            em: subm.em,
                            events: m1.events + subm.events,
                        };
                        lemma_count_push(m2.events, LayoutEvent::Emitted {
                            text: close_delim_text(delimed.delim),
                        });
                        lemma_run_balance(model_token(m2, close_delim_text(delimed.delim),
                            delimed.close_span), tts, i + 1);
                    }
                }
            }
            TokenTree::TtSequence(_, _) => {}
        }
    }
}

/// Balanced delimiters: over any input on which a fresh layout pass
/// succeeds, the number of synthesized block-open markers it appended
/// equals the number of synthesized block-close markers.
pub proof fn lemma_balanced_delimiters(em: EmitterModel, tts: Seq<TokenTree>)
    ensures
        run_layout(initial_model(em), tts, 0) matches Ok(m2) ==> count_opens(m2.events)
            == count_closes(m2.events),
{
    lemma_run_balance(initial_model(em), tts, 0);
}

/// Every synthesized separator in the log is the one its block kind calls
/// for, and none was emitted for the sentinel level.
pub open spec fn separators_well_kinded(evs: Seq<LayoutEvent>) -> bool {
    forall|j: int| 0 <= j < evs.len() ==> (#[trigger] evs[j] matches LayoutEvent::Separator {
        text, kind } ==> text == separator_text(kind) && !(kind is TopLevel))
}

proof fn lemma_well_kinded_push(evs: Seq<LayoutEvent>, e: LayoutEvent)
    requires
        separators_well_kinded(evs),
        e matches LayoutEvent::Separator { text, kind } ==> text == separator_text(kind) && !(
        kind is TopLevel),
    ensures
        separators_well_kinded(evs.push(e)),
{
    assert forall|j: int| 0 <= j < evs.push(e).len() implies (#[trigger] evs.push(e)[j] matches
        LayoutEvent::Separator { text, kind } ==> text == separator_text(kind) && !(
    kind is TopLevel)) by {
        if j < evs.len() {
            assert(evs.push(e)[j] == evs[j]);
        } else {
            assert(evs.push(e)[j] == e);
        }
    }
}

proof fn lemma_well_kinded_concat(a: Seq<LayoutEvent>, b: Seq<LayoutEvent>)
    requires
        separators_well_kinded(a),
        separators_well_kinded(b),
    ensures
        separators_well_kinded(a + b),
{
    assert forall|j: int| 0 <= j < (a + b).len() implies (#[trigger] (a + b)[j] matches
        LayoutEvent::Separator { text, kind } ==> text == separator_text(kind) && !(
    kind is TopLevel)) by {
        if j < a.len() {
            assert((a + b)[j] == a[j]);
        } else {
            assert((a + b)[j] == b[j - a.len()]);
        }
    }
}

proof fn lemma_pop_kinded(m: LayoutModel, col: int)
    requires
        separators_well_kinded(m.events),
    ensures
        pop_to_column(m, col) matches Ok(m2) ==> separators_well_kinded(m2.events),
    decreases m.stack.len(),
{
    if m.stack.len() == 0 {
    } else if m.stack.last().0 == col {
    } else {
        lemma_well_kinded_push(m.events, LayoutEvent::BlockClose);
        lemma_pop_kinded(LayoutModel { stack: m.stack.drop_last(), ..model_close(m) }, col);
    }
}

proof fn lemma_sep_kinded(m: LayoutModel, sp: Span)
    requires
        separators_well_kinded(m.events),
    ensures
        separator_phase(m, sp) matches Ok(m1) ==> separators_well_kinded(m1.events),
{
    if m.last_line != unset_line() && sp.end_line > m.last_line {
        let m1 = LayoutModel { last_line: sp.end_line as int, ..m };
        let top = m.stack.last();
        if sp.start_col == top.0 {
            if !(top.1 is TopLevel) {
                lemma_well_kinded_push(m1.events, LayoutEvent::Separator {
                    text: separator_text(top.1),
                    kind: top.1,
                });
            }
        } else if sp.start_col < top.0 {
            lemma_pop_kinded(m1, sp.start_col as int);
            match pop_to_column(m1, sp.start_col as int) {
                Ok(m2) => {
                    let new_top = m2.stack.last();
                    if !(new_top.1 is TopLevel) {
                        lemma_well_kinded_push(m2.events, LayoutEvent::Separator {
                            text: separator_text(new_top.1),
                            kind: new_top.1,
                        });
                    }
                }
                Err(()) => {}
            }
        }
    }
}

proof fn lemma_flush_kinded(m: LayoutModel, n: int)
    requires
        separators_well_kinded(m.events),
    ensures
        separators_well_kinded(flush_blocks(m, n).events),
    decreases n,
{
    if n > 0 {
        lemma_well_kinded_push(m.events, LayoutEvent::BlockClose);
        lemma_flush_kinded(model_close(m), n - 1);
    }
}

proof fn lemma_run_kinded(m: LayoutModel, tts: Seq<TokenTree>, i: int)
    requires
        separators_well_kinded(m.events),
    ensures
        run_layout(m, tts, i) matches Ok(m2) ==> separators_well_kinded(m2.events),
    decreases tts, tts.len() - i, 1int,
{
    if i < 0 || i >= tts.len() {
        lemma_flush_kinded(m, m.stack.len() - 1);
    } else {
        lemma_sep_kinded(m, tree_span(tts[i]));
        match separator_phase(m, tree_span(tts[i])) {
            Err(_) => {}
            Ok(m1) => {
                lemma_dispatch_kinded(m1, tts, i);
            }
        }
    }
}

proof fn lemma_dispatch_kinded(m: LayoutModel, tts: Seq<TokenTree>, i: int)
    requires
        separators_well_kinded(m.events),
        0 <= i < tts.len(),
    ensures
        run_dispatch(m, tts, i) matches Ok(m2) ==> separators_well_kinded(m2.events),
    decreases tts, tts.len() - i, 0int,
{
    match tts[i] {
        TokenTree::TtToken(span, tok) => {
            if tok is FatArrow {
                let m1 = model_token(m, "=>"@, span);
                lemma_well_kinded_push(m.events, LayoutEvent::Emitted { text: "=>"@ });
                let m2 = model_open(m1);
                lemma_well_kinded_push(m1.events, LayoutEvent::BlockOpen);
                if i + 1 < tts.len() {
                    let next_sp = tree_span(tts[i + 1]);
                    let m3 = LayoutModel {
                        stack: m2.stack.push((next_sp.start_col as int, m2.pending)),
                        pending: BlockKind::Plain,
                        last_line: next_sp.end_line as int,
                        ..m2
                    };
                    lemma_run_kinded(m3, tts, i + 1);
                } else {
                    lemma_well_kinded_push(m2.events, LayoutEvent::BlockClose);
                    lemma_run_kinded(model_close(m2), tts, i + 1);
                }
            } else {
                let m1 = match keyword_kind(tok) {
                    Some(k) => LayoutModel { pending: k, ..m },
                    None => m,
                };
                lemma_well_kinded_push(m1.events, LayoutEvent::Emitted {
                    text: token_text(tok),
                });
                lemma_run_kinded(model_token(m1, token_text(tok), span), tts, i + 1);
            }
        }
        TokenTree::TtDelimited(_, delimed) => {
            let m1 = model_token(m, open_delim_text(delimed.delim), delimed.open_span);
            lemma_well_kinded_push(m.events, LayoutEvent::Emitted {
                text: open_delim_text(delimed.delim),
            });
            assert(separators_well_kinded(Seq::<LayoutEvent>::empty()));
            lemma_run_kinded(initial_model(m1.em), delimed.tts@, 0);
            match run_layout(initial_model(m1.em), delimed.tts@, 0) {
                Err(_) => {}
                Ok(subm) => {
                    lemma_well_kinded_concat(m1.events, subm.events);
                    let m2 = LayoutModel {
                        stack: m.stack,
                        pending: m.pending,
                        last_line: m.last_line,
                        em: subm.em,
                        events: m1.events + subm.events,
                    };
                    lemma_well_kinded_push(m2.events, LayoutEvent::Emitted {
                        text: close_delim_text(delimed.delim),
                    });
                    lemma_run_kinded(model_token(m2, close_delim_text(delimed.delim),
                        delimed.close_span), tts, i + 1);
                }
            }
        }
        TokenTree::TtSequence(_, _) => {}
    }
}

/// Separator kind consistency: every separator a successful fresh pass
/// synthesizes is the one called for by the kind of the indentation level
/// that was on top of the stack at that moment, and the sentinel level
/// never receives one. A level's kind is fixed when it is pushed, so all
/// separators emitted during the lifetime of one level are the same kind.
pub proof fn lemma_separator_kind_consistency(em: EmitterModel, tts: Seq<TokenTree>)
    ensures
        run_layout(initial_model(em), tts, 0) matches Ok(m2) ==> separators_well_kinded(
            m2.events),
{
    assert(separators_well_kinded(Seq::<LayoutEvent>::empty()));
    lemma_run_kinded(initial_model(em), tts, 0);
}

/// A tree that gives the layout engine nothing to synthesize for: no
/// block-open marker and no repetition construct, at any depth.
pub open spec fn plain_tree(tt: TokenTree) -> bool
    decreases tt,
{
    match tt {
        TokenTree::TtToken(_, tok) => !(tok is FatArrow),
        TokenTree::TtDelimited(_, delimed) => plain_suffix(delimed.tts@, 0),
        TokenTree::TtSequence(_, _) => false,
    }
}

/// All the trees from index `i` on are plain.
pub open spec fn plain_suffix(tts: Seq<TokenTree>, i: int) -> bool
    decreases tts,
{
    forall|j: int| 0 <= j < tts.len() && i <= j ==> plain_tree(#[trigger] tts[j])
}

/// A log that holds only re-emitted tokens: nothing was synthesized.
pub open spec fn only_emitted(evs: Seq<LayoutEvent>) -> bool {
    forall|j: int| 0 <= j < evs.len() ==> (#[trigger] evs[j]) is Emitted
}

proof fn lemma_only_emitted_push(evs: Seq<LayoutEvent>, e: LayoutEvent)
    requires
        only_emitted(evs),
        e is Emitted,
    ensures
        only_emitted(evs.push(e)),
{
    assert forall|j: int| 0 <= j < evs.push(e).len() implies (#[trigger] evs.push(
        e)[j]) is Emitted by {
        if j < evs.len() {
            assert(evs.push(e)[j] == evs[j]);
        } else {
            assert(evs.push(e)[j] == e);
        }
    }
}

proof fn lemma_only_emitted_concat(a: Seq<LayoutEvent>, b: Seq<LayoutEvent>)
    requires
        only_emitted(a),
        only_emitted(b),
    ensures
        only_emitted(a + b),
{
    assert forall|j: int| 0 <= j < (a + b).len() implies (#[trigger] (a + b)[j]) is Emitted by {
        if j < a.len() {
            assert((a + b)[j] == a[j]);
        } else {
            assert((a + b)[j] == b[j - a.len()]);
        }
    }
}

proof fn lemma_run_plain(m: LayoutModel, tts: Seq<TokenTree>, i: int)
    requires
        m.stack =~= seq![(0int, BlockKind::TopLevel)],
        only_emitted(m.events),
        plain_suffix(tts, i),
    ensures
        run_layout(m, tts, i) matches Ok(m2) && m2.stack == m.stack && only_emitted(m2.events),
    decreases tts, tts.len() - i, 1int,
{
    if i < 0 || i >= tts.len() {
        assert(flush_blocks(m, 0) == m);
    } else {
        let sp = tree_span(tts[i]);
        // A flat pass never separates or closes: the sentinel column is 0,
        // no token sits left of column 0, and the sentinel kind separates
        // nothing.
        match separator_phase(m, sp) {
            Err(_) => {
                assert(false);
            }
            Ok(m1) => {
                assert(m1.stack == m.stack);
                assert(m1.events == m.events);
                lemma_dispatch_plain(m1, tts, i);
            }
        }
    }
}

proof fn lemma_dispatch_plain(m: LayoutModel, tts: Seq<TokenTree>, i: int)
    requires
        m.stack =~= seq![(0int, BlockKind::TopLevel)],
        only_emitted(m.events),
        plain_suffix(tts, i),
        0 <= i < tts.len(),
    ensures
        run_dispatch(m, tts, i) matches Ok(m2) && m2.stack == m.stack && only_emitted(m2.events),
    decreases tts, tts.len() - i, 0int,
{
    assert(plain_tree(tts[i]));
    match tts[i] {
        TokenTree::TtToken(span, tok) => {
            let m1 = match keyword_kind(tok) {
                Some(k) => LayoutModel { pending: k, ..m },
                None => m,
            };
            lemma_only_emitted_push(m1.events, LayoutEvent::Emitted { text: token_text(tok) });
            lemma_run_plain(model_token(m1, token_text(tok), span), tts, i + 1);
        }
        TokenTree::TtDelimited(_, delimed) => {
            let m1 = model_token(m, open_delim_text(delimed.delim), delimed.open_span);
            lemma_only_emitted_push(m.events, LayoutEvent::Emitted {
                text: open_delim_text(delimed.delim),
            });
            assert(only_emitted(Seq::<LayoutEvent>::empty()));
            lemma_run_plain(initial_model(m1.em), delimed.tts@, 0);
            match run_layout(initial_model(m1.em), delimed.tts@, 0) {
                Err(_) => {
                    assert(false);
                }
                Ok(subm) => {
                    lemma_only_emitted_concat(m1.events, subm.events);
                    let m2 = LayoutModel {
                        stack: m.stack,
                        pending: m.pending,
                        last_line: m.last_line,
                        em: subm.em,
                        events: m1.events + subm.events,
                    };
                    lemma_only_emitted_push(m2.events, LayoutEvent::Emitted {
                        text: close_delim_text(delimed.delim),
                    });
                    lemma_run_plain(model_token(m2, close_delim_text(delimed.delim),
                        delimed.close_span), tts, i + 1);
                }
            }
        }
        TokenTree::TtSequence(_, _) => {
            assert(false);
        }
    }
}

/// Idempotence on already-punctuated input: a stream that holds no
/// block-open marker (and no repetition construct) gives the engine nothing
/// to do beyond re-emitting the tokens at their positions. The pass
/// succeeds and its log holds re-emitted tokens only: no separator and no
/// block delimiter is synthesized, whatever the tokens' columns are.
pub proof fn lemma_plain_stream_idempotent(em: EmitterModel, tts: Seq<TokenTree>)
    requires
        plain_suffix(tts, 0),
    ensures
        run_layout(initial_model(em), tts, 0) matches Ok(m2) && only_emitted(m2.events),
{
    assert(only_emitted(Seq::<LayoutEvent>::empty()));
    assert(initial_model(em).stack =~= seq![(0int, BlockKind::TopLevel)]);
    lemma_run_plain(initial_model(em), tts, 0);
}

/// Whether some open level sits exactly at `col`.
pub open spec fn stack_has_column(stack: Seq<(int, BlockKind)>, col: int) -> bool {
    exists|j: int| 0 <= j < stack.len() && (#[trigger] stack[j]).0 == col
}

proof fn lemma_pop_missing_column(m: LayoutModel, col: int)
    requires
        !stack_has_column(m.stack, col),
    ensures
        pop_to_column(m, col) is Err,
    decreases m.stack.len(),
{
    if m.stack.len() == 0 {
    } else {
        assert(m.stack.last().0 != col) by {
            assert(m.stack[m.stack.len() - 1] == m.stack.last());
        }
        let next = LayoutModel { stack: m.stack.drop_last(), ..model_close(m) };
        assert(!stack_has_column(next.stack, col)) by {
            assert forall|j: int| 0 <= j < next.stack.len() implies (#[trigger] next.stack[
                j]).0 != col by {
                assert(next.stack[j] == m.stack[j]);
            }
        }
        lemma_pop_missing_column(next, col);
    }
}

proof fn lemma_pop_lands_exactly(m: LayoutModel, col: int)
    ensures
        pop_to_column(m, col) matches Ok(m2) ==> m2.stack.len() >= 1 && m2.stack.last().0 == col,
    decreases m.stack.len(),
{
    if m.stack.len() == 0 {
    } else if m.stack.last().0 == col {
    } else {
        lemma_pop_lands_exactly(LayoutModel { stack: m.stack.drop_last(), ..model_close(m) },
            col);
    }
}

/// A dedent to a column that no open level has is fatal: the engine
/// reports the indentation mismatch at the offending position rather than
/// closing to some nearby level. And when a dedent does succeed, it lands
/// exactly on a level at that column, never on a "closest match".
pub proof fn lemma_dedent_to_unknown_column_is_fatal(m: LayoutModel, sp: Span)
    requires
        m.stack.len() >= 1,
        m.last_line != unset_line(),
        sp.end_line > m.last_line,
        (sp.start_col as int) < m.stack.last().0,
        !stack_has_column(m.stack, sp.start_col as int),
    ensures
        separator_phase(m, sp) == Err::<LayoutModel, LayoutError>(LayoutError::IndentMismatch {
            line: sp.start_line,
            col: sp.start_col,
        }),
{
    let m1 = LayoutModel { last_line: sp.end_line as int, ..m };
    lemma_pop_missing_column(m1, sp.start_col as int);
}

} // verus!
