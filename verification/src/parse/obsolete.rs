//! Support for recognizing unsupported, old syntaxes, for the purpose of
//! reporting errors about them. Obsolete syntax that becomes too hard to
//! recognize can be removed.

use vstd::prelude::*;

use crate::ast::Expr;
use crate::codemap::Span;
use crate::ptr::P;

verus! {

/// The specific types of unsupported syntax.
#[derive(Clone, Copy, PartialEq, Eq, Structural, Debug, Hash)]
pub enum ObsoleteSyntax {
    ClosureKind,
    ExternCrateString,
}

/// What a parser must offer to report obsolete syntax: each method reports
/// a non-fatal error against the parser's own diagnostics, and the
/// expression variant hands back a placeholder expression so that parsing
/// can continue.
pub trait ParserObsoleteMethods {
    /// Report an obsolete syntax non-fatal error.
    fn obsolete(&mut self, sp: Span, kind: ObsoleteSyntax);

    /// Report an obsolete syntax non-fatal error, and return a placeholder
    /// expression.
    fn obsolete_expr(&mut self, sp: Span, kind: ObsoleteSyntax) -> P<Expr>;

    fn report(&mut self, sp: Span, kind: ObsoleteSyntax, kind_str: &str, desc: &str, error: bool);

    fn is_obsolete_ident(&mut self, ident: &str) -> bool;

    fn eat_obsolete_ident(&mut self, ident: &str) -> bool;
}

} // verus!
