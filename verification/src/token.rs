//! Lexical tokens.
//!
//! The kinds of leaf tokens a tokenized source can contain live beside the
//! syntax tree they can carry; this module gathers them under the name the
//! parsing layer uses for them.

pub use crate::ast::TokenLit as Lit;
pub use crate::ast::{BinOpToken, DelimToken, IdentStyle, InternedString, Nonterminal,
    SpecialMacroVar, Token, invalid_ident, str_to_ident};
