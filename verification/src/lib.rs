//! Layout-to-punctuation synthesizer for an indentation-delimited surface
//! syntax, together with the token-tree data model it operates on.
//!
//! The heart of the crate is [`layout`], which walks a token stream once and
//! inserts the statement terminators, list separators and block delimiters
//! that an off-side-rule source omits, guided only by column geometry and a
//! small set of block-introducing keywords. The surrounding modules model the
//! token stream itself ([`ast`], [`token`], [`codemap`]) and provide the
//! generic rewriting ([`fold`]) and traversal ([`visit`]) machinery over it.

pub mod abi;
pub mod ast;
pub mod codemap;
pub mod fold;
pub mod layout;
pub mod owned_slice;
pub mod parse;
pub mod print;
pub mod ptr;
pub mod token;
pub mod util;
pub mod visit;
