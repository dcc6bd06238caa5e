//! Token rendering.
//!
//! Every leaf token has a canonical spelling; the layout engine re-emits
//! tokens through this rendering and the specification function
//! [`token_text`] says, character for character, what that spelling is.

use vstd::prelude::*;

use crate::ast::{BinOpToken, DelimToken, Token, TokenLit};

verus! {

/// `n` copies of the character `c`.
pub open spec fn repeat_char(c: char, n: int) -> Seq<char> {
    if n <= 0 {
        Seq::<char>::empty()
    } else {
        Seq::<char>::new(n as nat, |i: int| c)
    }
}

/// The canonical spelling of a binary-operator token.
pub open spec fn binop_text(op: BinOpToken) -> Seq<char> {
    match op {
        BinOpToken::Plus => "+"@,
        BinOpToken::Minus => "-"@,
        BinOpToken::Star => "*"@,
        BinOpToken::Slash => "/"@,
        BinOpToken::Percent => "%"@,
        BinOpToken::Caret => "^"@,
        BinOpToken::And => "&"@,
        BinOpToken::Or => "|"@,
        BinOpToken::Shl => "<<"@,
        BinOpToken::Shr => ">>"@,
    }
}

/// The canonical spelling of an opening delimiter.
pub open spec fn open_delim_text(d: DelimToken) -> Seq<char> {
    match d {
        DelimToken::Paren => "("@,
        DelimToken::Bracket => "["@,
        DelimToken::Brace => "{"@,
    }
}

/// The canonical spelling of a closing delimiter.
pub open spec fn close_delim_text(d: DelimToken) -> Seq<char> {
    match d {
        DelimToken::Paren => ")"@,
        DelimToken::Bracket => "]"@,
        DelimToken::Brace => "}"@,
    }
}

/// The spelling of a literal token's body.
pub open spec fn lit_text(lit: TokenLit) -> Seq<char> {
    match lit {
        TokenLit::Byte(b) => "b'"@ + b.0@ + "'"@,
        TokenLit::Char(c) => "'"@ + c.0@ + "'"@,
        TokenLit::Integer(c) => c.0@,
        TokenLit::Float(c) => c.0@,
        TokenLit::Str_(s) => "\""@ + s.0@ + "\""@,
        TokenLit::StrRaw(s, n) => "r"@ + repeat_char('#', n as int) + "\""@ + s.0@ + "\""@
            + repeat_char('#', n as int),
        TokenLit::Binary(v) => "b\""@ + v.0@ + "\""@,
        TokenLit::BinaryRaw(s, n) => "br"@ + repeat_char('#', n as int) + "\""@ + s.0@ + "\""@
            + repeat_char('#', n as int),
    }
}

/// The canonical spelling of a token, exactly as [`token_to_string`]
/// renders it.
pub open spec fn token_text(tok: Token) -> Seq<char> {
    match tok {
        Token::Eq => "="@,
        Token::Lt => "<"@,
        Token::Le => "<="@,
        Token::EqEq => "=="@,
        Token::Ne => "!="@,
        Token::Ge => ">="@,
        Token::Gt => ">"@,
        Token::Not => "!"@,
        Token::Tilde => "~"@,
        Token::OrOr => "||"@,
        Token::AndAnd => "&&"@,
        Token::BinOp(op) => binop_text(op),
        Token::BinOpEq(op) => binop_text(op) + "="@,
        Token::At => "@"@,
        Token::Dot => "."@,
        Token::DotDot => ".."@,
        Token::DotDotDot => "..."@,
        Token::Comma => ","@,
        Token::Semi => ";"@,
        Token::Colon => ":"@,
        Token::ModSep => "::"@,
        Token::RArrow => "->"@,
        Token::LArrow => "<-"@,
        Token::FatArrow => "=>"@,
        Token::Pound => "#"@,
        Token::Dollar => "$"@,
        Token::Question => "?"@,
        Token::OpenDelim(d) => open_delim_text(d),
        Token::CloseDelim(d) => close_delim_text(d),
        Token::Literal(lit, suffix) => lit_text(lit) + (match suffix {
            Some(s) => s.0@,
            None => Seq::<char>::empty(),
        }),
        Token::Ident(id, _) => id.name.0@,
        Token::Underscore => "_"@,
        Token::Lifetime(id) => id.name.0@,
        Token::Interpolated(_) => "<interpolated>"@,
        Token::DocComment(s) => s.0@,
        Token::MatchNt(name, kind, _, _) => "$"@ + name.name.0@ + ":"@ + kind.name.0@,
        Token::SubstNt(s, _) => "$"@ + s.name.0@,
        Token::SpecialVarNt(_) => "$crate"@,
        Token::Whitespace => " "@,
        Token::Comment => "/* */"@,
        Token::Shebang(s) => "/* shebang: "@ + s.0@ + "*/"@,
        Token::Eof => "<eof>"@,
    }
}

/// `n` `#` characters, as used by raw string literals.
fn hashes(n: usize) -> (r: String)
    ensures
        r@ == repeat_char('#', n as int),
{
    let mut out = String::new();
    let mut k: usize = 0;
    while k < n
        invariant
            k <= n,
            out@ == repeat_char('#', k as int),
        decreases n - k,
    {
        out.append("#");
        proof {
            reveal_strlit("#");
            assert(out@ =~= repeat_char('#', k as int + 1));
        }
        k = k + 1;
    }
    out
}

/// Render a token as the text the layout engine writes for it.
pub fn token_to_string(tok: &Token) -> (r: String)
    ensures
        r@ == token_text(*tok),
{
    match tok {
        Token::Eq => "=".to_owned(),
        Token::Lt => "<".to_owned(),
        Token::Le => "<=".to_owned(),
        Token::EqEq => "==".to_owned(),
        Token::Ne => "!=".to_owned(),
        Token::Ge => ">=".to_owned(),
        Token::Gt => ">".to_owned(),
        Token::Not => "!".to_owned(),
        Token::Tilde => "~".to_owned(),
        Token::OrOr => "||".to_owned(),
        Token::AndAnd => "&&".to_owned(),
        Token::BinOp(op) => binop_to_string(op).to_owned(),
        Token::BinOpEq(op) => binop_to_string(op).to_owned().concat("="),
        Token::At => "@".to_owned(),
        Token::Dot => ".".to_owned(),
        Token::DotDot => "..".to_owned(),
        Token::DotDotDot => "...".to_owned(),
        Token::Comma => ",".to_owned(),
        Token::Semi => ";".to_owned(),
        Token::Colon => ":".to_owned(),
        Token::ModSep => "::".to_owned(),
        Token::RArrow => "->".to_owned(),
        Token::LArrow => "<-".to_owned(),
        Token::FatArrow => "=>".to_owned(),
        Token::Pound => "#".to_owned(),
        Token::Dollar => "$".to_owned(),
        Token::Question => "?".to_owned(),
        Token::OpenDelim(DelimToken::Paren) => "(".to_owned(),
        Token::OpenDelim(DelimToken::Bracket) => "[".to_owned(),
        Token::OpenDelim(DelimToken::Brace) => "{".to_owned(),
        Token::CloseDelim(DelimToken::Paren) => ")".to_owned(),
        Token::CloseDelim(DelimToken::Bracket) => "]".to_owned(),
        Token::CloseDelim(DelimToken::Brace) => "}".to_owned(),
        Token::Literal(lit, suffix) => {
            let body: String = match lit {
                TokenLit::Byte(b) => "b'".to_owned().concat(b.0.as_str()).concat("'"),
                TokenLit::Char(c) => "'".to_owned().concat(c.0.as_str()).concat("'"),
                TokenLit::Integer(c) => c.0.clone(),
                TokenLit::Float(c) => c.0.clone(),
                TokenLit::Str_(s) => "\"".to_owned().concat(s.0.as_str()).concat("\""),
                TokenLit::StrRaw(s, n) => "r".to_owned().concat(hashes(*n).as_str()).concat(
                    "\"").concat(s.0.as_str()).concat("\"").concat(hashes(*n).as_str()),
                TokenLit::Binary(v) => "b\"".to_owned().concat(v.0.as_str()).concat("\""),
                TokenLit::BinaryRaw(s, n) => "br".to_owned().concat(hashes(*n).as_str()).concat(
                    "\"").concat(s.0.as_str()).concat("\"").concat(hashes(*n).as_str()),
            };
            match suffix {
                Some(s) => body.concat(s.0.as_str()),
                None => body,
            }
        }
        Token::Ident(id, _) => id.name.0.clone(),
        Token::Underscore => "_".to_owned(),
        Token::Lifetime(id) => id.name.0.clone(),
        Token::Interpolated(_) => "<interpolated>".to_owned(),
        Token::DocComment(s) => s.0.clone(),
        Token::MatchNt(name, kind, _, _) => "$".to_owned().concat(name.name.0.as_str()).concat(
            ":").concat(kind.name.0.as_str()),
        Token::SubstNt(s, _) => "$".to_owned().concat(s.name.0.as_str()),
        Token::SpecialVarNt(_) => "$crate".to_owned(),
        Token::Whitespace => " ".to_owned(),
        Token::Comment => "/* */".to_owned(),
        Token::Shebang(s) => "/* shebang: ".to_owned().concat(s.0.as_str()).concat("*/"),
        Token::Eof => "<eof>".to_owned(),
    }
}

/// Render a binary-operator token.
pub fn binop_to_string(op: &BinOpToken) -> (r: &'static str)
    ensures
        r@ == binop_text(*op),
{
    match op {
        BinOpToken::Plus => "+",
        BinOpToken::Minus => "-",
        BinOpToken::Star => "*",
        BinOpToken::Slash => "/",
        BinOpToken::Percent => "%",
        BinOpToken::Caret => "^",
        BinOpToken::And => "&",
        BinOpToken::Or => "|",
        BinOpToken::Shl => "<<",
        BinOpToken::Shr => ">>",
    }
}

} // verus!
