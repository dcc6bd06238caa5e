//! Unit tests for the syntax-tree types and the token rendering.

use slag::ast::{Delimited, DelimToken, DefId, FloatTy,
    FunctionRetTy, Ident, IdentStyle, IntTy, Item_, LitIntType, Name, PathParameters, Sign,
    StructFieldKind, Token, TokenLit, TokenTree, UintTy, Visibility, LOCAL_CRATE};
use slag::codemap::{dummy_span, respan, Span};
use slag::print::{binop_to_string, token_to_string};
use slag::ptr::P;
use slag::token::{invalid_ident, str_to_ident};
use slag::util::small_vector::SmallVector;

fn sp(start_line: usize, start_col: usize, end_line: usize, end_col: usize) -> Span {
    Span { start_line, start_col, end_line, end_col }
}

#[test]
fn suffix_lengths() {
    assert_eq!(IntTy::TyIs.suffix_len(), 2);
    assert_eq!(IntTy::TyI8.suffix_len(), 2);
    assert_eq!(IntTy::TyI64.suffix_len(), 3);
    assert_eq!(UintTy::TyU8.suffix_len(), 2);
    assert_eq!(UintTy::TyU32.suffix_len(), 3);
    assert_eq!(FloatTy::TyF32.suffix_len(), 3);
    assert_eq!(LitIntType::UnsuffixedIntLit(Sign::Plus).suffix_len(), 0);
    assert_eq!(LitIntType::SignedIntLit(IntTy::TyI16, Sign::Minus).suffix_len(), 3);
    assert_eq!(LitIntType::UnsignedIntLit(UintTy::TyUs).suffix_len(), 2);
}

#[test]
fn signs_of_integers() {
    assert_eq!(Sign::new(-3i32), Sign::Minus);
    assert_eq!(Sign::new(0i32), Sign::Plus);
    assert_eq!(Sign::new(7u64), Sign::Plus);
    assert_eq!(Sign::new(-1i8), Sign::Minus);
    assert_eq!(Sign::new(5usize), Sign::Plus);
}

#[test]
fn descriptive_variants() {
    assert_eq!(Item_::ItemExternCrate(None).descriptive_variant(), "extern crate");
    let module = Item_::ItemMod(slag::ast::Mod { inner: dummy_span(), items: vec![] });
    assert_eq!(module.descriptive_variant(), "module");
}

#[test]
fn visibility_inheritance() {
    assert_eq!(Visibility::Public.inherit_from(Visibility::Inherited), Visibility::Public);
    assert_eq!(Visibility::Inherited.inherit_from(Visibility::Public), Visibility::Public);
    assert_eq!(Visibility::Inherited.inherit_from(Visibility::Inherited),
        Visibility::Inherited);
}

#[test]
fn local_def_id() {
    let id = DefId { krate: LOCAL_CRATE, node: 17 };
    assert_eq!(id.local_id(), 17);
}

#[test]
fn empty_path_parameters() {
    let none = PathParameters::none();
    assert!(none.is_empty());
    assert!(!none.has_lifetimes());
    assert!(!none.has_types());
    assert_eq!(none.types().len(), 0);
    assert_eq!(none.lifetimes().len(), 0);
    assert_eq!(none.bindings().len(), 0);
}

#[test]
fn delimiters_as_tokens() {
    let d = Delimited {
        delim: DelimToken::Bracket,
        open_span: sp(0, 0, 0, 1),
        tts: vec![],
        close_span: sp(0, 5, 0, 6),
    };
    assert!(matches!(d.open_token(), Token::OpenDelim(DelimToken::Bracket)));
    assert!(matches!(d.close_token(), Token::CloseDelim(DelimToken::Bracket)));
    match d.open_tt() {
        TokenTree::TtToken(span, Token::OpenDelim(DelimToken::Bracket)) => {
            assert_eq!(span, sp(0, 0, 0, 1));
        }
        _ => panic!("expected the opening bracket"),
    }
}

#[test]
fn token_tree_expansion_steps() {
    let d = Delimited {
        delim: DelimToken::Paren,
        open_span: sp(0, 0, 0, 1),
        tts: vec![TokenTree::TtToken(sp(0, 1, 0, 2), Token::Comma)],
        close_span: sp(0, 2, 0, 3),
    };
    let tree = TokenTree::TtDelimited(sp(0, 0, 0, 3), P(d));
    assert_eq!(tree.len(), 3);
    match tree.get_tt(1) {
        TokenTree::TtToken(_, Token::Comma) => {}
        _ => panic!("expected the inner comma"),
    }
    let doc = TokenTree::TtToken(sp(1, 0, 1, 8), Token::DocComment(Name("doc text".to_string())));
    assert_eq!(doc.len(), 2);
    match doc.get_tt(0) {
        TokenTree::TtToken(_, Token::Pound) => {}
        _ => panic!("a doc comment expands to an attribute"),
    }
}

#[test]
fn token_spellings() {
    assert_eq!(token_to_string(&Token::FatArrow), "=>");
    assert_eq!(token_to_string(&Token::ModSep), "::");
    assert_eq!(token_to_string(&Token::OpenDelim(DelimToken::Brace)), "{");
    assert_eq!(binop_to_string(&slag::ast::BinOpToken::Shl), "<<");
    assert_eq!(token_to_string(&Token::Ident(str_to_ident("hello"), IdentStyle::Plain)),
        "hello");
    assert_eq!(token_to_string(&Token::Literal(TokenLit::Integer(Name("42".to_string())),
        Some(Name("u8".to_string())))), "42u8");
    assert_eq!(token_to_string(&Token::Literal(TokenLit::StrRaw(Name("abc".to_string()), 2),
        None)), "r##\"abc\"##");
    assert_eq!(token_to_string(&Token::SubstNt(str_to_ident("x"), IdentStyle::Plain)), "$x");
    assert_eq!(token_to_string(&Token::MatchNt(str_to_ident("e"), str_to_ident("expr"),
        IdentStyle::Plain, IdentStyle::Plain)), "$e:expr");
}

#[test]
fn names_and_idents() {
    let n = Name("thing".to_string());
    let id = n.ident();
    assert_eq!(id.name.0, "thing");
    assert_eq!(id.ctxt, 0);
    let made = Ident::new(Name("other".to_string()));
    assert_eq!(made.name.0, "other");
    assert_eq!(invalid_ident().name.0, "");
    assert_eq!(str_to_ident("kw").name.0, "kw");
}

#[test]
fn respanning() {
    let s = sp(1, 2, 3, 4);
    let v = respan(s, 9u32);
    assert_eq!(v.span, s);
    assert_eq!(v.node, 9);
}

#[test]
fn struct_field_names() {
    let named = StructFieldKind::NamedField(str_to_ident("f"), Visibility::Public);
    assert!(!named.is_unnamed());
    let unnamed = StructFieldKind::UnnamedField(Visibility::Inherited);
    assert!(unnamed.is_unnamed());
}

#[test]
fn return_type_spans() {
    let s = sp(4, 0, 4, 2);
    assert_eq!(FunctionRetTy::DefaultReturn(s).span(), s);
    assert_eq!(FunctionRetTy::NoReturn(s).span(), s);
}

#[test]
fn small_vectors() {
    let one: SmallVector<u32> = SmallVector::one(5);
    assert_eq!(one.len(), 1);
    assert_eq!(one.expect_one(), 5);
    let many: SmallVector<u32> = SmallVector::many(vec![1, 2, 3]);
    assert_eq!(many.into_vec(), vec![1, 2, 3]);
    let mut grown: SmallVector<u32> = SmallVector::zero();
    grown.push(9);
    assert_eq!(grown.len(), 1);
}
