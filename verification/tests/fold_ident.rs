//! Folding every identifier of a crate to a fixed name and printing the
//! result.

use slag::ast::{AngleBracketedParameterData, Arg, Arm, Attribute, Attribute_, AttrId, AttrStyle,
    BindingMode, Block, BlockCheckMode, Constness, Crate, Decl, Expr, Expr_, Field, FnDecl,
    ForeignItem, ForeignMod, FunctionRetTy, Generics, Ident, ImplItem, Item, Item_, Lifetime,
    LifetimeDef, Lit_, Local, Mac, Mac_, MetaItem, MetaItem_, Mod, MutTy, Mutability, NodeId,
    Nonterminal, ParenthesizedParameterData, Pat, Pat_, Path, PathParameters, PathSegment,
    PolyTraitRef, Stmt, Stmt_, StructDef, StructField, Token, TokenTree, TraitItem,
    TraitRef, Ty, TyParam, TyParamBound, Ty_, TypeBinding, Unsafety, Variant, VariantArg,
    ViewPath, WhereClause, WherePredicate, MacStmtStyle, Visibility, IdentStyle,
    DUMMY_NODE_ID};
use slag::abi::Abi;
use slag::codemap::{Span, Spanned};
use slag::fold::{self, Folder};
use slag::owned_slice::OwnedSlice;
use slag::print::token_to_string;
use slag::ptr::P;
use slag::token::str_to_ident;
use slag::ptr::PointerMap;
use slag::util::small_vector::SmallVector;
use slag::ast::{KleeneOp, SequenceRepetition};

fn sp(start_line: usize, start_col: usize, end_line: usize, end_col: usize) -> Span {
    Span { start_line, start_col, end_line, end_col }
}

fn dsp() -> Span {
    sp(0, 0, 0, 0)
}

fn ident(s: &str) -> Ident {
    str_to_ident(s)
}

fn path_of(s: &str) -> Path {
    Path {
        span: dsp(),
        global: false,
        segments: vec![PathSegment {
            identifier: ident(s),
            parameters: PathParameters::none(),
        }],
    }
}

fn ty_of(s: &str) -> P<Ty> {
    P(Ty { id: DUMMY_NODE_ID, node: Ty_::TyPath(None, path_of(s)), span: dsp() })
}

fn pat_ident(s: &str) -> P<Pat> {
    P(Pat {
        id: DUMMY_NODE_ID,
        node: Pat_::PatIdent(BindingMode::BindByValue(Mutability::MutImmutable), Spanned {
            span: dsp(),
            node: ident(s),
        }, None),
        span: dsp(),
    })
}

fn expr_path(s: &str) -> P<Expr> {
    P(Expr { id: DUMMY_NODE_ID, node: Expr_::ExprPath(None, path_of(s)), span: dsp() })
}

/// The crate that `#[a] mod b {fn c (d : e, f : g) {h!(i,j,k);l;m}}` parses
/// to.
fn sample_crate() -> Crate {
    let mac_tokens = vec![
        TokenTree::TtToken(dsp(), Token::Ident(ident("i"), IdentStyle::Plain)),
        TokenTree::TtToken(dsp(), Token::Comma),
        TokenTree::TtToken(dsp(), Token::Ident(ident("j"), IdentStyle::Plain)),
        TokenTree::TtToken(dsp(), Token::Comma),
        TokenTree::TtToken(dsp(), Token::Ident(ident("k"), IdentStyle::Plain)),
    ];
    let mac = Spanned {
        node: Mac_::MacInvocTT(path_of("h"), mac_tokens, 0),
        span: dsp(),
    };
    let block = P(Block {
        stmts: vec![
            P(Spanned {
                node: Stmt_::StmtMac(P(mac), MacStmtStyle::MacStmtWithSemicolon),
                span: dsp(),
            }),
            P(Spanned {
                node: Stmt_::StmtSemi(expr_path("l"), DUMMY_NODE_ID),
                span: dsp(),
            }),
        ],
        expr: Some(expr_path("m")),
        id: DUMMY_NODE_ID,
        rules: BlockCheckMode::DefaultBlock,
        span: dsp(),
    });
    let decl = P(FnDecl {
        inputs: vec![
            Arg { ty: ty_of("e"), pat: pat_ident("d"), id: DUMMY_NODE_ID },
            Arg { ty: ty_of("g"), pat: pat_ident("f"), id: DUMMY_NODE_ID },
        ],
        output: FunctionRetTy::DefaultReturn(dsp()),
        variadic: false,
    });
    let func = P(Item {
        ident: ident("c"),
        attrs: vec![],
        id: DUMMY_NODE_ID,
        node: Item_::ItemFn(decl, Unsafety::Normal, Constness::NotConst, Abi::Rust,
            Generics {
                lifetimes: vec![],
                ty_params: vec![],
                where_clause: WhereClause { id: DUMMY_NODE_ID, predicates: vec![] },
            }, block),
        vis: Visibility::Inherited,
        span: dsp(),
    });
    let attr = Spanned {
        node: Attribute_ {
            id: AttrId(0),
            style: AttrStyle::AttrOuter,
            value: P(Spanned { node: MetaItem_::MetaWord("a".to_string()), span: dsp() }),
            is_sugared_doc: false,
        },
        span: dsp(),
    };
    let module_b = P(Item {
        ident: ident("b"),
        attrs: vec![attr],
        id: DUMMY_NODE_ID,
        node: Item_::ItemMod(Mod { inner: dsp(), items: vec![func] }),
        vis: Visibility::Inherited,
        span: dsp(),
    });
    Crate {
        module: Mod { inner: dsp(), items: vec![module_b] },
        attrs: vec![],
        config: vec![],
        span: dsp(),
        exported_macros: vec![],
    }
}

/// Change every identifier to "zz".
struct ToZzIdentFolder;

impl Folder for ToZzIdentFolder {
    fn fold_crate(&mut self, c: Crate) -> Crate {
        fold::noop_fold_crate(c, self)
    }
    fn fold_meta_items(&mut self, meta_items: Vec<P<MetaItem>>) -> Vec<P<MetaItem>> {
        fold::noop_fold_meta_items(meta_items, self)
    }
    fn fold_meta_item(&mut self, meta_item: P<MetaItem>) -> P<MetaItem> {
        fold::noop_fold_meta_item(meta_item, self)
    }
    fn fold_view_path(&mut self, view_path: P<ViewPath>) -> P<ViewPath> {
        fold::noop_fold_view_path(view_path, self)
    }
    fn fold_foreign_item(&mut self, ni: P<ForeignItem>) -> P<ForeignItem> {
        fold::noop_fold_foreign_item(ni, self)
    }
    fn fold_item(&mut self, i: P<Item>) -> SmallVector<P<Item>> {
        fold::noop_fold_item(i, self)
    }
    fn fold_item_simple(&mut self, i: Item) -> Item {
        fold::noop_fold_item_simple(i, self)
    }
    fn fold_struct_field(&mut self, sf: StructField) -> StructField {
        fold::noop_fold_struct_field(sf, self)
    }
    fn fold_item_underscore(&mut self, i: Item_) -> Item_ {
        fold::noop_fold_item_underscore(i, self)
    }
    fn fold_trait_item(&mut self, i: P<TraitItem>) -> SmallVector<P<TraitItem>> {
        fold::noop_fold_trait_item(i, self)
    }
    fn fold_impl_item(&mut self, i: P<ImplItem>) -> SmallVector<P<ImplItem>> {
        fold::noop_fold_impl_item(i, self)
    }
    fn fold_fn_decl(&mut self, d: P<FnDecl>) -> P<FnDecl> {
        fold::noop_fold_fn_decl(d, self)
    }
    fn fold_block(&mut self, b: P<Block>) -> P<Block> {
        fold::noop_fold_block(b, self)
    }
    fn fold_stmt(&mut self, s: P<Stmt>) -> SmallVector<P<Stmt>> {
        fold::noop_fold_stmt(s.into_inner(), self)
    }
    fn fold_arm(&mut self, a: Arm) -> Arm {
        fold::noop_fold_arm(a, self)
    }
    fn fold_pat(&mut self, p: P<Pat>) -> P<Pat> {
        fold::noop_fold_pat(p, self)
    }
    fn fold_decl(&mut self, d: P<Decl>) -> SmallVector<P<Decl>> {
        fold::noop_fold_decl(d, self)
    }
    fn fold_expr(&mut self, e: P<Expr>) -> P<Expr> {
        e.map(|e| fold::noop_fold_expr(e, self))
    }
    fn fold_ty(&mut self, t: P<Ty>) -> P<Ty> {
        fold::noop_fold_ty(t, self)
    }
    fn fold_ty_binding(&mut self, t: P<TypeBinding>) -> P<TypeBinding> {
        fold::noop_fold_ty_binding(t, self)
    }
    fn fold_mod(&mut self, m: Mod) -> Mod {
        fold::noop_fold_mod(m, self)
    }
    fn fold_foreign_mod(&mut self, nm: ForeignMod) -> ForeignMod {
        fold::noop_fold_foreign_mod(nm, self)
    }
    fn fold_variant(&mut self, v: P<Variant>) -> P<Variant> {
        fold::noop_fold_variant(v, self)
    }
    fn fold_ident(&mut self, _i: Ident) -> Ident {
        str_to_ident("zz")
    }
    fn fold_usize(&mut self, i: usize) -> usize {
        fold::noop_fold_usize(i, self)
    }
    fn fold_path(&mut self, p: Path) -> Path {
        fold::noop_fold_path(p, self)
    }
    fn fold_path_parameters(&mut self, p: PathParameters) -> PathParameters {
        fold::noop_fold_path_parameters(p, self)
    }
    fn fold_angle_bracketed_parameter_data(&mut self, p: AngleBracketedParameterData)
        -> AngleBracketedParameterData {
        fold::noop_fold_angle_bracketed_parameter_data(p, self)
    }
    fn fold_parenthesized_parameter_data(&mut self, p: ParenthesizedParameterData)
        -> ParenthesizedParameterData {
        fold::noop_fold_parenthesized_parameter_data(p, self)
    }
    fn fold_local(&mut self, l: P<Local>) -> P<Local> {
        fold::noop_fold_local(l, self)
    }
    fn fold_mac(&mut self, mac: Mac) -> Mac {
        fold::noop_fold_mac(mac, self)
    }
    fn fold_explicit_self(&mut self, es: slag::ast::ExplicitSelf) -> slag::ast::ExplicitSelf {
        fold::noop_fold_explicit_self(es, self)
    }
    fn fold_explicit_self_underscore(&mut self, es: slag::ast::ExplicitSelf_)
        -> slag::ast::ExplicitSelf_ {
        fold::noop_fold_explicit_self_underscore(es, self)
    }
    fn fold_lifetime(&mut self, l: Lifetime) -> Lifetime {
        fold::noop_fold_lifetime(l, self)
    }
    fn fold_lifetime_def(&mut self, l: LifetimeDef) -> LifetimeDef {
        fold::noop_fold_lifetime_def(l, self)
    }
    fn fold_attribute(&mut self, at: Attribute) -> Option<Attribute> {
        fold::noop_fold_attribute(at, self)
    }
    fn fold_arg(&mut self, a: Arg) -> Arg {
        fold::noop_fold_arg(a, self)
    }
    fn fold_generics(&mut self, generics: Generics) -> Generics {
        fold::noop_fold_generics(generics, self)
    }
    fn fold_trait_ref(&mut self, p: TraitRef) -> TraitRef {
        fold::noop_fold_trait_ref(p, self)
    }
    fn fold_poly_trait_ref(&mut self, p: PolyTraitRef) -> PolyTraitRef {
        fold::noop_fold_poly_trait_ref(p, self)
    }
    fn fold_struct_def(&mut self, struct_def: P<StructDef>) -> P<StructDef> {
        fold::noop_fold_struct_def(struct_def, self)
    }
    fn fold_lifetimes(&mut self, lts: Vec<Lifetime>) -> Vec<Lifetime> {
        fold::noop_fold_lifetimes(lts, self)
    }
    fn fold_lifetime_defs(&mut self, lts: Vec<LifetimeDef>) -> Vec<LifetimeDef> {
        fold::noop_fold_lifetime_defs(lts, self)
    }
    fn fold_ty_param(&mut self, tp: TyParam) -> TyParam {
        fold::noop_fold_ty_param(tp, self)
    }
    fn fold_ty_params(&mut self, tps: OwnedSlice<TyParam>) -> OwnedSlice<TyParam> {
        fold::noop_fold_ty_params(tps, self)
    }
    fn fold_tt(&mut self, tt: TokenTree) -> TokenTree {
        fold::noop_fold_tt(tt, self)
    }
    fn fold_tts(&mut self, tts: Vec<TokenTree>) -> Vec<TokenTree> {
        fold::noop_fold_tts(tts, self)
    }
    fn fold_token(&mut self, t: Token) -> Token {
        fold::noop_fold_token(t, self)
    }
    fn fold_interpolated(&mut self, nt: Nonterminal) -> Nonterminal {
        fold::noop_fold_interpolated(nt, self)
    }
    fn fold_opt_lifetime(&mut self, o_lt: Option<Lifetime>) -> Option<Lifetime> {
        fold::noop_fold_opt_lifetime(o_lt, self)
    }
    fn fold_variant_arg(&mut self, va: VariantArg) -> VariantArg {
        fold::noop_fold_variant_arg(va, self)
    }
    fn fold_opt_bounds(&mut self, b: Option<OwnedSlice<TyParamBound>>)
        -> Option<OwnedSlice<TyParamBound>> {
        fold::noop_fold_opt_bounds(b, self)
    }
    fn fold_bounds(&mut self, b: OwnedSlice<TyParamBound>) -> OwnedSlice<TyParamBound> {
        fold::noop_fold_bounds(b, self)
    }
    fn fold_ty_param_bound(&mut self, tpb: TyParamBound) -> TyParamBound {
        fold::noop_fold_ty_param_bound(tpb, self)
    }
    fn fold_mt(&mut self, mt: MutTy) -> MutTy {
        fold::noop_fold_mt(mt, self)
    }
    fn fold_field(&mut self, field: Field) -> Field {
        fold::noop_fold_field(field, self)
    }
    fn fold_where_clause(&mut self, where_clause: WhereClause) -> WhereClause {
        fold::noop_fold_where_clause(where_clause, self)
    }
    fn fold_where_predicate(&mut self, where_predicate: WherePredicate) -> WherePredicate {
        fold::noop_fold_where_predicate(where_predicate, self)
    }
    fn new_id(&mut self, i: NodeId) -> NodeId {
        i
    }
    fn new_span(&mut self, s: Span) -> Span {
        s
    }
}

fn print_lit(l: &Lit_) -> String {
    match l {
        Lit_::LitStr(s, _) => format!("\"{}\"", s),
        Lit_::LitBool(b) => format!("{}", b),
        Lit_::LitInt(v, _) => format!("{}", v),
        _ => panic!("literal kind not needed by these tests"),
    }
}

fn print_meta(mi: &MetaItem) -> String {
    match &mi.node {
        MetaItem_::MetaWord(s) => s.clone(),
        MetaItem_::MetaList(s, items) => {
            let inner: Vec<String> = items.iter().map(|m| print_meta(m)).collect();
            format!("{}({})", s, inner.join(","))
        }
        MetaItem_::MetaNameValue(s, v) => format!("{}={}", s, print_lit(&v.node)),
    }
}

fn print_path(p: &Path) -> String {
    let segs: Vec<String> = p.segments.iter().map(|s| s.identifier.name.0.clone()).collect();
    segs.join("::")
}

fn print_ty(t: &Ty) -> String {
    match &t.node {
        Ty_::TyPath(None, p) => print_path(p),
        _ => panic!("type kind not needed by these tests"),
    }
}

fn print_pat(p: &Pat) -> String {
    match &p.node {
        Pat_::PatIdent(_, id, None) => id.node.name.0.clone(),
        _ => panic!("pattern kind not needed by these tests"),
    }
}

fn print_expr(e: &Expr) -> String {
    match &e.node {
        Expr_::ExprPath(None, p) => print_path(p),
        _ => panic!("expression kind not needed by these tests"),
    }
}

fn print_tree(tt: &TokenTree) -> String {
    match tt {
        TokenTree::TtToken(_, tok) => token_to_string(tok),
        TokenTree::TtDelimited(_, d) => {
            let inner: Vec<String> = d.tts.iter().map(print_tree).collect();
            let (open, close) = match d.delim {
                slag::ast::DelimToken::Paren => ("(", ")"),
                slag::ast::DelimToken::Bracket => ("[", "]"),
                slag::ast::DelimToken::Brace => ("{", "}"),
            };
            format!("{}{}{}", open, inner.join(" "), close)
        }
        TokenTree::TtSequence(_, seq) => {
            let inner: Vec<String> = seq.tts.iter().map(print_tree).collect();
            let sep = match &seq.separator {
                Some(tok) => token_to_string(tok),
                None => String::new(),
            };
            let op = match seq.op {
                slag::ast::KleeneOp::ZeroOrMore => "*",
                slag::ast::KleeneOp::OneOrMore => "+",
            };
            format!("$({}){}{}", inner.join(" "), sep, op)
        }
    }
}

fn print_mac(m: &Mac) -> String {
    let Mac_::MacInvocTT(path, tts, _) = &m.node;
    let toks: Vec<String> = tts.iter().map(print_tree).collect();
    format!("{}!({})", print_path(path), toks.join(" "))
}

fn print_mac_item(name: &Ident, m: &Mac) -> String {
    let Mac_::MacInvocTT(path, tts, _) = &m.node;
    let toks: Vec<String> = tts.iter().map(print_tree).collect();
    format!("{}!{}({});", print_path(path), name.name.0, toks.join(" "))
}

fn print_block(b: &Block) -> String {
    let mut out = String::from("{");
    for stmt in &b.stmts {
        match &stmt.node {
            Stmt_::StmtMac(m, _) => {
                out.push_str(&print_mac(m));
                out.push(';');
            }
            Stmt_::StmtSemi(e, _) => {
                out.push_str(&print_expr(e));
                out.push(';');
            }
            Stmt_::StmtExpr(e, _) => {
                out.push_str(&print_expr(e));
            }
            Stmt_::StmtDecl(_, _) => panic!("declaration not needed by these tests"),
        }
    }
    if let Some(e) = &b.expr {
        out.push_str(&print_expr(e));
    }
    out.push('}');
    out
}

fn print_item(i: &Item) -> String {
    let mut out = String::new();
    for a in &i.attrs {
        out.push_str(&format!("#[{}]", print_meta(&a.node.value)));
    }
    match &i.node {
        Item_::ItemMod(m) => {
            out.push_str(&format!("mod {}{{", i.ident.name.0));
            for item in &m.items {
                out.push_str(&print_item(item));
            }
            out.push('}');
        }
        Item_::ItemFn(decl, _, _, _, _, body) => {
            out.push_str(&format!("fn {}(", i.ident.name.0));
            let args: Vec<String> = decl.inputs.iter().map(|a| {
                format!("{}:{}", print_pat(&a.pat), print_ty(&a.ty))
            }).collect();
            out.push_str(&args.join(","));
            out.push(')');
            out.push_str(&print_block(body));
        }
        Item_::ItemMac(m) => {
            out.push_str(&print_mac_item(&i.ident, m));
        }
        _ => panic!("item kind not needed by these tests"),
    }
    out
}

fn fake_print_crate(krate: &Crate) -> String {
    let mut out = String::new();
    for a in &krate.attrs {
        out.push_str(&format!("#[{}]", print_meta(&a.node.value)));
    }
    for item in &krate.module.items {
        out.push_str(&print_item(item));
    }
    out
}

/// Split printed source into identifier/number words and single punctuation
/// characters, dropping whitespace.
fn code_tokens(s: &str) -> Vec<String> {
    let mut out: Vec<String> = Vec::new();
    let mut cur = String::new();
    for ch in s.chars() {
        if ch.is_alphanumeric() || ch == '_' {
            cur.push(ch);
        } else {
            if !cur.is_empty() {
                out.push(std::mem::take(&mut cur));
            }
            if !ch.is_whitespace() {
                out.push(ch.to_string());
            }
        }
    }
    if !cur.is_empty() {
        out.push(cur);
    }
    out
}

/// Whether printed source `a` matches the expected pattern `b`, modulo
/// whitespace.
fn matches_codepattern(a: &str, b: &str) -> bool {
    code_tokens(a) == code_tokens(b)
}

/// The crate that
/// `macro_rules! a {(b $c:expr $(d $e:token)f+ => (g $(d $d $e)+))} `
/// parses to: one macro item whose body is a matcher token tree.
fn sample_macro_def_crate() -> Crate {
    let tok = |t: Token| TokenTree::TtToken(dsp(), t);
    let plain = IdentStyle::Plain;
    let matcher_seq = TokenTree::TtSequence(dsp(), P(SequenceRepetition {
        tts: vec![
            tok(Token::Ident(ident("d"), plain)),
            tok(Token::MatchNt(ident("e"), ident("token"), plain, plain)),
        ],
        separator: Some(Token::Ident(ident("f"), plain)),
        op: KleeneOp::OneOrMore,
        num_captures: 1,
    }));
    let rhs_seq = TokenTree::TtSequence(dsp(), P(SequenceRepetition {
        tts: vec![
            tok(Token::Ident(ident("d"), plain)),
            tok(Token::SubstNt(ident("d"), plain)),
            tok(Token::SubstNt(ident("e"), plain)),
        ],
        separator: None,
        op: KleeneOp::OneOrMore,
        num_captures: 1,
    }));
    let rhs = TokenTree::TtDelimited(dsp(), P(slag::ast::Delimited {
        delim: slag::ast::DelimToken::Paren,
        open_span: dsp(),
        tts: vec![tok(Token::Ident(ident("g"), plain)), rhs_seq],
        close_span: dsp(),
    }));
    let body = TokenTree::TtDelimited(dsp(), P(slag::ast::Delimited {
        delim: slag::ast::DelimToken::Paren,
        open_span: dsp(),
        tts: vec![
            tok(Token::Ident(ident("b"), plain)),
            tok(Token::MatchNt(ident("c"), ident("expr"), plain, plain)),
            matcher_seq,
            tok(Token::FatArrow),
            rhs,
        ],
        close_span: dsp(),
    }));
    let mac = Spanned {
        node: Mac_::MacInvocTT(path_of("macro_rules"), vec![body], 0),
        span: dsp(),
    };
    let item = P(Item {
        ident: ident("a"),
        attrs: vec![],
        id: DUMMY_NODE_ID,
        node: Item_::ItemMac(mac),
        vis: Visibility::Inherited,
        span: dsp(),
    });
    Crate {
        module: Mod { inner: dsp(), items: vec![item] },
        attrs: vec![],
        config: vec![],
        span: dsp(),
        exported_macros: vec![],
    }
}

// make sure idents get transformed everywhere
#[test]
fn ident_transformation() {
    let mut zz_fold = ToZzIdentFolder;
    let ast = sample_crate();
    let folded_crate = zz_fold.fold_crate(ast);
    let printed = fake_print_crate(&folded_crate);
    let expected = "#[a]mod zz{fn zz(zz:zz,zz:zz){zz!(zz,zz,zz);zz;zz}}".to_string();
    if !matches_codepattern(&printed, &expected) {
        panic!("expected args satisfying matches_codepattern, got {} and {}", printed, expected);
    }
}

#[test]
fn fold_keeps_attribute_words() {
    let mut zz_fold = ToZzIdentFolder;
    let folded = zz_fold.fold_crate(sample_crate());
    let module = &folded.module.items[0];
    assert_eq!(module.ident.name.0, "zz");
    assert_eq!(print_meta(&module.attrs[0].node.value), "a");
}

#[test]
fn fold_reaches_macro_tokens() {
    let mut zz_fold = ToZzIdentFolder;
    let folded = zz_fold.fold_crate(sample_crate());
    let module = match &folded.module.items[0].node {
        Item_::ItemMod(m) => m,
        _ => panic!("expected module"),
    };
    let body = match &module.items[0].node {
        Item_::ItemFn(_, _, _, _, _, b) => b,
        _ => panic!("expected function"),
    };
    let mac = match &body.stmts[0].node {
        Stmt_::StmtMac(m, _) => print_mac(m),
        _ => panic!("expected macro statement"),
    };
    assert_eq!(code_tokens(&mac), code_tokens("zz!(zz,zz,zz)"));
}

// even inside macro defs....
#[test]
fn ident_transformation_in_defs() {
    let mut zz_fold = ToZzIdentFolder;
    let ast = sample_macro_def_crate();
    let folded_crate = zz_fold.fold_crate(ast);
    let printed = fake_print_crate(&folded_crate);
    let expected = "zz!zz((zz$zz:zz$(zz $zz:zz)zz+=>(zz$(zz$zz$zz)+)));".to_string();
    if !matches_codepattern(&printed, &expected) {
        panic!("expected args satisfying matches_codepattern, got {} and {}", printed, expected);
    }
}
