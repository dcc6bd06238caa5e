//! A Folder represents a tree-to-tree rewrite; it accepts a piece of the
//! syntax tree and returns a piece of the same type. Macro expansion, for
//! instance, is a Folder that walks over a tree and produces another tree.
//!
//! Every method of the [`Folder`] trait is a hook: an implementation
//! chooses, kind of node by kind of node, between its own rewrite and the
//! structural one that the matching `noop_fold_*` function performs. The
//! structural functions only call back into the folder, never each other's
//! hooks, so an implementation can override one method without losing the
//! rest of the traversal.
//!
//! Using a Folder on a tree before macro expansion is probably a bad idea:
//! a folder renaming item names in a module will miss all of those that are
//! created by the expansion of a macro.

use vstd::prelude::*;

use crate::ast::{AngleBracketedParameterData, Arg, Arm, Attribute, Attribute_, BareFnTy, Block,
    Crate, Decl, Decl_, Delimited, EnumDef, ExplicitSelf, ExplicitSelf_, Expr, Expr_, Field,
    FieldPat, FnDecl, ForeignItem, ForeignItem_, ForeignMod, FunctionRetTy, Generics, Ident,
    ImplItem, ImplItem_, InlineAsm, InternedString, Item, Item_, Lifetime, LifetimeDef, Local,
    Mac, Mac_, MacroDef, MetaItem, MetaItem_, MethodSig, Mod, MutTy, NodeId, Nonterminal,
    ParenthesizedParameterData, Pat, Pat_, Path, PathListItem, PathListItem_, PathParameters,
    PathSegment, PolyTraitRef, QSelf, SequenceRepetition, Stmt, Stmt_, StructDef, StructField,
    StructField_, Token, TokenTree, TraitItem, TraitItem_, TraitRef, Ty, TyParam, TyParamBound,
    TyParamBounds, Ty_, TypeBinding, Variant, VariantArg, VariantKind, ViewPath, ViewPath_,
    WhereBoundPredicate, WhereClause, WhereEqPredicate, WherePredicate, WhereRegionPredicate,
    invalid_ident, DUMMY_NODE_ID};
use crate::codemap::{respan, Span, Spanned};
use crate::owned_slice::OwnedSlice;
use crate::ptr::{P, PointerMap};
use crate::util::small_vector::SmallVector;

verus! {

/// The hooks of a tree rewrite. An implementation overrides the methods for
/// the nodes it wants to change and lets every other method hand the node
/// to the matching `noop_fold_*` function.
pub trait Folder: Sized {
    fn fold_crate(&mut self, c: Crate) -> Crate;

    fn fold_meta_items(&mut self, meta_items: Vec<P<MetaItem>>) -> Vec<P<MetaItem>>;

    fn fold_meta_item(&mut self, meta_item: P<MetaItem>) -> P<MetaItem>;

    fn fold_view_path(&mut self, view_path: P<ViewPath>) -> P<ViewPath>;

    fn fold_foreign_item(&mut self, ni: P<ForeignItem>) -> P<ForeignItem>;

    fn fold_item(&mut self, i: P<Item>) -> SmallVector<P<Item>>;

    fn fold_item_simple(&mut self, i: Item) -> Item;

    fn fold_struct_field(&mut self, sf: StructField) -> StructField;

    fn fold_item_underscore(&mut self, i: Item_) -> Item_;

    fn fold_trait_item(&mut self, i: P<TraitItem>) -> SmallVector<P<TraitItem>>;

    fn fold_impl_item(&mut self, i: P<ImplItem>) -> SmallVector<P<ImplItem>>;

    fn fold_fn_decl(&mut self, d: P<FnDecl>) -> P<FnDecl>;

    fn fold_block(&mut self, b: P<Block>) -> P<Block>;

    fn fold_stmt(&mut self, s: P<Stmt>) -> SmallVector<P<Stmt>>;

    fn fold_arm(&mut self, a: Arm) -> Arm;

    fn fold_pat(&mut self, p: P<Pat>) -> P<Pat>;

    fn fold_decl(&mut self, d: P<Decl>) -> SmallVector<P<Decl>>;

    fn fold_expr(&mut self, e: P<Expr>) -> P<Expr>;

    fn fold_ty(&mut self, t: P<Ty>) -> P<Ty>;

    fn fold_ty_binding(&mut self, t: P<TypeBinding>) -> P<TypeBinding>;

    fn fold_mod(&mut self, m: Mod) -> Mod;

    fn fold_foreign_mod(&mut self, nm: ForeignMod) -> ForeignMod;

    fn fold_variant(&mut self, v: P<Variant>) -> P<Variant>;

    fn fold_ident(&mut self, i: Ident) -> Ident;

    fn fold_usize(&mut self, i: usize) -> usize;

    fn fold_path(&mut self, p: Path) -> Path;

    fn fold_path_parameters(&mut self, p: PathParameters) -> PathParameters;

    fn fold_angle_bracketed_parameter_data(&mut self, p: AngleBracketedParameterData)
        -> AngleBracketedParameterData;

    fn fold_parenthesized_parameter_data(&mut self, p: ParenthesizedParameterData)
        -> ParenthesizedParameterData;

    fn fold_local(&mut self, l: P<Local>) -> P<Local>;

    /// Macro folding is a deliberate opt-in: an implementation that wants
    /// it hands the macro to [`noop_fold_mac`]; one that never expects a
    /// macro can keep the invocation unchanged or record the encounter.
    fn fold_mac(&mut self, mac: Mac) -> Mac;

    fn fold_explicit_self(&mut self, es: ExplicitSelf) -> ExplicitSelf;

    fn fold_explicit_self_underscore(&mut self, es: ExplicitSelf_) -> ExplicitSelf_;

    fn fold_lifetime(&mut self, l: Lifetime) -> Lifetime;

    fn fold_lifetime_def(&mut self, l: LifetimeDef) -> LifetimeDef;

    fn fold_attribute(&mut self, at: Attribute) -> Option<Attribute>;

    fn fold_arg(&mut self, a: Arg) -> Arg;

    fn fold_generics(&mut self, generics: Generics) -> Generics;

    fn fold_trait_ref(&mut self, p: TraitRef) -> TraitRef;

    fn fold_poly_trait_ref(&mut self, p: PolyTraitRef) -> PolyTraitRef;

    fn fold_struct_def(&mut self, struct_def: P<StructDef>) -> P<StructDef>;

    fn fold_lifetimes(&mut self, lts: Vec<Lifetime>) -> Vec<Lifetime>;

    fn fold_lifetime_defs(&mut self, lts: Vec<LifetimeDef>) -> Vec<LifetimeDef>;

    fn fold_ty_param(&mut self, tp: TyParam) -> TyParam;

    fn fold_ty_params(&mut self, tps: OwnedSlice<TyParam>) -> OwnedSlice<TyParam>;

    fn fold_tt(&mut self, tt: TokenTree) -> TokenTree;

    fn fold_tts(&mut self, tts: Vec<TokenTree>) -> Vec<TokenTree>;

    fn fold_token(&mut self, t: Token) -> Token;

    fn fold_interpolated(&mut self, nt: Nonterminal) -> Nonterminal;

    fn fold_opt_lifetime(&mut self, o_lt: Option<Lifetime>) -> Option<Lifetime>;

    fn fold_variant_arg(&mut self, va: VariantArg) -> VariantArg;

    fn fold_opt_bounds(&mut self, b: Option<OwnedSlice<TyParamBound>>)
        -> Option<OwnedSlice<TyParamBound>>;

    fn fold_bounds(&mut self, b: OwnedSlice<TyParamBound>) -> OwnedSlice<TyParamBound>;

    fn fold_ty_param_bound(&mut self, tpb: TyParamBound) -> TyParamBound;

    fn fold_mt(&mut self, mt: MutTy) -> MutTy;

    fn fold_field(&mut self, field: Field) -> Field;

    fn fold_where_clause(&mut self, where_clause: WhereClause) -> WhereClause;

    fn fold_where_predicate(&mut self, where_predicate: WherePredicate) -> WherePredicate;

    fn new_id(&mut self, i: NodeId) -> NodeId;

    fn new_span(&mut self, sp: Span) -> Span;
}


/// Whether two expression nodes are built from the same variant: the
/// structural fold rewrites inside a node but never changes what kind of
/// node it is.
pub open spec fn same_expr_kind(a: Expr_, b: Expr_) -> bool {
    match (a, b) {
        (Expr_::ExprBox(_, _), Expr_::ExprBox(_, _)) => true,
        (Expr_::ExprVec(_), Expr_::ExprVec(_)) => true,
        (Expr_::ExprCall(_, _), Expr_::ExprCall(_, _)) => true,
        (Expr_::ExprMethodCall(_, _, _), Expr_::ExprMethodCall(_, _, _)) => true,
        (Expr_::ExprTup(_), Expr_::ExprTup(_)) => true,
        (Expr_::ExprBinary(_, _, _), Expr_::ExprBinary(_, _, _)) => true,
        (Expr_::ExprUnary(_, _), Expr_::ExprUnary(_, _)) => true,
        (Expr_::ExprLit(_), Expr_::ExprLit(_)) => true,
        (Expr_::ExprCast(_, _), Expr_::ExprCast(_, _)) => true,
        (Expr_::ExprIf(_, _, _), Expr_::ExprIf(_, _, _)) => true,
        (Expr_::ExprIfLet(_, _, _, _), Expr_::ExprIfLet(_, _, _, _)) => true,
        (Expr_::ExprWhile(_, _, _), Expr_::ExprWhile(_, _, _)) => true,
        (Expr_::ExprWhileLet(_, _, _, _), Expr_::ExprWhileLet(_, _, _, _)) => true,
        (Expr_::ExprForLoop(_, _, _, _), Expr_::ExprForLoop(_, _, _, _)) => true,
        (Expr_::ExprLoop(_, _), Expr_::ExprLoop(_, _)) => true,
        (Expr_::ExprMatch(_, _, _), Expr_::ExprMatch(_, _, _)) => true,
        (Expr_::ExprClosure(_, _, _), Expr_::ExprClosure(_, _, _)) => true,
        (Expr_::ExprBlock(_), Expr_::ExprBlock(_)) => true,
        (Expr_::ExprAssign(_, _), Expr_::ExprAssign(_, _)) => true,
        (Expr_::ExprAssignOp(_, _, _), Expr_::ExprAssignOp(_, _, _)) => true,
        (Expr_::ExprField(_, _), Expr_::ExprField(_, _)) => true,
        (Expr_::ExprTupField(_, _), Expr_::ExprTupField(_, _)) => true,
        (Expr_::ExprIndex(_, _), Expr_::ExprIndex(_, _)) => true,
        (Expr_::ExprRange(_, _), Expr_::ExprRange(_, _)) => true,
        (Expr_::ExprPath(_, _), Expr_::ExprPath(_, _)) => true,
        (Expr_::ExprAddrOf(_, _), Expr_::ExprAddrOf(_, _)) => true,
        (Expr_::ExprBreak(_), Expr_::ExprBreak(_)) => true,
        (Expr_::ExprAgain(_), Expr_::ExprAgain(_)) => true,
        (Expr_::ExprRet(_), Expr_::ExprRet(_)) => true,
        (Expr_::ExprInlineAsm(_), Expr_::ExprInlineAsm(_)) => true,
        (Expr_::ExprMac(_, _), Expr_::ExprMac(_, _)) => true,
        (Expr_::ExprStruct(_, _, _), Expr_::ExprStruct(_, _, _)) => true,
        (Expr_::ExprRepeat(_, _), Expr_::ExprRepeat(_, _)) => true,
        (Expr_::ExprParen(_), Expr_::ExprParen(_)) => true,
        (_, _) => false,
    }
}

/// Whether two type nodes are built from the same variant.
pub open spec fn same_ty_kind(a: Ty_, b: Ty_) -> bool {
    match (a, b) {
        (Ty_::TyVec(_), Ty_::TyVec(_)) => true,
        (Ty_::TyFixedLengthVec(_, _), Ty_::TyFixedLengthVec(_, _)) => true,
        (Ty_::TyPtr(_), Ty_::TyPtr(_)) => true,
        (Ty_::TyRptr(_, _), Ty_::TyRptr(_, _)) => true,
        (Ty_::TyBareFn(_), Ty_::TyBareFn(_)) => true,
        (Ty_::TyTup(_), Ty_::TyTup(_)) => true,
        (Ty_::TyPath(_, _), Ty_::TyPath(_, _)) => true,
        (Ty_::TyObjectSum(_, _), Ty_::TyObjectSum(_, _)) => true,
        (Ty_::TyPolyTraitRef(_), Ty_::TyPolyTraitRef(_)) => true,
        (Ty_::TyParen(_), Ty_::TyParen(_)) => true,
        (Ty_::TyTypeof(_), Ty_::TyTypeof(_)) => true,
        (Ty_::TyInfer, Ty_::TyInfer) => true,
        (_, _) => false,
    }
}

/// Whether two pattern nodes are built from the same variant.
pub open spec fn same_pat_kind(a: Pat_, b: Pat_) -> bool {
    match (a, b) {
        (Pat_::PatWild(_), Pat_::PatWild(_)) => true,
        (Pat_::PatIdent(_, _, _), Pat_::PatIdent(_, _, _)) => true,
        (Pat_::PatEnum(_, _), Pat_::PatEnum(_, _)) => true,
        (Pat_::PatQPath(_, _), Pat_::PatQPath(_, _)) => true,
        (Pat_::PatStruct(_, _, _), Pat_::PatStruct(_, _, _)) => true,
        (Pat_::PatTup(_), Pat_::PatTup(_)) => true,
        (Pat_::PatBox(_), Pat_::PatBox(_)) => true,
        (Pat_::PatRegion(_, _), Pat_::PatRegion(_, _)) => true,
        (Pat_::PatLit(_), Pat_::PatLit(_)) => true,
        (Pat_::PatRange(_, _), Pat_::PatRange(_, _)) => true,
        (Pat_::PatVec(_, _, _), Pat_::PatVec(_, _, _)) => true,
        (Pat_::PatMac(_), Pat_::PatMac(_)) => true,
        (_, _) => false,
    }
}

/// Whether two item nodes are built from the same variant.
pub open spec fn same_item_kind(a: Item_, b: Item_) -> bool {
    match (a, b) {
        (Item_::ItemExternCrate(_), Item_::ItemExternCrate(_)) => true,
        (Item_::ItemUse(_), Item_::ItemUse(_)) => true,
        (Item_::ItemStatic(_, _, _), Item_::ItemStatic(_, _, _)) => true,
        (Item_::ItemConst(_, _), Item_::ItemConst(_, _)) => true,
        (Item_::ItemFn(_, _, _, _, _, _), Item_::ItemFn(_, _, _, _, _, _)) => true,
        (Item_::ItemMod(_), Item_::ItemMod(_)) => true,
        (Item_::ItemForeignMod(_), Item_::ItemForeignMod(_)) => true,
        (Item_::ItemTy(_, _), Item_::ItemTy(_, _)) => true,
        (Item_::ItemEnum(_, _), Item_::ItemEnum(_, _)) => true,
        (Item_::ItemStruct(_, _), Item_::ItemStruct(_, _)) => true,
        (Item_::ItemTrait(_, _, _, _), Item_::ItemTrait(_, _, _, _)) => true,
        (Item_::ItemDefaultImpl(_, _), Item_::ItemDefaultImpl(_, _)) => true,
        (Item_::ItemImpl(_, _, _, _, _, _), Item_::ItemImpl(_, _, _, _, _, _)) => true,
        (Item_::ItemMac(_), Item_::ItemMac(_)) => true,
        (_, _) => false,
    }
}

/// Whether two interpolated fragments are built from the same variant.
pub open spec fn same_nonterminal_kind(a: Nonterminal, b: Nonterminal) -> bool {
    match (a, b) {
        (Nonterminal::NtItem(_), Nonterminal::NtItem(_)) => true,
        (Nonterminal::NtBlock(_), Nonterminal::NtBlock(_)) => true,
        (Nonterminal::NtStmt(_), Nonterminal::NtStmt(_)) => true,
        (Nonterminal::NtPat(_), Nonterminal::NtPat(_)) => true,
        (Nonterminal::NtExpr(_), Nonterminal::NtExpr(_)) => true,
        (Nonterminal::NtTy(_), Nonterminal::NtTy(_)) => true,
        (Nonterminal::NtIdent(_, _), Nonterminal::NtIdent(_, _)) => true,
        (Nonterminal::NtMeta(_), Nonterminal::NtMeta(_)) => true,
        (Nonterminal::NtPath(_), Nonterminal::NtPath(_)) => true,
        (Nonterminal::NtTT(_), Nonterminal::NtTT(_)) => true,
        (Nonterminal::NtArm(_), Nonterminal::NtArm(_)) => true,
        (Nonterminal::NtImplItem(_), Nonterminal::NtImplItem(_)) => true,
        (Nonterminal::NtTraitItem(_), Nonterminal::NtTraitItem(_)) => true,
        (Nonterminal::NtGenerics(_), Nonterminal::NtGenerics(_)) => true,
        (Nonterminal::NtWhereClause(_), Nonterminal::NtWhereClause(_)) => true,
        (_, _) => false,
    }
}

fn fold_meta_item_vec<T: Folder>(v: Vec<P<MetaItem>>, fld: &mut T) -> (r: Vec<P<MetaItem>>)
    ensures
        r@.len() == v@.len(),
{
    let mut rest = v;
    let mut out: Vec<P<MetaItem>> = Vec::new();
    while rest.len() > 0
        invariant
            out@.len() + rest@.len() == v@.len(),
        decreases rest.len(),
    {
        let x = rest.remove(0);
        out.push(fld.fold_meta_item(x));
    }
    out
}

pub fn noop_fold_meta_items<T: Folder>(meta_items: Vec<P<MetaItem>>, fld: &mut T)
    -> (r: Vec<P<MetaItem>>)
    ensures
        r@.len() == meta_items@.len(),
{
    fold_meta_item_vec(meta_items, fld)
}

pub fn noop_fold_view_path<T: Folder>(view_path: P<ViewPath>, fld: &mut T) -> (r: P<ViewPath>)
    ensures
        (view_path.node is ViewPathSimple <==> r.node is ViewPathSimple),
        (view_path.node is ViewPathGlob <==> r.node is ViewPathGlob),
        (view_path.node matches ViewPath_::ViewPathList(_, l) ==> r.node matches
            ViewPath_::ViewPathList(_, l2) && l2@.len() == l@.len()),
{
    let Spanned { node, span } = view_path.into_inner();
    P(Spanned {
        node: match node {
            ViewPath_::ViewPathSimple(ident, path) => {
                ViewPath_::ViewPathSimple(ident, fld.fold_path(path))
            }
            ViewPath_::ViewPathGlob(path) => {
                ViewPath_::ViewPathGlob(fld.fold_path(path))
            }
            ViewPath_::ViewPathList(path, path_list_idents) => {
                let path = fld.fold_path(path);
                let mut rest = path_list_idents;
                let mut out: Vec<PathListItem> = Vec::new();
                while rest.len() > 0
                    invariant
                        out@.len() + rest@.len() == view_path.node->ViewPathList_1@.len(),
                    decreases rest.len(),
                {
                    let path_list_ident = rest.remove(0);
                    out.push(Spanned {
                        node: match path_list_ident.node {
                            PathListItem_::PathListIdent { id, name } =>
                                PathListItem_::PathListIdent {
                                    id: fld.new_id(id),
                                    name: name,
                                },
                            PathListItem_::PathListMod { id } =>
                                PathListItem_::PathListMod { id: fld.new_id(id) },
                        },
                        span: fld.new_span(path_list_ident.span),
                    });
                }
                ViewPath_::ViewPathList(path, out)
            }
        },
        span: fld.new_span(span),
    })
}

pub fn fold_attrs<T: Folder>(attrs: Vec<Attribute>, fld: &mut T) -> (r: Vec<Attribute>)
    ensures
        r@.len() <= attrs@.len(),
{
    let mut rest = attrs;
    let mut out: Vec<Attribute> = Vec::new();
    while rest.len() > 0
        invariant
            out@.len() + rest@.len() <= attrs@.len(),
        decreases rest.len(),
    {
        let at = rest.remove(0);
        match fld.fold_attribute(at) {
            Some(at) => { out.push(at); }
            None => {}
        }
    }
    out
}

fn fold_pat_vec<T: Folder>(v: Vec<P<Pat>>, fld: &mut T) -> (r: Vec<P<Pat>>)
    ensures
        r@.len() == v@.len(),
{
    let mut rest = v;
    let mut out: Vec<P<Pat>> = Vec::new();
    while rest.len() > 0
        invariant
            out@.len() + rest@.len() == v@.len(),
        decreases rest.len(),
    {
        let x = rest.remove(0);
        out.push(fld.fold_pat(x));
    }
    out
}

fn fold_expr_vec<T: Folder>(v: Vec<P<Expr>>, fld: &mut T) -> (r: Vec<P<Expr>>)
    ensures
        r@.len() == v@.len(),
{
    let mut rest = v;
    let mut out: Vec<P<Expr>> = Vec::new();
    while rest.len() > 0
        invariant
            out@.len() + rest@.len() == v@.len(),
        decreases rest.len(),
    {
        let x = rest.remove(0);
        out.push(fld.fold_expr(x));
    }
    out
}

fn fold_ty_vec<T: Folder>(v: Vec<P<Ty>>, fld: &mut T) -> (r: Vec<P<Ty>>)
    ensures
        r@.len() == v@.len(),
{
    let mut rest = v;
    let mut out: Vec<P<Ty>> = Vec::new();
    while rest.len() > 0
        invariant
            out@.len() + rest@.len() == v@.len(),
        decreases rest.len(),
    {
        let x = rest.remove(0);
        out.push(fld.fold_ty(x));
    }
    out
}

pub fn noop_fold_arm<T: Folder>(a: Arm, fld: &mut T) -> (r: Arm)
    ensures
        r.pats@.len() == a.pats@.len(),
        (r.guard is Some <==> a.guard is Some),
        r.attrs@.len() <= a.attrs@.len(),
{
    let Arm { attrs, pats, guard, body } = a;
    Arm {
        attrs: fold_attrs(attrs, fld),
        pats: fold_pat_vec(pats, fld),
        guard: match guard {
            Some(x) => Some(fld.fold_expr(x)),
            None => None,
        },
        body: fld.fold_expr(body),
    }
}

pub fn noop_fold_decl<T: Folder>(d: P<Decl>, fld: &mut T) -> (r: SmallVector<P<Decl>>)
    ensures
        d.node is DeclLocal ==> r@.len() == 1,
{
    let Spanned { node, span } = d.into_inner();
    match node {
        Decl_::DeclLocal(l) => SmallVector::one(P(Spanned {
            node: Decl_::DeclLocal(fld.fold_local(l)),
            span: fld.new_span(span),
        })),
        Decl_::DeclItem(it) => {
            let mut items = fld.fold_item(it).into_vec();
            let mut out: SmallVector<P<Decl>> = SmallVector::zero();
            while items.len() > 0
                decreases items.len(),
            {
                let i = items.remove(0);
                out.push(P(Spanned { node: Decl_::DeclItem(i), span: fld.new_span(span) }));
            }
            out
        }
    }
}

pub fn noop_fold_ty_binding<T: Folder>(b: P<TypeBinding>, fld: &mut T) -> (r: P<TypeBinding>)
    ensures
        r.ident == b.ident,
{
    let TypeBinding { id, ident, ty, span } = b.into_inner();
    P(TypeBinding {
        id: fld.new_id(id),
        ident: ident,
        ty: fld.fold_ty(ty),
        span: fld.new_span(span),
    })
}

pub fn noop_fold_ty<T: Folder>(t: P<Ty>, fld: &mut T) -> (r: P<Ty>)
    ensures
        same_ty_kind(r.node, t.node),
{
    let Ty { id, node, span } = t.into_inner();
    P(Ty {
        id: fld.new_id(id),
        node: match node {
            Ty_::TyInfer => Ty_::TyInfer,
            Ty_::TyVec(ty) => Ty_::TyVec(fld.fold_ty(ty)),
            Ty_::TyPtr(mt) => Ty_::TyPtr(fld.fold_mt(mt)),
            Ty_::TyRptr(region, mt) => {
                Ty_::TyRptr(fld.fold_opt_lifetime(region), fld.fold_mt(mt))
            }
            Ty_::TyBareFn(f) => {
                let BareFnTy { lifetimes, unsafety, abi, decl } = f.into_inner();
                Ty_::TyBareFn(P(BareFnTy {
                    lifetimes: fld.fold_lifetime_defs(lifetimes),
                    unsafety: unsafety,
                    abi: abi,
                    decl: fld.fold_fn_decl(decl),
                }))
            }
            Ty_::TyTup(tys) => Ty_::TyTup(fold_ty_vec(tys, fld)),
            Ty_::TyParen(ty) => Ty_::TyParen(fld.fold_ty(ty)),
            Ty_::TyPath(qself, path) => {
                let qself = match qself {
                    Some(QSelf { ty, position }) => {
                        Some(QSelf { ty: fld.fold_ty(ty), position: position })
                    }
                    None => None,
                };
                Ty_::TyPath(qself, fld.fold_path(path))
            }
            Ty_::TyObjectSum(ty, bounds) => {
                Ty_::TyObjectSum(fld.fold_ty(ty), fld.fold_bounds(bounds))
            }
            Ty_::TyFixedLengthVec(ty, e) => {
                Ty_::TyFixedLengthVec(fld.fold_ty(ty), fld.fold_expr(e))
            }
            Ty_::TyTypeof(expr) => {
                Ty_::TyTypeof(fld.fold_expr(expr))
            }
            Ty_::TyPolyTraitRef(bounds) => {
                let mut rest = bounds;
                let mut out: TyParamBounds = Vec::new();
                while rest.len() > 0
                    decreases rest.len(),
                {
                    let b = rest.remove(0);
                    out.push(fld.fold_ty_param_bound(b));
                }
                Ty_::TyPolyTraitRef(out)
            }
        },
        span: fld.new_span(span),
    })
}

pub fn noop_fold_foreign_mod<T: Folder>(nm: ForeignMod, fld: &mut T) -> (r: ForeignMod)
    ensures
        r.abi == nm.abi,
        r.items@.len() == nm.items@.len(),
{
    let ForeignMod { abi, items } = nm;
    let mut rest = items;
    let mut out: Vec<P<ForeignItem>> = Vec::new();
    while rest.len() > 0
        invariant
            out@.len() + rest@.len() == nm.items@.len(),
        decreases rest.len(),
    {
        let x = rest.remove(0);
        out.push(fld.fold_foreign_item(x));
    }
    ForeignMod { abi: abi, items: out }
}

pub fn noop_fold_variant<T: Folder>(v: P<Variant>, fld: &mut T) -> (r: P<Variant>)
    ensures
        r.node.name == v.node.name,
        r.node.vis == v.node.vis,
        (r.node.disr_expr is Some <==> v.node.disr_expr is Some),
{
    let Spanned { node, span } = v.into_inner();
    let crate::ast::Variant_ { id, name, attrs, kind, disr_expr, vis } = node;
    P(Spanned {
        node: crate::ast::Variant_ {
            id: fld.new_id(id),
            name: name,
            attrs: fold_attrs(attrs, fld),
            kind: match kind {
                VariantKind::TupleVariantKind(variant_args) => {
                    let mut rest = variant_args;
                    let mut out: Vec<VariantArg> = Vec::new();
                    while rest.len() > 0
                        decreases rest.len(),
                    {
                        let x = rest.remove(0);
                        out.push(fld.fold_variant_arg(x));
                    }
                    VariantKind::TupleVariantKind(out)
                }
                VariantKind::StructVariantKind(struct_def) => {
                    VariantKind::StructVariantKind(fld.fold_struct_def(struct_def))
                }
            },
            disr_expr: match disr_expr {
                Some(e) => Some(fld.fold_expr(e)),
                None => None,
            },
            vis: vis,
        },
        span: fld.new_span(span),
    })
}

pub fn noop_fold_ident<T: Folder>(i: Ident, fld: &mut T) -> (r: Ident)
    ensures
        r == i,
{
    i
}

pub fn noop_fold_usize<T: Folder>(i: usize, fld: &mut T) -> (r: usize)
    ensures
        r == i,
{
    i
}

pub fn noop_fold_path<T: Folder>(p: Path, fld: &mut T) -> (r: Path)
    ensures
        r.segments@.len() == p.segments@.len(),
        r.global == p.global,
{
    let Path { global, segments, span } = p;
    let mut rest = segments;
    let mut out: Vec<PathSegment> = Vec::new();
    while rest.len() > 0
        invariant
            out@.len() + rest@.len() == p.segments@.len(),
        decreases rest.len(),
    {
        let PathSegment { identifier, parameters } = rest.remove(0);
        out.push(PathSegment {
            identifier: fld.fold_ident(identifier),
            parameters: fld.fold_path_parameters(parameters),
        });
    }
    Path { global: global, segments: out, span: fld.new_span(span) }
}

pub fn noop_fold_path_parameters<T: Folder>(path_parameters: PathParameters, fld: &mut T)
    -> (r: PathParameters)
    ensures
        (r is AngleBracketedParameters <==> path_parameters is AngleBracketedParameters),
{
    match path_parameters {
        PathParameters::AngleBracketedParameters(data) =>
            PathParameters::AngleBracketedParameters(
                fld.fold_angle_bracketed_parameter_data(data)),
        PathParameters::ParenthesizedParameters(data) =>
            PathParameters::ParenthesizedParameters(
                fld.fold_parenthesized_parameter_data(data)),
    }
}

pub fn noop_fold_angle_bracketed_parameter_data<T: Folder>(data: AngleBracketedParameterData,
    fld: &mut T) -> (r: AngleBracketedParameterData)
    ensures
        r.types@.len() == data.types@.len(),
        r.bindings@.len() == data.bindings@.len(),
{
    let AngleBracketedParameterData { lifetimes, types, bindings } = data;
    let types = fold_ty_vec(types, fld);
    let mut rest = bindings;
    let mut out: Vec<P<TypeBinding>> = Vec::new();
    while rest.len() > 0
        invariant
            out@.len() + rest@.len() == data.bindings@.len(),
        decreases rest.len(),
    {
        let b = rest.remove(0);
        out.push(fld.fold_ty_binding(b));
    }
    AngleBracketedParameterData {
        lifetimes: fld.fold_lifetimes(lifetimes),
        types: types,
        bindings: out,
    }
}

pub fn noop_fold_parenthesized_parameter_data<T: Folder>(data: ParenthesizedParameterData,
    fld: &mut T) -> (r: ParenthesizedParameterData)
    ensures
        r.inputs@.len() == data.inputs@.len(),
        (r.output is Some <==> data.output is Some),
{
    let ParenthesizedParameterData { inputs, output, span } = data;
    ParenthesizedParameterData {
        inputs: fold_ty_vec(inputs, fld),
        output: match output {
            Some(ty) => Some(fld.fold_ty(ty)),
            None => None,
        },
        span: fld.new_span(span),
    }
}

pub fn noop_fold_local<T: Folder>(l: P<Local>, fld: &mut T) -> (r: P<Local>)
    ensures
        r.source == l.source,
        (r.ty is Some <==> l.ty is Some),
        (r.init is Some <==> l.init is Some),
{
    let Local { id, pat, ty, init, source, span } = l.into_inner();
    P(Local {
        id: fld.new_id(id),
        ty: match ty {
            Some(t) => Some(fld.fold_ty(t)),
            None => None,
        },
        pat: fld.fold_pat(pat),
        init: match init {
            Some(e) => Some(fld.fold_expr(e)),
            None => None,
        },
        source: source,
        span: fld.new_span(span),
    })
}

pub fn noop_fold_attribute<T: Folder>(at: Attribute, fld: &mut T) -> (r: Option<Attribute>)
    ensures
        r matches Some(a2) && a2.node.id == at.node.id && a2.node.style == at.node.style
            && a2.node.is_sugared_doc == at.node.is_sugared_doc,
{
    let Spanned { node: Attribute_ { id, style, value, is_sugared_doc }, span } = at;
    Some(Spanned {
        node: Attribute_ {
            id: id,
            style: style,
            value: fld.fold_meta_item(value),
            is_sugared_doc: is_sugared_doc,
        },
        span: fld.new_span(span),
    })
}

pub fn noop_fold_explicit_self_underscore<T: Folder>(es: ExplicitSelf_, fld: &mut T)
    -> (r: ExplicitSelf_)
    ensures
        (es is SelfStatic ==> r is SelfStatic),
        (es matches ExplicitSelf_::SelfValue(i) ==> r == ExplicitSelf_::SelfValue(i)),
        (es is SelfRegion ==> r is SelfRegion),
        (es is SelfExplicit ==> r is SelfExplicit),
{
    match es {
        ExplicitSelf_::SelfStatic => ExplicitSelf_::SelfStatic,
        ExplicitSelf_::SelfValue(ident) => ExplicitSelf_::SelfValue(ident),
        ExplicitSelf_::SelfRegion(lifetime, m, ident) => {
            ExplicitSelf_::SelfRegion(fld.fold_opt_lifetime(lifetime), m, ident)
        }
        ExplicitSelf_::SelfExplicit(typ, ident) => {
            ExplicitSelf_::SelfExplicit(fld.fold_ty(typ), ident)
        }
    }
}

pub fn noop_fold_explicit_self<T: Folder>(es: ExplicitSelf, fld: &mut T) -> ExplicitSelf {
    let Spanned { span, node } = es;
    Spanned {
        node: fld.fold_explicit_self_underscore(node),
        span: fld.new_span(span),
    }
}

pub fn noop_fold_mac<T: Folder>(m: Mac, fld: &mut T) -> Mac {
    let Spanned { node, span } = m;
    Spanned {
        node: match node {
            Mac_::MacInvocTT(p, tts, ctxt) => {
                Mac_::MacInvocTT(fld.fold_path(p), fld.fold_tts(tts), ctxt)
            }
        },
        span: fld.new_span(span),
    }
}

pub fn noop_fold_meta_item<T: Folder>(mi: P<MetaItem>, fld: &mut T) -> (r: P<MetaItem>)
    ensures
        (mi.node matches MetaItem_::MetaWord(w) ==> r.node == MetaItem_::MetaWord(w)),
        (mi.node matches MetaItem_::MetaNameValue(w, v) ==> r.node == MetaItem_::MetaNameValue(
            w, v)),
        (mi.node matches MetaItem_::MetaList(w, l) ==> r.node matches MetaItem_::MetaList(w2, l2)
            && w2 == w && l2@.len() == l@.len()),
{
    let Spanned { node, span } = mi.into_inner();
    P(Spanned {
        node: match node {
            MetaItem_::MetaWord(id) => MetaItem_::MetaWord(id),
            MetaItem_::MetaList(id, mis) => {
                MetaItem_::MetaList(id, fold_meta_item_vec(mis, fld))
            }
            MetaItem_::MetaNameValue(id, s) => MetaItem_::MetaNameValue(id, s),
        },
        span: fld.new_span(span),
    })
}

pub fn noop_fold_arg<T: Folder>(a: Arg, fld: &mut T) -> Arg {
    let Arg { id, pat, ty } = a;
    Arg {
        id: fld.new_id(id),
        pat: fld.fold_pat(pat),
        ty: fld.fold_ty(ty),
    }
}

pub fn noop_fold_tt<T: Folder>(tt: TokenTree, fld: &mut T) -> (r: TokenTree)
    ensures
        (tt matches TokenTree::TtToken(sp, _) ==> r matches TokenTree::TtToken(sp2, _) && sp2
            == sp),
        (tt matches TokenTree::TtDelimited(sp, d) ==> r matches TokenTree::TtDelimited(sp2, d2)
            && sp2 == sp && d2.delim == d.delim && d2.open_span == d.open_span && d2.close_span
            == d.close_span),
        (tt matches TokenTree::TtSequence(sp, q) ==> r matches TokenTree::TtSequence(sp2, q2)
            && sp2 == sp && q2.op == q.op && q2.num_captures == q.num_captures
            && (q.separator is Some <==> q2.separator is Some)),
{
    match tt {
        TokenTree::TtToken(span, tok) =>
            TokenTree::TtToken(span, fld.fold_token(tok)),
        TokenTree::TtDelimited(span, delimed) => {
            let Delimited { delim, open_span, tts, close_span } = delimed.into_inner();
            TokenTree::TtDelimited(span, P(Delimited {
                delim: delim,
                open_span: open_span,
                tts: fld.fold_tts(tts),
                close_span: close_span,
            }))
        }
        TokenTree::TtSequence(span, seq) => {
            let SequenceRepetition { tts, separator, op, num_captures } = seq.into_inner();
            TokenTree::TtSequence(span, P(SequenceRepetition {
                tts: fld.fold_tts(tts),
                separator: match separator {
                    Some(tok) => Some(fld.fold_token(tok)),
                    None => None,
                },
                op: op,
                num_captures: num_captures,
            }))
        }
    }
}

pub fn noop_fold_tts<T: Folder>(tts: Vec<TokenTree>, fld: &mut T) -> (r: Vec<TokenTree>)
    ensures
        r@.len() == tts@.len(),
{
    let mut rest = tts;
    let mut out: Vec<TokenTree> = Vec::new();
    while rest.len() > 0
        invariant
            out@.len() + rest@.len() == tts@.len(),
        decreases rest.len(),
    {
        let tt = rest.remove(0);
        out.push(fld.fold_tt(tt));
    }
    out
}

/// Apply the ident folder if the token is an ident, and the other folds to
/// interpolated nodes.
pub fn noop_fold_token<T: Folder>(t: Token, fld: &mut T) -> (r: Token)
    ensures
        !(t is Ident) && !(t is Lifetime) && !(t is Interpolated) && !(t is SubstNt) && !(
        t is MatchNt) ==> r == t,
        t is Ident ==> r is Ident,
        t is Lifetime ==> r is Lifetime,
        t is Interpolated ==> r is Interpolated,
        t is SubstNt ==> r is SubstNt,
        t is MatchNt ==> r is MatchNt,
{
    match t {
        Token::Ident(id, followed_by_colons) => {
            Token::Ident(fld.fold_ident(id), followed_by_colons)
        }
        Token::Lifetime(id) => Token::Lifetime(fld.fold_ident(id)),
        Token::Interpolated(nt) => Token::Interpolated(fld.fold_interpolated(nt)),
        Token::SubstNt(ident, namep) => {
            Token::SubstNt(fld.fold_ident(ident), namep)
        }
        Token::MatchNt(name, kind, namep, kindp) => {
            Token::MatchNt(fld.fold_ident(name), fld.fold_ident(kind), namep, kindp)
        }
        other => other,
    }
}

/// Apply the folder to the pieces of an interpolated node.
///
/// The one-to-many entry points (`fold_item`, `fold_stmt` and their kin) do
/// not fit inside a node that insists on exactly one piece, so this
/// structural fold applies the one-to-one rewrite directly: a folder that
/// multiplies items will not see the copies inside interpolated nodes.
pub fn noop_fold_interpolated<T: Folder>(nt: Nonterminal, fld: &mut T) -> (r: Nonterminal)
    ensures
        same_nonterminal_kind(r, nt),
{
    match nt {
        Nonterminal::NtItem(item) =>
            Nonterminal::NtItem(P(fld.fold_item_simple(item.into_inner()))),
        Nonterminal::NtBlock(block) => Nonterminal::NtBlock(fld.fold_block(block)),
        Nonterminal::NtStmt(stmt) => {
            let Spanned { node, span } = stmt.into_inner();
            let folded: Stmt_ = match node {
                Stmt_::StmtDecl(d, id) => {
                    let id = fld.new_id(id);
                    Stmt_::StmtDecl(d, id)
                }
                Stmt_::StmtExpr(e, id) => {
                    let id = fld.new_id(id);
                    Stmt_::StmtExpr(fld.fold_expr(e), id)
                }
                Stmt_::StmtSemi(e, id) => {
                    let id = fld.new_id(id);
                    Stmt_::StmtSemi(fld.fold_expr(e), id)
                }
                Stmt_::StmtMac(mac, semi) => {
                    Stmt_::StmtMac(P(fld.fold_mac(mac.into_inner())), semi)
                }
            };
            Nonterminal::NtStmt(P(Spanned { node: folded, span: fld.new_span(span) }))
        }
        Nonterminal::NtPat(pat) => Nonterminal::NtPat(fld.fold_pat(pat)),
        Nonterminal::NtExpr(expr) => Nonterminal::NtExpr(fld.fold_expr(expr)),
        Nonterminal::NtTy(ty) => Nonterminal::NtTy(fld.fold_ty(ty)),
        Nonterminal::NtIdent(id, is_mod_name) =>
            Nonterminal::NtIdent(Box::new(fld.fold_ident(*id)), is_mod_name),
        Nonterminal::NtMeta(meta_item) => Nonterminal::NtMeta(fld.fold_meta_item(meta_item)),
        Nonterminal::NtPath(path) => Nonterminal::NtPath(Box::new(fld.fold_path(*path))),
        Nonterminal::NtTT(tt) => Nonterminal::NtTT(P(fld.fold_tt(tt.into_inner()))),
        Nonterminal::NtArm(arm) => Nonterminal::NtArm(fld.fold_arm(arm)),
        Nonterminal::NtImplItem(arm) => {
            Nonterminal::NtImplItem(P(noop_fold_impl_item_simple(arm.into_inner(), fld)))
        }
        Nonterminal::NtTraitItem(arm) => {
            Nonterminal::NtTraitItem(P(noop_fold_trait_item_simple(arm.into_inner(), fld)))
        }
        Nonterminal::NtGenerics(generics) => Nonterminal::NtGenerics(fld.fold_generics(generics)),
        Nonterminal::NtWhereClause(where_clause) =>
            Nonterminal::NtWhereClause(fld.fold_where_clause(where_clause)),
    }
}

pub fn noop_fold_fn_decl<T: Folder>(decl: P<FnDecl>, fld: &mut T) -> (r: P<FnDecl>)
    ensures
        r.inputs@.len() == decl.inputs@.len(),
        r.variadic == decl.variadic,
        (r.output is Return <==> decl.output is Return),
{
    let FnDecl { inputs, output, variadic } = decl.into_inner();
    let mut rest = inputs;
    let mut out: Vec<Arg> = Vec::new();
    while rest.len() > 0
        invariant
            out@.len() + rest@.len() == decl.inputs@.len(),
        decreases rest.len(),
    {
        let x = rest.remove(0);
        out.push(fld.fold_arg(x));
    }
    P(FnDecl {
        inputs: out,
        output: match output {
            FunctionRetTy::Return(ty) => FunctionRetTy::Return(fld.fold_ty(ty)),
            FunctionRetTy::DefaultReturn(span) => FunctionRetTy::DefaultReturn(span),
            FunctionRetTy::NoReturn(span) => FunctionRetTy::NoReturn(span),
        },
        variadic: variadic,
    })
}

pub fn noop_fold_ty_param_bound<T: Folder>(tpb: TyParamBound, fld: &mut T) -> (r: TyParamBound)
    ensures
        (r is TraitTyParamBound <==> tpb is TraitTyParamBound),
{
    match tpb {
        TyParamBound::TraitTyParamBound(ty, modifier) =>
            TyParamBound::TraitTyParamBound(fld.fold_poly_trait_ref(ty), modifier),
        TyParamBound::RegionTyParamBound(lifetime) =>
            TyParamBound::RegionTyParamBound(fld.fold_lifetime(lifetime)),
    }
}

pub fn noop_fold_ty_param<T: Folder>(tp: TyParam, fld: &mut T) -> (r: TyParam)
    ensures
        r.ident == tp.ident,
        r.span == tp.span,
        (r.default is Some <==> tp.default is Some),
{
    let TyParam { id, ident, bounds, default, span } = tp;
    TyParam {
        id: fld.new_id(id),
        ident: ident,
        bounds: fld.fold_bounds(bounds),
        default: match default {
            Some(x) => Some(fld.fold_ty(x)),
            None => None,
        },
        span: span,
    }
}

pub fn noop_fold_ty_params<T: Folder>(tps: OwnedSlice<TyParam>, fld: &mut T)
    -> (r: OwnedSlice<TyParam>)
    ensures
        r@.len() == tps@.len(),
{
    let mut rest = tps;
    let mut out: OwnedSlice<TyParam> = Vec::new();
    while rest.len() > 0
        invariant
            out@.len() + rest@.len() == tps@.len(),
        decreases rest.len(),
    {
        let tp = rest.remove(0);
        out.push(fld.fold_ty_param(tp));
    }
    out
}

pub fn noop_fold_lifetime<T: Folder>(l: Lifetime, fld: &mut T) -> (r: Lifetime)
    ensures
        r.name == l.name,
{
    Lifetime {
        id: fld.new_id(l.id),
        name: l.name,
        span: fld.new_span(l.span),
    }
}

pub fn noop_fold_lifetime_def<T: Folder>(l: LifetimeDef, fld: &mut T) -> LifetimeDef {
    LifetimeDef {
        lifetime: fld.fold_lifetime(l.lifetime),
        bounds: fld.fold_lifetimes(l.bounds),
    }
}

pub fn noop_fold_lifetimes<T: Folder>(lts: Vec<Lifetime>, fld: &mut T) -> (r: Vec<Lifetime>)
    ensures
        r@.len() == lts@.len(),
{
    let mut rest = lts;
    let mut out: Vec<Lifetime> = Vec::new();
    while rest.len() > 0
        invariant
            out@.len() + rest@.len() == lts@.len(),
        decreases rest.len(),
    {
        let l = rest.remove(0);
        out.push(fld.fold_lifetime(l));
    }
    out
}

pub fn noop_fold_lifetime_defs<T: Folder>(lts: Vec<LifetimeDef>, fld: &mut T)
    -> (r: Vec<LifetimeDef>)
    ensures
        r@.len() == lts@.len(),
{
    let mut rest = lts;
    let mut out: Vec<LifetimeDef> = Vec::new();
    while rest.len() > 0
        invariant
            out@.len() + rest@.len() == lts@.len(),
        decreases rest.len(),
    {
        let l = rest.remove(0);
        out.push(fld.fold_lifetime_def(l));
    }
    out
}

pub fn noop_fold_opt_lifetime<T: Folder>(o_lt: Option<Lifetime>, fld: &mut T)
    -> (r: Option<Lifetime>)
    ensures
        (r is Some <==> o_lt is Some),
{
    match o_lt {
        Some(lt) => Some(fld.fold_lifetime(lt)),
        None => None,
    }
}

pub fn noop_fold_generics<T: Folder>(generics: Generics, fld: &mut T) -> Generics {
    let Generics { ty_params, lifetimes, where_clause } = generics;
    Generics {
        ty_params: fld.fold_ty_params(ty_params),
        lifetimes: fld.fold_lifetime_defs(lifetimes),
        where_clause: fld.fold_where_clause(where_clause),
    }
}

pub fn noop_fold_where_clause<T: Folder>(where_clause: WhereClause, fld: &mut T)
    -> (r: WhereClause)
    ensures
        r.predicates@.len() == where_clause.predicates@.len(),
{
    let WhereClause { id, predicates } = where_clause;
    let mut rest = predicates;
    let mut out: Vec<WherePredicate> = Vec::new();
    while rest.len() > 0
        invariant
            out@.len() + rest@.len() == where_clause.predicates@.len(),
        decreases rest.len(),
    {
        let predicate = rest.remove(0);
        out.push(fld.fold_where_predicate(predicate));
    }
    WhereClause { id: fld.new_id(id), predicates: out }
}

pub fn noop_fold_where_predicate<T: Folder>(pred: WherePredicate, fld: &mut T)
    -> (r: WherePredicate)
    ensures
        (r is BoundPredicate <==> pred is BoundPredicate),
        (r is RegionPredicate <==> pred is RegionPredicate),
        (r is EqPredicate <==> pred is EqPredicate),
{
    match pred {
        WherePredicate::BoundPredicate(WhereBoundPredicate { bound_lifetimes, bounded_ty, bounds,
            span }) => {
            let mut rest = bounds;
            let mut out: OwnedSlice<TyParamBound> = Vec::new();
            while rest.len() > 0
                decreases rest.len(),
            {
                let x = rest.remove(0);
                out.push(fld.fold_ty_param_bound(x));
            }
            WherePredicate::BoundPredicate(WhereBoundPredicate {
                bound_lifetimes: fld.fold_lifetime_defs(bound_lifetimes),
                bounded_ty: fld.fold_ty(bounded_ty),
                bounds: out,
                span: fld.new_span(span),
            })
        }
        WherePredicate::RegionPredicate(WhereRegionPredicate { lifetime, bounds, span }) => {
            WherePredicate::RegionPredicate(WhereRegionPredicate {
                span: fld.new_span(span),
                lifetime: fld.fold_lifetime(lifetime),
                bounds: fld.fold_lifetimes(bounds),
            })
        }
        WherePredicate::EqPredicate(WhereEqPredicate { id, path, ty, span }) => {
            WherePredicate::EqPredicate(WhereEqPredicate {
                id: fld.new_id(id),
                path: fld.fold_path(path),
                ty: fld.fold_ty(ty),
                span: fld.new_span(span),
            })
        }
    }
}

pub fn noop_fold_struct_def<T: Folder>(struct_def: P<StructDef>, fld: &mut T)
    -> (r: P<StructDef>)
    ensures
        r.fields@.len() == struct_def.fields@.len(),
        (r.ctor_id is Some <==> struct_def.ctor_id is Some),
{
    let StructDef { fields, ctor_id } = struct_def.into_inner();
    let mut rest = fields;
    let mut out: Vec<StructField> = Vec::new();
    while rest.len() > 0
        invariant
            out@.len() + rest@.len() == struct_def.fields@.len(),
        decreases rest.len(),
    {
        let f = rest.remove(0);
        out.push(fld.fold_struct_field(f));
    }
    P(StructDef {
        fields: out,
        ctor_id: match ctor_id {
            Some(cid) => Some(fld.new_id(cid)),
            None => None,
        },
    })
}

pub fn noop_fold_trait_ref<T: Folder>(p: TraitRef, fld: &mut T) -> TraitRef {
    let id = fld.new_id(p.ref_id);
    let TraitRef { path, ref_id } = p;
    TraitRef {
        path: fld.fold_path(path),
        ref_id: id,
    }
}

pub fn noop_fold_poly_trait_ref<T: Folder>(p: PolyTraitRef, fld: &mut T) -> PolyTraitRef {
    PolyTraitRef {
        bound_lifetimes: fld.fold_lifetime_defs(p.bound_lifetimes),
        trait_ref: fld.fold_trait_ref(p.trait_ref),
        span: fld.new_span(p.span),
    }
}

pub fn noop_fold_struct_field<T: Folder>(f: StructField, fld: &mut T) -> (r: StructField)
    ensures
        r.node.kind == f.node.kind,
        r.node.attrs@.len() <= f.node.attrs@.len(),
{
    let Spanned { node: StructField_ { id, kind, ty, attrs }, span } = f;
    Spanned {
        node: StructField_ {
            id: fld.new_id(id),
            kind: kind,
            ty: fld.fold_ty(ty),
            attrs: fold_attrs(attrs, fld),
        },
        span: fld.new_span(span),
    }
}

pub fn noop_fold_field<T: Folder>(f: Field, folder: &mut T) -> Field {
    let Field { ident, expr, span } = f;
    Field {
        ident: respan(ident.span, folder.fold_ident(ident.node)),
        expr: folder.fold_expr(expr),
        span: folder.new_span(span),
    }
}

pub fn noop_fold_mt<T: Folder>(mt: MutTy, folder: &mut T) -> (r: MutTy)
    ensures
        r.mutbl == mt.mutbl,
{
    let MutTy { ty, mutbl } = mt;
    MutTy {
        ty: folder.fold_ty(ty),
        mutbl: mutbl,
    }
}

pub fn noop_fold_opt_bounds<T: Folder>(b: Option<OwnedSlice<TyParamBound>>, folder: &mut T)
    -> (r: Option<OwnedSlice<TyParamBound>>)
    ensures
        (r is Some <==> b is Some),
{
    match b {
        Some(bounds) => Some(folder.fold_bounds(bounds)),
        None => None,
    }
}

pub fn noop_fold_bounds<T: Folder>(bounds: TyParamBounds, folder: &mut T) -> (r: TyParamBounds)
    ensures
        r@.len() == bounds@.len(),
{
    let mut rest = bounds;
    let mut out: TyParamBounds = Vec::new();
    while rest.len() > 0
        invariant
            out@.len() + rest@.len() == bounds@.len(),
        decreases rest.len(),
    {
        let bound = rest.remove(0);
        out.push(folder.fold_ty_param_bound(bound));
    }
    out
}

pub fn noop_fold_variant_arg<T: Folder>(va: VariantArg, folder: &mut T) -> VariantArg {
    let VariantArg { id, ty } = va;
    VariantArg {
        id: folder.new_id(id),
        ty: folder.fold_ty(ty),
    }
}

pub fn noop_fold_block<T: Folder>(b: P<Block>, folder: &mut T) -> (r: P<Block>)
    ensures
        r.rules == b.rules,
        (r.expr is Some <==> b.expr is Some),
{
    let Block { id, stmts, expr, rules, span } = b.into_inner();
    let mut rest = stmts;
    let mut out: Vec<P<Stmt>> = Vec::new();
    while rest.len() > 0
        decreases rest.len(),
    {
        let s = rest.remove(0);
        let mut folded = folder.fold_stmt(s).into_vec();
        out.append(&mut folded);
    }
    P(Block {
        id: folder.new_id(id),
        stmts: out,
        expr: match expr {
            Some(x) => Some(folder.fold_expr(x)),
            None => None,
        },
        rules: rules,
        span: folder.new_span(span),
    })
}

pub fn noop_fold_item_underscore<T: Folder>(i: Item_, folder: &mut T) -> (r: Item_)
    ensures
        same_item_kind(r, i),
{
    match i {
        Item_::ItemExternCrate(name) => Item_::ItemExternCrate(name),
        Item_::ItemUse(view_path) => {
            Item_::ItemUse(folder.fold_view_path(view_path))
        }
        Item_::ItemStatic(t, m, e) => {
            Item_::ItemStatic(folder.fold_ty(t), m, folder.fold_expr(e))
        }
        Item_::ItemConst(t, e) => {
            Item_::ItemConst(folder.fold_ty(t), folder.fold_expr(e))
        }
        Item_::ItemFn(decl, unsafety, constness, abi, generics, body) => {
            Item_::ItemFn(
                folder.fold_fn_decl(decl),
                unsafety,
                constness,
                abi,
                folder.fold_generics(generics),
                folder.fold_block(body),
            )
        }
        Item_::ItemMod(m) => Item_::ItemMod(folder.fold_mod(m)),
        Item_::ItemForeignMod(nm) => Item_::ItemForeignMod(folder.fold_foreign_mod(nm)),
        Item_::ItemTy(t, generics) => {
            Item_::ItemTy(folder.fold_ty(t), folder.fold_generics(generics))
        }
        Item_::ItemEnum(enum_definition, generics) => {
            let mut rest = enum_definition.variants;
            let mut out: Vec<P<Variant>> = Vec::new();
            while rest.len() > 0
                decreases rest.len(),
            {
                let x = rest.remove(0);
                out.push(folder.fold_variant(x));
            }
            Item_::ItemEnum(EnumDef { variants: out }, folder.fold_generics(generics))
        }
        Item_::ItemStruct(struct_def, generics) => {
            let struct_def = folder.fold_struct_def(struct_def);
            Item_::ItemStruct(struct_def, folder.fold_generics(generics))
        }
        Item_::ItemDefaultImpl(unsafety, trait_ref) => {
            Item_::ItemDefaultImpl(unsafety, folder.fold_trait_ref(trait_ref))
        }
        Item_::ItemImpl(unsafety, polarity, generics, ifce, ty, impl_items) => {
            let mut rest = impl_items;
            let mut new_impl_items: Vec<P<ImplItem>> = Vec::new();
            while rest.len() > 0
                decreases rest.len(),
            {
                let item = rest.remove(0);
                let mut folded = folder.fold_impl_item(item).into_vec();
                new_impl_items.append(&mut folded);
            }
            let ifce = match ifce {
                None => None,
                Some(trait_ref) => Some(folder.fold_trait_ref(trait_ref)),
            };
            Item_::ItemImpl(unsafety,
                polarity,
                folder.fold_generics(generics),
                ifce,
                folder.fold_ty(ty),
                new_impl_items)
        }
        Item_::ItemTrait(unsafety, generics, bounds, items) => {
            let bounds = folder.fold_bounds(bounds);
            let mut rest = items;
            let mut out: Vec<P<TraitItem>> = Vec::new();
            while rest.len() > 0
                decreases rest.len(),
            {
                let item = rest.remove(0);
                let mut folded = folder.fold_trait_item(item).into_vec();
                out.append(&mut folded);
            }
            Item_::ItemTrait(unsafety,
                folder.fold_generics(generics),
                bounds,
                out)
        }
        Item_::ItemMac(m) => Item_::ItemMac(folder.fold_mac(m)),
    }
}

/// The one-to-one rewrite of a trait item; used where a node can hold only
/// one.
fn noop_fold_trait_item_simple<T: Folder>(i: TraitItem, folder: &mut T) -> TraitItem {
    let TraitItem { id, ident, attrs, node, span } = i;
    TraitItem {
        id: folder.new_id(id),
        ident: folder.fold_ident(ident),
        attrs: fold_attrs(attrs, folder),
        node: match node {
            TraitItem_::ConstTraitItem(ty, default) => {
                TraitItem_::ConstTraitItem(folder.fold_ty(ty), match default {
                    Some(x) => Some(folder.fold_expr(x)),
                    None => None,
                })
            }
            TraitItem_::MethodTraitItem(sig, body) => {
                TraitItem_::MethodTraitItem(noop_fold_method_sig(sig, folder), match body {
                    Some(x) => Some(folder.fold_block(x)),
                    None => None,
                })
            }
            TraitItem_::TypeTraitItem(bounds, default) => {
                TraitItem_::TypeTraitItem(folder.fold_bounds(bounds), match default {
                    Some(x) => Some(folder.fold_ty(x)),
                    None => None,
                })
            }
        },
        span: folder.new_span(span),
    }
}

pub fn noop_fold_trait_item<T: Folder>(i: P<TraitItem>, folder: &mut T)
    -> (r: SmallVector<P<TraitItem>>)
    ensures
        r@.len() == 1,
{
    SmallVector::one(P(noop_fold_trait_item_simple(i.into_inner(), folder)))
}

/// The one-to-one rewrite of an impl item; used where a node can hold only
/// one.
fn noop_fold_impl_item_simple<T: Folder>(i: ImplItem, folder: &mut T) -> ImplItem {
    let ImplItem { id, ident, attrs, node, vis, span } = i;
    ImplItem {
        id: folder.new_id(id),
        ident: folder.fold_ident(ident),
        attrs: fold_attrs(attrs, folder),
        vis: vis,
        node: match node {
            ImplItem_::ConstImplItem(ty, expr) => {
                ImplItem_::ConstImplItem(folder.fold_ty(ty), folder.fold_expr(expr))
            }
            ImplItem_::MethodImplItem(sig, body) => {
                ImplItem_::MethodImplItem(noop_fold_method_sig(sig, folder),
                    folder.fold_block(body))
            }
            ImplItem_::TypeImplItem(ty) => ImplItem_::TypeImplItem(folder.fold_ty(ty)),
            ImplItem_::MacImplItem(mac) => ImplItem_::MacImplItem(folder.fold_mac(mac)),
        },
        span: folder.new_span(span),
    }
}

pub fn noop_fold_impl_item<T: Folder>(i: P<ImplItem>, folder: &mut T)
    -> (r: SmallVector<P<ImplItem>>)
    ensures
        r@.len() == 1,
{
    SmallVector::one(P(noop_fold_impl_item_simple(i.into_inner(), folder)))
}

pub fn noop_fold_mod<T: Folder>(m: Mod, folder: &mut T) -> Mod {
    let Mod { inner, items } = m;
    let mut rest = items;
    let mut out: Vec<P<Item>> = Vec::new();
    while rest.len() > 0
        decreases rest.len(),
    {
        let x = rest.remove(0);
        let mut folded = folder.fold_item(x).into_vec();
        out.append(&mut folded);
    }
    Mod {
        inner: folder.new_span(inner),
        items: out,
    }
}

pub fn noop_fold_crate<T: Folder>(c: Crate, folder: &mut T) -> (r: Crate)
    ensures
        r.exported_macros@.len() == c.exported_macros@.len(),
{
    let Crate { module, attrs, config, exported_macros, span } = c;
    let config = folder.fold_meta_items(config);

    let mut items = folder.fold_item(P(Item {
        ident: invalid_ident(),
        attrs: attrs,
        id: DUMMY_NODE_ID,
        vis: crate::ast::Visibility::Public,
        span: span,
        node: Item_::ItemMod(module),
    })).into_vec();

    // A fold of the synthetic root module must hand back one module item;
    // a fold that drops it or turns it into something else leaves an empty
    // crate behind.
    let (module, attrs, span) = if items.len() >= 1 {
        let Item { attrs, span, node, .. } = items.remove(0).into_inner();
        match node {
            Item_::ItemMod(m) => (m, attrs, span),
            _ => (Mod { inner: span, items: Vec::new() }, Vec::new(), span),
        }
    } else {
        (Mod { inner: span, items: Vec::new() }, Vec::new(), span)
    };

    let mut rest = exported_macros;
    let mut new_macros: Vec<MacroDef> = Vec::new();
    while rest.len() > 0
        invariant
            new_macros@.len() + rest@.len() == c.exported_macros@.len(),
        decreases rest.len(),
    {
        let mut def = rest.remove(0);
        def.id = folder.new_id(def.id);
        new_macros.push(def);
    }

    Crate {
        module: module,
        attrs: attrs,
        config: config,
        exported_macros: new_macros,
        span: span,
    }
}

/// Fold one item into possibly many items.
pub fn noop_fold_item<T: Folder>(i: P<Item>, folder: &mut T) -> (r: SmallVector<P<Item>>)
    ensures
        r@.len() == 1,
{
    SmallVector::one(P(folder.fold_item_simple(i.into_inner())))
}

/// Fold one item into exactly one item.
pub fn noop_fold_item_simple<T: Folder>(i: Item, folder: &mut T) -> (r: Item)
    ensures
        r.vis == i.vis,
        r.attrs@.len() <= i.attrs@.len(),
{
    let Item { id, ident, attrs, node, vis, span } = i;
    let id = folder.new_id(id);
    let node = folder.fold_item_underscore(node);

    Item {
        id: id,
        ident: folder.fold_ident(ident),
        attrs: fold_attrs(attrs, folder),
        node: node,
        vis: vis,
        span: folder.new_span(span),
    }
}

pub fn noop_fold_foreign_item<T: Folder>(ni: P<ForeignItem>, folder: &mut T)
    -> (r: P<ForeignItem>)
    ensures
        r.vis == ni.vis,
        (r.node is ForeignItemFn <==> ni.node is ForeignItemFn),
{
    let ForeignItem { id, ident, attrs, node, span, vis } = ni.into_inner();
    P(ForeignItem {
        id: folder.new_id(id),
        ident: folder.fold_ident(ident),
        attrs: fold_attrs(attrs, folder),
        node: match node {
            ForeignItem_::ForeignItemFn(fdec, generics) => {
                ForeignItem_::ForeignItemFn(folder.fold_fn_decl(fdec),
                    folder.fold_generics(generics))
            }
            ForeignItem_::ForeignItemStatic(t, m) => {
                ForeignItem_::ForeignItemStatic(folder.fold_ty(t), m)
            }
        },
        vis: vis,
        span: folder.new_span(span),
    })
}

pub fn noop_fold_method_sig<T: Folder>(sig: MethodSig, folder: &mut T) -> (r: MethodSig)
    ensures
        r.unsafety == sig.unsafety,
        r.constness == sig.constness,
        r.abi == sig.abi,
{
    let MethodSig { unsafety, constness, abi, decl, generics, explicit_self } = sig;
    MethodSig {
        generics: folder.fold_generics(generics),
        abi: abi,
        explicit_self: folder.fold_explicit_self(explicit_self),
        unsafety: unsafety,
        constness: constness,
        decl: folder.fold_fn_decl(decl),
    }
}

pub fn noop_fold_pat<T: Folder>(p: P<Pat>, folder: &mut T) -> (r: P<Pat>)
    ensures
        same_pat_kind(r.node, p.node),
{
    let Pat { id, node, span } = p.into_inner();
    P(Pat {
        id: folder.new_id(id),
        node: match node {
            Pat_::PatWild(k) => Pat_::PatWild(k),
            Pat_::PatIdent(binding_mode, pth1, sub) => {
                Pat_::PatIdent(binding_mode,
                    Spanned {
                        span: folder.new_span(pth1.span),
                        node: folder.fold_ident(pth1.node),
                    },
                    match sub {
                        Some(x) => Some(folder.fold_pat(x)),
                        None => None,
                    })
            }
            Pat_::PatLit(e) => Pat_::PatLit(folder.fold_expr(e)),
            Pat_::PatEnum(pth, pats) => {
                Pat_::PatEnum(folder.fold_path(pth), match pats {
                    Some(pats) => Some(fold_pat_vec(pats, folder)),
                    None => None,
                })
            }
            Pat_::PatQPath(qself, pth) => {
                let qself = QSelf { ty: folder.fold_ty(qself.ty), position: qself.position };
                Pat_::PatQPath(qself, folder.fold_path(pth))
            }
            Pat_::PatStruct(pth, fields, etc) => {
                let pth = folder.fold_path(pth);
                let mut rest = fields;
                let mut fs: Vec<Spanned<FieldPat>> = Vec::new();
                while rest.len() > 0
                    decreases rest.len(),
                {
                    let f = rest.remove(0);
                    fs.push(Spanned {
                        span: folder.new_span(f.span),
                        node: FieldPat {
                            ident: f.node.ident,
                            pat: folder.fold_pat(f.node.pat),
                            is_shorthand: f.node.is_shorthand,
                        },
                    });
                }
                Pat_::PatStruct(pth, fs, etc)
            }
            Pat_::PatTup(elts) => Pat_::PatTup(fold_pat_vec(elts, folder)),
            Pat_::PatBox(inner) => Pat_::PatBox(folder.fold_pat(inner)),
            Pat_::PatRegion(inner, mutbl) => Pat_::PatRegion(folder.fold_pat(inner), mutbl),
            Pat_::PatRange(e1, e2) => {
                Pat_::PatRange(folder.fold_expr(e1), folder.fold_expr(e2))
            }
            Pat_::PatVec(before, slice, after) => {
                Pat_::PatVec(fold_pat_vec(before, folder),
                    match slice {
                        Some(x) => Some(folder.fold_pat(x)),
                        None => None,
                    },
                    fold_pat_vec(after, folder))
            }
            Pat_::PatMac(mac) => Pat_::PatMac(folder.fold_mac(mac)),
        },
        span: folder.new_span(span),
    })
}

fn fold_arm_vec<T: Folder>(v: Vec<Arm>, fld: &mut T) -> (r: Vec<Arm>)
    ensures
        r@.len() == v@.len(),
{
    let mut rest = v;
    let mut out: Vec<Arm> = Vec::new();
    while rest.len() > 0
        invariant
            out@.len() + rest@.len() == v@.len(),
        decreases rest.len(),
    {
        let x = rest.remove(0);
        out.push(fld.fold_arm(x));
    }
    out
}

fn fold_field_vec<T: Folder>(v: Vec<Field>, fld: &mut T) -> (r: Vec<Field>)
    ensures
        r@.len() == v@.len(),
{
    let mut rest = v;
    let mut out: Vec<Field> = Vec::new();
    while rest.len() > 0
        invariant
            out@.len() + rest@.len() == v@.len(),
        decreases rest.len(),
    {
        let x = rest.remove(0);
        out.push(fld.fold_field(x));
    }
    out
}

pub fn noop_fold_expr<T: Folder>(e: Expr, folder: &mut T) -> (r: Expr)
    ensures
        same_expr_kind(r.node, e.node),
{
    let Expr { id, node, span } = e;
    Expr {
        id: folder.new_id(id),
        node: match node {
            Expr_::ExprBox(p, e) => {
                Expr_::ExprBox(match p {
                    Some(x) => Some(folder.fold_expr(x)),
                    None => None,
                }, folder.fold_expr(e))
            }
            Expr_::ExprVec(exprs) => {
                Expr_::ExprVec(fold_expr_vec(exprs, folder))
            }
            Expr_::ExprRepeat(expr, count) => {
                Expr_::ExprRepeat(folder.fold_expr(expr), folder.fold_expr(count))
            }
            Expr_::ExprTup(elts) => Expr_::ExprTup(fold_expr_vec(elts, folder)),
            Expr_::ExprCall(f, args) => {
                Expr_::ExprCall(folder.fold_expr(f), fold_expr_vec(args, folder))
            }
            Expr_::ExprMethodCall(i, tps, args) => {
                Expr_::ExprMethodCall(
                    respan(folder.new_span(i.span), folder.fold_ident(i.node)),
                    fold_ty_vec(tps, folder),
                    fold_expr_vec(args, folder))
            }
            Expr_::ExprBinary(binop, lhs, rhs) => {
                Expr_::ExprBinary(binop, folder.fold_expr(lhs), folder.fold_expr(rhs))
            }
            Expr_::ExprUnary(unop, ohs) => {
                Expr_::ExprUnary(unop, folder.fold_expr(ohs))
            }
            Expr_::ExprLit(l) => Expr_::ExprLit(l),
            Expr_::ExprCast(expr, ty) => {
                Expr_::ExprCast(folder.fold_expr(expr), folder.fold_ty(ty))
            }
            Expr_::ExprAddrOf(m, ohs) => Expr_::ExprAddrOf(m, folder.fold_expr(ohs)),
            Expr_::ExprIf(cond, tr, fl) => {
                Expr_::ExprIf(folder.fold_expr(cond), folder.fold_block(tr), match fl {
                    Some(x) => Some(folder.fold_expr(x)),
                    None => None,
                })
            }
            Expr_::ExprIfLet(pat, expr, tr, fl) => {
                Expr_::ExprIfLet(folder.fold_pat(pat), folder.fold_expr(expr),
                    folder.fold_block(tr), match fl {
                    Some(x) => Some(folder.fold_expr(x)),
                    None => None,
                })
            }
            Expr_::ExprWhile(cond, body, opt_ident) => {
                Expr_::ExprWhile(folder.fold_expr(cond), folder.fold_block(body), match opt_ident {
                    Some(i) => Some(folder.fold_ident(i)),
                    None => None,
                })
            }
            Expr_::ExprWhileLet(pat, expr, body, opt_ident) => {
                Expr_::ExprWhileLet(folder.fold_pat(pat), folder.fold_expr(expr),
                    folder.fold_block(body), match opt_ident {
                    Some(i) => Some(folder.fold_ident(i)),
                    None => None,
                })
            }
            Expr_::ExprForLoop(pat, iter, body, opt_ident) => {
                Expr_::ExprForLoop(folder.fold_pat(pat), folder.fold_expr(iter),
                    folder.fold_block(body), match opt_ident {
                    Some(i) => Some(folder.fold_ident(i)),
                    None => None,
                })
            }
            Expr_::ExprLoop(body, opt_ident) => {
                Expr_::ExprLoop(folder.fold_block(body), match opt_ident {
                    Some(i) => Some(folder.fold_ident(i)),
                    None => None,
                })
            }
            Expr_::ExprMatch(expr, arms, source) => {
                Expr_::ExprMatch(folder.fold_expr(expr), fold_arm_vec(arms, folder), source)
            }
            Expr_::ExprClosure(capture_clause, decl, body) => {
                Expr_::ExprClosure(capture_clause,
                    folder.fold_fn_decl(decl),
                    folder.fold_block(body))
            }
            Expr_::ExprBlock(blk) => Expr_::ExprBlock(folder.fold_block(blk)),
            Expr_::ExprAssign(el, er) => {
                Expr_::ExprAssign(folder.fold_expr(el), folder.fold_expr(er))
            }
            Expr_::ExprAssignOp(op, el, er) => {
                Expr_::ExprAssignOp(op, folder.fold_expr(el), folder.fold_expr(er))
            }
            Expr_::ExprField(el, ident) => {
                Expr_::ExprField(folder.fold_expr(el),
                    respan(folder.new_span(ident.span), folder.fold_ident(ident.node)))
            }
            Expr_::ExprTupField(el, ident) => {
                Expr_::ExprTupField(folder.fold_expr(el),
                    respan(folder.new_span(ident.span), folder.fold_usize(ident.node)))
            }
            Expr_::ExprIndex(el, er) => {
                Expr_::ExprIndex(folder.fold_expr(el), folder.fold_expr(er))
            }
            Expr_::ExprRange(e1, e2) => {
                Expr_::ExprRange(match e1 {
                    Some(x) => Some(folder.fold_expr(x)),
                    None => None,
                }, match e2 {
                    Some(x) => Some(folder.fold_expr(x)),
                    None => None,
                })
            }
            Expr_::ExprPath(qself, path) => {
                let qself = match qself {
                    Some(QSelf { ty, position }) => {
                        Some(QSelf { ty: folder.fold_ty(ty), position: position })
                    }
                    None => None,
                };
                Expr_::ExprPath(qself, folder.fold_path(path))
            }
            Expr_::ExprBreak(opt_ident) => Expr_::ExprBreak(match opt_ident {
                Some(x) => Some(folder.fold_ident(x)),
                None => None,
            }),
            Expr_::ExprAgain(opt_ident) => Expr_::ExprAgain(match opt_ident {
                Some(x) => Some(folder.fold_ident(x)),
                None => None,
            }),
            Expr_::ExprRet(e) => Expr_::ExprRet(match e {
                Some(x) => Some(folder.fold_expr(x)),
                None => None,
            }),
            Expr_::ExprInlineAsm(asm_block) => {
                let InlineAsm { inputs, outputs, template, template_str_style, clobbers,
                    volatile, alignstack, dialect, expn_id } = asm_block;
                let mut rest_in = inputs;
                let mut new_inputs: Vec<(InternedString, P<Expr>)> = Vec::new();
                while rest_in.len() > 0
                    decreases rest_in.len(),
                {
                    let (c, input) = rest_in.remove(0);
                    new_inputs.push((c, folder.fold_expr(input)));
                }
                let mut rest_out = outputs;
                let mut new_outputs: Vec<(InternedString, P<Expr>, bool)> = Vec::new();
                while rest_out.len() > 0
                    decreases rest_out.len(),
                {
                    let (c, out, is_rw) = rest_out.remove(0);
                    new_outputs.push((c, folder.fold_expr(out), is_rw));
                }
                Expr_::ExprInlineAsm(InlineAsm {
                    inputs: new_inputs,
                    outputs: new_outputs,
                    template: template,
                    template_str_style: template_str_style,
                    clobbers: clobbers,
                    volatile: volatile,
                    alignstack: alignstack,
                    dialect: dialect,
                    expn_id: expn_id,
                })
            }
            Expr_::ExprMac(mac, delim) => Expr_::ExprMac(folder.fold_mac(mac), delim),
            Expr_::ExprStruct(path, fields, maybe_expr) => {
                Expr_::ExprStruct(folder.fold_path(path), fold_field_vec(fields, folder),
                    match maybe_expr {
                    Some(x) => Some(folder.fold_expr(x)),
                    None => None,
                })
            }
            Expr_::ExprParen(ex) => Expr_::ExprParen(folder.fold_expr(ex)),
        },
        span: folder.new_span(span),
    }
}

pub fn noop_fold_stmt<T: Folder>(s: Stmt, folder: &mut T) -> (r: SmallVector<P<Stmt>>)
    ensures
        !(s.node is StmtDecl) ==> r@.len() == 1,
{
    let Spanned { node, span } = s;
    let span = folder.new_span(span);
    match node {
        Stmt_::StmtDecl(d, id) => {
            let id = folder.new_id(id);
            let mut decls = folder.fold_decl(d).into_vec();
            let mut out: SmallVector<P<Stmt>> = SmallVector::zero();
            while decls.len() > 0
                decreases decls.len(),
            {
                let d = decls.remove(0);
                out.push(P(Spanned { node: Stmt_::StmtDecl(d, id), span: span }));
            }
            out
        }
        Stmt_::StmtExpr(e, id) => {
            let id = folder.new_id(id);
            SmallVector::one(P(Spanned {
                node: Stmt_::StmtExpr(folder.fold_expr(e), id),
                span: span,
            }))
        }
        Stmt_::StmtSemi(e, id) => {
            let id = folder.new_id(id);
            SmallVector::one(P(Spanned {
                node: Stmt_::StmtSemi(folder.fold_expr(e), id),
                span: span,
            }))
        }
        Stmt_::StmtMac(mac, semi) => SmallVector::one(P(Spanned {
            node: Stmt_::StmtMac(P(folder.fold_mac(mac.into_inner())), semi),
            span: span,
        })),
    }
}

} // verus!
