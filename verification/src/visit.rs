//! Syntax-tree walker. Each visit method of a [`Visitor`] has full control
//! over what happens with its node: it can do its own traversal of the
//! node's children, call the matching `walk_*` function to apply the default
//! traversal algorithm, or prevent deeper traversal by doing nothing.
//!
//! The default walk visits the body of a function in execution order: if
//! node A may execute before node B, then A is visited first.
//!
//! Walking a tree before macro expansion is probably a bad idea: a walker
//! looking for item names in a module will miss all of those that are
//! created by the expansion of a macro.

use vstd::prelude::*;

use crate::abi::Abi;
use crate::ast::{Arm, Attribute, Block, Constness, Crate, Decl, Decl_, EnumDef, ExplicitSelf,
    ExplicitSelf_, Expr, Expr_, FnDecl, ForeignItem, ForeignItem_, FunctionRetTy, Generics, Ident,
    ImplItem, ImplItem_, InlinedItem, Item, Item_, Lifetime, LifetimeDef, Local, Mac, MethodSig,
    Mod, Name, NodeId, Pat, Pat_, Path, PathListItem_, PathParameters, PathSegment, PolyTraitRef,
    Stmt, Stmt_, StructDef, StructField, StructFieldKind, TraitBoundModifier, TraitItem,
    TraitItem_, TraitRef, Ty, TyParamBound, Ty_, Unsafety, VariantKind, ViewPath_, Visibility,
    Variant, TypeBinding, CRATE_NODE_ID};
use crate::codemap::Span;
use crate::owned_slice::OwnedSlice;
use crate::ptr::P;

verus! {

/// The kind of function being visited.
pub enum FnKind<'a> {
    /// A free function or an extern function
    FkItemFn(Ident, &'a Generics, Unsafety, Constness, Abi, Visibility),
    /// A method
    FkMethod(Ident, &'a MethodSig, Option<Visibility>),
    /// A closure body
    FkFnBlock,
}

/// Each method of the Visitor trait is a hook that a traversal calls when
/// it reaches the matching kind of node. An implementation that wants the
/// default traversal below a node calls the matching `walk_*` function;
/// one that does nothing prunes the walk at that node.
pub trait Visitor<'v>: Sized {
    fn visit_name(&mut self, span: Span, name: &'v Name);

    fn visit_ident(&mut self, span: Span, ident: &'v Ident);

    fn visit_mod(&mut self, m: &'v Mod, s: Span, n: NodeId);

    fn visit_foreign_item(&mut self, i: &'v ForeignItem);

    fn visit_item(&mut self, i: &'v Item);

    fn visit_local(&mut self, l: &'v Local);

    fn visit_block(&mut self, b: &'v Block);

    fn visit_stmt(&mut self, s: &'v Stmt);

    fn visit_arm(&mut self, a: &'v Arm);

    fn visit_pat(&mut self, p: &'v Pat);

    fn visit_decl(&mut self, d: &'v Decl);

    fn visit_expr(&mut self, ex: &'v Expr);

    fn visit_expr_post(&mut self, ex: &'v Expr);

    fn visit_ty(&mut self, t: &'v Ty);

    fn visit_generics(&mut self, g: &'v Generics);

    fn visit_fn(&mut self, fk: FnKind<'v>, fd: &'v FnDecl, b: &'v Block, s: Span, n: NodeId);

    fn visit_trait_item(&mut self, ti: &'v TraitItem);

    fn visit_impl_item(&mut self, ii: &'v ImplItem);

    fn visit_trait_ref(&mut self, t: &'v TraitRef);

    fn visit_ty_param_bound(&mut self, bounds: &'v TyParamBound);

    fn visit_poly_trait_ref(&mut self, t: &'v PolyTraitRef, m: &'v TraitBoundModifier);

    fn visit_struct_def(&mut self, s: &'v StructDef, ident: &'v Ident, g: &'v Generics, n: NodeId);

    fn visit_struct_field(&mut self, s: &'v StructField);

    fn visit_variant(&mut self, v: &'v Variant, g: &'v Generics);

    /// Visits an optional reference to a lifetime. The `span` is the span
    /// of some surrounding reference, should the lifetime be absent.
    fn visit_opt_lifetime_ref(&mut self, span: Span, opt_lifetime: &'v Option<Lifetime>);

    fn visit_lifetime_bound(&mut self, lifetime: &'v Lifetime);

    fn visit_lifetime_ref(&mut self, lifetime: &'v Lifetime);

    fn visit_lifetime_def(&mut self, lifetime: &'v LifetimeDef);

    fn visit_explicit_self(&mut self, es: &'v ExplicitSelf);

    fn visit_mac(&mut self, mac: &'v Mac);

    fn visit_path(&mut self, path: &'v Path, id: NodeId);

    fn visit_path_segment(&mut self, path_span: Span, path_segment: &'v PathSegment);

    fn visit_path_parameters(&mut self, path_span: Span, path_parameters: &'v PathParameters);

    fn visit_assoc_type_binding(&mut self, type_binding: &'v TypeBinding);

    fn visit_attribute(&mut self, attr: &'v Attribute);
}

pub fn walk_inlined_item<'v, V: Visitor<'v>>(visitor: &mut V, item: &'v InlinedItem) {
    match item {
        InlinedItem::IIItem(i) => visitor.visit_item(i),
        InlinedItem::IIForeign(i) => visitor.visit_foreign_item(i),
        InlinedItem::IITraitItem(_, ti) => visitor.visit_trait_item(ti),
        InlinedItem::IIImplItem(_, ii) => visitor.visit_impl_item(ii),
    }
}

pub fn walk_crate<'v, V: Visitor<'v>>(visitor: &mut V, krate: &'v Crate) {
    visitor.visit_mod(&krate.module, krate.span, CRATE_NODE_ID);
    let mut i: usize = 0;
    while i < krate.attrs.len()
        decreases krate.attrs.len() - i,
    {
        visitor.visit_attribute(&krate.attrs[i]);
        i = i + 1;
    }
}

pub fn walk_mod<'v, V: Visitor<'v>>(visitor: &mut V, module: &'v Mod) {
    let mut i: usize = 0;
    while i < module.items.len()
        decreases module.items.len() - i,
    {
        visitor.visit_item(&module.items[i]);
        i = i + 1;
    }
}

pub fn walk_local<'v, V: Visitor<'v>>(visitor: &mut V, local: &'v Local) {
    visitor.visit_pat(&local.pat);
    walk_ty_opt(visitor, &local.ty);
    walk_expr_opt(visitor, &local.init);
}

pub fn walk_lifetime_def<'v, V: Visitor<'v>>(visitor: &mut V, lifetime_def: &'v LifetimeDef) {
    visitor.visit_name(lifetime_def.lifetime.span, &lifetime_def.lifetime.name);
    let mut i: usize = 0;
    while i < lifetime_def.bounds.len()
        decreases lifetime_def.bounds.len() - i,
    {
        visitor.visit_lifetime_bound(&lifetime_def.bounds[i]);
        i = i + 1;
    }
}

pub fn walk_lifetime_bound<'v, V: Visitor<'v>>(visitor: &mut V, lifetime_ref: &'v Lifetime) {
    visitor.visit_lifetime_ref(lifetime_ref)
}

pub fn walk_lifetime_ref<'v, V: Visitor<'v>>(visitor: &mut V, lifetime_ref: &'v Lifetime) {
    visitor.visit_name(lifetime_ref.span, &lifetime_ref.name)
}

pub fn walk_explicit_self<'v, V: Visitor<'v>>(visitor: &mut V, explicit_self: &'v ExplicitSelf) {
    match &explicit_self.node {
        ExplicitSelf_::SelfStatic => {}
        ExplicitSelf_::SelfValue(_) => {}
        ExplicitSelf_::SelfRegion(lifetime, _, _) => {
            visitor.visit_opt_lifetime_ref(explicit_self.span, lifetime)
        }
        ExplicitSelf_::SelfExplicit(typ, _) => visitor.visit_ty(typ),
    }
}

pub fn walk_poly_trait_ref<'v, V: Visitor<'v>>(visitor: &mut V, trait_ref: &'v PolyTraitRef,
    _modifier: &'v TraitBoundModifier) {
    walk_lifetime_decls_helper(visitor, &trait_ref.bound_lifetimes);
    visitor.visit_trait_ref(&trait_ref.trait_ref);
}

pub fn walk_trait_ref<'v, V: Visitor<'v>>(visitor: &mut V, trait_ref: &'v TraitRef) {
    visitor.visit_path(&trait_ref.path, trait_ref.ref_id)
}

pub fn walk_item<'v, V: Visitor<'v>>(visitor: &mut V, item: &'v Item) {
    visitor.visit_ident(item.span, &item.ident);
    match &item.node {
        Item_::ItemExternCrate(_) => {}
        Item_::ItemUse(vp) => {
            match &vp.node {
                ViewPath_::ViewPathSimple(ident, path) => {
                    visitor.visit_ident(vp.span, ident);
                    visitor.visit_path(path, item.id);
                }
                ViewPath_::ViewPathGlob(path) => {
                    visitor.visit_path(path, item.id);
                }
                ViewPath_::ViewPathList(prefix, list) => {
                    let mut i: usize = 0;
                    while i < list.len()
                        decreases list.len() - i,
                    {
                        match &list[i].node {
                            PathListItem_::PathListIdent { name, .. } => {
                                visitor.visit_ident(list[i].span, name);
                            }
                            PathListItem_::PathListMod { .. } => {}
                        }
                        i = i + 1;
                    }
                    // Note that the `prefix` here is not a complete path, so
                    // we don't use `visit_path`.
                    walk_path(visitor, prefix);
                }
            }
        }
        Item_::ItemStatic(typ, _, expr) => {
            visitor.visit_ty(typ);
            visitor.visit_expr(expr);
        }
        Item_::ItemConst(typ, expr) => {
            visitor.visit_ty(typ);
            visitor.visit_expr(expr);
        }
        Item_::ItemFn(declaration, unsafety, constness, abi, generics, body) => {
            visitor.visit_fn(FnKind::FkItemFn(crate::ast::copy_ident(&item.ident), generics,
                *unsafety, *constness, *abi, item.vis), declaration, body, item.span, item.id)
        }
        Item_::ItemMod(module) => {
            visitor.visit_mod(module, item.span, item.id)
        }
        Item_::ItemForeignMod(foreign_module) => {
            let mut i: usize = 0;
            while i < foreign_module.items.len()
                decreases foreign_module.items.len() - i,
            {
                visitor.visit_foreign_item(&foreign_module.items[i]);
                i = i + 1;
            }
        }
        Item_::ItemTy(typ, type_parameters) => {
            visitor.visit_ty(typ);
            visitor.visit_generics(type_parameters)
        }
        Item_::ItemEnum(enum_definition, type_parameters) => {
            visitor.visit_generics(type_parameters);
            walk_enum_def(visitor, enum_definition, type_parameters)
        }
        Item_::ItemDefaultImpl(_, trait_ref) => {
            visitor.visit_trait_ref(trait_ref)
        }
        Item_::ItemImpl(_, _, type_parameters, trait_reference, typ, impl_items) => {
            visitor.visit_generics(type_parameters);
            match trait_reference {
                Some(trait_reference) => visitor.visit_trait_ref(trait_reference),
                None => {}
            }
            visitor.visit_ty(typ);
            let mut i: usize = 0;
            while i < impl_items.len()
                decreases impl_items.len() - i,
            {
                visitor.visit_impl_item(&impl_items[i]);
                i = i + 1;
            }
        }
        Item_::ItemStruct(struct_definition, generics) => {
            visitor.visit_generics(generics);
            visitor.visit_struct_def(struct_definition, &item.ident, generics, item.id)
        }
        Item_::ItemTrait(_, generics, bounds, methods) => {
            visitor.visit_generics(generics);
            walk_ty_param_bounds_helper(visitor, bounds);
            let mut i: usize = 0;
            while i < methods.len()
                decreases methods.len() - i,
            {
                visitor.visit_trait_item(&methods[i]);
                i = i + 1;
            }
        }
        Item_::ItemMac(mac) => visitor.visit_mac(mac),
    }
    let mut i: usize = 0;
    while i < item.attrs.len()
        decreases item.attrs.len() - i,
    {
        visitor.visit_attribute(&item.attrs[i]);
        i = i + 1;
    }
}

pub fn walk_enum_def<'v, V: Visitor<'v>>(visitor: &mut V, enum_definition: &'v EnumDef,
    generics: &'v Generics) {
    let mut i: usize = 0;
    while i < enum_definition.variants.len()
        decreases enum_definition.variants.len() - i,
    {
        visitor.visit_variant(&enum_definition.variants[i], generics);
        i = i + 1;
    }
}

pub fn walk_variant<'v, V: Visitor<'v>>(visitor: &mut V, variant: &'v Variant,
    generics: &'v Generics) {
    visitor.visit_ident(variant.span, &variant.node.name);
    match &variant.node.kind {
        VariantKind::TupleVariantKind(variant_arguments) => {
            let mut i: usize = 0;
            while i < variant_arguments.len()
                decreases variant_arguments.len() - i,
            {
                visitor.visit_ty(&variant_arguments[i].ty);
                i = i + 1;
            }
        }
        VariantKind::StructVariantKind(struct_definition) => {
            visitor.visit_struct_def(struct_definition, &variant.node.name, generics,
                variant.node.id)
        }
    }
    match &variant.node.disr_expr {
        Some(expr) => visitor.visit_expr(expr),
        None => {}
    }
    let mut i: usize = 0;
    while i < variant.node.attrs.len()
        decreases variant.node.attrs.len() - i,
    {
        visitor.visit_attribute(&variant.node.attrs[i]);
        i = i + 1;
    }
}

/// A visit hook that deliberately looks at nothing: useful as the type
/// visiting behaviour of a visitor that must ignore types.
pub fn skip_ty<'v, V: Visitor<'v>>(_visitor: &mut V, _t: &'v Ty) {
}

pub fn walk_ty_opt<'v, V: Visitor<'v>>(visitor: &mut V, optional_type: &'v Option<P<Ty>>) {
    match optional_type {
        Some(ty) => visitor.visit_ty(ty),
        None => {}
    }
}

pub fn walk_ty<'v, V: Visitor<'v>>(visitor: &mut V, typ: &'v Ty) {
    match &typ.node {
        Ty_::TyVec(ty) => visitor.visit_ty(ty),
        Ty_::TyParen(ty) => visitor.visit_ty(ty),
        Ty_::TyPtr(mutable_type) => {
            visitor.visit_ty(&mutable_type.ty)
        }
        Ty_::TyRptr(lifetime, mutable_type) => {
            visitor.visit_opt_lifetime_ref(typ.span, lifetime);
            visitor.visit_ty(&mutable_type.ty)
        }
        Ty_::TyTup(tuple_element_types) => {
            let mut i: usize = 0;
            while i < tuple_element_types.len()
                decreases tuple_element_types.len() - i,
            {
                visitor.visit_ty(&tuple_element_types[i]);
                i = i + 1;
            }
        }
        Ty_::TyBareFn(function_declaration) => {
            let mut i: usize = 0;
            while i < function_declaration.decl.inputs.len()
                decreases function_declaration.decl.inputs.len() - i,
            {
                visitor.visit_ty(&function_declaration.decl.inputs[i].ty);
                i = i + 1;
            }
            walk_fn_ret_ty(visitor, &function_declaration.decl.output);
            walk_lifetime_decls_helper(visitor, &function_declaration.lifetimes);
        }
        Ty_::TyPath(maybe_qself, path) => {
            match maybe_qself {
                Some(qself) => visitor.visit_ty(&qself.ty),
                None => {}
            }
            visitor.visit_path(path, typ.id);
        }
        Ty_::TyObjectSum(ty, bounds) => {
            visitor.visit_ty(ty);
            walk_ty_param_bounds_helper(visitor, bounds);
        }
        Ty_::TyFixedLengthVec(ty, expression) => {
            visitor.visit_ty(ty);
            visitor.visit_expr(expression)
        }
        Ty_::TyPolyTraitRef(bounds) => {
            walk_ty_param_bounds_helper(visitor, bounds)
        }
        Ty_::TyTypeof(expression) => {
            visitor.visit_expr(expression)
        }
        Ty_::TyInfer => {}
    }
}

pub fn walk_lifetime_decls_helper<'v, V: Visitor<'v>>(visitor: &mut V,
    lifetimes: &'v Vec<LifetimeDef>) {
    let mut i: usize = 0;
    while i < lifetimes.len()
        decreases lifetimes.len() - i,
    {
        visitor.visit_lifetime_def(&lifetimes[i]);
        i = i + 1;
    }
}

pub fn walk_path<'v, V: Visitor<'v>>(visitor: &mut V, path: &'v Path) {
    let mut i: usize = 0;
    while i < path.segments.len()
        decreases path.segments.len() - i,
    {
        visitor.visit_path_segment(path.span, &path.segments[i]);
        i = i + 1;
    }
}

pub fn walk_path_segment<'v, V: Visitor<'v>>(visitor: &mut V, path_span: Span,
    segment: &'v PathSegment) {
    visitor.visit_ident(path_span, &segment.identifier);
    visitor.visit_path_parameters(path_span, &segment.parameters);
}

pub fn walk_path_parameters<'v, V: Visitor<'v>>(visitor: &mut V, path_span: Span,
    path_parameters: &'v PathParameters) {
    match path_parameters {
        PathParameters::AngleBracketedParameters(data) => {
            let mut i: usize = 0;
            while i < data.types.len()
                decreases data.types.len() - i,
            {
                visitor.visit_ty(&data.types[i]);
                i = i + 1;
            }
            let mut j: usize = 0;
            while j < data.lifetimes.len()
                decreases data.lifetimes.len() - j,
            {
                visitor.visit_lifetime_ref(&data.lifetimes[j]);
                j = j + 1;
            }
            let mut k: usize = 0;
            while k < data.bindings.len()
                decreases data.bindings.len() - k,
            {
                visitor.visit_assoc_type_binding(&data.bindings[k]);
                k = k + 1;
            }
        }
        PathParameters::ParenthesizedParameters(data) => {
            let mut i: usize = 0;
            while i < data.inputs.len()
                decreases data.inputs.len() - i,
            {
                visitor.visit_ty(&data.inputs[i]);
                i = i + 1;
            }
            match &data.output {
                Some(typ) => visitor.visit_ty(typ),
                None => {}
            }
        }
    }
}

pub fn walk_assoc_type_binding<'v, V: Visitor<'v>>(visitor: &mut V,
    type_binding: &'v TypeBinding) {
    visitor.visit_ident(type_binding.span, &type_binding.ident);
    visitor.visit_ty(&type_binding.ty);
}

pub fn walk_pat<'v, V: Visitor<'v>>(visitor: &mut V, pattern: &'v Pat) {
    match &pattern.node {
        Pat_::PatEnum(path, children) => {
            visitor.visit_path(path, pattern.id);
            match children {
                Some(children) => {
                    let mut i: usize = 0;
                    while i < children.len()
                        decreases children.len() - i,
                    {
                        visitor.visit_pat(&children[i]);
                        i = i + 1;
                    }
                }
                None => {}
            }
        }
        Pat_::PatQPath(qself, path) => {
            visitor.visit_ty(&qself.ty);
            visitor.visit_path(path, pattern.id)
        }
        Pat_::PatStruct(path, fields, _) => {
            visitor.visit_path(path, pattern.id);
            let mut i: usize = 0;
            while i < fields.len()
                decreases fields.len() - i,
            {
                visitor.visit_pat(&fields[i].node.pat);
                i = i + 1;
            }
        }
        Pat_::PatTup(tuple_elements) => {
            let mut i: usize = 0;
            while i < tuple_elements.len()
                decreases tuple_elements.len() - i,
            {
                visitor.visit_pat(&tuple_elements[i]);
                i = i + 1;
            }
        }
        Pat_::PatBox(subpattern) => {
            visitor.visit_pat(subpattern)
        }
        Pat_::PatRegion(subpattern, _) => {
            visitor.visit_pat(subpattern)
        }
        Pat_::PatIdent(_, pth1, optional_subpattern) => {
            visitor.visit_ident(pth1.span, &pth1.node);
            match optional_subpattern {
                None => {}
                Some(subpattern) => visitor.visit_pat(subpattern),
            }
        }
        Pat_::PatLit(expression) => visitor.visit_expr(expression),
        Pat_::PatRange(lower_bound, upper_bound) => {
            visitor.visit_expr(lower_bound);
            visitor.visit_expr(upper_bound)
        }
        Pat_::PatWild(_) => {}
        Pat_::PatVec(prepatterns, slice_pattern, postpatterns) => {
            let mut i: usize = 0;
            while i < prepatterns.len()
                decreases prepatterns.len() - i,
            {
                visitor.visit_pat(&prepatterns[i]);
                i = i + 1;
            }
            match slice_pattern {
                Some(slice_pattern) => visitor.visit_pat(slice_pattern),
                None => {}
            }
            let mut j: usize = 0;
            while j < postpatterns.len()
                decreases postpatterns.len() - j,
            {
                visitor.visit_pat(&postpatterns[j]);
                j = j + 1;
            }
        }
        Pat_::PatMac(mac) => visitor.visit_mac(mac),
    }
}

pub fn walk_foreign_item<'v, V: Visitor<'v>>(visitor: &mut V, foreign_item: &'v ForeignItem) {
    visitor.visit_ident(foreign_item.span, &foreign_item.ident);
    match &foreign_item.node {
        ForeignItem_::ForeignItemFn(function_declaration, generics) => {
            walk_fn_decl(visitor, function_declaration);
            visitor.visit_generics(generics)
        }
        ForeignItem_::ForeignItemStatic(typ, _) => visitor.visit_ty(typ),
    }
    let mut i: usize = 0;
    while i < foreign_item.attrs.len()
        decreases foreign_item.attrs.len() - i,
    {
        visitor.visit_attribute(&foreign_item.attrs[i]);
        i = i + 1;
    }
}

pub fn walk_ty_param_bounds_helper<'v, V: Visitor<'v>>(visitor: &mut V,
    bounds: &'v OwnedSlice<TyParamBound>) {
    let mut i: usize = 0;
    while i < bounds.len()
        decreases bounds.len() - i,
    {
        visitor.visit_ty_param_bound(&bounds[i]);
        i = i + 1;
    }
}

pub fn walk_ty_param_bound<'v, V: Visitor<'v>>(visitor: &mut V, bound: &'v TyParamBound) {
    match bound {
        TyParamBound::TraitTyParamBound(typ, modifier) => {
            visitor.visit_poly_trait_ref(typ, modifier);
        }
        TyParamBound::RegionTyParamBound(lifetime) => {
            visitor.visit_lifetime_bound(lifetime);
        }
    }
}

pub fn walk_generics<'v, V: Visitor<'v>>(visitor: &mut V, generics: &'v Generics) {
    let mut i: usize = 0;
    while i < generics.ty_params.len()
        decreases generics.ty_params.len() - i,
    {
        let param = &generics.ty_params[i];
        visitor.visit_ident(param.span, &param.ident);
        walk_ty_param_bounds_helper(visitor, &param.bounds);
        walk_ty_opt(visitor, &param.default);
        i = i + 1;
    }
    walk_lifetime_decls_helper(visitor, &generics.lifetimes);
    let mut j: usize = 0;
    while j < generics.where_clause.predicates.len()
        decreases generics.where_clause.predicates.len() - j,
    {
        match &generics.where_clause.predicates[j] {
            crate::ast::WherePredicate::BoundPredicate(pred) => {
                visitor.visit_ty(&pred.bounded_ty);
                walk_ty_param_bounds_helper(visitor, &pred.bounds);
            }
            crate::ast::WherePredicate::RegionPredicate(pred) => {
                visitor.visit_lifetime_ref(&pred.lifetime);
                let mut k: usize = 0;
                while k < pred.bounds.len()
                    decreases pred.bounds.len() - k,
                {
                    visitor.visit_lifetime_ref(&pred.bounds[k]);
                    k = k + 1;
                }
            }
            crate::ast::WherePredicate::EqPredicate(pred) => {
                visitor.visit_path(&pred.path, pred.id);
                visitor.visit_ty(&pred.ty);
            }
        }
        j = j + 1;
    }
}

pub fn walk_fn_ret_ty<'v, V: Visitor<'v>>(visitor: &mut V, ret_ty: &'v FunctionRetTy) {
    match ret_ty {
        FunctionRetTy::Return(output_ty) => visitor.visit_ty(output_ty),
        _ => {}
    }
}

pub fn walk_fn_decl<'v, V: Visitor<'v>>(visitor: &mut V, function_declaration: &'v FnDecl) {
    let mut i: usize = 0;
    while i < function_declaration.inputs.len()
        decreases function_declaration.inputs.len() - i,
    {
        visitor.visit_pat(&function_declaration.inputs[i].pat);
        visitor.visit_ty(&function_declaration.inputs[i].ty);
        i = i + 1;
    }
    walk_fn_ret_ty(visitor, &function_declaration.output)
}

pub fn walk_fn<'v, V: Visitor<'v>>(visitor: &mut V, function_kind: FnKind<'v>,
    function_declaration: &'v FnDecl, function_body: &'v Block, span: Span) {
    walk_fn_decl(visitor, function_declaration);
    match function_kind {
        FnKind::FkItemFn(_, generics, _, _, _, _) => {
            visitor.visit_generics(generics);
        }
        FnKind::FkMethod(_, sig, _) => {
            visitor.visit_generics(&sig.generics);
            visitor.visit_explicit_self(&sig.explicit_self);
        }
        FnKind::FkFnBlock => {}
    }
    visitor.visit_block(function_body)
}

pub fn walk_trait_item<'v, V: Visitor<'v>>(visitor: &mut V, trait_item: &'v TraitItem) {
    visitor.visit_ident(trait_item.span, &trait_item.ident);
    let mut i: usize = 0;
    while i < trait_item.attrs.len()
        decreases trait_item.attrs.len() - i,
    {
        visitor.visit_attribute(&trait_item.attrs[i]);
        i = i + 1;
    }
    match &trait_item.node {
        TraitItem_::ConstTraitItem(ty, default) => {
            visitor.visit_ty(ty);
            match default {
                Some(expr) => visitor.visit_expr(expr),
                None => {}
            }
        }
        TraitItem_::MethodTraitItem(sig, None) => {
            visitor.visit_explicit_self(&sig.explicit_self);
            visitor.visit_generics(&sig.generics);
            walk_fn_decl(visitor, &sig.decl);
        }
        TraitItem_::MethodTraitItem(sig, Some(body)) => {
            visitor.visit_fn(FnKind::FkMethod(crate::ast::copy_ident(&trait_item.ident), sig,
                None), &sig.decl, body, trait_item.span, trait_item.id);
        }
        TraitItem_::TypeTraitItem(bounds, default) => {
            walk_ty_param_bounds_helper(visitor, bounds);
            walk_ty_opt(visitor, default);
        }
    }
}

pub fn walk_impl_item<'v, V: Visitor<'v>>(visitor: &mut V, impl_item: &'v ImplItem) {
    visitor.visit_ident(impl_item.span, &impl_item.ident);
    let mut i: usize = 0;
    while i < impl_item.attrs.len()
        decreases impl_item.attrs.len() - i,
    {
        visitor.visit_attribute(&impl_item.attrs[i]);
        i = i + 1;
    }
    match &impl_item.node {
        ImplItem_::ConstImplItem(ty, expr) => {
            visitor.visit_ty(ty);
            visitor.visit_expr(expr);
        }
        ImplItem_::MethodImplItem(sig, body) => {
            visitor.visit_fn(FnKind::FkMethod(crate::ast::copy_ident(&impl_item.ident), sig,
                Some(impl_item.vis)), &sig.decl, body, impl_item.span, impl_item.id);
        }
        ImplItem_::TypeImplItem(ty) => {
            visitor.visit_ty(ty);
        }
        ImplItem_::MacImplItem(mac) => {
            visitor.visit_mac(mac);
        }
    }
}

pub fn walk_struct_def<'v, V: Visitor<'v>>(visitor: &mut V, struct_definition: &'v StructDef) {
    let mut i: usize = 0;
    while i < struct_definition.fields.len()
        decreases struct_definition.fields.len() - i,
    {
        visitor.visit_struct_field(&struct_definition.fields[i]);
        i = i + 1;
    }
}

pub fn walk_struct_field<'v, V: Visitor<'v>>(visitor: &mut V, struct_field: &'v StructField) {
    match &struct_field.node.kind {
        StructFieldKind::NamedField(name, _) => {
            visitor.visit_ident(struct_field.span, name);
        }
        StructFieldKind::UnnamedField(_) => {}
    }
    visitor.visit_ty(&struct_field.node.ty);
    let mut i: usize = 0;
    while i < struct_field.node.attrs.len()
        decreases struct_field.node.attrs.len() - i,
    {
        visitor.visit_attribute(&struct_field.node.attrs[i]);
        i = i + 1;
    }
}

pub fn walk_block<'v, V: Visitor<'v>>(visitor: &mut V, block: &'v Block) {
    let mut i: usize = 0;
    while i < block.stmts.len()
        decreases block.stmts.len() - i,
    {
        visitor.visit_stmt(&block.stmts[i]);
        i = i + 1;
    }
    walk_expr_opt(visitor, &block.expr)
}

pub fn walk_stmt<'v, V: Visitor<'v>>(visitor: &mut V, statement: &'v Stmt) {
    match &statement.node {
        Stmt_::StmtDecl(declaration, _) => visitor.visit_decl(declaration),
        Stmt_::StmtExpr(expression, _) => visitor.visit_expr(expression),
        Stmt_::StmtSemi(expression, _) => visitor.visit_expr(expression),
        Stmt_::StmtMac(mac, _) => visitor.visit_mac(mac),
    }
}

pub fn walk_decl<'v, V: Visitor<'v>>(visitor: &mut V, declaration: &'v Decl) {
    match &declaration.node {
        Decl_::DeclLocal(local) => visitor.visit_local(local),
        Decl_::DeclItem(item) => visitor.visit_item(item),
    }
}

pub fn walk_expr_opt<'v, V: Visitor<'v>>(visitor: &mut V,
    optional_expression: &'v Option<P<Expr>>) {
    match optional_expression {
        None => {}
        Some(expression) => visitor.visit_expr(expression),
    }
}

pub fn walk_exprs<'v, V: Visitor<'v>>(visitor: &mut V, expressions: &'v [P<Expr>]) {
    let mut i: usize = 0;
    while i < expressions.len()
        decreases expressions.len() - i,
    {
        visitor.visit_expr(&expressions[i]);
        i = i + 1;
    }
}

/// The default macro visit looks at nothing: the tokens of an unexpanded
/// macro cannot be meaningfully interpreted.
pub fn walk_mac<'v, V: Visitor<'v>>(_visitor: &mut V, _mac: &'v Mac) {
}

pub fn walk_expr<'v, V: Visitor<'v>>(visitor: &mut V, expression: &'v Expr) {
    match &expression.node {
        Expr_::ExprBox(place, subexpression) => {
            match place {
                Some(e) => visitor.visit_expr(e),
                None => {}
            }
            visitor.visit_expr(subexpression)
        }
        Expr_::ExprVec(subexpressions) => {
            walk_exprs(visitor, subexpressions.as_slice())
        }
        Expr_::ExprRepeat(element, count) => {
            visitor.visit_expr(element);
            visitor.visit_expr(count)
        }
        Expr_::ExprStruct(path, fields, optional_base) => {
            visitor.visit_path(path, expression.id);
            let mut i: usize = 0;
            while i < fields.len()
                decreases fields.len() - i,
            {
                visitor.visit_expr(&fields[i].expr);
                i = i + 1;
            }
            walk_expr_opt(visitor, optional_base)
        }
        Expr_::ExprTup(subexpressions) => {
            let mut i: usize = 0;
            while i < subexpressions.len()
                decreases subexpressions.len() - i,
            {
                visitor.visit_expr(&subexpressions[i]);
                i = i + 1;
            }
        }
        Expr_::ExprCall(callee_expression, arguments) => {
            let mut i: usize = 0;
            while i < arguments.len()
                decreases arguments.len() - i,
            {
                visitor.visit_expr(&arguments[i]);
                i = i + 1;
            }
            visitor.visit_expr(callee_expression)
        }
        Expr_::ExprMethodCall(_, types, arguments) => {
            walk_exprs(visitor, arguments.as_slice());
            let mut i: usize = 0;
            while i < types.len()
                decreases types.len() - i,
            {
                visitor.visit_ty(&types[i]);
                i = i + 1;
            }
        }
        Expr_::ExprBinary(_, left_expression, right_expression) => {
            visitor.visit_expr(left_expression);
            visitor.visit_expr(right_expression)
        }
        Expr_::ExprAddrOf(_, subexpression) => {
            visitor.visit_expr(subexpression)
        }
        Expr_::ExprUnary(_, subexpression) => {
            visitor.visit_expr(subexpression)
        }
        Expr_::ExprLit(_) => {}
        Expr_::ExprCast(subexpression, typ) => {
            visitor.visit_expr(subexpression);
            visitor.visit_ty(typ)
        }
        Expr_::ExprIf(head_expression, if_block, optional_else) => {
            visitor.visit_expr(head_expression);
            visitor.visit_block(if_block);
            walk_expr_opt(visitor, optional_else)
        }
        Expr_::ExprWhile(subexpression, block, _) => {
            visitor.visit_expr(subexpression);
            visitor.visit_block(block)
        }
        Expr_::ExprIfLet(pattern, subexpression, if_block, optional_else) => {
            visitor.visit_pat(pattern);
            visitor.visit_expr(subexpression);
            visitor.visit_block(if_block);
            walk_expr_opt(visitor, optional_else);
        }
        Expr_::ExprWhileLet(pattern, subexpression, block, _) => {
            visitor.visit_pat(pattern);
            visitor.visit_expr(subexpression);
            visitor.visit_block(block);
        }
        Expr_::ExprForLoop(pattern, subexpression, block, _) => {
            visitor.visit_pat(pattern);
            visitor.visit_expr(subexpression);
            visitor.visit_block(block)
        }
        Expr_::ExprLoop(block, _) => visitor.visit_block(block),
        Expr_::ExprMatch(subexpression, arms, _) => {
            visitor.visit_expr(subexpression);
            let mut i: usize = 0;
            while i < arms.len()
                decreases arms.len() - i,
            {
                visitor.visit_arm(&arms[i]);
                i = i + 1;
            }
        }
        Expr_::ExprClosure(_, function_declaration, body) => {
            visitor.visit_fn(FnKind::FkFnBlock, function_declaration, body, expression.span,
                expression.id)
        }
        Expr_::ExprBlock(block) => visitor.visit_block(block),
        Expr_::ExprAssign(left_hand_expression, right_hand_expression) => {
            visitor.visit_expr(right_hand_expression);
            visitor.visit_expr(left_hand_expression)
        }
        Expr_::ExprAssignOp(_, left_expression, right_expression) => {
            visitor.visit_expr(right_expression);
            visitor.visit_expr(left_expression)
        }
        Expr_::ExprField(subexpression, _) => {
            visitor.visit_expr(subexpression);
        }
        Expr_::ExprTupField(subexpression, _) => {
            visitor.visit_expr(subexpression);
        }
        Expr_::ExprIndex(main_expression, index_expression) => {
            visitor.visit_expr(main_expression);
            visitor.visit_expr(index_expression)
        }
        Expr_::ExprRange(start, end) => {
            walk_expr_opt(visitor, start);
            walk_expr_opt(visitor, end)
        }
        Expr_::ExprPath(maybe_qself, path) => {
            match maybe_qself {
                Some(qself) => visitor.visit_ty(&qself.ty),
                None => {}
            }
            visitor.visit_path(path, expression.id)
        }
        Expr_::ExprBreak(_) => {}
        Expr_::ExprAgain(_) => {}
        Expr_::ExprRet(optional_expression) => {
            walk_expr_opt(visitor, optional_expression)
        }
        Expr_::ExprMac(mac, _) => visitor.visit_mac(mac),
        Expr_::ExprParen(subexpression) => {
            visitor.visit_expr(subexpression)
        }
        Expr_::ExprInlineAsm(ia) => {
            let mut i: usize = 0;
            while i < ia.inputs.len()
                decreases ia.inputs.len() - i,
            {
                visitor.visit_expr(&ia.inputs[i].1);
                i = i + 1;
            }
            let mut j: usize = 0;
            while j < ia.outputs.len()
                decreases ia.outputs.len() - j,
            {
                visitor.visit_expr(&ia.outputs[j].1);
                j = j + 1;
            }
        }
    }
    visitor.visit_expr_post(expression)
}

pub fn walk_arm<'v, V: Visitor<'v>>(visitor: &mut V, arm: &'v Arm) {
    let mut i: usize = 0;
    while i < arm.pats.len()
        decreases arm.pats.len() - i,
    {
        visitor.visit_pat(&arm.pats[i]);
        i = i + 1;
    }
    walk_expr_opt(visitor, &arm.guard);
    visitor.visit_expr(&arm.body);
    let mut j: usize = 0;
    while j < arm.attrs.len()
        decreases arm.attrs.len() - j,
    {
        visitor.visit_attribute(&arm.attrs[j]);
        j = j + 1;
    }
}

} // verus!
