//! The abstract syntax tree of the source language.
//!
//! Only the token-tree part of the tree is consumed by the layout engine;
//! the rest of the tree exists so that already-parsed fragments can be
//! carried inside token streams, rewritten by [`crate::fold`] and walked by
//! [`crate::visit`].

use vstd::prelude::*;

use crate::abi::Abi;
use crate::codemap::{ExpnId, Span, Spanned, dummy_span};
use crate::owned_slice::OwnedSlice;
use crate::ptr::{P, PointerMap};

verus! {

/// An identifier contains a Name and a SyntaxContext to track renaming and
/// macro expansion.
#[derive(Clone, Debug)]
pub struct Ident {
    pub name: Name,
    pub ctxt: SyntaxContext,
}

impl Ident {
    /// Construct an identifier with the given name and an empty context.
    pub fn new(name: Name) -> (r: Ident)
        ensures
            r.name == name,
            r.ctxt == EMPTY_CTXT,
    {
        Ident { name: name, ctxt: EMPTY_CTXT }
    }
}

/// Rebuild an identifier value; the result equals the argument.
pub fn copy_ident(i: &Ident) -> (r: Ident)
    ensures
        r == *i,
{
    Ident { name: copy_name(&i.name), ctxt: i.ctxt }
}

/// Rebuild a name value; the result equals the argument.
pub fn copy_name(n: &Name) -> (r: Name)
    ensures
        r == *n,
{
    Name(n.0.clone())
}

/// A chain of macro expansions and renamings, represented as an index into
/// a side table. The index `0` means the empty context.
pub type SyntaxContext = u32;

pub const EMPTY_CTXT: SyntaxContext = 0;

pub const ILLEGAL_CTXT: SyntaxContext = 1;

/// A name is a part of an identifier, representing a string or gensym.
#[derive(Clone, PartialEq, Eq, Hash, Debug)]
pub struct Name(pub String);

impl Name {
    /// The identifier with this name and the empty syntax context.
    pub fn ident(&self) -> (r: Ident)
        ensures
            r.name == *self,
            r.ctxt == 0u32,
    {
        Ident { name: copy_name(self), ctxt: 0 }
    }
}

/// A mark represents a unique id associated with a macro expansion.
pub type Mrk = u32;

/// Function name (not all functions have names).
pub type FnIdent = Option<Ident>;

#[derive(Clone, Debug)]
pub struct Lifetime {
    pub id: NodeId,
    pub span: Span,
    pub name: Name,
}

/// A lifetime definition, eg `'a: 'b+'c+'d`.
#[derive(Clone, Debug)]
pub struct LifetimeDef {
    pub lifetime: Lifetime,
    pub bounds: Vec<Lifetime>,
}

/// A "Path" is the name of an item, represented as a sequence of identifier
/// segments with supporting information.
#[derive(Debug)]
pub struct Path {
    pub span: Span,
    /// A `::foo` path, is relative to the crate root rather than the current
    /// module (like paths in an import).
    pub global: bool,
    /// The segments in the path: the things separated by `::`.
    pub segments: Vec<PathSegment>,
}

/// A segment of a path: an identifier, an optional lifetime, and a set of
/// types.
#[derive(Debug)]
pub struct PathSegment {
    /// The identifier portion of this path segment.
    pub identifier: Ident,
    /// Type/lifetime parameters attached to this path segment.
    pub parameters: PathParameters,
}

#[derive(Debug)]
pub enum PathParameters {
    /// The `<'a, A,B,C>` in `foo::bar::baz::<'a, A,B,C>`
    AngleBracketedParameters(AngleBracketedParameterData),
    /// The `(A,B)` and `C` in `Foo(A,B) -> C`
    ParenthesizedParameters(ParenthesizedParameterData),
}

impl PathParameters {
    /// Parameters that name nothing at all.
    pub fn none() -> (r: PathParameters)
        ensures
            (r matches PathParameters::AngleBracketedParameters(d) && d.lifetimes@
                == Seq::<Lifetime>::empty() && d.types@ == Seq::<P<Ty>>::empty() && d.bindings@
                == Seq::<P<TypeBinding>>::empty()),
    {
        PathParameters::AngleBracketedParameters(AngleBracketedParameterData {
            lifetimes: Vec::new(),
            types: Vec::new(),
            bindings: Vec::new(),
        })
    }

    /// Whether the user wrote no parameters; `X()` counts as parameters.
    pub fn is_empty(&self) -> (r: bool)
        ensures
            r == (match self {
                PathParameters::AngleBracketedParameters(d) => d.lifetimes@.len() == 0
                    && d.types@.len() == 0 && d.bindings@.len() == 0,
                PathParameters::ParenthesizedParameters(_) => false,
            }),
    {
        match self {
            PathParameters::AngleBracketedParameters(data) => data.is_empty(),
            // Even if the user supplied no types, something like
            // `X()` is equivalent to `X<(),()>`.
            PathParameters::ParenthesizedParameters(_) => false,
        }
    }

    pub fn has_lifetimes(&self) -> (r: bool)
        ensures
            r == (match self {
                PathParameters::AngleBracketedParameters(d) => d.lifetimes@.len() != 0,
                PathParameters::ParenthesizedParameters(_) => false,
            }),
    {
        match self {
            PathParameters::AngleBracketedParameters(data) => data.lifetimes.len() != 0,
            PathParameters::ParenthesizedParameters(_) => false,
        }
    }

    pub fn has_types(&self) -> (r: bool)
        ensures
            r == (match self {
                PathParameters::AngleBracketedParameters(d) => d.types@.len() != 0,
                PathParameters::ParenthesizedParameters(_) => true,
            }),
    {
        match self {
            PathParameters::AngleBracketedParameters(data) => data.types.len() != 0,
            PathParameters::ParenthesizedParameters(_) => true,
        }
    }

    /// Returns the types that the user wrote. Note that these do not
    /// necessarily map to the type parameters in the parenthesized case.
    pub fn types(&self) -> (r: Vec<&P<Ty>>)
        ensures
            (match self {
                PathParameters::AngleBracketedParameters(d) => r@.len() == d.types@.len()
                    && (forall|i: int| 0 <= i < r@.len() ==> *r@[i] == d.types@[i]),
                PathParameters::ParenthesizedParameters(d) => r@.len() == d.inputs@.len() + (
                if d.output is Some {
                    1int
                } else {
                    0int
                }) && (forall|i: int| 0 <= i < d.inputs@.len() ==> *r@[i] == d.inputs@[i]) && (
                d.output matches Some(o) ==> *r@[r@.len() - 1] == o),
            }),
    {
        let mut r: Vec<&P<Ty>> = Vec::new();
        match self {
            PathParameters::AngleBracketedParameters(data) => {
                let mut i: usize = 0;
                while i < data.types.len()
                    invariant
                        i <= data.types@.len(),
                        r@.len() == i,
                        forall|j: int| 0 <= j < i ==> *r@[j] == data.types@[j],
                    decreases data.types@.len() - i,
                {
                    r.push(&data.types[i]);
                    i = i + 1;
                }
            }
            PathParameters::ParenthesizedParameters(data) => {
                let mut i: usize = 0;
                while i < data.inputs.len()
                    invariant
                        i <= data.inputs@.len(),
                        r@.len() == i,
                        forall|j: int| 0 <= j < i ==> *r@[j] == data.inputs@[j],
                    decreases data.inputs@.len() - i,
                {
                    r.push(&data.inputs[i]);
                    i = i + 1;
                }
                match &data.output {
                    Some(o) => { r.push(o); }
                    None => {}
                }
            }
        }
        r
    }

    pub fn lifetimes(&self) -> (r: Vec<&Lifetime>)
        ensures
            (match self {
                PathParameters::AngleBracketedParameters(d) => r@.len() == d.lifetimes@.len() && (
                forall|i: int| 0 <= i < r@.len() ==> *r@[i] == d.lifetimes@[i]),
                PathParameters::ParenthesizedParameters(_) => r@.len() == 0,
            }),
    {
        let mut r: Vec<&Lifetime> = Vec::new();
        match self {
            PathParameters::AngleBracketedParameters(data) => {
                let mut i: usize = 0;
                while i < data.lifetimes.len()
                    invariant
                        i <= data.lifetimes@.len(),
                        r@.len() == i,
                        forall|j: int| 0 <= j < i ==> *r@[j] == data.lifetimes@[j],
                    decreases data.lifetimes@.len() - i,
                {
                    r.push(&data.lifetimes[i]);
                    i = i + 1;
                }
            }
            PathParameters::ParenthesizedParameters(_) => {}
        }
        r
    }

    pub fn bindings(&self) -> (r: Vec<&P<TypeBinding>>)
        ensures
            (match self {
                PathParameters::AngleBracketedParameters(d) => r@.len() == d.bindings@.len() && (
                forall|i: int| 0 <= i < r@.len() ==> *r@[i] == d.bindings@[i]),
                PathParameters::ParenthesizedParameters(_) => r@.len() == 0,
            }),
    {
        let mut r: Vec<&P<TypeBinding>> = Vec::new();
        match self {
            PathParameters::AngleBracketedParameters(data) => {
                let mut i: usize = 0;
                while i < data.bindings.len()
                    invariant
                        i <= data.bindings@.len(),
                        r@.len() == i,
                        forall|j: int| 0 <= j < i ==> *r@[j] == data.bindings@[j],
                    decreases data.bindings@.len() - i,
                {
                    r.push(&data.bindings[i]);
                    i = i + 1;
                }
            }
            PathParameters::ParenthesizedParameters(_) => {}
        }
        r
    }
}

/// A path like `Foo<'a, T>`.
#[derive(Debug)]
pub struct AngleBracketedParameterData {
    /// The lifetime parameters for this path segment.
    pub lifetimes: Vec<Lifetime>,
    /// The type parameters for this path segment, if present.
    pub types: OwnedSlice<P<Ty>>,
    /// Bindings (equality constraints) on associated types, if present.
    /// E.g., `Foo<A=Bar>`.
    pub bindings: OwnedSlice<P<TypeBinding>>,
}

impl AngleBracketedParameterData {
    fn is_empty(&self) -> (r: bool)
        ensures
            r == (self.lifetimes@.len() == 0 && self.types@.len() == 0 && self.bindings@.len()
                == 0),
    {
        self.lifetimes.len() == 0 && self.types.len() == 0 && self.bindings.len() == 0
    }
}

/// A path like `Foo(A,B) -> C`.
#[derive(Debug)]
pub struct ParenthesizedParameterData {
    /// Overall span
    pub span: Span,
    /// `(A,B)`
    pub inputs: Vec<P<Ty>>,
    /// `C`
    pub output: Option<P<Ty>>,
}

pub type CrateNum = u32;

pub type NodeId = u32;

#[derive(Clone, Copy, PartialEq, Eq, Structural, Debug)]
pub struct DefId {
    pub krate: CrateNum,
    pub node: NodeId,
}

impl DefId {
    /// Read the node id of a def-id known to be krate-local.
    pub fn local_id(&self) -> (r: NodeId)
        requires
            self.krate == LOCAL_CRATE,
        ensures
            r == self.node,
    {
        self.node
    }
}

/// Item definitions in the currently-compiled crate would have the CrateNum
/// LOCAL_CRATE in their DefId.
pub const LOCAL_CRATE: CrateNum = 0;

pub const CRATE_NODE_ID: NodeId = 0;

/// When parsing and doing expansions, all AST nodes initially carry this
/// value; a later renumbering pass assigns real ids.
pub const DUMMY_NODE_ID: NodeId = 4294967295;

/// A bound on a type parameter; all such bounds are written as types.
#[derive(Debug)]
pub enum TyParamBound {
    TraitTyParamBound(PolyTraitRef, TraitBoundModifier),
    RegionTyParamBound(Lifetime),
}

/// A modifier on a bound, currently only used for `?Sized`, where the
/// modifier is `Maybe`.
#[derive(Clone, Copy, PartialEq, Eq, Structural, Debug)]
pub enum TraitBoundModifier {
    Unmodified,
    Maybe,
}

pub type TyParamBounds = OwnedSlice<TyParamBound>;

#[derive(Debug)]
pub struct TyParam {
    pub ident: Ident,
    pub id: NodeId,
    pub bounds: TyParamBounds,
    pub default: Option<P<Ty>>,
    pub span: Span,
}

/// Represents lifetimes and type parameters attached to a declaration
/// of a function, enum, trait, etc.
#[derive(Debug)]
pub struct Generics {
    pub lifetimes: Vec<LifetimeDef>,
    pub ty_params: OwnedSlice<TyParam>,
    pub where_clause: WhereClause,
}

impl Generics {
    pub fn is_lt_parameterized(&self) -> (r: bool)
        ensures
            r == (self.lifetimes@.len() != 0),
    {
        self.lifetimes.len() != 0
    }

    pub fn is_type_parameterized(&self) -> (r: bool)
        ensures
            r == (self.ty_params@.len() != 0),
    {
        self.ty_params.len() != 0
    }

    pub fn is_parameterized(&self) -> (r: bool)
        ensures
            r == (self.lifetimes@.len() != 0 || self.ty_params@.len() != 0),
    {
        self.is_lt_parameterized() || self.is_type_parameterized()
    }
}

/// A `where` clause in a definition.
#[derive(Debug)]
pub struct WhereClause {
    pub id: NodeId,
    pub predicates: Vec<WherePredicate>,
}

/// A single predicate in a `where` clause.
#[derive(Debug)]
pub enum WherePredicate {
    /// A type binding, eg `for<'c> Foo: Send+Clone+'c`
    BoundPredicate(WhereBoundPredicate),
    /// A lifetime predicate, e.g. `'a: 'b+'c`
    RegionPredicate(WhereRegionPredicate),
    /// An equality predicate (unsupported)
    EqPredicate(WhereEqPredicate),
}

/// A type bound, eg `for<'c> Foo: Send+Clone+'c`.
#[derive(Debug)]
pub struct WhereBoundPredicate {
    pub span: Span,
    /// Any lifetimes from a `for` binding
    pub bound_lifetimes: Vec<LifetimeDef>,
    /// The type being bounded
    pub bounded_ty: P<Ty>,
    /// Trait and lifetime bounds (`Clone+Send+'static`)
    pub bounds: OwnedSlice<TyParamBound>,
}

/// A lifetime predicate, e.g. `'a: 'b+'c`.
#[derive(Debug)]
pub struct WhereRegionPredicate {
    pub span: Span,
    pub lifetime: Lifetime,
    pub bounds: Vec<Lifetime>,
}

/// An equality predicate (unsupported), e.g. `T=int`.
#[derive(Debug)]
pub struct WhereEqPredicate {
    pub id: NodeId,
    pub span: Span,
    pub path: Path,
    pub ty: P<Ty>,
}

/// The set of MetaItems that define the compilation environment of the
/// crate, used to drive conditional compilation.
pub type CrateConfig = Vec<P<MetaItem>>;

#[derive(Debug)]
pub struct Crate {
    pub module: Mod,
    pub attrs: Vec<Attribute>,
    pub config: CrateConfig,
    pub span: Span,
    pub exported_macros: Vec<MacroDef>,
}

pub type MetaItem = Spanned<MetaItem_>;

#[derive(Debug)]
pub enum MetaItem_ {
    MetaWord(InternedString),
    MetaList(InternedString, Vec<P<MetaItem>>),
    MetaNameValue(InternedString, Lit),
}

#[derive(Debug)]
pub struct Block {
    /// Statements in a block
    pub stmts: Vec<P<Stmt>>,
    /// An expression at the end of the block without a semicolon, if any
    pub expr: Option<P<Expr>>,
    pub id: NodeId,
    /// Distinguishes between `unsafe { ... }` and `{ ... }`
    pub rules: BlockCheckMode,
    pub span: Span,
}

#[derive(Debug)]
pub struct Pat {
    pub id: NodeId,
    pub node: Pat_,
    pub span: Span,
}

/// A single field in a struct pattern.
///
/// Patterns like the fields of `Foo { x, ref y, ref mut z }` are treated the
/// same as `x: x, y: ref y, z: ref mut z`, except `is_shorthand` is true.
#[derive(Debug)]
pub struct FieldPat {
    /// The identifier for the field
    pub ident: Ident,
    /// The pattern the field is destructured to
    pub pat: P<Pat>,
    pub is_shorthand: bool,
}

#[derive(Clone, Copy, PartialEq, Eq, Structural, Debug)]
pub enum BindingMode {
    BindByRef(Mutability),
    BindByValue(Mutability),
}

#[derive(Clone, Copy, PartialEq, Eq, Structural, Debug)]
pub enum PatWildKind {
    /// Represents the wildcard pattern `_`
    PatWildSingle,
    /// Represents the wildcard pattern `..`
    PatWildMulti,
}

#[derive(Debug)]
pub enum Pat_ {
    /// Represents a wildcard pattern (either `_` or `..`)
    PatWild(PatWildKind),
    /// A PatIdent may either be a new bound variable or a nullary enum (in
    /// which case the third field is None). The parser can't determine
    /// which; the resolver does.
    PatIdent(BindingMode, SpannedIdent, Option<P<Pat>>),
    /// "None" means a `*` pattern where we don't bind the fields to names.
    PatEnum(Path, Option<Vec<P<Pat>>>),
    /// An associated const named using the qualified path `<T>::CONST` or
    /// `<T as Trait>::CONST`.
    PatQPath(QSelf, Path),
    /// Destructuring of a struct, e.g. `Foo {x, y, ..}`.
    /// The `bool` is `true` in the presence of a `..`.
    PatStruct(Path, Vec<Spanned<FieldPat>>, bool),
    /// A tuple pattern `(a, b)`
    PatTup(Vec<P<Pat>>),
    /// A `box` pattern
    PatBox(P<Pat>),
    /// A reference pattern, e.g. `&mut (a, b)`
    PatRegion(P<Pat>, Mutability),
    /// A literal
    PatLit(P<Expr>),
    /// A range pattern, e.g. `1...2`
    PatRange(P<Expr>, P<Expr>),
    /// `[a, b, ..i, y, z]` is represented as
    /// `PatVec(vec![a, b], Some(i), vec![y, z])`.
    PatVec(Vec<P<Pat>>, Option<P<Pat>>, Vec<P<Pat>>),
    /// A macro pattern; pre-expansion
    PatMac(Mac),
}

#[derive(Clone, Copy, PartialEq, Eq, Structural, Debug)]
pub enum Mutability {
    MutMutable,
    MutImmutable,
}

#[derive(Clone, Copy, PartialEq, Eq, Structural, Debug)]
pub enum BinOp_ {
    /// The `+` operator (addition)
    BiAdd,
    /// The `-` operator (subtraction)
    BiSub,
    /// The `*` operator (multiplication)
    BiMul,
    /// The `/` operator (division)
    BiDiv,
    /// The `%` operator (modulus)
    BiRem,
    /// The `&&` operator (logical and)
    BiAnd,
    /// The `||` operator (logical or)
    BiOr,
    /// The `^` operator (bitwise xor)
    BiBitXor,
    /// The `&` operator (bitwise and)
    BiBitAnd,
    /// The `|` operator (bitwise or)
    BiBitOr,
    /// The `<<` operator (shift left)
    BiShl,
    /// The `>>` operator (shift right)
    BiShr,
    /// The `==` operator (equality)
    BiEq,
    /// The `<` operator (less than)
    BiLt,
    /// The `<=` operator (less than or equal to)
    BiLe,
    /// The `!=` operator (not equal to)
    BiNe,
    /// The `>=` operator (greater than or equal to)
    BiGe,
    /// The `>` operator (greater than)
    BiGt,
}

pub type BinOp = Spanned<BinOp_>;

#[derive(Clone, Copy, PartialEq, Eq, Structural, Debug)]
pub enum UnOp {
    /// The `box` operator
    UnUniq,
    /// The `*` operator for dereferencing
    UnDeref,
    /// The `!` operator for logical inversion
    UnNot,
    /// The `-` operator for negation
    UnNeg,
}

/// A statement.
pub type Stmt = Spanned<Stmt_>;

#[derive(Debug)]
pub enum Stmt_ {
    /// Could be an item or a local (let) binding:
    StmtDecl(P<Decl>, NodeId),
    /// Expr without trailing semi-colon (must have unit type):
    StmtExpr(P<Expr>, NodeId),
    /// Expr with trailing semi-colon (may have any type):
    StmtSemi(P<Expr>, NodeId),
    StmtMac(P<Mac>, MacStmtStyle),
}

#[derive(Clone, Copy, PartialEq, Eq, Structural, Debug)]
pub enum MacStmtStyle {
    /// The macro statement had a trailing semicolon, e.g. `foo! { ... };`,
    /// `foo!(...);`, `foo![...];`
    MacStmtWithSemicolon,
    /// The macro statement had braces; e.g. `foo! { ... }`
    MacStmtWithBraces,
    /// The macro statement had parentheses or brackets and no semicolon;
    /// e.g. `foo!(...)`. All of these will end up being converted into
    /// macro expressions.
    MacStmtWithoutBraces,
}

/// Where a local declaration came from: either a true `let ... = ...;` or
/// one desugared from the pattern of a for loop.
#[derive(Clone, Copy, PartialEq, Eq, Structural, Debug)]
pub enum LocalSource {
    LocalLet,
    LocalFor,
}

/// Local represents a `let` statement, e.g. `let <pat>:<ty> = <expr>;`.
#[derive(Debug)]
pub struct Local {
    pub pat: P<Pat>,
    pub ty: Option<P<Ty>>,
    /// Initializer expression to set the value, if any
    pub init: Option<P<Expr>>,
    pub id: NodeId,
    pub span: Span,
    pub source: LocalSource,
}

pub type Decl = Spanned<Decl_>;

#[derive(Debug)]
pub enum Decl_ {
    /// A local (let) binding:
    DeclLocal(P<Local>),
    /// An item binding:
    DeclItem(P<Item>),
}

/// Represents one arm of a `match`.
#[derive(Debug)]
pub struct Arm {
    pub attrs: Vec<Attribute>,
    pub pats: Vec<P<Pat>>,
    pub guard: Option<P<Expr>>,
    pub body: P<Expr>,
}

#[derive(Debug)]
pub struct Field {
    pub ident: SpannedIdent,
    pub expr: P<Expr>,
    pub span: Span,
}

pub type SpannedIdent = Spanned<Ident>;

#[derive(Clone, Copy, PartialEq, Eq, Structural, Debug)]
pub enum BlockCheckMode {
    DefaultBlock,
    UnsafeBlock(UnsafeSource),
}

#[derive(Clone, Copy, PartialEq, Eq, Structural, Debug)]
pub enum UnsafeSource {
    CompilerGenerated,
    UserProvided,
}

/// An expression.
#[derive(Debug)]
pub struct Expr {
    pub id: NodeId,
    pub node: Expr_,
    pub span: Span,
}

#[derive(Debug)]
pub enum Expr_ {
    /// First expr is the place; second expr is the value.
    ExprBox(Option<P<Expr>>, P<Expr>),
    /// An array (`[a, b, c, d]`)
    ExprVec(Vec<P<Expr>>),
    /// A function call; the first field resolves to the function itself and
    /// the second field is the list of arguments.
    ExprCall(P<Expr>, Vec<P<Expr>>),
    /// A method call (`x.foo::<Bar, Baz>(a, b, c, d)`); the first element of
    /// the argument vector is the receiver.
    ExprMethodCall(SpannedIdent, Vec<P<Ty>>, Vec<P<Expr>>),
    /// A tuple (`(a, b, c, d)`)
    ExprTup(Vec<P<Expr>>),
    /// A binary operation (for example, `a + b`, `a * b`)
    ExprBinary(BinOp, P<Expr>, P<Expr>),
    /// A unary operation (for example, `!x`, `*x`)
    ExprUnary(UnOp, P<Expr>),
    /// A literal (for example, `1u8`, `"foo"`)
    ExprLit(P<Lit>),
    /// A cast (`foo as f64`)
    ExprCast(P<Expr>, P<Ty>),
    /// An `if` block, with an optional else block
    ExprIf(P<Expr>, P<Block>, Option<P<Expr>>),
    /// An `if let` expression with an optional else block
    ExprIfLet(P<Pat>, P<Expr>, P<Block>, Option<P<Expr>>),
    /// A while loop, with an optional label
    ExprWhile(P<Expr>, P<Block>, Option<Ident>),
    /// A while-let loop, with an optional label
    ExprWhileLet(P<Pat>, P<Expr>, P<Block>, Option<Ident>),
    /// A for loop, with an optional label
    ExprForLoop(P<Pat>, P<Expr>, P<Block>, Option<Ident>),
    /// Conditionless loop (can be exited with break, continue, or return)
    ExprLoop(P<Block>, Option<Ident>),
    /// A `match` block, with a source that indicates whether or not it is
    /// the result of a desugaring, and if so, which kind.
    ExprMatch(P<Expr>, Vec<Arm>, MatchSource),
    /// A closure (for example, `move |a, b, c| {a + b + c}`)
    ExprClosure(CaptureClause, P<FnDecl>, P<Block>),
    /// A block (`{ ... }`)
    ExprBlock(P<Block>),
    /// An assignment (`a = foo()`)
    ExprAssign(P<Expr>, P<Expr>),
    /// An assignment with an operator; for example, `a += 1`.
    ExprAssignOp(BinOp, P<Expr>, P<Expr>),
    /// Access of a named struct field (`obj.foo`)
    ExprField(P<Expr>, SpannedIdent),
    /// Access of an unnamed field of a struct or tuple-struct; for example,
    /// `foo.0`.
    ExprTupField(P<Expr>, Spanned<usize>),
    /// An indexing operation (`foo[2]`)
    ExprIndex(P<Expr>, P<Expr>),
    /// A range (`1..2`, `1..`, or `..2`)
    ExprRange(Option<P<Expr>>, Option<P<Expr>>),
    /// Variable reference, possibly containing `::` and/or type parameters,
    /// e.g. `foo::bar::<baz>`; optionally "qualified", e.g.
    /// `<Vec<T> as SomeTrait>::SomeType`.
    ExprPath(Option<QSelf>, Path),
    /// A referencing operation (`&a` or `&mut a`)
    ExprAddrOf(Mutability, P<Expr>),
    /// A `break`, with an optional label to break
    ExprBreak(Option<Ident>),
    /// A `continue`, with an optional label
    ExprAgain(Option<Ident>),
    /// A `return`, with an optional value to be returned
    ExprRet(Option<P<Expr>>),
    /// Output of the inline-assembly macro
    ExprInlineAsm(InlineAsm),
    /// A macro invocation; pre-expansion
    ExprMac(Mac, DelimToken),
    /// A struct literal expression; for example, `Foo {x: 1, y: 2}` or
    /// `Foo {x: 1, .. base}`, where `base` is the `Option<P<Expr>>`.
    ExprStruct(Path, Vec<Field>, Option<P<Expr>>),
    /// A vector literal constructed from one repeated element; for example,
    /// `[1u8; 5]`. The first expression is the element to be repeated; the
    /// second is the number of times to repeat it.
    ExprRepeat(P<Expr>, P<Expr>),
    /// No-op: used solely so we can pretty-print faithfully
    ExprParen(P<Expr>),
}

/// The explicit Self type in a "qualified path". The actual path, including
/// the trait and the associated item, is stored separately. `position`
/// represents the index of the associated item qualified with this Self
/// type.
#[derive(Debug)]
pub struct QSelf {
    pub ty: P<Ty>,
    pub position: usize,
}

#[derive(Clone, Copy, PartialEq, Eq, Structural, Debug)]
pub enum MatchSource {
    Normal,
    IfLetDesugar { contains_else_clause: bool },
    WhileLetDesugar,
    ForLoopDesugar,
}

#[derive(Clone, Copy, PartialEq, Eq, Structural, Debug)]
pub enum CaptureClause {
    CaptureByValue,
    CaptureByRef,
}

/// A delimited sequence of token trees.
#[derive(Debug)]
pub struct Delimited {
    /// The type of delimiter
    pub delim: DelimToken,
    /// The span covering the opening delimiter
    pub open_span: Span,
    /// The delimited sequence of token trees
    pub tts: Vec<TokenTree>,
    /// The span covering the closing delimiter
    pub close_span: Span,
}

impl Delimited {
    /// Returns the opening delimiter as a token.
    pub fn open_token(&self) -> (r: Token)
        ensures
            r == (Token::OpenDelim(self.delim)),
    {
        Token::OpenDelim(self.delim)
    }

    /// Returns the closing delimiter as a token.
    pub fn close_token(&self) -> (r: Token)
        ensures
            r == (Token::CloseDelim(self.delim)),
    {
        Token::CloseDelim(self.delim)
    }

    /// Returns the opening delimiter as a token tree.
    pub fn open_tt(&self) -> (r: TokenTree)
        ensures
            r == (TokenTree::TtToken(self.open_span, Token::OpenDelim(self.delim))),
    {
        TokenTree::TtToken(self.open_span, self.open_token())
    }

    /// Returns the closing delimiter as a token tree.
    pub fn close_tt(&self) -> (r: TokenTree)
        ensures
            r == (TokenTree::TtToken(self.close_span, Token::CloseDelim(self.delim))),
    {
        TokenTree::TtToken(self.close_span, self.close_token())
    }
}

/// A sequence of token trees in a macro matcher or transcriber.
#[derive(Debug)]
pub struct SequenceRepetition {
    /// The sequence of token trees
    pub tts: Vec<TokenTree>,
    /// The optional separator
    pub separator: Option<Token>,
    /// Whether the sequence can be repeated zero (*), or one or more times (+)
    pub op: KleeneOp,
    /// The number of matcher tokens that appear in the sequence (and
    /// subsequences)
    pub num_captures: usize,
}

/// A Kleene-style repetition operator for token sequences.
#[derive(Clone, Copy, PartialEq, Eq, Structural, Debug)]
pub enum KleeneOp {
    ZeroOrMore,
    OneOrMore,
}

/// When the parser encounters a syntax-extension invocation, it parses the
/// arguments to the invocation as a token tree. This is a very loose
/// structure, such that all sorts of different AST fragments can be passed
/// to syntax extensions using a uniform type.
#[derive(Debug)]
pub enum TokenTree {
    /// A single token
    TtToken(Span, Token),
    /// A delimited sequence of token trees
    TtDelimited(Span, P<Delimited>),
    /// A kleene-style repetition sequence with a span; only makes sense in
    /// macro definitions.
    TtSequence(Span, P<SequenceRepetition>),
}

impl TokenTree {
    /// The number of expansion steps get_tt can take on this tree.
    pub fn len(&self) -> (r: usize)
        requires
            (self matches TokenTree::TtDelimited(_, d) ==> d.tts@.len() + 2 <= usize::MAX),
        ensures
            r == (match self {
                TokenTree::TtToken(_, Token::DocComment(_)) => 2int,
                TokenTree::TtToken(_, Token::SpecialVarNt(_)) => 2int,
                TokenTree::TtToken(_, Token::MatchNt(_, _, _, _)) => 3int,
                TokenTree::TtDelimited(_, d) => d.tts@.len() as int + 2,
                TokenTree::TtSequence(_, s) => s.tts@.len() as int,
                TokenTree::TtToken(_, _) => 0int,
            }),
    {
        match self {
            TokenTree::TtToken(_, Token::DocComment(_)) => 2,
            TokenTree::TtToken(_, Token::SpecialVarNt(_)) => 2,
            TokenTree::TtToken(_, Token::MatchNt(_, _, _, _)) => 3,
            TokenTree::TtDelimited(_, delimed) => delimed.tts.len() + 2,
            TokenTree::TtSequence(_, seq) => seq.tts.len(),
            TokenTree::TtToken(_, _) => 0,
        }
    }

    /// The `index`-th token tree that this tree expands to.
    ///
    /// For a doc comment this spells out the equivalent attribute, for a
    /// matcher token the `$name:kind` form, for a delimited group the
    /// opening delimiter, the inner trees and the closing delimiter.
    pub fn get_tt(self, index: usize) -> (r: TokenTree)
        requires
            (match self {
                TokenTree::TtToken(_, Token::DocComment(_)) => index < 2,
                TokenTree::TtToken(_, Token::SpecialVarNt(_)) => index < 2,
                TokenTree::TtToken(_, Token::MatchNt(_, _, _, _)) => index < 3,
                TokenTree::TtDelimited(_, d) => d.tts@.len() + 2 <= usize::MAX && index < d.tts@.len()
                    + 2,
                TokenTree::TtSequence(_, s) => index < s.tts@.len(),
                TokenTree::TtToken(_, _) => false,
            }),
        ensures
            (self matches TokenTree::TtDelimited(_, d) ==> (index == 0 ==> r == (
            TokenTree::TtToken(d.open_span, Token::OpenDelim(d.delim)))) && (index
                == d.tts@.len() + 1 ==> r == (TokenTree::TtToken(d.close_span,
            Token::CloseDelim(d.delim)))) && (0 < index <= d.tts@.len() ==> r == d.tts@[index
                - 1])),
            (self matches TokenTree::TtSequence(_, q) ==> r == q.tts@[index as int]),
            (self matches TokenTree::TtToken(sp, Token::DocComment(_)) ==> (index == 0 ==> r
                == (TokenTree::TtToken(sp, Token::Pound)))),
            (self matches TokenTree::TtToken(sp, Token::SpecialVarNt(_)) ==> (index == 0 ==> r
                == (TokenTree::TtToken(sp, Token::Dollar)))),
            (self matches TokenTree::TtToken(sp, Token::MatchNt(nm, kd, nst, kst)) ==> (index
                == 0 ==> r == (TokenTree::TtToken(sp, Token::SubstNt(nm, nst)))) && (index == 1
                ==> r == (TokenTree::TtToken(sp, Token::Colon))) && (index == 2 ==> r == (
            TokenTree::TtToken(sp, Token::Ident(kd, kst))))),
    {
        match self {
            TokenTree::TtToken(sp, Token::DocComment(name)) => {
                if index == 0 {
                    TokenTree::TtToken(sp, Token::Pound)
                } else {
                    TokenTree::TtDelimited(sp, P(Delimited {
                        delim: DelimToken::Bracket,
                        open_span: sp,
                        tts: doc_comment_body(&sp, &name),
                        close_span: sp,
                    }))
                }
            }
            TokenTree::TtToken(sp, Token::SpecialVarNt(var)) => {
                if index == 0 {
                    TokenTree::TtToken(sp, Token::Dollar)
                } else {
                    TokenTree::TtToken(sp, Token::Ident(str_to_ident(var.as_str()),
                        IdentStyle::Plain))
                }
            }
            TokenTree::TtToken(sp, Token::MatchNt(name, kind, name_st, kind_st)) => {
                if index == 0 {
                    TokenTree::TtToken(sp, Token::SubstNt(name, name_st))
                } else if index == 1 {
                    TokenTree::TtToken(sp, Token::Colon)
                } else {
                    TokenTree::TtToken(sp, Token::Ident(kind, kind_st))
                }
            }
            TokenTree::TtDelimited(_, delimed) => {
                if index == 0 {
                    delimed.open_tt()
                } else if index == delimed.tts.len() + 1 {
                    delimed.close_tt()
                } else {
                    let mut inner = delimed.into_inner();
                    inner.tts.remove(index - 1)
                }
            }
            TokenTree::TtSequence(_, seq) => {
                let mut inner = seq.into_inner();
                inner.tts.remove(index)
            }
            TokenTree::TtToken(_, _) => {
                // Unreachable: the precondition rules every other token out.
                TokenTree::TtToken(dummy_span(), Token::Eof)
            }
        }
    }

    /// Returns the `Span` corresponding to this token tree.
    pub fn get_span(&self) -> (r: Span)
        ensures
            r == (match self {
                TokenTree::TtToken(span, _) => span,
                TokenTree::TtDelimited(span, _) => span,
                TokenTree::TtSequence(span, _) => span,
            }),
    {
        match self {
            TokenTree::TtToken(span, _) => *span,
            TokenTree::TtDelimited(span, _) => *span,
            TokenTree::TtSequence(span, _) => *span,
        }
    }
}

/// The token trees of the attribute a doc comment is sugar for.
fn doc_comment_body(sp: &Span, name: &Name) -> (r: Vec<TokenTree>)
    ensures
        r@.len() == 3,
{
    let mut tts: Vec<TokenTree> = Vec::new();
    tts.push(TokenTree::TtToken(*sp, Token::Ident(str_to_ident("doc"),
        IdentStyle::Plain)));
    tts.push(TokenTree::TtToken(*sp, Token::Eq));
    tts.push(TokenTree::TtToken(*sp, Token::Literal(TokenLit::Str_(copy_name(name)),
        None)));
    tts
}

pub type Mac = Spanned<Mac_>;

/// Represents a macro invocation. The Path indicates which macro is being
/// invoked, and the vector of token trees contains the source of the macro
/// invocation.
#[derive(Debug)]
pub enum Mac_ {
    MacInvocTT(Path, Vec<TokenTree>, SyntaxContext),
}

#[derive(Clone, Copy, PartialEq, Eq, Structural, Debug)]
pub enum StrStyle {
    /// A regular string, like `"foo"`
    CookedStr,
    /// A raw string, like `r##"foo"##`; the count is the number of `#`
    /// symbols used.
    RawStr(usize),
}

/// A literal.
pub type Lit = Spanned<Lit_>;

#[derive(Clone, Copy, PartialEq, Eq, Structural, Debug)]
pub enum Sign {
    Minus,
    Plus,
}

impl Sign {
    pub fn new<T: IntSign>(n: T) -> (r: Sign) {
        n.sign()
    }
}

/// Integer types that know the sign of their values.
pub trait IntSign {
    fn sign(&self) -> Sign;
}

impl IntSign for i8 {
    fn sign(&self) -> (r: Sign)
        ensures
            r == (if *self < 0 {
                Sign::Minus
            } else {
                Sign::Plus
            }),
    {
        if *self < 0 {
            Sign::Minus
        } else {
            Sign::Plus
        }
    }
}

impl IntSign for i16 {
    fn sign(&self) -> (r: Sign)
        ensures
            r == (if *self < 0 {
                Sign::Minus
            } else {
                Sign::Plus
            }),
    {
        if *self < 0 {
            Sign::Minus
        } else {
            Sign::Plus
        }
    }
}

impl IntSign for i32 {
    fn sign(&self) -> (r: Sign)
        ensures
            r == (if *self < 0 {
                Sign::Minus
            } else {
                Sign::Plus
            }),
    {
        if *self < 0 {
            Sign::Minus
        } else {
            Sign::Plus
        }
    }
}

impl IntSign for i64 {
    fn sign(&self) -> (r: Sign)
        ensures
            r == (if *self < 0 {
                Sign::Minus
            } else {
                Sign::Plus
            }),
    {
        if *self < 0 {
            Sign::Minus
        } else {
            Sign::Plus
        }
    }
}

impl IntSign for isize {
    fn sign(&self) -> (r: Sign)
        ensures
            r == (if *self < 0 {
                Sign::Minus
            } else {
                Sign::Plus
            }),
    {
        if *self < 0 {
            Sign::Minus
        } else {
            Sign::Plus
        }
    }
}

impl IntSign for u8 {
    fn sign(&self) -> (r: Sign)
        ensures
            r == Sign::Plus,
    {
        Sign::Plus
    }
}

impl IntSign for u16 {
    fn sign(&self) -> (r: Sign)
        ensures
            r == Sign::Plus,
    {
        Sign::Plus
    }
}

impl IntSign for u32 {
    fn sign(&self) -> (r: Sign)
        ensures
            r == Sign::Plus,
    {
        Sign::Plus
    }
}

impl IntSign for u64 {
    fn sign(&self) -> (r: Sign)
        ensures
            r == Sign::Plus,
    {
        Sign::Plus
    }
}

impl IntSign for usize {
    fn sign(&self) -> (r: Sign)
        ensures
            r == Sign::Plus,
    {
        Sign::Plus
    }
}

#[derive(Clone, Copy, PartialEq, Eq, Structural, Debug)]
pub enum LitIntType {
    SignedIntLit(IntTy, Sign),
    UnsignedIntLit(UintTy),
    UnsuffixedIntLit(Sign),
}

impl LitIntType {
    pub fn suffix_len(&self) -> (r: usize)
        ensures
            r == (match self {
                LitIntType::UnsuffixedIntLit(_) => 0int,
                LitIntType::SignedIntLit(s, _) => s.spec_suffix_len(),
                LitIntType::UnsignedIntLit(u) => u.spec_suffix_len(),
            }),
    {
        match self {
            LitIntType::UnsuffixedIntLit(_) => 0,
            LitIntType::SignedIntLit(s, _) => s.suffix_len(),
            LitIntType::UnsignedIntLit(u) => u.suffix_len(),
        }
    }
}

#[derive(Clone, Debug)]
pub enum Lit_ {
    /// A string literal (`"foo"`)
    LitStr(InternedString, StrStyle),
    /// A byte string (`b"foo"`)
    LitBinary(Vec<u8>),
    /// A byte char (`b'f'`)
    LitByte(u8),
    /// A character literal (`'a'`)
    LitChar(char),
    /// An integer literal (`1u8`)
    LitInt(u64, LitIntType),
    /// A float literal's spelling (`1f64` or `1E10f64`)
    LitFloat(InternedString, FloatTy),
    /// The spelling of a float literal without a suffix (`1.0` or `1.0E10`)
    LitFloatUnsuffixed(InternedString),
    /// A boolean literal
    LitBool(bool),
}

#[derive(Debug)]
pub struct MutTy {
    pub ty: P<Ty>,
    pub mutbl: Mutability,
}

#[derive(Debug)]
pub struct TypeField {
    pub ident: Ident,
    pub mt: MutTy,
    pub span: Span,
}

/// Represents a method's signature in a trait declaration or in an
/// implementation.
#[derive(Debug)]
pub struct MethodSig {
    pub unsafety: Unsafety,
    pub constness: Constness,
    pub abi: Abi,
    pub decl: P<FnDecl>,
    pub generics: Generics,
    pub explicit_self: ExplicitSelf,
}

/// Represents a method declaration in a trait declaration, possibly
/// including a default implementation.
#[derive(Debug)]
pub struct TraitItem {
    pub id: NodeId,
    pub ident: Ident,
    pub attrs: Vec<Attribute>,
    pub node: TraitItem_,
    pub span: Span,
}

#[derive(Debug)]
pub enum TraitItem_ {
    ConstTraitItem(P<Ty>, Option<P<Expr>>),
    MethodTraitItem(MethodSig, Option<P<Block>>),
    TypeTraitItem(TyParamBounds, Option<P<Ty>>),
}

#[derive(Debug)]
pub struct ImplItem {
    pub id: NodeId,
    pub ident: Ident,
    pub vis: Visibility,
    pub attrs: Vec<Attribute>,
    pub node: ImplItem_,
    pub span: Span,
}

#[derive(Debug)]
pub enum ImplItem_ {
    ConstImplItem(P<Ty>, P<Expr>),
    MethodImplItem(MethodSig, P<Block>),
    TypeImplItem(P<Ty>),
    MacImplItem(Mac),
}

#[derive(Clone, Copy, PartialEq, Eq, Structural, Debug)]
pub enum IntTy {
    TyIs,
    TyI8,
    TyI16,
    TyI32,
    TyI64,
}

impl IntTy {
    /// The number of characters in the type's suffix spelling.
    pub open spec fn spec_suffix_len(self) -> int {
        match self {
            IntTy::TyIs | IntTy::TyI8 => 2,
            IntTy::TyI16 | IntTy::TyI32 | IntTy::TyI64 => 3,
        }
    }

    pub fn suffix_len(&self) -> (r: usize)
        ensures
            r == self.spec_suffix_len(),
    {
        match self {
            IntTy::TyIs | IntTy::TyI8 => 2,
            IntTy::TyI16 | IntTy::TyI32 | IntTy::TyI64 => 3,
        }
    }
}

#[derive(Clone, Copy, PartialEq, Eq, Structural, Debug)]
pub enum UintTy {
    TyUs,
    TyU8,
    TyU16,
    TyU32,
    TyU64,
}

impl UintTy {
    /// The number of characters in the type's suffix spelling.
    pub open spec fn spec_suffix_len(self) -> int {
        match self {
            UintTy::TyUs | UintTy::TyU8 => 2,
            UintTy::TyU16 | UintTy::TyU32 | UintTy::TyU64 => 3,
        }
    }

    pub fn suffix_len(&self) -> (r: usize)
        ensures
            r == self.spec_suffix_len(),
    {
        match self {
            UintTy::TyUs | UintTy::TyU8 => 2,
            UintTy::TyU16 | UintTy::TyU32 | UintTy::TyU64 => 3,
        }
    }
}

/// The float type names; the tree never stores a floating-point value, only
/// the spelled-out literal together with its type name.
#[derive(Clone, Copy, PartialEq, Eq, Structural, Debug)]
pub enum FloatTy {
    TyF32,
    TyF64,
}

impl FloatTy {
    pub fn suffix_len(&self) -> (r: usize)
        ensures
            r == 3,
    {
        match self {
            FloatTy::TyF32 | FloatTy::TyF64 => 3,
        }
    }
}

/// Bind a type to an associated type: `A=Foo`.
#[derive(Debug)]
pub struct TypeBinding {
    pub id: NodeId,
    pub ident: Ident,
    pub ty: P<Ty>,
    pub span: Span,
}

#[derive(Debug)]
pub struct Ty {
    pub id: NodeId,
    pub node: Ty_,
    pub span: Span,
}

/// Not represented directly in the AST, referred to by name through a
/// ty_path.
#[derive(Clone, Copy, PartialEq, Eq, Structural, Debug)]
pub enum PrimTy {
    TyInt(IntTy),
    TyUint(UintTy),
    TyFloat(FloatTy),
    TyStr,
    TyBool,
    TyChar,
}

#[derive(Debug)]
pub struct BareFnTy {
    pub unsafety: Unsafety,
    pub abi: Abi,
    pub lifetimes: Vec<LifetimeDef>,
    pub decl: P<FnDecl>,
}

/// The different kinds of types recognized by the compiler.
#[derive(Debug)]
pub enum Ty_ {
    TyVec(P<Ty>),
    /// A fixed length array (`[T; n]`)
    TyFixedLengthVec(P<Ty>, P<Expr>),
    /// A raw pointer (`*const T` or `*mut T`)
    TyPtr(MutTy),
    /// A reference (`&'a T` or `&'a mut T`)
    TyRptr(Option<Lifetime>, MutTy),
    /// A bare function (e.g. `fn(usize) -> bool`)
    TyBareFn(P<BareFnTy>),
    /// A tuple (`(A, B, C, D,...)`)
    TyTup(Vec<P<Ty>>),
    /// A path (`module::module::...::Type`), optionally "qualified", e.g.
    /// `<Vec<T> as SomeTrait>::SomeType`. Type parameters are stored in the
    /// Path itself.
    TyPath(Option<QSelf>, Path),
    /// Something like `A+B`. Note that `B` must always be a path.
    TyObjectSum(P<Ty>, TyParamBounds),
    /// A type like `for<'a> Foo<&'a Bar>`
    TyPolyTraitRef(TyParamBounds),
    /// No-op; kept solely so that we can pretty-print faithfully
    TyParen(P<Ty>),
    /// Unused for now
    TyTypeof(P<Expr>),
    /// TyInfer means the type should be inferred instead of it having been
    /// specified. This can appear anywhere in a type.
    TyInfer,
}

#[derive(Clone, Copy, PartialEq, Eq, Structural, Debug)]
pub enum AsmDialect {
    AsmAtt,
    AsmIntel,
}

#[derive(Debug)]
pub struct InlineAsm {
    pub template: InternedString,
    pub template_str_style: StrStyle,
    pub outputs: Vec<(InternedString, P<Expr>, bool)>,
    pub inputs: Vec<(InternedString, P<Expr>)>,
    pub clobbers: Vec<InternedString>,
    pub volatile: bool,
    pub alignstack: bool,
    pub dialect: AsmDialect,
    pub expn_id: ExpnId,
}

/// Represents an argument in a function header.
#[derive(Debug)]
pub struct Arg {
    pub ty: P<Ty>,
    pub pat: P<Pat>,
    pub id: NodeId,
}

impl Arg {
    /// The argument entry that stands for a method's `self` parameter.
    pub fn new_self(span: Span, mutability: Mutability, self_ident: Ident) -> (r: Arg)
        ensures
            r.id == DUMMY_NODE_ID,
            r.ty.id == DUMMY_NODE_ID,
            r.ty.node is TyInfer,
            r.pat.id == DUMMY_NODE_ID,
            r.pat.span == span,
            (r.pat.node matches Pat_::PatIdent(m, path, sub) && m == BindingMode::BindByValue(
                mutability) && path.span == span && path.node == self_ident && sub is None),
    {
        let path = Spanned { span: span, node: self_ident };
        Arg {
            // A fake type for the self argument.
            ty: P(Ty { id: DUMMY_NODE_ID, node: Ty_::TyInfer, span: dummy_span() }),
            pat: P(Pat {
                id: DUMMY_NODE_ID,
                node: Pat_::PatIdent(BindingMode::BindByValue(mutability), path, None),
                span: span,
            }),
            id: DUMMY_NODE_ID,
        }
    }
}

/// Represents the header (not the body) of a function declaration.
#[derive(Debug)]
pub struct FnDecl {
    pub inputs: Vec<Arg>,
    pub output: FunctionRetTy,
    pub variadic: bool,
}

#[derive(Clone, Copy, PartialEq, Eq, Structural, Debug)]
pub enum Unsafety {
    Unsafe,
    Normal,
}

#[derive(Clone, Copy, PartialEq, Eq, Structural, Debug)]
pub enum Constness {
    Const,
    NotConst,
}

#[derive(Clone, Copy, PartialEq, Eq, Structural, Debug)]
pub enum ImplPolarity {
    /// `impl Trait for Type`
    Positive,
    /// `impl !Trait for Type`
    Negative,
}

#[derive(Debug)]
pub enum FunctionRetTy {
    /// Functions with the never return type that always raise an error or
    /// exit (i.e. never return to the caller).
    NoReturn(Span),
    /// Return type is not specified. Functions default to unit and closures
    /// default to inference. The span points to where the return type would
    /// be inserted.
    DefaultReturn(Span),
    /// Everything else
    Return(P<Ty>),
}

impl FunctionRetTy {
    pub fn span(&self) -> (r: Span)
        ensures
            r == (match self {
                FunctionRetTy::NoReturn(span) => *span,
                FunctionRetTy::DefaultReturn(span) => *span,
                FunctionRetTy::Return(ty) => ty.span,
            }),
    {
        match self {
            FunctionRetTy::NoReturn(span) => *span,
            FunctionRetTy::DefaultReturn(span) => *span,
            FunctionRetTy::Return(ty) => ty.span,
        }
    }
}

/// Represents the kind of `self` associated with a method.
#[derive(Debug)]
pub enum ExplicitSelf_ {
    /// No self
    SelfStatic,
    /// `self`
    SelfValue(Ident),
    /// `&'lt self`, `&'lt mut self`
    SelfRegion(Option<Lifetime>, Mutability, Ident),
    /// `self: TYPE`
    SelfExplicit(P<Ty>, Ident),
}

pub type ExplicitSelf = Spanned<ExplicitSelf_>;

#[derive(Debug)]
pub struct Mod {
    /// A span from the first token past `{` to the last token until `}`.
    /// For `mod foo;`, the inner span ranges from the first token to the
    /// last token in the external file.
    pub inner: Span,
    pub items: Vec<P<Item>>,
}

#[derive(Debug)]
pub struct ForeignMod {
    pub abi: Abi,
    pub items: Vec<P<ForeignItem>>,
}

#[derive(Debug)]
pub struct VariantArg {
    pub ty: P<Ty>,
    pub id: NodeId,
}

#[derive(Debug)]
pub enum VariantKind {
    /// Tuple variant, e.g. `Foo(A, B)`
    TupleVariantKind(Vec<VariantArg>),
    /// Struct variant, e.g. `Foo {x: A, y: B}`
    StructVariantKind(P<StructDef>),
}

#[derive(Debug)]
pub struct EnumDef {
    pub variants: Vec<P<Variant>>,
}

#[derive(Debug)]
pub struct Variant_ {
    pub name: Ident,
    pub attrs: Vec<Attribute>,
    pub kind: VariantKind,
    pub id: NodeId,
    /// Explicit discriminant, eg `Foo = 1`
    pub disr_expr: Option<P<Expr>>,
    pub vis: Visibility,
}

pub type Variant = Spanned<Variant_>;

#[derive(Debug)]
pub enum PathListItem_ {
    PathListIdent { name: Ident, id: NodeId },
    PathListMod { id: NodeId },
}

impl PathListItem_ {
    pub fn id(&self) -> (r: NodeId)
        ensures
            r == (match self {
                PathListItem_::PathListIdent { id, .. } => id,
                PathListItem_::PathListMod { id } => id,
            }),
    {
        match self {
            PathListItem_::PathListIdent { id, .. } => *id,
            PathListItem_::PathListMod { id } => *id,
        }
    }
}

pub type PathListItem = Spanned<PathListItem_>;

pub type ViewPath = Spanned<ViewPath_>;

#[derive(Debug)]
pub enum ViewPath_ {
    /// `foo::bar::baz as quux`, or just `foo::bar::baz` (with `as baz`
    /// implicitly on the right).
    ViewPathSimple(Ident, Path),
    /// `foo::bar::*`
    ViewPathGlob(Path),
    /// `foo::bar::{a,b,c}`
    ViewPathList(Path, Vec<PathListItem>),
}

/// Meta-data associated with an item.
pub type Attribute = Spanned<Attribute_>;

/// Distinguishes between Attributes that decorate items and Attributes that
/// are contained as statements within items. These two cases need to be
/// distinguished for pretty-printing.
#[derive(Clone, Copy, PartialEq, Eq, Structural, Debug)]
pub enum AttrStyle {
    AttrOuter,
    AttrInner,
}

#[derive(Clone, Copy, PartialEq, Eq, Structural, Debug)]
pub struct AttrId(pub usize);

/// Doc-comments are promoted to attributes that have `is_sugared_doc` set.
#[derive(Debug)]
pub struct Attribute_ {
    pub id: AttrId,
    pub style: AttrStyle,
    pub value: P<MetaItem>,
    pub is_sugared_doc: bool,
}

/// TraitRefs appear in impls. The `ref_id` is mapped by resolution to the
/// defining trait.
#[derive(Debug)]
pub struct TraitRef {
    pub path: Path,
    pub ref_id: NodeId,
}

#[derive(Debug)]
pub struct PolyTraitRef {
    /// The `'a` in `<'a> Foo<&'a T>`
    pub bound_lifetimes: Vec<LifetimeDef>,
    /// The `Foo<&'a T>` in `<'a> Foo<&'a T>`
    pub trait_ref: TraitRef,
    pub span: Span,
}

#[derive(Clone, Copy, PartialEq, Eq, Structural, Debug)]
pub enum Visibility {
    Public,
    Inherited,
}

impl Visibility {
    pub fn inherit_from(&self, parent_visibility: Visibility) -> (r: Visibility)
        ensures
            r == (match self {
                Visibility::Inherited => parent_visibility,
                Visibility::Public => Visibility::Public,
            }),
    {
        match self {
            Visibility::Inherited => parent_visibility,
            Visibility::Public => *self,
        }
    }
}

#[derive(Debug)]
pub struct StructField_ {
    pub kind: StructFieldKind,
    pub id: NodeId,
    pub ty: P<Ty>,
    pub attrs: Vec<Attribute>,
}

impl StructField_ {
    pub fn ident(&self) -> (r: Option<Ident>)
        ensures
            r == (match self.kind {
                StructFieldKind::NamedField(ident, _) => Some(ident),
                StructFieldKind::UnnamedField(_) => None::<Ident>,
            }),
    {
        match &self.kind {
            StructFieldKind::NamedField(ident, _) => Some(copy_ident(ident)),
            StructFieldKind::UnnamedField(_) => None,
        }
    }
}

pub type StructField = Spanned<StructField_>;

#[derive(Debug)]
pub enum StructFieldKind {
    NamedField(Ident, Visibility),
    /// Element of a tuple-like struct
    UnnamedField(Visibility),
}

impl StructFieldKind {
    pub fn is_unnamed(&self) -> (r: bool)
        ensures
            r == (self matches StructFieldKind::UnnamedField(_)),
    {
        match self {
            StructFieldKind::UnnamedField(_) => true,
            StructFieldKind::NamedField(_, _) => false,
        }
    }
}

#[derive(Debug)]
pub struct StructDef {
    /// Fields, not including ctor
    pub fields: Vec<StructField>,
    /// ID of the constructor. This is only used for tuple- or enum-like
    /// structs.
    pub ctor_id: Option<NodeId>,
}

/// An item. The name might be a dummy name in case of anonymous items.
#[derive(Debug)]
pub struct Item {
    pub ident: Ident,
    pub attrs: Vec<Attribute>,
    pub id: NodeId,
    pub node: Item_,
    pub vis: Visibility,
    pub span: Span,
}

#[derive(Debug)]
pub enum Item_ {
    /// An `extern crate` item, with optional original crate name, e.g.
    /// `extern crate foo` or `extern crate foo_bar as foo`.
    ItemExternCrate(Option<Name>),
    /// A `use` or `pub use` item
    ItemUse(P<ViewPath>),
    /// A `static` item
    ItemStatic(P<Ty>, Mutability, P<Expr>),
    /// A `const` item
    ItemConst(P<Ty>, P<Expr>),
    /// A function declaration
    ItemFn(P<FnDecl>, Unsafety, Constness, Abi, Generics, P<Block>),
    /// A module
    ItemMod(Mod),
    /// An external module
    ItemForeignMod(ForeignMod),
    /// A type alias, e.g. `type Foo = Bar<u8>`
    ItemTy(P<Ty>, Generics),
    /// An enum definition, e.g. `enum Foo<A, B> {C<A>, D<B>}`
    ItemEnum(EnumDef, Generics),
    /// A struct definition, e.g. `struct Foo<A> {x: A}`
    ItemStruct(P<StructDef>, Generics),
    /// Represents a trait declaration
    ItemTrait(Unsafety, Generics, TyParamBounds, Vec<P<TraitItem>>),
    /// A default trait implementation: `impl Trait for .. {}`
    ItemDefaultImpl(Unsafety, TraitRef),
    /// An implementation, eg `impl<A> Trait for Foo { .. }`
    ItemImpl(Unsafety, ImplPolarity, Generics, Option<TraitRef>, P<Ty>, Vec<P<ImplItem>>),
    /// A macro invocation (which includes macro definition)
    ItemMac(Mac),
}

impl Item_ {
    pub fn descriptive_variant(&self) -> (r: &'static str)
        ensures
            r@ == (match self {
                Item_::ItemExternCrate(_) => "extern crate"@,
                Item_::ItemUse(_) => "use"@,
                Item_::ItemStatic(_, _, _) => "static item"@,
                Item_::ItemConst(_, _) => "constant item"@,
                Item_::ItemFn(_, _, _, _, _, _) => "function"@,
                Item_::ItemMod(_) => "module"@,
                Item_::ItemForeignMod(_) => "foreign module"@,
                Item_::ItemTy(_, _) => "type alias"@,
                Item_::ItemEnum(_, _) => "enum"@,
                Item_::ItemStruct(_, _) => "struct"@,
                Item_::ItemTrait(_, _, _, _) => "trait"@,
                Item_::ItemMac(_) => "item"@,
                Item_::ItemImpl(_, _, _, _, _, _) => "item"@,
                Item_::ItemDefaultImpl(_, _) => "item"@,
            }),
    {
        match self {
            Item_::ItemExternCrate(_) => "extern crate",
            Item_::ItemUse(_) => "use",
            Item_::ItemStatic(_, _, _) => "static item",
            Item_::ItemConst(_, _) => "constant item",
            Item_::ItemFn(_, _, _, _, _, _) => "function",
            Item_::ItemMod(_) => "module",
            Item_::ItemForeignMod(_) => "foreign module",
            Item_::ItemTy(_, _) => "type alias",
            Item_::ItemEnum(_, _) => "enum",
            Item_::ItemStruct(_, _) => "struct",
            Item_::ItemTrait(_, _, _, _) => "trait",
            Item_::ItemMac(_) => "item",
            Item_::ItemImpl(_, _, _, _, _, _) => "item",
            Item_::ItemDefaultImpl(_, _) => "item",
        }
    }
}

#[derive(Debug)]
pub struct ForeignItem {
    pub ident: Ident,
    pub attrs: Vec<Attribute>,
    pub node: ForeignItem_,
    pub id: NodeId,
    pub span: Span,
    pub vis: Visibility,
}

/// An item within an `extern` block.
#[derive(Debug)]
pub enum ForeignItem_ {
    /// A foreign function
    ForeignItemFn(P<FnDecl>, Generics),
    /// A foreign static item (`static ext: u8`); the boolean is true when
    /// mutable.
    ForeignItemStatic(P<Ty>, bool),
}

impl ForeignItem_ {
    pub fn descriptive_variant(&self) -> (r: &'static str)
        ensures
            r@ == (match self {
                ForeignItem_::ForeignItemFn(_, _) => "foreign function"@,
                ForeignItem_::ForeignItemStatic(_, _) => "foreign static item"@,
            }),
    {
        match self {
            ForeignItem_::ForeignItemFn(_, _) => "foreign function",
            ForeignItem_::ForeignItemStatic(_, _) => "foreign static item",
        }
    }
}

/// The data saved and restored about an inlined item or method. This is not
/// part of the tree that is parsed from a file; it only appears once code
/// from another crate is inlined.
#[derive(Debug)]
pub enum InlinedItem {
    IIItem(P<Item>),
    IITraitItem(DefId, P<TraitItem>),
    IIImplItem(DefId, P<ImplItem>),
    IIForeign(P<ForeignItem>),
}

/// A macro definition, in this crate or imported from another.
///
/// Not parsed directly, but created on macro import or macro-definition
/// expansion.
#[derive(Debug)]
pub struct MacroDef {
    pub ident: Ident,
    pub attrs: Vec<Attribute>,
    pub id: NodeId,
    pub span: Span,
    pub imported_from: Option<Ident>,
    pub export: bool,
    pub use_locally: bool,
    pub allow_internal_unstable: bool,
    pub body: Vec<TokenTree>,
}

/// The text of an interned string, stored directly.
pub type InternedString = String;

/// Binary operator tokens such as `+` or `<<`.
#[derive(Clone, Copy, PartialEq, Eq, Structural, Debug)]
pub enum BinOpToken {
    Plus,
    Minus,
    Star,
    Slash,
    Percent,
    Caret,
    And,
    Or,
    Shl,
    Shr,
}

/// A delimiter token of an explicit bracket group.
#[derive(Clone, Copy, PartialEq, Eq, Structural, Debug)]
pub enum DelimToken {
    /// A round parenthesis: `(` or `)`
    Paren,
    /// A square bracket: `[` or `]`
    Bracket,
    /// A curly brace: `{` or `}`
    Brace,
}

/// Whether an identifier was followed by `::`.
#[derive(Clone, Copy, PartialEq, Eq, Structural, Debug)]
pub enum IdentStyle {
    /// `::` follows the identifier with no whitespace in-between.
    ModName,
    Plain,
}

/// Special macro variables with fixed names.
#[derive(Clone, Copy, PartialEq, Eq, Structural, Debug)]
pub enum SpecialMacroVar {
    /// `$crate` will be filled in with the name of the crate a macro was
    /// imported from, if any.
    CrateMacroVar,
}

impl SpecialMacroVar {
    pub fn as_str(&self) -> (r: &'static str)
        ensures
            r@ == "crate"@,
    {
        "crate"
    }
}

/// The spelling of a literal token, together with its kind.
#[derive(Clone, PartialEq, Eq, Debug)]
pub enum TokenLit {
    Byte(Name),
    Char(Name),
    Integer(Name),
    Float(Name),
    Str_(Name),
    StrRaw(Name, usize),
    Binary(Name),
    BinaryRaw(Name, usize),
}

/// A single lexical token.
#[derive(Debug)]
pub enum Token {
    /* Expression-operator symbols. */
    Eq,
    Lt,
    Le,
    EqEq,
    Ne,
    Ge,
    Gt,
    AndAnd,
    OrOr,
    Not,
    Tilde,
    BinOp(BinOpToken),
    BinOpEq(BinOpToken),
    /* Structural symbols */
    At,
    Dot,
    DotDot,
    DotDotDot,
    Comma,
    Semi,
    Colon,
    ModSep,
    RArrow,
    LArrow,
    FatArrow,
    Pound,
    Dollar,
    Question,
    /// An opening delimiter, like `(`
    OpenDelim(DelimToken),
    /// A closing delimiter, like `)`
    CloseDelim(DelimToken),
    /* Literals */
    Literal(TokenLit, Option<Name>),
    /* Name components */
    Ident(Ident, IdentStyle),
    Underscore,
    Lifetime(Ident),
    /* For interpolation */
    Interpolated(Nonterminal),
    /// Doc comment
    DocComment(Name),
    /// A macro-rules matcher such as `$name:kind`
    MatchNt(Ident, Ident, IdentStyle, IdentStyle),
    /// A syntactic variable that will be filled in by macro expansion.
    SubstNt(Ident, IdentStyle),
    /// A macro variable with special meaning.
    SpecialVarNt(SpecialMacroVar),
    /// Whitespace
    Whitespace,
    /// Comment
    Comment,
    Shebang(Name),
    Eof,
}

/// An already-parsed fragment carried inside a token stream.
#[derive(Debug)]
pub enum Nonterminal {
    NtItem(P<Item>),
    NtBlock(P<Block>),
    NtStmt(P<Stmt>),
    NtPat(P<Pat>),
    NtExpr(P<Expr>),
    NtTy(P<Ty>),
    NtIdent(Box<Ident>, IdentStyle),
    NtMeta(P<MetaItem>),
    NtPath(Box<Path>),
    NtTT(P<TokenTree>),
    NtArm(Arm),
    NtImplItem(P<ImplItem>),
    NtTraitItem(P<TraitItem>),
    NtGenerics(Generics),
    NtWhereClause(WhereClause),
}

/// Intern the given text and build a plain identifier from it.
pub fn str_to_ident(s: &str) -> (r: Ident)
    ensures
        r.name.0@ == s@,
        r.ctxt == 0u32,
{
    Ident { name: Name(s.to_owned()), ctxt: 0 }
}

/// The identifier used for nodes that have no name of their own.
pub fn invalid_ident() -> (r: Ident)
    ensures
        r.name.0@ == Seq::<char>::empty(),
        r.ctxt == 0u32,
{
    Ident { name: Name(String::new()), ctxt: 0 }
}

} // verus!
