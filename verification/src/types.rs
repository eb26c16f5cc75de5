//! The semantic type model: an immutable, structurally comparable tagged
//! union with one variant per type-syntax category.
//!
//! Every value carries a `TypeMeta` record.  Once a value is finalized
//! (`frozen`), it is safe to share: the elaborator never rebuilds a frozen
//! value in place; further changes always produce a new value.
//!
//! Structural equality (`teq`) ignores positions and metadata, so two
//! spellings of the same type from different source locations compare
//! equal.

use vstd::prelude::*;

use crate::base::{Accessor, Atom, AtomList, EntityName, Ident, IdentList, Key, KeywordKind, Lit, ModuleId, Span, TruePlusMinus, TypeOp};

verus! {

/// Metadata carried by every semantic type value.
#[derive(Clone, Copy, PartialEq, Eq, Structural, Debug)]
pub struct TypeMeta {
    /// The value transitively contains an `infer` capture.
    pub contains_infer: bool,
    /// The value was synthesized for an unannotated binding.
    pub implicit: bool,
    /// Automatic generalization/widening is disabled for this value.
    pub prevent_generalization: bool,
    /// Expansion of this reference-like value is disabled.
    pub no_expand: bool,
    /// A tuple carrying this flag must not be converted to an array.
    pub prevent_tuple_to_array: bool,
    /// The value is finalized and may be shared freely.
    pub frozen: bool,
}

/// The all-clear metadata record.
pub open spec fn meta_none() -> TypeMeta {
    TypeMeta {
        contains_infer: false,
        implicit: false,
        prevent_generalization: false,
        no_expand: false,
        prevent_tuple_to_array: false,
        frozen: false,
    }
}

/// Builds the all-clear metadata record.
pub fn meta_default() -> (m: TypeMeta)
    ensures
        m == meta_none(),
{
    TypeMeta {
        contains_infer: false,
        implicit: false,
        prevent_generalization: false,
        no_expand: false,
        prevent_tuple_to_array: false,
        frozen: false,
    }
}

/// An association of names to semantic types, newest first: the shape of a
/// scope frame's registrations, of the mutation side-table, and of a
/// module's published exports.
#[derive(PartialEq, Eq, Debug)]
pub enum Rib {
    Empty,
    More(Atom, Type, Box<Rib>),
}

/// The exported type and variable surface of a module, possibly partial
/// while a circular import group is still being resolved.
#[derive(PartialEq, Eq, Debug)]
pub struct ModuleTypeData {
    pub types: Rib,
    pub vars: Rib,
}

/// A resolved generic parameter: name, optional constraint, optional default.
#[derive(PartialEq, Eq, Debug)]
pub struct TypeParam {
    pub span: Span,
    pub name: Atom,
    pub constraint: Option<Box<Type>>,
    pub default: Option<Box<Type>>,
    pub meta: TypeMeta,
}

/// The parameters of a resolved generic parameter list.
#[derive(PartialEq, Eq, Debug)]
pub enum TypeParams {
    Empty,
    More(TypeParam, Box<TypeParams>),
}

/// A resolved generic parameter list.
#[derive(PartialEq, Eq, Debug)]
pub struct TypeParamDecl {
    pub span: Span,
    pub params: TypeParams,
}

/// Type arguments instantiating a generic reference.
#[derive(PartialEq, Eq, Debug)]
pub struct TypeArgs {
    pub span: Span,
    pub params: TypeList,
}

/// A parameter of a function-like signature.  The binding identifiers of
/// its pattern are kept, flattened, for duplicate-parameter detection; the
/// pattern's full shape stays with the parser.
#[derive(PartialEq, Eq, Debug)]
pub struct FnParam {
    pub span: Span,
    pub required: bool,
    pub ids: IdentList,
    pub ty: Box<Type>,
}

/// The parameters of a function-like signature.
#[derive(PartialEq, Eq, Debug)]
pub enum Params {
    Empty,
    More(FnParam, Box<Params>),
}

/// One element of a tuple type, with its optional label.
#[derive(PartialEq, Eq, Debug)]
pub struct TupleElement {
    pub span: Span,
    pub label: Option<Atom>,
    pub ty: Type,
}

/// The elements of a tuple type.
#[derive(PartialEq, Eq, Debug)]
pub enum TupleElems {
    Empty,
    More(TupleElement, Box<TupleElems>),
}

/// One member of an object type, interface body or type literal.
#[derive(PartialEq, Eq, Debug)]
pub enum TypeElement {
    Call {
        span: Span,
        params: Params,
        type_params: Option<TypeParamDecl>,
        ret_ty: Option<Box<Type>>,
    },
    Constructor {
        span: Span,
        params: Params,
        type_params: Option<TypeParamDecl>,
        ret_ty: Option<Box<Type>>,
    },
    Index { span: Span, readonly: bool, is_static: bool, params: Params, type_ann: Option<Box<Type>> },
    Method {
        span: Span,
        key: Key,
        readonly: bool,
        optional: bool,
        params: Params,
        type_params: Option<TypeParamDecl>,
        ret_ty: Option<Box<Type>>,
    },
    Property {
        span: Span,
        key: Key,
        readonly: bool,
        optional: bool,
        accessor: Accessor,
        params: Params,
        type_ann: Option<Box<Type>>,
        type_params: Option<TypeParamDecl>,
    },
}

/// The members of an object type, interface body or type literal.
#[derive(PartialEq, Eq, Debug)]
pub enum Members {
    Empty,
    More(TypeElement, Box<Members>),
}

/// An interface `extends` clause after elaboration of its type arguments.
#[derive(PartialEq, Eq, Debug)]
pub struct TsExpr {
    pub span: Span,
    pub expr: EntityName,
    pub type_args: Option<Box<TypeArgs>>,
}

/// The `extends` clauses of an interface.
#[derive(PartialEq, Eq, Debug)]
pub enum Extends {
    Empty,
    More(TsExpr, Box<Extends>),
}

/// The operand of an elaborated `typeof` type.
#[derive(PartialEq, Eq, Debug)]
pub enum QueryExpr {
    Name(EntityName),
    Import { span: Span, arg: Atom, qualifier: Option<EntityName>, type_args: Option<Box<TypeArgs>> },
}

/// A list of semantic types.
#[derive(PartialEq, Eq, Debug)]
pub enum TypeList {
    Empty,
    More(Type, Box<TypeList>),
}

/// The semantic type value.
#[derive(PartialEq, Eq, Debug)]
pub enum Type {
    Keyword { span: Span, kind: KeywordKind, meta: TypeMeta },
    Lit { span: Span, lit: Lit, meta: TypeMeta },
    Symbol { span: Span, id: u32, meta: TypeMeta },
    This { span: Span, meta: TypeMeta },
    Param(TypeParam),
    Union { span: Span, types: Box<TypeList>, meta: TypeMeta },
    Intersection { span: Span, types: Box<TypeList>, meta: TypeMeta },
    Array { span: Span, elem: Box<Type>, meta: TypeMeta },
    Tuple { span: Span, elems: Box<TupleElems>, meta: TypeMeta },
    Function {
        span: Span,
        type_params: Option<TypeParamDecl>,
        params: Box<Params>,
        ret_ty: Box<Type>,
        meta: TypeMeta,
    },
    Constructor {
        span: Span,
        type_params: Option<TypeParamDecl>,
        params: Box<Params>,
        ret_ty: Box<Type>,
        is_abstract: bool,
        meta: TypeMeta,
    },
    TypeLit { span: Span, members: Box<Members>, specified: bool, meta: TypeMeta },
    Interface {
        span: Span,
        name: Atom,
        type_params: Option<TypeParamDecl>,
        extends: Box<Extends>,
        body: Box<Members>,
        meta: TypeMeta,
    },
    Alias { span: Span, ty: Box<Type>, type_params: Option<TypeParamDecl>, meta: TypeMeta },
    Conditional {
        span: Span,
        check_ty: Box<Type>,
        extends_ty: Box<Type>,
        true_ty: Box<Type>,
        false_ty: Box<Type>,
        meta: TypeMeta,
    },
    Mapped {
        span: Span,
        readonly: Option<TruePlusMinus>,
        optional: Option<TruePlusMinus>,
        name_ty: Option<Box<Type>>,
        type_param: TypeParam,
        ty: Option<Box<Type>>,
        meta: TypeMeta,
    },
    Operator { span: Span, op: TypeOp, ty: Box<Type>, meta: TypeMeta },
    IndexedAccess { span: Span, readonly: bool, obj_ty: Box<Type>, index_ty: Box<Type>, meta: TypeMeta },
    Query { span: Span, expr: Box<QueryExpr>, meta: TypeMeta },
    Optional { span: Span, ty: Box<Type>, meta: TypeMeta },
    Rest { span: Span, ty: Box<Type>, meta: TypeMeta },
    Infer { span: Span, type_param: TypeParam, meta: TypeMeta },
    Import { span: Span, arg: Atom, qualifier: Option<EntityName>, type_args: Option<Box<TypeArgs>>, meta: TypeMeta },
    Ref { span: Span, ctxt: ModuleId, name: EntityName, type_args: Option<Box<TypeArgs>>, meta: TypeMeta },
    Tpl { span: Span, quasis: Box<AtomList>, types: Box<TypeList>, meta: TypeMeta },
    Predicate { span: Span, param_name: Atom, asserts: bool, ty: Option<Box<Type>>, meta: TypeMeta },
    Intrinsic { span: Span, kind: Atom, type_args: Box<TypeArgs>, meta: TypeMeta },
    Module { span: Span, id: ModuleId, exports: Box<ModuleTypeData>, meta: TypeMeta },
}

/// The `any` placeholder used to recover from invalid constructs.
pub open spec fn spec_any(span: Span, meta: TypeMeta) -> Type {
    Type::Keyword { span, kind: KeywordKind::Any, meta }
}

/// Builds the `any` placeholder.
pub fn make_any(span: Span, meta: TypeMeta) -> (t: Type)
    ensures
        t == spec_any(span, meta),
{
    Type::Keyword { span, kind: KeywordKind::Any, meta }
}

/// The types of a `TypeList`, in order.
pub open spec fn tlist_seq(l: TypeList) -> Seq<Type>
    decreases l,
{
    match l {
        TypeList::Empty => Seq::empty(),
        TypeList::More(t, rest) => seq![t] + tlist_seq(*rest),
    }
}

/// The length of a `TypeList`.
pub open spec fn tlist_len(l: TypeList) -> nat
    decreases l,
{
    match l {
        TypeList::Empty => 0,
        TypeList::More(_, rest) => 1 + tlist_len(*rest),
    }
}

/// The length of a mutation-table or scope association.
pub open spec fn rib_len(r: Rib) -> nat
    decreases r,
{
    match r {
        Rib::Empty => 0,
        Rib::More(_, _, rest) => 1 + rib_len(*rest),
    }
}

/// The first type registered under `name`, searching newest first.
pub open spec fn rib_find(r: Rib, name: Atom) -> Option<Type>
    decreases r,
{
    match r {
        Rib::Empty => None,
        Rib::More(n, t, rest) => if n == name {
            Some(t)
        } else {
            rib_find(*rest, name)
        },
    }
}

/// Whether `name` is bound in `r`.
pub open spec fn rib_contains(r: Rib, name: Atom) -> bool {
    rib_find(r, name) is Some
}

} // verus!

verus! {

// ---------------------------------------------------------------------------
// Structural equality.
//
// Two values are structurally equal when they have the same shape with the
// same names, literals and flags of substance, positions and metadata left
// aside.  This is the equality under which union members are deduplicated
// and duplicate members are detected.
// ---------------------------------------------------------------------------

/// Structural equality of optional entity names.
pub open spec fn en_opt_eq(a: Option<EntityName>, b: Option<EntityName>) -> bool {
    match (a, b) {
        (Option::Some(x), Option::Some(y)) => crate::base::entity_name_eq(x, y),
        (Option::None, Option::None) => true,
        _ => false,
    }
}

/// Structural equality of semantic types.
pub open spec fn teq(a: Type, b: Type) -> bool
    decreases a,
{
    match a {
        Type::Keyword { kind: k1, .. } => b matches Type::Keyword { kind: k2, .. }
            && (k1 == k2),
        Type::Lit { lit: l1, .. } => b matches Type::Lit { lit: l2, .. }
            && (l1 == l2),
        Type::Symbol { id: i1, .. } => b matches Type::Symbol { id: i2, .. }
            && (i1 == i2),
        Type::This { .. } => b matches Type::This { .. },
        Type::Param(p1) => b matches Type::Param(p2) && teq_tp(p1, p2),
        Type::Union { types: t1, .. } => b matches Type::Union { types: t2, .. }
            && (teq_list(*t1, *t2)),
        Type::Intersection { types: t1, .. } => b matches Type::Intersection { types: t2, .. }
            && (teq_list(*t1, *t2)),
        Type::Array { elem: e1, .. } => b matches Type::Array { elem: e2, .. }
            && (teq(*e1, *e2)),
        Type::Tuple { elems: e1, .. } => b matches Type::Tuple { elems: e2, .. }
            && (teq_elems(*e1, *e2)),
        Type::Function { type_params: tp1, params: p1, ret_ty: r1, .. } => b matches Type::Function { type_params: tp2, params: p2, ret_ty: r2, .. }
            && (teq_tpd_opt(tp1, tp2) && teq_params(*p1, *p2) && teq(*r1, *r2)),
        Type::Constructor { type_params: tp1, params: p1, ret_ty: r1, is_abstract: a1, .. } => b matches Type::Constructor { type_params: tp2, params: p2, ret_ty: r2, is_abstract: a2, .. }
            && (a1 == a2 && teq_tpd_opt(tp1, tp2) && teq_params(*p1, *p2) && teq(*r1, *r2)),
        Type::TypeLit { members: m1, .. } => b matches Type::TypeLit { members: m2, .. }
            && (teq_members(*m1, *m2)),
        Type::Interface { name: n1, type_params: tp1, extends: e1, body: b1, .. } => b matches Type::Interface { name: n2, type_params: tp2, extends: e2, body: b2, .. }
            && (n1 == n2 && teq_tpd_opt(tp1, tp2) && teq_extends(*e1, *e2) && teq_members(*b1, *b2)),
        Type::Alias { ty: t1, type_params: tp1, .. } => b matches Type::Alias { ty: t2, type_params: tp2, .. }
            && (teq_tpd_opt(tp1, tp2) && teq(*t1, *t2)),
        Type::Conditional { check_ty: c1, extends_ty: e1, true_ty: t1, false_ty: f1, .. } => b matches Type::Conditional { check_ty: c2, extends_ty: e2, true_ty: t2, false_ty: f2, .. }
            && (teq(*c1, *c2) && teq(*e1, *e2) && teq(*t1, *t2) && teq(*f1, *f2)),
        Type::Mapped { readonly: r1, optional: o1, name_ty: n1, type_param: tp1, ty: t1, .. } => b matches Type::Mapped { readonly: r2, optional: o2, name_ty: n2, type_param: tp2, ty: t2, .. }
            && (r1 == r2 && o1 == o2 && teq_opt(n1, n2) && teq_tp(tp1, tp2) && teq_opt(t1, t2)),
        Type::Operator { op: o1, ty: t1, .. } => b matches Type::Operator { op: o2, ty: t2, .. }
            && (o1 == o2 && teq(*t1, *t2)),
        Type::IndexedAccess { readonly: r1, obj_ty: o1, index_ty: i1, .. } => b matches Type::IndexedAccess { readonly: r2, obj_ty: o2, index_ty: i2, .. }
            && (r1 == r2 && teq(*o1, *o2) && teq(*i1, *i2)),
        Type::Query { expr: e1, .. } => b matches Type::Query { expr: e2, .. }
            && (teq_qe(*e1, *e2)),
        Type::Optional { ty: t1, .. } => b matches Type::Optional { ty: t2, .. }
            && (teq(*t1, *t2)),
        Type::Rest { ty: t1, .. } => b matches Type::Rest { ty: t2, .. }
            && (teq(*t1, *t2)),
        Type::Infer { type_param: p1, .. } => b matches Type::Infer { type_param: p2, .. }
            && (teq_tp(p1, p2)),
        Type::Import { arg: a1, qualifier: q1, type_args: g1, .. } => b matches Type::Import { arg: a2, qualifier: q2, type_args: g2, .. }
            && (a1 == a2 && en_opt_eq(q1, q2) && teq_targs_opt(g1, g2)),
        Type::Ref { ctxt: c1, name: n1, type_args: g1, .. } => b matches Type::Ref { ctxt: c2, name: n2, type_args: g2, .. }
            && (c1 == c2 && crate::base::entity_name_eq(n1, n2) && teq_targs_opt(g1, g2)),
        Type::Tpl { quasis: q1, types: t1, .. } => b matches Type::Tpl { quasis: q2, types: t2, .. }
            && (crate::base::atoms_seq(*q1) == crate::base::atoms_seq(*q2) && teq_list(*t1, *t2)),
        Type::Predicate { param_name: n1, asserts: a1, ty: t1, .. } => b matches Type::Predicate { param_name: n2, asserts: a2, ty: t2, .. }
            && (n1 == n2 && a1 == a2 && teq_opt(t1, t2)),
        Type::Intrinsic { kind: k1, type_args: g1, .. } => b matches Type::Intrinsic { kind: k2, type_args: g2, .. }
            && (k1 == k2 && teq_targs(*g1, *g2)),
        Type::Module { id: i1, exports: x1, .. } => b matches Type::Module { id: i2, exports: x2, .. }
            && (i1 == i2 && teq_rib(x1.types, x2.types) && teq_rib(x1.vars, x2.vars)),
    }
}

/// Structural equality of optional boxed types.
pub open spec fn teq_opt(a: Option<Box<Type>>, b: Option<Box<Type>>) -> bool
    decreases a,
{
    match (a, b) {
        (Option::Some(x), Option::Some(y)) => teq(*x, *y),
        (Option::None, Option::None) => true,
        _ => false,
    }
}

/// Structural equality of type lists, elementwise.
pub open spec fn teq_list(a: TypeList, b: TypeList) -> bool
    decreases a,
{
    match (a, b) {
        (TypeList::Empty, TypeList::Empty) => true,
        (TypeList::More(x, xs), TypeList::More(y, ys)) => teq(x, y) && teq_list(*xs, *ys),
        _ => false,
    }
}

/// Structural equality of tuple element lists.
pub open spec fn teq_elems(a: TupleElems, b: TupleElems) -> bool
    decreases a,
{
    match (a, b) {
        (TupleElems::Empty, TupleElems::Empty) => true,
        (TupleElems::More(x, xs), TupleElems::More(y, ys)) => x.label == y.label && teq(x.ty, y.ty)
            && teq_elems(*xs, *ys),
        _ => false,
    }
}

/// Structural equality of parameter lists.  Parameter names do not bear on
/// the identity of a signature; required-ness and types do.
pub open spec fn teq_params(a: Params, b: Params) -> bool
    decreases a,
{
    match (a, b) {
        (Params::Empty, Params::Empty) => true,
        (Params::More(x, xs), Params::More(y, ys)) => x.required == y.required && teq(*x.ty, *y.ty)
            && teq_params(*xs, *ys),
        _ => false,
    }
}

/// Structural equality of generic parameters.
pub open spec fn teq_tp(a: TypeParam, b: TypeParam) -> bool
    decreases a,
{
    a.name == b.name && teq_opt(a.constraint, b.constraint) && teq_opt(a.default, b.default)
}

/// Structural equality of generic parameter lists.
pub open spec fn teq_tps(a: TypeParams, b: TypeParams) -> bool
    decreases a,
{
    match (a, b) {
        (TypeParams::Empty, TypeParams::Empty) => true,
        (TypeParams::More(x, xs), TypeParams::More(y, ys)) => teq_tp(x, y) && teq_tps(*xs, *ys),
        _ => false,
    }
}

/// Structural equality of optional generic parameter declarations.
pub open spec fn teq_tpd_opt(a: Option<TypeParamDecl>, b: Option<TypeParamDecl>) -> bool
    decreases a,
{
    match (a, b) {
        (Option::Some(x), Option::Some(y)) => teq_tps(x.params, y.params),
        (Option::None, Option::None) => true,
        _ => false,
    }
}

/// Structural equality of type-argument lists.
pub open spec fn teq_targs(a: TypeArgs, b: TypeArgs) -> bool
    decreases a,
{
    teq_list(a.params, b.params)
}

/// Structural equality of optional type-argument lists.
pub open spec fn teq_targs_opt(a: Option<Box<TypeArgs>>, b: Option<Box<TypeArgs>>) -> bool
    decreases a,
{
    match (a, b) {
        (Option::Some(x), Option::Some(y)) => teq_targs(*x, *y),
        (Option::None, Option::None) => true,
        _ => false,
    }
}

/// Structural equality of member lists.
pub open spec fn teq_members(a: Members, b: Members) -> bool
    decreases a,
{
    match (a, b) {
        (Members::Empty, Members::Empty) => true,
        (Members::More(x, xs), Members::More(y, ys)) => teq_elem(x, y) && teq_members(*xs, *ys),
        _ => false,
    }
}

/// Structural equality of single members.
pub open spec fn teq_elem(a: TypeElement, b: TypeElement) -> bool
    decreases a,
{
    match (a, b) {
        (
            TypeElement::Call { params: p1, type_params: tp1, ret_ty: r1, .. },
            TypeElement::Call { params: p2, type_params: tp2, ret_ty: r2, .. },
        ) => teq_params(p1, p2) && teq_tpd_opt(tp1, tp2) && teq_opt(r1, r2),
        (
            TypeElement::Constructor { params: p1, type_params: tp1, ret_ty: r1, .. },
            TypeElement::Constructor { params: p2, type_params: tp2, ret_ty: r2, .. },
        ) => teq_params(p1, p2) && teq_tpd_opt(tp1, tp2) && teq_opt(r1, r2),
        (
            TypeElement::Index { readonly: ro1, is_static: s1, params: p1, type_ann: t1, .. },
            TypeElement::Index { readonly: ro2, is_static: s2, params: p2, type_ann: t2, .. },
        ) => ro1 == ro2 && s1 == s2 && teq_params(p1, p2) && teq_opt(t1, t2),
        (
            TypeElement::Method {
                key: k1,
                readonly: ro1,
                optional: o1,
                params: p1,
                type_params: tp1,
                ret_ty: r1,
                ..
            },
            TypeElement::Method {
                key: k2,
                readonly: ro2,
                optional: o2,
                params: p2,
                type_params: tp2,
                ret_ty: r2,
                ..
            },
        ) => crate::base::key_eq(k1, k2) && ro1 == ro2 && o1 == o2 && teq_params(p1, p2)
            && teq_tpd_opt(tp1, tp2) && teq_opt(r1, r2),
        (
            TypeElement::Property {
                key: k1,
                readonly: ro1,
                optional: o1,
                accessor: a1,
                params: p1,
                type_ann: t1,
                type_params: tp1,
                ..
            },
            TypeElement::Property {
                key: k2,
                readonly: ro2,
                optional: o2,
                accessor: a2,
                params: p2,
                type_ann: t2,
                type_params: tp2,
                ..
            },
        ) => crate::base::key_eq(k1, k2) && ro1 == ro2 && o1 == o2 && a1 == a2
            && teq_params(p1, p2) && teq_opt(t1, t2) && teq_tpd_opt(tp1, tp2),
        _ => false,
    }
}

/// Structural equality of interface `extends` lists.
pub open spec fn teq_extends(a: Extends, b: Extends) -> bool
    decreases a,
{
    match (a, b) {
        (Extends::Empty, Extends::Empty) => true,
        (Extends::More(x, xs), Extends::More(y, ys)) => crate::base::entity_name_eq(x.expr, y.expr)
            && teq_targs_opt(x.type_args, y.type_args) && teq_extends(*xs, *ys),
        _ => false,
    }
}

/// Structural equality of `typeof` operands.
pub open spec fn teq_qe(a: QueryExpr, b: QueryExpr) -> bool
    decreases a,
{
    match (a, b) {
        (QueryExpr::Name(n1), QueryExpr::Name(n2)) => crate::base::entity_name_eq(n1, n2),
        (
            QueryExpr::Import { arg: a1, qualifier: q1, type_args: g1, .. },
            QueryExpr::Import { arg: a2, qualifier: q2, type_args: g2, .. },
        ) => a1 == a2 && en_opt_eq(q1, q2) && teq_targs_opt(g1, g2),
        _ => false,
    }
}

/// Structural equality of name-to-type associations, in order.
pub open spec fn teq_rib(a: Rib, b: Rib) -> bool
    decreases a,
{
    match (a, b) {
        (Rib::Empty, Rib::Empty) => true,
        (Rib::More(n1, t1, r1), Rib::More(n2, t2, r2)) => n1 == n2 && teq(t1, t2)
            && teq_rib(*r1, *r2),
        _ => false,
    }
}

} // verus!

verus! {

// ---------------------------------------------------------------------------
// Executable structural equality.
// ---------------------------------------------------------------------------

/// Executable structural equality of optional entity names.
pub fn en_opt_eq_exec(a: &Option<EntityName>, b: &Option<EntityName>) -> (r: bool)
    ensures
        r == en_opt_eq(*a, *b),
{
    match (a, b) {
        (Option::Some(x), Option::Some(y)) => crate::base::entity_name_eq_exec(x, y),
        (Option::None, Option::None) => true,
        _ => false,
    }
}

/// Executable equality of atom lists.
pub fn atoms_eq_exec(a: &AtomList, b: &AtomList) -> (r: bool)
    ensures
        r == (crate::base::atoms_seq(*a) == crate::base::atoms_seq(*b)),
    decreases *a,
{
    match (a, b) {
        (AtomList::Empty, AtomList::Empty) => true,
        (AtomList::More(x, xs), AtomList::More(y, ys)) => {
            let rest = atoms_eq_exec(xs, ys);
            proof {
                crate::base::atoms_seq(*a).subrange(1, crate::base::atoms_seq(*a).len() as int);
                assert(crate::base::atoms_seq(*a) == seq![*x] + crate::base::atoms_seq(**xs));
                assert(crate::base::atoms_seq(*b) == seq![*y] + crate::base::atoms_seq(**ys));
                if *x == *y && rest {
                    assert(crate::base::atoms_seq(*a) =~= crate::base::atoms_seq(*b));
                } else if crate::base::atoms_seq(*a) == crate::base::atoms_seq(*b) {
                    assert(crate::base::atoms_seq(*a)[0] == *x);
                    assert(crate::base::atoms_seq(*b)[0] == *y);
                    assert(crate::base::atoms_seq(*a).skip(1) =~= crate::base::atoms_seq(**xs));
                    assert(crate::base::atoms_seq(*b).skip(1) =~= crate::base::atoms_seq(**ys));
                }
            }
            *x == *y && rest
        },
        (AtomList::Empty, AtomList::More(y, ys)) => {
            proof {
                assert(crate::base::atoms_seq(*b).len() > 0);
            }
            false
        },
        (AtomList::More(x, xs), AtomList::Empty) => {
            proof {
                assert(crate::base::atoms_seq(*a).len() > 0);
            }
            false
        },
    }
}

/// Executable structural equality of semantic types.
#[verifier::rlimit(100)]
#[verifier::spinoff_prover]
pub fn type_eq(a: &Type, b: &Type) -> (r: bool)
    ensures
        r == teq(*a, *b),
    decreases *a,
{
    match a {
        Type::Keyword { kind: k1, .. } => match b {
            Type::Keyword { kind: k2, .. } => *k1 == *k2,
            _ => false,
        },
        Type::Lit { lit: l1, .. } => match b {
            Type::Lit { lit: l2, .. } => *l1 == *l2,
            _ => false,
        },
        Type::Symbol { id: i1, .. } => match b {
            Type::Symbol { id: i2, .. } => *i1 == *i2,
            _ => false,
        },
        Type::This { .. } => match b {
            Type::This { .. } => true,
            _ => false,
        },
        Type::Param(p1) => match b {
            Type::Param(p2) => type_param_eq(p1, p2),
            _ => false,
        },
        Type::Union { types: t1, .. } => match b {
            Type::Union { types: t2, .. } => type_list_eq(t1, t2),
            _ => false,
        },
        Type::Intersection { types: t1, .. } => match b {
            Type::Intersection { types: t2, .. } => type_list_eq(t1, t2),
            _ => false,
        },
        Type::Array { elem: e1, .. } => match b {
            Type::Array { elem: e2, .. } => type_eq(e1, e2),
            _ => false,
        },
        Type::Tuple { elems: e1, .. } => match b {
            Type::Tuple { elems: e2, .. } => tuple_elems_eq(e1, e2),
            _ => false,
        },
        Type::Function { type_params: tp1, params: p1, ret_ty: r1, .. } => match b {
            Type::Function { type_params: tp2, params: p2, ret_ty: r2, .. } => tpd_opt_eq(tp1, tp2) && params_eq(p1, p2) && type_eq(r1, r2),
            _ => false,
        },
        Type::Constructor { type_params: tp1, params: p1, ret_ty: r1, is_abstract: a1, .. } => match b {
            Type::Constructor { type_params: tp2, params: p2, ret_ty: r2, is_abstract: a2, .. } => *a1 == *a2 && tpd_opt_eq(tp1, tp2) && params_eq(p1, p2) && type_eq(r1, r2),
            _ => false,
        },
        Type::TypeLit { members: m1, .. } => match b {
            Type::TypeLit { members: m2, .. } => members_eq(m1, m2),
            _ => false,
        },
        Type::Interface { name: n1, type_params: tp1, extends: e1, body: b1, .. } => match b {
            Type::Interface { name: n2, type_params: tp2, extends: e2, body: b2, .. } => *n1 == *n2 && tpd_opt_eq(tp1, tp2) && extends_eq(e1, e2) && members_eq(b1, b2),
            _ => false,
        },
        Type::Alias { ty: t1, type_params: tp1, .. } => match b {
            Type::Alias { ty: t2, type_params: tp2, .. } => tpd_opt_eq(tp1, tp2) && type_eq(t1, t2),
            _ => false,
        },
        Type::Conditional { check_ty: c1, extends_ty: e1, true_ty: t1, false_ty: f1, .. } => match b {
            Type::Conditional { check_ty: c2, extends_ty: e2, true_ty: t2, false_ty: f2, .. } => type_eq(c1, c2) && type_eq(e1, e2) && type_eq(t1, t2) && type_eq(f1, f2),
            _ => false,
        },
        Type::Mapped { readonly: r1, optional: o1, name_ty: n1, type_param: tp1, ty: t1, .. } => match b {
            Type::Mapped { readonly: r2, optional: o2, name_ty: n2, type_param: tp2, ty: t2, .. } => tpm_opt_eq(r1, r2) && tpm_opt_eq(o1, o2) && type_opt_eq(n1, n2) && type_param_eq(tp1, tp2) && type_opt_eq(t1, t2),
            _ => false,
        },
        Type::Operator { op: o1, ty: t1, .. } => match b {
            Type::Operator { op: o2, ty: t2, .. } => *o1 == *o2 && type_eq(t1, t2),
            _ => false,
        },
        Type::IndexedAccess { readonly: r1, obj_ty: o1, index_ty: i1, .. } => match b {
            Type::IndexedAccess { readonly: r2, obj_ty: o2, index_ty: i2, .. } => *r1 == *r2 && type_eq(o1, o2) && type_eq(i1, i2),
            _ => false,
        },
        Type::Query { expr: e1, .. } => match b {
            Type::Query { expr: e2, .. } => query_expr_eq(e1, e2),
            _ => false,
        },
        Type::Optional { ty: t1, .. } => match b {
            Type::Optional { ty: t2, .. } => type_eq(t1, t2),
            _ => false,
        },
        Type::Rest { ty: t1, .. } => match b {
            Type::Rest { ty: t2, .. } => type_eq(t1, t2),
            _ => false,
        },
        Type::Infer { type_param: p1, .. } => match b {
            Type::Infer { type_param: p2, .. } => type_param_eq(p1, p2),
            _ => false,
        },
        Type::Import { arg: a1, qualifier: q1, type_args: g1, .. } => match b {
            Type::Import { arg: a2, qualifier: q2, type_args: g2, .. } => *a1 == *a2 && en_opt_eq_exec(q1, q2) && targs_opt_eq(g1, g2),
            _ => false,
        },
        Type::Ref { ctxt: c1, name: n1, type_args: g1, .. } => match b {
            Type::Ref { ctxt: c2, name: n2, type_args: g2, .. } => *c1 == *c2 && crate::base::entity_name_eq_exec(n1, n2) && targs_opt_eq(g1, g2),
            _ => false,
        },
        Type::Tpl { quasis: q1, types: t1, .. } => match b {
            Type::Tpl { quasis: q2, types: t2, .. } => atoms_eq_exec(q1, q2) && type_list_eq(t1, t2),
            _ => false,
        },
        Type::Predicate { param_name: n1, asserts: a1, ty: t1, .. } => match b {
            Type::Predicate { param_name: n2, asserts: a2, ty: t2, .. } => *n1 == *n2 && *a1 == *a2 && type_opt_eq(t1, t2),
            _ => false,
        },
        Type::Intrinsic { kind: k1, type_args: g1, .. } => match b {
            Type::Intrinsic { kind: k2, type_args: g2, .. } => *k1 == *k2 && targs_eq(g1, g2),
            _ => false,
        },
        Type::Module { id: i1, exports: x1, .. } => match b {
            Type::Module { id: i2, exports: x2, .. } => *i1 == *i2 && rib_eq(&x1.types, &x2.types) && rib_eq(&x1.vars, &x2.vars),
            _ => false,
        },
    }
}

/// Executable equality of optional mapped-type modifiers.
pub fn tpm_opt_eq(a: &Option<TruePlusMinus>, b: &Option<TruePlusMinus>) -> (r: bool)
    ensures
        r == (*a == *b),
{
    match (a, b) {
        (Option::Some(x), Option::Some(y)) => *x == *y,
        (Option::None, Option::None) => true,
        _ => false,
    }
}

/// Executable structural equality of optional boxed types.
pub fn type_opt_eq(a: &Option<Box<Type>>, b: &Option<Box<Type>>) -> (r: bool)
    ensures
        r == teq_opt(*a, *b),
    decreases *a,
{
    match (a, b) {
        (Option::Some(x), Option::Some(y)) => type_eq(x, y),
        (Option::None, Option::None) => true,
        _ => false,
    }
}

/// Executable structural equality of type lists.
pub fn type_list_eq(a: &TypeList, b: &TypeList) -> (r: bool)
    ensures
        r == teq_list(*a, *b),
    decreases *a,
{
    match (a, b) {
        (TypeList::Empty, TypeList::Empty) => true,
        (TypeList::More(x, xs), TypeList::More(y, ys)) => type_eq(x, y) && type_list_eq(xs, ys),
        _ => false,
    }
}

/// Executable structural equality of tuple element lists.
pub fn tuple_elems_eq(a: &TupleElems, b: &TupleElems) -> (r: bool)
    ensures
        r == teq_elems(*a, *b),
    decreases *a,
{
    match (a, b) {
        (TupleElems::Empty, TupleElems::Empty) => true,
        (TupleElems::More(x, xs), TupleElems::More(y, ys)) => {
            let lbl = match (&x.label, &y.label) {
                (Option::Some(l1), Option::Some(l2)) => *l1 == *l2,
                (Option::None, Option::None) => true,
                _ => false,
            };
            lbl && type_eq(&x.ty, &y.ty) && tuple_elems_eq(xs, ys)
        },
        _ => false,
    }
}

/// Executable structural equality of parameter lists.
pub fn params_eq(a: &Params, b: &Params) -> (r: bool)
    ensures
        r == teq_params(*a, *b),
    decreases *a,
{
    match (a, b) {
        (Params::Empty, Params::Empty) => true,
        (Params::More(x, xs), Params::More(y, ys)) => x.required == y.required
            && type_eq(&x.ty, &y.ty) && params_eq(xs, ys),
        _ => false,
    }
}

/// Executable structural equality of generic parameters.
pub fn type_param_eq(a: &TypeParam, b: &TypeParam) -> (r: bool)
    ensures
        r == teq_tp(*a, *b),
    decreases *a,
{
    a.name == b.name && type_opt_eq(&a.constraint, &b.constraint) && type_opt_eq(
        &a.default,
        &b.default,
    )
}

/// Executable structural equality of generic parameter lists.
pub fn type_params_eq(a: &TypeParams, b: &TypeParams) -> (r: bool)
    ensures
        r == teq_tps(*a, *b),
    decreases *a,
{
    match (a, b) {
        (TypeParams::Empty, TypeParams::Empty) => true,
        (TypeParams::More(x, xs), TypeParams::More(y, ys)) => type_param_eq(x, y)
            && type_params_eq(xs, ys),
        _ => false,
    }
}

/// Executable structural equality of optional generic parameter declarations.
pub fn tpd_opt_eq(a: &Option<TypeParamDecl>, b: &Option<TypeParamDecl>) -> (r: bool)
    ensures
        r == teq_tpd_opt(*a, *b),
    decreases *a,
{
    match (a, b) {
        (Option::Some(x), Option::Some(y)) => type_params_eq(&x.params, &y.params),
        (Option::None, Option::None) => true,
        _ => false,
    }
}

/// Executable structural equality of type-argument lists.
pub fn targs_eq(a: &TypeArgs, b: &TypeArgs) -> (r: bool)
    ensures
        r == teq_targs(*a, *b),
    decreases *a,
{
    type_list_eq(&a.params, &b.params)
}

/// Executable structural equality of optional type-argument lists.
pub fn targs_opt_eq(a: &Option<Box<TypeArgs>>, b: &Option<Box<TypeArgs>>) -> (r: bool)
    ensures
        r == teq_targs_opt(*a, *b),
    decreases *a,
{
    match (a, b) {
        (Option::Some(x), Option::Some(y)) => targs_eq(x, y),
        (Option::None, Option::None) => true,
        _ => false,
    }
}

/// Executable structural equality of member lists.
pub fn members_eq(a: &Members, b: &Members) -> (r: bool)
    ensures
        r == teq_members(*a, *b),
    decreases *a,
{
    match (a, b) {
        (Members::Empty, Members::Empty) => true,
        (Members::More(x, xs), Members::More(y, ys)) => type_element_eq(x, y) && members_eq(xs, ys),
        _ => false,
    }
}

/// Executable structural equality of single members.
pub fn type_element_eq(a: &TypeElement, b: &TypeElement) -> (r: bool)
    ensures
        r == teq_elem(*a, *b),
    decreases *a,
{
    match (a, b) {
        (
            TypeElement::Call { params: p1, type_params: tp1, ret_ty: r1, .. },
            TypeElement::Call { params: p2, type_params: tp2, ret_ty: r2, .. },
        ) => params_eq(p1, p2) && tpd_opt_eq(tp1, tp2) && type_opt_eq(r1, r2),
        (
            TypeElement::Constructor { params: p1, type_params: tp1, ret_ty: r1, .. },
            TypeElement::Constructor { params: p2, type_params: tp2, ret_ty: r2, .. },
        ) => params_eq(p1, p2) && tpd_opt_eq(tp1, tp2) && type_opt_eq(r1, r2),
        (
            TypeElement::Index { readonly: ro1, is_static: s1, params: p1, type_ann: t1, .. },
            TypeElement::Index { readonly: ro2, is_static: s2, params: p2, type_ann: t2, .. },
        ) => *ro1 == *ro2 && *s1 == *s2 && params_eq(p1, p2) && type_opt_eq(t1, t2),
        (
            TypeElement::Method {
                key: k1,
                readonly: ro1,
                optional: o1,
                params: p1,
                type_params: tp1,
                ret_ty: r1,
                ..
            },
            TypeElement::Method {
                key: k2,
                readonly: ro2,
                optional: o2,
                params: p2,
                type_params: tp2,
                ret_ty: r2,
                ..
            },
        ) => crate::base::key_eq_exec(k1, k2) && *ro1 == *ro2 && *o1 == *o2 && params_eq(p1, p2)
            && tpd_opt_eq(tp1, tp2) && type_opt_eq(r1, r2),
        (
            TypeElement::Property {
                key: k1,
                readonly: ro1,
                optional: o1,
                accessor: a1,
                params: p1,
                type_ann: t1,
                type_params: tp1,
                ..
            },
            TypeElement::Property {
                key: k2,
                readonly: ro2,
                optional: o2,
                accessor: a2,
                params: p2,
                type_ann: t2,
                type_params: tp2,
                ..
            },
        ) => crate::base::key_eq_exec(k1, k2) && *ro1 == *ro2 && *o1 == *o2 && *a1 == *a2
            && params_eq(p1, p2) && type_opt_eq(t1, t2) && tpd_opt_eq(tp1, tp2),
        _ => false,
    }
}

/// Executable structural equality of interface `extends` lists.
pub fn extends_eq(a: &Extends, b: &Extends) -> (r: bool)
    ensures
        r == teq_extends(*a, *b),
    decreases *a,
{
    match (a, b) {
        (Extends::Empty, Extends::Empty) => true,
        (Extends::More(x, xs), Extends::More(y, ys)) => crate::base::entity_name_eq_exec(
            &x.expr,
            &y.expr,
        ) && targs_opt_eq(&x.type_args, &y.type_args) && extends_eq(xs, ys),
        _ => false,
    }
}

/// Executable structural equality of `typeof` operands.
pub fn query_expr_eq(a: &QueryExpr, b: &QueryExpr) -> (r: bool)
    ensures
        r == teq_qe(*a, *b),
    decreases *a,
{
    match (a, b) {
        (QueryExpr::Name(n1), QueryExpr::Name(n2)) => crate::base::entity_name_eq_exec(n1, n2),
        (
            QueryExpr::Import { arg: a1, qualifier: q1, type_args: g1, .. },
            QueryExpr::Import { arg: a2, qualifier: q2, type_args: g2, .. },
        ) => *a1 == *a2 && en_opt_eq_exec(q1, q2) && targs_opt_eq(g1, g2),
        _ => false,
    }
}

/// Executable structural equality of name-to-type associations.
pub fn rib_eq(a: &Rib, b: &Rib) -> (r: bool)
    ensures
        r == teq_rib(*a, *b),
    decreases *a,
{
    match (a, b) {
        (Rib::Empty, Rib::Empty) => true,
        (Rib::More(n1, t1, r1), Rib::More(n2, t2, r2)) => *n1 == *n2 && type_eq(t1, t2)
            && rib_eq(r1, r2),
        _ => false,
    }
}

} // verus!


verus! {

// ---------------------------------------------------------------------------
// Metadata access, deep copy, finalization ("freeze"), and the
// contains-infer query, over the whole semantic type structure.
// ---------------------------------------------------------------------------

/// The metadata record of a value's root node.
pub open spec fn meta_of(t: Type) -> TypeMeta {
    match t {
        Type::Keyword { meta, .. } => meta,
        Type::Lit { meta, .. } => meta,
        Type::Symbol { meta, .. } => meta,
        Type::This { meta, .. } => meta,
        Type::Union { meta, .. } => meta,
        Type::Intersection { meta, .. } => meta,
        Type::Array { meta, .. } => meta,
        Type::Tuple { meta, .. } => meta,
        Type::Function { meta, .. } => meta,
        Type::Constructor { meta, .. } => meta,
        Type::TypeLit { meta, .. } => meta,
        Type::Interface { meta, .. } => meta,
        Type::Alias { meta, .. } => meta,
        Type::Conditional { meta, .. } => meta,
        Type::Mapped { meta, .. } => meta,
        Type::Operator { meta, .. } => meta,
        Type::IndexedAccess { meta, .. } => meta,
        Type::Query { meta, .. } => meta,
        Type::Optional { meta, .. } => meta,
        Type::Rest { meta, .. } => meta,
        Type::Infer { meta, .. } => meta,
        Type::Import { meta, .. } => meta,
        Type::Ref { meta, .. } => meta,
        Type::Tpl { meta, .. } => meta,
        Type::Predicate { meta, .. } => meta,
        Type::Intrinsic { meta, .. } => meta,
        Type::Module { meta, .. } => meta,
        Type::Param(p) => p.meta,
    }
}

/// Reads the metadata record of a value's root node.
pub fn type_meta(t: &Type) -> (m: TypeMeta)
    ensures
        m == meta_of(*t),
{
    match t {
        Type::Keyword { meta, .. } => *meta,
        Type::Lit { meta, .. } => *meta,
        Type::Symbol { meta, .. } => *meta,
        Type::This { meta, .. } => *meta,
        Type::Union { meta, .. } => *meta,
        Type::Intersection { meta, .. } => *meta,
        Type::Array { meta, .. } => *meta,
        Type::Tuple { meta, .. } => *meta,
        Type::Function { meta, .. } => *meta,
        Type::Constructor { meta, .. } => *meta,
        Type::TypeLit { meta, .. } => *meta,
        Type::Interface { meta, .. } => *meta,
        Type::Alias { meta, .. } => *meta,
        Type::Conditional { meta, .. } => *meta,
        Type::Mapped { meta, .. } => *meta,
        Type::Operator { meta, .. } => *meta,
        Type::IndexedAccess { meta, .. } => *meta,
        Type::Query { meta, .. } => *meta,
        Type::Optional { meta, .. } => *meta,
        Type::Rest { meta, .. } => *meta,
        Type::Infer { meta, .. } => *meta,
        Type::Import { meta, .. } => *meta,
        Type::Ref { meta, .. } => *meta,
        Type::Tpl { meta, .. } => *meta,
        Type::Predicate { meta, .. } => *meta,
        Type::Intrinsic { meta, .. } => *meta,
        Type::Module { meta, .. } => *meta,
        Type::Param(p) => p.meta,
    }
}

/// `t` with the metadata record of its root node replaced by `m`.
pub open spec fn with_meta(t: Type, m: TypeMeta) -> Type {
    match t {
        Type::Keyword { span, kind, .. } => Type::Keyword { span, kind, meta: m },
        Type::Lit { span, lit, .. } => Type::Lit { span, lit, meta: m },
        Type::Symbol { span, id, .. } => Type::Symbol { span, id, meta: m },
        Type::This { span, .. } => Type::This { span, meta: m },
        Type::Union { span, types, .. } => Type::Union { span, types, meta: m },
        Type::Intersection { span, types, .. } => Type::Intersection { span, types, meta: m },
        Type::Array { span, elem, .. } => Type::Array { span, elem, meta: m },
        Type::Tuple { span, elems, .. } => Type::Tuple { span, elems, meta: m },
        Type::Function { span, type_params, params, ret_ty, .. } => Type::Function { span, type_params, params, ret_ty, meta: m },
        Type::Constructor { span, type_params, params, ret_ty, is_abstract, .. } => Type::Constructor { span, type_params, params, ret_ty, is_abstract, meta: m },
        Type::TypeLit { span, members, specified, .. } => Type::TypeLit { span, members, specified, meta: m },
        Type::Interface { span, name, type_params, extends, body, .. } => Type::Interface { span, name, type_params, extends, body, meta: m },
        Type::Alias { span, ty, type_params, .. } => Type::Alias { span, ty, type_params, meta: m },
        Type::Conditional { span, check_ty, extends_ty, true_ty, false_ty, .. } => Type::Conditional { span, check_ty, extends_ty, true_ty, false_ty, meta: m },
        Type::Mapped { span, readonly, optional, name_ty, type_param, ty, .. } => Type::Mapped { span, readonly, optional, name_ty, type_param, ty, meta: m },
        Type::Operator { span, op, ty, .. } => Type::Operator { span, op, ty, meta: m },
        Type::IndexedAccess { span, readonly, obj_ty, index_ty, .. } => Type::IndexedAccess { span, readonly, obj_ty, index_ty, meta: m },
        Type::Query { span, expr, .. } => Type::Query { span, expr, meta: m },
        Type::Optional { span, ty, .. } => Type::Optional { span, ty, meta: m },
        Type::Rest { span, ty, .. } => Type::Rest { span, ty, meta: m },
        Type::Infer { span, type_param, .. } => Type::Infer { span, type_param, meta: m },
        Type::Import { span, arg, qualifier, type_args, .. } => Type::Import { span, arg, qualifier, type_args, meta: m },
        Type::Ref { span, ctxt, name, type_args, .. } => Type::Ref { span, ctxt, name, type_args, meta: m },
        Type::Tpl { span, quasis, types, .. } => Type::Tpl { span, quasis, types, meta: m },
        Type::Predicate { span, param_name, asserts, ty, .. } => Type::Predicate { span, param_name, asserts, ty, meta: m },
        Type::Intrinsic { span, kind, type_args, .. } => Type::Intrinsic { span, kind, type_args, meta: m },
        Type::Module { span, id, exports, .. } => Type::Module { span, id, exports, meta: m },
        Type::Param(p) => Type::Param(TypeParam { meta: m, ..p }),
    }
}

/// Replaces the metadata record of a value's root node.
pub fn set_meta(t: Type, m: TypeMeta) -> (r: Type)
    ensures
        r == with_meta(t, m),
{
    match t {
        Type::Keyword { span, kind, .. } => Type::Keyword { span, kind, meta: m },
        Type::Lit { span, lit, .. } => Type::Lit { span, lit, meta: m },
        Type::Symbol { span, id, .. } => Type::Symbol { span, id, meta: m },
        Type::This { span, .. } => Type::This { span, meta: m },
        Type::Union { span, types, .. } => Type::Union { span, types, meta: m },
        Type::Intersection { span, types, .. } => Type::Intersection { span, types, meta: m },
        Type::Array { span, elem, .. } => Type::Array { span, elem, meta: m },
        Type::Tuple { span, elems, .. } => Type::Tuple { span, elems, meta: m },
        Type::Function { span, type_params, params, ret_ty, .. } => Type::Function { span, type_params, params, ret_ty, meta: m },
        Type::Constructor { span, type_params, params, ret_ty, is_abstract, .. } => Type::Constructor { span, type_params, params, ret_ty, is_abstract, meta: m },
        Type::TypeLit { span, members, specified, .. } => Type::TypeLit { span, members, specified, meta: m },
        Type::Interface { span, name, type_params, extends, body, .. } => Type::Interface { span, name, type_params, extends, body, meta: m },
        Type::Alias { span, ty, type_params, .. } => Type::Alias { span, ty, type_params, meta: m },
        Type::Conditional { span, check_ty, extends_ty, true_ty, false_ty, .. } => Type::Conditional { span, check_ty, extends_ty, true_ty, false_ty, meta: m },
        Type::Mapped { span, readonly, optional, name_ty, type_param, ty, .. } => Type::Mapped { span, readonly, optional, name_ty, type_param, ty, meta: m },
        Type::Operator { span, op, ty, .. } => Type::Operator { span, op, ty, meta: m },
        Type::IndexedAccess { span, readonly, obj_ty, index_ty, .. } => Type::IndexedAccess { span, readonly, obj_ty, index_ty, meta: m },
        Type::Query { span, expr, .. } => Type::Query { span, expr, meta: m },
        Type::Optional { span, ty, .. } => Type::Optional { span, ty, meta: m },
        Type::Rest { span, ty, .. } => Type::Rest { span, ty, meta: m },
        Type::Infer { span, type_param, .. } => Type::Infer { span, type_param, meta: m },
        Type::Import { span, arg, qualifier, type_args, .. } => Type::Import { span, arg, qualifier, type_args, meta: m },
        Type::Ref { span, ctxt, name, type_args, .. } => Type::Ref { span, ctxt, name, type_args, meta: m },
        Type::Tpl { span, quasis, types, .. } => Type::Tpl { span, quasis, types, meta: m },
        Type::Predicate { span, param_name, asserts, ty, .. } => Type::Predicate { span, param_name, asserts, ty, meta: m },
        Type::Intrinsic { span, kind, type_args, .. } => Type::Intrinsic { span, kind, type_args, meta: m },
        Type::Module { span, id, exports, .. } => Type::Module { span, id, exports, meta: m },
        Type::Param(p) => Type::Param(TypeParam {
            span: p.span,
            name: p.name,
            constraint: p.constraint,
            default: p.default,
            meta: m,
        }),
    }
}
} // verus!

verus! {

/// Deep copy of an optional entity name.
pub fn copy_en_opt(a: &Option<EntityName>) -> (r: Option<EntityName>)
    ensures
        r == *a,
{
    match a {
        Option::Some(x) => Option::Some(crate::base::copy_entity_name(x)),
        Option::None => Option::None,
    }
}

/// Deep copy of a semantic type.
pub fn copy_type(a: &Type) -> (r: Type)
    ensures
        r == *a,
    decreases *a,
{
    match a {
        Type::Keyword { span, kind, meta } => Type::Keyword { span: *span, kind: *kind, meta: *meta },
        Type::Lit { span, lit, meta } => Type::Lit { span: *span, lit: *lit, meta: *meta },
        Type::Symbol { span, id, meta } => Type::Symbol { span: *span, id: *id, meta: *meta },
        Type::This { span, meta } => Type::This { span: *span, meta: *meta },
        Type::Union { span, types, meta } => Type::Union { span: *span, types: Box::new(copy_type_list(types)), meta: *meta },
        Type::Intersection { span, types, meta } => Type::Intersection { span: *span, types: Box::new(copy_type_list(types)), meta: *meta },
        Type::Array { span, elem, meta } => Type::Array { span: *span, elem: Box::new(copy_type(elem)), meta: *meta },
        Type::Tuple { span, elems, meta } => Type::Tuple { span: *span, elems: Box::new(copy_tuple_elems(elems)), meta: *meta },
        Type::Function { span, type_params, params, ret_ty, meta } => Type::Function { span: *span, type_params: copy_tpd_opt(type_params), params: Box::new(copy_params(params)), ret_ty: Box::new(copy_type(ret_ty)), meta: *meta },
        Type::Constructor { span, type_params, params, ret_ty, is_abstract, meta } => Type::Constructor { span: *span, type_params: copy_tpd_opt(type_params), params: Box::new(copy_params(params)), ret_ty: Box::new(copy_type(ret_ty)), is_abstract: *is_abstract, meta: *meta },
        Type::TypeLit { span, members, specified, meta } => Type::TypeLit { span: *span, members: Box::new(copy_members(members)), specified: *specified, meta: *meta },
        Type::Interface { span, name, type_params, extends, body, meta } => Type::Interface { span: *span, name: *name, type_params: copy_tpd_opt(type_params), extends: Box::new(copy_extends(extends)), body: Box::new(copy_members(body)), meta: *meta },
        Type::Alias { span, ty, type_params, meta } => Type::Alias { span: *span, ty: Box::new(copy_type(ty)), type_params: copy_tpd_opt(type_params), meta: *meta },
        Type::Conditional { span, check_ty, extends_ty, true_ty, false_ty, meta } => Type::Conditional { span: *span, check_ty: Box::new(copy_type(check_ty)), extends_ty: Box::new(copy_type(extends_ty)), true_ty: Box::new(copy_type(true_ty)), false_ty: Box::new(copy_type(false_ty)), meta: *meta },
        Type::Mapped { span, readonly, optional, name_ty, type_param, ty, meta } => Type::Mapped { span: *span, readonly: *readonly, optional: *optional, name_ty: copy_type_opt(name_ty), type_param: copy_type_param(type_param), ty: copy_type_opt(ty), meta: *meta },
        Type::Operator { span, op, ty, meta } => Type::Operator { span: *span, op: *op, ty: Box::new(copy_type(ty)), meta: *meta },
        Type::IndexedAccess { span, readonly, obj_ty, index_ty, meta } => Type::IndexedAccess { span: *span, readonly: *readonly, obj_ty: Box::new(copy_type(obj_ty)), index_ty: Box::new(copy_type(index_ty)), meta: *meta },
        Type::Query { span, expr, meta } => Type::Query { span: *span, expr: Box::new(copy_query_expr(expr)), meta: *meta },
        Type::Optional { span, ty, meta } => Type::Optional { span: *span, ty: Box::new(copy_type(ty)), meta: *meta },
        Type::Rest { span, ty, meta } => Type::Rest { span: *span, ty: Box::new(copy_type(ty)), meta: *meta },
        Type::Infer { span, type_param, meta } => Type::Infer { span: *span, type_param: copy_type_param(type_param), meta: *meta },
        Type::Import { span, arg, qualifier, type_args, meta } => Type::Import { span: *span, arg: *arg, qualifier: copy_en_opt(qualifier), type_args: copy_targs_opt(type_args), meta: *meta },
        Type::Ref { span, ctxt, name, type_args, meta } => Type::Ref { span: *span, ctxt: *ctxt, name: crate::base::copy_entity_name(name), type_args: copy_targs_opt(type_args), meta: *meta },
        Type::Tpl { span, quasis, types, meta } => Type::Tpl { span: *span, quasis: Box::new(crate::base::copy_atoms(quasis)), types: Box::new(copy_type_list(types)), meta: *meta },
        Type::Predicate { span, param_name, asserts, ty, meta } => Type::Predicate { span: *span, param_name: *param_name, asserts: *asserts, ty: copy_type_opt(ty), meta: *meta },
        Type::Intrinsic { span, kind, type_args, meta } => Type::Intrinsic { span: *span, kind: *kind, type_args: Box::new(copy_targs(type_args)), meta: *meta },
        Type::Module { span, id, exports, meta } => Type::Module { span: *span, id: *id, exports: Box::new(copy_module_data(exports)), meta: *meta },
        Type::Param(p) => Type::Param(copy_type_param(p)),
    }
}

/// Deep copy of an optional boxed type.
pub fn copy_type_opt(a: &Option<Box<Type>>) -> (r: Option<Box<Type>>)
    ensures
        r == *a,
    decreases *a,
{
    match a {
        Option::Some(x) => Option::Some(Box::new(copy_type(x))),
        Option::None => Option::None,
    }
}

/// Deep copy of a type list.
pub fn copy_type_list(a: &TypeList) -> (r: TypeList)
    ensures
        r == *a,
    decreases *a,
{
    match a {
        TypeList::Empty => TypeList::Empty,
        TypeList::More(t, rest) => TypeList::More(copy_type(t), Box::new(copy_type_list(rest))),
    }
}

/// Deep copy of a tuple element list.
pub fn copy_tuple_elems(a: &TupleElems) -> (r: TupleElems)
    ensures
        r == *a,
    decreases *a,
{
    match a {
        TupleElems::Empty => TupleElems::Empty,
        TupleElems::More(e, rest) => TupleElems::More(
            TupleElement { span: e.span, label: e.label, ty: copy_type(&e.ty) },
            Box::new(copy_tuple_elems(rest)),
        ),
    }
}

/// Deep copy of a parameter list.
pub fn copy_params(a: &Params) -> (r: Params)
    ensures
        r == *a,
    decreases *a,
{
    match a {
        Params::Empty => Params::Empty,
        Params::More(p, rest) => Params::More(
            FnParam {
                span: p.span,
                required: p.required,
                ids: crate::base::copy_idents(&p.ids),
                ty: Box::new(copy_type(&p.ty)),
            },
            Box::new(copy_params(rest)),
        ),
    }
}

/// Deep copy of a generic parameter.
pub fn copy_type_param(a: &TypeParam) -> (r: TypeParam)
    ensures
        r == *a,
    decreases *a,
{
    TypeParam {
        span: a.span,
        name: a.name,
        constraint: copy_type_opt(&a.constraint),
        default: copy_type_opt(&a.default),
        meta: a.meta,
    }
}

/// Deep copy of a generic parameter list.
pub fn copy_type_params(a: &TypeParams) -> (r: TypeParams)
    ensures
        r == *a,
    decreases *a,
{
    match a {
        TypeParams::Empty => TypeParams::Empty,
        TypeParams::More(p, rest) => TypeParams::More(
            copy_type_param(p),
            Box::new(copy_type_params(rest)),
        ),
    }
}

/// Deep copy of an optional generic parameter declaration.
pub fn copy_tpd_opt(a: &Option<TypeParamDecl>) -> (r: Option<TypeParamDecl>)
    ensures
        r == *a,
    decreases *a,
{
    match a {
        Option::Some(d) => Option::Some(TypeParamDecl {
            span: d.span,
            params: copy_type_params(&d.params),
        }),
        Option::None => Option::None,
    }
}

/// Deep copy of a generic parameter declaration.
pub fn copy_tpd(a: &TypeParamDecl) -> (r: TypeParamDecl)
    ensures
        r == *a,
    decreases *a,
{
    TypeParamDecl { span: a.span, params: copy_type_params(&a.params) }
}

/// Deep copy of a type-argument list.
pub fn copy_targs(a: &TypeArgs) -> (r: TypeArgs)
    ensures
        r == *a,
    decreases *a,
{
    TypeArgs { span: a.span, params: copy_type_list(&a.params) }
}

/// Deep copy of an optional type-argument list.
pub fn copy_targs_opt(a: &Option<Box<TypeArgs>>) -> (r: Option<Box<TypeArgs>>)
    ensures
        r == *a,
    decreases *a,
{
    match a {
        Option::Some(x) => Option::Some(Box::new(copy_targs(x))),
        Option::None => Option::None,
    }
}

/// Deep copy of a member list.
pub fn copy_members(a: &Members) -> (r: Members)
    ensures
        r == *a,
    decreases *a,
{
    match a {
        Members::Empty => Members::Empty,
        Members::More(e, rest) => Members::More(copy_type_element(e), Box::new(copy_members(rest))),
    }
}

/// Deep copy of a single member.
pub fn copy_type_element(a: &TypeElement) -> (r: TypeElement)
    ensures
        r == *a,
    decreases *a,
{
    match a {
        TypeElement::Call { span, params, type_params, ret_ty } => TypeElement::Call {
            span: *span,
            params: copy_params(params),
            type_params: copy_tpd_opt(type_params),
            ret_ty: copy_type_opt(ret_ty),
        },
        TypeElement::Constructor { span, params, type_params, ret_ty } => TypeElement::Constructor {
            span: *span,
            params: copy_params(params),
            type_params: copy_tpd_opt(type_params),
            ret_ty: copy_type_opt(ret_ty),
        },
        TypeElement::Index { span, readonly, is_static, params, type_ann } => TypeElement::Index {
            span: *span,
            readonly: *readonly,
            is_static: *is_static,
            params: copy_params(params),
            type_ann: copy_type_opt(type_ann),
        },
        TypeElement::Method { span, key, readonly, optional, params, type_params, ret_ty } =>
            TypeElement::Method {
                span: *span,
                key: *key,
                readonly: *readonly,
                optional: *optional,
                params: copy_params(params),
                type_params: copy_tpd_opt(type_params),
                ret_ty: copy_type_opt(ret_ty),
            },
        TypeElement::Property { span, key, readonly, optional, accessor, params, type_ann, type_params } =>
            TypeElement::Property {
                span: *span,
                key: *key,
                readonly: *readonly,
                optional: *optional,
                accessor: *accessor,
                params: copy_params(params),
                type_ann: copy_type_opt(type_ann),
                type_params: copy_tpd_opt(type_params),
            },
    }
}

/// Deep copy of an interface `extends` list.
pub fn copy_extends(a: &Extends) -> (r: Extends)
    ensures
        r == *a,
    decreases *a,
{
    match a {
        Extends::Empty => Extends::Empty,
        Extends::More(e, rest) => Extends::More(
            TsExpr {
                span: e.span,
                expr: crate::base::copy_entity_name(&e.expr),
                type_args: copy_targs_opt(&e.type_args),
            },
            Box::new(copy_extends(rest)),
        ),
    }
}

/// Deep copy of a `typeof` operand.
pub fn copy_query_expr(a: &QueryExpr) -> (r: QueryExpr)
    ensures
        r == *a,
    decreases *a,
{
    match a {
        QueryExpr::Name(n) => QueryExpr::Name(crate::base::copy_entity_name(n)),
        QueryExpr::Import { span, arg, qualifier, type_args } => QueryExpr::Import {
            span: *span,
            arg: *arg,
            qualifier: copy_en_opt(qualifier),
            type_args: copy_targs_opt(type_args),
        },
    }
}

/// Deep copy of a name-to-type association.
pub fn copy_rib(a: &Rib) -> (r: Rib)
    ensures
        r == *a,
    decreases *a,
{
    match a {
        Rib::Empty => Rib::Empty,
        Rib::More(n, t, rest) => Rib::More(*n, copy_type(t), Box::new(copy_rib(rest))),
    }
}

/// Deep copy of a module's exported surface.
pub fn copy_module_data(a: &ModuleTypeData) -> (r: ModuleTypeData)
    ensures
        r == *a,
    decreases *a,
{
    ModuleTypeData { types: copy_rib(&a.types), vars: copy_rib(&a.vars) }
}
} // verus!

verus! {

// ---------------------------------------------------------------------------
// Finalization ("freeze").  Freezing marks every node of a value as frozen;
// a frozen value is safe to share and is never rebuilt in place.
// ---------------------------------------------------------------------------

/// `m` with the frozen flag set.
pub open spec fn frozen_meta(m: TypeMeta) -> TypeMeta {
    TypeMeta { frozen: true, ..m }
}

/// Sets the frozen flag of a metadata record.
pub fn frozen_meta_exec(m: TypeMeta) -> (r: TypeMeta)
    ensures
        r == frozen_meta(m),
{
    TypeMeta {
        contains_infer: m.contains_infer,
        implicit: m.implicit,
        prevent_generalization: m.prevent_generalization,
        no_expand: m.no_expand,
        prevent_tuple_to_array: m.prevent_tuple_to_array,
        frozen: true,
    }
}

/// The finalized form of a type: every node marked frozen.
pub open spec fn fz_ty(t: Type) -> Type
    decreases t,
{
    match t {
        Type::Keyword { span, kind, meta } => Type::Keyword { span: span, kind: kind, meta: frozen_meta(meta) },
        Type::Lit { span, lit, meta } => Type::Lit { span: span, lit: lit, meta: frozen_meta(meta) },
        Type::Symbol { span, id, meta } => Type::Symbol { span: span, id: id, meta: frozen_meta(meta) },
        Type::This { span, meta } => Type::This { span: span, meta: frozen_meta(meta) },
        Type::Union { span, types, meta } => Type::Union { span: span, types: Box::new(fz_list(*types)), meta: frozen_meta(meta) },
        Type::Intersection { span, types, meta } => Type::Intersection { span: span, types: Box::new(fz_list(*types)), meta: frozen_meta(meta) },
        Type::Array { span, elem, meta } => Type::Array { span: span, elem: Box::new(fz_ty(*elem)), meta: frozen_meta(meta) },
        Type::Tuple { span, elems, meta } => Type::Tuple { span: span, elems: Box::new(fz_elems(*elems)), meta: frozen_meta(meta) },
        Type::Function { span, type_params, params, ret_ty, meta } => Type::Function { span: span, type_params: fz_tpd_opt(type_params), params: Box::new(fz_params(*params)), ret_ty: Box::new(fz_ty(*ret_ty)), meta: frozen_meta(meta) },
        Type::Constructor { span, type_params, params, ret_ty, is_abstract, meta } => Type::Constructor { span: span, type_params: fz_tpd_opt(type_params), params: Box::new(fz_params(*params)), ret_ty: Box::new(fz_ty(*ret_ty)), is_abstract: is_abstract, meta: frozen_meta(meta) },
        Type::TypeLit { span, members, specified, meta } => Type::TypeLit { span: span, members: Box::new(fz_members(*members)), specified: specified, meta: frozen_meta(meta) },
        Type::Interface { span, name, type_params, extends, body, meta } => Type::Interface { span: span, name: name, type_params: fz_tpd_opt(type_params), extends: Box::new(fz_extends(*extends)), body: Box::new(fz_members(*body)), meta: frozen_meta(meta) },
        Type::Alias { span, ty, type_params, meta } => Type::Alias { span: span, ty: Box::new(fz_ty(*ty)), type_params: fz_tpd_opt(type_params), meta: frozen_meta(meta) },
        Type::Conditional { span, check_ty, extends_ty, true_ty, false_ty, meta } => Type::Conditional { span: span, check_ty: Box::new(fz_ty(*check_ty)), extends_ty: Box::new(fz_ty(*extends_ty)), true_ty: Box::new(fz_ty(*true_ty)), false_ty: Box::new(fz_ty(*false_ty)), meta: frozen_meta(meta) },
        Type::Mapped { span, readonly, optional, name_ty, type_param, ty, meta } => Type::Mapped { span: span, readonly: readonly, optional: optional, name_ty: fz_opt(name_ty), type_param: fz_tp(type_param), ty: fz_opt(ty), meta: frozen_meta(meta) },
        Type::Operator { span, op, ty, meta } => Type::Operator { span: span, op: op, ty: Box::new(fz_ty(*ty)), meta: frozen_meta(meta) },
        Type::IndexedAccess { span, readonly, obj_ty, index_ty, meta } => Type::IndexedAccess { span: span, readonly: readonly, obj_ty: Box::new(fz_ty(*obj_ty)), index_ty: Box::new(fz_ty(*index_ty)), meta: frozen_meta(meta) },
        Type::Query { span, expr, meta } => Type::Query { span: span, expr: Box::new(fz_qe(*expr)), meta: frozen_meta(meta) },
        Type::Optional { span, ty, meta } => Type::Optional { span: span, ty: Box::new(fz_ty(*ty)), meta: frozen_meta(meta) },
        Type::Rest { span, ty, meta } => Type::Rest { span: span, ty: Box::new(fz_ty(*ty)), meta: frozen_meta(meta) },
        Type::Infer { span, type_param, meta } => Type::Infer { span: span, type_param: fz_tp(type_param), meta: frozen_meta(meta) },
        Type::Import { span, arg, qualifier, type_args, meta } => Type::Import { span: span, arg: arg, qualifier: qualifier, type_args: fz_targs_opt(type_args), meta: frozen_meta(meta) },
        Type::Ref { span, ctxt, name, type_args, meta } => Type::Ref { span: span, ctxt: ctxt, name: name, type_args: fz_targs_opt(type_args), meta: frozen_meta(meta) },
        Type::Tpl { span, quasis, types, meta } => Type::Tpl { span: span, quasis: quasis, types: Box::new(fz_list(*types)), meta: frozen_meta(meta) },
        Type::Predicate { span, param_name, asserts, ty, meta } => Type::Predicate { span: span, param_name: param_name, asserts: asserts, ty: fz_opt(ty), meta: frozen_meta(meta) },
        Type::Intrinsic { span, kind, type_args, meta } => Type::Intrinsic { span: span, kind: kind, type_args: Box::new(fz_targs(*type_args)), meta: frozen_meta(meta) },
        Type::Module { span, id, exports, meta } => Type::Module { span: span, id: id, exports: Box::new(fz_module_data(*exports)), meta: frozen_meta(meta) },
        Type::Param(p) => Type::Param(fz_tp(p)),
    }
}

/// The finalized form of an optional boxed type.
pub open spec fn fz_opt(o: Option<Box<Type>>) -> Option<Box<Type>>
    decreases o,
{
    match o {
        Option::Some(x) => Option::Some(Box::new(fz_ty(*x))),
        Option::None => Option::None,
    }
}

/// The finalized form of a type list.
pub open spec fn fz_list(l: TypeList) -> TypeList
    decreases l,
{
    match l {
        TypeList::Empty => TypeList::Empty,
        TypeList::More(t, rest) => TypeList::More(fz_ty(t), Box::new(fz_list(*rest))),
    }
}

/// The finalized form of a tuple element list.
pub open spec fn fz_elems(l: TupleElems) -> TupleElems
    decreases l,
{
    match l {
        TupleElems::Empty => TupleElems::Empty,
        TupleElems::More(e, rest) => TupleElems::More(
            TupleElement { span: e.span, label: e.label, ty: fz_ty(e.ty) },
            Box::new(fz_elems(*rest)),
        ),
    }
}

/// The finalized form of a parameter list.
pub open spec fn fz_params(l: Params) -> Params
    decreases l,
{
    match l {
        Params::Empty => Params::Empty,
        Params::More(p, rest) => Params::More(
            FnParam { span: p.span, required: p.required, ids: p.ids, ty: Box::new(fz_ty(*p.ty)) },
            Box::new(fz_params(*rest)),
        ),
    }
}

/// The finalized form of a generic parameter.
pub open spec fn fz_tp(p: TypeParam) -> TypeParam
    decreases p,
{
    TypeParam {
        span: p.span,
        name: p.name,
        constraint: fz_opt(p.constraint),
        default: fz_opt(p.default),
        meta: frozen_meta(p.meta),
    }
}

/// The finalized form of a generic parameter list.
pub open spec fn fz_tps(l: TypeParams) -> TypeParams
    decreases l,
{
    match l {
        TypeParams::Empty => TypeParams::Empty,
        TypeParams::More(p, rest) => TypeParams::More(fz_tp(p), Box::new(fz_tps(*rest))),
    }
}

/// The finalized form of an optional generic parameter declaration.
pub open spec fn fz_tpd_opt(o: Option<TypeParamDecl>) -> Option<TypeParamDecl>
    decreases o,
{
    match o {
        Option::Some(d) => Option::Some(TypeParamDecl { span: d.span, params: fz_tps(d.params) }),
        Option::None => Option::None,
    }
}

/// The finalized form of a type-argument list.
pub open spec fn fz_targs(a: TypeArgs) -> TypeArgs
    decreases a,
{
    TypeArgs { span: a.span, params: fz_list(a.params) }
}

/// The finalized form of an optional type-argument list.
pub open spec fn fz_targs_opt(o: Option<Box<TypeArgs>>) -> Option<Box<TypeArgs>>
    decreases o,
{
    match o {
        Option::Some(x) => Option::Some(Box::new(fz_targs(*x))),
        Option::None => Option::None,
    }
}

/// The finalized form of a member list.
pub open spec fn fz_members(l: Members) -> Members
    decreases l,
{
    match l {
        Members::Empty => Members::Empty,
        Members::More(e, rest) => Members::More(fz_elem(e), Box::new(fz_members(*rest))),
    }
}

/// The finalized form of a single member.
pub open spec fn fz_elem(e: TypeElement) -> TypeElement
    decreases e,
{
    match e {
        TypeElement::Call { span, params, type_params, ret_ty } => TypeElement::Call {
            span,
            params: fz_params(params),
            type_params: fz_tpd_opt(type_params),
            ret_ty: fz_opt(ret_ty),
        },
        TypeElement::Constructor { span, params, type_params, ret_ty } => TypeElement::Constructor {
            span,
            params: fz_params(params),
            type_params: fz_tpd_opt(type_params),
            ret_ty: fz_opt(ret_ty),
        },
        TypeElement::Index { span, readonly, is_static, params, type_ann } => TypeElement::Index {
            span,
            readonly,
            is_static,
            params: fz_params(params),
            type_ann: fz_opt(type_ann),
        },
        TypeElement::Method { span, key, readonly, optional, params, type_params, ret_ty } =>
            TypeElement::Method {
                span,
                key,
                readonly,
                optional,
                params: fz_params(params),
                type_params: fz_tpd_opt(type_params),
                ret_ty: fz_opt(ret_ty),
            },
        TypeElement::Property { span, key, readonly, optional, accessor, params, type_ann, type_params } =>
            TypeElement::Property {
                span,
                key,
                readonly,
                optional,
                accessor,
                params: fz_params(params),
                type_ann: fz_opt(type_ann),
                type_params: fz_tpd_opt(type_params),
            },
    }
}

/// The finalized form of an interface `extends` list.
pub open spec fn fz_extends(l: Extends) -> Extends
    decreases l,
{
    match l {
        Extends::Empty => Extends::Empty,
        Extends::More(e, rest) => Extends::More(
            TsExpr { span: e.span, expr: e.expr, type_args: fz_targs_opt(e.type_args) },
            Box::new(fz_extends(*rest)),
        ),
    }
}

/// The finalized form of a `typeof` operand.
pub open spec fn fz_qe(q: QueryExpr) -> QueryExpr
    decreases q,
{
    match q {
        QueryExpr::Name(n) => QueryExpr::Name(n),
        QueryExpr::Import { span, arg, qualifier, type_args } => QueryExpr::Import {
            span,
            arg,
            qualifier,
            type_args: fz_targs_opt(type_args),
        },
    }
}

/// The finalized form of a name-to-type association.
pub open spec fn fz_rib(r: Rib) -> Rib
    decreases r,
{
    match r {
        Rib::Empty => Rib::Empty,
        Rib::More(n, t, rest) => Rib::More(n, fz_ty(t), Box::new(fz_rib(*rest))),
    }
}

/// The finalized form of a module's exported surface.
pub open spec fn fz_module_data(d: ModuleTypeData) -> ModuleTypeData
    decreases d,
{
    ModuleTypeData { types: fz_rib(d.types), vars: fz_rib(d.vars) }
}
} // verus!

verus! {

/// Finalizes a type.
pub fn freeze_type(t: Type) -> (r: Type)
    ensures
        r == fz_ty(t),
    decreases t,
{
    match t {
        Type::Keyword { span, kind, meta } => Type::Keyword { span: span, kind: kind, meta: frozen_meta_exec(meta) },
        Type::Lit { span, lit, meta } => Type::Lit { span: span, lit: lit, meta: frozen_meta_exec(meta) },
        Type::Symbol { span, id, meta } => Type::Symbol { span: span, id: id, meta: frozen_meta_exec(meta) },
        Type::This { span, meta } => Type::This { span: span, meta: frozen_meta_exec(meta) },
        Type::Union { span, types, meta } => Type::Union { span: span, types: Box::new(freeze_type_list(*types)), meta: frozen_meta_exec(meta) },
        Type::Intersection { span, types, meta } => Type::Intersection { span: span, types: Box::new(freeze_type_list(*types)), meta: frozen_meta_exec(meta) },
        Type::Array { span, elem, meta } => Type::Array { span: span, elem: Box::new(freeze_type(*elem)), meta: frozen_meta_exec(meta) },
        Type::Tuple { span, elems, meta } => Type::Tuple { span: span, elems: Box::new(freeze_tuple_elems(*elems)), meta: frozen_meta_exec(meta) },
        Type::Function { span, type_params, params, ret_ty, meta } => Type::Function { span: span, type_params: freeze_tpd_opt(type_params), params: Box::new(freeze_params(*params)), ret_ty: Box::new(freeze_type(*ret_ty)), meta: frozen_meta_exec(meta) },
        Type::Constructor { span, type_params, params, ret_ty, is_abstract, meta } => Type::Constructor { span: span, type_params: freeze_tpd_opt(type_params), params: Box::new(freeze_params(*params)), ret_ty: Box::new(freeze_type(*ret_ty)), is_abstract: is_abstract, meta: frozen_meta_exec(meta) },
        Type::TypeLit { span, members, specified, meta } => Type::TypeLit { span: span, members: Box::new(freeze_members(*members)), specified: specified, meta: frozen_meta_exec(meta) },
        Type::Interface { span, name, type_params, extends, body, meta } => Type::Interface { span: span, name: name, type_params: freeze_tpd_opt(type_params), extends: Box::new(freeze_extends(*extends)), body: Box::new(freeze_members(*body)), meta: frozen_meta_exec(meta) },
        Type::Alias { span, ty, type_params, meta } => Type::Alias { span: span, ty: Box::new(freeze_type(*ty)), type_params: freeze_tpd_opt(type_params), meta: frozen_meta_exec(meta) },
        Type::Conditional { span, check_ty, extends_ty, true_ty, false_ty, meta } => Type::Conditional { span: span, check_ty: Box::new(freeze_type(*check_ty)), extends_ty: Box::new(freeze_type(*extends_ty)), true_ty: Box::new(freeze_type(*true_ty)), false_ty: Box::new(freeze_type(*false_ty)), meta: frozen_meta_exec(meta) },
        Type::Mapped { span, readonly, optional, name_ty, type_param, ty, meta } => Type::Mapped { span: span, readonly: readonly, optional: optional, name_ty: freeze_type_opt(name_ty), type_param: freeze_type_param(type_param), ty: freeze_type_opt(ty), meta: frozen_meta_exec(meta) },
        Type::Operator { span, op, ty, meta } => Type::Operator { span: span, op: op, ty: Box::new(freeze_type(*ty)), meta: frozen_meta_exec(meta) },
        Type::IndexedAccess { span, readonly, obj_ty, index_ty, meta } => Type::IndexedAccess { span: span, readonly: readonly, obj_ty: Box::new(freeze_type(*obj_ty)), index_ty: Box::new(freeze_type(*index_ty)), meta: frozen_meta_exec(meta) },
        Type::Query { span, expr, meta } => Type::Query { span: span, expr: Box::new(freeze_query_expr(*expr)), meta: frozen_meta_exec(meta) },
        Type::Optional { span, ty, meta } => Type::Optional { span: span, ty: Box::new(freeze_type(*ty)), meta: frozen_meta_exec(meta) },
        Type::Rest { span, ty, meta } => Type::Rest { span: span, ty: Box::new(freeze_type(*ty)), meta: frozen_meta_exec(meta) },
        Type::Infer { span, type_param, meta } => Type::Infer { span: span, type_param: freeze_type_param(type_param), meta: frozen_meta_exec(meta) },
        Type::Import { span, arg, qualifier, type_args, meta } => Type::Import { span: span, arg: arg, qualifier: qualifier, type_args: freeze_targs_opt(type_args), meta: frozen_meta_exec(meta) },
        Type::Ref { span, ctxt, name, type_args, meta } => Type::Ref { span: span, ctxt: ctxt, name: name, type_args: freeze_targs_opt(type_args), meta: frozen_meta_exec(meta) },
        Type::Tpl { span, quasis, types, meta } => Type::Tpl { span: span, quasis: quasis, types: Box::new(freeze_type_list(*types)), meta: frozen_meta_exec(meta) },
        Type::Predicate { span, param_name, asserts, ty, meta } => Type::Predicate { span: span, param_name: param_name, asserts: asserts, ty: freeze_type_opt(ty), meta: frozen_meta_exec(meta) },
        Type::Intrinsic { span, kind, type_args, meta } => Type::Intrinsic { span: span, kind: kind, type_args: Box::new(freeze_targs(*type_args)), meta: frozen_meta_exec(meta) },
        Type::Module { span, id, exports, meta } => Type::Module { span: span, id: id, exports: Box::new(freeze_module_data(*exports)), meta: frozen_meta_exec(meta) },
        Type::Param(p) => Type::Param(freeze_type_param(p)),
    }
}

/// Finalizes an optional boxed type.
pub fn freeze_type_opt(o: Option<Box<Type>>) -> (r: Option<Box<Type>>)
    ensures
        r == fz_opt(o),
    decreases o,
{
    match o {
        Option::Some(x) => Option::Some(Box::new(freeze_type(*x))),
        Option::None => Option::None,
    }
}

/// Finalizes a type list.
pub fn freeze_type_list(l: TypeList) -> (r: TypeList)
    ensures
        r == fz_list(l),
    decreases l,
{
    match l {
        TypeList::Empty => TypeList::Empty,
        TypeList::More(t, rest) => TypeList::More(freeze_type(t), Box::new(freeze_type_list(*rest))),
    }
}

/// Finalizes a tuple element list.
pub fn freeze_tuple_elems(l: TupleElems) -> (r: TupleElems)
    ensures
        r == fz_elems(l),
    decreases l,
{
    match l {
        TupleElems::Empty => TupleElems::Empty,
        TupleElems::More(e, rest) => TupleElems::More(
            TupleElement { span: e.span, label: e.label, ty: freeze_type(e.ty) },
            Box::new(freeze_tuple_elems(*rest)),
        ),
    }
}

/// Finalizes a parameter list.
pub fn freeze_params(l: Params) -> (r: Params)
    ensures
        r == fz_params(l),
    decreases l,
{
    match l {
        Params::Empty => Params::Empty,
        Params::More(p, rest) => Params::More(
            FnParam { span: p.span, required: p.required, ids: p.ids, ty: Box::new(freeze_type(*p.ty)) },
            Box::new(freeze_params(*rest)),
        ),
    }
}

/// Finalizes a generic parameter.
pub fn freeze_type_param(p: TypeParam) -> (r: TypeParam)
    ensures
        r == fz_tp(p),
    decreases p,
{
    TypeParam {
        span: p.span,
        name: p.name,
        constraint: freeze_type_opt(p.constraint),
        default: freeze_type_opt(p.default),
        meta: frozen_meta_exec(p.meta),
    }
}

/// Finalizes a generic parameter list.
pub fn freeze_type_params(l: TypeParams) -> (r: TypeParams)
    ensures
        r == fz_tps(l),
    decreases l,
{
    match l {
        TypeParams::Empty => TypeParams::Empty,
        TypeParams::More(p, rest) => TypeParams::More(
            freeze_type_param(p),
            Box::new(freeze_type_params(*rest)),
        ),
    }
}

/// Finalizes an optional generic parameter declaration.
pub fn freeze_tpd_opt(o: Option<TypeParamDecl>) -> (r: Option<TypeParamDecl>)
    ensures
        r == fz_tpd_opt(o),
    decreases o,
{
    match o {
        Option::Some(d) => Option::Some(TypeParamDecl {
            span: d.span,
            params: freeze_type_params(d.params),
        }),
        Option::None => Option::None,
    }
}

/// Finalizes a type-argument list.
pub fn freeze_targs(a: TypeArgs) -> (r: TypeArgs)
    ensures
        r == fz_targs(a),
    decreases a,
{
    TypeArgs { span: a.span, params: freeze_type_list(a.params) }
}

/// Finalizes an optional type-argument list.
pub fn freeze_targs_opt(o: Option<Box<TypeArgs>>) -> (r: Option<Box<TypeArgs>>)
    ensures
        r == fz_targs_opt(o),
    decreases o,
{
    match o {
        Option::Some(x) => Option::Some(Box::new(freeze_targs(*x))),
        Option::None => Option::None,
    }
}

/// Finalizes a member list.
pub fn freeze_members(l: Members) -> (r: Members)
    ensures
        r == fz_members(l),
    decreases l,
{
    match l {
        Members::Empty => Members::Empty,
        Members::More(e, rest) => Members::More(
            freeze_type_element(e),
            Box::new(freeze_members(*rest)),
        ),
    }
}

/// Finalizes a single member.
pub fn freeze_type_element(e: TypeElement) -> (r: TypeElement)
    ensures
        r == fz_elem(e),
    decreases e,
{
    match e {
        TypeElement::Call { span, params, type_params, ret_ty } => TypeElement::Call {
            span,
            params: freeze_params(params),
            type_params: freeze_tpd_opt(type_params),
            ret_ty: freeze_type_opt(ret_ty),
        },
        TypeElement::Constructor { span, params, type_params, ret_ty } => TypeElement::Constructor {
            span,
            params: freeze_params(params),
            type_params: freeze_tpd_opt(type_params),
            ret_ty: freeze_type_opt(ret_ty),
        },
        TypeElement::Index { span, readonly, is_static, params, type_ann } => TypeElement::Index {
            span,
            readonly,
            is_static,
            params: freeze_params(params),
            type_ann: freeze_type_opt(type_ann),
        },
        TypeElement::Method { span, key, readonly, optional, params, type_params, ret_ty } =>
            TypeElement::Method {
                span,
                key,
                readonly,
                optional,
                params: freeze_params(params),
                type_params: freeze_tpd_opt(type_params),
                ret_ty: freeze_type_opt(ret_ty),
            },
        TypeElement::Property { span, key, readonly, optional, accessor, params, type_ann, type_params } =>
            TypeElement::Property {
                span,
                key,
                readonly,
                optional,
                accessor,
                params: freeze_params(params),
                type_ann: freeze_type_opt(type_ann),
                type_params: freeze_tpd_opt(type_params),
            },
    }
}

/// Finalizes an interface `extends` list.
pub fn freeze_extends(l: Extends) -> (r: Extends)
    ensures
        r == fz_extends(l),
    decreases l,
{
    match l {
        Extends::Empty => Extends::Empty,
        Extends::More(e, rest) => Extends::More(
            TsExpr { span: e.span, expr: e.expr, type_args: freeze_targs_opt(e.type_args) },
            Box::new(freeze_extends(*rest)),
        ),
    }
}

/// Finalizes a `typeof` operand.
pub fn freeze_query_expr(q: QueryExpr) -> (r: QueryExpr)
    ensures
        r == fz_qe(q),
    decreases q,
{
    match q {
        QueryExpr::Name(n) => QueryExpr::Name(n),
        QueryExpr::Import { span, arg, qualifier, type_args } => QueryExpr::Import {
            span,
            arg,
            qualifier,
            type_args: freeze_targs_opt(type_args),
        },
    }
}

/// Finalizes a name-to-type association.
pub fn freeze_rib(r0: Rib) -> (r: Rib)
    ensures
        r == fz_rib(r0),
    decreases r0,
{
    match r0 {
        Rib::Empty => Rib::Empty,
        Rib::More(n, t, rest) => Rib::More(n, freeze_type(t), Box::new(freeze_rib(*rest))),
    }
}

/// Finalizes a module's exported surface.
pub fn freeze_module_data(d: ModuleTypeData) -> (r: ModuleTypeData)
    ensures
        r == fz_module_data(d),
    decreases d,
{
    ModuleTypeData { types: freeze_rib(d.types), vars: freeze_rib(d.vars) }
}
} // verus!

verus! {

// ---------------------------------------------------------------------------
// The finalized ("deep frozen") predicate.
// ---------------------------------------------------------------------------

/// Whether every node of `t` is marked frozen.
pub open spec fn ifz_ty(t: Type) -> bool
    decreases t,
{
    match t {
        Type::Keyword { meta, .. } => meta.frozen,
        Type::Lit { meta, .. } => meta.frozen,
        Type::Symbol { meta, .. } => meta.frozen,
        Type::This { meta, .. } => meta.frozen,
        Type::Union { types, meta, .. } => ifz_list(*types) && meta.frozen,
        Type::Intersection { types, meta, .. } => ifz_list(*types) && meta.frozen,
        Type::Array { elem, meta, .. } => ifz_ty(*elem) && meta.frozen,
        Type::Tuple { elems, meta, .. } => ifz_elems(*elems) && meta.frozen,
        Type::Function { type_params, params, ret_ty, meta, .. } => ifz_tpd_opt(type_params) && ifz_params(*params) && ifz_ty(*ret_ty) && meta.frozen,
        Type::Constructor { type_params, params, ret_ty, meta, .. } => ifz_tpd_opt(type_params) && ifz_params(*params) && ifz_ty(*ret_ty) && meta.frozen,
        Type::TypeLit { members, meta, .. } => ifz_members(*members) && meta.frozen,
        Type::Interface { type_params, extends, body, meta, .. } => ifz_tpd_opt(type_params) && ifz_extends(*extends) && ifz_members(*body) && meta.frozen,
        Type::Alias { ty, type_params, meta, .. } => ifz_ty(*ty) && ifz_tpd_opt(type_params) && meta.frozen,
        Type::Conditional { check_ty, extends_ty, true_ty, false_ty, meta, .. } => ifz_ty(*check_ty) && ifz_ty(*extends_ty) && ifz_ty(*true_ty) && ifz_ty(*false_ty) && meta.frozen,
        Type::Mapped { name_ty, type_param, ty, meta, .. } => ifz_opt(name_ty) && ifz_tp(type_param) && ifz_opt(ty) && meta.frozen,
        Type::Operator { ty, meta, .. } => ifz_ty(*ty) && meta.frozen,
        Type::IndexedAccess { obj_ty, index_ty, meta, .. } => ifz_ty(*obj_ty) && ifz_ty(*index_ty) && meta.frozen,
        Type::Query { expr, meta, .. } => ifz_qe(*expr) && meta.frozen,
        Type::Optional { ty, meta, .. } => ifz_ty(*ty) && meta.frozen,
        Type::Rest { ty, meta, .. } => ifz_ty(*ty) && meta.frozen,
        Type::Infer { type_param, meta, .. } => ifz_tp(type_param) && meta.frozen,
        Type::Import { type_args, meta, .. } => ifz_targs_opt(type_args) && meta.frozen,
        Type::Ref { type_args, meta, .. } => ifz_targs_opt(type_args) && meta.frozen,
        Type::Tpl { types, meta, .. } => ifz_list(*types) && meta.frozen,
        Type::Predicate { ty, meta, .. } => ifz_opt(ty) && meta.frozen,
        Type::Intrinsic { type_args, meta, .. } => ifz_targs(*type_args) && meta.frozen,
        Type::Module { exports, meta, .. } => ifz_rib(exports.types) && ifz_rib(exports.vars) && meta.frozen,
        Type::Param(p) => ifz_tp(p),
    }
}

/// Whether an optional boxed type is fully frozen.
pub open spec fn ifz_opt(o: Option<Box<Type>>) -> bool
    decreases o,
{
    match o {
        Option::Some(x) => ifz_ty(*x),
        Option::None => true,
    }
}

/// Whether every member of a type list is fully frozen.
pub open spec fn ifz_list(l: TypeList) -> bool
    decreases l,
{
    match l {
        TypeList::Empty => true,
        TypeList::More(t, rest) => ifz_ty(t) && ifz_list(*rest),
    }
}

/// Whether every element of a tuple element list is fully frozen.
pub open spec fn ifz_elems(l: TupleElems) -> bool
    decreases l,
{
    match l {
        TupleElems::Empty => true,
        TupleElems::More(e, rest) => ifz_ty(e.ty) && ifz_elems(*rest),
    }
}

/// Whether every parameter type of a parameter list is fully frozen.
pub open spec fn ifz_params(l: Params) -> bool
    decreases l,
{
    match l {
        Params::Empty => true,
        Params::More(p, rest) => ifz_ty(*p.ty) && ifz_params(*rest),
    }
}

/// Whether a generic parameter is fully frozen.
pub open spec fn ifz_tp(p: TypeParam) -> bool
    decreases p,
{
    p.meta.frozen && ifz_opt(p.constraint) && ifz_opt(p.default)
}

/// Whether a generic parameter list is fully frozen.
pub open spec fn ifz_tps(l: TypeParams) -> bool
    decreases l,
{
    match l {
        TypeParams::Empty => true,
        TypeParams::More(p, rest) => ifz_tp(p) && ifz_tps(*rest),
    }
}

/// Whether an optional generic parameter declaration is fully frozen.
pub open spec fn ifz_tpd_opt(o: Option<TypeParamDecl>) -> bool
    decreases o,
{
    match o {
        Option::Some(d) => ifz_tps(d.params),
        Option::None => true,
    }
}

/// Whether a type-argument list is fully frozen.
pub open spec fn ifz_targs(a: TypeArgs) -> bool
    decreases a,
{
    ifz_list(a.params)
}

/// Whether an optional type-argument list is fully frozen.
pub open spec fn ifz_targs_opt(o: Option<Box<TypeArgs>>) -> bool
    decreases o,
{
    match o {
        Option::Some(x) => ifz_targs(*x),
        Option::None => true,
    }
}

/// Whether every member of a member list is fully frozen.
pub open spec fn ifz_members(l: Members) -> bool
    decreases l,
{
    match l {
        Members::Empty => true,
        Members::More(e, rest) => ifz_elem(e) && ifz_members(*rest),
    }
}

/// Whether a single member is fully frozen.
pub open spec fn ifz_elem(e: TypeElement) -> bool
    decreases e,
{
    match e {
        TypeElement::Call { params, type_params, ret_ty, .. } => ifz_params(params)
            && ifz_tpd_opt(type_params) && ifz_opt(ret_ty),
        TypeElement::Constructor { params, type_params, ret_ty, .. } => ifz_params(params)
            && ifz_tpd_opt(type_params) && ifz_opt(ret_ty),
        TypeElement::Index { params, type_ann, .. } => ifz_params(params) && ifz_opt(type_ann),
        TypeElement::Method { params, type_params, ret_ty, .. } => ifz_params(params)
            && ifz_tpd_opt(type_params) && ifz_opt(ret_ty),
        TypeElement::Property { params, type_ann, type_params, .. } => ifz_params(params)
            && ifz_opt(type_ann) && ifz_tpd_opt(type_params),
    }
}

/// Whether an interface `extends` list is fully frozen.
pub open spec fn ifz_extends(l: Extends) -> bool
    decreases l,
{
    match l {
        Extends::Empty => true,
        Extends::More(e, rest) => ifz_targs_opt(e.type_args) && ifz_extends(*rest),
    }
}

/// Whether a `typeof` operand is fully frozen.
pub open spec fn ifz_qe(q: QueryExpr) -> bool
    decreases q,
{
    match q {
        QueryExpr::Name(_) => true,
        QueryExpr::Import { type_args, .. } => ifz_targs_opt(type_args),
    }
}

/// Whether every value of a name-to-type association is fully frozen.
pub open spec fn ifz_rib(r: Rib) -> bool
    decreases r,
{
    match r {
        Rib::Empty => true,
        Rib::More(_, t, rest) => ifz_ty(t) && ifz_rib(*rest),
    }
}

/// Whether a module surface is fully frozen.
pub open spec fn ifz_module_data(d: ModuleTypeData) -> bool {
    ifz_rib(d.types) && ifz_rib(d.vars)
}
} // verus!

verus! {

// ---------------------------------------------------------------------------
// The contains-infer query: whether a value holds an `infer` capture,
// either structurally or recorded in a metadata flag.
// ---------------------------------------------------------------------------

/// Whether `t` transitively contains an `infer` capture.
pub open spec fn ci_ty(t: Type) -> bool
    decreases t,
{
    meta_of(t).contains_infer || match t {
        Type::Keyword { .. } => false,
        Type::Lit { .. } => false,
        Type::Symbol { .. } => false,
        Type::This { .. } => false,
        Type::Union { types, .. } => ci_list(*types),
        Type::Intersection { types, .. } => ci_list(*types),
        Type::Array { elem, .. } => ci_ty(*elem),
        Type::Tuple { elems, .. } => ci_elems(*elems),
        Type::Function { type_params, params, ret_ty, .. } => ci_tpd_opt(type_params) || ci_params(*params) || ci_ty(*ret_ty),
        Type::Constructor { type_params, params, ret_ty, .. } => ci_tpd_opt(type_params) || ci_params(*params) || ci_ty(*ret_ty),
        Type::TypeLit { members, .. } => ci_members(*members),
        Type::Interface { type_params, extends, body, .. } => ci_tpd_opt(type_params) || ci_extends(*extends) || ci_members(*body),
        Type::Alias { ty, type_params, .. } => ci_ty(*ty) || ci_tpd_opt(type_params),
        Type::Conditional { check_ty, extends_ty, true_ty, false_ty, .. } => ci_ty(*check_ty) || ci_ty(*extends_ty) || ci_ty(*true_ty) || ci_ty(*false_ty),
        Type::Mapped { name_ty, type_param, ty, .. } => ci_opt(name_ty) || ci_tp(type_param) || ci_opt(ty),
        Type::Operator { ty, .. } => ci_ty(*ty),
        Type::IndexedAccess { obj_ty, index_ty, .. } => ci_ty(*obj_ty) || ci_ty(*index_ty),
        Type::Query { expr, .. } => ci_qe(*expr),
        Type::Optional { ty, .. } => ci_ty(*ty),
        Type::Rest { ty, .. } => ci_ty(*ty),
        Type::Infer { .. } => true,
        Type::Import { type_args, .. } => ci_targs_opt(type_args),
        Type::Ref { type_args, .. } => ci_targs_opt(type_args),
        Type::Tpl { types, .. } => ci_list(*types),
        Type::Predicate { ty, .. } => ci_opt(ty),
        Type::Intrinsic { type_args, .. } => ci_targs(*type_args),
        Type::Module { exports, .. } => ci_rib(exports.types) || ci_rib(exports.vars),
        Type::Param(p) => ci_tp(p),
    }
}

/// Whether an optional boxed type contains an `infer` capture.
pub open spec fn ci_opt(o: Option<Box<Type>>) -> bool
    decreases o,
{
    match o {
        Option::Some(x) => ci_ty(*x),
        Option::None => false,
    }
}

/// Whether any member of a type list contains an `infer` capture.
pub open spec fn ci_list(l: TypeList) -> bool
    decreases l,
{
    match l {
        TypeList::Empty => false,
        TypeList::More(t, rest) => ci_ty(t) || ci_list(*rest),
    }
}

/// Whether any element of a tuple contains an `infer` capture.
pub open spec fn ci_elems(l: TupleElems) -> bool
    decreases l,
{
    match l {
        TupleElems::Empty => false,
        TupleElems::More(e, rest) => ci_ty(e.ty) || ci_elems(*rest),
    }
}

/// Whether any parameter type contains an `infer` capture.
pub open spec fn ci_params(l: Params) -> bool
    decreases l,
{
    match l {
        Params::Empty => false,
        Params::More(p, rest) => ci_ty(*p.ty) || ci_params(*rest),
    }
}

/// Whether a generic parameter contains an `infer` capture.
pub open spec fn ci_tp(p: TypeParam) -> bool
    decreases p,
{
    p.meta.contains_infer || ci_opt(p.constraint) || ci_opt(p.default)
}

/// Whether a generic parameter list contains an `infer` capture.
pub open spec fn ci_tps(l: TypeParams) -> bool
    decreases l,
{
    match l {
        TypeParams::Empty => false,
        TypeParams::More(p, rest) => ci_tp(p) || ci_tps(*rest),
    }
}

/// Whether an optional generic parameter declaration contains an `infer` capture.
pub open spec fn ci_tpd_opt(o: Option<TypeParamDecl>) -> bool
    decreases o,
{
    match o {
        Option::Some(d) => ci_tps(d.params),
        Option::None => false,
    }
}

/// Whether a type-argument list contains an `infer` capture.
pub open spec fn ci_targs(a: TypeArgs) -> bool
    decreases a,
{
    ci_list(a.params)
}

/// Whether an optional type-argument list contains an `infer` capture.
pub open spec fn ci_targs_opt(o: Option<Box<TypeArgs>>) -> bool
    decreases o,
{
    match o {
        Option::Some(x) => ci_targs(*x),
        Option::None => false,
    }
}

/// Whether any member contains an `infer` capture.
pub open spec fn ci_members(l: Members) -> bool
    decreases l,
{
    match l {
        Members::Empty => false,
        Members::More(e, rest) => ci_elem(e) || ci_members(*rest),
    }
}

/// Whether a single member contains an `infer` capture.
pub open spec fn ci_elem(e: TypeElement) -> bool
    decreases e,
{
    match e {
        TypeElement::Call { params, type_params, ret_ty, .. } => ci_params(params)
            || ci_tpd_opt(type_params) || ci_opt(ret_ty),
        TypeElement::Constructor { params, type_params, ret_ty, .. } => ci_params(params)
            || ci_tpd_opt(type_params) || ci_opt(ret_ty),
        TypeElement::Index { params, type_ann, .. } => ci_params(params) || ci_opt(type_ann),
        TypeElement::Method { params, type_params, ret_ty, .. } => ci_params(params)
            || ci_tpd_opt(type_params) || ci_opt(ret_ty),
        TypeElement::Property { params, type_ann, type_params, .. } => ci_params(params)
            || ci_opt(type_ann) || ci_tpd_opt(type_params),
    }
}

/// Whether an interface `extends` list contains an `infer` capture.
pub open spec fn ci_extends(l: Extends) -> bool
    decreases l,
{
    match l {
        Extends::Empty => false,
        Extends::More(e, rest) => ci_targs_opt(e.type_args) || ci_extends(*rest),
    }
}

/// Whether a `typeof` operand contains an `infer` capture.
pub open spec fn ci_qe(q: QueryExpr) -> bool
    decreases q,
{
    match q {
        QueryExpr::Name(_) => false,
        QueryExpr::Import { type_args, .. } => ci_targs_opt(type_args),
    }
}

/// Whether any value of a name-to-type association contains an `infer` capture.
pub open spec fn ci_rib(r: Rib) -> bool
    decreases r,
{
    match r {
        Rib::Empty => false,
        Rib::More(_, t, rest) => ci_ty(t) || ci_rib(*rest),
    }
}
} // verus!

verus! {

/// Whether `t` transitively contains an `infer` capture.
#[verifier::rlimit(60)]
pub fn ci_ty_exec(t: &Type) -> (r: bool)
    ensures
        r == ci_ty(*t),
    decreases *t,
{
    let m = type_meta(t);
    if m.contains_infer {
        return true;
    }
    match t {
        Type::Keyword { .. } => false,
        Type::Lit { .. } => false,
        Type::Symbol { .. } => false,
        Type::This { .. } => false,
        Type::Union { types, .. } => ci_list_exec(types),
        Type::Intersection { types, .. } => ci_list_exec(types),
        Type::Array { elem, .. } => ci_ty_exec(elem),
        Type::Tuple { elems, .. } => ci_elems_exec(elems),
        Type::Function { type_params, params, ret_ty, .. } => ci_tpd_opt_exec(type_params) || ci_params_exec(params) || ci_ty_exec(ret_ty),
        Type::Constructor { type_params, params, ret_ty, .. } => ci_tpd_opt_exec(type_params) || ci_params_exec(params) || ci_ty_exec(ret_ty),
        Type::TypeLit { members, .. } => ci_members_exec(members),
        Type::Interface { type_params, extends, body, .. } => ci_tpd_opt_exec(type_params) || ci_extends_exec(extends) || ci_members_exec(body),
        Type::Alias { ty, type_params, .. } => ci_ty_exec(ty) || ci_tpd_opt_exec(type_params),
        Type::Conditional { check_ty, extends_ty, true_ty, false_ty, .. } => ci_ty_exec(check_ty) || ci_ty_exec(extends_ty) || ci_ty_exec(true_ty) || ci_ty_exec(false_ty),
        Type::Mapped { name_ty, type_param, ty, .. } => ci_opt_exec(name_ty) || ci_tp_exec(type_param) || ci_opt_exec(ty),
        Type::Operator { ty, .. } => ci_ty_exec(ty),
        Type::IndexedAccess { obj_ty, index_ty, .. } => ci_ty_exec(obj_ty) || ci_ty_exec(index_ty),
        Type::Query { expr, .. } => ci_qe_exec(expr),
        Type::Optional { ty, .. } => ci_ty_exec(ty),
        Type::Rest { ty, .. } => ci_ty_exec(ty),
        Type::Infer { .. } => true,
        Type::Import { type_args, .. } => ci_targs_opt_exec(type_args),
        Type::Ref { type_args, .. } => ci_targs_opt_exec(type_args),
        Type::Tpl { types, .. } => ci_list_exec(types),
        Type::Predicate { ty, .. } => ci_opt_exec(ty),
        Type::Intrinsic { type_args, .. } => ci_targs_exec(type_args),
        Type::Module { exports, .. } => (ci_rib_exec(&exports.types) || ci_rib_exec(&exports.vars)),
        Type::Param(p) => ci_tp_exec(p),
    }
}

/// Executable contains-infer query on an optional boxed type.
pub fn ci_opt_exec(o: &Option<Box<Type>>) -> (r: bool)
    ensures
        r == ci_opt(*o),
    decreases *o,
{
    match o {
        Option::Some(x) => ci_ty_exec(x),
        Option::None => false,
    }
}

/// Executable contains-infer query on a type list.
pub fn ci_list_exec(l: &TypeList) -> (r: bool)
    ensures
        r == ci_list(*l),
    decreases *l,
{
    match l {
        TypeList::Empty => false,
        TypeList::More(t, rest) => ci_ty_exec(t) || ci_list_exec(rest),
    }
}

/// Executable contains-infer query on a tuple element list.
pub fn ci_elems_exec(l: &TupleElems) -> (r: bool)
    ensures
        r == ci_elems(*l),
    decreases *l,
{
    match l {
        TupleElems::Empty => false,
        TupleElems::More(e, rest) => ci_ty_exec(&e.ty) || ci_elems_exec(rest),
    }
}

/// Executable contains-infer query on a parameter list.
pub fn ci_params_exec(l: &Params) -> (r: bool)
    ensures
        r == ci_params(*l),
    decreases *l,
{
    match l {
        Params::Empty => false,
        Params::More(p, rest) => ci_ty_exec(&p.ty) || ci_params_exec(rest),
    }
}

/// Executable contains-infer query on a generic parameter.
pub fn ci_tp_exec(p: &TypeParam) -> (r: bool)
    ensures
        r == ci_tp(*p),
    decreases *p,
{
    p.meta.contains_infer || ci_opt_exec(&p.constraint) || ci_opt_exec(&p.default)
}

/// Executable contains-infer query on a generic parameter list.
pub fn ci_tps_exec(l: &TypeParams) -> (r: bool)
    ensures
        r == ci_tps(*l),
    decreases *l,
{
    match l {
        TypeParams::Empty => false,
        TypeParams::More(p, rest) => ci_tp_exec(p) || ci_tps_exec(rest),
    }
}

/// Executable contains-infer query on an optional generic parameter declaration.
pub fn ci_tpd_opt_exec(o: &Option<TypeParamDecl>) -> (r: bool)
    ensures
        r == ci_tpd_opt(*o),
    decreases *o,
{
    match o {
        Option::Some(d) => ci_tps_exec(&d.params),
        Option::None => false,
    }
}

/// Executable contains-infer query on a type-argument list.
pub fn ci_targs_exec(a: &TypeArgs) -> (r: bool)
    ensures
        r == ci_targs(*a),
    decreases *a,
{
    ci_list_exec(&a.params)
}

/// Executable contains-infer query on an optional type-argument list.
pub fn ci_targs_opt_exec(o: &Option<Box<TypeArgs>>) -> (r: bool)
    ensures
        r == ci_targs_opt(*o),
    decreases *o,
{
    match o {
        Option::Some(x) => ci_targs_exec(x),
        Option::None => false,
    }
}

/// Executable contains-infer query on a member list.
pub fn ci_members_exec(l: &Members) -> (r: bool)
    ensures
        r == ci_members(*l),
    decreases *l,
{
    match l {
        Members::Empty => false,
        Members::More(e, rest) => ci_elem_exec(e) || ci_members_exec(rest),
    }
}

/// Executable contains-infer query on a single member.
pub fn ci_elem_exec(e: &TypeElement) -> (r: bool)
    ensures
        r == ci_elem(*e),
    decreases *e,
{
    match e {
        TypeElement::Call { params, type_params, ret_ty, .. } => ci_params_exec(params)
            || ci_tpd_opt_exec(type_params) || ci_opt_exec(ret_ty),
        TypeElement::Constructor { params, type_params, ret_ty, .. } => ci_params_exec(params)
            || ci_tpd_opt_exec(type_params) || ci_opt_exec(ret_ty),
        TypeElement::Index { params, type_ann, .. } => ci_params_exec(params)
            || ci_opt_exec(type_ann),
        TypeElement::Method { params, type_params, ret_ty, .. } => ci_params_exec(params)
            || ci_tpd_opt_exec(type_params) || ci_opt_exec(ret_ty),
        TypeElement::Property { params, type_ann, type_params, .. } => ci_params_exec(params)
            || ci_opt_exec(type_ann) || ci_tpd_opt_exec(type_params),
    }
}

/// Executable contains-infer query on an interface `extends` list.
pub fn ci_extends_exec(l: &Extends) -> (r: bool)
    ensures
        r == ci_extends(*l),
    decreases *l,
{
    match l {
        Extends::Empty => false,
        Extends::More(e, rest) => ci_targs_opt_exec(&e.type_args) || ci_extends_exec(rest),
    }
}

/// Executable contains-infer query on a `typeof` operand.
pub fn ci_qe_exec(q: &QueryExpr) -> (r: bool)
    ensures
        r == ci_qe(*q),
    decreases *q,
{
    match q {
        QueryExpr::Name(_) => false,
        QueryExpr::Import { type_args, .. } => ci_targs_opt_exec(type_args),
    }
}

/// Executable contains-infer query on a name-to-type association.
pub fn ci_rib_exec(r0: &Rib) -> (r: bool)
    ensures
        r == ci_rib(*r0),
    decreases *r0,
{
    match r0 {
        Rib::Empty => false,
        Rib::More(_, t, rest) => ci_ty_exec(t) || ci_rib_exec(rest),
    }
}
} // verus!

verus! {

// ---------------------------------------------------------------------------
// Freezing really finalizes: every node of a frozen value is marked frozen.
// ---------------------------------------------------------------------------

/// A finalized type is fully frozen.
#[verifier::rlimit(100)]
#[verifier::spinoff_prover]
pub proof fn lemma_fz_ty_frozen(t: Type)
    ensures
        ifz_ty(fz_ty(t)),
    decreases t,
{
    match t {
        Type::Keyword { .. } => {
            
        },
        Type::Lit { .. } => {
            
        },
        Type::Symbol { .. } => {
            
        },
        Type::This { .. } => {
            
        },
        Type::Union { types, .. } => {
            lemma_fz_list_frozen(*types);
        },
        Type::Intersection { types, .. } => {
            lemma_fz_list_frozen(*types);
        },
        Type::Array { elem, .. } => {
            lemma_fz_ty_frozen(*elem);
        },
        Type::Tuple { elems, .. } => {
            lemma_fz_elems_frozen(*elems);
        },
        Type::Function { type_params, params, ret_ty, .. } => {
            lemma_fz_tpd_opt_frozen(type_params);
            lemma_fz_params_frozen(*params);
            lemma_fz_ty_frozen(*ret_ty);
        },
        Type::Constructor { type_params, params, ret_ty, .. } => {
            lemma_fz_tpd_opt_frozen(type_params);
            lemma_fz_params_frozen(*params);
            lemma_fz_ty_frozen(*ret_ty);
        },
        Type::TypeLit { members, .. } => {
            lemma_fz_members_frozen(*members);
        },
        Type::Interface { type_params, extends, body, .. } => {
            lemma_fz_tpd_opt_frozen(type_params);
            lemma_fz_extends_frozen(*extends);
            lemma_fz_members_frozen(*body);
        },
        Type::Alias { ty, type_params, .. } => {
            lemma_fz_ty_frozen(*ty);
            lemma_fz_tpd_opt_frozen(type_params);
        },
        Type::Conditional { check_ty, extends_ty, true_ty, false_ty, .. } => {
            lemma_fz_ty_frozen(*check_ty);
            lemma_fz_ty_frozen(*extends_ty);
            lemma_fz_ty_frozen(*true_ty);
            lemma_fz_ty_frozen(*false_ty);
        },
        Type::Mapped { name_ty, type_param, ty, .. } => {
            lemma_fz_opt_frozen(name_ty);
            lemma_fz_tp_frozen(type_param);
            lemma_fz_opt_frozen(ty);
        },
        Type::Operator { ty, .. } => {
            lemma_fz_ty_frozen(*ty);
        },
        Type::IndexedAccess { obj_ty, index_ty, .. } => {
            lemma_fz_ty_frozen(*obj_ty);
            lemma_fz_ty_frozen(*index_ty);
        },
        Type::Query { expr, .. } => {
            lemma_fz_qe_frozen(*expr);
        },
        Type::Optional { ty, .. } => {
            lemma_fz_ty_frozen(*ty);
        },
        Type::Rest { ty, .. } => {
            lemma_fz_ty_frozen(*ty);
        },
        Type::Infer { type_param, .. } => {
            lemma_fz_tp_frozen(type_param);
        },
        Type::Import { type_args, .. } => {
            lemma_fz_targs_opt_frozen(type_args);
        },
        Type::Ref { type_args, .. } => {
            lemma_fz_targs_opt_frozen(type_args);
        },
        Type::Tpl { types, .. } => {
            lemma_fz_list_frozen(*types);
        },
        Type::Predicate { ty, .. } => {
            lemma_fz_opt_frozen(ty);
        },
        Type::Intrinsic { type_args, .. } => {
            lemma_fz_targs_frozen(*type_args);
        },
        Type::Module { exports, .. } => {
            lemma_fz_rib_frozen(exports.types);
            lemma_fz_rib_frozen(exports.vars);
            assert(fz_module_data(*exports).types == fz_rib(exports.types));
            assert(fz_module_data(*exports).vars == fz_rib(exports.vars));
        },
        Type::Param(p) => {
            lemma_fz_tp_frozen(p);
        },
    }
}

/// A finalized optional type is fully frozen.
pub proof fn lemma_fz_opt_frozen(o: Option<Box<Type>>)
    ensures
        ifz_opt(fz_opt(o)),
    decreases o,
{
    match o {
        Option::Some(x) => lemma_fz_ty_frozen(*x),
        Option::None => {},
    }
}

/// A finalized type list is fully frozen.
pub proof fn lemma_fz_list_frozen(l: TypeList)
    ensures
        ifz_list(fz_list(l)),
    decreases l,
{
    match l {
        TypeList::Empty => {},
        TypeList::More(t, rest) => {
            lemma_fz_ty_frozen(t);
            lemma_fz_list_frozen(*rest);
        },
    }
}

/// A finalized tuple element list is fully frozen.
pub proof fn lemma_fz_elems_frozen(l: TupleElems)
    ensures
        ifz_elems(fz_elems(l)),
    decreases l,
{
    match l {
        TupleElems::Empty => {},
        TupleElems::More(e, rest) => {
            lemma_fz_ty_frozen(e.ty);
            lemma_fz_elems_frozen(*rest);
        },
    }
}

/// A finalized parameter list is fully frozen.
pub proof fn lemma_fz_params_frozen(l: Params)
    ensures
        ifz_params(fz_params(l)),
    decreases l,
{
    match l {
        Params::Empty => {},
        Params::More(p, rest) => {
            lemma_fz_ty_frozen(*p.ty);
            lemma_fz_params_frozen(*rest);
        },
    }
}

/// A finalized generic parameter is fully frozen.
pub proof fn lemma_fz_tp_frozen(p: TypeParam)
    ensures
        ifz_tp(fz_tp(p)),
    decreases p,
{
    lemma_fz_opt_frozen(p.constraint);
    lemma_fz_opt_frozen(p.default);
}

/// A finalized generic parameter list is fully frozen.
pub proof fn lemma_fz_tps_frozen(l: TypeParams)
    ensures
        ifz_tps(fz_tps(l)),
    decreases l,
{
    match l {
        TypeParams::Empty => {},
        TypeParams::More(p, rest) => {
            lemma_fz_tp_frozen(p);
            lemma_fz_tps_frozen(*rest);
        },
    }
}

/// A finalized optional generic parameter declaration is fully frozen.
pub proof fn lemma_fz_tpd_opt_frozen(o: Option<TypeParamDecl>)
    ensures
        ifz_tpd_opt(fz_tpd_opt(o)),
    decreases o,
{
    match o {
        Option::Some(d) => lemma_fz_tps_frozen(d.params),
        Option::None => {},
    }
}

/// A finalized type-argument list is fully frozen.
pub proof fn lemma_fz_targs_frozen(a: TypeArgs)
    ensures
        ifz_targs(fz_targs(a)),
    decreases a,
{
    lemma_fz_list_frozen(a.params);
}

/// A finalized optional type-argument list is fully frozen.
pub proof fn lemma_fz_targs_opt_frozen(o: Option<Box<TypeArgs>>)
    ensures
        ifz_targs_opt(fz_targs_opt(o)),
    decreases o,
{
    match o {
        Option::Some(x) => lemma_fz_targs_frozen(*x),
        Option::None => {},
    }
}

/// A finalized member list is fully frozen.
pub proof fn lemma_fz_members_frozen(l: Members)
    ensures
        ifz_members(fz_members(l)),
    decreases l,
{
    match l {
        Members::Empty => {},
        Members::More(e, rest) => {
            lemma_fz_elem_frozen(e);
            lemma_fz_members_frozen(*rest);
        },
    }
}

/// A finalized member is fully frozen.
pub proof fn lemma_fz_elem_frozen(e: TypeElement)
    ensures
        ifz_elem(fz_elem(e)),
    decreases e,
{
    match e {
        TypeElement::Call { params, type_params, ret_ty, .. } => {
            lemma_fz_params_frozen(params);
            lemma_fz_tpd_opt_frozen(type_params);
            lemma_fz_opt_frozen(ret_ty);
        },
        TypeElement::Constructor { params, type_params, ret_ty, .. } => {
            lemma_fz_params_frozen(params);
            lemma_fz_tpd_opt_frozen(type_params);
            lemma_fz_opt_frozen(ret_ty);
        },
        TypeElement::Index { params, type_ann, .. } => {
            lemma_fz_params_frozen(params);
            lemma_fz_opt_frozen(type_ann);
        },
        TypeElement::Method { params, type_params, ret_ty, .. } => {
            lemma_fz_params_frozen(params);
            lemma_fz_tpd_opt_frozen(type_params);
            lemma_fz_opt_frozen(ret_ty);
        },
        TypeElement::Property { params, type_ann, type_params, .. } => {
            lemma_fz_params_frozen(params);
            lemma_fz_opt_frozen(type_ann);
            lemma_fz_tpd_opt_frozen(type_params);
        },
    }
}

/// A finalized interface `extends` list is fully frozen.
pub proof fn lemma_fz_extends_frozen(l: Extends)
    ensures
        ifz_extends(fz_extends(l)),
    decreases l,
{
    match l {
        Extends::Empty => {},
        Extends::More(e, rest) => {
            lemma_fz_targs_opt_frozen(e.type_args);
            lemma_fz_extends_frozen(*rest);
        },
    }
}

/// A finalized `typeof` operand is fully frozen.
pub proof fn lemma_fz_qe_frozen(q: QueryExpr)
    ensures
        ifz_qe(fz_qe(q)),
    decreases q,
{
    match q {
        QueryExpr::Name(_) => {},
        QueryExpr::Import { type_args, .. } => lemma_fz_targs_opt_frozen(type_args),
    }
}

/// A finalized name-to-type association is fully frozen.
pub proof fn lemma_fz_rib_frozen(r: Rib)
    ensures
        ifz_rib(fz_rib(r)),
    decreases r,
{
    match r {
        Rib::Empty => {},
        Rib::More(_, t, rest) => {
            lemma_fz_ty_frozen(t);
            lemma_fz_rib_frozen(*rest);
        },
    }
}
} // verus!


verus! {

// ---------------------------------------------------------------------------
// Union deduplication (set semantics over structural equality, first
// occurrences kept in order) and the union/intersection normal form.
// ---------------------------------------------------------------------------

/// Whether some member of `l` is structurally equal to `t` (member on the
/// left of the comparison).
pub open spec fn tl_contains_teq(l: TypeList, t: Type) -> bool
    decreases l,
{
    match l {
        TypeList::Empty => false,
        TypeList::More(v, rest) => teq(v, t) || tl_contains_teq(*rest, t),
    }
}

/// Whether `t` is structurally equal to some member of `l` (`t` on the
/// left of the comparison).
pub open spec fn tl_eq_from(t: Type, l: TypeList) -> bool
    decreases l,
{
    match l {
        TypeList::Empty => false,
        TypeList::More(v, rest) => teq(t, v) || tl_eq_from(t, *rest),
    }
}

/// Whether no member of `l` is structurally equal to a later member.
pub open spec fn tl_distinct(l: TypeList) -> bool
    decreases l,
{
    match l {
        TypeList::Empty => true,
        TypeList::More(t, rest) => !tl_eq_from(t, *rest) && tl_distinct(*rest),
    }
}

/// The members of `l` that are not structurally equal to a member of
/// `seen` nor to an earlier kept member, in order.
pub open spec fn dedup_from(l: TypeList, seen: TypeList) -> TypeList
    decreases l,
{
    match l {
        TypeList::Empty => TypeList::Empty,
        TypeList::More(t, rest) => if tl_contains_teq(seen, t) {
            dedup_from(*rest, seen)
        } else {
            TypeList::More(t, Box::new(dedup_from(*rest, TypeList::More(t, Box::new(seen)))))
        },
    }
}

/// The members of `l` with structural duplicates removed, first
/// occurrences kept in order.
pub open spec fn dedup_types(l: TypeList) -> TypeList {
    dedup_from(l, TypeList::Empty)
}

/// Executable membership test under structural equality.
pub fn tl_contains_teq_exec(l: &TypeList, t: &Type) -> (r: bool)
    ensures
        r == tl_contains_teq(*l, *t),
    decreases *l,
{
    match l {
        TypeList::Empty => false,
        TypeList::More(v, rest) => type_eq(v, t) || tl_contains_teq_exec(rest, t),
    }
}

/// Removes structural duplicates from `l`, keeping first occurrences in
/// order; `seen` holds the members already kept.
pub fn dedup_from_exec(l: TypeList, seen: &TypeList) -> (r: TypeList)
    ensures
        r == dedup_from(l, *seen),
    decreases l,
{
    match l {
        TypeList::Empty => TypeList::Empty,
        TypeList::More(t, rest) => {
            if tl_contains_teq_exec(seen, &t) {
                dedup_from_exec(*rest, seen)
            } else {
                let seen2 = TypeList::More(copy_type(&t), Box::new(copy_type_list(seen)));
                TypeList::More(t, Box::new(dedup_from_exec(*rest, &seen2)))
            }
        },
    }
}

/// Removes structural duplicates from `l`, keeping first occurrences in
/// order.
pub fn dedup_types_exec(l: TypeList) -> (r: TypeList)
    ensures
        r == dedup_types(l),
{
    dedup_from_exec(l, &TypeList::Empty)
}

/// No kept member is structurally equal to `t` when every value equal
/// from `t` is already represented in `seen`.
pub proof fn lemma_dedup_excludes(l: TypeList, seen: TypeList, t: Type)
    requires
        forall|u: Type| teq(t, u) ==> tl_contains_teq(seen, u),
    ensures
        !tl_eq_from(t, dedup_from(l, seen)),
    decreases l,
{
    match l {
        TypeList::Empty => {},
        TypeList::More(x, rest) => {
            if tl_contains_teq(seen, x) {
                lemma_dedup_excludes(*rest, seen, t);
            } else {
                assert(!teq(t, x));
                let seen2 = TypeList::More(x, Box::new(seen));
                assert forall|u: Type| teq(t, u) implies tl_contains_teq(seen2, u) by {
                    assert(tl_contains_teq(seen, u));
                }
                lemma_dedup_excludes(*rest, seen2, t);
            }
        },
    }
}

/// Deduplication leaves no two members structurally equal.
pub proof fn lemma_dedup_distinct(l: TypeList, seen: TypeList)
    ensures
        tl_distinct(dedup_from(l, seen)),
    decreases l,
{
    match l {
        TypeList::Empty => {},
        TypeList::More(x, rest) => {
            if tl_contains_teq(seen, x) {
                lemma_dedup_distinct(*rest, seen);
            } else {
                let seen2 = TypeList::More(x, Box::new(seen));
                lemma_dedup_distinct(*rest, seen2);
                lemma_dedup_excludes(*rest, seen2, x);
            }
        },
    }
}

/// The normal form of a union: an empty union is `never`, a single-member
/// union is that member, anything else stays a union.
pub open spec fn fixed_union(span: Span, types: TypeList, meta: TypeMeta) -> Type {
    match types {
        TypeList::Empty => Type::Keyword { span, kind: KeywordKind::Never, meta },
        TypeList::More(t, rest) => match *rest {
            TypeList::Empty => t,
            TypeList::More(_, _) => Type::Union { span, types: Box::new(types), meta },
        },
    }
}

/// Builds the normal form of a union.
pub fn make_fixed_union(span: Span, types: TypeList, meta: TypeMeta) -> (r: Type)
    ensures
        r == fixed_union(span, types, meta),
{
    match types {
        TypeList::Empty => Type::Keyword { span, kind: KeywordKind::Never, meta },
        TypeList::More(t, rest) => match *rest {
            TypeList::Empty => t,
            TypeList::More(t2, rest2) => Type::Union {
                span,
                types: Box::new(TypeList::More(t, Box::new(TypeList::More(t2, rest2)))),
                meta,
            },
        },
    }
}

/// The normal form of an intersection, mirroring `fixed_union` with the
/// empty case `unknown` (the neutral element of intersection).
pub open spec fn fixed_intersection(span: Span, types: TypeList, meta: TypeMeta) -> Type {
    match types {
        TypeList::Empty => Type::Keyword { span, kind: KeywordKind::Unknown, meta },
        TypeList::More(t, rest) => match *rest {
            TypeList::Empty => t,
            TypeList::More(_, _) => Type::Intersection { span, types: Box::new(types), meta },
        },
    }
}

/// Builds the normal form of an intersection.
pub fn make_fixed_intersection(span: Span, types: TypeList, meta: TypeMeta) -> (r: Type)
    ensures
        r == fixed_intersection(span, types, meta),
{
    match types {
        TypeList::Empty => Type::Keyword { span, kind: KeywordKind::Unknown, meta },
        TypeList::More(t, rest) => match *rest {
            TypeList::Empty => t,
            TypeList::More(t2, rest2) => Type::Intersection {
                span,
                types: Box::new(TypeList::More(t, Box::new(TypeList::More(t2, rest2)))),
                meta,
            },
        },
    }
}

} // verus!

verus! {

// ---------------------------------------------------------------------------
// Substitution of type-parameter placeholders.
//
// Re-expanding a constraint against the mapping from parameter names to
// their just-elaborated forms replaces each placeholder with the real
// structural parameter exactly once, in one pass.
// ---------------------------------------------------------------------------

/// `t` with every parameter placeholder whose name is mapped replaced by
/// the mapped value.
pub open spec fn subst_ty(t: Type, m: Rib) -> Type
    decreases t,
{
    match t {
        Type::Param(p) => match rib_find(m, p.name) {
            Option::Some(v) => v,
            Option::None => Type::Param(subst_tp(p, m)),
        },
        Type::Keyword { span, kind, meta } => Type::Keyword { span: span, kind: kind, meta: meta },
        Type::Lit { span, lit, meta } => Type::Lit { span: span, lit: lit, meta: meta },
        Type::Symbol { span, id, meta } => Type::Symbol { span: span, id: id, meta: meta },
        Type::This { span, meta } => Type::This { span: span, meta: meta },
        Type::Union { span, types, meta } => Type::Union { span: span, types: Box::new(subst_list(*types, m)), meta: meta },
        Type::Intersection { span, types, meta } => Type::Intersection { span: span, types: Box::new(subst_list(*types, m)), meta: meta },
        Type::Array { span, elem, meta } => Type::Array { span: span, elem: Box::new(subst_ty(*elem, m)), meta: meta },
        Type::Tuple { span, elems, meta } => Type::Tuple { span: span, elems: Box::new(subst_elems(*elems, m)), meta: meta },
        Type::Function { span, type_params, params, ret_ty, meta } => Type::Function { span: span, type_params: subst_tpd_opt(type_params, m), params: Box::new(subst_params(*params, m)), ret_ty: Box::new(subst_ty(*ret_ty, m)), meta: meta },
        Type::Constructor { span, type_params, params, ret_ty, is_abstract, meta } => Type::Constructor { span: span, type_params: subst_tpd_opt(type_params, m), params: Box::new(subst_params(*params, m)), ret_ty: Box::new(subst_ty(*ret_ty, m)), is_abstract: is_abstract, meta: meta },
        Type::TypeLit { span, members, specified, meta } => Type::TypeLit { span: span, members: Box::new(subst_members(*members, m)), specified: specified, meta: meta },
        Type::Interface { span, name, type_params, extends, body, meta } => Type::Interface { span: span, name: name, type_params: subst_tpd_opt(type_params, m), extends: Box::new(subst_extends(*extends, m)), body: Box::new(subst_members(*body, m)), meta: meta },
        Type::Alias { span, ty, type_params, meta } => Type::Alias { span: span, ty: Box::new(subst_ty(*ty, m)), type_params: subst_tpd_opt(type_params, m), meta: meta },
        Type::Conditional { span, check_ty, extends_ty, true_ty, false_ty, meta } => Type::Conditional { span: span, check_ty: Box::new(subst_ty(*check_ty, m)), extends_ty: Box::new(subst_ty(*extends_ty, m)), true_ty: Box::new(subst_ty(*true_ty, m)), false_ty: Box::new(subst_ty(*false_ty, m)), meta: meta },
        Type::Mapped { span, readonly, optional, name_ty, type_param, ty, meta } => Type::Mapped { span: span, readonly: readonly, optional: optional, name_ty: subst_opt(name_ty, m), type_param: subst_tp(type_param, m), ty: subst_opt(ty, m), meta: meta },
        Type::Operator { span, op, ty, meta } => Type::Operator { span: span, op: op, ty: Box::new(subst_ty(*ty, m)), meta: meta },
        Type::IndexedAccess { span, readonly, obj_ty, index_ty, meta } => Type::IndexedAccess { span: span, readonly: readonly, obj_ty: Box::new(subst_ty(*obj_ty, m)), index_ty: Box::new(subst_ty(*index_ty, m)), meta: meta },
        Type::Query { span, expr, meta } => Type::Query { span: span, expr: Box::new(subst_qe(*expr, m)), meta: meta },
        Type::Optional { span, ty, meta } => Type::Optional { span: span, ty: Box::new(subst_ty(*ty, m)), meta: meta },
        Type::Rest { span, ty, meta } => Type::Rest { span: span, ty: Box::new(subst_ty(*ty, m)), meta: meta },
        Type::Infer { span, type_param, meta } => Type::Infer { span: span, type_param: subst_tp(type_param, m), meta: meta },
        Type::Import { span, arg, qualifier, type_args, meta } => Type::Import { span: span, arg: arg, qualifier: qualifier, type_args: subst_targs_opt(type_args, m), meta: meta },
        Type::Ref { span, ctxt, name, type_args, meta } => Type::Ref { span: span, ctxt: ctxt, name: name, type_args: subst_targs_opt(type_args, m), meta: meta },
        Type::Tpl { span, quasis, types, meta } => Type::Tpl { span: span, quasis: quasis, types: Box::new(subst_list(*types, m)), meta: meta },
        Type::Predicate { span, param_name, asserts, ty, meta } => Type::Predicate { span: span, param_name: param_name, asserts: asserts, ty: subst_opt(ty, m), meta: meta },
        Type::Intrinsic { span, kind, type_args, meta } => Type::Intrinsic { span: span, kind: kind, type_args: Box::new(subst_targs(*type_args, m)), meta: meta },
        Type::Module { span, id, exports, meta } => Type::Module { span: span, id: id, exports: Box::new(subst_module_data(*exports, m)), meta: meta },
    }
}

/// Substitution over an optional boxed type.
pub open spec fn subst_opt(o: Option<Box<Type>>, m: Rib) -> Option<Box<Type>>
    decreases o,
{
    match o {
        Option::Some(x) => Option::Some(Box::new(subst_ty(*x, m))),
        Option::None => Option::None,
    }
}

/// Substitution over a type list.
pub open spec fn subst_list(l: TypeList, m: Rib) -> TypeList
    decreases l,
{
    match l {
        TypeList::Empty => TypeList::Empty,
        TypeList::More(t, rest) => TypeList::More(subst_ty(t, m), Box::new(subst_list(*rest, m))),
    }
}

/// Substitution over tuple elements.
pub open spec fn subst_elems(l: TupleElems, m: Rib) -> TupleElems
    decreases l,
{
    match l {
        TupleElems::Empty => TupleElems::Empty,
        TupleElems::More(e, rest) => TupleElems::More(
            TupleElement { span: e.span, label: e.label, ty: subst_ty(e.ty, m) },
            Box::new(subst_elems(*rest, m)),
        ),
    }
}

/// Substitution over a parameter list.
pub open spec fn subst_params(l: Params, m: Rib) -> Params
    decreases l,
{
    match l {
        Params::Empty => Params::Empty,
        Params::More(p, rest) => Params::More(
            FnParam { span: p.span, required: p.required, ids: p.ids, ty: Box::new(subst_ty(*p.ty, m)) },
            Box::new(subst_params(*rest, m)),
        ),
    }
}

/// Substitution inside a generic parameter's constraint and default.
pub open spec fn subst_tp(p: TypeParam, m: Rib) -> TypeParam
    decreases p,
{
    TypeParam {
        span: p.span,
        name: p.name,
        constraint: subst_opt(p.constraint, m),
        default: subst_opt(p.default, m),
        meta: p.meta,
    }
}

/// Substitution over a generic parameter list.
pub open spec fn subst_tps(l: TypeParams, m: Rib) -> TypeParams
    decreases l,
{
    match l {
        TypeParams::Empty => TypeParams::Empty,
        TypeParams::More(p, rest) => TypeParams::More(subst_tp(p, m), Box::new(subst_tps(*rest, m))),
    }
}

/// Substitution over an optional generic parameter declaration.
pub open spec fn subst_tpd_opt(o: Option<TypeParamDecl>, m: Rib) -> Option<TypeParamDecl>
    decreases o,
{
    match o {
        Option::Some(d) => Option::Some(TypeParamDecl { span: d.span, params: subst_tps(d.params, m) }),
        Option::None => Option::None,
    }
}

/// Substitution over a type-argument list.
pub open spec fn subst_targs(a: TypeArgs, m: Rib) -> TypeArgs
    decreases a,
{
    TypeArgs { span: a.span, params: subst_list(a.params, m) }
}

/// Substitution over an optional type-argument list.
pub open spec fn subst_targs_opt(o: Option<Box<TypeArgs>>, m: Rib) -> Option<Box<TypeArgs>>
    decreases o,
{
    match o {
        Option::Some(x) => Option::Some(Box::new(subst_targs(*x, m))),
        Option::None => Option::None,
    }
}

/// Substitution over a member list.
pub open spec fn subst_members(l: Members, m: Rib) -> Members
    decreases l,
{
    match l {
        Members::Empty => Members::Empty,
        Members::More(e, rest) => Members::More(subst_elem(e, m), Box::new(subst_members(*rest, m))),
    }
}

/// Substitution over a single member.
pub open spec fn subst_elem(e: TypeElement, m: Rib) -> TypeElement
    decreases e,
{
    match e {
        TypeElement::Call { span, params, type_params, ret_ty } => TypeElement::Call {
            span,
            params: subst_params(params, m),
            type_params: subst_tpd_opt(type_params, m),
            ret_ty: subst_opt(ret_ty, m),
        },
        TypeElement::Constructor { span, params, type_params, ret_ty } => TypeElement::Constructor {
            span,
            params: subst_params(params, m),
            type_params: subst_tpd_opt(type_params, m),
            ret_ty: subst_opt(ret_ty, m),
        },
        TypeElement::Index { span, readonly, is_static, params, type_ann } => TypeElement::Index {
            span,
            readonly,
            is_static,
            params: subst_params(params, m),
            type_ann: subst_opt(type_ann, m),
        },
        TypeElement::Method { span, key, readonly, optional, params, type_params, ret_ty } =>
            TypeElement::Method {
                span,
                key,
                readonly,
                optional,
                params: subst_params(params, m),
                type_params: subst_tpd_opt(type_params, m),
                ret_ty: subst_opt(ret_ty, m),
            },
        TypeElement::Property { span, key, readonly, optional, accessor, params, type_ann, type_params } =>
            TypeElement::Property {
                span,
                key,
                readonly,
                optional,
                accessor,
                params: subst_params(params, m),
                type_ann: subst_opt(type_ann, m),
                type_params: subst_tpd_opt(type_params, m),
            },
    }
}

/// Substitution over interface `extends` clauses.
pub open spec fn subst_extends(l: Extends, m: Rib) -> Extends
    decreases l,
{
    match l {
        Extends::Empty => Extends::Empty,
        Extends::More(e, rest) => Extends::More(
            TsExpr { span: e.span, expr: e.expr, type_args: subst_targs_opt(e.type_args, m) },
            Box::new(subst_extends(*rest, m)),
        ),
    }
}

/// Substitution over a `typeof` operand.
pub open spec fn subst_qe(q: QueryExpr, m: Rib) -> QueryExpr
    decreases q,
{
    match q {
        QueryExpr::Name(n) => QueryExpr::Name(n),
        QueryExpr::Import { span, arg, qualifier, type_args } => QueryExpr::Import {
            span,
            arg,
            qualifier,
            type_args: subst_targs_opt(type_args, m),
        },
    }
}

/// Substitution over a name-to-type association.
pub open spec fn subst_rib(r: Rib, m: Rib) -> Rib
    decreases r,
{
    match r {
        Rib::Empty => Rib::Empty,
        Rib::More(n, t, rest) => Rib::More(n, subst_ty(t, m), Box::new(subst_rib(*rest, m))),
    }
}

/// Substitution over a module surface.
pub open spec fn subst_module_data(d: ModuleTypeData, m: Rib) -> ModuleTypeData
    decreases d,
{
    ModuleTypeData { types: subst_rib(d.types, m), vars: subst_rib(d.vars, m) }
}
} // verus!

verus! {

/// Replaces mapped parameter placeholders throughout a type.
pub fn expand_ty(t: &Type, m: &Rib) -> (r: Type)
    ensures
        r == subst_ty(*t, *m),
    decreases *t,
{
    match t {
        Type::Param(p) => match crate::scope::rib_find_exec(m, p.name) {
            Option::Some(v) => copy_type(v),
            Option::None => Type::Param(expand_tp(p, m)),
        },
        Type::Keyword { span, kind, meta } => Type::Keyword { span: *span, kind: *kind, meta: *meta },
        Type::Lit { span, lit, meta } => Type::Lit { span: *span, lit: *lit, meta: *meta },
        Type::Symbol { span, id, meta } => Type::Symbol { span: *span, id: *id, meta: *meta },
        Type::This { span, meta } => Type::This { span: *span, meta: *meta },
        Type::Union { span, types, meta } => Type::Union { span: *span, types: Box::new(expand_list(types, m)), meta: *meta },
        Type::Intersection { span, types, meta } => Type::Intersection { span: *span, types: Box::new(expand_list(types, m)), meta: *meta },
        Type::Array { span, elem, meta } => Type::Array { span: *span, elem: Box::new(expand_ty(elem, m)), meta: *meta },
        Type::Tuple { span, elems, meta } => Type::Tuple { span: *span, elems: Box::new(expand_elems(elems, m)), meta: *meta },
        Type::Function { span, type_params, params, ret_ty, meta } => Type::Function { span: *span, type_params: expand_tpd_opt(type_params, m), params: Box::new(expand_params_list(params, m)), ret_ty: Box::new(expand_ty(ret_ty, m)), meta: *meta },
        Type::Constructor { span, type_params, params, ret_ty, is_abstract, meta } => Type::Constructor { span: *span, type_params: expand_tpd_opt(type_params, m), params: Box::new(expand_params_list(params, m)), ret_ty: Box::new(expand_ty(ret_ty, m)), is_abstract: *is_abstract, meta: *meta },
        Type::TypeLit { span, members, specified, meta } => Type::TypeLit { span: *span, members: Box::new(expand_members(members, m)), specified: *specified, meta: *meta },
        Type::Interface { span, name, type_params, extends, body, meta } => Type::Interface { span: *span, name: *name, type_params: expand_tpd_opt(type_params, m), extends: Box::new(expand_extends(extends, m)), body: Box::new(expand_members(body, m)), meta: *meta },
        Type::Alias { span, ty, type_params, meta } => Type::Alias { span: *span, ty: Box::new(expand_ty(ty, m)), type_params: expand_tpd_opt(type_params, m), meta: *meta },
        Type::Conditional { span, check_ty, extends_ty, true_ty, false_ty, meta } => Type::Conditional { span: *span, check_ty: Box::new(expand_ty(check_ty, m)), extends_ty: Box::new(expand_ty(extends_ty, m)), true_ty: Box::new(expand_ty(true_ty, m)), false_ty: Box::new(expand_ty(false_ty, m)), meta: *meta },
        Type::Mapped { span, readonly, optional, name_ty, type_param, ty, meta } => Type::Mapped { span: *span, readonly: *readonly, optional: *optional, name_ty: expand_opt(name_ty, m), type_param: expand_tp(type_param, m), ty: expand_opt(ty, m), meta: *meta },
        Type::Operator { span, op, ty, meta } => Type::Operator { span: *span, op: *op, ty: Box::new(expand_ty(ty, m)), meta: *meta },
        Type::IndexedAccess { span, readonly, obj_ty, index_ty, meta } => Type::IndexedAccess { span: *span, readonly: *readonly, obj_ty: Box::new(expand_ty(obj_ty, m)), index_ty: Box::new(expand_ty(index_ty, m)), meta: *meta },
        Type::Query { span, expr, meta } => Type::Query { span: *span, expr: Box::new(expand_qe(expr, m)), meta: *meta },
        Type::Optional { span, ty, meta } => Type::Optional { span: *span, ty: Box::new(expand_ty(ty, m)), meta: *meta },
        Type::Rest { span, ty, meta } => Type::Rest { span: *span, ty: Box::new(expand_ty(ty, m)), meta: *meta },
        Type::Infer { span, type_param, meta } => Type::Infer { span: *span, type_param: expand_tp(type_param, m), meta: *meta },
        Type::Import { span, arg, qualifier, type_args, meta } => Type::Import { span: *span, arg: *arg, qualifier: copy_en_opt(qualifier), type_args: expand_targs_opt(type_args, m), meta: *meta },
        Type::Ref { span, ctxt, name, type_args, meta } => Type::Ref { span: *span, ctxt: *ctxt, name: crate::base::copy_entity_name(name), type_args: expand_targs_opt(type_args, m), meta: *meta },
        Type::Tpl { span, quasis, types, meta } => Type::Tpl { span: *span, quasis: Box::new(crate::base::copy_atoms(quasis)), types: Box::new(expand_list(types, m)), meta: *meta },
        Type::Predicate { span, param_name, asserts, ty, meta } => Type::Predicate { span: *span, param_name: *param_name, asserts: *asserts, ty: expand_opt(ty, m), meta: *meta },
        Type::Intrinsic { span, kind, type_args, meta } => Type::Intrinsic { span: *span, kind: *kind, type_args: Box::new(expand_targs(type_args, m)), meta: *meta },
        Type::Module { span, id, exports, meta } => Type::Module { span: *span, id: *id, exports: Box::new(expand_module_data(exports, m)), meta: *meta },
    }
}

/// Substitution over an optional boxed type.
pub fn expand_opt(o: &Option<Box<Type>>, m: &Rib) -> (r: Option<Box<Type>>)
    ensures
        r == subst_opt(*o, *m),
    decreases *o,
{
    match o {
        Option::Some(x) => Some(Box::new(expand_ty(x, m))),
        Option::None => None,
    }
}

/// Substitution over a type list.
pub fn expand_list(l: &TypeList, m: &Rib) -> (r: TypeList)
    ensures
        r == subst_list(*l, *m),
    decreases *l,
{
    match l {
        TypeList::Empty => TypeList::Empty,
        TypeList::More(t, rest) => TypeList::More(expand_ty(t, m), Box::new(expand_list(rest, m))),
    }
}

/// Substitution over tuple elements.
pub fn expand_elems(l: &TupleElems, m: &Rib) -> (r: TupleElems)
    ensures
        r == subst_elems(*l, *m),
    decreases *l,
{
    match l {
        TupleElems::Empty => TupleElems::Empty,
        TupleElems::More(e, rest) => TupleElems::More(
            TupleElement { span: e.span, label: e.label, ty: expand_ty(&e.ty, m) },
            Box::new(expand_elems(rest, m)),
        ),
    }
}

/// Substitution over a parameter list.
pub fn expand_params_list(l: &Params, m: &Rib) -> (r: Params)
    ensures
        r == subst_params(*l, *m),
    decreases *l,
{
    match l {
        Params::Empty => Params::Empty,
        Params::More(p, rest) => Params::More(
            FnParam {
                span: p.span,
                required: p.required,
                ids: crate::base::copy_idents(&p.ids),
                ty: Box::new(expand_ty(&p.ty, m)),
            },
            Box::new(expand_params_list(rest, m)),
        ),
    }
}

/// Substitution inside a generic parameter.
pub fn expand_tp(p: &TypeParam, m: &Rib) -> (r: TypeParam)
    ensures
        r == subst_tp(*p, *m),
    decreases *p,
{
    TypeParam {
        span: p.span,
        name: p.name,
        constraint: expand_opt(&p.constraint, m),
        default: expand_opt(&p.default, m),
        meta: p.meta,
    }
}

/// Substitution over a generic parameter list.
pub fn expand_tps(l: &TypeParams, m: &Rib) -> (r: TypeParams)
    ensures
        r == subst_tps(*l, *m),
    decreases *l,
{
    match l {
        TypeParams::Empty => TypeParams::Empty,
        TypeParams::More(p, rest) => TypeParams::More(expand_tp(p, m), Box::new(expand_tps(rest, m))),
    }
}

/// Substitution over an optional generic parameter declaration.
pub fn expand_tpd_opt(o: &Option<TypeParamDecl>, m: &Rib) -> (r: Option<TypeParamDecl>)
    ensures
        r == subst_tpd_opt(*o, *m),
    decreases *o,
{
    match o {
        Option::Some(d) => Some(TypeParamDecl { span: d.span, params: expand_tps(&d.params, m) }),
        Option::None => None,
    }
}

/// Substitution over a type-argument list.
pub fn expand_targs(a: &TypeArgs, m: &Rib) -> (r: TypeArgs)
    ensures
        r == subst_targs(*a, *m),
    decreases *a,
{
    TypeArgs { span: a.span, params: expand_list(&a.params, m) }
}

/// Substitution over an optional type-argument list.
pub fn expand_targs_opt(o: &Option<Box<TypeArgs>>, m: &Rib) -> (r: Option<Box<TypeArgs>>)
    ensures
        r == subst_targs_opt(*o, *m),
    decreases *o,
{
    match o {
        Option::Some(x) => Some(Box::new(expand_targs(x, m))),
        Option::None => None,
    }
}

/// Substitution over a member list.
pub fn expand_members(l: &Members, m: &Rib) -> (r: Members)
    ensures
        r == subst_members(*l, *m),
    decreases *l,
{
    match l {
        Members::Empty => Members::Empty,
        Members::More(e, rest) => Members::More(expand_elem(e, m), Box::new(expand_members(rest, m))),
    }
}

/// Substitution over a single member.
pub fn expand_elem(e: &TypeElement, m: &Rib) -> (r: TypeElement)
    ensures
        r == subst_elem(*e, *m),
    decreases *e,
{
    match e {
        TypeElement::Call { span, params, type_params, ret_ty } => TypeElement::Call {
            span: *span,
            params: expand_params_list(params, m),
            type_params: expand_tpd_opt(type_params, m),
            ret_ty: expand_opt(ret_ty, m),
        },
        TypeElement::Constructor { span, params, type_params, ret_ty } => TypeElement::Constructor {
            span: *span,
            params: expand_params_list(params, m),
            type_params: expand_tpd_opt(type_params, m),
            ret_ty: expand_opt(ret_ty, m),
        },
        TypeElement::Index { span, readonly, is_static, params, type_ann } => TypeElement::Index {
            span: *span,
            readonly: *readonly,
            is_static: *is_static,
            params: expand_params_list(params, m),
            type_ann: expand_opt(type_ann, m),
        },
        TypeElement::Method { span, key, readonly, optional, params, type_params, ret_ty } =>
            TypeElement::Method {
                span: *span,
                key: *key,
                readonly: *readonly,
                optional: *optional,
                params: expand_params_list(params, m),
                type_params: expand_tpd_opt(type_params, m),
                ret_ty: expand_opt(ret_ty, m),
            },
        TypeElement::Property { span, key, readonly, optional, accessor, params, type_ann, type_params } =>
            TypeElement::Property {
                span: *span,
                key: *key,
                readonly: *readonly,
                optional: *optional,
                accessor: *accessor,
                params: expand_params_list(params, m),
                type_ann: expand_opt(type_ann, m),
                type_params: expand_tpd_opt(type_params, m),
            },
    }
}

/// Substitution over interface `extends` clauses.
pub fn expand_extends(l: &Extends, m: &Rib) -> (r: Extends)
    ensures
        r == subst_extends(*l, *m),
    decreases *l,
{
    match l {
        Extends::Empty => Extends::Empty,
        Extends::More(e, rest) => Extends::More(
            TsExpr {
                span: e.span,
                expr: crate::base::copy_entity_name(&e.expr),
                type_args: expand_targs_opt(&e.type_args, m),
            },
            Box::new(expand_extends(rest, m)),
        ),
    }
}

/// Substitution over a `typeof` operand.
pub fn expand_qe(q: &QueryExpr, m: &Rib) -> (r: QueryExpr)
    ensures
        r == subst_qe(*q, *m),
    decreases *q,
{
    match q {
        QueryExpr::Name(n) => QueryExpr::Name(crate::base::copy_entity_name(n)),
        QueryExpr::Import { span, arg, qualifier, type_args } => QueryExpr::Import {
            span: *span,
            arg: *arg,
            qualifier: copy_en_opt(qualifier),
            type_args: expand_targs_opt(type_args, m),
        },
    }
}

/// Substitution over a name-to-type association.
pub fn expand_rib(r0: &Rib, m: &Rib) -> (r: Rib)
    ensures
        r == subst_rib(*r0, *m),
    decreases *r0,
{
    match r0 {
        Rib::Empty => Rib::Empty,
        Rib::More(n, t, rest) => Rib::More(*n, expand_ty(t, m), Box::new(expand_rib(rest, m))),
    }
}

/// Substitution over a module surface.
pub fn expand_module_data(d: &ModuleTypeData, m: &Rib) -> (r: ModuleTypeData)
    ensures
        r == subst_module_data(*d, *m),
    decreases *d,
{
    ModuleTypeData { types: expand_rib(&d.types, m), vars: expand_rib(&d.vars, m) }
}
} // verus!

verus! {

// ---------------------------------------------------------------------------
// Freezing is idempotent: a finalized value is unchanged by finalizing it
// again.  Once a value is frozen, further changes produce new values.
// ---------------------------------------------------------------------------

/// Finalizing twice equals finalizing once.
pub proof fn lemma_fz_ty_idem(t: Type)
    ensures
        fz_ty(fz_ty(t)) == fz_ty(t),
    decreases t, 1int,
{
    match t {
        Type::Keyword { .. } => lemma_fz_ty_idem_a(t),
        Type::Lit { .. } => lemma_fz_ty_idem_a(t),
        Type::Symbol { .. } => lemma_fz_ty_idem_a(t),
        Type::This { .. } => lemma_fz_ty_idem_a(t),
        Type::Union { .. } => lemma_fz_ty_idem_a(t),
        Type::Intersection { .. } => lemma_fz_ty_idem_a(t),
        Type::Array { .. } => lemma_fz_ty_idem_a(t),
        Type::Tuple { .. } => lemma_fz_ty_idem_a(t),
        Type::Function { .. } => lemma_fz_ty_idem_a(t),
        Type::Constructor { .. } => lemma_fz_ty_idem_a(t),
        Type::TypeLit { .. } => lemma_fz_ty_idem_a(t),
        Type::Interface { .. } => lemma_fz_ty_idem_a(t),
        Type::Alias { .. } => lemma_fz_ty_idem_a(t),
        Type::Conditional { .. } => lemma_fz_ty_idem_b(t),
        Type::Mapped { .. } => lemma_fz_ty_idem_b(t),
        Type::Operator { .. } => lemma_fz_ty_idem_b(t),
        Type::IndexedAccess { .. } => lemma_fz_ty_idem_b(t),
        Type::Query { .. } => lemma_fz_ty_idem_b(t),
        Type::Optional { .. } => lemma_fz_ty_idem_b(t),
        Type::Rest { .. } => lemma_fz_ty_idem_b(t),
        Type::Infer { .. } => lemma_fz_ty_idem_b(t),
        Type::Import { .. } => lemma_fz_ty_idem_b(t),
        Type::Ref { .. } => lemma_fz_ty_idem_b(t),
        Type::Tpl { .. } => lemma_fz_ty_idem_b(t),
        Type::Predicate { .. } => lemma_fz_ty_idem_b(t),
        Type::Intrinsic { .. } => lemma_fz_ty_idem_b(t),
        Type::Module { .. } => lemma_fz_ty_idem_b(t),
        Type::Param(p) => {
            lemma_fz_tp_idem(p);
        },
    }
}

/// Half of the case analysis of `lemma_fz_ty_idem`.
#[verifier::rlimit(100)]
#[verifier::spinoff_prover]
proof fn lemma_fz_ty_idem_a(t: Type)
    requires
        t is Keyword || t is Lit || t is Symbol || t is This || t is Union || t is Intersection || t is Array || t is Tuple || t is Function || t is Constructor || t is TypeLit || t is Interface || t is Alias,
    ensures
        fz_ty(fz_ty(t)) == fz_ty(t),
    decreases t, 0int,
{
    match t {
        Type::Keyword { .. } => {
            
        },
        Type::Lit { .. } => {
            
        },
        Type::Symbol { .. } => {
            
        },
        Type::This { .. } => {
            
        },
        Type::Union { types, .. } => {
            lemma_fz_list_idem(*types);
        },
        Type::Intersection { types, .. } => {
            lemma_fz_list_idem(*types);
        },
        Type::Array { elem, .. } => {
            lemma_fz_ty_idem(*elem);
        },
        Type::Tuple { elems, .. } => {
            lemma_fz_elems_idem(*elems);
        },
        Type::Function { type_params, params, ret_ty, .. } => {
            lemma_fz_tpd_opt_idem(type_params);
            lemma_fz_params_idem(*params);
            lemma_fz_ty_idem(*ret_ty);
        },
        Type::Constructor { type_params, params, ret_ty, .. } => {
            lemma_fz_tpd_opt_idem(type_params);
            lemma_fz_params_idem(*params);
            lemma_fz_ty_idem(*ret_ty);
        },
        Type::TypeLit { members, .. } => {
            lemma_fz_members_idem(*members);
        },
        Type::Interface { type_params, extends, body, .. } => {
            lemma_fz_tpd_opt_idem(type_params);
            lemma_fz_extends_idem(*extends);
            lemma_fz_members_idem(*body);
        },
        Type::Alias { ty, type_params, .. } => {
            lemma_fz_ty_idem(*ty);
            lemma_fz_tpd_opt_idem(type_params);
        },
        _ => {},
    }
}

/// The other half of the case analysis of `lemma_fz_ty_idem`.
#[verifier::rlimit(100)]
#[verifier::spinoff_prover]
proof fn lemma_fz_ty_idem_b(t: Type)
    requires
        t is Conditional || t is Mapped || t is Operator || t is IndexedAccess || t is Query || t is Optional || t is Rest || t is Infer || t is Import || t is Ref || t is Tpl || t is Predicate || t is Intrinsic || t is Module,
    ensures
        fz_ty(fz_ty(t)) == fz_ty(t),
    decreases t, 0int,
{
    match t {
        Type::Conditional { check_ty, extends_ty, true_ty, false_ty, .. } => {
            lemma_fz_ty_idem(*check_ty);
            lemma_fz_ty_idem(*extends_ty);
            lemma_fz_ty_idem(*true_ty);
            lemma_fz_ty_idem(*false_ty);
        },
        Type::Mapped { name_ty, type_param, ty, .. } => {
            lemma_fz_opt_idem(name_ty);
            lemma_fz_tp_idem(type_param);
            lemma_fz_opt_idem(ty);
        },
        Type::Operator { ty, .. } => {
            lemma_fz_ty_idem(*ty);
        },
        Type::IndexedAccess { obj_ty, index_ty, .. } => {
            lemma_fz_ty_idem(*obj_ty);
            lemma_fz_ty_idem(*index_ty);
        },
        Type::Query { expr, .. } => {
            lemma_fz_qe_idem(*expr);
        },
        Type::Optional { ty, .. } => {
            lemma_fz_ty_idem(*ty);
        },
        Type::Rest { ty, .. } => {
            lemma_fz_ty_idem(*ty);
        },
        Type::Infer { type_param, .. } => {
            lemma_fz_tp_idem(type_param);
        },
        Type::Import { type_args, .. } => {
            lemma_fz_targs_opt_idem(type_args);
        },
        Type::Ref { type_args, .. } => {
            lemma_fz_targs_opt_idem(type_args);
        },
        Type::Tpl { types, .. } => {
            lemma_fz_list_idem(*types);
        },
        Type::Predicate { ty, .. } => {
            lemma_fz_opt_idem(ty);
        },
        Type::Intrinsic { type_args, .. } => {
            lemma_fz_targs_idem(*type_args);
        },
        Type::Module { exports, .. } => {
            lemma_fz_rib_idem(exports.types);
            lemma_fz_rib_idem(exports.vars);
            let inner = fz_module_data(*exports);
            assert(inner.types == fz_rib(exports.types));
            assert(inner.vars == fz_rib(exports.vars));
            assert(fz_module_data(inner).types == fz_rib(inner.types));
            assert(fz_module_data(inner).vars == fz_rib(inner.vars));
        },
        _ => {},
    }
}

/// Finalizing an optional type twice equals finalizing it once.
pub proof fn lemma_fz_opt_idem(o: Option<Box<Type>>)
    ensures
        fz_opt(fz_opt(o)) == fz_opt(o),
    decreases o, 2int,
{
    match o {
        Option::Some(x) => lemma_fz_ty_idem(*x),
        Option::None => {},
    }
}

/// Finalizing a type list twice equals finalizing it once.
pub proof fn lemma_fz_list_idem(l: TypeList)
    ensures
        fz_list(fz_list(l)) == fz_list(l),
    decreases l, 2int,
{
    match l {
        TypeList::Empty => {},
        TypeList::More(t, rest) => {
            lemma_fz_ty_idem(t);
            lemma_fz_list_idem(*rest);
        },
    }
}

/// Finalizing tuple elements twice equals finalizing them once.
pub proof fn lemma_fz_elems_idem(l: TupleElems)
    ensures
        fz_elems(fz_elems(l)) == fz_elems(l),
    decreases l, 2int,
{
    match l {
        TupleElems::Empty => {},
        TupleElems::More(e, rest) => {
            lemma_fz_ty_idem(e.ty);
            lemma_fz_elems_idem(*rest);
        },
    }
}

/// Finalizing a parameter list twice equals finalizing it once.
pub proof fn lemma_fz_params_idem(l: Params)
    ensures
        fz_params(fz_params(l)) == fz_params(l),
    decreases l, 2int,
{
    match l {
        Params::Empty => {},
        Params::More(p, rest) => {
            lemma_fz_ty_idem(*p.ty);
            lemma_fz_params_idem(*rest);
        },
    }
}

/// Finalizing a generic parameter twice equals finalizing it once.
pub proof fn lemma_fz_tp_idem(p: TypeParam)
    ensures
        fz_tp(fz_tp(p)) == fz_tp(p),
    decreases p, 2int,
{
    lemma_fz_opt_idem(p.constraint);
    lemma_fz_opt_idem(p.default);
}

/// Finalizing a generic parameter list twice equals finalizing it once.
pub proof fn lemma_fz_tps_idem(l: TypeParams)
    ensures
        fz_tps(fz_tps(l)) == fz_tps(l),
    decreases l, 2int,
{
    match l {
        TypeParams::Empty => {},
        TypeParams::More(p, rest) => {
            lemma_fz_tp_idem(p);
            lemma_fz_tps_idem(*rest);
        },
    }
}

/// Finalizing an optional parameter declaration twice equals once.
pub proof fn lemma_fz_tpd_opt_idem(o: Option<TypeParamDecl>)
    ensures
        fz_tpd_opt(fz_tpd_opt(o)) == fz_tpd_opt(o),
    decreases o, 2int,
{
    match o {
        Option::Some(d) => lemma_fz_tps_idem(d.params),
        Option::None => {},
    }
}

/// Finalizing a type-argument list twice equals finalizing it once.
pub proof fn lemma_fz_targs_idem(a: TypeArgs)
    ensures
        fz_targs(fz_targs(a)) == fz_targs(a),
    decreases a, 2int,
{
    lemma_fz_list_idem(a.params);
}

/// Finalizing optional type arguments twice equals finalizing them once.
pub proof fn lemma_fz_targs_opt_idem(o: Option<Box<TypeArgs>>)
    ensures
        fz_targs_opt(fz_targs_opt(o)) == fz_targs_opt(o),
    decreases o, 2int,
{
    match o {
        Option::Some(x) => lemma_fz_targs_idem(*x),
        Option::None => {},
    }
}

/// Finalizing a member list twice equals finalizing it once.
pub proof fn lemma_fz_members_idem(l: Members)
    ensures
        fz_members(fz_members(l)) == fz_members(l),
    decreases l, 2int,
{
    match l {
        Members::Empty => {},
        Members::More(e, rest) => {
            lemma_fz_elem_idem(e);
            lemma_fz_members_idem(*rest);
        },
    }
}

/// Finalizing a member twice equals finalizing it once.
pub proof fn lemma_fz_elem_idem(e: TypeElement)
    ensures
        fz_elem(fz_elem(e)) == fz_elem(e),
    decreases e, 2int,
{
    match e {
        TypeElement::Call { params, type_params, ret_ty, .. } => {
            lemma_fz_params_idem(params);
            lemma_fz_tpd_opt_idem(type_params);
            lemma_fz_opt_idem(ret_ty);
        },
        TypeElement::Constructor { params, type_params, ret_ty, .. } => {
            lemma_fz_params_idem(params);
            lemma_fz_tpd_opt_idem(type_params);
            lemma_fz_opt_idem(ret_ty);
        },
        TypeElement::Index { params, type_ann, .. } => {
            lemma_fz_params_idem(params);
            lemma_fz_opt_idem(type_ann);
        },
        TypeElement::Method { params, type_params, ret_ty, .. } => {
            lemma_fz_params_idem(params);
            lemma_fz_tpd_opt_idem(type_params);
            lemma_fz_opt_idem(ret_ty);
        },
        TypeElement::Property { params, type_ann, type_params, .. } => {
            lemma_fz_params_idem(params);
            lemma_fz_opt_idem(type_ann);
            lemma_fz_tpd_opt_idem(type_params);
        },
    }
}

/// Finalizing `extends` clauses twice equals finalizing them once.
pub proof fn lemma_fz_extends_idem(l: Extends)
    ensures
        fz_extends(fz_extends(l)) == fz_extends(l),
    decreases l, 2int,
{
    match l {
        Extends::Empty => {},
        Extends::More(e, rest) => {
            lemma_fz_targs_opt_idem(e.type_args);
            lemma_fz_extends_idem(*rest);
        },
    }
}

/// Finalizing a `typeof` operand twice equals finalizing it once.
pub proof fn lemma_fz_qe_idem(q: QueryExpr)
    ensures
        fz_qe(fz_qe(q)) == fz_qe(q),
    decreases q, 2int,
{
    match q {
        QueryExpr::Name(_) => {},
        QueryExpr::Import { type_args, .. } => lemma_fz_targs_opt_idem(type_args),
    }
}

/// Finalizing an association twice equals finalizing it once.
pub proof fn lemma_fz_rib_idem(r: Rib)
    ensures
        fz_rib(fz_rib(r)) == fz_rib(r),
    decreases r, 2int,
{
    match r {
        Rib::Empty => {},
        Rib::More(_, t, rest) => {
            lemma_fz_ty_idem(t);
            lemma_fz_rib_idem(*rest);
        },
    }
}
} // verus!

