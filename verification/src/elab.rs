//! The type-node elaborator: the dispatch engine mapping every surface
//! type-syntax shape to a semantic `Type` value.
//!
//! Every public method's behaviour is pinned down by a specification
//! function over the same syntax; the methods report diagnostics into the
//! analyzer's sink and recover with an `any` placeholder rather than
//! failing, so one invalid construct never blocks the rest of a module.
//!
//! Scoping note: the parameter of a mapped type and an `infer` capture are
//! visible only inside their own construct here; a capture's presence is
//! tracked in the `contains_infer` metadata flag, and its binding is
//! resolved downstream when the conditional type is evaluated.

use vstd::prelude::*;

use crate::ast::{
    Pat, PatOpts, ObjPatProp, ObjPatProps, TsMembers, TsParams, TsTupleElems, TsType, TsTypeAnn,
    TsTypeArgs, TsTypeElement, TsTypeList, TsTypeParam, TsTypeParamDecl, TsTypeParams, TsExtends,
    TsQueryExpr,
};
use crate::base::{
    ATOM_ARRAY, Accessor, Atom, Ident, IdentList, Key, KeywordKind, ModuleId, Span,
    copy_entity_name, key_eq, key_eq_exec, key_is_symbol, key_span,
};
use crate::diag::Diag;
use crate::scope::{
    Scope, ScopeKind, fresh_scope, in_static_member_of_declaring_class, scope_find_type,
    scope_has_var, scope_push, scope_register,
};
use crate::types::{
    Extends, FnParam, Members, Params, Rib, TsExpr, TupleElement, TupleElems, Type, TypeArgs,
    TypeElement, TypeList, TypeMeta, TypeParam, TypeParamDecl, TypeParams, QueryExpr, ci_ty,
    ci_ty_exec, copy_type, copy_type_param, dedup_types, dedup_types_exec, fixed_union,
    fixed_intersection, freeze_params, freeze_targs_opt, freeze_type, fz_params, fz_targs_opt,
    fz_ty, make_any, make_fixed_intersection, make_fixed_union, meta_default, meta_none, meta_of,
    rib_find, set_meta, spec_any, type_meta,
};

verus! {

/// The flags of the elaboration context, threaded through every call.
#[derive(Clone, Copy, PartialEq, Eq, Structural, Debug)]
pub struct Cx {
    /// Identity of the module being elaborated.
    pub module_id: ModuleId,
    /// The builtin library is being elaborated: duplicate checks and
    /// intrinsic restrictions are off.
    pub is_builtin: bool,
    /// The node stands in true type position (an annotation, a constraint).
    pub in_actual_type: bool,
    /// The node is not the outermost type expression of its statement.
    pub is_not_topmost_type: bool,
    /// The no-implicit-any rule is active.
    pub no_implicit_any: bool,
    /// The binding stands in argument position.
    pub in_argument: bool,
    /// The binding stands in return position.
    pub in_return_arg: bool,
    /// The surrounding function declares a return type.
    pub in_fn_with_return_type: bool,
    /// The binding stands on the right-hand side of an assignment.
    pub in_assign_rhs: bool,
    /// The binding stands in an expression whose value is discarded.
    pub in_useless_expr_for_seq: bool,
    /// Implicit-any checking is forced on.
    pub check_for_implicit_any: bool,
}

impl Cx {
    /// A context for an ordinary module, everything off.
    pub fn new(module_id: ModuleId) -> (c: Cx)
        ensures
            c == cx_new(module_id),
    {
        Cx {
            module_id,
            is_builtin: false,
            in_actual_type: false,
            is_not_topmost_type: false,
            no_implicit_any: false,
            in_argument: false,
            in_return_arg: false,
            in_fn_with_return_type: false,
            in_assign_rhs: false,
            in_useless_expr_for_seq: false,
            check_for_implicit_any: false,
        }
    }
}

/// The all-off context for a module.
pub open spec fn cx_new(module_id: ModuleId) -> Cx {
    Cx {
        module_id,
        is_builtin: false,
        in_actual_type: false,
        is_not_topmost_type: false,
        no_implicit_any: false,
        in_argument: false,
        in_return_arg: false,
        in_fn_with_return_type: false,
        in_assign_rhs: false,
        in_useless_expr_for_seq: false,
        check_for_implicit_any: false,
    }
}

/// `c` with true-type position switched on.
pub open spec fn cx_actual(c: Cx) -> Cx {
    Cx { in_actual_type: true, ..c }
}

/// `c` marked as being below the outermost type expression.
pub open spec fn cx_inner(c: Cx) -> Cx {
    Cx { is_not_topmost_type: true, ..c }
}

/// Metadata of a literal type: generalization is off.
pub open spec fn lit_meta() -> TypeMeta {
    TypeMeta { prevent_generalization: true, ..meta_none() }
}

/// Metadata of a tuple type: conversion to an array is off.
pub open spec fn tuple_meta() -> TypeMeta {
    TypeMeta { prevent_tuple_to_array: true, ..meta_none() }
}

/// Metadata of an `infer` capture: it contains itself.
pub open spec fn infer_meta() -> TypeMeta {
    TypeMeta { contains_infer: true, ..meta_none() }
}

/// Metadata of a reference, with its capture flag.
pub open spec fn ref_meta(contains_infer: bool) -> TypeMeta {
    TypeMeta { contains_infer, ..meta_none() }
}

// ---------------------------------------------------------------------------
// Duplicate detection.
// ---------------------------------------------------------------------------

/// Keys already seen while scanning members.
#[derive(PartialEq, Eq, Debug)]
pub enum KeyList {
    Empty,
    More(Key, Box<KeyList>),
}

/// The first seen key structurally equal to `k`.
pub open spec fn first_keq(l: KeyList, k: Key) -> Option<Key>
    decreases l,
{
    match l {
        KeyList::Empty => Option::None,
        KeyList::More(p, rest) => if key_eq(p, k) {
            Option::Some(p)
        } else {
            first_keq(*rest, k)
        },
    }
}

/// The diagnostics of the duplicate-member scan: for each plain,
/// non-symbol-keyed property whose key repeats an earlier one, one
/// diagnostic at the earlier occurrence and one at this occurrence; the
/// repeated member itself is kept.
pub open spec fn dup_elems_go(ms: Members, prevs: KeyList) -> Seq<Diag>
    decreases ms,
{
    match ms {
        Members::Empty => Seq::empty(),
        Members::More(e, rest) => match e {
            TypeElement::Property { key, accessor, .. } => if accessor.getter || accessor.setter
                || key_is_symbol(key) {
                dup_elems_go(*rest, prevs)
            } else {
                match first_keq(prevs, key) {
                    Option::Some(prev) => seq![
                        Diag::DuplicateNameWithoutName { span: key_span(prev) },
                        Diag::DuplicateNameWithoutName { span: key_span(key) },
                    ] + dup_elems_go(*rest, prevs),
                    Option::None => dup_elems_go(*rest, KeyList::More(key, Box::new(prevs))),
                }
            },
            _ => dup_elems_go(*rest, prevs),
        },
    }
}

/// The duplicate-member diagnostics of a member list; none in builtin mode.
pub open spec fn dup_elems_diags(c: Cx, ms: Members) -> Seq<Diag> {
    if c.is_builtin {
        Seq::empty()
    } else {
        dup_elems_go(ms, KeyList::Empty)
    }
}

/// Method keys already seen, with their optionality.
#[derive(PartialEq, Eq, Debug)]
pub enum KeyOptList {
    Empty,
    More(Key, bool, Box<KeyOptList>),
}

/// The recorded optionality of the first seen method key equal to `k`.
pub open spec fn first_kopt(l: KeyOptList, k: Key) -> Option<bool>
    decreases l,
{
    match l {
        KeyOptList::Empty => Option::None,
        KeyOptList::More(p, o, rest) => if key_eq(p, k) {
            Option::Some(o)
        } else {
            first_kopt(*rest, k)
        },
    }
}

/// The diagnostics of the mixed-optionality scan: a method signature whose
/// key was already seen with the other optionality is reported.
pub open spec fn mixed_go(ms: Members, seen: KeyOptList) -> Seq<Diag>
    decreases ms,
{
    match ms {
        Members::Empty => Seq::empty(),
        Members::More(e, rest) => match e {
            TypeElement::Method { span, key, optional, .. } => match first_kopt(seen, key) {
                Option::Some(o) => if o != optional {
                    seq![Diag::OptionalAndNonOptionalMethodPropertyMixed { span }] + mixed_go(
                        *rest,
                        seen,
                    )
                } else {
                    mixed_go(*rest, seen)
                },
                Option::None => mixed_go(*rest, KeyOptList::More(key, optional, Box::new(seen))),
            },
            _ => mixed_go(*rest, seen),
        },
    }
}

/// The mixed-optionality diagnostics of a member list; none in builtin mode.
pub open spec fn mixed_diags(c: Cx, ms: Members) -> Seq<Diag> {
    if c.is_builtin {
        Seq::empty()
    } else {
        mixed_go(ms, KeyOptList::Empty)
    }
}

/// The first seen identifier with the symbol `sym`.
pub open spec fn first_sym(l: IdentList, sym: Atom) -> Option<Ident>
    decreases l,
{
    match l {
        IdentList::Empty => Option::None,
        IdentList::More(i, rest) => if i.sym == sym {
            Option::Some(i)
        } else {
            first_sym(*rest, sym)
        },
    }
}

/// The diagnostics of scanning one parameter's identifiers against the
/// identifiers seen so far, and the seen list afterwards.  A repeated name
/// is reported at the earlier occurrence and at this one.
pub open spec fn dup_ids_go(ids: IdentList, prevs: IdentList) -> (Seq<Diag>, IdentList)
    decreases ids,
{
    match ids {
        IdentList::Empty => (Seq::empty(), prevs),
        IdentList::More(i, rest) => match first_sym(prevs, i.sym) {
            Option::Some(prev) => {
                let (d, pr) = dup_ids_go(*rest, prevs);
                (
                    seq![
                        Diag::DuplicateName { span: prev.span, name: prev.sym },
                        Diag::DuplicateName { span: i.span, name: i.sym },
                    ] + d,
                    pr,
                )
            },
            Option::None => dup_ids_go(*rest, IdentList::More(i, Box::new(prevs))),
        },
    }
}

/// The diagnostics of the duplicate-parameter scan over a whole list.
pub open spec fn dup_params_go(ps: Params, prevs: IdentList) -> Seq<Diag>
    decreases ps,
{
    match ps {
        Params::Empty => Seq::empty(),
        Params::More(p, rest) => {
            let (d, prevs2) = dup_ids_go(p.ids, prevs);
            d + dup_params_go(*rest, prevs2)
        },
    }
}

/// The duplicate-parameter diagnostics of a list; none in builtin mode.
pub open spec fn dup_params_diags(c: Cx, ps: Params) -> Seq<Diag> {
    if c.is_builtin {
        Seq::empty()
    } else {
        dup_params_go(ps, IdentList::Empty)
    }
}

// ---------------------------------------------------------------------------
// Pattern helpers.
// ---------------------------------------------------------------------------

/// `a` followed by `b`.
pub open spec fn idents_append(a: IdentList, b: IdentList) -> IdentList
    decreases a,
{
    match a {
        IdentList::Empty => b,
        IdentList::More(i, rest) => IdentList::More(i, Box::new(idents_append(*rest, b))),
    }
}

/// The binding identifiers of a pattern, in source order.
pub open spec fn pat_ids(p: Pat) -> IdentList
    decreases p,
{
    match p {
        Pat::Ident { id, .. } => IdentList::More(id, Box::new(IdentList::Empty)),
        Pat::Array { elems, .. } => pat_opts_ids(*elems),
        Pat::Object { props, .. } => obj_props_ids(*props),
        Pat::Rest { arg, .. } => pat_ids(*arg),
    }
}

/// The binding identifiers of an array pattern's elements.
pub open spec fn pat_opts_ids(l: PatOpts) -> IdentList
    decreases l,
{
    match l {
        PatOpts::Empty => IdentList::Empty,
        PatOpts::More(e, rest) => idents_append(
            match e {
                Option::Some(p) => pat_ids(p),
                Option::None => IdentList::Empty,
            },
            pat_opts_ids(*rest),
        ),
    }
}

/// The binding identifiers of an object pattern's properties.
pub open spec fn obj_props_ids(l: ObjPatProps) -> IdentList
    decreases l,
{
    match l {
        ObjPatProps::Empty => IdentList::Empty,
        ObjPatProps::More(prop, rest) => idents_append(
            match prop {
                ObjPatProp::KeyValue { value, .. } => pat_ids(*value),
                ObjPatProp::Assign { key, .. } => IdentList::More(key, Box::new(IdentList::Empty)),
                ObjPatProp::Rest { .. } => IdentList::Empty,
            },
            obj_props_ids(*rest),
        ),
    }
}

/// Appends two identifier lists.
pub fn idents_append_exec(a: IdentList, b: IdentList) -> (r: IdentList)
    ensures
        r == idents_append(a, b),
    decreases a,
{
    match a {
        IdentList::Empty => b,
        IdentList::More(i, rest) => IdentList::More(i, Box::new(idents_append_exec(*rest, b))),
    }
}

/// Collects the binding identifiers of a pattern, in source order.
pub fn find_ids_in_pat(p: &Pat) -> (r: IdentList)
    ensures
        r == pat_ids(*p),
    decreases *p,
{
    match p {
        Pat::Ident { id, .. } => IdentList::More(*id, Box::new(IdentList::Empty)),
        Pat::Array { elems, .. } => pat_opts_ids_exec(elems),
        Pat::Object { props, .. } => obj_props_ids_exec(props),
        Pat::Rest { arg, .. } => find_ids_in_pat(arg),
    }
}

/// Collects the binding identifiers of an array pattern's elements.
pub fn pat_opts_ids_exec(l: &PatOpts) -> (r: IdentList)
    ensures
        r == pat_opts_ids(*l),
    decreases *l,
{
    match l {
        PatOpts::Empty => IdentList::Empty,
        PatOpts::More(e, rest) => {
            let head = match e {
                Option::Some(p) => find_ids_in_pat(p),
                Option::None => IdentList::Empty,
            };
            idents_append_exec(head, pat_opts_ids_exec(rest))
        },
    }
}

/// Collects the binding identifiers of an object pattern's properties.
pub fn obj_props_ids_exec(l: &ObjPatProps) -> (r: IdentList)
    ensures
        r == obj_props_ids(*l),
    decreases *l,
{
    match l {
        ObjPatProps::Empty => IdentList::Empty,
        ObjPatProps::More(prop, rest) => {
            let head = match prop {
                ObjPatProp::KeyValue { value, .. } => find_ids_in_pat(value),
                ObjPatProp::Assign { key, .. } => IdentList::More(
                    *key,
                    Box::new(IdentList::Empty),
                ),
                ObjPatProp::Rest { .. } => IdentList::Empty,
            };
            idents_append_exec(head, obj_props_ids_exec(rest))
        },
    }
}

/// The type annotation of a pattern, if any.
pub open spec fn pat_type_ann(p: Pat) -> Option<Box<TsType>> {
    match p {
        Pat::Ident { type_ann, .. } => type_ann,
        Pat::Array { type_ann, .. } => type_ann,
        Pat::Object { type_ann, .. } => type_ann,
        Pat::Rest { type_ann, .. } => type_ann,
    }
}

/// Whether a parameter with this pattern is required.
pub open spec fn pat_required(p: Pat) -> bool {
    match p {
        Pat::Ident { optional, .. } => !optional,
        Pat::Rest { .. } => false,
        _ => true,
    }
}

// ---------------------------------------------------------------------------
// Indexed-access resolvability.
// ---------------------------------------------------------------------------

/// Whether a member list has a plain-keyed property or method named `sym`.
pub open spec fn members_have_key(ms: Members, sym: Atom) -> bool
    decreases ms,
{
    match ms {
        Members::Empty => false,
        Members::More(e, rest) => (match e {
            TypeElement::Property { key, .. } => key matches Key::Normal { sym: s, .. } && s == sym,
            TypeElement::Method { key, .. } => key matches Key::Normal { sym: s, .. } && s == sym,
            _ => false,
        }) || members_have_key(*rest, sym),
    }
}

/// Executable member-key lookup.
pub fn members_have_key_exec(ms: &Members, sym: Atom) -> (r: bool)
    ensures
        r == members_have_key(*ms, sym),
    decreases *ms,
{
    match ms {
        Members::Empty => false,
        Members::More(e, rest) => (match e {
            TypeElement::Property { key, .. } => match key {
                Key::Normal { sym: s, .. } => *s == sym,
                _ => false,
            },
            TypeElement::Method { key, .. } => match key {
                Key::Normal { sym: s, .. } => *s == sym,
                _ => false,
            },
            _ => false,
        }) || members_have_key_exec(rest, sym),
    }
}

/// The property-resolvability diagnostics of an indexed access: an object
/// type literal indexed by a string-literal key that names none of its
/// members is reported.  Other object types are left to the downstream
/// checker.
pub open spec fn idx_diags(span: Span, obj: Type, index: Type) -> Seq<Diag> {
    if obj matches Type::TypeLit { members, .. } && index matches Type::Lit {
        lit: crate::base::Lit::Str(a),
        ..
    } && !members_have_key(*members, a) {
        seq![Diag::NoSuchProperty { span }]
    } else {
        Seq::empty()
    }
}

/// Executable property-resolvability check.
pub fn idx_diags_exec(span: Span, obj: &Type, index: &Type) -> (r: Option<Diag>)
    ensures
        match r {
            Option::Some(d) => idx_diags(span, *obj, *index) == seq![d],
            Option::None => idx_diags(span, *obj, *index) == Seq::<Diag>::empty(),
        },
{
    match (obj, index) {
        (
            Type::TypeLit { members, .. },
            Type::Lit { lit: crate::base::Lit::Str(a), .. },
        ) => {
            if !members_have_key_exec(members, *a) {
                Some(Diag::NoSuchProperty { span })
            } else {
                None
            }
        },
        _ => None,
    }
}

} // verus!

verus! {

// ---------------------------------------------------------------------------
// The elaboration function, as a specification.
//
// Each function returns the semantic value, the diagnostics reported (in
// order), and the mutation side-table afterwards.  The scope is read, and
// locally extended for constructs that bind type parameters, but never
// changed for the caller.
// ---------------------------------------------------------------------------

/// A reference value with its capture flag.
pub open spec fn mk_ref(
    span: Span,
    ctxt: ModuleId,
    name: crate::base::EntityName,
    type_args: Option<Box<TypeArgs>>,
    contains_infer: bool,
) -> Type {
    Type::Ref { span, ctxt, name, type_args, meta: ref_meta(contains_infer) }
}

/// The single type argument of an instantiation, when there is exactly one.
pub open spec fn single_targ(o: Option<Box<TypeArgs>>) -> Option<Type> {
    match o {
        Option::Some(x) => match x.params {
            TypeList::More(t, rest) => match *rest {
                TypeList::Empty => Option::Some(t),
                TypeList::More(_, _) => Option::None,
            },
            TypeList::Empty => Option::None,
        },
        Option::None => Option::None,
    }
}

/// `t` with expansion disabled at its root.
pub open spec fn prevent_expansion(t: Type) -> Type {
    crate::types::with_meta(t, TypeMeta { no_expand: true, ..meta_of(t) })
}

/// Disables expansion at the root of a value.
pub fn prevent_expansion_exec(t: Type) -> (r: Type)
    ensures
        r == prevent_expansion(t),
{
    let m = type_meta(&t);
    set_meta(
        t,
        TypeMeta {
            contains_infer: m.contains_infer,
            implicit: m.implicit,
            prevent_generalization: m.prevent_generalization,
            no_expand: true,
            prevent_tuple_to_array: m.prevent_tuple_to_array,
            frozen: m.frozen,
        },
    )
}

/// Whether a builtin property type denotes the symbol primitive.
pub open spec fn is_symbolish(t: Type) -> bool {
    t matches Type::Keyword { kind: KeywordKind::Symbol, .. } || (t matches Type::Operator {
        op: crate::base::TypeOp::Unique,
        ty,
        ..
    } && *ty matches Type::Keyword { kind: KeywordKind::Symbol, .. })
}

/// The atom of a plain key.
pub open spec fn key_sym(k: Key) -> Atom
    recommends
        k is Normal,
{
    match k {
        Key::Normal { sym, .. } => sym,
        Key::Num { val, .. } => val,
        Key::Symbol { id, .. } => id,
        Key::Computed { .. } => 0,
    }
}

/// The scope `s0` with a bare placeholder registered for every parameter
/// of `l`, in order, so that parameters may reference each other and
/// themselves ahead of resolution.
pub open spec fn tps_placeholder_scope(l: TsTypeParams, s0: Scope) -> Scope
    decreases l,
{
    match l {
        TsTypeParams::Empty => s0,
        TsTypeParams::More(p, rest) => tps_placeholder_scope(
            *rest,
            scope_register(s0, p.name.sym, Type::Param(placeholder_param(p))),
        ),
    }
}

/// The bare placeholder registered for a parameter before resolution.
pub open spec fn placeholder_param(p: TsTypeParam) -> TypeParam {
    TypeParam {
        span: p.span,
        name: p.name.sym,
        constraint: Option::None,
        default: Option::None,
        meta: meta_none(),
    }
}

/// Registering placeholders changes only the innermost frame's types.
pub proof fn lemma_placeholder_scope_frame(l: TsTypeParams, s0: Scope)
    ensures
        tps_placeholder_scope(l, s0).parent == s0.parent,
        tps_placeholder_scope(l, s0).frame.kind == s0.frame.kind,
    decreases l,
{
    match l {
        TsTypeParams::Empty => {},
        TsTypeParams::More(p, rest) => {
            lemma_placeholder_scope_frame(
                *rest,
                scope_register(s0, p.name.sym, Type::Param(placeholder_param(p))),
            );
        },
    }
}

/// Elaboration of a type expression.  The outermost expression of a
/// statement is finalized on the way out.
pub open spec fn elab_ty(t: TsType, s: Scope, c: Cx, tbl: Rib) -> (Type, Seq<Diag>, Rib)
    decreases t, 3int,
{
    let o = elab_arms(t, s, cx_inner(c), tbl);
    if !c.is_not_topmost_type {
        (fz_ty(o.0), o.1, o.2)
    } else {
        o
    }
}

/// Dispatch of elaboration over every syntax shape.
pub open spec fn elab_arms(t: TsType, s: Scope, c: Cx, tbl: Rib) -> (Type, Seq<Diag>, Rib)
    decreases t, 1int,
{
    match t {
        TsType::This { .. } => elab_this(t, s, c, tbl),
        TsType::Lit { .. } => elab_lit(t, s, c, tbl),
        TsType::Keyword { .. } => elab_keyword(t, s, c, tbl),
        TsType::Array { .. } => elab_array_ty(t, s, c, tbl),
        TsType::Tuple { .. } => elab_tuple_ty(t, s, c, tbl),
        TsType::Union { .. } => elab_union(t, s, c, tbl),
        TsType::Intersection { .. } => elab_isect(t, s, c, tbl),
        TsType::Fn { .. } => elab_fn(t, s, c, tbl),
        TsType::Constructor { .. } => elab_ctor(t, s, c, tbl),
        TsType::TypeLit { .. } => elab_typelit(t, s, c, tbl),
        TsType::Conditional { .. } => elab_cond(t, s, c, tbl),
        TsType::Mapped { .. } => elab_mapped(t, s, c, tbl),
        TsType::Operator { .. } => elab_operator(t, s, c, tbl),
        TsType::Paren { ty, .. } => elab_ty(*ty, s, c, tbl),
        TsType::Ref { .. } => elab_ref(t, s, c, tbl),
        TsType::Query { .. } => elab_query_ty(t, s, c, tbl),
        TsType::Optional { .. } => elab_optional_ty(t, s, c, tbl),
        TsType::Rest { .. } => elab_rest_ty(t, s, c, tbl),
        TsType::Infer { .. } => elab_infer_ty(t, s, c, tbl),
        TsType::IndexedAccess { .. } => elab_idx(t, s, c, tbl),
        TsType::Predicate { .. } => elab_pred(t, s, c, tbl),
        TsType::Import { .. } => elab_import_ty(t, s, c, tbl),
        TsType::Tpl { .. } => elab_tpl_ty(t, s, c, tbl),
    }
}

/// The recovery value of a shape function applied off its shape.
pub open spec fn elab_off_shape(tbl: Rib) -> (Type, Seq<Diag>, Rib) {
    (spec_any(Span { lo: 0, hi: 0 }, meta_none()), Seq::<Diag>::empty(), tbl)
}

/// Elaboration of the `this` type.
pub open spec fn elab_this(t: TsType, s: Scope, c: Cx, tbl: Rib) -> (Type, Seq<Diag>, Rib)
    decreases t, 0int,
{
    match t {
        TsType::This { span } => (
            Type::This { span, meta: meta_none() },
            Seq::<Diag>::empty(),
            tbl,
        ),
        _ => elab_off_shape(tbl),
    }
}

/// Elaboration of a literal type: generalization is disabled on it.
pub open spec fn elab_lit(t: TsType, s: Scope, c: Cx, tbl: Rib) -> (Type, Seq<Diag>, Rib)
    decreases t, 0int,
{
    match t {
        TsType::Lit { span, lit } => (
            Type::Lit { span, lit, meta: lit_meta() },
            Seq::<Diag>::empty(),
            tbl,
        ),
        _ => elab_off_shape(tbl),
    }
}

/// Elaboration of an array type.
pub open spec fn elab_array_ty(t: TsType, s: Scope, c: Cx, tbl: Rib) -> (Type, Seq<Diag>, Rib)
    decreases t, 0int,
{
    match t {
        TsType::Array { span, elem } => {
            let e = elab_ty(*elem, s, c, tbl);
            (Type::Array { span, elem: Box::new(e.0), meta: meta_none() }, e.1, e.2)
        },
        _ => elab_off_shape(tbl),
    }
}

/// Elaboration of a tuple type; the fixed-arity flag is set.
pub open spec fn elab_tuple_ty(t: TsType, s: Scope, c: Cx, tbl: Rib) -> (Type, Seq<Diag>, Rib)
    decreases t, 0int,
{
    match t {
        TsType::Tuple { span, elems } => {
            let e = elab_tuple_elems(*elems, s, c, tbl);
            (Type::Tuple { span, elems: Box::new(e.0), meta: tuple_meta() }, e.1, e.2)
        },
        _ => elab_off_shape(tbl),
    }
}

/// Elaboration of a union: members are deduplicated structurally, first
/// occurrences kept in order, and the normal form is taken.
pub open spec fn elab_union(t: TsType, s: Scope, c: Cx, tbl: Rib) -> (Type, Seq<Diag>, Rib)
    decreases t, 0int,
{
    match t {
        TsType::Union { span, types } => {
            let e = elab_list(*types, s, c, tbl);
            (fixed_union(span, dedup_types(e.0), meta_none()), e.1, e.2)
        },
        _ => elab_off_shape(tbl),
    }
}

/// Elaboration of an intersection, in member order.
pub open spec fn elab_isect(t: TsType, s: Scope, c: Cx, tbl: Rib) -> (Type, Seq<Diag>, Rib)
    decreases t, 0int,
{
    match t {
        TsType::Intersection { span, types } => {
            let e = elab_list(*types, s, c, tbl);
            (fixed_intersection(span, e.0, meta_none()), e.1, e.2)
        },
        _ => elab_off_shape(tbl),
    }
}

/// Elaboration of a type-operator node.
pub open spec fn elab_operator(t: TsType, s: Scope, c: Cx, tbl: Rib) -> (Type, Seq<Diag>, Rib)
    decreases t, 0int,
{
    match t {
        TsType::Operator { span, op, ty } => {
            let e = elab_ty(*ty, s, c, tbl);
            (Type::Operator { span, op, ty: Box::new(e.0), meta: meta_none() }, e.1, e.2)
        },
        _ => elab_off_shape(tbl),
    }
}

/// Elaboration of a `typeof` type.
pub open spec fn elab_query_ty(t: TsType, s: Scope, c: Cx, tbl: Rib) -> (Type, Seq<Diag>, Rib)
    decreases t, 0int,
{
    match t {
        TsType::Query { span, expr } => {
            let e = elab_qe(*expr, s, c, tbl);
            (Type::Query { span, expr: Box::new(e.0), meta: meta_none() }, e.1, e.2)
        },
        _ => elab_off_shape(tbl),
    }
}

/// Elaboration of an optional-element wrapper.
pub open spec fn elab_optional_ty(t: TsType, s: Scope, c: Cx, tbl: Rib) -> (Type, Seq<Diag>, Rib)
    decreases t, 0int,
{
    match t {
        TsType::Optional { span, ty } => {
            let e = elab_ty(*ty, s, c, tbl);
            (Type::Optional { span, ty: Box::new(e.0), meta: meta_none() }, e.1, e.2)
        },
        _ => elab_off_shape(tbl),
    }
}

/// Elaboration of a rest-element wrapper.
pub open spec fn elab_rest_ty(t: TsType, s: Scope, c: Cx, tbl: Rib) -> (Type, Seq<Diag>, Rib)
    decreases t, 0int,
{
    match t {
        TsType::Rest { span, ty } => {
            let e = elab_ty(*ty, s, c, tbl);
            (Type::Rest { span, ty: Box::new(e.0), meta: meta_none() }, e.1, e.2)
        },
        _ => elab_off_shape(tbl),
    }
}

/// Elaboration of an `infer` capture: the capture flag is set; binding is
/// resolved downstream when the conditional is evaluated.
pub open spec fn elab_infer_ty(t: TsType, s: Scope, c: Cx, tbl: Rib) -> (Type, Seq<Diag>, Rib)
    decreases t, 0int,
{
    match t {
        TsType::Infer { span, type_param } => {
            let e = elab_tp(type_param, s, c, tbl);
            (Type::Infer { span, type_param: e.0, meta: infer_meta() }, e.1, e.2)
        },
        _ => elab_off_shape(tbl),
    }
}

/// Elaboration of a type predicate; expansion of the asserted type is
/// disabled.
pub open spec fn elab_pred(t: TsType, s: Scope, c: Cx, tbl: Rib) -> (Type, Seq<Diag>, Rib)
    decreases t, 0int,
{
    match t {
        TsType::Predicate { span, param_name, asserts, ty } => match ty {
            Option::Some(x) => {
                let e = elab_ty(*x, s, cx_actual(c), tbl);
                (
                    Type::Predicate {
                        span,
                        param_name,
                        asserts,
                        ty: Option::Some(Box::new(prevent_expansion(e.0))),
                        meta: meta_none(),
                    },
                    e.1,
                    e.2,
                )
            },
            Option::None => (
                Type::Predicate { span, param_name, asserts, ty: Option::None, meta: meta_none() },
                Seq::<Diag>::empty(),
                tbl,
            ),
        },
        _ => elab_off_shape(tbl),
    }
}

/// Elaboration of an import type: its arguments are elaborated, the
/// imported name is carried through for module resolution.
pub open spec fn elab_import_ty(t: TsType, s: Scope, c: Cx, tbl: Rib) -> (Type, Seq<Diag>, Rib)
    decreases t, 0int,
{
    match t {
        TsType::Import { span, arg, qualifier, type_args } => {
            let g = elab_targs_opt(type_args, s, c, tbl);
            (
                Type::Import { span, arg, qualifier, type_args: g.0, meta: meta_none() },
                g.1,
                g.2,
            )
        },
        _ => elab_off_shape(tbl),
    }
}

/// Elaboration of a template-literal type.
pub open spec fn elab_tpl_ty(t: TsType, s: Scope, c: Cx, tbl: Rib) -> (Type, Seq<Diag>, Rib)
    decreases t, 0int,
{
    match t {
        TsType::Tpl { span, quasis, types } => {
            let e = elab_list(*types, s, c, tbl);
            (Type::Tpl { span, quasis, types: Box::new(e.0), meta: meta_none() }, e.1, e.2)
        },
        _ => elab_off_shape(tbl),
    }
}

/// Elaboration of a keyword type.  The `intrinsic` keyword is valid only
/// inside the builtin library; elsewhere it is reported and replaced by
/// `any`.
pub open spec fn elab_keyword(t: TsType, s: Scope, c: Cx, tbl: Rib) -> (Type, Seq<Diag>, Rib)
    decreases t, 0int,
{
    match t {
        TsType::Keyword { span, kind } => if kind is Intrinsic && !c.is_builtin {
            (
                spec_any(span, meta_none()),
                seq![Diag::IntrinsicIsBuiltinOnly { span }],
                tbl,
            )
        } else {
            (Type::Keyword { span, kind, meta: meta_none() }, Seq::<Diag>::empty(), tbl)
        },
        _ => (spec_any(Span { lo: 0, hi: 0 }, meta_none()), Seq::<Diag>::empty(), tbl),
    }
}

/// Elaboration of a function type: the parameter list is defaulted into
/// the side-table, the parameters are finalized, and the type parameters
/// scope over parameters and return type.
pub open spec fn elab_fn(t: TsType, s: Scope, c: Cx, tbl: Rib) -> (Type, Seq<Diag>, Rib)
    decreases t, 0int,
{
    match t {
        TsType::Fn { span, type_params, params, ret } => {
            let g = elab_tpd_opt(type_params, s, c, tbl);
            let dp = crate::pat_default::dflt_params(*params, c, g.2);
            let ep = elab_params(*params, g.3, c, dp.1);
            let er = elab_ty(*ret, g.3, c, ep.2);
            (
                Type::Function {
                    span,
                    type_params: g.0,
                    params: Box::new(fz_params(ep.0)),
                    ret_ty: Box::new(er.0),
                    meta: meta_none(),
                },
                g.1 + dp.0 + ep.1 + er.1,
                er.2,
            )
        },
        _ => (spec_any(Span { lo: 0, hi: 0 }, meta_none()), Seq::<Diag>::empty(), tbl),
    }
}

/// Elaboration of a constructor type, mirroring the function case without
/// finalizing the parameters.
pub open spec fn elab_ctor(t: TsType, s: Scope, c: Cx, tbl: Rib) -> (Type, Seq<Diag>, Rib)
    decreases t, 0int,
{
    match t {
        TsType::Constructor { span, type_params, params, ret, is_abstract } => {
            let g = elab_tpd_opt(type_params, s, c, tbl);
            let dp = crate::pat_default::dflt_params(*params, c, g.2);
            let ep = elab_params(*params, g.3, c, dp.1);
            let er = elab_ty(*ret, g.3, c, ep.2);
            (
                Type::Constructor {
                    span,
                    type_params: g.0,
                    params: Box::new(ep.0),
                    ret_ty: Box::new(er.0),
                    is_abstract,
                    meta: meta_none(),
                },
                g.1 + dp.0 + ep.1 + er.1,
                er.2,
            )
        },
        _ => (spec_any(Span { lo: 0, hi: 0 }, meta_none()), Seq::<Diag>::empty(), tbl),
    }
}

/// Elaboration of an object type literal: members are elaborated, then
/// scanned for duplicate keys and mixed method optionality; offending
/// members are reported but kept.
pub open spec fn elab_typelit(t: TsType, s: Scope, c: Cx, tbl: Rib) -> (Type, Seq<Diag>, Rib)
    decreases t, 0int,
{
    match t {
        TsType::TypeLit { span, members } => {
            let em = elab_members(*members, s, c, tbl);
            (
                Type::TypeLit { span, members: Box::new(em.0), specified: true, meta: meta_none() },
                em.1 + dup_elems_diags(c, em.0) + mixed_diags(c, em.0),
                em.2,
            )
        },
        _ => (spec_any(Span { lo: 0, hi: 0 }, meta_none()), Seq::<Diag>::empty(), tbl),
    }
}

/// Elaboration of a conditional type: `check`, `extends`, `true`, `false`
/// in exactly that order and exactly once each; the result's
/// `contains_infer` flag records whether any branch holds an `infer`
/// capture.
pub open spec fn elab_cond(t: TsType, s: Scope, c: Cx, tbl: Rib) -> (Type, Seq<Diag>, Rib)
    decreases t, 0int,
{
    match t {
        TsType::Conditional { span, check_ty, extends_ty, true_ty, false_ty } => {
            let e1 = elab_ty(*check_ty, s, c, tbl);
            let e2 = elab_ty(*extends_ty, s, c, e1.2);
            let e3 = elab_ty(*true_ty, s, c, e2.2);
            let e4 = elab_ty(*false_ty, s, c, e3.2);
            (
                Type::Conditional {
                    span,
                    check_ty: Box::new(e1.0),
                    extends_ty: Box::new(e2.0),
                    true_ty: Box::new(e3.0),
                    false_ty: Box::new(e4.0),
                    meta: TypeMeta {
                        contains_infer: ci_ty(e1.0) || ci_ty(e2.0) || ci_ty(e3.0) || ci_ty(e4.0),
                        ..meta_none()
                    },
                },
                e1.1 + e2.1 + e3.1 + e4.1,
                e4.2,
            )
        },
        _ => (spec_any(Span { lo: 0, hi: 0 }, meta_none()), Seq::<Diag>::empty(), tbl),
    }
}

/// Elaboration of a mapped type: its parameter scopes only over the
/// mapped type itself.
pub open spec fn elab_mapped(t: TsType, s: Scope, c: Cx, tbl: Rib) -> (Type, Seq<Diag>, Rib)
    decreases t, 0int,
{
    match t {
        TsType::Mapped { span, readonly, optional, type_param, name_ty, ty } => {
            let etp = elab_tp(type_param, s, c, tbl);
            let s2 = scope_register(
                scope_push(s, ScopeKind::TypeParams),
                type_param.name.sym,
                Type::Param(etp.0),
            );
            let en = elab_opt_plain(name_ty, s2, c, etp.2);
            let et = elab_opt_plain(ty, s2, c, en.2);
            (
                Type::Mapped {
                    span,
                    readonly,
                    optional,
                    name_ty: en.0,
                    type_param: etp.0,
                    ty: et.0,
                    meta: meta_none(),
                },
                etp.1 + en.1 + et.1,
                et.2,
            )
        },
        _ => (spec_any(Span { lo: 0, hi: 0 }, meta_none()), Seq::<Diag>::empty(), tbl),
    }
}

/// Elaboration of a type reference.
///
/// `Array` with exactly one type argument canonicalizes to the array
/// variant.  A name that resolves to a type-parameter placeholder is
/// returned directly so parameter identity survives aliasing.  An
/// unresolved name with a same-named variable in scope gets the specific
/// diagnostic, and the generic one otherwise; either way a dangling
/// reference value is produced for the downstream checker to retry.  A
/// qualified name is resolved by its leftmost identifier: when that head
/// names nothing, the generic diagnostic is reported.
pub open spec fn elab_ref(t: TsType, s: Scope, c: Cx, tbl: Rib) -> (Type, Seq<Diag>, Rib)
    decreases t, 0int,
{
    match t {
        TsType::Ref { span, name, type_args } => {
            let g = elab_targs_opt(type_args, s, c, tbl);
            let targs = fz_targs_opt(g.0);
            match name {
                crate::base::EntityName::Ident(i) => {
                    if i.sym == ATOM_ARRAY && single_targ(targs) is Some {
                        (
                            Type::Array {
                                span,
                                elem: Box::new(single_targ(targs)->Some_0),
                                meta: meta_none(),
                            },
                            g.1,
                            g.2,
                        )
                    } else {
                        let sd = if in_static_member_of_declaring_class(s, i.sym) {
                            seq![Diag::StaticMemberCannotUseTypeParamOfClass { span: i.span }]
                        } else {
                            Seq::<Diag>::empty()
                        };
                        match scope_find_type(s, i.sym) {
                            Option::Some(found) => if found is Param {
                                (found, g.1 + sd, g.2)
                            } else {
                                (
                                    mk_ref(span, c.module_id, name, targs, ci_ty(found)),
                                    g.1 + sd,
                                    g.2,
                                )
                            },
                            Option::None => {
                                let vd = if !c.is_builtin && c.in_actual_type && scope_has_var(
                                    s,
                                    i.sym,
                                ) {
                                    seq![Diag::NoSuchTypeButVarExists { span, name: i.sym }]
                                } else if !c.is_builtin {
                                    seq![Diag::NoSuchType { span, name: i.sym }]
                                } else {
                                    Seq::<Diag>::empty()
                                };
                                (mk_ref(span, c.module_id, name, targs, false), g.1 + sd + vd, g.2)
                            },
                        }
                    }
                },
                crate::base::EntityName::Qualified { .. } => {
                    let lm = crate::base::entity_leftmost(name);
                    let qd = if !c.is_builtin && scope_find_type(s, lm.sym) is None {
                        seq![Diag::NoSuchType { span, name: lm.sym }]
                    } else {
                        Seq::<Diag>::empty()
                    };
                    (mk_ref(span, c.module_id, name, targs, false), g.1 + qd, g.2)
                },
            }
        },
        _ => (spec_any(Span { lo: 0, hi: 0 }, meta_none()), Seq::<Diag>::empty(), tbl),
    }
}

/// Elaboration of an indexed access: outside the builtin library, a
/// string-literal key that a type literal cannot resolve is reported; the
/// structural value is produced regardless.
pub open spec fn elab_idx(t: TsType, s: Scope, c: Cx, tbl: Rib) -> (Type, Seq<Diag>, Rib)
    decreases t, 0int,
{
    match t {
        TsType::IndexedAccess { span, readonly, obj_ty, index_ty } => {
            let eo = elab_ty(*obj_ty, s, c, tbl);
            let ei = elab_ty(*index_ty, s, c, eo.2);
            let index = fz_ty(ei.0);
            let d = if !c.is_builtin {
                idx_diags(span, eo.0, index)
            } else {
                Seq::<Diag>::empty()
            };
            (
                Type::IndexedAccess {
                    span,
                    readonly,
                    obj_ty: Box::new(eo.0),
                    index_ty: Box::new(index),
                    meta: meta_none(),
                },
                eo.1 + ei.1 + d,
                ei.2,
            )
        },
        _ => (spec_any(Span { lo: 0, hi: 0 }, meta_none()), Seq::<Diag>::empty(), tbl),
    }
}

/// Elaboration of the members of a type list, in order.
pub open spec fn elab_list(l: TsTypeList, s: Scope, c: Cx, tbl: Rib) -> (TypeList, Seq<Diag>, Rib)
    decreases l, 1int,
{
    match l {
        TsTypeList::Empty => (TypeList::Empty, Seq::<Diag>::empty(), tbl),
        TsTypeList::More(t, rest) => {
            let e = elab_ty(t, s, c, tbl);
            let er = elab_list(*rest, s, c, e.2);
            (TypeList::More(e.0, Box::new(er.0)), e.1 + er.1, er.2)
        },
    }
}

/// Elaboration of tuple elements, labels kept.
pub open spec fn elab_tuple_elems(l: TsTupleElems, s: Scope, c: Cx, tbl: Rib) -> (
    TupleElems,
    Seq<Diag>,
    Rib,
)
    decreases l, 1int,
{
    match l {
        TsTupleElems::Empty => (TupleElems::Empty, Seq::<Diag>::empty(), tbl),
        TsTupleElems::More(e, rest) => {
            let et = elab_ty(e.ty, s, c, tbl);
            let er = elab_tuple_elems(*rest, s, c, et.2);
            (
                TupleElems::More(
                    TupleElement { span: e.span, label: e.label, ty: et.0 },
                    Box::new(er.0),
                ),
                et.1 + er.1,
                er.2,
            )
        },
    }
}

/// Elaboration of optional type arguments.
pub open spec fn elab_targs_opt(o: Option<Box<TsTypeArgs>>, s: Scope, c: Cx, tbl: Rib) -> (
    Option<Box<TypeArgs>>,
    Seq<Diag>,
    Rib,
)
    decreases o, 2int,
{
    match o {
        Option::Some(x) => {
            let e = elab_list(x.params, s, cx_actual(c), tbl);
            (
                Option::Some(Box::new(TypeArgs { span: x.span, params: e.0 })),
                e.1,
                e.2,
            )
        },
        Option::None => (Option::None, Seq::<Diag>::empty(), tbl),
    }
}

/// Elaboration of a `typeof` operand.
pub open spec fn elab_qe(q: TsQueryExpr, s: Scope, c: Cx, tbl: Rib) -> (QueryExpr, Seq<Diag>, Rib)
    decreases q, 1int,
{
    match q {
        TsQueryExpr::Name(n) => (QueryExpr::Name(n), Seq::<Diag>::empty(), tbl),
        TsQueryExpr::Import { span, arg, qualifier, type_args } => {
            let g = elab_targs_opt(type_args, s, c, tbl);
            (QueryExpr::Import { span, arg, qualifier, type_args: g.0 }, g.1, g.2)
        },
    }
}

/// Elaboration of one generic parameter: constraint and default are
/// elaborated in true type position and finalized.
pub open spec fn elab_tp(p: TsTypeParam, s: Scope, c: Cx, tbl: Rib) -> (TypeParam, Seq<Diag>, Rib)
    decreases p, 1int,
{
    let e1 = elab_opt_frozen(p.constraint, s, cx_actual(c), tbl);
    let e2 = elab_opt_frozen(p.default, s, cx_actual(c), e1.2);
    (
        TypeParam {
            span: p.span,
            name: p.name.sym,
            constraint: e1.0,
            default: e2.0,
            meta: meta_none(),
        },
        e1.1 + e2.1,
        e2.2,
    )
}

/// Elaboration of an optional type, finalized.
pub open spec fn elab_opt_frozen(o: Option<Box<TsType>>, s: Scope, c: Cx, tbl: Rib) -> (
    Option<Box<Type>>,
    Seq<Diag>,
    Rib,
)
    decreases o, 1int,
{
    match o {
        Option::Some(x) => {
            let e = elab_ty(*x, s, c, tbl);
            (Option::Some(Box::new(fz_ty(e.0))), e.1, e.2)
        },
        Option::None => (Option::None, Seq::<Diag>::empty(), tbl),
    }
}

/// Elaboration of an optional type, as is.
pub open spec fn elab_opt_plain(o: Option<Box<TsType>>, s: Scope, c: Cx, tbl: Rib) -> (
    Option<Box<Type>>,
    Seq<Diag>,
    Rib,
)
    decreases o, 1int,
{
    match o {
        Option::Some(x) => {
            let e = elab_ty(*x, s, c, tbl);
            (Option::Some(Box::new(e.0)), e.1, e.2)
        },
        Option::None => (Option::None, Seq::<Diag>::empty(), tbl),
    }
}

/// Elaboration of an optional annotation, in true type position.
pub open spec fn elab_opt_ann(o: Option<Box<TsType>>, s: Scope, c: Cx, tbl: Rib) -> (
    Option<Box<Type>>,
    Seq<Diag>,
    Rib,
)
    decreases o, 1int,
{
    match o {
        Option::Some(x) => {
            let e = elab_ty(*x, s, cx_actual(c), tbl);
            (Option::Some(Box::new(e.0)), e.1, e.2)
        },
        Option::None => (Option::None, Seq::<Diag>::empty(), tbl),
    }
}

/// Elaboration of a generic parameter list against a fixed scope.
pub open spec fn elab_tps(l: TsTypeParams, s: Scope, c: Cx, tbl: Rib) -> (
    TypeParams,
    Seq<Diag>,
    Rib,
)
    decreases l, 2int,
{
    match l {
        TsTypeParams::Empty => (TypeParams::Empty, Seq::<Diag>::empty(), tbl),
        TsTypeParams::More(p, rest) => {
            let e = elab_tp(p, s, c, tbl);
            let er = elab_tps(*rest, s, c, e.2);
            (TypeParams::More(e.0, Box::new(er.0)), e.1 + er.1, er.2)
        },
    }
}

/// Structural elaboration of a signature-level generic parameter list:
/// a fresh frame is pushed, every parameter is pre-registered as a
/// placeholder, and constraints and defaults are then elaborated against
/// that frame.  The returned scope is the one the signature's body sees.
/// (Two-pass constraint re-expansion and duplicate detection belong to
/// the declaration-level resolver.)
pub open spec fn elab_tpd(d: TsTypeParamDecl, s: Scope, c: Cx, tbl: Rib) -> (
    TypeParamDecl,
    Seq<Diag>,
    Rib,
    Scope,
)
    decreases d, 3int,
{
    let s2 = tps_placeholder_scope(d.params, scope_push(s, ScopeKind::TypeParams));
    let e = elab_tps(d.params, s2, c, tbl);
    (TypeParamDecl { span: d.span, params: e.0 }, e.1, e.2, s2)
}

/// Elaboration of an optional signature-level generic parameter list;
/// the returned scope is unchanged when there is none.
pub open spec fn elab_tpd_opt(o: Option<TsTypeParamDecl>, s: Scope, c: Cx, tbl: Rib) -> (
    Option<TypeParamDecl>,
    Seq<Diag>,
    Rib,
    Scope,
)
    decreases o, 4int,
{
    match o {
        Option::Some(d) => {
            let e = elab_tpd(d, s, c, tbl);
            (Option::Some(e.0), e.1, e.2, e.3)
        },
        Option::None => (Option::None, Seq::<Diag>::empty(), tbl, s),
    }
}

/// Elaboration of one signature parameter: its type is the annotation if
/// present, else the placeholder recorded for it in the side-table, else
/// an implicit `any`.
pub open spec fn elab_fn_param(p: Pat, s: Scope, c: Cx, tbl: Rib) -> (FnParam, Seq<Diag>, Rib)
    decreases p, 1int,
{
    let e = match pat_type_ann(p) {
        Option::Some(x) => {
            let r = elab_ty(*x, s, cx_actual(c), tbl);
            (r.0, r.1, r.2)
        },
        Option::None => match rib_find(tbl, crate::pat_default::pat_node_id(p)) {
            Option::Some(t) => (t, Seq::<Diag>::empty(), tbl),
            Option::None => (
                spec_any(Span { lo: 0, hi: 0 }, crate::pat_default::implicit_meta()),
                Seq::<Diag>::empty(),
                tbl,
            ),
        },
    };
    (
        FnParam {
            span: crate::pat_default::pat_span(p),
            required: pat_required(p),
            ids: pat_ids(p),
            ty: Box::new(e.0),
        },
        e.1,
        e.2,
    )
}

/// Elaboration of a signature parameter list, in order.
pub open spec fn elab_params(l: TsParams, s: Scope, c: Cx, tbl: Rib) -> (Params, Seq<Diag>, Rib)
    decreases l, 2int,
{
    match l {
        TsParams::Empty => (Params::Empty, Seq::<Diag>::empty(), tbl),
        TsParams::More(p, rest) => {
            let e = elab_fn_param(p, s, c, tbl);
            let er = elab_params(*rest, s, c, e.2);
            (Params::More(e.0, Box::new(er.0)), e.1 + er.1, er.2)
        },
    }
}

/// Elaboration of one member of a type literal or interface body.
pub open spec fn elab_member(e: TsTypeElement, s: Scope, c: Cx, tbl: Rib) -> (
    TypeElement,
    Seq<Diag>,
    Rib,
)
    decreases e, 5int,
{
    match e {
        TsTypeElement::Call { span, params, type_params, type_ann } => {
            let g = elab_tpd_opt(type_params, s, c, tbl);
            let ep = elab_params(params, g.3, c, g.2);
            let er = elab_opt_ann(type_ann, g.3, c, ep.2);
            (
                TypeElement::Call { span, params: ep.0, type_params: g.0, ret_ty: er.0 },
                g.1 + ep.1 + er.1 + dup_params_diags(c, ep.0),
                er.2,
            )
        },
        TsTypeElement::Constructor { span, params, type_params, type_ann } => {
            let g = elab_tpd_opt(type_params, s, c, tbl);
            let ep = elab_params(params, g.3, c, g.2);
            let er = elab_opt_ann(type_ann, g.3, c, ep.2);
            (
                TypeElement::Constructor { span, params: ep.0, type_params: g.0, ret_ty: er.0 },
                g.1 + ep.1 + er.1,
                er.2,
            )
        },
        TsTypeElement::Index { span, readonly, is_static, params, type_ann } => {
            let ep = elab_params(params, s, c, tbl);
            let er = elab_opt_ann(type_ann, s, c, ep.2);
            (
                TypeElement::Index { span, readonly, is_static, params: ep.0, type_ann: er.0 },
                ep.1 + er.1,
                er.2,
            )
        },
        TsTypeElement::Method { span, key, readonly, optional, params, type_params, type_ann } => {
            let s1 = scope_push(s, ScopeKind::Fn);
            let g = elab_tpd_opt(type_params, s1, c, tbl);
            let ep = elab_params(params, g.3, c, g.2);
            let er = elab_opt_ann(type_ann, g.3, c, ep.2);
            (
                TypeElement::Method {
                    span,
                    key,
                    readonly,
                    optional,
                    params: ep.0,
                    type_params: g.0,
                    ret_ty: er.0,
                },
                g.1 + ep.1 + dup_params_diags(c, ep.0) + er.1,
                er.2,
            )
        },
        TsTypeElement::Property {
            span,
            key,
            readonly,
            optional,
            accessor,
            params,
            type_params,
            type_ann,
        } => {
            let g = elab_tpd_opt(type_params, s, c, tbl);
            let ep = elab_params(params, g.3, c, g.2);
            let ea = elab_prop_ann(span, key, type_ann, g.3, c, ep.2);
            (
                TypeElement::Property {
                    span,
                    key,
                    readonly,
                    optional,
                    accessor,
                    params: ep.0,
                    type_ann: ea.0,
                    type_params: g.0,
                },
                g.1 + ep.1 + ea.1,
                ea.2,
            )
        },
    }
}

/// Elaboration of a property's annotation: a missing annotation becomes an
/// `any` placeholder at the property's span, and in builtin mode a
/// symbol-typed property becomes a known symbol named by its key.
pub open spec fn elab_prop_ann(
    span: Span,
    key: Key,
    o: Option<Box<TsType>>,
    s: Scope,
    c: Cx,
    tbl: Rib,
) -> (Option<Box<Type>>, Seq<Diag>, Rib)
    decreases o, 1int,
{
    match o {
        Option::Some(x) => {
            let e = elab_ty(*x, s, cx_actual(c), tbl);
            let t0 = if c.is_builtin && is_symbolish(e.0) && key is Normal {
                Type::Symbol { span: Span { lo: 0, hi: 0 }, id: key_sym(key), meta: meta_none() }
            } else {
                e.0
            };
            (Option::Some(Box::new(t0)), e.1, e.2)
        },
        Option::None => (
            Option::Some(Box::new(spec_any(span, meta_none()))),
            Seq::<Diag>::empty(),
            tbl,
        ),
    }
}

/// Elaboration of a member list, in order.
pub open spec fn elab_members(l: TsMembers, s: Scope, c: Cx, tbl: Rib) -> (Members, Seq<Diag>, Rib)
    decreases l, 6int,
{
    match l {
        TsMembers::Empty => (Members::Empty, Seq::<Diag>::empty(), tbl),
        TsMembers::More(e, rest) => {
            let ee = elab_member(e, s, c, tbl);
            let er = elab_members(*rest, s, c, ee.2);
            (Members::More(ee.0, Box::new(er.0)), ee.1 + er.1, er.2)
        },
    }
}

/// Elaboration of interface `extends` clauses: the type arguments are
/// elaborated; the named parents are left for interface resolution.
pub open spec fn elab_extends(l: TsExtends, s: Scope, c: Cx, tbl: Rib) -> (Extends, Seq<Diag>, Rib)
    decreases l, 3int,
{
    match l {
        TsExtends::Empty => (Extends::Empty, Seq::<Diag>::empty(), tbl),
        TsExtends::More(e, rest) => {
            let g = elab_targs_opt(e.type_args, s, c, tbl);
            let er = elab_extends(*rest, s, c, g.2);
            (
                Extends::More(
                    TsExpr { span: e.span, expr: e.expr, type_args: g.0 },
                    Box::new(er.0),
                ),
                g.1 + er.1,
                er.2,
            )
        },
    }
}

/// Elaboration of a type annotation: its type in true type position.
pub open spec fn elab_type_ann(a: TsTypeAnn, s: Scope, c: Cx, tbl: Rib) -> (Type, Seq<Diag>, Rib)
    decreases a, 2int,
{
    elab_ty(*a.ty, s, cx_actual(c), tbl)
}

} // verus!

verus! {

// ---------------------------------------------------------------------------
// The analyzer: context, scope, diagnostic sink and mutation side-table.
// ---------------------------------------------------------------------------

/// The per-module elaboration state.
pub struct Analyzer {
    /// Context flags.
    pub cx: Cx,
    /// The lexical scope chain.
    pub scope: Scope,
    /// The diagnostic sink; diagnostics are only ever appended.
    pub storage: Vec<Diag>,
    /// The mutation side-table of inferred pattern types, keyed by node
    /// identity.
    pub mutations: Rib,
}

impl Analyzer {
    /// A fresh analyzer for one module.
    pub fn new(module_id: ModuleId) -> (a: Analyzer)
        ensures
            a.cx == cx_new(module_id),
            a.scope == fresh_scope(ScopeKind::Module),
            a.storage@ == Seq::<Diag>::empty(),
            a.mutations == Rib::Empty,
    {
        Analyzer {
            cx: Cx::new(module_id),
            scope: Scope::new(ScopeKind::Module),
            storage: Vec::new(),
            mutations: Rib::Empty,
        }
    }

    /// Appends one diagnostic to the sink.
    pub fn report(&mut self, d: Diag)
        ensures
            final(self).storage@ == old(self).storage@ + seq![d],
            final(self).cx == old(self).cx,
            final(self).scope == old(self).scope,
            final(self).mutations == old(self).mutations,
    {
        self.storage.push(d);
    }

    /// Takes the scope out, leaving a throwaway in its place.
    fn scope_take(&mut self) -> (s: Scope)
        ensures
            s == old(self).scope,
            final(self).cx == old(self).cx,
            final(self).storage == old(self).storage,
            final(self).mutations == old(self).mutations,
    {
        let mut tmp = Scope::new(ScopeKind::Module);
        core::mem::swap(&mut tmp, &mut self.scope);
        tmp
    }

    /// Registers `ty` under `name` in the innermost frame.
    pub fn register_type(&mut self, name: Atom, ty: Type)
        ensures
            final(self).scope == scope_register(old(self).scope, name, ty),
            final(self).cx == old(self).cx,
            final(self).storage == old(self).storage,
            final(self).mutations == old(self).mutations,
    {
        let s = self.scope_take();
        let Scope { frame, parent } = s;
        let crate::scope::ScopeFrame { kind, types, vars, declaring_type_params } = frame;
        self.scope = Scope {
            frame: crate::scope::ScopeFrame {
                kind,
                types: Rib::More(name, ty, Box::new(types)),
                vars,
                declaring_type_params,
            },
            parent,
        };
    }

    /// Declares a variable named `name` in the innermost frame.
    pub fn declare_var(&mut self, name: Atom)
        ensures
            final(self).scope == crate::scope::scope_declare_var(old(self).scope, name),
            final(self).cx == old(self).cx,
            final(self).storage == old(self).storage,
            final(self).mutations == old(self).mutations,
    {
        let s = self.scope_take();
        let Scope { frame, parent } = s;
        let crate::scope::ScopeFrame { kind, types, vars, declaring_type_params } = frame;
        self.scope = Scope {
            frame: crate::scope::ScopeFrame {
                kind,
                types,
                vars: crate::base::AtomList::More(name, Box::new(vars)),
                declaring_type_params,
            },
            parent,
        };
    }

    /// Enters a lexical construct: pushes an empty frame.
    pub fn push_scope(&mut self, kind: ScopeKind)
        ensures
            final(self).scope == scope_push(old(self).scope, kind),
            final(self).cx == old(self).cx,
            final(self).storage == old(self).storage,
            final(self).mutations == old(self).mutations,
    {
        let s = self.scope_take();
        self.scope = Scope {
            frame: crate::scope::ScopeFrame {
                kind,
                types: Rib::Empty,
                vars: crate::base::AtomList::Empty,
                declaring_type_params: crate::base::AtomList::Empty,
            },
            parent: Some(Box::new(s)),
        };
    }

    /// Leaves a lexical construct: drops the innermost frame.
    pub fn pop_scope(&mut self)
        requires
            old(self).scope.parent is Some,
        ensures
            old(self).scope.parent == Option::Some(Box::new(final(self).scope)),
            final(self).cx == old(self).cx,
            final(self).storage == old(self).storage,
            final(self).mutations == old(self).mutations,
    {
        let s = self.scope_take();
        match s.parent {
            Option::Some(p) => {
                self.scope = *p;
            },
            Option::None => {
                proof {
                    assert(false);
                }
            },
        }
    }
}

} // verus!

verus! {

/// Builds a reference's metadata with its capture flag.
pub fn ref_meta_exec(contains_infer: bool) -> (m: TypeMeta)
    ensures
        m == ref_meta(contains_infer),
{
    TypeMeta {
        contains_infer,
        implicit: false,
        prevent_generalization: false,
        no_expand: false,
        prevent_tuple_to_array: false,
        frozen: false,
    }
}

/// Whether an instantiation carries exactly one type argument.
pub fn targs_is_single(o: &Option<Box<TypeArgs>>) -> (r: bool)
    ensures
        r == (single_targ(*o) is Some),
{
    match o {
        Option::Some(x) => match &x.params {
            TypeList::More(_, rest) => match &**rest {
                TypeList::Empty => true,
                TypeList::More(_, _) => false,
            },
            TypeList::Empty => false,
        },
        Option::None => false,
    }
}

impl Analyzer {
    /// Reports the first registered key structurally equal to `k`, if any.
    fn first_keq_exec(l: &KeyList, k: &Key) -> (r: Option<Key>)
        ensures
            r == first_keq(*l, *k),
        decreases *l,
    {
        match l {
            KeyList::Empty => None,
            KeyList::More(p, rest) => {
                if key_eq_exec(p, k) {
                    Some(*p)
                } else {
                    Self::first_keq_exec(rest, k)
                }
            },
        }
    }

    /// Walks members reporting duplicate plain keys against those seen.
    fn dup_elems_walk(&mut self, ms: &Members, prevs: KeyList)
        ensures
            final(self).storage@ == old(self).storage@ + dup_elems_go(*ms, prevs),
            final(self).cx == old(self).cx,
            final(self).scope == old(self).scope,
            final(self).mutations == old(self).mutations,
        decreases *ms,
    {
        match ms {
            Members::Empty => {},
            Members::More(e, rest) => match e {
                TypeElement::Property { key, accessor, .. } => {
                    if accessor.getter || accessor.setter || (match key {
                        Key::Symbol { .. } => true,
                        _ => false,
                    }) {
                        self.dup_elems_walk(rest, prevs);
                    } else {
                        match Self::first_keq_exec(&prevs, key) {
                            Option::Some(prev) => {
                                self.report(
                                    Diag::DuplicateNameWithoutName { span: prev.span() },
                                );
                                self.report(Diag::DuplicateNameWithoutName { span: key.span() });
                                self.dup_elems_walk(rest, prevs);
                            },
                            Option::None => {
                                self.dup_elems_walk(rest, KeyList::More(*key, Box::new(prevs)));
                            },
                        }
                    }
                },
                _ => {
                    self.dup_elems_walk(rest, prevs);
                },
            },
        }
    }

    /// Reports duplicate structural members: plain, non-symbol-keyed
    /// properties sharing a key are reported at both occurrences and kept.
    pub fn report_error_for_duplicate_type_elements(&mut self, elems: &Members)
        ensures
            final(self).storage@ == old(self).storage@ + dup_elems_diags(old(self).cx, *elems),
            final(self).cx == old(self).cx,
            final(self).scope == old(self).scope,
            final(self).mutations == old(self).mutations,
    {
        if self.cx.is_builtin {
            return ;
        }
        self.dup_elems_walk(elems, KeyList::Empty);
    }

    /// The recorded optionality of the first seen method key equal to `k`.
    fn first_kopt_exec(l: &KeyOptList, k: &Key) -> (r: Option<bool>)
        ensures
            r == first_kopt(*l, *k),
        decreases *l,
    {
        match l {
            KeyOptList::Empty => None,
            KeyOptList::More(p, o, rest) => {
                if key_eq_exec(p, k) {
                    Some(*o)
                } else {
                    Self::first_kopt_exec(rest, k)
                }
            },
        }
    }

    /// Walks members reporting method keys seen with both optionalities.
    fn mixed_walk(&mut self, ms: &Members, seen: KeyOptList)
        ensures
            final(self).storage@ == old(self).storage@ + mixed_go(*ms, seen),
            final(self).cx == old(self).cx,
            final(self).scope == old(self).scope,
            final(self).mutations == old(self).mutations,
        decreases *ms,
    {
        match ms {
            Members::Empty => {},
            Members::More(e, rest) => match e {
                TypeElement::Method { span, key, optional, .. } => {
                    match Self::first_kopt_exec(&seen, key) {
                        Option::Some(o) => {
                            if o != *optional {
                                self.report(
                                    Diag::OptionalAndNonOptionalMethodPropertyMixed {
                                        span: *span,
                                    },
                                );
                            }
                            self.mixed_walk(rest, seen);
                        },
                        Option::None => {
                            self.mixed_walk(
                                rest,
                                KeyOptList::More(*key, *optional, Box::new(seen)),
                            );
                        },
                    }
                },
                _ => {
                    self.mixed_walk(rest, seen);
                },
            },
        }
    }

    /// Reports method signatures that mix optional and required forms for
    /// one key.
    pub fn report_errors_for_mixed_optional_method_signatures(&mut self, elems: &Members)
        ensures
            final(self).storage@ == old(self).storage@ + mixed_diags(old(self).cx, *elems),
            final(self).cx == old(self).cx,
            final(self).scope == old(self).scope,
            final(self).mutations == old(self).mutations,
    {
        if self.cx.is_builtin {
            return ;
        }
        self.mixed_walk(elems, KeyOptList::Empty);
    }

    /// The first seen identifier with the symbol `sym`.
    fn first_sym_exec(l: &IdentList, sym: Atom) -> (r: Option<Ident>)
        ensures
            r == first_sym(*l, sym),
        decreases *l,
    {
        match l {
            IdentList::Empty => None,
            IdentList::More(i, rest) => {
                if i.sym == sym {
                    Some(*i)
                } else {
                    Self::first_sym_exec(rest, sym)
                }
            },
        }
    }

    /// Scans one parameter's identifiers against those seen, reporting
    /// repeats at both occurrences; returns the seen list afterwards.
    fn dup_ids_walk(&mut self, ids: &IdentList, prevs: IdentList) -> (r: IdentList)
        ensures
            ({
                let o = dup_ids_go(*ids, prevs);
                final(self).storage@ == old(self).storage@ + o.0 && r == o.1
            }),
            final(self).cx == old(self).cx,
            final(self).scope == old(self).scope,
            final(self).mutations == old(self).mutations,
        decreases *ids,
    {
        match ids {
            IdentList::Empty => prevs,
            IdentList::More(i, rest) => match Self::first_sym_exec(&prevs, i.sym) {
                Option::Some(prev) => {
                    self.report(Diag::DuplicateName { span: prev.span, name: prev.sym });
                    self.report(Diag::DuplicateName { span: i.span, name: i.sym });
                    self.dup_ids_walk(rest, prevs)
                },
                Option::None => self.dup_ids_walk(rest, IdentList::More(*i, Box::new(prevs))),
            },
        }
    }

    /// Walks a parameter list reporting duplicate binding names.
    fn dup_params_walk(&mut self, ps: &Params, prevs: IdentList)
        ensures
            final(self).storage@ == old(self).storage@ + dup_params_go(*ps, prevs),
            final(self).cx == old(self).cx,
            final(self).scope == old(self).scope,
            final(self).mutations == old(self).mutations,
        decreases *ps,
    {
        match ps {
            Params::Empty => {},
            Params::More(p, rest) => {
                let prevs2 = self.dup_ids_walk(&p.ids, prevs);
                self.dup_params_walk(rest, prevs2);
            },
        }
    }

    /// Reports duplicate parameter names across a whole signature.
    pub fn report_error_for_duplicate_params(&mut self, params: &Params)
        ensures
            final(self).storage@ == old(self).storage@ + dup_params_diags(old(self).cx, *params),
            final(self).cx == old(self).cx,
            final(self).scope == old(self).scope,
            final(self).mutations == old(self).mutations,
    {
        if self.cx.is_builtin {
            return ;
        }
        self.dup_params_walk(params, IdentList::Empty);
    }

    /// Reports a reference to a type parameter of an enclosing generic
    /// class made inside one of its static members.
    pub fn report_error_for_type_param_usages_in_static_members(&mut self, i: &Ident)
        ensures
            final(self).storage@ == old(self).storage@ + (
            if in_static_member_of_declaring_class(old(self).scope, i.sym) {
                seq![Diag::StaticMemberCannotUseTypeParamOfClass { span: i.span }]
            } else {
                Seq::<Diag>::empty()
            }),
            final(self).cx == old(self).cx,
            final(self).scope == old(self).scope,
            final(self).mutations == old(self).mutations,
    {
        let hit = self.scope.in_static_member_of_declaring_class(i.sym);
        if hit {
            self.report(Diag::StaticMemberCannotUseTypeParamOfClass { span: i.span });
        }
    }
}

} // verus!

verus! {

impl Analyzer {
    /// Elaborates one generic parameter: constraint and default in true
    /// type position, finalized.  Registration is the caller's business.
    #[verifier::rlimit(100)]
    #[verifier::spinoff_prover]
    pub fn validate_type_param(&mut self, p: &TsTypeParam) -> (r: TypeParam)
        ensures
            ({
                let o = elab_tp(*p, old(self).scope, old(self).cx, old(self).mutations);
                r == o.0 && final(self).storage@ == old(self).storage@ + o.1 && final(self).mutations == o.2
            }),
            final(self).scope == old(self).scope,
            final(self).cx == old(self).cx,
        decreases *p,
    {
        let cx0 = self.cx;
        self.cx.in_actual_type = true;
        let con = self.validate_opt_frozen(&p.constraint);
        let dfl = self.validate_opt_frozen(&p.default);
        self.cx = cx0;
        TypeParam {
            span: p.span,
            name: p.name.sym,
            constraint: con,
            default: dfl,
            meta: meta_default(),
        }
    }

    /// Elaborates an optional type and finalizes it.
    #[verifier::rlimit(100)]
    #[verifier::spinoff_prover]
    fn validate_opt_frozen(&mut self, o: &Option<Box<TsType>>) -> (r: Option<Box<Type>>)
        ensures
            ({
                let e = elab_opt_frozen(*o, old(self).scope, old(self).cx, old(self).mutations);
                r == e.0 && final(self).storage@ == old(self).storage@ + e.1 && final(self).mutations == e.2
            }),
            final(self).scope == old(self).scope,
            final(self).cx == old(self).cx,
        decreases *o,
    {
        match o {
            Option::Some(x) => {
                let t = self.validate(x);
                Some(Box::new(freeze_type(t)))
            },
            Option::None => None,
        }
    }

    /// Elaborates an optional type as is.
    #[verifier::rlimit(100)]
    #[verifier::spinoff_prover]
    fn validate_opt_plain(&mut self, o: &Option<Box<TsType>>) -> (r: Option<Box<Type>>)
        ensures
            ({
                let e = elab_opt_plain(*o, old(self).scope, old(self).cx, old(self).mutations);
                r == e.0 && final(self).storage@ == old(self).storage@ + e.1 && final(self).mutations == e.2
            }),
            final(self).scope == old(self).scope,
            final(self).cx == old(self).cx,
        decreases *o,
    {
        match o {
            Option::Some(x) => {
                let t = self.validate(x);
                Some(Box::new(t))
            },
            Option::None => None,
        }
    }

    /// Elaborates an optional annotation in true type position.
    #[verifier::rlimit(100)]
    #[verifier::spinoff_prover]
    fn validate_opt_ann(&mut self, o: &Option<Box<TsType>>) -> (r: Option<Box<Type>>)
        ensures
            ({
                let e = elab_opt_ann(*o, old(self).scope, old(self).cx, old(self).mutations);
                r == e.0 && final(self).storage@ == old(self).storage@ + e.1 && final(self).mutations == e.2
            }),
            final(self).scope == old(self).scope,
            final(self).cx == old(self).cx,
        decreases *o,
    {
        match o {
            Option::Some(x) => {
                let cx0 = self.cx;
                self.cx.in_actual_type = true;
                let t = self.validate(x);
                self.cx = cx0;
                Some(Box::new(t))
            },
            Option::None => None,
        }
    }

    /// Elaborates a generic parameter list against the current scope.
    pub fn validate_type_params(&mut self, l: &TsTypeParams) -> (r: TypeParams)
        ensures
            ({
                let o = elab_tps(*l, old(self).scope, old(self).cx, old(self).mutations);
                r == o.0 && final(self).storage@ == old(self).storage@ + o.1 && final(self).mutations == o.2
            }),
            final(self).scope == old(self).scope,
            final(self).cx == old(self).cx,
        decreases *l,
    {
        match l {
            TsTypeParams::Empty => TypeParams::Empty,
            TsTypeParams::More(p, rest) => {
                let e = self.validate_type_param(p);
                let er = self.validate_type_params(rest);
                TypeParams::More(e, Box::new(er))
            },
        }
    }

    /// Registers a bare placeholder for every parameter, in order.
    pub fn register_placeholders(&mut self, l: &TsTypeParams)
        ensures
            final(self).scope == tps_placeholder_scope(*l, old(self).scope),
            final(self).cx == old(self).cx,
            final(self).storage == old(self).storage,
            final(self).mutations == old(self).mutations,
        decreases *l,
    {
        match l {
            TsTypeParams::Empty => {},
            TsTypeParams::More(p, rest) => {
                self.register_type(
                    p.name.sym,
                    Type::Param(
                        TypeParam {
                            span: p.span,
                            name: p.name.sym,
                            constraint: None,
                            default: None,
                            meta: meta_default(),
                        },
                    ),
                );
                self.register_placeholders(rest);
            },
        }
    }

    /// Elaborates a signature-level generic parameter list, leaving the
    /// scope at the frame the signature's body sees; the caller pops it.
    pub fn validate_tpd(&mut self, d: &TsTypeParamDecl) -> (r: TypeParamDecl)
        ensures
            ({
                let o = elab_tpd(*d, old(self).scope, old(self).cx, old(self).mutations);
                r == o.0 && final(self).storage@ == old(self).storage@ + o.1 && final(self).mutations == o.2 && final(self).scope == o.3
            }),
            final(self).scope.parent == Option::Some(Box::new(old(self).scope)),
            final(self).cx == old(self).cx,
        decreases *d,
    {
        proof {
            lemma_placeholder_scope_frame(
                d.params,
                scope_push(old(self).scope, ScopeKind::TypeParams),
            );
        }
        self.push_scope(ScopeKind::TypeParams);
        self.register_placeholders(&d.params);
        let ps = self.validate_type_params(&d.params);
        TypeParamDecl { span: d.span, params: ps }
    }

    /// Elaborates an optional signature-level generic parameter list; the
    /// second component says whether a frame was pushed.
    pub fn validate_tpd_opt(&mut self, o: &Option<TsTypeParamDecl>) -> (r: (
        Option<TypeParamDecl>,
        bool,
    ))
        ensures
            ({
                let e = elab_tpd_opt(*o, old(self).scope, old(self).cx, old(self).mutations);
                r.0 == e.0 && final(self).storage@ == old(self).storage@ + e.1 && final(self).mutations == e.2 && final(self).scope == e.3
            }),
            r.1 == (*o is Some),
            r.1 ==> final(self).scope.parent == Option::Some(Box::new(old(self).scope)),
            !r.1 ==> final(self).scope == old(self).scope,
            final(self).cx == old(self).cx,
        decreases *o,
    {
        match o {
            Option::Some(d) => {
                let td = self.validate_tpd(d);
                (Some(td), true)
            },
            Option::None => (None, false),
        }
    }

    /// Elaborates one signature parameter.
    #[verifier::rlimit(100)]
    #[verifier::spinoff_prover]
    pub fn validate_fn_param(&mut self, p: &Pat) -> (r: FnParam)
        ensures
            ({
                let o = elab_fn_param(*p, old(self).scope, old(self).cx, old(self).mutations);
                r == o.0 && final(self).storage@ == old(self).storage@ + o.1 && final(self).mutations == o.2
            }),
            final(self).scope == old(self).scope,
            final(self).cx == old(self).cx,
        decreases *p,
    {
        let span = match p {
            Pat::Ident { id, .. } => id.span,
            Pat::Array { span, .. } => *span,
            Pat::Object { span, .. } => *span,
            Pat::Rest { span, .. } => *span,
        };
        let required = match p {
            Pat::Ident { optional, .. } => !*optional,
            Pat::Rest { .. } => false,
            _ => true,
        };
        let ids = find_ids_in_pat(p);
        let ann: &Option<Box<TsType>> = match p {
            Pat::Ident { type_ann, .. } => type_ann,
            Pat::Array { type_ann, .. } => type_ann,
            Pat::Object { type_ann, .. } => type_ann,
            Pat::Rest { type_ann, .. } => type_ann,
        };
        let node_id = match p {
            Pat::Ident { node_id, .. } => *node_id,
            Pat::Array { node_id, .. } => *node_id,
            Pat::Object { node_id, .. } => *node_id,
            Pat::Rest { node_id, .. } => *node_id,
        };
        let ty: Type = match ann {
            Option::Some(x) => {
                let cx0 = self.cx;
                self.cx.in_actual_type = true;
                let t = self.validate(x);
                self.cx = cx0;
                t
            },
            Option::None => match crate::scope::rib_find_exec(&self.mutations, node_id) {
                Option::Some(t) => copy_type(t),
                Option::None => make_any(
                    Span { lo: 0, hi: 0 },
                    crate::pat_default::implicit_meta_exec(),
                ),
            },
        };
        FnParam { span, required, ids, ty: Box::new(ty) }
    }

    /// Elaborates a signature parameter list, in order.
    pub fn validate_params(&mut self, l: &TsParams) -> (r: Params)
        ensures
            ({
                let o = elab_params(*l, old(self).scope, old(self).cx, old(self).mutations);
                r == o.0 && final(self).storage@ == old(self).storage@ + o.1 && final(self).mutations == o.2
            }),
            final(self).scope == old(self).scope,
            final(self).cx == old(self).cx,
        decreases *l,
    {
        match l {
            TsParams::Empty => Params::Empty,
            TsParams::More(p, rest) => {
                let e = self.validate_fn_param(p);
                let er = self.validate_params(rest);
                Params::More(e, Box::new(er))
            },
        }
    }

    /// Elaborates optional type arguments, in true type position.
    pub fn validate_targs_opt(&mut self, o: &Option<Box<TsTypeArgs>>) -> (r: Option<Box<TypeArgs>>)
        ensures
            ({
                let e = elab_targs_opt(*o, old(self).scope, old(self).cx, old(self).mutations);
                r == e.0 && final(self).storage@ == old(self).storage@ + e.1 && final(self).mutations == e.2
            }),
            final(self).scope == old(self).scope,
            final(self).cx == old(self).cx,
        decreases *o,
    {
        match o {
            Option::Some(x) => {
                let cx0 = self.cx;
                self.cx.in_actual_type = true;
                let ps = self.validate_type_list(&x.params);
                self.cx = cx0;
                Some(Box::new(TypeArgs { span: x.span, params: ps }))
            },
            Option::None => None,
        }
    }

    /// Elaborates a list of types, in order.
    pub fn validate_type_list(&mut self, l: &TsTypeList) -> (r: TypeList)
        ensures
            ({
                let o = elab_list(*l, old(self).scope, old(self).cx, old(self).mutations);
                r == o.0 && final(self).storage@ == old(self).storage@ + o.1 && final(self).mutations == o.2
            }),
            final(self).scope == old(self).scope,
            final(self).cx == old(self).cx,
        decreases *l,
    {
        match l {
            TsTypeList::Empty => TypeList::Empty,
            TsTypeList::More(t, rest) => {
                let e = self.validate(t);
                let er = self.validate_type_list(rest);
                TypeList::More(e, Box::new(er))
            },
        }
    }

    /// Elaborates tuple elements, labels kept.
    pub fn validate_tuple_elems(&mut self, l: &TsTupleElems) -> (r: TupleElems)
        ensures
            ({
                let o = elab_tuple_elems(*l, old(self).scope, old(self).cx, old(self).mutations);
                r == o.0 && final(self).storage@ == old(self).storage@ + o.1 && final(self).mutations == o.2
            }),
            final(self).scope == old(self).scope,
            final(self).cx == old(self).cx,
        decreases *l,
    {
        match l {
            TsTupleElems::Empty => TupleElems::Empty,
            TsTupleElems::More(e, rest) => {
                let et = self.validate(&e.ty);
                let er = self.validate_tuple_elems(rest);
                TupleElems::More(
                    TupleElement { span: e.span, label: e.label, ty: et },
                    Box::new(er),
                )
            },
        }
    }

    /// Elaborates a `typeof` operand.
    pub fn validate_query_expr(&mut self, q: &TsQueryExpr) -> (r: QueryExpr)
        ensures
            ({
                let o = elab_qe(*q, old(self).scope, old(self).cx, old(self).mutations);
                r == o.0 && final(self).storage@ == old(self).storage@ + o.1 && final(self).mutations == o.2
            }),
            final(self).scope == old(self).scope,
            final(self).cx == old(self).cx,
        decreases *q,
    {
        match q {
            TsQueryExpr::Name(n) => QueryExpr::Name(copy_entity_name(n)),
            TsQueryExpr::Import { span, arg, qualifier, type_args } => {
                let g = self.validate_targs_opt(type_args);
                QueryExpr::Import {
                    span: *span,
                    arg: *arg,
                    qualifier: crate::types::copy_en_opt(qualifier),
                    type_args: g,
                }
            },
        }
    }

    /// Elaborates interface `extends` clauses.
    pub fn validate_extends(&mut self, l: &TsExtends) -> (r: Extends)
        ensures
            ({
                let o = elab_extends(*l, old(self).scope, old(self).cx, old(self).mutations);
                r == o.0 && final(self).storage@ == old(self).storage@ + o.1 && final(self).mutations == o.2
            }),
            final(self).scope == old(self).scope,
            final(self).cx == old(self).cx,
        decreases *l,
    {
        match l {
            TsExtends::Empty => Extends::Empty,
            TsExtends::More(e, rest) => {
                let g = self.validate_targs_opt(&e.type_args);
                let er = self.validate_extends(rest);
                Extends::More(
                    TsExpr { span: e.span, expr: copy_entity_name(&e.expr), type_args: g },
                    Box::new(er),
                )
            },
        }
    }

    /// Elaborates a type annotation in true type position.
    pub fn validate_type_ann(&mut self, a: &TsTypeAnn) -> (r: Type)
        ensures
            ({
                let o = elab_type_ann(*a, old(self).scope, old(self).cx, old(self).mutations);
                r == o.0 && final(self).storage@ == old(self).storage@ + o.1 && final(self).mutations == o.2
            }),
            final(self).scope == old(self).scope,
            final(self).cx == old(self).cx,
        decreases *a,
    {
        let cx0 = self.cx;
        self.cx.in_actual_type = true;
        let t = self.validate(&a.ty);
        self.cx = cx0;
        t
    }
}

} // verus!

verus! {

broadcast use vstd::seq_lib::group_seq_properties;

/// Builds the metadata of a literal type.
pub fn lit_meta_exec() -> (m: TypeMeta)
    ensures
        m == lit_meta(),
{
    TypeMeta {
        contains_infer: false,
        implicit: false,
        prevent_generalization: true,
        no_expand: false,
        prevent_tuple_to_array: false,
        frozen: false,
    }
}

/// Builds the metadata of a tuple type.
pub fn tuple_meta_exec() -> (m: TypeMeta)
    ensures
        m == tuple_meta(),
{
    TypeMeta {
        contains_infer: false,
        implicit: false,
        prevent_generalization: false,
        no_expand: false,
        prevent_tuple_to_array: true,
        frozen: false,
    }
}

/// Builds the metadata of an `infer` capture.
pub fn infer_meta_exec() -> (m: TypeMeta)
    ensures
        m == infer_meta(),
{
    TypeMeta {
        contains_infer: true,
        implicit: false,
        prevent_generalization: false,
        no_expand: false,
        prevent_tuple_to_array: false,
        frozen: false,
    }
}

impl Analyzer {
    /// Elaborates a property's annotation; a missing one becomes `any`,
    /// and in builtin mode a symbol-typed property becomes a known symbol.
    #[verifier::rlimit(100)]
    #[verifier::spinoff_prover]
    fn validate_prop_ann(&mut self, span: Span, key: &Key, o: &Option<Box<TsType>>) -> (r: Option<
        Box<Type>,
    >)
        ensures
            ({
                let e = elab_prop_ann(span, *key, *o, old(self).scope, old(self).cx, old(self).mutations);
                r == e.0 && final(self).storage@ == old(self).storage@ + e.1 && final(self).mutations == e.2
            }),
            final(self).scope == old(self).scope,
            final(self).cx == old(self).cx,
        decreases *o,
    {
        match o {
            Option::Some(x) => {
                let cx0 = self.cx;
                self.cx.in_actual_type = true;
                let t0 = self.validate(x);
                self.cx = cx0;
                let symbolish = match &t0 {
                    Type::Keyword { kind: KeywordKind::Symbol, .. } => true,
                    Type::Operator { op: crate::base::TypeOp::Unique, ty, .. } => match &**ty {
                        Type::Keyword { kind: KeywordKind::Symbol, .. } => true,
                        _ => false,
                    },
                    _ => false,
                };
                let is_normal_key = match key {
                    Key::Normal { .. } => true,
                    _ => false,
                };
                if self.cx.is_builtin && symbolish && is_normal_key {
                    let sym = match key {
                        Key::Normal { sym, .. } => *sym,
                        Key::Num { val, .. } => *val,
                        Key::Symbol { id, .. } => *id,
                        Key::Computed { .. } => 0,
                    };
                    Some(
                        Box::new(
                            Type::Symbol {
                                span: Span { lo: 0, hi: 0 },
                                id: sym,
                                meta: meta_default(),
                            },
                        ),
                    )
                } else {
                    Some(Box::new(t0))
                }
            },
            Option::None => Some(Box::new(make_any(span, meta_default()))),
        }
    }

    /// Elaborates one member of a type literal or interface body.
    #[verifier::rlimit(100)]
    #[verifier::spinoff_prover]
    pub fn validate_type_element(&mut self, e: &TsTypeElement) -> (r: TypeElement)
        ensures
            ({
                let o = elab_member(*e, old(self).scope, old(self).cx, old(self).mutations);
                r == o.0 && final(self).storage@ == old(self).storage@ + o.1 && final(self).mutations == o.2
            }),
            final(self).scope == old(self).scope,
            final(self).cx == old(self).cx,
        decreases *e,
    {
        match e {
            TsTypeElement::Call { span, params, type_params, type_ann } => {
                let (tpd, pushed) = self.validate_tpd_opt(type_params);
                let ps = self.validate_params(params);
                let rt = self.validate_opt_ann(type_ann);
                self.report_error_for_duplicate_params(&ps);
                if pushed {
                    self.pop_scope();
                }
                TypeElement::Call { span: *span, params: ps, type_params: tpd, ret_ty: rt }
            },
            TsTypeElement::Constructor { span, params, type_params, type_ann } => {
                let (tpd, pushed) = self.validate_tpd_opt(type_params);
                let ps = self.validate_params(params);
                let rt = self.validate_opt_ann(type_ann);
                if pushed {
                    self.pop_scope();
                }
                TypeElement::Constructor { span: *span, params: ps, type_params: tpd, ret_ty: rt }
            },
            TsTypeElement::Index { span, readonly, is_static, params, type_ann } => {
                let ps = self.validate_params(params);
                let rt = self.validate_opt_ann(type_ann);
                TypeElement::Index {
                    span: *span,
                    readonly: *readonly,
                    is_static: *is_static,
                    params: ps,
                    type_ann: rt,
                }
            },
            TsTypeElement::Method { span, key, readonly, optional, params, type_params, type_ann } => {
                self.push_scope(ScopeKind::Fn);
                let (tpd, pushed) = self.validate_tpd_opt(type_params);
                let ps = self.validate_params(params);
                self.report_error_for_duplicate_params(&ps);
                let rt = self.validate_opt_ann(type_ann);
                if pushed {
                    self.pop_scope();
                }
                self.pop_scope();
                TypeElement::Method {
                    span: *span,
                    key: *key,
                    readonly: *readonly,
                    optional: *optional,
                    params: ps,
                    type_params: tpd,
                    ret_ty: rt,
                }
            },
            TsTypeElement::Property {
                span,
                key,
                readonly,
                optional,
                accessor,
                params,
                type_params,
                type_ann,
            } => {
                let (tpd, pushed) = self.validate_tpd_opt(type_params);
                let ps = self.validate_params(params);
                let ann: Option<Box<Type>> = self.validate_prop_ann(*span, key, type_ann);
                if pushed {
                    self.pop_scope();
                }
                TypeElement::Property {
                    span: *span,
                    key: *key,
                    readonly: *readonly,
                    optional: *optional,
                    accessor: *accessor,
                    params: ps,
                    type_ann: ann,
                    type_params: tpd,
                }
            },
        }
    }

    /// Elaborates a member list, in order.
    pub fn validate_members(&mut self, l: &TsMembers) -> (r: Members)
        ensures
            ({
                let o = elab_members(*l, old(self).scope, old(self).cx, old(self).mutations);
                r == o.0 && final(self).storage@ == old(self).storage@ + o.1 && final(self).mutations == o.2
            }),
            final(self).scope == old(self).scope,
            final(self).cx == old(self).cx,
        decreases *l,
    {
        match l {
            TsMembers::Empty => Members::Empty,
            TsMembers::More(e, rest) => {
                let ee = self.validate_type_element(e);
                let er = self.validate_members(rest);
                Members::More(ee, Box::new(er))
            },
        }
    }

    /// Elaborates a function type (mirror of the `Fn` dispatch case).
    #[verifier::rlimit(100)]
    #[verifier::spinoff_prover]
    pub fn validate_ts_fn_type(&mut self, t: &TsType) -> (r: Type)
        requires
            *t is Fn,
        ensures
            ({
                let o = elab_fn(*t, old(self).scope, old(self).cx, old(self).mutations);
                r == o.0 && final(self).storage@ == old(self).storage@ + o.1 && final(self).mutations == o.2
            }),
            final(self).scope == old(self).scope,
            final(self).cx == old(self).cx,
        decreases *t, 0int,
    {
        match t {
            TsType::Fn { span, type_params, params, ret } => {
                let (tpd, pushed) = self.validate_tpd_opt(type_params);
                self.default_any_params(params);
                let ps = self.validate_params(params);
                let ps = freeze_params(ps);
                let rt = self.validate(ret);
                if pushed {
                    self.pop_scope();
                }
                Type::Function {
                    span: *span,
                    type_params: tpd,
                    params: Box::new(ps),
                    ret_ty: Box::new(rt),
                    meta: meta_default(),
                }
            },
            _ => vstd::pervasive::unreached(),
        }
    }

    /// Elaborates a constructor type (mirror of the `Constructor` case).
    #[verifier::rlimit(100)]
    #[verifier::spinoff_prover]
    pub fn validate_constructor_type(&mut self, t: &TsType) -> (r: Type)
        requires
            *t is Constructor,
        ensures
            ({
                let o = elab_ctor(*t, old(self).scope, old(self).cx, old(self).mutations);
                r == o.0 && final(self).storage@ == old(self).storage@ + o.1 && final(self).mutations == o.2
            }),
            final(self).scope == old(self).scope,
            final(self).cx == old(self).cx,
        decreases *t, 0int,
    {
        match t {
            TsType::Constructor { span, type_params, params, ret, is_abstract } => {
                let (tpd, pushed) = self.validate_tpd_opt(type_params);
                self.default_any_params(params);
                let ps = self.validate_params(params);
                let rt = self.validate(ret);
                if pushed {
                    self.pop_scope();
                }
                Type::Constructor {
                    span: *span,
                    type_params: tpd,
                    params: Box::new(ps),
                    ret_ty: Box::new(rt),
                    is_abstract: *is_abstract,
                    meta: meta_default(),
                }
            },
            _ => vstd::pervasive::unreached(),
        }
    }

    /// Elaborates an object type literal and scans its members.
    #[verifier::rlimit(100)]
    #[verifier::spinoff_prover]
    pub fn validate_type_lit(&mut self, t: &TsType) -> (r: Type)
        requires
            *t is TypeLit,
        ensures
            ({
                let o = elab_typelit(*t, old(self).scope, old(self).cx, old(self).mutations);
                r == o.0 && final(self).storage@ == old(self).storage@ + o.1 && final(self).mutations == o.2
            }),
            final(self).scope == old(self).scope,
            final(self).cx == old(self).cx,
        decreases *t, 0int,
    {
        match t {
            TsType::TypeLit { span, members } => {
                let ms = self.validate_members(members);
                self.report_error_for_duplicate_type_elements(&ms);
                self.report_errors_for_mixed_optional_method_signatures(&ms);
                Type::TypeLit {
                    span: *span,
                    members: Box::new(ms),
                    specified: true,
                    meta: meta_default(),
                }
            },
            _ => vstd::pervasive::unreached(),
        }
    }

    /// Elaborates a conditional type: `check`, `extends`, `true`, `false`
    /// in exactly that order and exactly once each, the capture flag
    /// recorded from the four branches.
    #[verifier::rlimit(100)]
    #[verifier::spinoff_prover]
    pub fn validate_conditional_type(&mut self, t: &TsType) -> (r: Type)
        requires
            *t is Conditional,
        ensures
            ({
                let o = elab_cond(*t, old(self).scope, old(self).cx, old(self).mutations);
                r == o.0 && final(self).storage@ == old(self).storage@ + o.1 && final(self).mutations == o.2
            }),
            final(self).scope == old(self).scope,
            final(self).cx == old(self).cx,
        decreases *t, 0int,
    {
        match t {
            TsType::Conditional { span, check_ty, extends_ty, true_ty, false_ty } => {
                let e1 = self.validate(check_ty);
                let e2 = self.validate(extends_ty);
                let e3 = self.validate(true_ty);
                let e4 = self.validate(false_ty);
                let flag = ci_ty_exec(&e1) || ci_ty_exec(&e2) || ci_ty_exec(&e3) || ci_ty_exec(
                    &e4,
                );
                Type::Conditional {
                    span: *span,
                    check_ty: Box::new(e1),
                    extends_ty: Box::new(e2),
                    true_ty: Box::new(e3),
                    false_ty: Box::new(e4),
                    meta: TypeMeta {
                        contains_infer: flag,
                        implicit: false,
                        prevent_generalization: false,
                        no_expand: false,
                        prevent_tuple_to_array: false,
                        frozen: false,
                    },
                }
            },
            _ => vstd::pervasive::unreached(),
        }
    }

    /// Elaborates a mapped type; its parameter scopes over the mapped
    /// type alone.
    #[verifier::rlimit(100)]
    #[verifier::spinoff_prover]
    pub fn validate_mapped_type(&mut self, t: &TsType) -> (r: Type)
        requires
            *t is Mapped,
        ensures
            ({
                let o = elab_mapped(*t, old(self).scope, old(self).cx, old(self).mutations);
                r == o.0 && final(self).storage@ == old(self).storage@ + o.1 && final(self).mutations == o.2
            }),
            final(self).scope == old(self).scope,
            final(self).cx == old(self).cx,
        decreases *t, 0int,
    {
        match t {
            TsType::Mapped { span, readonly, optional, type_param, name_ty, ty } => {
                let tp = self.validate_type_param(type_param);
                self.push_scope(ScopeKind::TypeParams);
                self.register_type(type_param.name.sym, Type::Param(copy_type_param(&tp)));
                let en = self.validate_opt_plain(name_ty);
                let et = self.validate_opt_plain(ty);
                self.pop_scope();
                Type::Mapped {
                    span: *span,
                    readonly: *readonly,
                    optional: *optional,
                    name_ty: en,
                    type_param: tp,
                    ty: et,
                    meta: meta_default(),
                }
            },
            _ => vstd::pervasive::unreached(),
        }
    }

    /// Elaborates a type reference: the `Array` normal form, parameter
    /// passthrough, and the unresolved-name diagnostics.
    #[verifier::rlimit(100)]
    #[verifier::spinoff_prover]
    pub fn validate_type_ref(&mut self, t: &TsType) -> (r: Type)
        requires
            *t is Ref,
        ensures
            ({
                let o = elab_ref(*t, old(self).scope, old(self).cx, old(self).mutations);
                r == o.0 && final(self).storage@ == old(self).storage@ + o.1 && final(self).mutations == o.2
            }),
            final(self).scope == old(self).scope,
            final(self).cx == old(self).cx,
        decreases *t, 0int,
    {
        match t {
            TsType::Ref { span, name, type_args } => {
                let g = self.validate_targs_opt(type_args);
                let targs = freeze_targs_opt(g);
                match name {
                    crate::base::EntityName::Ident(i) => {
                        if i.sym == ATOM_ARRAY && targs_is_single(&targs) {
                            match targs {
                                Option::Some(x) => match x.params {
                                    TypeList::More(el, _) => Type::Array {
                                        span: *span,
                                        elem: Box::new(el),
                                        meta: meta_default(),
                                    },
                                    TypeList::Empty => vstd::pervasive::unreached(),
                                },
                                Option::None => vstd::pervasive::unreached(),
                            }
                        } else {
                            self.report_error_for_type_param_usages_in_static_members(i);
                            let found = self.scope.find_type(i.sym);
                            match found {
                                Option::Some(ft) => {
                                    let is_param = match &ft {
                                        Type::Param(_) => true,
                                        _ => false,
                                    };
                                    if is_param {
                                        ft
                                    } else {
                                        let flag = ci_ty_exec(&ft);
                                        Type::Ref {
                                            span: *span,
                                            ctxt: self.cx.module_id,
                                            name: copy_entity_name(name),
                                            type_args: targs,
                                            meta: ref_meta_exec(flag),
                                        }
                                    }
                                },
                                Option::None => {
                                    if !self.cx.is_builtin && self.cx.in_actual_type
                                        && self.scope.has_var(i.sym) {
                                        self.report(
                                            Diag::NoSuchTypeButVarExists {
                                                span: *span,
                                                name: i.sym,
                                            },
                                        );
                                    } else if !self.cx.is_builtin {
                                        self.report(Diag::NoSuchType { span: *span, name: i.sym });
                                    }
                                    Type::Ref {
                                        span: *span,
                                        ctxt: self.cx.module_id,
                                        name: copy_entity_name(name),
                                        type_args: targs,
                                        meta: ref_meta_exec(false),
                                    }
                                },
                            }
                        }
                    },
                    crate::base::EntityName::Qualified { .. } => {
                        let lm = crate::base::entity_leftmost_exec(name);
                        let head = self.scope.find_type(lm.sym);
                        if !self.cx.is_builtin && head.is_none() {
                            self.report(Diag::NoSuchType { span: *span, name: lm.sym });
                        }
                        Type::Ref {
                            span: *span,
                            ctxt: self.cx.module_id,
                            name: copy_entity_name(name),
                            type_args: targs,
                            meta: ref_meta_exec(false),
                        }
                    },
                }
            },
            _ => vstd::pervasive::unreached(),
        }
    }

    /// Elaborates an indexed access, checking key resolvability outside
    /// the builtin library.
    #[verifier::rlimit(100)]
    #[verifier::spinoff_prover]
    pub fn validate_indexed_access_type(&mut self, t: &TsType) -> (r: Type)
        requires
            *t is IndexedAccess,
        ensures
            ({
                let o = elab_idx(*t, old(self).scope, old(self).cx, old(self).mutations);
                r == o.0 && final(self).storage@ == old(self).storage@ + o.1 && final(self).mutations == o.2
            }),
            final(self).scope == old(self).scope,
            final(self).cx == old(self).cx,
        decreases *t, 0int,
    {
        match t {
            TsType::IndexedAccess { span, readonly, obj_ty, index_ty } => {
                let eo = self.validate(obj_ty);
                let ei = self.validate(index_ty);
                let index = freeze_type(ei);
                if !self.cx.is_builtin {
                    match idx_diags_exec(*span, &eo, &index) {
                        Option::Some(d) => self.report(d),
                        Option::None => {},
                    }
                }
                Type::IndexedAccess {
                    span: *span,
                    readonly: *readonly,
                    obj_ty: Box::new(eo),
                    index_ty: Box::new(index),
                    meta: meta_default(),
                }
            },
            _ => vstd::pervasive::unreached(),
        }
    }

    /// Dispatches elaboration over every syntax shape.
    #[verifier::rlimit(100)]
    #[verifier::spinoff_prover]
    fn validate_inner(&mut self, t: &TsType) -> (r: Type)
        ensures
            ({
                let o = elab_arms(*t, old(self).scope, old(self).cx, old(self).mutations);
                r == o.0 && final(self).storage@ == old(self).storage@ + o.1 && final(self).mutations == o.2
            }),
            final(self).scope == old(self).scope,
            final(self).cx == old(self).cx,
        decreases *t, 1int,
    {
        match t {
            TsType::This { span } => Type::This { span: *span, meta: meta_default() },
            TsType::Lit { span, lit } => Type::Lit { span: *span, lit: *lit, meta: lit_meta_exec() },
            TsType::Keyword { span, kind } => {
                let is_intr = match kind {
                    KeywordKind::Intrinsic => true,
                    _ => false,
                };
                if is_intr && !self.cx.is_builtin {
                    self.report(Diag::IntrinsicIsBuiltinOnly { span: *span });
                    make_any(*span, meta_default())
                } else {
                    Type::Keyword { span: *span, kind: *kind, meta: meta_default() }
                }
            },
            TsType::Array { span, elem } => {
                let e = self.validate(elem);
                Type::Array { span: *span, elem: Box::new(e), meta: meta_default() }
            },
            TsType::Tuple { span, elems } => {
                let e = self.validate_tuple_elems(elems);
                Type::Tuple { span: *span, elems: Box::new(e), meta: tuple_meta_exec() }
            },
            TsType::Union { span, types } => {
                let e = self.validate_type_list(types);
                let d = dedup_types_exec(e);
                make_fixed_union(*span, d, meta_default())
            },
            TsType::Intersection { span, types } => {
                let e = self.validate_type_list(types);
                make_fixed_intersection(*span, e, meta_default())
            },
            TsType::Fn { .. } => self.validate_ts_fn_type(t),
            TsType::Constructor { .. } => self.validate_constructor_type(t),
            TsType::TypeLit { .. } => self.validate_type_lit(t),
            TsType::Conditional { .. } => self.validate_conditional_type(t),
            TsType::Mapped { .. } => self.validate_mapped_type(t),
            TsType::Operator { span, op, ty } => {
                let e = self.validate(ty);
                Type::Operator { span: *span, op: *op, ty: Box::new(e), meta: meta_default() }
            },
            TsType::Paren { ty, .. } => self.validate(ty),
            TsType::Ref { .. } => self.validate_type_ref(t),
            TsType::Query { span, expr } => {
                let e = self.validate_query_expr(expr);
                Type::Query { span: *span, expr: Box::new(e), meta: meta_default() }
            },
            TsType::Optional { span, ty } => {
                let e = self.validate(ty);
                Type::Optional { span: *span, ty: Box::new(e), meta: meta_default() }
            },
            TsType::Rest { span, ty } => {
                let e = self.validate(ty);
                Type::Rest { span: *span, ty: Box::new(e), meta: meta_default() }
            },
            TsType::Infer { span, type_param } => {
                let tp = self.validate_type_param(type_param);
                Type::Infer { span: *span, type_param: tp, meta: infer_meta_exec() }
            },
            TsType::IndexedAccess { .. } => self.validate_indexed_access_type(t),
            TsType::Predicate { span, param_name, asserts, ty } => {
                let ety: Option<Box<Type>> = match ty {
                    Option::Some(x) => {
                        let cxp = self.cx;
                        self.cx.in_actual_type = true;
                        let e = self.validate(x);
                        self.cx = cxp;
                        Some(Box::new(prevent_expansion_exec(e)))
                    },
                    Option::None => None,
                };
                Type::Predicate {
                    span: *span,
                    param_name: *param_name,
                    asserts: *asserts,
                    ty: ety,
                    meta: meta_default(),
                }
            },
            TsType::Import { span, arg, qualifier, type_args } => {
                let g = self.validate_targs_opt(type_args);
                Type::Import {
                    span: *span,
                    arg: *arg,
                    qualifier: crate::types::copy_en_opt(qualifier),
                    type_args: g,
                    meta: meta_default(),
                }
            },
            TsType::Tpl { span, quasis, types } => {
                let e = self.validate_type_list(types);
                Type::Tpl {
                    span: *span,
                    quasis: Box::new(crate::base::copy_atoms(quasis)),
                    types: Box::new(e),
                    meta: meta_default(),
                }
            },
        }
    }

    /// Elaborates a type expression: total over every syntax shape, never
    /// failing; invalid constructs are reported and replaced by `any`.
    /// The outermost expression of a statement is finalized on the way
    /// out, so the produced value may be shared.
    pub fn validate(&mut self, t: &TsType) -> (r: Type)
        ensures
            ({
                let o = elab_ty(*t, old(self).scope, old(self).cx, old(self).mutations);
                r == o.0 && final(self).storage@ == old(self).storage@ + o.1 && final(self).mutations == o.2
            }),
            final(self).scope == old(self).scope,
            final(self).cx == old(self).cx,
        decreases *t, 2int,
    {
        let cx0 = self.cx;
        self.cx.is_not_topmost_type = true;
        let inner = self.validate_inner(t);
        self.cx = cx0;
        if !cx0.is_not_topmost_type {
            freeze_type(inner)
        } else {
            inner
        }
    }
}

} // verus!
