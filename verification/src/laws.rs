//! Laws the library keeps, stated over the same specification functions
//! the executable contracts use.

use vstd::prelude::*;

use crate::ast::{Pat, TsType, TsTypeAliasDecl, TsTypeArgs, TsTypeList};
use crate::base::{ATOM_ARRAY, EntityName, Ident, Span};
use crate::decl::elab_alias_decl;
use crate::elab::{Cx, cx_actual, cx_inner, elab_ty};
use crate::pat_default::dflt_pat;
use crate::scope::{Scope, scope_find_type, scope_register};
use crate::types::{
    Rib, Type, TypeList, dedup_types, fz_ty, ifz_ty, lemma_dedup_distinct, lemma_fz_ty_frozen,
    lemma_fz_ty_idem, rib_contains, rib_find, tl_distinct,
};

verus! {

/// Resolving an alias's name after its declaration yields the alias value
/// itself, fully finalized; since resolution is a function of the scope,
/// resolving the same name twice from the same module yields identical
/// values.
pub proof fn lemma_alias_resolution_stable(d: TsTypeAliasDecl, s: Scope, c: Cx, tbl: Rib)
    ensures
        ({
            let o = elab_alias_decl(d, s, c, tbl);
            scope_find_type(o.3, d.id.sym) == Option::Some(o.0) && ifz_ty(o.0)
                && scope_find_type(o.3, d.id.sym) == scope_find_type(o.3, d.id.sym)
        }),
{
    let o = elab_alias_decl(d, s, c, tbl);
    assert(o.3 == scope_register(s, d.id.sym, o.0));
    assert(rib_find(o.3.frame.types, d.id.sym) == Option::Some(o.0));
    lemma_alias_is_frozen(d, s, c, tbl);
}

/// The published alias value is finalized.
pub proof fn lemma_alias_is_frozen(d: TsTypeAliasDecl, s: Scope, c: Cx, tbl: Rib)
    ensures
        ifz_ty(elab_alias_decl(d, s, c, tbl).0),
{
    let o = elab_alias_decl(d, s, c, tbl);
    let s1 = crate::scope::scope_push(s, crate::scope::ScopeKind::Flow);
    let g = crate::decl::resolve_tpd_opt(d.type_params, s1, c, tbl);
    let body = if *d.type_ann matches TsType::Keyword {
        kind: crate::base::KeywordKind::Intrinsic,
        ..
    } {
        if !c.is_builtin {
            crate::types::spec_any(crate::decl::alias_ann_span(d), crate::types::meta_none())
        } else {
            Type::Intrinsic {
                span: d.span,
                kind: d.id.sym,
                type_args: Box::new(
                    crate::types::TypeArgs {
                        span: d.span,
                        params: crate::decl::tps_args_list(crate::decl::tpd_opt_params(g.0)),
                    },
                ),
                meta: crate::types::meta_none(),
            }
        }
    } else {
        elab_ty(*d.type_ann, g.3, c, g.2).0
    };
    let flag = crate::types::ci_ty(body);
    let marked = if flag {
        crate::decl::mark_infer_container(body)
    } else {
        crate::elab::prevent_expansion(body)
    };
    lemma_fz_ty_frozen(
        Type::Alias {
            span: d.span,
            ty: Box::new(fz_ty(marked)),
            type_params: g.0,
            meta: crate::types::TypeMeta { contains_infer: flag, ..crate::types::meta_none() },
        },
    );
}

/// The reference form `Array<T>` and the array form `T[]`, elaborated as
/// the outermost type of a statement in true type position, produce the
/// same value: the builtin generic reference canonicalizes to the array
/// variant, so two spellings of one array type compare equal.
pub proof fn lemma_array_forms_agree(
    span: Span,
    args_span: Span,
    elem: TsType,
    s: Scope,
    c: Cx,
    tbl: Rib,
)
    requires
        !c.is_not_topmost_type,
        c.in_actual_type,
    ensures
        ({
            let ref_form = TsType::Ref {
                span,
                name: EntityName::Ident(Ident { span, sym: ATOM_ARRAY }),
                type_args: Option::Some(
                    Box::new(
                        TsTypeArgs {
                            span: args_span,
                            params: TsTypeList::More(elem, Box::new(TsTypeList::Empty)),
                        },
                    ),
                ),
            };
            let arr_form = TsType::Array { span, elem: Box::new(elem) };
            elab_ty(ref_form, s, c, tbl).0 == elab_ty(arr_form, s, c, tbl).0
        }),
{
    let c2 = cx_inner(c);
    assert(cx_actual(c2) == c2);
    let e = elab_ty(elem, s, c2, tbl);
    let e0 = e.0;
    let ref_form = TsType::Ref {
        span,
        name: EntityName::Ident(Ident { span, sym: ATOM_ARRAY }),
        type_args: Option::Some(
            Box::new(
                TsTypeArgs {
                    span: args_span,
                    params: TsTypeList::More(elem, Box::new(TsTypeList::Empty)),
                },
            ),
        ),
    };
    let arr_form = TsType::Array { span, elem: Box::new(elem) };
    assert(crate::elab::elab_list(TsTypeList::Empty, s, c2, e.2).0 == TypeList::Empty);
    assert(crate::elab::elab_list(
        TsTypeList::More(elem, Box::new(TsTypeList::Empty)),
        s,
        c2,
        tbl,
    ).0 == TypeList::More(e0, Box::new(TypeList::Empty)));
    lemma_fz_ty_idem(e0);
    let g = crate::elab::elab_targs_opt(ref_form->Ref_type_args, s, c2, tbl);
    assert(g.0 == Option::Some(
        Box::new(
            crate::types::TypeArgs {
                span: args_span,
                params: TypeList::More(e0, Box::new(TypeList::Empty)),
            },
        ),
    ));
    let targs = crate::types::fz_targs_opt(g.0);
    assert(crate::types::fz_list(TypeList::Empty) == TypeList::Empty);
    assert(targs == Option::Some(
        Box::new(
            crate::types::TypeArgs {
                span: args_span,
                params: TypeList::More(fz_ty(e0), Box::new(TypeList::Empty)),
            },
        ),
    ));
    assert(crate::elab::single_targ(targs) == Option::Some(fz_ty(e0)));
    assert(crate::elab::elab_ref(ref_form, s, c2, tbl).0 == (Type::Array {
        span,
        elem: Box::new(fz_ty(e0)),
        meta: crate::types::meta_none(),
    }));
    assert(crate::elab::elab_arms(ref_form, s, c2, tbl) == crate::elab::elab_ref(
        ref_form,
        s,
        c2,
        tbl,
    ));
    assert(elab_ty(ref_form, s, c, tbl).0 == fz_ty(
        Type::Array { span, elem: Box::new(fz_ty(e0)), meta: crate::types::meta_none() },
    ));
    assert(crate::elab::elab_arms(arr_form, s, c2, tbl) == crate::elab::elab_array_ty(
        arr_form,
        s,
        c2,
        tbl,
    ));
    assert(elab_ty(arr_form, s, c, tbl).0 == fz_ty(
        Type::Array { span, elem: Box::new(e0), meta: crate::types::meta_none() },
    ));
}

/// Union deduplication leaves no two members structurally equal: after a
/// union is elaborated, its member list holds each structural type once,
/// first occurrences in order.
pub proof fn lemma_union_members_distinct(l: TypeList)
    ensures
        tl_distinct(dedup_types(l)),
{
    lemma_dedup_distinct(l, TypeList::Empty);
}

/// Defaulting an identifier pattern is idempotent: a second run over the
/// same pattern and table sees the recorded entry and changes nothing.
pub proof fn lemma_default_ident_idempotent(p: Pat, c: Cx, tbl: Rib)
    requires
        p is Ident,
    ensures
        ({
            let once = dflt_pat(p, c, tbl);
            let twice = dflt_pat(p, c, once.1);
            twice.1 == once.1 && twice.0 == Seq::<crate::diag::Diag>::empty()
        }),
{
    let once = dflt_pat(p, c, tbl);
    match p {
        Pat::Ident { node_id, type_ann, .. } => {
            if type_ann is Some || rib_contains(tbl, node_id) {
            } else {
                assert(rib_contains(once.1, node_id));
            }
        },
        _ => {},
    }
}

/// Defaulting any pattern records an entry for its root unless it is
/// annotated; the recorded entry survives a second run (the second run
/// keeps the recorded value for the root).
pub proof fn lemma_default_pat_records_root(p: Pat, c: Cx, tbl: Rib)
    requires
        !(crate::elab::pat_type_ann(p) is Some),
        !(p is Rest),
    ensures
        rib_contains(dflt_pat(p, c, tbl).1, crate::pat_default::pat_node_id(p)),
{
}

} // verus!
