//! Declaration-level elaboration: generic parameter lists, type aliases
//! and interfaces, each registering its result in the surrounding scope.
//!
//! The generic parameter resolver is two-pass: every parameter is first
//! registered under a bare placeholder so that parameters may reference
//! each other and themselves, constraints and defaults are then
//! elaborated, and finally every constraint is re-expanded against the
//! mapping from parameter names to their elaborated forms, replacing each
//! placeholder with the real structural constraint exactly once.  Repeated
//! names are diagnosed at every occurrence and kept in the result.

use vstd::prelude::*;

use crate::ast::{TsType, TsTypeAliasDecl, TsInterfaceDecl, TsTypeParamDecl, TsTypeParams};
use crate::base::{
    ATOM_ANY, ATOM_BOOLEAN, ATOM_NEVER, ATOM_NULL, ATOM_NUMBER, ATOM_STRING, ATOM_SYMBOL,
    ATOM_UNDEFINED, ATOM_VOID, Atom, KeywordKind, Span,
};
use crate::diag::Diag;
use crate::elab::{
    Analyzer, Cx, cx_inner, elab_extends, elab_members, elab_tps, elab_ty, dup_elems_diags,
    tps_placeholder_scope,
};
use crate::scope::{Scope, ScopeKind, scope_push, scope_register};
use crate::types::{
    Rib, Type, TypeArgs, TypeList, TypeMeta, TypeParam, TypeParamDecl, TypeParams, ci_ty,
    ci_ty_exec, copy_type, copy_type_param, freeze_extends, freeze_members, freeze_type,
    freeze_type_params, fz_extends, fz_members, fz_tps, fz_ty, meta_default, meta_none, meta_of,
    spec_any, subst_tps, with_meta, expand_tps,
};

verus! {

/// How often `sym` is declared in the list.
pub open spec fn tps_count_name(l: TsTypeParams, sym: Atom) -> nat
    decreases l,
{
    match l {
        TsTypeParams::Empty => 0,
        TsTypeParams::More(p, rest) => (if p.name.sym == sym {
            1nat
        } else {
            0nat
        }) + tps_count_name(*rest, sym),
    }
}

/// The duplicate-name diagnostics of a parameter list: one per occurrence
/// of every name declared more than once, at that occurrence's position.
pub open spec fn dup_tp_diags_go(l: TsTypeParams, all: TsTypeParams) -> Seq<Diag>
    decreases l,
{
    match l {
        TsTypeParams::Empty => Seq::empty(),
        TsTypeParams::More(p, rest) => (if tps_count_name(all, p.name.sym) >= 2 {
            seq![Diag::DuplicateName { span: p.name.span, name: p.name.sym }]
        } else {
            Seq::empty()
        }) + dup_tp_diags_go(*rest, all),
    }
}

/// The duplicate-name diagnostics of a parameter list.
pub open spec fn dup_tp_diags(l: TsTypeParams) -> Seq<Diag> {
    dup_tp_diags_go(l, l)
}

/// Whether `sym` is declared somewhere in the list.
pub open spec fn tps_contains_name(l: TsTypeParams, sym: Atom) -> bool
    decreases l,
{
    match l {
        TsTypeParams::Empty => false,
        TsTypeParams::More(p, rest) => p.name.sym == sym || tps_contains_name(*rest, sym),
    }
}

/// A name is declared at least once exactly when the list contains it.
pub proof fn lemma_count_contains(l: TsTypeParams, sym: Atom)
    ensures
        (tps_count_name(l, sym) >= 1) == tps_contains_name(l, sym),
    decreases l,
{
    match l {
        TsTypeParams::Empty => {},
        TsTypeParams::More(p, rest) => {
            lemma_count_contains(*rest, sym);
        },
    }
}

/// Executable membership test on declared names.
pub fn tps_contains_name_exec(l: &TsTypeParams, sym: Atom) -> (r: bool)
    ensures
        r == tps_contains_name(*l, sym),
    decreases *l,
{
    match l {
        TsTypeParams::Empty => false,
        TsTypeParams::More(p, rest) => p.name.sym == sym || tps_contains_name_exec(rest, sym),
    }
}

/// Whether `sym` is declared at least twice.
pub fn tps_name_repeated(l: &TsTypeParams, sym: Atom) -> (r: bool)
    ensures
        r == (tps_count_name(*l, sym) >= 2),
    decreases *l,
{
    match l {
        TsTypeParams::Empty => false,
        TsTypeParams::More(p, rest) => {
            if p.name.sym == sym {
                proof {
                    lemma_count_contains(**rest, sym);
                }
                tps_contains_name_exec(rest, sym)
            } else {
                tps_name_repeated(rest, sym)
            }
        },
    }
}

/// The mapping from parameter names to their elaborated forms, used to
/// re-expand constraints in one pass.
pub open spec fn tps_map(ps: TypeParams) -> Rib
    decreases ps,
{
    match ps {
        TypeParams::Empty => Rib::Empty,
        TypeParams::More(p, rest) => Rib::More(p.name, Type::Param(p), Box::new(tps_map(*rest))),
    }
}

/// Builds the name-to-parameter mapping.
pub fn tps_map_exec(ps: &TypeParams) -> (r: Rib)
    ensures
        r == tps_map(*ps),
    decreases *ps,
{
    match ps {
        TypeParams::Empty => Rib::Empty,
        TypeParams::More(p, rest) => Rib::More(
            p.name,
            Type::Param(copy_type_param(p)),
            Box::new(tps_map_exec(rest)),
        ),
    }
}

/// The scope with every resolved parameter registered, in order.
pub open spec fn register_params(ps: TypeParams, s: Scope) -> Scope
    decreases ps,
{
    match ps {
        TypeParams::Empty => s,
        TypeParams::More(p, rest) => register_params(
            *rest,
            scope_register(s, p.name, Type::Param(p)),
        ),
    }
}

/// Registering resolved parameters changes only the innermost frame.
pub proof fn lemma_register_params_frame(ps: TypeParams, s: Scope)
    ensures
        register_params(ps, s).parent == s.parent,
    decreases ps,
{
    match ps {
        TypeParams::Empty => {},
        TypeParams::More(p, rest) => {
            lemma_register_params_frame(*rest, scope_register(s, p.name, Type::Param(p)));
        },
    }
}

/// Resolution of a generic parameter declaration: duplicate diagnostics,
/// placeholder registration, elaboration, one-pass constraint
/// re-expansion, finalization, and re-registration of the resolved
/// parameters.  Builtin-library mode trusts the declarations and
/// elaborates them verbatim.
pub open spec fn resolve_tpd(d: TsTypeParamDecl, s: Scope, c: Cx, tbl: Rib) -> (
    TypeParamDecl,
    Seq<Diag>,
    Rib,
    Scope,
) {
    if c.is_builtin {
        let e = elab_tps(d.params, s, cx_inner(c), tbl);
        (TypeParamDecl { span: d.span, params: e.0 }, e.1, e.2, register_params(e.0, s))
    } else {
        let dd = dup_tp_diags(d.params);
        let s1 = tps_placeholder_scope(d.params, s);
        let e = elab_tps(d.params, s1, cx_inner(c), tbl);
        let ps2 = fz_tps(subst_tps(e.0, tps_map(e.0)));
        (TypeParamDecl { span: d.span, params: ps2 }, dd + e.1, e.2, register_params(ps2, s1))
    }
}

/// Resolution of an optional generic parameter declaration.
pub open spec fn resolve_tpd_opt(o: Option<TsTypeParamDecl>, s: Scope, c: Cx, tbl: Rib) -> (
    Option<TypeParamDecl>,
    Seq<Diag>,
    Rib,
    Scope,
) {
    match o {
        Option::Some(d) => {
            let r = resolve_tpd(d, s, c, tbl);
            (Option::Some(r.0), r.1, r.2, r.3)
        },
        Option::None => (Option::None, Seq::<Diag>::empty(), tbl, s),
    }
}

/// `t` marked as transitively containing an `infer` capture.
pub open spec fn mark_infer_container(t: Type) -> Type {
    with_meta(t, TypeMeta { contains_infer: true, ..meta_of(t) })
}

/// The list of bare parameter references an intrinsic alias is
/// instantiated with.
pub open spec fn tps_args_list(ps: TypeParams) -> TypeList
    decreases ps,
{
    match ps {
        TypeParams::Empty => TypeList::Empty,
        TypeParams::More(p, rest) => TypeList::More(
            Type::Param(
                TypeParam {
                    span: Span { lo: 0, hi: 0 },
                    name: p.name,
                    constraint: Option::None,
                    default: Option::None,
                    meta: meta_none(),
                },
            ),
            Box::new(tps_args_list(*rest)),
        ),
    }
}

/// The parameter list of an optional declaration.
pub open spec fn tpd_opt_params(o: Option<TypeParamDecl>) -> TypeParams {
    match o {
        Option::Some(d) => d.params,
        Option::None => TypeParams::Empty,
    }
}

/// Elaboration of a type alias declaration: its parameters and body are
/// elaborated in a child frame, the body is marked as an infer-container
/// or protected from expansion, everything is finalized, and the alias is
/// registered in the surrounding scope under its name.  The `intrinsic`
/// keyword body is legal only in builtin-library mode.
pub open spec fn elab_alias_decl(d: TsTypeAliasDecl, s: Scope, c: Cx, tbl: Rib) -> (
    Type,
    Seq<Diag>,
    Rib,
    Scope,
) {
    let s1 = scope_push(s, ScopeKind::Flow);
    let g = resolve_tpd_opt(d.type_params, s1, c, tbl);
    let body = if *d.type_ann matches TsType::Keyword { kind: KeywordKind::Intrinsic, .. } {
        if !c.is_builtin {
            (
                spec_any(alias_ann_span(d), meta_none()),
                seq![Diag::IntrinsicIsBuiltinOnly { span: alias_ann_span(d) }],
                g.2,
            )
        } else {
            (
                Type::Intrinsic {
                    span: d.span,
                    kind: d.id.sym,
                    type_args: Box::new(
                        TypeArgs { span: d.span, params: tps_args_list(tpd_opt_params(g.0)) },
                    ),
                    meta: meta_none(),
                },
                Seq::<Diag>::empty(),
                g.2,
            )
        }
    } else {
        elab_ty(*d.type_ann, g.3, c, g.2)
    };
    let flag = ci_ty(body.0);
    let marked = if flag {
        mark_infer_container(body.0)
    } else {
        crate::elab::prevent_expansion(body.0)
    };
    let alias = fz_ty(
        Type::Alias {
            span: d.span,
            ty: Box::new(fz_ty(marked)),
            type_params: g.0,
            meta: TypeMeta { contains_infer: flag, ..meta_none() },
        },
    );
    (alias, g.1 + body.1, body.2, scope_register(s, d.id.sym, alias))
}

/// The position of an alias body.
pub open spec fn alias_ann_span(d: TsTypeAliasDecl) -> Span {
    match *d.type_ann {
        TsType::Keyword { span, .. } => span,
        _ => d.span,
    }
}

/// Whether an atom is a reserved keyword that may not name an interface.
pub open spec fn is_reserved_type_name(a: Atom) -> bool {
    a == ATOM_ANY || a == ATOM_VOID || a == ATOM_NEVER || a == ATOM_STRING || a == ATOM_NUMBER
        || a == ATOM_BOOLEAN || a == ATOM_NULL || a == ATOM_UNDEFINED || a == ATOM_SYMBOL
}

/// Executable reserved-name test.
pub fn is_reserved_type_name_exec(a: Atom) -> (r: bool)
    ensures
        r == is_reserved_type_name(a),
{
    a == ATOM_ANY || a == ATOM_VOID || a == ATOM_NEVER || a == ATOM_STRING || a == ATOM_NUMBER
        || a == ATOM_BOOLEAN || a == ATOM_NULL || a == ATOM_UNDEFINED || a == ATOM_SYMBOL
}

/// Elaboration of an interface declaration: a reserved name is diagnosed,
/// parameters, `extends` clauses and body are elaborated in a child
/// frame, duplicate members are diagnosed and kept, and the finalized
/// interface is registered in the surrounding scope.
pub open spec fn elab_interface_decl(d: TsInterfaceDecl, s: Scope, c: Cx, tbl: Rib) -> (
    Type,
    Seq<Diag>,
    Rib,
    Scope,
) {
    let nd = if is_reserved_type_name(d.id.sym) {
        seq![Diag::InvalidInterfaceName { span: d.id.span }]
    } else {
        Seq::<Diag>::empty()
    };
    let s1 = scope_push(s, ScopeKind::Flow);
    let g = resolve_tpd_opt(d.type_params, s1, c, tbl);
    let ex = elab_extends(d.extends, g.3, cx_inner(c), g.2);
    let bm = elab_members(d.body, g.3, cx_inner(c), ex.2);
    let iface = fz_ty(
        Type::Interface {
            span: d.span,
            name: d.id.sym,
            type_params: g.0,
            extends: Box::new(fz_extends(ex.0)),
            body: Box::new(fz_members(bm.0)),
            meta: meta_none(),
        },
    );
    (
        iface,
        nd + g.1 + ex.1 + bm.1 + dup_elems_diags(c, bm.0),
        bm.2,
        scope_register(s, d.id.sym, iface),
    )
}

impl Analyzer {
    /// Registers every resolved parameter, in order.
    fn register_resolved_params(&mut self, ps: &TypeParams)
        ensures
            final(self).scope == register_params(*ps, old(self).scope),
            final(self).cx == old(self).cx,
            final(self).storage == old(self).storage,
            final(self).mutations == old(self).mutations,
        decreases *ps,
    {
        match ps {
            TypeParams::Empty => {},
            TypeParams::More(p, rest) => {
                self.register_type(p.name, Type::Param(copy_type_param(p)));
                self.register_resolved_params(rest);
            },
        }
    }

    /// Reports a duplicate-name diagnostic at every occurrence of a name
    /// declared more than once.
    fn dup_tp_walk(&mut self, cur: &TsTypeParams, all: &TsTypeParams)
        ensures
            final(self).storage@ == old(self).storage@ + dup_tp_diags_go(*cur, *all),
            final(self).cx == old(self).cx,
            final(self).scope == old(self).scope,
            final(self).mutations == old(self).mutations,
        decreases *cur,
    {
        match cur {
            TsTypeParams::Empty => {},
            TsTypeParams::More(p, rest) => {
                if tps_name_repeated(all, p.name.sym) {
                    self.report(Diag::DuplicateName { span: p.name.span, name: p.name.sym });
                }
                self.dup_tp_walk(rest, all);
            },
        }
    }

    /// Resolves a generic parameter declaration (the two-pass protocol
    /// described at the head of this module), leaving the placeholder and
    /// resolved registrations in the current frame.
    #[verifier::rlimit(100)]
    #[verifier::spinoff_prover]
    pub fn validate_type_param_decl(&mut self, d: &TsTypeParamDecl) -> (r: TypeParamDecl)
        ensures
            ({
                let o = resolve_tpd(*d, old(self).scope, old(self).cx, old(self).mutations);
                r == o.0 && final(self).storage@ == old(self).storage@ + o.1 && final(self).mutations == o.2
                    && final(self).scope == o.3
            }),
            final(self).scope.parent == old(self).scope.parent,
            final(self).cx == old(self).cx,
    {
        if self.cx.is_builtin {
            let cx0 = self.cx;
            self.cx.is_not_topmost_type = true;
            let ps = self.validate_type_params(&d.params);
            self.cx = cx0;
            self.register_resolved_params(&ps);
            proof {
                lemma_register_params_frame(ps, old(self).scope);
            }
            TypeParamDecl { span: d.span, params: ps }
        } else {
            self.dup_tp_walk(&d.params, &d.params);
            self.register_placeholders(&d.params);
            let cx0 = self.cx;
            self.cx.is_not_topmost_type = true;
            let ps = self.validate_type_params(&d.params);
            self.cx = cx0;
            let m = tps_map_exec(&ps);
            let ps2 = expand_tps(&ps, &m);
            let ps2 = freeze_type_params(ps2);
            self.register_resolved_params(&ps2);
            proof {
                crate::elab::lemma_placeholder_scope_frame(d.params, old(self).scope);
                lemma_register_params_frame(
                    ps2,
                    tps_placeholder_scope(d.params, old(self).scope),
                );
            }
            TypeParamDecl { span: d.span, params: ps2 }
        }
    }

    /// Resolves an optional generic parameter declaration.
    pub fn validate_type_param_decl_opt(&mut self, o: &Option<TsTypeParamDecl>) -> (r: Option<
        TypeParamDecl,
    >)
        ensures
            ({
                let e = resolve_tpd_opt(*o, old(self).scope, old(self).cx, old(self).mutations);
                r == e.0 && final(self).storage@ == old(self).storage@ + e.1 && final(self).mutations == e.2
                    && final(self).scope == e.3
            }),
            final(self).scope.parent == old(self).scope.parent,
            final(self).cx == old(self).cx,
    {
        match o {
            Option::Some(d) => Some(self.validate_type_param_decl(d)),
            Option::None => None,
        }
    }

    /// Builds the bare parameter references of an intrinsic alias.
    fn tps_args_list_exec(ps: &TypeParams) -> (r: TypeList)
        ensures
            r == tps_args_list(*ps),
        decreases *ps,
    {
        match ps {
            TypeParams::Empty => TypeList::Empty,
            TypeParams::More(p, rest) => TypeList::More(
                Type::Param(
                    TypeParam {
                        span: Span { lo: 0, hi: 0 },
                        name: p.name,
                        constraint: None,
                        default: None,
                        meta: meta_default(),
                    },
                ),
                Box::new(Self::tps_args_list_exec(rest)),
            ),
        }
    }

    /// Marks a value as transitively containing an `infer` capture.
    fn mark_infer_container_exec(t: Type) -> (r: Type)
        ensures
            r == mark_infer_container(t),
    {
        let m = crate::types::type_meta(&t);
        crate::types::set_meta(
            t,
            TypeMeta {
                contains_infer: true,
                implicit: m.implicit,
                prevent_generalization: m.prevent_generalization,
                no_expand: m.no_expand,
                prevent_tuple_to_array: m.prevent_tuple_to_array,
                frozen: m.frozen,
            },
        )
    }

    /// Elaborates a type alias declaration and registers the finalized
    /// alias in the surrounding scope under the alias's name.
    #[verifier::rlimit(100)]
    #[verifier::spinoff_prover]
    pub fn validate_type_alias_decl(&mut self, d: &TsTypeAliasDecl) -> (r: Type)
        ensures
            ({
                let o = elab_alias_decl(*d, old(self).scope, old(self).cx, old(self).mutations);
                r == o.0 && final(self).storage@ == old(self).storage@ + o.1 && final(self).mutations == o.2
                    && final(self).scope == o.3
            }),
            final(self).cx == old(self).cx,
    {
        self.push_scope(ScopeKind::Flow);
        let tpd = self.validate_type_param_decl_opt(&d.type_params);
        let is_intrinsic_kw = match &*d.type_ann {
            TsType::Keyword { kind: KeywordKind::Intrinsic, .. } => true,
            _ => false,
        };
        let body: Type = if is_intrinsic_kw {
            let kw_span = match &*d.type_ann {
                TsType::Keyword { span, .. } => *span,
                _ => d.span,
            };
            if !self.cx.is_builtin {
                self.report(Diag::IntrinsicIsBuiltinOnly { span: kw_span });
                crate::types::make_any(kw_span, meta_default())
            } else {
                let args = match &tpd {
                    Option::Some(td) => Self::tps_args_list_exec(&td.params),
                    Option::None => TypeList::Empty,
                };
                Type::Intrinsic {
                    span: d.span,
                    kind: d.id.sym,
                    type_args: Box::new(TypeArgs { span: d.span, params: args }),
                    meta: meta_default(),
                }
            }
        } else {
            self.validate(&d.type_ann)
        };
        self.pop_scope();
        let flag = ci_ty_exec(&body);
        let marked = if flag {
            Self::mark_infer_container_exec(body)
        } else {
            crate::elab::prevent_expansion_exec(body)
        };
        let alias = freeze_type(
            Type::Alias {
                span: d.span,
                ty: Box::new(freeze_type(marked)),
                type_params: tpd,
                meta: TypeMeta {
                    contains_infer: flag,
                    implicit: false,
                    prevent_generalization: false,
                    no_expand: false,
                    prevent_tuple_to_array: false,
                    frozen: false,
                },
            },
        );
        self.register_type(d.id.sym, copy_type(&alias));
        alias
    }

    /// Elaborates an interface declaration and registers the finalized
    /// interface in the surrounding scope under its name.
    #[verifier::rlimit(100)]
    #[verifier::spinoff_prover]
    pub fn validate_ts_interface_decl(&mut self, d: &TsInterfaceDecl) -> (r: Type)
        ensures
            ({
                let o = elab_interface_decl(*d, old(self).scope, old(self).cx, old(self).mutations);
                r == o.0 && final(self).storage@ == old(self).storage@ + o.1 && final(self).mutations == o.2
                    && final(self).scope == o.3
            }),
            final(self).cx == old(self).cx,
    {
        if is_reserved_type_name_exec(d.id.sym) {
            self.report(Diag::InvalidInterfaceName { span: d.id.span });
        }
        self.push_scope(ScopeKind::Flow);
        let tpd = self.validate_type_param_decl_opt(&d.type_params);
        let cx0 = self.cx;
        self.cx.is_not_topmost_type = true;
        let ex = self.validate_extends(&d.extends);
        let bm = self.validate_members(&d.body);
        self.cx = cx0;
        self.report_error_for_duplicate_type_elements(&bm);
        self.pop_scope();
        let iface = freeze_type(
            Type::Interface {
                span: d.span,
                name: d.id.sym,
                type_params: tpd,
                extends: Box::new(freeze_extends(ex)),
                body: Box::new(freeze_members(bm)),
                meta: meta_default(),
            },
        );
        self.register_type(d.id.sym, copy_type(&iface));
        iface
    }
}

} // verus!
