//! Scenario tests for the type-node elaborator, the generic parameter
//! resolver, the implicit-any defaulter and the declaration forms.

use ts_elab::ast::{
    ObjPatProp, ObjPatProps, Pat, PatOpts, TsInterfaceDecl, TsMembers, TsParams, TsTupleElems,
    TsType, TsTypeAliasDecl, TsTypeArgs, TsTypeElement, TsTypeList, TsTypeParam, TsTypeParamDecl,
    TsTypeParams,
};
use ts_elab::base::{
    Accessor, EntityName, Ident, Key, KeywordKind, Span, ATOM_ARRAY, ATOM_STRING,
};
use ts_elab::diag::Diag;
use ts_elab::elab::Analyzer;
use ts_elab::scope::rib_find_exec;
use ts_elab::types::{copy_type, rib_eq, type_eq, type_meta, Type, TypeList, TypeParams};

fn sp(n: u32) -> Span {
    Span { lo: n, hi: n + 1 }
}

fn kw(kind: KeywordKind) -> TsType {
    TsType::Keyword { span: sp(1), kind }
}

fn ident(n: u32, sym: u32) -> Ident {
    Ident { span: sp(n), sym }
}

fn tlist(types: Vec<TsType>) -> TsTypeList {
    let mut out = TsTypeList::Empty;
    for t in types.into_iter().rev() {
        out = TsTypeList::More(t, Box::new(out));
    }
    out
}

fn union_of(types: Vec<TsType>) -> TsType {
    TsType::Union { span: sp(0), types: Box::new(tlist(types)) }
}

fn members_len(mut m: &ts_elab::types::Members) -> usize {
    let mut n = 0;
    loop {
        match m {
            ts_elab::types::Members::Empty => return n,
            ts_elab::types::Members::More(_, rest) => {
                n += 1;
                m = rest;
            }
        }
    }
}

fn union_members(t: &Type) -> Vec<&Type> {
    let mut out = Vec::new();
    if let Type::Union { types, .. } = t {
        let mut cur: &TypeList = types;
        while let TypeList::More(x, rest) = cur {
            out.push(x);
            cur = rest;
        }
    }
    out
}

#[test]
fn union_dedups_to_first_occurrence_order() {
    let mut a = Analyzer::new(0);
    let u = union_of(vec![kw(KeywordKind::Str), kw(KeywordKind::Str), kw(KeywordKind::Num)]);
    let r = a.validate(&u);
    let ms = union_members(&r);
    assert_eq!(ms.len(), 2);
    assert!(matches!(ms[0], Type::Keyword { kind: KeywordKind::Str, .. }));
    assert!(matches!(ms[1], Type::Keyword { kind: KeywordKind::Num, .. }));
    assert!(a.storage.is_empty());
}

#[test]
fn single_member_union_collapses() {
    let mut a = Analyzer::new(0);
    let u = union_of(vec![kw(KeywordKind::Str)]);
    let r = a.validate(&u);
    assert!(matches!(r, Type::Keyword { kind: KeywordKind::Str, .. }));
}

#[test]
fn array_reference_form_matches_array_type_form() {
    let refd = TsType::Ref {
        span: sp(2),
        name: EntityName::Ident(Ident { span: sp(2), sym: ATOM_ARRAY }),
        type_args: Some(Box::new(TsTypeArgs { span: sp(3), params: tlist(vec![kw(
            KeywordKind::Str,
        )]) })),
    };
    let arr = TsType::Array { span: sp(9), elem: Box::new(kw(KeywordKind::Str)) };
    let mut a1 = Analyzer::new(0);
    let mut a2 = Analyzer::new(0);
    let r1 = a1.validate(&refd);
    let r2 = a2.validate(&arr);
    assert!(matches!(r1, Type::Array { .. }));
    assert!(type_eq(&r1, &r2));
    assert!(a1.storage.is_empty());
    assert!(a2.storage.is_empty());
}

#[test]
fn conditional_elaborates_in_order_and_tracks_infer() {
    let cond = TsType::Conditional {
        span: sp(0),
        check_ty: Box::new(kw(KeywordKind::Str)),
        extends_ty: Box::new(kw(KeywordKind::Num)),
        true_ty: Box::new(kw(KeywordKind::Bool)),
        false_ty: Box::new(TsType::Infer {
            span: sp(5),
            type_param: TsTypeParam {
                span: sp(5),
                name: ident(5, 100),
                constraint: None,
                default: None,
            },
        }),
    };
    let mut a = Analyzer::new(0);
    let r = a.validate(&cond);
    match &r {
        Type::Conditional { check_ty, extends_ty, true_ty, false_ty, meta, .. } => {
            assert!(matches!(&**check_ty, Type::Keyword { kind: KeywordKind::Str, .. }));
            assert!(matches!(&**extends_ty, Type::Keyword { kind: KeywordKind::Num, .. }));
            assert!(matches!(&**true_ty, Type::Keyword { kind: KeywordKind::Bool, .. }));
            assert!(matches!(&**false_ty, Type::Infer { .. }));
            assert!(meta.contains_infer);
        }
        other => panic!("not a conditional: {:?}", other),
    }
}

#[test]
fn conditional_without_infer_leaves_flag_clear() {
    let cond = TsType::Conditional {
        span: sp(0),
        check_ty: Box::new(kw(KeywordKind::Str)),
        extends_ty: Box::new(kw(KeywordKind::Num)),
        true_ty: Box::new(kw(KeywordKind::Bool)),
        false_ty: Box::new(kw(KeywordKind::Undefined)),
    };
    let mut a = Analyzer::new(0);
    let r = a.validate(&cond);
    assert!(!type_meta(&r).contains_infer);
}

#[test]
fn duplicate_type_params_report_each_occurrence_and_keep_both() {
    let d = TsTypeParamDecl {
        span: sp(0),
        params: TsTypeParams::More(
            TsTypeParam { span: sp(1), name: ident(1, 100), constraint: None, default: None },
            Box::new(TsTypeParams::More(
                TsTypeParam {
                    span: sp(2),
                    name: ident(2, 100),
                    constraint: None,
                    default: None,
                },
                Box::new(TsTypeParams::Empty),
            )),
        ),
    };
    let mut a = Analyzer::new(0);
    let r = a.validate_type_param_decl(&d);
    assert_eq!(
        a.storage,
        vec![
            Diag::DuplicateName { span: sp(1), name: 100 },
            Diag::DuplicateName { span: sp(2), name: 100 },
        ]
    );
    let mut n = 0;
    let mut cur = &r.params;
    while let TypeParams::More(p, rest) = cur {
        assert_eq!(p.name, 100);
        n += 1;
        cur = rest;
    }
    assert_eq!(n, 2);
}

#[test]
fn resolver_expands_forward_constraint_references() {
    let d = TsTypeParamDecl {
        span: sp(0),
        params: TsTypeParams::More(
            TsTypeParam { span: sp(1), name: ident(1, 100), constraint: None, default: None },
            Box::new(TsTypeParams::More(
                TsTypeParam {
                    span: sp(2),
                    name: ident(2, 101),
                    constraint: Some(Box::new(TsType::Ref {
                        span: sp(3),
                        name: EntityName::Ident(ident(3, 100)),
                        type_args: None,
                    })),
                    default: None,
                },
                Box::new(TsTypeParams::Empty),
            )),
        ),
    };
    let mut a = Analyzer::new(0);
    let r = a.validate_type_param_decl(&d);
    match &r.params {
        TypeParams::More(_, rest) => match &**rest {
            TypeParams::More(u, _) => match &u.constraint {
                Some(c) => match &**c {
                    Type::Param(p) => assert_eq!(p.name, 100),
                    other => panic!("constraint is not a parameter: {:?}", other),
                },
                None => panic!("no constraint"),
            },
            other => panic!("missing second parameter: {:?}", other),
        },
        other => panic!("missing parameters: {:?}", other),
    }
    assert!(a.storage.is_empty());
}

#[test]
fn defaulter_records_nested_tuple_and_is_idempotent() {
    // [a, [b, c]] with no annotations anywhere
    let inner = Pat::Array {
        node_id: 3,
        span: sp(3),
        elems: Box::new(PatOpts::More(
            Some(Pat::Ident { node_id: 4, id: ident(4, 201), optional: false, type_ann: None }),
            Box::new(PatOpts::More(
                Some(Pat::Ident {
                    node_id: 5,
                    id: ident(5, 202),
                    optional: false,
                    type_ann: None,
                }),
                Box::new(PatOpts::Empty),
            )),
        )),
        type_ann: None,
    };
    let outer = Pat::Array {
        node_id: 1,
        span: sp(1),
        elems: Box::new(PatOpts::More(
            Some(Pat::Ident { node_id: 2, id: ident(2, 200), optional: false, type_ann: None }),
            Box::new(PatOpts::More(Some(inner), Box::new(PatOpts::Empty))),
        )),
        type_ann: None,
    };
    let mut a = Analyzer::new(0);
    a.default_any_array_pat(&outer);
    let first = match rib_find_exec(&a.mutations, 1) {
        Some(t) => copy_type(t),
        None => panic!("nothing recorded"),
    };
    match &first {
        Type::Tuple { elems, .. } => {
            let mut tys = Vec::new();
            let mut cur = &**elems;
            while let ts_elab::types::TupleElems::More(e, rest) = cur {
                tys.push(&e.ty);
                cur = rest;
            }
            assert_eq!(tys.len(), 2);
            assert!(matches!(tys[0], Type::Keyword { kind: KeywordKind::Any, .. }));
            match tys[1] {
                Type::Tuple { elems, .. } => {
                    let mut leaves = Vec::new();
                    let mut cur = &**elems;
                    while let ts_elab::types::TupleElems::More(e, rest) = cur {
                        leaves.push(&e.ty);
                        cur = rest;
                    }
                    assert_eq!(leaves.len(), 2);
                    for leaf in leaves {
                        assert!(matches!(leaf, Type::Keyword { kind: KeywordKind::Any, .. }));
                    }
                }
                other => panic!("second element is not a tuple: {:?}", other),
            }
        }
        other => panic!("not a tuple: {:?}", other),
    }
    let table_once = ts_elab::types::copy_rib(&a.mutations);
    a.default_any_array_pat(&outer);
    let second = match rib_find_exec(&a.mutations, 1) {
        Some(t) => copy_type(t),
        None => panic!("recording lost"),
    };
    assert!(type_eq(&first, &second));
    assert!(rib_eq(&table_once, &a.mutations));
    assert!(a.storage.is_empty());
}

#[test]
fn implicit_any_reported_under_rule() {
    let p = Pat::Ident { node_id: 7, id: ident(7, 300), optional: false, type_ann: None };
    let mut a = Analyzer::new(0);
    a.cx.no_implicit_any = true;
    a.default_any_ident(&p);
    assert_eq!(a.storage, vec![Diag::ImplicitAny { span: sp(7) }]);
    assert!(rib_find_exec(&a.mutations, 7).is_some());
    // a second run changes nothing
    a.default_any_ident(&p);
    assert_eq!(a.storage.len(), 1);
}

fn plain_prop(span_at: u32, key_sym: u32) -> TsTypeElement {
    TsTypeElement::Property {
        span: sp(span_at),
        key: Key::Normal { span: sp(span_at), sym: key_sym },
        readonly: false,
        optional: false,
        accessor: Accessor { getter: false, setter: false },
        params: TsParams::Empty,
        type_params: None,
        type_ann: Some(Box::new(kw(KeywordKind::Str))),
    }
}

#[test]
fn duplicate_properties_report_both_occurrences_and_keep_members() {
    let lit = TsType::TypeLit {
        span: sp(0),
        members: Box::new(TsMembers::More(
            plain_prop(1, 400),
            Box::new(TsMembers::More(plain_prop(2, 400), Box::new(TsMembers::Empty))),
        )),
    };
    let mut a = Analyzer::new(0);
    let r = a.validate(&lit);
    assert_eq!(
        a.storage,
        vec![
            Diag::DuplicateNameWithoutName { span: sp(1) },
            Diag::DuplicateNameWithoutName { span: sp(2) },
        ]
    );
    match &r {
        Type::TypeLit { members, .. } => assert_eq!(members_len(members), 2),
        other => panic!("not a type literal: {:?}", other),
    }
}

#[test]
fn symbol_keyed_properties_are_exempt_from_duplicate_check() {
    let symbol_prop = |span_at: u32| TsTypeElement::Property {
        span: sp(span_at),
        key: Key::Symbol { span: sp(span_at), id: 9 },
        readonly: false,
        optional: false,
        accessor: Accessor { getter: false, setter: false },
        params: TsParams::Empty,
        type_params: None,
        type_ann: Some(Box::new(kw(KeywordKind::Str))),
    };
    let lit = TsType::TypeLit {
        span: sp(0),
        members: Box::new(TsMembers::More(
            symbol_prop(1),
            Box::new(TsMembers::More(symbol_prop(2), Box::new(TsMembers::Empty))),
        )),
    };
    let mut a = Analyzer::new(0);
    a.validate(&lit);
    assert!(a.storage.is_empty());
}

#[test]
fn unresolved_name_with_variable_in_scope_gets_specific_diagnostic() {
    let mut a = Analyzer::new(0);
    a.declare_var(500);
    a.cx.in_actual_type = true;
    let r = a.validate(&TsType::Ref {
        span: sp(4),
        name: EntityName::Ident(ident(4, 500)),
        type_args: None,
    });
    assert_eq!(a.storage, vec![Diag::NoSuchTypeButVarExists { span: sp(4), name: 500 }]);
    assert!(matches!(r, Type::Ref { .. }));
}

#[test]
fn unresolved_name_without_variable_gets_generic_diagnostic() {
    let mut a = Analyzer::new(0);
    a.cx.in_actual_type = true;
    a.validate(&TsType::Ref {
        span: sp(4),
        name: EntityName::Ident(ident(4, 501)),
        type_args: None,
    });
    assert_eq!(a.storage, vec![Diag::NoSuchType { span: sp(4), name: 501 }]);
}

#[test]
fn intrinsic_keyword_outside_builtin_reports_and_recovers() {
    let mut a = Analyzer::new(0);
    let r = a.validate(&kw(KeywordKind::Intrinsic));
    assert_eq!(a.storage, vec![Diag::IntrinsicIsBuiltinOnly { span: sp(1) }]);
    assert!(matches!(r, Type::Keyword { kind: KeywordKind::Any, .. }));
}

#[test]
fn alias_resolves_to_identical_finalized_value() {
    let d = TsTypeAliasDecl {
        span: sp(0),
        id: ident(0, 600),
        type_params: None,
        type_ann: Box::new(kw(KeywordKind::Str)),
    };
    let mut a = Analyzer::new(0);
    let r = a.validate_type_alias_decl(&d);
    assert!(type_meta(&r).frozen);
    let first = a.scope.find_type(600).expect("registered");
    let second = a.scope.find_type(600).expect("registered");
    assert!(type_eq(&first, &second));
    assert!(type_eq(&first, &r));
    assert!(matches!(first, Type::Alias { .. }));
    assert!(type_meta(&first).frozen);
}

#[test]
fn reserved_interface_name_is_reported() {
    let d = TsInterfaceDecl {
        span: sp(0),
        id: ident(0, ATOM_STRING),
        type_params: None,
        extends: ts_elab::ast::TsExtends::Empty,
        body_span: sp(0),
        body: TsMembers::Empty,
    };
    let mut a = Analyzer::new(0);
    let r = a.validate_ts_interface_decl(&d);
    assert_eq!(a.storage, vec![Diag::InvalidInterfaceName { span: sp(0) }]);
    assert!(matches!(r, Type::Interface { .. }));
    assert!(type_meta(&r).frozen);
}

#[test]
fn tuple_keeps_fixed_arity_flag() {
    let t = TsType::Tuple {
        span: sp(0),
        elems: Box::new(TsTupleElems::More(
            ts_elab::ast::TsTupleElement { span: sp(1), label: None, ty: kw(KeywordKind::Str) },
            Box::new(TsTupleElems::Empty),
        )),
    };
    let mut a = Analyzer::new(0);
    let r = a.validate(&t);
    assert!(type_meta(&r).prevent_tuple_to_array);
}

#[test]
fn parameter_passthrough_preserves_identity() {
    let d = TsTypeParamDecl {
        span: sp(0),
        params: TsTypeParams::More(
            TsTypeParam { span: sp(1), name: ident(1, 700), constraint: None, default: None },
            Box::new(TsTypeParams::Empty),
        ),
    };
    let mut a = Analyzer::new(0);
    a.validate_type_param_decl(&d);
    let r = a.validate(&TsType::Ref {
        span: sp(2),
        name: EntityName::Ident(ident(2, 700)),
        type_args: None,
    });
    match r {
        Type::Param(p) => assert_eq!(p.name, 700),
        other => panic!("reference to a parameter is not passed through: {:?}", other),
    }
    assert!(a.storage.is_empty());
}

#[test]
fn object_pattern_defaults_optional_for_defaulted_keys() {
    let obj = Pat::Object {
        node_id: 11,
        span: sp(11),
        props: Box::new(ObjPatProps::More(
            ObjPatProp::Assign { key: ident(12, 800), has_value: true },
            Box::new(ObjPatProps::More(
                ObjPatProp::Rest { span: sp(13) },
                Box::new(ObjPatProps::Empty),
            )),
        )),
        type_ann: None,
    };
    let mut a = Analyzer::new(0);
    a.default_any_object(&obj);
    let rec = rib_find_exec(&a.mutations, 11).expect("recorded");
    match rec {
        Type::TypeLit { members, meta, .. } => {
            assert_eq!(members_len(members), 1);
            assert!(meta.implicit);
            match members.as_ref() {
                ts_elab::types::Members::More(
                    ts_elab::types::TypeElement::Property { optional, key, .. },
                    _,
                ) => {
                    assert!(*optional);
                    assert!(matches!(key, Key::Normal { sym: 800, .. }));
                }
                other => panic!("not a property: {:?}", other),
            }
        }
        other => panic!("not a type literal: {:?}", other),
    }
}

#[test]
fn unresolved_qualified_name_head_gets_generic_diagnostic() {
    let mut a = Analyzer::new(0);
    let q = TsType::Ref {
        span: sp(6),
        name: EntityName::Qualified {
            span: sp(6),
            left: Box::new(EntityName::Ident(ident(6, 900))),
            right: 901,
        },
        type_args: None,
    };
    let r = a.validate(&q);
    assert_eq!(a.storage, vec![Diag::NoSuchType { span: sp(6), name: 900 }]);
    assert!(matches!(r, Type::Ref { .. }));
}

#[test]
fn qualified_name_with_resolved_head_reports_nothing() {
    let d = TsTypeAliasDecl {
        span: sp(0),
        id: ident(0, 900),
        type_params: None,
        type_ann: Box::new(kw(KeywordKind::Str)),
    };
    let mut a = Analyzer::new(0);
    a.validate_type_alias_decl(&d);
    a.validate(&TsType::Ref {
        span: sp(6),
        name: EntityName::Qualified {
            span: sp(6),
            left: Box::new(EntityName::Ident(ident(6, 900))),
            right: 901,
        },
        type_args: None,
    });
    assert!(a.storage.is_empty());
}

struct FixedLoader {
    surface: Type,
}

impl ts_elab::loader::Load for FixedLoader {
    fn module_id(&self, _base: u32, _src: u32) -> Option<u32> {
        Some(1)
    }

    fn is_in_same_circular_group(&self, _base: u32, _src: u32) -> bool {
        true
    }

    fn load_circular_dep(
        &self,
        _base: u32,
        _src: u32,
        _partial: &ts_elab::types::ModuleTypeData,
    ) -> Result<Type, Diag> {
        Ok(copy_type(&self.surface))
    }

    fn load_non_circular_dep(&self, _base: u32, _src: u32) -> Result<Type, Diag> {
        Ok(copy_type(&self.surface))
    }

    fn declare_module(&mut self, _name: u32, _module: Type) {}
}

fn frozen_module(id: u32) -> Type {
    ts_elab::types::freeze_type(Type::Module {
        span: sp(0),
        id,
        exports: Box::new(ts_elab::types::ModuleTypeData {
            types: ts_elab::types::Rib::Empty,
            vars: ts_elab::types::Rib::Empty,
        }),
        meta: ts_elab::types::meta_default(),
    })
}

#[test]
fn circular_pair_publishes_finalized_surfaces() {
    let loader = FixedLoader { surface: frozen_module(1) };
    let empty = ts_elab::types::ModuleTypeData {
        types: ts_elab::types::Rib::Empty,
        vars: ts_elab::types::Rib::Empty,
    };
    let pair = ts_elab::loader::resolve_circular_pair(&loader, 10, 11, &empty, &empty)
        .expect("both loads succeed");
    assert!(matches!(pair.0, Type::Module { .. }));
    assert!(matches!(pair.1, Type::Module { .. }));
    assert!(type_meta(&pair.0).frozen);
    assert!(type_meta(&pair.1).frozen);
}

#[test]
fn circular_fixpoint_stops_on_unchanged_surfaces() {
    let loader = FixedLoader { surface: frozen_module(2) };
    let empty = ts_elab::types::ModuleTypeData {
        types: ts_elab::types::Rib::Empty,
        vars: ts_elab::types::Rib::Empty,
    };
    let pair = ts_elab::loader::resolve_circular_pair_to_fixpoint(&loader, 10, 11, &empty, 8)
        .expect("the group resolves");
    assert!(type_meta(&pair.0).frozen);
    assert!(type_meta(&pair.1).frozen);
    assert!(type_eq(&pair.0, &pair.1));
}
