//! The implicit-any defaulter.
//!
//! For a binding pattern lacking an explicit type annotation it synthesizes
//! a placeholder type and records it in the mutation side-table, keyed by
//! the pattern's node identity, without touching the pattern itself.
//! Defaulting is idempotent: a second run over the same pattern and table
//! sees the recorded entry and leaves it unchanged.

use vstd::prelude::*;

use crate::ast::{ObjPatProp, ObjPatProps, Pat, PatOpts, TsParams};
use crate::base::{Key, Span};
use crate::diag::Diag;
use crate::elab::Cx;
use crate::types::{
    Members, Rib, TupleElement, TupleElems, Type, TypeElement, TypeMeta, meta_none, rib_contains,
    rib_find, spec_any,
};

verus! {

/// Metadata of a placeholder synthesized for an unannotated binding.
pub open spec fn implicit_meta() -> TypeMeta {
    TypeMeta {
        contains_infer: false,
        implicit: true,
        prevent_generalization: false,
        no_expand: false,
        prevent_tuple_to_array: false,
        frozen: false,
    }
}

/// Builds the metadata of an implicit placeholder.
pub fn implicit_meta_exec() -> (m: TypeMeta)
    ensures
        m == implicit_meta(),
{
    TypeMeta {
        contains_infer: false,
        implicit: true,
        prevent_generalization: false,
        no_expand: false,
        prevent_tuple_to_array: false,
        frozen: false,
    }
}

/// The table with the first entry for `key` removed, and that entry's type.
pub open spec fn rib_take(tbl: Rib, key: u32) -> (Option<Type>, Rib)
    decreases tbl,
{
    match tbl {
        Rib::Empty => (Option::None, Rib::Empty),
        Rib::More(n, t, rest) => if n == key {
            (Option::Some(t), *rest)
        } else {
            let (found, rest2) = rib_take(*rest, key);
            (found, Rib::More(n, t, Box::new(rest2)))
        },
    }
}

/// Removes and returns the first entry for `key`.
pub fn rib_take_exec(tbl: Rib, key: u32) -> (r: (Option<Type>, Rib))
    ensures
        r == rib_take(tbl, key),
    decreases tbl,
{
    match tbl {
        Rib::Empty => (None, Rib::Empty),
        Rib::More(n, t, rest) => {
            if n == key {
                (Some(t), *rest)
            } else {
                let (found, rest2) = rib_take_exec(*rest, key);
                (found, Rib::More(n, t, Box::new(rest2)))
            }
        },
    }
}

/// The table extended with `(key, ty)` unless `key` is already present.
pub open spec fn rib_insert_if_absent(tbl: Rib, key: u32, ty: Type) -> Rib {
    if rib_contains(tbl, key) {
        tbl
    } else {
        Rib::More(key, ty, Box::new(tbl))
    }
}

/// Whether the rule flags ask for an implicit-any diagnostic on an
/// unannotated identifier in this context.
pub open spec fn implicit_any_reported(c: Cx) -> bool {
    c.no_implicit_any && ({
        let no_type_ann = !c.in_argument && !(c.in_return_arg && c.in_fn_with_return_type)
            && !c.in_assign_rhs;
        no_type_ann || c.in_useless_expr_for_seq || c.check_for_implicit_any
    })
}

/// Effect of defaulting one pattern: the diagnostics reported and the
/// table afterwards.
pub open spec fn dflt_pat(p: Pat, c: Cx, tbl: Rib) -> (Seq<Diag>, Rib)
    decreases p, 0int,
{
    match p {
        Pat::Ident { node_id, id, type_ann, .. } => if type_ann is Some || rib_contains(
            tbl,
            node_id,
        ) {
            (Seq::empty(), tbl)
        } else {
            (
                if implicit_any_reported(c) {
                    seq![Diag::ImplicitAny { span: id.span }]
                } else {
                    Seq::empty()
                },
                Rib::More(node_id, spec_any(Span { lo: 0, hi: 0 }, implicit_meta()), Box::new(tbl)),
            )
        },
        Pat::Array { node_id, elems, type_ann, .. } => if type_ann is Some {
            (Seq::empty(), tbl)
        } else {
            let (es, d, tbl2) = dflt_array_elems(*elems, c, tbl);
            (
                d,
                rib_insert_if_absent(
                    tbl2,
                    node_id,
                    Type::Tuple {
                        span: Span { lo: 0, hi: 0 },
                        elems: Box::new(es),
                        meta: meta_none(),
                    },
                ),
            )
        },
        Pat::Object { node_id, props, type_ann, .. } => if type_ann is Some {
            (Seq::empty(), tbl)
        } else {
            let (ms, d, tbl2) = dflt_obj_props(*props, c, tbl);
            (
                d,
                rib_insert_if_absent(
                    tbl2,
                    node_id,
                    Type::TypeLit {
                        span: Span { lo: 0, hi: 0 },
                        members: Box::new(ms),
                        specified: false,
                        meta: implicit_meta(),
                    },
                ),
            )
        },
        Pat::Rest { .. } => (Seq::empty(), tbl),
    }
}

/// Effect of defaulting the elements of an array pattern: the synthesized
/// tuple elements, the diagnostics, and the table afterwards.  A nested
/// array or object pattern is defaulted and its entry taken back out of
/// the table; every other element becomes a plain `any`.
pub open spec fn dflt_array_elems(l: PatOpts, c: Cx, tbl: Rib) -> (TupleElems, Seq<Diag>, Rib)
    decreases l, 1int,
{
    match l {
        PatOpts::Empty => (TupleElems::Empty, Seq::empty(), tbl),
        PatOpts::More(e, rest) => {
            let (ty, d, tbl2) = dflt_one_elem(e, c, tbl);
            let (es, d2, tbl3) = dflt_array_elems(*rest, c, tbl2);
            (
                TupleElems::More(
                    TupleElement { span: elem_span(e), label: Option::None, ty },
                    Box::new(es),
                ),
                d + d2,
                tbl3,
            )
        },
    }
}

/// The span of an array-pattern element; a hole has none.
pub open spec fn elem_span(e: Option<Pat>) -> Span {
    match e {
        Option::Some(p) => pat_span(p),
        Option::None => Span { lo: 0, hi: 0 },
    }
}

/// The span of a pattern.
pub open spec fn pat_span(p: Pat) -> Span {
    match p {
        Pat::Ident { id, .. } => id.span,
        Pat::Array { span, .. } => span,
        Pat::Object { span, .. } => span,
        Pat::Rest { span, .. } => span,
    }
}

/// Effect of defaulting one array-pattern element.
pub open spec fn dflt_one_elem(e: Option<Pat>, c: Cx, tbl: Rib) -> (Type, Seq<Diag>, Rib)
    decreases e, 1int,
{
    match e {
        Option::Some(p) => match p {
            Pat::Array { node_id, .. } => {
                let (d, tbl2) = dflt_pat(p, c, tbl);
                let (found, tbl3) = rib_take(tbl2, node_id);
                (taken_or_any(found), d, tbl3)
            },
            Pat::Object { node_id, .. } => {
                let (d, tbl2) = dflt_pat(p, c, tbl);
                let (found, tbl3) = rib_take(tbl2, node_id);
                (taken_or_any(found), d, tbl3)
            },
            _ => (spec_any(Span { lo: 0, hi: 0 }, meta_none()), Seq::empty(), tbl),
        },
        Option::None => (spec_any(Span { lo: 0, hi: 0 }, meta_none()), Seq::empty(), tbl),
    }
}

/// The taken entry, or `any` where none was recorded (an annotated nested
/// pattern records nothing).
pub open spec fn taken_or_any(found: Option<Type>) -> Type {
    match found {
        Option::Some(t) => t,
        Option::None => spec_any(Span { lo: 0, hi: 0 }, meta_none()),
    }
}

/// Effect of defaulting the properties of an object pattern: the
/// synthesized members, the diagnostics, and the table afterwards.
pub open spec fn dflt_obj_props(l: ObjPatProps, c: Cx, tbl: Rib) -> (Members, Seq<Diag>, Rib)
    decreases l, 1int,
{
    match l {
        ObjPatProps::Empty => (Members::Empty, Seq::empty(), tbl),
        ObjPatProps::More(prop, rest) => match prop {
            ObjPatProp::KeyValue { key, value } => {
                let (d, tbl2) = dflt_nested_value(*value, c, tbl);
                let (found, tbl3) = rib_take(tbl2, pat_node_id(*value));
                let (ms, d2, tbl4) = dflt_obj_props(*rest, c, tbl3);
                (
                    Members::More(obj_member(key, false, opt_box(found)), Box::new(ms)),
                    d + d2,
                    tbl4,
                )
            },
            ObjPatProp::Assign { key, has_value } => {
                let (ms, d2, tbl2) = dflt_obj_props(*rest, c, tbl);
                (
                    Members::More(
                        obj_member(
                            Key::Normal { span: key.span, sym: key.sym },
                            has_value,
                            Option::None,
                        ),
                        Box::new(ms),
                    ),
                    d2,
                    tbl2,
                )
            },
            ObjPatProp::Rest { .. } => dflt_obj_props(*rest, c, tbl),
        },
    }
}

/// Defaulting of a key-value sub-pattern: only nested array and object
/// patterns are defaulted.
pub open spec fn dflt_nested_value(p: Pat, c: Cx, tbl: Rib) -> (Seq<Diag>, Rib)
    decreases p, 1int,
{
    match p {
        Pat::Array { .. } => dflt_pat(p, c, tbl),
        Pat::Object { .. } => dflt_pat(p, c, tbl),
        _ => (Seq::empty(), tbl),
    }
}

/// The node identity of a pattern.
pub open spec fn pat_node_id(p: Pat) -> u32 {
    match p {
        Pat::Ident { node_id, .. } => node_id,
        Pat::Array { node_id, .. } => node_id,
        Pat::Object { node_id, .. } => node_id,
        Pat::Rest { node_id, .. } => node_id,
    }
}

/// Boxes a taken entry for use as a property's type annotation.
pub open spec fn opt_box(found: Option<Type>) -> Option<Box<Type>> {
    match found {
        Option::Some(t) => Option::Some(Box::new(t)),
        Option::None => Option::None,
    }
}

/// The property member synthesized for one object-pattern property.
pub open spec fn obj_member(key: Key, optional: bool, type_ann: Option<Box<Type>>) -> TypeElement {
    TypeElement::Property {
        span: Span { lo: 0, hi: 0 },
        key,
        readonly: false,
        optional,
        accessor: crate::base::Accessor { getter: false, setter: false },
        params: crate::types::Params::Empty,
        type_ann,
        type_params: Option::None,
    }
}

/// Effect of defaulting every parameter of a function-like signature, in
/// order.
pub open spec fn dflt_params(l: TsParams, c: Cx, tbl: Rib) -> (Seq<Diag>, Rib)
    decreases l, 1int,
{
    match l {
        TsParams::Empty => (Seq::empty(), tbl),
        TsParams::More(p, rest) => {
            let (d, tbl2) = dflt_param(p, c, tbl);
            let (d2, tbl3) = dflt_params(*rest, c, tbl2);
            (d + d2, tbl3)
        },
    }
}

/// Effect of defaulting one parameter: rest parameters are left alone.
pub open spec fn dflt_param(p: Pat, c: Cx, tbl: Rib) -> (Seq<Diag>, Rib)
    decreases p, 1int,
{
    match p {
        Pat::Rest { .. } => (Seq::empty(), tbl),
        _ => dflt_pat(p, c, tbl),
    }
}

} // verus!

verus! {

broadcast use vstd::seq_lib::group_seq_properties;

use crate::elab::Analyzer;

impl Analyzer {
    /// Takes the mutation table out, leaving an empty one in its place.
    fn mutations_take(&mut self) -> (r: Rib)
        ensures
            r == old(self).mutations,
            final(self).cx == old(self).cx,
            final(self).scope == old(self).scope,
            final(self).storage == old(self).storage,
    {
        let mut tmp = Rib::Empty;
        core::mem::swap(&mut tmp, &mut self.mutations);
        tmp
    }

    /// Records `ty` for `key` unless an entry already exists.
    fn record_if_absent(&mut self, key: u32, ty: Type)
        ensures
            final(self).mutations == rib_insert_if_absent(old(self).mutations, key, ty),
            final(self).cx == old(self).cx,
            final(self).scope == old(self).scope,
            final(self).storage == old(self).storage,
    {
        let present = match crate::scope::rib_find_exec(&self.mutations, key) {
            Option::Some(_) => true,
            Option::None => false,
        };
        if !present {
            let tbl = self.mutations_take();
            self.mutations = Rib::More(key, ty, Box::new(tbl));
        }
    }

    /// Removes and returns the recorded entry for `key`, if any.
    fn take_recorded(&mut self, key: u32) -> (r: Option<Type>)
        ensures
            ({
                let o = rib_take(old(self).mutations, key);
                r == o.0 && final(self).mutations == o.1
            }),
            final(self).cx == old(self).cx,
            final(self).scope == old(self).scope,
            final(self).storage == old(self).storage,
    {
        let tbl = self.mutations_take();
        let (found, rest) = rib_take_exec(tbl, key);
        self.mutations = rest;
        found
    }

    /// Handles implicit defaults for one pattern.
    pub fn default_any_pat(&mut self, p: &Pat)
        ensures
            ({
                let o = dflt_pat(*p, old(self).cx, old(self).mutations);
                final(self).storage@ == old(self).storage@ + o.0 && final(self).mutations == o.1
            }),
            final(self).cx == old(self).cx,
            final(self).scope == old(self).scope,
        decreases *p, 2int,
    {
        match p {
            Pat::Ident { .. } => self.default_any_ident(p),
            Pat::Array { .. } => self.default_any_array_pat(p),
            Pat::Object { .. } => self.default_any_object(p),
            Pat::Rest { .. } => {},
        }
    }

    /// Handles implicit defaults for an identifier pattern: if nothing is
    /// annotated or recorded, an implicit `any` is recorded, with a
    /// diagnostic when the no-implicit-any rule demands one.
    #[verifier::rlimit(100)]
    #[verifier::spinoff_prover]
    pub fn default_any_ident(&mut self, p: &Pat)
        requires
            p is Ident,
        ensures
            ({
                let o = dflt_pat(*p, old(self).cx, old(self).mutations);
                final(self).storage@ == old(self).storage@ + o.0 && final(self).mutations == o.1
            }),
            final(self).cx == old(self).cx,
            final(self).scope == old(self).scope,
        decreases *p, 1int,
    {
        match p {
            Pat::Ident { node_id, id, type_ann, .. } => {
                if let Option::Some(_) = type_ann {
                    return ;
                }
                let present = match crate::scope::rib_find_exec(&self.mutations, *node_id) {
                    Option::Some(_) => true,
                    Option::None => false,
                };
                if present {
                    return ;
                }
                let c = self.cx;
                if c.no_implicit_any {
                    let no_type_ann = !c.in_argument && !(c.in_return_arg
                        && c.in_fn_with_return_type) && !c.in_assign_rhs;
                    if no_type_ann || c.in_useless_expr_for_seq || c.check_for_implicit_any {
                        self.report(Diag::ImplicitAny { span: id.span });
                    }
                }
                let any = crate::types::make_any(Span { lo: 0, hi: 0 }, implicit_meta_exec());
                let tbl = self.mutations_take();
                self.mutations = Rib::More(*node_id, any, Box::new(tbl));
            },
            _ => {},
        }
    }

    /// Handles implicit defaults for an array pattern: each element is
    /// defaulted and the results are composed into a fixed-arity tuple,
    /// recorded for the pattern.
    #[verifier::rlimit(100)]
    #[verifier::spinoff_prover]
    pub fn default_any_array_pat(&mut self, p: &Pat)
        requires
            p is Array,
        ensures
            ({
                let o = dflt_pat(*p, old(self).cx, old(self).mutations);
                final(self).storage@ == old(self).storage@ + o.0 && final(self).mutations == o.1
            }),
            final(self).cx == old(self).cx,
            final(self).scope == old(self).scope,
        decreases *p, 1int,
    {
        match p {
            Pat::Array { node_id, elems, type_ann, .. } => {
                if let Option::Some(_) = type_ann {
                    return ;
                }
                let es = self.default_any_array_elems(elems);
                self.record_if_absent(
                    *node_id,
                    Type::Tuple {
                        span: Span { lo: 0, hi: 0 },
                        elems: Box::new(es),
                        meta: crate::types::meta_default(),
                    },
                );
            },
            _ => {},
        }
    }

    /// Defaults the elements of an array pattern, in order.
    #[verifier::rlimit(100)]
    #[verifier::spinoff_prover]
    fn default_any_array_elems(&mut self, l: &PatOpts) -> (r: TupleElems)
        ensures
            ({
                let o = dflt_array_elems(*l, old(self).cx, old(self).mutations);
                r == o.0 && final(self).storage@ == old(self).storage@ + o.1 && final(self).mutations == o.2
            }),
            final(self).cx == old(self).cx,
            final(self).scope == old(self).scope,
        decreases *l, 2int,
    {
        match l {
            PatOpts::Empty => TupleElems::Empty,
            PatOpts::More(e, rest) => {
                let span = match e {
                    Option::Some(q) => match q {
                        Pat::Ident { id, .. } => id.span,
                        Pat::Array { span, .. } => *span,
                        Pat::Object { span, .. } => *span,
                        Pat::Rest { span, .. } => *span,
                    },
                    Option::None => Span { lo: 0, hi: 0 },
                };
                let ty = self.default_one_elem(e);
                let es = self.default_any_array_elems(rest);
                TupleElems::More(
                    TupleElement { span, label: None, ty },
                    Box::new(es),
                )
            },
        }
    }

    /// Defaults one array-pattern element: nested array and object
    /// patterns recurse; everything else becomes `any`.
    #[verifier::rlimit(100)]
    #[verifier::spinoff_prover]
    fn default_one_elem(&mut self, e: &Option<Pat>) -> (r: Type)
        ensures
            ({
                let o = dflt_one_elem(*e, old(self).cx, old(self).mutations);
                r == o.0 && final(self).storage@ == old(self).storage@ + o.1 && final(self).mutations == o.2
            }),
            final(self).cx == old(self).cx,
            final(self).scope == old(self).scope,
        decreases *e, 2int,
    {
        match e {
            Option::Some(q) => match q {
                Pat::Array { node_id, .. } => {
                    self.default_any_array_pat(q);
                    let found = self.take_recorded(*node_id);
                    match found {
                        Option::Some(t) => t,
                        Option::None => crate::types::make_any(
                            Span { lo: 0, hi: 0 },
                            crate::types::meta_default(),
                        ),
                    }
                },
                Pat::Object { node_id, .. } => {
                    self.default_any_object(q);
                    let found = self.take_recorded(*node_id);
                    match found {
                        Option::Some(t) => t,
                        Option::None => crate::types::make_any(
                            Span { lo: 0, hi: 0 },
                            crate::types::meta_default(),
                        ),
                    }
                },
                _ => crate::types::make_any(Span { lo: 0, hi: 0 }, crate::types::meta_default()),
            },
            Option::None => crate::types::make_any(
                Span { lo: 0, hi: 0 },
                crate::types::meta_default(),
            ),
        }
    }

    /// Handles implicit defaults for an object pattern: a property
    /// signature is synthesized per key (optional when it has a default
    /// value), rest properties contribute nothing, and the composed type
    /// literal is recorded for the pattern.
    #[verifier::rlimit(100)]
    #[verifier::spinoff_prover]
    pub fn default_any_object(&mut self, p: &Pat)
        requires
            p is Object,
        ensures
            ({
                let o = dflt_pat(*p, old(self).cx, old(self).mutations);
                final(self).storage@ == old(self).storage@ + o.0 && final(self).mutations == o.1
            }),
            final(self).cx == old(self).cx,
            final(self).scope == old(self).scope,
        decreases *p, 1int,
    {
        match p {
            Pat::Object { node_id, props, type_ann, .. } => {
                if let Option::Some(_) = type_ann {
                    return ;
                }
                let ms = self.default_obj_props(props);
                self.record_if_absent(
                    *node_id,
                    Type::TypeLit {
                        span: Span { lo: 0, hi: 0 },
                        members: Box::new(ms),
                        specified: false,
                        meta: implicit_meta_exec(),
                    },
                );
            },
            _ => {},
        }
    }

    /// Defaults the properties of an object pattern, in order.
    #[verifier::rlimit(100)]
    #[verifier::spinoff_prover]
    fn default_obj_props(&mut self, l: &ObjPatProps) -> (r: Members)
        ensures
            ({
                let o = dflt_obj_props(*l, old(self).cx, old(self).mutations);
                r == o.0 && final(self).storage@ == old(self).storage@ + o.1 && final(self).mutations == o.2
            }),
            final(self).cx == old(self).cx,
            final(self).scope == old(self).scope,
        decreases *l, 2int,
    {
        match l {
            ObjPatProps::Empty => Members::Empty,
            ObjPatProps::More(prop, rest) => match prop {
                ObjPatProp::KeyValue { key, value } => {
                    match &**value {
                        Pat::Array { .. } => self.default_any_pat(value),
                        Pat::Object { .. } => self.default_any_pat(value),
                        _ => {},
                    }
                    proof {
                        let nv = dflt_nested_value(**value, old(self).cx, old(self).mutations);
                        assert(self.mutations == nv.1);
                        assert(self.storage@ == old(self).storage@ + nv.0);
                    }
                    let vid = match &**value {
                        Pat::Ident { node_id, .. } => *node_id,
                        Pat::Array { node_id, .. } => *node_id,
                        Pat::Object { node_id, .. } => *node_id,
                        Pat::Rest { node_id, .. } => *node_id,
                    };
                    let found = self.take_recorded(vid);
                    let ann: Option<Box<Type>> = match found {
                        Option::Some(t) => Some(Box::new(t)),
                        Option::None => None,
                    };
                    let member = TypeElement::Property {
                        span: Span { lo: 0, hi: 0 },
                        key: *key,
                        readonly: false,
                        optional: false,
                        accessor: crate::base::Accessor { getter: false, setter: false },
                        params: crate::types::Params::Empty,
                        type_ann: ann,
                        type_params: None,
                    };
                    let ms = self.default_obj_props(rest);
                    Members::More(member, Box::new(ms))
                },
                ObjPatProp::Assign { key, has_value } => {
                    let member = TypeElement::Property {
                        span: Span { lo: 0, hi: 0 },
                        key: Key::Normal { span: key.span, sym: key.sym },
                        readonly: false,
                        optional: *has_value,
                        accessor: crate::base::Accessor { getter: false, setter: false },
                        params: crate::types::Params::Empty,
                        type_ann: None,
                        type_params: None,
                    };
                    let ms = self.default_obj_props(rest);
                    Members::More(member, Box::new(ms))
                },
                ObjPatProp::Rest { .. } => self.default_obj_props(rest),
            },
        }
    }

    /// Handles implicit defaults for one signature parameter; rest
    /// parameters are left alone.
    pub fn default_any_param(&mut self, p: &Pat)
        ensures
            ({
                let o = dflt_param(*p, old(self).cx, old(self).mutations);
                final(self).storage@ == old(self).storage@ + o.0 && final(self).mutations == o.1
            }),
            final(self).cx == old(self).cx,
            final(self).scope == old(self).scope,
        decreases *p, 2int,
    {
        match p {
            Pat::Ident { .. } => self.default_any_ident(p),
            Pat::Array { .. } => self.default_any_array_pat(p),
            Pat::Rest { .. } => {},
            Pat::Object { .. } => self.default_any_object(p),
        }
    }

    /// Handles implicit defaults for a whole parameter list, in order.
    pub fn default_any_params(&mut self, l: &TsParams)
        ensures
            ({
                let o = dflt_params(*l, old(self).cx, old(self).mutations);
                final(self).storage@ == old(self).storage@ + o.0 && final(self).mutations == o.1
            }),
            final(self).cx == old(self).cx,
            final(self).scope == old(self).scope,
        decreases *l, 3int,
    {
        match l {
            TsParams::Empty => {},
            TsParams::More(p, rest) => {
                self.default_any_param(p);
                self.default_any_params(rest);
            },
        }
    }
}

} // verus!
