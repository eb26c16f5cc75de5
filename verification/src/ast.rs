//! Surface type syntax, as handed over by the parser.
//!
//! Every shape of type expression the elaborator must handle appears here,
//! together with binding patterns and the type-level declarations
//! (aliases, interfaces, generic parameter lists).  Lists are spelled as
//! inductive conses so that specifications can recurse over them directly.

use vstd::prelude::*;

use crate::base::{Accessor, Atom, AtomList, EntityName, Ident, Key, KeywordKind, Lit, NodeId, Span, TruePlusMinus, TypeOp};

verus! {

/// A surface type expression.
#[derive(PartialEq, Eq, Debug)]
pub enum TsType {
    This { span: Span },
    Lit { span: Span, lit: Lit },
    Keyword { span: Span, kind: KeywordKind },
    Array { span: Span, elem: Box<TsType> },
    Tuple { span: Span, elems: Box<TsTupleElems> },
    Union { span: Span, types: Box<TsTypeList> },
    Intersection { span: Span, types: Box<TsTypeList> },
    Fn { span: Span, type_params: Option<TsTypeParamDecl>, params: Box<TsParams>, ret: Box<TsType> },
    Constructor {
        span: Span,
        type_params: Option<TsTypeParamDecl>,
        params: Box<TsParams>,
        ret: Box<TsType>,
        is_abstract: bool,
    },
    TypeLit { span: Span, members: Box<TsMembers> },
    Conditional {
        span: Span,
        check_ty: Box<TsType>,
        extends_ty: Box<TsType>,
        true_ty: Box<TsType>,
        false_ty: Box<TsType>,
    },
    Mapped {
        span: Span,
        readonly: Option<TruePlusMinus>,
        optional: Option<TruePlusMinus>,
        type_param: TsTypeParam,
        name_ty: Option<Box<TsType>>,
        ty: Option<Box<TsType>>,
    },
    Operator { span: Span, op: TypeOp, ty: Box<TsType> },
    Paren { span: Span, ty: Box<TsType> },
    Ref { span: Span, name: EntityName, type_args: Option<Box<TsTypeArgs>> },
    Query { span: Span, expr: Box<TsQueryExpr> },
    Optional { span: Span, ty: Box<TsType> },
    Rest { span: Span, ty: Box<TsType> },
    Infer { span: Span, type_param: TsTypeParam },
    IndexedAccess { span: Span, readonly: bool, obj_ty: Box<TsType>, index_ty: Box<TsType> },
    Predicate { span: Span, param_name: Atom, asserts: bool, ty: Option<Box<TsType>> },
    Import { span: Span, arg: Atom, qualifier: Option<EntityName>, type_args: Option<Box<TsTypeArgs>> },
    Tpl { span: Span, quasis: Box<AtomList>, types: Box<TsTypeList> },
}

/// A list of surface types.
#[derive(PartialEq, Eq, Debug)]
pub enum TsTypeList {
    Empty,
    More(TsType, Box<TsTypeList>),
}

/// One element of a surface tuple type, with its optional label.
#[derive(PartialEq, Eq, Debug)]
pub struct TsTupleElement {
    pub span: Span,
    pub label: Option<Atom>,
    pub ty: TsType,
}

/// The elements of a surface tuple type.
#[derive(PartialEq, Eq, Debug)]
pub enum TsTupleElems {
    Empty,
    More(TsTupleElement, Box<TsTupleElems>),
}

/// Type arguments applied to a reference, `<T, U>`.
#[derive(PartialEq, Eq, Debug)]
pub struct TsTypeArgs {
    pub span: Span,
    pub params: TsTypeList,
}

/// The operand of a `typeof` type.
#[derive(PartialEq, Eq, Debug)]
pub enum TsQueryExpr {
    Name(EntityName),
    Import { span: Span, arg: Atom, qualifier: Option<EntityName>, type_args: Option<Box<TsTypeArgs>> },
}

/// One generic parameter declaration, `T extends C = D`.
#[derive(PartialEq, Eq, Debug)]
pub struct TsTypeParam {
    pub span: Span,
    pub name: Ident,
    pub constraint: Option<Box<TsType>>,
    pub default: Option<Box<TsType>>,
}

/// The parameters of a generic parameter list.
#[derive(PartialEq, Eq, Debug)]
pub enum TsTypeParams {
    Empty,
    More(TsTypeParam, Box<TsTypeParams>),
}

/// A generic parameter list, `<T, U extends T>`.
#[derive(PartialEq, Eq, Debug)]
pub struct TsTypeParamDecl {
    pub span: Span,
    pub params: TsTypeParams,
}

/// A binding pattern.  `node_id` keys the mutation side-table.
#[derive(PartialEq, Eq, Debug)]
pub enum Pat {
    Ident { node_id: NodeId, id: Ident, optional: bool, type_ann: Option<Box<TsType>> },
    Array { node_id: NodeId, span: Span, elems: Box<PatOpts>, type_ann: Option<Box<TsType>> },
    Object { node_id: NodeId, span: Span, props: Box<ObjPatProps>, type_ann: Option<Box<TsType>> },
    Rest { node_id: NodeId, span: Span, arg: Box<Pat>, type_ann: Option<Box<TsType>> },
}

/// The elements of an array pattern; a hole is `None`.
#[derive(PartialEq, Eq, Debug)]
pub enum PatOpts {
    Empty,
    More(Option<Pat>, Box<PatOpts>),
}

/// One property of an object pattern.
#[derive(PartialEq, Eq, Debug)]
pub enum ObjPatProp {
    KeyValue { key: Key, value: Box<Pat> },
    Assign { key: Ident, has_value: bool },
    Rest { span: Span },
}

/// The properties of an object pattern.
#[derive(PartialEq, Eq, Debug)]
pub enum ObjPatProps {
    Empty,
    More(ObjPatProp, Box<ObjPatProps>),
}

/// The parameters of a surface function or constructor type.
#[derive(PartialEq, Eq, Debug)]
pub enum TsParams {
    Empty,
    More(Pat, Box<TsParams>),
}

/// One member of a surface type literal or interface body.
#[derive(PartialEq, Eq, Debug)]
pub enum TsTypeElement {
    Call {
        span: Span,
        params: TsParams,
        type_params: Option<TsTypeParamDecl>,
        type_ann: Option<Box<TsType>>,
    },
    Constructor {
        span: Span,
        params: TsParams,
        type_params: Option<TsTypeParamDecl>,
        type_ann: Option<Box<TsType>>,
    },
    Index { span: Span, readonly: bool, is_static: bool, params: TsParams, type_ann: Option<Box<TsType>> },
    Method {
        span: Span,
        key: Key,
        readonly: bool,
        optional: bool,
        params: TsParams,
        type_params: Option<TsTypeParamDecl>,
        type_ann: Option<Box<TsType>>,
    },
    Property {
        span: Span,
        key: Key,
        readonly: bool,
        optional: bool,
        accessor: Accessor,
        params: TsParams,
        type_params: Option<TsTypeParamDecl>,
        type_ann: Option<Box<TsType>>,
    },
}

/// The members of a surface type literal or interface body.
#[derive(PartialEq, Eq, Debug)]
pub enum TsMembers {
    Empty,
    More(TsTypeElement, Box<TsMembers>),
}

/// One `extends` clause of an interface, a name with optional type arguments.
#[derive(PartialEq, Eq, Debug)]
pub struct TsExprWithArgs {
    pub span: Span,
    pub expr: EntityName,
    pub type_args: Option<Box<TsTypeArgs>>,
}

/// The `extends` clauses of an interface.
#[derive(PartialEq, Eq, Debug)]
pub enum TsExtends {
    Empty,
    More(TsExprWithArgs, Box<TsExtends>),
}

/// A type annotation, `: T`.
#[derive(PartialEq, Eq, Debug)]
pub struct TsTypeAnn {
    pub span: Span,
    pub ty: Box<TsType>,
}

/// A type alias declaration, `type A<T> = ...`.
#[derive(PartialEq, Eq, Debug)]
pub struct TsTypeAliasDecl {
    pub span: Span,
    pub id: Ident,
    pub type_params: Option<TsTypeParamDecl>,
    pub type_ann: Box<TsType>,
}

/// An interface declaration.
#[derive(PartialEq, Eq, Debug)]
pub struct TsInterfaceDecl {
    pub span: Span,
    pub id: Ident,
    pub type_params: Option<TsTypeParamDecl>,
    pub extends: TsExtends,
    pub body_span: Span,
    pub body: TsMembers,
}

} // verus!
