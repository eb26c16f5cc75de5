//! Shared ground types: source positions, interned names, keys, literals.
//!
//! Interned strings (atoms) are represented by their intern-table index, a
//! plain `u32`; the intern table itself lives with the parser, outside this
//! crate.  A handful of well-known atoms that the elaborator treats
//! specially have fixed indices, named below.

use vstd::prelude::*;

verus! {

/// Intern-table index of a source identifier or string.
pub type Atom = u32;

/// Identity of a syntax node, used to key the mutation side-table.
pub type NodeId = u32;

/// Stable identity of a module.
pub type ModuleId = u32;

/// The atom reserved for the builtin generic `Array`.
pub const ATOM_ARRAY: Atom = 0;
/// The atom for the reserved word `any`.
pub const ATOM_ANY: Atom = 1;
/// The atom for the reserved word `void`.
pub const ATOM_VOID: Atom = 2;
/// The atom for the reserved word `never`.
pub const ATOM_NEVER: Atom = 3;
/// The atom for the reserved word `string`.
pub const ATOM_STRING: Atom = 4;
/// The atom for the reserved word `number`.
pub const ATOM_NUMBER: Atom = 5;
/// The atom for the reserved word `boolean`.
pub const ATOM_BOOLEAN: Atom = 6;
/// The atom for the reserved word `null`.
pub const ATOM_NULL: Atom = 7;
/// The atom for the reserved word `undefined`.
pub const ATOM_UNDEFINED: Atom = 8;
/// The atom for the reserved word `symbol`.
pub const ATOM_SYMBOL: Atom = 9;
/// The atom for the keyword `intrinsic`.
pub const ATOM_INTRINSIC: Atom = 10;
/// First intern-table index free for ordinary identifiers.
pub const ATOM_USER: Atom = 16;

/// A source span: byte offsets of the start and end of a construct.
#[derive(Clone, Copy, PartialEq, Eq, Structural, Debug)]
pub struct Span {
    pub lo: u32,
    pub hi: u32,
}

/// The span used for synthesized constructs that have no source position.
pub const DUMMY_LO: u32 = 0;

impl Span {
    /// The span of a construct synthesized by the elaborator.
    pub fn dummy() -> (s: Span)
        ensures
            s == (Span { lo: 0, hi: 0 }),
    {
        Span { lo: 0, hi: 0 }
    }
}

/// An identifier occurrence: its position and its interned name.
#[derive(Clone, Copy, PartialEq, Eq, Structural, Debug)]
pub struct Ident {
    pub span: Span,
    pub sym: Atom,
}

/// The keyword heads of keyword types.
#[derive(Clone, Copy, PartialEq, Eq, Structural, Debug)]
pub enum KeywordKind {
    Any,
    Unknown,
    Never,
    Void,
    Undefined,
    Null,
    Str,
    Num,
    Bool,
    BigInt,
    Object,
    Symbol,
    /// The `intrinsic` keyword, legal only while elaborating the builtin library.
    Intrinsic,
}

/// A literal inside a literal type.  Number and big-int payloads are the
/// interned source token, so no floating point is carried here.
#[derive(Clone, Copy, PartialEq, Eq, Structural, Debug)]
pub enum Lit {
    Str(Atom),
    Num(Atom),
    BigInt(Atom),
    Bool(bool),
}

/// A member key of an object type, interface body or type literal.
///
/// Computed keys whose type is a unique symbol are `Symbol`; other computed
/// keys keep only their position, since comparing their expressions is the
/// business of expression-level inference, an external collaborator.
#[derive(Clone, Copy, PartialEq, Eq, Structural, Debug)]
pub enum Key {
    Normal { span: Span, sym: Atom },
    Num { span: Span, val: Atom },
    Symbol { span: Span, id: u32 },
    Computed { span: Span },
}

impl Key {
    /// The position of the key in the source.
    pub fn span(&self) -> (s: Span)
        ensures
            s == key_span(*self),
    {
        match *self {
            Key::Normal { span, .. } => span,
            Key::Num { span, .. } => span,
            Key::Symbol { span, .. } => span,
            Key::Computed { span } => span,
        }
    }
}

/// The position of a key.
pub open spec fn key_span(k: Key) -> Span {
    match k {
        Key::Normal { span, .. } => span,
        Key::Num { span, .. } => span,
        Key::Symbol { span, .. } => span,
        Key::Computed { span } => span,
    }
}

/// Whether a key is symbol-keyed; such members are exempt from duplicate
/// detection.
pub open spec fn key_is_symbol(k: Key) -> bool {
    k is Symbol
}

/// Structural equality of keys, ignoring positions.  Computed keys never
/// compare equal: their expressions are not visible to this crate.
pub open spec fn key_eq(a: Key, b: Key) -> bool {
    match (a, b) {
        (Key::Normal { sym: s1, .. }, Key::Normal { sym: s2, .. }) => s1 == s2,
        (Key::Num { val: v1, .. }, Key::Num { val: v2, .. }) => v1 == v2,
        (Key::Symbol { id: i1, .. }, Key::Symbol { id: i2, .. }) => i1 == i2,
        _ => false,
    }
}

/// Executable structural equality of keys.
pub fn key_eq_exec(a: &Key, b: &Key) -> (r: bool)
    ensures
        r == key_eq(*a, *b),
{
    match (a, b) {
        (Key::Normal { sym: s1, .. }, Key::Normal { sym: s2, .. }) => *s1 == *s2,
        (Key::Num { val: v1, .. }, Key::Num { val: v2, .. }) => *v1 == *v2,
        (Key::Symbol { id: i1, .. }, Key::Symbol { id: i2, .. }) => *i1 == *i2,
        _ => false,
    }
}

/// A possibly-qualified type name, `A` or `ns.A`.
#[derive(PartialEq, Eq, Debug)]
pub enum EntityName {
    Ident(Ident),
    Qualified { span: Span, left: Box<EntityName>, right: Atom },
}

/// Structural equality of entity names, ignoring positions.
pub open spec fn entity_name_eq(a: EntityName, b: EntityName) -> bool
    decreases a,
{
    match (a, b) {
        (EntityName::Ident(i1), EntityName::Ident(i2)) => i1.sym == i2.sym,
        (
            EntityName::Qualified { left: l1, right: r1, .. },
            EntityName::Qualified { left: l2, right: r2, .. },
        ) => r1 == r2 && entity_name_eq(*l1, *l2),
        _ => false,
    }
}

/// The leftmost identifier of a possibly-qualified name: the head that
/// scope resolution starts from.
pub open spec fn entity_leftmost(e: EntityName) -> Ident
    decreases e,
{
    match e {
        EntityName::Ident(i) => i,
        EntityName::Qualified { left, .. } => entity_leftmost(*left),
    }
}

/// Reads the leftmost identifier of a possibly-qualified name.
pub fn entity_leftmost_exec(e: &EntityName) -> (r: Ident)
    ensures
        r == entity_leftmost(*e),
    decreases *e,
{
    match e {
        EntityName::Ident(i) => *i,
        EntityName::Qualified { left, .. } => entity_leftmost_exec(left),
    }
}

/// Executable structural equality of entity names.
pub fn entity_name_eq_exec(a: &EntityName, b: &EntityName) -> (r: bool)
    ensures
        r == entity_name_eq(*a, *b),
    decreases *a,
{
    match (a, b) {
        (EntityName::Ident(i1), EntityName::Ident(i2)) => i1.sym == i2.sym,
        (
            EntityName::Qualified { left: l1, right: r1, .. },
            EntityName::Qualified { left: l2, right: r2, .. },
        ) => *r1 == *r2 && entity_name_eq_exec(l1, l2),
        _ => false,
    }
}

/// A list of atoms (template-literal quasis, declared names, and the like).
#[derive(PartialEq, Eq, Debug)]
pub enum AtomList {
    Empty,
    More(Atom, Box<AtomList>),
}

/// The atoms of an `AtomList`, in order.
pub open spec fn atoms_seq(l: AtomList) -> Seq<Atom>
    decreases l,
{
    match l {
        AtomList::Empty => Seq::empty(),
        AtomList::More(a, rest) => seq![a] + atoms_seq(*rest),
    }
}

/// Whether `l` holds `a`.
pub open spec fn atoms_contain(l: AtomList, a: Atom) -> bool
    decreases l,
{
    match l {
        AtomList::Empty => false,
        AtomList::More(h, rest) => h == a || atoms_contain(*rest, a),
    }
}

/// Executable membership test on an atom list.
pub fn atoms_contain_exec(l: &AtomList, a: Atom) -> (r: bool)
    ensures
        r == atoms_contain(*l, a),
    decreases *l,
{
    match l {
        AtomList::Empty => false,
        AtomList::More(h, rest) => *h == a || atoms_contain_exec(rest, a),
    }
}

/// A list of identifier occurrences (the bindings found in a pattern).
#[derive(PartialEq, Eq, Debug)]
pub enum IdentList {
    Empty,
    More(Ident, Box<IdentList>),
}

/// The identifiers of an `IdentList`, in order.
pub open spec fn idents_seq(l: IdentList) -> Seq<Ident>
    decreases l,
{
    match l {
        IdentList::Empty => Seq::empty(),
        IdentList::More(i, rest) => seq![i] + idents_seq(*rest),
    }
}

/// The `+`/`-` modifier of a mapped type's `readonly` or `?`.
#[derive(Clone, Copy, PartialEq, Eq, Structural, Debug)]
pub enum TruePlusMinus {
    True,
    Plus,
    Minus,
}

/// The operators of a type-operator node.
#[derive(Clone, Copy, PartialEq, Eq, Structural, Debug)]
pub enum TypeOp {
    KeyOf,
    Unique,
    ReadOnly,
}

/// Which accessors declared a property; accessor members are exempt from
/// duplicate detection.
#[derive(Clone, Copy, PartialEq, Eq, Structural, Debug)]
pub struct Accessor {
    pub getter: bool,
    pub setter: bool,
}

impl Accessor {
    /// A plain (non-accessor) property.
    pub fn plain() -> (a: Accessor)
        ensures
            a == (Accessor { getter: false, setter: false }),
    {
        Accessor { getter: false, setter: false }
    }
}

} // verus!

verus! {

/// Deep copy of an entity name.
pub fn copy_entity_name(a: &EntityName) -> (r: EntityName)
    ensures
        r == *a,
    decreases *a,
{
    match a {
        EntityName::Ident(i) => EntityName::Ident(*i),
        EntityName::Qualified { span, left, right } => EntityName::Qualified {
            span: *span,
            left: Box::new(copy_entity_name(left)),
            right: *right,
        },
    }
}

/// Deep copy of an atom list.
pub fn copy_atoms(a: &AtomList) -> (r: AtomList)
    ensures
        r == *a,
    decreases *a,
{
    match a {
        AtomList::Empty => AtomList::Empty,
        AtomList::More(x, rest) => AtomList::More(*x, Box::new(copy_atoms(rest))),
    }
}

/// Deep copy of an identifier list.
pub fn copy_idents(a: &IdentList) -> (r: IdentList)
    ensures
        r == *a,
    decreases *a,
{
    match a {
        IdentList::Empty => IdentList::Empty,
        IdentList::More(i, rest) => IdentList::More(*i, Box::new(copy_idents(rest))),
    }
}

} // verus!
