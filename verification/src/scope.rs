//! The lexical scope chain.  Each frame maps names to registered types,
//! records the variables declared in it, and remembers which type-parameter
//! names it is currently declaring (used to forbid their use inside static
//! members of the class that declares them).
//!
//! A frame is created on entering a lexical construct and destroyed on
//! exit; types registered in a child frame never outlive it.

use vstd::prelude::*;

use crate::base::{Atom, AtomList, atoms_contain, atoms_contain_exec};
use crate::types::{Rib, Type, copy_type, rib_find};

verus! {

/// What lexical construct a scope frame belongs to.
#[derive(Clone, Copy, PartialEq, Eq, Structural, Debug)]
pub enum ScopeKind {
    Module,
    Block,
    Flow,
    Fn,
    Class,
    Method { is_static: bool },
    TypeParams,
}

/// One frame of the scope chain.
#[derive(PartialEq, Eq, Debug)]
pub struct ScopeFrame {
    pub kind: ScopeKind,
    /// Registered types, newest first.
    pub types: Rib,
    /// Variables declared in this frame.
    pub vars: AtomList,
    /// Type-parameter names this frame is currently declaring.
    pub declaring_type_params: AtomList,
}

/// The scope chain, innermost frame first.
#[derive(PartialEq, Eq, Debug)]
pub struct Scope {
    pub frame: ScopeFrame,
    pub parent: Option<Box<Scope>>,
}

/// An empty frame of the given kind.
pub open spec fn empty_frame(kind: ScopeKind) -> ScopeFrame {
    ScopeFrame { kind, types: Rib::Empty, vars: AtomList::Empty, declaring_type_params: AtomList::Empty }
}

/// A fresh single-frame scope of the given kind.
pub open spec fn fresh_scope(kind: ScopeKind) -> Scope {
    Scope { frame: empty_frame(kind), parent: None }
}

/// The first type registered under `name`, innermost frame first and
/// newest registration first within a frame.
pub open spec fn scope_find_type(s: Scope, name: Atom) -> Option<Type>
    decreases s,
{
    match rib_find(s.frame.types, name) {
        Option::Some(t) => Option::Some(t),
        Option::None => match s.parent {
            Option::Some(p) => scope_find_type(*p, name),
            Option::None => Option::None,
        },
    }
}

/// Whether a variable named `name` is declared in scope.
pub open spec fn scope_has_var(s: Scope, name: Atom) -> bool
    decreases s,
{
    atoms_contain(s.frame.vars, name) || match s.parent {
        Option::Some(p) => scope_has_var(*p, name),
        Option::None => false,
    }
}

/// `s` with `ty` registered under `name` in the innermost frame.
pub open spec fn scope_register(s: Scope, name: Atom, ty: Type) -> Scope {
    Scope {
        frame: ScopeFrame {
            kind: s.frame.kind,
            types: Rib::More(name, ty, Box::new(s.frame.types)),
            vars: s.frame.vars,
            declaring_type_params: s.frame.declaring_type_params,
        },
        parent: s.parent,
    }
}

/// `s` with a variable named `name` declared in the innermost frame.
pub open spec fn scope_declare_var(s: Scope, name: Atom) -> Scope {
    Scope {
        frame: ScopeFrame {
            kind: s.frame.kind,
            types: s.frame.types,
            vars: AtomList::More(name, Box::new(s.frame.vars)),
            declaring_type_params: s.frame.declaring_type_params,
        },
        parent: s.parent,
    }
}

/// `s` with an empty frame of the given kind pushed innermost.
pub open spec fn scope_push(s: Scope, kind: ScopeKind) -> Scope {
    Scope { frame: empty_frame(kind), parent: Option::Some(Box::new(s)) }
}

/// Whether `id` names a type parameter being declared by an enclosing
/// class while some frame between here and that class is a static method:
/// the situation the elaborator must diagnose on a reference to `id`.
pub open spec fn in_static_member_of_declaring_class(s: Scope, id: Atom) -> bool
    decreases s,
{
    match s.parent {
        Option::Some(p) => (s.frame.kind matches ScopeKind::Method { is_static } && is_static
            && p.frame.kind is Class && atoms_contain(p.frame.declaring_type_params, id)) ||
            in_static_member_of_declaring_class(*p, id),
        Option::None => false,
    }
}

/// Looks `name` up in a registration list, newest first.
pub fn rib_find_exec<'a>(r: &'a Rib, name: Atom) -> (res: Option<&'a Type>)
    ensures
        match res {
            Option::Some(t) => rib_find(*r, name) == Option::Some(*t),
            Option::None => rib_find(*r, name) is None,
        },
    decreases *r,
{
    match r {
        Rib::Empty => None,
        Rib::More(n, t, rest) => {
            if *n == name {
                Some(t)
            } else {
                rib_find_exec(rest, name)
            }
        },
    }
}

impl Scope {
    /// A fresh single-frame scope of the given kind.
    pub fn new(kind: ScopeKind) -> (s: Scope)
        ensures
            s == fresh_scope(kind),
    {
        Scope {
            frame: ScopeFrame {
                kind,
                types: Rib::Empty,
                vars: AtomList::Empty,
                declaring_type_params: AtomList::Empty,
            },
            parent: None,
        }
    }

    /// Looks `name` up in the chain, returning a copy of the first type
    /// registered under it.
    pub fn find_type(&self, name: Atom) -> (r: Option<Type>)
        ensures
            r == scope_find_type(*self, name),
        decreases *self,
    {
        match rib_find_exec(&self.frame.types, name) {
            Option::Some(t) => Some(copy_type(t)),
            Option::None => match &self.parent {
                Option::Some(p) => p.find_type(name),
                Option::None => None,
            },
        }
    }

    /// Whether a variable named `name` is declared in scope.
    pub fn has_var(&self, name: Atom) -> (r: bool)
        ensures
            r == scope_has_var(*self, name),
        decreases *self,
    {
        if atoms_contain_exec(&self.frame.vars, name) {
            return true;
        }
        match &self.parent {
            Option::Some(p) => p.has_var(name),
            Option::None => false,
        }
    }

    /// Whether a reference to the type parameter `id` stands inside a
    /// static member of the class declaring `id`.
    pub fn in_static_member_of_declaring_class(&self, id: Atom) -> (r: bool)
        ensures
            r == in_static_member_of_declaring_class(*self, id),
        decreases *self,
    {
        match &self.parent {
            Option::Some(p) => {
                let here = match self.frame.kind {
                    ScopeKind::Method { is_static } => is_static && (match p.frame.kind {
                        ScopeKind::Class => atoms_contain_exec(&p.frame.declaring_type_params, id),
                        _ => false,
                    }),
                    _ => false,
                };
                here || p.in_static_member_of_declaring_class(id)
            },
            Option::None => false,
        }
    }
}

} // verus!
