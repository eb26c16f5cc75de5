//! Diagnostics.  Every kind carries the source span it points at; kinds
//! that name a binding carry its atom.  Elaboration recovers and continues
//! after reporting: a diagnostic never aborts the surrounding work.

use vstd::prelude::*;

use crate::base::{Atom, Span};

verus! {

/// A diagnostic reported while elaborating one module.
#[derive(Clone, Copy, PartialEq, Eq, Structural, Debug)]
pub enum Diag {
    /// A declaration name collides with another in the same list.
    DuplicateName { span: Span, name: Atom },
    /// A structural member collides with another of the same key.
    DuplicateNameWithoutName { span: Span },
    /// A type reference that resolves to nothing.
    NoSuchType { span: Span, name: Atom },
    /// A type reference that resolves to nothing, while a variable of the
    /// same name is in scope.
    NoSuchTypeButVarExists { span: Span, name: Atom },
    /// A reserved keyword used as an interface name.
    InvalidInterfaceName { span: Span },
    /// The `intrinsic` keyword outside the builtin library.
    IntrinsicIsBuiltinOnly { span: Span },
    /// A type parameter of an enclosing generic class used inside one of
    /// its static members.
    StaticMemberCannotUseTypeParamOfClass { span: Span },
    /// An unannotated binding defaulted to `any` under the
    /// no-implicit-any rule.
    ImplicitAny { span: Span },
    /// Optional and required method signatures mixed for one key.
    OptionalAndNonOptionalMethodPropertyMixed { span: Span },
    /// A property named by an indexed access cannot be resolved on the
    /// object type.
    NoSuchProperty { span: Span },
}

} // verus!
