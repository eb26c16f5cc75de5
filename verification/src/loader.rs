//! The module dependency loader contract.
//!
//! A whole-program driver implements `Load`; the elaborator calls it when
//! a type reference or import crosses a module boundary.  Modules outside
//! a circular import group may be loaded concurrently; all modules of one
//! circular group must be resolved sequentially in a single execution
//! context, each step handing its own best-effort partial surface to the
//! next, because each depends on the others' in-progress state.
//!
//! Both load operations must hand back a finalized module-wrapper value,
//! never raw in-progress state: a finalized value is safe to share
//! between execution contexts without synchronization.

use vstd::prelude::*;

use crate::base::{Atom, ModuleId};
use crate::diag::Diag;
use crate::types::{ModuleTypeData, Type, ifz_rib, ifz_ty, type_eq};

verus! {

/// A resolved module: its identity and its published type surface.
#[derive(PartialEq, Eq, Debug)]
pub struct ModuleInfo {
    pub module_id: ModuleId,
    /// Always a finalized module-wrapper value.
    pub data: Type,
}

/// Well-formedness of a published module surface: a module wrapper,
/// finalized throughout.
pub open spec fn published_surface(t: Type) -> bool {
    t is Module && ifz_ty(t)
}

impl ModuleInfo {
    /// Well-formedness: the published data is a finalized module wrapper.
    pub open spec fn wf(self) -> bool {
        published_surface(self.data)
    }
}

/// The sequencing contract between the elaborator and the whole-program
/// driver.  File identities and import specifiers are interned atoms.
pub trait Load {
    /// Resolves an import specifier relative to a base file to a stable
    /// module identity; nothing when unresolvable.
    fn module_id(&self, base: Atom, src: Atom) -> Option<ModuleId>;

    /// Whether the target module belongs to the same strongly-connected
    /// import component as `base`.  Implementations must answer
    /// consistently: if a module reports another in its group, the other
    /// reports it back.
    fn is_in_same_circular_group(&self, base: Atom, src: Atom) -> bool;

    /// Loads a module of the caller's own circular group, given the
    /// caller's partially-resolved surface so far.  May be called several
    /// times for one module, always from the single execution context
    /// serializing that group.  On success the result is a finalized
    /// module wrapper — partial state never escapes.
    fn load_circular_dep(&self, base: Atom, src: Atom, partial: &ModuleTypeData) -> (r: Result<
        Type,
        Diag,
    >)
        ensures
            r matches Ok(t) ==> published_surface(t),
    ;

    /// Loads a module outside the caller's circular group; independent
    /// modules may be loaded concurrently, since only finalized values
    /// are shared.  On success the result is a finalized module wrapper.
    fn load_non_circular_dep(&self, base: Atom, src: Atom) -> (r: Result<Type, Diag>)
        ensures
            r matches Ok(t) ==> published_surface(t),
    ;

    /// Registers a fully-resolved module's surface under a global module
    /// name; callable repeatedly for one name only with structurally
    /// compatible values.
    fn declare_module(&mut self, name: Atom, module: Type)
        requires
            published_surface(module),
    ;
}

/// A published surface carries no in-progress state: every value in its
/// export tables is finalized.
pub proof fn lemma_published_surface_exports_frozen(t: Type)
    requires
        published_surface(t),
    ensures
        t matches Type::Module { exports, .. } ==> ifz_rib(exports.types) && ifz_rib(
            exports.vars,
        ),
{
}

/// The export tables of a module wrapper.
fn module_exports<'a>(t: &'a Type) -> (r: &'a ModuleTypeData)
    requires
        *t is Module,
    ensures
        *t matches Type::Module { exports, .. } && *r == *exports,
{
    match t {
        Type::Module { exports, .. } => exports,
        _ => vstd::pervasive::unreached(),
    }
}

/// Resolves a two-module circular group, sequentially in this single
/// execution context: the first module's surface is obtained against the
/// second's partial state, then the second's against the first's.  Both
/// published surfaces are finalized module wrappers — no dangling partial
/// state leaks into them; a load that fails yields nothing rather than a
/// partial result.
pub fn resolve_circular_pair<L: Load>(
    loader: &L,
    a: Atom,
    b: Atom,
    partial_a: &ModuleTypeData,
    partial_b: &ModuleTypeData,
) -> (r: Option<(Type, Type)>)
    ensures
        r matches Some(p) ==> published_surface(p.0) && published_surface(p.1),
{
    let sb = loader.load_circular_dep(a, b, partial_a);
    match sb {
        Result::Ok(surface_b) => {
            let sa = loader.load_circular_dep(b, a, partial_b);
            match sa {
                Result::Ok(surface_a) => Some((surface_a, surface_b)),
                Result::Err(_) => None,
            }
        },
        Result::Err(_) => None,
    }
}

/// Resolves a two-module circular group to a fixpoint, sequentially in
/// this single execution context: each round obtains the second module's
/// surface against the first's current one and the first's against the
/// second's, until neither surface changes further or the iteration cap
/// is reached.  Whatever round the iteration stops at, every published
/// surface is a finalized module wrapper, so no dangling in-progress
/// partial state leaks into either final surface; a load that fails
/// yields nothing rather than a partial result.
pub fn resolve_circular_pair_to_fixpoint<L: Load>(
    loader: &L,
    a: Atom,
    b: Atom,
    partial_a: &ModuleTypeData,
    cap: u64,
) -> (r: Option<(Type, Type)>)
    ensures
        r matches Some(p) ==> published_surface(p.0) && published_surface(p.1),
{
    let mut surface_b = match loader.load_circular_dep(a, b, partial_a) {
        Result::Ok(t) => t,
        Result::Err(_) => {
            return None;
        },
    };
    let mut surface_a = match loader.load_circular_dep(b, a, module_exports(&surface_b)) {
        Result::Ok(t) => t,
        Result::Err(_) => {
            return None;
        },
    };
    let mut i: u64 = 0;
    loop
        invariant
            published_surface(surface_a),
            published_surface(surface_b),
            i <= cap,
        decreases cap - i,
    {
        if i >= cap {
            return Some((surface_a, surface_b));
        }
        let next_b = match loader.load_circular_dep(a, b, module_exports(&surface_a)) {
            Result::Ok(t) => t,
            Result::Err(_) => {
                return None;
            },
        };
        let next_a = match loader.load_circular_dep(b, a, module_exports(&next_b)) {
            Result::Ok(t) => t,
            Result::Err(_) => {
                return None;
            },
        };
        if type_eq(&next_a, &surface_a) && type_eq(&next_b, &surface_b) {
            return Some((next_a, next_b));
        }
        surface_a = next_a;
        surface_b = next_b;
        i = i + 1;
    }
}

} // verus!
