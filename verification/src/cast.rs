use crate::caster::{AnyView, Caster, InterfaceRef};
use crate::identity::TypeIdentity;
use crate::registry::{lemma_registry_model_domain, registry_model, Registration, Registry};
use vstd::prelude::*;

verus! {

/// Whether the registry mapping holds a conversion for the pair — what
/// a membership query reports, and exactly when a cast hits.
pub open spec fn spec_implements(
    m: Map<(TypeIdentity, TypeIdentity), Caster>,
    concrete: TypeIdentity,
    target: TypeIdentity,
) -> bool {
    m.contains_key((concrete, target))
}

/// The one outcome a cast can have against a registry mapping: a hit
/// exactly on membership of (runtime type, target), and the view it
/// returns is the same backing value, seen through the target interface.
pub open spec fn spec_cast(
    m: Map<(TypeIdentity, TypeIdentity), Caster>,
    concrete: TypeIdentity,
    payload: u64,
    target: TypeIdentity,
) -> Option<InterfaceRef> {
    if spec_implements(m, concrete, target) {
        Some(InterfaceRef { interface: target, concrete, payload })
    } else {
        None
    }
}

/// The type-erasure capability: anything that can reveal itself as a
/// fully erased view may take part in casting.  The identity revealed is
/// that of the *concrete* type backing the value — never that of an
/// interface the value happens to be seen through.
pub trait CastFrom: Sized {
    /// identity of the concrete type backing this value
    spec fn identity(&self) -> TypeIdentity;

    /// the backing value's word
    spec fn payload(&self) -> u64;

    /// the erased view of this value, by immutable reference
    fn ref_any(&self) -> (a: AnyView)
        ensures
            a == (AnyView { concrete: self.identity(), payload: self.payload() }),
    ;

    /// the erased view of this value, by mutable reference; revealing it
    /// does not touch the value
    fn mut_any(&mut self) -> (a: AnyView)
        ensures
            a == (AnyView { concrete: old(self).identity(), payload: old(self).payload() }),
            *final(self) == *old(self),
    ;

    /// the erased view of this value, consuming the owned handle
    fn box_any(self) -> (a: AnyView)
        ensures
            a == (AnyView { concrete: self.identity(), payload: self.payload() }),
    ;
}

/// The casting capability, available to everything erasure-capable
/// through the blanket implementation below — a user never implements it
/// by hand.  Every operation is a pure query: a registry lookup keyed by
/// the value's runtime identity, then at most one guarded conversion.  A
/// miss is a normal outcome, not an error.
pub trait CastTo: CastFrom {
    /// Casts a reference to this value into a reference through the
    /// target interface; empty exactly when no conversion is registered
    /// for (runtime type, target).
    fn ref_to(&self, registry: &Registry, target: TypeIdentity) -> (r: Option<InterfaceRef>)
        ensures
            r == spec_cast(registry@, self.identity(), self.payload(), target),
    ;

    /// Casts a mutable reference likewise, leaving the value untouched.
    fn mut_to(&mut self, registry: &Registry, target: TypeIdentity) -> (r: Option<InterfaceRef>)
        ensures
            r == spec_cast(registry@, old(self).identity(), old(self).payload(), target),
            *final(self) == *old(self),
    ;

    /// Casts an owned handle.  On a hit the owned view through the
    /// target comes back; on a miss the original handle itself is handed
    /// back unchanged — ownership is never dropped on failure.
    fn box_to(self, registry: &Registry, target: TypeIdentity) -> (r: Result<InterfaceRef, Self>)
        ensures
            match spec_cast(registry@, self.identity(), self.payload(), target) {
                Some(v) => r == Ok::<InterfaceRef, Self>(v),
                None => r == Err::<InterfaceRef, Self>(self),
            },
    ;

    /// Tests whether this value can be cast to the target interface: a
    /// pure membership query, invoking no conversion, agreeing exactly
    /// with whether `ref_to` would succeed.
    fn impls(&self, registry: &Registry, target: TypeIdentity) -> (b: bool)
        ensures
            b == spec_implements(registry@, self.identity(), target),
    ;
}

/// Casting, for everything erasure-capable: obtain the erased view, look
/// its runtime identity up together with the target, and on a hit apply
/// the registered descriptor — whose guard the lookup discharges, since
/// a descriptor is only ever handed out under its own pair.
impl<S: CastFrom> CastTo for S {
    fn ref_to(&self, registry: &Registry, target: TypeIdentity) -> (r: Option<InterfaceRef>) {
        let any = self.ref_any();
        match registry.lookup(any.concrete, target) {
            Some(caster) => Some(caster.cast_ref(&any)),
            None => None,
        }
    }

    fn mut_to(&mut self, registry: &Registry, target: TypeIdentity) -> (r: Option<InterfaceRef>) {
        let mut any = self.mut_any();
        match registry.lookup(any.concrete, target) {
            Some(caster) => Some(caster.cast_mut(&mut any)),
            None => None,
        }
    }

    fn box_to(self, registry: &Registry, target: TypeIdentity) -> (r: Result<InterfaceRef, Self>) {
        let probe = self.ref_any();
        match registry.lookup(probe.concrete, target) {
            Some(caster) => Ok(caster.cast_box(self.box_any())),
            None => Err(self),
        }
    }

    fn impls(&self, registry: &Registry, target: TypeIdentity) -> (b: bool) {
        registry.contains(self.ref_any().concrete, target)
    }
}

/// The fully erased view is itself erasure-capable, so a caller already
/// holding one can still cast onward: erasing it again is the identity.
impl CastFrom for AnyView {
    open spec fn identity(&self) -> TypeIdentity {
        self.concrete
    }

    open spec fn payload(&self) -> u64 {
        self.payload
    }

    fn ref_any(&self) -> (a: AnyView) {
        *self
    }

    fn mut_any(&mut self) -> (a: AnyView) {
        *self
    }

    fn box_any(self) -> (a: AnyView) {
        self
    }
}

/// An interface reference is erasure-capable; what it reveals is the
/// identity of the concrete type backing it, not the interface it
/// happens to be seen through — which is what lets one interface
/// reference be cast directly to an unrelated interface.
impl CastFrom for InterfaceRef {
    open spec fn identity(&self) -> TypeIdentity {
        self.concrete
    }

    open spec fn payload(&self) -> u64 {
        self.payload
    }

    fn ref_any(&self) -> (a: AnyView) {
        AnyView { concrete: self.concrete, payload: self.payload }
    }

    fn mut_any(&mut self) -> (a: AnyView) {
        AnyView { concrete: self.concrete, payload: self.payload }
    }

    fn box_any(self) -> (a: AnyView) {
        AnyView { concrete: self.concrete, payload: self.payload }
    }
}

/// The membership test agrees exactly with whether a cast would
/// succeed: against any registry mapping, `spec_implements` holds for
/// (runtime type, target) precisely when the cast of any value of that
/// runtime type to that target hits.
pub proof fn lemma_implements_agrees_with_cast(
    m: Map<(TypeIdentity, TypeIdentity), Caster>,
    concrete: TypeIdentity,
    payload: u64,
    target: TypeIdentity,
)
    ensures
        spec_cast(m, concrete, payload, target) is Some <==> spec_implements(m, concrete, target),
{
}

/// A by-reference cast hits exactly when some registration entry exists
/// for (runtime type of the backing value, target interface); and
/// whenever it hits, the membership test reports true.
pub proof fn lemma_cast_hit_iff_registered(
    entries: Seq<Registration>,
    concrete: TypeIdentity,
    payload: u64,
    target: TypeIdentity,
)
    ensures
        spec_cast(registry_model(entries), concrete, payload, target) is Some <==> exists|i: int|
            0 <= i < entries.len() && (#[trigger] entries[i]).key() == (concrete, target),
        spec_cast(registry_model(entries), concrete, payload, target) is Some ==> spec_implements(
            registry_model(entries),
            concrete,
            target,
        ),
{
    lemma_registry_model_domain(entries, (concrete, target));
}

/// With no entry registered for the pair, every operation misses: both
/// reference casts return the empty outcome and the membership test
/// reports false.  (The owned-handle cast then hands the original handle
/// back unchanged, as `CastTo::box_to` ensures.)
pub proof fn lemma_unregistered_all_miss(
    entries: Seq<Registration>,
    concrete: TypeIdentity,
    payload: u64,
    target: TypeIdentity,
)
    requires
        forall|i: int| 0 <= i < entries.len() ==> (#[trigger] entries[i]).key() != (concrete, target),
    ensures
        !spec_implements(registry_model(entries), concrete, target),
        spec_cast(registry_model(entries), concrete, payload, target) is None,
{
    lemma_registry_model_domain(entries, (concrete, target));
}

/// Idempotence: a built registry never changes, and the outcome of a
/// cast or membership query is a function of the registry mapping, the
/// runtime identity, the backing value and the target alone — so any two
/// results of the same query on the same unchanged value agree.
pub proof fn lemma_query_idempotent(
    m: Map<(TypeIdentity, TypeIdentity), Caster>,
    concrete: TypeIdentity,
    payload: u64,
    target: TypeIdentity,
    r1: Option<InterfaceRef>,
    r2: Option<InterfaceRef>,
    b1: bool,
    b2: bool,
)
    requires
        r1 == spec_cast(m, concrete, payload, target),
        r2 == spec_cast(m, concrete, payload, target),
        b1 == spec_implements(m, concrete, target),
        b2 == spec_implements(m, concrete, target),
    ensures
        r1 == r2,
        b1 == b2,
{
}

/// Erasure reflexivity: casting from the fully erased view of a value
/// behaves identically to casting from the value itself, however it is
/// seen — the outcome depends only on the runtime identity and the
/// backing value, and erasure keeps both.
pub proof fn lemma_erased_cast_agrees<S: CastFrom>(
    x: &S,
    m: Map<(TypeIdentity, TypeIdentity), Caster>,
    target: TypeIdentity,
)
    ensures
        ({
            let a = (AnyView { concrete: x.identity(), payload: x.payload() });
            spec_cast(m, a.identity(), a.payload(), target) == spec_cast(
                m,
                x.identity(),
                x.payload(),
                target,
            )
        }),
{
}

} // verus!
