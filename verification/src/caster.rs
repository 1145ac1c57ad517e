use crate::identity::TypeIdentity;
use vstd::prelude::*;

verus! {

/// The fully type-erased view of a value: what is left once every
/// interface is forgotten.  It keeps the identity of the concrete type
/// that was erased, and the word standing for the backing value itself,
/// but exposes no interface-specific operations.
#[derive(Clone, Copy, Debug, PartialEq, Eq, Structural)]
pub struct AnyView {
    /// identity of the concrete type that was erased
    pub concrete: TypeIdentity,
    /// the backing value's word
    pub payload: u64,
}

/// A reference to a value seen through an interface: the interface it is
/// seen through, the identity of the concrete type that actually backs
/// it, and the backing value's word.  A successful cast produces one of
/// these with the target as its interface.
#[derive(Clone, Copy, Debug, PartialEq, Eq, Structural)]
pub struct InterfaceRef {
    /// the interface the value is seen through
    pub interface: TypeIdentity,
    /// identity of the concrete type backing the value
    pub concrete: TypeIdentity,
    /// the backing value's word
    pub payload: u64,
}

/// The conversion descriptor for one (concrete type, target interface)
/// pair.  Its three conversions — by reference, by mutable reference and
/// by owned handle — all agree on that one pair: each is defined only
/// for erased views whose runtime type is `concrete`, and each yields a
/// view through `to` of the same backing value.  Callers must establish
/// that guard; the registry does so by keying descriptors under the
/// runtime identity that it hands them out for.
#[derive(Clone, Copy, Debug, PartialEq, Eq, Structural)]
pub struct Caster {
    /// the concrete type this descriptor converts from
    pub concrete: TypeIdentity,
    /// the target interface this descriptor converts to
    pub to: TypeIdentity,
}

impl Caster {
    /// Converts an erased reference into a reference through the target
    /// interface.  Guarded: defined only when the view's runtime type is
    /// the one this descriptor converts from.
    pub fn cast_ref(&self, from: &AnyView) -> (r: InterfaceRef)
        requires
            from.concrete == self.concrete,
        ensures
            r == (InterfaceRef { interface: self.to, concrete: self.concrete, payload: from.payload }),
    {
        InterfaceRef { interface: self.to, concrete: from.concrete, payload: from.payload }
    }

    /// Converts an erased mutable reference into a mutable reference
    /// through the target interface, leaving the value itself untouched.
    /// Guarded as `cast_ref` is.
    pub fn cast_mut(&self, from: &mut AnyView) -> (r: InterfaceRef)
        requires
            old(from).concrete == self.concrete,
        ensures
            *final(from) == *old(from),
            r == (InterfaceRef {
                interface: self.to,
                concrete: self.concrete,
                payload: old(from).payload,
            }),
    {
        InterfaceRef { interface: self.to, concrete: from.concrete, payload: from.payload }
    }

    /// Converts an erased owned handle into an owned handle through the
    /// target interface.  Guarded as `cast_ref` is.
    pub fn cast_box(&self, from: AnyView) -> (r: InterfaceRef)
        requires
            from.concrete == self.concrete,
        ensures
            r == (InterfaceRef { interface: self.to, concrete: self.concrete, payload: from.payload }),
    {
        InterfaceRef { interface: self.to, concrete: from.concrete, payload: from.payload }
    }
}

} // verus!
