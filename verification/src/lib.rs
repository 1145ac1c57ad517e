//! Runtime-checked casting between interface references that share a
//! backing concrete value, without naming that concrete type at the call
//! site.
//!
//! A [`TypeIdentity`] names a concrete type or a target interface as a
//! plain value.  A [`Caster`] is the conversion descriptor for one
//! (concrete type, target interface) pair; its conversions are guarded:
//! each is defined only for values whose runtime type is the descriptor's
//! own.  [`Registration`] entries, emitted by the host program's code
//! generator and gathered at link time, are consumed exactly once by
//! [`Registry::initialize`] into an immutable lookup table, and every
//! cast afterwards is one lookup keyed by the value's runtime identity —
//! which discharges the descriptors' guard — plus at most one conversion.
//!
//! The capability traits carry the protocol: [`CastFrom`] is the
//! type-erasure capability (a value reveals its runtime identity as a
//! fully erased [`AnyView`]), and [`CastTo`] — casting by reference, by
//! mutable reference and by owned handle, plus the pure membership test
//! `impls` — comes for free with it through a blanket implementation.  A
//! miss is a normal outcome, never an error: reference casts return the
//! empty result, and an owned-handle cast hands the original handle back
//! unchanged.

mod cast;
mod caster;
mod flag;
mod identity;
mod registry;

pub use cast::lemma_cast_hit_iff_registered;
pub use cast::lemma_erased_cast_agrees;
pub use cast::lemma_implements_agrees_with_cast;
pub use cast::lemma_query_idempotent;
pub use cast::lemma_unregistered_all_miss;
pub use cast::spec_cast;
pub use cast::spec_implements;
pub use cast::CastFrom;
pub use cast::CastTo;
pub use caster::AnyView;
pub use caster::Caster;
pub use caster::InterfaceRef;
pub use flag::Flag;
pub use identity::TypeIdentity;
pub use registry::lemma_registry_model_domain;
pub use registry::lemma_registry_model_unique;
pub use registry::registry_model;
pub use registry::Registration;
pub use registry::Registry;
