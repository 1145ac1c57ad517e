use vstd::prelude::*;

verus! {

/// The process-wide identity of a type: of a concrete type backing a
/// value, or of a target interface a value may be cast to.  Two
/// identities are equal exactly when they name the same type.  The host
/// program mints them (for instance from its runtime type ids); the
/// registry only compares, packs and stores them.  Hashable and totally
/// ordered, so hosts may key their own tables by it.
#[derive(Clone, Copy, Debug, PartialEq, Eq, Structural, Hash, PartialOrd, Ord)]
pub struct TypeIdentity {
    pub raw: u64,
}

/// The single word that a (concrete type, target interface) pair is
/// keyed by in the registry's table: the two identities side by side.
pub open spec fn spec_pair_key(concrete: TypeIdentity, target: TypeIdentity) -> u128 {
    ((concrete.raw as u128) << 64) | (target.raw as u128)
}

/// Packs a pair of identities into its table key.
pub fn pair_key(concrete: TypeIdentity, target: TypeIdentity) -> (k: u128)
    ensures
        k == spec_pair_key(concrete, target),
{
    ((concrete.raw as u128) << 64) | (target.raw as u128)
}

/// Packing is injective: distinct pairs land under distinct keys, so one
/// table keyed by the packed word can hold the pair-keyed mapping.
pub proof fn lemma_pair_key_injective(
    a: TypeIdentity,
    b: TypeIdentity,
    c: TypeIdentity,
    d: TypeIdentity,
)
    requires
        spec_pair_key(a, b) == spec_pair_key(c, d),
    ensures
        a == c,
        b == d,
{
    let (x1, y1, x2, y2) = (a.raw, b.raw, c.raw, d.raw);
    assert(((x1 as u128) << 64) | (y1 as u128) == ((x2 as u128) << 64) | (y2 as u128) ==> x1 == x2
        && y1 == y2) by (bit_vector);
}

} // verus!
