use crate::caster::Caster;
use crate::identity::{lemma_pair_key_injective, pair_key, spec_pair_key, TypeIdentity};
use std::collections::HashMap;
use vstd::prelude::*;

verus! {

broadcast use vstd::std_specs::hash::group_hash_axioms;

/// One registration entry, as the host program's code generator emits
/// it: a declaration that values of the concrete type may be cast to the
/// descriptor's target interface.  An entry of a correct generator is
/// well formed: its descriptor names the very concrete type the entry
/// declares.
#[derive(Clone, Copy, Debug, PartialEq, Eq, Structural)]
pub struct Registration {
    /// the concrete type the entry is for
    pub concrete: TypeIdentity,
    /// the conversion descriptor registered for it
    pub caster: Caster,
}

impl Registration {
    /// A well-formed entry: the descriptor agrees with the declared
    /// concrete type.  Entries that disagree are a defect of the
    /// generator and are not consumed.
    pub open spec fn wf(self) -> bool {
        self.caster.concrete == self.concrete
    }

    /// The pair this entry registers a conversion for.
    pub open spec fn key(self) -> (TypeIdentity, TypeIdentity) {
        (self.concrete, self.caster.to)
    }
}

/// The mapping that a sequence of registration entries builds: every
/// entry is consumed exactly once, in order, and of two entries for the
/// same pair the one registered later wins.  (In a valid program keys
/// are unique, and the order then cannot matter; see
/// `lemma_registry_model_unique`.)
pub open spec fn registry_model(entries: Seq<Registration>) -> Map<
    (TypeIdentity, TypeIdentity),
    Caster,
>
    decreases entries.len(),
{
    if entries.len() == 0 {
        Map::empty()
    } else {
        registry_model(entries.drop_last()).insert(entries.last().key(), entries.last().caster)
    }
}

/// The built mapping holds a pair exactly when some entry registers it.
pub proof fn lemma_registry_model_domain(
    entries: Seq<Registration>,
    p: (TypeIdentity, TypeIdentity),
)
    ensures
        registry_model(entries).contains_key(p) <==> exists|i: int|
            0 <= i < entries.len() && (#[trigger] entries[i]).key() == p,
    decreases entries.len(),
{
    if entries.len() > 0 {
        lemma_registry_model_domain(entries.drop_last(), p);
        if entries.last().key() == p {
            assert(entries[entries.len() - 1].key() == p);
        } else if registry_model(entries).contains_key(p) {
            let i = choose|i: int|
                0 <= i < entries.drop_last().len() && (#[trigger] entries.drop_last()[i]).key()
                    == p;
            assert(entries[i].key() == p);
        } else {
            assert forall|i: int|
                0 <= i < entries.len() && (#[trigger] entries[i]).key() == p implies false by {
                assert(entries.drop_last()[i].key() == p);
            }
        }
    }
}

/// When no two entries register one pair, the order entries are consumed
/// in cannot matter: the built mapping sends each registered pair to the
/// descriptor of its one entry.
pub proof fn lemma_registry_model_unique(entries: Seq<Registration>, i: int)
    requires
        0 <= i < entries.len(),
        forall|j: int|
            0 <= j < entries.len() && j != i ==> (#[trigger] entries[j]).key() != entries[i].key(),
    ensures
        registry_model(entries).contains_key(entries[i].key()),
        registry_model(entries)[entries[i].key()] == entries[i].caster,
    decreases entries.len(),
{
    lemma_registry_model_domain(entries, entries[i].key());
    if i + 1 == entries.len() {
    } else {
        assert forall|j: int|
            0 <= j < entries.drop_last().len() && j != i implies (#[trigger] entries.drop_last()[j]).key()
            != entries.drop_last()[i].key() by {
            assert(entries.drop_last()[j] == entries[j]);
        }
        lemma_registry_model_unique(entries.drop_last(), i);
        assert(entries.last().key() != entries[i].key());
    }
}

/// The pair-keyed mapping that a packed table stands for.
spec fn table_abs(t: Map<u128, Caster>) -> Map<(TypeIdentity, TypeIdentity), Caster> {
    Map::new(
        |p: (TypeIdentity, TypeIdentity)| t.contains_key(spec_pair_key(p.0, p.1)),
        |p: (TypeIdentity, TypeIdentity)| t[spec_pair_key(p.0, p.1)],
    )
}

/// A packed table of descriptors in good order: every descriptor sits
/// under the key packed from its own pair.
spec fn table_wf(t: Map<u128, Caster>) -> bool {
    forall|k: u128| #[trigger]
        t.contains_key(k) ==> k == spec_pair_key(t[k].concrete, t[k].to)
}

/// The global registry: the one lookup structure every cast goes
/// through, keyed by (concrete type, target interface).  It is built
/// once from the gathered registration entries and never changes
/// afterwards: no method mutates it, so unlimited concurrent readers are
/// sound and repeated queries agree.
pub struct Registry {
    table: HashMap<u128, Caster>,
}

impl View for Registry {
    type V = Map<(TypeIdentity, TypeIdentity), Caster>;

    closed spec fn view(&self) -> Map<(TypeIdentity, TypeIdentity), Caster> {
        table_abs(self.table@)
    }
}

impl Registry {
    #[verifier::type_invariant]
    spec fn wf(self) -> bool {
        table_wf(self.table@)
    }

    /// Builds the registry, consuming every registration entry exactly
    /// once.  Entries must come from a correct generator (each well
    /// formed); of two entries for the same pair the later one wins.
    pub fn initialize(entries: Vec<Registration>) -> (r: Registry)
        requires
            forall|i: int| 0 <= i < entries@.len() ==> (#[trigger] entries@[i]).wf(),
        ensures
            r@ == registry_model(entries@),
    {
        let mut table: HashMap<u128, Caster> = HashMap::new();
        let n: usize = entries.len();
        assert(entries@.take(0) =~= Seq::<Registration>::empty());
        let mut idx: usize = 0;
        while idx < n
            invariant
                idx <= n,
                n == entries@.len(),
                forall|i: int| 0 <= i < entries@.len() ==> (#[trigger] entries@[i]).wf(),
                table_wf(table@),
                table_abs(table@) == registry_model(entries@.take(idx as int)),
            decreases n - idx,
        {
            let e = entries[idx];
            let k = pair_key(e.concrete, e.caster.to);
            let ghost prev = table@;
            table.insert(k, e.caster);
            proof {
                assert(e.wf());
                assert forall|k2: u128| #[trigger] table@.contains_key(k2) implies k2
                    == spec_pair_key(table@[k2].concrete, table@[k2].to) by {
                    if k2 != k {
                        assert(prev.contains_key(k2));
                    }
                }
                let taken = entries@.take(idx as int);
                let taken1 = entries@.take(idx as int + 1);
                assert(taken1.drop_last() =~= taken);
                assert(taken1.last() == e);
                assert(registry_model(taken1) == registry_model(taken).insert(e.key(), e.caster));
                assert forall|p: (TypeIdentity, TypeIdentity)|
                    table_abs(table@).contains_key(p) <==> registry_model(taken1).contains_key(
                        p,
                    ) by {
                    if spec_pair_key(p.0, p.1) == k {
                        lemma_pair_key_injective(p.0, p.1, e.concrete, e.caster.to);
                    }
                }
                assert forall|p: (TypeIdentity, TypeIdentity)| #[trigger]
                    table_abs(table@).contains_key(p) implies table_abs(table@)[p]
                    == registry_model(taken1)[p] by {
                    if spec_pair_key(p.0, p.1) == k {
                        lemma_pair_key_injective(p.0, p.1, e.concrete, e.caster.to);
                    } else {
                        assert(table_abs(prev).contains_key(p));
                    }
                }
                assert(table_abs(table@) =~= registry_model(taken1));
            }
            idx += 1;
        }
        assert(entries@.take(n as int) =~= entries@);
        Registry { table }
    }

    /// Looks the conversion descriptor up for a (concrete type, target
    /// interface) pair.  Absence is a normal "no such cast" outcome.  A
    /// descriptor that is found is exactly the registered one, and names
    /// exactly the pair it was looked up under — the guard its
    /// conversions require.
    pub fn lookup(&self, concrete: TypeIdentity, target: TypeIdentity) -> (r: Option<&Caster>)
        ensures
            match r {
                Some(c) => self@.contains_key((concrete, target)) && *c == self@[(
                    concrete,
                    target,
                )] && c.concrete == concrete && c.to == target,
                None => !self@.contains_key((concrete, target)),
            },
    {
        proof {
            use_type_invariant(self);
        }
        let k = pair_key(concrete, target);
        let r = self.table.get(&k);
        proof {
            if let Some(c) = r {
                assert(self.table@.contains_key(k) && self.table@[k] == *c);
                lemma_pair_key_injective(c.concrete, c.to, concrete, target);
            }
        }
        r
    }

    /// Pure membership: whether a conversion is registered for the pair.
    /// Queries nothing else and changes nothing.
    pub fn contains(&self, concrete: TypeIdentity, target: TypeIdentity) -> (b: bool)
        ensures
            b == self@.contains_key((concrete, target)),
    {
        let k = pair_key(concrete, target);
        self.table.contains_key(&k)
    }
}

} // verus!
