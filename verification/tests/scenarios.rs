use intertrait::{
    AnyView, CastFrom, CastTo, Caster, Flag, InterfaceRef, Registration, Registry, TypeIdentity,
};

// A `Widget` registers the describable interface and nothing else; it is
// referenced through the unrelated renderable interface.  The
// serializable interface stays unregistered.
const WIDGET: TypeIdentity = TypeIdentity { raw: 10 };
const RENDERABLE: TypeIdentity = TypeIdentity { raw: 11 };
const DESCRIBABLE: TypeIdentity = TypeIdentity { raw: 12 };
const SERIALIZABLE: TypeIdentity = TypeIdentity { raw: 13 };

fn widget_registry() -> Registry {
    Registry::initialize(vec![Registration {
        concrete: WIDGET,
        caster: Caster {
            concrete: WIDGET,
            to: DESCRIBABLE,
        },
    }])
}

fn widget_through_renderable(payload: u64) -> InterfaceRef {
    InterfaceRef {
        interface: RENDERABLE,
        concrete: WIDGET,
        payload,
    }
}

#[test]
fn widget_casts_to_describable() {
    let registry = widget_registry();
    let renderable = widget_through_renderable(42);
    let view = renderable.ref_to(&registry, DESCRIBABLE).unwrap();
    // The returned view observes the widget itself: same backing value,
    // same concrete type, seen through the target interface.
    assert_eq!(
        view,
        InterfaceRef {
            interface: DESCRIBABLE,
            concrete: WIDGET,
            payload: 42,
        }
    );
    assert!(renderable.impls(&registry, DESCRIBABLE));
}

#[test]
fn widget_does_not_cast_to_serializable() {
    let registry = widget_registry();
    let mut renderable = widget_through_renderable(42);
    assert!(renderable.ref_to(&registry, SERIALIZABLE).is_none());
    assert!(renderable.mut_to(&registry, SERIALIZABLE).is_none());
    assert!(!renderable.impls(&registry, SERIALIZABLE));
    let erased = AnyView {
        concrete: WIDGET,
        payload: 42,
    };
    assert!(erased.ref_to(&registry, SERIALIZABLE).is_none());
}

#[test]
fn owned_widget_handed_back_on_miss() {
    let registry = widget_registry();
    let owned = widget_through_renderable(42);
    let back = match owned.box_to(&registry, SERIALIZABLE) {
        Ok(_) => panic!("an unregistered cast must not succeed"),
        Err(original) => original,
    };
    // The original handle comes back intact and is still usable.
    assert_eq!(back, owned);
    assert!(back.box_to(&registry, DESCRIBABLE).is_ok());
}

#[test]
fn repeated_queries_agree() {
    let registry = widget_registry();
    let renderable = widget_through_renderable(7);
    let first = renderable.ref_to(&registry, DESCRIBABLE);
    let second = renderable.ref_to(&registry, DESCRIBABLE);
    assert_eq!(first, second);
    assert_eq!(
        renderable.impls(&registry, DESCRIBABLE),
        renderable.impls(&registry, DESCRIBABLE)
    );
    let miss_twice = (
        renderable.ref_to(&registry, SERIALIZABLE),
        renderable.ref_to(&registry, SERIALIZABLE),
    );
    assert_eq!(miss_twice.0, miss_twice.1);
}

#[test]
fn erased_reference_casts_like_typed_reference() {
    let registry = widget_registry();
    let typed = widget_through_renderable(5);
    let erased = typed.ref_any();
    assert_eq!(
        typed.ref_to(&registry, DESCRIBABLE),
        erased.ref_to(&registry, DESCRIBABLE)
    );
    assert_eq!(
        typed.ref_to(&registry, SERIALIZABLE),
        erased.ref_to(&registry, SERIALIZABLE)
    );
    assert_eq!(
        typed.impls(&registry, DESCRIBABLE),
        erased.impls(&registry, DESCRIBABLE)
    );
}

#[test]
fn cast_keys_on_concrete_type_not_interface() {
    let registry = widget_registry();
    // A different concrete type seen through the same renderable
    // interface gains nothing from the widget's registration.
    let other = InterfaceRef {
        interface: RENDERABLE,
        concrete: TypeIdentity { raw: 99 },
        payload: 42,
    };
    assert!(!other.impls(&registry, DESCRIBABLE));
    assert!(other.ref_to(&registry, DESCRIBABLE).is_none());
}

#[test]
fn mut_cast_leaves_value_untouched() {
    let registry = widget_registry();
    let mut renderable = widget_through_renderable(64);
    let view = renderable.mut_to(&registry, DESCRIBABLE).unwrap();
    assert_eq!(view.payload, 64);
    assert_eq!(renderable, widget_through_renderable(64));
}

#[test]
fn empty_registry_misses_everything() {
    let registry = Registry::initialize(Vec::new());
    let renderable = widget_through_renderable(1);
    assert!(!renderable.impls(&registry, DESCRIBABLE));
    assert!(renderable.ref_to(&registry, DESCRIBABLE).is_none());
    assert!(renderable.box_to(&registry, DESCRIBABLE).is_err());
}

#[test]
fn lookup_returns_the_registered_descriptor() {
    let registry = Registry::initialize(vec![
        Registration {
            concrete: WIDGET,
            caster: Caster {
                concrete: WIDGET,
                to: DESCRIBABLE,
            },
        },
        Registration {
            concrete: WIDGET,
            caster: Caster {
                concrete: WIDGET,
                to: SERIALIZABLE,
            },
        },
    ]);
    let caster = registry.lookup(WIDGET, SERIALIZABLE).unwrap();
    assert_eq!(caster.concrete, WIDGET);
    assert_eq!(caster.to, SERIALIZABLE);
    assert!(registry.lookup(DESCRIBABLE, SERIALIZABLE).is_none());
}

#[test]
fn duplicate_registration_collapses() {
    // Registering one pair twice leaves a single mapping: the entry
    // consumed later wins, which for equal descriptors changes nothing.
    let entry = Registration {
        concrete: WIDGET,
        caster: Caster {
            concrete: WIDGET,
            to: DESCRIBABLE,
        },
    };
    let registry = Registry::initialize(vec![entry, entry]);
    assert!(registry.contains(WIDGET, DESCRIBABLE));
    let caster = registry.lookup(WIDGET, DESCRIBABLE).unwrap();
    assert_eq!(caster.to, DESCRIBABLE);
}

#[test]
fn descriptor_conversions_agree_on_their_pair() {
    let caster = Caster {
        concrete: WIDGET,
        to: DESCRIBABLE,
    };
    let mut erased = AnyView {
        concrete: WIDGET,
        payload: 3,
    };
    let by_ref = caster.cast_ref(&erased);
    let by_mut = caster.cast_mut(&mut erased);
    let by_box = caster.cast_box(erased);
    assert_eq!(by_ref, by_mut);
    assert_eq!(by_ref, by_box);
    assert_eq!(by_ref.interface, DESCRIBABLE);
    assert_eq!(by_ref.concrete, WIDGET);
    assert_eq!(by_ref.payload, 3);
}

#[test]
fn flag_sync_parses() {
    assert_eq!(Flag::from_name("sync"), Some(Flag::Sync));
}

#[test]
fn flag_unknown_rejected() {
    assert_eq!(Flag::from_name("send"), None);
    assert_eq!(Flag::from_name("syncing"), None);
    assert_eq!(Flag::from_name(""), None);
}
