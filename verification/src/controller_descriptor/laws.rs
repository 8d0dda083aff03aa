//! Properties of registering controllers that hold for every registry.

use vstd::prelude::*;

use crate::controller_descriptor::{
    build_allowed, can_register, empty_registry, lookup, registered, registry_consistent,
    DescriptorView,
    RegistryView,
};

verus! {

/// After a descriptor is registered, its name finds it.
pub proof fn law_registered_name_is_found(reg: RegistryView, d: DescriptorView)
    requires
        can_register(reg, d),
    ensures
        lookup(registered(reg, d), d.name) == Some(d),
{
}

/// After a descriptor is registered, each of its aliases finds it and
/// resolves to its name.
pub proof fn law_registered_alias_is_found(reg: RegistryView, d: DescriptorView, i: int)
    requires
        can_register(reg, d),
        0 <= i < d.aliases.len(),
    ensures
        lookup(registered(reg, d), d.aliases[i]) == Some(d),
        registered(reg, d).aliases.contains_key(d.aliases[i]),
        registered(reg, d).aliases[d.aliases[i]] == d.name,
{
    assert(d.aliases.contains(d.aliases[i]));
}

/// Registering a descriptor keeps every name and alias that found a
/// controller finding the same controller.
pub proof fn law_register_keeps_lookups(reg: RegistryView, d: DescriptorView, n: Seq<char>)
    requires
        can_register(reg, d),
        lookup(reg, n) is Some,
    ensures
        lookup(registered(reg, d), n) == lookup(reg, n),
{
    let after = registered(reg, d);
    if !reg.controllers.contains_key(n) {
        assert(reg.aliases.contains_key(n));
        assert(!d.aliases.contains(n)) by {
            if d.aliases.contains(n) {
                let j = choose|j: int| 0 <= j < d.aliases.len() && d.aliases[j] == n;
                assert(!reg.aliases.contains_key(d.aliases[j]));
            }
        }
        assert(after.aliases[n] == reg.aliases[n]);
    }
}

/// A registry with no controllers is consistent.
pub proof fn law_empty_registry_is_consistent()
    ensures
        registry_consistent(empty_registry()),
{
}

/// Registering a descriptor keeps a consistent registry consistent, when the
/// descriptor's name is not among its own aliases.
pub proof fn law_register_keeps_consistent(reg: RegistryView, d: DescriptorView)
    requires
        registry_consistent(reg),
        can_register(reg, d),
        !d.aliases.contains(d.name),
    ensures
        registry_consistent(registered(reg, d)),
{
    let after = registered(reg, d);
    assert forall|n: Seq<char>| #[trigger] after.controllers.contains_key(n) implies !after.aliases.contains_key(n) by {
        if n != d.name {
            assert(reg.controllers.contains_key(n));
            if d.aliases.contains(n) {
                let j = choose|j: int| 0 <= j < d.aliases.len() && d.aliases[j] == n;
                assert(!reg.controllers.contains_key(d.aliases[j]));
            }
        }
    }
}

/// Registering never removes a controller or an alias.
pub proof fn law_register_only_adds(reg: RegistryView, d: DescriptorView)
    requires
        can_register(reg, d),
    ensures
        forall|n: Seq<char>| #[trigger] reg.controllers.contains_key(n) ==> registered(reg, d).controllers.contains_key(n)
            && registered(reg, d).controllers[n] == reg.controllers[n],
        forall|a: Seq<char>| #[trigger] reg.aliases.contains_key(a) ==> registered(reg, d).aliases.contains_key(a)
            && registered(reg, d).aliases[a] == reg.aliases[a],
{
    assert forall|a: Seq<char>| #[trigger] reg.aliases.contains_key(a) implies registered(reg, d).aliases[a] == reg.aliases[a] by {
        if d.aliases.contains(a) {
            let j = choose|j: int| 0 <= j < d.aliases.len() && d.aliases[j] == a;
            assert(!reg.aliases.contains_key(d.aliases[j]));
        }
    }
}


/// A controller is built only when every one of its required feature gates,
/// at whatever position in its list, is a known gate that is on, and it is
/// not a cloud provider controller; and every such controller is built.
pub proof fn law_build_needs_every_required_gate(d: DescriptorView, gates: Map<Seq<char>, bool>)
    ensures
        build_allowed(d, gates) ==> !d.is_cloud_provider_controller,
        build_allowed(d, gates) ==> forall|j: int|
            0 <= j < d.required_feature_gates.len() ==> gates.contains_key(
                #[trigger] d.required_feature_gates[j],
            ) && gates[d.required_feature_gates[j]],
        (exists|j: int|
            0 <= j < d.required_feature_gates.len() && !(gates.contains_key(
                #[trigger] d.required_feature_gates[j],
            ) && gates[d.required_feature_gates[j]])) ==> !build_allowed(d, gates),
        (!d.is_cloud_provider_controller && forall|j: int|
            0 <= j < d.required_feature_gates.len() ==> gates.contains_key(
                #[trigger] d.required_feature_gates[j],
            ) && gates[d.required_feature_gates[j]]) ==> build_allowed(d, gates),
{
}

} // verus!
