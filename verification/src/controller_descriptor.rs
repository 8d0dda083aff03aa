//! Controller descriptors and the registry of known controllers.

use vstd::prelude::*;

use crate::controller::{unknown_runtime_failure, ControllerError};
use crate::feature::FeatureGate;
use crate::table::{keyed_table, lemma_keyed_find, lemma_keyed_lookup, lemma_keyed_push, lemma_keyed_update};
use crate::text::{clone_strings, debug_quoted, owned_strings, quoted, string_views};

pub mod laws;

verus! {

/// What a controller descriptor says.
pub struct DescriptorView {
    /// Canonical name.
    pub name: Seq<char>,
    /// Alternative names, in the order they were added.
    pub aliases: Seq<Seq<char>>,
    /// Feature gates that must be on for the controller to run.
    pub required_feature_gates: Seq<Seq<char>>,
    /// Whether the controller is off unless enabled by name.
    pub disabled_by_default: bool,
    /// Whether this is a cloud provider controller.
    pub is_cloud_provider_controller: bool,
    /// Whether the controller needs special handling at start.
    pub requires_special_handling: bool,
}

/// The facts about one controller: its names, the feature gates it needs and
/// how it is started.
#[derive(Debug)]
pub struct ControllerDescriptor {
    name: String,
    aliases: Vec<String>,
    required_feature_gates: Vec<String>,
    disabled_by_default: bool,
    is_cloud_provider_controller: bool,
    requires_special_handling: bool,
}

impl View for ControllerDescriptor {
    type V = DescriptorView;

    closed spec fn view(&self) -> DescriptorView {
        DescriptorView {
            name: self.name@,
            aliases: string_views(self.aliases@),
            required_feature_gates: string_views(self.required_feature_gates@),
            disabled_by_default: self.disabled_by_default,
            is_cloud_provider_controller: self.is_cloud_provider_controller,
            requires_special_handling: self.requires_special_handling,
        }
    }
}

impl Clone for ControllerDescriptor {
    fn clone(&self) -> (r: Self)
        ensures
            r@ == self@,
    {
        ControllerDescriptor {
            name: self.name.clone(),
            aliases: clone_strings(&self.aliases),
            required_feature_gates: clone_strings(&self.required_feature_gates),
            disabled_by_default: self.disabled_by_default,
            is_cloud_provider_controller: self.is_cloud_provider_controller,
            requires_special_handling: self.requires_special_handling,
        }
    }
}

/// The texts of a list of string slices.
pub open spec fn str_views(s: Seq<&str>) -> Seq<Seq<char>> {
    s.map_values(|x: &str| x@)
}

impl ControllerDescriptor {
    /// A builder for a descriptor of the controller named `name`.
    pub fn builder(name: &str) -> (b: Builder)
        ensures
            b@ == Builder::initial(name@),
    {
        Builder::new(name)
    }

    /// The canonical name.
    pub fn name(&self) -> (n: &str)
        ensures
            n@ == self@.name,
    {
        self.name.as_str()
    }

    /// The alternative names.
    pub fn aliases(&self) -> (a: &[String])
        ensures
            string_views(a@) == self@.aliases,
    {
        self.aliases.as_slice()
    }

    /// The feature gates that must be on for the controller to run.
    pub fn required_feature_gates(&self) -> (g: &[String])
        ensures
            string_views(g@) == self@.required_feature_gates,
    {
        self.required_feature_gates.as_slice()
    }

    /// Whether the controller is off unless enabled by name.
    pub fn is_disabled_by_default(&self) -> (b: bool)
        ensures
            b == self@.disabled_by_default,
    {
        self.disabled_by_default
    }

    /// Whether this is a cloud provider controller.
    pub fn is_cloud_provider_controller(&self) -> (b: bool)
        ensures
            b == self@.is_cloud_provider_controller,
    {
        self.is_cloud_provider_controller
    }

    /// Whether the controller needs special handling at start.
    pub fn requires_special_handling(&self) -> (b: bool)
        ensures
            b == self@.requires_special_handling,
    {
        self.requires_special_handling
    }

    /// Whether the controller is to be built with the feature gates
    /// `feature_gate`: every required feature gate is on and it is not a cloud
    /// provider controller.
    pub fn should_build<G: FeatureGate>(&self, feature_gate: &G) -> (b: bool)
        ensures
            b == build_allowed(self@, feature_gate.gate_view()),
    {
        let mut i: usize = 0;
        while i < self.required_feature_gates.len()
            invariant
                0 <= i <= self.required_feature_gates@.len(),
                forall|j: int|
                    0 <= j < i ==> gate_on(
                        feature_gate.gate_view(),
                        #[trigger] string_views(self.required_feature_gates@)[j],
                    ),
            decreases self.required_feature_gates@.len() - i,
        {
            if !feature_gate.enabled(self.required_feature_gates[i].as_str()) {
                assert(!gate_on(feature_gate.gate_view(), self@.required_feature_gates[i as int]));
                return false;
            }
            i = i + 1;
        }
        !self.is_cloud_provider_controller
    }
}

/// Whether the known feature gate `name` is on.
pub open spec fn gate_on(gates: Map<Seq<char>, bool>, name: Seq<char>) -> bool {
    gates.contains_key(name) && gates[name]
}

/// Whether a controller described by `d` is built when the feature gates are
/// `gates`.
pub open spec fn build_allowed(d: DescriptorView, gates: Map<Seq<char>, bool>) -> bool {
    &&& forall|j: int| 0 <= j < d.required_feature_gates.len() ==> gate_on(gates, #[trigger] d.required_feature_gates[j])
    &&& !d.is_cloud_provider_controller
}

/// What a controller registry holds.
pub struct RegistryView {
    /// Descriptors by canonical name.
    pub controllers: Map<Seq<char>, DescriptorView>,
    /// Canonical names by alias.
    pub aliases: Map<Seq<char>, Seq<char>>,
}

/// A registry with no controllers.
pub open spec fn empty_registry() -> RegistryView {
    RegistryView { controllers: Map::empty(), aliases: Map::empty() }
}

/// Whether `d` can be added to `reg`: it has a name, the name is neither
/// registered nor an alias in use, and none of its aliases is a registered
/// name or an alias in use.
pub open spec fn can_register(reg: RegistryView, d: DescriptorView) -> bool {
    &&& d.name.len() > 0
    &&& !reg.controllers.contains_key(d.name)
    &&& !reg.aliases.contains_key(d.name)
    &&& forall|i: int|
        0 <= i < d.aliases.len() ==> !reg.controllers.contains_key(#[trigger] d.aliases[i])
            && !reg.aliases.contains_key(d.aliases[i])
}

/// `reg` with `d` added under its name and each of its aliases.
pub open spec fn registered(reg: RegistryView, d: DescriptorView) -> RegistryView {
    RegistryView {
        controllers: reg.controllers.insert(d.name, d),
        aliases: reg.aliases.union_prefer_right(
            Map::new(|a: Seq<char>| d.aliases.contains(a), |a: Seq<char>| d.name),
        ),
    }
}

/// The descriptor that `name` finds in `reg`, as a canonical name first and
/// then as an alias.
pub open spec fn lookup(reg: RegistryView, name: Seq<char>) -> Option<DescriptorView> {
    if reg.controllers.contains_key(name) {
        Some(reg.controllers[name])
    } else if reg.aliases.contains_key(name) && reg.controllers.contains_key(reg.aliases[name]) {
        Some(reg.controllers[reg.aliases[name]])
    } else {
        None
    }
}

/// Whether every alias of `reg` names a registered controller and no
/// registered name is also an alias.
pub open spec fn registry_consistent(reg: RegistryView) -> bool {
    &&& forall|a: Seq<char>| #[trigger]
        reg.aliases.contains_key(a) ==> reg.controllers.contains_key(reg.aliases[a])
    &&& forall|n: Seq<char>| #[trigger]
        reg.controllers.contains_key(n) ==> !reg.aliases.contains_key(n)
}

/// Why a descriptor cannot be registered.
#[derive(Debug)]
pub enum RegistrationError {
    /// The descriptor has an empty name.
    EmptyName,
    /// A controller with this name is already registered.
    AlreadyRegistered(String),
    /// The name is already an alias of the named controller.
    NameIsAlias { name: String, controller: String },
    /// This alias is the name of a registered controller.
    AliasIsControllerName(String),
    /// This alias is already an alias of the named controller.
    AliasInUse { alias: String, controller: String },
}

/// What a [`RegistrationError`] says, over text values.
pub enum RegistrationFault {
    /// The descriptor has an empty name.
    EmptyName,
    /// A controller with this name is already registered.
    AlreadyRegistered(Seq<char>),
    /// The name is already an alias of the named controller.
    NameIsAlias { name: Seq<char>, controller: Seq<char> },
    /// This alias is the name of a registered controller.
    AliasIsControllerName(Seq<char>),
    /// This alias is already an alias of the named controller.
    AliasInUse { alias: Seq<char>, controller: Seq<char> },
}

impl View for RegistrationError {
    type V = RegistrationFault;

    open spec fn view(&self) -> RegistrationFault {
        match self {
            RegistrationError::EmptyName => RegistrationFault::EmptyName,
            RegistrationError::AlreadyRegistered(n) => RegistrationFault::AlreadyRegistered(n@),
            RegistrationError::NameIsAlias { name, controller } => RegistrationFault::NameIsAlias {
                name: name@,
                controller: controller@,
            },
            RegistrationError::AliasIsControllerName(a) => RegistrationFault::AliasIsControllerName(
                a@,
            ),
            RegistrationError::AliasInUse { alias, controller } => RegistrationFault::AliasInUse {
                alias: alias@,
                controller: controller@,
            },
        }
    }
}

/// The text that reports a registration fault.
pub open spec fn registration_message(f: RegistrationFault) -> Seq<char> {
    match f {
        RegistrationFault::EmptyName => "controller name cannot be empty"@,
        RegistrationFault::AlreadyRegistered(n) => "controller "@ + debug_quoted(n)
            + " is already registered"@,
        RegistrationFault::NameIsAlias { name, controller } => "controller name "@ + debug_quoted(
            name,
        ) + " is already an alias of controller "@ + debug_quoted(controller),
        RegistrationFault::AliasIsControllerName(a) => "alias "@ + debug_quoted(a)
            + " conflicts with an existing controller name"@,
        RegistrationFault::AliasInUse { alias, controller } => "alias "@ + debug_quoted(alias)
            + " is already used by controller "@ + debug_quoted(controller),
    }
}

impl RegistrationError {
    /// The human-readable description of this error.
    pub fn message(&self) -> (m: String)
        ensures
            m@ == registration_message(self@),
    {
        match self {
            RegistrationError::EmptyName => "controller name cannot be empty".to_owned(),
            RegistrationError::AlreadyRegistered(n) => {
                let mut m = "controller ".to_owned();
                let q = quoted(n.as_str());
                m.append(q.as_str());
                m.append(" is already registered");
                m
            },
            RegistrationError::NameIsAlias { name, controller } => {
                let mut m = "controller name ".to_owned();
                let q = quoted(name.as_str());
                m.append(q.as_str());
                m.append(" is already an alias of controller ");
                let c = quoted(controller.as_str());
                m.append(c.as_str());
                m
            },
            RegistrationError::AliasIsControllerName(a) => {
                let mut m = "alias ".to_owned();
                let q = quoted(a.as_str());
                m.append(q.as_str());
                m.append(" conflicts with an existing controller name");
                m
            },
            RegistrationError::AliasInUse { alias, controller } => {
                let mut m = "alias ".to_owned();
                let q = quoted(alias.as_str());
                m.append(q.as_str());
                m.append(" is already used by controller ");
                let c = quoted(controller.as_str());
                m.append(c.as_str());
                m
            },
        }
    }
}

/// The first of `aliases` that conflicts with `reg`, as a fault.
pub open spec fn first_alias_conflict(reg: RegistryView, aliases: Seq<Seq<char>>) -> Option<
    RegistrationFault,
>
    decreases aliases.len(),
{
    if aliases.len() == 0 {
        None
    } else if reg.controllers.contains_key(aliases[0]) {
        Some(RegistrationFault::AliasIsControllerName(aliases[0]))
    } else if reg.aliases.contains_key(aliases[0]) {
        Some(RegistrationFault::AliasInUse { alias: aliases[0], controller: reg.aliases[aliases[0]] })
    } else {
        first_alias_conflict(reg, aliases.drop_first())
    }
}

/// Why `d` cannot be added to `reg`, checked in order: the name, whether it
/// is registered, whether it is an alias in use, then each alias in turn;
/// `None` when it can be added.
pub open spec fn registration_fault(reg: RegistryView, d: DescriptorView) -> Option<RegistrationFault> {
    if d.name.len() == 0 {
        Some(RegistrationFault::EmptyName)
    } else if reg.controllers.contains_key(d.name) {
        Some(RegistrationFault::AlreadyRegistered(d.name))
    } else if reg.aliases.contains_key(d.name) {
        Some(RegistrationFault::NameIsAlias { name: d.name, controller: reg.aliases[d.name] })
    } else {
        first_alias_conflict(reg, d.aliases)
    }
}

proof fn lemma_no_alias_conflict(reg: RegistryView, aliases: Seq<Seq<char>>)
    ensures
        first_alias_conflict(reg, aliases) is None <==> forall|i: int|
            0 <= i < aliases.len() ==> !reg.controllers.contains_key(#[trigger] aliases[i])
                && !reg.aliases.contains_key(aliases[i]),
    decreases aliases.len(),
{
    if aliases.len() > 0 {
        let rest = aliases.drop_first();
        lemma_no_alias_conflict(reg, rest);
        assert forall|i: int| 1 <= i < aliases.len() implies aliases[i] == #[trigger] rest[i - 1] by {}
        if first_alias_conflict(reg, rest) is None && first_alias_conflict(reg, aliases) is None {
            assert forall|i: int| 0 <= i < aliases.len() implies !reg.controllers.contains_key(#[trigger] aliases[i])
                && !reg.aliases.contains_key(aliases[i]) by {
                if i > 0 {
                    assert(aliases[i] == rest[i - 1]);
                }
            }
        }
        if first_alias_conflict(reg, rest) is Some {
            let w = choose|i: int| 0 <= i < rest.len() && !(!reg.controllers.contains_key(#[trigger] rest[i])
                && !reg.aliases.contains_key(rest[i]));
            assert(rest[w] == aliases[w + 1]);
        }
    }
}

/// The registry of known controllers, found by name or alias.
#[derive(Debug)]
pub struct ControllerRegistry {
    controllers: Vec<ControllerDescriptor>,
    alias_map: Vec<(String, String)>,
}

/// The names of a list of descriptors.
pub open spec fn descriptor_names(s: Seq<ControllerDescriptor>) -> Seq<Seq<char>> {
    s.map_values(|d: ControllerDescriptor| d@.name)
}

/// The views of a list of descriptors.
pub open spec fn descriptor_views(s: Seq<ControllerDescriptor>) -> Seq<DescriptorView> {
    s.map_values(|d: ControllerDescriptor| d@)
}

/// The aliases of a list of alias/name pairs.
pub open spec fn alias_keys(s: Seq<(String, String)>) -> Seq<Seq<char>> {
    s.map_values(|p: (String, String)| p.0@)
}

/// The names of a list of alias/name pairs.
pub open spec fn alias_targets(s: Seq<(String, String)>) -> Seq<Seq<char>> {
    s.map_values(|p: (String, String)| p.1@)
}

impl View for ControllerRegistry {
    type V = RegistryView;

    closed spec fn view(&self) -> RegistryView {
        RegistryView {
            controllers: keyed_table(descriptor_names(self.controllers@), descriptor_views(self.controllers@)),
            aliases: keyed_table(alias_keys(self.alias_map@), alias_targets(self.alias_map@)),
        }
    }
}

impl ControllerRegistry {
    #[verifier::type_invariant]
    spec fn well_formed(self) -> bool {
        &&& descriptor_names(self.controllers@).no_duplicates()
        &&& alias_keys(self.alias_map@).no_duplicates()
        &&& forall|i: int|
            0 <= i < self.alias_map@.len() ==> descriptor_names(self.controllers@).contains(
                #[trigger] self.alias_map@[i].1@,
            )
    }

    /// An empty registry.
    pub fn new() -> (r: ControllerRegistry)
        ensures
            r@ == empty_registry(),
    {
        let r = ControllerRegistry { controllers: Vec::new(), alias_map: Vec::new() };
        assert(r@.controllers =~= Map::<Seq<char>, DescriptorView>::empty());
        assert(r@.aliases =~= Map::<Seq<char>, Seq<char>>::empty());
        r
    }

    /// Why `descriptor` cannot be registered, checked in order: an empty
    /// name, a name that is already registered, then for each alias in turn
    /// whether it is a registered name or an alias in use.
    pub fn check_register(&self, descriptor: &ControllerDescriptor) -> (r: Result<(), RegistrationError>)
        ensures
            match r {
                Ok(()) => registration_fault(self@, descriptor@) is None,
                Err(e) => registration_fault(self@, descriptor@) == Some(e@),
            },
            r is Ok <==> can_register(self@, descriptor@),
    {
        proof {
            use_type_invariant(self);
            lemma_no_alias_conflict(self@, descriptor@.aliases);
        }
        if descriptor.name.as_str().is_empty() {
            assert(descriptor@.name.len() == 0);
            return Err(RegistrationError::EmptyName);
        }
        assert(descriptor@.name.len() > 0);
        if let Some(i) = name_position(&self.controllers, descriptor.name.as_str()) {
            proof {
                lemma_keyed_lookup(descriptor_names(self.controllers@), descriptor_views(self.controllers@), i as int);
            }
            return Err(RegistrationError::AlreadyRegistered(descriptor.name.clone()));
        }
        if let Some(k) = pair_position(&self.alias_map, descriptor.name.as_str()) {
            proof {
                lemma_keyed_lookup(alias_keys(self.alias_map@), alias_targets(self.alias_map@), k as int);
            }
            return Err(
                RegistrationError::NameIsAlias {
                    name: descriptor.name.clone(),
                    controller: self.alias_map[k].1.clone(),
                },
            );
        }
        let ghost aliases = descriptor@.aliases;
        assert(aliases.skip(0) =~= aliases);
        let mut i: usize = 0;
        while i < descriptor.aliases.len()
            invariant
                0 <= i <= descriptor.aliases@.len(),
                aliases == string_views(descriptor.aliases@),
                aliases == descriptor@.aliases,
                descriptor@.name.len() > 0,
                !self@.controllers.contains_key(descriptor@.name),
                !self@.aliases.contains_key(descriptor@.name),
                aliases.len() == descriptor.aliases@.len(),
                first_alias_conflict(self@, aliases) == first_alias_conflict(
                    self@,
                    aliases.skip(i as int),
                ),
            decreases descriptor.aliases@.len() - i,
        {
            proof {
                use_type_invariant(self);
            }
            let alias = descriptor.aliases[i].as_str();
            let ghost rest = aliases.skip(i as int);
            assert(rest[0] == alias@);
            assert(rest.drop_first() =~= aliases.skip(i + 1));
            if let Some(k) = name_position(&self.controllers, alias) {
                proof {
                    lemma_keyed_lookup(descriptor_names(self.controllers@), descriptor_views(self.controllers@), k as int);
                }
                return Err(RegistrationError::AliasIsControllerName(alias.to_owned()));
            }
            if let Some(k) = pair_position(&self.alias_map, alias) {
                proof {
                    lemma_keyed_lookup(alias_keys(self.alias_map@), alias_targets(self.alias_map@), k as int);
                }
                return Err(
                    RegistrationError::AliasInUse {
                        alias: alias.to_owned(),
                        controller: self.alias_map[k].1.clone(),
                    },
                );
            }
            i = i + 1;
        }
        assert(aliases.skip(i as int) =~= Seq::<Seq<char>>::empty());
        Ok(())
    }

    /// Adds `descriptor` under its name and each of its aliases.
    pub fn register(&mut self, descriptor: ControllerDescriptor) -> (r: &mut Self)
        requires
            can_register(old(self)@, descriptor@),
        ensures
            (*r)@ == registered(old(self)@, descriptor@),
            *final(self) == *final(r),
    {
        proof {
            use_type_invariant(&*self);
        }
        let ghost d = descriptor@;
        let ghost before = self@;
        let ghost old_names = descriptor_names(self.controllers@);
        let mut aliases: Vec<(String, String)> = Vec::new();
        std::mem::swap(&mut aliases, &mut self.alias_map);
        let mut i: usize = 0;
        while i < descriptor.aliases.len()
            invariant
                0 <= i <= descriptor.aliases@.len(),
                d == descriptor@,
                d.aliases == string_views(descriptor.aliases@),
                can_register(before, d),
                alias_keys(aliases@).no_duplicates(),
                keyed_table(alias_keys(aliases@), alias_targets(aliases@)) == before.aliases.union_prefer_right(
                    alias_additions(d, i as int),
                ),
                forall|j: int|
                    0 <= j < aliases@.len() ==> old_names.contains(#[trigger] aliases@[j].1@)
                        || aliases@[j].1@ == d.name,
            decreases descriptor.aliases@.len() - i,
        {
            let alias = descriptor.aliases[i].as_str();
            let entry = (alias.to_owned(), descriptor.name.clone());
            let ghost table = keyed_table(alias_keys(aliases@), alias_targets(aliases@));
            assert(alias_additions(d, i + 1) =~= alias_additions(d, i as int).insert(alias@, d.name)) by {
                let t0 = d.aliases.take(i as int);
                let t1 = d.aliases.take(i + 1);
                assert(t1 =~= t0.push(alias@));
                assert forall|a: Seq<char>| t1.contains(a) <==> (t0.contains(a) || a == alias@) by {
                    if t1.contains(a) {
                        let x = choose|x: int| 0 <= x < t1.len() && t1[x] == a;
                        if x < t0.len() {
                            assert(t0[x] == a);
                        }
                    }
                    if t0.contains(a) {
                        let x = choose|x: int| 0 <= x < t0.len() && t0[x] == a;
                        assert(t1[x] == a);
                    }
                    if a == alias@ {
                        assert(t1[i as int] == a);
                    }
                }
            }
            match pair_position(&aliases, alias) {
                Some(k) => {
                    proof {
                        lemma_keyed_update(alias_keys(aliases@), alias_targets(aliases@), k as int, d.name);
                        assert(alias_keys(aliases@.update(k as int, entry)) =~= alias_keys(aliases@));
                        assert(alias_targets(aliases@.update(k as int, entry)) =~= alias_targets(aliases@).update(k as int, d.name));
                    }
                    aliases.set(k, entry);
                },
                None => {
                    proof {
                        lemma_keyed_push(alias_keys(aliases@), alias_targets(aliases@), alias@, d.name);
                        assert(alias_keys(aliases@.push(entry)) =~= alias_keys(aliases@).push(alias@));
                        assert(alias_targets(aliases@.push(entry)) =~= alias_targets(aliases@).push(d.name));
                    }
                    aliases.push(entry);
                },
            }
            assert(keyed_table(alias_keys(aliases@), alias_targets(aliases@)) =~= before.aliases.union_prefer_right(
                alias_additions(d, i + 1),
            ));
            i = i + 1;
        }
        assert(d.aliases.take(d.aliases.len() as int) =~= d.aliases);
        let mut controllers: Vec<ControllerDescriptor> = Vec::new();
        std::mem::swap(&mut controllers, &mut self.controllers);
        proof {
            if old_names.contains(d.name) {
                lemma_keyed_find(old_names, descriptor_views(controllers@), d.name);
            }
            lemma_keyed_push(old_names, descriptor_views(controllers@), d.name, d);
            assert(descriptor_names(controllers@.push(descriptor)) =~= old_names.push(d.name));
            assert(descriptor_views(controllers@.push(descriptor)) =~= descriptor_views(controllers@).push(d));
        }
        controllers.push(descriptor);
        proof {
            assert forall|j: int| 0 <= j < aliases@.len() implies descriptor_names(controllers@).contains(
                #[trigger] aliases@[j].1@,
            ) by {
                if aliases@[j].1@ == d.name {
                    assert(descriptor_names(controllers@)[old_names.len() as int] == d.name);
                } else {
                    let w = old_names.index_of(aliases@[j].1@);
                    assert(descriptor_names(controllers@)[w] == old_names[w]);
                }
            }
        }
        *self = ControllerRegistry { controllers, alias_map: aliases };
        proof {
            assert(self@.aliases =~= registered(before, d).aliases);
            assert(alias_additions(d, d.aliases.len() as int) =~= Map::new(|a: Seq<char>| d.aliases.contains(a), |a: Seq<char>| d.name));
        }
        self
    }

    /// The descriptor that `name` finds, as a canonical name first and then as
    /// an alias.
    pub fn get(&self, name: &str) -> (r: Option<&ControllerDescriptor>)
        ensures
            match r {
                Some(d) => lookup(self@, name@) == Some(d@),
                None => lookup(self@, name@) is None,
            },
    {
        proof {
            use_type_invariant(self);
        }
        let names = Ghost(descriptor_names(self.controllers@));
        let views = Ghost(descriptor_views(self.controllers@));
        if let Some(i) = name_position(&self.controllers, name) {
            proof {
                lemma_keyed_lookup(names@, views@, i as int);
            }
            return Some(&self.controllers[i]);
        }
        if let Some(j) = pair_position(&self.alias_map, name) {
            proof {
                lemma_keyed_lookup(alias_keys(self.alias_map@), alias_targets(self.alias_map@), j as int);
            }
            let canonical = self.alias_map[j].1.as_str();
            if let Some(k) = name_position(&self.controllers, canonical) {
                proof {
                    lemma_keyed_lookup(names@, views@, k as int);
                }
                return Some(&self.controllers[k]);
            }
            return None;
        }
        None
    }

    /// The canonical names of all registered controllers, each once.
    pub fn controller_names(&self) -> (r: Vec<String>)
        ensures
            string_views(r@).no_duplicates(),
            string_views(r@).to_set() == self@.controllers.dom(),
    {
        proof {
            use_type_invariant(self);
        }
        let mut r: Vec<String> = Vec::new();
        let mut i: usize = 0;
        while i < self.controllers.len()
            invariant
                0 <= i <= self.controllers@.len(),
                r@.len() == i,
                string_views(r@) == descriptor_names(self.controllers@).take(i as int),
            decreases self.controllers@.len() - i,
        {
            let name = self.controllers[i].name.clone();
            r.push(name);
            assert(string_views(r@) =~= descriptor_names(self.controllers@).take(i + 1));
            i = i + 1;
        }
        proof {
            let names = descriptor_names(self.controllers@);
            assert(names.take(names.len() as int) =~= names);
            assert(string_views(r@).to_set() =~= self@.controllers.dom());
        }
        r
    }

    /// All registered descriptors, each under a distinct name.
    pub fn controllers(&self) -> (r: &[ControllerDescriptor])
        ensures
            descriptor_names(r@).no_duplicates(),
            keyed_table(descriptor_names(r@), descriptor_views(r@)) == self@.controllers,
    {
        proof {
            use_type_invariant(self);
        }
        self.controllers.as_slice()
    }

    /// The names of the controllers that are off unless enabled by name, each once.
    pub fn disabled_by_default(&self) -> (r: Vec<String>)
        ensures
            string_views(r@).no_duplicates(),
            string_views(r@).to_set() == self@.controllers.dom().filter(
                |n: Seq<char>| self@.controllers[n].disabled_by_default,
            ),
    {
        proof {
            use_type_invariant(self);
        }
        let ghost names = descriptor_names(self.controllers@);
        let ghost views = descriptor_views(self.controllers@);
        let mut r: Vec<String> = Vec::new();
        let mut i: usize = 0;
        while i < self.controllers.len()
            invariant
                0 <= i <= self.controllers@.len(),
                names == descriptor_names(self.controllers@),
                views == descriptor_views(self.controllers@),
                names.no_duplicates(),
                string_views(r@).no_duplicates(),
                forall|k: Seq<char>|
                    #![trigger string_views(r@).contains(k)]
                    string_views(r@).contains(k) <==> exists|j: int|
                        0 <= j < i && #[trigger] names[j] == k && views[j].disabled_by_default,
            decreases self.controllers@.len() - i,
        {
            if self.controllers[i].disabled_by_default {
                let ghost old_r = string_views(r@);
                let name = self.controllers[i].name.clone();
                assert(names[i as int] == name@);
                proof {
                    if old_r.contains(name@) {
                        let j = choose|j: int|
                            0 <= j < i && #[trigger] names[j] == name@ && views[j].disabled_by_default;
                        assert(names[j] == names[i as int]);
                    }
                }
                r.push(name);
                proof {
                    let nr = string_views(r@);
                    assert(nr =~= old_r.push(name@));
                    assert forall|x: int, y: int| 0 <= x < nr.len() && 0 <= y < nr.len() && x != y implies nr[x] != nr[y] by {
                        if x < old_r.len() && y < old_r.len() {
                        } else if x < old_r.len() {
                            assert(old_r.contains(nr[x]));
                        } else {
                            assert(old_r.contains(nr[y]));
                        }
                    }
                    assert forall|k: Seq<char>| #![trigger nr.contains(k)] nr.contains(k) <==> exists|j: int|
                        0 <= j < i + 1 && #[trigger] names[j] == k && views[j].disabled_by_default by {
                        if nr.contains(k) && k != name@ {
                            let x = choose|x: int| 0 <= x < nr.len() && nr[x] == k;
                            assert(x < old_r.len());
                            assert(old_r.contains(k));
                        }
                        if k == name@ {
                            assert(nr[old_r.len() as int] == k);
                        }
                        if !nr.contains(k) && exists|j: int| 0 <= j < i + 1 && #[trigger] names[j] == k && views[j].disabled_by_default {
                            let j = choose|j: int| 0 <= j < i + 1 && #[trigger] names[j] == k && views[j].disabled_by_default;
                            if j < i {
                                assert(old_r.contains(k));
                                let x = choose|x: int| 0 <= x < old_r.len() && old_r[x] == k;
                                assert(nr[x] == k);
                            }
                        }
                    }
                }
            }
            i = i + 1;
        }
        proof {
            let a = string_views(r@).to_set();
            let b = self@.controllers.dom().filter(|n: Seq<char>| self@.controllers[n].disabled_by_default);
            assert forall|n: Seq<char>| a.contains(n) <==> b.contains(n) by {
                if a.contains(n) {
                    let j = choose|j: int| 0 <= j < names.len() && #[trigger] names[j] == n && views[j].disabled_by_default;
                    lemma_keyed_lookup(names, views, j);
                }
                if b.contains(n) {
                    let j = names.index_of(n);
                    assert(names[j] == n);
                    lemma_keyed_lookup(names, views, j);
                }
            }
            assert(a =~= b);
        }
        r
    }

    /// The aliases with the canonical name each stands for, each alias once.
    pub fn alias_map(&self) -> (r: &[(String, String)])
        ensures
            alias_keys(r@).no_duplicates(),
            keyed_table(alias_keys(r@), alias_targets(r@)) == self@.aliases,
    {
        proof {
            use_type_invariant(self);
        }
        self.alias_map.as_slice()
    }

    /// Whether `name` is a known alias.
    pub fn is_alias(&self, name: &str) -> (b: bool)
        ensures
            b == self@.aliases.contains_key(name@),
    {
        proof {
            use_type_invariant(self);
        }
        match pair_position(&self.alias_map, name) {
            Some(j) => {
                proof {
                    lemma_keyed_lookup(alias_keys(self.alias_map@), alias_targets(self.alias_map@), j as int);
                }
                true
            },
            None => false,
        }
    }

    /// The canonical name that the alias `name` stands for.
    pub fn resolve_alias(&self, name: &str) -> (r: Option<&str>)
        ensures
            match r {
                Some(n) => self@.aliases.contains_key(name@) && n@ == self@.aliases[name@],
                None => !self@.aliases.contains_key(name@),
            },
    {
        proof {
            use_type_invariant(self);
        }
        match pair_position(&self.alias_map, name) {
            Some(j) => {
                proof {
                    lemma_keyed_lookup(alias_keys(self.alias_map@), alias_targets(self.alias_map@), j as int);
                }
                Some(self.alias_map[j].1.as_str())
            },
            None => None,
        }
    }

    /// Checks that every alias names a registered controller and that no
    /// registered name is also an alias.
    pub fn validate(&self) -> (r: Result<(), ControllerError>)
        ensures
            r is Ok <==> registry_consistent(self@),
            r matches Err(e) ==> exists|n: Seq<char>|
                #![trigger self@.controllers.contains_key(n)]
                self@.controllers.contains_key(n) && self@.aliases.contains_key(n) && e@
                    == (crate::controller::ControllerFault::Runtime {
                    name: "unknown"@,
                    source: "controller name "@ + debug_quoted(n) + " conflicts with an alias"@,
                }),
    {
        proof {
            use_type_invariant(self);
        }
        let ghost names = descriptor_names(self.controllers@);
        let ghost views = descriptor_views(self.controllers@);
        let mut i: usize = 0;
        while i < self.controllers.len()
            invariant
                0 <= i <= self.controllers@.len(),
                names == descriptor_names(self.controllers@),
                forall|j: int| 0 <= j < i ==> !self@.aliases.contains_key(#[trigger] names[j]),
            decreases self.controllers@.len() - i,
        {
            proof {
                use_type_invariant(self);
            }
            let name = self.controllers[i].name.as_str();
            assert(names[i as int] == name@);
            if let Some(j) = pair_position(&self.alias_map, name) {
                proof {
                    lemma_keyed_lookup(alias_keys(self.alias_map@), alias_targets(self.alias_map@), j as int);
                    lemma_keyed_lookup(names, views, i as int);
                    assert(self@.controllers.contains_key(name@));
                    assert(self@.aliases.contains_key(name@));
                }
                let mut source = "controller name ".to_owned();
                let q = quoted(name);
                source.append(q.as_str());
                source.append(" conflicts with an alias");
                return Err(unknown_runtime_failure(source));
            }
            i = i + 1;
        }
        proof {
            assert forall|a: Seq<char>| #[trigger] self@.aliases.contains_key(a) implies self@.controllers.contains_key(self@.aliases[a]) by {
                let j = alias_keys(self.alias_map@).index_of(a);
                assert(alias_keys(self.alias_map@)[j] == a);
                lemma_keyed_lookup(alias_keys(self.alias_map@), alias_targets(self.alias_map@), j);
                assert(names.contains(self.alias_map@[j].1@));
            }
            assert forall|n: Seq<char>| #[trigger] self@.controllers.contains_key(n) implies !self@.aliases.contains_key(n) by {
                let j = names.index_of(n);
                assert(names[j] == n);
            }
        }
        Ok(())
    }
}

impl Default for ControllerRegistry {
    fn default() -> (r: ControllerRegistry)
        ensures
            r@ == empty_registry(),
    {
        ControllerRegistry::new()
    }
}

/// The aliases among the first `n` of `d` mapped to the name of `d`.
pub open spec fn alias_additions(d: DescriptorView, n: int) -> Map<Seq<char>, Seq<char>> {
    Map::new(|a: Seq<char>| d.aliases.take(n).contains(a), |a: Seq<char>| d.name)
}

/// The position of the descriptor named `name` in `v`, if it is there.
fn name_position(v: &Vec<ControllerDescriptor>, name: &str) -> (r: Option<usize>)
    ensures
        match r {
            Some(i) => i < v@.len() && v@[i as int]@.name == name@,
            None => !descriptor_names(v@).contains(name@),
        },
{
    let key = name.to_owned();
    let mut i: usize = 0;
    while i < v.len()
        invariant
            0 <= i <= v@.len(),
            key@ == name@,
            forall|j: int| 0 <= j < i ==> (#[trigger] v@[j])@.name != name@,
        decreases v@.len() - i,
    {
        if v[i].name == key {
            return Some(i);
        }
        i = i + 1;
    }
    proof {
        if descriptor_names(v@).contains(name@) {
            let j = descriptor_names(v@).index_of(name@);
            assert(v@[j]@.name == name@);
        }
    }
    None
}

/// The position of the pair whose first text is `key` in `v`, if it is there.
fn pair_position(v: &Vec<(String, String)>, key: &str) -> (r: Option<usize>)
    ensures
        match r {
            Some(i) => i < v@.len() && v@[i as int].0@ == key@,
            None => !alias_keys(v@).contains(key@),
        },
{
    let k = key.to_owned();
    let mut i: usize = 0;
    while i < v.len()
        invariant
            0 <= i <= v@.len(),
            k@ == key@,
            forall|j: int| 0 <= j < i ==> (#[trigger] v@[j]).0@ != key@,
        decreases v@.len() - i,
    {
        if v[i].0 == k {
            return Some(i);
        }
        i = i + 1;
    }
    proof {
        if alias_keys(v@).contains(key@) {
            let j = alias_keys(v@).index_of(key@);
            assert(v@[j].0@ == key@);
        }
    }
    None
}

/// Builds a [`ControllerDescriptor`] step by step.
#[derive(Debug)]
pub struct Builder {
    name: String,
    aliases: Vec<String>,
    required_feature_gates: Vec<String>,
    disabled_by_default: bool,
    is_cloud_provider_controller: bool,
    requires_special_handling: bool,
}

impl View for Builder {
    type V = DescriptorView;

    closed spec fn view(&self) -> DescriptorView {
        DescriptorView {
            name: self.name@,
            aliases: string_views(self.aliases@),
            required_feature_gates: string_views(self.required_feature_gates@),
            disabled_by_default: self.disabled_by_default,
            is_cloud_provider_controller: self.is_cloud_provider_controller,
            requires_special_handling: self.requires_special_handling,
        }
    }
}

impl Builder {
    /// The descriptor of a controller named `name` with no aliases, no
    /// required feature gates and every flag off.
    pub open spec fn initial(name: Seq<char>) -> DescriptorView {
        DescriptorView {
            name,
            aliases: Seq::empty(),
            required_feature_gates: Seq::empty(),
            disabled_by_default: false,
            is_cloud_provider_controller: false,
            requires_special_handling: false,
        }
    }

    /// A builder for the controller named `name`.
    pub fn new(name: &str) -> (b: Builder)
        ensures
            b@ == Builder::initial(name@),
    {
        let b = Builder {
            name: name.to_owned(),
            aliases: Vec::new(),
            required_feature_gates: Vec::new(),
            disabled_by_default: false,
            is_cloud_provider_controller: false,
            requires_special_handling: false,
        };
        assert(b@.aliases =~= Seq::<Seq<char>>::empty());
        assert(b@.required_feature_gates =~= Seq::<Seq<char>>::empty());
        b
    }

    /// Adds the alias `alias`.
    pub fn with_alias(self, alias: &str) -> (b: Builder)
        ensures
            b@ == (DescriptorView { aliases: self@.aliases.push(alias@), ..self@ }),
    {
        let mut b = self;
        b.aliases.push(alias.to_owned());
        assert(string_views(b.aliases@) =~= string_views(self.aliases@).push(alias@));
        b
    }

    /// Adds the aliases `aliases`, in order.
    pub fn with_aliases(self, aliases: &[&str]) -> (b: Builder)
        ensures
            b@ == (DescriptorView { aliases: self@.aliases + str_views(aliases@), ..self@ }),
    {
        let mut b = self;
        let mut extra = owned_strings(aliases);
        b.aliases.append(&mut extra);
        assert(string_views(b.aliases@) =~= string_views(self.aliases@) + str_views(aliases@));
        b
    }

    /// Adds the required feature gate `gate`.
    pub fn with_feature_gate(self, gate: &str) -> (b: Builder)
        ensures
            b@ == (DescriptorView {
                required_feature_gates: self@.required_feature_gates.push(gate@),
                ..self@
            }),
    {
        let mut b = self;
        b.required_feature_gates.push(gate.to_owned());
        assert(string_views(b.required_feature_gates@) =~= string_views(
            self.required_feature_gates@,
        ).push(gate@));
        b
    }

    /// Adds the required feature gates `gates`, in order.
    pub fn with_feature_gates(self, gates: &[&str]) -> (b: Builder)
        ensures
            b@ == (DescriptorView {
                required_feature_gates: self@.required_feature_gates + str_views(gates@),
                ..self@
            }),
    {
        let mut b = self;
        let mut extra = owned_strings(gates);
        b.required_feature_gates.append(&mut extra);
        assert(string_views(b.required_feature_gates@) =~= string_views(
            self.required_feature_gates@,
        ) + str_views(gates@));
        b
    }

    /// Marks the controller as off unless enabled by name.
    pub fn disabled_by_default(self) -> (b: Builder)
        ensures
            b@ == (DescriptorView { disabled_by_default: true, ..self@ }),
    {
        Builder { disabled_by_default: true, ..self }
    }

    /// Marks the controller as a cloud provider controller.
    pub fn cloud_provider_controller(self) -> (b: Builder)
        ensures
            b@ == (DescriptorView { is_cloud_provider_controller: true, ..self@ }),
    {
        Builder { is_cloud_provider_controller: true, ..self }
    }

    /// Marks the controller as needing special handling at start.
    pub fn requires_special_handling(self) -> (b: Builder)
        ensures
            b@ == (DescriptorView { requires_special_handling: true, ..self@ }),
    {
        Builder { requires_special_handling: true, ..self }
    }

    /// The descriptor built so far.
    pub fn build(self) -> (d: ControllerDescriptor)
        ensures
            d@ == self@,
    {
        ControllerDescriptor {
            name: self.name,
            aliases: self.aliases,
            required_feature_gates: self.required_feature_gates,
            disabled_by_default: self.disabled_by_default,
            is_cloud_provider_controller: self.is_cloud_provider_controller,
            requires_special_handling: self.requires_special_handling,
        }
    }
}

} // verus!
