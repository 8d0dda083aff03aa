use kube_controller_manager_rust::config::GenericControllerManagerConfig;
use kube_controller_manager_rust::controller::ControllerError;
use kube_controller_manager_rust::controller_descriptor::{
    ControllerDescriptor, ControllerRegistry, RegistrationError,
};
use kube_controller_manager_rust::controller_manager::{
    controllers_to_build, exit_failure, start_failure,
};
use kube_controller_manager_rust::feature::MemoryFeatureGate;

fn register_checked(registry: &mut ControllerRegistry, descriptor: ControllerDescriptor) {
    match registry.check_register(&descriptor) {
        Ok(()) => {
            registry.register(descriptor);
        }
        Err(e) => panic!("{}", e.message()),
    }
}

fn sorted(mut v: Vec<String>) -> Vec<String> {
    v.sort();
    v
}

#[test]
fn test_registry_basic() {
    let mut registry = ControllerRegistry::new();
    let descriptor = ControllerDescriptor::builder("test-controller").build();

    register_checked(&mut registry, descriptor);
    assert!(registry.get("test-controller").is_some());
}

#[test]
#[should_panic(expected = "controller")]
fn test_registry_duplicate_panics() {
    let mut registry = ControllerRegistry::new();
    let descriptor = ControllerDescriptor::builder("test-controller").build();

    register_checked(&mut registry, descriptor.clone());
    register_checked(&mut registry, descriptor);
}

#[test]
fn test_alias_resolution() {
    let mut registry = ControllerRegistry::new();
    let descriptor = ControllerDescriptor::builder("test-controller")
        .with_alias("test")
        .with_alias("tc")
        .build();

    register_checked(&mut registry, descriptor);

    assert_eq!(registry.resolve_alias("test"), Some("test-controller"));
    assert_eq!(registry.resolve_alias("tc"), Some("test-controller"));
    assert!(registry.resolve_alias("unknown").is_none());
}

#[test]
fn registered_controller_is_found_by_name_and_alias() {
    let mut registry = ControllerRegistry::default();
    let d = ControllerDescriptor::builder("deployment")
        .with_aliases(&["deploy", "dp"])
        .with_feature_gate("G1")
        .disabled_by_default()
        .build();
    register_checked(&mut registry, d);
    register_checked(&mut registry, ControllerDescriptor::builder("job").build());

    let by_name = registry.get("deployment").unwrap();
    assert_eq!(by_name.name(), "deployment");
    assert_eq!(by_name.aliases(), &["deploy".to_string(), "dp".to_string()][..]);
    assert_eq!(by_name.required_feature_gates(), &["G1".to_string()][..]);
    assert!(by_name.is_disabled_by_default());
    assert!(!by_name.is_cloud_provider_controller());
    assert!(!by_name.requires_special_handling());
    assert_eq!(registry.get("dp").unwrap().name(), "deployment");
    assert!(registry.get("cronjob").is_none());
    assert!(registry.is_alias("deploy"));
    assert!(!registry.is_alias("deployment"));
    assert_eq!(sorted(registry.controller_names()), vec!["deployment".to_string(), "job".to_string()]);
    assert_eq!(registry.disabled_by_default(), vec!["deployment".to_string()]);
    assert_eq!(registry.controllers().len(), 2);
    assert_eq!(registry.alias_map().len(), 2);
    assert!(registry.validate().is_ok());
}

#[test]
fn registration_errors_in_order() {
    let mut registry = ControllerRegistry::new();
    register_checked(&mut registry, ControllerDescriptor::builder("a").with_alias("x").build());

    match registry.check_register(&ControllerDescriptor::builder("").build()) {
        Err(e @ RegistrationError::EmptyName) => {
            assert_eq!(e.message(), "controller name cannot be empty")
        }
        other => panic!("unexpected: {:?}", other),
    }
    match registry.check_register(&ControllerDescriptor::builder("a").with_alias("a").build()) {
        Err(e @ RegistrationError::AlreadyRegistered(_)) => {
            assert_eq!(e.message(), "controller \"a\" is already registered")
        }
        other => panic!("unexpected: {:?}", other),
    }
    match registry.check_register(&ControllerDescriptor::builder("b").with_aliases(&["y", "a"]).build()) {
        Err(e @ RegistrationError::AliasIsControllerName(_)) => {
            assert_eq!(e.message(), "alias \"a\" conflicts with an existing controller name")
        }
        other => panic!("unexpected: {:?}", other),
    }
    match registry.check_register(&ControllerDescriptor::builder("b").with_alias("x").build()) {
        Err(e @ RegistrationError::AliasInUse { .. }) => {
            assert_eq!(e.message(), "alias \"x\" is already used by controller \"a\"")
        }
        other => panic!("unexpected: {:?}", other),
    }
    assert!(registry.check_register(&ControllerDescriptor::builder("b").with_alias("y").build()).is_ok());
}

#[test]
fn a_name_that_is_an_alias_is_refused() {
    let mut registry = ControllerRegistry::new();
    register_checked(&mut registry, ControllerDescriptor::builder("x-controller").with_alias("x").build());
    match registry.check_register(&ControllerDescriptor::builder("x").build()) {
        Err(e @ RegistrationError::NameIsAlias { .. }) => assert_eq!(
            e.message(),
            "controller name \"x\" is already an alias of controller \"x-controller\""
        ),
        other => panic!("unexpected: {:?}", other),
    }
    assert!(registry.validate().is_ok());
}

#[test]
fn own_name_as_alias_is_accepted_but_inconsistent() {
    let mut registry = ControllerRegistry::new();
    register_checked(&mut registry, ControllerDescriptor::builder("x").with_alias("x").build());
    assert_eq!(registry.resolve_alias("x"), Some("x"));
    match registry.validate() {
        Err(e) => assert_eq!(
            e.message(),
            "controller unknown runtime error: controller name \"x\" conflicts with an alias"
        ),
        Ok(()) => panic!("expected a conflict"),
    }
}

#[test]
fn should_build_needs_every_gate_and_no_cloud_provider() {
    let gates = MemoryFeatureGate::new(&[("on", true, false, false), ("off", false, false, false)]);
    assert!(ControllerDescriptor::builder("a").build().should_build(&gates));
    assert!(ControllerDescriptor::builder("a").with_feature_gate("on").build().should_build(&gates));
    assert!(!ControllerDescriptor::builder("a")
        .with_feature_gates(&["on", "off"])
        .build()
        .should_build(&gates));
    assert!(!ControllerDescriptor::builder("a").with_feature_gate("absent").build().should_build(&gates));
    assert!(!ControllerDescriptor::builder("a").cloud_provider_controller().build().should_build(&gates));
    assert!(ControllerDescriptor::builder("a").requires_special_handling().build().requires_special_handling());
}

#[test]
fn controllers_to_build_follow_selection_and_gates() {
    let mut registry = ControllerRegistry::new();
    register_checked(&mut registry, ControllerDescriptor::builder("endpoint").build());
    register_checked(&mut registry, ControllerDescriptor::builder("deployment").build());
    register_checked(&mut registry, ControllerDescriptor::builder("hpa").with_feature_gate("off").build());
    register_checked(&mut registry, ControllerDescriptor::builder("route").cloud_provider_controller().build());
    let gates = MemoryFeatureGate::new(&[("off", false, false, false)]);

    let mut config = GenericControllerManagerConfig::default();
    assert_eq!(
        sorted(controllers_to_build(&registry, &config, &gates)),
        vec!["deployment".to_string(), "endpoint".to_string()]
    );

    config.controllers = "*,-deployment".to_string();
    config.controllers_enabled = vec!["*".to_string()];
    config.controllers_disabled = vec!["deployment".to_string()];
    assert_eq!(controllers_to_build(&registry, &config, &gates), vec!["endpoint".to_string()]);

    config.controllers = "deployment,hpa,unknown".to_string();
    config.controllers_enabled =
        vec!["deployment".to_string(), "hpa".to_string(), "unknown".to_string()];
    config.controllers_disabled = vec![];
    assert_eq!(controllers_to_build(&registry, &config, &gates), vec!["deployment".to_string()]);
}

#[test]
fn failures_are_reported_with_the_cause() {
    let cause = ControllerError::Disabled("job".to_string());
    let e = start_failure("job".to_string(), &cause);
    assert_eq!(e.message(), "controller job failed to start: controller job is disabled");
    let cause = ControllerError::InvalidConfig { name: "job".to_string(), reason: "bad".to_string() };
    let e = exit_failure("job".to_string(), &cause);
    assert_eq!(
        e.message(),
        "controller job runtime error: invalid configuration for controller job: bad"
    );
}

#[test]
fn controller_error_messages() {
    assert_eq!(
        ControllerError::StartFailed { name: "a".to_string(), source: "boom".to_string() }.message(),
        "controller a failed to start: boom"
    );
    assert_eq!(
        ControllerError::Runtime { name: "a".to_string(), source: "boom".to_string() }.message(),
        "controller a runtime error: boom"
    );
    assert_eq!(ControllerError::Disabled("a".to_string()).message(), "controller a is disabled");
    assert_eq!(
        ControllerError::FeatureGateDisabled("a".to_string(), "G".to_string()).message(),
        "controller a requires feature gate G which is not enabled"
    );
}

#[test]
fn registrations_chain() {
    let mut registry = ControllerRegistry::new();
    registry
        .register(ControllerDescriptor::builder("a").build())
        .register(ControllerDescriptor::builder("b").with_alias("bb").build());
    assert_eq!(sorted(registry.controller_names()), vec!["a".to_string(), "b".to_string()]);
    assert_eq!(registry.resolve_alias("bb"), Some("b"));
}
