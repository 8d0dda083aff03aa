use kube_controller_manager_rust::feature::kubernetes::default_features;
use kube_controller_manager_rust::feature::{FeatureGate, FeatureGateError, MemoryFeatureGate};

fn kubernetes_gates() -> MemoryFeatureGate {
    let features: Vec<(&'static str, bool, bool, bool)> = default_features().to_vec();
    MemoryFeatureGate::new(&features)
}

#[test]
fn test_feature_gate_enable_disable() {
    let mut fg = MemoryFeatureGate::new(&[("test-feature", false, false, false)]);

    assert!(!fg.enabled("test-feature"));
    fg.enable("test-feature").unwrap();
    assert!(fg.enabled("test-feature"));
    fg.disable("test-feature").unwrap();
    assert!(!fg.enabled("test-feature"));
}

#[test]
fn test_feature_gate_read_only() {
    let mut fg = MemoryFeatureGate::new(&[("test-feature", true, true, false)]);

    assert!(fg.enabled("test-feature"));
    assert!(fg.set("test-feature", false).is_err());
    assert!(fg.enabled("test-feature"));
}

#[test]
fn test_feature_gate_unknown() {
    let mut fg = MemoryFeatureGate::new(&[("test-feature", false, false, false)]);

    assert!(!fg.enabled("unknown-feature"));
    assert!(fg.set("unknown-feature", true).is_err());
}

#[test]
fn test_feature_gate_from_string() {
    let mut fg = MemoryFeatureGate::new(&[
        ("feature1", false, false, false),
        ("feature2", true, false, false),
    ]);

    fg.set_from_string("feature1=true,feature2=false").unwrap();
    assert!(fg.enabled("feature1"));
    assert!(!fg.enabled("feature2"));
}

#[test]
fn test_feature_gates_match() {
    let expected_feature_gates = vec![
        "AllAlpha",
        "AllBeta",
        "ServiceLBEndpointFinalizers",
        "VolumeAttributesClass",
        "SELinuxChangePolicy",
        "SELinuxMountReadWriteOncePod",
        "HPAContainerMetrics",
        "DynamicResourceAllocation",
        "DRAResourceClassDeviceParams",
        "DRADeviceTaints",
        "DRAAdminAccess",
        "DRAPrioritizedList",
        "CoordinatedLeaderElection",
        "EndpointSliceTerminatingCondition",
        "EndpointSliceNodeNameExpansion",
        "EphemeralContainers",
        "RotateKubeletServerCertificate",
        "StatefulSetStartOrdinal",
        "DaemonSetUpdateSurge",
        "LegacyServiceAccountTokenCleanUp",
        "MultiCIDRServiceAllocator",
        "ServiceInternalTrafficPolicy",
        "ServiceTrafficDistribution",
        "DisableKubeletCloudCredentialProviders",
        "DisableNodeKubeProxyVersion",
    ];

    let fg = kubernetes_gates();

    for feature in expected_feature_gates {
        assert!(fg.contains(feature), "Missing feature gate: {}", feature);
    }
}

#[test]
fn test_feature_gate_parsing() {
    let mut fg = kubernetes_gates();

    let result = fg.set_from_string("AllAlpha=true,AllBeta=false");
    assert!(result.is_ok(), "Feature gate parsing should work: {:?}", result);
}

#[test]
fn test_feature_gate_idempotency() {
    let mut fg = kubernetes_gates();

    let feature = "ServiceLBEndpointFinalizers";
    let _initial = fg.enabled(feature);

    if fg.set(feature, true).is_ok() {
        let after_set = fg.enabled(feature);
        assert_eq!(after_set, true);
    }
}

#[test]
fn kubernetes_gates_have_their_defaults() {
    let fg = kubernetes_gates();
    assert!(fg.enabled("ServiceLBEndpointFinalizers"));
    assert!(fg.enabled("CoordinatedLeaderElection"));
    assert!(!fg.enabled("AllAlpha"));
    assert!(!fg.enabled("DRADeviceTaints"));
    assert_eq!(fg.feature_names().len(), 25);
    assert_eq!(fg.all_features().len(), 25);
    let pre = fg.pre_release_features();
    assert_eq!(pre.len(), 19);
    assert!(pre.iter().any(|n| n == "AllAlpha"));
    assert!(!pre.iter().any(|n| n == "EphemeralContainers"));
}

#[test]
fn set_reads_back_and_is_idempotent() {
    let mut fg = MemoryFeatureGate::new(&[("a", false, false, false), ("b", true, false, false)]);
    fg.set("a", true).unwrap();
    assert!(fg.enabled("a"));
    fg.set("a", true).unwrap();
    assert!(fg.enabled("a"));
    assert!(fg.enabled("b"));
    fg.set("a", false).unwrap();
    fg.set("a", true).unwrap();
    assert!(fg.enabled("a"));
}

#[test]
fn failed_set_changes_nothing() {
    let mut fg = MemoryFeatureGate::new(&[("fixed", true, true, false), ("free", false, false, false)]);
    let before = fg.all_features();
    match fg.set("fixed", false) {
        Err(FeatureGateError::ReadOnly(n)) => assert_eq!(n, "fixed"),
        other => panic!("unexpected: {:?}", other),
    }
    match fg.set("missing", false) {
        Err(FeatureGateError::UnknownFeature(n)) => assert_eq!(n, "missing"),
        other => panic!("unexpected: {:?}", other),
    }
    let mut after = fg.all_features();
    let mut before_sorted = before.clone();
    before_sorted.sort();
    after.sort();
    assert_eq!(before_sorted, after);
}

#[test]
fn later_entry_for_a_name_replaces_earlier() {
    let fg = MemoryFeatureGate::new(&[("a", false, true, false), ("a", true, false, false)]);
    assert!(fg.enabled("a"));
    assert_eq!(fg.feature_names(), vec!["a".to_string()]);
    let mut fg = fg;
    assert!(fg.set("a", false).is_ok());
}

#[test]
fn feature_string_errors() {
    let mut fg = MemoryFeatureGate::new(&[
        ("feature1", false, false, false),
        ("feature2", false, false, false),
        ("fixed", false, true, false),
    ]);
    match fg.set_from_string("feature1") {
        Err(FeatureGateError::InvalidValue(p, v)) => {
            assert_eq!(p, "feature1");
            assert_eq!(v, "missing =");
        }
        other => panic!("unexpected: {:?}", other),
    }
    match fg.set_from_string(" feature1=yes ") {
        Err(FeatureGateError::InvalidValue(p, v)) => {
            assert_eq!(p, "feature1=yes");
            assert_eq!(v, "yes");
        }
        other => panic!("unexpected: {:?}", other),
    }
    match fg.set_from_string("nope=true") {
        Err(FeatureGateError::UnknownFeature(n)) => assert_eq!(n, "nope"),
        other => panic!("unexpected: {:?}", other),
    }
    match fg.set_from_string("fixed=true") {
        Err(FeatureGateError::ReadOnly(n)) => assert_eq!(n, "fixed"),
        other => panic!("unexpected: {:?}", other),
    }
    assert!(!fg.enabled("feature1"));
}

#[test]
fn feature_string_stops_at_first_failure() {
    let mut fg = MemoryFeatureGate::new(&[("feature1", false, false, false), ("feature2", false, false, false)]);
    assert!(fg.set_from_string("feature1=true,bogus,feature2=true").is_err());
    assert!(fg.enabled("feature1"));
    assert!(!fg.enabled("feature2"));
}

#[test]
fn feature_string_ignores_white_space_and_empty_parts() {
    let mut fg = MemoryFeatureGate::new(&[("feature1", false, false, false), ("feature2", false, false, false)]);
    assert!(fg.set_from_string("").is_ok());
    assert!(fg.set_from_string(" , ,").is_ok());
    assert!(!fg.enabled("feature1"));
    fg.set_from_string("\u{2003}feature1=true\t, feature2=true\n").unwrap();
    assert!(fg.enabled("feature1"));
    assert!(fg.enabled("feature2"));
    fg.set_from_string("feature1=false,feature1=true,feature1=false").unwrap();
    assert!(!fg.enabled("feature1"));
}

#[test]
fn feature_string_value_is_exact() {
    let mut fg = MemoryFeatureGate::new(&[("feature1", false, false, false)]);
    match fg.set_from_string("feature1=True") {
        Err(FeatureGateError::InvalidValue(p, v)) => {
            assert_eq!(p, "feature1=True");
            assert_eq!(v, "True");
        }
        other => panic!("unexpected: {:?}", other),
    }
    match fg.set_from_string("feature1 =true") {
        Err(FeatureGateError::UnknownFeature(n)) => assert_eq!(n, "feature1 "),
        other => panic!("unexpected: {:?}", other),
    }
}

#[test]
fn feature_gate_error_messages() {
    assert_eq!(
        FeatureGateError::UnknownFeature("x".to_string()).message(),
        "unknown feature gate: x"
    );
    assert_eq!(
        FeatureGateError::ReadOnly("x".to_string()).message(),
        "feature gate x is read-only and cannot be modified"
    );
    assert_eq!(
        FeatureGateError::InvalidValue("x=1".to_string(), "1".to_string()).message(),
        "invalid value for feature gate x=1: expected bool, got 1"
    );
}

#[test]
fn documented_feature_gate_table() {
    let fg = kubernetes_gates();
    let pre = fg.pre_release_features();
    let table = [
        ("AllAlpha", false, true),
        ("AllBeta", false, true),
        ("ServiceLBEndpointFinalizers", true, false),
        ("VolumeAttributesClass", false, true),
        ("SELinuxChangePolicy", false, true),
        ("HPAContainerMetrics", false, true),
        ("DynamicResourceAllocation", false, true),
        ("CoordinatedLeaderElection", true, false),
        ("EndpointSliceTerminatingCondition", true, false),
        ("EphemeralContainers", true, false),
        ("RotateKubeletServerCertificate", true, false),
        ("ServiceInternalTrafficPolicy", true, false),
    ];
    for (name, default, pre_release) in table {
        assert_eq!(fg.enabled(name), default, "{}", name);
        assert_eq!(pre.iter().any(|n| n == name), pre_release, "{}", name);
    }
}

#[test]
fn documented_command_line_feature_gates() {
    let mut fg = kubernetes_gates();
    fg.set_from_string("HPAContainerMetrics=true,DynamicResourceAllocation=false").unwrap();
    assert!(fg.enabled("HPAContainerMetrics"));
    assert!(!fg.enabled("DynamicResourceAllocation"));
}
