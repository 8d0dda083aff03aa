use std::path::PathBuf;

use kube_controller_manager_rust::config::{
    apply_command_line, default_client_qps, duration_text, parse_human_duration, default_hpa_tolerance, default_node_eviction_rate,
    default_secondary_node_eviction_rate, default_unhealthy_zone_threshold, duration_outcome,
    parse_controllers, parse_duration, selection_sets, CidrAllocatorType, CloudProvider,
    CommandLineOverrides, ControllerManagerConfig, GenericControllerManagerConfig,
    LeaderElectionConfig,
};
use kube_controller_manager_rust::config::{
    default_lease_duration, default_renew_deadline, default_resource_lock, default_resource_name,
    default_resource_namespace, default_retry_period,
};
use kube_controller_manager_rust::time::Duration;

#[test]
fn test_default_config() {
    let config = ControllerManagerConfig::default();
    assert_eq!(config.generic.controllers, "*");
}

#[test]
fn test_controller_manager_creation() {
    let config = ControllerManagerConfig::default();
    assert_eq!(config.generic.controllers, "*");
}

#[test]
fn test_controller_list_matches() {
    let expected_controllers = vec![
        "endpoint",
        "endpointslice",
        "deployment",
        "replicaset",
        "statefulset",
        "daemonset",
        "job",
        "cronjob",
        "namespace",
        "node",
        "service",
        "route",
        "garbagecollector",
        "ttl-after-finished",
        "bootstrapsigner",
        "csrapproving",
        "csrsigning",
        "csrcleaner",
        "clusterrole-aggregation",
        "pvc-protection",
        "pv-protection",
        "ttl",
        "root-ca-cert-publisher",
        "ephemeral-volume",
        "persistent-volume-binder",
        "attachdetach",
        "nodeipam",
        "node-lifecycle",
        "resource-quota",
        "horizontalpodautoscaling",
        "disruption",
        "serviceaccount",
        "serviceaccount-token",
    ];

    for controller in expected_controllers {
        let config = GenericControllerManagerConfig::default();
        assert!(!config.controllers.is_empty());
        assert!(config.is_controller_enabled(controller));
    }
}

#[test]
fn test_controller_patterns() {
    let patterns = vec![
        ("*", "all controllers"),
        ("endpoint", "only endpoint"),
        ("endpoint,deployment", "endpoint and deployment"),
        ("*,-deployment", "all except deployment"),
        ("*-,-garbagecollector", "invalid pattern"),
    ];

    for (pattern, description) in patterns {
        let parts: Vec<&str> = pattern.split(',').collect();
        assert!(!parts.is_empty(), "Pattern should be parseable: {}", description);
    }
}

#[test]
fn test_default_ports() {
    let config = GenericControllerManagerConfig::default();

    assert_eq!(config.bind_port, 10252, "Default metrics port");
    assert_eq!(config.healthz_bind_port, 10257, "Default healthz port");
    assert_eq!(config.diagnostics_port, 10256, "Default diagnostics port");
}

#[test]
fn test_resync_period() {
    let config = GenericControllerManagerConfig::default();

    assert_eq!(config.min_resync_period, Duration::from_secs(12 * 60 * 60));
}

fn selected(controllers: &str, name: &str) -> bool {
    let mut config = ControllerManagerConfig::default();
    config.generic.controllers = controllers.to_string();
    parse_controllers(&mut config);
    config.generic.is_controller_enabled(name)
}

#[test]
fn selection_patterns_select_what_they_say() {
    assert!(selected("*", "deployment"));
    assert!(selected("*", "anything"));

    assert!(selected("endpoint", "endpoint"));
    assert!(!selected("endpoint", "deployment"));

    assert!(selected("endpoint,deployment", "endpoint"));
    assert!(selected("endpoint,deployment", "deployment"));
    assert!(!selected("endpoint,deployment", "job"));

    assert!(!selected("*,-deployment", "deployment"));
    assert!(selected("*,-deployment", "endpoint"));

    assert!(!selected("*-,-garbagecollector", "garbagecollector"));
    assert!(!selected("*-,-garbagecollector", "endpoint"));
    assert!(selected("*-,-garbagecollector", "*-"));

    assert!(selected(" endpoint , -job ", "endpoint"));
    assert!(!selected(" endpoint , -job ", "job"));
    assert!(!selected("", "endpoint"));
}

#[test]
fn exact_star_disables_by_name_only() {
    let mut config = GenericControllerManagerConfig::default();
    config.controllers_disabled = vec!["job".to_string()];
    assert!(!config.is_controller_enabled("job"));
    assert!(config.is_controller_enabled("cronjob"));
}

#[test]
fn selection_sets_collect_each_name_once() {
    let (enabled, disabled) = selection_sets("a, b ,-c,a,,-c,-,*");
    assert_eq!(enabled, vec!["a".to_string(), "b".to_string(), "*".to_string()]);
    assert_eq!(disabled, vec!["c".to_string(), "".to_string()]);
}

#[test]
fn parse_controllers_keeps_exact_star() {
    let mut config = ControllerManagerConfig::default();
    parse_controllers(&mut config);
    assert!(config.generic.controllers_enabled.is_empty());
    assert!(config.generic.controllers_disabled.is_empty());
}

#[test]
fn parse_controllers_fills_the_sets() {
    let mut config = ControllerManagerConfig::default();
    config.generic.controllers = "*,-deployment".to_string();
    parse_controllers(&mut config);
    assert_eq!(config.generic.controllers_enabled, vec!["*".to_string()]);
    assert_eq!(config.generic.controllers_disabled, vec!["deployment".to_string()]);
    assert_eq!(config.generic.controllers, "*,-deployment");
    assert_eq!(config.generic.bind_port, 10252);
}

fn overrides() -> CommandLineOverrides {
    CommandLineOverrides {
        kubeconfig: None,
        master: None,
        controllers: None,
        bind_address: "127.0.0.1".to_string(),
        bind_port: 9000,
        healthz_bind_port: 9001,
        diagnostics_port: 9002,
        enable_profiling: true,
        namespace: "kube-system".to_string(),
        leader_elect: false,
        leader_elect_disable: false,
        min_resync_period: None,
    }
}

#[test]
fn command_line_replaces_settings() {
    let mut config = ControllerManagerConfig::default();
    let mut o = overrides();
    o.kubeconfig = Some(PathBuf::from("/etc/kube/config"));
    o.master = Some("https://master".to_string());
    o.controllers = Some("endpoint,-job".to_string());
    o.leader_elect_disable = true;
    o.min_resync_period = Some(Duration::from_secs(60));
    apply_command_line(&mut config, o);
    let g = &config.generic;
    assert_eq!(g.kubeconfig, Some(PathBuf::from("/etc/kube/config")));
    assert_eq!(g.master.as_deref(), Some("https://master"));
    assert_eq!(g.controllers, "endpoint,-job");
    assert_eq!(g.controllers_enabled, vec!["endpoint".to_string()]);
    assert_eq!(g.controllers_disabled, vec!["job".to_string()]);
    assert_eq!(g.bind_address, "127.0.0.1");
    assert_eq!(g.bind_port, 9000);
    assert_eq!(g.healthz_bind_port, 9001);
    assert_eq!(g.diagnostics_port, 9002);
    assert!(g.enable_profiling);
    assert_eq!(g.namespace, "kube-system");
    assert!(!g.leader_election_enabled);
    assert_eq!(g.min_resync_period, Duration::from_secs(60));
    assert_eq!(g.pprof_port, 10253);
}

#[test]
fn command_line_leaves_absent_settings() {
    let mut config = ControllerManagerConfig::default();
    config.generic.master = Some("https://old".to_string());
    config.generic.leader_election_enabled = false;
    let mut o = overrides();
    o.leader_elect = true;
    o.leader_elect_disable = true;
    apply_command_line(&mut config, o);
    assert_eq!(config.generic.master.as_deref(), Some("https://old"));
    assert_eq!(config.generic.controllers, "*");
    assert!(config.generic.controllers_enabled.is_empty());
    assert!(config.generic.leader_election_enabled);
    assert_eq!(config.generic.min_resync_period, Duration::from_secs(43200));
}

#[test]
fn documented_generic_defaults() {
    let g = GenericControllerManagerConfig::default();
    assert_eq!(g.bind_address, "0.0.0.0");
    assert_eq!(g.pprof_port, 10253);
    assert_eq!(g.controller_start_interval, Duration::from_millis(100));
    assert_eq!(g.shutdown_timeout, Duration::from_secs(30));
    assert_eq!(g.concurrent_syncs, 5);
    assert_eq!(g.client_burst, 100);
    assert_eq!(g.client_qps.bits, 50.0f32.to_bits());
    assert_eq!(g.namespace, "default");
    assert!(g.leader_election_enabled);
    assert!(g.enable_diagnostics);
    assert!(g.kubeconfig.is_none());
}

#[test]
fn floating_defaults_as_bits() {
    assert_eq!(default_client_qps().bits, 50.0f32.to_bits());
    assert_eq!(default_hpa_tolerance().bits, 0.1f64.to_bits());
    assert_eq!(default_node_eviction_rate().bits, 0.1f64.to_bits());
    assert_eq!(default_secondary_node_eviction_rate().bits, 0.01f64.to_bits());
    assert_eq!(default_unhealthy_zone_threshold().bits, 0.55f64.to_bits());
}

#[test]
fn sections_default_to_zero() {
    let config = ControllerManagerConfig::default();
    assert_eq!(config.kube_cloud_shared.cloud_provider, CloudProvider::NoProvider);
    assert_eq!(config.kube_cloud_shared.cidr_allocator_type, CidrAllocatorType::Range);
    assert_eq!(config.endpoint.concurrent_endpoint_syncs, 0);
    assert_eq!(config.concurrent_device_taint_eviction_syncs, 5);
    let le = LeaderElectionConfig::default();
    assert!(!le.leader_elect);
    assert_eq!(le.lease_duration, Duration::from_secs(15));
}

#[test]
fn durations_parse_in_human_form() {
    assert_eq!(parse_duration("10m").unwrap(), Duration::from_secs(600));
    assert_eq!(parse_duration("1h 30s").unwrap(), Duration::from_secs(3630));
    assert_eq!(parse_duration("250ms").unwrap(), Duration::from_millis(250));
    let e = parse_duration("soon").unwrap_err();
    assert!(e.starts_with("invalid duration: "), "{}", e);
    assert!(e.len() > "invalid duration: ".len());
}

#[test]
fn duration_outcome_prefixes_failures() {
    assert_eq!(duration_outcome(Ok(Duration::from_secs(5))), Ok(Duration::from_secs(5)));
    assert_eq!(
        duration_outcome(Err("unknown unit".to_string())),
        Err("invalid duration: unknown unit".to_string())
    );
}

#[test]
fn leader_election_file_defaults() {
    assert_eq!(default_lease_duration(), Duration::from_secs(15));
    assert_eq!(default_renew_deadline(), Duration::from_secs(10));
    assert_eq!(default_retry_period(), Duration::from_secs(2));
    assert_eq!(default_resource_lock(), "leases");
    assert_eq!(default_resource_namespace(), "kube-system");
    assert_eq!(default_resource_name(), "kube-controller-manager");
}

#[test]
fn documented_leader_election_defaults() {
    let c = ControllerManagerConfig::default();
    let le = &c.leader_election;
    assert_eq!(le.lease_duration, Duration::from_secs(15));
    assert_eq!(le.renew_deadline, Duration::from_secs(10));
    assert_eq!(le.retry_period, Duration::from_secs(2));
    assert_eq!(le.resource_lock, "leases");
    assert_eq!(le.resource_namespace, "kube-system");
    assert_eq!(le.resource_name, "kube-controller-manager");
    assert_eq!(c.generic.min_resync_period, Duration::from_secs(12 * 60 * 60));
    assert_eq!(c.generic.bind_port, 10252);
    assert_eq!(c.generic.healthz_bind_port, 10257);
    assert_eq!(c.generic.diagnostics_port, 10256);
}

#[test]
fn oversized_duration_texts_are_refused() {
    assert_eq!(
        parse_duration("18446744073709551615s 1000ms"),
        Err("invalid duration: number is too large".to_string())
    );
    assert_eq!(
        parse_human_duration("584542046091y"),
        Err("number is too large".to_string())
    );
    assert_eq!(parse_human_duration("1000000000000ns").unwrap(), Duration::from_secs(1000));
    assert_eq!(parse_human_duration("100000000000ns").unwrap(), Duration::from_secs(100));
    assert_eq!(
        parse_human_duration("18446744073709551615s 999ms").unwrap(),
        Duration::new(u64::MAX, 999_000_000)
    );
}

#[test]
fn formatted_durations_read_back() {
    for d in [
        Duration::new(999, 999_999_999),
        Duration::new(u64::MAX, 999_999_999),
        Duration::new(u64::MAX, 0),
        Duration::new(31_557_600 * 3 + 2_630_016 + 86_400 * 2 + 3_723, 1_001_001),
        Duration::from_secs(0),
        Duration::from_millis(1),
    ] {
        let text = duration_text(d);
        assert_eq!(parse_human_duration(&text), Ok(d), "{}", text);
        assert_eq!(parse_duration(&text), Ok(d), "{}", text);
    }
    assert_eq!(duration_text(Duration::new(999, 999_999_999)), "16m 39s 999ms 999us 999ns");
}

#[test]
fn human_durations_keep_humantime_errors_and_text() {
    let e = parse_human_duration("5 parsecs").unwrap_err();
    assert!(e.contains("unknown time unit"), "{}", e);
    assert_eq!(duration_text(Duration::from_secs(5400)), "1h 30m");
    assert_eq!(duration_text(Duration::from_secs(0)), "0s");
    let d = Duration::new(93784, 5_000_000);
    assert_eq!(parse_human_duration(&duration_text(d)).unwrap(), d);
}
