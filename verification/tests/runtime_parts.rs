use kube_controller_manager_rust::controller::{ControllerError, FunctionController};
use kube_controller_manager_rust::controller_manager::{run_step, RunAction, RunEvent, RunPhase};
use kube_controller_manager_rust::controller_context::InformerFactory;
use kube_controller_manager_rust::health::{
    body_text, endpoint_for, health_reply, needs_checks, CheckerList, FunctionHealthChecker,
    HealthCheck, HealthChecker, HealthEndpoint, HealthReply, HealthStatus, ReplyBody, ReplyContent,
};
use kube_controller_manager_rust::leader_election::{
    create_identity, election_step, identity_from, lease_renew_interval, lock_is_stale,
    ElectionAction, ElectionEvent, FunctionLeaderCallbacks, LeaderCallbacks, LeaderElectionConfig,
    LeaderState,
};
use std::sync::atomic::{AtomicUsize, Ordering};
use std::sync::Arc;
use kube_controller_manager_rust::time::Duration;
use kube_controller_manager_rust::CONTROLLER_MANAGER_NAME;

#[test]
fn test_function_controller_name() {
    let controller = FunctionController::new("test", |_: (), _: ()| ());
    assert_eq!(controller.name(), "test");
}

#[test]
fn test_function_controller_worker_count() {
    let controller = FunctionController::new("test", |_: (), _: ()| ()).with_worker_count(5);
    assert_eq!(controller.worker_count(), 5);
}

#[test]
fn function_controller_defaults_to_one_worker_and_keeps_its_function() {
    let controller = FunctionController::new("c", |x: u32| x + 1);
    assert_eq!(controller.worker_count(), 1);
    assert_eq!((controller.run_fn())(41), 42);
}

#[test]
fn leader_election_test_leader_election_config() {
    let config = LeaderElectionConfig::new(
        "kube-system".to_string(),
        "kube-controller-manager".to_string(),
        "test-identity".to_string(),
    );

    assert_eq!(config.resource_namespace, "kube-system");
    assert_eq!(config.resource_name, "kube-controller-manager");
    assert_eq!(config.identity, "test-identity");
    assert_eq!(config.lease_duration, Duration::from_secs(15));
}

#[test]
fn leader_election_config_defaults_and_builders() {
    let config = LeaderElectionConfig::new("ns".to_string(), CONTROLLER_MANAGER_NAME.to_string(), "me".to_string());
    assert_eq!(config.resource_lock, "leases");
    assert_eq!(config.renew_deadline, Duration::from_secs(10));
    assert_eq!(config.retry_period, Duration::from_secs(2));
    let config = config
        .with_lease_duration(Duration::from_secs(30))
        .with_renew_deadline(Duration::from_secs(20))
        .with_retry_period(Duration::from_millis(500))
        .with_resource_lock("endpoints".to_string());
    assert_eq!(config.lease_duration, Duration::from_secs(30));
    assert_eq!(config.renew_deadline, Duration::from_secs(20));
    assert_eq!(config.retry_period, Duration::from_millis(500));
    assert_eq!(config.resource_lock, "endpoints");
    assert_eq!(config.resource_name, "kube-controller-manager");
}

#[test]
fn test_create_identity() {
    let identity = create_identity();
    assert!(identity.contains('_'));
    assert!(identity.len() > 10);
}

#[test]
fn identity_is_host_and_hex_bytes() {
    assert_eq!(
        identity_from(Some("node-1".to_string()), &[0xab, 0x01, 0xff, 0x10]),
        "node-1_ab01ff10"
    );
    assert_eq!(identity_from(None, &[0, 9, 10, 255]), "unknown_00090aff");
    assert_eq!(identity_from(None, &[]), "unknown_");
    let id = create_identity();
    let (_, hex) = id.rsplit_once('_').unwrap();
    assert_eq!(hex.len(), 8);
    assert!(hex.chars().all(|c| c.is_ascii_hexdigit() && !c.is_ascii_uppercase()));
}

#[test]
fn election_steps() {
    let (leader, follower, failed) = (LeaderState::Leader, LeaderState::Follower, LeaderState::Failed);
    assert_eq!(
        election_step(follower, ElectionEvent::LockAcquired),
        (leader, ElectionAction::StartLeading)
    );
    assert_eq!(
        election_step(leader, ElectionEvent::LockHeldElsewhere),
        (follower, ElectionAction::RetryLater)
    );
    assert_eq!(
        election_step(follower, ElectionEvent::LockFailed),
        (failed, ElectionAction::RetryLater)
    );
    assert_eq!(
        election_step(leader, ElectionEvent::LeaseLost),
        (follower, ElectionAction::StopLeadingThenRetry)
    );
    assert_eq!(
        election_step(leader, ElectionEvent::LeaseReleased),
        (leader, ElectionAction::RetryLater)
    );
    assert_eq!(election_step(failed, ElectionEvent::Cancelled), (failed, ElectionAction::Stop));
}

#[test]
fn stale_locks_and_renewal() {
    let lease = Duration::from_secs(15);
    assert!(!lock_is_stale(Duration::from_secs(30), lease));
    assert!(lock_is_stale(Duration::new(30, 1), lease));
    assert!(lock_is_stale(Duration::from_secs(3600), lease));
    assert!(!lock_is_stale(Duration::from_secs(0), Duration::from_secs(0)));
    assert_eq!(lease_renew_interval(Duration::from_secs(10)), Duration::from_secs(5));
    assert_eq!(lease_renew_interval(Duration::from_secs(3)), Duration::from_millis(1500));
    assert_eq!(lease_renew_interval(Duration::new(0, 3)), Duration::new(0, 1));
}

#[test]
fn durations() {
    let d = Duration::from_millis(1500);
    assert_eq!(d.as_secs(), 1);
    assert_eq!(d.subsec_nanos(), 500_000_000);
    assert_eq!(Duration::new(1, 999_999_999).half(), Duration::new(0, 999_999_999));
    assert_eq!(Duration::from_secs(7).checked_double(), Some(Duration::from_secs(14)));
    assert_eq!(Duration::new(0, 600_000_000).checked_double(), Some(Duration::new(1, 200_000_000)));
    assert_eq!(Duration::new(u64::MAX, 600_000_000).checked_double(), None);
    assert!(Duration::from_secs(2).longer_than(&Duration::new(1, 999_999_999)));
    assert!(!Duration::from_secs(2).longer_than(&Duration::from_secs(2)));
    assert_eq!(Duration::default(), Duration::from_secs(0));
}

#[test]
fn health_check_combines_results() {
    let h = HealthCheck::from_results(&[("test".to_string(), true)]);
    assert_eq!(h.status(), HealthStatus::Healthy);
    assert_eq!(h.check("test"), Some(HealthStatus::Healthy));

    let h = HealthCheck::from_results(&[
        ("a".to_string(), true),
        ("failing".to_string(), false),
        ("a".to_string(), false),
        ("a".to_string(), true),
    ]);
    assert_eq!(h.status(), HealthStatus::Unhealthy);
    assert_eq!(h.check("failing"), Some(HealthStatus::Unhealthy));
    assert_eq!(h.check("a"), Some(HealthStatus::Healthy));
    assert_eq!(h.check("other"), None);
    assert_eq!(h.checks().len(), 2);

    let h = HealthCheck::from_results(&[]);
    assert_eq!(h.status(), HealthStatus::Healthy);
    assert!(h.checks().is_empty());
}

#[test]
fn health_checker_keeps_name_and_function() {
    let checker = FunctionHealthChecker::new("test", || true);
    assert_eq!(checker.name(), "test");
    assert!((checker.check_fn())());
}

#[test]
fn health_endpoints_and_replies() {
    assert_eq!(endpoint_for("/healthz"), HealthEndpoint::Live);
    assert_eq!(endpoint_for("/healthz/live"), HealthEndpoint::Live);
    assert_eq!(endpoint_for("/healthz/ready"), HealthEndpoint::Ready);
    assert_eq!(endpoint_for("/healthz/deep"), HealthEndpoint::Deep);
    assert_eq!(endpoint_for("/metrics"), HealthEndpoint::NotFound);
    assert_eq!(endpoint_for("/healthz/"), HealthEndpoint::NotFound);
    assert!(needs_checks(HealthEndpoint::Ready));
    assert!(needs_checks(HealthEndpoint::Deep));
    assert!(!needs_checks(HealthEndpoint::Live));
    assert!(!needs_checks(HealthEndpoint::NotFound));

    assert_eq!(
        health_reply(HealthEndpoint::Live, HealthStatus::Unhealthy),
        HealthReply { status_code: 200, content: ReplyContent::PlainText, body: ReplyBody::Fine }
    );
    assert_eq!(
        health_reply(HealthEndpoint::Ready, HealthStatus::Healthy),
        HealthReply { status_code: 200, content: ReplyContent::PlainText, body: ReplyBody::Fine }
    );
    assert_eq!(
        health_reply(HealthEndpoint::Ready, HealthStatus::Unhealthy),
        HealthReply { status_code: 503, content: ReplyContent::PlainText, body: ReplyBody::NotReady }
    );
    assert_eq!(
        health_reply(HealthEndpoint::Deep, HealthStatus::Unhealthy),
        HealthReply { status_code: 503, content: ReplyContent::Json, body: ReplyBody::Report }
    );
    assert_eq!(
        health_reply(HealthEndpoint::NotFound, HealthStatus::Healthy),
        HealthReply { status_code: 404, content: ReplyContent::Unspecified, body: ReplyBody::NotFound }
    );
    assert_eq!(body_text(ReplyBody::Fine), "ok");
    assert_eq!(body_text(ReplyBody::NotReady), "not ready");
    assert_eq!(body_text(ReplyBody::NotFound), "not found");
}

#[test]
fn informer_factory_records_its_start() {
    assert!(!InformerFactory::default().started());
    let mut f = InformerFactory::new();
    assert!(!f.started());
    f.start();
    assert!(f.started());
}

#[test]
fn run_steps_fail_fast_then_drain() {
    let (p, a) = run_step(RunPhase::Running, RunEvent::Stopped { name: "a".to_string(), outcome: Ok(()) });
    assert_eq!(p, RunPhase::Running);
    assert!(matches!(a, RunAction::KeepWaiting));

    let cause = ControllerError::Disabled("a".to_string());
    let (p, a) = run_step(RunPhase::Running, RunEvent::Stopped { name: "a".to_string(), outcome: Err(cause) });
    assert_eq!(p, RunPhase::Running);
    match a {
        RunAction::Fail(e) => assert_eq!(e.message(), "controller a runtime error: controller a is disabled"),
        other => panic!("unexpected: {:?}", other),
    }

    match run_step(RunPhase::Running, RunEvent::TaskLost("task panicked".to_string())).1 {
        RunAction::Fail(e) => assert_eq!(e.message(), "controller unknown runtime error: task panicked"),
        other => panic!("unexpected: {:?}", other),
    }

    let (p, a) = run_step(RunPhase::Running, RunEvent::ShutdownRequested);
    assert_eq!(p, RunPhase::Draining);
    assert!(matches!(a, RunAction::Drain));
    assert!(matches!(run_step(RunPhase::Running, RunEvent::NoneLeft).1, RunAction::Finish));

    let cause = ControllerError::Disabled("b".to_string());
    let (p, a) = run_step(RunPhase::Draining, RunEvent::Stopped { name: "b".to_string(), outcome: Err(cause) });
    assert_eq!(p, RunPhase::Draining);
    assert!(matches!(a, RunAction::KeepWaiting));
    assert!(matches!(run_step(RunPhase::Draining, RunEvent::TaskLost("x".to_string())).1, RunAction::KeepWaiting));
    assert!(matches!(run_step(RunPhase::Draining, RunEvent::DeadlineReached).1, RunAction::Finish));
    assert!(matches!(run_step(RunPhase::Draining, RunEvent::NoneLeft).1, RunAction::Finish));
}

fn run_checks<F: Fn() -> bool + Send + Sync>(list: &CheckerList<FunctionHealthChecker<F>>) -> HealthCheck {
    let results: Vec<(String, bool)> = list
        .checkers()
        .iter()
        .map(|c| (c.name().to_string(), (c.check_fn())()))
        .collect();
    HealthCheck::from_results(&results)
}

#[test]
fn test_health_registry() {
    let mut registry = CheckerList::new();

    let checker = FunctionHealthChecker::new("test", || true);
    registry.register(checker);

    assert_eq!(registry.len(), 1);
    assert!(!registry.is_empty());

    let result = run_checks(&registry);
    assert_eq!(result.status(), HealthStatus::Healthy);
    assert_eq!(result.check("test"), Some(HealthStatus::Healthy));

    assert!(registry.unregister("test"));
    assert!(registry.is_empty());
}

#[test]
fn test_unhealthy_checker() {
    let mut registry = CheckerList::new();

    let checker = FunctionHealthChecker::new("failing", || false);
    registry.register(checker);

    let result = run_checks(&registry);
    assert_eq!(result.status(), HealthStatus::Unhealthy);
    assert_eq!(result.check("failing"), Some(HealthStatus::Unhealthy));
}

#[test]
fn unregister_keeps_the_others_in_order() {
    let mut registry: CheckerList<FunctionHealthChecker<fn() -> bool>> = CheckerList::new();
    let yes: fn() -> bool = || true;
    registry.register(FunctionHealthChecker::new("a", yes));
    registry.register(FunctionHealthChecker::new("b", yes));
    registry.register(FunctionHealthChecker::new("a", yes));
    registry.register(FunctionHealthChecker::new("c", yes));
    assert!(!registry.unregister("z"));
    assert_eq!(registry.len(), 4);
    assert!(registry.unregister("a"));
    let names: Vec<&str> = registry.checkers().iter().map(|c| c.name()).collect();
    assert_eq!(names, vec!["b", "c"]);
    assert!(!registry.unregister("a"));
}

#[test]
fn function_leader_callbacks_run_their_functions() {
    let started = Arc::new(AtomicUsize::new(0));
    let stopped = Arc::new(AtomicUsize::new(0));
    let s = started.clone();
    let t = stopped.clone();
    let callbacks = FunctionLeaderCallbacks::new(
        move || {
            s.fetch_add(1, Ordering::SeqCst);
        },
        move || {
            t.fetch_add(1, Ordering::SeqCst);
        },
    );
    callbacks.on_started_leading();
    callbacks.on_started_leading();
    callbacks.on_stopped_leading();
    assert_eq!(started.load(Ordering::SeqCst), 2);
    assert_eq!(stopped.load(Ordering::SeqCst), 1);
}
