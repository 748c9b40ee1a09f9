use sink_webhook::health::{evaluate_health, Health, ObservedPod};
use sink_webhook::resource::{
    CommonSpec, ConditionStatus, Defaults, EnvVar, ImageSpec, MountedFile, Phase, SinkWebhook,
    SinkWebhookSpec, SinkWebhookStatus, StreamSpec, Time, Volume, VolumeMount,
};
use sink_webhook::session::{
    check_installed, error_policy, CleanupStage, Command, ControllerError, Event, ReconcileStage,
};
use sink_webhook::status::{project_status, AppliedPod};

fn spec(url: &str, raw: Option<bool>) -> SinkWebhookSpec {
    SinkWebhookSpec {
        target_url: url.to_string(),
        raw,
        common: CommonSpec {
            image: None,
            stream: StreamSpec { filter: None, transform: None },
            env: vec![],
        },
    }
}

fn resource(name: &str, spec: SinkWebhookSpec, status: Option<SinkWebhookStatus>) -> SinkWebhook {
    SinkWebhook { name: name.to_string(), generation: Some(3), spec, status }
}

fn defaults() -> Defaults {
    Defaults { webhook_image: "quay.io/apibara/sink-webhook:latest".to_string() }
}

fn status_with(instance: Option<&str>, restarts: Option<u32>) -> SinkWebhookStatus {
    SinkWebhookStatus {
        instance_name: instance.map(|s| s.to_string()),
        pod_created: Some(1_000),
        phase: Some(Phase::Running),
        conditions: None,
        restart_count: restarts,
    }
}

fn env_pairs(env: &[EnvVar]) -> Vec<(String, String)> {
    env.iter().map(|e| (e.name.clone(), e.value.clone())).collect()
}

fn applied(name: &str, created: Option<i64>) -> AppliedPod {
    AppliedPod { name: Some(name.to_string()), created }
}

#[test]
fn first_reconcile_creates_pod_and_running_status() {
    let res = resource("my-hook", spec("http://example/hook", Some(false)), None);
    let (mut pass, cmd) = res.reconcile(defaults());
    assert_eq!(pass.stage, ReconcileStage::ApplyingPod);
    let manifest = match cmd {
        Command::ApplyPod(m) => m,
        other => panic!("expected an apply, got {:?}", other),
    };
    assert_eq!(manifest.metadata.name, "my-hook");
    assert_eq!(
        env_pairs(&manifest.spec.container.env),
        vec![("TARGET_URL".to_string(), "http://example/hook".to_string())]
    );
    let cmd = pass.step(Event::PodApplied(applied("my-hook", Some(5_000))));
    let (name, status) = match cmd {
        Command::PatchStatus(n, s) => (n, s),
        other => panic!("expected a status patch, got {:?}", other),
    };
    assert_eq!(name, "my-hook");
    assert_eq!(status.phase, Some(Phase::Running));
    assert_eq!(status.instance_name.as_deref(), Some("my-hook"));
    assert_eq!(status.pod_created, Some(5_000));
    let conditions = status.conditions.unwrap();
    assert_eq!(conditions.len(), 1);
    assert_eq!(conditions[0].type_, "PodScheduled");
    assert_eq!(conditions[0].status, ConditionStatus::True);
    assert_eq!(conditions[0].reason, "PodScheduled");
    assert_eq!(conditions[0].last_transition_time, Time::At(5_000));
    assert_eq!(conditions[0].observed_generation, Some(3));
    assert_eq!(status.restart_count, Some(0));
    match pass.step(Event::StatusPatched) {
        Command::Done(Ok(q)) => assert_eq!(q.after_secs, 10),
        other => panic!("expected done, got {:?}", other),
    }
    assert_eq!(pass.stage, ReconcileStage::Finished);
}

#[test]
fn absent_pod_keeps_restart_count() {
    let res = resource("hook", spec("http://x", None), Some(status_with(Some("hook"), Some(4))));
    let (mut pass, cmd) = res.reconcile(defaults());
    match cmd {
        Command::GetPod(n) => assert_eq!(n, "hook"),
        other => panic!("expected a read, got {:?}", other),
    }
    let cmd = pass.step(Event::PodFetched { pod: None, now: 100_000 });
    assert!(matches!(cmd, Command::ApplyPod(_)));
    assert_eq!(pass.health, Health::Healthy);
    match pass.step(Event::PodApplied(applied("hook", None))) {
        Command::PatchStatus(_, s) => {
            assert_eq!(s.restart_count, Some(4));
            assert_eq!(s.phase, Some(Phase::Running));
            let cs = s.conditions.unwrap();
            assert_eq!(cs[0].last_transition_time, Time::Earliest);
        }
        other => panic!("expected a status patch, got {:?}", other),
    }
}

#[test]
fn absent_status_counts_from_zero() {
    let prev = Some(status_with(Some("hook"), None));
    let s = project_status(&prev, Health::StaleTerminated, &applied("hook", Some(1)), None);
    assert_eq!(s.restart_count, Some(1));
    let s = project_status(&None, Health::Healthy, &applied("hook", Some(1)), None);
    assert_eq!(s.restart_count, Some(0));
}

fn terminated_pod(t: i64) -> ObservedPod {
    ObservedPod { name: "hook".to_string(), finished_at: Some(t) }
}

#[test]
fn terminated_within_grace_is_kept_with_error() {
    let t: i64 = 1_700_000_000_000;
    let res = resource("hook", spec("http://x", None), Some(status_with(Some("hook"), Some(2))));
    let (mut pass, _) = res.reconcile(defaults());
    let cmd = pass.step(Event::PodFetched { pod: Some(terminated_pod(t)), now: t + 30_000 });
    assert!(matches!(cmd, Command::ApplyPod(_)));
    assert_eq!(pass.health, Health::RecentlyTerminated { finished_at: t });
    match pass.step(Event::PodApplied(applied("hook", Some(t - 5_000)))) {
        Command::PatchStatus(_, s) => {
            assert_eq!(s.phase, Some(Phase::Error));
            assert_eq!(s.restart_count, Some(2));
            let cs = s.conditions.unwrap();
            assert_eq!(cs.len(), 2);
            assert_eq!(cs[1].type_, "PodTerminated");
            assert_eq!(cs[1].status, ConditionStatus::False);
            assert_eq!(cs[1].reason, "PodTerminate");
            assert_eq!(cs[1].message, "Pod has been terminated");
            assert_eq!(cs[1].last_transition_time, Time::At(t));
        }
        other => panic!("expected a status patch, got {:?}", other),
    }
}

#[test]
fn terminated_past_grace_is_recycled() {
    let t: i64 = 1_700_000_000_000;
    let res = resource("hook", spec("http://x", None), Some(status_with(Some("hook"), Some(2))));
    let (mut pass, _) = res.reconcile(defaults());
    match pass.step(Event::PodFetched { pod: Some(terminated_pod(t)), now: t + 61_000 }) {
        Command::DeletePod(n) => assert_eq!(n, "hook"),
        other => panic!("expected a delete, got {:?}", other),
    }
    assert_eq!(pass.stage, ReconcileStage::DeletingPod);
    assert!(matches!(pass.step(Event::PodDeleted), Command::ApplyPod(_)));
    match pass.step(Event::PodApplied(applied("hook", Some(t + 62_000)))) {
        Command::PatchStatus(_, s) => {
            assert_eq!(s.phase, Some(Phase::Running));
            assert_eq!(s.restart_count, Some(3));
            assert_eq!(s.conditions.unwrap().len(), 1);
        }
        other => panic!("expected a status patch, got {:?}", other),
    }
}

#[test]
fn grace_window_boundary() {
    let t: i64 = 10_000;
    let p = Some(terminated_pod(t));
    assert_eq!(evaluate_health(&p, t + 59_999), Health::RecentlyTerminated { finished_at: t });
    assert_eq!(evaluate_health(&p, t + 60_000), Health::StaleTerminated);
    assert_eq!(evaluate_health(&p, t - 5_000), Health::RecentlyTerminated { finished_at: t });
    let running = Some(ObservedPod { name: "hook".to_string(), finished_at: None });
    assert_eq!(evaluate_health(&running, t), Health::Healthy);
    assert_eq!(evaluate_health(&None, t), Health::Healthy);
    assert_eq!(evaluate_health(&Some(terminated_pod(i64::MIN)), i64::MAX), Health::StaleTerminated);
}

#[test]
fn restart_count_saturates() {
    let prev = Some(status_with(Some("hook"), Some(u32::MAX)));
    let s = project_status(&prev, Health::StaleTerminated, &applied("hook", None), None);
    assert_eq!(s.restart_count, Some(u32::MAX));
}

#[test]
fn reapplying_gives_same_manifest_and_status() {
    let res = resource("hook", spec("http://x", Some(true)), None);
    let a = res.pod_manifest(&defaults());
    let b = res.pod_manifest(&defaults());
    assert_eq!(format!("{:?}", a), format!("{:?}", b));
    let first = project_status(&None, Health::Healthy, &applied("hook", Some(7)), Some(1));
    let second = project_status(&Some(first.clone()), Health::Healthy, &applied("hook", Some(7)), Some(1));
    assert_eq!(format!("{:?}", first), format!("{:?}", second));
}

#[test]
fn raw_flag_controls_raw_entry() {
    let d = defaults();
    let with_raw = resource("hook", spec("http://a", Some(true)), None).pod_spec(&d);
    assert_eq!(
        env_pairs(&with_raw.container.env),
        vec![
            ("TARGET_URL".to_string(), "http://a".to_string()),
            ("RAW".to_string(), "true".to_string()),
        ]
    );
    let without = resource("hook", spec("http://a", None), None).pod_spec(&d);
    assert!(without.container.env.iter().all(|e| e.name != "RAW"));
    assert_eq!(without.container.env[0].name, "TARGET_URL");
    assert_eq!(without.container.env[0].value, "http://a");
}

fn file(name: &str, path: &str, var: &str) -> MountedFile {
    MountedFile {
        volume: Volume { name: name.to_string(), config_map: format!("{}-cm", name) },
        mount: VolumeMount { name: name.to_string(), mount_path: path.to_string() },
        env: EnvVar { name: var.to_string(), value: format!("{}/script.js", path) },
    }
}

#[test]
fn pod_spec_fields() {
    let mut s = spec("http://a", Some(true));
    s.common.image = Some(ImageSpec {
        name: Some("custom:1".to_string()),
        pull_secrets: Some(vec!["regcred".to_string()]),
        pull_policy: Some("Always".to_string()),
    });
    s.common.env = vec![EnvVar { name: "AUTH_TOKEN".to_string(), value: "SECRET-REDACTED".to_string() }];
    s.common.stream.filter = Some(file("filter", "/data/filter", "FILTER"));
    s.common.stream.transform = Some(file("transform", "/data/transform", "TRANSFORM"));
    let pod = resource("hook", s, None).pod_spec(&defaults());
    let c = &pod.container;
    assert_eq!(c.name, "sink");
    assert_eq!(c.image, "custom:1");
    assert_eq!(c.args, vec!["--status-server-address=0.0.0.0:8118".to_string()]);
    assert_eq!(
        env_pairs(&c.env).iter().map(|p| p.0.as_str()).collect::<Vec<_>>(),
        vec!["TARGET_URL", "RAW", "AUTH_TOKEN", "FILTER", "TRANSFORM"]
    );
    assert_eq!(c.ports.len(), 1);
    assert_eq!(c.ports[0].container_port, 8118);
    assert_eq!(c.ports[0].name, "status");
    assert_eq!(c.image_pull_policy.as_deref(), Some("Always"));
    assert_eq!(c.liveness_probe.path, "/status");
    assert_eq!(c.liveness_probe.port, 8118);
    assert_eq!(c.liveness_probe.scheme, "HTTP");
    assert_eq!(format!("{:?}", c.liveness_probe), format!("{:?}", c.readiness_probe));
    assert_eq!(c.volume_mounts.iter().map(|m| m.mount_path.as_str()).collect::<Vec<_>>(), vec!["/data/filter", "/data/transform"]);
    assert_eq!(pod.volumes.iter().map(|v| v.name.as_str()).collect::<Vec<_>>(), vec!["filter", "transform"]);
    assert_eq!(pod.image_pull_secrets, Some(vec!["regcred".to_string()]));
    assert_eq!(pod.restart_policy, "Never");
}

#[test]
fn default_image_used_without_image_name() {
    let mut s = spec("http://a", None);
    s.common.image = Some(ImageSpec { name: None, pull_secrets: None, pull_policy: None });
    let pod = resource("hook", s, None).pod_spec(&defaults());
    assert_eq!(pod.container.image, "quay.io/apibara/sink-webhook:latest");
    assert_eq!(pod.image_pull_secrets, None);
    assert!(pod.volumes.is_empty());
    assert!(pod.container.volume_mounts.is_empty());
}

#[test]
fn cleanup_deletes_existing_pod() {
    let res = resource("hook", spec("http://a", None), None);
    let (mut pass, cmd) = res.cleanup();
    match cmd {
        Command::GetPod(n) => assert_eq!(n, "hook"),
        other => panic!("expected a read, got {:?}", other),
    }
    let found = ObservedPod { name: "hook".to_string(), finished_at: None };
    match pass.step(Event::PodFetched { pod: Some(found), now: 0 }) {
        Command::DeletePod(n) => assert_eq!(n, "hook"),
        other => panic!("expected a delete, got {:?}", other),
    }
    assert_eq!(pass.stage, CleanupStage::DeletingPod);
    match pass.step(Event::PodDeleted) {
        Command::Done(Ok(q)) => assert_eq!(q.after_secs, 10),
        other => panic!("expected done, got {:?}", other),
    }
}

#[test]
fn cleanup_without_pod_deletes_nothing() {
    let res = resource("hook", spec("http://a", None), None);
    let (mut pass, _) = res.cleanup();
    match pass.step(Event::PodFetched { pod: None, now: 0 }) {
        Command::Done(Ok(q)) => assert_eq!(q.after_secs, 10),
        other => panic!("expected done, got {:?}", other),
    }
    assert_eq!(pass.stage, CleanupStage::Finished);
}

#[test]
fn api_failure_aborts_pass() {
    let res = resource("hook", spec("http://a", None), Some(status_with(Some("hook"), None)));
    let (mut pass, _) = res.reconcile(defaults());
    match pass.step(Event::Failed("connection refused".to_string())) {
        Command::Done(Err(ControllerError::Api(m))) => assert_eq!(m, "connection refused"),
        other => panic!("expected an api error, got {:?}", other),
    }
    assert_eq!(pass.stage, ReconcileStage::Finished);
    let (mut cleanup, _) = resource("hook", spec("http://a", None), None).cleanup();
    assert!(matches!(cleanup.step(Event::Failed("boom".to_string())), Command::Done(Err(ControllerError::Api(_)))));
}

#[test]
fn error_policy_backs_off_thirty_seconds() {
    for e in [
        ControllerError::Api("x".to_string()),
        ControllerError::Finalizer("y".to_string()),
        ControllerError::CrdNotInstalled("z".to_string()),
    ] {
        assert_eq!(error_policy(&e).after_secs, 30);
    }
}

#[test]
fn missing_resource_type_fails_start() {
    assert!(check_installed(true, "sinkwebhooks.apibara.com").is_ok());
    match check_installed(false, "sinkwebhooks.apibara.com") {
        Err(ControllerError::CrdNotInstalled(n)) => assert_eq!(n, "sinkwebhooks.apibara.com"),
        other => panic!("expected not installed, got {:?}", other),
    }
}
