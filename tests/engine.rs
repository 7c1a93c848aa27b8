use bakerst_install::app::{App, FeatureSelection, InstallConfig, ItemStatus, Phase};
use bakerst_install::cli::Cli;
use bakerst_install::control::{
    handle_async_msg, handle_auto_advance, handle_health_event, handle_key, handle_pull_event,
    make_retry_label, record_preflight, AsyncMsg, Key, PhaseWork,
};
use bakerst_install::deploy::{deploy_steps, DeploySequencer, DeployStep};
use bakerst_install::health::{
    rollout_ready, CycleVerdict, ContainerObservation, HealthEvent, HealthMonitor, PodHealth,
    PodObservation, RecoveryBudget,
};
use bakerst_install::images::{
    after_failure, decide_after_failure, is_local_docker_error, matches_local_signature, PullDecision,
    PullEvent, PullGate, PullJob,
};
use bakerst_install::manifest::{
    default_manifest, ManifestDefaults, ManifestFeature, ManifestImage, ManifestSecret, ReleaseManifest,
};
use bakerst_install::secrets::{build_template_vars, plan_secrets, upsert};
use bakerst_install::text::{contains_str, decimal_string, replace_str, str_eq};

fn cli(skip_extensions: bool) -> Cli {
    Cli {
        release_version: None,
        manifest: None,
        non_interactive: false,
        uninstall: false,
        status: false,
        data_dir: None,
        skip_telemetry: false,
        skip_extensions,
        namespace: "bakerst".into(),
        verbose: false,
    }
}

fn img(component: &str, required: bool) -> ManifestImage {
    ManifestImage {
        component: component.into(),
        image: format!("ghcr.io/test/{}:0.1.0", component),
        version: "0.1.0".into(),
        digest: String::new(),
        required,
    }
}

fn secret(key: &str, required: bool) -> ManifestSecret {
    ManifestSecret {
        key: key.into(),
        description: format!("{} description", key),
        required,
        input_type: "secret".into(),
        target_secrets: vec!["bakerst-brain-secrets".into()],
    }
}

fn manifest(images: Vec<ManifestImage>, features: Vec<ManifestFeature>) -> ReleaseManifest {
    ReleaseManifest {
        schema_version: 1,
        version: "0.1.0".into(),
        date: "2026-02-28T00:00:00Z".into(),
        min_sysadmin_version: "0.1.0".into(),
        release_notes: "Test release".into(),
        images,
        required_secrets: vec![secret("ANTHROPIC_OAUTH_TOKEN", true), secret("VOYAGE_API_KEY", false)],
        optional_features: features,
        defaults: ManifestDefaults {
            agent_name: "Baker".into(),
            namespace: "bakerst".into(),
            resource_profile: "standard".into(),
        },
        checksums: Default::default(),
    }
}

fn type_text(app: &mut App, text: &str) {
    for c in text.chars() {
        handle_key(app, Key::Char(c));
    }
}

fn preflighted(m: ReleaseManifest) -> App {
    let mut app = App::new("bakerst".into());
    record_preflight(&mut app, Some("24.0.7\n".into()), Ok("1.29".into()), Ok(m), true);
    app
}

#[test]
fn preflight_records_checks_and_moves_to_secrets() {
    let mut app = App::new("bakerst".into());
    record_preflight(&mut app, None, Err("no cluster".into()), Err("offline".into()), false);
    assert_eq!(app.phase, Phase::Secrets);
    assert_eq!(app.preflight_checks.len(), 4);
    assert_eq!(app.preflight_checks[0].1, ItemStatus::Failed("docker not found in PATH".into()));
    assert_eq!(app.preflight_checks[1].1, ItemStatus::Failed("no cluster".into()));
    assert_eq!(app.cluster_name, "disconnected");
    assert_eq!(app.preflight_checks[3].1, ItemStatus::Failed("kubectl not found".into()));

    let app = preflighted(manifest(vec![img("brain", true)], vec![]));
    assert_eq!(app.preflight_checks[0].0, "Docker CLI (v24.0.7)");
    assert_eq!(app.preflight_checks[1].0, "Kubernetes cluster (v1.29)");
    assert_eq!(app.preflight_checks[2].0, "Release manifest (v0.1.0)");
    assert_eq!(app.cluster_name, "k8s 1.29");
    assert_eq!(app.manifest_version, "0.1.0");
}

#[test]
fn scenario_two_required_images_no_features() {
    let mut app = preflighted(manifest(vec![img("brain", true), img("worker", true)], vec![]));
    assert_eq!(app.phase, Phase::Secrets);
    assert_eq!(app.secret_prompts.len(), 2);
    assert_eq!(app.secret_prompts[0].key, "ANTHROPIC_OAUTH_TOKEN");
    assert!(app.secret_prompts.iter().all(|p| !p.is_feature));

    // A required prompt refuses an empty submission.
    handle_key(&mut app, Key::Enter);
    assert_eq!(app.current_secret_index, 0);
    type_text(&mut app, "tokk");
    handle_key(&mut app, Key::Backspace);
    handle_key(&mut app, Key::Enter);
    assert_eq!(app.config.oauth_token.as_deref(), Some("tok"));
    assert_eq!(app.current_secret_index, 1);
    // The optional one is skipped.
    handle_key(&mut app, Key::Esc);
    assert_eq!(app.current_secret_index, 2);
    assert!(app.config.voyage_api_key.is_none());

    assert!(matches!(handle_auto_advance(&mut app, &cli(false)), PhaseWork::Idle));
    assert_eq!(app.phase, Phase::Features);
    handle_key(&mut app, Key::Enter);
    assert_eq!(app.phase, Phase::Confirm);
    assert_eq!(app.config.auth_token.len(), 64);
    handle_key(&mut app, Key::Enter);
    assert_eq!(app.phase, Phase::Pull);

    match handle_auto_advance(&mut app, &cli(false)) {
        PhaseWork::Pull(images) => {
            assert_eq!(images, vec!["ghcr.io/test/brain:0.1.0".to_string(), "ghcr.io/test/worker:0.1.0".to_string()])
        }
        other => panic!("expected pull work, got {:?}", other),
    }
    assert_eq!(app.pull_progress, (0, 2));
    assert!(app.pull_statuses.iter().all(|(_, s)| *s == ItemStatus::Pending));
}

#[test]
fn scenario_feature_secrets_detour_to_confirm() {
    let feature = ManifestFeature {
        id: "telegram".into(),
        name: "Telegram".into(),
        description: "Telegram bot".into(),
        default_enabled: false,
        secrets: vec!["TELEGRAM_BOT_TOKEN".into(), "TELEGRAM_CHAT_ID".into()],
    };
    let mut app = preflighted(manifest(vec![img("brain", true)], vec![feature]));
    type_text(&mut app, "tok");
    handle_key(&mut app, Key::Enter);
    handle_key(&mut app, Key::Esc);
    handle_auto_advance(&mut app, &cli(false));
    assert_eq!(app.phase, Phase::Features);

    handle_key(&mut app, Key::Char(' '));
    assert!(app.config.features[0].enabled);
    handle_key(&mut app, Key::Enter);
    assert_eq!(app.phase, Phase::Secrets);
    assert!(app.collecting_feature_secrets);
    assert_eq!(app.secret_prompts.len(), 4);
    assert_eq!(app.current_secret_index, 2);
    let added = &app.secret_prompts[2..];
    assert!(added.iter().all(|p| p.is_feature && !p.required && p.value.is_none()));
    assert_eq!(added[0].key, "TELEGRAM_BOT_TOKEN");
    assert_eq!(added[0].description, "Telegram \u{2014} TELEGRAM_BOT_TOKEN");
    assert!(added[0].is_secret);
    assert_eq!(added[1].key, "TELEGRAM_CHAT_ID");
    assert!(!added[1].is_secret);

    type_text(&mut app, "bot-123");
    handle_key(&mut app, Key::Enter);
    type_text(&mut app, "42");
    handle_key(&mut app, Key::Enter);
    assert_eq!(app.config.features[0].secrets[0].1.as_deref(), Some("bot-123"));
    assert_eq!(app.config.features[0].secrets[1].1.as_deref(), Some("42"));

    handle_auto_advance(&mut app, &cli(false));
    assert_eq!(app.phase, Phase::Confirm);
    assert!(!app.collecting_feature_secrets);

    // Cancel at Confirm, then confirm the features again: prompts are rebuilt, not appended.
    handle_key(&mut app, Key::Right);
    handle_key(&mut app, Key::Enter);
    assert_eq!(app.phase, Phase::Secrets);
    assert_eq!(app.current_secret_index, 0);
    app.phase = Phase::Features;
    handle_key(&mut app, Key::Enter);
    assert_eq!(app.secret_prompts.len(), 4);
}

#[test]
fn scenario_permission_denied_fails_once() {
    let stderr = "Error response from daemon: permission denied while trying to connect\n";
    assert!(is_local_docker_error(stderr));
    match after_failure(1, stderr) {
        PullDecision::GiveUp { error } => assert_eq!(
            error,
            "docker config error (skipping retries): Error response from daemon: permission denied while trying to connect"
        ),
        other => panic!("expected to give up, got {:?}", other),
    }
}

#[test]
fn transient_failures_retry_with_backoff() {
    let stderr = "  manifest unknown  ";
    assert!(!is_local_docker_error(stderr));
    match after_failure(1, stderr) {
        PullDecision::Retry { next_attempt, backoff_secs } => {
            assert_eq!(next_attempt, 2);
            assert_eq!(backoff_secs, 2);
        }
        other => panic!("expected a retry, got {:?}", other),
    }
    match after_failure(2, stderr) {
        PullDecision::Retry { next_attempt, backoff_secs } => {
            assert_eq!(next_attempt, 3);
            assert_eq!(backoff_secs, 4);
        }
        other => panic!("expected a retry, got {:?}", other),
    }
    match after_failure(3, stderr) {
        PullDecision::GiveUp { error } => assert_eq!(error, "manifest unknown"),
        other => panic!("expected to give up, got {:?}", other),
    }
}

#[test]
fn local_signatures() {
    assert!(is_local_docker_error("Cannot connect to the Docker daemon at unix:///var/run/docker.sock"));
    assert!(is_local_docker_error("error getting CREDENTIALS - err: exit status 1"));
    assert!(is_local_docker_error("exec: \"docker\": executable file not found in PATH"));
    assert!(is_local_docker_error("the docker daemon is not running"));
    assert!(!is_local_docker_error("toomanyrequests: rate limit"));
    assert!(matches_local_signature("permission denied"));
    assert!(!matches_local_signature("Permission Denied"));
    match decide_after_failure(1, true, "x") {
        PullDecision::GiveUp { error } => assert_eq!(error, "docker config error (skipping retries): x"),
        other => panic!("expected to give up, got {:?}", other),
    }
}

#[test]
fn pull_gate_admits_at_most_four() {
    let mut gate = PullGate::new();
    for _ in 0..4 {
        assert!(gate.try_enter());
    }
    assert!(!gate.try_enter());
    assert_eq!(gate.running, 4);
    gate.leave();
    assert!(gate.try_enter());
    assert!(!gate.try_enter());
}

#[test]
fn pull_events_update_table_and_progress() {
    let mut app = preflighted(manifest(vec![img("brain", true), img("voice", false)], vec![]));
    app.phase = Phase::Pull;
    let work = handle_auto_advance(&mut app, &cli(false));
    assert!(matches!(work, PhaseWork::Pull(ref v) if v.len() == 2));
    handle_pull_event(&mut app, PullEvent::Started { index: 0, image: "a".into() });
    assert_eq!(app.pull_statuses[0].1, ItemStatus::InProgress);
    handle_pull_event(&mut app, PullEvent::Retrying { index: 1, image: "b".into(), attempt: 2 });
    assert_eq!(app.pull_statuses[1].0, "ghcr.io/test/voice:0.1.0 (retry 2)");
    handle_pull_event(&mut app, PullEvent::Retrying { index: 1, image: "b".into(), attempt: 3 });
    assert_eq!(app.pull_statuses[1].0, "ghcr.io/test/voice:0.1.0 (retry 3)");
    handle_pull_event(
        &mut app,
        PullEvent::Completed { index: 0, image: "a".into(), elapsed: std::time::Duration::from_secs(1) },
    );
    handle_pull_event(
        &mut app,
        PullEvent::Failed { index: 1, image: "b".into(), error: "boom".into(), attempt: 3 },
    );
    assert_eq!(app.pull_statuses[0].1, ItemStatus::Done);
    assert_eq!(app.pull_statuses[1].1, ItemStatus::Failed("boom".into()));
    assert_eq!(app.pull_progress, (2, 2));
    handle_auto_advance(&mut app, &cli(false));
    assert_eq!(app.phase, Phase::Deploy);
}

#[test]
fn skip_extensions_pulls_required_only() {
    let mut app = preflighted(manifest(vec![img("brain", true), img("voice", false)], vec![]));
    app.phase = Phase::Pull;
    match handle_auto_advance(&mut app, &cli(true)) {
        PhaseWork::Pull(v) => assert_eq!(v, vec!["ghcr.io/test/brain:0.1.0".to_string()]),
        other => panic!("expected pull work, got {:?}", other),
    }
}

#[test]
fn retry_label_formats() {
    assert_eq!(make_retry_label("img", 10), "img (retry 10)");
    assert_eq!(make_retry_label("img (retry 1)", 2), "img (retry 2)");
    assert_eq!(decimal_string(0), "0");
    assert_eq!(decimal_string(4096), "4096");
}

#[test]
fn deploy_steps_follow_manifest() {
    let m = default_manifest();
    let steps = deploy_steps(&m, false);
    assert_eq!(steps.len(), 16);
    assert_eq!(steps[0], DeployStep::Namespace);
    assert_eq!(steps[1], DeployStep::Secrets);
    assert_eq!(steps[11], DeployStep::NetworkPolicies);
    assert_eq!(&steps[12..], &[DeployStep::SysAdmin, DeployStep::Voice, DeployStep::Toolbox, DeployStep::Browser]);
    assert_eq!(deploy_steps(&m, true).len(), 12);
    assert_eq!(DeployStep::NetworkPolicies.label(), "Network Policies");
}

#[test]
fn deploy_reports_in_order_and_completes_once() {
    let mut app = preflighted(manifest(vec![img("brain", true)], vec![]));
    app.phase = Phase::Deploy;
    let steps = match handle_auto_advance(&mut app, &cli(false)) {
        PhaseWork::Deploy(steps) => steps,
        other => panic!("expected deploy work, got {:?}", other),
    };
    assert_eq!(app.deploy_progress, (0, 12));
    assert_eq!(app.deploy_statuses[4].0, "RBAC");
    let mut seq = DeploySequencer::new(steps);
    let mut reported = Vec::new();
    let mut done_signals = 0;
    while let Some(step) = seq.current() {
        let result = if step == DeployStep::Rbac { Err("forbidden".to_string()) } else { Ok(()) };
        for msg in seq.report(result) {
            match &msg {
                AsyncMsg::DeployStep { index, .. } => reported.push(*index),
                AsyncMsg::DeployDone => done_signals += 1,
                _ => {}
            }
            if !matches!(msg, AsyncMsg::DeployDone) {
                assert_ne!(app.deploy_progress.0, app.deploy_progress.1);
            }
            handle_async_msg(&mut app, msg);
        }
    }
    assert_eq!(reported, (0..12).collect::<Vec<_>>());
    assert_eq!(done_signals, 1);
    assert_eq!(app.deploy_progress, (12, 12));
    assert_eq!(app.deploy_statuses[4].1, ItemStatus::Failed("forbidden".into()));
    assert_eq!(app.deploy_statuses[5].1, ItemStatus::Done);
    assert_eq!(app.phase, Phase::Health);
}

#[test]
fn deploy_connection_failure_short_circuits() {
    let mut seq = DeploySequencer::new(vec![DeployStep::Namespace, DeployStep::Secrets]);
    let msgs = seq.connection_failed("no client".into());
    assert_eq!(msgs.len(), 2);
    assert!(matches!(&msgs[0], AsyncMsg::DeployStep { index: 0, result: Err(e) } if e == "no client"));
    assert!(matches!(msgs[1], AsyncMsg::DeployDone));
    assert!(seq.current().is_none());
}

fn container(ready: bool, restarts: i32, waiting: Option<&str>) -> ContainerObservation {
    ContainerObservation {
        ready,
        restart_count: restarts,
        image: "img:1".into(),
        waiting_reason: waiting.map(|w| w.to_string()),
    }
}

fn pod(name: &str, containers: Vec<ContainerObservation>) -> PodObservation {
    PodObservation { name: name.into(), phase: Some("Running".into()), containers }
}

#[test]
fn health_all_ready_ends_polling() {
    let mut mon = HealthMonitor::new(vec!["brain".into()]);
    mon.begin_cycle();
    let step = mon.observe("brain", &pod("brain-1", vec![container(true, 1, None), container(true, 2, None)]));
    assert!(step.health.ready);
    assert_eq!(step.health.restarts, 3);
    assert_eq!(step.health.image, "img:1");
    assert!(step.recovery.is_none());
    assert_eq!(mon.end_cycle(4), CycleVerdict::AllHealthy);
    assert!(mon.finished);
}

#[test]
fn health_no_workloads_never_all_healthy() {
    let mut mon = HealthMonitor::new(vec![]);
    mon.begin_cycle();
    assert_eq!(mon.end_cycle(10), CycleVerdict::KeepPolling);
    mon.begin_cycle();
    assert_eq!(mon.end_cycle(121), CycleVerdict::TimedOut);
}

#[test]
fn health_crash_loop_budget_is_three_per_workload() {
    let mut mon = HealthMonitor::new(vec!["worker".into()]);
    let mut attempts = Vec::new();
    for cycle in 0..5 {
        mon.begin_cycle();
        let name = format!("worker-{}", cycle);
        let step = mon.observe("worker", &pod(&name, vec![container(false, 7, Some("CrashLoopBackOff"))]));
        assert_eq!(step.health.error.as_deref(), Some("CrashLoopBackOff"));
        assert!(!step.health.ready);
        attempts.push(step.recovery);
        assert_eq!(mon.end_cycle(cycle * 2), CycleVerdict::KeepPolling);
    }
    assert_eq!(attempts, vec![Some(1), Some(2), Some(3), None, None]);
    let mut budget = RecoveryBudget::new();
    assert_eq!(budget.try_spend("gateway"), Some(1));
    assert_eq!(budget.try_spend("ui"), Some(1));
}

#[test]
fn health_timeout_reports_unhealthy_with_logs() {
    let mut mon = HealthMonitor::new(vec!["brain".into(), "ui".into()]);
    mon.begin_cycle();
    mon.observe("brain", &pod("brain-1", vec![container(true, 0, None)]));
    mon.observe("ui", &pod("ui-1", vec![container(false, 0, None)]));
    mon.observe("ui", &pod("ui-2", vec![]));
    assert_eq!(mon.end_cycle(121), CycleVerdict::TimedOut);
    match mon.timeout_report(vec!["log a".into()]) {
        HealthEvent::Failed { unhealthy } => {
            assert_eq!(unhealthy.len(), 1);
            assert_eq!(unhealthy[0].name, "ui-1");
            assert_eq!(unhealthy[0].logs_tail.as_deref(), Some("log a"));
        }
        other => panic!("expected a failure report, got {:?}", other),
    }
}

fn pod_health(name: &str, ready: bool) -> PodHealth {
    PodHealth {
        name: name.into(),
        deployment: "brain".into(),
        ready,
        phase: "Running".into(),
        image: "img".into(),
        restarts: 0,
        error: None,
        logs_tail: None,
    }
}

#[test]
fn health_events_upsert_by_name() {
    let mut app = App::new("ns".into());
    handle_health_event(&mut app, HealthEvent::PodUpdate(pod_health("a", false)));
    handle_health_event(&mut app, HealthEvent::PodUpdate(pod_health("b", false)));
    handle_health_event(&mut app, HealthEvent::PodUpdate(pod_health("a", true)));
    assert_eq!(app.pod_statuses.len(), 2);
    assert!(app.pod_statuses[0].ready);
    handle_health_event(&mut app, HealthEvent::Failed { unhealthy: vec![pod_health("b", false), pod_health("c", false)] });
    assert_eq!(app.pod_statuses.len(), 3);
    assert!(app.health_done && app.health_failed);
    handle_health_event(&mut app, HealthEvent::AllHealthy);
    assert!(app.health_done && !app.health_failed);
}

#[test]
fn health_phase_starts_once_and_completes() {
    let mut app = preflighted(manifest(vec![img("brain", true), img("voice", false), img("ext-browser", false)], vec![]));
    app.phase = Phase::Health;
    match handle_auto_advance(&mut app, &cli(false)) {
        PhaseWork::Health(names) => assert_eq!(
            names,
            vec!["brain", "worker", "gateway", "ui", "nats", "qdrant", "voice", "ext-browser"]
        ),
        other => panic!("expected health work, got {:?}", other),
    }
    assert_eq!(app.pod_statuses[0].name, "(initializing)");
    assert!(matches!(handle_auto_advance(&mut app, &cli(false)), PhaseWork::Idle));
    handle_health_event(&mut app, HealthEvent::AllHealthy);
    handle_auto_advance(&mut app, &cli(false));
    assert_eq!(app.phase, Phase::Complete);
    assert!(handle_key(&mut app, Key::Char('o')));
    assert!(!app.should_quit);
    assert!(!handle_key(&mut app, Key::Char('q')));
    assert!(app.should_quit);
}

#[test]
fn rollout_readiness() {
    assert!(rollout_ready(Some(2), Some(2)));
    assert!(!rollout_ready(Some(2), Some(1)));
    assert!(!rollout_ready(None, None));
    assert!(rollout_ready(None, Some(1)));
    assert!(!rollout_ready(Some(0), Some(0)));
}

fn feature(id: &str, enabled: bool, secrets: Vec<(&str, Option<&str>)>) -> FeatureSelection {
    FeatureSelection {
        id: id.into(),
        name: id.into(),
        enabled,
        secrets: secrets.into_iter().map(|(k, v)| (k.to_string(), v.map(|s| s.to_string()))).collect(),
    }
}

fn config() -> InstallConfig {
    InstallConfig {
        oauth_token: Some("oauth".into()),
        api_key: None,
        voyage_api_key: Some("voy".into()),
        agent_name: "Baker".into(),
        auth_token: "tok".into(),
        features: vec![
            feature("telegram", true, vec![("TELEGRAM_BOT_TOKEN", Some("tg"))]),
            feature("github", true, vec![("GITHUB_TOKEN", Some("gh"))]),
            feature("perplexity", false, vec![("PERPLEXITY_API_KEY", Some("px"))]),
            feature("discord", true, vec![("DISCORD_BOT_TOKEN", None)]),
        ],
        namespace: "bakerst".into(),
    }
}

fn pairs(v: &[(String, String)]) -> Vec<(&str, &str)> {
    v.iter().map(|(k, v)| (k.as_str(), v.as_str())).collect()
}

#[test]
fn secrets_are_routed_to_groups() {
    let plan = plan_secrets(&config());
    let names: Vec<&str> = plan.iter().map(|g| g.name.as_str()).collect();
    assert_eq!(names, vec!["bakerst-brain-secrets", "bakerst-worker-secrets", "bakerst-github-secrets", "bakerst-gateway-secrets"]);
    assert_eq!(
        pairs(&plan[0].data),
        vec![("ANTHROPIC_OAUTH_TOKEN", "oauth"), ("VOYAGE_API_KEY", "voy"), ("AUTH_TOKEN", "tok"), ("AGENT_NAME", "Baker")]
    );
    assert_eq!(pairs(&plan[1].data), vec![("ANTHROPIC_OAUTH_TOKEN", "oauth"), ("AGENT_NAME", "Baker")]);
    assert_eq!(pairs(&plan[2].data), vec![("GITHUB_TOKEN", "gh")]);
    assert_eq!(pairs(&plan[3].data), vec![("AUTH_TOKEN", "tok"), ("TELEGRAM_BOT_TOKEN", "tg")]);
}

#[test]
fn secrets_with_perplexity_enabled() {
    let mut c = config();
    c.features[2].enabled = true;
    c.features.push(feature("telegram2", true, vec![("TELEGRAM_BOT_TOKEN", Some("tg2"))]));
    let plan = plan_secrets(&c);
    assert_eq!(plan.len(), 5);
    assert_eq!(plan[3].name, "bakerst-perplexity-secrets");
    assert_eq!(pairs(&plan[4].data), vec![("AUTH_TOKEN", "tok"), ("TELEGRAM_BOT_TOKEN", "tg2")]);
}

#[test]
fn template_vars_cover_images_and_flags() {
    let m = default_manifest();
    let vars = build_template_vars("ns", &m, &config());
    let get = |k: &str| vars.iter().find(|(key, _)| key == k).map(|(_, v)| v.clone());
    assert_eq!(get("NAMESPACE").as_deref(), Some("ns"));
    assert_eq!(get("VERSION").as_deref(), Some("local"));
    assert_eq!(get("DOOR_POLICY").as_deref(), Some("open"));
    assert_eq!(get("IMAGE_BRAIN").as_deref(), Some("bakerst-brain:latest"));
    assert_eq!(get("IMAGE_BROWSER").as_deref(), Some("bakerst-ext-browser:latest"));
    let brain = get("FEATURE_VARS").unwrap();
    assert_eq!(
        brain,
        "            - name: FEATURE_TELEGRAM\n              value: \"true\"\n            - name: FEATURE_DISCORD\n              value: \"true\"\n            - name: FEATURE_EXTENSIONS\n              value: \"true\"\n            - name: FEATURE_SCHEDULER\n              value: \"true\"\n            - name: FEATURE_MCP\n              value: \"true\""
    );
    let gw = get("GATEWAY_FEATURE_VARS").unwrap();
    assert_eq!(
        gw,
        "            - name: FEATURE_TELEGRAM\n              value: \"true\"\n            - name: FEATURE_DISCORD\n              value: \"true\""
    );
    assert_eq!(vars.len(), 14);
}

#[test]
fn upsert_replaces_existing_key() {
    let mut data = vec![("A".to_string(), "1".to_string()), ("B".to_string(), "2".to_string())];
    upsert(&mut data, "B".into(), "3".into());
    upsert(&mut data, "C".into(), "4".into());
    assert_eq!(pairs(&data), vec![("A", "1"), ("B", "3"), ("C", "4")]);
}

#[test]
fn text_helpers() {
    assert!(str_eq("abc", "abc"));
    assert!(!str_eq("abc", "abd"));
    assert!(contains_str("hello world", "o w"));
    assert!(contains_str("x", ""));
    assert!(!contains_str("", "x"));
    assert_eq!(replace_str("aaa", "aa", "b"), "ba");
}

#[test]
fn pull_job_permission_denied_has_no_retries() {
    let (mut job, started) = PullJob::start(3, "ghcr.io/test/brain:0.1.0".into());
    assert!(matches!(started, PullEvent::Started { index: 3, .. }));
    let (event, backoff) = job.failed("denied: permission denied");
    assert!(backoff.is_none());
    assert!(job.finished);
    match event {
        PullEvent::Failed { index, error, .. } => {
            assert_eq!(index, 3);
            assert_eq!(error, "docker config error (skipping retries): denied: permission denied");
        }
        other => panic!("expected a failure, got {:?}", other),
    }
}

#[test]
fn pull_job_transient_errors_take_three_attempts() {
    let (mut job, _) = PullJob::start(0, "img".into());
    let mut events = Vec::new();
    let mut waits = Vec::new();
    loop {
        let (event, backoff) = job.failed("net/http: TLS handshake timeout\n");
        events.push(event);
        match backoff {
            Some(secs) => waits.push(secs),
            None => break,
        }
    }
    assert_eq!(waits, vec![2, 4]);
    assert_eq!(events.len(), 3);
    assert!(matches!(events[0], PullEvent::Retrying { attempt: 2, .. }));
    assert!(matches!(events[1], PullEvent::Retrying { attempt: 3, .. }));
    assert!(matches!(&events[2], PullEvent::Failed { error, .. } if error == "net/http: TLS handshake timeout"));
    assert!(job.finished);
}

#[test]
fn pull_job_success_is_terminal() {
    let (mut job, _) = PullJob::start(1, "img".into());
    let event = job.succeeded(std::time::Duration::from_millis(1500));
    assert!(matches!(event, PullEvent::Completed { index: 1, .. }));
    assert!(job.finished);
    let (mut job, _) = PullJob::start(2, "img".into());
    let event = job.could_not_run("failed to run docker: not found".into());
    assert!(matches!(event, PullEvent::Failed { index: 2, .. }));
}
