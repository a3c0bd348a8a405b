use mycelium::helpers::manager::MyceliumConfig;
use mycelium::helpers::state::State;
use mycelium::objects::apply::ClusterChildren;
use mycelium::objects::minecraft_set::{MinecraftSet, MinecraftSetSpec, ProxyOptions};
use mycelium::objects::{
    ConfigOptions, ContainerOptions, EnvSource, EnvVar, Label, ObjectMeta,
    PersistentVolumeClaim, ReconcilePlan, RunnerOptions, VersionTriple, Volume,
};
use mycelium::Error;

fn test_config() -> MyceliumConfig {
    MyceliumConfig {
        forwarding_secret: "supersecret".to_string(),
        runner_image: "mycelium/runner:latest".to_string(),
    }
}

fn paper_runner() -> RunnerOptions {
    RunnerOptions {
        jar: VersionTriple {
            kind: "paper".to_string(),
            version: "1.19.3".to_string(),
            build: "123".to_string(),
        },
        jvm: Some("-Xmx2G".to_string()),
        config: None,
        plugins: None,
    }
}

fn plain_container() -> ContainerOptions {
    ContainerOptions {
        stateful: None,
        volume: None,
        volume_claim_template: None,
        node_selector: None,
    }
}

fn set_foo(replicas: i32) -> MinecraftSet {
    MinecraftSet {
        metadata: ObjectMeta {
            name: Some("foo".to_string()),
            namespace: Some("default".to_string()),
            uid: Some("uid-foo".to_string()),
            labels: None,
        },
        spec: MinecraftSetSpec {
            replicas,
            runner: paper_runner(),
            container: plain_container(),
            proxy: ProxyOptions { hostname: None, priority: None },
        },
    }
}

fn reconcile_foo(replicas: i32) -> ReconcilePlan {
    let mut state = State::new();
    let (plan, action) =
        mycelium::objects::minecraft_set::reconcile(&set_foo(replicas), &test_config(), &mut state, 7)
            .expect("reconcile");
    assert_eq!(state.last_event, 7);
    assert_eq!(action.requeue_after_secs, None);
    plan
}

fn env_value(plan: &ReconcilePlan, name: &str) -> Option<String> {
    plan.workload
        .template
        .env
        .iter()
        .find(|e| e.name == name)
        .and_then(|e| e.value.clone())
}

#[test]
fn create_set_emits_expected_children() {
    let plan = reconcile_foo(2);

    assert_eq!(plan.field_manager, "mycelium.njha.dev");
    assert_eq!(plan.namespace, "default");

    // the stateful workload
    assert_eq!(plan.workload.name, "foo");
    assert_eq!(plan.workload.replicas, 2);
    assert_eq!(plan.workload.service_name, "foo");
    assert_eq!(plan.workload.selector.len(), 1);
    assert_eq!(plan.workload.selector[0].key, "mycelium.njha.dev/mcset");
    assert_eq!(plan.workload.selector[0].value, "foo");
    assert_eq!(plan.workload.template.labels.len(), 1);
    assert_eq!(plan.workload.template.labels[0].key, "mycelium.njha.dev/mcset");
    assert_eq!(plan.workload.template.labels[0].value, "foo");
    assert_eq!(plan.workload.template.image, "mycelium/runner:latest");
    assert_eq!(plan.workload.template.image_pull_policy, "IfNotPresent");
    assert!(plan.workload.template.tty);
    assert!(plan.workload.template.stdin);
    let annotations: Vec<(String, String)> = plan
        .workload
        .template
        .annotations
        .iter()
        .map(|l| (l.key.clone(), l.value.clone()))
        .collect();
    assert_eq!(
        annotations,
        vec![
            ("prometheus.io/port".to_string(), "9970".to_string()),
            ("prometheus.io/scrape".to_string(), "true".to_string()),
        ]
    );

    // the headless service
    assert_eq!(plan.service.name, "foo");
    assert_eq!(plan.service.cluster_ip, "None");
    assert_eq!(plan.service.protocol, "TCP");
    assert_eq!(plan.service.port, 25565);
    assert_eq!(plan.service.target_port, 25565);
    assert_eq!(plan.service.selector, plan.workload.template.labels);

    // the disruption budget
    assert_eq!(plan.budget.name, "foo");
    assert_eq!(plan.budget.max_unavailable, 0);

    // the forwarding secret: base64(SHA-224("supersecret" + "default"))
    assert_eq!(plan.secret.name, "foo");
    assert_eq!(plan.secret.key, "forwarding_token");
    assert_eq!(plan.secret.value, "KDKfDaqjx6ik/QjhDGDxmefmKwMMyIuz7dzW1Q==");

    // the runner environment
    assert_eq!(env_value(&plan, "MYCELIUM_RUNNER_KIND"), Some("game".to_string()));
    assert_eq!(env_value(&plan, "MYCELIUM_JVM_OPTS"), Some("-Xmx2G".to_string()));
    assert_eq!(
        env_value(&plan, "MYCELIUM_RUNNER_JAR_URL"),
        Some(
            "https://papermc.io/api/v2/projects/paper/versions/1.19.3/builds/123/downloads/paper-1.19.3-123.jar"
                .to_string()
        )
    );
    let fw = plan
        .workload
        .template
        .env
        .iter()
        .find(|e| e.name == "MYCELIUM_FW_TOKEN")
        .expect("fw token env");
    assert_eq!(fw.value, None);
    match &fw.value_from {
        Some(EnvSource::SecretKeyRef { name, key, optional }) => {
            assert_eq!(name, "foo");
            assert_eq!(key, "forwarding_token");
            assert!(!optional);
        }
        other => panic!("unexpected forwarding token source: {:?}", other),
    }
}

#[test]
fn every_child_carries_one_controller_owner_reference() {
    let plan = reconcile_foo(2);
    for owners in [
        &plan.budget.owner_references,
        &plan.workload.owner_references,
        &plan.service.owner_references,
        &plan.secret.owner_references,
    ] {
        assert_eq!(owners.len(), 1);
        assert!(owners[0].controller);
        assert_eq!(owners[0].name, "foo");
        assert_eq!(owners[0].uid, "uid-foo");
        assert_eq!(owners[0].kind, "MinecraftSet");
        assert_eq!(owners[0].api_version, "mycelium.njha.dev/v1beta1");
    }
}

#[test]
fn reconcile_is_deterministic_across_runs() {
    let first = reconcile_foo(2);
    let second = reconcile_foo(2);
    assert_eq!(first, second);
}

#[test]
fn reapplying_the_same_plan_changes_nothing() {
    let plan = reconcile_foo(2);
    let mut cluster = ClusterChildren::new();
    cluster.apply_plan(plan.clone());
    let after_first = cluster.clone();
    cluster.apply_plan(plan);
    assert_eq!(cluster, after_first);
}

#[test]
fn deleting_the_owner_collects_all_children() {
    let plan = reconcile_foo(2);
    let mut cluster = ClusterChildren::new();
    cluster.apply_plan(plan);
    cluster.garbage_collect(&"uid-foo".to_string());
    assert_eq!(cluster, ClusterChildren::new());
}

#[test]
fn garbage_collection_spares_children_of_other_owners() {
    let plan = reconcile_foo(2);
    let mut cluster = ClusterChildren::new();
    cluster.apply_plan(plan);
    let before = cluster.clone();
    cluster.garbage_collect(&"uid-unrelated".to_string());
    assert_eq!(cluster, before);
}

#[test]
fn zero_replicas_still_applies_workload_and_budget() {
    let plan = reconcile_foo(0);
    assert_eq!(plan.workload.replicas, 0);
    assert_eq!(plan.budget.max_unavailable, 0);
    let mut cluster = ClusterChildren::new();
    cluster.apply_plan(plan);
    assert!(cluster.workload.is_some());
    assert!(cluster.budget.is_some());
}

#[test]
fn missing_namespace_is_a_structural_error() {
    let mut set = set_foo(1);
    set.metadata.namespace = None;
    let mut state = State::new();
    let err = mycelium::objects::minecraft_set::reconcile(&set, &test_config(), &mut state, 1)
        .expect_err("reconcile must fail");
    assert_eq!(err, Error::MyceliumError("failed to get namespace".to_string()));
    assert_eq!(state.last_event, 1);
}

#[test]
fn missing_name_is_a_structural_error() {
    let mut set = set_foo(1);
    set.metadata.name = None;
    let mut state = State::new();
    let err = mycelium::objects::minecraft_set::reconcile(&set, &test_config(), &mut state, 1)
        .expect_err("reconcile must fail");
    assert_eq!(err, Error::MyceliumError("failed to get name".to_string()));
}

#[test]
fn missing_uid_is_a_structural_error() {
    let mut set = set_foo(1);
    set.metadata.uid = None;
    let mut state = State::new();
    let err = mycelium::objects::minecraft_set::reconcile(&set, &test_config(), &mut state, 1)
        .expect_err("reconcile must fail");
    assert_eq!(err, Error::MyceliumError("failed to get uid".to_string()));
}

#[test]
fn unnamed_claim_template_is_a_structural_error() {
    let mut set = set_foo(1);
    set.spec.container.volume_claim_template = Some(PersistentVolumeClaim { name: None });
    let mut state = State::new();
    let err = mycelium::objects::minecraft_set::reconcile(&set, &test_config(), &mut state, 1)
        .expect_err("reconcile must fail");
    assert_eq!(err, Error::MyceliumError("volumeClaimTemplate name".to_string()));
}

#[test]
fn config_entries_mount_under_config() {
    let mut set = set_foo(1);
    set.spec.runner.config = Some(vec![ConfigOptions {
        name: "server-settings".to_string(),
        path: "server.properties".to_string(),
    }]);
    let mut state = State::new();
    let (plan, _) =
        mycelium::objects::minecraft_set::reconcile(&set, &test_config(), &mut state, 1)
            .expect("reconcile");
    let mounts = &plan.workload.template.volume_mounts;
    assert_eq!(mounts.len(), 1);
    assert_eq!(mounts[0].name, "server-settings");
    assert_eq!(mounts[0].mount_path, "/config/server.properties");
    let volumes = &plan.workload.template.volumes;
    assert_eq!(volumes.len(), 1);
    assert_eq!(volumes[0].name, "server-settings");
    assert_eq!(volumes[0].config_map, Some("server-settings".to_string()));
}

#[test]
fn claim_template_overrides_bare_volume() {
    let mut set = set_foo(1);
    set.spec.container.volume = Some(Volume { name: "scratch".to_string(), config_map: None });
    set.spec.container.volume_claim_template =
        Some(PersistentVolumeClaim { name: Some("data".to_string()) });
    let mut state = State::new();
    let (plan, _) =
        mycelium::objects::minecraft_set::reconcile(&set, &test_config(), &mut state, 1)
            .expect("reconcile");
    // the claim is emitted and mounted at /data; the bare volume is ignored
    assert_eq!(plan.workload.volume_claim_templates.len(), 1);
    assert_eq!(plan.workload.volume_claim_templates[0].name, Some("data".to_string()));
    let mounts = &plan.workload.template.volume_mounts;
    assert_eq!(mounts.len(), 1);
    assert_eq!(mounts[0].name, "data");
    assert_eq!(mounts[0].mount_path, "/data");
    assert!(plan.workload.template.volumes.is_empty());
}

#[test]
fn bare_volume_mounts_at_data_without_claim() {
    let mut set = set_foo(1);
    set.spec.container.volume = Some(Volume { name: "scratch".to_string(), config_map: None });
    let mut state = State::new();
    let (plan, _) =
        mycelium::objects::minecraft_set::reconcile(&set, &test_config(), &mut state, 1)
            .expect("reconcile");
    assert!(plan.workload.volume_claim_templates.is_empty());
    let mounts = &plan.workload.template.volume_mounts;
    assert_eq!(mounts.len(), 1);
    assert_eq!(mounts[0].name, "scratch");
    assert_eq!(mounts[0].mount_path, "/data");
    assert_eq!(plan.workload.template.volumes.len(), 1);
    assert_eq!(plan.workload.template.volumes[0].name, "scratch");
}

#[test]
fn node_selector_reaches_the_pod_template() {
    let mut set = set_foo(1);
    set.spec.container.node_selector = Some(vec![Label {
        key: "kubernetes.io/arch".to_string(),
        value: "arm64".to_string(),
    }]);
    let mut state = State::new();
    let (plan, _) =
        mycelium::objects::minecraft_set::reconcile(&set, &test_config(), &mut state, 1)
            .expect("reconcile");
    let selector = plan.workload.template.node_selector.expect("node selector");
    assert_eq!(selector.len(), 1);
    assert_eq!(selector[0].key, "kubernetes.io/arch");
    assert_eq!(selector[0].value, "arm64");

    let plain = reconcile_foo(1);
    assert_eq!(plain.workload.template.node_selector, None);
}

#[test]
fn plugins_are_comma_joined_into_env() {
    let mut set = set_foo(1);
    set.spec.runner.plugins = Some(vec![
        "https://example.test/a.jar".to_string(),
        "https://example.test/b.jar".to_string(),
    ]);
    let mut state = State::new();
    let (plan, _) =
        mycelium::objects::minecraft_set::reconcile(&set, &test_config(), &mut state, 1)
            .expect("reconcile");
    assert_eq!(
        env_value(&plan, "MYCELIUM_PLUGINS"),
        Some("https://example.test/a.jar,https://example.test/b.jar".to_string())
    );
}

#[test]
fn reserved_env_precedes_caller_extras() {
    let plan = reconcile_foo(1);
    let names: Vec<String> = plan.workload.template.env.iter().map(|e| e.name.clone()).collect();
    assert_eq!(
        &names[..3],
        &[
            "MYCELIUM_JVM_OPTS".to_string(),
            "MYCELIUM_FW_TOKEN".to_string(),
            "MYCELIUM_RUNNER_JAR_URL".to_string(),
        ]
    );
}

#[test]
fn error_policy_requeues_after_360_seconds() {
    let err = Error::KubeError("api down".to_string());
    let action = mycelium::helpers::manager::error_policy(&err);
    assert_eq!(action.requeue_after_secs, Some(360));
}

#[test]
fn state_records_the_latest_event() {
    let mut state = State::new();
    state.record_event(123_456);
    assert_eq!(state.last_event, 123_456);
    state.record_event(123_999);
    assert_eq!(state.last_event, 123_999);
}

#[test]
fn error_messages_are_reachable() {
    let e = Error::KubeError("api down".to_string());
    assert_eq!(e.message(), "api down");
    let e = Error::MyceliumError("structural".to_string());
    assert_eq!(e.message(), "structural");
    let e = Error::SerializationError("bad json".to_string());
    assert_eq!(e.message(), "bad json");
    let e = Error::ReqwestError("timeout".to_string());
    assert_eq!(e.message(), "timeout");
    let e = Error::VarError("MYCELIUM_FW_TOKEN".to_string());
    assert_eq!(e.message(), "MYCELIUM_FW_TOKEN");
    let e = Error::Other("anything".to_string());
    assert_eq!(e.message(), "anything");
}
