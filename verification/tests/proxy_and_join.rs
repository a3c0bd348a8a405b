use mycelium::helpers::manager::{get_sets, proxy_selects, selector_string, MyceliumConfig};
use mycelium::helpers::state::State;
use mycelium::objects::minecraft_proxy::{
    LabelSelector, MinecraftProxy, MinecraftProxySpec,
};
use mycelium::objects::minecraft_set::{MinecraftSet, MinecraftSetSpec, ProxyOptions};
use mycelium::objects::{
    ContainerOptions, EnvSource, Label, ObjectMeta, RunnerOptions, VersionTriple,
};

fn test_config() -> MyceliumConfig {
    MyceliumConfig {
        forwarding_secret: "supersecret".to_string(),
        runner_image: "mycelium/runner:latest".to_string(),
    }
}

fn velocity_runner() -> RunnerOptions {
    RunnerOptions {
        jar: VersionTriple {
            kind: "velocity".to_string(),
            version: "3.1.2".to_string(),
            build: "45".to_string(),
        },
        jvm: None,
        config: None,
        plugins: None,
    }
}

fn label(key: &str, value: &str) -> Label {
    Label { key: key.to_string(), value: value.to_string() }
}

fn proxy_bar(selector: Option<LabelSelector>) -> MinecraftProxy {
    MinecraftProxy {
        metadata: ObjectMeta {
            name: Some("bar".to_string()),
            namespace: Some("default".to_string()),
            uid: Some("uid-bar".to_string()),
            labels: None,
        },
        spec: MinecraftProxySpec {
            replicas: 1,
            runner: velocity_runner(),
            container: None,
            selector,
        },
    }
}

fn tier_prod_selector() -> Option<LabelSelector> {
    Some(LabelSelector { match_labels: Some(vec![label("tier", "prod")]) })
}

fn labeled_set(name: &str, ns: &str, replicas: i32, hostname: Option<&str>) -> MinecraftSet {
    MinecraftSet {
        metadata: ObjectMeta {
            name: Some(name.to_string()),
            namespace: Some(ns.to_string()),
            uid: Some(format!("uid-{}", name)),
            labels: Some(vec![label("tier", "prod")]),
        },
        spec: MinecraftSetSpec {
            replicas,
            runner: velocity_runner(),
            container: ContainerOptions {
                stateful: None,
                volume: None,
                volume_claim_template: None,
                node_selector: None,
            },
            proxy: ProxyOptions {
                hostname: hostname.map(|h| h.to_string()),
                priority: None,
            },
        },
    }
}

#[test]
fn create_proxy_emits_expected_children() {
    let proxy = proxy_bar(tier_prod_selector());
    let mut state = State::new();
    let (plan, action) = mycelium::objects::minecraft_proxy::reconcile(
        &proxy,
        &test_config(),
        &mut state,
        11,
        "0.3.1",
        "http://operator.test:8080",
    )
    .expect("reconcile");
    assert_eq!(state.last_event, 11);
    assert_eq!(action.requeue_after_secs, None);

    assert_eq!(plan.workload.name, "bar");
    assert_eq!(plan.workload.replicas, 1);
    assert_eq!(plan.workload.template.labels.len(), 1);
    assert_eq!(plan.workload.template.labels[0].key, "mycelium.njha.dev/mcproxy");
    assert_eq!(plan.workload.template.labels[0].value, "bar");
    assert_eq!(plan.service.port, 25565);
    assert_eq!(plan.service.target_port, 25577);

    let env = &plan.workload.template.env;
    let value_of = |name: &str| {
        env.iter().find(|e| e.name == name).and_then(|e| e.value.clone())
    };
    assert_eq!(value_of("MYCELIUM_RUNNER_KIND"), Some("proxy".to_string()));
    assert_eq!(value_of("MYCELIUM_ENDPOINT"), Some("http://operator.test:8080".to_string()));
    assert_eq!(
        value_of("MYCELIUM_PLUGINS"),
        Some(
            "https://www.ocf.berkeley.edu/~njha/artifacts/mycelium-velocity-plugin-0.3.1-all.jar"
                .to_string()
        )
    );
    assert_eq!(
        value_of("MYCELIUM_RUNNER_JAR_URL"),
        Some(
            "https://papermc.io/api/v2/projects/velocity/versions/3.1.2/builds/45/downloads/velocity-3.1.2-45.jar"
                .to_string()
        )
    );

    let ns_entry = env.iter().find(|e| e.name == "K8S_NAMESPACE").expect("K8S_NAMESPACE");
    assert_eq!(ns_entry.value, None);
    match &ns_entry.value_from {
        Some(EnvSource::FieldRef { field_path }) => assert_eq!(field_path, "metadata.namespace"),
        other => panic!("unexpected source: {:?}", other),
    }
    let name_entry = env.iter().find(|e| e.name == "K8S_NAME").expect("K8S_NAME");
    // downward-API only: an env entry must not carry a literal value as well
    assert_eq!(name_entry.value, None);
    match &name_entry.value_from {
        Some(EnvSource::FieldRef { field_path }) => assert_eq!(field_path, "metadata.name"),
        other => panic!("unexpected source: {:?}", other),
    }
}

#[test]
fn proxy_plugins_keep_user_entries_before_discovery_plugin() {
    let mut proxy = proxy_bar(tier_prod_selector());
    proxy.spec.runner.plugins = Some(vec!["https://example.test/extra.jar".to_string()]);
    let mut state = State::new();
    let (plan, _) = mycelium::objects::minecraft_proxy::reconcile(
        &proxy,
        &test_config(),
        &mut state,
        1,
        "0.3.1",
        "http://operator.test:8080",
    )
    .expect("reconcile");
    let plugins = plan
        .workload
        .template
        .env
        .iter()
        .find(|e| e.name == "MYCELIUM_PLUGINS")
        .and_then(|e| e.value.clone())
        .expect("plugins env");
    assert_eq!(
        plugins,
        "https://example.test/extra.jar,https://www.ocf.berkeley.edu/~njha/artifacts/mycelium-velocity-plugin-0.3.1-all.jar"
    );
}

#[test]
fn join_query_flattens_matching_sets() {
    let proxy = proxy_bar(tier_prod_selector());
    let sets = vec![
        labeled_set("a", "default", 2, Some("a.example")),
        labeled_set("b", "default", 1, None),
    ];
    let entries = get_sets(&proxy, &sets);
    assert_eq!(entries.len(), 3);

    assert_eq!(entries[0].address, "a-0.a.default.svc.cluster.local");
    assert_eq!(entries[0].name, "a-0");
    assert_eq!(entries[0].host, Some("a.example".to_string()));

    assert_eq!(entries[1].address, "a-1.a.default.svc.cluster.local");
    assert_eq!(entries[1].name, "a-1");
    assert_eq!(entries[1].host, Some("a.example".to_string()));

    assert_eq!(entries[2].address, "b-0.b.default.svc.cluster.local");
    assert_eq!(entries[2].name, "b-0");
    assert_eq!(entries[2].host, None);
}

#[test]
fn join_skips_sets_the_selector_does_not_match() {
    let proxy = proxy_bar(tier_prod_selector());
    let mut other = labeled_set("c", "default", 3, None);
    other.metadata.labels = Some(vec![label("tier", "dev")]);
    let sets = vec![labeled_set("a", "default", 1, None), other];
    let entries = get_sets(&proxy, &sets);
    assert_eq!(entries.len(), 1);
    assert_eq!(entries[0].name, "a-0");
}

#[test]
fn empty_match_labels_selects_nothing() {
    let proxy = proxy_bar(Some(LabelSelector { match_labels: Some(vec![]) }));
    let sets = vec![labeled_set("a", "default", 2, None)];
    assert!(get_sets(&proxy, &sets).is_empty());
}

#[test]
fn absent_selector_selects_nothing() {
    let proxy = proxy_bar(None);
    let sets = vec![labeled_set("a", "default", 2, None)];
    assert!(get_sets(&proxy, &sets).is_empty());

    let proxy = proxy_bar(Some(LabelSelector { match_labels: None }));
    assert!(get_sets(&proxy, &sets).is_empty());
}

#[test]
fn zero_replica_set_contributes_no_entries() {
    let proxy = proxy_bar(tier_prod_selector());
    let sets = vec![labeled_set("a", "default", 0, None)];
    assert!(get_sets(&proxy, &sets).is_empty());
}

#[test]
fn selector_requires_every_pair() {
    let proxy = proxy_bar(Some(LabelSelector {
        match_labels: Some(vec![label("tier", "prod"), label("env", "live")]),
    }));
    let only_tier = labeled_set("a", "default", 1, None);
    assert!(!proxy_selects(&proxy, &only_tier));

    let mut both = labeled_set("b", "default", 1, None);
    both.metadata.labels = Some(vec![label("env", "live"), label("tier", "prod")]);
    assert!(proxy_selects(&proxy, &both));
}

#[test]
fn priority_is_passed_through() {
    let proxy = proxy_bar(tier_prod_selector());
    let mut set = labeled_set("a", "default", 1, None);
    set.spec.proxy.priority = Some(7);
    let entries = get_sets(&proxy, &vec![set]);
    assert_eq!(entries[0].priority, Some(7));
}

#[test]
fn selector_string_joins_equality_terms() {
    assert_eq!(
        selector_string(&vec![label("tier", "prod"), label("env", "live")]),
        "tier=prod,env=live"
    );
    assert_eq!(selector_string(&vec![label("tier", "prod")]), "tier=prod");
    assert_eq!(selector_string(&vec![]), "");
}
