use mycelium::helpers::manager::MyceliumConfig;
use mycelium::helpers::state::State;
use mycelium::objects::apply::eviction_allowed;
use mycelium::objects::minecraft_set::{MinecraftSet, MinecraftSetSpec, ProxyOptions};
use mycelium::objects::{
    ContainerOptions, DisruptionBudget, Label, ObjectMeta, RunnerOptions, VersionTriple,
};

fn label(key: &str, value: &str) -> Label {
    Label { key: key.to_string(), value: value.to_string() }
}

fn budget_for_foo() -> DisruptionBudget {
    let set = MinecraftSet {
        metadata: ObjectMeta {
            name: Some("foo".to_string()),
            namespace: Some("default".to_string()),
            uid: Some("uid-foo".to_string()),
            labels: None,
        },
        spec: MinecraftSetSpec {
            replicas: 2,
            runner: RunnerOptions {
                jar: VersionTriple {
                    kind: "paper".to_string(),
                    version: "1.19.3".to_string(),
                    build: "123".to_string(),
                },
                jvm: None,
                config: None,
                plugins: None,
            },
            container: ContainerOptions {
                stateful: None,
                volume: None,
                volume_claim_template: None,
                node_selector: None,
            },
            proxy: ProxyOptions { hostname: None, priority: None },
        },
    };
    let config = MyceliumConfig {
        forwarding_secret: "supersecret".to_string(),
        runner_image: "img".to_string(),
    };
    let mut state = State::new();
    let (plan, _) =
        mycelium::objects::minecraft_set::reconcile(&set, &config, &mut state, 1).expect("plan");
    plan.budget
}

#[test]
fn budget_selector_narrows_pod_labels_by_destroyable_false() {
    let budget = budget_for_foo();
    assert_eq!(budget.max_unavailable, 0);
    let pairs: Vec<(String, String)> =
        budget.selector.iter().map(|l| (l.key.clone(), l.value.clone())).collect();
    assert_eq!(
        pairs,
        vec![
            ("mycelium.njha.dev/mcset".to_string(), "foo".to_string()),
            ("mycelium.njha.dev/destroyable".to_string(), "false".to_string()),
        ]
    );
}

#[test]
fn eviction_of_unmarked_pod_is_denied() {
    let budget = budget_for_foo();
    let pod = vec![label("mycelium.njha.dev/mcset", "foo")];
    assert!(!eviction_allowed(&budget, &pod));
}

#[test]
fn eviction_of_explicitly_protected_pod_is_denied() {
    let budget = budget_for_foo();
    let pod = vec![
        label("mycelium.njha.dev/mcset", "foo"),
        label("mycelium.njha.dev/destroyable", "false"),
    ];
    assert!(!eviction_allowed(&budget, &pod));
}

#[test]
fn destroyable_label_permits_eviction() {
    let budget = budget_for_foo();
    let pod = vec![
        label("mycelium.njha.dev/mcset", "foo"),
        label("mycelium.njha.dev/destroyable", "true"),
    ];
    assert!(eviction_allowed(&budget, &pod));
}

#[test]
fn foreign_pods_are_not_covered_by_the_budget() {
    let budget = budget_for_foo();
    let pod = vec![label("mycelium.njha.dev/mcset", "bar")];
    assert!(eviction_allowed(&budget, &pod));
}
