use vstd::prelude::*;
use vstd::string::StringExecFns;

use crate::helpers::manager::{MyceliumConfig, MyceliumConfigView, ReconcilerAction};
use crate::helpers::state::State;
use crate::objects::minecraft_set::{crd_api_version, plugin_urls, plugins_of};
use crate::objects::{
    env_views, generic_reconcile, label_views, ContainerOptions, ContainerOptionsView, EnvSource,
    EnvSourceView, EnvVar, EnvVarView, Label, LabelView, ObjectMeta, ObjectMetaView, plan_of,
    ReconcileInputView, ReconcilePlan, RunnerOptions, RunnerOptionsView,
};
use crate::text::{comma_join, join_comma};
use crate::Error;

verus! {

/// The label selector of a proxy, restricted to `matchLabels`.
#[derive(Debug, Clone, PartialEq, Eq)]
pub struct LabelSelector {
    pub match_labels: Option<Vec<Label>>,
}

pub struct LabelSelectorView {
    pub match_labels: Option<Seq<LabelView>>,
}

impl View for LabelSelector {
    type V = LabelSelectorView;

    open spec fn view(&self) -> LabelSelectorView {
        LabelSelectorView {
            match_labels: match self.match_labels {
                Some(m) => Some(label_views(m@)),
                None => None,
            },
        }
    }
}

/// The spec of a MinecraftProxy: a pool of gateway proxies that route
/// players to the backends its selector matches.
#[derive(Debug, Clone, PartialEq, Eq)]
pub struct MinecraftProxySpec {
    /// Number of identical proxies to create.
    pub replicas: i32,
    /// Options for the server runner.
    pub runner: RunnerOptions,
    /// Options for Kubernetes.
    pub container: Option<ContainerOptions>,
    /// Which MinecraftSets to add to this proxy (only matchLabels is
    /// supported).
    pub selector: Option<LabelSelector>,
}

pub struct MinecraftProxySpecView {
    pub replicas: i32,
    pub runner: RunnerOptionsView,
    pub container: Option<ContainerOptionsView>,
    pub selector: Option<LabelSelectorView>,
}

impl View for MinecraftProxySpec {
    type V = MinecraftProxySpecView;

    open spec fn view(&self) -> MinecraftProxySpecView {
        MinecraftProxySpecView {
            replicas: self.replicas,
            runner: self.runner@,
            container: match self.container {
                Some(c) => Some(c@),
                None => None,
            },
            selector: match self.selector {
                Some(s) => Some(s@),
                None => None,
            },
        }
    }
}

/// The MinecraftProxy custom resource: metadata and spec.
#[derive(Debug, Clone, PartialEq, Eq)]
pub struct MinecraftProxy {
    pub metadata: ObjectMeta,
    pub spec: MinecraftProxySpec,
}

pub struct MinecraftProxyView {
    pub metadata: ObjectMetaView,
    pub spec: MinecraftProxySpecView,
}

impl View for MinecraftProxy {
    type V = MinecraftProxyView;

    open spec fn view(&self) -> MinecraftProxyView {
        MinecraftProxyView { metadata: self.metadata@, spec: self.spec@ }
    }
}

/// The URL of the proxy-side discovery plugin, versioned to the operator's
/// own version: the client through which a proxy pod fetches its backend
/// list.
pub open spec fn discovery_plugin_url_of(operator_version: Seq<char>) -> Seq<char> {
    "https://www.ocf.berkeley.edu/~njha/artifacts/mycelium-velocity-plugin-"@ + operator_version
        + "-all.jar"@
}

/// Builds the discovery plugin URL for this operator version.
pub fn discovery_plugin_url(operator_version: &str) -> (r: String)
    ensures
        r@ == discovery_plugin_url_of(operator_version@),
{
    let mut r = String::new();
    r.append("https://www.ocf.berkeley.edu/~njha/artifacts/mycelium-velocity-plugin-");
    r.append(operator_version);
    r.append("-all.jar");
    r
}

/// The container options of a proxy, defaulted when absent.
pub open spec fn proxy_container_of(spec: MinecraftProxySpecView) -> ContainerOptionsView {
    match spec.container {
        Some(c) => c,
        None => ContainerOptionsView {
            stateful: None,
            volume: None,
            volume_claim_template: None,
            node_selector: None,
        },
    }
}

/// The five extra environment entries of a proxy: the runner kind, the
/// plugin list with the operator-appended discovery plugin, the operator
/// endpoint, and the two downward-API entries that tell a proxy pod which
/// MinecraftProxy it belongs to.
pub open spec fn proxy_extra_env_of(
    runner: RunnerOptionsView,
    operator_version: Seq<char>,
    endpoint: Seq<char>,
) -> Seq<EnvVarView> {
    seq![
        (EnvVarView { name: "MYCELIUM_RUNNER_KIND"@, value: Some("proxy"@), value_from: None }),
        (EnvVarView {
            name: "MYCELIUM_PLUGINS"@,
            value: Some(
                comma_join(plugins_of(runner) + seq![discovery_plugin_url_of(operator_version)]),
            ),
            value_from: None,
        }),
        (EnvVarView { name: "MYCELIUM_ENDPOINT"@, value: Some(endpoint), value_from: None }),
        (EnvVarView {
            name: "K8S_NAMESPACE"@,
            value: None,
            value_from: Some(EnvSourceView::FieldRef { field_path: "metadata.namespace"@ }),
        }),
        (EnvVarView {
            name: "K8S_NAME"@,
            value: None,
            value_from: Some(EnvSourceView::FieldRef { field_path: "metadata.name"@ }),
        }),
    ]
}

/// The reconcile input a MinecraftProxy determines, once its identity is
/// resolved.
pub open spec fn proxy_reconcile_input_of(
    cr: MinecraftProxyView,
    config: MyceliumConfigView,
    operator_version: Seq<char>,
    endpoint: Seq<char>,
) -> ReconcileInputView {
    ReconcileInputView {
        extra_env: proxy_extra_env_of(cr.spec.runner, operator_version, endpoint),
        port: 25577,
        config: config,
        shortname: "mcproxy"@,
        api_version: crd_api_version(),
        kind: "MinecraftProxy"@,
        name: cr.metadata.name->0,
        namespace: cr.metadata.namespace->0,
        uid: cr.metadata.uid->0,
        container: proxy_container_of(cr.spec),
        runner: cr.spec.runner,
        replicas: cr.spec.replicas,
    }
}

/// One reconcile of a MinecraftProxy: assembles the proxy environment —
/// including the discovery plugin versioned to this operator and the
/// endpoint proxies call back to — and hands the resource to the generic
/// routine with port 25577 under the `mcproxy` shortname. The caller
/// applies the returned plan and measures the pass.
pub fn reconcile(
    mcproxy: &MinecraftProxy,
    config: &MyceliumConfig,
    state: &mut State,
    now: i64,
    operator_version: &str,
    endpoint: &str,
) -> (r: Result<(ReconcilePlan, ReconcilerAction), Error>)
    ensures
        final(state).last_event == now,
        r is Ok <==> mcproxy.metadata.namespace is Some && mcproxy.metadata.name is Some
            && mcproxy.metadata.uid is Some && (match mcproxy.spec.container {
            Some(c) => match c.volume_claim_template {
                Some(t) => t.name is Some,
                None => true,
            },
            None => true,
        }),
        r is Ok ==> r->Ok_0.0@ == plan_of(
            proxy_reconcile_input_of(mcproxy@, config@, operator_version@, endpoint@),
        ),
        r is Ok ==> r->Ok_0.1.requeue_after_secs is None,
        r is Err ==> r->Err_0 is MyceliumError,
        mcproxy.metadata.namespace is None ==> r->Err_0.message_view()
            == "failed to get namespace"@,
        mcproxy.metadata.namespace is Some && mcproxy.metadata.name is None
            ==> r->Err_0.message_view() == "failed to get name"@,
        mcproxy.metadata.namespace is Some && mcproxy.metadata.name is Some
            && mcproxy.metadata.uid is None ==> r->Err_0.message_view()
            == "failed to get uid"@,
        mcproxy.metadata.namespace is Some && mcproxy.metadata.name is Some
            && mcproxy.metadata.uid is Some && r is Err ==> r->Err_0.message_view()
            == "volumeClaimTemplate name"@,
{
    let mut extra: Vec<EnvVar> = Vec::new();
    let mut kind_name = String::new();
    kind_name.append("MYCELIUM_RUNNER_KIND");
    let mut kind_value = String::new();
    kind_value.append("proxy");
    extra.push(EnvVar { name: kind_name, value: Some(kind_value), value_from: None });

    let mut plugins_name = String::new();
    plugins_name.append("MYCELIUM_PLUGINS");
    let mut plugins = plugin_urls(&mcproxy.spec.runner);
    plugins.push(discovery_plugin_url(operator_version));
    extra.push(EnvVar { name: plugins_name, value: Some(join_comma(&plugins)), value_from: None });
    proof {
        assert(plugins@.map_values(|s: String| s@) =~= plugins_of(mcproxy.spec.runner@) + seq![
            discovery_plugin_url_of(operator_version@),
        ]);
    }

    let mut endpoint_name = String::new();
    endpoint_name.append("MYCELIUM_ENDPOINT");
    let mut endpoint_value = String::new();
    endpoint_value.append(endpoint);
    extra.push(EnvVar { name: endpoint_name, value: Some(endpoint_value), value_from: None });

    let mut ns_name = String::new();
    ns_name.append("K8S_NAMESPACE");
    let mut ns_path = String::new();
    ns_path.append("metadata.namespace");
    extra.push(
        EnvVar {
            name: ns_name,
            value: None,
            value_from: Some(EnvSource::FieldRef { field_path: ns_path }),
        },
    );

    let mut name_name = String::new();
    name_name.append("K8S_NAME");
    let mut name_path = String::new();
    name_path.append("metadata.name");
    extra.push(
        EnvVar {
            name: name_name,
            value: None,
            value_from: Some(EnvSource::FieldRef { field_path: name_path }),
        },
    );

    let empty_container = ContainerOptions {
        stateful: None,
        volume: None,
        volume_claim_template: None,
        node_selector: None,
    };
    let container: &ContainerOptions = match &mcproxy.spec.container {
        Some(c) => c,
        None => &empty_container,
    };

    proof {
        assert(env_views(extra@) =~= proxy_extra_env_of(
            mcproxy.spec.runner@,
            operator_version@,
            endpoint@,
        ));
    }

    let plan = generic_reconcile(
        extra,
        25577,
        config,
        state,
        now,
        "mcproxy",
        "mycelium.njha.dev/v1beta1",
        "MinecraftProxy",
        &mcproxy.metadata,
        container,
        &mcproxy.spec.runner,
        mcproxy.spec.replicas,
    )?;

    Ok((plan, ReconcilerAction { requeue_after_secs: None }))
}

} // verus!
