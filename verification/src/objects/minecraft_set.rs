use vstd::prelude::*;
use vstd::string::StringExecFns;

use crate::helpers::manager::{MyceliumConfig, ReconcilerAction};
use crate::helpers::state::State;
use crate::objects::{
    env_views, generic_reconcile, opt_view, plan_of, ContainerOptions, ContainerOptionsView,
    EnvVar, EnvVarView, ObjectMeta, ObjectMetaView, ReconcileInputView, ReconcilePlan,
    RunnerOptions, RunnerOptionsView,
};
use crate::text::{comma_join, join_comma};
use crate::Error;

verus! {

/// Options a MinecraftSet passes to the proxies that select it.
#[derive(Debug, Clone, PartialEq, Eq)]
pub struct ProxyOptions {
    /// Configures the proxy to create a forced host for the MinecraftSet.
    pub hostname: Option<String>,
    /// Priority of the set in the proxy's default try list.
    pub priority: Option<u32>,
}

pub struct ProxyOptionsView {
    pub hostname: Option<Seq<char>>,
    pub priority: Option<u32>,
}

impl View for ProxyOptions {
    type V = ProxyOptionsView;

    open spec fn view(&self) -> ProxyOptionsView {
        ProxyOptionsView { hostname: opt_view(self.hostname), priority: self.priority }
    }
}

/// The spec of a MinecraftSet: a group of identical game backends.
#[derive(Debug, Clone, PartialEq, Eq)]
pub struct MinecraftSetSpec {
    /// Number of identical servers to create.
    pub replicas: i32,
    /// Options for the server runner.
    pub runner: RunnerOptions,
    /// Options for Kubernetes.
    pub container: ContainerOptions,
    /// Options to pass to proxies that select this MinecraftSet.
    pub proxy: ProxyOptions,
}

pub struct MinecraftSetSpecView {
    pub replicas: i32,
    pub runner: RunnerOptionsView,
    pub container: ContainerOptionsView,
    pub proxy: ProxyOptionsView,
}

impl View for MinecraftSetSpec {
    type V = MinecraftSetSpecView;

    open spec fn view(&self) -> MinecraftSetSpecView {
        MinecraftSetSpecView {
            replicas: self.replicas,
            runner: self.runner@,
            container: self.container@,
            proxy: self.proxy@,
        }
    }
}

/// The MinecraftSet custom resource: metadata and spec.
#[derive(Debug, Clone, PartialEq, Eq)]
pub struct MinecraftSet {
    pub metadata: ObjectMeta,
    pub spec: MinecraftSetSpec,
}

pub struct MinecraftSetView {
    pub metadata: ObjectMetaView,
    pub spec: MinecraftSetSpecView,
}

impl View for MinecraftSet {
    type V = MinecraftSetView;

    open spec fn view(&self) -> MinecraftSetView {
        MinecraftSetView { metadata: self.metadata@, spec: self.spec@ }
    }
}

/// The API group and version of both custom resources.
pub open spec fn crd_api_version() -> Seq<char> {
    "mycelium.njha.dev/v1beta1"@
}

/// The plugin URLs of a runner, an empty sequence when absent.
pub open spec fn plugins_of(runner: RunnerOptionsView) -> Seq<Seq<char>> {
    match runner.plugins {
        Some(p) => p,
        None => Seq::empty(),
    }
}

/// The two extra environment entries of a game backend: the runner kind and
/// the comma-joined plugin list.
pub open spec fn set_extra_env_of(runner: RunnerOptionsView) -> Seq<EnvVarView> {
    seq![
        (EnvVarView { name: "MYCELIUM_RUNNER_KIND"@, value: Some("game"@), value_from: None }),
        (EnvVarView {
            name: "MYCELIUM_PLUGINS"@,
            value: Some(comma_join(plugins_of(runner))),
            value_from: None,
        }),
    ]
}

/// The reconcile input a MinecraftSet determines, once its identity is
/// resolved.
pub open spec fn set_reconcile_input_of(
    cr: MinecraftSetView,
    config: crate::helpers::manager::MyceliumConfigView,
) -> ReconcileInputView {
    ReconcileInputView {
        extra_env: set_extra_env_of(cr.spec.runner),
        port: 25565,
        config: config,
        shortname: "mcset"@,
        api_version: crd_api_version(),
        kind: "MinecraftSet"@,
        name: cr.metadata.name->0,
        namespace: cr.metadata.namespace->0,
        uid: cr.metadata.uid->0,
        container: cr.spec.container,
        runner: cr.spec.runner,
        replicas: cr.spec.replicas,
    }
}

fn clone_string_vec(v: &Vec<String>) -> (r: Vec<String>)
    ensures
        r@.map_values(|s: String| s@) == v@.map_values(|s: String| s@),
{
    let mut r: Vec<String> = Vec::new();
    let mut i: usize = 0;
    while i < v.len()
        invariant
            i <= v.len(),
            r@.len() == i,
            forall|j: int| 0 <= j < i ==> r@[j]@ == v@[j]@,
        decreases v.len() - i,
    {
        r.push(v[i].clone());
        i = i + 1;
    }
    proof {
        assert(r@.map_values(|s: String| s@) =~= v@.map_values(|s: String| s@));
    }
    r
}

/// The plugin URLs of a runner as an owned list, empty when absent.
pub fn plugin_urls(runner: &RunnerOptions) -> (r: Vec<String>)
    ensures
        r@.map_values(|s: String| s@) == plugins_of(runner@),
{
    let r = match &runner.plugins {
        Some(p) => clone_string_vec(p),
        None => Vec::new(),
    };
    proof {
        if runner.plugins is None {
            assert(r@.map_values(|s: String| s@) =~= plugins_of(runner@));
        }
    }
    r
}

/// One reconcile of a MinecraftSet: assembles the game-backend environment
/// and hands the resource to the generic routine with port 25565 under the
/// `mcset` shortname. The caller applies the returned plan and measures the
/// pass; no explicit requeue is scheduled, since the controller re-triggers
/// on watched-object changes.
pub fn reconcile(mcset: &MinecraftSet, config: &MyceliumConfig, state: &mut State, now: i64) -> (r:
    Result<(ReconcilePlan, ReconcilerAction), Error>)
    ensures
        final(state).last_event == now,
        r is Ok <==> mcset.metadata.namespace is Some && mcset.metadata.name is Some
            && mcset.metadata.uid is Some && (match mcset.spec.container.volume_claim_template {
            Some(t) => t.name is Some,
            None => true,
        }),
        r is Ok ==> r->Ok_0.0@ == plan_of(set_reconcile_input_of(mcset@, config@)),
        r is Ok ==> r->Ok_0.1.requeue_after_secs is None,
        r is Err ==> r->Err_0 is MyceliumError,
        mcset.metadata.namespace is None ==> r->Err_0.message_view()
            == "failed to get namespace"@,
        mcset.metadata.namespace is Some && mcset.metadata.name is None
            ==> r->Err_0.message_view() == "failed to get name"@,
        mcset.metadata.namespace is Some && mcset.metadata.name is Some
            && mcset.metadata.uid is None ==> r->Err_0.message_view() == "failed to get uid"@,
        mcset.metadata.namespace is Some && mcset.metadata.name is Some
            && mcset.metadata.uid is Some && r is Err ==> r->Err_0.message_view()
            == "volumeClaimTemplate name"@,
{
    let mut extra: Vec<EnvVar> = Vec::new();
    let mut kind_name = String::new();
    kind_name.append("MYCELIUM_RUNNER_KIND");
    let mut kind_value = String::new();
    kind_value.append("game");
    extra.push(EnvVar { name: kind_name, value: Some(kind_value), value_from: None });

    let mut plugins_name = String::new();
    plugins_name.append("MYCELIUM_PLUGINS");
    let plugins = plugin_urls(&mcset.spec.runner);
    extra.push(EnvVar { name: plugins_name, value: Some(join_comma(&plugins)), value_from: None });
    proof {
        assert(env_views(extra@) =~= set_extra_env_of(mcset.spec.runner@));
    }

    let plan = generic_reconcile(
        extra,
        25565,
        config,
        state,
        now,
        "mcset",
        "mycelium.njha.dev/v1beta1",
        "MinecraftSet",
        &mcset.metadata,
        &mcset.spec.container,
        &mcset.spec.runner,
        mcset.spec.replicas,
    )?;

    Ok((plan, ReconcilerAction { requeue_after_secs: None }))
}

} // verus!
