use vstd::prelude::*;
use vstd::string::StringExecFns;

use crate::helpers::jarapi::download_url_of;
use crate::helpers::manager::{MyceliumConfig, MyceliumConfigView};
use crate::helpers::state::State;
use crate::objects::token::forwarding_token_of;
use crate::Error;

pub mod apply;
pub mod minecraft_proxy;
pub mod minecraft_set;
pub mod token;

verus! {

// ---------------------------------------------------------------------------
// Shared option types carried by both custom resources.
// ---------------------------------------------------------------------------
/// One configmap mounted inside the Minecraft root.
#[derive(Debug, Clone, PartialEq, Eq)]
pub struct ConfigOptions {
    /// Name of the configmap to mount.
    pub name: String,
    /// Location relative to the Minecraft root to mount the configmap.
    pub path: String,
}

pub struct ConfigOptionsView {
    pub name: Seq<char>,
    pub path: Seq<char>,
}

impl View for ConfigOptions {
    type V = ConfigOptionsView;

    open spec fn view(&self) -> ConfigOptionsView {
        ConfigOptionsView { name: self.name@, path: self.path@ }
    }
}

/// A volume of the pod, as far as this operator reads it: its name, and the
/// configmap it is backed by when the operator created it for a config entry.
/// Anything else inside a user-supplied volume is opaque to the reconcile
/// logic and travels outside of it.
#[derive(Debug, Clone, PartialEq, Eq)]
pub struct Volume {
    pub name: String,
    /// The backing configmap name, for volumes the operator derives from
    /// `runner.config`.
    pub config_map: Option<String>,
}

pub struct VolumeView {
    pub name: Seq<char>,
    pub config_map: Option<Seq<char>>,
}

impl View for Volume {
    type V = VolumeView;

    open spec fn view(&self) -> VolumeView {
        VolumeView { name: self.name@, config_map: opt_view(self.config_map) }
    }
}

/// A volume claim template, as far as this operator reads it: the name under
/// its metadata, which also names the mount. The name may be absent, which is
/// a structural fault reported at reconcile time.
#[derive(Debug, Clone, PartialEq, Eq)]
pub struct PersistentVolumeClaim {
    pub name: Option<String>,
}

pub struct PersistentVolumeClaimView {
    pub name: Option<Seq<char>>,
}

impl View for PersistentVolumeClaim {
    type V = PersistentVolumeClaimView;

    open spec fn view(&self) -> PersistentVolumeClaimView {
        PersistentVolumeClaimView { name: opt_view(self.name) }
    }
}

/// Kubernetes-side options of the child pods. Opaque pod extras of the
/// custom resource (resource requirements, security context) are carried
/// around the reconcile logic, not through it.
#[derive(Debug, Clone, PartialEq, Eq)]
pub struct ContainerOptions {
    /// Should the container be stateful? (default = true; no code path
    /// branches on it yet)
    pub stateful: Option<bool>,
    /// Volume to mount at the Minecraft root (only useful for replicas = 1).
    pub volume: Option<Volume>,
    /// Volume claim template for the Minecraft root (overrides `volume`).
    pub volume_claim_template: Option<PersistentVolumeClaim>,
    /// Nodes the child pod may be scheduled on.
    pub node_selector: Option<Vec<Label>>,
}

pub struct ContainerOptionsView {
    pub stateful: Option<bool>,
    pub volume: Option<VolumeView>,
    pub volume_claim_template: Option<PersistentVolumeClaimView>,
    pub node_selector: Option<Seq<LabelView>>,
}

impl View for ContainerOptions {
    type V = ContainerOptionsView;

    open spec fn view(&self) -> ContainerOptionsView {
        ContainerOptionsView {
            stateful: self.stateful,
            volume: match self.volume {
                Some(v) => Some(v@),
                None => None,
            },
            volume_claim_template: match self.volume_claim_template {
                Some(t) => Some(t@),
                None => None,
            },
            node_selector: match self.node_selector {
                Some(ns) => Some(label_views(ns@)),
                None => None,
            },
        }
    }
}

/// Which jar the runner downloads and runs.
#[derive(Debug, Clone, PartialEq, Eq)]
pub struct VersionTriple {
    /// Kind of jar (`paper` or `velocity`).
    pub kind: String,
    /// Version according to the PaperMC API.
    pub version: String,
    /// Build according to the PaperMC API.
    pub build: String,
}

pub struct VersionTripleView {
    pub kind: Seq<char>,
    pub version: Seq<char>,
    pub build: Seq<char>,
}

impl View for VersionTriple {
    type V = VersionTripleView;

    open spec fn view(&self) -> VersionTripleView {
        VersionTripleView { kind: self.kind@, version: self.version@, build: self.build@ }
    }
}

/// Options for the in-container runner.
#[derive(Debug, Clone, PartialEq, Eq)]
pub struct RunnerOptions {
    /// Server jar to download and run.
    pub jar: VersionTriple,
    /// Space separated options to pass to the JVM.
    pub jvm: Option<String>,
    /// Configmaps to mount inside the Minecraft root.
    pub config: Option<Vec<ConfigOptions>>,
    /// Plugin URLs to download on server start.
    pub plugins: Option<Vec<String>>,
}

pub struct RunnerOptionsView {
    pub jar: VersionTripleView,
    pub jvm: Option<Seq<char>>,
    pub config: Option<Seq<ConfigOptionsView>>,
    pub plugins: Option<Seq<Seq<char>>>,
}

impl View for RunnerOptions {
    type V = RunnerOptionsView;

    open spec fn view(&self) -> RunnerOptionsView {
        RunnerOptionsView {
            jar: self.jar@,
            jvm: opt_view(self.jvm),
            config: match self.config {
                Some(c) => Some(config_views(c@)),
                None => None,
            },
            plugins: match self.plugins {
                Some(p) => Some(p@.map_values(|s: String| s@)),
                None => None,
            },
        }
    }
}

// ---------------------------------------------------------------------------
// Metadata, labels, ownership.
// ---------------------------------------------------------------------------
/// One label or annotation: a key and a value.
#[derive(Debug, Clone, PartialEq, Eq)]
pub struct Label {
    pub key: String,
    pub value: String,
}

pub struct LabelView {
    pub key: Seq<char>,
    pub value: Seq<char>,
}

impl View for Label {
    type V = LabelView;

    open spec fn view(&self) -> LabelView {
        LabelView { key: self.key@, value: self.value@ }
    }
}

/// The slice of object metadata the reconcile and join logic reads.
#[derive(Debug, Clone, PartialEq, Eq)]
pub struct ObjectMeta {
    pub name: Option<String>,
    pub namespace: Option<String>,
    pub uid: Option<String>,
    /// The labels of the object, which the cross-resource join matches
    /// selectors against.
    pub labels: Option<Vec<Label>>,
}

pub struct ObjectMetaView {
    pub name: Option<Seq<char>>,
    pub namespace: Option<Seq<char>>,
    pub uid: Option<Seq<char>>,
    pub labels: Option<Seq<LabelView>>,
}

impl View for ObjectMeta {
    type V = ObjectMetaView;

    open spec fn view(&self) -> ObjectMetaView {
        ObjectMetaView {
            name: opt_view(self.name),
            namespace: opt_view(self.namespace),
            uid: opt_view(self.uid),
            labels: match self.labels {
                Some(l) => Some(label_views(l@)),
                None => None,
            },
        }
    }
}

/// The owning edge from a child object back to its custom resource; the
/// reconciler always sets `controller` on it, which is what drives cascading
/// deletion.
#[derive(Debug, Clone, PartialEq, Eq)]
pub struct OwnerReference {
    pub api_version: String,
    pub kind: String,
    pub name: String,
    pub uid: String,
    pub controller: bool,
}

pub struct OwnerReferenceView {
    pub api_version: Seq<char>,
    pub kind: Seq<char>,
    pub name: Seq<char>,
    pub uid: Seq<char>,
    pub controller: bool,
}

impl View for OwnerReference {
    type V = OwnerReferenceView;

    open spec fn view(&self) -> OwnerReferenceView {
        OwnerReferenceView {
            api_version: self.api_version@,
            kind: self.kind@,
            name: self.name@,
            uid: self.uid@,
            controller: self.controller,
        }
    }
}

// ---------------------------------------------------------------------------
// Environment entries of the child pod.
// ---------------------------------------------------------------------------
/// Where an environment value comes from when it is not a literal.
#[derive(Debug, Clone, PartialEq, Eq)]
pub enum EnvSource {
    /// A key of a named secret.
    SecretKeyRef { name: String, key: String, optional: bool },
    /// A downward-API field of the pod.
    FieldRef { field_path: String },
}

pub enum EnvSourceView {
    SecretKeyRef { name: Seq<char>, key: Seq<char>, optional: bool },
    FieldRef { field_path: Seq<char> },
}

impl View for EnvSource {
    type V = EnvSourceView;

    open spec fn view(&self) -> EnvSourceView {
        match self {
            EnvSource::SecretKeyRef { name, key, optional } => EnvSourceView::SecretKeyRef {
                name: name@,
                key: key@,
                optional: *optional,
            },
            EnvSource::FieldRef { field_path } => EnvSourceView::FieldRef {
                field_path: field_path@,
            },
        }
    }
}

/// One environment entry of the child container.
#[derive(Debug, Clone, PartialEq, Eq)]
pub struct EnvVar {
    pub name: String,
    pub value: Option<String>,
    pub value_from: Option<EnvSource>,
}

pub struct EnvVarView {
    pub name: Seq<char>,
    pub value: Option<Seq<char>>,
    pub value_from: Option<EnvSourceView>,
}

impl View for EnvVar {
    type V = EnvVarView;

    open spec fn view(&self) -> EnvVarView {
        EnvVarView {
            name: self.name@,
            value: opt_view(self.value),
            value_from: match self.value_from {
                Some(s) => Some(s@),
                None => None,
            },
        }
    }
}

/// One mount of the child container.
#[derive(Debug, Clone, PartialEq, Eq)]
pub struct VolumeMount {
    pub name: String,
    pub mount_path: String,
}

pub struct VolumeMountView {
    pub name: Seq<char>,
    pub mount_path: Seq<char>,
}

impl View for VolumeMount {
    type V = VolumeMountView;

    open spec fn view(&self) -> VolumeMountView {
        VolumeMountView { name: self.name@, mount_path: self.mount_path@ }
    }
}

// ---------------------------------------------------------------------------
// View helpers.
// ---------------------------------------------------------------------------
pub open spec fn opt_view(o: Option<String>) -> Option<Seq<char>> {
    match o {
        Some(s) => Some(s@),
        None => None,
    }
}

pub open spec fn label_views(v: Seq<Label>) -> Seq<LabelView> {
    v.map_values(|l: Label| l@)
}

pub open spec fn config_views(v: Seq<ConfigOptions>) -> Seq<ConfigOptionsView> {
    v.map_values(|c: ConfigOptions| c@)
}

pub open spec fn env_views(v: Seq<EnvVar>) -> Seq<EnvVarView> {
    v.map_values(|e: EnvVar| e@)
}

pub open spec fn mount_views(v: Seq<VolumeMount>) -> Seq<VolumeMountView> {
    v.map_values(|m: VolumeMount| m@)
}

pub open spec fn volume_views(v: Seq<Volume>) -> Seq<VolumeView> {
    v.map_values(|x: Volume| x@)
}

pub open spec fn claim_views(v: Seq<PersistentVolumeClaim>) -> Seq<PersistentVolumeClaimView> {
    v.map_values(|c: PersistentVolumeClaim| c@)
}

pub open spec fn owner_views(v: Seq<OwnerReference>) -> Seq<OwnerReferenceView> {
    v.map_values(|o: OwnerReference| o@)
}

// ---------------------------------------------------------------------------
// The four child objects of one custom resource, and the reconcile plan that
// bundles them.
// ---------------------------------------------------------------------------
/// The pod template of the stateful workload.
#[derive(Debug, Clone, PartialEq, Eq)]
pub struct PodTemplate {
    pub labels: Vec<Label>,
    pub annotations: Vec<Label>,
    pub node_selector: Option<Vec<Label>>,
    pub container_name: String,
    pub image: String,
    pub image_pull_policy: String,
    pub tty: bool,
    pub stdin: bool,
    pub env: Vec<EnvVar>,
    pub volume_mounts: Vec<VolumeMount>,
    pub volumes: Vec<Volume>,
}

pub struct PodTemplateView {
    pub labels: Seq<LabelView>,
    pub annotations: Seq<LabelView>,
    pub node_selector: Option<Seq<LabelView>>,
    pub container_name: Seq<char>,
    pub image: Seq<char>,
    pub image_pull_policy: Seq<char>,
    pub tty: bool,
    pub stdin: bool,
    pub env: Seq<EnvVarView>,
    pub volume_mounts: Seq<VolumeMountView>,
    pub volumes: Seq<VolumeView>,
}

impl View for PodTemplate {
    type V = PodTemplateView;

    open spec fn view(&self) -> PodTemplateView {
        PodTemplateView {
            labels: label_views(self.labels@),
            annotations: label_views(self.annotations@),
            node_selector: match self.node_selector {
                Some(ns) => Some(label_views(ns@)),
                None => None,
            },
            container_name: self.container_name@,
            image: self.image@,
            image_pull_policy: self.image_pull_policy@,
            tty: self.tty,
            stdin: self.stdin,
            env: env_views(self.env@),
            volume_mounts: mount_views(self.volume_mounts@),
            volumes: volume_views(self.volumes@),
        }
    }
}

/// The stateful pod group: one named workload of `replicas` identical pods.
#[derive(Debug, Clone, PartialEq, Eq)]
pub struct StatefulWorkload {
    pub name: String,
    pub owner_references: Vec<OwnerReference>,
    pub selector: Vec<Label>,
    pub service_name: String,
    pub replicas: i32,
    pub template: PodTemplate,
    pub volume_claim_templates: Vec<PersistentVolumeClaim>,
}

pub struct StatefulWorkloadView {
    pub name: Seq<char>,
    pub owner_references: Seq<OwnerReferenceView>,
    pub selector: Seq<LabelView>,
    pub service_name: Seq<char>,
    pub replicas: i32,
    pub template: PodTemplateView,
    pub volume_claim_templates: Seq<PersistentVolumeClaimView>,
}

impl View for StatefulWorkload {
    type V = StatefulWorkloadView;

    open spec fn view(&self) -> StatefulWorkloadView {
        StatefulWorkloadView {
            name: self.name@,
            owner_references: owner_views(self.owner_references@),
            selector: label_views(self.selector@),
            service_name: self.service_name@,
            replicas: self.replicas,
            template: self.template@,
            volume_claim_templates: claim_views(self.volume_claim_templates@),
        }
    }
}

/// The headless service that gives every pod of the workload a stable DNS
/// record.
#[derive(Debug, Clone, PartialEq, Eq)]
pub struct HeadlessService {
    pub name: String,
    pub owner_references: Vec<OwnerReference>,
    pub cluster_ip: String,
    pub selector: Vec<Label>,
    pub protocol: String,
    pub port: u16,
    pub target_port: u16,
}

pub struct HeadlessServiceView {
    pub name: Seq<char>,
    pub owner_references: Seq<OwnerReferenceView>,
    pub cluster_ip: Seq<char>,
    pub selector: Seq<LabelView>,
    pub protocol: Seq<char>,
    pub port: u16,
    pub target_port: u16,
}

impl View for HeadlessService {
    type V = HeadlessServiceView;

    open spec fn view(&self) -> HeadlessServiceView {
        HeadlessServiceView {
            name: self.name@,
            owner_references: owner_views(self.owner_references@),
            cluster_ip: self.cluster_ip@,
            selector: label_views(self.selector@),
            protocol: self.protocol@,
            port: self.port,
            target_port: self.target_port,
        }
    }
}

/// The disruption budget that keeps voluntary evictions away from pods not
/// marked destroyable.
#[derive(Debug, Clone, PartialEq, Eq)]
pub struct DisruptionBudget {
    pub name: String,
    pub owner_references: Vec<OwnerReference>,
    pub max_unavailable: u32,
    pub selector: Vec<Label>,
}

pub struct DisruptionBudgetView {
    pub name: Seq<char>,
    pub owner_references: Seq<OwnerReferenceView>,
    pub max_unavailable: u32,
    pub selector: Seq<LabelView>,
}

impl View for DisruptionBudget {
    type V = DisruptionBudgetView;

    open spec fn view(&self) -> DisruptionBudgetView {
        DisruptionBudgetView {
            name: self.name@,
            owner_references: owner_views(self.owner_references@),
            max_unavailable: self.max_unavailable,
            selector: label_views(self.selector@),
        }
    }
}

/// The secret that carries the derived per-namespace forwarding token.
#[derive(Debug, Clone, PartialEq, Eq)]
pub struct ForwardingSecret {
    pub name: String,
    pub owner_references: Vec<OwnerReference>,
    pub key: String,
    pub value: String,
}

pub struct ForwardingSecretView {
    pub name: Seq<char>,
    pub owner_references: Seq<OwnerReferenceView>,
    pub key: Seq<char>,
    pub value: Seq<char>,
}

impl View for ForwardingSecret {
    type V = ForwardingSecretView;

    open spec fn view(&self) -> ForwardingSecretView {
        ForwardingSecretView {
            name: self.name@,
            owner_references: owner_views(self.owner_references@),
            key: self.key@,
            value: self.value@,
        }
    }
}

/// Everything one reconcile pass applies: the four children, the namespace
/// they go to, and the field-manager identity every patch is issued under.
/// The children are applied in the order budget, workload, service, secret,
/// so an eviction racing with reconciliation never sees pods without their
/// budget.
#[derive(Debug, Clone, PartialEq, Eq)]
pub struct ReconcilePlan {
    pub field_manager: String,
    pub namespace: String,
    pub budget: DisruptionBudget,
    pub workload: StatefulWorkload,
    pub service: HeadlessService,
    pub secret: ForwardingSecret,
}

pub struct ReconcilePlanView {
    pub field_manager: Seq<char>,
    pub namespace: Seq<char>,
    pub budget: DisruptionBudgetView,
    pub workload: StatefulWorkloadView,
    pub service: HeadlessServiceView,
    pub secret: ForwardingSecretView,
}

impl View for ReconcilePlan {
    type V = ReconcilePlanView;

    open spec fn view(&self) -> ReconcilePlanView {
        ReconcilePlanView {
            field_manager: self.field_manager@,
            namespace: self.namespace@,
            budget: self.budget@,
            workload: self.workload@,
            service: self.service@,
            secret: self.secret@,
        }
    }
}

// ---------------------------------------------------------------------------
// What the plan must be, stated over views: the mathematical shape of one
// reconcile pass.
// ---------------------------------------------------------------------------
/// The label key that identifies pods of one kind of custom resource.
pub open spec fn mycelium_label_key(shortname: Seq<char>) -> Seq<char> {
    "mycelium.njha.dev/"@ + shortname
}

/// The opt-in label that permits voluntary eviction.
pub open spec fn destroyable_label_key() -> Seq<char> {
    "mycelium.njha.dev/destroyable"@
}

/// The field-manager identity every server-side apply is issued under.
pub open spec fn field_manager_id() -> Seq<char> {
    "mycelium.njha.dev"@
}

/// The sole pod label: `mycelium.njha.dev/<shortname>: <cr-name>`, the
/// identity the service selector and the budget target.
pub open spec fn pod_labels_of(shortname: Seq<char>, name: Seq<char>) -> Seq<LabelView> {
    seq![(LabelView { key: mycelium_label_key(shortname), value: name })]
}

/// The budget's selector: the pod labels narrowed to pods explicitly marked
/// not destroyable.
pub open spec fn budget_selector_of(shortname: Seq<char>, name: Seq<char>) -> Seq<LabelView> {
    pod_labels_of(shortname, name) + seq![
        (LabelView { key: destroyable_label_key(), value: "false"@ }),
    ]
}

/// The scrape annotations every child pod carries.
pub open spec fn pod_annotations() -> Seq<LabelView> {
    seq![
        (LabelView { key: "prometheus.io/port"@, value: "9970"@ }),
        (LabelView { key: "prometheus.io/scrape"@, value: "true"@ }),
    ]
}

/// Each config entry mounts its configmap at `/config/<path>`.
pub open spec fn config_mount_of(c: ConfigOptionsView) -> VolumeMountView {
    VolumeMountView { name: c.name, mount_path: "/config/"@ + c.path }
}

/// Each config entry becomes a configmap-backed volume of the same name.
pub open spec fn config_volume_of(c: ConfigOptionsView) -> VolumeView {
    VolumeView { name: c.name, config_map: Some(c.name) }
}

/// The config entries of the runner, an empty sequence when absent.
pub open spec fn configs_of(runner: RunnerOptionsView) -> Seq<ConfigOptionsView> {
    match runner.config {
        Some(c) => c,
        None => Seq::empty(),
    }
}

/// The mount list: one mount per config entry, then the data mount at
/// `/data` — named by the claim template when one is set, else by the bare
/// volume, else absent.
pub open spec fn mounts_of(configs: Seq<ConfigOptionsView>, container: ContainerOptionsView) -> Seq<
    VolumeMountView,
>
    recommends
        container.volume_claim_template is Some ==> container.volume_claim_template->0.name
            is Some,
{
    let base = configs.map_values(|c: ConfigOptionsView| config_mount_of(c));
    match container.volume_claim_template {
        Some(t) => base + seq![(VolumeMountView { name: t.name->0, mount_path: "/data"@ })],
        None => match container.volume {
            Some(v) => base + seq![(VolumeMountView { name: v.name, mount_path: "/data"@ })],
            None => base,
        },
    }
}

/// The volume list: one configmap volume per config entry, and the bare data
/// volume only when no claim template overrides it.
pub open spec fn volumes_of(configs: Seq<ConfigOptionsView>, container: ContainerOptionsView) -> Seq<
    VolumeView,
> {
    let base = configs.map_values(|c: ConfigOptionsView| config_volume_of(c));
    match container.volume_claim_template {
        Some(_) => base,
        None => match container.volume {
            Some(v) => base + seq![v],
            None => base,
        },
    }
}

/// The volume claim templates: exactly the one from the container options,
/// when set.
pub open spec fn claims_of(container: ContainerOptionsView) -> Seq<PersistentVolumeClaimView> {
    match container.volume_claim_template {
        Some(t) => seq![t],
        None => Seq::empty(),
    }
}

/// The three operator-owned environment entries prepended to every child
/// container: the JVM options, the forwarding token as a secret reference to
/// the derived secret, and the jar download URL.
pub open spec fn reserved_env_of(runner: RunnerOptionsView, name: Seq<char>) -> Seq<EnvVarView> {
    seq![
        (EnvVarView { name: "MYCELIUM_JVM_OPTS"@, value: runner.jvm, value_from: None }),
        (EnvVarView {
            name: "MYCELIUM_FW_TOKEN"@,
            value: None,
            value_from: Some(
                EnvSourceView::SecretKeyRef { name: name, key: "forwarding_token"@, optional: false },
            ),
        }),
        (EnvVarView {
            name: "MYCELIUM_RUNNER_JAR_URL"@,
            value: Some(download_url_of(runner.jar.kind, runner.jar.version, runner.jar.build)),
            value_from: None,
        }),
    ]
}

/// The full environment: the three reserved entries, then the caller's
/// extras. Callers must not redefine the three reserved names.
pub open spec fn env_of(extra: Seq<EnvVarView>, runner: RunnerOptionsView, name: Seq<char>) -> Seq<
    EnvVarView,
> {
    reserved_env_of(runner, name) + extra
}

/// Everything one reconcile pass depends on: the caller's extra environment,
/// the target port, the operator configuration, the kind identifiers, the
/// resolved metadata of the custom resource, and its spec fields.
pub struct ReconcileInputView {
    pub extra_env: Seq<EnvVarView>,
    pub port: u16,
    pub config: MyceliumConfigView,
    pub shortname: Seq<char>,
    pub api_version: Seq<char>,
    pub kind: Seq<char>,
    pub name: Seq<char>,
    pub namespace: Seq<char>,
    pub uid: Seq<char>,
    pub container: ContainerOptionsView,
    pub runner: RunnerOptionsView,
    pub replicas: i32,
}

/// The owning edge of every child: it points at the custom resource and has
/// `controller` set.
pub open spec fn owner_reference_of(input: ReconcileInputView) -> OwnerReferenceView {
    OwnerReferenceView {
        api_version: input.api_version,
        kind: input.kind,
        name: input.name,
        uid: input.uid,
        controller: true,
    }
}

/// The one plan a reconcile input determines: the four child objects are a
/// pure function of (CR spec, operator config, CR kind).
pub open spec fn plan_of(input: ReconcileInputView) -> ReconcilePlanView {
    let owner = owner_reference_of(input);
    let labels = pod_labels_of(input.shortname, input.name);
    let configs = configs_of(input.runner);
    ReconcilePlanView {
        field_manager: field_manager_id(),
        namespace: input.namespace,
        budget: DisruptionBudgetView {
            name: input.name,
            owner_references: seq![owner],
            max_unavailable: 0,
            selector: budget_selector_of(input.shortname, input.name),
        },
        workload: StatefulWorkloadView {
            name: input.name,
            owner_references: seq![owner],
            selector: labels,
            service_name: input.name,
            replicas: input.replicas,
            template: PodTemplateView {
                labels: labels,
                annotations: pod_annotations(),
                node_selector: input.container.node_selector,
                container_name: input.name,
                image: input.config.runner_image,
                image_pull_policy: "IfNotPresent"@,
                tty: true,
                stdin: true,
                env: env_of(input.extra_env, input.runner, input.name),
                volume_mounts: mounts_of(configs, input.container),
                volumes: volumes_of(configs, input.container),
            },
            volume_claim_templates: claims_of(input.container),
        },
        service: HeadlessServiceView {
            name: input.name,
            owner_references: seq![owner],
            cluster_ip: "None"@,
            selector: labels,
            protocol: "TCP"@,
            port: 25565,
            target_port: input.port,
        },
        secret: ForwardingSecretView {
            name: input.name,
            owner_references: seq![owner],
            key: "forwarding_token"@,
            value: forwarding_token_of(input.config.forwarding_secret, input.namespace),
        },
    }
}

// ---------------------------------------------------------------------------
// Executable assembly of the plan.
// ---------------------------------------------------------------------------
pub(crate) fn clone_opt_string(o: &Option<String>) -> (r: Option<String>)
    ensures
        opt_view(r) == opt_view(*o),
{
    match o {
        Some(s) => Some(s.clone()),
        None => None,
    }
}

fn clone_labels(v: &Vec<Label>) -> (r: Vec<Label>)
    ensures
        label_views(r@) == label_views(v@),
{
    let mut r: Vec<Label> = Vec::new();
    let mut i: usize = 0;
    while i < v.len()
        invariant
            i <= v.len(),
            r@.len() == i,
            forall|j: int| 0 <= j < i ==> r@[j]@ == v@[j]@,
        decreases v.len() - i,
    {
        r.push(Label { key: v[i].key.clone(), value: v[i].value.clone() });
        i = i + 1;
    }
    proof {
        assert(label_views(r@) =~= label_views(v@));
    }
    r
}

fn clone_owner(o: &OwnerReference) -> (r: OwnerReference)
    ensures
        r@ == o@,
{
    OwnerReference {
        api_version: o.api_version.clone(),
        kind: o.kind.clone(),
        name: o.name.clone(),
        uid: o.uid.clone(),
        controller: o.controller,
    }
}

fn make_pod_labels(shortname: &str, name: &String) -> (r: Vec<Label>)
    ensures
        label_views(r@) == pod_labels_of(shortname@, name@),
{
    let mut key = String::new();
    key.append("mycelium.njha.dev/");
    key.append(shortname);
    let mut r: Vec<Label> = Vec::new();
    r.push(Label { key, value: name.clone() });
    proof {
        assert(label_views(r@) =~= pod_labels_of(shortname@, name@));
    }
    r
}

fn make_budget_selector(shortname: &str, name: &String) -> (r: Vec<Label>)
    ensures
        label_views(r@) == budget_selector_of(shortname@, name@),
{
    let mut r = make_pod_labels(shortname, name);
    let mut key = String::new();
    key.append("mycelium.njha.dev/destroyable");
    let mut value = String::new();
    value.append("false");
    r.push(Label { key, value });
    proof {
        assert(label_views(r@) =~= budget_selector_of(shortname@, name@));
    }
    r
}

fn make_pod_annotations() -> (r: Vec<Label>)
    ensures
        label_views(r@) == pod_annotations(),
{
    let mut r: Vec<Label> = Vec::new();
    let mut k1 = String::new();
    k1.append("prometheus.io/port");
    let mut v1 = String::new();
    v1.append("9970");
    r.push(Label { key: k1, value: v1 });
    let mut k2 = String::new();
    k2.append("prometheus.io/scrape");
    let mut v2 = String::new();
    v2.append("true");
    r.push(Label { key: k2, value: v2 });
    proof {
        assert(label_views(r@) =~= pod_annotations());
    }
    r
}

/// Builds the mount of one config entry: the configmap's name, mounted at
/// `/config/<path>`.
pub fn make_volume_mount(co: &ConfigOptions) -> (r: VolumeMount)
    ensures
        r@ == config_mount_of(co@),
{
    let mut mount_path = String::new();
    mount_path.append("/config/");
    mount_path.append(co.path.as_str());
    VolumeMount { name: co.name.clone(), mount_path }
}

/// Builds the configmap-backed volume of one config entry.
pub fn make_volume(co: &ConfigOptions) -> (r: Volume)
    ensures
        r@ == config_volume_of(co@),
{
    Volume { name: co.name.clone(), config_map: Some(co.name.clone()) }
}

/// Builds the owner reference pointing at a custom resource; its name and
/// uid are required, and `controller` is left unset here (the reconciler
/// sets it).
pub fn object_to_owner_reference(meta: &ObjectMeta, api_version: &str, kind: &str) -> (r: Result<
    OwnerReference,
    Error,
>)
    ensures
        r is Ok <==> meta.name is Some && meta.uid is Some,
        r is Ok ==> r->Ok_0@ == (OwnerReferenceView {
            api_version: api_version@,
            kind: kind@,
            name: meta@.name->0,
            uid: meta@.uid->0,
            controller: false,
        }),
        meta.name is None ==> r->Err_0 is MyceliumError && r->Err_0.message_view()
            == "failed to get name"@,
        meta.name is Some && meta.uid is None ==> r->Err_0 is MyceliumError
            && r->Err_0.message_view() == "failed to get uid"@,
{
    let name = match &meta.name {
        Some(n) => n.clone(),
        None => {
            let mut m = String::new();
            m.append("failed to get name");
            return Err(Error::MyceliumError(m));
        },
    };
    let uid = match &meta.uid {
        Some(u) => u.clone(),
        None => {
            let mut m = String::new();
            m.append("failed to get uid");
            return Err(Error::MyceliumError(m));
        },
    };
    let mut api_version_s = String::new();
    api_version_s.append(api_version);
    let mut kind_s = String::new();
    kind_s.append(kind);
    Ok(OwnerReference { api_version: api_version_s, kind: kind_s, name, uid, controller: false })
}

fn assemble_env(extra: Vec<EnvVar>, runner: &RunnerOptions, name: &String) -> (r: Vec<EnvVar>)
    ensures
        env_views(r@) == env_of(env_views(extra@), runner@, name@),
{
    let mut r: Vec<EnvVar> = Vec::new();
    let mut n1 = String::new();
    n1.append("MYCELIUM_JVM_OPTS");
    r.push(EnvVar { name: n1, value: clone_opt_string(&runner.jvm), value_from: None });

    let mut n2 = String::new();
    n2.append("MYCELIUM_FW_TOKEN");
    let mut key = String::new();
    key.append("forwarding_token");
    r.push(
        EnvVar {
            name: n2,
            value: None,
            value_from: Some(
                EnvSource::SecretKeyRef { name: name.clone(), key, optional: false },
            ),
        },
    );

    let mut n3 = String::new();
    n3.append("MYCELIUM_RUNNER_JAR_URL");
    let url = crate::helpers::jarapi::get_download_url(
        runner.jar.kind.as_str(),
        runner.jar.version.as_str(),
        runner.jar.build.as_str(),
    );
    r.push(EnvVar { name: n3, value: Some(url), value_from: None });

    let ghost extra0 = extra@;
    let mut extra = extra;
    r.append(&mut extra);
    proof {
        assert(env_views(r@) =~= env_of(env_views(extra0), runner@, name@));
    }
    r
}

fn assemble_storage(configs: &Vec<ConfigOptions>, container: &ContainerOptions) -> (r: Result<
    (Vec<VolumeMount>, Vec<Volume>, Vec<PersistentVolumeClaim>),
    Error,
>)
    ensures
        r is Ok <==> (match container.volume_claim_template {
            Some(t) => t.name is Some,
            None => true,
        }),
        r is Ok ==> mount_views(r->Ok_0.0@) == mounts_of(config_views(configs@), container@),
        r is Ok ==> volume_views(r->Ok_0.1@) == volumes_of(config_views(configs@), container@),
        r is Ok ==> claim_views(r->Ok_0.2@) == claims_of(container@),
        r is Err ==> r->Err_0 is MyceliumError && r->Err_0.message_view()
            == "volumeClaimTemplate name"@,
{
    let ghost cv = config_views(configs@);
    let mut mounts: Vec<VolumeMount> = Vec::new();
    let mut volumes: Vec<Volume> = Vec::new();
    let mut i: usize = 0;
    while i < configs.len()
        invariant
            i <= configs.len(),
            cv == config_views(configs@),
            mounts@.len() == i,
            volumes@.len() == i,
            forall|j: int| 0 <= j < i ==> mounts@[j]@ == config_mount_of(cv[j]),
            forall|j: int| 0 <= j < i ==> volumes@[j]@ == config_volume_of(cv[j]),
        decreases configs.len() - i,
    {
        mounts.push(make_volume_mount(&configs[i]));
        volumes.push(make_volume(&configs[i]));
        i = i + 1;
    }

    let mut claims: Vec<PersistentVolumeClaim> = Vec::new();
    if let Some(tpl) = &container.volume_claim_template {
        let tpl_name = match &tpl.name {
            Some(n) => n.clone(),
            None => {
                let mut m = String::new();
                m.append("volumeClaimTemplate name");
                return Err(Error::MyceliumError(m));
            },
        };
        let mut data_path = String::new();
        data_path.append("/data");
        mounts.push(VolumeMount { name: tpl_name, mount_path: data_path });
        claims.push(PersistentVolumeClaim { name: clone_opt_string(&tpl.name) });
    } else if let Some(volume) = &container.volume {
        let mut data_path = String::new();
        data_path.append("/data");
        mounts.push(VolumeMount { name: volume.name.clone(), mount_path: data_path });
        volumes.push(
            Volume { name: volume.name.clone(), config_map: clone_opt_string(&volume.config_map) },
        );
    }
    proof {
        assert(mount_views(mounts@) =~= mounts_of(cv, container@));
        assert(volume_views(volumes@) =~= volumes_of(cv, container@));
        assert(claim_views(claims@) =~= claims_of(container@));
    }
    Ok((mounts, volumes, claims))
}

/// One reconcile pass, up to its effects: resolves the custom resource's
/// identity, records the heartbeat, and assembles the four child objects
/// that are then applied under the `mycelium.njha.dev` field manager. The
/// result is the one plan that (CR spec, operator config, CR kind)
/// determines; a custom resource without namespace, name or uid, or with an
/// unnamed volume claim template, is structurally faulty and yields an
/// error instead.
#[verifier::rlimit(30)]
pub fn generic_reconcile(
    extra_env: Vec<EnvVar>,
    port: u16,
    config: &MyceliumConfig,
    state: &mut State,
    now: i64,
    shortname: &str,
    api_version: &str,
    kind: &str,
    meta: &ObjectMeta,
    container: &ContainerOptions,
    runner: &RunnerOptions,
    replicas: i32,
) -> (r: Result<ReconcilePlan, Error>)
    ensures
        final(state).last_event == now,
        r is Ok <==> meta.namespace is Some && meta.name is Some && meta.uid is Some && (
        match container.volume_claim_template {
            Some(t) => t.name is Some,
            None => true,
        }),
        r is Ok ==> r->Ok_0@ == plan_of(
            ReconcileInputView {
                extra_env: env_views(extra_env@),
                port: port,
                config: config@,
                shortname: shortname@,
                api_version: api_version@,
                kind: kind@,
                name: meta@.name->0,
                namespace: meta@.namespace->0,
                uid: meta@.uid->0,
                container: container@,
                runner: runner@,
                replicas: replicas,
            },
        ),
        r is Err ==> r->Err_0 is MyceliumError,
        meta.namespace is None ==> r->Err_0.message_view() == "failed to get namespace"@,
        meta.namespace is Some && meta.name is None ==> r->Err_0.message_view()
            == "failed to get name"@,
        meta.namespace is Some && meta.name is Some && meta.uid is None
            ==> r->Err_0.message_view() == "failed to get uid"@,
        meta.namespace is Some && meta.name is Some && meta.uid is Some && r is Err
            ==> r->Err_0.message_view() == "volumeClaimTemplate name"@,
{
    let ns = match &meta.namespace {
        Some(n) => n.clone(),
        None => {
            state.record_event(now);
            let mut m = String::new();
            m.append("failed to get namespace");
            return Err(Error::MyceliumError(m));
        },
    };

    let owner_reference = match object_to_owner_reference(meta, api_version, kind) {
        Ok(mut o) => {
            o.controller = true;
            o
        },
        Err(e) => {
            state.record_event(now);
            return Err(e);
        },
    };

    state.record_event(now);

    let name = match &meta.name {
        Some(n) => n.clone(),
        None => {
            let mut m = String::new();
            m.append("failed to get name");
            return Err(Error::MyceliumError(m));
        },
    };

    let labels = make_pod_labels(shortname, &name);

    let empty_configs: Vec<ConfigOptions> = Vec::new();
    let configs: &Vec<ConfigOptions> = match &runner.config {
        Some(c) => c,
        None => &empty_configs,
    };
    proof {
        assert(config_views(configs@) == configs_of(runner@));
    }

    let (volume_mounts, volumes, volume_claim_templates) = match assemble_storage(
        configs,
        container,
    ) {
        Ok(t) => t,
        Err(e) => {
            return Err(e);
        },
    };

    let env = assemble_env(extra_env, runner, &name);

    let token = token::derive_token(config.forwarding_secret.as_str(), ns.as_str());

    let budget = DisruptionBudget {
        name: name.clone(),
        owner_references: {
            let mut v: Vec<OwnerReference> = Vec::new();
            v.push(clone_owner(&owner_reference));
            v
        },
        max_unavailable: 0,
        selector: make_budget_selector(shortname, &name),
    };

    let workload = StatefulWorkload {
        name: name.clone(),
        owner_references: {
            let mut v: Vec<OwnerReference> = Vec::new();
            v.push(clone_owner(&owner_reference));
            v
        },
        selector: clone_labels(&labels),
        service_name: name.clone(),
        replicas,
        template: PodTemplate {
            labels,
            annotations: make_pod_annotations(),
            node_selector: match &container.node_selector {
                Some(ns) => Some(clone_labels(ns)),
                None => None,
            },
            container_name: name.clone(),
            image: config.runner_image.clone(),
            image_pull_policy: {
                let mut s = String::new();
                s.append("IfNotPresent");
                s
            },
            tty: true,
            stdin: true,
            env,
            volume_mounts,
            volumes,
        },
        volume_claim_templates,
    };

    let service = HeadlessService {
        name: name.clone(),
        owner_references: {
            let mut v: Vec<OwnerReference> = Vec::new();
            v.push(clone_owner(&owner_reference));
            v
        },
        cluster_ip: {
            let mut s = String::new();
            s.append("None");
            s
        },
        selector: make_pod_labels(shortname, &name),
        protocol: {
            let mut s = String::new();
            s.append("TCP");
            s
        },
        port: 25565,
        target_port: port,
    };

    let secret = ForwardingSecret {
        name: name.clone(),
        owner_references: {
            let mut v: Vec<OwnerReference> = Vec::new();
            v.push(owner_reference);
            v
        },
        key: {
            let mut s = String::new();
            s.append("forwarding_token");
            s
        },
        value: token,
    };

    let plan = ReconcilePlan {
        field_manager: {
            let mut s = String::new();
            s.append("mycelium.njha.dev");
            s
        },
        namespace: ns,
        budget,
        workload,
        service,
        secret,
    };
    proof {
        let input = ReconcileInputView {
            extra_env: env_views(extra_env@),
            port: port,
            config: config@,
            shortname: shortname@,
            api_version: api_version@,
            kind: kind@,
            name: meta@.name->0,
            namespace: meta@.namespace->0,
            uid: meta@.uid->0,
            container: container@,
            runner: runner@,
            replicas: replicas,
        };
        assert(plan@.budget.owner_references =~= seq![owner_reference_of(input)]);
        assert(plan@.workload.owner_references =~= seq![owner_reference_of(input)]);
        assert(plan@.service.owner_references =~= seq![owner_reference_of(input)]);
        assert(plan@.secret.owner_references =~= seq![owner_reference_of(input)]);
        assert(plan@ == plan_of(input));
    }
    Ok(plan)
}

// ---------------------------------------------------------------------------
// Laws of the plan.
// ---------------------------------------------------------------------------
/// Determinism: for a fixed reconcile input — the custom resource's spec and
/// identity, the operator configuration, and the kind — the four emitted
/// child objects are identical across runs.
pub proof fn lemma_reconcile_deterministic(
    input: ReconcileInputView,
    p1: ReconcilePlanView,
    p2: ReconcilePlanView,
)
    requires
        p1 == plan_of(input),
        p2 == plan_of(input),
    ensures
        p1 == p2,
{
}

/// Ownership: every child object of a plan carries exactly one owner
/// reference, and it points at the custom resource with `controller` set,
/// which is what lets Kubernetes garbage-collect the children when the
/// resource is deleted.
pub proof fn lemma_plan_ownership(input: ReconcileInputView)
    ensures
        plan_of(input).budget.owner_references == seq![owner_reference_of(input)],
        plan_of(input).workload.owner_references == seq![owner_reference_of(input)],
        plan_of(input).service.owner_references == seq![owner_reference_of(input)],
        plan_of(input).secret.owner_references == seq![owner_reference_of(input)],
        owner_reference_of(input).controller,
        owner_reference_of(input).name == input.name,
        owner_reference_of(input).uid == input.uid,
{
}

/// Naming: each of the four children is named exactly as the custom
/// resource, so a resource owns at most one child of each kind.
pub proof fn lemma_children_named_after_resource(input: ReconcileInputView)
    ensures
        plan_of(input).budget.name == input.name,
        plan_of(input).workload.name == input.name,
        plan_of(input).service.name == input.name,
        plan_of(input).secret.name == input.name,
        plan_of(input).workload.service_name == input.name,
{
}

/// Routing: the headless service selects exactly the pods of the workload —
/// its selector, the workload's selector and the pod labels are one label
/// set.
pub proof fn lemma_service_selects_workload_pods(input: ReconcileInputView)
    ensures
        plan_of(input).service.selector == plan_of(input).workload.template.labels,
        plan_of(input).workload.selector == plan_of(input).workload.template.labels,
{
}

/// Scaling: the replica count — zero included — changes only the workload's
/// replica field. The budget, service, secret and the whole pod template of
/// a plan are those of the same input at any other count, so a zero-replica
/// resource still gets all four children, merely with no pods.
pub proof fn lemma_replicas_scale_only_the_workload(
    i1: ReconcileInputView,
    i2: ReconcileInputView,
)
    requires
        i2 == (ReconcileInputView { replicas: i2.replicas, ..i1 }),
    ensures
        plan_of(i2).budget == plan_of(i1).budget,
        plan_of(i2).service == plan_of(i1).service,
        plan_of(i2).secret == plan_of(i1).secret,
        plan_of(i2).workload.template == plan_of(i1).workload.template,
        plan_of(i2).workload == (StatefulWorkloadView {
            replicas: i2.replicas,
            ..plan_of(i1).workload
        }),
{
}

/// Disruption safety: the budget tolerates no voluntary unavailability, and
/// its selector is exactly the workload's pod label set narrowed to pods
/// labelled `destroyable=false`.
pub proof fn lemma_budget_disruption_safety(input: ReconcileInputView)
    ensures
        plan_of(input).budget.max_unavailable == 0,
        plan_of(input).budget.selector == plan_of(input).workload.template.labels + seq![
            (LabelView { key: destroyable_label_key(), value: "false"@ }),
        ],
{
}

/// A container options block carrying both a bare volume and a claim
/// template uses the template: the claim is emitted and mounted at `/data`,
/// and the bare volume is ignored.
pub proof fn lemma_claim_template_overrides_volume(
    configs: Seq<ConfigOptionsView>,
    container: ContainerOptionsView,
)
    requires
        container.volume_claim_template is Some,
        container.volume_claim_template->0.name is Some,
    ensures
        volumes_of(configs, container) == configs.map_values(
            |c: ConfigOptionsView| config_volume_of(c),
        ),
        mounts_of(configs, container).last() == (VolumeMountView {
            name: container.volume_claim_template->0.name->0,
            mount_path: "/data"@,
        }),
        claims_of(container) == seq![container.volume_claim_template->0],
{
}

} // verus!
