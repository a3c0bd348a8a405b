use vstd::prelude::*;
use vstd::string::StringExecFns;

use crate::helpers::manager::{has_label, has_label_exec};
use crate::objects::{
    budget_selector_of, destroyable_label_key, label_views, mycelium_label_key, owner_views,
    plan_of, DisruptionBudget, DisruptionBudgetView, ForwardingSecret, ForwardingSecretView,
    HeadlessService, HeadlessServiceView, Label, LabelView, OwnerReference, OwnerReferenceView,
    ReconcileInputView, ReconcilePlan, ReconcilePlanView, StatefulWorkload, StatefulWorkloadView,
};

verus! {

// ---------------------------------------------------------------------------
// The cluster-side fate of the four children: server-side apply, garbage
// collection, and the disruption budget's answer to a voluntary eviction.
// ---------------------------------------------------------------------------
/// The children of one custom resource as the cluster holds them: at most
/// one of each kind, each named as the resource.
#[derive(Debug, Clone, PartialEq, Eq)]
pub struct ClusterChildren {
    pub budget: Option<DisruptionBudget>,
    pub workload: Option<StatefulWorkload>,
    pub service: Option<HeadlessService>,
    pub secret: Option<ForwardingSecret>,
}

pub struct ClusterChildrenView {
    pub budget: Option<DisruptionBudgetView>,
    pub workload: Option<StatefulWorkloadView>,
    pub service: Option<HeadlessServiceView>,
    pub secret: Option<ForwardingSecretView>,
}

impl View for ClusterChildren {
    type V = ClusterChildrenView;

    open spec fn view(&self) -> ClusterChildrenView {
        ClusterChildrenView {
            budget: match self.budget {
                Some(b) => Some(b@),
                None => None,
            },
            workload: match self.workload {
                Some(w) => Some(w@),
                None => None,
            },
            service: match self.service {
                Some(s) => Some(s@),
                None => None,
            },
            secret: match self.secret {
                Some(s) => Some(s@),
                None => None,
            },
        }
    }
}

/// A namespace slot with no children yet.
pub open spec fn no_children() -> ClusterChildrenView {
    ClusterChildrenView { budget: None, workload: None, service: None, secret: None }
}

/// What server-side apply of a whole plan leaves behind: each child slot
/// holds the plan's version, whatever stood there before.
pub open spec fn applied(s: ClusterChildrenView, p: ReconcilePlanView) -> ClusterChildrenView {
    ClusterChildrenView {
        budget: Some(p.budget),
        workload: Some(p.workload),
        service: Some(p.service),
        secret: Some(p.secret),
    }
}

impl ClusterChildren {
    /// A slot holding no children.
    pub fn new() -> (r: ClusterChildren)
        ensures
            r@ == no_children(),
    {
        ClusterChildren { budget: None, workload: None, service: None, secret: None }
    }

    /// Applies one plan: every child is overwritten with the plan's version,
    /// as four server-side apply patches would leave it.
    pub fn apply_plan(&mut self, plan: ReconcilePlan)
        ensures
            final(self)@ == applied(old(self)@, plan@),
    {
        self.budget = Some(plan.budget);
        self.workload = Some(plan.workload);
        self.service = Some(plan.service);
        self.secret = Some(plan.secret);
    }

    /// Kubernetes garbage collection after the owner with this uid was
    /// deleted: every child holding a controller owner reference with that
    /// uid is removed; nothing else is touched.
    pub fn garbage_collect(&mut self, uid: &String)
        ensures
            final(self)@ == collected(old(self)@, uid@),
    {
        let drop_budget = match &self.budget {
            Some(b) => owners_contain(&b.owner_references, uid),
            None => false,
        };
        if drop_budget {
            self.budget = None;
        }
        let drop_workload = match &self.workload {
            Some(w) => owners_contain(&w.owner_references, uid),
            None => false,
        };
        if drop_workload {
            self.workload = None;
        }
        let drop_service = match &self.service {
            Some(s) => owners_contain(&s.owner_references, uid),
            None => false,
        };
        if drop_service {
            self.service = None;
        }
        let drop_secret = match &self.secret {
            Some(s) => owners_contain(&s.owner_references, uid),
            None => false,
        };
        if drop_secret {
            self.secret = None;
        }
    }
}

/// Is there a controller owner reference with this uid?
pub open spec fn owned_by(owners: Seq<OwnerReferenceView>, uid: Seq<char>) -> bool {
    exists|i: int| 0 <= i < owners.len() && owners[i].uid == uid && owners[i].controller
}

fn owners_contain(owners: &Vec<OwnerReference>, uid: &String) -> (b: bool)
    ensures
        b == owned_by(owner_views(owners@), uid@),
{
    let mut i: usize = 0;
    while i < owners.len()
        invariant
            i <= owners.len(),
            forall|j: int| 0 <= j < i ==> !(owner_views(owners@)[j].uid == uid@ && owner_views(
                owners@,
            )[j].controller),
        decreases owners.len() - i,
    {
        if owners[i].controller && owners[i].uid == *uid {
            proof {
                assert(owner_views(owners@)[i as int].uid == uid@ && owner_views(
                    owners@,
                )[i as int].controller);
            }
            return true;
        }
        proof {
            assert(!(owner_views(owners@)[i as int].uid == uid@ && owner_views(
                owners@,
            )[i as int].controller));
        }
        i = i + 1;
    }
    false
}

/// What garbage collection of one uid leaves behind.
pub open spec fn collected(s: ClusterChildrenView, uid: Seq<char>) -> ClusterChildrenView {
    ClusterChildrenView {
        budget: match s.budget {
            Some(b) => if owned_by(b.owner_references, uid) {
                None
            } else {
                Some(b)
            },
            None => None,
        },
        workload: match s.workload {
            Some(w) => if owned_by(w.owner_references, uid) {
                None
            } else {
                Some(w)
            },
            None => None,
        },
        service: match s.service {
            Some(v) => if owned_by(v.owner_references, uid) {
                None
            } else {
                Some(v)
            },
            None => None,
        },
        secret: match s.secret {
            Some(v) => if owned_by(v.owner_references, uid) {
                None
            } else {
                Some(v)
            },
            None => None,
        },
    }
}

/// Idempotence: applying the same plan twice in a row leaves exactly what
/// one application leaves — the second pass produces no observable
/// server-side difference.
pub proof fn lemma_apply_idempotent(s: ClusterChildrenView, p: ReconcilePlanView)
    ensures
        applied(applied(s, p), p) == applied(s, p),
{
}

/// Zero replicas is a valid size: applying the plan of a zero-replica input
/// still fills every child slot — the budget, a workload that runs no pods,
/// the service and the secret.
pub proof fn lemma_zero_replicas_still_applies_children(
    s: ClusterChildrenView,
    input: ReconcileInputView,
)
    requires
        input.replicas == 0,
    ensures
        applied(s, plan_of(input)).budget is Some,
        applied(s, plan_of(input)).workload is Some,
        applied(s, plan_of(input)).workload->0.replicas == 0,
        applied(s, plan_of(input)).service is Some,
        applied(s, plan_of(input)).secret is Some,
{
}

/// Deletion: applying a plan and then deleting the owning custom resource
/// garbage-collects every one of the four children, whatever stood in the
/// namespace before.
pub proof fn lemma_children_collected_on_delete(s: ClusterChildrenView, input: ReconcileInputView)
    ensures
        collected(applied(s, plan_of(input)), input.uid) == no_children(),
{
    let p = plan_of(input);
    assert(p.budget.owner_references[0].uid == input.uid && p.budget.owner_references[0].controller);
    assert(owned_by(p.budget.owner_references, input.uid));
    assert(owned_by(p.workload.owner_references, input.uid));
    assert(owned_by(p.service.owner_references, input.uid));
    assert(owned_by(p.secret.owner_references, input.uid));
}

// ---------------------------------------------------------------------------
// Voluntary eviction against the budget.
// ---------------------------------------------------------------------------
/// The value of a label key in a label set: the first pair carrying the
/// key, absent when none does.
pub open spec fn label_value_of(labels: Seq<LabelView>, key: Seq<char>) -> Option<Seq<char>>
    decreases labels.len(),
{
    if labels.len() == 0 {
        None
    } else if labels[0].key == key {
        Some(labels[0].value)
    } else {
        label_value_of(labels.drop_first(), key)
    }
}

proof fn lemma_label_value_is(labels: Seq<LabelView>, key: Seq<char>, k: nat)
    requires
        k <= labels.len(),
        forall|j: int| 0 <= j < k ==> (#[trigger] labels[j]).key != key,
        k < labels.len() ==> labels[k as int].key == key,
    ensures
        label_value_of(labels, key) == if k < labels.len() {
            Some(labels[k as int].value)
        } else {
            None::<Seq<char>>
        },
    decreases labels.len(),
{
    if labels.len() == 0 {
    } else if labels[0].key == key {
        assert(k == 0) by {
            if k > 0 {
                assert(labels[0].key != key);
            }
        }
    } else {
        let t = labels.drop_first();
        assert(forall|j: int| 0 <= j < k - 1 ==> (#[trigger] t[j]) == labels[j + 1]);
        lemma_label_value_is(t, key, (k - 1) as nat);
    }
}

/// The pod's effective destroyability: the value of the opt-in label, a
/// missing label counting as `false` — absence protects from voluntary
/// eviction.
pub open spec fn destroyable_value_of(labels: Seq<LabelView>) -> Seq<char> {
    match label_value_of(labels, destroyable_label_key()) {
        Some(v) => v,
        None => "false"@,
    }
}

/// Does the budget's selector cover this pod? An ordinary pair must stand
/// among the pod's labels; the destroyable pair is compared against the
/// pod's effective value, where a missing label counts as `false` (the
/// opt-in convention).
pub open spec fn budget_covers(selector: Seq<LabelView>, pod_labels: Seq<LabelView>) -> bool {
    forall|i: int|
        0 <= i < selector.len() ==> {
            let l = #[trigger] selector[i];
            if l.key == destroyable_label_key() {
                destroyable_value_of(pod_labels) == l.value
            } else {
                has_label(pod_labels, l)
            }
        }
}

/// The pod's effective destroyable value, as the budget reads it.
pub fn destroyable_value(pod_labels: &Vec<Label>) -> (r: String)
    ensures
        r@ == destroyable_value_of(label_views(pod_labels@)),
{
    let ghost lv = label_views(pod_labels@);
    let mut i: usize = 0;
    while i < pod_labels.len()
        invariant
            i <= pod_labels.len(),
            lv == label_views(pod_labels@),
            forall|j: int| 0 <= j < i ==> (#[trigger] lv[j]).key != destroyable_label_key(),
        decreases pod_labels.len() - i,
    {
        let mut key = String::new();
        key.append("mycelium.njha.dev/destroyable");
        if pod_labels[i].key == key {
            proof {
                assert(lv[i as int].key == destroyable_label_key());
                lemma_label_value_is(lv, destroyable_label_key(), i as nat);
            }
            return pod_labels[i].value.clone();
        }
        proof {
            assert(lv[i as int].key != destroyable_label_key());
        }
        i = i + 1;
    }
    proof {
        lemma_label_value_is(lv, destroyable_label_key(), pod_labels@.len() as nat);
    }
    let mut r = String::new();
    r.append("false");
    r
}

/// Whether a voluntary eviction of a pod with these labels goes through: it
/// is denied exactly when the budget tolerates no unavailability and its
/// selector covers the pod.
pub fn eviction_allowed(budget: &DisruptionBudget, pod_labels: &Vec<Label>) -> (b: bool)
    ensures
        b == !(budget.max_unavailable == 0 && budget_covers(
            label_views(budget.selector@),
            label_views(pod_labels@),
        )),
{
    if budget.max_unavailable != 0 {
        return true;
    }
    let ghost sv = label_views(budget.selector@);
    let mut i: usize = 0;
    while i < budget.selector.len()
        invariant
            i <= budget.selector.len(),
            sv == label_views(budget.selector@),
            budget.max_unavailable == 0,
            forall|j: int|
                0 <= j < i ==> {
                    let l = #[trigger] sv[j];
                    if l.key == destroyable_label_key() {
                        destroyable_value_of(label_views(pod_labels@)) == l.value
                    } else {
                        has_label(label_views(pod_labels@), l)
                    }
                },
        decreases budget.selector.len() - i,
    {
        let mut destroyable_key = String::new();
        destroyable_key.append("mycelium.njha.dev/destroyable");
        let covered: bool = if budget.selector[i].key == destroyable_key {
            let value = destroyable_value(pod_labels);
            value == budget.selector[i].value
        } else {
            has_label_exec(pod_labels, &budget.selector[i])
        };
        if !covered {
            proof {
                assert(!budget_covers(sv, label_views(pod_labels@))) by {
                    let l = sv[i as int];
                    assert(l == budget.selector@[i as int]@);
                    if l.key == destroyable_label_key() {
                        assert(destroyable_value_of(label_views(pod_labels@)) != l.value);
                    } else {
                        assert(!has_label(label_views(pod_labels@), l));
                    }
                }
            }
            return true;
        }
        i = i + 1;
    }
    proof {
        assert(budget_covers(sv, label_views(pod_labels@)));
    }
    false
}

/// Eviction safety: the plan's budget tolerates no unavailability, and for
/// a pod carrying the workload's identifying label it covers the pod — and
/// so denies a voluntary eviction — exactly when the pod's effective
/// destroyable value is `false`, which is also what a missing label counts
/// as. A pod opts out of this protection only by carrying a different
/// value, such as `true`.
pub proof fn lemma_eviction_safety(input: ReconcileInputView, pod_labels: Seq<LabelView>)
    requires
        has_label(
            pod_labels,
            LabelView { key: mycelium_label_key(input.shortname), value: input.name },
        ),
        mycelium_label_key(input.shortname) != destroyable_label_key(),
    ensures
        plan_of(input).budget.max_unavailable == 0,
        budget_covers(plan_of(input).budget.selector, pod_labels) <==> destroyable_value_of(
            pod_labels,
        ) == "false"@,
{
    let sel = plan_of(input).budget.selector;
    assert(sel == budget_selector_of(input.shortname, input.name));
    assert(sel[0] == (LabelView { key: mycelium_label_key(input.shortname), value: input.name }));
    assert(sel[1] == (LabelView { key: destroyable_label_key(), value: "false"@ }));
    assert(sel.len() == 2);
    if destroyable_value_of(pod_labels) == "false"@ {
        assert forall|i: int| 0 <= i < sel.len() implies {
            let l = #[trigger] sel[i];
            if l.key == destroyable_label_key() {
                destroyable_value_of(pod_labels) == l.value
            } else {
                has_label(pod_labels, l)
            }
        } by {
            if i == 0 {
            } else {
                assert(i == 1);
            }
        }
    }
    if budget_covers(sel, pod_labels) {
        assert(sel[1].key == destroyable_label_key());
        assert(destroyable_value_of(pod_labels) == sel[1].value);
    }
}

} // verus!
