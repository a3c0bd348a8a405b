use vstd::prelude::*;
use vstd::pervasive::unreached;
use vstd::string::StringExecFns;

use crate::objects::minecraft_proxy::{LabelSelectorView, MinecraftProxy};
use crate::objects::minecraft_set::{MinecraftSet, MinecraftSetView};
use crate::objects::{label_views, Label, LabelView};
use crate::text::{comma_join, dec_str, join_comma, u32_to_string};
use crate::Error;

verus! {

/// One backend endpoint handed to a proxy by the discovery query.
#[derive(Debug, Clone, PartialEq, Eq)]
pub struct VelocityServerEntry {
    /// IP address or DNS name of the backend.
    pub address: String,
    /// Optional forced host routed to this backend.
    pub host: Option<String>,
    /// Unique name of the backend instance.
    pub name: String,
    /// Priority for the default try list.
    pub priority: Option<u32>,
}

pub struct VelocityServerEntryView {
    pub address: Seq<char>,
    pub host: Option<Seq<char>>,
    pub name: Seq<char>,
    pub priority: Option<u32>,
}

impl View for VelocityServerEntry {
    type V = VelocityServerEntryView;

    open spec fn view(&self) -> VelocityServerEntryView {
        VelocityServerEntryView {
            address: self.address@,
            host: match self.host {
                Some(h) => Some(h@),
                None => None,
            },
            name: self.name@,
            priority: self.priority,
        }
    }
}

/// Operator-level configuration, read once at startup.
#[derive(Debug, Clone, PartialEq, Eq)]
pub struct MyceliumConfig {
    /// The global forwarding secret every per-namespace token is derived from.
    pub forwarding_secret: String,
    /// The image that child pods run.
    pub runner_image: String,
}

pub struct MyceliumConfigView {
    pub forwarding_secret: Seq<char>,
    pub runner_image: Seq<char>,
}

impl View for MyceliumConfig {
    type V = MyceliumConfigView;

    open spec fn view(&self) -> MyceliumConfigView {
        MyceliumConfigView {
            forwarding_secret: self.forwarding_secret@,
            runner_image: self.runner_image@,
        }
    }
}

/// What the controller should do after a reconcile attempt.
#[derive(Debug, Clone, PartialEq, Eq)]
pub struct ReconcilerAction {
    /// Re-run the reconcile after this many seconds; nothing scheduled when
    /// absent (the controller still re-triggers on watched-object changes).
    pub requeue_after_secs: Option<u64>,
}

/// Every failed reconcile is retried after a fixed 360-second pause, so
/// transient API errors self-heal and persistent misconfiguration retries
/// slowly.
pub fn error_policy(error: &Error) -> (r: ReconcilerAction)
    ensures
        r.requeue_after_secs == Some(360u64),
{
    let _ = error;
    ReconcilerAction { requeue_after_secs: Some(360) }
}

// ---------------------------------------------------------------------------
// The cross-resource join: which backends a proxy routes to.
// ---------------------------------------------------------------------------
/// One `key=value` term of an equality-based label selector string.
pub open spec fn selector_pair_of(l: LabelView) -> Seq<char> {
    l.key + "="@ + l.value
}

/// The equality-based selector string of a matchLabels list: the `key=value`
/// terms joined with commas.
pub open spec fn selector_string_of(labels: Seq<LabelView>) -> Seq<char> {
    comma_join(labels.map_values(|l: LabelView| selector_pair_of(l)))
}

/// Renders a matchLabels list as the equality-based selector string handed
/// to the Kubernetes list call.
pub fn selector_string(labels: &Vec<Label>) -> (r: String)
    ensures
        r@ == selector_string_of(label_views(labels@)),
{
    let mut terms: Vec<String> = Vec::new();
    let mut i: usize = 0;
    while i < labels.len()
        invariant
            i <= labels.len(),
            terms@.len() == i,
            forall|j: int| 0 <= j < i ==> terms@[j]@ == selector_pair_of(labels@[j]@),
        decreases labels.len() - i,
    {
        let mut term = labels[i].key.clone();
        term.append("=");
        term.append(labels[i].value.as_str());
        terms.push(term);
        i = i + 1;
    }
    proof {
        assert(terms@.map_values(|s: String| s@) =~= label_views(labels@).map_values(
            |l: LabelView| selector_pair_of(l),
        ));
    }
    join_comma(&terms)
}

/// Does the label set carry exactly this pair?
pub open spec fn has_label(labels: Seq<LabelView>, l: LabelView) -> bool {
    exists|i: int| 0 <= i < labels.len() && labels[i] == l
}

/// Does an equality selector select an object with these labels? Every
/// required pair must be present, and an absent or empty `matchLabels`
/// selects nothing (conservative, not "everything").
pub open spec fn selector_selects(selector: Option<LabelSelectorView>, labels: Seq<LabelView>) -> bool {
    match selector {
        None => false,
        Some(s) => match s.match_labels {
            None => false,
            Some(m) => m.len() > 0 && forall|i: int|
                0 <= i < m.len() ==> has_label(labels, #[trigger] m[i]),
        },
    }
}

/// The labels of a set, an empty sequence when absent.
pub open spec fn set_labels_of(set: MinecraftSetView) -> Seq<LabelView> {
    match set.metadata.labels {
        Some(l) => l,
        None => Seq::empty(),
    }
}

pub(crate) fn has_label_exec(labels: &Vec<Label>, wanted: &Label) -> (b: bool)
    ensures
        b == has_label(label_views(labels@), wanted@),
{
    let mut i: usize = 0;
    while i < labels.len()
        invariant
            i <= labels.len(),
            forall|j: int| 0 <= j < i ==> label_views(labels@)[j] != wanted@,
        decreases labels.len() - i,
    {
        if labels[i].key == wanted.key && labels[i].value == wanted.value {
            proof {
                assert(label_views(labels@)[i as int] == wanted@);
            }
            return true;
        }
        proof {
            assert(label_views(labels@)[i as int] != wanted@);
        }
        i = i + 1;
    }
    false
}

/// Does this proxy select this set? True exactly when the proxy has a
/// non-empty matchLabels list and every one of its pairs stands among the
/// set's labels.
pub fn proxy_selects(proxy: &MinecraftProxy, set: &MinecraftSet) -> (b: bool)
    ensures
        b == selector_selects(proxy@.spec.selector, set_labels_of(set@)),
{
    let selector = match &proxy.spec.selector {
        Some(s) => s,
        None => {
            return false;
        },
    };
    let match_labels = match &selector.match_labels {
        Some(m) => m,
        None => {
            return false;
        },
    };
    if match_labels.len() == 0 {
        return false;
    }
    let empty_labels: Vec<Label> = Vec::new();
    let set_labels: &Vec<Label> = match &set.metadata.labels {
        Some(l) => l,
        None => &empty_labels,
    };
    proof {
        assert(label_views(set_labels@) == set_labels_of(set@));
    }
    let mut i: usize = 0;
    while i < match_labels.len()
        invariant
            i <= match_labels.len(),
            proxy@.spec.selector is Some,
            proxy@.spec.selector->0.match_labels is Some,
            proxy@.spec.selector->0.match_labels->0 == label_views(match_labels@),
            match_labels@.len() > 0,
            label_views(set_labels@) == set_labels_of(set@),
            forall|j: int| 0 <= j < i ==> has_label(
                set_labels_of(set@),
                #[trigger] label_views(match_labels@)[j],
            ),
        decreases match_labels.len() - i,
    {
        if !has_label_exec(set_labels, &match_labels[i]) {
            proof {
                assert(!has_label(set_labels_of(set@), label_views(match_labels@)[i as int]));
            }
            return false;
        }
        i = i + 1;
    }
    true
}

/// The replica count of a set as a natural number; a negative count yields
/// no entries.
pub open spec fn replicas_nat(replicas: i32) -> nat {
    if replicas >= 0 {
        replicas as nat
    } else {
        0
    }
}

/// The join entry of replica `i` of a set: the stable per-pod DNS name the
/// headless service provides, the per-instance name `{set}-{i}`, and the
/// set's forced host and priority.
pub open spec fn set_entry_of(set: MinecraftSetView, i: int) -> VelocityServerEntryView {
    VelocityServerEntryView {
        address: set.metadata.name->0 + "-"@ + dec_str(i as nat) + "."@ + set.metadata.name->0
            + "."@ + set.metadata.namespace->0 + ".svc.cluster.local"@,
        host: set.spec.proxy.hostname,
        name: set.metadata.name->0 + "-"@ + dec_str(i as nat),
        priority: set.spec.proxy.priority,
    }
}

/// All entries of one set: one per replica index, ascending.
pub open spec fn set_entries_of(set: MinecraftSetView) -> Seq<VelocityServerEntryView> {
    Seq::new(replicas_nat(set.spec.replicas), |i: int| set_entry_of(set, i))
}

/// The sets a selector picks out of a listing, in listing order.
pub open spec fn selected_sets_of(
    selector: Option<LabelSelectorView>,
    sets: Seq<MinecraftSetView>,
) -> Seq<MinecraftSetView>
    decreases sets.len(),
{
    if sets.len() == 0 {
        Seq::empty()
    } else {
        selected_sets_of(selector, sets.drop_last()) + (if selector_selects(
            selector,
            set_labels_of(sets.last()),
        ) {
            seq![sets.last()]
        } else {
            Seq::empty()
        })
    }
}

/// The flattened join result: the entries of each selected set in listing
/// order, each set's entries in ascending replica order.
pub open spec fn join_entries_of(sets: Seq<MinecraftSetView>) -> Seq<VelocityServerEntryView>
    decreases sets.len(),
{
    if sets.len() == 0 {
        Seq::empty()
    } else {
        join_entries_of(sets.drop_last()) + set_entries_of(sets.last())
    }
}

/// The total replica count of a listing.
pub open spec fn sum_replicas(sets: Seq<MinecraftSetView>) -> nat
    decreases sets.len(),
{
    if sets.len() == 0 {
        0
    } else {
        sum_replicas(sets.drop_last()) + replicas_nat(sets.last().spec.replicas)
    }
}

/// Join correctness: the join of a listing has exactly the sum of the
/// listed sets' replica counts as its length. What each entry holds — the
/// pod's stable DNS name, the instance name, the forced host — is pinned by
/// the entry construction the join is defined over.
pub proof fn lemma_join_correctness(sets: Seq<MinecraftSetView>)
    ensures
        join_entries_of(sets).len() == sum_replicas(sets),
    decreases sets.len(),
{
    if sets.len() > 0 {
        lemma_join_correctness(sets.drop_last());
    }
}

fn set_entries(set: &MinecraftSet) -> (r: Vec<VelocityServerEntry>)
    requires
        set.metadata.name is Some,
        set.metadata.namespace is Some,
    ensures
        r@.map_values(|e: VelocityServerEntry| e@) == set_entries_of(set@),
{
    let name: &String = match &set.metadata.name {
        Some(n) => n,
        None => unreached(),
    };
    let ns: &String = match &set.metadata.namespace {
        Some(n) => n,
        None => unreached(),
    };
    let mut r: Vec<VelocityServerEntry> = Vec::new();
    let mut i: i32 = 0;
    while i < set.spec.replicas
        invariant
            0 <= i,
            i as int <= replicas_nat(set.spec.replicas),
            name@ == set@.metadata.name->0,
            ns@ == set@.metadata.namespace->0,
            r@.len() == i,
            forall|j: int| 0 <= j < i ==> r@[j]@ == set_entry_of(set@, j),
        decreases set.spec.replicas - i,
    {
        let index = u32_to_string(i as u32);
        let mut instance = name.clone();
        instance.append("-");
        instance.append(index.as_str());

        let mut address = instance.clone();
        address.append(".");
        address.append(name.as_str());
        address.append(".");
        address.append(ns.as_str());
        address.append(".svc.cluster.local");

        r.push(
            VelocityServerEntry {
                address,
                host: crate::objects::clone_opt_string(&set.spec.proxy.hostname),
                name: instance,
                priority: set.spec.proxy.priority,
            },
        );
        proof {
            assert(r@[i as int]@ == set_entry_of(set@, i as int));
        }
        i = i + 1;
    }
    proof {
        assert(r@.map_values(|e: VelocityServerEntry| e@) =~= set_entries_of(set@));
    }
    r
}

/// The backend list a proxy should route to, computed from the proxy's
/// selector and a listing of the namespace's sets: the entries of every
/// selected set, one per replica, in listing order. A set without a name or
/// namespace cannot be addressed, so the listing must carry both.
pub fn get_sets(proxy: &MinecraftProxy, sets: &Vec<MinecraftSet>) -> (r: Vec<VelocityServerEntry>)
    requires
        forall|j: int| 0 <= j < sets@.len() ==> (#[trigger] sets@[j]).metadata.name is Some
            && sets@[j].metadata.namespace is Some,
    ensures
        r@.map_values(|e: VelocityServerEntry| e@) == join_entries_of(
            selected_sets_of(proxy@.spec.selector, sets@.map_values(|s: MinecraftSet| s@)),
        ),
{
    let ghost views = sets@.map_values(|s: MinecraftSet| s@);
    let ghost sel = proxy@.spec.selector;
    let mut r: Vec<VelocityServerEntry> = Vec::new();
    proof {
        assert(views.take(0) =~= Seq::<MinecraftSetView>::empty());
        assert(r@.map_values(|e: VelocityServerEntry| e@) =~= join_entries_of(
            selected_sets_of(sel, views.take(0)),
        ));
    }
    let mut i: usize = 0;
    while i < sets.len()
        invariant
            i <= sets.len(),
            views == sets@.map_values(|s: MinecraftSet| s@),
            sel == proxy@.spec.selector,
            forall|j: int| 0 <= j < sets@.len() ==> (#[trigger] sets@[j]).metadata.name is Some
                && sets@[j].metadata.namespace is Some,
            r@.map_values(|e: VelocityServerEntry| e@) == join_entries_of(
                selected_sets_of(sel, views.take(i as int)),
            ),
        decreases sets.len() - i,
    {
        let ghost prefix = selected_sets_of(sel, views.take(i as int));
        proof {
            assert(views.take(i + 1).drop_last() =~= views.take(i as int));
            assert(views.take(i + 1).last() == views[i as int]);
            assert(views[i as int] == sets@[i as int]@);
        }
        if proxy_selects(proxy, &sets[i]) {
            let mut entries = set_entries(&sets[i]);
            let ghost entries_v = entries@;
            r.append(&mut entries);
            proof {
                assert(selected_sets_of(sel, views.take(i + 1)) =~= prefix + seq![
                    views[i as int],
                ]);
                assert((prefix + seq![views[i as int]]).drop_last() =~= prefix);
                assert(join_entries_of(prefix + seq![views[i as int]]) == join_entries_of(prefix)
                    + set_entries_of(views[i as int]));
                assert(r@.map_values(|e: VelocityServerEntry| e@) =~= join_entries_of(
                    selected_sets_of(sel, views.take(i + 1)),
                ));
            }
        } else {
            proof {
                assert(selected_sets_of(sel, views.take(i + 1)) =~= prefix);
                assert(r@.map_values(|e: VelocityServerEntry| e@) =~= join_entries_of(
                    selected_sets_of(sel, views.take(i + 1)),
                ));
            }
        }
        i = i + 1;
    }
    proof {
        assert(views.take(sets@.len() as int) =~= views);
    }
    r
}

} // verus!
