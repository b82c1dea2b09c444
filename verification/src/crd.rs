//! The `ServiceAlert` custom resource model: the desired state written by
//! users, as the translation engine and the reconciler read it.
//!
//! Label maps and alert-category maps are held as vectors of pairs in the
//! order the object presented them, so that translation walks them in a
//! stable order; a well-formed object never repeats a key (see
//! [`Alerts::wf`]).

use vstd::prelude::*;

verus! {

/// Comparison applied between the observed value and the threshold.
#[derive(Clone, Copy, Debug, PartialEq, Eq, Structural)]
pub enum Operation {
    EqualTo,
    LessThan,
    MoreThan,
}

/// Alert kinds available for the network categories (REST and gRPC).
#[derive(Clone, Copy, Debug, PartialEq, Eq, Structural)]
pub enum NetworkAlert {
    ErrorPercent,
    TrafficPerSecond,
    LatencyMillisecondsP50,
    LatencyMillisecondsP90,
    LatencyMillisecondsP95,
    LatencyMillisecondsP99,
}

/// Alert kinds available for the replica category.
#[derive(Clone, Copy, Debug, PartialEq, Eq, Structural)]
pub enum ReplicaAlert {
    Count,
}

/// Severity values the custom resource schema names.
#[derive(Clone, Copy, Debug, PartialEq, Eq, Structural)]
pub enum Severity {
    Warning,
    Critical,
}

/// The PromQL comparison operator text for an [`Operation`].
pub open spec fn op_text(op: Operation) -> Seq<char> {
    match op {
        Operation::EqualTo => "=="@,
        Operation::LessThan => "<"@,
        Operation::MoreThan => ">"@,
    }
}

/// Returns the PromQL comparison operator for `op`: `==`, `<` or `>`.
pub fn op_str(op: &Operation) -> (s: &'static str)
    ensures
        s@ == op_text(*op),
{
    match op {
        Operation::EqualTo => "==",
        Operation::LessThan => "<",
        Operation::MoreThan => ">",
    }
}

/// View of a label map: key/value pairs in presentation order.
pub type LabelsSeq = Seq<(Seq<char>, Seq<char>)>;

/// The view of a `Vec<(String, String)>` label map.
pub open spec fn labels_view(labels: Seq<(String, String)>) -> LabelsSeq {
    labels.map_values(|p: (String, String)| (p.0@, p.1@))
}

/// The value bound to `key`, taking the first pair whose key matches.
pub open spec fn lookup(labels: LabelsSeq, key: Seq<char>) -> Option<Seq<char>>
    decreases labels.len(),
{
    if labels.len() == 0 {
        None
    } else if labels[0].0 == key {
        Some(labels[0].1)
    } else {
        lookup(labels.skip(1), key)
    }
}

/// Finds the value bound to `key` in a label map.
pub fn lookup_value(labels: &Vec<(String, String)>, key: &String) -> (r: Option<String>)
    ensures
        match r {
            Some(v) => lookup(labels_view(labels@), key@) == Some(v@),
            None => lookup(labels_view(labels@), key@) is None,
        },
{
    let ghost lv = labels_view(labels@);
    proof {
        assert(lv.skip(0) =~= lv);
    }
    let mut i: usize = 0;
    while i < labels.len()
        invariant
            i <= labels.len(),
            lv == labels_view(labels@),
            lv.len() == labels@.len(),
            lookup(lv, key@) == lookup(lv.skip(i as int), key@),
        decreases labels.len() - i,
    {
        proof {
            assert(lv.skip(i as int)[0] == lv[i as int]);
            assert(lv[i as int] == (labels@[i as int].0@, labels@[i as int].1@));
        }
        if labels[i].0.eq(key) {
            return Some(labels[i].1.clone());
        }
        proof {
            assert(lv.skip(i as int).skip(1) =~= lv.skip(i as int + 1));
        }
        i = i + 1;
    }
    proof {
        assert(lv.skip(labels@.len() as int) =~= Seq::<(Seq<char>, Seq<char>)>::empty());
    }
    None
}

/// One threshold rule. The numeric threshold and the evaluation window are
/// carried as text and embedded verbatim in the generated expressions, so
/// that re-generation is byte-identical.
#[derive(Clone, Debug, PartialEq)]
pub struct AlertConfig {
    /// Comparison between observed value and threshold.
    pub operation: Operation,
    /// Decimal text of the numeric threshold (for instance `3` or `99.5`).
    pub value: String,
    /// Prometheus duration text (for instance `5m`); opaque, passed through.
    pub for_: String,
    /// Extra rule labels; `severity` selects the rule's severity.
    pub with_labels: Vec<(String, String)>,
}

/// Mathematical view of an [`AlertConfig`].
#[verifier::ext_equal]
pub struct AlertConfigView {
    pub operation: Operation,
    pub value: Seq<char>,
    pub for_: Seq<char>,
    pub with_labels: LabelsSeq,
}

impl View for AlertConfig {
    type V = AlertConfigView;

    open spec fn view(&self) -> AlertConfigView {
        AlertConfigView {
            operation: self.operation,
            value: self.value@,
            for_: self.for_@,
            with_labels: labels_view(self.with_labels@),
        }
    }
}

/// Labels shared by every rule generated from one resource.
#[derive(Clone, Debug, PartialEq)]
pub struct CommonLabels {
    /// Stable identifier of the owning team; keys the owned artifact.
    pub owner: String,
    /// Where the resource came from; becomes each rule's `source` label.
    pub origin: String,
    /// Free-form extra labels.
    pub extra: Vec<(String, String)>,
}

/// Mathematical view of [`CommonLabels`].
#[verifier::ext_equal]
pub struct CommonLabelsView {
    pub owner: Seq<char>,
    pub origin: Seq<char>,
    pub extra: LabelsSeq,
}

impl View for CommonLabels {
    type V = CommonLabelsView;

    open spec fn view(&self) -> CommonLabelsView {
        CommonLabelsView {
            owner: self.owner@,
            origin: self.origin@,
            extra: labels_view(self.extra@),
        }
    }
}

/// The view of a list of alert configurations.
pub open spec fn configs_view(configs: Seq<AlertConfig>) -> Seq<AlertConfigView> {
    configs.map_values(|c: AlertConfig| c@)
}

/// The view of one alert category: kind to configured rules, in presentation
/// order.
pub type CategorySeq<K> = Seq<(K, Seq<AlertConfigView>)>;

/// The view of a category held as `Vec<(K, Vec<AlertConfig>)>`.
pub open spec fn category_view<K>(entries: Seq<(K, Vec<AlertConfig>)>) -> CategorySeq<K> {
    entries.map_values(
        |e: (K, Vec<AlertConfig>)| (e.0, e.1@.map_values(|c: AlertConfig| c@)),
    )
}

/// No kind appears twice in a category.
pub open spec fn keys_unique<K>(entries: CategorySeq<K>) -> bool {
    forall|i: int, j: int|
        0 <= i < j < entries.len() ==> (#[trigger] entries[i]).0 != (#[trigger] entries[j]).0
}

/// The alert categories of a specification, each present or absent. A
/// present category maps alert kinds to configured rules, in the order the
/// object presented them.
#[derive(Clone, Debug, PartialEq)]
pub struct Alerts {
    pub grpc: Option<Vec<(NetworkAlert, Vec<AlertConfig>)>>,
    pub rest: Option<Vec<(NetworkAlert, Vec<AlertConfig>)>>,
    pub replica: Option<Vec<(ReplicaAlert, Vec<AlertConfig>)>>,
}

/// Mathematical view of [`Alerts`].
#[verifier::ext_equal]
pub struct AlertsView {
    pub grpc: Option<CategorySeq<NetworkAlert>>,
    pub rest: Option<CategorySeq<NetworkAlert>>,
    pub replica: Option<CategorySeq<ReplicaAlert>>,
}

impl View for Alerts {
    type V = AlertsView;

    open spec fn view(&self) -> AlertsView {
        AlertsView {
            grpc: match self.grpc {
                Some(v) => Some(category_view(v@)),
                None => None,
            },
            rest: match self.rest {
                Some(v) => Some(category_view(v@)),
                None => None,
            },
            replica: match self.replica {
                Some(v) => Some(category_view(v@)),
                None => None,
            },
        }
    }
}

impl Alerts {
    /// Well-formedness: each category, where present, is a map — no kind
    /// repeats.
    pub open spec fn wf(&self) -> bool {
        &&& match self@.grpc {
            Some(c) => keys_unique(c),
            None => true,
        }
        &&& match self@.rest {
            Some(c) => keys_unique(c),
            None => true,
        }
        &&& match self@.replica {
            Some(c) => keys_unique(c),
            None => true,
        }
    }
}

/// The desired state of one `ServiceAlert` object.
#[derive(Clone, Debug, PartialEq)]
pub struct ServiceAlertSpec {
    pub common_labels: CommonLabels,
    pub deployment_name: String,
    pub alerts: Alerts,
}

/// Mathematical view of a [`ServiceAlertSpec`].
#[verifier::ext_equal]
pub struct ServiceAlertSpecView {
    pub common_labels: CommonLabelsView,
    pub deployment_name: Seq<char>,
    pub alerts: AlertsView,
}

impl View for ServiceAlertSpec {
    type V = ServiceAlertSpecView;

    open spec fn view(&self) -> ServiceAlertSpecView {
        ServiceAlertSpecView {
            common_labels: self.common_labels@,
            deployment_name: self.deployment_name@,
            alerts: self.alerts@,
        }
    }
}

/// The status sub-resource: written by the reconciler after a successful
/// apply, never read back as an input to reconciliation.
#[derive(Clone, Debug, PartialEq)]
pub struct ServiceAlertStatus {
    pub last_reconciled_at: Option<String>,
    pub reconciliation_expires_at: Option<String>,
}

/// Mathematical view of a [`ServiceAlertStatus`].
#[verifier::ext_equal]
pub struct ServiceAlertStatusView {
    pub last_reconciled_at: Option<Seq<char>>,
    pub reconciliation_expires_at: Option<Seq<char>>,
}

impl View for ServiceAlertStatus {
    type V = ServiceAlertStatusView;

    open spec fn view(&self) -> ServiceAlertStatusView {
        ServiceAlertStatusView {
            last_reconciled_at: match self.last_reconciled_at {
                Some(ref s) => Some(s@),
                None => None,
            },
            reconciliation_expires_at: match self.reconciliation_expires_at {
                Some(ref s) => Some(s@),
                None => None,
            },
        }
    }
}

} // verus!
