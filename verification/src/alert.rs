//! The Prometheus rule document the translation engine produces: groups of
//! rules, each with an expression, a window, labels and annotations.

use vstd::prelude::*;

use crate::crd::{lookup, LabelsSeq};

verus! {

/// Rule severity as Prometheus sees it.
#[derive(Clone, Copy, Debug, PartialEq, Eq, Structural)]
pub enum PrometheusSeverity {
    Warning,
    Critical,
    Page,
}

/// The labels attached to one generated rule.
#[derive(Clone, Debug, PartialEq)]
pub struct Labels {
    pub severity: PrometheusSeverity,
    /// Where the owning resource came from (`commonLabels.origin`).
    pub source: String,
    /// Stable identifier of the owning team (`commonLabels.owner`).
    pub owner: String,
}

/// Mathematical view of [`Labels`].
#[verifier::ext_equal]
pub struct LabelsView {
    pub severity: PrometheusSeverity,
    pub source: Seq<char>,
    pub owner: Seq<char>,
}

impl View for Labels {
    type V = LabelsView;

    open spec fn view(&self) -> LabelsView {
        LabelsView { severity: self.severity, source: self.source@, owner: self.owner@ }
    }
}

/// Human-readable annotations of one generated rule.
#[derive(Clone, Debug, PartialEq)]
pub struct Annotations {
    pub summary: String,
    pub description: String,
}

/// Mathematical view of [`Annotations`].
#[verifier::ext_equal]
pub struct AnnotationsView {
    pub summary: Seq<char>,
    pub description: Seq<char>,
}

impl View for Annotations {
    type V = AnnotationsView;

    open spec fn view(&self) -> AnnotationsView {
        AnnotationsView { summary: self.summary@, description: self.description@ }
    }
}

/// One generated alerting rule.
#[derive(Clone, Debug, PartialEq)]
pub struct AlertRules {
    /// Unique, deterministically derived rule name.
    pub alert: String,
    /// The PromQL alerting expression.
    pub expr: String,
    /// How long the expression must hold before the alert fires.
    pub for_: String,
    pub labels: Labels,
    pub annotations: Annotations,
}

/// Mathematical view of [`AlertRules`].
#[verifier::ext_equal]
pub struct AlertRulesView {
    pub alert: Seq<char>,
    pub expr: Seq<char>,
    pub for_: Seq<char>,
    pub labels: LabelsView,
    pub annotations: AnnotationsView,
}

impl View for AlertRules {
    type V = AlertRulesView;

    open spec fn view(&self) -> AlertRulesView {
        AlertRulesView {
            alert: self.alert@,
            expr: self.expr@,
            for_: self.for_@,
            labels: self.labels@,
            annotations: self.annotations@,
        }
    }
}

/// One named group of rules; the translation engine emits one group per
/// populated category.
#[derive(Clone, Debug, PartialEq)]
pub struct AlertGroup {
    pub name: String,
    pub rules: Vec<AlertRules>,
}

/// Mathematical view of an [`AlertGroup`].
#[verifier::ext_equal]
pub struct AlertGroupView {
    pub name: Seq<char>,
    pub rules: Seq<AlertRulesView>,
}

impl View for AlertGroup {
    type V = AlertGroupView;

    open spec fn view(&self) -> AlertGroupView {
        AlertGroupView {
            name: self.name@,
            rules: self.rules@.map_values(|r: AlertRules| r@),
        }
    }
}

/// A whole Prometheus rule document.
#[derive(Clone, Debug, PartialEq)]
pub struct PromAlerts {
    pub groups: Vec<AlertGroup>,
}

/// Mathematical view of a [`PromAlerts`] document.
#[verifier::ext_equal]
pub struct PromAlertsView {
    pub groups: Seq<AlertGroupView>,
}

impl View for PromAlerts {
    type V = PromAlertsView;

    open spec fn view(&self) -> PromAlertsView {
        PromAlertsView { groups: self.groups@.map_values(|g: AlertGroup| g@) }
    }
}

/// The severity a label map selects: the value bound to `severity`, with
/// anything missing or unrecognized defaulting to `warning`.
pub open spec fn severity_of(labels: LabelsSeq) -> PrometheusSeverity {
    match lookup(labels, "severity"@) {
        Some(v) => if v == "warning"@ {
            PrometheusSeverity::Warning
        } else if v == "critical"@ {
            PrometheusSeverity::Critical
        } else if v == "page"@ {
            PrometheusSeverity::Page
        } else {
            PrometheusSeverity::Warning
        },
        None => PrometheusSeverity::Warning,
    }
}

/// Reads a rule's severity from its label map, defaulting to `warning` when
/// the `severity` key is absent or its value is not recognized.
pub fn severity_from_labels(labels: &Vec<(String, String)>) -> (s: PrometheusSeverity)
    ensures
        s == severity_of(crate::crd::labels_view(labels@)),
{
    let key: String = "severity".to_owned();
    match crate::crd::lookup_value(labels, &key) {
        Some(v) => {
            if v.eq(&"warning".to_owned()) {
                PrometheusSeverity::Warning
            } else if v.eq(&"critical".to_owned()) {
                PrometheusSeverity::Critical
            } else if v.eq(&"page".to_owned()) {
                PrometheusSeverity::Page
            } else {
                PrometheusSeverity::Warning
            }
        },
        None => PrometheusSeverity::Warning,
    }
}

/// Severity defaulting, stated on its own: a label map without a `severity`
/// key selects the `warning` severity.
pub proof fn lemma_severity_default(labels: LabelsSeq)
    requires
        lookup(labels, "severity"@) is None,
    ensures
        severity_of(labels) == PrometheusSeverity::Warning,
{
}

} // verus!
