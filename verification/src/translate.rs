//! The translation engine: compiles a `ServiceAlert` specification into a
//! Prometheus rule document. Translation is a pure function of the
//! specification — no clock, no randomness, no I/O — so repeating it on an
//! unchanged specification reproduces the document exactly.

use vstd::prelude::*;

use crate::alert::{AlertGroup, AlertGroupView, AlertRules, PromAlerts, PromAlertsView};
use crate::crd::{
    category_view, configs_view, op_text, AlertConfigView, CategorySeq, NetworkAlert, Operation,
    ReplicaAlert, ServiceAlertSpec, ServiceAlertSpecView,
};
use crate::grpc_alerts::{grpc_expr, grpc_group, grpc_group_model, grpc_has_unsupported};
use crate::http_alerts::{http_expr, http_group_model, http_rules, quantile_text};
use crate::replica_alerts::{replica_count_rule_list, replica_expr, replica_rules_model};
use crate::text::{dec_str, embeds, lemma_embeds_concat};

verus! {

/// Why a specification cannot be translated. Translation is all-or-nothing:
/// any failure yields no document at all.
#[derive(Clone, Copy, Debug, PartialEq, Eq, Structural)]
pub enum TranslationError {
    /// The specification has no populated alert category.
    NoRulesDefined,
    /// An alert kind without a defined expression template was requested.
    UnsupportedAlertKind,
}

/// No alert category is populated.
pub open spec fn no_categories(s: ServiceAlertSpecView) -> bool {
    s.alerts.replica is None && s.alerts.rest is None && s.alerts.grpc is None
}

/// The gRPC category requests a kind without an expression template.
pub open spec fn grpc_unsupported_requested(s: ServiceAlertSpecView) -> bool {
    match s.alerts.grpc {
        Some(entries) => grpc_has_unsupported(entries),
        None => false,
    }
}

/// Rules of the first `n` entries of the replica category, concatenated in
/// entry order.
pub open spec fn replica_cat_rules_upto(
    s: ServiceAlertSpecView,
    entries: CategorySeq<ReplicaAlert>,
    n: int,
) -> Seq<crate::alert::AlertRulesView>
    decreases n,
{
    if n <= 0 {
        Seq::empty()
    } else {
        replica_cat_rules_upto(s, entries, n - 1) + replica_rules_model(s, entries[n - 1].1)
    }
}

/// The group generated for the replica category; a specification without the
/// category yields a group with no rules.
pub open spec fn replica_group_of(s: ServiceAlertSpecView) -> AlertGroupView {
    AlertGroupView {
        name: "Replica Alerts"@,
        rules: match s.alerts.replica {
            Some(entries) => replica_cat_rules_upto(s, entries, entries.len() as int),
            None => Seq::empty(),
        },
    }
}

/// The groups of a translated document: one per populated category, replica
/// first, then REST, then gRPC.
pub open spec fn compiled_groups(s: ServiceAlertSpecView) -> Seq<AlertGroupView> {
    (match s.alerts.replica {
        Some(_) => seq![replica_group_of(s)],
        None => Seq::empty(),
    }) + (match s.alerts.rest {
        Some(_) => seq![http_group_model(s)],
        None => Seq::empty(),
    }) + (match s.alerts.grpc {
        Some(_) => seq![grpc_group_model(s)],
        None => Seq::empty(),
    })
}

/// What translation yields for a specification: the document with one group
/// per populated category, or the error the specification forces.
pub open spec fn compile_model(s: ServiceAlertSpecView) -> Result<PromAlertsView, TranslationError> {
    if no_categories(s) {
        Err(TranslationError::NoRulesDefined)
    } else if grpc_unsupported_requested(s) {
        Err(TranslationError::UnsupportedAlertKind)
    } else {
        Ok(PromAlertsView { groups: compiled_groups(s) })
    }
}

/// Compiles a specification into a Prometheus rule document.
///
/// Succeeds exactly when at least one category is populated and no gRPC
/// entry requests the traffic kind; the document is then
/// [`compile_model`] of the specification. Fails with `NoRulesDefined`
/// exactly when no category is populated, and with `UnsupportedAlertKind`
/// exactly when categories exist but the gRPC category requests a kind
/// without a template.
pub fn compile(spec: &ServiceAlertSpec) -> (r: Result<PromAlerts, TranslationError>)
    ensures
        match r {
            Ok(d) => compile_model(spec@) == Ok::<PromAlertsView, TranslationError>(d@),
            Err(e) => compile_model(spec@) == Err::<PromAlertsView, TranslationError>(e),
        },
        (r matches Err(e) && e == TranslationError::NoRulesDefined) <==> no_categories(spec@),
        (r matches Err(e) && e == TranslationError::UnsupportedAlertKind) <==> (!no_categories(
            spec@,
        ) && grpc_unsupported_requested(spec@)),
{
    if spec.alerts.replica.is_none() && spec.alerts.rest.is_none() && spec.alerts.grpc.is_none() {
        return Err(TranslationError::NoRulesDefined);
    }
    let mut groups: Vec<AlertGroup> = Vec::new();
    match &spec.alerts.replica {
        Some(entries) => {
            let ghost ev = category_view(entries@);
            let mut rules: Vec<AlertRules> = Vec::new();
            let mut k: usize = 0;
            while k < entries.len()
                invariant
                    k <= entries.len(),
                    ev == category_view(entries@),
                    ev.len() == entries@.len(),
                    spec@.alerts.replica == Some(ev),
                    rules@.map_values(|r: AlertRules| r@) =~= replica_cat_rules_upto(
                        spec@,
                        ev,
                        k as int,
                    ),
                decreases entries.len() - k,
            {
                proof {
                    assert(ev[k as int] == (entries@[k as int].0, configs_view(
                        entries@[k as int].1@,
                    )));
                }
                match &entries[k].0 {
                    ReplicaAlert::Count => {
                        let mut entry_rules = replica_count_rule_list(&entries[k].1, spec);
                        let ghost rules_pre = rules@;
                        let ghost entry_pre = entry_rules@;
                        rules.append(&mut entry_rules);
                        proof {
                            assert(rules@.map_values(|r: AlertRules| r@) =~= rules_pre.map_values(
                                |r: AlertRules| r@,
                            ) + entry_pre.map_values(|r: AlertRules| r@));
                            assert(rules@.map_values(|r: AlertRules| r@) =~= replica_cat_rules_upto(
                                spec@,
                                ev,
                                k as int + 1,
                            ));
                        }
                    },
                }
                k = k + 1;
            }
            let g = AlertGroup { name: "Replica Alerts".to_owned(), rules };
            proof {
                assert(g@ =~= replica_group_of(spec@));
            }
            groups.push(g);
        },
        None => {},
    }
    if spec.alerts.rest.is_some() {
        groups.push(http_rules(spec));
    }
    if spec.alerts.grpc.is_some() {
        match grpc_group(spec) {
            Ok(g) => groups.push(g),
            Err(e) => {
                return Err(e);
            },
        }
    }
    let doc = PromAlerts { groups };
    proof {
        assert(doc@.groups =~= compiled_groups(spec@));
    }
    Ok(doc)
}

/// Every rule of the replica category carries the specification's common
/// labels.
proof fn lemma_replica_cat_labels(
    s: ServiceAlertSpecView,
    entries: CategorySeq<ReplicaAlert>,
    n: int,
    j: int,
)
    requires
        0 <= j < replica_cat_rules_upto(s, entries, n).len(),
    ensures
        replica_cat_rules_upto(s, entries, n)[j].labels.owner == s.common_labels.owner,
        replica_cat_rules_upto(s, entries, n)[j].labels.source == s.common_labels.origin,
    decreases n,
{
    let prefix = replica_cat_rules_upto(s, entries, n - 1);
    if j < prefix.len() {
        lemma_replica_cat_labels(s, entries, n - 1, j);
    }
}

/// Every rule of the REST category carries the specification's common
/// labels.
proof fn lemma_http_cat_labels(
    s: ServiceAlertSpecView,
    entries: CategorySeq<NetworkAlert>,
    n: int,
    j: int,
)
    requires
        0 <= j < crate::http_alerts::http_rules_upto(s, entries, n).len(),
    ensures
        crate::http_alerts::http_rules_upto(s, entries, n)[j].labels.owner
            == s.common_labels.owner,
        crate::http_alerts::http_rules_upto(s, entries, n)[j].labels.source
            == s.common_labels.origin,
    decreases n,
{
    let prefix = crate::http_alerts::http_rules_upto(s, entries, n - 1);
    if j < prefix.len() {
        lemma_http_cat_labels(s, entries, n - 1, j);
    }
}

/// Every rule of the gRPC category carries the specification's common
/// labels.
proof fn lemma_grpc_cat_labels(
    s: ServiceAlertSpecView,
    entries: CategorySeq<NetworkAlert>,
    n: int,
    j: int,
)
    requires
        0 <= j < crate::grpc_alerts::grpc_rules_upto(s, entries, n).len(),
    ensures
        crate::grpc_alerts::grpc_rules_upto(s, entries, n)[j].labels.owner
            == s.common_labels.owner,
        crate::grpc_alerts::grpc_rules_upto(s, entries, n)[j].labels.source
            == s.common_labels.origin,
    decreases n,
{
    let prefix = crate::grpc_alerts::grpc_rules_upto(s, entries, n - 1);
    if j < prefix.len() {
        lemma_grpc_cat_labels(s, entries, n - 1, j);
    }
}

/// Every group of a translated document is one of the three category
/// groups.
proof fn lemma_group_is_category_model(s: ServiceAlertSpecView, gi: int)
    requires
        0 <= gi < compiled_groups(s).len(),
    ensures
        compiled_groups(s)[gi] == replica_group_of(s) || compiled_groups(s)[gi]
            == http_group_model(s) || compiled_groups(s)[gi] == grpc_group_model(s),
{
    match (s.alerts.replica, s.alerts.rest, s.alerts.grpc) {
        (Some(_), Some(_), Some(_)) => {
            assert(compiled_groups(s) =~= seq![
                replica_group_of(s),
                http_group_model(s),
                grpc_group_model(s),
            ]);
        },
        (Some(_), Some(_), None) => {
            assert(compiled_groups(s) =~= seq![replica_group_of(s), http_group_model(s)]);
        },
        (Some(_), None, Some(_)) => {
            assert(compiled_groups(s) =~= seq![replica_group_of(s), grpc_group_model(s)]);
        },
        (Some(_), None, None) => {
            assert(compiled_groups(s) =~= seq![replica_group_of(s)]);
        },
        (None, Some(_), Some(_)) => {
            assert(compiled_groups(s) =~= seq![http_group_model(s), grpc_group_model(s)]);
        },
        (None, Some(_), None) => {
            assert(compiled_groups(s) =~= seq![http_group_model(s)]);
        },
        (None, None, Some(_)) => {
            assert(compiled_groups(s) =~= seq![grpc_group_model(s)]);
        },
        (None, None, None) => {
            assert(compiled_groups(s) =~= Seq::<AlertGroupView>::empty());
        },
    }
}

/// The label rule: every rule of a translated document carries the
/// specification's `owner` as its `owner` label and its `origin` as its
/// `source` label. In particular the first rule's `owner` — the key the
/// owned artifact is stored under — is exactly the specification's owner:
/// one owner per artifact.
pub proof fn lemma_label_rule(s: ServiceAlertSpecView, gi: int, rj: int)
    requires
        compile_model(s) is Ok,
        0 <= gi < compile_model(s)->Ok_0.groups.len(),
        0 <= rj < compile_model(s)->Ok_0.groups[gi].rules.len(),
    ensures
        compile_model(s)->Ok_0.groups[gi].rules[rj].labels.owner == s.common_labels.owner,
        compile_model(s)->Ok_0.groups[gi].rules[rj].labels.source == s.common_labels.origin,
{
    let g = compile_model(s)->Ok_0.groups[gi];
    lemma_group_is_category_model(s, gi);
    if g == replica_group_of(s) {
        match s.alerts.replica {
            Some(entries) => lemma_replica_cat_labels(s, entries, entries.len() as int, rj),
            None => {},
        }
    } else if g == http_group_model(s) {
        match s.alerts.rest {
            Some(entries) => lemma_http_cat_labels(s, entries, entries.len() as int, rj),
            None => {},
        }
    } else {
        match s.alerts.grpc {
            Some(entries) => lemma_grpc_cat_labels(s, entries, entries.len() as int, rj),
            None => {},
        }
    }
}

/// Operator mapping: `EqualTo`, `LessThan` and `MoreThan` render as `==`,
/// `<` and `>`, and every expression constructor of the engine — every
/// generated expression is one of them — embeds the operator text of its
/// configuration in the comparison it emits.
pub proof fn lemma_operator_mapping(
    dep: Seq<char>,
    c: AlertConfigView,
    i: int,
    kind: NetworkAlert,
)
    ensures
        op_text(Operation::EqualTo) == "=="@,
        op_text(Operation::LessThan) == "<"@,
        op_text(Operation::MoreThan) == ">"@,
        embeds(replica_expr(dep, c), op_text(c.operation)),
        embeds(http_expr(kind, dep, c, i), op_text(c.operation)),
        kind != NetworkAlert::TrafficPerSecond ==> embeds(grpc_expr(kind, dep, c), op_text(c.operation)),
{
    let op = op_text(c.operation);
    {
        let a = "sum by (app_kubernetes_io_name) (up{app_kubernetes_io_name=\""@ + dep + "\"}) "@;
        let b = " "@ + c.value;
        lemma_embeds_concat(a, op, b);
        assert(replica_expr(dep, c) =~= a + op + b);
    }
    match kind {
        NetworkAlert::ErrorPercent => {
            let a = "error percent "@;
            let b = " "@ + dec_str(i as nat);
            lemma_embeds_concat(a, op, b);
            assert(http_expr(kind, dep, c, i) =~= a + op + b);
            let ga =
                "(sum by (destination_workload) (rate(grpc_server_handled_total{grpc_code=~\"Unknown|ResourceExhausted|Internal|Unavailable|DataLoss|DeadlineExceeded\", destination_workload=\""@
                + dep + "\"}["@ + c.for_
                + "]))/  sum by (destination_workload) (rate(grpc_server_started_total{destination_workload=\""@
                + dep + "\"}["@ + c.for_ + "])) * 100 "@;
            let gb = " "@ + c.value + ")"@;
            lemma_embeds_concat(ga, op, gb);
            assert(grpc_expr(kind, dep, c) =~= ga + op + gb);
        },
        NetworkAlert::TrafficPerSecond => {
            let a = "traffic per second "@;
            let b = " "@ + dec_str(i as nat);
            lemma_embeds_concat(a, op, b);
            assert(http_expr(kind, dep, c, i) =~= a + op + b);
        },
        _ => {
            let a = "histogram_quantile("@ + quantile_text(kind)
                + ", istio_requests_total{destination_workload="@ + dep + "}["@ + c.for_ + "]) "@;
            let b = " "@ + c.value;
            lemma_embeds_concat(a, op, b);
            assert(http_expr(kind, dep, c, i) =~= a + op + b);
            let ga = "histogram_quantile("@ + quantile_text(kind)
                + ", istio_request_duration_milliseconds{destination_workload="@ + dep + "}["@
                + c.for_ + "]) "@;
            let gb = " "@ + c.value;
            lemma_embeds_concat(ga, op, gb);
            assert(grpc_expr(kind, dep, c) =~= ga + op + gb);
        },
    }
}

/// Determinism of translation: the translated document — and its rendered
/// text — is a function of the specification value alone, with no clock or
/// randomness, so two translations of equal specifications yield equal
/// documents, byte-identical text, and equal errors on failure.
pub proof fn lemma_translation_deterministic(s1: ServiceAlertSpecView, s2: ServiceAlertSpecView)
    requires
        s1 == s2,
    ensures
        compile_model(s1) == compile_model(s2),
        compile_model(s1) matches Ok(d) ==> crate::yaml::yaml_doc(d) == crate::yaml::yaml_doc(
            compile_model(s2)->Ok_0,
        ),
{
}

/// Severity defaulting at rule level: a configuration whose label map lacks
/// a `severity` key yields a rule labeled `warning`, in every category.
pub proof fn lemma_rule_severity_default(
    s: ServiceAlertSpecView,
    kind: NetworkAlert,
    c: AlertConfigView,
    i: int,
)
    requires
        crate::crd::lookup(c.with_labels, "severity"@) is None,
    ensures
        crate::replica_alerts::replica_rule(s, c, i).labels.severity
            == crate::alert::PrometheusSeverity::Warning,
        crate::http_alerts::http_rule(s, kind, c, i).labels.severity
            == crate::alert::PrometheusSeverity::Warning,
        crate::grpc_alerts::grpc_rule(s, kind, c).labels.severity
            == crate::alert::PrometheusSeverity::Warning,
{
    crate::alert::lemma_severity_default(c.with_labels);
}

/// Category coverage: a specification whose only populated category is a
/// replica-count list compiles to exactly one group, named for replica
/// alerts, with one rule per configuration.
pub proof fn lemma_replica_category_coverage(
    s: ServiceAlertSpecView,
    configs: Seq<AlertConfigView>,
)
    requires
        s.alerts.rest is None,
        s.alerts.grpc is None,
        s.alerts.replica == Some(seq![(ReplicaAlert::Count, configs)]),
    ensures
        compile_model(s) matches Ok(d) && d.groups.len() == 1 && d.groups[0].name
            == "Replica Alerts"@ && d.groups[0].rules.len() == configs.len(),
{
    let entries = seq![(ReplicaAlert::Count, configs)];
    assert(entries[0] == (ReplicaAlert::Count, configs));
    assert(replica_cat_rules_upto(s, entries, 0) =~= Seq::<crate::alert::AlertRulesView>::empty());
    assert(replica_cat_rules_upto(s, entries, 1) =~= replica_rules_model(s, configs));
    assert(compiled_groups(s) =~= seq![replica_group_of(s)]);
}

} // verus!
