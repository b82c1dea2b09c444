//! Rules for the gRPC category: error-rate and latency-percentile alerts
//! over the gRPC standard metrics. The traffic kind has no expression
//! template for gRPC, so requesting it fails translation.

use vstd::prelude::*;
use vstd::string::StringExecFns;

use crate::alert::{
    severity_from_labels, severity_of, AlertGroup, AlertGroupView, AlertRules, AlertRulesView,
    Annotations, AnnotationsView, Labels, LabelsView,
};
use crate::crd::{
    category_view, configs_view, op_str, op_text, AlertConfig, AlertConfigView, CategorySeq,
    NetworkAlert, ServiceAlertSpec, ServiceAlertSpecView,
};
use crate::http_alerts::{quantile_str, quantile_text};
use crate::translate::TranslationError;

verus! {

/// The text of a network alert kind, used in gRPC rule names and summaries.
pub open spec fn network_alert_text(kind: NetworkAlert) -> Seq<char> {
    match kind {
        NetworkAlert::ErrorPercent => "ErrorPercent"@,
        NetworkAlert::TrafficPerSecond => "TrafficPerSecond"@,
        NetworkAlert::LatencyMillisecondsP50 => "LatencyMillisecondsP50"@,
        NetworkAlert::LatencyMillisecondsP90 => "LatencyMillisecondsP90"@,
        NetworkAlert::LatencyMillisecondsP95 => "LatencyMillisecondsP95"@,
        NetworkAlert::LatencyMillisecondsP99 => "LatencyMillisecondsP99"@,
    }
}

/// The text of a network alert kind.
pub fn network_alert_str(kind: &NetworkAlert) -> (s: &'static str)
    ensures
        s@ == network_alert_text(*kind),
{
    match kind {
        NetworkAlert::ErrorPercent => "ErrorPercent",
        NetworkAlert::TrafficPerSecond => "TrafficPerSecond",
        NetworkAlert::LatencyMillisecondsP50 => "LatencyMillisecondsP50",
        NetworkAlert::LatencyMillisecondsP90 => "LatencyMillisecondsP90",
        NetworkAlert::LatencyMillisecondsP95 => "LatencyMillisecondsP95",
        NetworkAlert::LatencyMillisecondsP99 => "LatencyMillisecondsP99",
    }
}

/// Name of a gRPC rule: `{kind} {operator} {value}`; deterministic in the
/// configuration alone.
pub open spec fn grpc_alert_name(kind: NetworkAlert, c: AlertConfigView) -> Seq<char> {
    network_alert_text(kind) + " "@ + op_text(c.operation) + " "@ + c.value
}

/// The PromQL expression of a gRPC rule. The traffic kind has no template
/// and never reaches this expression (translation fails first).
pub open spec fn grpc_expr(kind: NetworkAlert, dep: Seq<char>, c: AlertConfigView) -> Seq<char> {
    match kind {
        NetworkAlert::ErrorPercent => {
            "(sum by (destination_workload) (rate(grpc_server_handled_total{grpc_code=~\"Unknown|ResourceExhausted|Internal|Unavailable|DataLoss|DeadlineExceeded\", destination_workload=\""@
                + dep + "\"}["@ + c.for_
                + "]))/  sum by (destination_workload) (rate(grpc_server_started_total{destination_workload=\""@
                + dep + "\"}["@ + c.for_ + "])) * 100 "@ + op_text(c.operation) + " "@ + c.value
                + ")"@
        },
        NetworkAlert::TrafficPerSecond => ""@,
        _ => "histogram_quantile("@ + quantile_text(kind)
            + ", istio_request_duration_milliseconds{destination_workload="@ + dep + "}["@ + c.for_
            + "]) "@ + op_text(c.operation) + " "@ + c.value,
    }
}

/// The summary annotation of a gRPC rule.
pub open spec fn grpc_summary_model(kind: NetworkAlert, c: AlertConfigView) -> Seq<char> {
    match kind {
        NetworkAlert::ErrorPercent => "error rate "@ + op_text(c.operation) + " "@ + c.value
            + "% for "@ + c.for_,
        NetworkAlert::TrafficPerSecond => "traffic "@ + op_text(c.operation) + " "@ + c.value
            + "/sec for "@ + c.for_,
        NetworkAlert::LatencyMillisecondsP50 => "latency P(50) "@ + op_text(c.operation) + " "@
            + c.value + " ms for "@ + c.for_,
        NetworkAlert::LatencyMillisecondsP90 => "latency P(90) "@ + op_text(c.operation) + " "@
            + c.value + " ms for "@ + c.for_,
        NetworkAlert::LatencyMillisecondsP95 => "latency P(95) "@ + op_text(c.operation) + " "@
            + c.value + " ms for "@ + c.for_,
        NetworkAlert::LatencyMillisecondsP99 => "latency P(99) "@ + op_text(c.operation) + " "@
            + c.value + " ms for "@ + c.for_,
    }
}

/// The description annotation of a gRPC rule; one fixed text for every kind.
pub open spec fn grpc_description_model() -> Seq<char> {
    "this is a placeholder description"@
}

/// The rule generated for one gRPC alert configuration.
pub open spec fn grpc_rule(s: ServiceAlertSpecView, kind: NetworkAlert, c: AlertConfigView)
    -> AlertRulesView {
    AlertRulesView {
        alert: grpc_alert_name(kind, c),
        expr: grpc_expr(kind, s.deployment_name, c),
        for_: c.for_,
        labels: LabelsView {
            severity: severity_of(c.with_labels),
            source: s.common_labels.origin,
            owner: s.common_labels.owner,
        },
        annotations: AnnotationsView {
            summary: grpc_summary_model(kind, c),
            description: grpc_description_model(),
        },
    }
}

/// All rules generated for one gRPC kind entry.
pub open spec fn grpc_entry_rules(
    s: ServiceAlertSpecView,
    kind: NetworkAlert,
    configs: Seq<AlertConfigView>,
) -> Seq<AlertRulesView> {
    Seq::new(configs.len(), |i: int| grpc_rule(s, kind, configs[i]))
}

/// Whether a gRPC category requests a kind without an expression template.
pub open spec fn grpc_has_unsupported(entries: CategorySeq<NetworkAlert>) -> bool {
    exists|k: int|
        0 <= k < entries.len() && (#[trigger] entries[k]).0 == NetworkAlert::TrafficPerSecond
}

/// Rules of the first `n` entries of the gRPC category, concatenated in
/// entry order.
pub open spec fn grpc_rules_upto(
    s: ServiceAlertSpecView,
    entries: CategorySeq<NetworkAlert>,
    n: int,
) -> Seq<AlertRulesView>
    decreases n,
{
    if n <= 0 {
        Seq::empty()
    } else {
        grpc_rules_upto(s, entries, n - 1) + grpc_entry_rules(
            s,
            entries[n - 1].0,
            entries[n - 1].1,
        )
    }
}

/// The group generated for the gRPC category; a specification without the
/// category yields a group with no rules.
pub open spec fn grpc_group_model(s: ServiceAlertSpecView) -> AlertGroupView {
    AlertGroupView {
        name: "gRPC Alerts"@,
        rules: match s.alerts.grpc {
            Some(entries) => grpc_rules_upto(s, entries, entries.len() as int),
            None => Seq::empty(),
        },
    }
}

/// The PromQL expression for one gRPC alert configuration.
fn grpc_promql(
    network_alert: &NetworkAlert,
    alert_config: &AlertConfig,
    spec: &ServiceAlertSpec,
) -> (r: String)
    requires
        *network_alert != NetworkAlert::TrafficPerSecond,
    ensures
        r@ == grpc_expr(*network_alert, spec.deployment_name@, alert_config@),
{
    match network_alert {
        NetworkAlert::ErrorPercent => {
            let mut e: String =
                "(sum by (destination_workload) (rate(grpc_server_handled_total{grpc_code=~\"Unknown|ResourceExhausted|Internal|Unavailable|DataLoss|DeadlineExceeded\", destination_workload=\"".to_owned();
            e.append(spec.deployment_name.as_str());
            e.append("\"}[");
            e.append(alert_config.for_.as_str());
            e.append(
                "]))/  sum by (destination_workload) (rate(grpc_server_started_total{destination_workload=\"",
            );
            e.append(spec.deployment_name.as_str());
            e.append("\"}[");
            e.append(alert_config.for_.as_str());
            e.append("])) * 100 ");
            e.append(op_str(&alert_config.operation));
            e.append(" ");
            e.append(alert_config.value.as_str());
            e.append(")");
            proof {
                assert(e@ =~= grpc_expr(*network_alert, spec.deployment_name@, alert_config@));
            }
            e
        },
        NetworkAlert::TrafficPerSecond => {
            // Excluded by the precondition; kept total for the exhaustive match.
            String::new()
        },
        _ => {
            let mut e: String = "histogram_quantile(".to_owned();
            e.append(quantile_str(network_alert));
            e.append(", istio_request_duration_milliseconds{destination_workload=");
            e.append(spec.deployment_name.as_str());
            e.append("}[");
            e.append(alert_config.for_.as_str());
            e.append("]) ");
            e.append(op_str(&alert_config.operation));
            e.append(" ");
            e.append(alert_config.value.as_str());
            proof {
                assert(e@ =~= grpc_expr(*network_alert, spec.deployment_name@, alert_config@));
            }
            e
        },
    }
}

/// The summary annotation for one gRPC alert configuration.
fn grpc_summary(network_alert: &NetworkAlert, alert_config: &AlertConfig) -> (r: String)
    ensures
        r@ == grpc_summary_model(*network_alert, alert_config@),
{
    let mut s: String = match network_alert {
        NetworkAlert::ErrorPercent => "error rate ".to_owned(),
        NetworkAlert::TrafficPerSecond => "traffic ".to_owned(),
        NetworkAlert::LatencyMillisecondsP50 => "latency P(50) ".to_owned(),
        NetworkAlert::LatencyMillisecondsP90 => "latency P(90) ".to_owned(),
        NetworkAlert::LatencyMillisecondsP95 => "latency P(95) ".to_owned(),
        NetworkAlert::LatencyMillisecondsP99 => "latency P(99) ".to_owned(),
    };
    s.append(op_str(&alert_config.operation));
    s.append(" ");
    s.append(alert_config.value.as_str());
    let tail: &'static str = match network_alert {
        NetworkAlert::ErrorPercent => "% for ",
        NetworkAlert::TrafficPerSecond => "/sec for ",
        _ => " ms for ",
    };
    s.append(tail);
    s.append(alert_config.for_.as_str());
    proof {
        assert(s@ =~= grpc_summary_model(*network_alert, alert_config@));
    }
    s
}

/// The description annotation shared by every gRPC rule.
fn grpc_description() -> (r: String)
    ensures
        r@ == grpc_description_model(),
{
    "this is a placeholder description".to_owned()
}

/// Builds the rule of one gRPC alert configuration.
fn grpc_rule_build(kind: &NetworkAlert, conf: &AlertConfig, spec: &ServiceAlertSpec) -> (r:
    AlertRules)
    requires
        *kind != NetworkAlert::TrafficPerSecond,
    ensures
        r@ == grpc_rule(spec@, *kind, conf@),
{
    let mut name: String = network_alert_str(kind).to_owned();
    name.append(" ");
    name.append(op_str(&conf.operation));
    name.append(" ");
    name.append(conf.value.as_str());
    proof {
        assert(name@ =~= grpc_alert_name(*kind, conf@));
    }
    AlertRules {
        alert: name,
        expr: grpc_promql(kind, conf, spec),
        for_: conf.for_.clone(),
        labels: Labels {
            severity: severity_from_labels(&conf.with_labels),
            source: spec.common_labels.origin.clone(),
            owner: spec.common_labels.owner.clone(),
        },
        annotations: Annotations { summary: grpc_summary(kind, conf), description: grpc_description() },
    }
}

/// The rules for one gRPC kind entry, in configuration order.
fn grpc_kind_rule_list(
    kind: &NetworkAlert,
    alert_configs: &Vec<AlertConfig>,
    spec: &ServiceAlertSpec,
) -> (rules: Vec<AlertRules>)
    requires
        *kind != NetworkAlert::TrafficPerSecond,
    ensures
        rules@.map_values(|r: AlertRules| r@) == grpc_entry_rules(
            spec@,
            *kind,
            configs_view(alert_configs@),
        ),
{
    let ghost cv = configs_view(alert_configs@);
    let mut rules: Vec<AlertRules> = Vec::new();
    let mut i: usize = 0;
    while i < alert_configs.len()
        invariant
            *kind != NetworkAlert::TrafficPerSecond,
            i <= alert_configs.len(),
            cv == configs_view(alert_configs@),
            cv.len() == alert_configs@.len(),
            rules@.map_values(|r: AlertRules| r@) =~= grpc_entry_rules(spec@, *kind, cv).take(
                i as int,
            ),
        decreases alert_configs.len() - i,
    {
        let rule = grpc_rule_build(kind, &alert_configs[i], spec);
        let ghost rules_pre = rules@;
        rules.push(rule);
        proof {
            assert(cv[i as int] == alert_configs@[i as int]@);
            rules_pre.lemma_push_map_commute(|r: AlertRules| r@, rule);
            assert(rules@.map_values(|r: AlertRules| r@) =~= grpc_entry_rules(spec@, *kind, cv).take(
                i as int + 1,
            ));
        }
        i = i + 1;
    }
    proof {
        assert(grpc_entry_rules(spec@, *kind, cv).take(cv.len() as int) =~= grpc_entry_rules(
            spec@,
            *kind,
            cv,
        ));
    }
    rules
}

/// The alert group for one gRPC kind entry, under the `gRPC Alerts` group
/// name; the traffic kind has no expression template and fails.
pub fn grpc_alert_rules(
    network_alert: &NetworkAlert,
    alert_configs: &Vec<AlertConfig>,
    spec: &ServiceAlertSpec,
) -> (r: Result<AlertGroup, TranslationError>)
    ensures
        match r {
            Ok(g) => *network_alert != NetworkAlert::TrafficPerSecond && g@ == (AlertGroupView {
                name: "gRPC Alerts"@,
                rules: grpc_entry_rules(spec@, *network_alert, configs_view(alert_configs@)),
            }),
            Err(e) => *network_alert == NetworkAlert::TrafficPerSecond && e
                == TranslationError::UnsupportedAlertKind,
        },
{
    match network_alert {
        NetworkAlert::TrafficPerSecond => Err(TranslationError::UnsupportedAlertKind),
        _ => {
            let rules = grpc_kind_rule_list(network_alert, alert_configs, spec);
            let g = AlertGroup { name: "gRPC Alerts".to_owned(), rules };
            proof {
                assert(g@ =~= (AlertGroupView {
                    name: "gRPC Alerts"@,
                    rules: grpc_entry_rules(spec@, *network_alert, configs_view(alert_configs@)),
                }));
            }
            Ok(g)
        },
    }
}

/// The alert group for the gRPC category of a specification: every entry's
/// rules, in entry order, under the `gRPC Alerts` group name; fails if any
/// entry requests the traffic kind.
pub fn grpc_group(spec: &ServiceAlertSpec) -> (r: Result<AlertGroup, TranslationError>)
    ensures
        match r {
            Ok(g) => {
                &&& match spec@.alerts.grpc {
                    Some(entries) => !grpc_has_unsupported(entries),
                    None => true,
                }
                &&& g@ == grpc_group_model(spec@)
            },
            Err(e) => {
                &&& match spec@.alerts.grpc {
                    Some(entries) => grpc_has_unsupported(entries),
                    None => false,
                }
                &&& e == TranslationError::UnsupportedAlertKind
            },
        },
{
    let mut rules: Vec<AlertRules> = Vec::new();
    match &spec.alerts.grpc {
        Some(entries) => {
            let ghost ev = category_view(entries@);
            let mut k: usize = 0;
            while k < entries.len()
                invariant
                    k <= entries.len(),
                    ev == category_view(entries@),
                    ev.len() == entries@.len(),
                    spec@.alerts.grpc == Some(ev),
                    forall|j: int|
                        0 <= j < k ==> (#[trigger] ev[j]).0 != NetworkAlert::TrafficPerSecond,
                    rules@.map_values(|r: AlertRules| r@) =~= grpc_rules_upto(spec@, ev, k as int),
                decreases entries.len() - k,
            {
                proof {
                    assert(ev[k as int] == (entries@[k as int].0, configs_view(
                        entries@[k as int].1@,
                    )));
                }
                match &entries[k].0 {
                    NetworkAlert::TrafficPerSecond => {
                        return Err(TranslationError::UnsupportedAlertKind);
                    },
                    _ => {},
                }
                let mut entry_rules = grpc_kind_rule_list(&entries[k].0, &entries[k].1, spec);
                let ghost rules_pre = rules@;
                let ghost entry_pre = entry_rules@;
                rules.append(&mut entry_rules);
                proof {
                    assert(rules@.map_values(|r: AlertRules| r@) =~= rules_pre.map_values(
                        |r: AlertRules| r@,
                    ) + entry_pre.map_values(|r: AlertRules| r@));
                    assert(rules@.map_values(|r: AlertRules| r@) =~= grpc_rules_upto(
                        spec@,
                        ev,
                        k as int + 1,
                    ));
                }
                k = k + 1;
            }
        },
        None => {},
    }
    let g = AlertGroup { name: "gRPC Alerts".to_owned(), rules };
    proof {
        assert(g@ =~= grpc_group_model(spec@));
    }
    Ok(g)
}

} // verus!
