//! Rules for the REST category: error-percentage, traffic and
//! latency-percentile alerts over the HTTP standard metrics.

use vstd::prelude::*;
use vstd::string::StringExecFns;

use crate::alert::{
    severity_from_labels, severity_of, AlertGroup, AlertGroupView, AlertRules, AlertRulesView,
    Annotations, AnnotationsView, Labels, LabelsView,
};
use crate::crd::{
    category_view, configs_view, op_str, op_text, AlertConfig, AlertConfigView, CategorySeq,
    NetworkAlert, Operation, ServiceAlertSpec, ServiceAlertSpecView,
};
use crate::text::{dec_str, usize_to_dec};

verus! {

/// Whether a network alert kind is one of the latency percentiles.
pub open spec fn is_latency(kind: NetworkAlert) -> bool {
    match kind {
        NetworkAlert::LatencyMillisecondsP50 => true,
        NetworkAlert::LatencyMillisecondsP90 => true,
        NetworkAlert::LatencyMillisecondsP95 => true,
        NetworkAlert::LatencyMillisecondsP99 => true,
        _ => false,
    }
}

/// The histogram quantile matching a latency percentile kind.
pub open spec fn quantile_text(kind: NetworkAlert) -> Seq<char> {
    match kind {
        NetworkAlert::LatencyMillisecondsP50 => "0.50"@,
        NetworkAlert::LatencyMillisecondsP90 => "0.90"@,
        NetworkAlert::LatencyMillisecondsP95 => "0.95"@,
        NetworkAlert::LatencyMillisecondsP99 => "0.99"@,
        _ => ""@,
    }
}

/// The quantile text for a latency kind.
pub fn quantile_str(kind: &NetworkAlert) -> (s: &'static str)
    requires
        is_latency(*kind),
    ensures
        s@ == quantile_text(*kind),
{
    match kind {
        NetworkAlert::LatencyMillisecondsP50 => "0.50",
        NetworkAlert::LatencyMillisecondsP90 => "0.90",
        NetworkAlert::LatencyMillisecondsP95 => "0.95",
        NetworkAlert::LatencyMillisecondsP99 => "0.99",
        _ => "",
    }
}

/// Name of the `i`-th HTTP rule of a kind:
/// `HTTP{KindFamily}Rule-{deployment}-{i}`.
pub open spec fn http_alert_name(kind: NetworkAlert, dep: Seq<char>, i: int) -> Seq<char> {
    http_name_prefix(kind) + dep + "-"@ + dec_str(i as nat)
}

/// The name prefix per HTTP alert kind family.
pub open spec fn http_name_prefix(kind: NetworkAlert) -> Seq<char> {
    match kind {
        NetworkAlert::ErrorPercent => "HTTPErrorPercentRule-"@,
        NetworkAlert::TrafficPerSecond => "HTTPTrafficPerSecondRule-"@,
        _ => "HTTPLatencyPercentileRule-"@,
    }
}

/// The PromQL expression of the `i`-th HTTP rule of a kind.
pub open spec fn http_expr(kind: NetworkAlert, dep: Seq<char>, c: AlertConfigView, i: int) -> Seq<
    char,
> {
    match kind {
        NetworkAlert::ErrorPercent => "error percent "@ + op_text(c.operation) + " "@ + dec_str(
            i as nat,
        ),
        NetworkAlert::TrafficPerSecond => "traffic per second "@ + op_text(c.operation) + " "@
            + dec_str(i as nat),
        _ => "histogram_quantile("@ + quantile_text(kind)
            + ", istio_requests_total{destination_workload="@ + dep + "}["@ + c.for_ + "]) "@
            + op_text(c.operation) + " "@ + c.value,
    }
}

/// Annotations of an HTTP error-percentage rule.
pub open spec fn error_percent_annotations_model(c: AlertConfigView) -> AnnotationsView {
    match c.operation {
        Operation::EqualTo => AnnotationsView {
            summary: "Request errors percentage reached alert boundary"@,
            description: "Current error percentage is exactly "@ + c.value + "%"@,
        },
        Operation::LessThan => AnnotationsView {
            summary: "Request errors percentage is less than alert boundary"@,
            description: "Current error percentage is {{ $value }}%, boundary is "@ + c.value,
        },
        Operation::MoreThan => AnnotationsView {
            summary: "Request errors percentage is higher than alert boundary"@,
            description: "Current error percentage is {{ $value }}%, boundary is "@ + c.value,
        },
    }
}

/// Annotations of an HTTP latency-percentile rule.
pub open spec fn latency_percentile_annotations_model(c: AlertConfigView) -> AnnotationsView {
    match c.operation {
        Operation::EqualTo => AnnotationsView {
            summary: "Average request latency reached alert boundary"@,
            description: "Current request latency is exactly "@ + c.value + "ms"@,
        },
        Operation::LessThan => AnnotationsView {
            summary: "Average request latency is less than alert boundary"@,
            description: "Current request latency is {{ $value }}ms, boundary is "@ + c.value
                + "ms"@,
        },
        Operation::MoreThan => AnnotationsView {
            summary: "Average request latency is higher than alert boundary"@,
            description: "Current request latency is {{ $value }}ms, boundary is "@ + c.value
                + "ms"@,
        },
    }
}

/// Annotations of an HTTP traffic rule.
pub open spec fn traffic_per_second_annotations_model(c: AlertConfigView) -> AnnotationsView {
    match c.operation {
        Operation::EqualTo => AnnotationsView {
            summary: "HTTP requests per second reached alert boundary"@,
            description: "Requests per second is exactly "@ + c.value + "/s"@,
        },
        Operation::LessThan => AnnotationsView {
            summary: "HTTP requests per second is less than alert boundary"@,
            description: "Requests per second is {{ $value }}/s, boundary is "@ + c.value + "/s"@,
        },
        Operation::MoreThan => AnnotationsView {
            summary: "HTTP requests per second is higher than alert boundary"@,
            description: "Requests per second is {{ $value }}/s, boundary is "@ + c.value + "/s"@,
        },
    }
}

/// The annotations of an HTTP rule, by kind.
pub open spec fn http_annotations(kind: NetworkAlert, c: AlertConfigView) -> AnnotationsView {
    match kind {
        NetworkAlert::ErrorPercent => error_percent_annotations_model(c),
        NetworkAlert::TrafficPerSecond => traffic_per_second_annotations_model(c),
        _ => latency_percentile_annotations_model(c),
    }
}

/// The `i`-th rule generated for an HTTP alert kind.
pub open spec fn http_rule(
    s: ServiceAlertSpecView,
    kind: NetworkAlert,
    c: AlertConfigView,
    i: int,
) -> AlertRulesView {
    AlertRulesView {
        alert: http_alert_name(kind, s.deployment_name, i),
        expr: http_expr(kind, s.deployment_name, c, i),
        for_: c.for_,
        labels: LabelsView {
            severity: severity_of(c.with_labels),
            source: s.common_labels.origin,
            owner: s.common_labels.owner,
        },
        annotations: http_annotations(kind, c),
    }
}

/// All rules generated for one HTTP kind entry.
pub open spec fn http_entry_rules(
    s: ServiceAlertSpecView,
    kind: NetworkAlert,
    configs: Seq<AlertConfigView>,
) -> Seq<AlertRulesView> {
    Seq::new(configs.len(), |i: int| http_rule(s, kind, configs[i], i))
}

/// Rules of the first `n` entries of the REST category, concatenated in
/// entry order.
pub open spec fn http_rules_upto(
    s: ServiceAlertSpecView,
    entries: CategorySeq<NetworkAlert>,
    n: int,
) -> Seq<AlertRulesView>
    decreases n,
{
    if n <= 0 {
        Seq::empty()
    } else {
        http_rules_upto(s, entries, n - 1) + http_entry_rules(
            s,
            entries[n - 1].0,
            entries[n - 1].1,
        )
    }
}

/// The group generated for the REST category; a specification without the
/// category yields a group with no rules.
pub open spec fn http_group_model(s: ServiceAlertSpecView) -> AlertGroupView {
    AlertGroupView {
        name: "HTTP Alerts"@,
        rules: match s.alerts.rest {
            Some(entries) => http_rules_upto(s, entries, entries.len() as int),
            None => Seq::empty(),
        },
    }
}

/// Builds the annotations for an HTTP error-percentage rule.
fn error_percent_annotations(alert_config: &AlertConfig) -> (a: Annotations)
    ensures
        a@ == error_percent_annotations_model(alert_config@),
{
    match alert_config.operation {
        Operation::EqualTo => {
            let mut d: String = "Current error percentage is exactly ".to_owned();
            d.append(alert_config.value.as_str());
            d.append("%");
            Annotations {
                summary: "Request errors percentage reached alert boundary".to_owned(),
                description: d,
            }
        },
        Operation::LessThan => {
            let mut d: String = "Current error percentage is {{ $value }}%, boundary is ".to_owned();
            d.append(alert_config.value.as_str());
            Annotations {
                summary: "Request errors percentage is less than alert boundary".to_owned(),
                description: d,
            }
        },
        Operation::MoreThan => {
            let mut d: String = "Current error percentage is {{ $value }}%, boundary is ".to_owned();
            d.append(alert_config.value.as_str());
            Annotations {
                summary: "Request errors percentage is higher than alert boundary".to_owned(),
                description: d,
            }
        },
    }
}

/// Builds the annotations for an HTTP latency-percentile rule.
fn latency_percentile_annotations(alert_config: &AlertConfig) -> (a: Annotations)
    ensures
        a@ == latency_percentile_annotations_model(alert_config@),
{
    match alert_config.operation {
        Operation::EqualTo => {
            let mut d: String = "Current request latency is exactly ".to_owned();
            d.append(alert_config.value.as_str());
            d.append("ms");
            Annotations {
                summary: "Average request latency reached alert boundary".to_owned(),
                description: d,
            }
        },
        Operation::LessThan => {
            let mut d: String = "Current request latency is {{ $value }}ms, boundary is ".to_owned();
            d.append(alert_config.value.as_str());
            d.append("ms");
            Annotations {
                summary: "Average request latency is less than alert boundary".to_owned(),
                description: d,
            }
        },
        Operation::MoreThan => {
            let mut d: String = "Current request latency is {{ $value }}ms, boundary is ".to_owned();
            d.append(alert_config.value.as_str());
            d.append("ms");
            Annotations {
                summary: "Average request latency is higher than alert boundary".to_owned(),
                description: d,
            }
        },
    }
}

/// Builds the annotations for an HTTP traffic rule.
fn traffic_per_second_annotations(alert_config: &AlertConfig) -> (a: Annotations)
    ensures
        a@ == traffic_per_second_annotations_model(alert_config@),
{
    match alert_config.operation {
        Operation::EqualTo => {
            let mut d: String = "Requests per second is exactly ".to_owned();
            d.append(alert_config.value.as_str());
            d.append("/s");
            Annotations {
                summary: "HTTP requests per second reached alert boundary".to_owned(),
                description: d,
            }
        },
        Operation::LessThan => {
            let mut d: String = "Requests per second is {{ $value }}/s, boundary is ".to_owned();
            d.append(alert_config.value.as_str());
            d.append("/s");
            Annotations {
                summary: "HTTP requests per second is less than alert boundary".to_owned(),
                description: d,
            }
        },
        Operation::MoreThan => {
            let mut d: String = "Requests per second is {{ $value }}/s, boundary is ".to_owned();
            d.append(alert_config.value.as_str());
            d.append("/s");
            Annotations {
                summary: "HTTP requests per second is higher than alert boundary".to_owned(),
                description: d,
            }
        },
    }
}

/// Builds the name of the `i`-th HTTP rule of a kind.
fn http_rule_name(kind: &NetworkAlert, spec: &ServiceAlertSpec, i: usize) -> (r: String)
    ensures
        r@ == http_alert_name(*kind, spec.deployment_name@, i as int),
{
    let mut name: String = match kind {
        NetworkAlert::ErrorPercent => "HTTPErrorPercentRule-".to_owned(),
        NetworkAlert::TrafficPerSecond => "HTTPTrafficPerSecondRule-".to_owned(),
        _ => "HTTPLatencyPercentileRule-".to_owned(),
    };
    name.append(spec.deployment_name.as_str());
    name.append("-");
    let idx = usize_to_dec(i);
    name.append(idx.as_str());
    proof {
        assert(name@ =~= http_alert_name(*kind, spec.deployment_name@, i as int));
    }
    name
}

/// Builds the PromQL expression of the `i`-th HTTP rule of a kind.
fn http_rule_expr(kind: &NetworkAlert, conf: &AlertConfig, spec: &ServiceAlertSpec, i: usize) -> (r:
    String)
    ensures
        r@ == http_expr(*kind, spec.deployment_name@, conf@, i as int),
{
    match kind {
        NetworkAlert::ErrorPercent => {
            let mut e: String = "error percent ".to_owned();
            e.append(op_str(&conf.operation));
            e.append(" ");
            let idx = usize_to_dec(i);
            e.append(idx.as_str());
            proof {
                assert(e@ =~= http_expr(*kind, spec.deployment_name@, conf@, i as int));
            }
            e
        },
        NetworkAlert::TrafficPerSecond => {
            let mut e: String = "traffic per second ".to_owned();
            e.append(op_str(&conf.operation));
            e.append(" ");
            let idx = usize_to_dec(i);
            e.append(idx.as_str());
            proof {
                assert(e@ =~= http_expr(*kind, spec.deployment_name@, conf@, i as int));
            }
            e
        },
        _ => {
            let mut e: String = "histogram_quantile(".to_owned();
            e.append(quantile_str(kind));
            e.append(", istio_requests_total{destination_workload=");
            e.append(spec.deployment_name.as_str());
            e.append("}[");
            e.append(conf.for_.as_str());
            e.append("]) ");
            e.append(op_str(&conf.operation));
            e.append(" ");
            e.append(conf.value.as_str());
            proof {
                assert(e@ =~= http_expr(*kind, spec.deployment_name@, conf@, i as int));
            }
            e
        },
    }
}

/// Builds the `i`-th rule of an HTTP kind entry.
fn http_rule_build(kind: &NetworkAlert, conf: &AlertConfig, spec: &ServiceAlertSpec, i: usize) -> (r:
    AlertRules)
    ensures
        r@ == http_rule(spec@, *kind, conf@, i as int),
{
    let annotations = match kind {
        NetworkAlert::ErrorPercent => error_percent_annotations(conf),
        NetworkAlert::TrafficPerSecond => traffic_per_second_annotations(conf),
        _ => latency_percentile_annotations(conf),
    };
    AlertRules {
        alert: http_rule_name(kind, spec, i),
        expr: http_rule_expr(kind, conf, spec, i),
        for_: conf.for_.clone(),
        labels: Labels {
            severity: severity_from_labels(&conf.with_labels),
            source: spec.common_labels.origin.clone(),
            owner: spec.common_labels.owner.clone(),
        },
        annotations,
    }
}

/// The rules for one HTTP kind entry, in configuration order.
fn http_kind_rule_list(
    kind: &NetworkAlert,
    alert_configs: &Vec<AlertConfig>,
    spec: &ServiceAlertSpec,
) -> (rules: Vec<AlertRules>)
    ensures
        rules@.map_values(|r: AlertRules| r@) == http_entry_rules(
            spec@,
            *kind,
            configs_view(alert_configs@),
        ),
{
    let ghost cv = configs_view(alert_configs@);
    let mut rules: Vec<AlertRules> = Vec::new();
    let mut i: usize = 0;
    while i < alert_configs.len()
        invariant
            i <= alert_configs.len(),
            cv == configs_view(alert_configs@),
            cv.len() == alert_configs@.len(),
            rules@.map_values(|r: AlertRules| r@) =~= http_entry_rules(spec@, *kind, cv).take(
                i as int,
            ),
        decreases alert_configs.len() - i,
    {
        let rule = http_rule_build(kind, &alert_configs[i], spec, i);
        let ghost rules_pre = rules@;
        rules.push(rule);
        proof {
            assert(cv[i as int] == alert_configs@[i as int]@);
            rules_pre.lemma_push_map_commute(|r: AlertRules| r@, rule);
            assert(rules@.map_values(|r: AlertRules| r@) =~= http_entry_rules(spec@, *kind, cv).take(
                i as int + 1,
            ));
        }
        i = i + 1;
    }
    proof {
        assert(http_entry_rules(spec@, *kind, cv).take(cv.len() as int) =~= http_entry_rules(
            spec@,
            *kind,
            cv,
        ));
    }
    rules
}

/// The rules for an HTTP error-percentage entry, in configuration order.
pub fn error_percent_alerts(
    spec: &ServiceAlertSpec,
    alert_configs: &Vec<AlertConfig>,
) -> (rules: Vec<AlertRules>)
    ensures
        rules@.map_values(|r: AlertRules| r@) == http_entry_rules(
            spec@,
            NetworkAlert::ErrorPercent,
            configs_view(alert_configs@),
        ),
{
    http_kind_rule_list(&NetworkAlert::ErrorPercent, alert_configs, spec)
}

/// The rules for an HTTP latency-percentile entry, in configuration order.
pub fn latency_percentile_alerts(
    spec: &ServiceAlertSpec,
    kind: &NetworkAlert,
    alert_configs: &Vec<AlertConfig>,
) -> (rules: Vec<AlertRules>)
    requires
        is_latency(*kind),
    ensures
        rules@.map_values(|r: AlertRules| r@) == http_entry_rules(
            spec@,
            *kind,
            configs_view(alert_configs@),
        ),
{
    http_kind_rule_list(kind, alert_configs, spec)
}

/// The rules for an HTTP traffic entry, in configuration order.
pub fn traffic_per_second_alerts(
    spec: &ServiceAlertSpec,
    alert_configs: &Vec<AlertConfig>,
) -> (rules: Vec<AlertRules>)
    ensures
        rules@.map_values(|r: AlertRules| r@) == http_entry_rules(
            spec@,
            NetworkAlert::TrafficPerSecond,
            configs_view(alert_configs@),
        ),
{
    http_kind_rule_list(&NetworkAlert::TrafficPerSecond, alert_configs, spec)
}

/// The alert group for the REST category of a specification: every entry's
/// rules, in entry order, under the `HTTP Alerts` group name.
pub fn http_rules(spec: &ServiceAlertSpec) -> (g: AlertGroup)
    ensures
        g@ == http_group_model(spec@),
{
    let mut rules: Vec<AlertRules> = Vec::new();
    match &spec.alerts.rest {
        Some(entries) => {
            let ghost ev = category_view(entries@);
            let mut k: usize = 0;
            while k < entries.len()
                invariant
                    k <= entries.len(),
                    ev == category_view(entries@),
                    ev.len() == entries@.len(),
                    spec@.alerts.rest == Some(ev),
                    rules@.map_values(|r: AlertRules| r@) =~= http_rules_upto(spec@, ev, k as int),
                decreases entries.len() - k,
            {
                let mut entry_rules = match &entries[k].0 {
                    NetworkAlert::ErrorPercent => error_percent_alerts(spec, &entries[k].1),
                    NetworkAlert::TrafficPerSecond => traffic_per_second_alerts(
                        spec,
                        &entries[k].1,
                    ),
                    _ => latency_percentile_alerts(spec, &entries[k].0, &entries[k].1),
                };
                let ghost rules_pre = rules@;
                let ghost entry_pre = entry_rules@;
                rules.append(&mut entry_rules);
                proof {
                    assert(ev[k as int] == (entries@[k as int].0, configs_view(
                        entries@[k as int].1@,
                    )));
                    assert(rules@.map_values(|r: AlertRules| r@) =~= rules_pre.map_values(
                        |r: AlertRules| r@,
                    ) + entry_pre.map_values(|r: AlertRules| r@));
                    assert(rules@.map_values(|r: AlertRules| r@) =~= http_rules_upto(
                        spec@,
                        ev,
                        k as int + 1,
                    ));
                }
                k = k + 1;
            }
        },
        None => {},
    }
    let g = AlertGroup { name: "HTTP Alerts".to_owned(), rules };
    proof {
        assert(g@ =~= http_group_model(spec@));
    }
    g
}

} // verus!
