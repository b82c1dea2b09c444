//! Rules for the replica-count category: alerts on the number of pod
//! replicas a deployment is running.

use vstd::prelude::*;
use vstd::string::StringExecFns;

use crate::alert::{
    severity_from_labels, severity_of, AlertGroup, AlertGroupView, AlertRules, AlertRulesView,
    Annotations, AnnotationsView, Labels, LabelsView,
};
use crate::crd::{configs_view, op_str, op_text, AlertConfig, AlertConfigView, Operation,
    ServiceAlertSpec, ServiceAlertSpecView};
use crate::text::{dec_str, usize_to_dec};

verus! {

/// Name of the `i`-th replica rule: `ReplicaRule-{deployment}-{i}`. Names are
/// derived from the deployment and the list position, never generated
/// randomly, so re-running translation reproduces them.
pub open spec fn replica_alert_name(dep: Seq<char>, i: int) -> Seq<char> {
    "ReplicaRule-"@ + dep + "-"@ + dec_str(i as nat)
}

/// Replica-count PromQL: the number of `up` pods of the deployment, compared
/// against the threshold.
pub open spec fn replica_expr(dep: Seq<char>, c: AlertConfigView) -> Seq<char> {
    "sum by (app_kubernetes_io_name) (up{app_kubernetes_io_name=\""@ + dep + "\"}) "@
        + op_text(c.operation) + " "@ + c.value
}

/// Annotations of a replica rule. For `LessThan`/`MoreThan` the description
/// embeds the literal `{{ $value }}` placeholder, substituted by the alerting
/// system at fire time; for `EqualTo` the configured threshold is embedded
/// directly.
pub open spec fn replica_annotations(c: AlertConfigView) -> AnnotationsView {
    match c.operation {
        Operation::EqualTo => AnnotationsView {
            summary: "Replicas reached alert boundary"@,
            description: c.value + " replicas currently up"@,
        },
        Operation::LessThan => AnnotationsView {
            summary: "Replicas less than alert boundary"@,
            description: "{{ $value }} replicas currently up, expected at least "@ + c.value,
        },
        Operation::MoreThan => AnnotationsView {
            summary: "Replicas more than alert boundary"@,
            description: "{{ $value }} replicas currently up, expected less than "@ + c.value,
        },
    }
}

/// The `i`-th rule generated from a replica alert configuration.
pub open spec fn replica_rule(s: ServiceAlertSpecView, c: AlertConfigView, i: int) -> AlertRulesView {
    AlertRulesView {
        alert: replica_alert_name(s.deployment_name, i),
        expr: replica_expr(s.deployment_name, c),
        for_: c.for_,
        labels: LabelsView {
            severity: severity_of(c.with_labels),
            source: s.common_labels.origin,
            owner: s.common_labels.owner,
        },
        annotations: replica_annotations(c),
    }
}

/// All rules generated from one replica configuration list.
pub open spec fn replica_rules_model(
    s: ServiceAlertSpecView,
    configs: Seq<AlertConfigView>,
) -> Seq<AlertRulesView> {
    Seq::new(configs.len(), |i: int| replica_rule(s, configs[i], i))
}

/// The group generated for the replica category.
pub open spec fn replica_group_model(
    s: ServiceAlertSpecView,
    configs: Seq<AlertConfigView>,
) -> AlertGroupView {
    AlertGroupView { name: "Replica Alerts"@, rules: replica_rules_model(s, configs) }
}

/// The PromQL expression for one replica alert configuration.
pub fn replicas_promql(alert_config: &AlertConfig, spec: &ServiceAlertSpec) -> (r: String)
    ensures
        r@ == replica_expr(spec.deployment_name@, alert_config@),
{
    let mut s: String = "sum by (app_kubernetes_io_name) (up{app_kubernetes_io_name=\"".to_owned();
    s.append(spec.deployment_name.as_str());
    s.append("\"}) ");
    s.append(op_str(&alert_config.operation));
    s.append(" ");
    s.append(alert_config.value.as_str());
    proof {
        assert(s@ =~= replica_expr(spec.deployment_name@, alert_config@));
    }
    s
}

/// The annotations for one replica alert configuration.
pub fn replicas_annotations(alert_config: &AlertConfig) -> (a: Annotations)
    ensures
        a@ == replica_annotations(alert_config@),
{
    match alert_config.operation {
        Operation::EqualTo => {
            let mut d: String = alert_config.value.clone();
            d.append(" replicas currently up");
            Annotations { summary: "Replicas reached alert boundary".to_owned(), description: d }
        },
        Operation::LessThan => {
            let mut d: String = "{{ $value }} replicas currently up, expected at least ".to_owned();
            d.append(alert_config.value.as_str());
            Annotations { summary: "Replicas less than alert boundary".to_owned(), description: d }
        },
        Operation::MoreThan => {
            let mut d: String = "{{ $value }} replicas currently up, expected less than ".to_owned();
            d.append(alert_config.value.as_str());
            Annotations { summary: "Replicas more than alert boundary".to_owned(), description: d }
        },
    }
}

/// Builds the `i`-th replica rule.
fn replica_count_rule(conf: &AlertConfig, spec: &ServiceAlertSpec, i: usize) -> (r: AlertRules)
    ensures
        r@ == replica_rule(spec@, conf@, i as int),
{
    let mut name: String = "ReplicaRule-".to_owned();
    name.append(spec.deployment_name.as_str());
    name.append("-");
    let idx = usize_to_dec(i);
    name.append(idx.as_str());
    proof {
        assert(name@ =~= replica_alert_name(spec.deployment_name@, i as int));
    }
    AlertRules {
        alert: name,
        expr: replicas_promql(conf, spec),
        for_: conf.for_.clone(),
        labels: Labels {
            severity: severity_from_labels(&conf.with_labels),
            source: spec.common_labels.origin.clone(),
            owner: spec.common_labels.owner.clone(),
        },
        annotations: replicas_annotations(conf),
    }
}

/// The list of rules for one replica configuration list, in input order.
pub fn replica_count_rule_list(
    alert_configs: &Vec<AlertConfig>,
    spec: &ServiceAlertSpec,
) -> (rules: Vec<AlertRules>)
    ensures
        rules@.map_values(|r: AlertRules| r@) == replica_rules_model(spec@, configs_view(alert_configs@)),
{
    let ghost cv = configs_view(alert_configs@);
    let mut rules: Vec<AlertRules> = Vec::new();
    let mut i: usize = 0;
    while i < alert_configs.len()
        invariant
            i <= alert_configs.len(),
            cv == configs_view(alert_configs@),
            cv.len() == alert_configs@.len(),
            rules@.map_values(|r: AlertRules| r@) =~= replica_rules_model(spec@, cv).take(i as int),
        decreases alert_configs.len() - i,
    {
        let rule = replica_count_rule(&alert_configs[i], spec, i);
        let ghost rules_pre = rules@;
        rules.push(rule);
        proof {
            assert(cv[i as int] == alert_configs@[i as int]@);
            rules_pre.lemma_push_map_commute(|r: AlertRules| r@, rule);
            assert(rules@.map_values(|r: AlertRules| r@) =~= replica_rules_model(spec@, cv).take(
                i as int + 1,
            ));
        }
        i = i + 1;
    }
    proof {
        assert(replica_rules_model(spec@, cv).take(cv.len() as int) =~= replica_rules_model(
            spec@,
            cv,
        ));
    }
    rules
}

/// The alert group for a list of configured replica alerts.
pub fn replica_count_rules(
    alert_configs: &Vec<AlertConfig>,
    spec: &ServiceAlertSpec,
) -> (g: AlertGroup)
    ensures
        g@ == replica_group_model(spec@, configs_view(alert_configs@)),
{
    let rules = replica_count_rule_list(alert_configs, spec);
    let g = AlertGroup { name: "Replica Alerts".to_owned(), rules };
    proof {
        assert(g@ =~= replica_group_model(spec@, configs_view(alert_configs@)));
    }
    g
}

} // verus!
