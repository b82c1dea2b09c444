//! Tests of the translation engine and the document rendering.

use cactuar::alert::{
    AlertGroup, AlertRules, Annotations, Labels, PromAlerts, PrometheusSeverity,
};
use cactuar::crd::{
    AlertConfig, Alerts, CommonLabels, NetworkAlert, Operation, ReplicaAlert, ServiceAlertSpec,
};
use cactuar::translate::{compile, TranslationError};
use cactuar::yaml::{artifact_data, to_yaml, ArtifactError};

const SERIALIZED_PROM_ALERT: &str = r#"groups:
- name: example
  rules:
  - alert: HighRequestLatency
    expr: job:request_latency_seconds:mean5m{job="myjob"} > 0.5
    for: 10m
    labels:
      severity: page
      source: cloud
      owner: service
    annotations:
      summary: High request latency
      description: Request latency over 9000
"#;

#[test]
fn test_serialisation_happy_path() {
    let rust_repr = PromAlerts {
        groups: vec![AlertGroup {
            name: "example".into(),
            rules: vec![AlertRules {
                alert: "HighRequestLatency".into(),
                expr: r#"job:request_latency_seconds:mean5m{job="myjob"} > 0.5"#.into(),
                for_: "10m".into(),
                labels: Labels {
                    severity: PrometheusSeverity::Page,
                    source: "cloud".into(),
                    owner: "service".into(),
                },
                annotations: Annotations {
                    summary: "High request latency".into(),
                    description: "Request latency over 9000".into(),
                },
            }],
        }],
    };

    assert_eq!(to_yaml(&rust_repr), SERIALIZED_PROM_ALERT);
}

fn labels_with_severity(severity: &str) -> Vec<(String, String)> {
    vec![("severity".to_string(), severity.to_string())]
}

fn config(operation: Operation, value: &str, for_: &str, severity: Option<&str>) -> AlertConfig {
    AlertConfig {
        operation,
        value: value.to_string(),
        for_: for_.to_string(),
        with_labels: match severity {
            Some(s) => labels_with_severity(s),
            None => Vec::new(),
        },
    }
}

fn spec_with(alerts: Alerts) -> ServiceAlertSpec {
    ServiceAlertSpec {
        common_labels: CommonLabels {
            owner: "bar".to_string(),
            origin: "cloud".to_string(),
            extra: Vec::new(),
        },
        deployment_name: "best-service-eu".to_string(),
        alerts,
    }
}

fn replica_only_spec(configs: Vec<AlertConfig>) -> ServiceAlertSpec {
    spec_with(Alerts {
        grpc: None,
        rest: None,
        replica: Some(vec![(ReplicaAlert::Count, configs)]),
    })
}

#[test]
fn replica_scenario_produces_expected_rule() {
    let spec = replica_only_spec(vec![config(Operation::LessThan, "3", "5m", Some("warning"))]);
    let doc = compile(&spec).expect("replica spec must translate");
    assert_eq!(doc.groups.len(), 1);
    let group = &doc.groups[0];
    assert_eq!(group.name, "Replica Alerts");
    assert_eq!(group.rules.len(), 1);
    let rule = &group.rules[0];
    assert_eq!(
        rule.expr,
        r#"sum by (app_kubernetes_io_name) (up{app_kubernetes_io_name="best-service-eu"}) < 3"#
    );
    assert_eq!(rule.for_, "5m");
    assert_eq!(rule.labels.severity, PrometheusSeverity::Warning);
    assert_eq!(rule.labels.source, "cloud");
    assert_eq!(rule.labels.owner, "bar");
    assert_eq!(rule.alert, "ReplicaRule-best-service-eu-0");
}

#[test]
fn replica_category_coverage_counts_rules() {
    let spec = replica_only_spec(vec![
        config(Operation::LessThan, "3", "3m", Some("warning")),
        config(Operation::EqualTo, "0", "0m", Some("critical")),
    ]);
    let doc = compile(&spec).expect("replica spec must translate");
    assert_eq!(doc.groups.len(), 1);
    assert_eq!(doc.groups[0].name, "Replica Alerts");
    assert_eq!(doc.groups[0].rules.len(), 2);
    assert_eq!(doc.groups[0].rules[1].alert, "ReplicaRule-best-service-eu-1");
    assert_eq!(
        doc.groups[0].rules[1].labels.severity,
        PrometheusSeverity::Critical
    );
}

#[test]
fn operator_mapping_in_expressions() {
    let spec = replica_only_spec(vec![
        config(Operation::EqualTo, "1", "1m", Some("warning")),
        config(Operation::LessThan, "2", "1m", Some("warning")),
        config(Operation::MoreThan, "3", "1m", Some("warning")),
    ]);
    let doc = compile(&spec).expect("replica spec must translate");
    let exprs: Vec<&str> = doc.groups[0].rules.iter().map(|r| r.expr.as_str()).collect();
    assert!(exprs[0].contains(" == 1"));
    assert!(exprs[1].contains(" < 2"));
    assert!(exprs[2].contains(" > 3"));
}

#[test]
fn severity_defaults_to_warning_when_absent() {
    let spec = replica_only_spec(vec![config(Operation::EqualTo, "0", "1m", None)]);
    let doc = compile(&spec).expect("replica spec must translate");
    assert_eq!(
        doc.groups[0].rules[0].labels.severity,
        PrometheusSeverity::Warning
    );
}

#[test]
fn severity_defaults_to_warning_when_unrecognized() {
    let spec = replica_only_spec(vec![config(Operation::EqualTo, "0", "1m", Some("loud"))]);
    let doc = compile(&spec).expect("replica spec must translate");
    assert_eq!(
        doc.groups[0].rules[0].labels.severity,
        PrometheusSeverity::Warning
    );
}

#[test]
fn severity_page_is_recognized() {
    let spec = replica_only_spec(vec![config(Operation::EqualTo, "0", "1m", Some("page"))]);
    let doc = compile(&spec).expect("replica spec must translate");
    assert_eq!(doc.groups[0].rules[0].labels.severity, PrometheusSeverity::Page);
}

#[test]
fn empty_spec_fails_with_no_rules_defined() {
    let spec = spec_with(Alerts { grpc: None, rest: None, replica: None });
    assert_eq!(compile(&spec), Err(TranslationError::NoRulesDefined));
}

#[test]
fn grpc_traffic_per_second_is_unsupported() {
    let spec = spec_with(Alerts {
        grpc: Some(vec![(
            NetworkAlert::TrafficPerSecond,
            vec![config(Operation::MoreThan, "10", "3m", Some("warning"))],
        )]),
        rest: None,
        replica: None,
    });
    assert_eq!(compile(&spec), Err(TranslationError::UnsupportedAlertKind));
}

#[test]
fn grpc_error_percent_rule_text() {
    let spec = spec_with(Alerts {
        grpc: Some(vec![(
            NetworkAlert::ErrorPercent,
            vec![config(Operation::MoreThan, "10", "3m", Some("warning"))],
        )]),
        rest: None,
        replica: None,
    });
    let doc = compile(&spec).expect("grpc spec must translate");
    assert_eq!(doc.groups.len(), 1);
    assert_eq!(doc.groups[0].name, "gRPC Alerts");
    let rule = &doc.groups[0].rules[0];
    assert_eq!(rule.alert, "ErrorPercent > 10");
    assert_eq!(
        rule.expr,
        "(sum by (destination_workload) (rate(grpc_server_handled_total{grpc_code=~\"Unknown|ResourceExhausted|Internal|Unavailable|DataLoss|DeadlineExceeded\", destination_workload=\"best-service-eu\"}[3m]))/  sum by (destination_workload) (rate(grpc_server_started_total{destination_workload=\"best-service-eu\"}[3m])) * 100 > 10)"
    );
    assert_eq!(rule.annotations.summary, "error rate > 10% for 3m");
}

#[test]
fn http_latency_rule_uses_matching_quantile() {
    let spec = spec_with(Alerts {
        grpc: None,
        rest: Some(vec![(
            NetworkAlert::LatencyMillisecondsP99,
            vec![config(Operation::MoreThan, "20", "5m", Some("warning"))],
        )]),
        replica: None,
    });
    let doc = compile(&spec).expect("rest spec must translate");
    assert_eq!(doc.groups.len(), 1);
    assert_eq!(doc.groups[0].name, "HTTP Alerts");
    let rule = &doc.groups[0].rules[0];
    assert_eq!(rule.alert, "HTTPLatencyPercentileRule-best-service-eu-0");
    assert_eq!(
        rule.expr,
        "histogram_quantile(0.99, istio_requests_total{destination_workload=best-service-eu}[5m]) > 20"
    );
}

#[test]
fn translation_is_deterministic() {
    let make = || {
        spec_with(Alerts {
            grpc: Some(vec![(
                NetworkAlert::LatencyMillisecondsP50,
                vec![config(Operation::MoreThan, "20", "1m", Some("critical"))],
            )]),
            rest: Some(vec![(
                NetworkAlert::ErrorPercent,
                vec![config(Operation::MoreThan, "5", "2m", Some("warning"))],
            )]),
            replica: Some(vec![(
                ReplicaAlert::Count,
                vec![config(Operation::LessThan, "2", "5m", Some("page"))],
            )]),
        })
    };
    let d1 = compile(&make()).expect("spec must translate");
    let d2 = compile(&make()).expect("spec must translate");
    assert_eq!(d1, d2);
    assert_eq!(to_yaml(&d1), to_yaml(&d2));
}

#[test]
fn artifact_data_keys_by_first_rule_owner() {
    let spec = replica_only_spec(vec![config(Operation::LessThan, "3", "5m", Some("warning"))]);
    let doc = compile(&spec).expect("replica spec must translate");
    let (key, value) = artifact_data(&doc).expect("artifact must derive");
    assert_eq!(key, "bar");
    assert_eq!(value, to_yaml(&doc));
}

#[test]
fn artifact_data_rejects_empty_documents() {
    let no_groups = PromAlerts { groups: vec![] };
    assert_eq!(artifact_data(&no_groups), Err(ArtifactError::NoAlertGroups));

    let empty_group = PromAlerts {
        groups: vec![AlertGroup { name: "Replica Alerts".to_string(), rules: vec![] }],
    };
    assert_eq!(artifact_data(&empty_group), Err(ArtifactError::NoRulesInGroup));
}

#[test]
fn rule_names_carry_multi_digit_indices() {
    let configs: Vec<AlertConfig> =
        (0..12).map(|_| config(Operation::EqualTo, "1", "1m", Some("warning"))).collect();
    let spec = replica_only_spec(configs);
    let doc = compile(&spec).expect("replica spec must translate");
    assert_eq!(doc.groups[0].rules.len(), 12);
    assert_eq!(doc.groups[0].rules[9].alert, "ReplicaRule-best-service-eu-9");
    assert_eq!(doc.groups[0].rules[10].alert, "ReplicaRule-best-service-eu-10");
    assert_eq!(doc.groups[0].rules[11].alert, "ReplicaRule-best-service-eu-11");
}

#[test]
fn latency_quantiles_match_percentiles() {
    let cases = [
        (NetworkAlert::LatencyMillisecondsP50, "0.50"),
        (NetworkAlert::LatencyMillisecondsP90, "0.90"),
        (NetworkAlert::LatencyMillisecondsP95, "0.95"),
        (NetworkAlert::LatencyMillisecondsP99, "0.99"),
    ];
    for (kind, quantile) in cases {
        let spec = spec_with(Alerts {
            grpc: None,
            rest: Some(vec![(
                kind,
                vec![config(Operation::MoreThan, "20", "5m", Some("warning"))],
            )]),
            replica: None,
        });
        let doc = compile(&spec).expect("rest spec must translate");
        let expected = format!(
            "histogram_quantile({quantile}, istio_requests_total{{destination_workload=best-service-eu}}[5m]) > 20"
        );
        assert_eq!(doc.groups[0].rules[0].expr, expected);
    }
}

#[test]
fn http_error_percent_and_traffic_expressions_embed_index() {
    let spec = spec_with(Alerts {
        grpc: None,
        rest: Some(vec![
            (
                NetworkAlert::ErrorPercent,
                vec![
                    config(Operation::MoreThan, "5", "2m", Some("warning")),
                    config(Operation::LessThan, "1", "2m", Some("warning")),
                ],
            ),
            (
                NetworkAlert::TrafficPerSecond,
                vec![config(Operation::EqualTo, "100", "1m", Some("warning"))],
            ),
        ]),
        replica: None,
    });
    let doc = compile(&spec).expect("rest spec must translate");
    let rules = &doc.groups[0].rules;
    assert_eq!(rules.len(), 3);
    assert_eq!(rules[0].alert, "HTTPErrorPercentRule-best-service-eu-0");
    assert_eq!(rules[0].expr, "error percent > 0");
    assert_eq!(rules[1].expr, "error percent < 1");
    assert_eq!(rules[2].alert, "HTTPTrafficPerSecondRule-best-service-eu-0");
    assert_eq!(rules[2].expr, "traffic per second == 0");
}

#[test]
fn present_but_empty_category_yields_group_without_rules() {
    let spec = spec_with(Alerts { grpc: None, rest: Some(vec![]), replica: None });
    let doc = compile(&spec).expect("present category must translate");
    assert_eq!(doc.groups.len(), 1);
    assert_eq!(doc.groups[0].name, "HTTP Alerts");
    assert!(doc.groups[0].rules.is_empty());
    assert_eq!(artifact_data(&doc), Err(ArtifactError::NoRulesInGroup));
}

#[test]
fn replica_count_rules_builds_the_replica_group() {
    let spec = replica_only_spec(vec![]);
    let configs = vec![
        config(Operation::MoreThan, "5", "2m", Some("critical")),
        config(Operation::LessThan, "1", "1m", None),
    ];
    let group = cactuar::replica_alerts::replica_count_rules(&configs, &spec);
    assert_eq!(group.name, "Replica Alerts");
    assert_eq!(group.rules.len(), 2);
    assert_eq!(group.rules[0].labels.severity, PrometheusSeverity::Critical);
    assert_eq!(group.rules[1].labels.severity, PrometheusSeverity::Warning);
    assert_eq!(
        group.rules[0].annotations.description,
        "{{ $value }} replicas currently up, expected less than 5"
    );
}

#[test]
fn grpc_alert_rules_rejects_the_traffic_kind() {
    let spec = replica_only_spec(vec![]);
    let configs = vec![config(Operation::MoreThan, "10", "3m", Some("warning"))];
    assert_eq!(
        cactuar::grpc_alerts::grpc_alert_rules(&NetworkAlert::TrafficPerSecond, &configs, &spec),
        Err(TranslationError::UnsupportedAlertKind)
    );
    let group = cactuar::grpc_alerts::grpc_alert_rules(
        &NetworkAlert::LatencyMillisecondsP90,
        &configs,
        &spec,
    )
    .expect("latency kind must build");
    assert_eq!(group.name, "gRPC Alerts");
    assert_eq!(group.rules[0].alert, "LatencyMillisecondsP90 > 10");
    assert_eq!(
        group.rules[0].expr,
        "histogram_quantile(0.90, istio_request_duration_milliseconds{destination_workload=best-service-eu}[3m]) > 10"
    );
    assert_eq!(group.rules[0].annotations.summary, "latency P(90) > 10 ms for 3m");
}

#[test]
fn rendered_document_parses_as_yaml() {
    let spec = replica_only_spec(vec![config(Operation::LessThan, "3", "5m", Some("warning"))]);
    let doc = compile(&spec).expect("replica spec must translate");
    let text = to_yaml(&doc);
    let value: serde_yaml::Value = serde_yaml::from_str(&text).expect("rendered text must parse");
    let rule = &value["groups"][0]["rules"][0];
    assert_eq!(value["groups"][0]["name"], "Replica Alerts");
    assert_eq!(rule["alert"], "ReplicaRule-best-service-eu-0");
    assert_eq!(rule["for"], "5m");
    assert_eq!(rule["labels"]["severity"], "warning");
    assert_eq!(rule["labels"]["owner"], "bar");
    assert_eq!(
        rule["expr"],
        r#"sum by (app_kubernetes_io_name) (up{app_kubernetes_io_name="best-service-eu"}) < 3"#
    );
}

#[test]
fn group_order_is_replica_then_http_then_grpc() {
    let spec = spec_with(Alerts {
        grpc: Some(vec![(
            NetworkAlert::ErrorPercent,
            vec![config(Operation::MoreThan, "10", "3m", Some("warning"))],
        )]),
        rest: Some(vec![(
            NetworkAlert::ErrorPercent,
            vec![config(Operation::MoreThan, "5", "2m", Some("warning"))],
        )]),
        replica: Some(vec![(
            ReplicaAlert::Count,
            vec![config(Operation::LessThan, "2", "5m", Some("warning"))],
        )]),
    });
    let doc = compile(&spec).expect("spec must translate");
    let names: Vec<&str> = doc.groups.iter().map(|g| g.name.as_str()).collect();
    assert_eq!(names, vec!["Replica Alerts", "HTTP Alerts", "gRPC Alerts"]);
}
