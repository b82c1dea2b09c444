//! Tests of the reconciler's decision logic.

use cactuar::crd::{AlertConfig, Alerts, CommonLabels, Operation, ReplicaAlert, ServiceAlertSpec};
use cactuar::reconciler::{
    classify_event, error_policy, generate_status_patch, plan_cleanup, plan_upsert, record_event,
    Action, EventType, ObjectMeta, OperationError, ReconcileEvent, ReconcilerError, ServiceAlert,
    ERROR_REQUEUE_SECONDS, SUCCESS_REQUEUE_SECONDS,
};
use cactuar::translate::TranslationError;
use cactuar::yaml::to_yaml;

fn live_meta() -> ObjectMeta {
    ObjectMeta {
        name: "best-service-eu".to_string(),
        namespace: Some("monitoring".to_string()),
        uid: Some("4eb0a959-87c4-4d2d-a95e-1c94a2a71eb7".to_string()),
        deletion_requested: false,
        finalizer_present: true,
    }
}

fn replica_spec() -> ServiceAlertSpec {
    ServiceAlertSpec {
        common_labels: CommonLabels {
            owner: "bar".to_string(),
            origin: "cloud".to_string(),
            extra: Vec::new(),
        },
        deployment_name: "best-service-eu".to_string(),
        alerts: Alerts {
            grpc: None,
            rest: None,
            replica: Some(vec![(
                ReplicaAlert::Count,
                vec![AlertConfig {
                    operation: Operation::LessThan,
                    value: "3".to_string(),
                    for_: "5m".to_string(),
                    with_labels: vec![("severity".to_string(), "warning".to_string())],
                }],
            )]),
        },
    }
}

fn live_alert() -> ServiceAlert {
    ServiceAlert { metadata: live_meta(), spec: replica_spec(), status: None }
}

fn empty_spec_alert() -> ServiceAlert {
    let mut alert = live_alert();
    alert.spec.alerts = Alerts { grpc: None, rest: None, replica: None };
    alert
}

fn expected_timestamp(secs: i64) -> String {
    chrono::DateTime::<chrono::Utc>::from_timestamp(secs, 0)
        .expect("timestamp in range")
        .format("%Y-%m-%dT%H:%M:%S")
        .to_string()
}

#[test]
fn classify_live_object_as_apply() {
    assert_eq!(classify_event(&live_alert()), ReconcileEvent::Apply);
}

#[test]
fn classify_deleting_object_with_finalizer_as_cleanup() {
    let mut alert = live_alert();
    alert.metadata.deletion_requested = true;
    assert_eq!(classify_event(&alert), ReconcileEvent::Cleanup);
}

#[test]
fn classify_deleting_object_without_finalizer_as_removed() {
    let mut alert = live_alert();
    alert.metadata.deletion_requested = true;
    alert.metadata.finalizer_present = false;
    assert_eq!(classify_event(&alert), ReconcileEvent::Removed);
}

#[test]
fn upsert_plan_applies_expected_artifact() {
    let alert = live_alert();
    let now: i64 = 1700000000;
    let plan = plan_upsert(&alert, now).expect("upsert must succeed");

    assert!(!plan.attach_finalizer, "finalizer already present");
    assert_eq!(plan.config_map.name, "best-service-eu");
    assert_eq!(plan.config_map.namespace, "monitoring");
    assert_eq!(
        plan.config_map.labels,
        vec![("rules".to_string(), "prom-rule".to_string())]
    );
    assert_eq!(plan.config_map.owner.api_version, "cactuar.rs/v1");
    assert_eq!(plan.config_map.owner.kind, "ServiceAlert");
    assert_eq!(plan.config_map.owner.name, "best-service-eu");
    assert_eq!(
        plan.config_map.owner.uid,
        "4eb0a959-87c4-4d2d-a95e-1c94a2a71eb7"
    );
    assert!(plan.config_map.owner.controller);
    assert_eq!(plan.config_map.data_key, "bar");
    let doc = cactuar::translate::compile(&alert.spec).expect("spec must translate");
    assert_eq!(plan.config_map.data_value, to_yaml(&doc));
    assert_eq!(plan.action, Action::RequeueAfterSeconds(SUCCESS_REQUEUE_SECONDS));
    assert_eq!(plan.action, Action::RequeueAfterSeconds(300));

    let t1 = expected_timestamp(now);
    let t2 = expected_timestamp(now + 300);
    assert_eq!(t1, "2023-11-14T22:13:20");
    let expected_patch = format!(
        "{{\"apiVersion\":\"cactuar.rs/v1\",\"kind\":\"ServiceAlert\",\"status\":{{\"lastReconciledAt\":\"{}\",\"reconciliationExpiresAt\":\"{}\"}}}}",
        t1, t2
    );
    assert_eq!(plan.status_patch, expected_patch);
}

#[test]
fn upsert_attaches_missing_finalizer() {
    let mut alert = live_alert();
    alert.metadata.finalizer_present = false;
    let plan = plan_upsert(&alert, 1700000000).expect("upsert must succeed");
    assert!(plan.attach_finalizer);
}

#[test]
fn upsert_is_idempotent_across_times() {
    let alert = live_alert();
    let p1 = plan_upsert(&alert, 1700000000).expect("upsert must succeed");
    let p2 = plan_upsert(&alert, 1700000000 + 3600).expect("upsert must succeed");
    assert_eq!(p1.config_map, p2.config_map);
    assert_eq!(p1.attach_finalizer, p2.attach_finalizer);
    assert_eq!(p1.action, p2.action);

    let p3 = plan_upsert(&alert, 1700000000).expect("upsert must succeed");
    assert_eq!(p1, p3);
}

#[test]
fn upsert_fails_without_namespace() {
    let mut alert = live_alert();
    alert.metadata.namespace = None;
    assert_eq!(
        plan_upsert(&alert, 1700000000),
        Err(OperationError::MissingObjectKey("namespace".to_string()))
    );
}

#[test]
fn upsert_fails_without_uid() {
    let mut alert = live_alert();
    alert.metadata.uid = None;
    assert_eq!(
        plan_upsert(&alert, 1700000000),
        Err(OperationError::MissingObjectKey("owner_references".to_string()))
    );
}

#[test]
fn upsert_surfaces_translation_failure_without_writes() {
    let alert = empty_spec_alert();
    assert_eq!(
        plan_upsert(&alert, 1700000000),
        Err(OperationError::Translation(TranslationError::NoRulesDefined))
    );
}

#[test]
fn upsert_surfaces_unusable_document_without_writes() {
    let mut alert = live_alert();
    alert.spec.alerts = Alerts { grpc: None, rest: Some(vec![]), replica: None };
    assert_eq!(
        plan_upsert(&alert, 1700000000),
        Err(OperationError::Artifact(cactuar::yaml::ArtifactError::NoRulesInGroup))
    );
}

#[test]
fn cleanup_publishes_one_event_and_awaits_change() {
    let mut alert = live_alert();
    alert.metadata.deletion_requested = true;
    let plan = plan_cleanup(&alert);
    assert_eq!(plan.event.type_, EventType::Normal);
    assert_eq!(plan.event.reason, "Delete");
    assert_eq!(plan.event.note, "Delete `best-service-eu`");
    assert_eq!(plan.event.action, "Reconciling");
    assert!(plan.clear_finalizer);
    assert_eq!(plan.action, Action::AwaitChange);
}

#[test]
fn error_policy_returns_fixed_backoff() {
    let alert = live_alert();
    let error = ReconcilerError::Finalizer(OperationError::Kube(
        "connection refused".to_string(),
    ));
    assert_eq!(
        error_policy(&alert, &error),
        Action::RequeueAfterSeconds(ERROR_REQUEUE_SECONDS)
    );
    assert_eq!(error_policy(&alert, &error), Action::RequeueAfterSeconds(60));
}

#[test]
fn status_patch_embeds_both_timestamps() {
    let patch = generate_status_patch(0);
    assert!(patch.contains("\"lastReconciledAt\":\"1970-01-01T00:00:00\""));
    assert!(patch.contains("\"reconciliationExpiresAt\":\"1970-01-01T00:05:00\""));
}

#[test]
fn record_event_names_the_object() {
    let line = record_event(&live_alert());
    assert_eq!(line, "best-service-eu: Captured a ServiceAlerter event.");
}
