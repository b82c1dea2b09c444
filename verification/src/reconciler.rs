//! The reconciler's decision logic: what one observed `ServiceAlert` object,
//! together with a clock reading, requires of the cluster.
//!
//! The functions here compute *plans* — the owned artifact to apply, the
//! status patch to send, the audit event to publish, the scheduling
//! directive to return — as plain values. The surrounding controller loop
//! performs the writes and feeds back failures; it must serialize calls per
//! object, as reconciliation assumes no two passes for one object overlap.
//!
//! An object moves through four states: never seen; live with the finalizer
//! attached; marked for deletion with the finalizer still attached, awaiting
//! cleanup; and removed once the finalizer is cleared. [`classify_event`]
//! picks the transition an observation asks for, [`plan_upsert`] and
//! [`plan_cleanup`] say what it does.

use vstd::prelude::*;
use vstd::string::StringExecFns;

use crate::crd::{ServiceAlertSpec, ServiceAlertSpecView, ServiceAlertStatus};
use crate::timefmt::{format_utc_timestamp, timestamp_text};
use crate::translate::{compile, compile_model, TranslationError};
use crate::yaml::{artifact_data, yaml_doc, ArtifactError};

verus! {

/// Delay before a successful reconciliation is repeated, so drift heals even
/// without a new event.
pub const SUCCESS_REQUEUE_SECONDS: u64 = 300;

/// Fixed backoff after a failed reconciliation; never an immediate retry.
pub const ERROR_REQUEUE_SECONDS: u64 = 60;

/// Latest clock reading a reconciliation accepts: the status patch embeds
/// the time one success interval ahead, which must stay formattable.
pub const MAX_RECONCILE_SECONDS: i64 = 253402300499;

/// Scheduling directive a reconciliation pass returns to its caller.
#[derive(Clone, Copy, Debug, PartialEq, Eq, Structural)]
pub enum Action {
    /// Re-invoke reconciliation for this object after the given delay.
    RequeueAfterSeconds(u64),
    /// Do nothing further until the next change notification.
    AwaitChange,
}

/// Classification of an audit event.
#[derive(Clone, Copy, Debug, PartialEq, Eq, Structural)]
pub enum EventType {
    Normal,
    Warning,
}

/// Why a reconciliation operation failed.
#[derive(Clone, Debug, PartialEq)]
pub enum OperationError {
    /// A field the operation needs is absent from the live object.
    MissingObjectKey(String),
    /// The specification cannot be translated.
    Translation(TranslationError),
    /// The translated document cannot back an artifact.
    Artifact(ArtifactError),
    /// The cluster rejected or failed a write; carries the transport's own
    /// description.
    Kube(String),
}

/// Why a whole reconciliation pass failed.
#[derive(Clone, Debug, PartialEq)]
pub enum ReconcilerError {
    /// The finalizer-gated operation failed.
    Finalizer(OperationError),
    /// A field the pass needs is absent from the live object.
    MissingObjectKey(String),
}

/// The metadata of a watched object that reconciliation reads.
#[derive(Clone, Debug, PartialEq)]
pub struct ObjectMeta {
    /// The object's name.
    pub name: String,
    /// The object's namespace, when set.
    pub namespace: Option<String>,
    /// The unique id the cluster assigned, when known.
    pub uid: Option<String>,
    /// Whether deletion has been requested.
    pub deletion_requested: bool,
    /// Whether this reconciler's finalizer is attached.
    pub finalizer_present: bool,
}

/// Mathematical view of [`ObjectMeta`].
#[verifier::ext_equal]
pub struct ObjectMetaView {
    pub name: Seq<char>,
    pub namespace: Option<Seq<char>>,
    pub uid: Option<Seq<char>>,
    pub deletion_requested: bool,
    pub finalizer_present: bool,
}

impl View for ObjectMeta {
    type V = ObjectMetaView;

    open spec fn view(&self) -> ObjectMetaView {
        ObjectMetaView {
            name: self.name@,
            namespace: match self.namespace {
                Some(ref s) => Some(s@),
                None => None,
            },
            uid: match self.uid {
                Some(ref s) => Some(s@),
                None => None,
            },
            deletion_requested: self.deletion_requested,
            finalizer_present: self.finalizer_present,
        }
    }
}

/// One watched `ServiceAlert` object as reconciliation sees it.
#[derive(Clone, Debug, PartialEq)]
pub struct ServiceAlert {
    pub metadata: ObjectMeta,
    pub spec: ServiceAlertSpec,
    pub status: Option<ServiceAlertStatus>,
}

/// Mathematical view of a [`ServiceAlert`] object.
#[verifier::ext_equal]
pub struct ServiceAlertView {
    pub metadata: ObjectMetaView,
    pub spec: ServiceAlertSpecView,
}

impl View for ServiceAlert {
    type V = ServiceAlertView;

    open spec fn view(&self) -> ServiceAlertView {
        ServiceAlertView { metadata: self.metadata@, spec: self.spec@ }
    }
}

/// The reconciliation an observation calls for.
#[derive(Clone, Copy, Debug, PartialEq, Eq, Structural)]
pub enum ReconcileEvent {
    /// The object is live: upsert the owned artifact.
    Apply,
    /// Deletion was requested and the finalizer still gates it: clean up.
    Cleanup,
    /// Deletion was requested and the finalizer is already cleared; nothing
    /// remains to do.
    Removed,
}

/// Which event an object's deletion mark and finalizer call for.
pub open spec fn event_model(deletion_requested: bool, finalizer_present: bool) -> ReconcileEvent {
    if !deletion_requested {
        ReconcileEvent::Apply
    } else if finalizer_present {
        ReconcileEvent::Cleanup
    } else {
        ReconcileEvent::Removed
    }
}

/// Classifies an observed object: apply while it is live, clean up once
/// deletion is requested and the finalizer still gates it.
pub fn classify_event(alert: &ServiceAlert) -> (e: ReconcileEvent)
    ensures
        e == event_model(alert@.metadata.deletion_requested, alert@.metadata.finalizer_present),
{
    if !alert.metadata.deletion_requested {
        ReconcileEvent::Apply
    } else if alert.metadata.finalizer_present {
        ReconcileEvent::Cleanup
    } else {
        ReconcileEvent::Removed
    }
}

/// An owner reference pointing at the reconciled object, so that deleting it
/// garbage-collects the artifact.
#[derive(Clone, Debug, PartialEq)]
pub struct OwnerReference {
    pub api_version: String,
    pub kind: String,
    pub name: String,
    pub uid: String,
    /// The artifact names the reconciled object as its managing controller.
    pub controller: bool,
}

/// Mathematical view of an [`OwnerReference`].
#[verifier::ext_equal]
pub struct OwnerReferenceView {
    pub api_version: Seq<char>,
    pub kind: Seq<char>,
    pub name: Seq<char>,
    pub uid: Seq<char>,
    pub controller: bool,
}

impl View for OwnerReference {
    type V = OwnerReferenceView;

    open spec fn view(&self) -> OwnerReferenceView {
        OwnerReferenceView {
            api_version: self.api_version@,
            kind: self.kind@,
            name: self.name@,
            uid: self.uid@,
            controller: self.controller,
        }
    }
}

/// The owned artifact an upsert applies: a key-value object carrying the
/// rendered rule document.
#[derive(Clone, Debug, PartialEq)]
pub struct ConfigMapPlan {
    /// Artifact name: the reconciled object's name.
    pub name: String,
    /// Artifact namespace: the reconciled object's namespace.
    pub namespace: String,
    /// Object labels; the fixed marker label lets the metrics system find
    /// the artifact.
    pub labels: Vec<(String, String)>,
    pub owner: OwnerReference,
    /// The single data key: the first rule's `owner` label.
    pub data_key: String,
    /// The single data value: the rendered rule document.
    pub data_value: String,
}

/// Mathematical view of a [`ConfigMapPlan`].
#[verifier::ext_equal]
pub struct ConfigMapPlanView {
    pub name: Seq<char>,
    pub namespace: Seq<char>,
    pub labels: crate::crd::LabelsSeq,
    pub owner: OwnerReferenceView,
    pub data_key: Seq<char>,
    pub data_value: Seq<char>,
}

impl View for ConfigMapPlan {
    type V = ConfigMapPlanView;

    open spec fn view(&self) -> ConfigMapPlanView {
        ConfigMapPlanView {
            name: self.name@,
            namespace: self.namespace@,
            labels: crate::crd::labels_view(self.labels@),
            owner: self.owner@,
            data_key: self.data_key@,
            data_value: self.data_value@,
        }
    }
}

/// Everything a successful upsert pass writes, plus its directive.
#[derive(Clone, Debug, PartialEq)]
pub struct UpsertPlan {
    /// Attach the finalizer first when it is not yet present.
    pub attach_finalizer: bool,
    /// The artifact to apply, under this reconciler's field-manager
    /// identity.
    pub config_map: ConfigMapPlan,
    /// The status sub-resource merge patch to send after the artifact write.
    pub status_patch: String,
    /// The directive to return: re-check after the success interval.
    pub action: Action,
}

/// Mathematical view of an [`UpsertPlan`].
#[verifier::ext_equal]
pub struct UpsertPlanView {
    pub attach_finalizer: bool,
    pub config_map: ConfigMapPlanView,
    pub status_patch: Seq<char>,
    pub action: Action,
}

impl View for UpsertPlan {
    type V = UpsertPlanView;

    open spec fn view(&self) -> UpsertPlanView {
        UpsertPlanView {
            attach_finalizer: self.attach_finalizer,
            config_map: self.config_map@,
            status_patch: self.status_patch@,
            action: self.action,
        }
    }
}

/// The status patch a successful pass sends: last reconciled now, expiring
/// one success interval later.
pub open spec fn status_patch_text(now: int) -> Seq<char> {
    "{\"apiVersion\":\"cactuar.rs/v1\",\"kind\":\"ServiceAlert\",\"status\":{\"lastReconciledAt\":\""@
        + timestamp_text(now) + "\",\"reconciliationExpiresAt\":\""@ + timestamp_text(
        now + SUCCESS_REQUEUE_SECONDS as int,
    ) + "\"}}"@
}

/// Builds the status merge patch for a pass that succeeded at `now_secs`.
pub fn generate_status_patch(now_secs: i64) -> (r: String)
    requires
        0 <= now_secs <= MAX_RECONCILE_SECONDS,
    ensures
        r@ == status_patch_text(now_secs as int),
{
    let t1 = format_utc_timestamp(now_secs);
    let t2 = format_utc_timestamp(now_secs + SUCCESS_REQUEUE_SECONDS as i64);
    let mut s: String =
        "{\"apiVersion\":\"cactuar.rs/v1\",\"kind\":\"ServiceAlert\",\"status\":{\"lastReconciledAt\":\"".to_owned();
    s.append(t1.as_str());
    s.append("\",\"reconciliationExpiresAt\":\"");
    s.append(t2.as_str());
    s.append("\"}}");
    proof {
        assert(s@ =~= status_patch_text(now_secs as int));
    }
    s
}

/// Whether translation of an object's specification yields a document that
/// can back an artifact: it compiles, and its first group holds a rule.
pub open spec fn doc_has_first_rule(s: ServiceAlertSpecView) -> bool {
    &&& compile_model(s) is Ok
    &&& compile_model(s)->Ok_0.groups.len() > 0
    &&& compile_model(s)->Ok_0.groups[0].rules.len() > 0
}

/// Whether an upsert pass can succeed for an object: the object carries the
/// fields the write needs and its specification yields a usable document.
pub open spec fn upsert_ok(a: ServiceAlertView) -> bool {
    &&& a.metadata.namespace is Some
    &&& a.metadata.uid is Some
    &&& doc_has_first_rule(a.spec)
}

/// The artifact a successful upsert applies. Independent of the clock: only
/// the status patch embeds time.
pub open spec fn upsert_config_map_model(a: ServiceAlertView) -> ConfigMapPlanView {
    let doc = compile_model(a.spec)->Ok_0;
    ConfigMapPlanView {
        name: a.metadata.name,
        namespace: a.metadata.namespace->0,
        labels: seq![("rules"@, "prom-rule"@)],
        owner: OwnerReferenceView {
            api_version: "cactuar.rs/v1"@,
            kind: "ServiceAlert"@,
            name: a.metadata.name,
            uid: a.metadata.uid->0,
            controller: true,
        },
        data_key: doc.groups[0].rules[0].labels.owner,
        data_value: yaml_doc(doc),
    }
}

/// The whole plan of a successful upsert pass at time `now`.
pub open spec fn upsert_plan_model(a: ServiceAlertView, now: int) -> UpsertPlanView {
    UpsertPlanView {
        attach_finalizer: !a.metadata.finalizer_present,
        config_map: upsert_config_map_model(a),
        status_patch: status_patch_text(now),
        action: Action::RequeueAfterSeconds(SUCCESS_REQUEUE_SECONDS),
    }
}

/// Plans the upsert for a live object observed at `now_secs`.
///
/// Succeeds exactly when the object has a namespace and a uid and its
/// specification yields a document with at least one rule; the plan is then
/// [`upsert_plan_model`]. Each failure names its cause: the missing field,
/// the translation error, or the document that cannot back an artifact. On
/// failure nothing is written.
pub fn plan_upsert(alert: &ServiceAlert, now_secs: i64) -> (r: Result<UpsertPlan, OperationError>)
    requires
        0 <= now_secs <= MAX_RECONCILE_SECONDS,
    ensures
        r is Ok <==> upsert_ok(alert@),
        match r {
            Ok(p) => p@ == upsert_plan_model(alert@, now_secs as int),
            Err(e) => match e {
                OperationError::MissingObjectKey(k) => (k@ == "namespace"@ && alert@.metadata.namespace is None)
                    || (k@ == "owner_references"@ && alert@.metadata.namespace is Some
                    && alert@.metadata.uid is None),
                OperationError::Translation(te) => alert@.metadata.namespace is Some
                    && alert@.metadata.uid is Some && compile_model(alert@.spec) == Err::<
                    crate::alert::PromAlertsView,
                    TranslationError,
                >(te),
                OperationError::Artifact(ae) => alert@.metadata.namespace is Some
                    && alert@.metadata.uid is Some && compile_model(alert@.spec) is Ok && match ae {
                    ArtifactError::NoAlertGroups => compile_model(alert@.spec)->Ok_0.groups.len()
                        == 0,
                    ArtifactError::NoRulesInGroup => compile_model(alert@.spec)->Ok_0.groups.len()
                        > 0 && compile_model(alert@.spec)->Ok_0.groups[0].rules.len() == 0,
                },
                OperationError::Kube(_) => false,
            },
        },
{
    let namespace = match &alert.metadata.namespace {
        Some(ns) => ns.clone(),
        None => {
            return Err(OperationError::MissingObjectKey("namespace".to_owned()));
        },
    };
    let uid = match &alert.metadata.uid {
        Some(uid) => uid.clone(),
        None => {
            return Err(OperationError::MissingObjectKey("owner_references".to_owned()));
        },
    };
    let doc = match compile(&alert.spec) {
        Ok(doc) => doc,
        Err(e) => {
            return Err(OperationError::Translation(e));
        },
    };
    let (data_key, data_value) = match artifact_data(&doc) {
        Ok(kv) => kv,
        Err(e) => {
            return Err(OperationError::Artifact(e));
        },
    };
    let mut labels: Vec<(String, String)> = Vec::new();
    labels.push(("rules".to_owned(), "prom-rule".to_owned()));
    let owner = OwnerReference {
        api_version: "cactuar.rs/v1".to_owned(),
        kind: "ServiceAlert".to_owned(),
        name: alert.metadata.name.clone(),
        uid,
        controller: true,
    };
    let config_map = ConfigMapPlan {
        name: alert.metadata.name.clone(),
        namespace,
        labels,
        owner,
        data_key,
        data_value,
    };
    let status_patch = generate_status_patch(now_secs);
    let plan = UpsertPlan {
        attach_finalizer: !alert.metadata.finalizer_present,
        config_map,
        status_patch,
        action: Action::RequeueAfterSeconds(SUCCESS_REQUEUE_SECONDS),
    };
    proof {
        assert(plan@.config_map.labels =~= seq![("rules"@, "prom-rule"@)]);
        assert(plan@ =~= upsert_plan_model(alert@, now_secs as int));
    }
    Ok(plan)
}

/// The human-readable audit record published when an object is cleaned up.
#[derive(Clone, Debug, PartialEq)]
pub struct EventRecord {
    pub type_: EventType,
    pub reason: String,
    pub note: String,
    pub action: String,
}

/// Mathematical view of an [`EventRecord`].
#[verifier::ext_equal]
pub struct EventRecordView {
    pub type_: EventType,
    pub reason: Seq<char>,
    pub note: Seq<char>,
    pub action: Seq<char>,
}

impl View for EventRecord {
    type V = EventRecordView;

    open spec fn view(&self) -> EventRecordView {
        EventRecordView {
            type_: self.type_,
            reason: self.reason@,
            note: self.note@,
            action: self.action@,
        }
    }
}

/// What a cleanup pass does: publish exactly one audit record, then let the
/// caller clear the finalizer; the artifact itself is garbage-collected
/// through its owner reference.
#[derive(Clone, Debug, PartialEq)]
pub struct CleanupPlan {
    /// The one audit record to publish.
    pub event: EventRecord,
    /// Clear the finalizer so removal proceeds.
    pub clear_finalizer: bool,
    /// The directive to return: nothing further until the next change.
    pub action: Action,
}

/// The audit record for deleting the object named `name`.
pub open spec fn delete_event_model(name: Seq<char>) -> EventRecordView {
    EventRecordView {
        type_: EventType::Normal,
        reason: "Delete"@,
        note: "Delete `"@ + name + "`"@,
        action: "Reconciling"@,
    }
}

/// Plans the cleanup for an object whose deletion is requested: one audit
/// record, the finalizer cleared, and no requeue timer armed.
pub fn plan_cleanup(alert: &ServiceAlert) -> (r: CleanupPlan)
    ensures
        r.event@ == delete_event_model(alert@.metadata.name),
        r.clear_finalizer,
        r.action == Action::AwaitChange,
{
    let mut note: String = "Delete `".to_owned();
    note.append(alert.metadata.name.as_str());
    note.append("`");
    let event = EventRecord {
        type_: EventType::Normal,
        reason: "Delete".to_owned(),
        note,
        action: "Reconciling".to_owned(),
    };
    proof {
        assert(event@ =~= delete_event_model(alert@.metadata.name));
    }
    CleanupPlan { event, clear_finalizer: true, action: Action::AwaitChange }
}

/// Maps any reconciliation failure to the fixed backoff directive. The
/// object and the error are logged by the caller; the schedule never depends
/// on them, and there is no retry limit.
pub fn error_policy(alert: &ServiceAlert, error: &ReconcilerError) -> (a: Action)
    ensures
        a == Action::RequeueAfterSeconds(ERROR_REQUEUE_SECONDS),
{
    Action::RequeueAfterSeconds(ERROR_REQUEUE_SECONDS)
}

/// The log line recorded for one observed object.
pub fn record_event(e: &ServiceAlert) -> (r: String)
    ensures
        r@ == e@.metadata.name + ": Captured a ServiceAlerter event."@,
{
    let mut s: String = e.metadata.name.clone();
    s.append(": Captured a ServiceAlerter event.");
    s
}

/// Idempotency of the upsert: the artifact a pass applies — name,
/// namespace, labels, owner reference, data key and rendered document — is a
/// function of the object alone; re-planning at any later time applies the
/// identical artifact, and only the status patch carries the clock.
pub proof fn lemma_upsert_idempotent(a: ServiceAlertView, t1: int, t2: int)
    ensures
        upsert_plan_model(a, t1).config_map == upsert_plan_model(a, t2).config_map,
        upsert_plan_model(a, t1).attach_finalizer == upsert_plan_model(a, t2).attach_finalizer,
        upsert_plan_model(a, t1).action == upsert_plan_model(a, t2).action,
{
}

/// The owned artifact is keyed by the specification's common `owner`
/// label: whatever the first emitted rule is, the artifact's single data
/// key is that owner, so one artifact carries exactly one owner's rules.
pub proof fn lemma_artifact_keyed_by_owner(a: ServiceAlertView)
    requires
        upsert_ok(a),
    ensures
        upsert_config_map_model(a).data_key == a.spec.common_labels.owner,
{
    crate::translate::lemma_label_rule(a.spec, 0, 0);
}

/// A failing specification stops the pass before any write: when
/// translation fails, the upsert plan is exactly that error and no artifact
/// or status write is planned.
pub proof fn lemma_no_write_on_translation_failure(a: ServiceAlertView)
    requires
        compile_model(a.spec) is Err,
    ensures
        !upsert_ok(a),
{
}

} // verus!
