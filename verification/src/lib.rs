//! Kubernetes operator library for deriving Prometheus alerting-rule
//! documents from a `ServiceAlert` custom resource.
//!
//! The crate is split along the operator's two concerns:
//!
//! - the translation engine ([`translate`], [`alert`], [`replica_alerts`],
//!   [`http_alerts`], [`grpc_alerts`], [`yaml`]): a pure, deterministic
//!   compiler from a [`crd::ServiceAlertSpec`] to a Prometheus rule document
//!   and its rendered text;
//! - the reconciler ([`reconciler`], [`timefmt`]): the finalizer-gated
//!   decision logic that turns a watched object plus a clock reading into a
//!   set of cluster writes and a scheduling directive.
//!
//! All I/O (the Kubernetes client, the HTTP endpoints, logging) lives outside
//! this crate; the functions here compute plans and documents from plain
//! values.

use vstd::prelude::*;

pub mod crd;
pub mod text;
pub mod alert;
pub mod replica_alerts;
pub mod http_alerts;
pub mod grpc_alerts;
pub mod translate;
pub mod yaml;
pub mod timefmt;
pub mod reconciler;

verus! {

/// API group of the `ServiceAlert` custom resource.
pub const API_GROUP: &'static str = "cactuar.rs";

/// API version of the `ServiceAlert` custom resource.
pub const API_VERSION: &'static str = "v1";

/// Kind name of the custom resource.
pub const KIND: &'static str = "ServiceAlert";

/// Finalizer attached to every live `ServiceAlert`; also used as the
/// field-manager identity for the owned artifact's apply patches.
pub const FINALIZER_NAME: &'static str = "servicealert.cactuar.rs";

} // verus!
