//! A reconciliation controller core for a declared Postgres backup intent.
//!
//! The library holds the verified heart of the controller: the typed
//! resource model, the pure builders that derive a recurring backup job
//! and a one-off verification pod from a backup intent, and the
//! state-machine step that decides, from freshly observed cluster state,
//! which corrective call to issue next and when to requeue.
//!
//! All cluster I/O (watching, get/create/patch calls, the health
//! endpoints) lives outside the library; callers feed observed objects in
//! as plain values and carry the returned action out to the cluster.

use vstd::prelude::*;

pub mod controller;
pub mod crd;
pub mod decimal;
pub mod objects;

pub use controller::ReconcileAction;
pub use controller::ReconcileOutcome;
pub use controller::ReconcileState;
pub use controller::classify;
pub use controller::error_policy;
pub use controller::reconcile_step;
pub use crd::B2BBackup;
pub use crd::B2BBackupSpec;
pub use crd::B2BBackupStatus;
pub use crd::PostgresAuth;
pub use crd::PostgresConfig;
pub use crd::S3Auth;
pub use crd::S3Config;
pub use crd::generate_random_string;
pub use decimal::u16_to_decimal;

pub use objects::Container;
pub use objects::CronJob;
pub use objects::CronJobStatus;
pub use objects::EnvVar;
pub use objects::OwnerReference;
pub use objects::SecurityContext;
pub use objects::TestPod;

verus! {

/// The fixed delay, in seconds, before the runtime re-invokes
/// reconciliation for an object, whatever state was entered and whether
/// or not an error occurred.
pub const REQUEUE_SECONDS: u64 = 60;

} // verus!
