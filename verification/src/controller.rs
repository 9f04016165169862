//! The reconciliation state machine.
//!
//! The controller holds no memory across invocations: every reconcile
//! classifies the intent afresh from the observed recurring job and the
//! intent's own status sub-resource, performs at most the minimal
//! corrective action, and asks to be re-invoked after a fixed interval.
//! The caller performs the cluster calls; this module only decides.

use vstd::prelude::*;

use crate::REQUEUE_SECONDS;
use crate::crd::B2BBackup;
use crate::crd::B2BBackupStatus;
use crate::crd::B2BBackupView;
use crate::crd::spec_cronjob;
use crate::crd::spec_owner_reference;
use crate::crd::spec_test_pod;
use crate::objects::CronJob;
use crate::objects::CronJobView;
use crate::objects::TestPod;
use crate::objects::TestPodView;

verus! {

/// The state of one intent, inferred fresh on every invocation from the
/// observed objects; nothing stores it.
#[derive(Clone, Copy, Debug, PartialEq, Eq, Structural)]
pub enum ReconcileState {
    /// No recurring job exists for the intent yet.
    NoRecurringJob,
    /// The recurring job exists but has never reported a successful run.
    RecurringJobPending,
    /// A successful run is observed, but the intent's status has never
    /// been written.
    StatusUninitialized,
    /// The recorded backup success has not yet been reacted to.
    VerificationDue,
    /// The recorded backup success has already triggered verification.
    Steady,
}

/// The corrective call one invocation issues, at most one creation per
/// invocation.
pub enum ReconcileAction {
    /// Create the recurring backup job.
    CreateRecurringJob(CronJob),
    /// Write the intent's first status, recording the observed success.
    WriteInitialStatus(B2BBackupStatus),
    /// Create a verification pod, then patch the status to mark the
    /// observed success as reacted to — in that order, since the patch
    /// records that the pod was scheduled.
    CreateVerificationJob(TestPod, B2BBackupStatus),
    /// Nothing to correct.
    DoNothing,
}

/// Mathematical model of a [`ReconcileAction`].
#[verifier::ext_equal]
pub enum ReconcileActionView {
    CreateRecurringJob(CronJobView),
    WriteInitialStatus(B2BBackupStatus),
    CreateVerificationJob(TestPodView, B2BBackupStatus),
    DoNothing,
}

impl DeepView for ReconcileAction {
    type V = ReconcileActionView;

    open spec fn deep_view(&self) -> ReconcileActionView {
        match self {
            ReconcileAction::CreateRecurringJob(job) => ReconcileActionView::CreateRecurringJob(
                job.deep_view(),
            ),
            ReconcileAction::WriteInitialStatus(status) => ReconcileActionView::WriteInitialStatus(
                *status,
            ),
            ReconcileAction::CreateVerificationJob(pod, status) => ReconcileActionView::CreateVerificationJob(
                pod.deep_view(),
                *status,
            ),
            ReconcileAction::DoNothing => ReconcileActionView::DoNothing,
        }
    }
}

/// What one invocation hands back to the runtime: the corrective call to
/// issue and the delay before the next forced invocation.
pub struct ReconcileOutcome {
    pub action: ReconcileAction,
    pub requeue_after_seconds: u64,
}

/// Classifies one intent from the observed recurring job, exactly as
/// [`classify`] computes it.
pub open spec fn spec_classify(b: B2BBackupView, cj: Option<CronJobView>) -> ReconcileState {
    if cj is None {
        ReconcileState::NoRecurringJob
    } else if !(cj->0.status is Some && cj->0.status->0.last_successful_time is Some) {
        ReconcileState::RecurringJobPending
    } else if b.status is None {
        ReconcileState::StatusUninitialized
    } else if b.status->0.cronjob_last_successful_time != b.status->0.test_pod_last_schedule_time {
        ReconcileState::VerificationDue
    } else {
        ReconcileState::Steady
    }
}

/// The recurring job's observed last successful time. Meaningful only in
/// states past [`ReconcileState::RecurringJobPending`], where it is
/// known to be present.
pub open spec fn spec_observed_time(cj: Option<CronJobView>) -> i64 {
    cj->0.status->0.last_successful_time->0
}

/// The first status ever written for an intent: the observed success
/// recorded, both verification timestamps unset.
pub open spec fn spec_initial_status(t: i64) -> B2BBackupStatus {
    B2BBackupStatus {
        cronjob_last_successful_time: Some(t),
        test_pod_last_schedule_time: None,
        test_pod_last_successful_time: None,
    }
}

/// The status written when a verification pod is scheduled: the schedule
/// marker is copied from the observed success, never invented, and the
/// verification success signal stays unset.
pub open spec fn spec_reacted_status(t: i64) -> B2BBackupStatus {
    B2BBackupStatus {
        cronjob_last_successful_time: Some(t),
        test_pod_last_schedule_time: Some(t),
        test_pod_last_successful_time: None,
    }
}

/// The corrective call one invocation issues, exactly as
/// [`reconcile_step`] computes it.
pub open spec fn spec_reconcile(b: B2BBackupView, cj: Option<CronJobView>) -> ReconcileActionView {
    match spec_classify(b, cj) {
        ReconcileState::NoRecurringJob => ReconcileActionView::CreateRecurringJob(spec_cronjob(b)),
        ReconcileState::RecurringJobPending => ReconcileActionView::DoNothing,
        ReconcileState::StatusUninitialized => ReconcileActionView::WriteInitialStatus(
            spec_initial_status(spec_observed_time(cj)),
        ),
        ReconcileState::VerificationDue => ReconcileActionView::CreateVerificationJob(
            spec_test_pod(b),
            spec_reacted_status(spec_observed_time(cj)),
        ),
        ReconcileState::Steady => ReconcileActionView::DoNothing,
    }
}

/// Whether two optional timestamps are equal.
fn opt_time_eq(a: Option<i64>, b: Option<i64>) -> (r: bool)
    ensures
        r == (a == b),
{
    match (a, b) {
        (None, None) => true,
        (Some(x), Some(y)) => x == y,
        _ => false,
    }
}

/// Infers the current state of one intent from the observed recurring
/// job (`None` meaning the lookup found nothing).
pub fn classify(intent: &B2BBackup, recurring_job: Option<&CronJob>) -> (s: ReconcileState)
    ensures
        s == spec_classify(intent.deep_view(), recurring_job.deep_view()),
{
    match recurring_job {
        None => ReconcileState::NoRecurringJob,
        Some(cj) => {
            let has_success = match &cj.status {
                Some(status) => status.last_successful_time.is_some(),
                None => false,
            };
            if !has_success {
                ReconcileState::RecurringJobPending
            } else {
                match &intent.status {
                    None => ReconcileState::StatusUninitialized,
                    Some(status) => {
                        if !opt_time_eq(
                            status.cronjob_last_successful_time,
                            status.test_pod_last_schedule_time,
                        ) {
                            ReconcileState::VerificationDue
                        } else {
                            ReconcileState::Steady
                        }
                    },
                }
            }
        },
    }
}

/// One reconcile invocation: classifies the intent from the observed
/// recurring job and decides the minimal corrective call, requeueing
/// after the fixed interval whatever state was entered.
///
/// The intent must carry its cluster-assigned identifier whenever an
/// object is to be derived from it, since every derived object holds an
/// owner reference.
pub fn reconcile_step(intent: &B2BBackup, recurring_job: Option<&CronJob>) -> (r: ReconcileOutcome)
    requires
        spec_classify(intent.deep_view(), recurring_job.deep_view())
            == ReconcileState::NoRecurringJob ==> intent.uid is Some,
        spec_classify(intent.deep_view(), recurring_job.deep_view())
            == ReconcileState::VerificationDue ==> intent.uid is Some,
    ensures
        r.requeue_after_seconds == REQUEUE_SECONDS,
        r.action.deep_view() == spec_reconcile(intent.deep_view(), recurring_job.deep_view()),
{
    let state = classify(intent, recurring_job);
    let action = match state {
        ReconcileState::NoRecurringJob => ReconcileAction::CreateRecurringJob(
            intent.create_cronjob(),
        ),
        ReconcileState::RecurringJobPending => ReconcileAction::DoNothing,
        ReconcileState::StatusUninitialized => {
            let observed = recurring_job.unwrap().status.unwrap().last_successful_time.unwrap();
            ReconcileAction::WriteInitialStatus(B2BBackupStatus {
                cronjob_last_successful_time: Some(observed),
                test_pod_last_schedule_time: None,
                test_pod_last_successful_time: None,
            })
        },
        ReconcileState::VerificationDue => {
            let observed = recurring_job.unwrap().status.unwrap().last_successful_time.unwrap();
            ReconcileAction::CreateVerificationJob(
                intent.create_test_postgres_pod(),
                B2BBackupStatus {
                    cronjob_last_successful_time: Some(observed),
                    test_pod_last_schedule_time: Some(observed),
                    test_pod_last_successful_time: None,
                },
            )
        },
        ReconcileState::Steady => ReconcileAction::DoNothing,
    };
    ReconcileOutcome { action, requeue_after_seconds: REQUEUE_SECONDS }
}

/// The retry policy for any collaborator failure: the invocation is
/// abandoned and retried after the same fixed interval as the success
/// path; no failure is fatal to the controller.
pub fn error_policy() -> (r: u64)
    ensures
        r == REQUEUE_SECONDS,
{
    REQUEUE_SECONDS
}

/// For an intent with no recurring job present, one reconcile issues
/// exactly one create: a recurring job named identically to the intent
/// and owned by it, with the managing-controller and block-deletion
/// flags both set.
pub proof fn lemma_missing_job_is_created(b: B2BBackupView, cj: Option<CronJobView>)
    requires
        cj is None,
        b.uid is Some,
    ensures
        spec_reconcile(b, cj) matches ReconcileActionView::CreateRecurringJob(job) && {
            &&& job.name == b.name
            &&& job.owner_references == seq![spec_owner_reference(b)]
            &&& job.owner_references[0].name == b.name
            &&& job.owner_references[0].uid == b.uid->0
            &&& job.owner_references[0].controller == Some(true)
            &&& job.owner_references[0].block_owner_deletion == Some(true)
        },
{
}

/// Reconciling an intent whose recurring job already exists never issues
/// a second create of it, however often the invocation repeats.
pub proof fn lemma_existing_job_is_not_recreated(b: B2BBackupView, cj: Option<CronJobView>)
    requires
        cj is Some,
    ensures
        !(spec_reconcile(b, cj) is CreateRecurringJob),
{
}

/// When the recurring job reports its first observed success and the
/// intent has no status yet, one reconcile writes exactly the status
/// recording that success, with both verification timestamps unset.
pub proof fn lemma_first_success_initializes_status(
    b: B2BBackupView,
    cj: Option<CronJobView>,
    t: i64,
)
    requires
        b.status is None,
        cj is Some,
        cj->0.status is Some,
        cj->0.status->0.last_successful_time == Some(t),
    ensures
        spec_reconcile(b, cj) == ReconcileActionView::WriteInitialStatus(
            B2BBackupStatus {
                cronjob_last_successful_time: Some(t),
                test_pod_last_schedule_time: None,
                test_pod_last_successful_time: None,
            },
        ),
{
}

/// A backup success that has already been reacted to triggers no further
/// verification pod, whatever else the observation shows.
pub proof fn lemma_reacted_success_is_not_reverified(b: B2BBackupView, cj: Option<CronJobView>)
    requires
        b.status is Some,
        b.status->0.cronjob_last_successful_time == b.status->0.test_pod_last_schedule_time,
    ensures
        !(spec_reconcile(b, cj) is CreateVerificationJob),
{
}

/// Every status this controller ever writes keeps the data model's
/// invariant: the verification schedule marker, when set, is a copy of
/// the recorded backup success, never invented independently; and the
/// verification success signal is never populated.
pub proof fn lemma_written_status_keeps_invariant(b: B2BBackupView, cj: Option<CronJobView>)
    ensures
        spec_reconcile(b, cj) matches ReconcileActionView::WriteInitialStatus(st) ==> {
            &&& st.test_pod_last_schedule_time is None
            &&& st.test_pod_last_successful_time is None
            &&& st.cronjob_last_successful_time is Some
        },
        spec_reconcile(b, cj) matches ReconcileActionView::CreateVerificationJob(_, st) ==> {
            &&& st.test_pod_last_schedule_time == st.cronjob_last_successful_time
            &&& st.test_pod_last_successful_time is None
            &&& st.cronjob_last_successful_time is Some
        },
{
}

/// A recorded backup success that has not been reacted to schedules
/// exactly one verification pod and patches the status so that both
/// timestamps carry that success, the verification success signal left
/// unset. The recorded success must match the observed one: the status
/// is the controller's own mirror of the observation.
pub proof fn lemma_new_success_schedules_verification(
    b: B2BBackupView,
    cj: Option<CronJobView>,
    t_new: i64,
)
    requires
        cj is Some,
        cj->0.status is Some,
        cj->0.status->0.last_successful_time == Some(t_new),
        b.status is Some,
        b.status->0.cronjob_last_successful_time == Some(t_new),
        b.status->0.test_pod_last_schedule_time != Some(t_new),
    ensures
        spec_reconcile(b, cj) matches ReconcileActionView::CreateVerificationJob(pod, status) && {
            &&& pod == spec_test_pod(b)
            &&& status == B2BBackupStatus {
                cronjob_last_successful_time: Some(t_new),
                test_pod_last_schedule_time: Some(t_new),
                test_pod_last_successful_time: None,
            }
        },
{
}

} // verus!
