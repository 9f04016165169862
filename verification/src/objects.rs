//! Typed models of the cluster objects the controller derives and
//! observes: the recurring backup job, the one-off verification pod, and
//! the pieces they share (owner reference, container, environment).
//!
//! Only the fields the controller itself sets or reads are modelled;
//! everything the cluster fills in on its own (identifiers, managed
//! fields, run history beyond the last successful time) stays outside.
//! Callers translate between these models and the cluster's wire types.

use vstd::prelude::*;

verus! {

/// A reference from a derived object to the backup intent that owns it.
#[derive(Clone, Debug, PartialEq, Eq)]
pub struct OwnerReference {
    pub api_version: String,
    pub kind: String,
    pub name: String,
    pub uid: String,
    pub controller: Option<bool>,
    pub block_owner_deletion: Option<bool>,
}

/// Mathematical model of an [`OwnerReference`].
#[verifier::ext_equal]
pub struct OwnerReferenceView {
    pub api_version: Seq<char>,
    pub kind: Seq<char>,
    pub name: Seq<char>,
    pub uid: Seq<char>,
    pub controller: Option<bool>,
    pub block_owner_deletion: Option<bool>,
}

impl DeepView for OwnerReference {
    type V = OwnerReferenceView;

    open spec fn deep_view(&self) -> OwnerReferenceView {
        OwnerReferenceView {
            api_version: self.api_version@,
            kind: self.kind@,
            name: self.name@,
            uid: self.uid@,
            controller: self.controller,
            block_owner_deletion: self.block_owner_deletion,
        }
    }
}

/// One environment entry of the workload container. A `None` value means
/// the variable is left absent rather than set to an empty string.
#[derive(Clone, Debug, PartialEq, Eq)]
pub struct EnvVar {
    pub name: String,
    pub value: Option<String>,
}

/// Mathematical model of an [`EnvVar`].
#[verifier::ext_equal]
pub struct EnvVarView {
    pub name: Seq<char>,
    pub value: Option<Seq<char>>,
}

impl DeepView for EnvVar {
    type V = EnvVarView;

    open spec fn deep_view(&self) -> EnvVarView {
        EnvVarView { name: self.name@, value: self.value.deep_view() }
    }
}

/// The fixed security posture of the workload container: escalation
/// disabled, every capability dropped, the runtime's default syscall
/// filter. These are constants of the design, not derived from the
/// intent.
#[derive(Clone, Debug, PartialEq, Eq)]
pub struct SecurityContext {
    pub allow_privilege_escalation: bool,
    pub capabilities_drop: Vec<String>,
    pub read_only_root_filesystem: bool,
    pub run_as_group: i64,
    pub run_as_non_root: bool,
    pub run_as_user: i64,
    pub seccomp_profile_type: String,
}

/// Mathematical model of a [`SecurityContext`].
#[verifier::ext_equal]
pub struct SecurityContextView {
    pub allow_privilege_escalation: bool,
    pub capabilities_drop: Seq<Seq<char>>,
    pub read_only_root_filesystem: bool,
    pub run_as_group: i64,
    pub run_as_non_root: bool,
    pub run_as_user: i64,
    pub seccomp_profile_type: Seq<char>,
}

impl DeepView for SecurityContext {
    type V = SecurityContextView;

    open spec fn deep_view(&self) -> SecurityContextView {
        SecurityContextView {
            allow_privilege_escalation: self.allow_privilege_escalation,
            capabilities_drop: self.capabilities_drop.deep_view(),
            read_only_root_filesystem: self.read_only_root_filesystem,
            run_as_group: self.run_as_group,
            run_as_non_root: self.run_as_non_root,
            run_as_user: self.run_as_user,
            seccomp_profile_type: self.seccomp_profile_type@,
        }
    }
}

/// The single workload container of a derived object.
#[derive(Clone, Debug, PartialEq, Eq)]
pub struct Container {
    pub name: String,
    pub image: String,
    pub image_pull_policy: String,
    pub env: Vec<EnvVar>,
    pub security_context: SecurityContext,
    pub termination_message_path: String,
    pub termination_message_policy: String,
}

/// Mathematical model of a [`Container`].
#[verifier::ext_equal]
pub struct ContainerView {
    pub name: Seq<char>,
    pub image: Seq<char>,
    pub image_pull_policy: Seq<char>,
    pub env: Seq<EnvVarView>,
    pub security_context: SecurityContextView,
    pub termination_message_path: Seq<char>,
    pub termination_message_policy: Seq<char>,
}

impl DeepView for Container {
    type V = ContainerView;

    open spec fn deep_view(&self) -> ContainerView {
        ContainerView {
            name: self.name@,
            image: self.image@,
            image_pull_policy: self.image_pull_policy@,
            env: self.env.deep_view(),
            security_context: self.security_context.deep_view(),
            termination_message_path: self.termination_message_path@,
            termination_message_policy: self.termination_message_policy@,
        }
    }
}

/// The observed run history of a recurring job: the cluster's record of
/// the most recent successful execution, as seconds of epoch time. The
/// controller reads this field and never writes it.
#[derive(Clone, Copy, Debug, PartialEq, Eq, Structural)]
pub struct CronJobStatus {
    pub last_successful_time: Option<i64>,
}

impl DeepView for CronJobStatus {
    type V = CronJobStatus;

    open spec fn deep_view(&self) -> CronJobStatus {
        *self
    }
}

/// The recurring backup job derived from one intent: scheduled by a cron
/// expression, replacing any still-running instance, retrying a failed
/// run without restarting a successful one.
#[derive(Clone, Debug, PartialEq, Eq)]
pub struct CronJob {
    pub name: String,
    pub namespace: String,
    pub labels: Vec<(String, String)>,
    pub owner_references: Vec<OwnerReference>,
    pub schedule: String,
    pub concurrency_policy: String,
    pub job_name: String,
    pub job_labels: Vec<(String, String)>,
    pub container: Container,
    pub restart_policy: String,
    pub status: Option<CronJobStatus>,
}

/// Mathematical model of a [`CronJob`].
#[verifier::ext_equal]
pub struct CronJobView {
    pub name: Seq<char>,
    pub namespace: Seq<char>,
    pub labels: Seq<(Seq<char>, Seq<char>)>,
    pub owner_references: Seq<OwnerReferenceView>,
    pub schedule: Seq<char>,
    pub concurrency_policy: Seq<char>,
    pub job_name: Seq<char>,
    pub job_labels: Seq<(Seq<char>, Seq<char>)>,
    pub container: ContainerView,
    pub restart_policy: Seq<char>,
    pub status: Option<CronJobStatus>,
}

impl DeepView for CronJob {
    type V = CronJobView;

    open spec fn deep_view(&self) -> CronJobView {
        CronJobView {
            name: self.name@,
            namespace: self.namespace@,
            labels: self.labels.deep_view(),
            owner_references: self.owner_references.deep_view(),
            schedule: self.schedule@,
            concurrency_policy: self.concurrency_policy@,
            job_name: self.job_name@,
            job_labels: self.job_labels.deep_view(),
            container: self.container.deep_view(),
            restart_policy: self.restart_policy@,
            status: self.status.deep_view(),
        }
    }
}

/// The one-off verification pod derived from one intent: a single-run
/// workload that restores the just-produced backup to prove it usable.
/// The cluster completes its name from the generate-name prefix, so
/// repeated creations never collide.
#[derive(Clone, Debug, PartialEq, Eq)]
pub struct TestPod {
    pub generate_name: String,
    pub namespace: String,
    pub labels: Vec<(String, String)>,
    pub owner_references: Vec<OwnerReference>,
    pub container: Container,
    pub restart_policy: String,
}

/// Mathematical model of a [`TestPod`].
#[verifier::ext_equal]
pub struct TestPodView {
    pub generate_name: Seq<char>,
    pub namespace: Seq<char>,
    pub labels: Seq<(Seq<char>, Seq<char>)>,
    pub owner_references: Seq<OwnerReferenceView>,
    pub container: ContainerView,
    pub restart_policy: Seq<char>,
}

impl DeepView for TestPod {
    type V = TestPodView;

    open spec fn deep_view(&self) -> TestPodView {
        TestPodView {
            generate_name: self.generate_name@,
            namespace: self.namespace@,
            labels: self.labels.deep_view(),
            owner_references: self.owner_references.deep_view(),
            container: self.container.deep_view(),
            restart_policy: self.restart_policy@,
        }
    }
}

} // verus!
