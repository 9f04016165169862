//! The backup intent resource: its user-authored spec, its
//! controller-owned status, and the pure builders that derive the
//! recurring backup job and the one-off verification pod from it.

use vstd::prelude::*;
use vstd::string::StringExecFns;
use rand::Rng;
use rand::distributions::Alphanumeric;
use rand::thread_rng;

use crate::decimal::spec_decimal;
use crate::decimal::u16_to_decimal;
use crate::objects::Container;
use crate::objects::ContainerView;
use crate::objects::CronJob;
use crate::objects::CronJobView;
use crate::objects::EnvVar;
use crate::objects::EnvVarView;
use crate::objects::OwnerReference;
use crate::objects::OwnerReferenceView;
use crate::objects::SecurityContext;
use crate::objects::SecurityContextView;
use crate::objects::TestPod;
use crate::objects::TestPodView;

verus! {

/// Database credential of a backup intent.
#[derive(Clone, Debug, PartialEq, Eq)]
pub struct PostgresAuth {
    pub password: String,
}

/// Mathematical model of a [`PostgresAuth`].
#[verifier::ext_equal]
pub struct PostgresAuthView {
    pub password: Seq<char>,
}

impl DeepView for PostgresAuth {
    type V = PostgresAuthView;

    open spec fn deep_view(&self) -> PostgresAuthView {
        PostgresAuthView { password: self.password@ }
    }
}

/// Where the database to back up is reachable.
#[derive(Clone, Debug, PartialEq, Eq)]
pub struct PostgresConfig {
    pub host: String,
    pub port: u16,
    pub auth: PostgresAuth,
}

/// Mathematical model of a [`PostgresConfig`].
#[verifier::ext_equal]
pub struct PostgresConfigView {
    pub host: Seq<char>,
    pub port: u16,
    pub auth: PostgresAuthView,
}

impl DeepView for PostgresConfig {
    type V = PostgresConfigView;

    open spec fn deep_view(&self) -> PostgresConfigView {
        PostgresConfigView {
            host: self.host@,
            port: self.port,
            auth: self.auth.deep_view(),
        }
    }
}

/// Object-store credential pair of a backup intent.
#[derive(Clone, Debug, PartialEq, Eq)]
pub struct S3Auth {
    pub access: String,
    pub secret: String,
}

/// Mathematical model of an [`S3Auth`].
#[verifier::ext_equal]
pub struct S3AuthView {
    pub access: Seq<char>,
    pub secret: Seq<char>,
}

impl DeepView for S3Auth {
    type V = S3AuthView;

    open spec fn deep_view(&self) -> S3AuthView {
        S3AuthView { access: self.access@, secret: self.secret@ }
    }
}

/// The object store the backups are written to. Endpoint and region are
/// optional: absent means the provider's default, not an empty string.
#[derive(Clone, Debug, PartialEq, Eq)]
pub struct S3Config {
    pub endpoint: Option<String>,
    pub bucket: String,
    pub auth: S3Auth,
    pub region: Option<String>,
}

/// Mathematical model of an [`S3Config`].
#[verifier::ext_equal]
pub struct S3ConfigView {
    pub endpoint: Option<Seq<char>>,
    pub bucket: Seq<char>,
    pub auth: S3AuthView,
    pub region: Option<Seq<char>>,
}

impl DeepView for S3Config {
    type V = S3ConfigView;

    open spec fn deep_view(&self) -> S3ConfigView {
        S3ConfigView {
            endpoint: self.endpoint.deep_view(),
            bucket: self.bucket@,
            auth: self.auth.deep_view(),
            region: self.region.deep_view(),
        }
    }
}

/// The user-authored desired state: what to back up, where to put it,
/// and the cron expression governing recurring execution.
#[derive(Clone, Debug, PartialEq, Eq)]
pub struct B2BBackupSpec {
    pub postgres: PostgresConfig,
    pub s3: S3Config,
    pub schedule: String,
}

/// Mathematical model of a [`B2BBackupSpec`].
#[verifier::ext_equal]
pub struct B2BBackupSpecView {
    pub postgres: PostgresConfigView,
    pub s3: S3ConfigView,
    pub schedule: Seq<char>,
}

impl DeepView for B2BBackupSpec {
    type V = B2BBackupSpecView;

    open spec fn deep_view(&self) -> B2BBackupSpecView {
        B2BBackupSpecView {
            postgres: self.postgres.deep_view(),
            s3: self.s3.deep_view(),
            schedule: self.schedule@,
        }
    }
}

/// The controller-owned progress record, persisted as a status
/// sub-resource and absent until first written. Timestamps are seconds
/// of epoch time.
///
/// `test_pod_last_schedule_time` marks which backup success has already
/// been reacted to: when set, it was copied from a prior value of
/// `cronjob_last_successful_time`, never invented independently.
/// `test_pod_last_successful_time` is reserved for the verification
/// pod's own success signal; no code path writes it yet.
#[derive(Clone, Copy, Debug, PartialEq, Eq, Structural)]
pub struct B2BBackupStatus {
    pub cronjob_last_successful_time: Option<i64>,
    pub test_pod_last_schedule_time: Option<i64>,
    pub test_pod_last_successful_time: Option<i64>,
}

impl DeepView for B2BBackupStatus {
    type V = B2BBackupStatus;

    open spec fn deep_view(&self) -> B2BBackupStatus {
        *self
    }
}

/// A backup intent as observed on the cluster: identity, desired state,
/// and the status written back by this controller, if any.
#[derive(Clone, Debug, PartialEq, Eq)]
pub struct B2BBackup {
    pub name: String,
    pub namespace: Option<String>,
    pub uid: Option<String>,
    pub spec: B2BBackupSpec,
    pub status: Option<B2BBackupStatus>,
}

/// Mathematical model of a [`B2BBackup`].
#[verifier::ext_equal]
pub struct B2BBackupView {
    pub name: Seq<char>,
    pub namespace: Option<Seq<char>>,
    pub uid: Option<Seq<char>>,
    pub spec: B2BBackupSpecView,
    pub status: Option<B2BBackupStatus>,
}

impl DeepView for B2BBackup {
    type V = B2BBackupView;

    open spec fn deep_view(&self) -> B2BBackupView {
        B2BBackupView {
            name: self.name@,
            namespace: self.namespace.deep_view(),
            uid: self.uid.deep_view(),
            spec: self.spec.deep_view(),
            status: self.status.deep_view(),
        }
    }
}

/// The namespace a derived object lands in: the intent's own, or a fixed
/// fallback when the intent lacks one (a degraded edge case, not the
/// common path).
pub open spec fn spec_namespace_or_default(ns: Option<Seq<char>>) -> Seq<char> {
    match ns {
        Some(n) => n,
        None => "default"@,
    }
}

/// The owner reference every derived object carries: it points at the
/// intent, blocks deletion of the intent until the dependent is gone,
/// and marks the intent as the managing controller. Cascade deletion
/// rests on these two flags.
pub open spec fn spec_owner_reference(b: B2BBackupView) -> OwnerReferenceView {
    OwnerReferenceView {
        api_version: "b2b.moreiradj.fr/v1"@,
        kind: "B2BBackup"@,
        name: b.name,
        uid: b.uid->0,
        controller: Some(true),
        block_owner_deletion: Some(true),
    }
}

/// The label pair stamped on every derived object, so that a label
/// selector returns exactly the objects owned by one intent.
pub open spec fn spec_default_labels(name: Seq<char>) -> Seq<(Seq<char>, Seq<char>)> {
    seq![
        ("app.kubernetes.io/managed-by"@, name),
        ("b2b.moreiradj.fr/backup-name"@, name),
    ]
}

/// The fixed environment mapping from intent fields to the well-known
/// variable names the workload image reads. Optional store fields are
/// propagated as present-or-absent, never defaulted to empty strings.
pub open spec fn spec_backup_env(s: B2BBackupSpecView) -> Seq<EnvVarView> {
    seq![
        EnvVarView { name: "PGUSER"@, value: Some("postgres"@) },
        EnvVarView { name: "PGPASSWORD"@, value: Some(s.postgres.auth.password) },
        EnvVarView { name: "PGHOST"@, value: Some(s.postgres.host) },
        EnvVarView { name: "PGPORT"@, value: Some(spec_decimal(s.postgres.port as int)) },
        EnvVarView { name: "PGDUMP_DIR"@, value: Some("/tmp"@) },
        EnvVarView { name: "S3_ENDPOINT"@, value: s.s3.endpoint },
        EnvVarView { name: "AWS_ACCESS_KEY_ID"@, value: Some(s.s3.auth.access) },
        EnvVarView { name: "AWS_SECRET_ACCESS_KEY"@, value: Some(s.s3.auth.secret) },
        EnvVarView { name: "AWS_DEFAULT_REGION"@, value: s.s3.region },
    ]
}

/// The fixed, minimal security posture of the workload container. These
/// are constants of the design, never derived from the intent.
pub open spec fn spec_security_context() -> SecurityContextView {
    SecurityContextView {
        allow_privilege_escalation: false,
        capabilities_drop: seq!["ALL"@],
        read_only_root_filesystem: false,
        run_as_group: 0,
        run_as_non_root: false,
        run_as_user: 0,
        seccomp_profile_type: "RuntimeDefault"@,
    }
}

/// The desired recurring backup job for one intent: same name and
/// namespace as the intent, owned by it, labelled for discovery,
/// scheduled verbatim, replacing overlapping runs, retrying on failure.
pub open spec fn spec_cronjob(b: B2BBackupView) -> CronJobView {
    CronJobView {
        name: b.name,
        namespace: spec_namespace_or_default(b.namespace),
        labels: spec_default_labels(b.name),
        owner_references: seq![spec_owner_reference(b)],
        schedule: b.spec.schedule,
        concurrency_policy: "Replace"@,
        job_name: b.name + "-pgdump"@,
        job_labels: spec_default_labels(b.name),
        container: ContainerView {
            name: b.name + "-pgdump"@,
            image: "ghcr.io/mmoreiradj/back2back-postgres-backup:latest"@,
            image_pull_policy: "IfNotPresent"@,
            env: spec_backup_env(b.spec),
            security_context: spec_security_context(),
            termination_message_path: "/dev/termination-log"@,
            termination_message_policy: "File"@,
        },
        restart_policy: "OnFailure"@,
        status: None,
    }
}

/// The desired verification pod for one intent: a single-run restore
/// check, owned by the intent, named by the cluster from a fixed prefix
/// so repeated creations never collide.
pub open spec fn spec_test_pod(b: B2BBackupView) -> TestPodView {
    TestPodView {
        generate_name: b.name + "-test-"@,
        namespace: spec_namespace_or_default(b.namespace),
        labels: spec_default_labels(b.name),
        owner_references: seq![spec_owner_reference(b)],
        container: ContainerView {
            name: b.name + "-test"@,
            image: "ghcr.io/mmoreiradj/back2back-postgres-restore-check:latest"@,
            image_pull_policy: "IfNotPresent"@,
            env: spec_backup_env(b.spec),
            security_context: spec_security_context(),
            termination_message_path: "/dev/termination-log"@,
            termination_message_policy: "File"@,
        },
        restart_policy: "Never"@,
    }
}

/// Clones an optional string, keeping presence and contents.
fn clone_opt_string(v: &Option<String>) -> (r: Option<String>)
    ensures
        r.deep_view() == v.deep_view(),
{
    match v {
        Some(s) => Some(s.clone()),
        None => None,
    }
}

impl B2BBackup {
    /// The owner reference of every object derived from this intent.
    /// The intent must already carry its cluster-assigned identifier.
    pub fn build_owner_reference(&self) -> (r: OwnerReference)
        requires
            self.uid is Some,
        ensures
            r.deep_view() == spec_owner_reference(self.deep_view()),
    {
        let r = OwnerReference {
            api_version: "b2b.moreiradj.fr/v1".to_owned(),
            kind: "B2BBackup".to_owned(),
            name: self.name.clone(),
            uid: self.uid.as_ref().unwrap().clone(),
            controller: Some(true),
            block_owner_deletion: Some(true),
        };
        proof {
            assert(r.deep_view() =~= spec_owner_reference(self.deep_view()));
        }
        r
    }

    /// The label pair stamped on every object derived from this intent.
    pub fn default_labels(&self) -> (r: Vec<(String, String)>)
        ensures
            r.deep_view() == spec_default_labels(self.name@),
    {
        let mut labels: Vec<(String, String)> = Vec::new();
        labels.push(("app.kubernetes.io/managed-by".to_owned(), self.name.clone()));
        labels.push(("b2b.moreiradj.fr/backup-name".to_owned(), self.name.clone()));
        proof {
            assert(labels.deep_view() =~= spec_default_labels(self.name@));
        }
        labels
    }

    /// The environment handed to the workload container, derived
    /// entirely from the intent's database and object-store fields.
    fn backup_env(&self) -> (r: Vec<EnvVar>)
        ensures
            r.deep_view() == spec_backup_env(self.spec.deep_view()),
    {
        let mut env: Vec<EnvVar> = Vec::new();
        env.push(EnvVar { name: "PGUSER".to_owned(), value: Some("postgres".to_owned()) });
        env.push(EnvVar {
            name: "PGPASSWORD".to_owned(),
            value: Some(self.spec.postgres.auth.password.clone()),
        });
        env.push(EnvVar { name: "PGHOST".to_owned(), value: Some(self.spec.postgres.host.clone()) });
        env.push(EnvVar {
            name: "PGPORT".to_owned(),
            value: Some(u16_to_decimal(self.spec.postgres.port)),
        });
        env.push(EnvVar { name: "PGDUMP_DIR".to_owned(), value: Some("/tmp".to_owned()) });
        env.push(EnvVar { name: "S3_ENDPOINT".to_owned(), value: clone_opt_string(&self.spec.s3.endpoint) });
        env.push(EnvVar {
            name: "AWS_ACCESS_KEY_ID".to_owned(),
            value: Some(self.spec.s3.auth.access.clone()),
        });
        env.push(EnvVar {
            name: "AWS_SECRET_ACCESS_KEY".to_owned(),
            value: Some(self.spec.s3.auth.secret.clone()),
        });
        env.push(EnvVar { name: "AWS_DEFAULT_REGION".to_owned(), value: clone_opt_string(&self.spec.s3.region) });
        proof {
            assert(env.deep_view() =~= spec_backup_env(self.spec.deep_view()));
        }
        env
    }

    /// The fixed security posture of the workload container.
    fn default_security_context() -> (r: SecurityContext)
        ensures
            r.deep_view() == spec_security_context(),
    {
        let mut drop_caps: Vec<String> = Vec::new();
        drop_caps.push("ALL".to_owned());
        let r = SecurityContext {
            allow_privilege_escalation: false,
            capabilities_drop: drop_caps,
            read_only_root_filesystem: false,
            run_as_group: 0,
            run_as_non_root: false,
            run_as_user: 0,
            seccomp_profile_type: "RuntimeDefault".to_owned(),
        };
        proof {
            assert(r.deep_view() =~= spec_security_context());
        }
        r
    }

    /// The namespace derived objects land in.
    fn namespace_or_default(&self) -> (r: String)
        ensures
            r@ == spec_namespace_or_default(self.namespace.deep_view()),
    {
        match &self.namespace {
            Some(n) => n.clone(),
            None => "default".to_owned(),
        }
    }

    /// Builds the desired recurring backup job for this intent. Pure and
    /// deterministic: the result is a function of the intent alone.
    pub fn create_cronjob(&self) -> (r: CronJob)
        requires
            self.uid is Some,
        ensures
            r.deep_view() == spec_cronjob(self.deep_view()),
    {
        let suffixed_name = self.name.clone().concat("-pgdump");
        let r = CronJob {
            name: self.name.clone(),
            namespace: self.namespace_or_default(),
            labels: self.default_labels(),
            owner_references: vec![self.build_owner_reference()],
            schedule: self.spec.schedule.clone(),
            concurrency_policy: "Replace".to_owned(),
            job_name: suffixed_name.clone(),
            job_labels: self.default_labels(),
            container: Container {
                name: suffixed_name,
                image: "ghcr.io/mmoreiradj/back2back-postgres-backup:latest".to_owned(),
                image_pull_policy: "IfNotPresent".to_owned(),
                env: self.backup_env(),
                security_context: Self::default_security_context(),
                termination_message_path: "/dev/termination-log".to_owned(),
                termination_message_policy: "File".to_owned(),
            },
            restart_policy: "OnFailure".to_owned(),
            status: None,
        };
        proof {
            assert(r.deep_view() =~= spec_cronjob(self.deep_view()));
        }
        r
    }

    /// Builds the desired verification pod for this intent. Pure and
    /// deterministic: the result is a function of the intent alone.
    pub fn create_test_postgres_pod(&self) -> (r: TestPod)
        requires
            self.uid is Some,
        ensures
            r.deep_view() == spec_test_pod(self.deep_view()),
    {
        let r = TestPod {
            generate_name: self.name.clone().concat("-test-"),
            namespace: self.namespace_or_default(),
            labels: self.default_labels(),
            owner_references: vec![self.build_owner_reference()],
            container: Container {
                name: self.name.clone().concat("-test"),
                image: "ghcr.io/mmoreiradj/back2back-postgres-restore-check:latest".to_owned(),
                image_pull_policy: "IfNotPresent".to_owned(),
                env: self.backup_env(),
                security_context: Self::default_security_context(),
                termination_message_path: "/dev/termination-log".to_owned(),
                termination_message_policy: "File".to_owned(),
            },
            restart_policy: "Never".to_owned(),
        };
        proof {
            assert(r.deep_view() =~= spec_test_pod(self.deep_view()));
        }
        r
    }
}

/// For a fixed intent, rebuilding the recurring job yields an identical
/// object: in particular, identical environment entries and an identical
/// owner reference. Both builders are functions of the intent alone, so
/// two results for the same intent cannot differ.
pub proof fn lemma_rebuild_is_identical(b: B2BBackupView, j1: CronJobView, j2: CronJobView)
    requires
        j1 == spec_cronjob(b),
        j2 == spec_cronjob(b),
    ensures
        j1.container.env == j2.container.env,
        j1.owner_references == j2.owner_references,
        j1 == j2,
{
}

/// Whether a character is an ASCII letter or digit.
pub open spec fn is_ascii_alphanumeric_char(c: char) -> bool {
    ||| 'a' <= c && c <= 'z'
    ||| 'A' <= c && c <= 'Z'
    ||| '0' <= c && c <= '9'
}

/// A fresh random identifier fragment.
///
/// Relies on rand's `Alphanumeric` distribution: each sampled byte is an
/// ASCII letter or digit, and exactly `length` of them are taken. The
/// contents are random, so nothing more is promised of them.
#[verifier::external_body]
pub fn generate_random_string(length: usize) -> (r: String)
    ensures
        r@.len() == length,
        forall|i: int| 0 <= i < r@.len() ==> is_ascii_alphanumeric_char(r@[i]),
{
    thread_rng().sample_iter(&Alphanumeric).take(length).map(char::from).collect()
}

} // verus!
