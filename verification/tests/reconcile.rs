use back2back::B2BBackup;
use back2back::B2BBackupSpec;
use back2back::B2BBackupStatus;
use back2back::CronJob;
use back2back::CronJobStatus;
use back2back::PostgresAuth;
use back2back::PostgresConfig;
use back2back::ReconcileAction;
use back2back::ReconcileState;
use back2back::S3Auth;
use back2back::S3Config;
use back2back::classify;
use back2back::error_policy;
use back2back::reconcile_step;

fn intent_with_status(status: Option<B2BBackupStatus>) -> B2BBackup {
    B2BBackup {
        name: "db".to_string(),
        namespace: Some("ns".to_string()),
        uid: Some("uid-1".to_string()),
        spec: B2BBackupSpec {
            postgres: PostgresConfig {
                host: "db".to_string(),
                port: 5432,
                auth: PostgresAuth { password: "p".to_string() },
            },
            s3: S3Config {
                endpoint: None,
                bucket: "b".to_string(),
                auth: S3Auth { access: "a".to_string(), secret: "s".to_string() },
                region: None,
            },
            schedule: "0 * * * *".to_string(),
        },
        status,
    }
}

fn observed_job(intent: &B2BBackup, last_successful_time: Option<i64>) -> CronJob {
    let mut job = intent.create_cronjob();
    job.status = Some(CronJobStatus { last_successful_time });
    job
}

#[test]
fn missing_job_is_created_once() {
    let intent = intent_with_status(None);
    let outcome = reconcile_step(&intent, None);
    assert_eq!(outcome.requeue_after_seconds, 60);
    match outcome.action {
        ReconcileAction::CreateRecurringJob(job) => {
            assert_eq!(job.name, intent.name);
            assert_eq!(job.owner_references.len(), 1);
            assert_eq!(job.owner_references[0].name, intent.name);
            assert_eq!(job.owner_references[0].uid, "uid-1");
            assert_eq!(job.owner_references[0].controller, Some(true));
            assert_eq!(job.owner_references[0].block_owner_deletion, Some(true));
        }
        _ => panic!("expected a single create of the recurring job"),
    }
}

#[test]
fn existing_job_is_never_recreated() {
    let intent = intent_with_status(None);
    // Whatever run history the existing job shows, no second create comes.
    for last in [None, Some(5_i64)] {
        let job = observed_job(&intent, last);
        let outcome = reconcile_step(&intent, Some(&job));
        assert_eq!(outcome.requeue_after_seconds, 60);
        assert!(!matches!(outcome.action, ReconcileAction::CreateRecurringJob(_)));
    }
    let mut no_status = intent.create_cronjob();
    no_status.status = None;
    let outcome = reconcile_step(&intent, Some(&no_status));
    assert!(matches!(outcome.action, ReconcileAction::DoNothing));
}

#[test]
fn first_observed_success_initializes_status() {
    let intent = intent_with_status(None);
    let job = observed_job(&intent, Some(1_700_000_000));
    let outcome = reconcile_step(&intent, Some(&job));
    assert_eq!(outcome.requeue_after_seconds, 60);
    match outcome.action {
        ReconcileAction::WriteInitialStatus(status) => {
            assert_eq!(status.cronjob_last_successful_time, Some(1_700_000_000));
            assert_eq!(status.test_pod_last_schedule_time, None);
            assert_eq!(status.test_pod_last_successful_time, None);
        }
        _ => panic!("expected the initial status write"),
    }
}

#[test]
fn reacted_success_spawns_no_verification() {
    let t1 = 1_700_000_000_i64;
    let intent = intent_with_status(Some(B2BBackupStatus {
        cronjob_last_successful_time: Some(t1),
        test_pod_last_schedule_time: Some(t1),
        test_pod_last_successful_time: None,
    }));
    let job = observed_job(&intent, Some(t1));
    let outcome = reconcile_step(&intent, Some(&job));
    assert_eq!(outcome.requeue_after_seconds, 60);
    assert!(matches!(outcome.action, ReconcileAction::DoNothing));
}

#[test]
fn unreacted_success_schedules_one_verification() {
    let t1 = 1_700_000_000_i64;
    let t2 = 1_700_003_600_i64;
    let intent = intent_with_status(Some(B2BBackupStatus {
        cronjob_last_successful_time: Some(t2),
        test_pod_last_schedule_time: Some(t1),
        test_pod_last_successful_time: None,
    }));
    let job = observed_job(&intent, Some(t2));
    let outcome = reconcile_step(&intent, Some(&job));
    assert_eq!(outcome.requeue_after_seconds, 60);
    match outcome.action {
        ReconcileAction::CreateVerificationJob(pod, status) => {
            assert_eq!(pod, intent.create_test_postgres_pod());
            assert_eq!(status.cronjob_last_successful_time, Some(t2));
            assert_eq!(status.test_pod_last_schedule_time, Some(t2));
            assert_eq!(status.test_pod_last_successful_time, None);
        }
        _ => panic!("expected exactly one verification pod"),
    }
}

#[test]
fn a_success_never_reacted_to_counts_as_due() {
    // The schedule marker set while the success record is empty cannot
    // happen through this controller, but an outside writer could leave
    // it; the inequality still classifies as due.
    let intent = intent_with_status(Some(B2BBackupStatus {
        cronjob_last_successful_time: Some(7),
        test_pod_last_schedule_time: None,
        test_pod_last_successful_time: None,
    }));
    let job = observed_job(&intent, Some(7));
    assert_eq!(classify(&intent, Some(&job)), ReconcileState::VerificationDue);
}

#[test]
fn classification_covers_all_five_states() {
    let bare = intent_with_status(None);
    assert_eq!(classify(&bare, None), ReconcileState::NoRecurringJob);

    let pending = observed_job(&bare, None);
    assert_eq!(classify(&bare, Some(&pending)), ReconcileState::RecurringJobPending);

    let succeeded = observed_job(&bare, Some(42));
    assert_eq!(classify(&bare, Some(&succeeded)), ReconcileState::StatusUninitialized);

    let due = intent_with_status(Some(B2BBackupStatus {
        cronjob_last_successful_time: Some(42),
        test_pod_last_schedule_time: None,
        test_pod_last_successful_time: None,
    }));
    assert_eq!(classify(&due, Some(&succeeded)), ReconcileState::VerificationDue);

    let steady = intent_with_status(Some(B2BBackupStatus {
        cronjob_last_successful_time: Some(42),
        test_pod_last_schedule_time: Some(42),
        test_pod_last_successful_time: None,
    }));
    assert_eq!(classify(&steady, Some(&succeeded)), ReconcileState::Steady);
}

#[test]
fn fresh_intent_with_no_cluster_state_requeues_in_a_minute() {
    let intent = B2BBackup {
        name: "intent".to_string(),
        namespace: Some("ns".to_string()),
        uid: Some("uid-7".to_string()),
        spec: B2BBackupSpec {
            postgres: PostgresConfig {
                host: "db".to_string(),
                port: 5432,
                auth: PostgresAuth { password: "p".to_string() },
            },
            s3: S3Config {
                endpoint: None,
                bucket: "b".to_string(),
                auth: S3Auth { access: "a".to_string(), secret: "s".to_string() },
                region: None,
            },
            schedule: "0 * * * *".to_string(),
        },
        status: None,
    };
    let outcome = reconcile_step(&intent, None);
    assert_eq!(outcome.requeue_after_seconds, 60);
    match outcome.action {
        ReconcileAction::CreateRecurringJob(job) => {
            assert_eq!(job.schedule, "0 * * * *");
            let host = job
                .container
                .env
                .iter()
                .find(|e| e.name == "PGHOST")
                .and_then(|e| e.value.clone());
            assert_eq!(host, Some("db".to_string()));
        }
        _ => panic!("expected exactly one recurring job to be created"),
    }
}

#[test]
fn every_failure_retries_at_the_fixed_interval() {
    assert_eq!(error_policy(), 60);
}
